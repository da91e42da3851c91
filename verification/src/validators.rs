//! Structural checks on a submitted member state.
//!
//! A state is checked rule by rule, in a fixed order: the length of each bounded
//! part in the order of the table, then the collection log entry by entry. The
//! first rule that is broken decides the error; nothing is ever corrected.

use crate::collection_log::{CollectionLog, CollectionLogInfo};
use crate::error::{ValidationError, ValidationErrorView};
use crate::models::{member_fields, GroupMember, MemberField};
use vstd::prelude::*;

verus! {

/// The outcome of a check, with the error as plain values.
pub open spec fn outcome(r: Result<(), ValidationError>) -> Result<(), ValidationErrorView> {
    match r {
        Ok(()) => Ok(()),
        Err(e) => Err(e@),
    }
}

/// What checking a sub-document of `len` items against `[min, max]` gives.
pub open spec fn length_check(field_name: Seq<char>, len: int, min: int, max: int) -> Result<
    (),
    ValidationErrorView,
> {
    if min <= len <= max {
        Ok(())
    } else {
        Err(ValidationErrorView::LengthOutOfRange { field: field_name, actual: len, min, max })
    }
}

/// Checks that `collection` holds at least `min` and at most `max` items.
/// The collection is never truncated or padded: it is accepted or refused as it is.
pub fn validate_member_prop_length<T>(
    field_name: &str,
    collection: &Vec<T>,
    min: usize,
    max: usize,
) -> (r: Result<(), ValidationError>)
    ensures
        outcome(r) == length_check(
            field_name@,
            collection@.len() as int,
            min as int,
            max as int,
        ),
{
    let len = collection.len();
    if len < min || len > max {
        Err(
            ValidationError::LengthOutOfRange {
                field: field_name.to_owned(),
                actual: len,
                min,
                max,
            },
        )
    } else {
        Ok(())
    }
}

/// Whether the item at `k` is the first of `entry` that the schema does not list
/// for the entry's page.
pub open spec fn is_first_unknown_item(
    info: &CollectionLogInfo,
    entry: &CollectionLog,
    k: int,
) -> bool {
    &&& 0 <= k < entry.items@.len()
    &&& !info.knows_item(entry.page_name@, entry.items@[k])
    &&& forall|j: int| 0 <= j < k ==> info.knows_item(entry.page_name@, #[trigger] entry.items@[j])
}

/// Whether `e` names the first key of `entry` that the schema does not list:
/// its page if that is unknown, else the first of its items that the page does not hold.
pub open spec fn names_first_unknown_key(
    info: &CollectionLogInfo,
    entry: &CollectionLog,
    e: ValidationErrorView,
) -> bool {
    if !info.knows_page(entry.page_name@) {
        e == (ValidationErrorView::UnknownPage { page: entry.page_name@ })
    } else {
        exists|k: int| #[trigger]
            is_first_unknown_item(info, entry, k) && e == (ValidationErrorView::UnknownItem {
                page: entry.page_name@,
                item: entry.items@[k] as int,
            })
    }
}

/// Checks one submitted entry against the schema.
pub fn validate_collection_log_entry(info: &CollectionLogInfo, entry: &CollectionLog) -> (r: Result<
    (),
    ValidationError,
>)
    ensures
        r is Ok <==> entry.known_to(info),
        r matches Err(e) ==> names_first_unknown_key(info, entry, e@),
{
    if !info.has_page(entry.page_name.as_str()) {
        return Err(ValidationError::UnknownPage { page: entry.page_name.clone() });
    }
    let mut k: usize = 0;
    while k < entry.items.len()
        invariant
            k <= entry.items@.len(),
            info.knows_page(entry.page_name@),
            forall|j: int|
                0 <= j < k ==> info.knows_item(entry.page_name@, #[trigger] entry.items@[j]),
        decreases entry.items@.len() - k,
    {
        let item = entry.items[k];
        if !info.has_item(entry.page_name.as_str(), item) {
            assert(is_first_unknown_item(info, entry, k as int));
            return Err(ValidationError::UnknownItem { page: entry.page_name.clone(), item });
        }
        k += 1;
    }
    Ok(())
}

/// Whether the entry at `i` is the first of `log` that the schema does not accept.
pub open spec fn is_first_unknown_entry(
    info: &CollectionLogInfo,
    log: Seq<CollectionLog>,
    i: int,
) -> bool {
    &&& 0 <= i < log.len()
    &&& !log[i].known_to(info)
    &&& forall|j: int| 0 <= j < i ==> (#[trigger] log[j]).known_to(info)
}

/// Whether `e` names the first key of `log` that the schema does not list.
pub open spec fn names_first_unknown_entry(
    info: &CollectionLogInfo,
    log: Seq<CollectionLog>,
    e: ValidationErrorView,
) -> bool {
    exists|i: int| #[trigger]
        is_first_unknown_entry(info, log, i) && names_first_unknown_key(info, &log[i], e)
}

/// Whether the schema lists every page and every item of `log`.
pub open spec fn collection_log_known(info: &CollectionLogInfo, log: Seq<CollectionLog>) -> bool {
    forall|i: int| 0 <= i < log.len() ==> (#[trigger] log[i]).known_to(info)
}

/// Checks a submitted collection log against the reference schema: every page and every
/// item of every entry must be listed there. The first key that is not decides the error.
/// Neither the schema nor the submission is changed.
pub fn validate_collection_log(info: &CollectionLogInfo, log: &Vec<CollectionLog>) -> (r: Result<
    (),
    ValidationError,
>)
    ensures
        r is Ok <==> collection_log_known(info, log@),
        r matches Err(e) ==> names_first_unknown_entry(info, log@, e@),
{
    let mut i: usize = 0;
    while i < log.len()
        invariant
            i <= log@.len(),
            forall|j: int| 0 <= j < i ==> (#[trigger] log@[j]).known_to(info),
        decreases log@.len() - i,
    {
        match validate_collection_log_entry(info, &log[i]) {
            Ok(()) => {},
            Err(e) => {
                assert(is_first_unknown_entry(info, log@, i as int));
                return Err(e);
            },
        }
        i += 1;
    }
    Ok(())
}

/// The error for a part of the member's state that has a length outside its bounds.
pub open spec fn length_fault(member: &GroupMember, field: MemberField) -> ValidationErrorView {
    ValidationErrorView::LengthOutOfRange {
        field: field.name_text(),
        actual: member.part(field).len() as int,
        min: field.min_len(),
        max: field.max_len(),
    }
}

/// Whether every bounded part of the member's state has an allowed length.
pub open spec fn lengths_fit(member: &GroupMember) -> bool {
    forall|i: int| 0 <= i < member_fields().len() ==> member.fits(#[trigger] member_fields()[i])
}

/// Whether the part at `i` of the table is the first whose length lies outside its bounds.
pub open spec fn is_first_misfit(member: &GroupMember, i: int) -> bool {
    &&& 0 <= i < member_fields().len()
    &&& !member.fits(member_fields()[i])
    &&& forall|j: int| 0 <= j < i ==> member.fits(#[trigger] member_fields()[j])
}

/// Whether `e` reports the first bounded part, in the order of the table, whose
/// length lies outside its bounds.
pub open spec fn names_first_misfit(member: &GroupMember, e: ValidationErrorView) -> bool {
    exists|i: int| #[trigger]
        is_first_misfit(member, i) && e == length_fault(member, member_fields()[i])
}

/// Whether the member's state can be stored: every bounded part has an allowed
/// length and the schema lists every key of the collection log.
pub open spec fn member_state_valid(member: &GroupMember, info: &CollectionLogInfo) -> bool {
    lengths_fit(member) && collection_log_known(info, member.collection_log@)
}

/// Whether `e` is the error of the first rule that the member's state breaks:
/// the lengths in the order of the table, then the collection log.
pub open spec fn names_first_broken_rule(
    member: &GroupMember,
    info: &CollectionLogInfo,
    e: ValidationErrorView,
) -> bool {
    if lengths_fit(member) {
        names_first_unknown_entry(info, member.collection_log@, e)
    } else {
        names_first_misfit(member, e)
    }
}

/// The error of the first rule that the member's state breaks, where it breaks one.
pub open spec fn first_broken_rule(
    member: &GroupMember,
    info: &CollectionLogInfo,
) -> ValidationErrorView {
    choose|e: ValidationErrorView| names_first_broken_rule(member, info, e)
}

/// What checking a member's state gives: nothing to object to, or the error of
/// the first rule that it breaks.
pub open spec fn member_check(member: &GroupMember, info: &CollectionLogInfo) -> Result<
    (),
    ValidationErrorView,
> {
    if member_state_valid(member, info) {
        Ok(())
    } else {
        Err(first_broken_rule(member, info))
    }
}

/// At most one error is that of the first key of an entry that the schema does not list.
pub proof fn lemma_first_unknown_key_unique(
    info: &CollectionLogInfo,
    entry: &CollectionLog,
    e1: ValidationErrorView,
    e2: ValidationErrorView,
)
    requires
        names_first_unknown_key(info, entry, e1),
        names_first_unknown_key(info, entry, e2),
    ensures
        e1 == e2,
{
    if info.knows_page(entry.page_name@) {
        let k1 = choose|k: int| #[trigger]
            is_first_unknown_item(info, entry, k) && e1 == (ValidationErrorView::UnknownItem {
                page: entry.page_name@,
                item: entry.items@[k] as int,
            });
        let k2 = choose|k: int| #[trigger]
            is_first_unknown_item(info, entry, k) && e2 == (ValidationErrorView::UnknownItem {
                page: entry.page_name@,
                item: entry.items@[k] as int,
            });
        if k1 < k2 {
            assert(info.knows_item(entry.page_name@, entry.items@[k1]));
        } else if k2 < k1 {
            assert(info.knows_item(entry.page_name@, entry.items@[k2]));
        }
    }
}

/// At most one error is that of the first rule that a member's state breaks.
pub proof fn lemma_first_broken_rule_unique(
    member: &GroupMember,
    info: &CollectionLogInfo,
    e1: ValidationErrorView,
    e2: ValidationErrorView,
)
    requires
        names_first_broken_rule(member, info, e1),
        names_first_broken_rule(member, info, e2),
    ensures
        e1 == e2,
{
    if lengths_fit(member) {
        let log = member.collection_log@;
        let i1 = choose|i: int| #[trigger]
            is_first_unknown_entry(info, log, i) && names_first_unknown_key(info, &log[i], e1);
        let i2 = choose|i: int| #[trigger]
            is_first_unknown_entry(info, log, i) && names_first_unknown_key(info, &log[i], e2);
        if i1 < i2 {
            assert(log[i1].known_to(info));
        } else if i2 < i1 {
            assert(log[i2].known_to(info));
        } else {
            lemma_first_unknown_key_unique(info, &log[i1], e1, e2);
        }
    } else {
        let i1 = choose|i: int| #[trigger]
            is_first_misfit(member, i) && e1 == length_fault(member, member_fields()[i]);
        let i2 = choose|i: int| #[trigger]
            is_first_misfit(member, i) && e2 == length_fault(member, member_fields()[i]);
        if i1 < i2 {
            assert(member.fits(member_fields()[i1]));
        } else if i2 < i1 {
            assert(member.fits(member_fields()[i2]));
        }
    }
}

/// The table of bounded parts lists every part.
pub proof fn lemma_member_fields_complete(field: MemberField)
    ensures
        exists|i: int| 0 <= i < member_fields().len() && #[trigger] member_fields()[i] == field,
{
    match field {
        MemberField::Stats => assert(member_fields()[0] == field),
        MemberField::Coordinates => assert(member_fields()[1] == field),
        MemberField::Skills => assert(member_fields()[2] == field),
        MemberField::Quests => assert(member_fields()[3] == field),
        MemberField::Inventory => assert(member_fields()[4] == field),
        MemberField::Equipment => assert(member_fields()[5] == field),
        MemberField::Bank => assert(member_fields()[6] == field),
        MemberField::SharedBank => assert(member_fields()[7] == field),
        MemberField::RunePouch => assert(member_fields()[8] == field),
        MemberField::SeedVault => assert(member_fields()[9] == field),
        MemberField::Deposited => assert(member_fields()[10] == field),
        MemberField::DiaryVars => assert(member_fields()[11] == field),
    }
}

/// A part whose length lies outside its bounds, while every other part fits,
/// makes the check fail with the error that names that part.
pub proof fn lemma_misfit_is_named(
    member: &GroupMember,
    info: &CollectionLogInfo,
    field: MemberField,
)
    requires
        !member.fits(field),
        forall|other: MemberField| other != field ==> #[trigger] member.fits(other),
    ensures
        member_check(member, info) == Err::<(), ValidationErrorView>(length_fault(member, field)),
{
    lemma_member_fields_complete(field);
    let i = choose|i: int| 0 <= i < member_fields().len() && #[trigger] member_fields()[i] == field;
    assert forall|j: int| 0 <= j < i implies member.fits(#[trigger] member_fields()[j]) by {
        assert(member_fields()[j] != member_fields()[i]);
    }
    assert(is_first_misfit(member, i));
    let e = length_fault(member, field);
    assert(names_first_broken_rule(member, info, e));
    lemma_first_broken_rule_unique(member, info, e, first_broken_rule(member, info));
}

/// Where some part does not fit, one of them is the first.
proof fn lemma_some_misfit_is_first(member: &GroupMember, i: int)
    requires
        0 <= i < member_fields().len(),
        !member.fits(member_fields()[i]),
    ensures
        exists|e: ValidationErrorView| names_first_misfit(member, e),
    decreases i,
{
    if is_first_misfit(member, i) {
        assert(names_first_misfit(member, length_fault(member, member_fields()[i])));
    } else {
        let j = choose|j: int| 0 <= j < i && !member.fits(#[trigger] member_fields()[j]);
        lemma_some_misfit_is_first(member, j);
    }
}

/// An entry with an item that its page does not hold has a first such item.
proof fn lemma_some_item_is_first(info: &CollectionLogInfo, entry: &CollectionLog, k: int)
    requires
        0 <= k < entry.items@.len(),
        !info.knows_item(entry.page_name@, entry.items@[k]),
    ensures
        exists|first: int| is_first_unknown_item(info, entry, first),
    decreases k,
{
    if !is_first_unknown_item(info, entry, k) {
        let j = choose|j: int|
            0 <= j < k && !info.knows_item(entry.page_name@, #[trigger] entry.items@[j]);
        lemma_some_item_is_first(info, entry, j);
    }
}

/// An entry that the schema does not accept has a first key that is not listed.
proof fn lemma_some_key_is_first(info: &CollectionLogInfo, entry: &CollectionLog)
    requires
        !entry.known_to(info),
    ensures
        exists|e: ValidationErrorView| names_first_unknown_key(info, entry, e),
{
    if !info.knows_page(entry.page_name@) {
        assert(names_first_unknown_key(
            info,
            entry,
            ValidationErrorView::UnknownPage { page: entry.page_name@ },
        ));
    } else {
        let k = choose|k: int|
            0 <= k < entry.items@.len() && !info.knows_item(
                entry.page_name@,
                #[trigger] entry.items@[k],
            );
        lemma_some_item_is_first(info, entry, k);
        let first = choose|first: int| is_first_unknown_item(info, entry, first);
        assert(names_first_unknown_key(
            info,
            entry,
            ValidationErrorView::UnknownItem {
                page: entry.page_name@,
                item: entry.items@[first] as int,
            },
        ));
    }
}

/// Where the schema does not accept some entry, one of them is the first.
proof fn lemma_some_entry_is_first(info: &CollectionLogInfo, log: Seq<CollectionLog>, i: int)
    requires
        0 <= i < log.len(),
        !log[i].known_to(info),
    ensures
        exists|e: ValidationErrorView| names_first_unknown_entry(info, log, e),
    decreases i,
{
    if is_first_unknown_entry(info, log, i) {
        lemma_some_key_is_first(info, &log[i]);
        let e = choose|e: ValidationErrorView| names_first_unknown_key(info, &log[i], e);
        assert(names_first_unknown_entry(info, log, e));
    } else {
        let j = choose|j: int| 0 <= j < i && !(#[trigger] log[j]).known_to(info);
        lemma_some_entry_is_first(info, log, j);
    }
}

/// Whether each bounded part of the member's state, whichever it is, has an allowed length.
pub open spec fn every_part_fits(member: &GroupMember) -> bool {
    forall|field: MemberField| #[trigger] member.fits(field)
}

/// A state is accepted exactly when each part's length lies within that part's
/// bounds and the schema lists every key of the collection log; a state that is
/// not accepted is refused with the error of the first rule that it breaks.
pub proof fn lemma_member_check(member: &GroupMember, info: &CollectionLogInfo)
    ensures
        member_check(member, info) is Ok <==> every_part_fits(member) && collection_log_known(
            info,
            member.collection_log@,
        ),
        member_check(member, info) matches Err(e) ==> names_first_broken_rule(member, info, e),
{
    if lengths_fit(member) {
        assert forall|field: MemberField| #[trigger] member.fits(field) by {
            lemma_member_fields_complete(field);
        }
    }
    if !member_state_valid(member, info) {
        if lengths_fit(member) {
            let log = member.collection_log@;
            let i = choose|i: int| 0 <= i < log.len() && !(#[trigger] log[i]).known_to(info);
            lemma_some_entry_is_first(info, log, i);
            let e = choose|e: ValidationErrorView| names_first_unknown_entry(info, log, e);
            assert(names_first_broken_rule(member, info, e));
        } else {
            let i = choose|i: int|
                0 <= i < member_fields().len() && !member.fits(#[trigger] member_fields()[i]);
            lemma_some_misfit_is_first(member, i);
            let e = choose|e: ValidationErrorView| names_first_misfit(member, e);
            assert(names_first_broken_rule(member, info, e));
        }
    }
}

fn check_field(member: &GroupMember, field: MemberField) -> (r: Result<(), ValidationError>)
    ensures
        r is Ok <==> member.fits(field),
        r matches Err(e) ==> e@ == length_fault(member, field),
{
    validate_member_prop_length(field.name(), member.field(field), field.min(), field.max())
}

fn check_group_member(member: &GroupMember, info: &CollectionLogInfo) -> (r: Result<
    (),
    ValidationError,
>)
    ensures
        r is Ok <==> member_state_valid(member, info),
        r matches Err(e) ==> names_first_broken_rule(member, info, e@),
{
    let fields = [
        MemberField::Stats,
        MemberField::Coordinates,
        MemberField::Skills,
        MemberField::Quests,
        MemberField::Inventory,
        MemberField::Equipment,
        MemberField::Bank,
        MemberField::SharedBank,
        MemberField::RunePouch,
        MemberField::SeedVault,
        MemberField::Deposited,
        MemberField::DiaryVars,
    ];
    assert(fields@ =~= member_fields());
    let mut i: usize = 0;
    while i < 12
        invariant
            i <= 12,
            fields@ == member_fields(),
            forall|j: int| 0 <= j < i ==> member.fits(#[trigger] member_fields()[j]),
        decreases 12 - i,
    {
        match check_field(member, fields[i]) {
            Ok(()) => {},
            Err(e) => {
                assert(is_first_misfit(member, i as int));
                return Err(e);
            },
        }
        i += 1;
    }
    validate_collection_log(info, &member.collection_log)
}

/// Checks the whole of a submitted member state: the length of each bounded part,
/// in the order of the table, then the collection log against the schema.
/// The first rule that is broken decides the error, and nothing after it is looked at.
pub fn validate_group_member(member: &GroupMember, info: &CollectionLogInfo) -> (r: Result<
    (),
    ValidationError,
>)
    ensures
        outcome(r) == member_check(member, info),
        r matches Err(e) ==> names_first_broken_rule(member, info, e@),
{
    let r = check_group_member(member, info);
    proof {
        if r is Err {
            lemma_first_broken_rule_unique(
                member,
                info,
                r->Err_0@,
                first_broken_rule(member, info),
            );
        }
    }
    r
}

} // verus!
