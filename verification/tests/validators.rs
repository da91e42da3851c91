use groupironman::collection_log::{CollectionLog, CollectionLogInfo, CollectionLogPage};
use groupironman::error::ValidationError;
use groupironman::models::{GroupMember, MemberField};
use groupironman::validators::{
    validate_collection_log, validate_collection_log_entry, validate_group_member,
    validate_member_prop_length,
};

fn schema() -> CollectionLogInfo {
    CollectionLogInfo {
        pages: vec![
            CollectionLogPage { name: "Abyssal Sire".to_string(), items: vec![13262, 13273, 7979] },
            CollectionLogPage { name: "Barrows Chests".to_string(), items: vec![4708, 4710] },
            CollectionLogPage { name: "Empty Page".to_string(), items: vec![] },
        ],
    }
}

fn entry(page: &str, items: &[i32]) -> CollectionLog {
    CollectionLog { page_name: page.to_string(), items: items.to_vec() }
}

fn valid_member() -> GroupMember {
    GroupMember {
        name: "Alice".to_string(),
        stats: vec![0; 7],
        coordinates: vec![0; 3],
        skills: vec![0; 23],
        quests: vec![0; 100],
        inventory: vec![0; 56],
        equipment: vec![0; 28],
        bank: vec![0; 1200],
        shared_bank: vec![0; 10],
        rune_pouch: vec![0; 6],
        seed_vault: vec![],
        deposited: vec![0; 200],
        diary_vars: vec![0; 62],
        collection_log: vec![entry("Abyssal Sire", &[13262, 7979]), entry("Empty Page", &[])],
    }
}

fn set_part(member: &mut GroupMember, field: MemberField, len: usize) {
    let part = match field {
        MemberField::Stats => &mut member.stats,
        MemberField::Coordinates => &mut member.coordinates,
        MemberField::Skills => &mut member.skills,
        MemberField::Quests => &mut member.quests,
        MemberField::Inventory => &mut member.inventory,
        MemberField::Equipment => &mut member.equipment,
        MemberField::Bank => &mut member.bank,
        MemberField::SharedBank => &mut member.shared_bank,
        MemberField::RunePouch => &mut member.rune_pouch,
        MemberField::SeedVault => &mut member.seed_vault,
        MemberField::Deposited => &mut member.deposited,
        MemberField::DiaryVars => &mut member.diary_vars,
    };
    *part = vec![0; len];
}

fn all_fields() -> [MemberField; 12] {
    [
        MemberField::Stats,
        MemberField::Coordinates,
        MemberField::Skills,
        MemberField::Quests,
        MemberField::Inventory,
        MemberField::Equipment,
        MemberField::Bank,
        MemberField::SharedBank,
        MemberField::RunePouch,
        MemberField::SeedVault,
        MemberField::Deposited,
        MemberField::DiaryVars,
    ]
}

fn length_error(field: &str, actual: usize, min: usize, max: usize) -> ValidationError {
    ValidationError::LengthOutOfRange { field: field.to_string(), actual, min, max }
}

#[test]
fn prop_length_inside_bounds_is_accepted() {
    assert_eq!(validate_member_prop_length("skills", &vec![0; 23], 23, 24), Ok(()));
    assert_eq!(validate_member_prop_length("skills", &vec![0; 24], 23, 24), Ok(()));
    assert_eq!(validate_member_prop_length("bank", &Vec::<i32>::new(), 0, 3000), Ok(()));
    assert_eq!(validate_member_prop_length("bank", &vec![0u8; 3000], 0, 3000), Ok(()));
}

#[test]
fn prop_length_outside_bounds_is_refused_with_field_and_bounds() {
    assert_eq!(
        validate_member_prop_length("skills", &vec![0; 22], 23, 24),
        Err(length_error("skills", 22, 23, 24))
    );
    assert_eq!(
        validate_member_prop_length("skills", &vec![0; 25], 23, 24),
        Err(length_error("skills", 25, 23, 24))
    );
    assert_eq!(
        validate_member_prop_length("inventory", &Vec::<i32>::new(), 56, 56),
        Err(length_error("inventory", 0, 56, 56))
    );
    assert_eq!(
        validate_member_prop_length("bank", &vec![0; 3001], 0, 3000),
        Err(length_error("bank", 3001, 0, 3000))
    );
}

#[test]
fn prop_length_with_empty_range_refuses_everything() {
    assert_eq!(
        validate_member_prop_length("odd", &vec![1, 2], 3, 1),
        Err(length_error("odd", 2, 3, 1))
    );
}

#[test]
fn length_error_message_names_field_bounds_and_length() {
    assert_eq!(
        length_error("skills", 22, 23, 24).message(),
        "skills length violated range constraint 23..=24 actual=22"
    );
    assert_eq!(
        length_error("bank", 3001, 0, 3000).message(),
        "bank length violated range constraint 0..=3000 actual=3001"
    );
}

#[test]
fn unknown_key_messages_name_the_key() {
    assert_eq!(
        ValidationError::UnknownPage { page: "Nowhere".to_string() }.message(),
        "Unknown collection log page Nowhere"
    );
    assert_eq!(
        ValidationError::UnknownItem { page: "Abyssal Sire".to_string(), item: -5 }.message(),
        "Unknown collection log item -5 on page Abyssal Sire"
    );
}

#[test]
fn schema_lookups() {
    let info = schema();
    assert!(info.has_page("Abyssal Sire"));
    assert!(info.has_page("Empty Page"));
    assert!(!info.has_page("abyssal sire"));
    assert!(!info.has_page(""));
    assert!(info.has_item("Abyssal Sire", 7979));
    assert!(!info.has_item("Abyssal Sire", 4708));
    assert!(info.has_item("Barrows Chests", 4708));
    assert!(!info.has_item("Empty Page", 0));
    assert!(!info.has_item("Nowhere", 7979));
    assert!(info.pages[1].has_item(4710));
    assert!(!info.pages[1].has_item(4711));
}

#[test]
fn schema_with_a_page_listed_twice_holds_both_item_sets() {
    let info = CollectionLogInfo {
        pages: vec![
            CollectionLogPage { name: "Page".to_string(), items: vec![1] },
            CollectionLogPage { name: "Page".to_string(), items: vec![2] },
        ],
    };
    assert!(info.has_item("Page", 1));
    assert!(info.has_item("Page", 2));
    assert!(!info.has_item("Page", 3));
}

#[test]
fn collection_log_with_known_keys_is_accepted() {
    let info = schema();
    assert_eq!(validate_collection_log(&info, &vec![]), Ok(()));
    assert_eq!(
        validate_collection_log(
            &info,
            &vec![
                entry("Abyssal Sire", &[13262, 13273, 7979, 13262]),
                entry("Barrows Chests", &[4710]),
                entry("Empty Page", &[]),
            ]
        ),
        Ok(())
    );
}

#[test]
fn collection_log_with_unknown_page_is_refused() {
    let info = schema();
    assert_eq!(
        validate_collection_log(&info, &vec![entry("Abyssal Sire", &[7979]), entry("Nowhere", &[])]),
        Err(ValidationError::UnknownPage { page: "Nowhere".to_string() })
    );
}

#[test]
fn collection_log_with_unknown_item_is_refused() {
    let info = schema();
    assert_eq!(
        validate_collection_log(&info, &vec![entry("Abyssal Sire", &[13262, 4708, 7979])]),
        Err(ValidationError::UnknownItem { page: "Abyssal Sire".to_string(), item: 4708 })
    );
    assert_eq!(
        validate_collection_log(&info, &vec![entry("Empty Page", &[1])]),
        Err(ValidationError::UnknownItem { page: "Empty Page".to_string(), item: 1 })
    );
}

#[test]
fn collection_log_reports_the_first_unknown_key() {
    let info = schema();
    let log = vec![
        entry("Barrows Chests", &[4708]),
        entry("Abyssal Sire", &[13262, 1, 2]),
        entry("Nowhere", &[3]),
    ];
    assert_eq!(
        validate_collection_log(&info, &log),
        Err(ValidationError::UnknownItem { page: "Abyssal Sire".to_string(), item: 1 })
    );
    assert_eq!(
        validate_collection_log_entry(&info, &entry("Nowhere", &[13262])),
        Err(ValidationError::UnknownPage { page: "Nowhere".to_string() })
    );
}

#[test]
fn collection_log_check_leaves_schema_and_submission_as_they_were() {
    let info = schema();
    let log = vec![entry("Abyssal Sire", &[1])];
    let _ = validate_collection_log(&info, &log);
    assert_eq!(info, schema());
    assert_eq!(log, vec![entry("Abyssal Sire", &[1])]);
}

#[test]
fn valid_member_state_is_accepted() {
    assert_eq!(validate_group_member(&valid_member(), &schema()), Ok(()));
}

#[test]
fn every_length_inside_its_bounds_is_accepted() {
    for field in all_fields() {
        for len in [field.min(), field.max()] {
            let mut member = valid_member();
            set_part(&mut member, field, len);
            assert_eq!(validate_group_member(&member, &schema()), Ok(()), "{}", field.name());
        }
    }
}

#[test]
fn every_length_outside_its_bounds_is_refused_naming_the_field() {
    for field in all_fields() {
        let mut lengths = vec![field.max() + 1];
        if field.min() > 0 {
            lengths.push(field.min() - 1);
            lengths.push(0);
        }
        for len in lengths {
            let mut member = valid_member();
            set_part(&mut member, field, len);
            assert_eq!(
                validate_group_member(&member, &schema()),
                Err(length_error(field.name(), len, field.min(), field.max()))
            );
        }
    }
}

#[test]
fn first_broken_rule_decides_the_error() {
    let mut member = valid_member();
    set_part(&mut member, MemberField::Bank, 3001);
    set_part(&mut member, MemberField::Coordinates, 4);
    member.collection_log = vec![entry("Nowhere", &[])];
    assert_eq!(
        validate_group_member(&member, &schema()),
        Err(length_error("coordinates", 4, 3, 3))
    );
    set_part(&mut member, MemberField::Coordinates, 3);
    assert_eq!(validate_group_member(&member, &schema()), Err(length_error("bank", 3001, 0, 3000)));
    set_part(&mut member, MemberField::Bank, 3000);
    assert_eq!(
        validate_group_member(&member, &schema()),
        Err(ValidationError::UnknownPage { page: "Nowhere".to_string() })
    );
}

#[test]
fn member_with_unknown_collection_log_key_is_refused() {
    let mut member = valid_member();
    member.collection_log = vec![entry("Barrows Chests", &[4708, 13262])];
    assert_eq!(
        validate_group_member(&member, &schema()),
        Err(ValidationError::UnknownItem { page: "Barrows Chests".to_string(), item: 13262 })
    );
}
