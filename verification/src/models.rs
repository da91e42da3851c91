//! Members of a group: their names, their tracked state, and the bounds on each part of it.

use crate::collection_log::CollectionLog;
use crate::text::same_text;
use vstd::prelude::*;
use vstd::std_specs::iter::IteratorSpec;

verus! {

/// The name of the pseudo-member that stands for the group's shared pool.
/// No request may add, remove, rename or update a member under this name.
pub const SHARED_MEMBER: &'static str = "@SHARED";

/// The longest name a member can have, in characters.
pub const MAX_NAME_LENGTH: usize = 16;

/// Whether `name` is the reserved name of the shared pool.
pub open spec fn is_reserved_name(name: Seq<char>) -> bool {
    name == SHARED_MEMBER@
}

/// Whether `name` is the reserved name of the shared pool.
pub fn is_shared_member(name: &str) -> (r: bool)
    ensures
        r == is_reserved_name(name@),
{
    same_text(name, SHARED_MEMBER)
}

/// Whether `c` may occur in a member's name: an ASCII letter or digit, a space,
/// a hyphen or an underscore.
pub open spec fn is_name_char(c: char) -> bool {
    ||| 'a' <= c <= 'z'
    ||| 'A' <= c <= 'Z'
    ||| '0' <= c <= '9'
    ||| c == ' '
    ||| c == '-'
    ||| c == '_'
}

/// Whether `name` can be a member's name: between one and sixteen characters,
/// each of them a name character.
pub open spec fn is_valid_name(name: Seq<char>) -> bool {
    &&& 1 <= name.len() <= MAX_NAME_LENGTH
    &&& forall|i: int| 0 <= i < name.len() ==> is_name_char(#[trigger] name[i])
}

fn name_char(c: char) -> (r: bool)
    ensures
        r == is_name_char(c),
{
    ('a' <= c && c <= 'z') || ('A' <= c && c <= 'Z') || ('0' <= c && c <= '9') || c == ' ' || c
        == '-' || c == '_'
}

/// Whether `name` can be a member's name.
pub fn valid_name(name: &str) -> (r: bool)
    ensures
        r == is_valid_name(name@),
{
    let mut chars = name.chars();
    let mut count: usize = 0;
    loop
        invariant
            count <= MAX_NAME_LENGTH,
            count <= name@.len(),
            chars.remaining() == name@.skip(count as int),
            forall|i: int| 0 <= i < count ==> is_name_char(#[trigger] name@[i]),
        decreases name@.len() - count,
    {
        match chars.next() {
            None => {
                assert(name@.skip(count as int).len() == 0);
                return count >= 1;
            },
            Some(c) => {
                assert(c == name@[count as int]);
                if count == MAX_NAME_LENGTH || !name_char(c) {
                    return false;
                }
                count += 1;
            },
        }
    }
}

/// The parts of a member's tracked state whose length is bounded.
#[derive(Debug, Clone, Copy, PartialEq, Eq, Structural)]
pub enum MemberField {
    Stats,
    Coordinates,
    Skills,
    Quests,
    Inventory,
    Equipment,
    Bank,
    SharedBank,
    RunePouch,
    SeedVault,
    Deposited,
    DiaryVars,
}

impl MemberField {
    /// The name under which the part is submitted.
    pub open spec fn name_text(self) -> Seq<char> {
        match self {
            MemberField::Stats => "stats"@,
            MemberField::Coordinates => "coordinates"@,
            MemberField::Skills => "skills"@,
            MemberField::Quests => "quests"@,
            MemberField::Inventory => "inventory"@,
            MemberField::Equipment => "equipment"@,
            MemberField::Bank => "bank"@,
            MemberField::SharedBank => "shared_bank"@,
            MemberField::RunePouch => "rune_pouch"@,
            MemberField::SeedVault => "seed_vault"@,
            MemberField::Deposited => "deposited"@,
            MemberField::DiaryVars => "diary_vars"@,
        }
    }

    /// The least number of items the part may hold.
    pub open spec fn min_len(self) -> int {
        match self {
            MemberField::Stats => 7,
            MemberField::Coordinates => 3,
            MemberField::Skills => 23,
            MemberField::Inventory => 56,
            MemberField::Equipment => 28,
            MemberField::RunePouch => 6,
            _ => 0,
        }
    }

    /// The greatest number of items the part may hold.
    pub open spec fn max_len(self) -> int {
        match self {
            MemberField::Stats => 7,
            MemberField::Coordinates => 3,
            MemberField::Skills => 24,
            MemberField::Quests => 250,
            MemberField::Inventory => 56,
            MemberField::Equipment => 28,
            MemberField::Bank => 3000,
            MemberField::SharedBank => 1000,
            MemberField::RunePouch => 8,
            MemberField::SeedVault => 500,
            MemberField::Deposited => 200,
            MemberField::DiaryVars => 62,
        }
    }

    /// The name under which the part is submitted.
    pub fn name(self) -> (r: &'static str)
        ensures
            r@ == self.name_text(),
    {
        match self {
            MemberField::Stats => "stats",
            MemberField::Coordinates => "coordinates",
            MemberField::Skills => "skills",
            MemberField::Quests => "quests",
            MemberField::Inventory => "inventory",
            MemberField::Equipment => "equipment",
            MemberField::Bank => "bank",
            MemberField::SharedBank => "shared_bank",
            MemberField::RunePouch => "rune_pouch",
            MemberField::SeedVault => "seed_vault",
            MemberField::Deposited => "deposited",
            MemberField::DiaryVars => "diary_vars",
        }
    }

    /// The least number of items the part may hold.
    pub fn min(self) -> (r: usize)
        ensures
            r == self.min_len(),
    {
        match self {
            MemberField::Stats => 7,
            MemberField::Coordinates => 3,
            MemberField::Skills => 23,
            MemberField::Inventory => 56,
            MemberField::Equipment => 28,
            MemberField::RunePouch => 6,
            _ => 0,
        }
    }

    /// The greatest number of items the part may hold.
    pub fn max(self) -> (r: usize)
        ensures
            r == self.max_len(),
    {
        match self {
            MemberField::Stats => 7,
            MemberField::Coordinates => 3,
            MemberField::Skills => 24,
            MemberField::Quests => 250,
            MemberField::Inventory => 56,
            MemberField::Equipment => 28,
            MemberField::Bank => 3000,
            MemberField::SharedBank => 1000,
            MemberField::RunePouch => 8,
            MemberField::SeedVault => 500,
            MemberField::Deposited => 200,
            MemberField::DiaryVars => 62,
        }
    }
}

/// The bounded parts in the order in which they are checked.
pub open spec fn member_fields() -> Seq<MemberField> {
    seq![
        MemberField::Stats,
        MemberField::Coordinates,
        MemberField::Skills,
        MemberField::Quests,
        MemberField::Inventory,
        MemberField::Equipment,
        MemberField::Bank,
        MemberField::SharedBank,
        MemberField::RunePouch,
        MemberField::SeedVault,
        MemberField::Deposited,
        MemberField::DiaryVars,
    ]
}

/// A member of a group with the whole of the state that is tracked for it.
#[derive(Debug, Clone, PartialEq, Eq)]
pub struct GroupMember {
    pub name: String,
    pub stats: Vec<i32>,
    pub coordinates: Vec<i32>,
    pub skills: Vec<i32>,
    pub quests: Vec<i32>,
    pub inventory: Vec<i32>,
    pub equipment: Vec<i32>,
    pub bank: Vec<i32>,
    pub shared_bank: Vec<i32>,
    pub rune_pouch: Vec<i32>,
    pub seed_vault: Vec<i32>,
    pub deposited: Vec<i32>,
    pub diary_vars: Vec<i32>,
    pub collection_log: Vec<CollectionLog>,
}

impl GroupMember {
    /// What the member holds under `field`.
    pub open spec fn part(&self, field: MemberField) -> Seq<i32> {
        match field {
            MemberField::Stats => self.stats@,
            MemberField::Coordinates => self.coordinates@,
            MemberField::Skills => self.skills@,
            MemberField::Quests => self.quests@,
            MemberField::Inventory => self.inventory@,
            MemberField::Equipment => self.equipment@,
            MemberField::Bank => self.bank@,
            MemberField::SharedBank => self.shared_bank@,
            MemberField::RunePouch => self.rune_pouch@,
            MemberField::SeedVault => self.seed_vault@,
            MemberField::Deposited => self.deposited@,
            MemberField::DiaryVars => self.diary_vars@,
        }
    }

    /// Whether what the member holds under `field` has an allowed length.
    pub open spec fn fits(&self, field: MemberField) -> bool {
        field.min_len() <= self.part(field).len() <= field.max_len()
    }

    /// What the member holds under `field`.
    pub fn field(&self, field: MemberField) -> (r: &Vec<i32>)
        ensures
            r@ == self.part(field),
    {
        match field {
            MemberField::Stats => &self.stats,
            MemberField::Coordinates => &self.coordinates,
            MemberField::Skills => &self.skills,
            MemberField::Quests => &self.quests,
            MemberField::Inventory => &self.inventory,
            MemberField::Equipment => &self.equipment,
            MemberField::Bank => &self.bank,
            MemberField::SharedBank => &self.shared_bank,
            MemberField::RunePouch => &self.rune_pouch,
            MemberField::SeedVault => &self.seed_vault,
            MemberField::Deposited => &self.deposited,
            MemberField::DiaryVars => &self.diary_vars,
        }
    }
}

/// A request to give a member another name.
#[derive(Debug, Clone, PartialEq, Eq)]
pub struct RenameGroupMember {
    pub original_name: String,
    pub new_name: String,
}

/// A request to learn whether a name belongs to the group.
#[derive(Debug, Clone, PartialEq, Eq)]
pub struct AmIInGroupRequest {
    pub member_name: String,
}

} // verus!
