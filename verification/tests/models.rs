use groupironman::models::{
    is_shared_member, valid_name, GroupMember, MemberField, MAX_NAME_LENGTH, SHARED_MEMBER,
};

fn all_fields() -> [MemberField; 12] {
    [
        MemberField::Stats,
        MemberField::Coordinates,
        MemberField::Skills,
        MemberField::Quests,
        MemberField::Inventory,
        MemberField::Equipment,
        MemberField::Bank,
        MemberField::SharedBank,
        MemberField::RunePouch,
        MemberField::SeedVault,
        MemberField::Deposited,
        MemberField::DiaryVars,
    ]
}

#[test]
fn shared_member_is_the_reserved_name() {
    assert_eq!(SHARED_MEMBER, "@SHARED");
    assert!(is_shared_member("@SHARED"));
    assert!(!is_shared_member("@shared"));
    assert!(!is_shared_member("SHARED"));
    assert!(!is_shared_member("@SHARED "));
    assert!(!is_shared_member(""));
}

#[test]
fn valid_name_accepts_letters_digits_space_hyphen_underscore() {
    assert!(valid_name("Alice"));
    assert!(valid_name("a"));
    assert!(valid_name("Iron Man-42_x"));
    assert!(valid_name("0123456789"));
    assert!(valid_name(" "));
}

#[test]
fn valid_name_refuses_empty_and_long_names() {
    assert!(!valid_name(""));
    assert_eq!(MAX_NAME_LENGTH, 16);
    assert!(valid_name("abcdefghijklmnop"));
    assert!(!valid_name("abcdefghijklmnopq"));
}

#[test]
fn valid_name_refuses_other_characters() {
    assert!(!valid_name("@SHARED"));
    assert!(!valid_name("bad!name"));
    assert!(!valid_name("tab\tname"));
    assert!(!valid_name("new\nline"));
    assert!(!valid_name("héro"));
    assert!(!valid_name("a/b"));
    assert!(!valid_name("a.b"));
}

#[test]
fn member_field_bounds_match_the_table() {
    let expected: [(&str, usize, usize); 12] = [
        ("stats", 7, 7),
        ("coordinates", 3, 3),
        ("skills", 23, 24),
        ("quests", 0, 250),
        ("inventory", 56, 56),
        ("equipment", 28, 28),
        ("bank", 0, 3000),
        ("shared_bank", 0, 1000),
        ("rune_pouch", 6, 8),
        ("seed_vault", 0, 500),
        ("deposited", 0, 200),
        ("diary_vars", 0, 62),
    ];
    for (field, (name, min, max)) in all_fields().into_iter().zip(expected) {
        assert_eq!(field.name(), name);
        assert_eq!(field.min(), min, "{}", name);
        assert_eq!(field.max(), max, "{}", name);
    }
}

#[test]
fn member_field_picks_its_own_part() {
    let member = GroupMember {
        name: "Alice".to_string(),
        stats: vec![1],
        coordinates: vec![2; 2],
        skills: vec![3; 3],
        quests: vec![4; 4],
        inventory: vec![5; 5],
        equipment: vec![6; 6],
        bank: vec![7; 7],
        shared_bank: vec![8; 8],
        rune_pouch: vec![9; 9],
        seed_vault: vec![10; 10],
        deposited: vec![11; 11],
        diary_vars: vec![12; 12],
        collection_log: vec![],
    };
    for (i, field) in all_fields().into_iter().enumerate() {
        let part = member.field(field);
        assert_eq!(part.len(), i + 1);
        assert!(part.iter().all(|v| *v == (i as i32) + 1));
    }
}
