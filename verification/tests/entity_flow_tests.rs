use alchemix_rx::demo::User;
use alchemix_rx::entity::{make_key, Entity, EntityRecord, IndexedField};

#[test]
pub fn test_entity_flow() {
    let mut users = vec![];
    for i in 0..10 {
        let user = User::new_with_id(
            &format!("User_{}", i),
            format!("User_{}", i),
            i,
            format!("#{}", i).as_bytes().into(),
        );
        users.push(user);
    }

    assert_eq!(users.len(), 10);
    for (i, user) in users.iter().enumerate() {
        assert_eq!(user.get_id(), format!("User_{}", i));
        assert_eq!(user.get_kind(), "User");
        assert_eq!(user.get_key(), format!("User#User_{}", i));
        assert_eq!(user.rank, i);
        assert_eq!(user.data, format!("#{}", i).as_bytes().to_vec());
    }
}

#[test]
pub fn key_is_kind_hash_id() {
    let user = User::new_with_id("42", "u".to_string(), 7, vec![]);
    assert_eq!(user.get_key(), format!("{}#{}", user.get_kind(), user.get_id()));
    assert_eq!(make_key("Kind", "id"), "Kind#id");
    assert_eq!(make_key("", ""), "#");
    let record = EntityRecord::new("A#B", "c#d", vec![]);
    assert_eq!(record.get_key(), "A#B#c#d");
    let fresh = User::new("u".to_string(), 1, vec![]);
    assert_eq!(fresh.get_id().len(), 36);
    assert_eq!(fresh.get_key(), format!("User#{}", fresh.id));
    assert_ne!(fresh.id, User::new("u".to_string(), 1, vec![]).id);
}

#[test]
pub fn index_rows_name_their_entity() {
    let user = User::new_with_id("User_12", "ann".to_string(), 120, vec![1]);
    let rows = user.get_fields_index();
    assert_eq!(rows.len(), 2);
    for row in &rows {
        assert_eq!(row.kind, "User");
        assert_eq!(row.entity_id, "User_12");
        assert_eq!(row.stored_type, "String");
    }
    assert_eq!(rows[0].name, "name");
    assert_eq!(rows[0].value, "ann");
    assert_eq!(rows[1].name, "rank");
    assert_eq!(rows[1].value, "120");

    let record = EntityRecord::new(
        "Sum",
        "s1",
        vec![IndexedField { name: "result".to_string(), value: "5".to_string() }],
    );
    let rows = record.get_fields_index();
    assert_eq!(rows.len(), 1);
    assert_eq!(rows[0].kind, "Sum");
    assert_eq!(rows[0].entity_id, "s1");
    assert_eq!(rows[0].name, "result");
    assert_eq!(rows[0].value, "5");
    assert_eq!(rows[0].stored_type, "String");
    assert!(EntityRecord::new("Sum", "s2", vec![]).get_fields_index().is_empty());
}
