use fkb_repositories::friend_attribute_repository::value_type_or_default;
use fkb_repositories::{
    CreateFriendAttributeInput, CreateFriendInput, CreateUserInput, Database,
    FriendAttributeRepository, FriendRepository, Id, Repository, RepositoryError,
    UpdateFriendAttributeInput, UserRepository,
};

fn a_friend(db: &mut Database, email: &str) -> Id {
    let user = UserRepository::new()
        .create(
            db,
            CreateUserInput {
                first_name: "U".to_string(),
                last_name: "Ser".to_string(),
                email: email.to_string(),
                password_hash: "h".to_string(),
            },
        )
        .unwrap();
    FriendRepository::new()
        .create(
            db,
            CreateFriendInput {
                user_id: user.id,
                first_name: "Ava".to_string(),
                last_name: None,
                date_of_birth: None,
                likes: None,
                dislikes: None,
                notes: None,
            },
        )
        .unwrap()
        .id
}

fn attribute(friend_id: Id, key: &str, value: &str) -> CreateFriendAttributeInput {
    CreateFriendAttributeInput {
        friend_id,
        key: key.to_string(),
        value: value.to_string(),
        value_type: None,
    }
}

#[test]
fn attribute_type_hint_defaults_to_text() {
    assert_eq!(value_type_or_default(None), "text");
    assert_eq!(value_type_or_default(Some("number".to_string())), "number");
    assert_eq!(value_type_or_default(Some(String::new())), "");
}

#[test]
fn attribute_create_then_find_by_id_round_trips() {
    let mut db = Database::new();
    let attributes = FriendAttributeRepository::new();
    let f = a_friend(&mut db, "u@example.com");
    let plain = attributes.create(&mut db, attribute(f, "shoe size", "42")).unwrap();
    assert_eq!(plain.value_type, "text");
    assert_eq!(plain.key, "shoe size");
    assert_eq!(plain.value, "42");
    assert_eq!(plain.friend_id, f);
    let mut typed = attribute(f, "age", "30");
    typed.value_type = Some("number".to_string());
    let typed = attributes.create(&mut db, typed).unwrap();
    assert_eq!(typed.value_type, "number");
    assert_eq!(attributes.find_by_id(&db, plain.id).unwrap(), Some(plain));
    assert_eq!(attributes.find_by_id(&db, typed.id).unwrap(), Some(typed));
}

#[test]
fn attribute_create_with_duplicate_key_is_duplicate() {
    let mut db = Database::new();
    let attributes = FriendAttributeRepository::new();
    let f = a_friend(&mut db, "u@example.com");
    let g = a_friend(&mut db, "v@example.com");
    let first = attributes.create(&mut db, attribute(f, "color", "red")).unwrap();
    match attributes.create(&mut db, attribute(f, "color", "blue")) {
        Err(RepositoryError::Duplicate(detail)) => {
            assert_eq!(detail, "friend_attributes_friend_id_key_key")
        }
        other => panic!("unexpected result: {:?}", other),
    }
    assert_eq!(attributes.find_by_friend_and_key(&db, f, "color").unwrap(), Some(first));
    assert!(attributes.create(&mut db, attribute(g, "color", "blue")).is_ok());
    assert!(attributes.create(&mut db, attribute(f, "Color", "blue")).is_ok());
}

#[test]
fn attribute_create_for_unknown_friend_is_foreign_key_violation() {
    let mut db = Database::new();
    let attributes = FriendAttributeRepository::new();
    match attributes.create(&mut db, attribute(5, "color", "red")) {
        Err(RepositoryError::ForeignKeyViolation(detail)) => {
            assert_eq!(detail, "friend_attributes_friend_id_fkey")
        }
        other => panic!("unexpected result: {:?}", other),
    }
    assert!(matches!(
        attributes.upsert(&mut db, attribute(5, "color", "red")),
        Err(RepositoryError::ForeignKeyViolation(_))
    ));
}

#[test]
fn upsert_twice_leaves_one_row_with_the_second_value() {
    let mut db = Database::new();
    let attributes = FriendAttributeRepository::new();
    let f = a_friend(&mut db, "u@example.com");
    let first = attributes.upsert(&mut db, attribute(f, "color", "red")).unwrap();
    let mut again = attribute(f, "color", "blue");
    again.value_type = Some("name".to_string());
    let second = attributes.upsert(&mut db, again).unwrap();
    assert_eq!(second.id, first.id);
    assert_eq!(second.value, "blue");
    assert_eq!(second.value_type, "name");
    assert_eq!(second.created_at, first.created_at);
    let listed = attributes.list_by_friend(&db, f).unwrap();
    assert_eq!(listed, vec![second]);
}

#[test]
fn upsert_without_type_hint_resets_it_to_text() {
    let mut db = Database::new();
    let attributes = FriendAttributeRepository::new();
    let f = a_friend(&mut db, "u@example.com");
    let mut typed = attribute(f, "age", "30");
    typed.value_type = Some("number".to_string());
    attributes.upsert(&mut db, typed).unwrap();
    let second = attributes.upsert(&mut db, attribute(f, "age", "thirty")).unwrap();
    assert_eq!(second.value_type, "text");
    assert_eq!(second.value, "thirty");
}

#[test]
fn attribute_update_merges_by_presence() {
    let mut db = Database::new();
    let attributes = FriendAttributeRepository::new();
    let f = a_friend(&mut db, "u@example.com");
    let a = attributes.create(&mut db, attribute(f, "age", "30")).unwrap();
    let retyped = attributes
        .update(
            &mut db,
            a.id,
            UpdateFriendAttributeInput { value: None, value_type: Some("number".to_string()) },
        )
        .unwrap();
    assert_eq!(retyped.value, "30");
    assert_eq!(retyped.value_type, "number");
    assert_eq!(retyped.key, "age");
    let same = attributes
        .update(&mut db, a.id, UpdateFriendAttributeInput { value: None, value_type: None })
        .unwrap();
    assert_eq!(same, retyped);
    assert!(matches!(
        attributes.update(
            &mut db,
            a.id + 100,
            UpdateFriendAttributeInput { value: None, value_type: None }
        ),
        Err(RepositoryError::NotFound)
    ));
}

#[test]
fn attributes_are_listed_by_key() {
    let mut db = Database::new();
    let attributes = FriendAttributeRepository::new();
    let f = a_friend(&mut db, "u@example.com");
    let g = a_friend(&mut db, "v@example.com");
    for key in ["shoe size", "age", "color"] {
        attributes.create(&mut db, attribute(f, key, "x")).unwrap();
    }
    attributes.create(&mut db, attribute(g, "birthday", "x")).unwrap();
    let keys: Vec<String> =
        attributes.list_by_friend(&db, f).unwrap().into_iter().map(|a| a.key).collect();
    assert_eq!(keys, vec!["age", "color", "shoe size"]);
}

#[test]
fn attribute_find_by_friend_and_key() {
    let mut db = Database::new();
    let attributes = FriendAttributeRepository::new();
    let f = a_friend(&mut db, "u@example.com");
    let g = a_friend(&mut db, "v@example.com");
    let a = attributes.create(&mut db, attribute(f, "color", "red")).unwrap();
    assert_eq!(attributes.find_by_friend_and_key(&db, f, "color").unwrap(), Some(a));
    assert_eq!(attributes.find_by_friend_and_key(&db, g, "color").unwrap(), None);
    assert_eq!(attributes.find_by_friend_and_key(&db, f, "colour").unwrap(), None);
}

#[test]
fn attribute_delete_and_cascade() {
    let mut db = Database::new();
    let attributes = FriendAttributeRepository::new();
    let f = a_friend(&mut db, "u@example.com");
    let a = attributes.create(&mut db, attribute(f, "color", "red")).unwrap();
    let b = attributes.create(&mut db, attribute(f, "age", "30")).unwrap();
    assert_eq!(attributes.delete(&mut db, a.id).unwrap(), true);
    assert_eq!(attributes.delete(&mut db, a.id).unwrap(), false);
    assert_eq!(attributes.find_by_id(&db, a.id).unwrap(), None);
    assert_eq!(FriendRepository::new().delete(&mut db, f).unwrap(), true);
    assert_eq!(attributes.find_by_id(&db, b.id).unwrap(), None);
    assert!(attributes.list_by_friend(&db, f).unwrap().is_empty());
}
