use fkb_repositories::{
    CreateFriendInput, CreateGroupInput, CreateUserInput, Database, FriendRepository,
    GroupRepository, Repository, RepositoryError, Timestamp, UpdateUserInput, User,
    UserRepository,
};

fn new_user(email: &str) -> CreateUserInput {
    CreateUserInput {
        first_name: "Ada".to_string(),
        last_name: "Lovelace".to_string(),
        email: email.to_string(),
        password_hash: "hash".to_string(),
    }
}

fn no_user_fields() -> UpdateUserInput {
    UpdateUserInput { first_name: None, last_name: None, email: None, password_hash: None }
}

#[test]
fn user_create_returns_row_as_stored() {
    let mut db = Database::new();
    let users = UserRepository::new();
    let user = users.create(&mut db, new_user("ada@example.com")).unwrap();
    assert_eq!(
        user,
        User {
            id: 1,
            first_name: "Ada".to_string(),
            last_name: "Lovelace".to_string(),
            email: "ada@example.com".to_string(),
            password_hash: "hash".to_string(),
            created_at: Timestamp { unix_nanos: 0 },
            updated_at: Timestamp { unix_nanos: 0 },
        }
    );
}

#[test]
fn user_create_then_find_by_id_round_trips() {
    let mut db = Database::new();
    let users = UserRepository::new();
    let first = users.create(&mut db, new_user("ada@example.com")).unwrap();
    let second = users.create(&mut db, new_user("grace@example.com")).unwrap();
    assert_ne!(first.id, second.id);
    assert_eq!(users.find_by_id(&db, first.id).unwrap(), Some(first));
    assert_eq!(users.find_by_id(&db, second.id).unwrap(), Some(second));
}

#[test]
fn user_find_by_id_of_missing_user_is_absent() {
    let mut db = Database::new();
    let users = UserRepository::new();
    assert_eq!(users.find_by_id(&db, 1).unwrap(), None);
    users.create(&mut db, new_user("ada@example.com")).unwrap();
    assert_eq!(users.find_by_id(&db, 2).unwrap(), None);
}

#[test]
fn user_find_by_email_matches_exactly() {
    let mut db = Database::new();
    let users = UserRepository::new();
    let ada = users.create(&mut db, new_user("ada@example.com")).unwrap();
    users.create(&mut db, new_user("grace@example.com")).unwrap();
    assert_eq!(users.find_by_email(&db, "ada@example.com").unwrap(), Some(ada));
    assert_eq!(users.find_by_email(&db, "ada@example.co").unwrap(), None);
    assert_eq!(users.find_by_email(&db, "ADA@example.com").unwrap(), None);
    assert_eq!(users.find_by_email(&db, "").unwrap(), None);
}

#[test]
fn user_create_with_taken_email_is_duplicate() {
    let mut db = Database::new();
    let users = UserRepository::new();
    users.create(&mut db, new_user("ada@example.com")).unwrap();
    match users.create(&mut db, new_user("ada@example.com")) {
        Err(RepositoryError::Duplicate(detail)) => assert_eq!(detail, "users_email_key"),
        other => panic!("unexpected result: {:?}", other),
    }
    let next = users.create(&mut db, new_user("grace@example.com")).unwrap();
    assert_eq!(next.id, 2);
}

#[test]
fn user_update_overwrites_present_fields_only() {
    let mut db = Database::new();
    let users = UserRepository::new();
    let ada = users.create(&mut db, new_user("ada@example.com")).unwrap();
    let updated = users
        .update(
            &mut db,
            ada.id,
            UpdateUserInput {
                first_name: None,
                last_name: Some("King".to_string()),
                email: Some("countess@example.com".to_string()),
                password_hash: None,
            },
        )
        .unwrap();
    assert_eq!(updated.first_name, "Ada");
    assert_eq!(updated.last_name, "King");
    assert_eq!(updated.email, "countess@example.com");
    assert_eq!(updated.password_hash, "hash");
    assert_eq!(updated.id, ada.id);
    assert_eq!(updated.created_at, ada.created_at);
    assert_eq!(users.find_by_id(&db, ada.id).unwrap(), Some(updated));
    assert_eq!(users.find_by_email(&db, "ada@example.com").unwrap(), None);
}

#[test]
fn user_update_without_fields_changes_nothing() {
    let mut db = Database::new();
    let users = UserRepository::new();
    let ada = users.create(&mut db, new_user("ada@example.com")).unwrap();
    let same = users.update(&mut db, ada.id, no_user_fields()).unwrap();
    assert_eq!(same, ada);
    assert_eq!(users.find_by_id(&db, ada.id).unwrap(), Some(ada));
}

#[test]
fn user_update_of_missing_user_is_not_found() {
    let mut db = Database::new();
    let users = UserRepository::new();
    assert!(matches!(users.update(&mut db, 7, no_user_fields()), Err(RepositoryError::NotFound)));
}

#[test]
fn user_update_to_taken_email_is_duplicate() {
    let mut db = Database::new();
    let users = UserRepository::new();
    let ada = users.create(&mut db, new_user("ada@example.com")).unwrap();
    let grace = users.create(&mut db, new_user("grace@example.com")).unwrap();
    let change = UpdateUserInput {
        first_name: Some("Changed".to_string()),
        last_name: None,
        email: Some("ada@example.com".to_string()),
        password_hash: None,
    };
    assert!(matches!(
        users.update(&mut db, grace.id, change),
        Err(RepositoryError::Duplicate(_))
    ));
    assert_eq!(users.find_by_id(&db, grace.id).unwrap(), Some(grace));
    let own = UpdateUserInput {
        first_name: None,
        last_name: None,
        email: Some("ada@example.com".to_string()),
        password_hash: None,
    };
    assert_eq!(users.update(&mut db, ada.id, own).unwrap().email, "ada@example.com");
}

#[test]
fn user_delete_reports_whether_a_row_was_removed() {
    let mut db = Database::new();
    let users = UserRepository::new();
    assert_eq!(users.delete(&mut db, 1).unwrap(), false);
    let ada = users.create(&mut db, new_user("ada@example.com")).unwrap();
    assert_eq!(users.delete(&mut db, ada.id).unwrap(), true);
    assert_eq!(users.find_by_id(&db, ada.id).unwrap(), None);
    assert_eq!(users.delete(&mut db, ada.id).unwrap(), false);
}

#[test]
fn user_delete_cascades_to_what_the_user_owns() {
    let mut db = Database::new();
    let users = UserRepository::new();
    let friends = FriendRepository::new();
    let groups = GroupRepository::new();
    let ada = users.create(&mut db, new_user("ada@example.com")).unwrap();
    let grace = users.create(&mut db, new_user("grace@example.com")).unwrap();
    let of_ada = friends
        .create(
            &mut db,
            CreateFriendInput {
                user_id: ada.id,
                first_name: "Charles".to_string(),
                last_name: None,
                date_of_birth: None,
                likes: None,
                dislikes: None,
                notes: None,
            },
        )
        .unwrap();
    let of_grace = friends
        .create(
            &mut db,
            CreateFriendInput {
                user_id: grace.id,
                first_name: "Howard".to_string(),
                last_name: None,
                date_of_birth: None,
                likes: None,
                dislikes: None,
                notes: None,
            },
        )
        .unwrap();
    let group = groups
        .create(
            &mut db,
            CreateGroupInput { user_id: ada.id, name: "Engines".to_string(), description: None },
        )
        .unwrap();
    friends.add_to_group(&mut db, of_ada.id, group.id).unwrap();
    assert_eq!(users.delete(&mut db, ada.id).unwrap(), true);
    assert_eq!(friends.find_by_id(&db, of_ada.id).unwrap(), None);
    assert_eq!(groups.find_by_id(&db, group.id).unwrap(), None);
    assert!(friends.list_groups(&db, of_ada.id).unwrap().is_empty());
    assert_eq!(friends.find_by_id(&db, of_grace.id).unwrap(), Some(of_grace));
    assert_eq!(users.find_by_id(&db, grace.id).unwrap(), Some(grace));
}
