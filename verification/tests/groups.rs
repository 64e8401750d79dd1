use fkb_repositories::{
    CreateFriendInput, CreateGroupInput, CreateUserInput, Database, FriendRepository,
    GroupRepository, Id, Repository, RepositoryError, UpdateGroupInput, UserRepository,
};

fn owner(db: &mut Database, email: &str) -> Id {
    UserRepository::new()
        .create(
            db,
            CreateUserInput {
                first_name: "O".to_string(),
                last_name: "Wner".to_string(),
                email: email.to_string(),
                password_hash: "h".to_string(),
            },
        )
        .unwrap()
        .id
}

fn group_named(user_id: Id, name: &str) -> CreateGroupInput {
    CreateGroupInput { user_id, name: name.to_string(), description: None }
}

fn member(db: &mut Database, user_id: Id, first_name: &str) -> Id {
    FriendRepository::new()
        .create(
            db,
            CreateFriendInput {
                user_id,
                first_name: first_name.to_string(),
                last_name: None,
                date_of_birth: None,
                likes: None,
                dislikes: None,
                notes: None,
            },
        )
        .unwrap()
        .id
}

#[test]
fn group_create_then_find_by_id_round_trips() {
    let mut db = Database::new();
    let groups = GroupRepository::new();
    let u = owner(&mut db, "o@example.com");
    let g = groups
        .create(
            &mut db,
            CreateGroupInput {
                user_id: u,
                name: "Work".to_string(),
                description: Some("colleagues".to_string()),
            },
        )
        .unwrap();
    assert_eq!(g.name, "Work");
    assert_eq!(g.description.as_deref(), Some("colleagues"));
    assert_eq!(g.user_id, u);
    assert_eq!(groups.find_by_id(&db, g.id).unwrap(), Some(g));
}

#[test]
fn group_create_for_unknown_user_is_foreign_key_violation() {
    let mut db = Database::new();
    let groups = GroupRepository::new();
    match groups.create(&mut db, group_named(3, "Work")) {
        Err(RepositoryError::ForeignKeyViolation(detail)) => {
            assert_eq!(detail, "groups_user_id_fkey")
        }
        other => panic!("unexpected result: {:?}", other),
    }
}

#[test]
fn group_update_merges_by_presence() {
    let mut db = Database::new();
    let groups = GroupRepository::new();
    let u = owner(&mut db, "o@example.com");
    let g = groups.create(&mut db, group_named(u, "Work")).unwrap();
    let described = groups
        .update(
            &mut db,
            g.id,
            UpdateGroupInput { name: None, description: Some("colleagues".to_string()) },
        )
        .unwrap();
    assert_eq!(described.name, "Work");
    assert_eq!(described.description.as_deref(), Some("colleagues"));
    let renamed = groups
        .update(&mut db, g.id, UpdateGroupInput { name: Some("Office".to_string()), description: None })
        .unwrap();
    assert_eq!(renamed.name, "Office");
    assert_eq!(renamed.description.as_deref(), Some("colleagues"));
    let same = groups
        .update(&mut db, g.id, UpdateGroupInput { name: None, description: None })
        .unwrap();
    assert_eq!(same, renamed);
}

#[test]
fn group_update_and_delete_of_missing_group() {
    let mut db = Database::new();
    let groups = GroupRepository::new();
    assert!(matches!(
        groups.update(&mut db, 9, UpdateGroupInput { name: None, description: None }),
        Err(RepositoryError::NotFound)
    ));
    assert_eq!(groups.delete(&mut db, 9).unwrap(), false);
    assert_eq!(groups.find_by_id(&db, 9).unwrap(), None);
}

#[test]
fn groups_are_listed_by_name_for_one_user() {
    let mut db = Database::new();
    let groups = GroupRepository::new();
    let u = owner(&mut db, "o@example.com");
    let v = owner(&mut db, "p@example.com");
    for name in ["Work", "Family", "Chess"] {
        groups.create(&mut db, group_named(u, name)).unwrap();
    }
    groups.create(&mut db, group_named(v, "Band")).unwrap();
    let names: Vec<String> =
        groups.list_by_user(&db, u).unwrap().into_iter().map(|g| g.name).collect();
    assert_eq!(names, vec!["Chess", "Family", "Work"]);
}

#[test]
fn members_of_a_group_are_listed_by_first_name() {
    let mut db = Database::new();
    let groups = GroupRepository::new();
    let friends = FriendRepository::new();
    let u = owner(&mut db, "o@example.com");
    let g = groups.create(&mut db, group_named(u, "Work")).unwrap();
    let h = groups.create(&mut db, group_named(u, "Family")).unwrap();
    let zed = member(&mut db, u, "Zed");
    let amy = member(&mut db, u, "Amy");
    let kim = member(&mut db, u, "Kim");
    friends.add_to_group(&mut db, zed, g.id).unwrap();
    friends.add_to_group(&mut db, amy, g.id).unwrap();
    friends.add_to_group(&mut db, kim, h.id).unwrap();
    let names: Vec<String> =
        groups.list_friends(&db, g.id).unwrap().into_iter().map(|f| f.first_name).collect();
    assert_eq!(names, vec!["Amy", "Zed"]);
    assert!(groups.list_friends(&db, 1234).unwrap().is_empty());
}

#[test]
fn deleting_a_group_keeps_its_members() {
    let mut db = Database::new();
    let groups = GroupRepository::new();
    let friends = FriendRepository::new();
    let u = owner(&mut db, "o@example.com");
    let g = groups.create(&mut db, group_named(u, "Work")).unwrap();
    let amy = member(&mut db, u, "Amy");
    friends.add_to_group(&mut db, amy, g.id).unwrap();
    assert_eq!(groups.delete(&mut db, g.id).unwrap(), true);
    assert!(friends.find_by_id(&db, amy).unwrap().is_some());
    assert!(friends.list_groups(&db, amy).unwrap().is_empty());
    assert_eq!(groups.delete(&mut db, g.id).unwrap(), false);
}
