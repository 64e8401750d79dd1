use fkb_repositories::{
    CreateFriendInput, CreateFriendRelationshipInput, CreateUserFriendRelationshipInput,
    CreateUserInput, Database, FriendRelationshipRepository, FriendRepository, Id, Repository,
    RepositoryError, UpdateFriendRelationshipInput, UpdateUserFriendRelationshipInput,
    UserFriendRelationshipRepository, UserRepository,
};

fn person(db: &mut Database, email: &str) -> Id {
    UserRepository::new()
        .create(
            db,
            CreateUserInput {
                first_name: "P".to_string(),
                last_name: "Erson".to_string(),
                email: email.to_string(),
                password_hash: "h".to_string(),
            },
        )
        .unwrap()
        .id
}

fn pal(db: &mut Database, user_id: Id, first_name: &str) -> Id {
    FriendRepository::new()
        .create(
            db,
            CreateFriendInput {
                user_id,
                first_name: first_name.to_string(),
                last_name: None,
                date_of_birth: None,
                likes: None,
                dislikes: None,
                notes: None,
            },
        )
        .unwrap()
        .id
}

fn relation(user_id: Id, a: Id, b: Id, a_to_b: &str) -> CreateFriendRelationshipInput {
    CreateFriendRelationshipInput {
        user_id,
        friend_a_id: a,
        friend_b_id: b,
        a_to_b: a_to_b.to_string(),
        b_to_a: None,
    }
}

fn knows(friend_id: Id, how: &str) -> CreateUserFriendRelationshipInput {
    CreateUserFriendRelationshipInput { friend_id, relationship_type: how.to_string() }
}

#[test]
fn relationship_create_then_find_by_id_round_trips() {
    let mut db = Database::new();
    let relationships = FriendRelationshipRepository::new();
    let u = person(&mut db, "u@example.com");
    let a = pal(&mut db, u, "Ann");
    let b = pal(&mut db, u, "Ben");
    let mut input = relation(u, a, b, "boss of");
    input.b_to_a = Some("reports to".to_string());
    let r = relationships.create(&mut db, input).unwrap();
    assert_eq!((r.user_id, r.friend_a_id, r.friend_b_id), (u, a, b));
    assert_eq!(r.a_to_b, "boss of");
    assert_eq!(r.b_to_a.as_deref(), Some("reports to"));
    assert_eq!(relationships.find_by_id(&db, r.id).unwrap(), Some(r));
}

#[test]
fn find_between_is_symmetric() {
    let mut db = Database::new();
    let relationships = FriendRelationshipRepository::new();
    let u = person(&mut db, "u@example.com");
    let a = pal(&mut db, u, "Ann");
    let b = pal(&mut db, u, "Ben");
    let c = pal(&mut db, u, "Cat");
    let ab = relationships.create(&mut db, relation(u, a, b, "sibling of")).unwrap();
    let cb = relationships.create(&mut db, relation(u, c, b, "neighbour of")).unwrap();
    let forward = relationships.find_between(&db, a, b).unwrap();
    let backward = relationships.find_between(&db, b, a).unwrap();
    assert_eq!(forward, backward);
    assert_eq!(forward, Some(ab));
    assert_eq!(relationships.find_between(&db, b, c).unwrap(), Some(cb));
    assert_eq!(relationships.find_between(&db, a, c).unwrap(), None);
    assert_eq!(relationships.find_between(&db, c, a).unwrap(), None);
}

#[test]
fn relationship_create_with_dangling_reference_is_foreign_key_violation() {
    let mut db = Database::new();
    let relationships = FriendRelationshipRepository::new();
    let u = person(&mut db, "u@example.com");
    let a = pal(&mut db, u, "Ann");
    let b = pal(&mut db, u, "Ben");
    match relationships.create(&mut db, relation(u, 90, b, "x")) {
        Err(RepositoryError::ForeignKeyViolation(detail)) => {
            assert_eq!(detail, "friend_relationships_friend_a_id_fkey")
        }
        other => panic!("unexpected result: {:?}", other),
    }
    match relationships.create(&mut db, relation(u, a, 91, "x")) {
        Err(RepositoryError::ForeignKeyViolation(detail)) => {
            assert_eq!(detail, "friend_relationships_friend_b_id_fkey")
        }
        other => panic!("unexpected result: {:?}", other),
    }
    match relationships.create(&mut db, relation(92, a, b, "x")) {
        Err(RepositoryError::ForeignKeyViolation(detail)) => {
            assert_eq!(detail, "friend_relationships_user_id_fkey")
        }
        other => panic!("unexpected result: {:?}", other),
    }
    assert!(relationships.list_by_user(&db, u).unwrap().is_empty());
}

#[test]
fn relationships_are_listed_newest_first() {
    let mut db = Database::new();
    let relationships = FriendRelationshipRepository::new();
    let u = person(&mut db, "u@example.com");
    let v = person(&mut db, "v@example.com");
    let a = pal(&mut db, u, "Ann");
    let b = pal(&mut db, u, "Ben");
    let c = pal(&mut db, u, "Cat");
    let d = pal(&mut db, v, "Dan");
    let e = pal(&mut db, v, "Eve");
    let first = relationships.create(&mut db, relation(u, a, b, "one")).unwrap();
    let second = relationships.create(&mut db, relation(u, b, c, "two")).unwrap();
    let third = relationships.create(&mut db, relation(u, c, a, "three")).unwrap();
    relationships.create(&mut db, relation(v, d, e, "other")).unwrap();
    let labels: Vec<String> =
        relationships.list_by_user(&db, u).unwrap().into_iter().map(|r| r.a_to_b).collect();
    assert_eq!(labels, vec!["three", "two", "one"]);
    let of_a = relationships.list_by_friend(&db, a).unwrap();
    assert_eq!(of_a, vec![third, first]);
    let of_b: Vec<Id> =
        relationships.list_by_friend(&db, b).unwrap().into_iter().map(|r| r.id).collect();
    assert_eq!(of_b, vec![second.id, of_a[1].id]);
}

#[test]
fn relationship_update_merges_by_presence() {
    let mut db = Database::new();
    let relationships = FriendRelationshipRepository::new();
    let u = person(&mut db, "u@example.com");
    let a = pal(&mut db, u, "Ann");
    let b = pal(&mut db, u, "Ben");
    let r = relationships.create(&mut db, relation(u, a, b, "friend of")).unwrap();
    let same = relationships
        .update(&mut db, r.id, UpdateFriendRelationshipInput { a_to_b: None, b_to_a: None })
        .unwrap();
    assert_eq!(same, r);
    let updated = relationships
        .update(
            &mut db,
            r.id,
            UpdateFriendRelationshipInput { a_to_b: None, b_to_a: Some("mentor of".to_string()) },
        )
        .unwrap();
    assert_eq!(updated.a_to_b, "friend of");
    assert_eq!(updated.b_to_a.as_deref(), Some("mentor of"));
    let kept = relationships
        .update(
            &mut db,
            r.id,
            UpdateFriendRelationshipInput { a_to_b: Some("pupil of".to_string()), b_to_a: None },
        )
        .unwrap();
    assert_eq!(kept.a_to_b, "pupil of");
    assert_eq!(kept.b_to_a.as_deref(), Some("mentor of"));
    assert!(matches!(
        relationships.update(
            &mut db,
            r.id + 1,
            UpdateFriendRelationshipInput { a_to_b: None, b_to_a: None }
        ),
        Err(RepositoryError::NotFound)
    ));
}

#[test]
fn relationship_delete_and_cascade() {
    let mut db = Database::new();
    let relationships = FriendRelationshipRepository::new();
    let u = person(&mut db, "u@example.com");
    let a = pal(&mut db, u, "Ann");
    let b = pal(&mut db, u, "Ben");
    let c = pal(&mut db, u, "Cat");
    let ab = relationships.create(&mut db, relation(u, a, b, "one")).unwrap();
    let bc = relationships.create(&mut db, relation(u, b, c, "two")).unwrap();
    assert_eq!(relationships.delete(&mut db, 1000).unwrap(), false);
    assert_eq!(relationships.delete(&mut db, ab.id).unwrap(), true);
    assert_eq!(relationships.find_between(&db, a, b).unwrap(), None);
    assert_eq!(FriendRepository::new().delete(&mut db, c).unwrap(), true);
    assert_eq!(relationships.find_by_id(&db, bc.id).unwrap(), None);
    assert!(relationships.list_by_friend(&db, b).unwrap().is_empty());
}

#[test]
fn acquaintance_create_then_find_by_id_round_trips() {
    let mut db = Database::new();
    let acquaintances = UserFriendRelationshipRepository::new();
    let u = person(&mut db, "u@example.com");
    let a = pal(&mut db, u, "Ann");
    let r = acquaintances.create(&mut db, knows(a, "coworker")).unwrap();
    assert_eq!(r.friend_id, a);
    assert_eq!(r.relationship_type, "coworker");
    assert_eq!(acquaintances.find_by_id(&db, r.id).unwrap(), Some(r));
    assert!(matches!(
        acquaintances.create(&mut db, knows(500, "coworker")),
        Err(RepositoryError::ForeignKeyViolation(_))
    ));
}

#[test]
fn a_friend_may_be_known_in_several_ways() {
    let mut db = Database::new();
    let acquaintances = UserFriendRelationshipRepository::new();
    let u = person(&mut db, "u@example.com");
    let a = pal(&mut db, u, "Ann");
    let b = pal(&mut db, u, "Ben");
    let neighbor = acquaintances.create(&mut db, knows(a, "neighbor")).unwrap();
    let coworker = acquaintances.create(&mut db, knows(a, "coworker")).unwrap();
    let again = acquaintances.create(&mut db, knows(a, "coworker")).unwrap();
    acquaintances.create(&mut db, knows(b, "classmate")).unwrap();
    assert_ne!(again.id, coworker.id);
    let kinds: Vec<String> = acquaintances
        .list_by_friend(&db, a)
        .unwrap()
        .into_iter()
        .map(|r| r.relationship_type)
        .collect();
    assert_eq!(kinds, vec!["coworker", "coworker", "neighbor"]);
    assert_eq!(acquaintances.find_by_friend_and_type(&db, a, "coworker").unwrap(), Some(coworker));
    assert_eq!(acquaintances.find_by_friend_and_type(&db, a, "neighbor").unwrap(), Some(neighbor));
    assert_eq!(acquaintances.find_by_friend_and_type(&db, b, "neighbor").unwrap(), None);
    assert_eq!(acquaintances.find_by_friend_and_type(&db, a, "").unwrap(), None);
}

#[test]
fn acquaintance_update_and_delete() {
    let mut db = Database::new();
    let acquaintances = UserFriendRelationshipRepository::new();
    let u = person(&mut db, "u@example.com");
    let a = pal(&mut db, u, "Ann");
    let r = acquaintances.create(&mut db, knows(a, "coworker")).unwrap();
    let same = acquaintances
        .update(&mut db, r.id, UpdateUserFriendRelationshipInput { relationship_type: None })
        .unwrap();
    assert_eq!(same, r);
    let changed = acquaintances
        .update(
            &mut db,
            r.id,
            UpdateUserFriendRelationshipInput { relationship_type: Some("neighbor".to_string()) },
        )
        .unwrap();
    assert_eq!(changed.relationship_type, "neighbor");
    assert_eq!(changed.id, r.id);
    assert!(matches!(
        acquaintances.update(
            &mut db,
            r.id + 5,
            UpdateUserFriendRelationshipInput { relationship_type: None }
        ),
        Err(RepositoryError::NotFound)
    ));
    assert_eq!(acquaintances.delete(&mut db, r.id + 5).unwrap(), false);
    assert_eq!(acquaintances.delete(&mut db, r.id).unwrap(), true);
    assert_eq!(acquaintances.find_by_id(&db, r.id).unwrap(), None);
}
