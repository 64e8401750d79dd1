//! The repository of the ways in which the user knows a friend.

use vstd::prelude::*;
use vstd::string::*;

use crate::base::{found_or_missing, merge, merged, value_of, Repository};
use crate::error::{RepositoryError, RepositoryErrorView};
use crate::models::{text_of, UserFriendRelationship, UserFriendRelationshipView};
use crate::queries::OfFriend;
use crate::store::{Database, DatabaseView};
use crate::table::{is_first, is_listing, views, Criterion, Id, Record};
use crate::text::text_eq;

verus! {

/// What a new acquaintance is made of.
pub struct CreateUserFriendRelationshipInput {
    /// The friend whom the user knows in this way.
    pub friend_id: Id,
    /// How the user knows the friend.
    pub relationship_type: String,
}

pub struct CreateUserFriendRelationshipInputView {
    pub friend_id: Id,
    pub relationship_type: Seq<char>,
}

impl View for CreateUserFriendRelationshipInput {
    type V = CreateUserFriendRelationshipInputView;

    open spec fn view(&self) -> CreateUserFriendRelationshipInputView {
        CreateUserFriendRelationshipInputView {
            friend_id: self.friend_id,
            relationship_type: self.relationship_type@,
        }
    }
}

/// The field of an acquaintance to overwrite; absent, it is left as it is.
pub struct UpdateUserFriendRelationshipInput {
    pub relationship_type: Option<String>,
}

pub struct UpdateUserFriendRelationshipInputView {
    pub relationship_type: Option<Seq<char>>,
}

impl View for UpdateUserFriendRelationshipInput {
    type V = UpdateUserFriendRelationshipInputView;

    open spec fn view(&self) -> UpdateUserFriendRelationshipInputView {
        UpdateUserFriendRelationshipInputView {
            relationship_type: text_of(self.relationship_type),
        }
    }
}

impl UpdateUserFriendRelationshipInputView {
    /// The acquaintance after the update.
    pub open spec fn apply(
        self,
        relationship: UserFriendRelationshipView,
    ) -> UserFriendRelationshipView {
        UserFriendRelationshipView {
            relationship_type: merged(self.relationship_type, relationship.relationship_type),
            ..relationship
        }
    }
}

impl UpdateUserFriendRelationshipInput {
    /// The acquaintance after the update.
    pub fn apply(self, relationship: UserFriendRelationship) -> (r: UserFriendRelationship)
        ensures
            r@ == self@.apply(relationship@),
    {
        UserFriendRelationship {
            id: relationship.id,
            friend_id: relationship.friend_id,
            relationship_type: merge(self.relationship_type, relationship.relationship_type),
            created_at: relationship.created_at,
            updated_at: relationship.updated_at,
        }
    }
}

/// The name of the constraint that ties an acquaintance to its friend.
pub open spec fn user_friend_relationships_friend_id_fkey() -> Seq<char> {
    "user_friend_relationships_friend_id_fkey"@
}

/// Admits the acquaintances of a given kind with a given friend.
pub struct OfKind<'a> {
    pub friend_id: Id,
    pub relationship_type: &'a str,
}

impl<'a> Criterion<UserFriendRelationship> for OfKind<'a> {
    open spec fn wf(&self) -> bool {
        true
    }

    open spec fn admits(&self, row: UserFriendRelationshipView) -> bool {
        row.friend_id == self.friend_id && row.relationship_type == self.relationship_type@
    }

    fn test(&self, row: &UserFriendRelationship) -> bool {
        row.friend_id == self.friend_id && text_eq(
            row.relationship_type.as_str(),
            self.relationship_type,
        )
    }
}

/// The repository of the ways in which the user knows a friend.
pub struct UserFriendRelationshipRepository {}

impl UserFriendRelationshipRepository {
    /// A handle on the repository. It holds nothing: every operation is
    /// given the store that it works on.
    pub fn new() -> Self {
        UserFriendRelationshipRepository {}
    }

    /// The ways in which the user knows a friend, by kind.
    pub fn list_by_friend(&self, db: &Database, friend_id: Id) -> (r: Result<
        Vec<UserFriendRelationship>,
        RepositoryError,
    >)
        requires
            db.wf(),
        ensures
            r matches Ok(relationships) && is_listing::<UserFriendRelationship>(
                db@.user_friend_relationships,
                |row: UserFriendRelationshipView| row.friend_id == friend_id,
                views(relationships@),
            ),
    {
        Ok(db.user_friend_relationships.select(&OfFriend { friend_id }))
    }

    /// The earliest record that the user knows the friend in the given way,
    /// if there is one.
    pub fn find_by_friend_and_type(
        &self,
        db: &Database,
        friend_id: Id,
        relationship_type: &str,
    ) -> (r: Result<Option<UserFriendRelationship>, RepositoryError>)
        requires
            db.wf(),
        ensures
            r matches Ok(found) && is_first::<UserFriendRelationship>(
                db@.user_friend_relationships,
                |row: UserFriendRelationshipView|
                    row.friend_id == friend_id && row.relationship_type == relationship_type@,
                value_of(found),
            ),
    {
        Ok(db.user_friend_relationships.first(&OfKind { friend_id, relationship_type }))
    }
}

impl Repository for UserFriendRelationshipRepository {
    type Entity = UserFriendRelationship;

    type CreateInput = CreateUserFriendRelationshipInput;

    type UpdateInput = UpdateUserFriendRelationshipInput;

    open spec fn stored(db: DatabaseView) -> Map<Id, UserFriendRelationshipView> {
        db.user_friend_relationships
    }

    /// An acquaintance is created if its friend is stored. A friend may be
    /// known in the same way more than once.
    open spec fn created(db: DatabaseView, input: CreateUserFriendRelationshipInputView) -> (
        DatabaseView,
        Result<UserFriendRelationshipView, RepositoryErrorView>,
    ) {
        if !db.friends.dom().contains(input.friend_id) {
            (
                db,
                Err(
                    RepositoryErrorView::ForeignKeyViolation(
                        user_friend_relationships_friend_id_fkey(),
                    ),
                ),
            )
        } else {
            let relationship = UserFriendRelationshipView {
                id: db.next_id,
                friend_id: input.friend_id,
                relationship_type: input.relationship_type,
                created_at: db.now(),
                updated_at: db.now(),
            };
            (
                DatabaseView {
                    user_friend_relationships: db.user_friend_relationships.insert(
                        relationship.id,
                        relationship,
                    ),
                    ..db.stamped()
                },
                Ok(relationship),
            )
        }
    }

    open spec fn updated(db: DatabaseView, id: Id, input: UpdateUserFriendRelationshipInputView)
        -> (DatabaseView, Result<UserFriendRelationshipView, RepositoryErrorView>) {
        if !db.user_friend_relationships.dom().contains(id) {
            (db, Err(RepositoryErrorView::NotFound))
        } else {
            let relationship = input.apply(db.user_friend_relationships[id]);
            (
                DatabaseView {
                    user_friend_relationships: db.user_friend_relationships.insert(
                        id,
                        relationship,
                    ),
                    ..db
                },
                Ok(relationship),
            )
        }
    }

    open spec fn deleted(db: DatabaseView, id: Id) -> DatabaseView {
        DatabaseView { user_friend_relationships: db.user_friend_relationships.remove(id), ..db }
    }

    open spec fn blank(input: UpdateUserFriendRelationshipInputView) -> bool {
        input.relationship_type is None
    }

    fn find_by_id(&self, db: &Database, id: Id) -> (r: Result<
        Option<UserFriendRelationship>,
        RepositoryError,
    >) {
        Ok(db.user_friend_relationships.get(id))
    }

    fn create(&self, db: &mut Database, input: CreateUserFriendRelationshipInput) -> (r: Result<
        UserFriendRelationship,
        RepositoryError,
    >) {
        if !db.friends.contains(input.friend_id) {
            return Err(
                RepositoryError::ForeignKeyViolation(
                    String::from_str("user_friend_relationships_friend_id_fkey"),
                ),
            );
        }
        let (id, now) = db.stamp();
        let relationship = UserFriendRelationship {
            id,
            friend_id: input.friend_id,
            relationship_type: input.relationship_type,
            created_at: now,
            updated_at: now,
        };
        let stored = relationship.duplicate();
        db.user_friend_relationships.append(relationship);
        Ok(stored)
    }

    fn update(&self, db: &mut Database, id: Id, input: UpdateUserFriendRelationshipInput) -> (r:
        Result<UserFriendRelationship, RepositoryError>) {
        let current = found_or_missing(db.user_friend_relationships.get(id))?;
        let relationship = input.apply(current);
        let stored = relationship.duplicate();
        db.user_friend_relationships.replace(relationship);
        Ok(stored)
    }

    fn delete(&self, db: &mut Database, id: Id) -> (r: Result<bool, RepositoryError>) {
        let removed = db.user_friend_relationships.remove(id);
        Ok(removed)
    }

    proof fn law_soundness_kept(
        db: DatabaseView,
        id: Id,
        new: CreateUserFriendRelationshipInputView,
        change: UpdateUserFriendRelationshipInputView,
    ) {
    }

    proof fn law_one_entity_changes(
        db: DatabaseView,
        id: Id,
        new: CreateUserFriendRelationshipInputView,
        change: UpdateUserFriendRelationshipInputView,
    ) {
    }

    proof fn law_created_is_found(db: DatabaseView, input: CreateUserFriendRelationshipInputView) {
    }

    proof fn law_blank_update(
        db: DatabaseView,
        id: Id,
        input: UpdateUserFriendRelationshipInputView,
    ) {
        assert(db.user_friend_relationships.insert(id, db.user_friend_relationships[id])
            =~= db.user_friend_relationships);
    }

    proof fn law_update_missing(
        db: DatabaseView,
        id: Id,
        input: UpdateUserFriendRelationshipInputView,
    ) {
    }

    proof fn law_delete_missing(db: DatabaseView, id: Id) {
        assert(db.user_friend_relationships.remove(id) =~= db.user_friend_relationships);
    }
}

} // verus!
