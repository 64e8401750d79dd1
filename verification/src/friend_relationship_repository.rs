//! The repository of the relationships between friends.

use vstd::prelude::*;
use vstd::string::*;

use crate::base::{coalesce, coalesced, found_or_missing, merge, merged, value_of, Repository};
use crate::error::{RepositoryError, RepositoryErrorView};
use crate::models::{text_of, FriendRelationship, FriendRelationshipView};
use crate::queries::OwnedBy;
use crate::store::{Database, DatabaseView};
use crate::table::{
    any, is_first, is_listing, lemma_first_unique, views, Criterion, Id, Record,
};

verus! {

/// What a new relationship is made of.
pub struct CreateFriendRelationshipInput {
    /// The user who owns both friends.
    pub user_id: Id,
    pub friend_a_id: Id,
    pub friend_b_id: Id,
    /// How A relates to B.
    pub a_to_b: String,
    /// How B relates to A; absent where the relation is symmetric.
    pub b_to_a: Option<String>,
}

pub struct CreateFriendRelationshipInputView {
    pub user_id: Id,
    pub friend_a_id: Id,
    pub friend_b_id: Id,
    pub a_to_b: Seq<char>,
    pub b_to_a: Option<Seq<char>>,
}

impl View for CreateFriendRelationshipInput {
    type V = CreateFriendRelationshipInputView;

    open spec fn view(&self) -> CreateFriendRelationshipInputView {
        CreateFriendRelationshipInputView {
            user_id: self.user_id,
            friend_a_id: self.friend_a_id,
            friend_b_id: self.friend_b_id,
            a_to_b: self.a_to_b@,
            b_to_a: text_of(self.b_to_a),
        }
    }
}

/// The fields of a relationship to overwrite; an absent field is left as it
/// is.
pub struct UpdateFriendRelationshipInput {
    pub a_to_b: Option<String>,
    pub b_to_a: Option<String>,
}

pub struct UpdateFriendRelationshipInputView {
    pub a_to_b: Option<Seq<char>>,
    pub b_to_a: Option<Seq<char>>,
}

impl View for UpdateFriendRelationshipInput {
    type V = UpdateFriendRelationshipInputView;

    open spec fn view(&self) -> UpdateFriendRelationshipInputView {
        UpdateFriendRelationshipInputView {
            a_to_b: text_of(self.a_to_b),
            b_to_a: text_of(self.b_to_a),
        }
    }
}

impl UpdateFriendRelationshipInputView {
    /// The relationship after the update.
    pub open spec fn apply(self, relationship: FriendRelationshipView) -> FriendRelationshipView {
        FriendRelationshipView {
            a_to_b: merged(self.a_to_b, relationship.a_to_b),
            b_to_a: coalesced(self.b_to_a, relationship.b_to_a),
            ..relationship
        }
    }
}

impl UpdateFriendRelationshipInput {
    /// The relationship after the update.
    pub fn apply(self, relationship: FriendRelationship) -> (r: FriendRelationship)
        ensures
            r@ == self@.apply(relationship@),
    {
        FriendRelationship {
            id: relationship.id,
            user_id: relationship.user_id,
            friend_a_id: relationship.friend_a_id,
            friend_b_id: relationship.friend_b_id,
            a_to_b: merge(self.a_to_b, relationship.a_to_b),
            b_to_a: coalesce(self.b_to_a, relationship.b_to_a),
            created_at: relationship.created_at,
            updated_at: relationship.updated_at,
        }
    }
}

/// The name of the constraint that ties a relationship to its first friend.
pub open spec fn friend_relationships_friend_a_id_fkey() -> Seq<char> {
    "friend_relationships_friend_a_id_fkey"@
}

/// The name of the constraint that ties a relationship to its second friend.
pub open spec fn friend_relationships_friend_b_id_fkey() -> Seq<char> {
    "friend_relationships_friend_b_id_fkey"@
}

/// The name of the constraint that ties a relationship to its user.
pub open spec fn friend_relationships_user_id_fkey() -> Seq<char> {
    "friend_relationships_user_id_fkey"@
}

/// The relationship has the friend on either side.
pub open spec fn involves(row: FriendRelationshipView, friend_id: Id) -> bool {
    row.friend_a_id == friend_id || row.friend_b_id == friend_id
}

/// The relationship is between the two friends, whichever of them was
/// recorded as A.
pub open spec fn connects(row: FriendRelationshipView, one: Id, other: Id) -> bool {
    ||| row.friend_a_id == one && row.friend_b_id == other
    ||| row.friend_a_id == other && row.friend_b_id == one
}

/// Admits the relationships that have a given friend on either side.
pub struct Involving {
    pub friend_id: Id,
}

impl Criterion<FriendRelationship> for Involving {
    open spec fn wf(&self) -> bool {
        true
    }

    open spec fn admits(&self, row: FriendRelationshipView) -> bool {
        involves(row, self.friend_id)
    }

    fn test(&self, row: &FriendRelationship) -> bool {
        row.friend_a_id == self.friend_id || row.friend_b_id == self.friend_id
    }
}

/// Admits the relationships between two given friends.
pub struct Between {
    pub one: Id,
    pub other: Id,
}

impl Criterion<FriendRelationship> for Between {
    open spec fn wf(&self) -> bool {
        true
    }

    open spec fn admits(&self, row: FriendRelationshipView) -> bool {
        connects(row, self.one, self.other)
    }

    fn test(&self, row: &FriendRelationship) -> bool {
        (row.friend_a_id == self.one && row.friend_b_id == self.other) || (row.friend_a_id
            == self.other && row.friend_b_id == self.one)
    }
}

/// The repository of the relationships between friends.
pub struct FriendRelationshipRepository {}

impl FriendRelationshipRepository {
    /// A handle on the repository. It holds nothing: every operation is
    /// given the store that it works on.
    pub fn new() -> Self {
        FriendRelationshipRepository {}
    }

    /// The relationships that a user owns, newest first.
    pub fn list_by_user(&self, db: &Database, user_id: Id) -> (r: Result<
        Vec<FriendRelationship>,
        RepositoryError,
    >)
        requires
            db.wf(),
        ensures
            r matches Ok(relationships) && is_listing::<FriendRelationship>(
                db@.friend_relationships,
                |row: FriendRelationshipView| row.user_id == user_id,
                views(relationships@),
            ),
    {
        Ok(db.friend_relationships.select(&OwnedBy { user_id }))
    }

    /// The relationships that have a friend on either side, newest first.
    pub fn list_by_friend(&self, db: &Database, friend_id: Id) -> (r: Result<
        Vec<FriendRelationship>,
        RepositoryError,
    >)
        requires
            db.wf(),
        ensures
            r matches Ok(relationships) && is_listing::<FriendRelationship>(
                db@.friend_relationships,
                |row: FriendRelationshipView| involves(row, friend_id),
                views(relationships@),
            ),
    {
        Ok(db.friend_relationships.select(&Involving { friend_id }))
    }

    /// The earliest relationship between two friends, whichever of them was
    /// recorded as A, if there is one.
    pub fn find_between(&self, db: &Database, friend_a_id: Id, friend_b_id: Id) -> (r: Result<
        Option<FriendRelationship>,
        RepositoryError,
    >)
        requires
            db.wf(),
        ensures
            r matches Ok(found) && is_first::<FriendRelationship>(
                db@.friend_relationships,
                |row: FriendRelationshipView| connects(row, friend_a_id, friend_b_id),
                value_of(found),
            ),
    {
        Ok(db.friend_relationships.first(&Between { one: friend_a_id, other: friend_b_id }))
    }

    /// Looking a relationship up between A and B finds the same record as
    /// looking it up between B and A.
    pub proof fn law_find_between_symmetric(
        db: DatabaseView,
        a: Id,
        b: Id,
        found_ab: Option<FriendRelationshipView>,
        found_ba: Option<FriendRelationshipView>,
    )
        requires
            is_first::<FriendRelationship>(
                db.friend_relationships,
                |row: FriendRelationshipView| connects(row, a, b),
                found_ab,
            ),
            is_first::<FriendRelationship>(
                db.friend_relationships,
                |row: FriendRelationshipView| connects(row, b, a),
                found_ba,
            ),
        ensures
            found_ab == found_ba,
    {
        assert(is_first::<FriendRelationship>(
            db.friend_relationships,
            |row: FriendRelationshipView| connects(row, a, b),
            found_ba,
        ));
        lemma_first_unique::<FriendRelationship>(
            db.friend_relationships,
            |row: FriendRelationshipView| connects(row, a, b),
            found_ab,
            found_ba,
        );
    }

    /// A relationship that was created between two friends is found between
    /// them in either order.
    pub proof fn law_created_is_between(db: DatabaseView, input: CreateFriendRelationshipInputView)
        requires
            db.sound(),
        ensures
            Self::created(db, input).1 is Ok ==> {
                let after = Self::created(db, input).0.friend_relationships;
                &&& any(
                    after,
                    |row: FriendRelationshipView|
                        connects(row, input.friend_a_id, input.friend_b_id),
                )
                &&& any(
                    after,
                    |row: FriendRelationshipView|
                        connects(row, input.friend_b_id, input.friend_a_id),
                )
            },
    {
        if Self::created(db, input).1 is Ok {
            let after = Self::created(db, input).0.friend_relationships;
            assert(after.dom().contains(db.next_id));
            assert(connects(after[db.next_id], input.friend_a_id, input.friend_b_id));
            assert(connects(after[db.next_id], input.friend_b_id, input.friend_a_id));
        }
    }

    /// Creating a relationship that names a friend or a user who is not
    /// stored fails with `ForeignKeyViolation` and changes nothing.
    pub proof fn law_dangling_reference_rejected(
        db: DatabaseView,
        input: CreateFriendRelationshipInputView,
    )
        requires
            !db.friends.dom().contains(input.friend_a_id) || !db.friends.dom().contains(
                input.friend_b_id,
            ) || !db.users.dom().contains(input.user_id),
        ensures
            Self::created(db, input).0 == db,
            Self::created(db, input).1 matches Err(e) && e is ForeignKeyViolation,
    {
    }
}

impl Repository for FriendRelationshipRepository {
    type Entity = FriendRelationship;

    type CreateInput = CreateFriendRelationshipInput;

    type UpdateInput = UpdateFriendRelationshipInput;

    open spec fn stored(db: DatabaseView) -> Map<Id, FriendRelationshipView> {
        db.friend_relationships
    }

    /// A relationship is created if both friends and the user are stored.
    open spec fn created(db: DatabaseView, input: CreateFriendRelationshipInputView) -> (
        DatabaseView,
        Result<FriendRelationshipView, RepositoryErrorView>,
    ) {
        if !db.friends.dom().contains(input.friend_a_id) {
            (
                db,
                Err(RepositoryErrorView::ForeignKeyViolation(friend_relationships_friend_a_id_fkey())),
            )
        } else if !db.friends.dom().contains(input.friend_b_id) {
            (
                db,
                Err(RepositoryErrorView::ForeignKeyViolation(friend_relationships_friend_b_id_fkey())),
            )
        } else if !db.users.dom().contains(input.user_id) {
            (db, Err(RepositoryErrorView::ForeignKeyViolation(friend_relationships_user_id_fkey())))
        } else {
            let relationship = FriendRelationshipView {
                id: db.next_id,
                user_id: input.user_id,
                friend_a_id: input.friend_a_id,
                friend_b_id: input.friend_b_id,
                a_to_b: input.a_to_b,
                b_to_a: input.b_to_a,
                created_at: db.now(),
                updated_at: db.now(),
            };
            (
                DatabaseView {
                    friend_relationships: db.friend_relationships.insert(
                        relationship.id,
                        relationship,
                    ),
                    ..db.stamped()
                },
                Ok(relationship),
            )
        }
    }

    open spec fn updated(db: DatabaseView, id: Id, input: UpdateFriendRelationshipInputView) -> (
        DatabaseView,
        Result<FriendRelationshipView, RepositoryErrorView>,
    ) {
        if !db.friend_relationships.dom().contains(id) {
            (db, Err(RepositoryErrorView::NotFound))
        } else {
            let relationship = input.apply(db.friend_relationships[id]);
            (
                DatabaseView {
                    friend_relationships: db.friend_relationships.insert(id, relationship),
                    ..db
                },
                Ok(relationship),
            )
        }
    }

    open spec fn deleted(db: DatabaseView, id: Id) -> DatabaseView {
        DatabaseView { friend_relationships: db.friend_relationships.remove(id), ..db }
    }

    open spec fn blank(input: UpdateFriendRelationshipInputView) -> bool {
        input.a_to_b is None && input.b_to_a is None
    }

    fn find_by_id(&self, db: &Database, id: Id) -> (r: Result<
        Option<FriendRelationship>,
        RepositoryError,
    >) {
        Ok(db.friend_relationships.get(id))
    }

    fn create(&self, db: &mut Database, input: CreateFriendRelationshipInput) -> (r: Result<
        FriendRelationship,
        RepositoryError,
    >) {
        if !db.friends.contains(input.friend_a_id) {
            return Err(
                RepositoryError::ForeignKeyViolation(
                    String::from_str("friend_relationships_friend_a_id_fkey"),
                ),
            );
        }
        if !db.friends.contains(input.friend_b_id) {
            return Err(
                RepositoryError::ForeignKeyViolation(
                    String::from_str("friend_relationships_friend_b_id_fkey"),
                ),
            );
        }
        if !db.users.contains(input.user_id) {
            return Err(
                RepositoryError::ForeignKeyViolation(
                    String::from_str("friend_relationships_user_id_fkey"),
                ),
            );
        }
        let (id, now) = db.stamp();
        let relationship = FriendRelationship {
            id,
            user_id: input.user_id,
            friend_a_id: input.friend_a_id,
            friend_b_id: input.friend_b_id,
            a_to_b: input.a_to_b,
            b_to_a: input.b_to_a,
            created_at: now,
            updated_at: now,
        };
        let stored = relationship.duplicate();
        db.friend_relationships.append(relationship);
        Ok(stored)
    }

    fn update(&self, db: &mut Database, id: Id, input: UpdateFriendRelationshipInput) -> (r:
        Result<FriendRelationship, RepositoryError>) {
        let current = found_or_missing(db.friend_relationships.get(id))?;
        let relationship = input.apply(current);
        let stored = relationship.duplicate();
        db.friend_relationships.replace(relationship);
        Ok(stored)
    }

    fn delete(&self, db: &mut Database, id: Id) -> (r: Result<bool, RepositoryError>) {
        let removed = db.friend_relationships.remove(id);
        Ok(removed)
    }

    proof fn law_soundness_kept(
        db: DatabaseView,
        id: Id,
        new: CreateFriendRelationshipInputView,
        change: UpdateFriendRelationshipInputView,
    ) {
    }

    proof fn law_one_entity_changes(
        db: DatabaseView,
        id: Id,
        new: CreateFriendRelationshipInputView,
        change: UpdateFriendRelationshipInputView,
    ) {
    }

    proof fn law_created_is_found(db: DatabaseView, input: CreateFriendRelationshipInputView) {
    }

    proof fn law_blank_update(db: DatabaseView, id: Id, input: UpdateFriendRelationshipInputView) {
        assert(db.friend_relationships.insert(id, db.friend_relationships[id])
            =~= db.friend_relationships);
    }

    proof fn law_update_missing(
        db: DatabaseView,
        id: Id,
        input: UpdateFriendRelationshipInputView,
    ) {
    }

    proof fn law_delete_missing(db: DatabaseView, id: Id) {
        assert(db.friend_relationships.remove(id) =~= db.friend_relationships);
    }
}

} // verus!
