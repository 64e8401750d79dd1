//! The entities of the store. Each is a plain record: ownership between
//! entities is expressed by identifiers alone.

use vstd::prelude::*;

use crate::table::{Id, Record};
use crate::text::{lemma_text_le_total, lemma_text_le_transitive, text_le, text_not_after};

verus! {

/// A calendar date, as its Julian day number.
#[derive(Clone, Copy, Debug, PartialEq, Eq, Structural)]
pub struct Date {
    pub julian_day: i32,
}

/// A point in time, in nanoseconds since the Unix epoch.
#[derive(Clone, Copy, Debug, PartialEq, Eq, Structural)]
pub struct Timestamp {
    pub unix_nanos: i128,
}

/// The value of an optional text.
pub open spec fn text_of(text: Option<String>) -> Option<Seq<char>> {
    match text {
        Some(t) => Some(t@),
        None => None,
    }
}

/// A copy of an optional text.
pub fn copy_text(text: &Option<String>) -> (r: Option<String>)
    ensures
        text_of(r) == text_of(*text),
{
    match text {
        Some(t) => Some(t.clone()),
        None => None,
    }
}

/// An account that owns friends, groups and relationships.
#[derive(Clone, Debug, PartialEq, Eq)]
pub struct User {
    pub id: Id,
    pub first_name: String,
    pub last_name: String,
    pub email: String,
    pub password_hash: String,
    pub created_at: Timestamp,
    pub updated_at: Timestamp,
}

pub struct UserView {
    pub id: Id,
    pub first_name: Seq<char>,
    pub last_name: Seq<char>,
    pub email: Seq<char>,
    pub password_hash: Seq<char>,
    pub created_at: Timestamp,
    pub updated_at: Timestamp,
}

impl View for User {
    type V = UserView;

    open spec fn view(&self) -> UserView {
        UserView {
            id: self.id,
            first_name: self.first_name@,
            last_name: self.last_name@,
            email: self.email@,
            password_hash: self.password_hash@,
            created_at: self.created_at,
            updated_at: self.updated_at,
        }
    }
}

impl Record for User {
    open spec fn key(row: UserView) -> Id {
        row.id
    }

    /// Users are never listed, so any order will do.
    open spec fn precedes(a: UserView, b: UserView) -> bool {
        true
    }

    proof fn precedes_total(a: UserView, b: UserView) {
    }

    proof fn precedes_transitive(a: UserView, b: UserView, c: UserView) {
    }

    fn id(&self) -> Id {
        self.id
    }

    fn not_after(&self, other: &Self) -> bool {
        true
    }

    fn duplicate(&self) -> Self {
        User {
            id: self.id,
            first_name: self.first_name.clone(),
            last_name: self.last_name.clone(),
            email: self.email.clone(),
            password_hash: self.password_hash.clone(),
            created_at: self.created_at,
            updated_at: self.updated_at,
        }
    }
}

/// A person that a user keeps track of.
#[derive(Clone, Debug, PartialEq, Eq)]
pub struct Friend {
    pub id: Id,
    pub user_id: Id,
    pub first_name: String,
    pub last_name: Option<String>,
    pub date_of_birth: Option<Date>,
    pub likes: Option<String>,
    pub dislikes: Option<String>,
    pub notes: Option<String>,
    pub created_at: Timestamp,
    pub updated_at: Timestamp,
}

pub struct FriendView {
    pub id: Id,
    pub user_id: Id,
    pub first_name: Seq<char>,
    pub last_name: Option<Seq<char>>,
    pub date_of_birth: Option<Date>,
    pub likes: Option<Seq<char>>,
    pub dislikes: Option<Seq<char>>,
    pub notes: Option<Seq<char>>,
    pub created_at: Timestamp,
    pub updated_at: Timestamp,
}

impl View for Friend {
    type V = FriendView;

    open spec fn view(&self) -> FriendView {
        FriendView {
            id: self.id,
            user_id: self.user_id,
            first_name: self.first_name@,
            last_name: text_of(self.last_name),
            date_of_birth: self.date_of_birth,
            likes: text_of(self.likes),
            dislikes: text_of(self.dislikes),
            notes: text_of(self.notes),
            created_at: self.created_at,
            updated_at: self.updated_at,
        }
    }
}

impl Record for Friend {
    open spec fn key(row: FriendView) -> Id {
        row.id
    }

    /// Friends are listed by first name.
    open spec fn precedes(a: FriendView, b: FriendView) -> bool {
        text_le(a.first_name, b.first_name)
    }

    proof fn precedes_total(a: FriendView, b: FriendView) {
        lemma_text_le_total(a.first_name, b.first_name);
    }

    proof fn precedes_transitive(a: FriendView, b: FriendView, c: FriendView) {
        lemma_text_le_transitive(a.first_name, b.first_name, c.first_name);
    }

    fn id(&self) -> Id {
        self.id
    }

    fn not_after(&self, other: &Self) -> bool {
        text_not_after(self.first_name.as_str(), other.first_name.as_str())
    }

    fn duplicate(&self) -> Self {
        Friend {
            id: self.id,
            user_id: self.user_id,
            first_name: self.first_name.clone(),
            last_name: copy_text(&self.last_name),
            date_of_birth: self.date_of_birth,
            likes: copy_text(&self.likes),
            dislikes: copy_text(&self.dislikes),
            notes: copy_text(&self.notes),
            created_at: self.created_at,
            updated_at: self.updated_at,
        }
    }
}

/// A named grouping of a user's friends.
#[derive(Clone, Debug, PartialEq, Eq)]
pub struct Group {
    pub id: Id,
    pub user_id: Id,
    pub name: String,
    pub description: Option<String>,
    pub created_at: Timestamp,
    pub updated_at: Timestamp,
}

pub struct GroupView {
    pub id: Id,
    pub user_id: Id,
    pub name: Seq<char>,
    pub description: Option<Seq<char>>,
    pub created_at: Timestamp,
    pub updated_at: Timestamp,
}

impl View for Group {
    type V = GroupView;

    open spec fn view(&self) -> GroupView {
        GroupView {
            id: self.id,
            user_id: self.user_id,
            name: self.name@,
            description: text_of(self.description),
            created_at: self.created_at,
            updated_at: self.updated_at,
        }
    }
}

impl Record for Group {
    open spec fn key(row: GroupView) -> Id {
        row.id
    }

    /// Groups are listed by name.
    open spec fn precedes(a: GroupView, b: GroupView) -> bool {
        text_le(a.name, b.name)
    }

    proof fn precedes_total(a: GroupView, b: GroupView) {
        lemma_text_le_total(a.name, b.name);
    }

    proof fn precedes_transitive(a: GroupView, b: GroupView, c: GroupView) {
        lemma_text_le_transitive(a.name, b.name, c.name);
    }

    fn id(&self) -> Id {
        self.id
    }

    fn not_after(&self, other: &Self) -> bool {
        text_not_after(self.name.as_str(), other.name.as_str())
    }

    fn duplicate(&self) -> Self {
        Group {
            id: self.id,
            user_id: self.user_id,
            name: self.name.clone(),
            description: copy_text(&self.description),
            created_at: self.created_at,
            updated_at: self.updated_at,
        }
    }
}

/// A free-form key/value pair attached to a friend.
#[derive(Clone, Debug, PartialEq, Eq)]
pub struct FriendAttribute {
    pub id: Id,
    pub friend_id: Id,
    pub key: String,
    pub value: String,
    pub value_type: String,
    pub created_at: Timestamp,
    pub updated_at: Timestamp,
}

pub struct FriendAttributeView {
    pub id: Id,
    pub friend_id: Id,
    pub key: Seq<char>,
    pub value: Seq<char>,
    pub value_type: Seq<char>,
    pub created_at: Timestamp,
    pub updated_at: Timestamp,
}

impl View for FriendAttribute {
    type V = FriendAttributeView;

    open spec fn view(&self) -> FriendAttributeView {
        FriendAttributeView {
            id: self.id,
            friend_id: self.friend_id,
            key: self.key@,
            value: self.value@,
            value_type: self.value_type@,
            created_at: self.created_at,
            updated_at: self.updated_at,
        }
    }
}

impl Record for FriendAttribute {
    open spec fn key(row: FriendAttributeView) -> Id {
        row.id
    }

    /// Attributes are listed by their key.
    open spec fn precedes(a: FriendAttributeView, b: FriendAttributeView) -> bool {
        text_le(a.key, b.key)
    }

    proof fn precedes_total(a: FriendAttributeView, b: FriendAttributeView) {
        lemma_text_le_total(a.key, b.key);
    }

    proof fn precedes_transitive(
        a: FriendAttributeView,
        b: FriendAttributeView,
        c: FriendAttributeView,
    ) {
        lemma_text_le_transitive(a.key, b.key, c.key);
    }

    fn id(&self) -> Id {
        self.id
    }

    fn not_after(&self, other: &Self) -> bool {
        text_not_after(self.key.as_str(), other.key.as_str())
    }

    fn duplicate(&self) -> Self {
        FriendAttribute {
            id: self.id,
            friend_id: self.friend_id,
            key: self.key.clone(),
            value: self.value.clone(),
            value_type: self.value_type.clone(),
            created_at: self.created_at,
            updated_at: self.updated_at,
        }
    }
}

/// How two friends of one user relate to each other. The record is
/// directional: `a_to_b` says how A relates to B, and `b_to_a`, where
/// present, how B relates to A; where absent the relation is symmetric.
#[derive(Clone, Debug, PartialEq, Eq)]
pub struct FriendRelationship {
    pub id: Id,
    pub user_id: Id,
    pub friend_a_id: Id,
    pub friend_b_id: Id,
    pub a_to_b: String,
    pub b_to_a: Option<String>,
    pub created_at: Timestamp,
    pub updated_at: Timestamp,
}

pub struct FriendRelationshipView {
    pub id: Id,
    pub user_id: Id,
    pub friend_a_id: Id,
    pub friend_b_id: Id,
    pub a_to_b: Seq<char>,
    pub b_to_a: Option<Seq<char>>,
    pub created_at: Timestamp,
    pub updated_at: Timestamp,
}

impl View for FriendRelationship {
    type V = FriendRelationshipView;

    open spec fn view(&self) -> FriendRelationshipView {
        FriendRelationshipView {
            id: self.id,
            user_id: self.user_id,
            friend_a_id: self.friend_a_id,
            friend_b_id: self.friend_b_id,
            a_to_b: self.a_to_b@,
            b_to_a: text_of(self.b_to_a),
            created_at: self.created_at,
            updated_at: self.updated_at,
        }
    }
}

impl Record for FriendRelationship {
    open spec fn key(row: FriendRelationshipView) -> Id {
        row.id
    }

    /// Relationships are listed newest first.
    open spec fn precedes(a: FriendRelationshipView, b: FriendRelationshipView) -> bool {
        a.created_at.unix_nanos >= b.created_at.unix_nanos
    }

    proof fn precedes_total(a: FriendRelationshipView, b: FriendRelationshipView) {
    }

    proof fn precedes_transitive(
        a: FriendRelationshipView,
        b: FriendRelationshipView,
        c: FriendRelationshipView,
    ) {
    }

    fn id(&self) -> Id {
        self.id
    }

    fn not_after(&self, other: &Self) -> bool {
        self.created_at.unix_nanos >= other.created_at.unix_nanos
    }

    fn duplicate(&self) -> Self {
        FriendRelationship {
            id: self.id,
            user_id: self.user_id,
            friend_a_id: self.friend_a_id,
            friend_b_id: self.friend_b_id,
            a_to_b: self.a_to_b.clone(),
            b_to_a: copy_text(&self.b_to_a),
            created_at: self.created_at,
            updated_at: self.updated_at,
        }
    }
}

/// How the user personally knows a friend. A friend may carry several such
/// records, one for each kind of acquaintance.
#[derive(Clone, Debug, PartialEq, Eq)]
pub struct UserFriendRelationship {
    pub id: Id,
    pub friend_id: Id,
    pub relationship_type: String,
    pub created_at: Timestamp,
    pub updated_at: Timestamp,
}

pub struct UserFriendRelationshipView {
    pub id: Id,
    pub friend_id: Id,
    pub relationship_type: Seq<char>,
    pub created_at: Timestamp,
    pub updated_at: Timestamp,
}

impl View for UserFriendRelationship {
    type V = UserFriendRelationshipView;

    open spec fn view(&self) -> UserFriendRelationshipView {
        UserFriendRelationshipView {
            id: self.id,
            friend_id: self.friend_id,
            relationship_type: self.relationship_type@,
            created_at: self.created_at,
            updated_at: self.updated_at,
        }
    }
}

impl Record for UserFriendRelationship {
    open spec fn key(row: UserFriendRelationshipView) -> Id {
        row.id
    }

    /// Acquaintances are listed by their kind.
    open spec fn precedes(a: UserFriendRelationshipView, b: UserFriendRelationshipView) -> bool {
        text_le(a.relationship_type, b.relationship_type)
    }

    proof fn precedes_total(a: UserFriendRelationshipView, b: UserFriendRelationshipView) {
        lemma_text_le_total(a.relationship_type, b.relationship_type);
    }

    proof fn precedes_transitive(
        a: UserFriendRelationshipView,
        b: UserFriendRelationshipView,
        c: UserFriendRelationshipView,
    ) {
        lemma_text_le_transitive(a.relationship_type, b.relationship_type, c.relationship_type);
    }

    fn id(&self) -> Id {
        self.id
    }

    fn not_after(&self, other: &Self) -> bool {
        text_not_after(self.relationship_type.as_str(), other.relationship_type.as_str())
    }

    fn duplicate(&self) -> Self {
        UserFriendRelationship {
            id: self.id,
            friend_id: self.friend_id,
            relationship_type: self.relationship_type.clone(),
            created_at: self.created_at,
            updated_at: self.updated_at,
        }
    }
}

} // verus!
