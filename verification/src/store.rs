//! The relational store that the repositories work on: seven tables, the
//! constraints that the store enforces between them, and the cascade that
//! follows the removal of an owner.
//!
//! The repositories rely on the store for three things, and this store
//! keeps them as its invariant ([`DatabaseView::sound`]):
//!
//! - identifiers are unique, and so are a user's email, a friend's
//!   membership in a group, and an attribute's key among those of a friend;
//! - every reference from a record to its user, friend or group finds its
//!   target;
//! - removing a record removes the records that refer to it.
//!
//! Where a relational store leaves a choice open, this one makes it in a
//! fixed way, so that every operation has one result: identifiers are
//! handed out in increasing order, a new record is stamped with a clock
//! that ticks once for each, text is ordered by scalar value, a statement
//! that asks for one row gets the earliest that matches, and a violated
//! constraint is reported by its name.

use vstd::prelude::*;

use crate::models::{
    Friend, FriendAttribute, FriendAttributeView, FriendRelationship, FriendRelationshipView,
    FriendView, Group, GroupView, Timestamp, User, UserFriendRelationship,
    UserFriendRelationshipView, UserView,
};
use crate::table::{kept, Criterion, Id, Record, Table};

verus! {

/// The membership of a friend in a group: a pure join record.
#[derive(Clone, Copy, Debug, PartialEq, Eq, Structural)]
pub struct Membership {
    pub id: Id,
    pub friend_id: Id,
    pub group_id: Id,
}

impl View for Membership {
    type V = Membership;

    open spec fn view(&self) -> Membership {
        *self
    }
}

impl Record for Membership {
    open spec fn key(row: Membership) -> Id {
        row.id
    }

    /// Memberships are never listed themselves, so any order will do.
    open spec fn precedes(a: Membership, b: Membership) -> bool {
        true
    }

    proof fn precedes_total(a: Membership, b: Membership) {
    }

    proof fn precedes_transitive(a: Membership, b: Membership, c: Membership) {
    }

    fn id(&self) -> Id {
        self.id
    }

    fn not_after(&self, other: &Self) -> bool {
        true
    }

    fn duplicate(&self) -> Self {
        *self
    }
}

/// The store: its tables, and the identifier and the time that the next
/// new record will get.
pub struct Database {
    pub(crate) users: Table<User>,
    pub(crate) friends: Table<Friend>,
    pub(crate) groups: Table<Group>,
    pub(crate) memberships: Table<Membership>,
    pub(crate) attributes: Table<FriendAttribute>,
    pub(crate) friend_relationships: Table<FriendRelationship>,
    pub(crate) user_friend_relationships: Table<UserFriendRelationship>,
    pub(crate) next_id: Id,
    pub(crate) clock: i128,
}

/// The mathematical value of a [`Database`]: each table as a map from
/// identifier to record.
pub struct DatabaseView {
    pub users: Map<Id, UserView>,
    pub friends: Map<Id, FriendView>,
    pub groups: Map<Id, GroupView>,
    pub memberships: Map<Id, Membership>,
    pub attributes: Map<Id, FriendAttributeView>,
    pub friend_relationships: Map<Id, FriendRelationshipView>,
    pub user_friend_relationships: Map<Id, UserFriendRelationshipView>,
    pub next_id: Id,
    pub clock: i128,
}

impl View for Database {
    type V = DatabaseView;

    open(crate) spec fn view(&self) -> DatabaseView {
        DatabaseView {
            users: self.users@,
            friends: self.friends@,
            groups: self.groups@,
            memberships: self.memberships@,
            attributes: self.attributes@,
            friend_relationships: self.friend_relationships@,
            user_friend_relationships: self.user_friend_relationships@,
            next_id: self.next_id,
            clock: self.clock,
        }
    }
}

/// Each record of `table` is stored under its own identifier, which the
/// store handed out before `next_id`.
pub open spec fn issued<T: Record>(table: Map<Id, T::V>, next_id: Id) -> bool {
    forall|id: Id| #[trigger] table.dom().contains(id) ==> T::key(table[id]) == id && id < next_id
}

impl DatabaseView {
    /// The identifiers of all tables are in order.
    pub open spec fn keyed(self) -> bool {
        &&& issued::<User>(self.users, self.next_id)
        &&& issued::<Friend>(self.friends, self.next_id)
        &&& issued::<Group>(self.groups, self.next_id)
        &&& issued::<Membership>(self.memberships, self.next_id)
        &&& issued::<FriendAttribute>(self.attributes, self.next_id)
        &&& issued::<FriendRelationship>(self.friend_relationships, self.next_id)
        &&& issued::<UserFriendRelationship>(self.user_friend_relationships, self.next_id)
    }

    /// The unique constraints hold: no two users share an email, no friend is
    /// twice in one group, and no friend has two attributes with one key.
    pub open spec fn unique(self) -> bool {
        &&& forall|a: Id, b: Id|
            #![trigger self.users.dom().contains(a), self.users.dom().contains(b)]
            self.users.dom().contains(a) && self.users.dom().contains(b) && self.users[a].email
                == self.users[b].email ==> a == b
        &&& forall|a: Id, b: Id|
            #![trigger self.memberships.dom().contains(a), self.memberships.dom().contains(b)]
            self.memberships.dom().contains(a) && self.memberships.dom().contains(b)
                && self.memberships[a].friend_id == self.memberships[b].friend_id
                && self.memberships[a].group_id == self.memberships[b].group_id ==> a == b
        &&& forall|a: Id, b: Id|
            #![trigger self.attributes.dom().contains(a), self.attributes.dom().contains(b)]
            self.attributes.dom().contains(a) && self.attributes.dom().contains(b)
                && self.attributes[a].friend_id == self.attributes[b].friend_id
                && self.attributes[a].key == self.attributes[b].key ==> a == b
    }

    /// Every reference from one record to another finds its target.
    pub open spec fn referential(self) -> bool {
        &&& forall|id: Id| #[trigger]
            self.friends.dom().contains(id) ==> self.users.dom().contains(self.friends[id].user_id)
        &&& forall|id: Id| #[trigger]
            self.groups.dom().contains(id) ==> self.users.dom().contains(self.groups[id].user_id)
        &&& forall|id: Id| #[trigger]
            self.memberships.dom().contains(id) ==> {
                &&& self.friends.dom().contains(self.memberships[id].friend_id)
                &&& self.groups.dom().contains(self.memberships[id].group_id)
            }
        &&& forall|id: Id| #[trigger]
            self.attributes.dom().contains(id) ==> self.friends.dom().contains(
                self.attributes[id].friend_id,
            )
        &&& forall|id: Id| #[trigger]
            self.friend_relationships.dom().contains(id) ==> {
                &&& self.users.dom().contains(self.friend_relationships[id].user_id)
                &&& self.friends.dom().contains(self.friend_relationships[id].friend_a_id)
                &&& self.friends.dom().contains(self.friend_relationships[id].friend_b_id)
            }
        &&& forall|id: Id| #[trigger]
            self.user_friend_relationships.dom().contains(id) ==> self.friends.dom().contains(
                self.user_friend_relationships[id].friend_id,
            )
    }

    /// What holds of the store even while a removal has not yet cascaded.
    pub open spec fn consistent(self) -> bool {
        self.keyed() && self.unique()
    }

    /// The store's invariant.
    pub open spec fn sound(self) -> bool {
        self.consistent() && self.referential()
    }

    /// The store can still hand out an identifier and a time.
    pub open spec fn has_room(self) -> bool {
        self.next_id < u128::MAX && self.clock < i128::MAX
    }

    /// The time that the next new record is stamped with.
    pub open spec fn now(self) -> Timestamp {
        Timestamp { unix_nanos: self.clock }
    }

    /// The store after it has handed out its next identifier and time.
    pub open spec fn stamped(self) -> DatabaseView {
        DatabaseView { next_id: (self.next_id + 1) as Id, clock: (self.clock + 1) as i128, ..self }
    }

    /// The store after every record whose owner is gone has been dropped,
    /// and so on down to the records that those owned.
    pub open spec fn pruned(self) -> DatabaseView {
        let friends = kept(self.friends, |f: FriendView| self.users.dom().contains(f.user_id));
        let groups = kept(self.groups, |g: GroupView| self.users.dom().contains(g.user_id));
        DatabaseView {
            friends,
            groups,
            memberships: kept(
                self.memberships,
                |m: Membership|
                    friends.dom().contains(m.friend_id) && groups.dom().contains(m.group_id),
            ),
            attributes: kept(
                self.attributes,
                |a: FriendAttributeView| friends.dom().contains(a.friend_id),
            ),
            friend_relationships: kept(
                self.friend_relationships,
                |r: FriendRelationshipView|
                    self.users.dom().contains(r.user_id) && friends.dom().contains(r.friend_a_id)
                        && friends.dom().contains(r.friend_b_id),
            ),
            user_friend_relationships: kept(
                self.user_friend_relationships,
                |r: UserFriendRelationshipView| friends.dom().contains(r.friend_id),
            ),
            ..self
        }
    }

    /// Pruning restores every reference.
    pub proof fn lemma_pruned_sound(self)
        requires
            self.consistent(),
        ensures
            self.pruned().sound(),
    {
    }

    /// Pruning a sound store changes nothing.
    pub proof fn lemma_pruned_unchanged(self)
        requires
            self.sound(),
        ensures
            self.pruned() == self,
    {
        let p = self.pruned();
        assert(p.friends =~= self.friends);
        assert(p.groups =~= self.groups);
        assert(p.memberships =~= self.memberships);
        assert(p.attributes =~= self.attributes);
        assert(p.friend_relationships =~= self.friend_relationships);
        assert(p.user_friend_relationships =~= self.user_friend_relationships);
    }
}

/// Admits the records whose owning user is stored.
pub struct OwnerStored<'a> {
    pub users: &'a Table<User>,
}

impl<'a> Criterion<Friend> for OwnerStored<'a> {
    open spec fn wf(&self) -> bool {
        self.users.wf()
    }

    open spec fn admits(&self, row: FriendView) -> bool {
        self.users@.dom().contains(row.user_id)
    }

    fn test(&self, row: &Friend) -> bool {
        self.users.contains(row.user_id)
    }
}

impl<'a> Criterion<Group> for OwnerStored<'a> {
    open spec fn wf(&self) -> bool {
        self.users.wf()
    }

    open spec fn admits(&self, row: GroupView) -> bool {
        self.users@.dom().contains(row.user_id)
    }

    fn test(&self, row: &Group) -> bool {
        self.users.contains(row.user_id)
    }
}

/// Admits the records whose friend is stored.
pub struct FriendStored<'a> {
    pub friends: &'a Table<Friend>,
}

impl<'a> Criterion<FriendAttribute> for FriendStored<'a> {
    open spec fn wf(&self) -> bool {
        self.friends.wf()
    }

    open spec fn admits(&self, row: FriendAttributeView) -> bool {
        self.friends@.dom().contains(row.friend_id)
    }

    fn test(&self, row: &FriendAttribute) -> bool {
        self.friends.contains(row.friend_id)
    }
}

impl<'a> Criterion<UserFriendRelationship> for FriendStored<'a> {
    open spec fn wf(&self) -> bool {
        self.friends.wf()
    }

    open spec fn admits(&self, row: UserFriendRelationshipView) -> bool {
        self.friends@.dom().contains(row.friend_id)
    }

    fn test(&self, row: &UserFriendRelationship) -> bool {
        self.friends.contains(row.friend_id)
    }
}

/// Admits the memberships whose friend and group are both stored.
pub struct EndsStored<'a> {
    pub friends: &'a Table<Friend>,
    pub groups: &'a Table<Group>,
}

impl<'a> Criterion<Membership> for EndsStored<'a> {
    open spec fn wf(&self) -> bool {
        self.friends.wf() && self.groups.wf()
    }

    open spec fn admits(&self, row: Membership) -> bool {
        self.friends@.dom().contains(row.friend_id) && self.groups@.dom().contains(row.group_id)
    }

    fn test(&self, row: &Membership) -> bool {
        self.friends.contains(row.friend_id) && self.groups.contains(row.group_id)
    }
}

/// Admits the relationships whose user and two friends are all stored.
pub struct PartiesStored<'a> {
    pub users: &'a Table<User>,
    pub friends: &'a Table<Friend>,
}

impl<'a> Criterion<FriendRelationship> for PartiesStored<'a> {
    open spec fn wf(&self) -> bool {
        self.users.wf() && self.friends.wf()
    }

    open spec fn admits(&self, row: FriendRelationshipView) -> bool {
        &&& self.users@.dom().contains(row.user_id)
        &&& self.friends@.dom().contains(row.friend_a_id)
        &&& self.friends@.dom().contains(row.friend_b_id)
    }

    fn test(&self, row: &FriendRelationship) -> bool {
        self.users.contains(row.user_id) && self.friends.contains(row.friend_a_id)
            && self.friends.contains(row.friend_b_id)
    }
}

impl Database {
    /// Every table is well formed.
    pub open(crate) spec fn tables_wf(&self) -> bool {
        &&& self.users.wf()
        &&& self.friends.wf()
        &&& self.groups.wf()
        &&& self.memberships.wf()
        &&& self.attributes.wf()
        &&& self.friend_relationships.wf()
        &&& self.user_friend_relationships.wf()
    }

    /// The store is well formed: its tables are, and its invariant holds.
    pub open spec fn wf(&self) -> bool {
        self.tables_wf() && self@.sound()
    }

    /// An empty store.
    pub fn new() -> (db: Database)
        ensures
            db.wf(),
            db@.has_room(),
            db@.users == Map::<Id, UserView>::empty(),
            db@.friends == Map::<Id, FriendView>::empty(),
            db@.groups == Map::<Id, GroupView>::empty(),
            db@.memberships == Map::<Id, Membership>::empty(),
            db@.attributes == Map::<Id, FriendAttributeView>::empty(),
            db@.friend_relationships == Map::<Id, FriendRelationshipView>::empty(),
            db@.user_friend_relationships == Map::<Id, UserFriendRelationshipView>::empty(),
            db@.next_id == 1,
            db@.clock == 0,
    {
        Database {
            users: Table::new(),
            friends: Table::new(),
            groups: Table::new(),
            memberships: Table::new(),
            attributes: Table::new(),
            friend_relationships: Table::new(),
            user_friend_relationships: Table::new(),
            next_id: 1,
            clock: 0,
        }
    }

    /// Whether the store can still hand out an identifier and a time.
    pub fn has_room(&self) -> (r: bool)
        ensures
            r == self@.has_room(),
    {
        self.next_id < u128::MAX && self.clock < i128::MAX
    }

    /// Hands out the identifier and the time of the next new record.
    pub(crate) fn stamp(&mut self) -> (r: (Id, Timestamp))
        requires
            old(self).wf(),
            old(self)@.has_room(),
        ensures
            final(self).wf(),
            final(self)@ == old(self)@.stamped(),
            r.0 == old(self)@.next_id,
            r.1 == old(self)@.now(),
    {
        let id = self.next_id;
        let now = Timestamp { unix_nanos: self.clock };
        self.next_id = self.next_id + 1;
        self.clock = self.clock + 1;
        (id, now)
    }

    /// Drops every record whose owner is gone, down to the records that
    /// those owned.
    pub(crate) fn prune(&mut self)
        requires
            old(self).tables_wf(),
            old(self)@.consistent(),
        ensures
            final(self).wf(),
            final(self)@ == old(self)@.pruned(),
    {
        self.friends.retain(&OwnerStored { users: &self.users });
        self.groups.retain(&OwnerStored { users: &self.users });
        self.memberships.retain(&EndsStored { friends: &self.friends, groups: &self.groups });
        self.attributes.retain(&FriendStored { friends: &self.friends });
        self.friend_relationships.retain(
            &PartiesStored { users: &self.users, friends: &self.friends },
        );
        self.user_friend_relationships.retain(&FriendStored { friends: &self.friends });
        proof {
            let p = old(self)@.pruned();
            assert(self@.friends =~= p.friends);
            assert(self@.groups =~= p.groups);
            assert(self@.memberships =~= p.memberships);
            assert(self@.attributes =~= p.attributes);
            assert(self@.friend_relationships =~= p.friend_relationships);
            assert(self@.user_friend_relationships =~= p.user_friend_relationships);
            old(self)@.lemma_pruned_sound();
        }
    }
}

} // verus!
