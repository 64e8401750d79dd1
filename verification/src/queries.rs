//! The conditions that the repositories' queries put on records.

use vstd::prelude::*;

use crate::models::{
    Friend, FriendAttribute, FriendAttributeView, FriendRelationship, FriendRelationshipView,
    FriendView, Group, GroupView, UserFriendRelationship, UserFriendRelationshipView,
};
use crate::store::Membership;
use crate::table::{any, is_first, Criterion, Id, Table};

verus! {

/// Admits the records that a given user owns.
pub struct OwnedBy {
    pub user_id: Id,
}

impl Criterion<Friend> for OwnedBy {
    open spec fn wf(&self) -> bool {
        true
    }

    open spec fn admits(&self, row: FriendView) -> bool {
        row.user_id == self.user_id
    }

    fn test(&self, row: &Friend) -> bool {
        row.user_id == self.user_id
    }
}

impl Criterion<Group> for OwnedBy {
    open spec fn wf(&self) -> bool {
        true
    }

    open spec fn admits(&self, row: GroupView) -> bool {
        row.user_id == self.user_id
    }

    fn test(&self, row: &Group) -> bool {
        row.user_id == self.user_id
    }
}

impl Criterion<FriendRelationship> for OwnedBy {
    open spec fn wf(&self) -> bool {
        true
    }

    open spec fn admits(&self, row: FriendRelationshipView) -> bool {
        row.user_id == self.user_id
    }

    fn test(&self, row: &FriendRelationship) -> bool {
        row.user_id == self.user_id
    }
}

/// Admits the records that are attached to a given friend.
pub struct OfFriend {
    pub friend_id: Id,
}

impl Criterion<FriendAttribute> for OfFriend {
    open spec fn wf(&self) -> bool {
        true
    }

    open spec fn admits(&self, row: FriendAttributeView) -> bool {
        row.friend_id == self.friend_id
    }

    fn test(&self, row: &FriendAttribute) -> bool {
        row.friend_id == self.friend_id
    }
}

impl Criterion<UserFriendRelationship> for OfFriend {
    open spec fn wf(&self) -> bool {
        true
    }

    open spec fn admits(&self, row: UserFriendRelationshipView) -> bool {
        row.friend_id == self.friend_id
    }

    fn test(&self, row: &UserFriendRelationship) -> bool {
        row.friend_id == self.friend_id
    }
}

/// The membership joins the friend to the group.
pub open spec fn joins(m: Membership, friend_id: Id, group_id: Id) -> bool {
    m.friend_id == friend_id && m.group_id == group_id
}

/// Some membership joins the friend to the group.
pub open spec fn joined(memberships: Map<Id, Membership>, friend_id: Id, group_id: Id) -> bool {
    any(memberships, |m: Membership| joins(m, friend_id, group_id))
}

/// Admits the memberships of a given friend in a given group.
pub struct Joining {
    pub friend_id: Id,
    pub group_id: Id,
}

impl Criterion<Membership> for Joining {
    open spec fn wf(&self) -> bool {
        true
    }

    open spec fn admits(&self, row: Membership) -> bool {
        joins(row, self.friend_id, self.group_id)
    }

    fn test(&self, row: &Membership) -> bool {
        row.friend_id == self.friend_id && row.group_id == self.group_id
    }
}

/// Admits every membership but those of a given friend in a given group.
pub struct NotJoining {
    pub friend_id: Id,
    pub group_id: Id,
}

impl Criterion<Membership> for NotJoining {
    open spec fn wf(&self) -> bool {
        true
    }

    open spec fn admits(&self, row: Membership) -> bool {
        !joins(row, self.friend_id, self.group_id)
    }

    fn test(&self, row: &Membership) -> bool {
        !(row.friend_id == self.friend_id && row.group_id == self.group_id)
    }
}

/// Whether some membership joins the friend to the group.
pub fn is_joined(memberships: &Table<Membership>, friend_id: Id, group_id: Id) -> (r: bool)
    requires
        memberships.wf(),
    ensures
        r == joined(memberships@, friend_id, group_id),
{
    let criterion = Joining { friend_id, group_id };
    let found = memberships.first(&criterion);
    proof {
        let found_value = match found {
            Some(m) => Some(m@),
            None => None,
        };
        assert(is_first::<Membership>(
            memberships@,
            |m: Membership| criterion.admits(m),
            found_value,
        ));
        if let Some(m) = found_value {
            assert(memberships@.dom().contains(m.id) && joins(memberships@[m.id], friend_id, group_id));
        }
    }
    found.is_some()
}

/// Admits the groups that a given friend is a member of.
pub struct GroupsOf<'a> {
    pub memberships: &'a Table<Membership>,
    pub friend_id: Id,
}

impl<'a> Criterion<Group> for GroupsOf<'a> {
    open spec fn wf(&self) -> bool {
        self.memberships.wf()
    }

    open spec fn admits(&self, row: GroupView) -> bool {
        joined(self.memberships@, self.friend_id, row.id)
    }

    fn test(&self, row: &Group) -> bool {
        is_joined(self.memberships, self.friend_id, row.id)
    }
}

/// Admits the friends that are members of a given group.
pub struct MembersOf<'a> {
    pub memberships: &'a Table<Membership>,
    pub group_id: Id,
}

impl<'a> Criterion<Friend> for MembersOf<'a> {
    open spec fn wf(&self) -> bool {
        self.memberships.wf()
    }

    open spec fn admits(&self, row: FriendView) -> bool {
        joined(self.memberships@, row.id, self.group_id)
    }

    fn test(&self, row: &Friend) -> bool {
        is_joined(self.memberships, row.id, self.group_id)
    }
}

} // verus!
