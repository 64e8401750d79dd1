//! The repository of groups.

use vstd::prelude::*;
use vstd::string::*;

use crate::base::{coalesce, coalesced, found_or_missing, merge, merged, Repository};
use crate::error::{RepositoryError, RepositoryErrorView};
use crate::models::{text_of, Friend, FriendView, Group, GroupView};
use crate::queries::{joined, MembersOf, OwnedBy};
use crate::store::{Database, DatabaseView};
use crate::table::{is_listing, views, Id, Record};

verus! {

/// What a new group is made of.
pub struct CreateGroupInput {
    /// The user who owns the group.
    pub user_id: Id,
    pub name: String,
    pub description: Option<String>,
}

pub struct CreateGroupInputView {
    pub user_id: Id,
    pub name: Seq<char>,
    pub description: Option<Seq<char>>,
}

impl View for CreateGroupInput {
    type V = CreateGroupInputView;

    open spec fn view(&self) -> CreateGroupInputView {
        CreateGroupInputView {
            user_id: self.user_id,
            name: self.name@,
            description: text_of(self.description),
        }
    }
}

/// The fields of a group to overwrite; an absent field is left as it is.
pub struct UpdateGroupInput {
    pub name: Option<String>,
    pub description: Option<String>,
}

pub struct UpdateGroupInputView {
    pub name: Option<Seq<char>>,
    pub description: Option<Seq<char>>,
}

impl View for UpdateGroupInput {
    type V = UpdateGroupInputView;

    open spec fn view(&self) -> UpdateGroupInputView {
        UpdateGroupInputView {
            name: text_of(self.name),
            description: text_of(self.description),
        }
    }
}

impl UpdateGroupInputView {
    /// The group after the update.
    pub open spec fn apply(self, group: GroupView) -> GroupView {
        GroupView {
            name: merged(self.name, group.name),
            description: coalesced(self.description, group.description),
            ..group
        }
    }
}

impl UpdateGroupInput {
    /// The group after the update.
    pub fn apply(self, group: Group) -> (r: Group)
        ensures
            r@ == self@.apply(group@),
    {
        Group {
            id: group.id,
            user_id: group.user_id,
            name: merge(self.name, group.name),
            description: coalesce(self.description, group.description),
            created_at: group.created_at,
            updated_at: group.updated_at,
        }
    }
}

/// The name of the constraint that ties a group to its user.
pub open spec fn groups_user_id_fkey() -> Seq<char> {
    "groups_user_id_fkey"@
}

/// The repository of groups.
pub struct GroupRepository {}

impl GroupRepository {
    /// A handle on the repository. It holds nothing: every operation is
    /// given the store that it works on.
    pub fn new() -> Self {
        GroupRepository {}
    }

    /// The groups of a user, by name.
    pub fn list_by_user(&self, db: &Database, user_id: Id) -> (r: Result<
        Vec<Group>,
        RepositoryError,
    >)
        requires
            db.wf(),
        ensures
            r matches Ok(groups) && is_listing::<Group>(
                db@.groups,
                |g: GroupView| g.user_id == user_id,
                views(groups@),
            ),
    {
        Ok(db.groups.select(&OwnedBy { user_id }))
    }

    /// The friends that are members of a group, by first name.
    pub fn list_friends(&self, db: &Database, group_id: Id) -> (r: Result<
        Vec<Friend>,
        RepositoryError,
    >)
        requires
            db.wf(),
        ensures
            r matches Ok(friends) && is_listing::<Friend>(
                db@.friends,
                |f: FriendView| joined(db@.memberships, f.id, group_id),
                views(friends@),
            ),
    {
        Ok(db.friends.select(&MembersOf { memberships: &db.memberships, group_id }))
    }
}

impl Repository for GroupRepository {
    type Entity = Group;

    type CreateInput = CreateGroupInput;

    type UpdateInput = UpdateGroupInput;

    open spec fn stored(db: DatabaseView) -> Map<Id, GroupView> {
        db.groups
    }

    /// A group is created if its user is stored.
    open spec fn created(db: DatabaseView, input: CreateGroupInputView) -> (
        DatabaseView,
        Result<GroupView, RepositoryErrorView>,
    ) {
        if !db.users.dom().contains(input.user_id) {
            (db, Err(RepositoryErrorView::ForeignKeyViolation(groups_user_id_fkey())))
        } else {
            let group = GroupView {
                id: db.next_id,
                user_id: input.user_id,
                name: input.name,
                description: input.description,
                created_at: db.now(),
                updated_at: db.now(),
            };
            (DatabaseView { groups: db.groups.insert(group.id, group), ..db.stamped() }, Ok(group))
        }
    }

    open spec fn updated(db: DatabaseView, id: Id, input: UpdateGroupInputView) -> (
        DatabaseView,
        Result<GroupView, RepositoryErrorView>,
    ) {
        if !db.groups.dom().contains(id) {
            (db, Err(RepositoryErrorView::NotFound))
        } else {
            let group = input.apply(db.groups[id]);
            (DatabaseView { groups: db.groups.insert(id, group), ..db }, Ok(group))
        }
    }

    /// Deleting a group ends the memberships in it.
    open spec fn deleted(db: DatabaseView, id: Id) -> DatabaseView {
        DatabaseView { groups: db.groups.remove(id), ..db }.pruned()
    }

    open spec fn blank(input: UpdateGroupInputView) -> bool {
        input.name is None && input.description is None
    }

    fn find_by_id(&self, db: &Database, id: Id) -> (r: Result<Option<Group>, RepositoryError>) {
        Ok(db.groups.get(id))
    }

    fn create(&self, db: &mut Database, input: CreateGroupInput) -> (r: Result<
        Group,
        RepositoryError,
    >) {
        if !db.users.contains(input.user_id) {
            return Err(
                RepositoryError::ForeignKeyViolation(String::from_str("groups_user_id_fkey")),
            );
        }
        let (id, now) = db.stamp();
        let group = Group {
            id,
            user_id: input.user_id,
            name: input.name,
            description: input.description,
            created_at: now,
            updated_at: now,
        };
        let stored = group.duplicate();
        db.groups.append(group);
        Ok(stored)
    }

    fn update(&self, db: &mut Database, id: Id, input: UpdateGroupInput) -> (r: Result<
        Group,
        RepositoryError,
    >) {
        let current = found_or_missing(db.groups.get(id))?;
        let group = input.apply(current);
        let stored = group.duplicate();
        db.groups.replace(group);
        Ok(stored)
    }

    fn delete(&self, db: &mut Database, id: Id) -> (r: Result<bool, RepositoryError>) {
        let removed = db.groups.remove(id);
        db.prune();
        Ok(removed)
    }

    proof fn law_soundness_kept(
        db: DatabaseView,
        id: Id,
        new: CreateGroupInputView,
        change: UpdateGroupInputView,
    ) {
        DatabaseView { groups: db.groups.remove(id), ..db }.lemma_pruned_sound();
    }

    proof fn law_one_entity_changes(
        db: DatabaseView,
        id: Id,
        new: CreateGroupInputView,
        change: UpdateGroupInputView,
    ) {
        let without = DatabaseView { groups: db.groups.remove(id), ..db };
        assert(without.pruned().groups =~= without.groups);
    }

    proof fn law_created_is_found(db: DatabaseView, input: CreateGroupInputView) {
    }

    proof fn law_blank_update(db: DatabaseView, id: Id, input: UpdateGroupInputView) {
        assert(db.groups.insert(id, db.groups[id]) =~= db.groups);
    }

    proof fn law_update_missing(db: DatabaseView, id: Id, input: UpdateGroupInputView) {
    }

    proof fn law_delete_missing(db: DatabaseView, id: Id) {
        assert(db.groups.remove(id) =~= db.groups);
        db.lemma_pruned_unchanged();
    }
}

} // verus!
