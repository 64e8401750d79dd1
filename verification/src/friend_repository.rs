//! The repository of friends, and of their membership in groups.

use vstd::prelude::*;
use vstd::string::*;

use crate::base::{
    coalesce, coalesce_date, coalesced, found_or_missing, merge, merged, Repository,
};
use crate::error::{RepositoryError, RepositoryErrorView};
use crate::models::{text_of, Date, Friend, FriendView, Group, GroupView};
use crate::queries::{is_joined, joined, joins, GroupsOf, NotJoining, OwnedBy};
use crate::store::{Database, DatabaseView, Membership};
use crate::table::{any, is_listing, kept, lemma_listing_of_one, views, Id, Record};

verus! {

/// What a new friend is made of.
pub struct CreateFriendInput {
    /// The user who owns the friend.
    pub user_id: Id,
    pub first_name: String,
    pub last_name: Option<String>,
    pub date_of_birth: Option<Date>,
    pub likes: Option<String>,
    pub dislikes: Option<String>,
    pub notes: Option<String>,
}

pub struct CreateFriendInputView {
    pub user_id: Id,
    pub first_name: Seq<char>,
    pub last_name: Option<Seq<char>>,
    pub date_of_birth: Option<Date>,
    pub likes: Option<Seq<char>>,
    pub dislikes: Option<Seq<char>>,
    pub notes: Option<Seq<char>>,
}

impl View for CreateFriendInput {
    type V = CreateFriendInputView;

    open spec fn view(&self) -> CreateFriendInputView {
        CreateFriendInputView {
            user_id: self.user_id,
            first_name: self.first_name@,
            last_name: text_of(self.last_name),
            date_of_birth: self.date_of_birth,
            likes: text_of(self.likes),
            dislikes: text_of(self.dislikes),
            notes: text_of(self.notes),
        }
    }
}

/// The fields of a friend to overwrite; an absent field is left as it is.
pub struct UpdateFriendInput {
    pub first_name: Option<String>,
    pub last_name: Option<String>,
    pub date_of_birth: Option<Date>,
    pub likes: Option<String>,
    pub dislikes: Option<String>,
    pub notes: Option<String>,
}

pub struct UpdateFriendInputView {
    pub first_name: Option<Seq<char>>,
    pub last_name: Option<Seq<char>>,
    pub date_of_birth: Option<Date>,
    pub likes: Option<Seq<char>>,
    pub dislikes: Option<Seq<char>>,
    pub notes: Option<Seq<char>>,
}

impl View for UpdateFriendInput {
    type V = UpdateFriendInputView;

    open spec fn view(&self) -> UpdateFriendInputView {
        UpdateFriendInputView {
            first_name: text_of(self.first_name),
            last_name: text_of(self.last_name),
            date_of_birth: self.date_of_birth,
            likes: text_of(self.likes),
            dislikes: text_of(self.dislikes),
            notes: text_of(self.notes),
        }
    }
}

impl UpdateFriendInputView {
    /// The friend after the update.
    pub open spec fn apply(self, friend: FriendView) -> FriendView {
        FriendView {
            first_name: merged(self.first_name, friend.first_name),
            last_name: coalesced(self.last_name, friend.last_name),
            date_of_birth: coalesced(self.date_of_birth, friend.date_of_birth),
            likes: coalesced(self.likes, friend.likes),
            dislikes: coalesced(self.dislikes, friend.dislikes),
            notes: coalesced(self.notes, friend.notes),
            ..friend
        }
    }
}

impl UpdateFriendInput {
    /// The friend after the update.
    pub fn apply(self, friend: Friend) -> (r: Friend)
        ensures
            r@ == self@.apply(friend@),
    {
        Friend {
            id: friend.id,
            user_id: friend.user_id,
            first_name: merge(self.first_name, friend.first_name),
            last_name: coalesce(self.last_name, friend.last_name),
            date_of_birth: coalesce_date(self.date_of_birth, friend.date_of_birth),
            likes: coalesce(self.likes, friend.likes),
            dislikes: coalesce(self.dislikes, friend.dislikes),
            notes: coalesce(self.notes, friend.notes),
            created_at: friend.created_at,
            updated_at: friend.updated_at,
        }
    }
}

/// The name of the constraint that ties a friend to its user.
pub open spec fn friends_user_id_fkey() -> Seq<char> {
    "friends_user_id_fkey"@
}

/// The name of the constraint that ties a membership to its friend.
pub open spec fn friend_groups_friend_id_fkey() -> Seq<char> {
    "friend_groups_friend_id_fkey"@
}

/// The name of the constraint that ties a membership to its group.
pub open spec fn friend_groups_group_id_fkey() -> Seq<char> {
    "friend_groups_group_id_fkey"@
}

/// The store after a friend was added to a group, and what the operation
/// returns. A friend who is a member already stays one, without error.
pub open spec fn added_to_group(db: DatabaseView, friend_id: Id, group_id: Id) -> (
    DatabaseView,
    Result<(), RepositoryErrorView>,
) {
    if joined(db.memberships, friend_id, group_id) {
        (db, Ok(()))
    } else if !db.friends.dom().contains(friend_id) {
        (db, Err(RepositoryErrorView::ForeignKeyViolation(friend_groups_friend_id_fkey())))
    } else if !db.groups.dom().contains(group_id) {
        (db, Err(RepositoryErrorView::ForeignKeyViolation(friend_groups_group_id_fkey())))
    } else {
        let membership = Membership { id: db.next_id, friend_id, group_id };
        (
            DatabaseView {
                memberships: db.memberships.insert(membership.id, membership),
                ..db.stamped()
            },
            Ok(()),
        )
    }
}

/// The store after a friend was removed from a group.
pub open spec fn removed_from_group(db: DatabaseView, friend_id: Id, group_id: Id) -> DatabaseView {
    DatabaseView {
        memberships: kept(db.memberships, |m: Membership| !joins(m, friend_id, group_id)),
        ..db
    }
}

/// The repository of friends.
pub struct FriendRepository {}

impl FriendRepository {
    /// A handle on the repository. It holds nothing: every operation is
    /// given the store that it works on.
    pub fn new() -> Self {
        FriendRepository {}
    }

    /// The friends of a user, by first name.
    pub fn list_by_user(&self, db: &Database, user_id: Id) -> (r: Result<
        Vec<Friend>,
        RepositoryError,
    >)
        requires
            db.wf(),
        ensures
            r matches Ok(friends) && is_listing::<Friend>(
                db@.friends,
                |f: FriendView| f.user_id == user_id,
                views(friends@),
            ),
    {
        Ok(db.friends.select(&OwnedBy { user_id }))
    }

    /// Makes a friend a member of a group. Doing so again changes nothing
    /// and is no error.
    pub fn add_to_group(&self, db: &mut Database, friend_id: Id, group_id: Id) -> (r: Result<
        (),
        RepositoryError,
    >)
        requires
            old(db).wf(),
            old(db)@.has_room(),
        ensures
            final(db).wf(),
            final(db)@ == added_to_group(old(db)@, friend_id, group_id).0,
            match added_to_group(old(db)@, friend_id, group_id).1 {
                Ok(_) => r is Ok,
                Err(e) => r matches Err(f) && f@ == e,
            },
    {
        if is_joined(&db.memberships, friend_id, group_id) {
            return Ok(());
        }
        if !db.friends.contains(friend_id) {
            return Err(
                RepositoryError::ForeignKeyViolation(
                    String::from_str("friend_groups_friend_id_fkey"),
                ),
            );
        }
        if !db.groups.contains(group_id) {
            return Err(
                RepositoryError::ForeignKeyViolation(
                    String::from_str("friend_groups_group_id_fkey"),
                ),
            );
        }
        let (id, _now) = db.stamp();
        db.memberships.append(Membership { id, friend_id, group_id });
        Ok(())
    }

    /// Ends a friend's membership of a group; tells whether the friend was
    /// a member.
    pub fn remove_from_group(&self, db: &mut Database, friend_id: Id, group_id: Id) -> (r: Result<
        bool,
        RepositoryError,
    >)
        requires
            old(db).wf(),
        ensures
            final(db).wf(),
            final(db)@ == removed_from_group(old(db)@, friend_id, group_id),
            r matches Ok(removed) && removed == joined(old(db)@.memberships, friend_id, group_id),
    {
        let was_member = is_joined(&db.memberships, friend_id, group_id);
        db.memberships.retain(&NotJoining { friend_id, group_id });
        proof {
            assert(db@.memberships =~= removed_from_group(
                old(db)@,
                friend_id,
                group_id,
            ).memberships);
        }
        Ok(was_member)
    }

    /// The groups that a friend is a member of, by name.
    pub fn list_groups(&self, db: &Database, friend_id: Id) -> (r: Result<
        Vec<Group>,
        RepositoryError,
    >)
        requires
            db.wf(),
        ensures
            r matches Ok(groups) && is_listing::<Group>(
                db@.groups,
                |g: GroupView| joined(db@.memberships, friend_id, g.id),
                views(groups@),
            ),
    {
        Ok(db.groups.select(&GroupsOf { memberships: &db.memberships, friend_id }))
    }
}

impl FriendRepository {
    /// Adding a stored friend to a stored group twice succeeds both times,
    /// and leaves exactly one membership of the friend in the group: the
    /// second call changes nothing.
    pub proof fn law_add_to_group_twice(db: DatabaseView, friend_id: Id, group_id: Id)
        requires
            db.sound(),
            db.has_room(),
            db.friends.dom().contains(friend_id),
            db.groups.dom().contains(group_id),
        ensures
            ({
                let once = added_to_group(db, friend_id, group_id).0;
                &&& added_to_group(db, friend_id, group_id).1 is Ok
                &&& once.sound()
                &&& added_to_group(once, friend_id, group_id) == (once, Ok::<(), RepositoryErrorView>(()))
                &&& joined(once.memberships, friend_id, group_id)
                &&& forall|a: Id, b: Id|
                    #![trigger once.memberships.dom().contains(a), once.memberships.dom().contains(b)]
                    once.memberships.dom().contains(a) && once.memberships.dom().contains(b)
                        && joins(once.memberships[a], friend_id, group_id) && joins(
                        once.memberships[b],
                        friend_id,
                        group_id,
                    ) ==> a == b
            }),
    {
        let once = added_to_group(db, friend_id, group_id).0;
        if !joined(db.memberships, friend_id, group_id) {
            assert(once.memberships.dom().contains(db.next_id));
            assert(joins(once.memberships[db.next_id], friend_id, group_id));
        }
    }

    /// Removing a friend from a group ends that membership and no other.
    pub proof fn law_removed_from_group(db: DatabaseView, friend_id: Id, group_id: Id)
        requires
            db.sound(),
        ensures
            ({
                let after = removed_from_group(db, friend_id, group_id);
                &&& after.sound()
                &&& !joined(after.memberships, friend_id, group_id)
                &&& forall|m: Id| #[trigger]
                    after.memberships.dom().contains(m) <==> db.memberships.dom().contains(m)
                        && !joins(db.memberships[m], friend_id, group_id)
                &&& forall|m: Id| #[trigger]
                    after.memberships.dom().contains(m) ==> after.memberships[m]
                        == db.memberships[m]
            }),
    {
    }

    /// The first friend that is created for a user is all that the user's
    /// list of friends holds.
    pub proof fn law_first_friend_is_listed(
        db: DatabaseView,
        input: CreateFriendInputView,
        listed: Seq<FriendView>,
    )
        requires
            db.sound(),
            !any(db.friends, |f: FriendView| f.user_id == input.user_id),
            Self::created(db, input).1 is Ok,
            is_listing::<Friend>(
                Self::created(db, input).0.friends,
                |f: FriendView| f.user_id == input.user_id,
                listed,
            ),
        ensures
            Self::created(db, input).1 matches Ok(friend) && listed == seq![friend],
    {
        let after = Self::created(db, input).0.friends;
        let friend = Self::created(db, input).1->Ok_0;
        assert forall|id: Id| #[trigger]
            after.dom().contains(id) && after[id].user_id == input.user_id implies id
            == friend.id by {
            if id != friend.id {
                assert(db.friends.dom().contains(id));
            }
        }
        lemma_listing_of_one::<Friend>(
            after,
            |f: FriendView| f.user_id == input.user_id,
            listed,
            friend,
        );
    }

    /// Creating a friend for a user who is not stored fails with
    /// `ForeignKeyViolation` and changes nothing.
    pub proof fn law_unknown_user_rejected(db: DatabaseView, input: CreateFriendInputView)
        requires
            !db.users.dom().contains(input.user_id),
        ensures
            Self::created(db, input) == (
                db,
                Err::<FriendView, _>(
                    RepositoryErrorView::ForeignKeyViolation(friends_user_id_fkey()),
                ),
            ),
    {
    }

    /// Deleting a friend removes its memberships, its attributes, the
    /// relationships it is part of and the ways the user knows it; the
    /// store stays sound.
    pub proof fn law_delete_cascades(db: DatabaseView, id: Id)
        requires
            db.sound(),
        ensures
            ({
                let after = Self::deleted(db, id);
                &&& after.sound()
                &&& forall|m: Id| #[trigger]
                    after.memberships.dom().contains(m) ==> after.memberships[m].friend_id != id
                &&& forall|a: Id| #[trigger]
                    after.attributes.dom().contains(a) ==> after.attributes[a].friend_id != id
                &&& forall|r: Id| #[trigger]
                    after.friend_relationships.dom().contains(r) ==> {
                        &&& after.friend_relationships[r].friend_a_id != id
                        &&& after.friend_relationships[r].friend_b_id != id
                    }
                &&& forall|r: Id| #[trigger]
                    after.user_friend_relationships.dom().contains(r)
                        ==> after.user_friend_relationships[r].friend_id != id
                &&& after.users == db.users
                &&& after.groups == db.groups
            }),
    {
        let before = DatabaseView { friends: db.friends.remove(id), ..db };
        before.lemma_pruned_sound();
        assert(before.pruned().groups =~= db.groups);
    }
}

impl Repository for FriendRepository {
    type Entity = Friend;

    type CreateInput = CreateFriendInput;

    type UpdateInput = UpdateFriendInput;

    open spec fn stored(db: DatabaseView) -> Map<Id, FriendView> {
        db.friends
    }

    /// A friend is created if its user is stored.
    open spec fn created(db: DatabaseView, input: CreateFriendInputView) -> (
        DatabaseView,
        Result<FriendView, RepositoryErrorView>,
    ) {
        if !db.users.dom().contains(input.user_id) {
            (db, Err(RepositoryErrorView::ForeignKeyViolation(friends_user_id_fkey())))
        } else {
            let friend = FriendView {
                id: db.next_id,
                user_id: input.user_id,
                first_name: input.first_name,
                last_name: input.last_name,
                date_of_birth: input.date_of_birth,
                likes: input.likes,
                dislikes: input.dislikes,
                notes: input.notes,
                created_at: db.now(),
                updated_at: db.now(),
            };
            (DatabaseView { friends: db.friends.insert(friend.id, friend), ..db.stamped() }, Ok(friend))
        }
    }

    open spec fn updated(db: DatabaseView, id: Id, input: UpdateFriendInputView) -> (
        DatabaseView,
        Result<FriendView, RepositoryErrorView>,
    ) {
        if !db.friends.dom().contains(id) {
            (db, Err(RepositoryErrorView::NotFound))
        } else {
            let friend = input.apply(db.friends[id]);
            (DatabaseView { friends: db.friends.insert(id, friend), ..db }, Ok(friend))
        }
    }

    /// Deleting a friend removes its memberships, attributes and
    /// relationships.
    open spec fn deleted(db: DatabaseView, id: Id) -> DatabaseView {
        DatabaseView { friends: db.friends.remove(id), ..db }.pruned()
    }

    open spec fn blank(input: UpdateFriendInputView) -> bool {
        &&& input.first_name is None
        &&& input.last_name is None
        &&& input.date_of_birth is None
        &&& input.likes is None
        &&& input.dislikes is None
        &&& input.notes is None
    }

    fn find_by_id(&self, db: &Database, id: Id) -> (r: Result<Option<Friend>, RepositoryError>) {
        Ok(db.friends.get(id))
    }

    fn create(&self, db: &mut Database, input: CreateFriendInput) -> (r: Result<
        Friend,
        RepositoryError,
    >) {
        if !db.users.contains(input.user_id) {
            return Err(
                RepositoryError::ForeignKeyViolation(String::from_str("friends_user_id_fkey")),
            );
        }
        let (id, now) = db.stamp();
        let friend = Friend {
            id,
            user_id: input.user_id,
            first_name: input.first_name,
            last_name: input.last_name,
            date_of_birth: input.date_of_birth,
            likes: input.likes,
            dislikes: input.dislikes,
            notes: input.notes,
            created_at: now,
            updated_at: now,
        };
        let stored = friend.duplicate();
        db.friends.append(friend);
        Ok(stored)
    }

    fn update(&self, db: &mut Database, id: Id, input: UpdateFriendInput) -> (r: Result<
        Friend,
        RepositoryError,
    >) {
        let current = found_or_missing(db.friends.get(id))?;
        let friend = input.apply(current);
        let stored = friend.duplicate();
        db.friends.replace(friend);
        Ok(stored)
    }

    fn delete(&self, db: &mut Database, id: Id) -> (r: Result<bool, RepositoryError>) {
        let removed = db.friends.remove(id);
        db.prune();
        Ok(removed)
    }

    proof fn law_soundness_kept(
        db: DatabaseView,
        id: Id,
        new: CreateFriendInputView,
        change: UpdateFriendInputView,
    ) {
        DatabaseView { friends: db.friends.remove(id), ..db }.lemma_pruned_sound();
    }

    proof fn law_one_entity_changes(
        db: DatabaseView,
        id: Id,
        new: CreateFriendInputView,
        change: UpdateFriendInputView,
    ) {
        let without = DatabaseView { friends: db.friends.remove(id), ..db };
        assert(without.pruned().friends =~= without.friends);
    }

    proof fn law_created_is_found(db: DatabaseView, input: CreateFriendInputView) {
    }

    proof fn law_blank_update(db: DatabaseView, id: Id, input: UpdateFriendInputView) {
        assert(db.friends.insert(id, db.friends[id]) =~= db.friends);
    }

    proof fn law_update_missing(db: DatabaseView, id: Id, input: UpdateFriendInputView) {
    }

    proof fn law_delete_missing(db: DatabaseView, id: Id) {
        assert(db.friends.remove(id) =~= db.friends);
        db.lemma_pruned_unchanged();
    }
}

} // verus!
