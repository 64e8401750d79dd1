//! The repository of users.

use vstd::prelude::*;
use vstd::string::*;

use crate::base::{found_or_missing, merge, merged, value_of, Repository};
use crate::error::{RepositoryError, RepositoryErrorView};
use crate::models::{text_of, User, UserView};
use crate::store::{Database, DatabaseView};
use crate::table::{any, is_first, Criterion, Id, Record};
use crate::text::text_eq;

verus! {

/// What a new user is made of. The password hash is stored as given.
pub struct CreateUserInput {
    pub first_name: String,
    pub last_name: String,
    pub email: String,
    pub password_hash: String,
}

pub struct CreateUserInputView {
    pub first_name: Seq<char>,
    pub last_name: Seq<char>,
    pub email: Seq<char>,
    pub password_hash: Seq<char>,
}

impl View for CreateUserInput {
    type V = CreateUserInputView;

    open spec fn view(&self) -> CreateUserInputView {
        CreateUserInputView {
            first_name: self.first_name@,
            last_name: self.last_name@,
            email: self.email@,
            password_hash: self.password_hash@,
        }
    }
}

/// The fields of a user to overwrite; an absent field is left as it is.
pub struct UpdateUserInput {
    pub first_name: Option<String>,
    pub last_name: Option<String>,
    pub email: Option<String>,
    pub password_hash: Option<String>,
}

pub struct UpdateUserInputView {
    pub first_name: Option<Seq<char>>,
    pub last_name: Option<Seq<char>>,
    pub email: Option<Seq<char>>,
    pub password_hash: Option<Seq<char>>,
}

impl View for UpdateUserInput {
    type V = UpdateUserInputView;

    open spec fn view(&self) -> UpdateUserInputView {
        UpdateUserInputView {
            first_name: text_of(self.first_name),
            last_name: text_of(self.last_name),
            email: text_of(self.email),
            password_hash: text_of(self.password_hash),
        }
    }
}

impl UpdateUserInputView {
    /// The user after the update.
    pub open spec fn apply(self, user: UserView) -> UserView {
        UserView {
            first_name: merged(self.first_name, user.first_name),
            last_name: merged(self.last_name, user.last_name),
            email: merged(self.email, user.email),
            password_hash: merged(self.password_hash, user.password_hash),
            ..user
        }
    }
}

impl UpdateUserInput {
    /// The user after the update.
    pub fn apply(self, user: User) -> (r: User)
        ensures
            r@ == self@.apply(user@),
    {
        User {
            id: user.id,
            first_name: merge(self.first_name, user.first_name),
            last_name: merge(self.last_name, user.last_name),
            email: merge(self.email, user.email),
            password_hash: merge(self.password_hash, user.password_hash),
            created_at: user.created_at,
            updated_at: user.updated_at,
        }
    }
}

/// The name of the constraint that keeps emails unique.
pub open spec fn users_email_key() -> Seq<char> {
    "users_email_key"@
}

/// Admits the users with a given email.
pub struct WithEmail<'a> {
    pub email: &'a str,
}

impl<'a> Criterion<User> for WithEmail<'a> {
    open spec fn wf(&self) -> bool {
        true
    }

    open spec fn admits(&self, row: UserView) -> bool {
        row.email == self.email@
    }

    fn test(&self, row: &User) -> bool {
        text_eq(row.email.as_str(), self.email)
    }
}

/// Admits the users with a given email, but for one user.
pub struct EmailOfAnother<'a> {
    pub email: &'a str,
    pub id: Id,
}

impl<'a> Criterion<User> for EmailOfAnother<'a> {
    open spec fn wf(&self) -> bool {
        true
    }

    open spec fn admits(&self, row: UserView) -> bool {
        row.id != self.id && row.email == self.email@
    }

    fn test(&self, row: &User) -> bool {
        row.id != self.id && text_eq(row.email.as_str(), self.email)
    }
}

/// The repository of users.
pub struct UserRepository {}

impl UserRepository {
    /// A handle on the repository. It holds nothing: every operation is
    /// given the store that it works on.
    pub fn new() -> Self {
        UserRepository {}
    }

    /// The user with the given email, if there is one.
    pub fn find_by_email(&self, db: &Database, email: &str) -> (r: Result<
        Option<User>,
        RepositoryError,
    >)
        requires
            db.wf(),
        ensures
            r matches Ok(found) && is_first::<User>(
                db@.users,
                |u: UserView| u.email == email@,
                value_of(found),
            ),
    {
        Ok(db.users.first(&WithEmail { email }))
    }
}

impl UserRepository {
    /// Creating a user under an email that a stored user has fails with
    /// `Duplicate` and changes nothing.
    pub proof fn law_taken_email_rejected(db: DatabaseView, input: CreateUserInputView)
        requires
            any(db.users, |u: UserView| u.email == input.email),
        ensures
            Self::created(db, input) == (
                db,
                Err::<UserView, _>(RepositoryErrorView::Duplicate(users_email_key())),
            ),
    {
    }

    /// Deleting a user removes the friends, groups and relationships that
    /// the user owns, and what those own; the store stays sound, and the
    /// other users keep what is theirs.
    pub proof fn law_delete_cascades(db: DatabaseView, id: Id)
        requires
            db.sound(),
        ensures
            ({
                let after = Self::deleted(db, id);
                &&& after.sound()
                &&& forall|f: Id| #[trigger]
                    after.friends.dom().contains(f) <==> db.friends.dom().contains(f)
                        && db.friends[f].user_id != id
                &&& forall|g: Id| #[trigger]
                    after.groups.dom().contains(g) <==> db.groups.dom().contains(g)
                        && db.groups[g].user_id != id
                &&& forall|r: Id| #[trigger]
                    after.friend_relationships.dom().contains(r)
                        ==> after.friend_relationships[r].user_id != id
                &&& forall|f: Id| #[trigger]
                    after.friends.dom().contains(f) ==> after.friends[f] == db.friends[f]
                &&& forall|g: Id| #[trigger]
                    after.groups.dom().contains(g) ==> after.groups[g] == db.groups[g]
            }),
    {
        let before = DatabaseView { users: db.users.remove(id), ..db };
        before.lemma_pruned_sound();
    }
}

impl Repository for UserRepository {
    type Entity = User;

    type CreateInput = CreateUserInput;

    type UpdateInput = UpdateUserInput;

    open spec fn stored(db: DatabaseView) -> Map<Id, UserView> {
        db.users
    }

    /// A user is created unless its email is taken.
    open spec fn created(db: DatabaseView, input: CreateUserInputView) -> (
        DatabaseView,
        Result<UserView, RepositoryErrorView>,
    ) {
        if any(db.users, |u: UserView| u.email == input.email) {
            (db, Err(RepositoryErrorView::Duplicate(users_email_key())))
        } else {
            let user = UserView {
                id: db.next_id,
                first_name: input.first_name,
                last_name: input.last_name,
                email: input.email,
                password_hash: input.password_hash,
                created_at: db.now(),
                updated_at: db.now(),
            };
            (DatabaseView { users: db.users.insert(user.id, user), ..db.stamped() }, Ok(user))
        }
    }

    /// A stored user is updated unless the new email is another user's.
    open spec fn updated(db: DatabaseView, id: Id, input: UpdateUserInputView) -> (
        DatabaseView,
        Result<UserView, RepositoryErrorView>,
    ) {
        if !db.users.dom().contains(id) {
            (db, Err(RepositoryErrorView::NotFound))
        } else {
            let user = input.apply(db.users[id]);
            if any(db.users, |u: UserView| u.id != id && u.email == user.email) {
                (db, Err(RepositoryErrorView::Duplicate(users_email_key())))
            } else {
                (DatabaseView { users: db.users.insert(id, user), ..db }, Ok(user))
            }
        }
    }

    /// Deleting a user removes what the user owns.
    open spec fn deleted(db: DatabaseView, id: Id) -> DatabaseView {
        DatabaseView { users: db.users.remove(id), ..db }.pruned()
    }

    open spec fn blank(input: UpdateUserInputView) -> bool {
        &&& input.first_name is None
        &&& input.last_name is None
        &&& input.email is None
        &&& input.password_hash is None
    }

    fn find_by_id(&self, db: &Database, id: Id) -> (r: Result<Option<User>, RepositoryError>) {
        Ok(db.users.get(id))
    }

    fn create(&self, db: &mut Database, input: CreateUserInput) -> (r: Result<
        User,
        RepositoryError,
    >) {
        let taken = db.users.first(&WithEmail { email: input.email.as_str() });
        if taken.is_some() {
            return Err(RepositoryError::Duplicate(String::from_str("users_email_key")));
        }
        let (id, now) = db.stamp();
        let user = User {
            id,
            first_name: input.first_name,
            last_name: input.last_name,
            email: input.email,
            password_hash: input.password_hash,
            created_at: now,
            updated_at: now,
        };
        let stored = user.duplicate();
        db.users.append(user);
        Ok(stored)
    }

    fn update(&self, db: &mut Database, id: Id, input: UpdateUserInput) -> (r: Result<
        User,
        RepositoryError,
    >) {
        let current = found_or_missing(db.users.get(id))?;
        let user = input.apply(current);
        let taken = db.users.first(&EmailOfAnother { email: user.email.as_str(), id });
        if taken.is_some() {
            return Err(RepositoryError::Duplicate(String::from_str("users_email_key")));
        }
        let stored = user.duplicate();
        db.users.replace(user);
        Ok(stored)
    }

    fn delete(&self, db: &mut Database, id: Id) -> (r: Result<bool, RepositoryError>) {
        let removed = db.users.remove(id);
        db.prune();
        Ok(removed)
    }

    proof fn law_soundness_kept(
        db: DatabaseView,
        id: Id,
        new: CreateUserInputView,
        change: UpdateUserInputView,
    ) {
        DatabaseView { users: db.users.remove(id), ..db }.lemma_pruned_sound();
    }

    proof fn law_one_entity_changes(
        db: DatabaseView,
        id: Id,
        new: CreateUserInputView,
        change: UpdateUserInputView,
    ) {
    }

    proof fn law_created_is_found(db: DatabaseView, input: CreateUserInputView) {
    }

    proof fn law_blank_update(db: DatabaseView, id: Id, input: UpdateUserInputView) {
        assert(db.users.insert(id, db.users[id]) =~= db.users);
    }

    proof fn law_update_missing(db: DatabaseView, id: Id, input: UpdateUserInputView) {
    }

    proof fn law_delete_missing(db: DatabaseView, id: Id) {
        assert(db.users.remove(id) =~= db.users);
        db.lemma_pruned_unchanged();
    }
}

} // verus!
