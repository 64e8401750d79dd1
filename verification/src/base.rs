//! The contract that every repository meets: find, create, update and
//! delete one kind of entity, each with the same meaning whatever the kind.

use vstd::prelude::*;

use crate::error::{classified, RepositoryError, RepositoryErrorView};
use crate::models::{text_of, Date};
use crate::store::{Database, DatabaseView};
use crate::table::{Id, Record};

verus! {

/// The value of an operation's result.
pub open spec fn outcome<T: View>(r: Result<T, RepositoryError>) -> Result<
    T::V,
    RepositoryErrorView,
> {
    match r {
        Ok(entity) => Ok(entity@),
        Err(e) => Err(e@),
    }
}

/// The record that `table` holds under `id`, if any.
pub open spec fn lookup<V>(table: Map<Id, V>, id: Id) -> Option<V> {
    if table.dom().contains(id) {
        Some(table[id])
    } else {
        None
    }
}

/// The value of an optional entity.
pub open spec fn value_of<T: View>(found: Option<T>) -> Option<T::V> {
    match found {
        Some(entity) => Some(entity@),
        None => None,
    }
}

/// What an update leaves in a required field: the new value where one is
/// present, else the stored one.
pub open spec fn merged<V>(new: Option<V>, stored: V) -> V {
    match new {
        Some(value) => value,
        None => stored,
    }
}

/// What an update leaves in an optional field: the new value where one is
/// present, else the stored one. An update cannot clear a field.
pub open spec fn coalesced<V>(new: Option<V>, stored: Option<V>) -> Option<V> {
    match new {
        Some(value) => Some(value),
        None => stored,
    }
}

/// The text that an update leaves in a required field.
pub fn merge(new: Option<String>, stored: String) -> (r: String)
    ensures
        r@ == merged(text_of(new), stored@),
{
    match new {
        Some(text) => text,
        None => stored,
    }
}

/// The text that an update leaves in an optional field.
pub fn coalesce(new: Option<String>, stored: Option<String>) -> (r: Option<String>)
    ensures
        text_of(r) == coalesced(text_of(new), text_of(stored)),
{
    match new {
        Some(text) => Some(text),
        None => stored,
    }
}

/// The date that an update leaves in an optional field.
pub fn coalesce_date(new: Option<Date>, stored: Option<Date>) -> (r: Option<Date>)
    ensures
        r == coalesced(new, stored),
{
    match new {
        Some(date) => Some(date),
        None => stored,
    }
}

/// The entity that a single-row statement found, or `NotFound` where it
/// found none.
pub fn found_or_missing<T>(found: Option<T>) -> (r: Result<T, RepositoryError>)
    ensures
        match found {
            Some(entity) => r == Ok::<T, RepositoryError>(entity),
            None => r matches Err(e) && e@ == RepositoryErrorView::NotFound,
        },
{
    match found {
        Some(entity) => Ok(entity),
        None => Err(RepositoryError::NotFound),
    }
}

/// Whether a statement that reports the number of rows it removed has
/// removed any.
pub fn removed_any(rows_affected: u64) -> (r: bool)
    ensures
        r == (rows_affected > 0),
{
    rows_affected > 0
}

/// What an operation returns for what the driver handed back: the rows as
/// they came, or the driver's error classified.
pub fn settled<T>(reply: Result<T, sqlx::Error>) -> (r: Result<T, RepositoryError>)
    ensures
        match reply {
            Ok(rows) => r == Ok::<T, RepositoryError>(rows),
            Err(err) => r matches Err(e) && e@ == classified(err),
        },
{
    match reply {
        Ok(rows) => Ok(rows),
        Err(err) => Err(RepositoryError::from_sqlx(err)),
    }
}

/// What an operation on one entity returns for what the driver handed back:
/// the row that the statement changed, `NotFound` where it matched none, or
/// the driver's error classified.
pub fn changed<T>(reply: Result<Option<T>, sqlx::Error>) -> (r: Result<T, RepositoryError>)
    ensures
        match reply {
            Ok(Some(row)) => r == Ok::<T, RepositoryError>(row),
            Ok(None) => r matches Err(e) && e@ == RepositoryErrorView::NotFound,
            Err(err) => r matches Err(e) && e@ == classified(err),
        },
{
    found_or_missing(settled(reply)?)
}

/// What a removal returns for what the driver handed back: whether any row
/// was removed, or the driver's error classified. That no row matched is no
/// error.
pub fn removed(reply: Result<u64, sqlx::Error>) -> (r: Result<bool, RepositoryError>)
    ensures
        match reply {
            Ok(rows_affected) => r == Ok::<bool, RepositoryError>(rows_affected > 0),
            Err(err) => r matches Err(e) && e@ == classified(err),
        },
{
    Ok(removed_any(settled(reply)?))
}

/// A repository of one kind of entity.
///
/// The spec functions say what each operation does to the store and what it
/// returns; the executable operations are held to them, and the laws at the
/// end are proved of them for every implementation.
pub trait Repository {
    type Entity: Record;

    type CreateInput: View;

    type UpdateInput: View;

    /// The table of the repository's entities.
    spec fn stored(db: DatabaseView) -> Map<Id, <Self::Entity as View>::V>;

    /// The store after `create`, and what `create` returns.
    spec fn created(db: DatabaseView, input: <Self::CreateInput as View>::V) -> (
        DatabaseView,
        Result<<Self::Entity as View>::V, RepositoryErrorView>,
    );

    /// The store after `update`, and what `update` returns.
    spec fn updated(db: DatabaseView, id: Id, input: <Self::UpdateInput as View>::V) -> (
        DatabaseView,
        Result<<Self::Entity as View>::V, RepositoryErrorView>,
    );

    /// The store after `delete`.
    spec fn deleted(db: DatabaseView, id: Id) -> DatabaseView;

    /// No field of the update is present.
    spec fn blank(input: <Self::UpdateInput as View>::V) -> bool;

    /// The entity with the identifier `id`; absence is no error.
    fn find_by_id(&self, db: &Database, id: Id) -> (r: Result<Option<Self::Entity>, RepositoryError>)
        requires
            db.wf(),
        ensures
            r matches Ok(found) && value_of(found) == lookup(Self::stored(db@), id),
    ;

    /// Stores a new entity and returns it as stored, with the identifier and
    /// the times that the store gave it.
    fn create(&self, db: &mut Database, input: Self::CreateInput) -> (r: Result<
        Self::Entity,
        RepositoryError,
    >)
        requires
            old(db).wf(),
            old(db)@.has_room(),
        ensures
            final(db).wf(),
            final(db)@ == Self::created(old(db)@, input@).0,
            outcome(r) == Self::created(old(db)@, input@).1,
    ;

    /// Overwrites the fields that `input` holds and leaves the others as
    /// they are; returns the entity as stored afterwards.
    fn update(&self, db: &mut Database, id: Id, input: Self::UpdateInput) -> (r: Result<
        Self::Entity,
        RepositoryError,
    >)
        requires
            old(db).wf(),
        ensures
            final(db).wf(),
            final(db)@ == Self::updated(old(db)@, id, input@).0,
            outcome(r) == Self::updated(old(db)@, id, input@).1,
    ;

    /// Removes the entity with the identifier `id`, and with it whatever it
    /// owns; tells whether there was such an entity.
    fn delete(&self, db: &mut Database, id: Id) -> (r: Result<bool, RepositoryError>)
        requires
            old(db).wf(),
        ensures
            final(db).wf(),
            final(db)@ == Self::deleted(old(db)@, id),
            r matches Ok(removed) && removed == Self::stored(old(db)@).dom().contains(id),
            !Self::stored(final(db)@).dom().contains(id),
    ;

    /// Every operation leaves a sound store sound.
    proof fn law_soundness_kept(
        db: DatabaseView,
        id: Id,
        new: <Self::CreateInput as View>::V,
        change: <Self::UpdateInput as View>::V,
    )
        requires
            db.sound(),
        ensures
            db.has_room() ==> Self::created(db, new).0.sound(),
            Self::updated(db, id, change).0.sound(),
            Self::deleted(db, id).sound(),
    ;

    /// Each operation changes, in the table of the repository's entities,
    /// the one entity that it is about and no other: `create` adds the new
    /// entity under an identifier that was not in use, `update` overwrites
    /// the entity under `id`, and `delete` removes it.
    proof fn law_one_entity_changes(
        db: DatabaseView,
        id: Id,
        new: <Self::CreateInput as View>::V,
        change: <Self::UpdateInput as View>::V,
    )
        requires
            db.sound(),
        ensures
            match Self::created(db, new).1 {
                Ok(entity) => {
                    &&& !Self::stored(db).dom().contains(Self::Entity::key(entity))
                    &&& Self::stored(Self::created(db, new).0) == Self::stored(db).insert(
                        Self::Entity::key(entity),
                        entity,
                    )
                },
                Err(_) => Self::created(db, new).0 == db,
            },
            match Self::updated(db, id, change).1 {
                Ok(entity) => {
                    &&& Self::Entity::key(entity) == id
                    &&& Self::stored(db).dom().contains(id)
                    &&& Self::stored(Self::updated(db, id, change).0) == Self::stored(db).insert(
                        id,
                        entity,
                    )
                },
                Err(_) => Self::updated(db, id, change).0 == db,
            },
            Self::stored(Self::deleted(db, id)) == Self::stored(db).remove(id),
    ;

    /// A created entity is found under the identifier that it was given,
    /// equal to what `create` returned.
    proof fn law_created_is_found(db: DatabaseView, input: <Self::CreateInput as View>::V)
        requires
            db.sound(),
        ensures
            Self::created(db, input).1 matches Ok(entity) ==> lookup(
                Self::stored(Self::created(db, input).0),
                Self::Entity::key(entity),
            ) == Some(entity),
    ;

    /// An update without fields changes nothing and returns the stored
    /// entity.
    proof fn law_blank_update(db: DatabaseView, id: Id, input: <Self::UpdateInput as View>::V)
        requires
            db.sound(),
            Self::blank(input),
            Self::stored(db).dom().contains(id),
        ensures
            Self::updated(db, id, input) == (db, Ok::<_, RepositoryErrorView>(Self::stored(db)[id])),
    ;

    /// An update of an entity that is not stored fails with `NotFound` and
    /// changes nothing.
    proof fn law_update_missing(db: DatabaseView, id: Id, input: <Self::UpdateInput as View>::V)
        requires
            !Self::stored(db).dom().contains(id),
        ensures
            Self::updated(db, id, input) == (db, Err::<<Self::Entity as View>::V, _>(
                RepositoryErrorView::NotFound,
            )),
    ;

    /// Deleting an entity that is not stored changes nothing.
    proof fn law_delete_missing(db: DatabaseView, id: Id)
        requires
            db.sound(),
            !Self::stored(db).dom().contains(id),
        ensures
            Self::deleted(db, id) == db,
    ;
}

} // verus!
