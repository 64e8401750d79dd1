//! The repository of the attributes of friends.

use vstd::prelude::*;
use vstd::string::*;

use crate::base::{found_or_missing, merge, merged, value_of, Repository};
use crate::error::{RepositoryError, RepositoryErrorView};
use crate::models::{text_of, FriendAttribute, FriendAttributeView};
use crate::queries::OfFriend;
use crate::store::{Database, DatabaseView};
use crate::table::{any, is_first, is_listing, views, Criterion, Id, Record};
use crate::text::text_eq;

verus! {

/// What a new attribute is made of.
pub struct CreateFriendAttributeInput {
    /// The friend that the attribute belongs to.
    pub friend_id: Id,
    /// The key, unique among the friend's attributes.
    pub key: String,
    pub value: String,
    /// A hint at how to read the value; `text` where absent.
    pub value_type: Option<String>,
}

pub struct CreateFriendAttributeInputView {
    pub friend_id: Id,
    pub key: Seq<char>,
    pub value: Seq<char>,
    pub value_type: Option<Seq<char>>,
}

impl View for CreateFriendAttributeInput {
    type V = CreateFriendAttributeInputView;

    open spec fn view(&self) -> CreateFriendAttributeInputView {
        CreateFriendAttributeInputView {
            friend_id: self.friend_id,
            key: self.key@,
            value: self.value@,
            value_type: text_of(self.value_type),
        }
    }
}

/// The fields of an attribute to overwrite; an absent field is left as it
/// is.
pub struct UpdateFriendAttributeInput {
    pub value: Option<String>,
    pub value_type: Option<String>,
}

pub struct UpdateFriendAttributeInputView {
    pub value: Option<Seq<char>>,
    pub value_type: Option<Seq<char>>,
}

impl View for UpdateFriendAttributeInput {
    type V = UpdateFriendAttributeInputView;

    open spec fn view(&self) -> UpdateFriendAttributeInputView {
        UpdateFriendAttributeInputView {
            value: text_of(self.value),
            value_type: text_of(self.value_type),
        }
    }
}

impl UpdateFriendAttributeInputView {
    /// The attribute after the update.
    pub open spec fn apply(self, attribute: FriendAttributeView) -> FriendAttributeView {
        FriendAttributeView {
            value: merged(self.value, attribute.value),
            value_type: merged(self.value_type, attribute.value_type),
            ..attribute
        }
    }
}

impl UpdateFriendAttributeInput {
    /// The attribute after the update.
    pub fn apply(self, attribute: FriendAttribute) -> (r: FriendAttribute)
        ensures
            r@ == self@.apply(attribute@),
    {
        FriendAttribute {
            id: attribute.id,
            friend_id: attribute.friend_id,
            key: attribute.key,
            value: merge(self.value, attribute.value),
            value_type: merge(self.value_type, attribute.value_type),
            created_at: attribute.created_at,
            updated_at: attribute.updated_at,
        }
    }
}

/// The type hint that an attribute is stored with: the given one, or `text`.
pub open spec fn type_hint(given: Option<Seq<char>>) -> Seq<char> {
    match given {
        Some(hint) => hint,
        None => "text"@,
    }
}

/// The type hint that an attribute is stored with: the given one, or `text`.
pub fn value_type_or_default(given: Option<String>) -> (r: String)
    ensures
        r@ == type_hint(text_of(given)),
{
    match given {
        Some(hint) => hint,
        None => String::from_str("text"),
    }
}

/// The name of the constraint that keeps a friend's keys unique.
pub open spec fn friend_attributes_friend_id_key_key() -> Seq<char> {
    "friend_attributes_friend_id_key_key"@
}

/// The name of the constraint that ties an attribute to its friend.
pub open spec fn friend_attributes_friend_id_fkey() -> Seq<char> {
    "friend_attributes_friend_id_fkey"@
}

/// The attribute belongs to the friend and has the key.
pub open spec fn keyed_by(row: FriendAttributeView, friend_id: Id, key: Seq<char>) -> bool {
    row.friend_id == friend_id && row.key == key
}

/// The identifier of the friend's attribute with the key.
pub open spec fn attribute_id(db: DatabaseView, friend_id: Id, key: Seq<char>) -> Id {
    choose|id: Id| #[trigger]
        db.attributes.dom().contains(id) && keyed_by(db.attributes[id], friend_id, key)
}

/// The store with a new attribute, and the attribute.
pub open spec fn inserted(db: DatabaseView, input: CreateFriendAttributeInputView) -> (
    DatabaseView,
    Result<FriendAttributeView, RepositoryErrorView>,
) {
    let attribute = FriendAttributeView {
        id: db.next_id,
        friend_id: input.friend_id,
        key: input.key,
        value: input.value,
        value_type: type_hint(input.value_type),
        created_at: db.now(),
        updated_at: db.now(),
    };
    (
        DatabaseView { attributes: db.attributes.insert(attribute.id, attribute), ..db.stamped() },
        Ok(attribute),
    )
}

/// The store after `upsert`, and what `upsert` returns: where the friend
/// has an attribute with the key, its value and type hint are overwritten;
/// else the attribute is created.
pub open spec fn upserted(db: DatabaseView, input: CreateFriendAttributeInputView) -> (
    DatabaseView,
    Result<FriendAttributeView, RepositoryErrorView>,
) {
    if any(db.attributes, |a: FriendAttributeView| keyed_by(a, input.friend_id, input.key)) {
        let id = attribute_id(db, input.friend_id, input.key);
        let attribute = FriendAttributeView {
            value: input.value,
            value_type: type_hint(input.value_type),
            ..db.attributes[id]
        };
        (DatabaseView { attributes: db.attributes.insert(id, attribute), ..db }, Ok(attribute))
    } else if !db.friends.dom().contains(input.friend_id) {
        (db, Err(RepositoryErrorView::ForeignKeyViolation(friend_attributes_friend_id_fkey())))
    } else {
        inserted(db, input)
    }
}

/// Admits the attribute of a given friend with a given key.
pub struct WithKey<'a> {
    pub friend_id: Id,
    pub key: &'a str,
}

impl<'a> Criterion<FriendAttribute> for WithKey<'a> {
    open spec fn wf(&self) -> bool {
        true
    }

    open spec fn admits(&self, row: FriendAttributeView) -> bool {
        keyed_by(row, self.friend_id, self.key@)
    }

    fn test(&self, row: &FriendAttribute) -> bool {
        row.friend_id == self.friend_id && text_eq(row.key.as_str(), self.key)
    }
}

/// The repository of the attributes of friends.
pub struct FriendAttributeRepository {}

impl FriendAttributeRepository {
    /// A handle on the repository. It holds nothing: every operation is
    /// given the store that it works on.
    pub fn new() -> Self {
        FriendAttributeRepository {}
    }

    /// The attributes of a friend, by key.
    pub fn list_by_friend(&self, db: &Database, friend_id: Id) -> (r: Result<
        Vec<FriendAttribute>,
        RepositoryError,
    >)
        requires
            db.wf(),
        ensures
            r matches Ok(attributes) && is_listing::<FriendAttribute>(
                db@.attributes,
                |a: FriendAttributeView| a.friend_id == friend_id,
                views(attributes@),
            ),
    {
        Ok(db.attributes.select(&OfFriend { friend_id }))
    }

    /// The friend's attribute with the given key, if there is one.
    pub fn find_by_friend_and_key(&self, db: &Database, friend_id: Id, key: &str) -> (r: Result<
        Option<FriendAttribute>,
        RepositoryError,
    >)
        requires
            db.wf(),
        ensures
            r matches Ok(found) && is_first::<FriendAttribute>(
                db@.attributes,
                |a: FriendAttributeView| keyed_by(a, friend_id, key@),
                value_of(found),
            ),
    {
        Ok(db.attributes.first(&WithKey { friend_id, key }))
    }

    /// Creates the attribute, or overwrites the value and the type hint of
    /// the friend's attribute with the same key.
    pub fn upsert(&self, db: &mut Database, input: CreateFriendAttributeInput) -> (r: Result<
        FriendAttribute,
        RepositoryError,
    >)
        requires
            old(db).wf(),
            old(db)@.has_room(),
        ensures
            final(db).wf(),
            final(db)@ == upserted(old(db)@, input@).0,
            crate::base::outcome(r) == upserted(old(db)@, input@).1,
    {
        let value_type = value_type_or_default(input.value_type);
        let existing = db.attributes.first(&WithKey {
            friend_id: input.friend_id,
            key: input.key.as_str(),
        });
        match existing {
            Some(current) => {
                let attribute = FriendAttribute {
                    id: current.id,
                    friend_id: current.friend_id,
                    key: current.key,
                    value: input.value,
                    value_type,
                    created_at: current.created_at,
                    updated_at: current.updated_at,
                };
                let stored = attribute.duplicate();
                db.attributes.replace(attribute);
                Ok(stored)
            },
            None => {
                if !db.friends.contains(input.friend_id) {
                    return Err(
                        RepositoryError::ForeignKeyViolation(
                            String::from_str("friend_attributes_friend_id_fkey"),
                        ),
                    );
                }
                let (id, now) = db.stamp();
                let attribute = FriendAttribute {
                    id,
                    friend_id: input.friend_id,
                    key: input.key,
                    value: input.value,
                    value_type,
                    created_at: now,
                    updated_at: now,
                };
                let stored = attribute.duplicate();
                db.attributes.append(attribute);
                Ok(stored)
            },
        }
    }

    /// Creating an attribute under a key that the friend already has fails
    /// with `Duplicate` and changes nothing.
    pub proof fn law_duplicate_key_rejected(db: DatabaseView, input: CreateFriendAttributeInputView)
        requires
            any(db.attributes, |a: FriendAttributeView| keyed_by(a, input.friend_id, input.key)),
        ensures
            Self::created(db, input) == (
                db,
                Err::<FriendAttributeView, _>(
                    RepositoryErrorView::Duplicate(friend_attributes_friend_id_key_key()),
                ),
            ),
    {
    }

    /// After two upserts under one key the friend has exactly one attribute
    /// with that key, and it holds what the second upsert gave.
    pub proof fn law_upsert_twice(
        db: DatabaseView,
        first: CreateFriendAttributeInputView,
        second: CreateFriendAttributeInputView,
    )
        requires
            db.sound(),
            db.has_room(),
            db.friends.dom().contains(first.friend_id),
            second.friend_id == first.friend_id,
            second.key == first.key,
        ensures
            upserted(db, first).1 is Ok,
            upserted(db, first).0.sound(),
            ({
                let once = upserted(db, first).0;
                let twice = upserted(once, second).0;
                &&& twice.sound()
                &&& upserted(once, second).1 matches Ok(attribute)
                &&& attribute.value == second.value
                &&& attribute.value_type == type_hint(second.value_type)
                &&& twice.attributes.dom() == once.attributes.dom()
                &&& twice.attributes.dom().contains(attribute.id)
                &&& forall|id: Id| #[trigger]
                    twice.attributes.dom().contains(id) && keyed_by(
                        twice.attributes[id],
                        first.friend_id,
                        first.key,
                    ) ==> twice.attributes[id] == attribute
            }),
    {
        let once = upserted(db, first).0;
        Self::lemma_upserted_sound(db, first);
        let had = any(
            db.attributes,
            |a: FriendAttributeView| keyed_by(a, first.friend_id, first.key),
        );
        let id1 = if had {
            attribute_id(db, first.friend_id, first.key)
        } else {
            db.next_id
        };
        assert(once.attributes.dom().contains(id1) && keyed_by(
            once.attributes[id1],
            first.friend_id,
            first.key,
        ));
        let twice = upserted(once, second).0;
        assert(twice.attributes.dom() =~= once.attributes.dom());
    }

    /// `upsert` keeps the store sound.
    pub proof fn lemma_upserted_sound(db: DatabaseView, input: CreateFriendAttributeInputView)
        requires
            db.sound(),
            db.has_room(),
        ensures
            upserted(db, input).0.sound(),
    {
    }
}

impl Repository for FriendAttributeRepository {
    type Entity = FriendAttribute;

    type CreateInput = CreateFriendAttributeInput;

    type UpdateInput = UpdateFriendAttributeInput;

    open spec fn stored(db: DatabaseView) -> Map<Id, FriendAttributeView> {
        db.attributes
    }

    /// An attribute is created unless the friend has one with the same key,
    /// or is not stored.
    open spec fn created(db: DatabaseView, input: CreateFriendAttributeInputView) -> (
        DatabaseView,
        Result<FriendAttributeView, RepositoryErrorView>,
    ) {
        if any(db.attributes, |a: FriendAttributeView| keyed_by(a, input.friend_id, input.key)) {
            (db, Err(RepositoryErrorView::Duplicate(friend_attributes_friend_id_key_key())))
        } else if !db.friends.dom().contains(input.friend_id) {
            (db, Err(RepositoryErrorView::ForeignKeyViolation(friend_attributes_friend_id_fkey())))
        } else {
            inserted(db, input)
        }
    }

    open spec fn updated(db: DatabaseView, id: Id, input: UpdateFriendAttributeInputView) -> (
        DatabaseView,
        Result<FriendAttributeView, RepositoryErrorView>,
    ) {
        if !db.attributes.dom().contains(id) {
            (db, Err(RepositoryErrorView::NotFound))
        } else {
            let attribute = input.apply(db.attributes[id]);
            (DatabaseView { attributes: db.attributes.insert(id, attribute), ..db }, Ok(attribute))
        }
    }

    open spec fn deleted(db: DatabaseView, id: Id) -> DatabaseView {
        DatabaseView { attributes: db.attributes.remove(id), ..db }
    }

    open spec fn blank(input: UpdateFriendAttributeInputView) -> bool {
        input.value is None && input.value_type is None
    }

    fn find_by_id(&self, db: &Database, id: Id) -> (r: Result<
        Option<FriendAttribute>,
        RepositoryError,
    >) {
        Ok(db.attributes.get(id))
    }

    fn create(&self, db: &mut Database, input: CreateFriendAttributeInput) -> (r: Result<
        FriendAttribute,
        RepositoryError,
    >) {
        let value_type = value_type_or_default(input.value_type);
        let existing = db.attributes.first(&WithKey {
            friend_id: input.friend_id,
            key: input.key.as_str(),
        });
        if existing.is_some() {
            return Err(
                RepositoryError::Duplicate(String::from_str("friend_attributes_friend_id_key_key")),
            );
        }
        if !db.friends.contains(input.friend_id) {
            return Err(
                RepositoryError::ForeignKeyViolation(
                    String::from_str("friend_attributes_friend_id_fkey"),
                ),
            );
        }
        let (id, now) = db.stamp();
        let attribute = FriendAttribute {
            id,
            friend_id: input.friend_id,
            key: input.key,
            value: input.value,
            value_type,
            created_at: now,
            updated_at: now,
        };
        let stored = attribute.duplicate();
        db.attributes.append(attribute);
        Ok(stored)
    }

    fn update(&self, db: &mut Database, id: Id, input: UpdateFriendAttributeInput) -> (r: Result<
        FriendAttribute,
        RepositoryError,
    >) {
        let current = found_or_missing(db.attributes.get(id))?;
        let attribute = input.apply(current);
        let stored = attribute.duplicate();
        db.attributes.replace(attribute);
        Ok(stored)
    }

    fn delete(&self, db: &mut Database, id: Id) -> (r: Result<bool, RepositoryError>) {
        let removed = db.attributes.remove(id);
        Ok(removed)
    }

    proof fn law_soundness_kept(
        db: DatabaseView,
        id: Id,
        new: CreateFriendAttributeInputView,
        change: UpdateFriendAttributeInputView,
    ) {
    }

    proof fn law_one_entity_changes(
        db: DatabaseView,
        id: Id,
        new: CreateFriendAttributeInputView,
        change: UpdateFriendAttributeInputView,
    ) {
    }

    proof fn law_created_is_found(db: DatabaseView, input: CreateFriendAttributeInputView) {
    }

    proof fn law_blank_update(db: DatabaseView, id: Id, input: UpdateFriendAttributeInputView) {
        assert(db.attributes.insert(id, db.attributes[id]) =~= db.attributes);
    }

    proof fn law_update_missing(db: DatabaseView, id: Id, input: UpdateFriendAttributeInputView) {
    }

    proof fn law_delete_missing(db: DatabaseView, id: Id) {
        assert(db.attributes.remove(id) =~= db.attributes);
    }
}

} // verus!
