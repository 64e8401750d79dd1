//! A table of records keyed by identifier: the building block of the store.
//!
//! A table is seen in contracts as a map from identifier to record. It is
//! held as a vector in ascending order of identifier, which is the order in
//! which the store hands identifiers out.

use vstd::prelude::*;

verus! {

/// The opaque unique identifier of a record.
pub type Id = u128;

/// A record of the store: it has an identifier, a place in its table's
/// display order, and can be copied out of the table.
pub trait Record: View + Sized {
    /// The identifier of a record.
    spec fn key(row: Self::V) -> Id;

    /// The display order of the record's kind: `a` may be listed before `b`.
    spec fn precedes(a: Self::V, b: Self::V) -> bool;

    /// Any two records can be listed one way or the other.
    proof fn precedes_total(a: Self::V, b: Self::V)
        ensures
            Self::precedes(a, b) || Self::precedes(b, a),
    ;

    /// The display order is transitive.
    proof fn precedes_transitive(a: Self::V, b: Self::V, c: Self::V)
        requires
            Self::precedes(a, b),
            Self::precedes(b, c),
        ensures
            Self::precedes(a, c),
    ;

    /// The record's identifier.
    fn id(&self) -> (r: Id)
        ensures
            r == Self::key(self@),
    ;

    /// Whether the record may be listed before `other`.
    fn not_after(&self, other: &Self) -> (r: bool)
        ensures
            r == Self::precedes(self@, other@),
    ;

    /// A copy of the record.
    fn duplicate(&self) -> (r: Self)
        ensures
            r@ == self@,
    ;
}

/// A condition on the records of one kind, as a query states it.
pub trait Criterion<T: Record> {
    /// What the condition needs of the tables that it consults.
    spec fn wf(&self) -> bool;

    /// Whether the condition holds of a record.
    spec fn admits(&self, row: T::V) -> bool;

    /// Tests the condition on a record.
    fn test(&self, row: &T) -> (r: bool)
        requires
            self.wf(),
        ensures
            r == self.admits(row@),
    ;
}

/// The values of a sequence of records.
pub open spec fn views<T: View>(rows: Seq<T>) -> Seq<T::V> {
    Seq::new(rows.len(), |i: int| rows[i]@)
}

/// The identifiers of `rows` strictly increase.
spec fn ascending<T: Record>(rows: Seq<T::V>) -> bool {
    forall|i: int, j: int|
        0 <= i < j < rows.len() ==> T::key(#[trigger] rows[i]) < T::key(#[trigger] rows[j])
}

/// Some record of `rows` has the identifier `id`.
pub open spec fn holds<T: Record>(rows: Seq<T::V>, id: Id) -> bool {
    exists|i: int| 0 <= i < rows.len() && T::key(#[trigger] rows[i]) == id
}

/// The place in `rows` of the record with the identifier `id`.
spec fn place<T: Record>(rows: Seq<T::V>, id: Id) -> int {
    choose|i: int| 0 <= i < rows.len() && T::key(#[trigger] rows[i]) == id
}

/// The map from identifier to record that `rows` stands for.
spec fn table_of<T: Record>(rows: Seq<T::V>) -> Map<Id, T::V> {
    Map::new(|id: Id| holds::<T>(rows, id), |id: Id| rows[place::<T>(rows, id)])
}

/// The records of `table` that `admits` holds of.
pub open spec fn kept<V>(table: Map<Id, V>, admits: spec_fn(V) -> bool) -> Map<Id, V> {
    Map::new(|id: Id| table.dom().contains(id) && admits(table[id]), |id: Id| table[id])
}

/// Some record of `table` is admitted by `admits`.
pub open spec fn any<V>(table: Map<Id, V>, admits: spec_fn(V) -> bool) -> bool {
    exists|id: Id| #[trigger] table.dom().contains(id) && admits(table[id])
}

/// `found` is the record of `table` with the least identifier among those
/// that `admits` holds of, or nothing where it holds of none.
pub open spec fn is_first<T: Record>(
    table: Map<Id, T::V>,
    admits: spec_fn(T::V) -> bool,
    found: Option<T::V>,
) -> bool {
    match found {
        Some(row) => {
            &&& table.dom().contains(T::key(row))
            &&& table[T::key(row)] == row
            &&& admits(row)
            &&& forall|id: Id| #[trigger]
                table.dom().contains(id) && admits(table[id]) ==> T::key(row) <= id
        },
        None => forall|id: Id| #[trigger] table.dom().contains(id) ==> !admits(table[id]),
    }
}

/// `listed` holds each record of `table` that `admits` holds of exactly
/// once, and nothing else, in the display order of the record's kind.
pub open spec fn is_listing<T: Record>(
    table: Map<Id, T::V>,
    admits: spec_fn(T::V) -> bool,
    listed: Seq<T::V>,
) -> bool {
    &&& forall|k: int|
        0 <= k < listed.len() ==> {
            &&& table.dom().contains(T::key(#[trigger] listed[k]))
            &&& table[T::key(listed[k])] == listed[k]
            &&& admits(listed[k])
        }
    &&& forall|id: Id| #[trigger]
        table.dom().contains(id) && admits(table[id]) ==> holds::<T>(listed, id)
    &&& forall|j: int, k: int|
        0 <= j < k < listed.len() ==> T::key(#[trigger] listed[j]) != T::key(#[trigger] listed[k])
    &&& forall|j: int, k: int|
        0 <= j < k < listed.len() ==> T::precedes(#[trigger] listed[j], #[trigger] listed[k])
}

/// In ascending rows each record is found under its own identifier.
proof fn lemma_lookup<T: Record>(rows: Seq<T::V>, i: int)
    requires
        ascending::<T>(rows),
        0 <= i < rows.len(),
    ensures
        table_of::<T>(rows).dom().contains(T::key(rows[i])),
        table_of::<T>(rows)[T::key(rows[i])] == rows[i],
        place::<T>(rows, T::key(rows[i])) == i,
{
    let id = T::key(rows[i]);
    assert(holds::<T>(rows, id));
    let j = place::<T>(rows, id);
    assert(0 <= j < rows.len() && T::key(rows[j]) == id);
    if j < i {
        assert(T::key(rows[j]) < T::key(rows[i]));
    }
    if i < j {
        assert(T::key(rows[i]) < T::key(rows[j]));
    }
}

/// What `is_first` says of a table and a condition, it says of one result
/// only.
pub proof fn lemma_first_unique<T: Record>(
    table: Map<Id, T::V>,
    admits: spec_fn(T::V) -> bool,
    one: Option<T::V>,
    other: Option<T::V>,
)
    requires
        is_first::<T>(table, admits, one),
        is_first::<T>(table, admits, other),
    ensures
        one == other,
{
    match (one, other) {
        (Some(x), Some(y)) => {
            assert(table.dom().contains(T::key(x)) && admits(table[T::key(x)]));
            assert(table.dom().contains(T::key(y)) && admits(table[T::key(y)]));
        },
        (Some(x), None) => {
            assert(table.dom().contains(T::key(x)));
        },
        (None, Some(y)) => {
            assert(table.dom().contains(T::key(y)));
        },
        (None, None) => {},
    }
}

/// Where a condition admits exactly one record of a table, the listing is
/// that record alone.
pub proof fn lemma_listing_of_one<T: Record>(
    table: Map<Id, T::V>,
    admits: spec_fn(T::V) -> bool,
    listed: Seq<T::V>,
    only: T::V,
)
    requires
        is_listing::<T>(table, admits, listed),
        table.dom().contains(T::key(only)),
        table[T::key(only)] == only,
        admits(only),
        forall|id: Id| #[trigger]
            table.dom().contains(id) && admits(table[id]) ==> id == T::key(only),
    ensures
        listed == seq![only],
{
    assert(holds::<T>(listed, T::key(only)));
    assert forall|k: int| 0 <= k < listed.len() implies #[trigger] listed[k] == only by {
        assert(table.dom().contains(T::key(listed[k])));
    }
    if listed.len() > 1 {
        assert(T::key(listed[0]) != T::key(listed[1]));
    }
    assert(listed =~= seq![only]);
}

/// One kind of record of the store, keyed by identifier.
pub struct Table<T: Record> {
    rows: Vec<T>,
}

impl<T: Record> View for Table<T> {
    type V = Map<Id, T::V>;

    closed spec fn view(&self) -> Map<Id, T::V> {
        table_of::<T>(views(self.rows@))
    }
}

/// Each record of `listed` may be listed before every later one.
pub open spec fn in_display_order<T: Record>(listed: Seq<T::V>) -> bool {
    forall|j: int, k: int|
        0 <= j < k < listed.len() ==> T::precedes(#[trigger] listed[j], #[trigger] listed[k])
}

/// Puts `row` into `listed` behind the records that may be listed before it.
fn insert_in_order<T: Record>(listed: &mut Vec<T>, row: T) -> (p: usize)
    requires
        in_display_order::<T>(views(old(listed)@)),
    ensures
        p <= old(listed).len(),
        views(final(listed)@) == views(old(listed)@).insert(p as int, row@),
        in_display_order::<T>(views(final(listed)@)),
{
    let ghost before = views(listed@);
    let mut p: usize = 0;
    while p < listed.len() && listed[p].not_after(&row)
        invariant
            p <= listed.len(),
            listed@ == old(listed)@,
            before == views(listed@),
            forall|j: int| 0 <= j < p ==> T::precedes(#[trigger] before[j], row@),
        decreases listed.len() - p,
    {
        p += 1;
    }
    listed.insert(p, row);
    proof {
        let after = views(listed@);
        assert(after =~= before.insert(p as int, row@));
        assert forall|j: int, k: int| 0 <= j < k < after.len() implies T::precedes(
            #[trigger] after[j],
            #[trigger] after[k],
        ) by {
            if k < p {
                assert(after[j] == before[j] && after[k] == before[k]);
            } else if k == p {
                assert(after[j] == before[j]);
            } else if j > p {
                assert(after[j] == before[j - 1] && after[k] == before[k - 1]);
            } else if j < p {
                assert(after[j] == before[j] && after[k] == before[k - 1]);
            } else {
                assert(after[k] == before[k - 1]);
                T::precedes_total(before[p as int], row@);
                if p < k - 1 {
                    T::precedes_transitive(row@, before[p as int], before[k - 1]);
                }
            }
        }
    }
    p
}

impl<T: Record> Table<T> {
    /// The representation is sound: identifiers strictly increase.
    pub closed spec fn wf(&self) -> bool {
        ascending::<T>(views(self.rows@))
    }

    /// Each record is stored under its own identifier.
    pub proof fn lemma_keyed(&self)
        requires
            self.wf(),
        ensures
            forall|id: Id| #[trigger] self@.dom().contains(id) ==> T::key(self@[id]) == id,
    {
        let rows = views(self.rows@);
        assert forall|id: Id| #[trigger] self@.dom().contains(id) implies T::key(self@[id])
            == id by {
            lemma_lookup::<T>(rows, place::<T>(rows, id));
        }
    }

    /// A table without records.
    pub fn new() -> (r: Self)
        ensures
            r.wf(),
            r@ == Map::<Id, T::V>::empty(),
    {
        let r = Table { rows: Vec::new() };
        assert(r@ =~= Map::<Id, T::V>::empty());
        r
    }

    fn position(&self, id: Id) -> (r: Option<usize>)
        requires
            self.wf(),
        ensures
            match r {
                Some(i) => {
                    &&& i < self.rows.len()
                    &&& T::key(self.rows[i as int]@) == id
                    &&& self@.dom().contains(id)
                    &&& self@[id] == self.rows[i as int]@
                },
                None => !self@.dom().contains(id),
            },
    {
        let ghost rows = views(self.rows@);
        let mut i: usize = 0;
        while i < self.rows.len()
            invariant
                i <= self.rows.len(),
                rows == views(self.rows@),
                ascending::<T>(rows),
                forall|k: int| 0 <= k < i ==> T::key(#[trigger] rows[k]) != id,
            decreases self.rows.len() - i,
        {
            if self.rows[i].id() == id {
                proof {
                    lemma_lookup::<T>(rows, i as int);
                }
                return Some(i);
            }
            i += 1;
        }
        None
    }

    /// Whether a record with the identifier `id` is stored.
    pub fn contains(&self, id: Id) -> (r: bool)
        requires
            self.wf(),
        ensures
            r == self@.dom().contains(id),
    {
        self.position(id).is_some()
    }

    /// The record with the identifier `id`, if one is stored.
    pub fn get(&self, id: Id) -> (r: Option<T>)
        requires
            self.wf(),
        ensures
            match r {
                Some(row) => self@.dom().contains(id) && row@ == self@[id],
                None => !self@.dom().contains(id),
            },
    {
        match self.position(id) {
            Some(i) => Some(self.rows[i].duplicate()),
            None => None,
        }
    }

    /// The earliest stored record that `criterion` admits.
    pub fn first<C: Criterion<T>>(&self, criterion: &C) -> (r: Option<T>)
        requires
            self.wf(),
            criterion.wf(),
        ensures
            is_first::<T>(
                self@,
                |row: T::V| criterion.admits(row),
                match r {
                    Some(row) => Some(row@),
                    None => None,
                },
            ),
    {
        let ghost rows = views(self.rows@);
        let mut i: usize = 0;
        while i < self.rows.len()
            invariant
                i <= self.rows.len(),
                rows == views(self.rows@),
                ascending::<T>(rows),
                criterion.wf(),
                forall|k: int| 0 <= k < i ==> !criterion.admits(#[trigger] rows[k]),
            decreases self.rows.len() - i,
        {
            if criterion.test(&self.rows[i]) {
                let found = self.rows[i].duplicate();
                proof {
                    lemma_lookup::<T>(rows, i as int);
                    assert forall|id: Id| #[trigger]
                        self@.dom().contains(id) && criterion.admits(self@[id]) implies T::key(
                        found@,
                    ) <= id by {
                        let j = place::<T>(rows, id);
                        lemma_lookup::<T>(rows, j);
                        if j < i {
                            assert(!criterion.admits(rows[j]));
                        }
                    }
                }
                return Some(found);
            }
            i += 1;
        }
        proof {
            assert forall|id: Id| #[trigger] self@.dom().contains(id) implies !criterion.admits(
                self@[id],
            ) by {
                let j = place::<T>(rows, id);
                lemma_lookup::<T>(rows, j);
            }
        }
        None
    }

    /// The stored records that `criterion` admits, in display order.
    pub fn select<C: Criterion<T>>(&self, criterion: &C) -> (r: Vec<T>)
        requires
            self.wf(),
            criterion.wf(),
        ensures
            is_listing::<T>(self@, |row: T::V| criterion.admits(row), views(r@)),
    {
        let ghost rows = views(self.rows@);
        let mut listed: Vec<T> = Vec::new();
        let mut i: usize = 0;
        while i < self.rows.len()
            invariant
                i <= self.rows.len(),
                rows == views(self.rows@),
                ascending::<T>(rows),
                criterion.wf(),
                in_display_order::<T>(views(listed@)),
                forall|k: int|
                    0 <= k < listed.len() ==> {
                        &&& holds::<T>(rows, T::key(#[trigger] views(listed@)[k]))
                        &&& place::<T>(rows, T::key(views(listed@)[k])) < i
                        &&& rows[place::<T>(rows, T::key(views(listed@)[k]))] == views(listed@)[k]
                        &&& criterion.admits(views(listed@)[k])
                    },
                forall|j: int|
                    0 <= j < i && criterion.admits(#[trigger] rows[j]) ==> holds::<T>(
                        views(listed@),
                        T::key(rows[j]),
                    ),
                forall|j: int, k: int|
                    0 <= j < k < listed.len() ==> T::key(#[trigger] views(listed@)[j]) != T::key(
                        #[trigger] views(listed@)[k],
                    ),
            decreases self.rows.len() - i,
        {
            if criterion.test(&self.rows[i]) {
                let ghost before = views(listed@);
                let p = insert_in_order(&mut listed, self.rows[i].duplicate());
                proof {
                    let after = views(listed@);
                    let row = rows[i as int];
                    lemma_lookup::<T>(rows, i as int);
                    assert forall|k: int| 0 <= k < after.len() implies #[trigger] after[k] == (if k
                        < p {
                        before[k]
                    } else if k == p {
                        row
                    } else {
                        before[k - 1]
                    }) by {}
                    assert forall|j: int|
                        0 <= j < i + 1 && criterion.admits(#[trigger] rows[j]) implies holds::<T>(
                        after,
                        T::key(rows[j]),
                    ) by {
                        if j < i {
                            let w = place::<T>(before, T::key(rows[j]));
                            if w < p {
                                assert(after[w] == before[w]);
                            } else {
                                assert(after[w + 1] == before[w]);
                            }
                        } else {
                            assert(after[p as int] == row);
                        }
                    }
                    assert forall|j: int, k: int| 0 <= j < k < after.len() implies T::key(
                        #[trigger] after[j],
                    ) != T::key(#[trigger] after[k]) by {
                        let j0 = if j < p { j } else { j - 1 };
                        let k0 = if k < p { k } else { k - 1 };
                        if j != p && k != p {
                            assert(after[j] == before[j0] && after[k] == before[k0]);
                        } else if j == p {
                            assert(after[k] == before[k0]);
                        } else {
                            assert(after[j] == before[j0]);
                        }
                    }
                }
            }
            i += 1;
        }
        proof {
            let listing = views(listed@);
            assert forall|k: int| 0 <= k < listing.len() implies {
                &&& self@.dom().contains(T::key(#[trigger] listing[k]))
                &&& self@[T::key(listing[k])] == listing[k]
                &&& criterion.admits(listing[k])
            } by {
                lemma_lookup::<T>(rows, place::<T>(rows, T::key(listing[k])));
            }
            assert forall|id: Id| #[trigger]
                self@.dom().contains(id) && criterion.admits(self@[id]) implies holds::<T>(
                listing,
                id,
            ) by {
                let j = place::<T>(rows, id);
                lemma_lookup::<T>(rows, j);
            }
        }
        listed
    }

    /// Keeps the records that `criterion` admits and drops the others.
    pub fn retain<C: Criterion<T>>(&mut self, criterion: &C)
        requires
            old(self).wf(),
            criterion.wf(),
        ensures
            final(self).wf(),
            final(self)@ == kept(old(self)@, |row: T::V| criterion.admits(row)),
    {
        let ghost rows = views(self.rows@);
        let mut staying: Vec<T> = Vec::new();
        let mut i: usize = 0;
        while i < self.rows.len()
            invariant
                i <= self.rows.len(),
                rows == views(self.rows@),
                ascending::<T>(rows),
                criterion.wf(),
                ascending::<T>(views(staying@)),
                forall|k: int|
                    0 <= k < staying.len() ==> {
                        &&& holds::<T>(rows, T::key(#[trigger] views(staying@)[k]))
                        &&& place::<T>(rows, T::key(views(staying@)[k])) < i
                        &&& rows[place::<T>(rows, T::key(views(staying@)[k]))] == views(staying@)[k]
                        &&& criterion.admits(views(staying@)[k])
                    },
                forall|j: int|
                    0 <= j < i && criterion.admits(#[trigger] rows[j]) ==> holds::<T>(
                        views(staying@),
                        T::key(rows[j]),
                    ),
            decreases self.rows.len() - i,
        {
            if criterion.test(&self.rows[i]) {
                let ghost before = views(staying@);
                staying.push(self.rows[i].duplicate());
                proof {
                    let after = views(staying@);
                    let row = rows[i as int];
                    assert(after =~= before.push(row));
                    lemma_lookup::<T>(rows, i as int);
                    assert forall|k: int| 0 <= k < before.len() implies T::key(
                        #[trigger] before[k],
                    ) < T::key(row) by {
                        let w = place::<T>(rows, T::key(before[k]));
                        assert(T::key(rows[w]) < T::key(rows[i as int]));
                    }
                    lemma_pushed::<T>(before, row);
                    assert forall|j: int|
                        0 <= j < i + 1 && criterion.admits(#[trigger] rows[j]) implies holds::<T>(
                        after,
                        T::key(rows[j]),
                    ) by {
                        if j < i {
                            let w = place::<T>(before, T::key(rows[j]));
                            assert(after[w] == before[w]);
                        } else {
                            assert(after[before.len() as int] == row);
                        }
                    }
                }
            }
            i += 1;
        }
        proof {
            let after = views(staying@);
            let a = table_of::<T>(after);
            let b = kept(self@, |row: T::V| criterion.admits(row));
            assert forall|id: Id| a.dom().contains(id) <==> b.dom().contains(id) by {
                if a.dom().contains(id) {
                    let k = place::<T>(after, id);
                    lemma_lookup::<T>(rows, place::<T>(rows, T::key(after[k])));
                }
                if b.dom().contains(id) {
                    let j = place::<T>(rows, id);
                    lemma_lookup::<T>(rows, j);
                }
            }
            assert forall|id: Id| a.dom().contains(id) implies a[id] == b[id] by {
                let k = place::<T>(after, id);
                lemma_lookup::<T>(after, k);
                lemma_lookup::<T>(rows, place::<T>(rows, T::key(after[k])));
            }
            assert(a =~= b);
        }
        self.rows = staying;
    }

    /// Adds a record whose identifier is above every stored one.
    pub fn append(&mut self, row: T)
        requires
            old(self).wf(),
            forall|id: Id| old(self)@.dom().contains(id) ==> id < T::key(row@),
        ensures
            final(self).wf(),
            final(self)@ == old(self)@.insert(T::key(row@), row@),
    {
        let ghost before = views(self.rows@);
        let ghost value = row@;
        proof {
            assert(self@ == table_of::<T>(before));
            assert forall|i: int| 0 <= i < before.len() implies T::key(#[trigger] before[i])
                < T::key(value) by {
                lemma_lookup::<T>(before, i);
                assert(self@.dom().contains(T::key(before[i])));
            }
        }
        self.rows.push(row);
        proof {
            let after = views(self.rows@);
            assert(after =~= before.push(value));
            lemma_pushed::<T>(before, value);
        }
    }

    /// Puts `row` in the place of the stored record with its identifier.
    pub fn replace(&mut self, row: T)
        requires
            old(self).wf(),
            old(self)@.dom().contains(T::key(row@)),
        ensures
            final(self).wf(),
            final(self)@ == old(self)@.insert(T::key(row@), row@),
    {
        let ghost before = views(self.rows@);
        let ghost value = row@;
        let at = self.position(row.id());
        let i = at.unwrap();
        self.rows.set(i, row);
        proof {
            let after = views(self.rows@);
            assert(after =~= before.update(i as int, value));
            lemma_updated::<T>(before, i as int, value);
        }
    }

    /// Removes the record with the identifier `id`; tells whether there was
    /// one.
    pub fn remove(&mut self, id: Id) -> (r: bool)
        requires
            old(self).wf(),
        ensures
            final(self).wf(),
            r == old(self)@.dom().contains(id),
            final(self)@ == old(self)@.remove(id),
    {
        let ghost before = views(self.rows@);
        match self.position(id) {
            Some(i) => {
                self.rows.remove(i);
                proof {
                    let after = views(self.rows@);
                    assert(after =~= before.remove(i as int));
                    lemma_removed::<T>(before, i as int);
                }
                true
            },
            None => {
                assert(self@ =~= old(self)@.remove(id));
                false
            },
        }
    }
}

/// Pushing a record with a larger identifier keeps the order and inserts it
/// into the map.
proof fn lemma_pushed<T: Record>(rows: Seq<T::V>, row: T::V)
    requires
        ascending::<T>(rows),
        forall|i: int| 0 <= i < rows.len() ==> T::key(#[trigger] rows[i]) < T::key(row),
    ensures
        ascending::<T>(rows.push(row)),
        table_of::<T>(rows.push(row)) == table_of::<T>(rows).insert(T::key(row), row),
{
    let after = rows.push(row);
    assert forall|i: int, j: int| 0 <= i < j < after.len() implies T::key(#[trigger] after[i])
        < T::key(#[trigger] after[j]) by {
        if j < rows.len() {
            assert(after[i] == rows[i] && after[j] == rows[j]);
        } else {
            assert(after[i] == rows[i]);
        }
    }
    let a = table_of::<T>(after);
    let b = table_of::<T>(rows).insert(T::key(row), row);
    assert forall|id: Id| a.dom().contains(id) <==> b.dom().contains(id) by {
        if a.dom().contains(id) {
            let i = place::<T>(after, id);
            if i < rows.len() {
                assert(after[i] == rows[i]);
            }
        }
        if b.dom().contains(id) {
            if id == T::key(row) {
                assert(after[rows.len() as int] == row);
            } else {
                let i = place::<T>(rows, id);
                assert(after[i] == rows[i]);
            }
        }
    }
    assert forall|id: Id| a.dom().contains(id) implies a[id] == b[id] by {
        let i = place::<T>(after, id);
        lemma_lookup::<T>(after, i);
        if i < rows.len() {
            assert(after[i] == rows[i]);
            lemma_lookup::<T>(rows, i);
        }
    }
    assert(a =~= b);
}

/// Replacing a record by one with the same identifier keeps the order and
/// overwrites it in the map.
proof fn lemma_updated<T: Record>(rows: Seq<T::V>, at: int, row: T::V)
    requires
        ascending::<T>(rows),
        0 <= at < rows.len(),
        T::key(rows[at]) == T::key(row),
    ensures
        ascending::<T>(rows.update(at, row)),
        table_of::<T>(rows.update(at, row)) == table_of::<T>(rows).insert(T::key(row), row),
{
    let after = rows.update(at, row);
    assert forall|i: int, j: int| 0 <= i < j < after.len() implies T::key(#[trigger] after[i])
        < T::key(#[trigger] after[j]) by {
        assert(T::key(after[i]) == T::key(rows[i]));
        assert(T::key(after[j]) == T::key(rows[j]));
    }
    let a = table_of::<T>(after);
    let b = table_of::<T>(rows).insert(T::key(row), row);
    assert forall|id: Id| a.dom().contains(id) <==> b.dom().contains(id) by {
        if a.dom().contains(id) {
            let i = place::<T>(after, id);
            assert(T::key(after[i]) == T::key(rows[i]));
        }
        if b.dom().contains(id) {
            if id == T::key(row) {
                assert(T::key(after[at]) == id);
            } else {
                let i = place::<T>(rows, id);
                assert(T::key(after[i]) == T::key(rows[i]));
            }
        }
    }
    assert forall|id: Id| a.dom().contains(id) implies a[id] == b[id] by {
        let i = place::<T>(after, id);
        lemma_lookup::<T>(after, i);
        lemma_lookup::<T>(rows, i);
    }
    assert(a =~= b);
}

/// Removing a record keeps the order and removes it from the map.
proof fn lemma_removed<T: Record>(rows: Seq<T::V>, at: int)
    requires
        ascending::<T>(rows),
        0 <= at < rows.len(),
    ensures
        ascending::<T>(rows.remove(at)),
        table_of::<T>(rows.remove(at)) == table_of::<T>(rows).remove(T::key(rows[at])),
{
    let after = rows.remove(at);
    assert forall|i: int| 0 <= i < after.len() implies #[trigger] after[i] == rows[if i < at {
        i
    } else {
        i + 1
    }] by {}
    assert forall|i: int, j: int| 0 <= i < j < after.len() implies T::key(#[trigger] after[i])
        < T::key(#[trigger] after[j]) by {
        let i0 = if i < at { i } else { i + 1 };
        let j0 = if j < at { j } else { j + 1 };
        assert(after[i] == rows[i0] && after[j] == rows[j0]);
    }
    let a = table_of::<T>(after);
    let b = table_of::<T>(rows).remove(T::key(rows[at]));
    assert forall|id: Id| a.dom().contains(id) <==> b.dom().contains(id) by {
        if a.dom().contains(id) {
            let i = place::<T>(after, id);
            let i0 = if i < at { i } else { i + 1 };
            assert(after[i] == rows[i0]);
            if i0 < at {
                assert(T::key(rows[i0]) < T::key(rows[at]));
            } else {
                assert(T::key(rows[at]) < T::key(rows[i0]));
            }
        }
        if b.dom().contains(id) {
            let i0 = place::<T>(rows, id);
            let i = if i0 < at { i0 } else { i0 - 1 };
            assert(after[i] == rows[i0]);
        }
    }
    assert forall|id: Id| a.dom().contains(id) implies a[id] == b[id] by {
        let i = place::<T>(after, id);
        let i0 = if i < at { i } else { i + 1 };
        assert(after[i] == rows[i0]);
        lemma_lookup::<T>(after, i);
        lemma_lookup::<T>(rows, i0);
    }
    assert(a =~= b);
}

} // verus!
