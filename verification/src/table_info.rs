//! The registry of live tables: an ordered collection of records, each an
//! identifier together with the handle of the surface that shows the table.

use vstd::prelude::*;
use crate::TableId;
use crate::lobby::Msg;
use crate::route::Route;

verus! {

/// Whether no identifier occurs twice in `ids`.
pub open spec fn distinct(ids: Seq<TableId>) -> bool {
    forall|i: int, j: int| 0 <= i < j < ids.len() ==> ids[i] != ids[j]
}

/// Whether `id` occurs at most once in `ids`.
pub open spec fn at_most_once(ids: Seq<TableId>, id: TableId) -> bool {
    forall|i: int, j: int| 0 <= i < j < ids.len() ==> !(ids[i] == id && ids[j] == id)
}

/// Whether `i` is the first place in `ids` that holds `id`.
pub open spec fn first_at(ids: Seq<TableId>, id: TableId, i: int) -> bool {
    &&& 0 <= i < ids.len()
    &&& ids[i] == id
    &&& forall|j: int| 0 <= j < i ==> ids[j] != id
}

/// The first place in `ids` that holds `id`, if there is one.
pub open spec fn position(ids: Seq<TableId>, id: TableId) -> Option<int> {
    if exists|i: int| first_at(ids, id, i) {
        Some(choose|i: int| first_at(ids, id, i))
    } else {
        None
    }
}

/// `ids` with the first occurrence of `id` taken out.
pub open spec fn without(ids: Seq<TableId>, id: TableId) -> Seq<TableId> {
    match position(ids, id) {
        Some(i) => ids.remove(i),
        None => ids,
    }
}

/// The neighbours of each identifier in `ids`: the one before it, itself, and
/// the one after it, with nothing before the first and nothing after the last.
pub open spec fn neighbors(ids: Seq<TableId>) -> Seq<(Option<TableId>, TableId, Option<TableId>)> {
    Seq::new(
        ids.len(),
        |i: int|
            (
                if i > 0 {
                    Some(ids[i - 1])
                } else {
                    None
                },
                ids[i],
                if i + 1 < ids.len() {
                    Some(ids[i + 1])
                } else {
                    None
                },
            ),
    )
}

/// The route of a table, where there is one.
pub open spec fn table_route(id: Option<TableId>) -> Option<Route> {
    match id {
        Some(id) => Some(Route::Table { id }),
        None => None,
    }
}

/// A place is the first that holds `id` exactly if `position` names it.
pub proof fn lemma_position(ids: Seq<TableId>, id: TableId)
    ensures
        position(ids, id) is Some <==> ids.contains(id),
        forall|i: int| first_at(ids, id, i) <==> position(ids, id) == Some(i),
{
    if ids.contains(id) {
        let k = choose|k: int| 0 <= k < ids.len() && ids[k] == id;
        lemma_first_exists(ids, id, k);
    }
    if let Some(p) = position(ids, id) {
        assert(first_at(ids, id, p));
        assert forall|i: int| first_at(ids, id, i) implies i == p by {
            if i < p {
                assert(ids[i] != id);
            } else if p < i {
                assert(ids[p] != id);
            }
        }
    }
}

proof fn lemma_first_exists(ids: Seq<TableId>, id: TableId, k: int)
    requires
        0 <= k < ids.len(),
        ids[k] == id,
    ensures
        exists|i: int| first_at(ids, id, i),
    decreases k,
{
    if exists|j: int| 0 <= j < k && ids[j] == id {
        let j = choose|j: int| 0 <= j < k && ids[j] == id;
        lemma_first_exists(ids, id, j);
    } else {
        assert(first_at(ids, id, k));
    }
}

/// Taking an identifier out keeps the others distinct.
pub proof fn lemma_without_distinct(ids: Seq<TableId>, id: TableId)
    requires
        distinct(ids),
    ensures
        distinct(without(ids, id)),
{
    lemma_position(ids, id);
}

/// Removing an identifier twice: the first removal finds it where it is
/// there; once an identifier that occurred at most once is taken out, it is
/// gone, so the second removal finds nothing and changes nothing.
pub proof fn lemma_remove_twice(ids: Seq<TableId>, id: TableId)
    requires
        at_most_once(ids, id),
    ensures
        ids.contains(id) ==> position(ids, id) is Some,
        !without(ids, id).contains(id),
        position(without(ids, id), id) is None,
        without(without(ids, id), id) == without(ids, id),
{
    lemma_position(ids, id);
    let rest = without(ids, id);
    lemma_position(rest, id);
    if let Some(p) = position(ids, id) {
        assert forall|k: int| 0 <= k < rest.len() implies rest[k] != id by {
            if k < p {
                assert(rest[k] == ids[k]);
            } else {
                assert(rest[k] == ids[k + 1]);
            }
        }
    }
}

/// One live table: its identifier and the handle of its surface.
#[derive(Debug)]
pub struct TableInfo<W> {
    pub id: TableId,
    pub window: W,
}

/// The identifiers of `records`, in their order.
pub open spec fn ids_of<W>(records: Seq<TableInfo<W>>) -> Seq<TableId> {
    Seq::new(records.len(), |i: int| records[i].id)
}

impl<W> TableInfo<W> {
    /// The record of table `id`, shown by `window`.
    pub fn new(window: W, id: TableId) -> (info: Self)
        ensures
            info.id == id,
            info.window == window,
    {
        TableInfo { id, window }
    }

    /// The message that asks the lobby to close this table. It names the
    /// table by its identifier, so it finds the record wherever it stands.
    pub fn close_message(&self) -> (msg: Msg)
        ensures
            msg == Msg::CloseWindow(self.id),
    {
        Msg::CloseWindow(self.id)
    }

    /// For each record, in order: the route of the table before it, its own
    /// identifier, and the route of the table after it.
    pub fn left_this_right(tables: &[TableInfo<W>]) -> (triples: Vec<
        (Option<Route>, TableId, Option<Route>),
    >)
        ensures
            triples@.len() == tables@.len(),
            forall|i: int|
                0 <= i < tables@.len() ==> {
                    let n = #[trigger] neighbors(ids_of(tables@))[i];
                    triples@[i] == (table_route(n.0), n.1, table_route(n.2))
                },
    {
        let mut triples: Vec<(Option<Route>, TableId, Option<Route>)> = Vec::new();
        let mut i: usize = 0;
        while i < tables.len()
            invariant
                0 <= i <= tables@.len(),
                triples@.len() == i,
                forall|k: int|
                    0 <= k < i ==> {
                        let n = #[trigger] neighbors(ids_of(tables@))[k];
                        triples@[k] == (table_route(n.0), n.1, table_route(n.2))
                    },
            decreases tables@.len() - i,
        {
            let left = if i > 0 {
                Some(Route::Table { id: tables[i - 1].id })
            } else {
                None
            };
            let right = if i + 1 < tables.len() {
                Some(Route::Table { id: tables[i + 1].id })
            } else {
                None
            };
            triples.push((left, tables[i].id, right));
            i += 1;
        }
        triples
    }
}

/// The registry: the records of the live tables, in the order in which the
/// tables were created.
#[derive(Debug)]
pub struct Tables<W>(Vec<TableInfo<W>>);

impl<W> View for Tables<W> {
    type V = Seq<TableInfo<W>>;

    closed spec fn view(&self) -> Seq<TableInfo<W>> {
        self.0@
    }
}

impl<W> Tables<W> {
    /// The identifiers of the live tables, in registry order.
    pub open spec fn ids(&self) -> Seq<TableId> {
        ids_of(self@)
    }

    /// Whether a record with this identifier is in the registry.
    pub open spec fn contains_id(&self, id: TableId) -> bool {
        self.ids().contains(id)
    }

    /// Whether no two records share an identifier.
    pub open spec fn well_formed(&self) -> bool {
        distinct(self.ids())
    }

    /// The empty registry.
    pub fn new() -> (tables: Self)
        ensures
            tables@ == Seq::<TableInfo<W>>::empty(),
    {
        Tables(Vec::new())
    }

    /// The records, in registry order.
    pub fn tables(&self) -> (records: &[TableInfo<W>])
        ensures
            records@ == self@,
    {
        self.0.as_slice()
    }

    /// Appends a record: the newest table comes last.
    pub fn push(&mut self, elem: TableInfo<W>)
        ensures
            final(self)@ == old(self)@.push(elem),
            final(self).ids() == old(self).ids().push(elem.id),
            final(self).well_formed() <==> old(self).well_formed() && !old(self).contains_id(elem.id),
    {
        self.0.push(elem);
        proof {
            let before = old(self).ids();
            let after = self.ids();
            assert(after =~= before.push(elem.id));
            if distinct(before) && !before.contains(elem.id) {
                assert(distinct(after));
            }
            if distinct(after) {
                assert forall|i: int, j: int| 0 <= i < j < before.len() implies before[i]
                    != before[j] by {
                    assert(after[i] != after[j]);
                }
                assert forall|i: int| 0 <= i < before.len() implies before[i] != elem.id by {
                    assert(after[i] != after[before.len() as int]);
                }
            }
        }
    }

    /// Takes the first record with identifier `id` out of the registry and
    /// hands it back, so that the caller closes its surface. Where no record
    /// has the identifier, nothing changes and nothing is handed back: there
    /// is then nothing to close.
    pub fn remove_by_id(&mut self, id: TableId) -> (removed: Option<TableInfo<W>>)
        ensures
            removed is Some <==> old(self).contains_id(id),
            match position(old(self).ids(), id) {
                Some(i) => removed == Some(old(self)@[i]) && final(self)@ == old(self)@.remove(i),
                None => removed is None && final(self)@ == old(self)@,
            },
            final(self).ids() == without(old(self).ids(), id),
            old(self).well_formed() ==> final(self).well_formed(),
            at_most_once(old(self).ids(), id) ==> !final(self).contains_id(id),
    {
        proof {
            lemma_position(self.ids(), id);
            lemma_remove_twice_guarded(self.ids(), id);
            if distinct(self.ids()) {
                lemma_without_distinct(self.ids(), id);
            }
        }
        let mut i: usize = 0;
        while i < self.0.len()
            invariant
                *self == *old(self),
                0 <= i <= self@.len(),
                forall|j: int| 0 <= j < i ==> self.ids()[j] != id,
            decreases self@.len() - i,
        {
            if self.0[i].id == id {
                assert(first_at(self.ids(), id, i as int));
                let record = self.0.remove(i);
                assert(self.ids() =~= old(self).ids().remove(i as int));
                return Some(record);
            }
            i += 1;
        }
        assert(!self.ids().contains(id));
        None
    }

    /// The results of `f` on each record, in registry order. The registry is
    /// only read.
    pub fn html<T, F: Fn(&TableInfo<W>) -> T>(&self, f: F) -> (views: Vec<T>)
        requires
            forall|i: int| 0 <= i < self@.len() ==> call_requires(f, (&#[trigger] self@[i],)),
        ensures
            views@.len() == self@.len(),
            forall|i: int|
                0 <= i < self@.len() ==> call_ensures(f, (&self@[i],), #[trigger] views@[i]),
    {
        let mut views: Vec<T> = Vec::new();
        let mut i: usize = 0;
        while i < self.0.len()
            invariant
                0 <= i <= self@.len(),
                views@.len() == i,
                forall|k: int| 0 <= k < self@.len() ==> call_requires(f, (&#[trigger] self@[k],)),
                forall|k: int| 0 <= k < i ==> call_ensures(f, (&self@[k],), #[trigger] views@[k]),
            decreases self@.len() - i,
        {
            let view = f(&self.0[i]);
            views.push(view);
            i += 1;
        }
        views
    }

    /// The results of `f` on each record's neighbourhood, in registry order:
    /// the route of the table before it, its own identifier, and the route of
    /// the table after it.
    pub fn triple_html<T, F: Fn((Option<Route>, TableId, Option<Route>)) -> T>(
        &self,
        f: F,
    ) -> (views: Vec<T>)
        requires
            forall|t: (Option<Route>, TableId, Option<Route>)| call_requires(f, (t,)),
        ensures
            views@.len() == self@.len(),
            forall|i: int|
                0 <= i < self@.len() ==> {
                    let n = neighbors(self.ids())[i];
                    call_ensures(
                        f,
                        ((table_route(n.0), n.1, table_route(n.2)),),
                        #[trigger] views@[i],
                    )
                },
    {
        let triples = TableInfo::left_this_right(self.0.as_slice());
        let mut views: Vec<T> = Vec::new();
        let mut i: usize = 0;
        while i < triples.len()
            invariant
                0 <= i <= triples@.len(),
                triples@.len() == self@.len(),
                views@.len() == i,
                forall|t: (Option<Route>, TableId, Option<Route>)| call_requires(f, (t,)),
                forall|k: int|
                    0 <= k < self@.len() ==> {
                        let n = #[trigger] neighbors(self.ids())[k];
                        triples@[k] == (table_route(n.0), n.1, table_route(n.2))
                    },
                forall|k: int|
                    0 <= k < i ==> {
                        let n = neighbors(self.ids())[k];
                        call_ensures(
                            f,
                            ((table_route(n.0), n.1, table_route(n.2)),),
                            #[trigger] views@[k],
                        )
                    },
            decreases triples@.len() - i,
        {
            let view = f(triples[i]);
            views.push(view);
            i += 1;
        }
        views
    }

    /// Whether the registry holds no record.
    pub fn is_empty(&self) -> (empty: bool)
        ensures
            empty == (self@.len() == 0),
    {
        self.0.len() == 0
    }

    /// For each record, in order: the identifier before it, its own, and the
    /// one after it.
    pub fn neighbors(&self) -> (triples: Vec<(Option<TableId>, TableId, Option<TableId>)>)
        ensures
            triples@ == neighbors(self.ids()),
    {
        let mut triples: Vec<(Option<TableId>, TableId, Option<TableId>)> = Vec::new();
        let mut i: usize = 0;
        while i < self.0.len()
            invariant
                0 <= i <= self@.len(),
                triples@.len() == i,
                forall|k: int| 0 <= k < i ==> triples@[k] == neighbors(self.ids())[k],
            decreases self@.len() - i,
        {
            let left = if i > 0 {
                Some(self.0[i - 1].id)
            } else {
                None
            };
            let right = if i + 1 < self.0.len() {
                Some(self.0[i + 1].id)
            } else {
                None
            };
            triples.push((left, self.0[i].id, right));
            i += 1;
        }
        assert(triples@ =~= neighbors(self.ids()));
        triples
    }
}

impl<W> Default for Tables<W> {
    fn default() -> (tables: Self)
        ensures
            tables@ == Seq::<TableInfo<W>>::empty(),
    {
        Tables::new()
    }
}

impl<W> PartialEq for Tables<W> {
    /// Two registries are equal where they hold the same identifiers in the
    /// same order.
    fn eq(&self, other: &Tables<W>) -> (same: bool) {
        if self.0.len() != other.0.len() {
            assert(self.ids().len() != other.ids().len());
            return false;
        }
        let mut i: usize = 0;
        while i < self.0.len()
            invariant
                0 <= i <= self@.len(),
                self@.len() == other@.len(),
                forall|k: int| 0 <= k < i ==> self.ids()[k] == other.ids()[k],
            decreases self@.len() - i,
        {
            if self.0[i].id != other.0[i].id {
                assert(self.ids()[i as int] != other.ids()[i as int]);
                return false;
            }
            i += 1;
        }
        assert(self.ids() =~= other.ids());
        true
    }
}

impl<W> vstd::std_specs::cmp::PartialEqSpecImpl for Tables<W> {
    open spec fn obeys_eq_spec() -> bool {
        true
    }

    open spec fn eq_spec(&self, other: &Tables<W>) -> bool {
        self.ids() == other.ids()
    }
}

proof fn lemma_remove_twice_guarded(ids: Seq<TableId>, id: TableId)
    ensures
        at_most_once(ids, id) ==> !without(ids, id).contains(id),
{
    if at_most_once(ids, id) {
        lemma_remove_twice(ids, id);
    }
}

} // verus!
