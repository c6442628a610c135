//! What every stored entity can do: be created, be found, and be listed page
//! by page.
//!
//! [`ModelExt`] is what an entity kind provides; [`Collection`] is the shared
//! implementation over it, held in memory. A deployment that keeps its
//! entities in a database answers the same questions there and is expected to
//! answer them as this collection does.

use crate::errors::Error;
use crate::utils::date::Date;
use crate::utils::oid::ObjectId;
use vstd::prelude::*;

verus! {

/// The order in which a listing comes.
#[derive(Debug, Clone, Copy, PartialEq, Eq, Structural)]
pub enum Sort {
    /// The order in which the entities were stored.
    Natural,
    /// Latest creation first; entities created at the same instant keep the
    /// order in which they were stored.
    NewestFirst,
}

/// An index that a kind of entity asks of its collection: the fields it is
/// keyed by, in order and ascending, and whether it forbids two entities
/// with the same key.
#[derive(Debug, Clone, PartialEq, Eq)]
pub struct IndexModel {
    pub keys: Vec<&'static str>,
    pub unique: bool,
}

/// The content of an [`IndexModel`].
pub struct IndexView {
    pub keys: Seq<Seq<char>>,
    pub unique: bool,
}

impl View for IndexModel {
    type V = IndexView;

    open spec fn view(&self) -> IndexView {
        IndexView { keys: self.keys@.map_values(|key: &'static str| key@), unique: self.unique }
    }
}

/// The contents of a list of indexes, one for one.
pub open spec fn index_views(indexes: Seq<IndexModel>) -> Seq<IndexView> {
    indexes.map_values(|index: IndexModel| index@)
}

/// What a kind of entity provides so that it can be kept in a
/// [`Collection`].
pub trait ModelExt: Sized {
    /// What a search for entities of this kind is phrased in.
    type Filter;

    /// The identifier, once the entity has been stored.
    spec fn id_of(&self) -> Option<ObjectId>;

    /// The instant at which the entity was created.
    spec fn created_of(&self) -> Date;

    /// The value that no two stored entities of this kind may share, if the
    /// kind has one.
    spec fn unique_of(&self) -> Option<Seq<char>>;

    /// Whether the entity passes the checks that precede storing.
    spec fn storable(&self) -> bool;

    /// Whether a search with `filter` finds this entity.
    spec fn selected(&self, filter: &Self::Filter) -> bool;

    /// The entity with its identifier set to `id`, and nothing else changed.
    spec fn identified(self, id: ObjectId) -> Self;

    /// Setting the identifier changes the identifier only.
    proof fn lemma_identified(self, id: ObjectId)
        ensures
            self.identified(id).id_of() == Some(id),
            self.identified(id).created_of() == self.created_of(),
            self.identified(id).unique_of() == self.unique_of(),
            self.identified(id).storable() == self.storable(),
            forall|filter: &Self::Filter| #[trigger]
                self.identified(id).selected(filter) == self.selected(filter),
    ;

    /// The name of the collection that entities of this kind are kept in.
    spec fn collection_of() -> Seq<char>;

    /// The indexes that this kind asks of its collection.
    spec fn index_specs() -> Seq<IndexView>;

    /// The name of the collection that entities of this kind are kept in.
    fn collection_name() -> (name: &'static str)
        ensures
            name@ == Self::collection_of(),
    ;

    /// The indexes that this kind asks of its collection.
    fn indexes() -> (list: Vec<IndexModel>)
        ensures
            index_views(list@) == Self::index_specs(),
    ;

    fn created_at(&self) -> (at: Date)
        ensures
            at == self.created_of(),
    ;

    /// Tells whether this entity and `other` share the value that must be
    /// unique.
    fn clashes_with(&self, other: &Self) -> (clash: bool)
        ensures
            clash == (self.unique_of() is Some && self.unique_of() == other.unique_of()),
    ;

    fn is_storable(&self) -> (ok: bool)
        ensures
            ok == self.storable(),
    ;

    fn is_selected(&self, filter: &Self::Filter) -> (found: bool)
        ensures
            found == self.selected(filter),
    ;

    fn with_id(self, id: ObjectId) -> (entity: Self)
        ensures
            entity == self.identified(id),
    ;

    fn copy(&self) -> (entity: Self)
        ensures
            entity == *self,
    ;
}

/// The bytes of the identifier given to the entity that is stored as number
/// `serial`: four zero bytes, then `serial` in big-endian order.
pub open spec fn serial_bytes(serial: u64) -> Seq<u8> {
    seq![
        0u8,
        0u8,
        0u8,
        0u8,
        (serial >> 56) as u8,
        ((serial >> 48) & 0xff) as u8,
        ((serial >> 40) & 0xff) as u8,
        ((serial >> 32) & 0xff) as u8,
        ((serial >> 24) & 0xff) as u8,
        ((serial >> 16) & 0xff) as u8,
        ((serial >> 8) & 0xff) as u8,
        (serial & 0xff) as u8,
    ]
}

/// Different serial numbers give different identifiers.
pub proof fn lemma_serial_bytes_differ(a: u64, b: u64)
    requires
        a != b,
    ensures
        serial_bytes(a) != serial_bytes(b),
{
    if serial_bytes(a) == serial_bytes(b) {
        assert(serial_bytes(a)[4] == serial_bytes(b)[4]);
        assert(serial_bytes(a)[5] == serial_bytes(b)[5]);
        assert(serial_bytes(a)[6] == serial_bytes(b)[6]);
        assert(serial_bytes(a)[7] == serial_bytes(b)[7]);
        assert(serial_bytes(a)[8] == serial_bytes(b)[8]);
        assert(serial_bytes(a)[9] == serial_bytes(b)[9]);
        assert(serial_bytes(a)[10] == serial_bytes(b)[10]);
        assert(serial_bytes(a)[11] == serial_bytes(b)[11]);
        assert(a == b) by (bit_vector)
            requires
                (a >> 56) as u8 == (b >> 56) as u8,
                ((a >> 48) & 0xff) as u8 == ((b >> 48) & 0xff) as u8,
                ((a >> 40) & 0xff) as u8 == ((b >> 40) & 0xff) as u8,
                ((a >> 32) & 0xff) as u8 == ((b >> 32) & 0xff) as u8,
                ((a >> 24) & 0xff) as u8 == ((b >> 24) & 0xff) as u8,
                ((a >> 16) & 0xff) as u8 == ((b >> 16) & 0xff) as u8,
                ((a >> 8) & 0xff) as u8 == ((b >> 8) & 0xff) as u8,
                (a & 0xff) as u8 == (b & 0xff) as u8,
        ;
    }
}

/// The identifier for the entity that is stored as number `serial`.
pub fn serial_id(serial: u64) -> (id: ObjectId)
    ensures
        id@ == serial_bytes(serial),
{
    let bytes: [u8; 12] = [
        0u8,
        0u8,
        0u8,
        0u8,
        (serial >> 56) as u8,
        ((serial >> 48) & 0xff) as u8,
        ((serial >> 40) & 0xff) as u8,
        ((serial >> 32) & 0xff) as u8,
        ((serial >> 24) & 0xff) as u8,
        ((serial >> 16) & 0xff) as u8,
        ((serial >> 8) & 0xff) as u8,
        (serial & 0xff) as u8,
    ];
    assert(bytes@ =~= serial_bytes(serial));
    ObjectId::from_bytes(bytes)
}

/// The entities of one kind, in the order in which they were stored, and
/// the indexes that have been declared on them.
pub struct Collection<T: ModelExt> {
    docs: Vec<T>,
    indexes: Vec<IndexModel>,
}

impl<T: ModelExt> View for Collection<T> {
    type V = Seq<T>;

    closed spec fn view(&self) -> Seq<T> {
        self.docs@
    }
}

/// Whether `entity` shares its unique value with one of `docs`.
pub open spec fn clashes<T: ModelExt>(docs: Seq<T>, entity: T) -> bool {
    entity.unique_of() is Some && exists|i: int|
        0 <= i < docs.len() && (#[trigger] docs[i]).unique_of() == entity.unique_of()
}

/// What holds of everything that a collection keeps: every entity passed
/// the checks, the entity stored as number `i` carries the identifier of
/// that number, and no two share a unique value.
pub open spec fn consistent<T: ModelExt>(docs: Seq<T>) -> bool {
    &&& docs.len() <= u64::MAX
    &&& forall|i: int|
        0 <= i < docs.len() ==> (#[trigger] docs[i]).storable() && docs[i].id_of() is Some
            && docs[i].id_of()->0@ == serial_bytes(i as u64)
    &&& forall|i: int, j: int|
        0 <= i < j < docs.len() && (#[trigger] docs[i]).unique_of() is Some ==> docs[i].unique_of()
            != (#[trigger] docs[j]).unique_of()
}

/// No two entities that a collection keeps carry the same identifier.
pub proof fn lemma_ids_unique<T: ModelExt>(docs: Seq<T>, i: int, j: int)
    requires
        consistent(docs),
        0 <= i < docs.len(),
        0 <= j < docs.len(),
        i != j,
    ensures
        docs[i].id_of() is Some,
        docs[j].id_of() is Some,
        docs[i].id_of()->0@ != docs[j].id_of()->0@,
{
    lemma_serial_bytes_differ(i as u64, j as u64);
}

/// The first entity of `docs` that `filter` selects, if there is one.
pub open spec fn first_selected<T: ModelExt>(docs: Seq<T>, filter: &T::Filter) -> Option<T>
    decreases docs.len(),
{
    if docs.len() == 0 {
        None
    } else if docs[0].selected(filter) {
        Some(docs[0])
    } else {
        first_selected(docs.drop_first(), filter)
    }
}

/// The entities of `docs` that `filter` selects, in the order of `docs`.
pub open spec fn matching<T: ModelExt>(docs: Seq<T>, filter: &T::Filter) -> Seq<T>
    decreases docs.len(),
{
    if docs.len() == 0 {
        Seq::empty()
    } else if docs.last().selected(filter) {
        matching(docs.drop_last(), filter).push(docs.last())
    } else {
        matching(docs.drop_last(), filter)
    }
}

/// Where `entity` goes in `sorted`, a listing that has the newest first:
/// behind every entity created at the same instant or later.
pub open spec fn slot<T: ModelExt>(sorted: Seq<T>, entity: T) -> int
    decreases sorted.len(),
{
    if sorted.len() == 0 || sorted[0].created_of()@ < entity.created_of()@ {
        0
    } else {
        1 + slot(sorted.drop_first(), entity)
    }
}

/// `docs` with the newest first. Entities created at the same instant keep
/// the order they have in `docs`.
pub open spec fn newest_first<T: ModelExt>(docs: Seq<T>) -> Seq<T>
    decreases docs.len(),
{
    if docs.len() == 0 {
        Seq::empty()
    } else {
        let rest = newest_first(docs.drop_last());
        rest.insert(slot(rest, docs.last()), docs.last())
    }
}

/// `docs` in the order that `sort` asks for.
pub open spec fn ordered<T: ModelExt>(docs: Seq<T>, sort: Sort) -> Seq<T> {
    match sort {
        Sort::Natural => docs,
        Sort::NewestFirst => newest_first(docs),
    }
}

/// The window of `docs` that skips `offset` entries and then holds at most
/// `limit`.
pub open spec fn page<T>(docs: Seq<T>, offset: u64, limit: u64) -> Seq<T> {
    let start = if offset <= docs.len() {
        offset as int
    } else {
        docs.len() as int
    };
    let end = if offset + limit <= docs.len() {
        offset + limit
    } else {
        docs.len() as int
    };
    docs.subrange(start, end)
}

/// Whether `docs` has the newest first.
pub open spec fn is_newest_first<T: ModelExt>(docs: Seq<T>) -> bool {
    forall|i: int, j: int|
        0 <= i < j < docs.len() ==> (#[trigger] docs[i]).created_of()@ >= (
        #[trigger] docs[j]).created_of()@
}

/// The slot lies within the listing; everything before it is at least as
/// new as the entity, and what stands at it is older.
pub proof fn lemma_slot<T: ModelExt>(sorted: Seq<T>, entity: T)
    ensures
        0 <= slot(sorted, entity) <= sorted.len(),
        forall|i: int|
            0 <= i < slot(sorted, entity) ==> (#[trigger] sorted[i]).created_of()@
                >= entity.created_of()@,
        slot(sorted, entity) < sorted.len() ==> sorted[slot(sorted, entity)].created_of()@
            < entity.created_of()@,
    decreases sorted.len(),
{
    if sorted.len() == 0 || sorted[0].created_of()@ < entity.created_of()@ {
    } else {
        let rest = sorted.drop_first();
        lemma_slot(rest, entity);
        assert forall|i: int| 0 <= i < slot(sorted, entity) implies (#[trigger] sorted[i]).created_of()@
            >= entity.created_of()@ by {
            if i > 0 {
                assert(sorted[i] == rest[i - 1]);
            }
        }
        if slot(sorted, entity) < sorted.len() {
            assert(sorted[slot(sorted, entity)] == rest[slot(rest, entity)]);
        }
    }
}

/// Ordering a listing keeps exactly its entities and puts the newest first.
pub proof fn lemma_newest_first<T: ModelExt>(docs: Seq<T>)
    ensures
        newest_first(docs).len() == docs.len(),
        newest_first(docs).to_multiset() == docs.to_multiset(),
        is_newest_first(newest_first(docs)),
    decreases docs.len(),
{
    broadcast use vstd::seq_lib::to_multiset_insert, vstd::seq_lib::to_multiset_build;

    if docs.len() == 0 {
        assert(docs =~= Seq::<T>::empty());
    } else {
        let head = docs.drop_last();
        let x = docs.last();
        let rest = newest_first(head);
        lemma_newest_first(head);
        lemma_slot(rest, x);
        let p = slot(rest, x);
        let out = rest.insert(p, x);
        assert(docs =~= head.push(x));
        assert(out.to_multiset() == rest.to_multiset().insert(x));
        assert(docs.to_multiset() == head.to_multiset().insert(x));
        assert forall|i: int, j: int| 0 <= i < j < out.len() implies (#[trigger] out[i]).created_of()@
            >= (#[trigger] out[j]).created_of()@ by {
            if j < p {
                assert(out[i] == rest[i] && out[j] == rest[j]);
            } else if j == p {
                assert(out[i] == rest[i]);
            } else if i < p {
                assert(out[i] == rest[i] && out[j] == rest[j - 1]);
                if p < j - 1 {
                    assert(rest[p].created_of()@ >= rest[j - 1].created_of()@);
                }
            } else if i == p {
                assert(out[j] == rest[j - 1]);
                if p < j - 1 {
                    assert(rest[p].created_of()@ >= rest[j - 1].created_of()@);
                }
            } else {
                assert(out[i] == rest[i - 1] && out[j] == rest[j - 1]);
            }
        }
    }
}

/// What the first selected entity is: it is selected and nothing before it
/// is; and where there is none, nothing is selected at all.
pub proof fn lemma_first_selected<T: ModelExt>(docs: Seq<T>, filter: &T::Filter)
    ensures
        match first_selected(docs, filter) {
            Some(found) => exists|i: int|
                0 <= i < docs.len() && #[trigger] docs[i] == found && found.selected(filter)
                    && forall|j: int| 0 <= j < i ==> !(#[trigger] docs[j]).selected(filter),
            None => forall|i: int| 0 <= i < docs.len() ==> !(#[trigger] docs[i]).selected(filter),
        },
    decreases docs.len(),
{
    if docs.len() == 0 {
    } else if docs[0].selected(filter) {
        assert(docs[0] == docs[0]);
    } else {
        let rest = docs.drop_first();
        lemma_first_selected(rest, filter);
        match first_selected(rest, filter) {
            Some(found) => {
                let i = choose|i: int|
                    0 <= i < rest.len() && #[trigger] rest[i] == found && found.selected(filter)
                        && forall|j: int| 0 <= j < i ==> !(#[trigger] rest[j]).selected(filter);
                assert(docs[i + 1] == rest[i]);
                assert forall|j: int| 0 <= j < i + 1 implies !(#[trigger] docs[j]).selected(
                    filter,
                ) by {
                    if j > 0 {
                        assert(docs[j] == rest[j - 1]);
                    }
                }
            },
            None => {
                assert forall|i: int| 0 <= i < docs.len() implies !(#[trigger] docs[i]).selected(
                    filter,
                ) by {
                    if i > 0 {
                        assert(docs[i] == rest[i - 1]);
                    }
                }
            },
        }
    }
}

/// Everything that a listing shows was selected from the entities listed.
pub proof fn lemma_listing_within<T: ModelExt>(
    docs: Seq<T>,
    filter: &T::Filter,
    sort: Sort,
    offset: u64,
    limit: u64,
)
    ensures
        forall|i: int|
            #![trigger page(ordered(matching(docs, filter), sort), offset, limit)[i]]
            0 <= i < page(ordered(matching(docs, filter), sort), offset, limit).len() ==> {
                let shown = page(ordered(matching(docs, filter), sort), offset, limit)[i];
                docs.contains(shown) && shown.selected(filter)
            },
{
    let found = matching(docs, filter);
    let listing = ordered(found, sort);
    let window = page(listing, offset, limit);
    lemma_matching_within(docs, filter);
    lemma_newest_first(found);
    listing.to_multiset_ensures();
    found.to_multiset_ensures();
    assert forall|i: int| 0 <= i < window.len() implies docs.contains(#[trigger] window[i])
        && window[i].selected(filter) by {
        let start = if offset <= listing.len() {
            offset as int
        } else {
            listing.len() as int
        };
        assert(window[i] == listing[start + i]);
        assert(listing.contains(listing[start + i]));
        assert(listing.to_multiset().count(listing[start + i]) > 0);
        assert(found.to_multiset().count(listing[start + i]) > 0);
        assert(found.contains(window[i]));
        let k = choose|k: int| 0 <= k < found.len() && found[k] == window[i];
        assert(docs.contains(found[k]) && found[k].selected(filter));
    }
}

/// Everything selected is one of the entities searched, and the filter
/// selects it.
pub proof fn lemma_matching_within<T: ModelExt>(docs: Seq<T>, filter: &T::Filter)
    ensures
        forall|k: int|
            0 <= k < matching(docs, filter).len() ==> docs.contains(
                #[trigger] matching(docs, filter)[k],
            ) && matching(docs, filter)[k].selected(filter),
    decreases docs.len(),
{
    if docs.len() > 0 {
        let head = docs.drop_last();
        lemma_matching_within(head, filter);
        assert forall|k: int| 0 <= k < matching(docs, filter).len() implies docs.contains(
            #[trigger] matching(docs, filter)[k],
        ) && matching(docs, filter)[k].selected(filter) by {
            if k < matching(head, filter).len() {
                let x = matching(head, filter)[k];
                assert(head.contains(x));
                let j = choose|j: int| 0 <= j < head.len() && head[j] == x;
                assert(docs[j] == x);
            } else {
                assert(docs[docs.len() - 1] == docs.last());
            }
        }
    }
}

/// No more entities are selected than there are.
pub proof fn lemma_matching_len<T: ModelExt>(docs: Seq<T>, filter: &T::Filter)
    ensures
        matching(docs, filter).len() <= docs.len(),
    decreases docs.len(),
{
    if docs.len() > 0 {
        lemma_matching_len(docs.drop_last(), filter);
    }
}

/// What a first page holds. Where the limit reaches as far as the listing,
/// the page is the whole listing; where it does not, the page is the first
/// `limit` entries of it.
pub proof fn lemma_first_page<T>(docs: Seq<T>, limit: u64)
    ensures
        docs.len() <= limit ==> page(docs, 0, limit) == docs,
        limit < docs.len() ==> page(docs, 0, limit) == docs.take(limit as int) && page(
            docs,
            0,
            limit,
        ).len() == limit,
{
    if docs.len() <= limit {
        assert(page(docs, 0, limit) =~= docs);
    }
}

/// What a listing of the newest entities holds. With `count` entities
/// selected, a first page whose limit is at least `count` holds all of them,
/// and one whose limit is below `count` holds exactly `limit` of them; either
/// way the page has the newest first, and everything on it was selected.
pub proof fn lemma_newest_page<T: ModelExt>(docs: Seq<T>, filter: &T::Filter, limit: u64)
    ensures
        ({
            let found = matching(docs, filter);
            let listing = page(ordered(found, Sort::NewestFirst), 0, limit);
            &&& found.len() <= limit ==> listing.len() == found.len() && listing.to_multiset()
                == found.to_multiset()
            &&& limit < found.len() ==> listing.len() == limit
            &&& is_newest_first(listing)
            &&& forall|i: int| 0 <= i < listing.len() ==> found.contains(#[trigger] listing[i])
        }),
{
    let found = matching(docs, filter);
    let sorted = newest_first(found);
    let listing = page(sorted, 0, limit);
    lemma_newest_first(found);
    lemma_first_page(sorted, limit);
    sorted.to_multiset_ensures();
    found.to_multiset_ensures();
    assert forall|i: int| 0 <= i < listing.len() implies found.contains(#[trigger] listing[i]) by {
        assert(listing[i] == sorted[i]);
        assert(sorted.contains(sorted[i]));
        assert(sorted.to_multiset().count(sorted[i]) > 0);
        assert(found.to_multiset().count(sorted[i]) > 0);
    }
    assert forall|i: int, j: int| 0 <= i < j < listing.len() implies (#[trigger] listing[i]).created_of()@
        >= (#[trigger] listing[j]).created_of()@ by {
        assert(listing[i] == sorted[i] && listing[j] == sorted[j]);
    }
}

impl<T: ModelExt> Collection<T> {
    /// Whether the collection is in order. Every collection that the
    /// functions here hand out is.
    pub open spec fn wf(&self) -> bool {
        consistent(self@)
    }

    /// The indexes that have been declared on the collection.
    pub closed spec fn declared(&self) -> Seq<IndexView> {
        index_views(self.indexes@)
    }

    /// A collection that holds nothing and has no index declared.
    pub fn new() -> (collection: Self)
        ensures
            collection.wf(),
            collection@ == Seq::<T>::empty(),
            collection.declared() == Seq::<IndexView>::empty(),
    {
        let collection = Collection { docs: Vec::new(), indexes: Vec::new() };
        assert(collection.declared() =~= Seq::<IndexView>::empty());
        collection
    }

    /// The indexes that have been declared on the collection.
    pub fn declared_indexes(&self) -> (list: &Vec<IndexModel>)
        ensures
            index_views(list@) == self.declared(),
    {
        &self.indexes
    }

    /// Number of entities kept.
    pub fn len(&self) -> (n: usize)
        ensures
            n == self@.len(),
    {
        self.docs.len()
    }

    /// Declares the indexes that the kind asks for: afterwards the declared
    /// indexes are exactly those, whatever was declared before, so that a
    /// second call changes nothing. The entities are left as they are; the
    /// collection holds them to their unique values whether or not the index
    /// has been declared.
    pub fn sync_indexes(&mut self) -> (r: Result<(), Error>)
        ensures
            r is Ok,
            final(self)@ == old(self)@,
            final(self).declared() == T::index_specs(),
    {
        self.indexes = T::indexes();
        Ok(())
    }

    /// Tells whether `entity` shares its unique value with a stored entity.
    fn has_clash(&self, entity: &T) -> (clash: bool)
        ensures
            clash == clashes(self@, *entity),
    {
        let mut i: usize = 0;
        while i < self.docs.len()
            invariant
                i <= self.docs@.len(),
                forall|j: int|
                    0 <= j < i ==> !(entity.unique_of() is Some && (#[trigger] self.docs@[j]).unique_of()
                        == entity.unique_of()),
            decreases self.docs@.len() - i,
        {
            if entity.clashes_with(&self.docs[i]) {
                return true;
            }
            i += 1;
        }
        false
    }

    /// Stores `entity` and returns it as stored, with the identifier it was
    /// given. An entity that does not pass its checks is refused as a bad
    /// request. One that shares its unique value with a stored entity, or
    /// that no identifier is left for, is a failure of the store. Whatever is
    /// refused leaves the collection as it was.
    pub fn create(&mut self, entity: T) -> (r: Result<T, Error>)
        requires
            old(self).wf(),
        ensures
            final(self).wf(),
            final(self).declared() == old(self).declared(),
            !entity.storable() ==> (r matches Err(Error::BadRequest(_)) && final(self)@ == old(
                self,
            )@),
            entity.storable() && (clashes(old(self)@, entity) || old(self)@.len() >= usize::MAX)
                ==> (r matches Err(Error::Wither(_)) && final(self)@ == old(self)@),
            entity.storable() && !clashes(old(self)@, entity) && old(self)@.len() < usize::MAX ==> (r
                matches Ok(stored) && stored == entity.identified(stored.id_of()->0)
                && stored.id_of() is Some && stored.id_of()->0@ == serial_bytes(
                old(self)@.len() as u64,
            ) && final(self)@ == old(self)@.push(stored)),
    {
        if !entity.is_storable() {
            return Err(Error::bad_request());
        }
        if self.has_clash(&entity) {
            return Err(Error::Wither("duplicate value for a unique index".to_owned()));
        }
        if self.docs.len() >= usize::MAX {
            return Err(Error::Wither("the collection is full".to_owned()));
        }
        let id = serial_id(self.docs.len() as u64);
        proof {
            entity.lemma_identified(id);
        }
        let stored = entity.with_id(id);
        let kept = stored.copy();
        self.docs.push(kept);
        assert(consistent(self.docs@)) by {
            let docs = self.docs@;
            let before = old(self)@;
            assert forall|i: int, j: int|
                0 <= i < j < docs.len() && (#[trigger] docs[i]).unique_of() is Some implies docs[i].unique_of()
                != (#[trigger] docs[j]).unique_of() by {
                if j == docs.len() - 1 {
                    assert(docs[i] == before[i]);
                    if docs[i].unique_of() == docs[j].unique_of() {
                        assert(clashes(before, entity));
                    }
                } else {
                    assert(docs[i] == before[i] && docs[j] == before[j]);
                }
            }
            assert forall|i: int| 0 <= i < docs.len() implies (#[trigger] docs[i]).storable()
                && docs[i].id_of() is Some && docs[i].id_of()->0@ == serial_bytes(i as u64) by {
                if i < docs.len() - 1 {
                    assert(docs[i] == before[i]);
                }
            }
        }
        Ok(stored)
    }

    /// The first stored entity that `filter` selects, in the order of
    /// storing. That there is none is an ordinary answer.
    pub fn find_one(&self, filter: &T::Filter) -> (found: Option<T>)
        ensures
            found == first_selected(self@, filter),
    {
        let mut i: usize = 0;
        assert(self.docs@.skip(0) =~= self.docs@);
        while i < self.docs.len()
            invariant
                i <= self.docs@.len(),
                first_selected(self.docs@, filter) == first_selected(
                    self.docs@.skip(i as int),
                    filter,
                ),
            decreases self.docs@.len() - i,
        {
            proof {
                assert(self.docs@.skip(i as int)[0] == self.docs@[i as int]);
                assert(self.docs@.skip(i as int).drop_first() =~= self.docs@.skip(i + 1));
            }
            if self.docs[i].is_selected(filter) {
                return Some(self.docs[i].copy());
            }
            i += 1;
        }
        None
    }

    /// Copies of the stored entities that `filter` selects, in the order of
    /// storing.
    fn select(&self, filter: &T::Filter) -> (found: Vec<T>)
        ensures
            found@ == matching(self@, filter),
    {
        let mut found: Vec<T> = Vec::new();
        let mut i: usize = 0;
        assert(self.docs@.take(0) =~= Seq::<T>::empty());
        while i < self.docs.len()
            invariant
                i <= self.docs@.len(),
                found@ == matching(self.docs@.take(i as int), filter),
            decreases self.docs@.len() - i,
        {
            proof {
                assert(self.docs@.take(i + 1).drop_last() =~= self.docs@.take(i as int));
                assert(self.docs@.take(i + 1).last() == self.docs@[i as int]);
            }
            if self.docs[i].is_selected(filter) {
                found.push(self.docs[i].copy());
            }
            i += 1;
        }
        assert(self.docs@.take(i as int) =~= self.docs@);
        found
    }

    /// The entities that `filter` selects, in the order that `sort` asks
    /// for, cut down to the window that skips `offset` entries and holds at
    /// most `limit`; and beside them the number of entities selected in all,
    /// whatever the window.
    pub fn find_and_count(&self, filter: &T::Filter, sort: Sort, offset: u64, limit: u64) -> (r: (
        Vec<T>,
        u64,
    ))
        requires
            self.wf(),
        ensures
            r.0@ == page(ordered(matching(self@, filter), sort), offset, limit),
            r.1 == matching(self@, filter).len(),
    {
        let found = self.select(filter);
        proof {
            lemma_matching_len(self@, filter);
        }
        let count = found.len() as u64;
        let listing = match sort {
            Sort::Natural => found,
            Sort::NewestFirst => sort_newest_first(found),
        };
        let length = listing.len() as u64;
        proof {
            lemma_newest_first(matching(self@, filter));
        }
        let start: u64 = if offset <= length {
            offset
        } else {
            length
        };
        let end: u64 = if limit <= length - start {
            start + limit
        } else {
            length
        };
        let mut window: Vec<T> = Vec::new();
        let mut i: usize = start as usize;
        while i < end as usize
            invariant
                start <= i <= end <= listing@.len(),
                window@ == listing@.subrange(start as int, i as int),
            decreases end - i,
        {
            window.push(listing[i].copy());
            assert(listing@.subrange(start as int, i + 1) =~= listing@.subrange(
                start as int,
                i as int,
            ).push(listing@[i as int]));
            i += 1;
        }
        (window, count)
    }
}

/// Tells where `entity` goes in `sorted`.
fn find_slot<T: ModelExt>(sorted: &Vec<T>, entity: &T) -> (at: usize)
    ensures
        at == slot(sorted@, *entity),
        at <= sorted@.len(),
{
    let mut i: usize = 0;
    assert(sorted@.skip(0) =~= sorted@);
    while i < sorted.len()
        invariant
            i <= sorted@.len(),
            slot(sorted@, *entity) == i + slot(sorted@.skip(i as int), *entity),
        decreases sorted@.len() - i,
    {
        proof {
            assert(sorted@.skip(i as int)[0] == sorted@[i as int]);
            assert(sorted@.skip(i as int).drop_first() =~= sorted@.skip(i + 1));
        }
        if sorted[i].created_at().timestamp_millis() < entity.created_at().timestamp_millis() {
            return i;
        }
        i += 1;
    }
    i
}

/// Puts the newest first.
fn sort_newest_first<T: ModelExt>(docs: Vec<T>) -> (sorted: Vec<T>)
    ensures
        sorted@ == newest_first(docs@),
{
    let mut sorted: Vec<T> = Vec::new();
    let mut i: usize = 0;
    assert(docs@.take(0) =~= Seq::<T>::empty());
    while i < docs.len()
        invariant
            i <= docs@.len(),
            sorted@ == newest_first(docs@.take(i as int)),
        decreases docs@.len() - i,
    {
        proof {
            assert(docs@.take(i + 1).drop_last() =~= docs@.take(i as int));
            assert(docs@.take(i + 1).last() == docs@[i as int]);
        }
        let at = find_slot(&sorted, &docs[i]);
        sorted.insert(at, docs[i].copy());
        i += 1;
    }
    assert(docs@.take(i as int) =~= docs@);
    sorted
}

} // verus!
