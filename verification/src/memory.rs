//! In-memory storage of serialised values.
//!
//! A [`MemoryStore`] keeps records in-process, keyed by namespace, collection
//! and key, in the order of those three names. It is not durable storage.

use vstd::prelude::*;

use crate::batch::{Batch, BatchOperation, BatchOperationView, BatchResult};
use crate::error::{code_of, ErrorCode, YugenDbError};
use crate::key::{message_of, CollectionName, Key, Namespace};
use crate::options::{DeleteOptions, ReadOptions, ScanOptions, WriteOptions};
use crate::order::{
    chars_of, compare_text, lemma_order_from_antisymmetric,
    lemma_order_from_transitive, lemma_order_zero, starts_with, text_lt, text_order,
    text_starts_with,
};
use crate::store::law_ttl_window;
use crate::time::{duration_nanos, instant, timestamp_le, utc_now, Duration, Timestamp, NANOS_PER_SEC};
use crate::value::{expired_at, StoredValue, StoredValueView};

verus! {

/// Where a record lives: namespace, collection and key.
pub type Identity = (Seq<char>, Seq<char>, Seq<char>);

/// Order on identities: by namespace, then collection, then key.
pub open spec fn identity_order(a: Identity, b: Identity) -> int {
    if text_order(a.0, b.0) != 0 {
        text_order(a.0, b.0)
    } else if text_order(a.1, b.1) != 0 {
        text_order(a.1, b.1)
    } else {
        text_order(a.2, b.2)
    }
}

/// `a` orders strictly before `b`.
pub open spec fn identity_lt(a: Identity, b: Identity) -> bool {
    identity_order(a, b) < 0
}

/// Identity order is antisymmetric and zero exactly on equal identities.
pub proof fn lemma_identity_order(a: Identity, b: Identity)
    ensures
        identity_order(a, b) == -identity_order(b, a),
        (identity_order(a, b) == 0) <==> (a == b),
{
    lemma_order_from_antisymmetric(a.0, b.0, 0);
    lemma_order_from_antisymmetric(a.1, b.1, 0);
    lemma_order_from_antisymmetric(a.2, b.2, 0);
    lemma_order_zero(a.0, b.0);
    lemma_order_zero(a.1, b.1);
    lemma_order_zero(a.2, b.2);
}

/// Identity order is transitive.
pub proof fn lemma_identity_lt_transitive(a: Identity, b: Identity, c: Identity)
    requires
        identity_lt(a, b),
        identity_lt(b, c),
    ensures
        identity_lt(a, c),
{
    lemma_identity_order(a, b);
    lemma_identity_order(b, c);
    lemma_identity_order(a, c);
    lemma_order_zero(a.0, b.0);
    lemma_order_zero(b.0, c.0);
    lemma_order_zero(a.1, b.1);
    lemma_order_zero(b.1, c.1);
    if text_order(a.0, b.0) < 0 && text_order(b.0, c.0) < 0 {
        lemma_order_from_transitive(a.0, b.0, c.0, 0);
    }
    if text_order(a.0, b.0) == 0 && text_order(b.0, c.0) == 0 {
        if text_order(a.1, b.1) < 0 && text_order(b.1, c.1) < 0 {
            lemma_order_from_transitive(a.1, b.1, c.1, 0);
        }
        if text_order(a.1, b.1) == 0 && text_order(b.1, c.1) == 0 {
            lemma_order_from_transitive(a.2, b.2, c.2, 0);
        }
    }
}

/// The namespace, collection and key of a record, as characters.
#[derive(Debug)]
struct StorageKey {
    namespace: Vec<char>,
    collection: Vec<char>,
    key: Vec<char>,
}

impl StorageKey {
    spec fn identity(&self) -> Identity {
        (self.namespace@, self.collection@, self.key@)
    }

    fn new(namespace: &Namespace, collection: &CollectionName, key: &Key) -> (storage_key: Self)
        ensures
            storage_key.identity() == (namespace@, collection@, key@),
    {
        StorageKey {
            namespace: chars_of(namespace.as_str()),
            collection: chars_of(collection.as_str()),
            key: chars_of(key.as_str()),
        }
    }

    fn compare(&self, other: &StorageKey) -> (result: i8)
        ensures
            result as int == identity_order(self.identity(), other.identity()),
    {
        let by_namespace = compare_text(&self.namespace, &other.namespace);
        if by_namespace != 0 {
            return by_namespace;
        }
        let by_collection = compare_text(&self.collection, &other.collection);
        if by_collection != 0 {
            return by_collection;
        }
        compare_text(&self.key, &other.key)
    }
}

/// One retained record.
#[derive(Debug)]
struct Entry {
    storage_key: StorageKey,
    key: Key,
    value: StoredValue,
}

spec fn entry_identity(entry: Entry) -> Identity {
    entry.storage_key.identity()
}

/// Records in strictly increasing identity order, each with its key name.
spec fn sorted_entries(entries: Seq<Entry>) -> bool {
    &&& forall|i: int, j: int|
        0 <= i < j < entries.len() ==> identity_lt(
            #[trigger] entry_identity(entries[i]),
            #[trigger] entry_identity(entries[j]),
        )
    &&& forall|i: int| 0 <= i < entries.len() ==> (#[trigger] entries[i]).key@ == entries[i].storage_key.key@
}

spec fn holds_identity(entries: Seq<Entry>, identity: Identity) -> bool {
    exists|i: int| 0 <= i < entries.len() && entry_identity(entries[i]) == identity
}

spec fn index_of_identity(entries: Seq<Entry>, identity: Identity) -> int {
    choose|i: int| 0 <= i < entries.len() && entry_identity(entries[i]) == identity
}

/// The records as a map from identity to stored value.
spec fn entries_map(entries: Seq<Entry>) -> Map<Identity, StoredValueView> {
    Map::new(
        |identity: Identity| holds_identity(entries, identity),
        |identity: Identity| entries[index_of_identity(entries, identity)].value@,
    )
}

proof fn lemma_map_at(entries: Seq<Entry>, i: int)
    requires
        sorted_entries(entries),
        0 <= i < entries.len(),
    ensures
        entries_map(entries).contains_key(entry_identity(entries[i])),
        entries_map(entries)[entry_identity(entries[i])] == entries[i].value@,
{
    let identity = entry_identity(entries[i]);
    assert(holds_identity(entries, identity));
    let j = index_of_identity(entries, identity);
    if j != i {
        lemma_identity_order(entry_identity(entries[i]), entry_identity(entries[j]));
        if i < j {
            assert(identity_lt(entry_identity(entries[i]), entry_identity(entries[j])));
        } else {
            assert(identity_lt(entry_identity(entries[j]), entry_identity(entries[i])));
        }
    }
}

proof fn lemma_map_insert(entries: Seq<Entry>, i: int, entry: Entry)
    requires
        sorted_entries(entries),
        0 <= i <= entries.len(),
        forall|j: int| 0 <= j < i ==> identity_lt(entry_identity(entries[j]), entry_identity(entry)),
        forall|j: int| i <= j < entries.len() ==> identity_lt(entry_identity(entry), entry_identity(entries[j])),
        entry.key@ == entry.storage_key.key@,
    ensures
        sorted_entries(entries.insert(i, entry)),
        entries_map(entries.insert(i, entry)) == entries_map(entries).insert(entry_identity(entry), entry.value@),
{
    let after = entries.insert(i, entry);
    assert forall|a: int, b: int| 0 <= a < b < after.len() implies identity_lt(
        #[trigger] entry_identity(after[a]),
        #[trigger] entry_identity(after[b]),
    ) by {
        if a < i && b > i {
            assert(after[b] == entries[b - 1]);
        } else if a > i {
            assert(after[a] == entries[a - 1]);
            assert(after[b] == entries[b - 1]);
        }
    }
    let before_map = entries_map(entries);
    let after_map = entries_map(after);
    let expected = before_map.insert(entry_identity(entry), entry.value@);
    assert forall|identity: Identity| #[trigger] after_map.contains_key(identity) <==> expected.contains_key(identity) by {
        if after_map.contains_key(identity) {
            let k = index_of_identity(after, identity);
            if k < i {
                assert(entry_identity(entries[k]) == identity);
            } else if k > i {
                assert(entry_identity(entries[k - 1]) == identity);
            }
        }
        if before_map.contains_key(identity) {
            let k = index_of_identity(entries, identity);
            if k < i {
                assert(entry_identity(after[k]) == identity);
            } else {
                assert(entry_identity(after[k + 1]) == identity);
            }
        }
        if identity == entry_identity(entry) {
            assert(entry_identity(after[i]) == identity);
        }
    }
    assert forall|identity: Identity| #[trigger] after_map.contains_key(identity) implies after_map[identity]
        == expected[identity] by {
        if identity == entry_identity(entry) {
            lemma_map_at(after, i);
        } else {
            let k = index_of_identity(entries, identity);
            lemma_map_at(entries, k);
            if k < i {
                lemma_map_at(after, k);
            } else {
                lemma_map_at(after, k + 1);
            }
        }
    }
    assert(after_map =~= expected);
}

proof fn lemma_map_update(entries: Seq<Entry>, i: int, entry: Entry)
    requires
        sorted_entries(entries),
        0 <= i < entries.len(),
        entry_identity(entry) == entry_identity(entries[i]),
        entry.key@ == entry.storage_key.key@,
    ensures
        sorted_entries(entries.update(i, entry)),
        entries_map(entries.update(i, entry)) == entries_map(entries).insert(entry_identity(entry), entry.value@),
{
    let after = entries.update(i, entry);
    assert forall|a: int, b: int| 0 <= a < b < after.len() implies identity_lt(
        #[trigger] entry_identity(after[a]),
        #[trigger] entry_identity(after[b]),
    ) by {
        assert(entry_identity(after[a]) == entry_identity(entries[a]));
        assert(entry_identity(after[b]) == entry_identity(entries[b]));
    }
    assert forall|a: int| 0 <= a < after.len() implies (#[trigger] after[a]).key@ == after[a].storage_key.key@ by {
        if a != i {
            assert(after[a] == entries[a]);
        }
    }
    assert(sorted_entries(after));
    let before_map = entries_map(entries);
    let after_map = entries_map(after);
    let expected = before_map.insert(entry_identity(entry), entry.value@);
    assert forall|identity: Identity| #[trigger] after_map.contains_key(identity) <==> expected.contains_key(identity) by {
        if after_map.contains_key(identity) {
            let k = index_of_identity(after, identity);
            assert(entry_identity(entries[k]) == identity);
        }
        if before_map.contains_key(identity) {
            let k = index_of_identity(entries, identity);
            assert(entry_identity(after[k]) == identity);
        }
        if identity == entry_identity(entry) {
            assert(entry_identity(after[i]) == identity);
        }
    }
    assert forall|identity: Identity| #[trigger] after_map.contains_key(identity) implies after_map[identity]
        == expected[identity] by {
        let k = index_of_identity(after, identity);
        assert(holds_identity(after, identity));
        assert(entry_identity(after[k]) == identity);
        lemma_map_at(after, k);
        if k != i {
            assert(after[k] == entries[k]);
            lemma_identity_order(entry_identity(entries[k]), entry_identity(entries[i]));
            if k < i {
                assert(identity_lt(entry_identity(entries[k]), entry_identity(entries[i])));
            } else {
                assert(identity_lt(entry_identity(entries[i]), entry_identity(entries[k])));
            }
            lemma_map_at(entries, k);
        }
    }
    assert(after_map =~= expected);
}

proof fn lemma_map_remove(entries: Seq<Entry>, i: int)
    requires
        sorted_entries(entries),
        0 <= i < entries.len(),
    ensures
        sorted_entries(entries.remove(i)),
        entries_map(entries.remove(i)) == entries_map(entries).remove(entry_identity(entries[i])),
{
    let after = entries.remove(i);
    let removed = entry_identity(entries[i]);
    assert forall|a: int, b: int| 0 <= a < b < after.len() implies identity_lt(
        #[trigger] entry_identity(after[a]),
        #[trigger] entry_identity(after[b]),
    ) by {
        if a < i && b >= i {
            assert(after[b] == entries[b + 1]);
        } else if a >= i {
            assert(after[a] == entries[a + 1]);
            assert(after[b] == entries[b + 1]);
        }
    }
    assert forall|a: int| 0 <= a < after.len() implies (#[trigger] after[a]).key@ == after[a].storage_key.key@ by {
        if a >= i {
            assert(after[a] == entries[a + 1]);
        }
    }
    assert(sorted_entries(after));
    let before_map = entries_map(entries);
    let after_map = entries_map(after);
    let expected = before_map.remove(removed);
    assert forall|identity: Identity| #[trigger] after_map.contains_key(identity) <==> expected.contains_key(identity) by {
        if after_map.contains_key(identity) {
            let k = index_of_identity(after, identity);
            if k < i {
                assert(entry_identity(entries[k]) == identity);
                assert(identity_lt(identity, removed));
                lemma_identity_order(identity, removed);
            } else {
                assert(entry_identity(entries[k + 1]) == identity);
                assert(identity_lt(removed, identity));
                lemma_identity_order(identity, removed);
            }
        }
        if expected.contains_key(identity) {
            let k = index_of_identity(entries, identity);
            assert(k != i);
            if k < i {
                assert(entry_identity(after[k]) == identity);
            } else {
                assert(entry_identity(after[k - 1]) == identity);
            }
        }
    }
    assert forall|identity: Identity| #[trigger] after_map.contains_key(identity) implies after_map[identity]
        == expected[identity] by {
        let k = index_of_identity(after, identity);
        lemma_map_at(after, k);
        assert(holds_identity(after, identity));
        assert(entry_identity(after[k]) == identity);
        lemma_identity_order(identity, removed);
        if k < i {
            assert(after[k] == entries[k]);
            assert(identity_lt(entry_identity(entries[k]), removed));
            lemma_map_at(entries, k);
        } else {
            assert(after[k] == entries[k + 1]);
            assert(identity_lt(removed, entry_identity(entries[k + 1])));
            lemma_map_at(entries, k + 1);
        }
        assert(expected[identity] == before_map[identity]);
    }
    assert(after_map =~= expected);
}

/// Whether a value is returned by a read that does or does not accept
/// expired values: it has not expired at `now`, or expired values are accepted.
pub open spec fn visible(value: StoredValueView, include_expired: bool, now: Timestamp) -> bool {
    include_expired || !expired_at(value.expires_at, now)
}

/// What a read of `identity` returns from the records `records`.
pub open spec fn read_result(
    records: Map<Identity, StoredValueView>,
    identity: Identity,
    allow_expired: bool,
    now: Timestamp,
) -> Option<StoredValueView> {
    if records.contains_key(identity) && visible(records[identity], allow_expired, now) {
        Some(records[identity])
    } else {
        None
    }
}

/// Whether a record exists at `identity` and has not expired at `now`.
pub open spec fn is_live(records: Map<Identity, StoredValueView>, identity: Identity, now: Timestamp) -> bool {
    records.contains_key(identity) && !expired_at(records[identity].expires_at, now)
}

/// A write without overwrite is refused where a live record exists.
pub open spec fn write_refused(
    records: Map<Identity, StoredValueView>,
    identity: Identity,
    overwrite: bool,
    now: Timestamp,
) -> bool {
    !overwrite && is_live(records, identity, now)
}

/// Whether an optional stored value holds the expected view.
pub open spec fn holds_view(result: Option<StoredValue>, expected: Option<StoredValueView>) -> bool {
    match (result, expected) {
        (Some(value), Some(view)) => value@ == view,
        (None, None) => true,
        _ => false,
    }
}

/// The message of the conflict reported for a refused overwrite.
pub open spec fn overwrite_refused_message() -> Seq<char> {
    "memory driver refused to overwrite an existing value"@
}

/// The message of the error reported for deleting a missing value that must exist.
pub open spec fn missing_delete_message() -> Seq<char> {
    "memory driver could not delete a missing value"@
}

/// What storing `value` at `identity` does: a refused write reports a
/// conflict and changes nothing; any other write stores the value.
pub open spec fn set_outcome(
    before: Map<Identity, StoredValueView>,
    after: Map<Identity, StoredValueView>,
    identity: Identity,
    value: StoredValueView,
    overwrite: bool,
    now: Timestamp,
    result: Result<(), YugenDbError>,
) -> bool {
    if write_refused(before, identity, overwrite, now) {
        &&& result matches Err(e)
        &&& code_of(e) == ErrorCode::Conflict
        &&& message_of(e) == overwrite_refused_message()
        &&& after == before
    } else {
        &&& result is Ok
        &&& after == before.insert(identity, value)
    }
}

/// What deleting `identity` does: the record is removed; the result says
/// whether one was there, unless one had to be there and was not.
pub open spec fn delete_outcome(
    before: Map<Identity, StoredValueView>,
    after: Map<Identity, StoredValueView>,
    identity: Identity,
    must_exist: bool,
    result: Result<bool, YugenDbError>,
) -> bool {
    &&& after == before.remove(identity)
    &&& if must_exist && !before.contains_key(identity) {
        &&& result matches Err(e)
        &&& code_of(e) == ErrorCode::NotFound
        &&& message_of(e) == missing_delete_message()
    } else {
        result == Ok::<bool, YugenDbError>(before.contains_key(identity))
    }
}

/// The prefix option as characters.
pub open spec fn prefix_view(prefix: Option<String>) -> Option<Seq<char>> {
    match prefix {
        Some(p) => Some(p@),
        None => None,
    }
}

/// Whether the record at `identity` with value `value` belongs in a scan of
/// `namespace` and `collection` for keys starting with `prefix`.
pub open spec fn scan_matches(
    identity: Identity,
    value: StoredValueView,
    namespace: Seq<char>,
    collection: Seq<char>,
    prefix: Option<Seq<char>>,
    include_expired: bool,
    now: Timestamp,
) -> bool {
    &&& identity.0 == namespace
    &&& identity.1 == collection
    &&& (prefix matches Some(p) ==> text_starts_with(identity.2, p))
    &&& visible(value, include_expired, now)
}

/// A scan's result as keys and stored values.
pub open spec fn scan_view(result: Seq<(Key, StoredValue)>) -> Seq<(Seq<char>, StoredValueView)> {
    result.map_values(|item: (Key, StoredValue)| (item.0@, item.1@))
}

/// What a prefix scan returns: the matching records of the collection in
/// increasing key order, as many as the limit allows, starting from the first.
pub open spec fn scan_outcome(
    records: Map<Identity, StoredValueView>,
    namespace: Seq<char>,
    collection: Seq<char>,
    prefix: Option<Seq<char>>,
    limit: Option<usize>,
    include_expired: bool,
    now: Timestamp,
    result: Seq<(Seq<char>, StoredValueView)>,
) -> bool {
    &&& limit matches Some(n) ==> result.len() <= n
    &&& forall|a: int, b: int| 0 <= a < b < result.len() ==> text_lt(#[trigger] result[a].0, #[trigger] result[b].0)
    &&& forall|a: int|
        0 <= a < result.len() ==> {
            let identity = (namespace, collection, (#[trigger] result[a]).0);
            &&& records.contains_key(identity)
            &&& records[identity] == result[a].1
            &&& scan_matches(identity, result[a].1, namespace, collection, prefix, include_expired, now)
        }
    &&& forall|identity: Identity|
        #![trigger records.contains_key(identity)]
        records.contains_key(identity) && scan_matches(
            identity,
            records[identity],
            namespace,
            collection,
            prefix,
            include_expired,
            now,
        ) ==> (exists|a: int| 0 <= a < result.len() && #[trigger] result[a].0 == identity.2) || (limit matches Some(
            n,
        ) && result.len() == n && (n == 0 || text_lt(result[n - 1].0, identity.2)))
}

/// What one batch operation does to the records.
pub open spec fn apply_operation(
    records: Map<Identity, StoredValueView>,
    operation: BatchOperationView,
) -> Map<Identity, StoredValueView> {
    match operation {
        BatchOperationView::Put(namespace, collection, key, value) => records.insert(
            (namespace, collection, key),
            value,
        ),
        BatchOperationView::Delete(namespace, collection, key) => records.remove((namespace, collection, key)),
    }
}

/// What a sequence of batch operations does, applied in order.
pub open spec fn apply_operations(
    records: Map<Identity, StoredValueView>,
    operations: Seq<BatchOperationView>,
) -> Map<Identity, StoredValueView>
    decreases operations.len(),
{
    if operations.len() == 0 {
        records
    } else {
        apply_operation(apply_operations(records, operations.drop_last()), operations.last())
    }
}

/// The number of set operations in a batch.
pub open spec fn put_count(operations: Seq<BatchOperationView>) -> nat
    decreases operations.len(),
{
    if operations.len() == 0 {
        0
    } else {
        put_count(operations.drop_last()) + if operations.last() is Put {
            1nat
        } else {
            0nat
        }
    }
}

/// The number of delete operations in a batch that found a record to remove.
pub open spec fn removal_count(
    records: Map<Identity, StoredValueView>,
    operations: Seq<BatchOperationView>,
) -> nat
    decreases operations.len(),
{
    if operations.len() == 0 {
        0
    } else {
        removal_count(records, operations.drop_last()) + match operations.last() {
            BatchOperationView::Delete(namespace, collection, key) => if apply_operations(
                records,
                operations.drop_last(),
            ).contains_key((namespace, collection, key)) {
                1nat
            } else {
                0nat
            },
            _ => 0nat,
        }
    }
}

/// In-process store of serialised values.
#[derive(Debug)]
pub struct MemoryStore {
    entries: Vec<Entry>,
}

impl View for MemoryStore {
    type V = Map<Identity, StoredValueView>;

    closed spec fn view(&self) -> Map<Identity, StoredValueView> {
        entries_map(self.entries@)
    }
}

impl Default for MemoryStore {
    fn default() -> (store: Self)
        ensures
            store@ == Map::<Identity, StoredValueView>::empty(),
    {
        MemoryStore::new()
    }
}

impl MemoryStore {
    /// The store's internal invariant: records are kept in identity order.
    #[verifier::type_invariant]
    spec fn well_formed(&self) -> bool {
        sorted_entries(self.entries@)
    }

    /// Creates an empty store.
    pub fn new() -> (store: Self)
        ensures
            store@ == Map::<Identity, StoredValueView>::empty(),
    {
        let store = MemoryStore { entries: Vec::new() };
        assert(store@ =~= Map::<Identity, StoredValueView>::empty());
        store
    }

    /// Returns the number of records currently retained. Expired records are
    /// retained until overwritten or deleted.
    pub fn len(&self) -> (len: usize)
        ensures
            len == self@.len(),
            self@.dom().finite(),
    {
        proof {
            use_type_invariant(self);
        }
        proof {
            self.lemma_len();
        }
        self.entries.len()
    }

    proof fn lemma_len(&self)
        requires
            self.well_formed(),
        ensures
            self@.len() == self.entries@.len(),
            self@.dom().finite(),
    {
        let identities = self.entries@.map_values(|entry: Entry| entry_identity(entry));
        assert forall|i: int, j: int| 0 <= i < identities.len() && 0 <= j < identities.len() && i != j implies
            identities[i] != identities[j] by {
            lemma_identity_order(identities[i], identities[j]);
            if i < j {
                assert(identity_lt(entry_identity(self.entries@[i]), entry_identity(self.entries@[j])));
            } else {
                assert(identity_lt(entry_identity(self.entries@[j]), entry_identity(self.entries@[i])));
            }
        }
        assert(identities.no_duplicates());
        identities.unique_seq_to_set();
        assert forall|identity: Identity| self@.dom().contains(identity) <==> identities.to_set().contains(identity) by {
            if self@.dom().contains(identity) {
                let k = index_of_identity(self.entries@, identity);
                assert(holds_identity(self.entries@, identity));
                assert(identities[k] == identity);
            }
            if identities.to_set().contains(identity) {
                let k = choose|k: int| 0 <= k < identities.len() && identities[k] == identity;
                assert(entry_identity(self.entries@[k]) == identity);
            }
        }
        assert(self@.dom() =~= identities.to_set());
    }

    /// Returns true when no records are retained.
    pub fn is_empty(&self) -> (empty: bool)
        ensures
            empty == (self@.len() == 0),
    {
        proof {
            use_type_invariant(self);
        }
        self.len() == 0
    }

    /// Removes all retained records.
    pub fn clear(&mut self)
        ensures
            final(self)@ == Map::<Identity, StoredValueView>::empty(),
    {
        proof {
            use_type_invariant(&*self);
        }
        self.entries = Vec::new();
        assert(self@ =~= Map::<Identity, StoredValueView>::empty());
    }

    /// Finds the position of a record: `Ok` with its index, or `Err` with the
    /// index at which it would be inserted.
    fn find(&self, target: &StorageKey) -> (found: Result<usize, usize>)
        requires
            self.well_formed(),
        ensures
            found matches Ok(i) ==> i < self.entries@.len() && entry_identity(self.entries@[i as int])
                == target.identity(),
            found matches Err(i) ==> i <= self.entries@.len() && (forall|j: int|
                0 <= j < i ==> identity_lt(entry_identity(self.entries@[j]), target.identity())) && (forall|j: int|
                i <= j < self.entries@.len() ==> identity_lt(target.identity(), entry_identity(self.entries@[j]))),
    {
        let mut i: usize = 0;
        while i < self.entries.len()
            invariant
                self.well_formed(),
                i <= self.entries@.len(),
                forall|j: int| 0 <= j < i ==> identity_lt(entry_identity(self.entries@[j]), target.identity()),
            decreases self.entries@.len() - i,
        {
            let order = self.entries[i].storage_key.compare(target);
            proof {
                lemma_identity_order(entry_identity(self.entries@[i as int]), target.identity());
            }
            if order == 0 {
                return Ok(i);
            }
            if order > 0 {
                proof {
                    assert forall|j: int| i <= j < self.entries@.len() implies identity_lt(
                        target.identity(),
                        entry_identity(self.entries@[j]),
                    ) by {
                        if j > i {
                            lemma_identity_lt_transitive(
                                target.identity(),
                                entry_identity(self.entries@[i as int]),
                                entry_identity(self.entries@[j]),
                            );
                        }
                    }
                }
                return Err(i);
            }
            i = i + 1;
        }
        Err(i)
    }

    proof fn lemma_absent(&self, target: Identity, i: int)
        requires
            self.well_formed(),
            0 <= i <= self.entries@.len(),
            forall|j: int| 0 <= j < i ==> identity_lt(entry_identity(self.entries@[j]), target),
            forall|j: int| i <= j < self.entries@.len() ==> identity_lt(target, entry_identity(self.entries@[j])),
        ensures
            !self@.contains_key(target),
    {
        if self@.contains_key(target) {
            let k = index_of_identity(self.entries@, target);
            assert(holds_identity(self.entries@, target));
            lemma_identity_order(target, target);
            if k < i {
                assert(identity_lt(entry_identity(self.entries@[k]), target));
            } else {
                assert(identity_lt(target, entry_identity(self.entries@[k])));
            }
        }
    }

    /// Reads the record at namespace, collection and key as of `now`. An
    /// expired record is returned only when `options.allow_expired` is set.
    pub fn get_at(
        &self,
        namespace: &Namespace,
        collection: &CollectionName,
        key: &Key,
        options: &ReadOptions,
        now: Timestamp,
    ) -> (result: Option<StoredValue>)
        ensures
            holds_view(result, read_result(self@, (namespace@, collection@, key@), options.allow_expired, now)),
    {
        proof {
            use_type_invariant(self);
        }
        let target = StorageKey::new(namespace, collection, key);
        match self.find(&target) {
            Ok(i) => {
                proof {
                    lemma_map_at(self.entries@, i as int);
                }
                let entry = &self.entries[i];
                if entry.value.is_expired_at(now) && !options.allow_expired {
                    None
                } else {
                    Some(entry.value.clone())
                }
            },
            Err(i) => {
                proof {
                    self.lemma_absent(target.identity(), i as int);
                }
                None
            },
        }
    }

    /// Reads the record at namespace, collection and key as of the current time.
    pub fn get(
        &self,
        namespace: &Namespace,
        collection: &CollectionName,
        key: &Key,
        options: &ReadOptions,
    ) -> (result: Option<StoredValue>)
        ensures
            exists|now: Timestamp|
                now.nanos < NANOS_PER_SEC && holds_view(
                    result,
                    #[trigger] read_result(self@, (namespace@, collection@, key@), options.allow_expired, now),
                ),
    {
        proof {
            use_type_invariant(self);
        }
        let now = utc_now();
        self.get_at(namespace, collection, key, options, now)
    }

    /// Returns whether a record exists at namespace, collection and key and has
    /// not expired at `now`.
    pub fn contains_live_at(&self, namespace: &Namespace, collection: &CollectionName, key: &Key, now: Timestamp) -> (found: bool)
        ensures
            found == is_live(self@, (namespace@, collection@, key@), now),
    {
        proof {
            use_type_invariant(self);
        }
        let target = StorageKey::new(namespace, collection, key);
        match self.find(&target) {
            Ok(i) => {
                proof {
                    lemma_map_at(self.entries@, i as int);
                }
                !self.entries[i].value.is_expired_at(now)
            },
            Err(i) => {
                proof {
                    self.lemma_absent(target.identity(), i as int);
                }
                false
            },
        }
    }

    /// Returns whether a live record exists as of the current time.
    pub fn contains_live(&self, namespace: &Namespace, collection: &CollectionName, key: &Key) -> (found: bool)
        ensures
            exists|now: Timestamp|
                now.nanos < NANOS_PER_SEC && found == #[trigger] is_live(self@, (namespace@, collection@, key@), now),
    {
        proof {
            use_type_invariant(self);
        }
        self.contains_live_at(namespace, collection, key, utc_now())
    }

    /// Stores `value` at namespace, collection and key, replacing any record
    /// there, and returns whether one was replaced.
    fn insert(&mut self, namespace: &Namespace, collection: &CollectionName, key: &Key, value: StoredValue) -> (replaced: bool)
        requires
            old(self).well_formed(),
        ensures
            final(self).well_formed(),
            final(self)@ == old(self)@.insert((namespace@, collection@, key@), value@),
            replaced == old(self)@.contains_key((namespace@, collection@, key@)),
    {
        let target = StorageKey::new(namespace, collection, key);
        let ghost identity = target.identity();
        let entry = Entry { storage_key: target, key: key.clone(), value };
        match self.find(&entry.storage_key) {
            Ok(i) => {
                proof {
                    lemma_map_update(self.entries@, i as int, entry);
                    lemma_map_at(self.entries@, i as int);
                }
                let mut entries: Vec<Entry> = Vec::new();
                std::mem::swap(&mut entries, &mut self.entries);
                entries.set(i, entry);
                self.entries = entries;
                true
            },
            Err(i) => {
                proof {
                    self.lemma_absent(identity, i as int);
                    lemma_map_insert(self.entries@, i as int, entry);
                }
                let mut entries: Vec<Entry> = Vec::new();
                std::mem::swap(&mut entries, &mut self.entries);
                entries.insert(i, entry);
                self.entries = entries;
                false
            },
        }
    }

    fn remove(&mut self, namespace: &Namespace, collection: &CollectionName, key: &Key) -> (removed: bool)
        requires
            old(self).well_formed(),
        ensures
            final(self).well_formed(),
            final(self)@ == old(self)@.remove((namespace@, collection@, key@)),
            removed == old(self)@.contains_key((namespace@, collection@, key@)),
    {
        let target = StorageKey::new(namespace, collection, key);
        match self.find(&target) {
            Ok(i) => {
                proof {
                    lemma_map_remove(self.entries@, i as int);
                    lemma_map_at(self.entries@, i as int);
                }
                let mut entries: Vec<Entry> = Vec::new();
                std::mem::swap(&mut entries, &mut self.entries);
                entries.remove(i);
                self.entries = entries;
                true
            },
            Err(i) => {
                proof {
                    self.lemma_absent(target.identity(), i as int);
                    assert(self@.remove(target.identity()) =~= self@);
                }
                false
            },
        }
    }

    /// Stores `value` at namespace, collection and key as of `now`. Without
    /// `options.overwrite`, a record that exists and has not expired is kept
    /// and a conflict is reported.
    pub fn set_at(
        &mut self,
        namespace: &Namespace,
        collection: &CollectionName,
        key: &Key,
        value: StoredValue,
        options: &WriteOptions,
        now: Timestamp,
    ) -> (result: Result<(), YugenDbError>)
        ensures
            set_outcome(old(self)@, final(self)@, (namespace@, collection@, key@), value@, options.overwrite, now, result),
    {
        proof {
            use_type_invariant(&*self);
        }
        if !options.overwrite && self.contains_live_at(namespace, collection, key, now) {
            proof {
                reveal_strlit("memory driver refused to overwrite an existing value");
            }
            return Err(YugenDbError::conflict("memory driver refused to overwrite an existing value"));
        }
        self.insert(namespace, collection, key, value);
        Ok(())
    }

    /// Stores `value` at namespace, collection and key as of the current time.
    pub fn set(
        &mut self,
        namespace: &Namespace,
        collection: &CollectionName,
        key: &Key,
        value: StoredValue,
        options: &WriteOptions,
    ) -> (result: Result<(), YugenDbError>)
        ensures
            exists|now: Timestamp|
                now.nanos < NANOS_PER_SEC && #[trigger] set_outcome(
                    old(self)@,
                    final(self)@,
                    (namespace@, collection@, key@),
                    value@,
                    options.overwrite,
                    now,
                    result,
                ),
    {
        proof {
            use_type_invariant(&*self);
        }
        let now = utc_now();
        self.set_at(namespace, collection, key, value, options, now)
    }

    /// Deletes the record at namespace, collection and key, expired or not, and
    /// returns whether one was removed. With `options.must_exist`, deleting a
    /// missing record reports that it was not found.
    pub fn delete(
        &mut self,
        namespace: &Namespace,
        collection: &CollectionName,
        key: &Key,
        options: &DeleteOptions,
    ) -> (result: Result<bool, YugenDbError>)
        ensures
            delete_outcome(old(self)@, final(self)@, (namespace@, collection@, key@), options.must_exist, result),
    {
        proof {
            use_type_invariant(&*self);
        }
        let removed = self.remove(namespace, collection, key);
        if options.must_exist && !removed {
            proof {
                reveal_strlit("memory driver could not delete a missing value");
            }
            return Err(YugenDbError::not_found("memory driver could not delete a missing value"));
        }
        Ok(removed)
    }

    /// Scans the records of a collection, as of `now`, whose keys start with
    /// `options.prefix`, in increasing key order, keeping at most
    /// `options.limit` of them. Expired records are skipped unless
    /// `options.include_expired` is set.
    pub fn scan_prefix_at(
        &self,
        namespace: &Namespace,
        collection: &CollectionName,
        options: &ScanOptions,
        now: Timestamp,
    ) -> (result: Vec<(Key, StoredValue)>)
        ensures
            scan_outcome(
                self@,
                namespace@,
                collection@,
                prefix_view(options.prefix),
                options.limit,
                options.include_expired,
                now,
                scan_view(result@),
            ),
    {
        proof {
            use_type_invariant(self);
        }
        let namespace_chars = chars_of(namespace.as_str());
        let collection_chars = chars_of(collection.as_str());
        let prefix_chars: Option<Vec<char>> = match &options.prefix {
            Some(p) => Some(chars_of(p.as_str())),
            None => None,
        };
        let ghost prefix = prefix_view(options.prefix);
        let ghost ns = namespace@;
        let ghost coll = collection@;
        let mut results: Vec<(Key, StoredValue)> = Vec::new();
        let ghost mut sources: Seq<int> = Seq::empty();
        let mut i: usize = 0;
        while i < self.entries.len()
            invariant
                self.well_formed(),
                i <= self.entries@.len(),
                namespace_chars@ == ns,
                collection_chars@ == coll,
                prefix == prefix_view(options.prefix),
                match prefix_chars {
                    Some(p) => prefix == Some(p@),
                    None => prefix is None,
                },
                sources.len() == results@.len(),
                forall|a: int| 0 <= a < sources.len() ==> 0 <= #[trigger] sources[a] < i,
                forall|a: int, b: int| 0 <= a < b < sources.len() ==> #[trigger] sources[a] < #[trigger] sources[b],
                forall|a: int|
                    0 <= a < sources.len() ==> {
                        let entry = self.entries@[#[trigger] sources[a]];
                        &&& entry_identity(entry) == (ns, coll, results@[a].0@)
                        &&& entry.value@ == results@[a].1@
                        &&& scan_matches(entry_identity(entry), entry.value@, ns, coll, prefix, options.include_expired, now)
                    },
                forall|j: int|
                    0 <= j < i && scan_matches(
                        entry_identity(#[trigger] self.entries@[j]),
                        self.entries@[j].value@,
                        ns,
                        coll,
                        prefix,
                        options.include_expired,
                        now,
                    ) ==> exists|a: int| 0 <= a < sources.len() && sources[a] == j,
            decreases self.entries@.len() - i,
        {
            let entry = &self.entries[i];
            let same_namespace = compare_text(&entry.storage_key.namespace, &namespace_chars) == 0;
            let same_collection = compare_text(&entry.storage_key.collection, &collection_chars) == 0;
            let has_prefix = match &prefix_chars {
                Some(p) => starts_with(&entry.storage_key.key, p),
                None => true,
            };
            let shown = options.include_expired || !entry.value.is_expired_at(now);
            proof {
                lemma_order_zero(entry.storage_key.namespace@, ns);
                lemma_order_zero(entry.storage_key.collection@, coll);
            }
            let ghost previous_sources = sources;
            let ghost matched = scan_matches(
                entry_identity(self.entries@[i as int]),
                self.entries@[i as int].value@,
                ns,
                coll,
                prefix,
                options.include_expired,
                now,
            );
            if same_namespace && same_collection && has_prefix && shown {
                let item = (entry.key.clone(), entry.value.clone());
                results.push(item);
                proof {
                    sources = sources.push(i as int);
                    assert(results@[results@.len() - 1] == item);
                }
            }
            proof {
                assert(matched == (same_namespace && same_collection && has_prefix && shown));
                assert forall|j: int|
                    0 <= j < i + 1 && scan_matches(
                        entry_identity(#[trigger] self.entries@[j]),
                        self.entries@[j].value@,
                        ns,
                        coll,
                        prefix,
                        options.include_expired,
                        now,
                    ) implies exists|a: int| 0 <= a < sources.len() && sources[a] == j by {
                    if j < i {
                        let a = choose|a: int| 0 <= a < previous_sources.len() && previous_sources[a] == j;
                        assert(sources[a] == j);
                    } else {
                        assert(sources[sources.len() - 1] == j);
                    }
                }
            }
            i = i + 1;
        }
        let ghost before_limit = results@;
        let ghost all_sources = sources;
        match options.limit {
            Some(limit) => {
                if limit < results.len() {
                    results.truncate(limit);
                }
            },
            None => {},
        }
        proof {
            let view = scan_view(results@);
            // Keys of collected records increase with their position.
            assert forall|a: int, b: int| 0 <= a < b < before_limit.len() implies text_lt(
                before_limit[a].0@,
                before_limit[b].0@,
            ) by {
                let ea = self.entries@[all_sources[a]];
                let eb = self.entries@[all_sources[b]];
                assert(identity_lt(entry_identity(ea), entry_identity(eb)));
                lemma_order_zero(ns, ns);
                lemma_order_zero(coll, coll);
            }
            assert forall|a: int, b: int| 0 <= a < b < view.len() implies text_lt(
                #[trigger] view[a].0,
                #[trigger] view[b].0,
            ) by {
                assert(results@[a] == before_limit[a]);
                assert(results@[b] == before_limit[b]);
            }
            assert forall|a: int| 0 <= a < view.len() implies {
                let identity = (ns, coll, (#[trigger] view[a]).0);
                &&& self@.contains_key(identity)
                &&& self@[identity] == view[a].1
                &&& scan_matches(identity, view[a].1, ns, coll, prefix, options.include_expired, now)
            } by {
                assert(results@[a] == before_limit[a]);
                lemma_map_at(self.entries@, all_sources[a]);
            }
            assert forall|identity: Identity|
                #![trigger self@.contains_key(identity)]
                self@.contains_key(identity) && scan_matches(
                    identity,
                    self@[identity],
                    ns,
                    coll,
                    prefix,
                    options.include_expired,
                    now,
                ) implies (exists|a: int| 0 <= a < view.len() && #[trigger] view[a].0 == identity.2) || (
            options.limit matches Some(n) && view.len() == n && (n == 0 || text_lt(view[n - 1].0, identity.2))) by {
                let j = index_of_identity(self.entries@, identity);
                assert(holds_identity(self.entries@, identity));
                lemma_map_at(self.entries@, j);
                assert(scan_matches(
                    entry_identity(self.entries@[j]),
                    self.entries@[j].value@,
                    ns,
                    coll,
                    prefix,
                    options.include_expired,
                    now,
                ));
                let a = choose|a: int| 0 <= a < all_sources.len() && all_sources[a] == j;
                assert(before_limit[a].0@ == identity.2);
                if a < view.len() {
                    assert(results@[a] == before_limit[a]);
                    assert(view[a].0 == identity.2);
                } else {
                    let n = view.len() as int;
                    if n > 0 {
                        assert(results@[n - 1] == before_limit[n - 1]);
                        assert(text_lt(before_limit[n - 1].0@, before_limit[a].0@));
                    }
                }
            }
        }
        results
    }

    /// Scans the records of a collection as of the current time.
    pub fn scan_prefix(
        &self,
        namespace: &Namespace,
        collection: &CollectionName,
        options: &ScanOptions,
    ) -> (result: Vec<(Key, StoredValue)>)
        ensures
            exists|now: Timestamp|
                now.nanos < NANOS_PER_SEC && #[trigger] scan_outcome(
                    self@,
                    namespace@,
                    collection@,
                    prefix_view(options.prefix),
                    options.limit,
                    options.include_expired,
                    now,
                    scan_view(result@),
                ),
    {
        proof {
            use_type_invariant(self);
        }
        let now = utc_now();
        self.scan_prefix_at(namespace, collection, options, now)
    }

    /// Applies the operations of a batch in order. A set stores its value
    /// whether or not a record exists; a delete removes any record. Returns
    /// the number of sets and the number of deletes that removed a record.
    pub fn batch(&mut self, batch: Batch) -> (result: BatchResult)
        ensures
            final(self)@ == apply_operations(old(self)@, batch@),
            result.set_count == put_count(batch@),
            result.delete_count == removal_count(old(self)@, batch@),
    {
        proof {
            use_type_invariant(&*self);
        }
        let ghost operations_view = batch@;
        let operations = batch.into_operations();
        let mut set_count: usize = 0;
        let mut delete_count: usize = 0;
        let count = operations.len();
        assert(operations_view.len() == count);
        for operation in it: operations
            invariant
                self.well_formed(),
                it.seq().map_values(|operation: BatchOperation| operation@) == operations_view,
                self@ == apply_operations(old(self)@, operations_view.take(it.index() as int)),
                set_count == put_count(operations_view.take(it.index() as int)),
                delete_count == removal_count(old(self)@, operations_view.take(it.index() as int)),
                set_count + delete_count <= it.index(),
                operations_view.len() <= usize::MAX,
        {
            let ghost index = it.index() as int;
            proof {
                assert(operations_view.take(index + 1).drop_last() =~= operations_view.take(index));
                assert(operation@ == operations_view[index]);
                assert(index < operations_view.len());
            }
            match operation {
                BatchOperation::Put { namespace, collection, key, value } => {
                    self.insert(&namespace, &collection, &key, value);
                    set_count = set_count + 1;
                },
                BatchOperation::Delete { namespace, collection, key } => {
                    if self.remove(&namespace, &collection, &key) {
                        delete_count = delete_count + 1;
                    }
                },
            }
        }
        proof {
            assert(operations_view.take(operations_view.len() as int) =~= operations_view);
        }
        BatchResult::new(set_count, delete_count)
    }
}

/// A read after a successful write returns the written value: always when
/// expired values are accepted, and by default while the value has not expired.
pub proof fn law_read_after_write(
    before: Map<Identity, StoredValueView>,
    after: Map<Identity, StoredValueView>,
    identity: Identity,
    value: StoredValueView,
    overwrite: bool,
    now: Timestamp,
)
    requires
        set_outcome(before, after, identity, value, overwrite, now, Ok(())),
    ensures
        read_result(after, identity, true, now) == Some(value),
        !expired_at(value.expires_at, now) ==> read_result(after, identity, false, now) == Some(value),
        expired_at(value.expires_at, now) ==> read_result(after, identity, false, now) is None,
{
}

/// A write never changes what is read at any other namespace, collection or key.
pub proof fn law_write_is_isolated(
    before: Map<Identity, StoredValueView>,
    after: Map<Identity, StoredValueView>,
    identity: Identity,
    value: StoredValueView,
    overwrite: bool,
    now: Timestamp,
    result: Result<(), YugenDbError>,
    other: Identity,
    allow_expired: bool,
    later: Timestamp,
)
    requires
        set_outcome(before, after, identity, value, overwrite, now, result),
        other != identity,
    ensures
        read_result(after, other, allow_expired, later) == read_result(before, other, allow_expired, later),
{
}

/// A write that may overwrite is never refused; one that may not is refused
/// exactly when a live record exists, and then leaves that record in place.
pub proof fn law_overwrite_rule(
    before: Map<Identity, StoredValueView>,
    after: Map<Identity, StoredValueView>,
    identity: Identity,
    value: StoredValueView,
    overwrite: bool,
    now: Timestamp,
    result: Result<(), YugenDbError>,
)
    requires
        set_outcome(before, after, identity, value, overwrite, now, result),
    ensures
        overwrite ==> result is Ok,
        result is Err <==> (!overwrite && is_live(before, identity, now)),
        result is Err ==> read_result(after, identity, false, now) == read_result(before, identity, false, now),
{
}

/// After a delete nothing is read at the deleted namespace, collection and
/// key, and what is read anywhere else is unchanged.
pub proof fn law_delete_removes(
    before: Map<Identity, StoredValueView>,
    after: Map<Identity, StoredValueView>,
    identity: Identity,
    must_exist: bool,
    result: Result<bool, YugenDbError>,
    other: Identity,
    allow_expired: bool,
    now: Timestamp,
)
    requires
        delete_outcome(before, after, identity, must_exist, result),
        other != identity,
    ensures
        read_result(after, identity, allow_expired, now) is None,
        !is_live(after, identity, now),
        read_result(after, other, allow_expired, now) == read_result(before, other, allow_expired, now),
{
}

/// Deleting the same record twice removes it once: the second delete finds
/// nothing, reports so, and changes nothing.
pub proof fn law_delete_twice(
    before: Map<Identity, StoredValueView>,
    middle: Map<Identity, StoredValueView>,
    after: Map<Identity, StoredValueView>,
    identity: Identity,
    first: Result<bool, YugenDbError>,
    second: Result<bool, YugenDbError>,
)
    requires
        delete_outcome(before, middle, identity, false, first),
        delete_outcome(middle, after, identity, false, second),
    ensures
        first == Ok::<bool, YugenDbError>(before.contains_key(identity)),
        second == Ok::<bool, YugenDbError>(false),
        after == middle,
{
    assert(middle.remove(identity) =~= middle);
}

/// A write that stores a record under a new namespace, collection and key
/// adds one record, even one that has already expired; a write over an
/// existing record keeps the count. Expired records are retained and
/// counted, though no default read shows them.
pub proof fn law_write_counts_records(
    before: Map<Identity, StoredValueView>,
    after: Map<Identity, StoredValueView>,
    identity: Identity,
    value: StoredValueView,
    overwrite: bool,
    now: Timestamp,
)
    requires
        before.dom().finite(),
        set_outcome(before, after, identity, value, overwrite, now, Ok(())),
    ensures
        after.dom().finite(),
        !before.contains_key(identity) ==> after.len() == before.len() + 1,
        before.contains_key(identity) ==> after.len() == before.len(),
        expired_at(value.expires_at, now) ==> !is_live(after, identity, now) && after.contains_key(identity),
{
    if before.contains_key(identity) {
        assert(after.dom() =~= before.dom());
    } else {
        assert(after.dom() =~= before.dom().insert(identity));
    }
}

/// A delete that removes a record lowers the count by one.
pub proof fn law_delete_counts_records(
    before: Map<Identity, StoredValueView>,
    after: Map<Identity, StoredValueView>,
    identity: Identity,
    must_exist: bool,
    result: Result<bool, YugenDbError>,
)
    requires
        before.dom().finite(),
        delete_outcome(before, after, identity, must_exist, result),
    ensures
        after.dom().finite(),
        before.contains_key(identity) ==> after.len() + 1 == before.len(),
        !before.contains_key(identity) ==> after.len() == before.len(),
{
    if !before.contains_key(identity) {
        assert(after.dom() =~= before.dom());
    }
}

/// A record is live exactly when a default read returns it.
pub proof fn law_live_iff_readable(records: Map<Identity, StoredValueView>, identity: Identity, now: Timestamp)
    ensures
        is_live(records, identity, now) <==> read_result(records, identity, false, now) is Some,
{
}

/// At any moment, a default read never returns a record that has expired by
/// then, and a read that accepts expired records still returns it; a record
/// that has not expired is returned by both.
pub proof fn law_default_read_hides_expired(records: Map<Identity, StoredValueView>, identity: Identity, now: Timestamp)
    requires
        records.contains_key(identity),
    ensures
        expired_at(records[identity].expires_at, now) ==> read_result(records, identity, false, now) is None,
        expired_at(records[identity].expires_at, now) ==> !is_live(records, identity, now),
        !expired_at(records[identity].expires_at, now) ==> read_result(records, identity, false, now) == Some(
            records[identity],
        ),
        read_result(records, identity, true, now) == Some(records[identity]),
{
}

/// A record whose expiry time has come is absent for a liveness check at
/// that moment and any later one.
pub proof fn law_expired_stays_absent(
    records: Map<Identity, StoredValueView>,
    identity: Identity,
    expires: Timestamp,
    now: Timestamp,
)
    requires
        records.contains_key(identity),
        records[identity].expires_at == Some(expires),
        timestamp_le(expires, now),
    ensures
        !is_live(records, identity, now),
        read_result(records, identity, false, now) is None,
{
}

/// A write without overwrite over a record that has expired at the moment of
/// the write is not refused: it stores the new value, exactly as a write to
/// an empty key does.
pub proof fn law_expired_record_does_not_block_write(
    before: Map<Identity, StoredValueView>,
    after: Map<Identity, StoredValueView>,
    identity: Identity,
    value: StoredValueView,
    now: Timestamp,
    result: Result<(), YugenDbError>,
)
    requires
        set_outcome(before, after, identity, value, false, now, result),
        before.contains_key(identity) ==> expired_at(before[identity].expires_at, now),
    ensures
        result is Ok,
        after == before.insert(identity, value),
        read_result(after, identity, true, now) == Some(value),
{
}

/// A scan that leaves out expired records lists none that has expired at the
/// moment of the scan, and lists every unexpired matching record unless the
/// limit stopped it first.
pub proof fn law_scan_omits_expired(
    records: Map<Identity, StoredValueView>,
    namespace: Seq<char>,
    collection: Seq<char>,
    prefix: Option<Seq<char>>,
    limit: Option<usize>,
    now: Timestamp,
    result: Seq<(Seq<char>, StoredValueView)>,
    key: Seq<char>,
)
    requires
        scan_outcome(records, namespace, collection, prefix, limit, false, now, result),
    ensures
        forall|a: int| 0 <= a < result.len() ==> !expired_at((#[trigger] result[a]).1.expires_at, now),
        records.contains_key((namespace, collection, key)) && expired_at(
            records[(namespace, collection, key)].expires_at,
            now,
        ) ==> forall|a: int| 0 <= a < result.len() ==> (#[trigger] result[a]).0 != key,
        limit is None && records.contains_key((namespace, collection, key)) && !expired_at(
            records[(namespace, collection, key)].expires_at,
            now,
        ) && (prefix matches Some(p) ==> text_starts_with(key, p)) ==> exists|a: int|
            0 <= a < result.len() && (#[trigger] result[a]).0 == key,
{
    assert forall|a: int| 0 <= a < result.len() implies !expired_at((#[trigger] result[a]).1.expires_at, now) by {
        let identity = (namespace, collection, result[a].0);
        assert(scan_matches(identity, result[a].1, namespace, collection, prefix, false, now));
    }
    let identity = (namespace, collection, key);
    if records.contains_key(identity) && expired_at(records[identity].expires_at, now) {
        assert forall|a: int| 0 <= a < result.len() implies (#[trigger] result[a]).0 != key by {
            if result[a].0 == key {
                assert(records[identity] == result[a].1);
            }
        }
    }
    if limit is None && records.contains_key(identity) && !expired_at(records[identity].expires_at, now) && (
    prefix matches Some(p) ==> text_starts_with(key, p)) {
        assert(scan_matches(identity, records[identity], namespace, collection, prefix, false, now));
    }
}

/// A value stamped at the moment `created` with a time-to-live `ttl`, as a
/// write with a time-to-live stamps it, and then stored, is returned by a
/// default read exactly while less than `ttl` has passed since `created`, and
/// always by a read that accepts expired records. With a zero time-to-live it
/// is never returned by a default read from `created` on.
pub proof fn law_ttl_write_then_read(
    before: Map<Identity, StoredValueView>,
    after: Map<Identity, StoredValueView>,
    identity: Identity,
    value: StoredValueView,
    overwrite: bool,
    written: Timestamp,
    created: Timestamp,
    ttl: Duration,
    later: Timestamp,
)
    requires
        created.nanos < NANOS_PER_SEC,
        later.nanos < NANOS_PER_SEC,
        value.expires_at matches Some(t) && instant(t) == instant(created) + duration_nanos(ttl) && t.nanos
            < NANOS_PER_SEC,
        set_outcome(before, after, identity, value, overwrite, written, Ok(())),
    ensures
        read_result(after, identity, false, later) == (if instant(later) < instant(created) + duration_nanos(ttl) {
            Some(value)
        } else {
            None::<StoredValueView>
        }),
        read_result(after, identity, true, later) == Some(value),
        duration_nanos(ttl) == 0 && instant(created) <= instant(later) ==> !is_live(after, identity, later),
{
    law_ttl_window(value, created, ttl, later);
}

/// A set operation in a batch stores its value as a write that may overwrite
/// does, and a delete operation removes as a delete does.
pub proof fn law_batch_steps_are_writes(
    records: Map<Identity, StoredValueView>,
    operations: Seq<BatchOperationView>,
    operation: BatchOperationView,
    now: Timestamp,
)
    ensures
        apply_operations(records, operations.push(operation)) == apply_operation(
            apply_operations(records, operations),
            operation,
        ),
        operation matches BatchOperationView::Put(namespace, collection, key, value) ==> set_outcome(
            apply_operations(records, operations),
            apply_operations(records, operations.push(operation)),
            (namespace, collection, key),
            value,
            true,
            now,
            Ok(()),
        ),
        operation matches BatchOperationView::Delete(namespace, collection, key) ==> delete_outcome(
            apply_operations(records, operations),
            apply_operations(records, operations.push(operation)),
            (namespace, collection, key),
            false,
            Ok(apply_operations(records, operations).contains_key((namespace, collection, key))),
        ),
{
    assert(operations.push(operation).drop_last() =~= operations);
}

/// A batch counts each of its set operations, and a delete only where it
/// removed a record; so its total never exceeds its length.
pub proof fn law_batch_counts(records: Map<Identity, StoredValueView>, operations: Seq<BatchOperationView>)
    ensures
        put_count(operations) + removal_count(records, operations) <= operations.len(),
    decreases operations.len(),
{
    if operations.len() > 0 {
        law_batch_counts(records, operations.drop_last());
    }
}

} // verus!
