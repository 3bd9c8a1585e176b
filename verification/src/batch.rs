//! Batch operation types.

use vstd::prelude::*;

use crate::key::{CollectionName, Key, Namespace};
use crate::value::{StoredValue, StoredValueView};

verus! {

/// A single batch operation.
#[derive(Debug, Clone, PartialEq, Eq)]
pub enum BatchOperation {
    /// Set a stored value.
    Put {
        /// Target namespace.
        namespace: Namespace,
        /// Target collection.
        collection: CollectionName,
        /// Target key.
        key: Key,
        /// Value to store.
        value: StoredValue,
    },
    /// Delete a stored value.
    Delete {
        /// Target namespace.
        namespace: Namespace,
        /// Target collection.
        collection: CollectionName,
        /// Target key.
        key: Key,
    },
}

/// What a batch operation does, over plain values.
pub enum BatchOperationView {
    /// Set the value at namespace, collection and key.
    Put(Seq<char>, Seq<char>, Seq<char>, StoredValueView),
    /// Delete the value at namespace, collection and key.
    Delete(Seq<char>, Seq<char>, Seq<char>),
}

impl View for BatchOperation {
    type V = BatchOperationView;

    open spec fn view(&self) -> BatchOperationView {
        match self {
            BatchOperation::Put { namespace, collection, key, value } => BatchOperationView::Put(
                namespace@,
                collection@,
                key@,
                value@,
            ),
            BatchOperation::Delete { namespace, collection, key } => BatchOperationView::Delete(
                namespace@,
                collection@,
                key@,
            ),
        }
    }
}

impl BatchOperation {
    /// Creates a set operation.
    pub fn set(namespace: Namespace, collection: CollectionName, key: Key, value: StoredValue) -> (operation: Self)
        ensures
            operation@ == BatchOperationView::Put(namespace@, collection@, key@, value@),
    {
        BatchOperation::Put { namespace, collection, key, value }
    }

    /// Creates a delete operation.
    pub fn delete(namespace: Namespace, collection: CollectionName, key: Key) -> (operation: Self)
        ensures
            operation@ == BatchOperationView::Delete(namespace@, collection@, key@),
    {
        BatchOperation::Delete { namespace, collection, key }
    }
}

/// Ordered batch of write operations.
#[derive(Debug, Clone, PartialEq, Eq)]
pub struct Batch {
    operations: Vec<BatchOperation>,
}

impl View for Batch {
    type V = Seq<BatchOperationView>;

    closed spec fn view(&self) -> Seq<BatchOperationView> {
        self.operations@.map_values(|operation: BatchOperation| operation@)
    }
}

impl Batch {
    /// Creates an empty batch.
    pub fn new() -> (batch: Self)
        ensures
            batch@ == Seq::<BatchOperationView>::empty(),
    {
        let batch = Batch { operations: Vec::new() };
        assert(batch@ =~= Seq::<BatchOperationView>::empty());
        batch
    }

    /// Adds an operation to the end of the batch.
    pub fn push(&mut self, operation: BatchOperation)
        ensures
            final(self)@ == old(self)@.push(operation@),
    {
        self.operations.push(operation);
        assert(self@ =~= old(self)@.push(operation@));
    }

    /// Adds an operation and returns the batch for chaining.
    pub fn with_operation(self, operation: BatchOperation) -> (batch: Self)
        ensures
            batch@ == self@.push(operation@),
    {
        let mut batch = self;
        batch.push(operation);
        batch
    }

    /// Returns all operations.
    pub fn operations(&self) -> (operations: &[BatchOperation])
        ensures
            operations@.map_values(|operation: BatchOperation| operation@) == self@,
    {
        self.operations.as_slice()
    }

    /// Consumes the batch and returns the operations.
    pub fn into_operations(self) -> (operations: Vec<BatchOperation>)
        ensures
            operations@.map_values(|operation: BatchOperation| operation@) == self@,
    {
        self.operations
    }

    /// Returns true when the batch has no operations.
    pub fn is_empty(&self) -> (empty: bool)
        ensures
            empty == (self@.len() == 0),
    {
        self.operations.len() == 0
    }

    /// Returns the number of operations.
    pub fn len(&self) -> (len: usize)
        ensures
            len == self@.len(),
    {
        self.operations.len()
    }
}

impl Default for Batch {
    fn default() -> (batch: Self)
        ensures
            batch@ == Seq::<BatchOperationView>::empty(),
    {
        Batch::new()
    }
}

/// Summary returned after a batch write.
#[derive(Debug, Clone, Copy, Default, PartialEq, Eq, Structural)]
pub struct BatchResult {
    /// Number of set operations applied.
    pub set_count: usize,
    /// Number of delete operations applied.
    pub delete_count: usize,
}

impl BatchResult {
    /// Creates a batch result.
    pub fn new(set_count: usize, delete_count: usize) -> (result: Self)
        ensures
            result.set_count == set_count,
            result.delete_count == delete_count,
    {
        BatchResult { set_count, delete_count }
    }

    /// Returns the total number of affected operations.
    pub fn total_count(self) -> (total: usize)
        requires
            self.set_count + self.delete_count <= usize::MAX,
        ensures
            total == self.set_count + self.delete_count,
    {
        self.set_count + self.delete_count
    }
}

} // verus!
