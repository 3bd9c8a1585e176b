//! yugendb: a typed key-value and document storage layer.
//!
//! Applications store serialised values by namespace, collection and key:
//! `namespace + collection + key -> serialised typed value`.
//!
//! This crate holds the storage model and its rules: validated names,
//! stored values and their expiry, batches, the in-memory store, the Redis
//! keyspace, schema descriptions and driver configuration.

pub mod batch;
pub mod capabilities;
pub mod codec;
pub mod error;
pub mod key;
pub mod keyspace;
pub mod locks;
pub mod memory;
pub mod mongodb_driver;
pub mod mysql_driver;
pub mod options;
pub mod order;
pub mod postgres_schema;
pub mod record;
pub mod prelude;
pub mod redis_driver;
pub mod sqlite_driver;
pub mod store;
pub mod time;
pub mod value;

pub use batch::{Batch, BatchOperation, BatchResult};
pub use capabilities::Capabilities;
pub use codec::JsonCodec;
pub use error::{ErrorCode, YugenDbError};
pub use key::{CollectionName, Key, Namespace};
pub use memory::MemoryStore;
pub use options::{DeleteOptions, ReadOptions, ScanOptions, WriteOptions};
pub use time::{Duration, Timestamp};
pub use value::{StoredValue, ValueBytes, ValueMetadata};
