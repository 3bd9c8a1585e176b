//! Common imports for application code.

pub use crate::batch::{Batch, BatchOperation, BatchResult};
pub use crate::capabilities::Capabilities;
pub use crate::codec::JsonCodec;
pub use crate::error::{ErrorCode, YugenDbError};
pub use crate::key::{CollectionName, Key, Namespace};
pub use crate::memory::MemoryStore;
pub use crate::options::{DeleteOptions, ReadOptions, ScanOptions, WriteOptions};
pub use crate::time::{Duration, Timestamp};
pub use crate::value::{StoredValue, ValueBytes, ValueMetadata};
