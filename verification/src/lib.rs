//! Ingestion core of a link shortener: collision-safe allocation of short
//! codes over a key-value mapping, and a buffered pipeline that batches click
//! events for a transactional bulk load into an analytics store.

pub mod allocator;
pub mod api;
pub mod buffer;
pub mod entities;
pub mod headers;
pub mod id;
pub mod load;
pub mod metrics;
pub mod rows;
pub mod shorten;
pub mod sqlite;
pub mod storage;
pub mod structs;
