//! Client library for a breach-data search service: compiles structured queries into the
//! provider's query syntax, normalises wire records into typed entries, decides page by page
//! how a multi-page search proceeds, and drives the worker that runs scheduled searches one
//! at a time.

pub mod auth;
pub mod dispatch;
pub mod entry;
pub mod error;
pub mod fetch;
pub mod query;

pub use auth::Credentials;
pub use dispatch::{Worker, WorkerAction, WorkerEvent, WorkerState, QUEUE_CAPACITY, REQUEST_DELAY_MS};
pub use entry::{Entry, IpAddress, Response, SearchEntry, SearchResult};
pub use error::DehashedError;
pub use fetch::{PageRequest, Search, Step, PAGE_DELAY_MS, PAGE_SIZE};
pub use query::{escape, Query, SearchType};
