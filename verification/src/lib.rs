//! Data-access core of a small content-management backend: a single
//! serialization point that mediates all reads and writes to a persistent
//! store for two entity kinds (content pages, administrative users),
//! fronted by a time-bounded cache.
//!
//! The surrounding process wires this core to its collaborators: an async
//! runtime drains one command at a time from a bounded queue, a relational
//! store executes the typed read/write requests this core plans, and a
//! background task drives the periodic cache sweep.

pub mod cache;
mod clock;
pub mod command;
pub mod error;
pub mod html;
pub mod laws;
pub mod process;
pub mod schema;

pub use cache::Cache;
pub use command::DatabaseMpscCommand;
pub use error::DataError;
pub use schema::AdminUser;
pub use schema::Page;
