//! SDKWork unified ID generation.
//!
//! This crate provides high-performance, reliable ID generation for SDKWork applications:
//! - **Snowflake**: deterministic, ordered i64 IDs for database primary keys
//! - **UUID**: random v4 or namespace v5 UUIDs for opaque identifiers
//!
//! ## Features
//!
//! - Thread-safe ID generation
//! - Monotonically increasing IDs (Snowflake)
//! - Configurable node IDs for distributed systems
//! - Batch generation support
//! - Clock drift tolerance
//!
//! ## Example
//!
//! ```rust
//! use sdkwork_id_core::{SnowflakeIdGenerator, UuidIdGenerator, IdGenerator};
//!
//! // Snowflake for ordered IDs
//! let snowflake = SnowflakeIdGenerator::new(1).unwrap();
//! let id = snowflake.next_id().unwrap();
//!
//! // UUID for random IDs
//! let uuid = UuidIdGenerator::new("user_");
//! let id = uuid.next_id().unwrap();
//! ```
//!
//! What a request for a Snowflake ID does is stated in [`state`], on plain values; a generator
//! applies it to the state that it shares with its clones. What a lease allows is stated in
//! [`lease`] in the same way. What follows for whole histories is proved in [`laws`];
//! what single requests, leases and texts come to, in plain arithmetic, in [`id_laws`],
//! [`lease_laws`] and [`text_laws`].

pub mod calls;
pub mod clock;
pub mod decimal;
pub mod draw;
pub mod error;
pub mod generator;
pub mod guard;
pub mod id_laws;
pub mod laws;
pub mod layout;
pub mod lease;
pub mod lease_book;
pub mod lease_laws;
pub mod lease_reader;
pub mod ledger;
pub mod pen;
pub mod shared;
pub mod shared_terms;
pub mod snowflake;
pub mod snowflake_error;
pub mod state;
pub mod text_laws;
pub mod uuid_gen;

pub use error::IdGenError;
pub use generator::{generate_batch, IdGenerator};
pub use layout::validate_snowflake_id;
pub use snowflake::{
    current_time_millis, default_snowflake_epoch_millis, default_snowflake_profile,
    max_snowflake_node_id,
};
pub use snowflake::{
    SnowflakeIdError, SnowflakeIdGenerator, SnowflakeLeaseGuard, SnowflakeProfile,
};
pub use uuid_gen::{uuid_v4, uuid_v4_with_prefix, UuidIdGenerator};
