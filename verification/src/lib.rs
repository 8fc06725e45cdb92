//! Identifiers for a multi-tenant, horizontally shardable storage service.
//!
//! A tenant's data may be split across up to 256 shards.  Every unit of work
//! names which tenant it belongs to, which shard it is, and how many shards
//! the tenant has in total.  Two encodings are supported side by side: a
//! human-readable hex form (URLs, logs, paths) and a compact fixed-size
//! binary form (wire structures), both proved to round-trip.
//!
//! A shard count of zero is a reserved sentinel for tenants that predate
//! sharding: such identifiers encode as the bare tenant id, so systems built
//! before sharding keep working unchanged.

pub mod hexcode;
pub mod shard;
pub mod tenant_id;
pub mod tenant_shard_id;

pub use hexcode::ParseError;
pub use shard::{
    ShardConfigError, ShardCount, ShardIdentity, ShardIndex, ShardLayout, ShardNumber,
    ShardStripeSize, DEFAULT_STRIPE_SIZE_PAGES, LAYOUT_V1,
};
pub use tenant_id::TenantId;
pub use tenant_shard_id::TenantShardId;
