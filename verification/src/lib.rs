//! A registry of asset-backed tokens.
//!
//! The registry records token claims, assigns each a fresh sequential id,
//! tracks a one-shot verification flag per record, and keeps aggregate
//! platform statistics in lockstep with the records. Lookups of absent ids
//! are answered with a sentinel record rather than an error. Host concerns
//! (durable storage, caller authentication, the ledger clock) live outside
//! this crate; the operations here take and return plain values.

mod laws;
mod model;
mod records;
mod registry;

pub use laws::lemma_create_preserves_wf;
pub use laws::lemma_monotonic_ids;
pub use laws::lemma_stats_consistent;
pub use laws::lemma_verify_not_found;
pub use laws::lemma_verify_preserves_wf;
pub use laws::lemma_verify_twice;
pub use model::RegistryView;
pub use model::count_verified;
pub use model::sum_asset_value;
pub use model::views_of;
pub use registry::AssetBackedTokenContract;
pub use records::AssetToken;
pub use records::PlatformStats;
pub use records::TokenBook;
pub use records::TokenError;
pub use records::TokenView;
