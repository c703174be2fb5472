//! A client session for a Seaport-style order matching service.
//!
//! The crate models typed orders, computes the typed-data signing digest of an
//! order under a signing domain, signs it with a held key, and assembles the
//! numbered JSON-RPC envelopes of a session together with the channel each one
//! belongs on. Sending and receiving are left to the caller.

pub mod bytes;
pub mod eip712;
pub mod hex;
pub mod json;
pub mod keccak;
pub mod numbering;
pub mod primitives;
pub mod provider;
pub mod rpc;
pub mod seaport;
pub mod separation;
pub mod signing;

pub use crate::eip712::{digest, Digest32};
pub use crate::provider::{AoriProvider, EnvConfig, Outbound, ProviderError};
pub use crate::seaport::{
    resolve_domain, ConsiderationItem, DomainDescriptor, ItemType, OfferItem, OrderComponents,
    OrderType,
};
