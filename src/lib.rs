//! Propagation and agreement of parachain candidates.
//!
//! Authorities are split into groups by parachain. Within a group, authorities
//! pass candidates around and produce signed statements about their validity
//! and availability. A shared table deduplicates incoming statements, decides
//! which candidate data this authority must fetch and check, and binds every
//! signature to the parent block of the round.

pub mod primitives;
pub mod signing;
pub mod context;
pub mod table;
pub mod producer;
pub mod shared;
pub mod roster;
