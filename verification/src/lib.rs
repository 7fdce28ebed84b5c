//! A fixed-catalog vending component: a catalog of seven unique collectible
//! avatars is minted once at instantiation, and a purchase operation swaps a
//! fixed-price fungible payment for one collectible by identifier, handing any
//! excess payment back to the caller.
//!
//! The host ledger owns asset custody: vaults, buckets and resource managers
//! live there, and every operation on them is a call into the host. This
//! library holds the component's own state and decisions as plain values --
//! amounts as integer subunits, non-fungible local identifiers as integers,
//! metadata as character strings -- and proves what instantiation and a
//! purchase do to that state. The thin shell that talks to the ledger
//! converts between these plain values and the host's types.

pub mod avatar;
pub mod vending;
