//! State machine of a multi-party atomic-swap escrow.
//!
//! A proposal offers a set of items and accepts one of several alternative
//! "asking" option baskets. Independent deposit and fulfillment calls move
//! single items into custody; the proposal's overall status advances from
//! `Open` to `Deposited` (all offered items in custody) and, on the chosen
//! option's track, to `Fulfilled` (all asking items of the reserved option in
//! custody).
//!
//! The actual asset movement is performed by an external vault transfer
//! gateway; this crate only decides whether a transfer is permitted and what
//! state change a successful transfer causes. The host is expected to
//! serialize all transitions that touch one proposal.

pub mod laws;
pub mod model;
pub mod transfer_assets_to_vault;
pub mod transitions;
