//! Core of a USB power-delivery sink controller: the logic that, for each
//! physical port, classifies negotiation events, selects the best advertised
//! supply, and decides what each pass of the negotiation loop submits.
//!
//! The physical transceiver, bus bring-up and protocol engine live outside
//! this crate; they hand the library plain events and take plain requests
//! back, so everything here is verified.

pub mod capability;
pub mod negotiation;
pub mod policy;
pub mod session;
