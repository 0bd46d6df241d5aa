//! Verified core of a ride-hailing dispatcher: grid positions, the
//! leader's offer sequencer, the per-driver trip state machine, the
//! per-process hub with its bully election, the payment ledger and the
//! passenger's session logic.

pub mod position;
pub mod table;
pub mod finder;
pub mod messages;
pub mod trip;
pub mod hub;
pub mod ports;
pub mod payment;
pub mod passenger;
pub mod intake;
pub mod link;
