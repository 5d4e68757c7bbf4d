//! An escrow service for token payments between a buyer and a seller.
//!
//! A seller opens an escrow for an amount of some token; a buyer funds it by
//! depositing that amount with the contract. The deposit then goes to the
//! seller when the buyer confirms delivery, or when the shipping window has
//! passed; or, when the buyer disputes the delivery, the resolver sends it
//! to the seller or back to the buyer. A protocol fee of at most 3% is taken
//! from every payout. An admin can pause the contract and withdraw fees.
//!
//! The library holds these rules as a verified state machine: [`model`]
//! states them over mathematical values, [`contract::Escrow`] implements
//! each entry point and is proved to follow the model exactly, and [`laws`]
//! proves what holds across calls. An entry point does nothing outside the
//! state: it reports which account must authorise the call, which token
//! transfers to make and which event to publish, and the host carries these
//! out, undoing the call as a whole when any of them fails.

pub mod address;
pub mod contract;
pub mod fees;
pub mod laws;
pub mod model;
pub mod types;

pub use address::Address;
pub use contract::Escrow;
pub use fees::{fee_amount, BPS_DENOMINATOR, MAX_FEE_BPS};
pub use model::{Call, ContractModel, DISPUTE_WINDOW_SECS};
pub use types::{
    ContractError, ContractPaused, ContractUnpaused, DataKey, DisputeData, DisputeStatus, Effects,
    EscrowData, EscrowState, Event, FeeConfig, FeesWithdrawn, Transfer,
};
