use vstd::prelude::*;

use crate::address::Address;

verus! {

/// Where an escrow stands in its life.
#[derive(Debug, Clone, Copy, PartialEq, Eq, Structural)]
pub enum EscrowState {
    /// Created by the seller, waiting for a buyer's deposit.
    Pending,
    /// The buyer's deposit is held by the contract.
    Funded,
    /// The deposit went to the seller.
    Completed,
    /// The buyer disputed the delivery; the resolver decides.
    Disputed,
    /// The deposit went back to the buyer.
    Refunded,
}

/// Why an entry point refused a call.
#[derive(Debug, Clone, Copy, PartialEq, Eq, Structural)]
pub enum ContractError {
    InvalidAmount,
    InsufficientBalance,
    EscrowNotFound,
    InvalidState,
    NotAuthorized,
    AlreadyInitialized,
    FeeExceedsMax,
    EscrowHasNoBuyer,
    ShippingWindowNotElapsed,
    InvalidEvidenceHash,
    DisputeNotFound,
    ContractPaused,
    /// The contract was never initialised: there is no admin, or no fee
    /// collector to pay a fee to.
    NotInitialized,
}

/// The keys under which the contract keeps its state.
#[derive(Debug, Clone, Copy, PartialEq, Eq, Structural)]
pub enum DataKey {
    Admin,
    Escrow(u32),
    EscrowCount,
    EscrowCounter,
    FeeCollector,
    Dispute(u32),
    Paused,
}

/// Whether a dispute still waits for the resolver.
#[derive(Debug, Clone, Copy, PartialEq, Eq, Structural)]
pub enum DisputeStatus {
    Active,
    Resolved,
}

/// One escrow: what the seller offers, who pays, and where it stands.
#[derive(Debug, PartialEq, Eq)]
pub struct EscrowData {
    pub seller: Address,
    pub buyer: Option<Address>,
    pub resolver: Address,
    pub token: Address,
    pub amount: i128,
    pub fee_bps: u32,
    pub shipping_window: u64,
    pub funded_at: u64,
    pub dispute_deadline: u64,
    pub state: EscrowState,
}

impl Clone for EscrowData {
    fn clone(&self) -> (res: Self)
        ensures
            res == *self,
    {
        let buyer = match &self.buyer {
            Some(b) => Some(b.clone()),
            None => None,
        };
        EscrowData {
            seller: self.seller.clone(),
            buyer,
            resolver: self.resolver.clone(),
            token: self.token.clone(),
            amount: self.amount,
            fee_bps: self.fee_bps,
            shipping_window: self.shipping_window,
            funded_at: self.funded_at,
            dispute_deadline: self.dispute_deadline,
            state: self.state,
        }
    }
}

/// The buyer's complaint about an escrow.
#[derive(Debug, Clone, Copy, PartialEq, Eq)]
pub struct DisputeData {
    pub escrow_id: u32,
    pub evidence_hash: [u8; 32],
    pub status: DisputeStatus,
    pub raised_at: u64,
}

/// The protocol fee settings.
#[derive(Debug, PartialEq, Eq)]
pub struct FeeConfig {
    pub collector: Address,
    pub max_fee_bps: u32,
}

/// Published when the admin withdraws fees.
#[derive(Debug, PartialEq, Eq)]
pub struct FeesWithdrawn {
    pub token: Address,
    pub to: Address,
    pub amount: i128,
    pub timestamp: u64,
}

/// Published when the admin pauses the contract.
#[derive(Debug, PartialEq, Eq)]
pub struct ContractPaused {
    pub admin: Address,
    pub timestamp: u64,
}

/// Published when the admin lifts a pause.
#[derive(Debug, PartialEq, Eq)]
pub struct ContractUnpaused {
    pub admin: Address,
    pub timestamp: u64,
}

/// What a successful call publishes.
#[derive(Debug, PartialEq, Eq)]
pub enum Event {
    ContractPaused(ContractPaused),
    ContractUnpaused(ContractUnpaused),
    FeesWithdrawn(FeesWithdrawn),
    EscrowCreated { escrow_id: u32 },
    EscrowFunded { escrow_id: u32 },
    DeliveryConfirmed { escrow_id: u32 },
    DisputeRaised { escrow_id: u32, evidence_hash: [u8; 32] },
    DisputeResolved { escrow_id: u32, release_to_seller: bool },
    AutoReleased { escrow_id: u32 },
}

impl Event {
    /// The topic under which the event is published.
    pub fn topic(&self) -> (t: &'static str)
        ensures
            t@ == self.spec_topic(),
    {
        match self {
            Event::ContractPaused(_) => "contract_paused",
            Event::ContractUnpaused(_) => "contract_unpaused",
            Event::FeesWithdrawn(_) => "fees_withdrawn",
            Event::EscrowCreated { .. } => "create_escrow",
            Event::EscrowFunded { .. } => "fund_escrow",
            Event::DeliveryConfirmed { .. } => "confirm_delivery",
            Event::DisputeRaised { .. } => "raise_dispute",
            Event::DisputeResolved { .. } => "resolve_dispute",
            Event::AutoReleased { .. } => "auto_release",
        }
    }

    pub open spec fn spec_topic(&self) -> Seq<char> {
        match self {
            Event::ContractPaused(_) => "contract_paused"@,
            Event::ContractUnpaused(_) => "contract_unpaused"@,
            Event::FeesWithdrawn(_) => "fees_withdrawn"@,
            Event::EscrowCreated { .. } => "create_escrow"@,
            Event::EscrowFunded { .. } => "fund_escrow"@,
            Event::DeliveryConfirmed { .. } => "confirm_delivery"@,
            Event::DisputeRaised { .. } => "raise_dispute"@,
            Event::DisputeResolved { .. } => "resolve_dispute"@,
            Event::AutoReleased { .. } => "auto_release"@,
        }
    }
}

/// A token movement that a successful call asks the host to make.
#[derive(Debug, PartialEq, Eq)]
pub enum Transfer {
    /// `from` pays `amount` of `token` into the contract.
    Deposit { token: Address, from: Address, amount: i128 },
    /// The contract pays `amount` of `token` to `to`.
    Payout { token: Address, to: Address, amount: i128 },
}

/// What the host must do to carry out a successful call: obtain the
/// authorisation of `auth`, make `transfers` in order, publish `event`.
/// If any of these fails, the call as a whole is undone.
#[derive(Debug, PartialEq, Eq)]
pub struct Effects {
    pub auth: Option<Address>,
    pub transfers: Vec<Transfer>,
    pub event: Option<Event>,
}

/// [`Effects`] as a mathematical value.
pub struct EffectsView {
    pub auth: Option<Address>,
    pub transfers: Seq<Transfer>,
    pub event: Option<Event>,
}

impl View for Effects {
    type V = EffectsView;

    open spec fn view(&self) -> EffectsView {
        EffectsView { auth: self.auth, transfers: self.transfers@, event: self.event }
    }
}

} // verus!
