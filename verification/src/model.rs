//! The escrow rules as a mathematical state machine.
//!
//! [`ContractModel`] is the whole state of the contract; [`ContractModel::step`]
//! says, for every call, whether it is refused (and with which error) or what
//! the next state and the requested effects are. The executable entry points
//! of [`crate::contract::Escrow`] are proved to follow it exactly.

use vstd::prelude::*;

use crate::address::Address;
use crate::fees::{spec_fee, MAX_FEE_BPS};
use crate::types::{
    ContractError, ContractPaused, ContractUnpaused, DisputeData, DisputeStatus, EffectsView,
    EscrowData, EscrowState, Event, FeesWithdrawn, Transfer,
};

verus! {

/// How long after funding a buyer is expected to dispute, in seconds
/// (48 hours). Recorded in each funded escrow as its dispute deadline.
pub const DISPUTE_WINDOW_SECS: u64 = 172800;

/// The contract's whole state.
pub struct ContractModel {
    pub admin: Option<Address>,
    pub fee_collector: Option<Address>,
    /// The id the next escrow will get.
    pub escrow_counter: u32,
    pub paused: bool,
    pub escrows: Map<u32, EscrowData>,
    pub disputes: Map<u32, DisputeData>,
}

/// A call of one of the contract's state-changing entry points, with its
/// arguments. `now` is the ledger time at which the call runs.
pub enum Call {
    Initialize { admin: Address, fee_collector: Address },
    PauseContract { now: u64 },
    UnpauseContract { now: u64 },
    WithdrawFees { token: Address, to: Address, amount: i128, contract_balance: i128, now: u64 },
    CreateEscrow {
        seller: Address,
        resolver: Address,
        token: Address,
        amount: i128,
        fee_bps: u32,
        shipping_window: u64,
    },
    FundEscrow { escrow_id: u32, buyer: Address, now: u64 },
    ConfirmDelivery { escrow_id: u32 },
    RaiseDispute { escrow_id: u32, evidence_hash: Seq<u8>, now: u64 },
    ResolveDispute { escrow_id: u32, release_to_seller: bool },
    AutoRelease { escrow_id: u32, now: u64 },
}

impl Call {
    /// The escrow a call is about, if any.
    pub open spec fn target(self) -> Option<u32> {
        match self {
            Call::FundEscrow { escrow_id, .. } => Some(escrow_id),
            Call::ConfirmDelivery { escrow_id } => Some(escrow_id),
            Call::RaiseDispute { escrow_id, .. } => Some(escrow_id),
            Call::ResolveDispute { escrow_id, .. } => Some(escrow_id),
            Call::AutoRelease { escrow_id, .. } => Some(escrow_id),
            _ => None,
        }
    }

    /// Calls that a pause stops.
    pub open spec fn stopped_by_pause(self) -> bool {
        match self {
            Call::Initialize { .. } => false,
            Call::PauseContract { .. } => false,
            Call::UnpauseContract { .. } => false,
            _ => true,
        }
    }
}

/// The 32-byte array whose bytes are `s`.
pub open spec fn hash_of(s: Seq<u8>) -> [u8; 32] {
    choose|h: [u8; 32]| h@ == s
}

/// Effects with nothing to do.
pub open spec fn no_effects() -> EffectsView {
    EffectsView { auth: None, transfers: Seq::empty(), event: None }
}

/// The transfers that pay out a held escrow to `recipient`: the protocol fee
/// to the fee collector (only when it is not zero), the rest to `recipient`.
/// A record with a negative amount or a fee above the maximum is refused,
/// and so is a fee with no collector to receive it.
pub open spec fn release(
    e: EscrowData,
    recipient: Address,
    collector: Option<Address>,
) -> Result<Seq<Transfer>, ContractError> {
    if e.amount < 0 {
        Err(ContractError::InvalidAmount)
    } else if e.fee_bps > MAX_FEE_BPS {
        Err(ContractError::FeeExceedsMax)
    } else {
        let fee = spec_fee(e.amount as int, e.fee_bps as int);
        if fee > 0 {
            match collector {
                None => Err(ContractError::NotInitialized),
                Some(c) => Ok(
                    seq![
                        Transfer::Payout { token: e.token, to: c, amount: fee as i128 },
                        Transfer::Payout {
                            token: e.token,
                            to: recipient,
                            amount: (e.amount - fee) as i128,
                        },
                    ],
                ),
            }
        } else {
            Ok(seq![Transfer::Payout { token: e.token, to: recipient, amount: e.amount }])
        }
    }
}

/// The sum of the amounts paid out by `ts`.
pub open spec fn paid_out(ts: Seq<Transfer>) -> int
    decreases ts.len(),
{
    if ts.len() == 0 {
        0
    } else {
        let rest = paid_out(ts.drop_last());
        match ts.last() {
            Transfer::Payout { amount, .. } => rest + amount,
            Transfer::Deposit { .. } => rest,
        }
    }
}

/// A newly created escrow.
pub open spec fn new_escrow(
    seller: Address,
    resolver: Address,
    token: Address,
    amount: i128,
    fee_bps: u32,
    shipping_window: u64,
) -> EscrowData {
    EscrowData {
        seller,
        buyer: None,
        resolver,
        token,
        amount,
        fee_bps,
        shipping_window,
        funded_at: 0,
        dispute_deadline: 0,
        state: EscrowState::Pending,
    }
}

/// A well-formed escrow record: its fee is within the maximum, and once
/// funded it has a buyer and a non-negative amount.
pub open spec fn escrow_wf(e: EscrowData) -> bool {
    &&& e.fee_bps <= MAX_FEE_BPS
    &&& e.state != EscrowState::Pending ==> e.buyer is Some && e.amount >= 0
}

impl ContractModel {
    /// A freshly deployed contract.
    pub open spec fn fresh() -> ContractModel {
        ContractModel {
            admin: None,
            fee_collector: None,
            escrow_counter: 1,
            paused: false,
            escrows: Map::empty(),
            disputes: Map::empty(),
        }
    }

    /// The state that every entry point keeps: ids start at 1, every
    /// escrow is well formed, and a disputed escrow has an open dispute.
    pub open spec fn wf(self) -> bool {
        &&& self.escrow_counter >= 1
        &&& forall|id: u32| #[trigger] self.escrows.contains_key(id) ==> escrow_wf(self.escrows[id])
        &&& forall|id: u32|
            #[trigger] self.escrows.contains_key(id) && self.escrows[id].state
                == EscrowState::Disputed ==> self.disputes.contains_key(id)
                && self.disputes[id].status == DisputeStatus::Active
    }

    /// The escrow `id` with `state` as its new state.
    pub open spec fn with_state(self, id: u32, state: EscrowState) -> ContractModel {
        ContractModel {
            escrows: self.escrows.insert(id, EscrowData { state, ..self.escrows[id] }),
            ..self
        }
    }

    pub open spec fn initialize(self, admin: Address, fee_collector: Address) -> Result<
        (ContractModel, EffectsView),
        ContractError,
    > {
        if self.admin is Some {
            Err(ContractError::AlreadyInitialized)
        } else {
            Ok(
                (
                    ContractModel {
                        admin: Some(admin),
                        fee_collector: Some(fee_collector),
                        escrow_counter: 1,
                        paused: false,
                        ..self
                    },
                    no_effects(),
                ),
            )
        }
    }

    pub open spec fn set_paused(self, paused: bool, now: u64) -> Result<
        (ContractModel, EffectsView),
        ContractError,
    > {
        match self.admin {
            None => Err(ContractError::NotInitialized),
            Some(admin) => Ok(
                (
                    ContractModel { paused, ..self },
                    EffectsView {
                        auth: Some(admin),
                        transfers: Seq::empty(),
                        event: Some(
                            if paused {
                                Event::ContractPaused(ContractPaused { admin, timestamp: now })
                            } else {
                                Event::ContractUnpaused(ContractUnpaused { admin, timestamp: now })
                            },
                        ),
                    },
                ),
            ),
        }
    }

    pub open spec fn withdraw_fees(
        self,
        token: Address,
        to: Address,
        amount: i128,
        contract_balance: i128,
        now: u64,
    ) -> Result<(ContractModel, EffectsView), ContractError> {
        if self.paused {
            Err(ContractError::ContractPaused)
        } else {
            match self.admin {
                None => Err(ContractError::NotInitialized),
                Some(admin) => if amount <= 0 {
                    Err(ContractError::InvalidAmount)
                } else if amount > contract_balance {
                    Err(ContractError::InsufficientBalance)
                } else {
                    Ok(
                        (
                            self,
                            EffectsView {
                                auth: Some(admin),
                                transfers: seq![Transfer::Payout { token, to, amount }],
                                event: Some(
                                    Event::FeesWithdrawn(
                                        FeesWithdrawn { token, to, amount, timestamp: now },
                                    ),
                                ),
                            },
                        ),
                    )
                },
            }
        }
    }

    pub open spec fn create_escrow(
        self,
        seller: Address,
        resolver: Address,
        token: Address,
        amount: i128,
        fee_bps: u32,
        shipping_window: u64,
    ) -> Result<(ContractModel, EffectsView), ContractError> {
        if self.paused {
            Err(ContractError::ContractPaused)
        } else if fee_bps > MAX_FEE_BPS {
            Err(ContractError::FeeExceedsMax)
        } else {
            let id = self.escrow_counter;
            Ok(
                (
                    ContractModel {
                        escrow_counter: (id + 1) as u32,
                        escrows: self.escrows.insert(
                            id,
                            new_escrow(seller, resolver, token, amount, fee_bps, shipping_window),
                        ),
                        ..self
                    },
                    EffectsView {
                        auth: Some(seller),
                        transfers: Seq::empty(),
                        event: Some(Event::EscrowCreated { escrow_id: id }),
                    },
                ),
            )
        }
    }

    pub open spec fn fund_escrow(self, id: u32, buyer: Address, now: u64) -> Result<
        (ContractModel, EffectsView),
        ContractError,
    > {
        if self.paused {
            Err(ContractError::ContractPaused)
        } else if !self.escrows.contains_key(id) {
            Err(ContractError::EscrowNotFound)
        } else {
            let e = self.escrows[id];
            if e.state != EscrowState::Pending {
                Err(ContractError::InvalidState)
            } else if e.amount < 0 {
                Err(ContractError::InvalidAmount)
            } else {
                Ok(
                    (
                        ContractModel {
                            escrows: self.escrows.insert(
                                id,
                                EscrowData {
                                    buyer: Some(buyer),
                                    state: EscrowState::Funded,
                                    funded_at: now,
                                    dispute_deadline: (now + DISPUTE_WINDOW_SECS) as u64,
                                    ..e
                                },
                            ),
                            ..self
                        },
                        EffectsView {
                            auth: Some(buyer),
                            transfers: seq![
                                Transfer::Deposit { token: e.token, from: buyer, amount: e.amount },
                            ],
                            event: Some(Event::EscrowFunded { escrow_id: id }),
                        },
                    ),
                )
            }
        }
    }

    pub open spec fn confirm_delivery(self, id: u32) -> Result<
        (ContractModel, EffectsView),
        ContractError,
    > {
        if self.paused {
            Err(ContractError::ContractPaused)
        } else if !self.escrows.contains_key(id) {
            Err(ContractError::EscrowNotFound)
        } else {
            let e = self.escrows[id];
            if e.state != EscrowState::Funded {
                Err(ContractError::InvalidState)
            } else {
                match e.buyer {
                    None => Err(ContractError::EscrowHasNoBuyer),
                    Some(buyer) => match release(e, e.seller, self.fee_collector) {
                        Err(err) => Err(err),
                        Ok(transfers) => Ok(
                            (
                                self.with_state(id, EscrowState::Completed),
                                EffectsView {
                                    auth: Some(buyer),
                                    transfers,
                                    event: Some(Event::DeliveryConfirmed { escrow_id: id }),
                                },
                            ),
                        ),
                    },
                }
            }
        }
    }

    pub open spec fn raise_dispute(self, id: u32, evidence_hash: Seq<u8>, now: u64) -> Result<
        (ContractModel, EffectsView),
        ContractError,
    > {
        if self.paused {
            Err(ContractError::ContractPaused)
        } else if evidence_hash.len() != 32 {
            Err(ContractError::InvalidEvidenceHash)
        } else if !self.escrows.contains_key(id) {
            Err(ContractError::EscrowNotFound)
        } else {
            let e = self.escrows[id];
            if e.state != EscrowState::Funded {
                Err(ContractError::InvalidState)
            } else {
                match e.buyer {
                    None => Err(ContractError::EscrowHasNoBuyer),
                    Some(buyer) => {
                        let h = hash_of(evidence_hash);
                        let s = self.with_state(id, EscrowState::Disputed);
                        Ok(
                            (
                                ContractModel {
                                    disputes: self.disputes.insert(
                                        id,
                                        DisputeData {
                                            escrow_id: id,
                                            evidence_hash: h,
                                            status: DisputeStatus::Active,
                                            raised_at: now,
                                        },
                                    ),
                                    ..s
                                },
                                EffectsView {
                                    auth: Some(buyer),
                                    transfers: Seq::empty(),
                                    event: Some(
                                        Event::DisputeRaised { escrow_id: id, evidence_hash: h },
                                    ),
                                },
                            ),
                        )
                    },
                }
            }
        }
    }

    pub open spec fn resolve_dispute(self, id: u32, release_to_seller: bool) -> Result<
        (ContractModel, EffectsView),
        ContractError,
    > {
        if self.paused {
            Err(ContractError::ContractPaused)
        } else if !self.escrows.contains_key(id) {
            Err(ContractError::EscrowNotFound)
        } else {
            let e = self.escrows[id];
            if e.state != EscrowState::Disputed {
                Err(ContractError::InvalidState)
            } else {
                let recipient = if release_to_seller {
                    Some(e.seller)
                } else {
                    e.buyer
                };
                match recipient {
                    None => Err(ContractError::EscrowHasNoBuyer),
                    Some(r) => match release(e, r, self.fee_collector) {
                        Err(err) => Err(err),
                        Ok(transfers) => if !self.disputes.contains_key(id) {
                            Err(ContractError::DisputeNotFound)
                        } else {
                            let s = self.with_state(
                                id,
                                if release_to_seller {
                                    EscrowState::Completed
                                } else {
                                    EscrowState::Refunded
                                },
                            );
                            Ok(
                                (
                                    ContractModel {
                                        disputes: self.disputes.insert(
                                            id,
                                            DisputeData {
                                                status: DisputeStatus::Resolved,
                                                ..self.disputes[id]
                                            },
                                        ),
                                        ..s
                                    },
                                    EffectsView {
                                        auth: Some(e.resolver),
                                        transfers,
                                        event: Some(
                                            Event::DisputeResolved {
                                                escrow_id: id,
                                                release_to_seller,
                                            },
                                        ),
                                    },
                                ),
                            )
                        },
                    },
                }
            }
        }
    }

    pub open spec fn auto_release(self, id: u32, now: u64) -> Result<
        (ContractModel, EffectsView),
        ContractError,
    > {
        if self.paused {
            Err(ContractError::ContractPaused)
        } else if !self.escrows.contains_key(id) {
            Err(ContractError::EscrowNotFound)
        } else {
            let e = self.escrows[id];
            if e.state != EscrowState::Funded {
                Err(ContractError::InvalidState)
            } else if now < e.funded_at + e.shipping_window {
                Err(ContractError::ShippingWindowNotElapsed)
            } else {
                match release(e, e.seller, self.fee_collector) {
                    Err(err) => Err(err),
                    Ok(transfers) => Ok(
                        (
                            self.with_state(id, EscrowState::Completed),
                            EffectsView {
                                auth: None,
                                transfers,
                                event: Some(Event::AutoReleased { escrow_id: id }),
                            },
                        ),
                    ),
                }
            }
        }
    }

    /// The outcome of `call` on this state: the refusal, or the next state
    /// and what the host must do.
    pub open spec fn step(self, call: Call) -> Result<(ContractModel, EffectsView), ContractError> {
        match call {
            Call::Initialize { admin, fee_collector } => self.initialize(admin, fee_collector),
            Call::PauseContract { now } => self.set_paused(true, now),
            Call::UnpauseContract { now } => self.set_paused(false, now),
            Call::WithdrawFees { token, to, amount, contract_balance, now } => self.withdraw_fees(
                token,
                to,
                amount,
                contract_balance,
                now,
            ),
            Call::CreateEscrow { seller, resolver, token, amount, fee_bps, shipping_window } =>
                self.create_escrow(seller, resolver, token, amount, fee_bps, shipping_window),
            Call::FundEscrow { escrow_id, buyer, now } => self.fund_escrow(escrow_id, buyer, now),
            Call::ConfirmDelivery { escrow_id } => self.confirm_delivery(escrow_id),
            Call::RaiseDispute { escrow_id, evidence_hash, now } => self.raise_dispute(
                escrow_id,
                evidence_hash,
                now,
            ),
            Call::ResolveDispute { escrow_id, release_to_seller } => self.resolve_dispute(
                escrow_id,
                release_to_seller,
            ),
            Call::AutoRelease { escrow_id, now } => self.auto_release(escrow_id, now),
        }
    }

    /// Whether a call can run on this state without an arithmetic overflow
    /// in the counter or in the dispute deadline.
    pub open spec fn call_in_range(self, call: Call) -> bool {
        match call {
            Call::CreateEscrow { .. } => self.escrow_counter < u32::MAX,
            Call::FundEscrow { now, .. } => now + DISPUTE_WINDOW_SECS <= u64::MAX,
            _ => true,
        }
    }
}

} // verus!
