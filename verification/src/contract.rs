//! The contract's entry points, proved to follow [`ContractModel::step`].

use std::collections::BTreeMap;

use vstd::prelude::*;

use crate::address::Address;
use crate::fees::{fee_amount, MAX_FEE_BPS};
use crate::model::{hash_of, release, Call, ContractModel, DISPUTE_WINDOW_SECS};
use crate::types::{
    ContractError, ContractPaused, ContractUnpaused, DisputeData, DisputeStatus, Effects,
    EffectsView, EscrowData, EscrowState, Event, FeeConfig, FeesWithdrawn, Transfer,
};

verus! {

/// The escrow contract's state, with its entry points as methods.
pub struct Escrow {
    pub admin: Option<Address>,
    pub fee_collector: Option<Address>,
    /// The id the next escrow will get.
    pub escrow_counter: u32,
    pub paused: bool,
    pub escrows: BTreeMap<u32, EscrowData>,
    pub disputes: BTreeMap<u32, DisputeData>,
}

impl View for Escrow {
    type V = ContractModel;

    open spec fn view(&self) -> ContractModel {
        ContractModel {
            admin: self.admin,
            fee_collector: self.fee_collector,
            escrow_counter: self.escrow_counter,
            paused: self.paused,
            escrows: self.escrows@,
            disputes: self.disputes@,
        }
    }
}

/// A call's result agrees with the model's `expected` outcome: on success
/// the new state and the effects are the model's, on refusal the error is
/// the model's and the state did not change.
pub open spec fn follows(
    before: ContractModel,
    after: ContractModel,
    res: Result<Effects, ContractError>,
    expected: Result<(ContractModel, EffectsView), ContractError>,
) -> bool {
    match expected {
        Ok((s, eff)) => after == s && (res matches Ok(r) && r@ == eff),
        Err(e) => after == before && res == Err::<Effects, ContractError>(e),
    }
}

fn clone_opt(a: &Option<Address>) -> (res: Option<Address>)
    ensures
        res == *a,
{
    match a {
        Some(x) => Some(x.clone()),
        None => None,
    }
}

/// The payout transfers for a held escrow (see [`release`]).
fn release_transfers(e: &EscrowData, recipient: Address, collector: &Option<Address>) -> (res:
    Result<Vec<Transfer>, ContractError>)
    ensures
        match release(*e, recipient, *collector) {
            Ok(ts) => (res matches Ok(v) && v@ == ts),
            Err(err) => res == Err::<Vec<Transfer>, ContractError>(err),
        },
{
    if e.amount < 0 {
        return Err(ContractError::InvalidAmount);
    }
    if e.fee_bps > MAX_FEE_BPS {
        return Err(ContractError::FeeExceedsMax);
    }
    let fee = fee_amount(e.amount, e.fee_bps);
    let mut transfers: Vec<Transfer> = Vec::new();
    if fee > 0 {
        match collector {
            None => {
                return Err(ContractError::NotInitialized);
            },
            Some(c) => {
                transfers.push(Transfer::Payout { token: e.token.clone(), to: c.clone(), amount: fee });
            },
        }
    }
    transfers.push(Transfer::Payout { token: e.token.clone(), to: recipient, amount: e.amount - fee });
    assert(transfers@ =~= release(*e, recipient, *collector)->Ok_0);
    Ok(transfers)
}

/// The 32 bytes of `s` as an array.
fn hash_from_slice(s: &[u8]) -> (h: [u8; 32])
    requires
        s@.len() == 32,
    ensures
        h@ == s@,
        h == hash_of(s@),
{
    let mut h: [u8; 32] = [0u8; 32];
    let mut i: usize = 0;
    while i < 32
        invariant
            0 <= i <= 32,
            s@.len() == 32,
            forall|j: int| 0 <= j < i ==> h@[j] == s@[j],
        decreases 32 - i,
    {
        h[i] = s[i];
        i = i + 1;
    }
    assert(h@ =~= s@);
    let ghost c = hash_of(s@);
    assert(c@ == s@);
    assert(h =~= c);
    h
}

impl Escrow {
    /// A freshly deployed contract: no admin, no escrows, not paused.
    pub fn new() -> (c: Escrow)
        ensures
            c@ == ContractModel::fresh(),
    {
        Escrow {
            admin: None,
            fee_collector: None,
            escrow_counter: 1,
            paused: false,
            escrows: BTreeMap::new(),
            disputes: BTreeMap::new(),
        }
    }

    /// Refuses every call while the contract is paused.
    pub fn ensure_not_paused(&self) -> (res: Result<(), ContractError>)
        ensures
            self.paused ==> res == Err::<(), ContractError>(ContractError::ContractPaused),
            !self.paused ==> res is Ok,
    {
        if self.paused {
            Err(ContractError::ContractPaused)
        } else {
            Ok(())
        }
    }

    /// The admin, who must authorise the admin calls.
    pub fn require_admin(&self) -> (res: Result<Address, ContractError>)
        ensures
            match self.admin {
                Some(a) => res == Ok::<Address, ContractError>(a),
                None => res == Err::<Address, ContractError>(ContractError::NotInitialized),
            },
    {
        match &self.admin {
            Some(a) => Ok(a.clone()),
            None => Err(ContractError::NotInitialized),
        }
    }

    /// Sets the admin and the protocol fee collector. Must be called once.
    pub fn initialize(&mut self, admin: Address, fee_collector: Address) -> (res: Result<
        Effects,
        ContractError,
    >)
        ensures
            follows(
                old(self)@,
                final(self)@,
                res,
                old(self)@.step(Call::Initialize { admin, fee_collector }),
            ),
    {
        if self.admin.is_some() {
            return Err(ContractError::AlreadyInitialized);
        }
        self.admin = Some(admin);
        self.fee_collector = Some(fee_collector);
        self.escrow_counter = 1;
        self.paused = false;
        Ok(Effects { auth: None, transfers: Vec::new(), event: None })
    }

    /// Stops every escrow call until the admin unpauses.
    pub fn pause_contract(&mut self, now: u64) -> (res: Result<Effects, ContractError>)
        ensures
            follows(old(self)@, final(self)@, res, old(self)@.step(Call::PauseContract { now })),
            res is Ok ==> final(self).paused,
    {
        let admin = match self.require_admin() {
            Ok(a) => a,
            Err(e) => {
                return Err(e);
            },
        };
        self.paused = true;
        let event = Event::ContractPaused(ContractPaused { admin: admin.clone(), timestamp: now });
        Ok(Effects { auth: Some(admin), transfers: Vec::new(), event: Some(event) })
    }

    /// Lifts a pause.
    pub fn unpause_contract(&mut self, now: u64) -> (res: Result<Effects, ContractError>)
        ensures
            follows(old(self)@, final(self)@, res, old(self)@.step(Call::UnpauseContract { now })),
            res is Ok ==> !final(self).paused,
    {
        let admin = match self.require_admin() {
            Ok(a) => a,
            Err(e) => {
                return Err(e);
            },
        };
        self.paused = false;
        let event = Event::ContractUnpaused(
            ContractUnpaused { admin: admin.clone(), timestamp: now },
        );
        Ok(Effects { auth: Some(admin), transfers: Vec::new(), event: Some(event) })
    }

    /// Pays `amount` of `token` out of the contract to `to`, on the admin's
    /// authority. `contract_balance` is the contract's balance of `token`.
    pub fn withdraw_fees(
        &mut self,
        token: Address,
        to: Address,
        amount: i128,
        contract_balance: i128,
        now: u64,
    ) -> (res: Result<Effects, ContractError>)
        ensures
            follows(
                old(self)@,
                final(self)@,
                res,
                old(self)@.step(Call::WithdrawFees { token, to, amount, contract_balance, now }),
            ),
            res matches Ok(eff) ==> eff.transfers@ == seq![Transfer::Payout { token, to, amount }]
                && final(self)@ == old(self)@,
    {
        if let Err(e) = self.ensure_not_paused() {
            return Err(e);
        }
        let admin = match self.require_admin() {
            Ok(a) => a,
            Err(e) => {
                return Err(e);
            },
        };
        if amount <= 0 {
            return Err(ContractError::InvalidAmount);
        }
        if amount > contract_balance {
            return Err(ContractError::InsufficientBalance);
        }
        let mut transfers: Vec<Transfer> = Vec::new();
        transfers.push(Transfer::Payout { token: token.clone(), to: to.clone(), amount });
        let event = Event::FeesWithdrawn(FeesWithdrawn { token, to, amount, timestamp: now });
        let eff = Effects { auth: Some(admin), transfers, event: Some(event) };
        assert(eff@.transfers =~= seq![
            Transfer::Payout { token: token, to: to, amount: amount },
        ]);
        Ok(eff)
    }

    /// Opens a new escrow in which `seller` offers goods for `amount` of
    /// `token`, and returns its id.
    pub fn create_escrow(
        &mut self,
        seller: Address,
        resolver: Address,
        token: Address,
        amount: i128,
        fee_bps: u32,
        shipping_window: u64,
    ) -> (res: Result<(u32, Effects), ContractError>)
        requires
            old(self)@.call_in_range(
                Call::CreateEscrow { seller, resolver, token, amount, fee_bps, shipping_window },
            ),
        ensures
            ({
                let call = Call::CreateEscrow {
                    seller,
                    resolver,
                    token,
                    amount,
                    fee_bps,
                    shipping_window,
                };
                &&& follows(
                    old(self)@,
                    final(self)@,
                    match res {
                        Ok((_, eff)) => Ok(eff),
                        Err(e) => Err(e),
                    },
                    old(self)@.step(call),
                )
                &&& res matches Ok((id, _)) ==> id == old(self).escrow_counter
            }),
    {
        if let Err(e) = self.ensure_not_paused() {
            return Err(e);
        }
        if fee_bps > MAX_FEE_BPS {
            return Err(ContractError::FeeExceedsMax);
        }
        let escrow_id = self.escrow_counter;
        self.escrow_counter = escrow_id + 1;
        let escrow = EscrowData {
            seller: seller.clone(),
            buyer: None,
            resolver,
            token,
            amount,
            fee_bps,
            shipping_window,
            funded_at: 0,
            dispute_deadline: 0,
            state: EscrowState::Pending,
        };
        self.escrows.insert(escrow_id, escrow);
        let eff = Effects {
            auth: Some(seller),
            transfers: Vec::new(),
            event: Some(Event::EscrowCreated { escrow_id }),
        };
        Ok((escrow_id, eff))
    }

    /// The buyer deposits the escrow's amount and the escrow becomes funded.
    pub fn fund_escrow(&mut self, escrow_id: u32, buyer: Address, now: u64) -> (res: Result<
        Effects,
        ContractError,
    >)
        requires
            old(self)@.call_in_range(Call::FundEscrow { escrow_id, buyer, now }),
        ensures
            follows(
                old(self)@,
                final(self)@,
                res,
                old(self)@.step(Call::FundEscrow { escrow_id, buyer, now }),
            ),
    {
        if let Err(e) = self.ensure_not_paused() {
            return Err(e);
        }
        let escrow = match self.escrows.get(&escrow_id) {
            Some(e) => e.clone(),
            None => {
                return Err(ContractError::EscrowNotFound);
            },
        };
        if escrow.state != EscrowState::Pending {
            return Err(ContractError::InvalidState);
        }
        if escrow.amount < 0 {
            return Err(ContractError::InvalidAmount);
        }
        let mut transfers: Vec<Transfer> = Vec::new();
        transfers.push(
            Transfer::Deposit { token: escrow.token.clone(), from: buyer.clone(), amount: escrow.amount },
        );
        let updated = EscrowData {
            buyer: Some(buyer.clone()),
            state: EscrowState::Funded,
            funded_at: now,
            dispute_deadline: now + DISPUTE_WINDOW_SECS,
            ..escrow
        };
        self.escrows.insert(escrow_id, updated);
        let eff = Effects {
            auth: Some(buyer),
            transfers,
            event: Some(Event::EscrowFunded { escrow_id }),
        };
        proof {
            let expected = old(self)@.step(Call::FundEscrow { escrow_id, buyer, now });
            assert(eff@.transfers =~= expected->Ok_0.1.transfers);
        }
        Ok(eff)
    }

    /// The buyer confirms delivery: the amount, less the protocol fee, goes
    /// to the seller.
    pub fn confirm_delivery(&mut self, escrow_id: u32) -> (res: Result<Effects, ContractError>)
        ensures
            follows(
                old(self)@,
                final(self)@,
                res,
                old(self)@.step(Call::ConfirmDelivery { escrow_id }),
            ),
    {
        if let Err(e) = self.ensure_not_paused() {
            return Err(e);
        }
        let escrow = match self.escrows.get(&escrow_id) {
            Some(e) => e.clone(),
            None => {
                return Err(ContractError::EscrowNotFound);
            },
        };
        if escrow.state != EscrowState::Funded {
            return Err(ContractError::InvalidState);
        }
        let buyer = match &escrow.buyer {
            Some(b) => b.clone(),
            None => {
                return Err(ContractError::EscrowHasNoBuyer);
            },
        };
        let transfers = match release_transfers(&escrow, escrow.seller.clone(), &self.fee_collector) {
            Ok(ts) => ts,
            Err(e) => {
                return Err(e);
            },
        };
        let updated = EscrowData { state: EscrowState::Completed, ..escrow };
        self.escrows.insert(escrow_id, updated);
        Ok(
            Effects {
                auth: Some(buyer),
                transfers,
                event: Some(Event::DeliveryConfirmed { escrow_id }),
            },
        )
    }

    /// The buyer disputes the delivery, with the 32-byte hash of the
    /// evidence. The resolver then decides.
    pub fn raise_dispute(&mut self, escrow_id: u32, evidence_hash: &[u8], now: u64) -> (res:
        Result<Effects, ContractError>)
        ensures
            follows(
                old(self)@,
                final(self)@,
                res,
                old(self)@.step(
                    Call::RaiseDispute { escrow_id, evidence_hash: evidence_hash@, now },
                ),
            ),
            res is Ok ==> final(self).disputes@[escrow_id].evidence_hash@ == evidence_hash@
                && final(self).disputes@[escrow_id].status == DisputeStatus::Active,
    {
        if let Err(e) = self.ensure_not_paused() {
            return Err(e);
        }
        if evidence_hash.len() != 32 {
            return Err(ContractError::InvalidEvidenceHash);
        }
        let escrow = match self.escrows.get(&escrow_id) {
            Some(e) => e.clone(),
            None => {
                return Err(ContractError::EscrowNotFound);
            },
        };
        if escrow.state != EscrowState::Funded {
            return Err(ContractError::InvalidState);
        }
        let buyer = match &escrow.buyer {
            Some(b) => b.clone(),
            None => {
                return Err(ContractError::EscrowHasNoBuyer);
            },
        };
        let h = hash_from_slice(evidence_hash);
        let updated = EscrowData { state: EscrowState::Disputed, ..escrow };
        self.escrows.insert(escrow_id, updated);
        let dispute = DisputeData {
            escrow_id,
            evidence_hash: h,
            status: DisputeStatus::Active,
            raised_at: now,
        };
        self.disputes.insert(escrow_id, dispute);
        Ok(
            Effects {
                auth: Some(buyer),
                transfers: Vec::new(),
                event: Some(Event::DisputeRaised { escrow_id, evidence_hash: h }),
            },
        )
    }

    /// The resolver settles a dispute: the amount, less the protocol fee,
    /// goes to the seller when `release_to_seller`, else back to the buyer.
    pub fn resolve_dispute(&mut self, escrow_id: u32, release_to_seller: bool) -> (res: Result<
        Effects,
        ContractError,
    >)
        ensures
            follows(
                old(self)@,
                final(self)@,
                res,
                old(self)@.step(Call::ResolveDispute { escrow_id, release_to_seller }),
            ),
            res is Ok ==> final(self).disputes@[escrow_id].status == DisputeStatus::Resolved
                && final(self).escrows@[escrow_id].state == (if release_to_seller {
                EscrowState::Completed
            } else {
                EscrowState::Refunded
            }),
    {
        if let Err(e) = self.ensure_not_paused() {
            return Err(e);
        }
        let escrow = match self.escrows.get(&escrow_id) {
            Some(e) => e.clone(),
            None => {
                return Err(ContractError::EscrowNotFound);
            },
        };
        if escrow.state != EscrowState::Disputed {
            return Err(ContractError::InvalidState);
        }
        let recipient = if release_to_seller {
            escrow.seller.clone()
        } else {
            match &escrow.buyer {
                Some(b) => b.clone(),
                None => {
                    return Err(ContractError::EscrowHasNoBuyer);
                },
            }
        };
        let transfers = match release_transfers(&escrow, recipient, &self.fee_collector) {
            Ok(ts) => ts,
            Err(e) => {
                return Err(e);
            },
        };
        let dispute = match self.disputes.get(&escrow_id) {
            Some(d) => *d,
            None => {
                return Err(ContractError::DisputeNotFound);
            },
        };
        let resolver = escrow.resolver.clone();
        let new_state = if release_to_seller {
            EscrowState::Completed
        } else {
            EscrowState::Refunded
        };
        let updated = EscrowData { state: new_state, ..escrow };
        self.escrows.insert(escrow_id, updated);
        self.disputes.insert(escrow_id, DisputeData { status: DisputeStatus::Resolved, ..dispute });
        Ok(
            Effects {
                auth: Some(resolver),
                transfers,
                event: Some(Event::DisputeResolved { escrow_id, release_to_seller }),
            },
        )
    }

    /// Anyone may release a funded escrow to the seller once its shipping
    /// window has passed since funding.
    pub fn auto_release(&mut self, escrow_id: u32, now: u64) -> (res: Result<
        Effects,
        ContractError,
    >)
        ensures
            follows(
                old(self)@,
                final(self)@,
                res,
                old(self)@.step(Call::AutoRelease { escrow_id, now }),
            ),
    {
        if let Err(e) = self.ensure_not_paused() {
            return Err(e);
        }
        let escrow = match self.escrows.get(&escrow_id) {
            Some(e) => e.clone(),
            None => {
                return Err(ContractError::EscrowNotFound);
            },
        };
        if escrow.state != EscrowState::Funded {
            return Err(ContractError::InvalidState);
        }
        if (now as u128) < (escrow.funded_at as u128) + (escrow.shipping_window as u128) {
            return Err(ContractError::ShippingWindowNotElapsed);
        }
        let transfers = match release_transfers(&escrow, escrow.seller.clone(), &self.fee_collector) {
            Ok(ts) => ts,
            Err(e) => {
                return Err(e);
            },
        };
        let updated = EscrowData { state: EscrowState::Completed, ..escrow };
        self.escrows.insert(escrow_id, updated);
        Ok(
            Effects {
                auth: None,
                transfers,
                event: Some(Event::AutoReleased { escrow_id }),
            },
        )
    }

    /// The escrow with id `escrow_id`.
    pub fn get_escrow(&self, escrow_id: u32) -> (res: Result<EscrowData, ContractError>)
        ensures
            self.escrows@.contains_key(escrow_id) ==> res == Ok::<EscrowData, ContractError>(
                self.escrows@[escrow_id],
            ),
            !self.escrows@.contains_key(escrow_id) ==> res == Err::<EscrowData, ContractError>(
                ContractError::EscrowNotFound,
            ),
    {
        match self.escrows.get(&escrow_id) {
            Some(e) => Ok(e.clone()),
            None => Err(ContractError::EscrowNotFound),
        }
    }

    /// The dispute raised on escrow `escrow_id`.
    pub fn get_dispute(&self, escrow_id: u32) -> (res: Result<DisputeData, ContractError>)
        ensures
            self.disputes@.contains_key(escrow_id) ==> res == Ok::<DisputeData, ContractError>(
                self.disputes@[escrow_id],
            ),
            !self.disputes@.contains_key(escrow_id) ==> res == Err::<DisputeData, ContractError>(
                ContractError::DisputeNotFound,
            ),
    {
        match self.disputes.get(&escrow_id) {
            Some(d) => Ok(*d),
            None => Err(ContractError::DisputeNotFound),
        }
    }

    /// The protocol fee configuration: the fee collector and the maximum fee.
    pub fn get_fee_config(&self) -> (res: Result<FeeConfig, ContractError>)
        ensures
            match self.fee_collector {
                Some(c) => res == Ok::<FeeConfig, ContractError>(
                    FeeConfig { collector: c, max_fee_bps: MAX_FEE_BPS },
                ),
                None => res == Err::<FeeConfig, ContractError>(ContractError::NotInitialized),
            },
    {
        match &self.fee_collector {
            Some(c) => Ok(FeeConfig { collector: c.clone(), max_fee_bps: MAX_FEE_BPS }),
            None => Err(ContractError::NotInitialized),
        }
    }
}

} // verus!
