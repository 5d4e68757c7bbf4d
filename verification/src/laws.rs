//! What holds of the escrow rules across calls, proved on the model that
//! the entry points follow.

use vstd::prelude::*;

use crate::address::Address;
use crate::fees::{lemma_fee_bounds, lemma_fee_is_rounded_down, spec_fee, MAX_FEE_BPS};
use crate::model::{escrow_wf, hash_of, new_escrow, paid_out, release, Call, ContractModel};
use crate::types::{
    ContractError, DisputeStatus, EffectsView, EscrowData, EscrowState, Event, FeesWithdrawn,
    Transfer,
};

verus! {

/// The states an escrow may move to from `from` in one call.
pub open spec fn allowed_transition(from: EscrowState, to: EscrowState) -> bool {
    ||| from == to
    ||| from == EscrowState::Pending && to == EscrowState::Funded
    ||| from == EscrowState::Funded && to == EscrowState::Completed
    ||| from == EscrowState::Funded && to == EscrowState::Disputed
    ||| from == EscrowState::Disputed && to == EscrowState::Completed
    ||| from == EscrowState::Disputed && to == EscrowState::Refunded
}

/// A settled escrow: its deposit has been paid out.
pub open spec fn settled(state: EscrowState) -> bool {
    state == EscrowState::Completed || state == EscrowState::Refunded
}

proof fn lemma_paid_out_two(a: Transfer, b: Transfer)
    ensures
        paid_out(seq![a, b]) == paid_out(seq![a]) + match b {
            Transfer::Payout { amount, .. } => amount as int,
            Transfer::Deposit { .. } => 0,
        },
        paid_out(seq![a]) == match a {
            Transfer::Payout { amount, .. } => amount as int,
            Transfer::Deposit { .. } => 0,
        },
{
    assert(seq![a, b].drop_last() =~= seq![a]);
    assert(seq![a].drop_last() =~= Seq::<Transfer>::empty());
    reveal_with_fuel(paid_out, 2);
}

/// Paying out a held escrow moves exactly its amount out of the contract,
/// all of it in the escrow's token and none of it negative: the fee (never
/// more than `MAX_FEE_BPS` basis points of the amount, and taken only when
/// it is not zero) to the collector, the rest to the recipient.
pub proof fn law_release_pays_out_the_amount(
    e: EscrowData,
    recipient: Address,
    collector: Option<Address>,
)
    requires
        release(e, recipient, collector) is Ok,
    ensures
        ({
            let ts = release(e, recipient, collector)->Ok_0;
            let fee = spec_fee(e.amount as int, e.fee_bps as int);
            &&& paid_out(ts) == e.amount
            &&& forall|i: int|
                0 <= i < ts.len() ==> (#[trigger] ts[i] matches Transfer::Payout { token, amount, .. }
                    && token == e.token && amount >= 0)
            &&& 0 <= fee <= e.amount * (MAX_FEE_BPS as int) / 10000
            &&& fee * 10000 <= e.amount * e.fee_bps < (fee + 1) * 10000
            &&& fee == 0 ==> ts == seq![
                Transfer::Payout { token: e.token, to: recipient, amount: e.amount },
            ]
            &&& fee > 0 ==> ts == seq![
                Transfer::Payout { token: e.token, to: collector->Some_0, amount: fee as i128 },
                Transfer::Payout { token: e.token, to: recipient, amount: (e.amount - fee) as i128 },
            ]
        }),
{
    lemma_fee_bounds(e.amount as int, e.fee_bps as int);
    lemma_fee_is_rounded_down(e.amount as int, e.fee_bps as int);
    let fee = spec_fee(e.amount as int, e.fee_bps as int);
    let ts = release(e, recipient, collector)->Ok_0;
    if fee > 0 {
        let a = Transfer::Payout { token: e.token, to: collector->Some_0, amount: fee as i128 };
        let b = Transfer::Payout {
            token: e.token,
            to: recipient,
            amount: (e.amount - fee) as i128,
        };
        lemma_paid_out_two(a, b);
    } else {
        let a = Transfer::Payout { token: e.token, to: recipient, amount: e.amount };
        lemma_paid_out_two(a, a);
    }
}

/// Every call keeps the contract well formed: ids stay positive, every
/// escrow keeps a fee within the maximum, a funded escrow has a buyer and
/// a non-negative amount, and a disputed escrow has an open dispute.
pub proof fn law_every_call_keeps_the_contract_well_formed(s: ContractModel, call: Call)
    requires
        s.wf(),
        s.call_in_range(call),
    ensures
        s.step(call) matches Ok((t, _)) ==> t.wf(),
{
    if let Ok((t, _)) = s.step(call) {
        assert forall|id: u32| #[trigger] t.escrows.contains_key(id) implies escrow_wf(
            t.escrows[id],
        ) by {
            if s.escrows.contains_key(id) {
                assert(escrow_wf(s.escrows[id]));
            }
        }
        assert forall|id: u32|
            #[trigger] t.escrows.contains_key(id) && t.escrows[id].state
                == EscrowState::Disputed implies t.disputes.contains_key(id)
            && t.disputes[id].status == DisputeStatus::Active by {
            if s.escrows.contains_key(id) && s.escrows[id].state == EscrowState::Disputed {
                assert(s.disputes.contains_key(id));
            }
        }
    }
}

/// While the contract is paused, every escrow call and every fee
/// withdrawal is refused with `ContractPaused`.
pub proof fn law_pause_stops_escrow_calls(s: ContractModel, call: Call)
    requires
        s.paused,
        call.stopped_by_pause(),
    ensures
        s.step(call) == Err::<(ContractModel, crate::types::EffectsView), ContractError>(
            ContractError::ContractPaused,
        ),
{
}

/// Pausing and then unpausing gives back the state as it was, unpaused.
pub proof fn law_unpause_undoes_pause(s: ContractModel, t1: u64, t2: u64)
    requires
        s.admin is Some,
    ensures
        s.step(Call::PauseContract { now: t1 }) matches Ok((p, _)) && (p.paused && (p.step(
            Call::UnpauseContract { now: t2 },
        ) matches Ok((u, _)) && u == (ContractModel { paused: false, ..s }))),
{
}

/// Only the admin can pause, unpause or withdraw fees, and only once there
/// is an admin.
pub proof fn law_admin_calls_need_the_admin(s: ContractModel, call: Call)
    requires
        (call matches Call::PauseContract { .. }) || (call matches Call::UnpauseContract { .. })
            || (call matches Call::WithdrawFees { .. }),
    ensures
        s.admin is None ==> s.step(call) is Err,
        s.step(call) matches Ok((_, eff)) ==> eff.auth == s.admin,
{
}

/// `initialize` succeeds once: a second call is refused.
pub proof fn law_initialize_only_once(
    s: ContractModel,
    admin: Address,
    fee_collector: Address,
    admin2: Address,
    fee_collector2: Address,
)
    ensures
        s.step(Call::Initialize { admin, fee_collector }) matches Ok((t, _)) ==> t.step(
            Call::Initialize { admin: admin2, fee_collector: fee_collector2 },
        ) == Err::<(ContractModel, crate::types::EffectsView), ContractError>(
            ContractError::AlreadyInitialized,
        ),
{
}

/// Creating an escrow stores a new pending escrow under the next id, which
/// is then one higher; nothing else changes. Reading it back gives exactly
/// what was created.
pub proof fn law_create_stores_a_pending_escrow_under_the_next_id(
    s: ContractModel,
    seller: Address,
    resolver: Address,
    token: Address,
    amount: i128,
    fee_bps: u32,
    shipping_window: u64,
)
    requires
        s.escrow_counter < u32::MAX,
        !s.paused,
        fee_bps <= MAX_FEE_BPS,
    ensures
        s.step(Call::CreateEscrow { seller, resolver, token, amount, fee_bps, shipping_window })
            matches Ok((t, _)) && t.escrow_counter == s.escrow_counter + 1
            && t.escrows.contains_key(s.escrow_counter) && t.escrows[s.escrow_counter]
            == new_escrow(seller, resolver, token, amount, fee_bps, shipping_window)
            && t.escrows.remove(s.escrow_counter) == s.escrows.remove(s.escrow_counter)
            && t.disputes == s.disputes,
{
}

/// A call about one escrow changes no other escrow and no other dispute.
pub proof fn law_calls_leave_other_escrows_alone(s: ContractModel, call: Call, id: u32)
    requires
        call.target() is Some,
        call.target() != Some(id),
    ensures
        s.step(call) matches Ok((t, _)) ==> {
            &&& t.escrows.contains_key(id) == s.escrows.contains_key(id)
            &&& t.escrows[id] == s.escrows[id]
            &&& t.disputes.contains_key(id) == s.disputes.contains_key(id)
            &&& t.disputes[id] == s.disputes[id]
        },
{
}

/// An escrow moves only forward through its life: pending to funded,
/// funded to completed or disputed, disputed to completed or refunded.
/// Its parties, amount, token and fee never change once it exists.
pub proof fn law_escrows_move_only_forward(s: ContractModel, call: Call, id: u32)
    requires
        s.escrows.contains_key(id),
        !(call matches Call::CreateEscrow { .. }),
    ensures
        s.step(call) matches Ok((t, _)) ==> {
            &&& t.escrows.contains_key(id)
            &&& allowed_transition(s.escrows[id].state, t.escrows[id].state)
            &&& t.escrows[id].seller == s.escrows[id].seller
            &&& t.escrows[id].resolver == s.escrows[id].resolver
            &&& t.escrows[id].token == s.escrows[id].token
            &&& t.escrows[id].amount == s.escrows[id].amount
            &&& t.escrows[id].fee_bps == s.escrows[id].fee_bps
            &&& t.escrows[id].shipping_window == s.escrows[id].shipping_window
            &&& s.escrows[id].state != EscrowState::Pending ==> t.escrows[id].buyer
                == s.escrows[id].buyer
        },
{
}

/// A settled escrow is never paid out, funded or disputed again: every
/// call about it is refused.
pub proof fn law_settled_escrows_are_final(s: ContractModel, call: Call)
    requires
        call.target() is Some,
        s.escrows.contains_key(call.target()->Some_0),
        settled(s.escrows[call.target()->Some_0].state),
    ensures
        s.step(call) is Err,
{
}

/// A dispute can be raised only once on an escrow: raising it again is
/// refused, since the escrow is no longer funded.
pub proof fn law_dispute_is_raised_once(
    s: ContractModel,
    id: u32,
    evidence: Seq<u8>,
    now: u64,
    evidence2: Seq<u8>,
    now2: u64,
)
    requires
        evidence2.len() == 32,
    ensures
        s.step(Call::RaiseDispute { escrow_id: id, evidence_hash: evidence, now }) matches Ok((t, _))
            ==> t.step(Call::RaiseDispute { escrow_id: id, evidence_hash: evidence2, now: now2 })
            == Err::<(ContractModel, crate::types::EffectsView), ContractError>(
            ContractError::InvalidState,
        ),
{
}

/// Funding moves exactly the escrow's amount of its token from the buyer
/// into the contract; settling a held escrow moves exactly that amount out
/// again. What the contract takes in for an escrow it pays out in full.
pub proof fn law_funds_in_equal_funds_out(s: ContractModel, call: Call)
    requires
        call.target() is Some,
        s.escrows.contains_key(call.target()->Some_0),
    ensures
        ({
            let id = call.target()->Some_0;
            let e = s.escrows[id];
            s.step(call) matches Ok((t, eff)) ==> {
                &&& e.state == EscrowState::Pending ==> eff.transfers == seq![
                    Transfer::Deposit { token: e.token, from: t.escrows[id].buyer->Some_0, amount: e.amount },
                ]
                &&& settled(t.escrows[id].state) && !settled(e.state) ==> paid_out(eff.transfers)
                    == e.amount
                &&& !settled(t.escrows[id].state) ==> paid_out(eff.transfers) == 0
            }
        }),
{
    let id = call.target()->Some_0;
    let e = s.escrows[id];
    if let Ok((t, eff)) = s.step(call) {
        match call {
            Call::ConfirmDelivery { .. } => {
                law_release_pays_out_the_amount(e, e.seller, s.fee_collector);
            },
            Call::AutoRelease { .. } => {
                law_release_pays_out_the_amount(e, e.seller, s.fee_collector);
            },
            Call::ResolveDispute { release_to_seller, .. } => {
                let r = if release_to_seller {
                    e.seller
                } else {
                    e.buyer->Some_0
                };
                law_release_pays_out_the_amount(e, r, s.fee_collector);
            },
            Call::FundEscrow { buyer, .. } => {
                reveal_with_fuel(paid_out, 2);
                assert(eff.transfers.drop_last() =~= Seq::<Transfer>::empty());
            },
            _ => {
                assert(paid_out(eff.transfers) == 0) by {
                    assert(eff.transfers =~= Seq::<Transfer>::empty());
                }
            },
        }
    }
}

/// In a well-formed contract the defensive refusals never happen: no held
/// escrow lacks its buyer, no disputed escrow lacks its dispute, and no
/// held escrow has an amount or a fee that cannot be paid out.
pub proof fn law_well_formed_contracts_never_hit_defensive_refusals(s: ContractModel, call: Call)
    requires
        s.wf(),
    ensures
        s.step(call) != Err::<(ContractModel, crate::types::EffectsView), ContractError>(
            ContractError::EscrowHasNoBuyer,
        ),
        s.step(call) != Err::<(ContractModel, crate::types::EffectsView), ContractError>(
            ContractError::DisputeNotFound,
        ),
        !(call matches Call::FundEscrow { .. }) && !(call matches Call::WithdrawFees { .. })
            ==> s.step(call) != Err::<(ContractModel, crate::types::EffectsView), ContractError>(
            ContractError::InvalidAmount,
        ),
        !(call matches Call::CreateEscrow { .. }) ==> s.step(call) != Err::<
            (ContractModel, crate::types::EffectsView),
            ContractError,
        >(ContractError::FeeExceedsMax),
{
    if let Some(id) = call.target() {
        if s.escrows.contains_key(id) {
            assert(escrow_wf(s.escrows[id]));
        }
    }
}

/// Each call names the right party to authorise it: the seller creates,
/// the buyer funds, confirms and disputes, the resolver resolves, and an
/// automatic release needs no one.
pub proof fn law_calls_are_authorised_by_the_right_party(s: ContractModel, call: Call)
    ensures
        s.step(call) matches Ok((_, eff)) ==> match call {
            Call::CreateEscrow { seller, .. } => eff.auth == Some(seller),
            Call::FundEscrow { buyer, .. } => eff.auth == Some(buyer),
            Call::ConfirmDelivery { escrow_id } => eff.auth == s.escrows[escrow_id].buyer,
            Call::RaiseDispute { escrow_id, .. } => eff.auth == s.escrows[escrow_id].buyer,
            Call::ResolveDispute { escrow_id, .. } => eff.auth == Some(
                s.escrows[escrow_id].resolver,
            ),
            Call::AutoRelease { .. } => eff.auth is None,
            Call::Initialize { .. } => eff.auth is None,
            _ => eff.auth == s.admin,
        },
{
}

/// Every stored escrow has an id below the counter, so the next id is free.
pub open spec fn ids_below_counter(s: ContractModel) -> bool {
    forall|id: u32| #[trigger] s.escrows.contains_key(id) ==> id < s.escrow_counter
}

/// Escrow ids are never reused: creating an escrow never overwrites one,
/// and every call keeps all stored ids below the counter. This holds for
/// every call except `initialize` on a contract that already holds
/// escrows, which starts the counter again at 1.
pub proof fn law_escrow_ids_are_never_reused(s: ContractModel, call: Call)
    requires
        ids_below_counter(s),
        s.call_in_range(call),
        call matches Call::Initialize { .. } ==> s.escrows.is_empty(),
    ensures
        call matches Call::CreateEscrow { .. } ==> !s.escrows.contains_key(s.escrow_counter),
        s.step(call) matches Ok((t, _)) ==> ids_below_counter(t),
{
    if let Ok((t, _)) = s.step(call) {
        assert forall|id: u32| #[trigger] t.escrows.contains_key(id) implies id < t.escrow_counter by {
            if s.escrows.contains_key(id) {
                assert(id < s.escrow_counter);
            }
        }
    }
}

spec fn filled(s: Seq<u8>, n: nat) -> [u8; 32]
    decreases n,
{
    if n == 0 {
        vstd::array::spec_array_fill_for_copy_type::<u8, 32>(0u8)
    } else {
        vstd::array::spec_array_update(filled(s, (n - 1) as nat), n - 1, s[n - 1])
    }
}

proof fn lemma_filled(s: Seq<u8>, n: nat)
    requires
        n <= 32,
    ensures
        forall|i: int| 0 <= i < n ==> #[trigger] filled(s, n)@[i] == s[i],
    decreases n,
{
    if n > 0 {
        lemma_filled(s, (n - 1) as nat);
        let prev = filled(s, (n - 1) as nat);
        assert(filled(s, n)@ == prev@.update(n - 1, s[n - 1]));
        assert forall|i: int| 0 <= i < n implies #[trigger] filled(s, n)@[i] == s[i] by {
            if i < n - 1 {
                assert(prev@[i] == s[i]);
            }
        }
    }
}

/// The evidence hash kept for a dispute holds exactly the 32 bytes given.
pub proof fn law_evidence_hash_keeps_the_bytes(s: Seq<u8>)
    requires
        s.len() == 32,
    ensures
        hash_of(s)@ == s,
{
    lemma_filled(s, 32);
    let w = filled(s, 32);
    assert(w@ =~= s);
}

/// A dispute that is raised records the evidence bytes exactly as given,
/// opens it for the resolver, stamps it with the time of the call, and
/// publishes the same bytes; the escrow becomes disputed.
pub proof fn law_raise_dispute_records_the_evidence(
    s: ContractModel,
    id: u32,
    evidence: Seq<u8>,
    now: u64,
)
    ensures
        s.step(Call::RaiseDispute { escrow_id: id, evidence_hash: evidence, now }) matches Ok(
            (t, eff),
        ) ==> {
            &&& evidence.len() == 32
            &&& t.disputes.contains_key(id)
            &&& t.disputes[id].evidence_hash@ == evidence
            &&& t.disputes[id].escrow_id == id
            &&& t.disputes[id].status == DisputeStatus::Active
            &&& t.disputes[id].raised_at == now
            &&& t.escrows[id].state == EscrowState::Disputed
            &&& eff.event matches Some(Event::DisputeRaised { escrow_id, evidence_hash }) && escrow_id
                == id && evidence_hash@ == evidence
        },
{
    if evidence.len() == 32 {
        law_evidence_hash_keeps_the_bytes(evidence);
    }
}

/// Resolving a dispute closes it, whichever way it goes: the dispute is
/// marked resolved, and the escrow is completed when released to the
/// seller and refunded otherwise. The rest of the dispute is kept.
pub proof fn law_resolve_dispute_closes_the_dispute(s: ContractModel, id: u32, release_to_seller: bool)
    ensures
        s.step(Call::ResolveDispute { escrow_id: id, release_to_seller }) matches Ok((t, eff)) ==> {
            &&& t.disputes.contains_key(id)
            &&& t.disputes[id].status == DisputeStatus::Resolved
            &&& t.disputes[id].evidence_hash == s.disputes[id].evidence_hash
            &&& t.disputes[id].raised_at == s.disputes[id].raised_at
            &&& t.disputes[id].escrow_id == s.disputes[id].escrow_id
            &&& s.escrows[id].state == EscrowState::Disputed
            &&& t.escrows[id].state == (if release_to_seller {
                EscrowState::Completed
            } else {
                EscrowState::Refunded
            })
            &&& eff.event == Some(Event::DisputeResolved { escrow_id: id, release_to_seller })
        },
{
}

/// Pausing always leaves the contract paused and unpausing always leaves
/// it unpaused, whatever it was before; nothing else changes.
pub proof fn law_pause_and_unpause_set_the_flag(s: ContractModel, now: u64)
    ensures
        s.step(Call::PauseContract { now }) matches Ok((t, _)) ==> t.paused && t.admin == s.admin
            && t.escrows == s.escrows && t.disputes == s.disputes && t.escrow_counter
            == s.escrow_counter && t.fee_collector == s.fee_collector,
        s.step(Call::UnpauseContract { now }) matches Ok((t, _)) ==> !t.paused && t.admin == s.admin
            && t.escrows == s.escrows && t.disputes == s.disputes && t.escrow_counter
            == s.escrow_counter && t.fee_collector == s.fee_collector,
{
}

/// A fee withdrawal pays out exactly what was asked, of the token asked,
/// to the address asked, only when it is positive and covered by the
/// contract's balance, reports the same in its event, and changes no state.
pub proof fn law_withdraw_fees_pays_exactly_the_request(
    s: ContractModel,
    token: crate::address::Address,
    to: crate::address::Address,
    amount: i128,
    contract_balance: i128,
    now: u64,
)
    ensures
        s.step(Call::WithdrawFees { token, to, amount, contract_balance, now }) matches Ok(
            (t, eff),
        ) ==> {
            &&& t == s
            &&& 0 < amount <= contract_balance
            &&& eff.transfers == seq![Transfer::Payout { token, to, amount }]
            &&& eff.event == Some(
                Event::FeesWithdrawn(FeesWithdrawn { token, to, amount, timestamp: now }),
            )
            &&& eff.auth == s.admin
        },
{
    if let Ok((t, eff)) = s.step(Call::WithdrawFees { token, to, amount, contract_balance, now }) {
        assert(eff.transfers =~= seq![Transfer::Payout { token, to, amount }]);
    }
}

/// Who receives a settled escrow: the seller on delivery or automatic
/// release, and on a dispute the seller or the buyer as resolved.
pub open spec fn recipient_of(s: ContractModel, call: Call) -> Option<crate::address::Address> {
    match call {
        Call::ConfirmDelivery { escrow_id } => Some(s.escrows[escrow_id].seller),
        Call::AutoRelease { escrow_id, .. } => Some(s.escrows[escrow_id].seller),
        Call::ResolveDispute { escrow_id, release_to_seller } => if release_to_seller {
            Some(s.escrows[escrow_id].seller)
        } else {
            s.escrows[escrow_id].buyer
        },
        _ => None,
    }
}

/// Settling an escrow takes the fee at its rate rounded down, and no
/// more: the recipient is paid last, the amount less a fee `f` with
/// `f * 10000 <= amount * fee_bps < (f + 1) * 10000`, and when `f` is not
/// zero it is paid to the fee collector first; when it is zero nothing
/// else is paid.
pub proof fn law_settlement_takes_the_rounded_down_fee(s: ContractModel, call: Call)
    requires
        recipient_of(s, call) is Some,
    ensures
        s.step(call) matches Ok((_, eff)) ==> {
            let e = s.escrows[call.target()->Some_0];
            let ts = eff.transfers;
            &&& ts.len() >= 1
            &&& ts.last() matches Transfer::Payout { token, to, amount } && {
                let f = e.amount - amount;
                &&& token == e.token
                &&& recipient_of(s, call) == Some(to)
                &&& f * 10000 <= e.amount * e.fee_bps < (f + 1) * 10000
                &&& f > 0 ==> ts.len() == 2 && ts[0] == Transfer::Payout {
                    token: e.token,
                    to: s.fee_collector->Some_0,
                    amount: f as i128,
                }
                &&& f == 0 ==> ts.len() == 1
            }
        },
{
    if let Ok((_, eff)) = s.step(call) {
        let id = call.target()->Some_0;
        let e = s.escrows[id];
        let r = recipient_of(s, call)->Some_0;
        law_release_pays_out_the_amount(e, r, s.fee_collector);
    }
}

/// `initialize` records the given admin and fee collector, starts the ids
/// at 1 and leaves the contract unpaused; it is refused exactly when there
/// is an admin already. Escrows and disputes are untouched.
pub proof fn law_initialize_records_admin_and_collector(
    s: ContractModel,
    admin: crate::address::Address,
    fee_collector: crate::address::Address,
)
    ensures
        (s.step(Call::Initialize { admin, fee_collector }) is Err) == (s.admin is Some),
        s.step(Call::Initialize { admin, fee_collector }) matches Ok((t, eff)) ==> {
            &&& t.admin == Some(admin)
            &&& t.fee_collector == Some(fee_collector)
            &&& t.escrow_counter == 1
            &&& !t.paused
            &&& t.escrows == s.escrows
            &&& t.disputes == s.disputes
            &&& eff.auth is None
            &&& eff.transfers.len() == 0
            &&& eff.event is None
        },
{
}

/// Creating an escrow is refused exactly when the contract is paused or
/// the fee is above 300 basis points. Otherwise the escrow stored under
/// the returned id holds the given seller, resolver, token, amount, fee and
/// shipping window, has no buyer, is pending and was never funded; the
/// seller authorises and the event names the new id.
pub proof fn law_create_escrow_records_the_offer(
    s: ContractModel,
    seller: crate::address::Address,
    resolver: crate::address::Address,
    token: crate::address::Address,
    amount: i128,
    fee_bps: u32,
    shipping_window: u64,
)
    ensures
        ({
            let r = s.step(
                Call::CreateEscrow { seller, resolver, token, amount, fee_bps, shipping_window },
            );
            &&& s.paused ==> r == Err::<(ContractModel, EffectsView), ContractError>(
                ContractError::ContractPaused,
            )
            &&& !s.paused && fee_bps > 300 ==> r == Err::<(ContractModel, EffectsView), ContractError>(
                ContractError::FeeExceedsMax,
            )
            &&& !s.paused && fee_bps <= 300 ==> r is Ok
            &&& r matches Ok((t, eff)) ==> {
                let id = s.escrow_counter;
                let e = t.escrows[id];
                &&& t.escrows.contains_key(id)
                &&& e.seller == seller
                &&& e.resolver == resolver
                &&& e.token == token
                &&& e.amount == amount
                &&& e.fee_bps == fee_bps
                &&& e.shipping_window == shipping_window
                &&& e.buyer is None
                &&& e.state == EscrowState::Pending
                &&& e.funded_at == 0
                &&& e.dispute_deadline == 0
                &&& eff.auth == Some(seller)
                &&& eff.transfers.len() == 0
                &&& eff.event == Some(Event::EscrowCreated { escrow_id: id })
            }
        }),
{
}

/// Funding records the buyer and the time, sets the dispute deadline 48
/// hours later, and asks for a deposit of exactly the escrow's amount of
/// its token from the buyer, who authorises; the terms are unchanged.
/// It is owed on any pending escrow with a non-negative amount while the
/// contract runs.
pub proof fn law_fund_escrow_takes_the_deposit(
    s: ContractModel,
    id: u32,
    buyer: crate::address::Address,
    now: u64,
)
    requires
        now + 172800 <= u64::MAX,
    ensures
        ({
            let r = s.step(Call::FundEscrow { escrow_id: id, buyer, now });
            let e = s.escrows[id];
            &&& !s.paused && s.escrows.contains_key(id) && e.state == EscrowState::Pending
                && e.amount >= 0 ==> r is Ok
            &&& r matches Ok((t, eff)) ==> {
                let f = t.escrows[id];
                &&& e.state == EscrowState::Pending
                &&& f.buyer == Some(buyer)
                &&& f.state == EscrowState::Funded
                &&& f.funded_at == now
                &&& f.dispute_deadline == now + 172800
                &&& f.seller == e.seller && f.resolver == e.resolver && f.token == e.token
                &&& f.amount == e.amount && f.fee_bps == e.fee_bps
                &&& f.shipping_window == e.shipping_window
                &&& eff.auth == Some(buyer)
                &&& eff.transfers == seq![
                    Transfer::Deposit { token: e.token, from: buyer, amount: e.amount },
                ]
                &&& eff.event == Some(Event::EscrowFunded { escrow_id: id })
            }
        }),
{
}

/// Confirming delivery completes a funded escrow on the buyer's authority
/// and announces it; in a well-formed running contract with a fee
/// collector it is owed on every funded escrow.
pub proof fn law_confirm_delivery_completes_a_funded_escrow(s: ContractModel, id: u32)
    ensures
        s.wf() && !s.paused && s.fee_collector is Some && s.escrows.contains_key(id)
            && s.escrows[id].state == EscrowState::Funded ==> s.step(
            Call::ConfirmDelivery { escrow_id: id },
        ) is Ok,
        s.step(Call::ConfirmDelivery { escrow_id: id }) matches Ok((t, eff)) ==> {
            &&& s.escrows[id].state == EscrowState::Funded
            &&& t.escrows[id].state == EscrowState::Completed
            &&& eff.auth == s.escrows[id].buyer
            &&& eff.event == Some(Event::DeliveryConfirmed { escrow_id: id })
        },
{
    if s.wf() && s.escrows.contains_key(id) {
        assert(escrow_wf(s.escrows[id]));
    }
}

/// An automatic release waits for the shipping window: on a funded escrow
/// of a running contract it is refused with `ShippingWindowNotElapsed`
/// exactly when less than the window has passed since funding, and it
/// completes the escrow when it succeeds.
pub proof fn law_auto_release_waits_for_the_shipping_window(s: ContractModel, id: u32, now: u64)
    ensures
        !s.paused && s.escrows.contains_key(id) && s.escrows[id].state == EscrowState::Funded ==> (
        s.step(Call::AutoRelease { escrow_id: id, now })
            == Err::<(ContractModel, EffectsView), ContractError>(
            ContractError::ShippingWindowNotElapsed,
        ) <==> now < s.escrows[id].funded_at + s.escrows[id].shipping_window),
        s.wf() && !s.paused && s.fee_collector is Some && s.escrows.contains_key(id)
            && s.escrows[id].state == EscrowState::Funded && now >= s.escrows[id].funded_at
            + s.escrows[id].shipping_window ==> s.step(Call::AutoRelease { escrow_id: id, now }) is Ok,
        s.step(Call::AutoRelease { escrow_id: id, now }) matches Ok((t, eff)) ==> {
            &&& now >= s.escrows[id].funded_at + s.escrows[id].shipping_window
            &&& t.escrows[id].state == EscrowState::Completed
            &&& eff.auth is None
            &&& eff.event == Some(Event::AutoReleased { escrow_id: id })
        },
{
    if s.wf() && s.escrows.contains_key(id) {
        assert(escrow_wf(s.escrows[id]));
    }
}

/// Raising a dispute is owed on every funded escrow of a well-formed
/// running contract when the hash has 32 bytes; resolving is owed on
/// every disputed escrow when there is a fee collector.
pub proof fn law_disputes_are_owed(
    s: ContractModel,
    id: u32,
    evidence: Seq<u8>,
    now: u64,
    release_to_seller: bool,
)
    requires
        s.wf(),
        !s.paused,
        s.escrows.contains_key(id),
    ensures
        s.escrows[id].state == EscrowState::Funded && evidence.len() == 32 ==> s.step(
            Call::RaiseDispute { escrow_id: id, evidence_hash: evidence, now },
        ) is Ok,
        s.escrows[id].state == EscrowState::Disputed && s.fee_collector is Some ==> s.step(
            Call::ResolveDispute { escrow_id: id, release_to_seller },
        ) is Ok,
{
    assert(escrow_wf(s.escrows[id]));
}

} // verus!
