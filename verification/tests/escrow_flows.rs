//! The contract's flows, run against a small in-memory host that plays the
//! token contracts: it keeps balances, carries out the transfers that each
//! call asks for, and keeps the events of the last call.

use std::collections::HashMap;

use escrow::{Address, ContractError, Effects, Escrow, EscrowData, EscrowState, Event, Transfer};

struct Env {
    contract: Escrow,
    contract_id: Address,
    balances: HashMap<(String, String), i128>,
    now: u64,
    last_events: Vec<Event>,
    next_account: u32,
}

fn message(op: &str, e: ContractError) -> String {
    match e {
        ContractError::ContractPaused => "contract paused".to_string(),
        ContractError::AlreadyInitialized => "already initialized".to_string(),
        ContractError::FeeExceedsMax => "fee exceeds maximum".to_string(),
        ContractError::EscrowNotFound => "escrow not found".to_string(),
        ContractError::EscrowHasNoBuyer => "escrow has no buyer".to_string(),
        ContractError::ShippingWindowNotElapsed => "shipping window not elapsed".to_string(),
        ContractError::InvalidEvidenceHash => "evidence_hash must be exactly 32 bytes".to_string(),
        ContractError::DisputeNotFound => "dispute not found".to_string(),
        ContractError::InvalidState => match op {
            "fund_escrow" => "escrow not pending".to_string(),
            "resolve_dispute" => "escrow not disputed".to_string(),
            _ => "escrow not funded".to_string(),
        },
        ContractError::NotInitialized => match op {
            "pause_contract" | "unpause_contract" | "withdraw_fees" => "not initialized".to_string(),
            _ => "fee collector not set".to_string(),
        },
        other => format!("{:?}", other),
    }
}

impl Env {
    fn default() -> Env {
        Env {
            contract: Escrow::new(),
            contract_id: Address::new("CESCROWCONTRACT".to_string()),
            balances: HashMap::new(),
            now: 0,
            last_events: Vec::new(),
            next_account: 0,
        }
    }

    fn generate(&mut self) -> Address {
        self.next_account += 1;
        Address::new(format!("GACCOUNT{}", self.next_account))
    }

    fn register_token(&mut self) -> Address {
        self.next_account += 1;
        Address::new(format!("CTOKEN{}", self.next_account))
    }

    fn balance(&self, token: &Address, who: &Address) -> i128 {
        *self.balances.get(&(token.strkey.clone(), who.strkey.clone())).unwrap_or(&0)
    }

    fn add(&mut self, token: &Address, who: &Address, amount: i128) {
        let b = self.balance(token, who) + amount;
        if b < 0 {
            panic!("balance is not sufficient to spend");
        }
        self.balances.insert((token.strkey.clone(), who.strkey.clone()), b);
    }

    fn mint(&mut self, token: &Address, to: &Address, amount: i128) {
        self.add(token, to, amount);
    }

    fn carry_out(&mut self, op: &str, res: Result<Effects, ContractError>) {
        let eff = match res {
            Ok(eff) => eff,
            Err(e) => panic!("{}", message(op, e)),
        };
        let contract_id = self.contract_id.clone();
        for t in eff.transfers {
            match t {
                Transfer::Deposit { token, from, amount } => {
                    assert!(amount >= 0, "negative amount is not allowed");
                    self.add(&token, &from, -amount);
                    self.add(&token, &contract_id, amount);
                }
                Transfer::Payout { token, to, amount } => {
                    assert!(amount >= 0, "negative amount is not allowed");
                    self.add(&token, &contract_id, -amount);
                    self.add(&token, &to, amount);
                }
            }
        }
        self.last_events = eff.event.into_iter().collect();
    }

    fn initialize(&mut self, admin: &Address, fee_collector: &Address) {
        let res = self.contract.initialize(admin.clone(), fee_collector.clone());
        self.carry_out("initialize", res);
    }

    fn create_escrow(
        &mut self,
        seller: &Address,
        resolver: &Address,
        token: &Address,
        amount: &i128,
        fee_bps: &u32,
        shipping_window: &u64,
    ) -> u32 {
        let res = self.contract.create_escrow(
            seller.clone(),
            resolver.clone(),
            token.clone(),
            *amount,
            *fee_bps,
            *shipping_window,
        );
        match res {
            Ok((id, eff)) => {
                self.carry_out("create_escrow", Ok(eff));
                id
            }
            Err(e) => panic!("{}", message("create_escrow", e)),
        }
    }

    fn fund_escrow(&mut self, id: &u32, buyer: &Address) {
        let res = self.contract.fund_escrow(*id, buyer.clone(), self.now);
        self.carry_out("fund_escrow", res);
    }

    fn confirm_delivery(&mut self, id: &u32) {
        let res = self.contract.confirm_delivery(*id);
        self.carry_out("confirm_delivery", res);
    }

    fn raise_dispute(&mut self, id: &u32, evidence_hash: &[u8]) {
        let res = self.contract.raise_dispute(*id, evidence_hash, self.now);
        self.carry_out("raise_dispute", res);
    }

    fn resolve_dispute(&mut self, id: &u32, release_to_seller: &bool) {
        let res = self.contract.resolve_dispute(*id, *release_to_seller);
        self.carry_out("resolve_dispute", res);
    }

    fn auto_release(&mut self, id: &u32) {
        let res = self.contract.auto_release(*id, self.now);
        self.carry_out("auto_release", res);
    }

    fn get_escrow(&self, id: &u32) -> EscrowData {
        match self.contract.get_escrow(*id) {
            Ok(e) => e,
            Err(e) => panic!("{}", message("get_escrow", e)),
        }
    }
}

fn make_evidence_hash() -> Vec<u8> {
    vec![0u8; 32]
}

/// A host with a seller, a buyer, a resolver, a token, a fee collector and
/// the contract's admin.
fn setup_env() -> (Env, Address, Address, Address, Address, Address, Address) {
    let mut env = Env::default();
    let seller = env.generate();
    let buyer = env.generate();
    let resolver = env.generate();
    let admin = env.generate();
    let fee_collector = env.generate();
    let token_address = env.register_token();
    (env, seller, buyer, resolver, admin, token_address, fee_collector)
}

fn mint_tokens(env: &mut Env, token: &Address, to: &Address, amount: i128) {
    env.mint(token, to, amount);
}

fn get_balance(env: &Env, token: &Address, user: &Address) -> i128 {
    env.balance(token, user)
}

fn register_alt_token(env: &mut Env) -> Address {
    env.register_token()
}

#[test]
fn test_create_escrow() {
    let (mut env, seller, _buyer, resolver, admin, token, fee_collector) = setup_env();
    env.initialize(&admin, &fee_collector);

    let id = env.create_escrow(&seller, &resolver, &token, &100_i128, &200_u32, &3600_u64);
    assert_eq!(id, 1);

    let escrow = env.get_escrow(&id);
    assert_eq!(escrow.seller, seller);
    assert_eq!(escrow.resolver, resolver);
    assert_eq!(escrow.token, token);
    assert_eq!(escrow.amount, 100);
    assert_eq!(escrow.fee_bps, 200);
    assert_eq!(escrow.shipping_window, 3600);
    assert_eq!(escrow.state, EscrowState::Pending);
    assert!(escrow.buyer.is_none());
}

#[test]
fn test_fund_escrow() {
    let (mut env, seller, buyer, resolver, admin, token, fee_collector) = setup_env();
    env.initialize(&admin, &fee_collector);

    mint_tokens(&mut env, &token, &buyer, 1000);

    let id = env.create_escrow(&seller, &resolver, &token, &100_i128, &200_u32, &3600_u64);
    env.fund_escrow(&id, &buyer);

    let escrow = env.get_escrow(&id);
    assert_eq!(escrow.state, EscrowState::Funded);
    assert_eq!(escrow.buyer, Some(buyer.clone()));
    assert_eq!(escrow.funded_at, 0);

    let contract_id = env.contract_id.clone();
    assert_eq!(get_balance(&env, &token, &buyer), 900);
    assert_eq!(get_balance(&env, &token, &contract_id), 100);
}

#[test]
fn test_confirm_delivery() {
    let (mut env, seller, buyer, resolver, admin, token, fee_collector) = setup_env();
    env.initialize(&admin, &fee_collector);

    mint_tokens(&mut env, &token, &buyer, 1000);

    let id = env.create_escrow(&seller, &resolver, &token, &1000_i128, &200_u32, &3600_u64);
    env.fund_escrow(&id, &buyer);
    env.confirm_delivery(&id);

    let escrow = env.get_escrow(&id);
    assert_eq!(escrow.state, EscrowState::Completed);
    // 2% fee on 1000 = 20 to collector, 980 to seller
    let contract_id = env.contract_id.clone();
    assert_eq!(get_balance(&env, &token, &seller), 980);
    assert_eq!(get_balance(&env, &token, &fee_collector), 20);
    assert_eq!(get_balance(&env, &token, &contract_id), 0);
}

#[test]
fn test_raise_and_resolve_dispute_release_to_seller() {
    let (mut env, seller, buyer, resolver, admin, token, fee_collector) = setup_env();
    env.initialize(&admin, &fee_collector);

    mint_tokens(&mut env, &token, &buyer, 1000);

    let id = env.create_escrow(&seller, &resolver, &token, &1000_i128, &200_u32, &3600_u64);
    env.fund_escrow(&id, &buyer);
    env.raise_dispute(&id, &make_evidence_hash());

    let escrow = env.get_escrow(&id);
    assert_eq!(escrow.state, EscrowState::Disputed);

    env.resolve_dispute(&id, &true);

    let escrow = env.get_escrow(&id);
    assert_eq!(escrow.state, EscrowState::Completed);
    // 2% fee on 1000 = 20 to collector, 980 to seller
    assert_eq!(get_balance(&env, &token, &seller), 980);
    assert_eq!(get_balance(&env, &token, &fee_collector), 20);
}

#[test]
fn test_raise_and_resolve_dispute_refund_buyer() {
    let (mut env, seller, buyer, resolver, admin, token, fee_collector) = setup_env();
    env.initialize(&admin, &fee_collector);

    mint_tokens(&mut env, &token, &buyer, 1000);

    let id = env.create_escrow(&seller, &resolver, &token, &1000_i128, &200_u32, &3600_u64);
    env.fund_escrow(&id, &buyer);
    env.raise_dispute(&id, &make_evidence_hash());
    env.resolve_dispute(&id, &false);

    let escrow = env.get_escrow(&id);
    assert_eq!(escrow.state, EscrowState::Refunded);
    // 2% fee on 1000 = 20 to collector, 980 back to buyer
    assert_eq!(get_balance(&env, &token, &buyer), 980);
    assert_eq!(get_balance(&env, &token, &fee_collector), 20);
}

#[test]
fn test_auto_release() {
    let (mut env, seller, buyer, resolver, admin, token, fee_collector) = setup_env();
    env.initialize(&admin, &fee_collector);

    mint_tokens(&mut env, &token, &buyer, 1000);

    let id = env.create_escrow(&seller, &resolver, &token, &1000_i128, &200_u32, &3600_u64);
    env.fund_escrow(&id, &buyer);

    env.now += 3601;

    env.auto_release(&id);

    let escrow = env.get_escrow(&id);
    assert_eq!(escrow.state, EscrowState::Completed);
    // 2% fee on 1000 = 20 to collector, 980 to seller
    assert_eq!(get_balance(&env, &token, &seller), 980);
    assert_eq!(get_balance(&env, &token, &fee_collector), 20);
}

#[test]
#[should_panic(expected = "escrow not pending")]
fn test_fund_non_pending_escrow_fails() {
    let (mut env, seller, buyer, resolver, admin, token, fee_collector) = setup_env();
    env.initialize(&admin, &fee_collector);

    mint_tokens(&mut env, &token, &buyer, 1000);

    let id = env.create_escrow(&seller, &resolver, &token, &100_i128, &200_u32, &3600_u64);
    env.fund_escrow(&id, &buyer);
    env.fund_escrow(&id, &buyer);
}

#[test]
#[should_panic(expected = "shipping window not elapsed")]
fn test_auto_release_before_window_fails() {
    let (mut env, seller, buyer, resolver, admin, token, fee_collector) = setup_env();
    env.initialize(&admin, &fee_collector);

    mint_tokens(&mut env, &token, &buyer, 1000);

    let id = env.create_escrow(&seller, &resolver, &token, &100_i128, &200_u32, &3600_u64);
    env.fund_escrow(&id, &buyer);

    env.auto_release(&id);
}

#[test]
#[should_panic(expected = "evidence_hash must be exactly 32 bytes")]
fn test_raise_dispute_invalid_evidence_hash_rejected() {
    let (mut env, seller, buyer, resolver, _admin, token, _fee_collector) = setup_env();

    mint_tokens(&mut env, &token, &buyer, 1000);

    let id = env.create_escrow(&seller, &resolver, &token, &100_i128, &200_u32, &3600_u64);
    env.fund_escrow(&id, &buyer);

    // 16-byte hash — must be rejected before any storage write
    let short_hash = vec![0u8; 16];
    env.raise_dispute(&id, &short_hash);
}

#[test]
#[should_panic(expected = "escrow not funded")]
fn test_raise_dispute_only_once() {
    let (mut env, seller, buyer, resolver, _admin, token, _fee_collector) = setup_env();

    mint_tokens(&mut env, &token, &buyer, 1000);

    let id = env.create_escrow(&seller, &resolver, &token, &100_i128, &200_u32, &3600_u64);
    env.fund_escrow(&id, &buyer);

    // First dispute — succeeds, state transitions to Disputed
    env.raise_dispute(&id, &make_evidence_hash());

    let escrow = env.get_escrow(&id);
    assert_eq!(escrow.state, EscrowState::Disputed);

    // Second dispute on the same escrow — must panic because state is no longer Funded
    env.raise_dispute(&id, &make_evidence_hash());
}

#[test]
fn test_multiple_escrows() {
    let (mut env, seller, buyer, resolver, admin, token, fee_collector) = setup_env();
    env.initialize(&admin, &fee_collector);

    mint_tokens(&mut env, &token, &buyer, 2000);

    let id1 = env.create_escrow(&seller, &resolver, &token, &100_i128, &200_u32, &3600_u64);
    let id2 = env.create_escrow(&seller, &resolver, &token, &200_i128, &200_u32, &7200_u64);

    assert_eq!(id1, 1);
    assert_eq!(id2, 2);

    env.fund_escrow(&id1, &buyer);
    env.fund_escrow(&id2, &buyer);

    assert_eq!(get_balance(&env, &token, &buyer), 1700);
}

#[test]
fn test_create_escrow_with_non_usdc_token() {
    let mut env = Env::default();

    let seller = env.generate();
    let resolver = env.generate();
    let alt_token = register_alt_token(&mut env);

    let id = env.create_escrow(&seller, &resolver, &alt_token, &500_i128, &0_u32, &7200_u64);
    assert_eq!(id, 1);

    let escrow = env.get_escrow(&id);
    assert_eq!(escrow.token, alt_token);
    assert_eq!(escrow.amount, 500);
    assert_eq!(escrow.shipping_window, 7200);
    assert_eq!(escrow.state, EscrowState::Pending);
    assert!(escrow.buyer.is_none());
}

#[test]
fn test_fund_and_confirm_delivery_with_non_usdc_token() {
    let mut env = Env::default();

    let seller = env.generate();
    let buyer = env.generate();
    let resolver = env.generate();
    let alt_token = register_alt_token(&mut env);
    let contract_id = env.contract_id.clone();

    mint_tokens(&mut env, &alt_token, &buyer, 1_000);

    let id = env.create_escrow(&seller, &resolver, &alt_token, &300_i128, &0_u32, &3600_u64);
    env.fund_escrow(&id, &buyer);

    // Buyer balance reduced; contract holds the funds.
    assert_eq!(get_balance(&env, &alt_token, &buyer), 700);
    assert_eq!(get_balance(&env, &alt_token, &contract_id), 300);

    let escrow = env.get_escrow(&id);
    assert_eq!(escrow.state, EscrowState::Funded);
    assert_eq!(escrow.token, alt_token);

    env.confirm_delivery(&id);

    let escrow = env.get_escrow(&id);
    assert_eq!(escrow.state, EscrowState::Completed);
    // Funds released to seller; contract balance zeroed.
    assert_eq!(get_balance(&env, &alt_token, &seller), 300);
    assert_eq!(get_balance(&env, &alt_token, &contract_id), 0);
}

#[test]
fn test_dispute_resolved_to_seller_with_non_usdc_token() {
    let mut env = Env::default();

    let seller = env.generate();
    let buyer = env.generate();
    let resolver = env.generate();
    let alt_token = register_alt_token(&mut env);
    let contract_id = env.contract_id.clone();

    mint_tokens(&mut env, &alt_token, &buyer, 1_000);

    let id = env.create_escrow(&seller, &resolver, &alt_token, &400_i128, &0_u32, &3600_u64);
    env.fund_escrow(&id, &buyer);
    env.raise_dispute(&id, &make_evidence_hash());

    let escrow = env.get_escrow(&id);
    assert_eq!(escrow.state, EscrowState::Disputed);

    env.resolve_dispute(&id, &true);

    let escrow = env.get_escrow(&id);
    assert_eq!(escrow.state, EscrowState::Completed);
    assert_eq!(get_balance(&env, &alt_token, &seller), 400);
    assert_eq!(get_balance(&env, &alt_token, &contract_id), 0);
}

#[test]
fn test_dispute_refunded_to_buyer_with_non_usdc_token() {
    let mut env = Env::default();

    let seller = env.generate();
    let buyer = env.generate();
    let resolver = env.generate();
    let alt_token = register_alt_token(&mut env);
    let contract_id = env.contract_id.clone();

    mint_tokens(&mut env, &alt_token, &buyer, 1_000);

    let id = env.create_escrow(&seller, &resolver, &alt_token, &400_i128, &0_u32, &3600_u64);
    env.fund_escrow(&id, &buyer);
    env.raise_dispute(&id, &make_evidence_hash());
    env.resolve_dispute(&id, &false);

    let escrow = env.get_escrow(&id);
    assert_eq!(escrow.state, EscrowState::Refunded);
    // Buyer gets full refund; seller and contract receive nothing.
    assert_eq!(get_balance(&env, &alt_token, &buyer), 1_000);
    assert_eq!(get_balance(&env, &alt_token, &seller), 0);
    assert_eq!(get_balance(&env, &alt_token, &contract_id), 0);
}

#[test]
fn test_auto_release_with_non_usdc_token() {
    let mut env = Env::default();

    let seller = env.generate();
    let buyer = env.generate();
    let resolver = env.generate();
    let alt_token = register_alt_token(&mut env);
    let contract_id = env.contract_id.clone();

    mint_tokens(&mut env, &alt_token, &buyer, 1_000);

    let shipping_window: u64 = 86_400; // 24 hours
    let id = env.create_escrow(&seller, &resolver, &alt_token, &250_i128, &0_u32, &shipping_window);
    env.fund_escrow(&id, &buyer);

    // Advance ledger time past the shipping window.
    env.now += shipping_window + 1;

    env.auto_release(&id);

    let escrow = env.get_escrow(&id);
    assert_eq!(escrow.state, EscrowState::Completed);
    assert_eq!(get_balance(&env, &alt_token, &seller), 250);
    assert_eq!(get_balance(&env, &alt_token, &contract_id), 0);
}

#[test]
fn test_multi_asset_concurrent_escrows_different_tokens() {
    let mut env = Env::default();

    let seller = env.generate();
    let buyer_a = env.generate();
    let buyer_b = env.generate();
    let resolver = env.generate();

    // Two completely independent tokens.
    let token_a = register_alt_token(&mut env);
    let token_b = register_alt_token(&mut env);

    // Sanity: the two token addresses must differ.
    assert_ne!(token_a, token_b);

    let contract_id = env.contract_id.clone();

    mint_tokens(&mut env, &token_a, &buyer_a, 1_000);
    mint_tokens(&mut env, &token_b, &buyer_b, 2_000);

    // Escrow 1: token_a, amount 150
    let id1 = env.create_escrow(&seller, &resolver, &token_a, &150_i128, &0_u32, &3600_u64);
    // Escrow 2: token_b, amount 500
    let id2 = env.create_escrow(&seller, &resolver, &token_b, &500_i128, &0_u32, &3600_u64);

    assert_eq!(id1, 1);
    assert_eq!(id2, 2);

    env.fund_escrow(&id1, &buyer_a);
    env.fund_escrow(&id2, &buyer_b);

    // Intermediate balance checks — each token is tracked independently.
    assert_eq!(get_balance(&env, &token_a, &buyer_a), 850);
    assert_eq!(get_balance(&env, &token_b, &buyer_b), 1_500);
    assert_eq!(get_balance(&env, &token_a, &contract_id), 150);
    assert_eq!(get_balance(&env, &token_b, &contract_id), 500);

    // Settle escrow 1 via confirm_delivery.
    env.confirm_delivery(&id1);
    // Settle escrow 2 via dispute → refund to buyer.
    env.raise_dispute(&id2, &make_evidence_hash());
    env.resolve_dispute(&id2, &false);

    // Final state assertions.
    let escrow1 = env.get_escrow(&id1);
    let escrow2 = env.get_escrow(&id2);
    assert_eq!(escrow1.state, EscrowState::Completed);
    assert_eq!(escrow2.state, EscrowState::Refunded);

    // token_a: seller received 150; contract zeroed.
    assert_eq!(get_balance(&env, &token_a, &seller), 150);
    assert_eq!(get_balance(&env, &token_a, &contract_id), 0);

    // token_b: buyer_b refunded in full; seller received nothing from token_b.
    assert_eq!(get_balance(&env, &token_b, &buyer_b), 2_000);
    assert_eq!(get_balance(&env, &token_b, &seller), 0);
    assert_eq!(get_balance(&env, &token_b, &contract_id), 0);
}

#[test]
fn test_sequential_escrows_same_non_usdc_token() {
    let mut env = Env::default();

    let seller = env.generate();
    let buyer = env.generate();
    let resolver = env.generate();
    let alt_token = register_alt_token(&mut env);
    let contract_id = env.contract_id.clone();

    mint_tokens(&mut env, &alt_token, &buyer, 5_000);

    // Create and fully settle three escrows in sequence.
    for (i, amount) in [100_i128, 200_i128, 300_i128].iter().enumerate() {
        let expected_id = (i as u32) + 1;
        let id = env.create_escrow(&seller, &resolver, &alt_token, amount, &0_u32, &3600_u64);
        assert_eq!(id, expected_id);

        env.fund_escrow(&id, &buyer);
        env.confirm_delivery(&id);

        let escrow = env.get_escrow(&id);
        assert_eq!(escrow.state, EscrowState::Completed);
        assert_eq!(escrow.token, alt_token);
    }

    // Seller received 100 + 200 + 300 = 600 tokens total.
    assert_eq!(get_balance(&env, &alt_token, &seller), 600);
    // Buyer spent exactly 600 tokens.
    assert_eq!(get_balance(&env, &alt_token, &buyer), 4_400);
    // Contract holds nothing after all settlements.
    assert_eq!(get_balance(&env, &alt_token, &contract_id), 0);
}

#[test]
fn test_zero_fee_no_collector_transfer() {
    let (mut env, seller, buyer, resolver, admin, token, fee_collector) = setup_env();
    env.initialize(&admin, &fee_collector);

    mint_tokens(&mut env, &token, &buyer, 1000);

    // 0 bps fee — entire amount goes to seller
    let id = env.create_escrow(&seller, &resolver, &token, &1000_i128, &0_u32, &3600_u64);
    env.fund_escrow(&id, &buyer);
    env.confirm_delivery(&id);

    assert_eq!(get_balance(&env, &token, &seller), 1000);
    assert_eq!(get_balance(&env, &token, &fee_collector), 0);
}

#[test]
fn test_get_fee_config() {
    let (mut env, _seller, _buyer, _resolver, admin, _token, fee_collector) = setup_env();
    env.initialize(&admin, &fee_collector);

    let config = env.contract.get_fee_config().unwrap();
    assert_eq!(config.collector, fee_collector);
    assert_eq!(config.max_fee_bps, 300);
}

#[test]
#[should_panic(expected = "fee exceeds maximum")]
fn test_fee_exceeds_max_bps_fails() {
    let (mut env, seller, _buyer, resolver, admin, token, fee_collector) = setup_env();
    env.initialize(&admin, &fee_collector);

    // 301 bps exceeds MAX_FEE_BPS (300)
    env.create_escrow(&seller, &resolver, &token, &1000_i128, &301_u32, &3600_u64);
}

// Event data integrity: every event carries exactly the data of its call.

fn emitted_events(env: &Env) -> &[Event] {
    &env.last_events
}

fn topic_name(ev: &Event) -> &'static str {
    ev.topic()
}

fn assert_data_u32(ev: &Event, expected: u32) {
    match ev {
        Event::EscrowCreated { escrow_id }
        | Event::EscrowFunded { escrow_id }
        | Event::DeliveryConfirmed { escrow_id }
        | Event::AutoReleased { escrow_id } => assert_eq!(*escrow_id, expected),
        other => panic!("expected an escrow id, got {:?}", other),
    }
}

fn assert_data_u32_bool(ev: &Event, exp_u32: u32, exp_bool: bool) {
    match ev {
        Event::DisputeResolved { escrow_id, release_to_seller } => {
            assert_eq!(*escrow_id, exp_u32);
            assert_eq!(*release_to_seller, exp_bool);
        }
        other => panic!("expected an escrow id and a resolution, got {:?}", other),
    }
}

fn assert_data_u32_bytes(ev: &Event, exp_u32: u32, exp_bytes: &[u8]) {
    match ev {
        Event::DisputeRaised { escrow_id, evidence_hash } => {
            assert_eq!(*escrow_id, exp_u32);
            assert_eq!(&evidence_hash[..], exp_bytes);
        }
        other => panic!("expected an escrow id and a hash, got {:?}", other),
    }
}

fn find_event<'a>(events: &'a [Event], topic: &str) -> &'a Event {
    events
        .iter()
        .find(|e| topic_name(e) == topic)
        .unwrap_or_else(|| panic!("event '{}' not found among {} events", topic, events.len()))
}

#[test]
fn test_event_integrity_create_escrow() {
    let (mut env, seller, _buyer, resolver, admin, token, fee_collector) = setup_env();
    env.initialize(&admin, &fee_collector);

    let escrow_id = env.create_escrow(&seller, &resolver, &token, &500_i128, &150_u32, &7200_u64);

    let ev = find_event(emitted_events(&env), "create_escrow");

    assert_eq!(topic_name(ev), "create_escrow");
    assert_data_u32(ev, escrow_id);
}

#[test]
fn test_event_integrity_fund_escrow() {
    let (mut env, seller, buyer, resolver, admin, token, fee_collector) = setup_env();
    env.initialize(&admin, &fee_collector);
    mint_tokens(&mut env, &token, &buyer, 1000);

    let escrow_id = env.create_escrow(&seller, &resolver, &token, &500_i128, &150_u32, &7200_u64);
    env.fund_escrow(&escrow_id, &buyer);

    let ev = find_event(emitted_events(&env), "fund_escrow");

    assert_eq!(topic_name(ev), "fund_escrow");
    assert_data_u32(ev, escrow_id);
}

#[test]
fn test_event_integrity_confirm_delivery() {
    let (mut env, seller, buyer, resolver, admin, token, fee_collector) = setup_env();
    env.initialize(&admin, &fee_collector);
    mint_tokens(&mut env, &token, &buyer, 1000);

    let escrow_id = env.create_escrow(&seller, &resolver, &token, &1000_i128, &200_u32, &3600_u64);
    env.fund_escrow(&escrow_id, &buyer);
    env.confirm_delivery(&escrow_id);

    let ev = find_event(emitted_events(&env), "confirm_delivery");

    assert_eq!(topic_name(ev), "confirm_delivery");
    assert_data_u32(ev, escrow_id);
}

#[test]
fn test_event_integrity_raise_dispute() {
    let (mut env, seller, buyer, resolver, admin, token, fee_collector) = setup_env();
    env.initialize(&admin, &fee_collector);
    mint_tokens(&mut env, &token, &buyer, 1000);

    let escrow_id = env.create_escrow(&seller, &resolver, &token, &1000_i128, &200_u32, &3600_u64);
    env.fund_escrow(&escrow_id, &buyer);

    let evidence = [42u8; 32];
    env.raise_dispute(&escrow_id, &evidence);

    let ev = find_event(emitted_events(&env), "raise_dispute");

    assert_eq!(topic_name(ev), "raise_dispute");
    assert_data_u32_bytes(ev, escrow_id, &[42u8; 32]);
}

#[test]
fn test_event_integrity_resolve_dispute_release_to_seller() {
    let (mut env, seller, buyer, resolver, admin, token, fee_collector) = setup_env();
    env.initialize(&admin, &fee_collector);
    mint_tokens(&mut env, &token, &buyer, 1000);

    let escrow_id = env.create_escrow(&seller, &resolver, &token, &1000_i128, &200_u32, &3600_u64);
    env.fund_escrow(&escrow_id, &buyer);
    env.raise_dispute(&escrow_id, &make_evidence_hash());
    env.resolve_dispute(&escrow_id, &true);

    let ev = find_event(emitted_events(&env), "resolve_dispute");

    assert_eq!(topic_name(ev), "resolve_dispute");
    assert_data_u32_bool(ev, escrow_id, true);
}

#[test]
fn test_event_integrity_resolve_dispute_refund_buyer() {
    let (mut env, seller, buyer, resolver, admin, token, fee_collector) = setup_env();
    env.initialize(&admin, &fee_collector);
    mint_tokens(&mut env, &token, &buyer, 1000);

    let escrow_id = env.create_escrow(&seller, &resolver, &token, &1000_i128, &200_u32, &3600_u64);
    env.fund_escrow(&escrow_id, &buyer);
    env.raise_dispute(&escrow_id, &make_evidence_hash());
    env.resolve_dispute(&escrow_id, &false);

    let ev = find_event(emitted_events(&env), "resolve_dispute");

    assert_eq!(topic_name(ev), "resolve_dispute");
    assert_data_u32_bool(ev, escrow_id, false);
}

#[test]
fn test_event_integrity_auto_release() {
    let (mut env, seller, buyer, resolver, admin, token, fee_collector) = setup_env();
    env.initialize(&admin, &fee_collector);
    mint_tokens(&mut env, &token, &buyer, 1000);

    let escrow_id = env.create_escrow(&seller, &resolver, &token, &1000_i128, &200_u32, &3600_u64);
    env.fund_escrow(&escrow_id, &buyer);

    env.now += 3601;
    env.auto_release(&escrow_id);

    let ev = find_event(emitted_events(&env), "auto_release");

    assert_eq!(topic_name(ev), "auto_release");
    assert_data_u32(ev, escrow_id);
}

#[test]
fn test_event_integrity_full_lifecycle_all_events_decoded() {
    let (mut env, seller, buyer, resolver, admin, token, fee_collector) = setup_env();
    env.initialize(&admin, &fee_collector);
    mint_tokens(&mut env, &token, &buyer, 2000);

    let id1 = env.create_escrow(&seller, &resolver, &token, &500_i128, &200_u32, &3600_u64);
    {
        let ev = find_event(emitted_events(&env), "create_escrow");
        assert_eq!(topic_name(ev), "create_escrow");
        assert_data_u32(ev, id1);
    }

    let id2 = env.create_escrow(&seller, &resolver, &token, &1000_i128, &200_u32, &7200_u64);
    {
        let ev = find_event(emitted_events(&env), "create_escrow");
        assert_data_u32(ev, id2);
    }

    env.fund_escrow(&id1, &buyer);
    {
        let ev = find_event(emitted_events(&env), "fund_escrow");
        assert_eq!(topic_name(ev), "fund_escrow");
        assert_data_u32(ev, id1);
    }

    env.confirm_delivery(&id1);
    {
        let ev = find_event(emitted_events(&env), "confirm_delivery");
        assert_eq!(topic_name(ev), "confirm_delivery");
        assert_data_u32(ev, id1);
    }

    env.fund_escrow(&id2, &buyer);
    {
        let ev = find_event(emitted_events(&env), "fund_escrow");
        assert_data_u32(ev, id2);
    }

    env.raise_dispute(&id2, &make_evidence_hash());
    {
        let ev = find_event(emitted_events(&env), "raise_dispute");
        assert_eq!(topic_name(ev), "raise_dispute");
        assert_data_u32_bytes(ev, id2, &[0u8; 32]);
    }

    env.resolve_dispute(&id2, &false);
    {
        let ev = find_event(emitted_events(&env), "resolve_dispute");
        assert_eq!(topic_name(ev), "resolve_dispute");
        assert_data_u32_bool(ev, id2, false);
    }
}
