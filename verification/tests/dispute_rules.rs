use bluecollar::dispute::contract::DisputeContract;
use bluecollar::dispute::lifecycle::Payout;
use bluecollar::dispute::types::{
    Dispute, DisputeError, DisputeOutcome, DisputeStatus, TTL_EXTEND_TO, TTL_THRESHOLD, WHOLE_BPS,
};
use bluecollar::dispute::views::{
    get_dispute_summary_batch, get_dispute_with_parties_cached, CachedDisputeView,
};
use soroban_sdk::testutils::storage::Persistent as _;
use soroban_sdk::testutils::{
    Address as _, ContractFunctionSet, EnvTestConfig, Events as _, Ledger as _,
};
use soroban_sdk::token::{StellarAssetClient, TokenClient};
use soroban_sdk::{Address, Bytes, BytesN, Env, Executable, IntoVal, String, Symbol, Val, Vec};

struct Host;

impl ContractFunctionSet for Host {
    fn call(&self, _func: &str, _env: Env, _args: &[Val]) -> Option<Val> {
        None
    }
}

struct Fixture {
    env: Env,
    contract: Address,
    admin: Address,
    disputer: Address,
    respondent: Address,
    arbitrator: Address,
    token: Address,
}

impl Fixture {
    fn bare() -> Self {
        let env = Env::new_with_config(EnvTestConfig { capture_snapshot_at_drop: false });
        env.mock_all_auths();
        let admin = Address::generate(&env);
        let disputer = Address::generate(&env);
        let respondent = Address::generate(&env);
        let arbitrator = Address::generate(&env);
        let token = env.register_stellar_asset_contract_v2(admin.clone()).address();
        StellarAssetClient::new(&env, &token).mint(&disputer, &1_000_000);
        let contract = env.register(Host, ());
        Fixture { env, contract, admin, disputer, respondent, arbitrator, token }
    }

    fn new() -> Self {
        let t = Fixture::bare();
        assert_eq!(t.run(|env| DisputeContract::initialize(env, t.admin.clone())), Ok(()));
        assert_eq!(t.add(&t.arbitrator), Ok(()));
        t
    }

    fn run<R>(&self, f: impl FnOnce(&mut Env) -> R) -> R {
        let mut env = self.env.clone();
        self.env.as_contract(&self.contract, || f(&mut env))
    }

    fn symbol(&self, text: &str) -> Symbol {
        Symbol::new(&self.env, text)
    }

    fn id(&self) -> Symbol {
        self.symbol("d1")
    }

    fn text(&self, s: &str) -> String {
        String::from_str(&self.env, s)
    }

    fn balance(&self, addr: &Address) -> i128 {
        TokenClient::new(&self.env, &self.token).balance(addr)
    }

    fn add(&self, who: &Address) -> Result<(), DisputeError> {
        self.run(|env| DisputeContract::add_arbitrator(env, self.admin.clone(), who.clone()))
    }

    fn remove(&self, who: &Address) -> Result<(), DisputeError> {
        self.run(|env| DisputeContract::remove_arbitrator(env, self.admin.clone(), who.clone()))
    }

    fn arbitrators(&self) -> Vec<Address> {
        self.run(|env| DisputeContract::list_arbitrators(env))
    }

    fn file(&self, id: &str, amount: i128) -> Result<(), DisputeError> {
        self.run(|env| {
            DisputeContract::file_dispute(
                env,
                self.symbol(id),
                self.disputer.clone(),
                self.respondent.clone(),
                self.token.clone(),
                amount,
                self.text("abc"),
            )
        })
    }

    fn submit(&self, caller: &Address, evidence: &str) -> Result<(), DisputeError> {
        self.run(|env| {
            DisputeContract::submit_evidence(env, self.id(), caller.clone(), self.text(evidence))
        })
    }

    fn decide(&self, who: &Address, outcome: DisputeOutcome, bps: u32) -> Result<(), DisputeError> {
        self.run(|env| DisputeContract::decide(env, self.id(), who.clone(), outcome, bps))
    }

    fn settle(&self) -> Result<(), DisputeError> {
        self.run(|env| DisputeContract::settle(env, self.id()))
    }

    fn dispute(&self) -> Dispute {
        self.run(|env| DisputeContract::get_dispute(env, self.id())).unwrap()
    }

    fn published(&self, topics: Vec<Val>, data: Val) -> bool {
        let wanted = Vec::from_array(&self.env, [(self.contract.clone(), topics, data)]);
        self.env.events().all().filter_by_contract(&self.contract) == wanted
    }

    fn lifetime(&self, key: Val) -> u32 {
        self.run(|env| env.storage().persistent().get_ttl(&key))
    }
}

#[test]
fn a_contract_without_an_admin_refuses_the_admins_operations() {
    let t = Fixture::bare();
    let refused = Err(DisputeError::NotInitialized);
    assert_eq!(t.run(|env| DisputeContract::get_admin(env)), Err(DisputeError::NotInitialized));
    assert_eq!(t.run(|env| DisputeContract::pause(env, t.admin.clone())), refused);
    assert_eq!(t.run(|env| DisputeContract::unpause(env, t.admin.clone())), refused);
    assert_eq!(t.add(&t.arbitrator), refused);
    assert_eq!(t.remove(&t.arbitrator), refused);
}

#[test]
fn nobody_else_does_what_is_the_admins() {
    let t = Fixture::new();
    let refused = Err(DisputeError::NotAuthorized);
    let stranger = Address::generate(&t.env);
    let hash = BytesN::from_array(&t.env, &[7u8; 32]);
    assert_eq!(t.run(|env| DisputeContract::pause(env, stranger.clone())), refused);
    assert_eq!(t.run(|env| DisputeContract::unpause(env, stranger.clone())), refused);
    assert_eq!(
        t.run(|env| DisputeContract::add_arbitrator(env, stranger.clone(), stranger.clone())),
        refused
    );
    assert_eq!(
        t.run(|env| {
            DisputeContract::remove_arbitrator(env, stranger.clone(), t.arbitrator.clone())
        }),
        refused
    );
    assert_eq!(t.run(|env| DisputeContract::upgrade(env, stranger.clone(), hash)), refused);
    assert_eq!(t.arbitrators(), Vec::from_array(&t.env, [t.arbitrator.clone()]));
}

#[test]
fn initializing_twice_keeps_the_first_admin() {
    let t = Fixture::new();
    let other = Address::generate(&t.env);
    assert_eq!(
        t.run(|env| DisputeContract::initialize(env, other)),
        Err(DisputeError::AlreadyInitialized)
    );
    assert_eq!(t.run(|env| DisputeContract::get_admin(env)), Ok(t.admin.clone()));
}

#[test]
fn a_fresh_contract_has_no_arbitrators_and_no_disputes() {
    let t = Fixture::bare();
    assert_eq!(t.arbitrators().len(), 0);
    assert_eq!(t.run(|env| DisputeContract::list_disputes(env)).len(), 0);
    assert!(t.run(|env| DisputeContract::get_dispute(env, t.id())).is_none());
    assert_eq!(t.run(|env| DisputeContract::initialize(env, t.admin.clone())), Ok(()));
    assert_eq!(t.arbitrators().len(), 0);
}

#[test]
fn adding_an_arbitrator_twice_lists_them_once() {
    let t = Fixture::new();
    let second = Address::generate(&t.env);
    assert_eq!(t.add(&second), Ok(()));
    assert_eq!(t.add(&t.arbitrator), Ok(()));
    assert_eq!(t.arbitrators(), Vec::from_array(&t.env, [t.arbitrator.clone(), second]));
}

#[test]
fn removing_an_arbitrator_leaves_the_others_in_order() {
    let t = Fixture::new();
    let second = Address::generate(&t.env);
    let third = Address::generate(&t.env);
    assert_eq!(t.add(&second), Ok(()));
    assert_eq!(t.add(&third), Ok(()));
    assert_eq!(t.remove(&second), Ok(()));
    assert_eq!(t.arbitrators(), Vec::from_array(&t.env, [t.arbitrator.clone(), third.clone()]));
    assert_eq!(t.remove(&second), Ok(()));
    assert_eq!(t.arbitrators(), Vec::from_array(&t.env, [t.arbitrator.clone(), third]));
}

#[test]
fn a_removed_arbitrator_cannot_decide() {
    let t = Fixture::new();
    assert_eq!(t.file("d1", 100), Ok(()));
    assert_eq!(t.remove(&t.arbitrator), Ok(()));
    assert_eq!(
        t.decide(&t.arbitrator, DisputeOutcome::Split, 0),
        Err(DisputeError::NotAnArbitrator)
    );
    assert_eq!(t.add(&t.arbitrator), Ok(()));
    assert_eq!(t.decide(&t.arbitrator, DisputeOutcome::Split, 0), Ok(()));
}

#[test]
fn a_filed_dispute_is_stored_as_it_was_filed() {
    let t = Fixture::new();
    t.env.ledger().set_timestamp(1_234);
    assert_eq!(t.file("d1", 100_000), Ok(()));
    let d = t.dispute();
    assert_eq!(d.id, t.id());
    assert_eq!(d.disputer, t.disputer);
    assert_eq!(d.respondent, t.respondent);
    assert_eq!(d.token, t.token);
    assert_eq!(d.amount, 100_000);
    assert_eq!(d.status, DisputeStatus::Open);
    assert_eq!(d.outcome, DisputeOutcome::RefundDisputer);
    assert_eq!(d.split_bps, 0);
    assert_eq!(d.arbitrator, None);
    assert_eq!(d.filed_at, 1_234);
    assert_eq!(d.settled_at, 0);
    assert_eq!(d.disputer_evidence, Some(t.text("abc")));
    assert_eq!(d.respondent_evidence, None);
    let copy = d.clone();
    assert_eq!(copy.disputer_evidence, d.disputer_evidence);
}

#[test]
fn a_stored_dispute_is_a_map_by_field_names() {
    let t = Fixture::new();
    assert_eq!(t.file("d1", 100_000), Ok(()));
    let stored: soroban_sdk::Map<Symbol, Val> = t.run(|env| {
        env.storage().persistent().get(&(Symbol::new(env, "Dispute"), t.id())).unwrap()
    });
    let names = [
        "amount", "arbitrator", "disputer", "disputer_evidence", "filed_at", "id", "outcome",
        "respondent", "respondent_evidence", "settled_at", "split_bps", "status", "token",
    ];
    assert_eq!(stored.len(), 13);
    for name in names {
        assert!(stored.contains_key(t.symbol(name)));
    }
    let status: u32 = stored.get(t.symbol("status")).unwrap().into_val(&t.env);
    let amount: i128 = stored.get(t.symbol("amount")).unwrap().into_val(&t.env);
    assert_eq!(status, 0);
    assert_eq!(amount, 100_000);
}

#[test]
fn a_record_with_an_unknown_phase_is_no_dispute() {
    let t = Fixture::new();
    assert_eq!(t.file("d1", 100), Ok(()));
    t.run(|env| {
        let key = (Symbol::new(env, "Dispute"), t.id());
        let mut stored: soroban_sdk::Map<Symbol, Val> = env.storage().persistent().get(&key).unwrap();
        stored.set(t.symbol("status"), 4u32.into_val(&t.env));
        env.storage().persistent().set(&key, &stored);
    });
    assert!(t.run(|env| DisputeContract::get_dispute(env, t.id())).is_none());
    assert_eq!(t.settle(), Err(DisputeError::DisputeNotFound));
    assert_eq!(t.file("d1", 100), Err(DisputeError::DuplicateDispute));
}

#[test]
fn amounts_must_be_positive() {
    let t = Fixture::new();
    assert_eq!(t.file("d1", 0), Err(DisputeError::AmountNotPositive));
    assert_eq!(t.file("d1", -1), Err(DisputeError::AmountNotPositive));
    assert_eq!(t.file("d1", 1), Ok(()));
}

#[test]
fn an_amount_that_cannot_be_locked_files_nothing() {
    let t = Fixture::new();
    assert_eq!(t.file("d1", 1_000_001), Err(DisputeError::TransferFailed));
    assert_eq!(t.balance(&t.disputer), 1_000_000);
    assert!(t.run(|env| DisputeContract::get_dispute(env, t.id())).is_none());
    assert_eq!(t.run(|env| DisputeContract::list_disputes(env)).len(), 0);
}

#[test]
fn a_token_that_is_no_contract_files_nothing() {
    let t = Fixture::new();
    let nowhere = Address::generate(&t.env);
    let account = Address::from_str(
        &t.env,
        "GAAQEAYEAUDAOCAJBIFQYDIOB4IBCEQTCQKRMFYYDENBWHA5DYPSABOV",
    );
    for token in [nowhere, account] {
        let filed = t.run(|env| {
            DisputeContract::file_dispute(
                env,
                t.id(),
                t.disputer.clone(),
                t.respondent.clone(),
                token,
                10,
                t.text("abc"),
            )
        });
        assert_eq!(filed, Err(DisputeError::TransferFailed));
    }
    assert!(t.run(|env| DisputeContract::get_dispute(env, t.id())).is_none());
}

#[test]
fn a_dispute_over_no_contract_is_not_settled() {
    let t = Fixture::new();
    assert_eq!(t.file("d1", 100), Ok(()));
    assert_eq!(t.decide(&t.arbitrator, DisputeOutcome::RefundDisputer, 0), Ok(()));
    t.run(|env| {
        let key = (Symbol::new(env, "Dispute"), t.id());
        let mut stored: soroban_sdk::Map<Symbol, Val> =
            env.storage().persistent().get(&key).unwrap();
        stored.set(t.symbol("token"), Address::generate(&t.env).into_val(&t.env));
        env.storage().persistent().set(&key, &stored);
    });
    assert_eq!(t.settle(), Err(DisputeError::TransferFailed));
    assert_eq!(t.dispute().status, DisputeStatus::Decided);
}

#[test]
fn ids_are_listed_in_the_order_of_filing() {
    let t = Fixture::new();
    for id in ["b", "a", "c"] {
        assert_eq!(t.file(id, 10), Ok(()));
    }
    assert_eq!(t.file("a", 10), Err(DisputeError::DuplicateDispute));
    let ids = t.run(|env| DisputeContract::list_disputes(env));
    assert_eq!(ids, Vec::from_array(&t.env, [t.symbol("b"), t.symbol("a"), t.symbol("c")]));
    assert_eq!(t.balance(&t.contract), 30);
}

#[test]
fn unknown_disputes_take_no_step() {
    let t = Fixture::new();
    let refused = Err(DisputeError::DisputeNotFound);
    assert_eq!(t.submit(&t.respondent, "x"), refused);
    assert_eq!(t.decide(&t.arbitrator, DisputeOutcome::Split, 1), refused);
    assert_eq!(t.settle(), refused);
}

#[test]
fn each_party_replaces_their_own_evidence() {
    let t = Fixture::new();
    assert_eq!(t.file("d1", 100), Ok(()));
    assert_eq!(t.submit(&t.disputer, "new"), Ok(()));
    let d = t.dispute();
    assert_eq!(d.status, DisputeStatus::Evidence);
    assert_eq!(d.disputer_evidence, Some(t.text("new")));
    assert_eq!(d.respondent_evidence, None);
    assert_eq!(t.submit(&t.respondent, "one"), Ok(()));
    assert_eq!(t.submit(&t.respondent, "two"), Ok(()));
    let d = t.dispute();
    assert_eq!(d.status, DisputeStatus::Evidence);
    assert_eq!(d.disputer_evidence, Some(t.text("new")));
    assert_eq!(d.respondent_evidence, Some(t.text("two")));
}

#[test]
fn a_decided_dispute_is_not_reopened() {
    let t = Fixture::new();
    assert_eq!(t.file("d1", 100), Ok(()));
    assert_eq!(t.decide(&t.arbitrator, DisputeOutcome::ReleaseRespondent, 77), Ok(()));
    assert_eq!(t.submit(&t.respondent, "late"), Err(DisputeError::EvidenceClosed));
    assert_eq!(
        t.decide(&t.arbitrator, DisputeOutcome::RefundDisputer, 0),
        Err(DisputeError::NotDecidable)
    );
    assert_eq!(t.settle(), Ok(()));
    assert_eq!(t.submit(&t.disputer, "late"), Err(DisputeError::EvidenceClosed));
    assert_eq!(
        t.decide(&t.arbitrator, DisputeOutcome::RefundDisputer, 0),
        Err(DisputeError::NotDecidable)
    );
    assert_eq!(t.settle(), Err(DisputeError::NotDecided));
    let d = t.dispute();
    assert_eq!(d.outcome, DisputeOutcome::ReleaseRespondent);
    assert_eq!(d.split_bps, 77);
    assert_eq!(t.balance(&t.respondent), 100);
}

#[test]
fn a_stranger_is_told_so_before_the_phase_is_looked_at() {
    let t = Fixture::new();
    assert_eq!(t.file("d1", 100), Ok(()));
    assert_eq!(t.decide(&t.arbitrator, DisputeOutcome::RefundDisputer, 0), Ok(()));
    let stranger = Address::generate(&t.env);
    assert_eq!(t.submit(&stranger, "x"), Err(DisputeError::NotAParty));
}

#[test]
fn splits_stay_within_the_whole() {
    let t = Fixture::new();
    assert_eq!(t.file("d1", 100), Ok(()));
    assert_eq!(
        t.decide(&t.arbitrator, DisputeOutcome::Split, 10_001),
        Err(DisputeError::SplitOutOfRange)
    );
    assert_eq!(t.dispute().status, DisputeStatus::Open);
    assert_eq!(t.decide(&t.arbitrator, DisputeOutcome::Split, WHOLE_BPS), Ok(()));
    assert_eq!(t.settle(), Ok(()));
    assert_eq!(t.balance(&t.respondent), 100);
    assert_eq!(t.balance(&t.disputer), 999_900);
}

#[test]
fn other_outcomes_take_any_split() {
    let t = Fixture::new();
    assert_eq!(t.file("d1", 100), Ok(()));
    assert_eq!(t.decide(&t.arbitrator, DisputeOutcome::RefundDisputer, 20_000), Ok(()));
    assert_eq!(t.dispute().split_bps, 20_000);
    assert_eq!(t.settle(), Ok(()));
    assert_eq!(t.balance(&t.disputer), 1_000_000);
}

#[test]
fn a_split_is_rounded_in_the_disputers_favour() {
    let t = Fixture::new();
    assert_eq!(t.file("d1", 101), Ok(()));
    assert_eq!(t.decide(&t.arbitrator, DisputeOutcome::Split, 3_333), Ok(()));
    t.env.ledger().set_timestamp(99);
    assert_eq!(t.settle(), Ok(()));
    assert_eq!(t.balance(&t.respondent), 33);
    assert_eq!(t.balance(&t.disputer), 1_000_000 - 101 + 68);
    assert_eq!(t.balance(&t.contract), 0);
    assert_eq!(t.dispute().settled_at, 99);
}

#[test]
fn an_empty_share_is_not_paid() {
    let t = Fixture::new();
    assert_eq!(t.file("d1", 3), Ok(()));
    assert_eq!(t.decide(&t.arbitrator, DisputeOutcome::Split, 1), Ok(()));
    let payouts: std::vec::Vec<Payout> = t.dispute().payouts().ok().unwrap();
    assert_eq!(payouts.len(), 1);
    assert_eq!(payouts[0].to, t.disputer);
    assert_eq!(payouts[0].amount, 3);
    assert_eq!(t.settle(), Ok(()));
    assert_eq!(t.balance(&t.respondent), 0);
    assert_eq!(t.balance(&t.disputer), 1_000_000);
}

#[test]
fn a_split_of_too_large_an_amount_is_refused() {
    let t = Fixture::new();
    let amount: i128 = i128::MAX / 5_000;
    StellarAssetClient::new(&t.env, &t.token).mint(&t.disputer, &amount);
    assert_eq!(t.file("d1", amount), Ok(()));
    assert_eq!(t.decide(&t.arbitrator, DisputeOutcome::Split, 5_001), Ok(()));
    assert_eq!(t.settle(), Err(DisputeError::SplitOverflow));
    assert_eq!(t.dispute().status, DisputeStatus::Decided);
    assert_eq!(t.balance(&t.contract), amount);
}

#[test]
fn a_settlement_that_cannot_be_paid_stays_open() {
    let t = Fixture::new();
    assert_eq!(t.file("d1", 1_000), Ok(()));
    assert_eq!(t.decide(&t.arbitrator, DisputeOutcome::RefundDisputer, 0), Ok(()));
    t.run(|env| {
        TokenClient::new(env, &t.token).transfer(&t.contract, &t.admin, &1);
    });
    assert_eq!(t.settle(), Err(DisputeError::TransferFailed));
    assert_eq!(t.dispute().status, DisputeStatus::Decided);
    assert_eq!(t.balance(&t.contract), 999);
}

#[test]
fn the_contract_holds_what_open_disputes_have_locked() {
    let t = Fixture::new();
    assert_eq!(t.file("d1", 700), Ok(()));
    assert_eq!(t.file("d2", 11), Ok(()));
    assert_eq!(t.balance(&t.contract), 711);
    assert_eq!(t.submit(&t.respondent, "x"), Ok(()));
    assert_eq!(t.decide(&t.arbitrator, DisputeOutcome::Split, 2_500), Ok(()));
    assert_eq!(t.balance(&t.contract), 711);
    assert_eq!(t.settle(), Ok(()));
    assert_eq!(t.balance(&t.contract), 11);
    assert_eq!(t.balance(&t.respondent), 175);
}

#[test]
fn over_a_run_the_contract_holds_what_is_locked() {
    let t = Fixture::new();
    let names = ["d1", "d2", "d3"];
    let held = |expected: i128| {
        let locked: i128 = names
            .iter()
            .filter_map(|id| t.run(|env| DisputeContract::get_dispute(env, t.symbol(id))))
            .filter(|dispute| dispute.status != DisputeStatus::Settled)
            .map(|dispute| dispute.amount)
            .sum();
        assert_eq!(locked, expected);
        assert_eq!(t.balance(&t.contract), expected);
    };
    held(0);
    assert_eq!(t.file("d1", 700), Ok(()));
    held(700);
    assert_eq!(t.file("d2", 11), Ok(()));
    assert_eq!(t.file("d2", 5), Err(DisputeError::DuplicateDispute));
    held(711);
    assert_eq!(t.submit(&t.respondent, "x"), Ok(()));
    assert_eq!(t.settle(), Err(DisputeError::NotDecided));
    held(711);
    assert_eq!(t.decide(&t.arbitrator, DisputeOutcome::Split, 1), Ok(()));
    assert_eq!(t.file("d3", 1), Ok(()));
    held(712);
    assert_eq!(t.settle(), Ok(()));
    assert_eq!(t.dispute().split_bps, 1);
    held(12);
}

#[test]
fn a_pause_stops_every_step_until_it_is_lifted() {
    let t = Fixture::new();
    let refused = Err(DisputeError::Paused);
    assert_eq!(t.file("d1", 100), Ok(()));
    assert_eq!(t.run(|env| DisputeContract::pause(env, t.admin.clone())), Ok(()));
    assert_eq!(t.file("d2", 100), refused);
    assert_eq!(t.submit(&t.respondent, "x"), refused);
    assert_eq!(t.decide(&t.arbitrator, DisputeOutcome::RefundDisputer, 0), refused);
    assert_eq!(t.settle(), refused);
    assert_eq!(t.dispute().status, DisputeStatus::Open);
    assert_eq!(t.run(|env| DisputeContract::unpause(env, t.admin.clone())), Ok(()));
    assert_eq!(t.file("d2", 100), Ok(()));
    assert_eq!(t.submit(&t.respondent, "x"), Ok(()));
    assert_eq!(t.decide(&t.arbitrator, DisputeOutcome::RefundDisputer, 0), Ok(()));
    assert_eq!(t.settle(), Ok(()));
}

#[test]
fn each_refusal_has_its_text() {
    let texts = [
        (DisputeError::AlreadyInitialized, "Already initialized"),
        (DisputeError::NotInitialized, "Not initialized"),
        (DisputeError::NotAuthorized, "Not authorized"),
        (DisputeError::Paused, "Contract is paused"),
        (DisputeError::AmountNotPositive, "Amount must be positive"),
        (DisputeError::DuplicateDispute, "Dispute id already exists"),
        (DisputeError::DisputeNotFound, "Dispute not found"),
        (DisputeError::NotAParty, "Not a party"),
        (DisputeError::EvidenceClosed, "Dispute not open or in evidence phase"),
        (DisputeError::NotAnArbitrator, "Not an arbitrator"),
        (DisputeError::SplitOutOfRange, "split_bps out of range"),
        (DisputeError::NotDecidable, "Not decidable"),
        (DisputeError::NotDecided, "Not decided yet"),
        (DisputeError::SplitOverflow, "Split overflow"),
        (DisputeError::TransferFailed, "Token transfer failed"),
    ];
    for (error, text) in texts {
        assert_eq!(error.message(), text);
    }
}

#[test]
fn phases_and_outcomes_keep_their_numbers() {
    let phases = [
        DisputeStatus::Open,
        DisputeStatus::Evidence,
        DisputeStatus::Decided,
        DisputeStatus::Settled,
    ];
    for (code, status) in (0u32..).zip(phases) {
        assert_eq!(status.code(), code);
        assert_eq!(DisputeStatus::from_code(code), Some(status));
    }
    assert_eq!(DisputeStatus::from_code(4), None);
    let outcomes =
        [DisputeOutcome::RefundDisputer, DisputeOutcome::ReleaseRespondent, DisputeOutcome::Split];
    for (code, outcome) in (0u32..).zip(outcomes) {
        assert_eq!(outcome.code(), code);
        assert_eq!(DisputeOutcome::from_code(code), Some(outcome));
    }
    assert_eq!(DisputeOutcome::from_code(3), None);
}

#[test]
fn the_admins_operations_are_announced() {
    let t = Fixture::bare();
    let nothing: Val = ().into_val(&t.env);
    assert_eq!(t.run(|env| DisputeContract::initialize(env, t.admin.clone())), Ok(()));
    assert!(t.published(
        (t.symbol("Init"),).into_val(&t.env),
        t.admin.clone().into_val(&t.env)
    ));
    assert_eq!(t.add(&t.arbitrator), Ok(()));
    assert!(t.published(
        (t.symbol("ArbAdd"),).into_val(&t.env),
        t.arbitrator.clone().into_val(&t.env)
    ));
    assert_eq!(t.add(&t.arbitrator), Ok(()));
    assert!(t.published(
        (t.symbol("ArbAdd"),).into_val(&t.env),
        t.arbitrator.clone().into_val(&t.env)
    ));
    assert_eq!(t.remove(&t.arbitrator), Ok(()));
    assert!(t.published(
        (t.symbol("ArbRem"),).into_val(&t.env),
        t.arbitrator.clone().into_val(&t.env)
    ));
    assert_eq!(t.run(|env| DisputeContract::pause(env, t.admin.clone())), Ok(()));
    assert!(t.published((t.symbol("Paused"), t.admin.clone()).into_val(&t.env), nothing));
    assert_eq!(t.run(|env| DisputeContract::unpause(env, t.admin.clone())), Ok(()));
    assert!(t.published((t.symbol("Unpaused"), t.admin.clone()).into_val(&t.env), nothing));
}

#[test]
fn every_step_of_a_dispute_is_announced() {
    let t = Fixture::new();
    let nothing: Val = ().into_val(&t.env);
    assert_eq!(t.file("d1", 250), Ok(()));
    assert!(t.published(
        (t.symbol("DspOpen"), t.id(), t.disputer.clone()).into_val(&t.env),
        (t.respondent.clone(), 250i128).into_val(&t.env)
    ));
    assert_eq!(t.submit(&t.respondent, "x"), Ok(()));
    assert!(t.published(
        (t.symbol("DspEvid"), t.id(), t.respondent.clone()).into_val(&t.env),
        nothing
    ));
    assert_eq!(t.decide(&t.arbitrator, DisputeOutcome::Split, 4_000), Ok(()));
    assert!(t.published(
        (t.symbol("DspDcide"), t.id(), t.arbitrator.clone()).into_val(&t.env),
        (2u32, 4_000u32).into_val(&t.env)
    ));
    assert_eq!(t.settle(), Ok(()));
    assert!(t.published(
        (t.symbol("DspSettle"), t.id()).into_val(&t.env),
        (2u32, 250i128).into_val(&t.env)
    ));
}

#[test]
fn the_acting_address_must_authorise() {
    let t = Fixture::new();
    let asked = |who: &Address| t.env.auths().iter().any(|(address, _)| address == who);
    assert_eq!(t.file("d1", 250), Ok(()));
    assert!(asked(&t.disputer));
    assert_eq!(t.submit(&t.respondent, "x"), Ok(()));
    assert!(asked(&t.respondent));
    assert_eq!(t.decide(&t.arbitrator, DisputeOutcome::Split, 4_000), Ok(()));
    assert!(asked(&t.arbitrator));
    assert_eq!(t.run(|env| DisputeContract::pause(env, t.admin.clone())), Ok(()));
    assert!(asked(&t.admin));
}

#[test]
fn anyone_settles() {
    let t = Fixture::new();
    assert_eq!(t.file("d1", 250), Ok(()));
    assert_eq!(t.decide(&t.arbitrator, DisputeOutcome::Split, 4_000), Ok(()));
    assert_eq!(t.settle(), Ok(()));
    assert!(t.env.auths().is_empty());
}

#[test]
fn writing_a_dispute_keeps_it_alive() {
    let t = Fixture::new();
    let key: Val = (t.symbol("Dispute"), t.id()).into_val(&t.env);
    let list: Val = (t.symbol("DisputeList"),).into_val(&t.env);
    assert_eq!(t.file("d1", 250), Ok(()));
    assert_eq!(t.lifetime(key), TTL_EXTEND_TO);
    assert_eq!(t.lifetime(list), TTL_EXTEND_TO);
    let aged = t.env.ledger().sequence() + (TTL_EXTEND_TO - TTL_THRESHOLD) - 1;
    t.env.ledger().set_sequence_number(aged);
    assert_eq!(t.submit(&t.respondent, "x"), Ok(()));
    assert_eq!(t.lifetime(key), TTL_THRESHOLD + 1);
    t.env.ledger().set_sequence_number(aged + 1);
    assert_eq!(t.submit(&t.respondent, "y"), Ok(()));
    assert_eq!(t.lifetime(key), TTL_EXTEND_TO);
}

#[test]
fn the_admin_replaces_the_code() {
    let t = Fixture::new();
    let mut code: std::vec::Vec<u8> = vec![0, b'a', b's', b'm', 1, 0, 0, 0, 0, 30, 17];
    code.extend_from_slice(b"contractenvmetav0");
    code.extend_from_slice(&[0, 0, 0, 0, 0, 0, 0, 22, 0, 0, 0, 0]);
    let hash = t.env.deployer().upload_contract_wasm(Bytes::from_slice(&t.env, &code));
    assert!(t.contract.executable() != Some(Executable::Wasm(hash.clone())));
    assert_eq!(
        t.run(|env| DisputeContract::upgrade(env, t.admin.clone(), hash.clone())),
        Ok(())
    );
    assert!(t.contract.executable() == Some(Executable::Wasm(hash)));
}

#[test]
fn a_view_gives_the_whole_dispute() {
    let t = Fixture::new();
    t.env.ledger().set_timestamp(5);
    assert_eq!(t.file("d1", 250), Ok(()));
    assert_eq!(t.decide(&t.arbitrator, DisputeOutcome::Split, 4_000), Ok(()));
    t.env.ledger().set_timestamp(8);
    assert_eq!(t.settle(), Ok(()));
    let view = t.run(|env| CachedDisputeView::load(env, t.id())).unwrap();
    assert_eq!(view.filed_at(), 5);
    assert_eq!(view.settled_at(), 8);
    assert_eq!(view.outcome(), DisputeOutcome::Split);
    assert_eq!(view.dispute().respondent, t.respondent);
    assert_eq!(view.into_dispute().arbitrator, Some(t.arbitrator.clone()));
}

#[test]
fn summaries_come_in_the_order_of_the_ids() {
    let t = Fixture::new();
    t.env.ledger().set_timestamp(6);
    assert_eq!(t.file("d1", 10), Ok(()));
    assert_eq!(t.file("d2", 20), Ok(()));
    assert_eq!(t.submit(&t.respondent, "x"), Ok(()));
    let ids = Vec::from_array(&t.env, [t.symbol("d2"), t.symbol("no"), t.id(), t.symbol("d2")]);
    let summaries = t.run(|env| get_dispute_summary_batch(env, ids));
    assert_eq!(summaries.len(), 3);
    assert_eq!(summaries[0].id, t.symbol("d2"));
    assert_eq!(summaries[0].amount, 20);
    assert!(!summaries[0].both_evidence_submitted);
    assert_eq!(summaries[1].id, t.id());
    assert_eq!(summaries[1].amount, 10);
    assert_eq!(summaries[1].status, DisputeStatus::Evidence);
    assert_eq!(summaries[1].outcome, DisputeOutcome::RefundDisputer);
    assert_eq!(summaries[1].filed_at, 6);
    assert!(summaries[1].both_evidence_submitted);
    assert_eq!(summaries[2].clone().amount, 20);
}

#[test]
fn an_item_that_is_no_id_gives_no_summary() {
    let t = Fixture::new();
    assert_eq!(t.file("d1", 10), Ok(()));
    let mixed: Vec<Val> = Vec::from_array(
        &t.env,
        [7u32.into_val(&t.env), t.id().into_val(&t.env), t.disputer.clone().into_val(&t.env)],
    );
    let ids: Vec<Symbol> = mixed.to_val().into_val(&t.env);
    let summaries = t.run(|env| get_dispute_summary_batch(env, ids));
    assert_eq!(summaries.len(), 1);
    assert_eq!(summaries[0].id, t.id());
}

#[test]
fn a_dispute_comes_with_those_who_may_decide_it() {
    let t = Fixture::new();
    let found = t.run(|env| get_dispute_with_parties_cached(env, t.id()));
    assert!(found.is_none());
    assert_eq!(t.file("d1", 10), Ok(()));
    let (dispute, arbitrators) =
        t.run(|env| get_dispute_with_parties_cached(env, t.id())).unwrap();
    assert_eq!(dispute.amount, 10);
    assert_eq!(arbitrators, Vec::from_array(&t.env, [t.arbitrator.clone()]));
}

fn decided(t: &Fixture, outcome: DisputeOutcome, amount: i128, split_bps: u32) -> Dispute {
    let filed = Dispute::file(
        t.id(),
        t.disputer.clone(),
        t.respondent.clone(),
        t.token.clone(),
        amount,
        t.text("abc"),
        3,
    );
    assert!(filed.is_undecided());
    filed.rule(t.arbitrator.clone(), outcome, split_bps).ok().unwrap()
}

fn paid(dispute: &Dispute) -> std::vec::Vec<(Address, i128)> {
    let payouts = dispute.payouts().ok().unwrap();
    payouts.iter().map(|payout| (payout.to.clone(), payout.amount)).collect()
}

#[test]
fn payouts_follow_the_decision() {
    let t = Fixture::bare();
    let (d, r) = (t.disputer.clone(), t.respondent.clone());
    let refund = decided(&t, DisputeOutcome::RefundDisputer, 70, 9);
    assert_eq!(paid(&refund), vec![(d.clone(), 70)]);
    let release = decided(&t, DisputeOutcome::ReleaseRespondent, 70, 9);
    assert_eq!(paid(&release), vec![(r.clone(), 70)]);
    let split = decided(&t, DisputeOutcome::Split, 70, 2_999);
    assert_eq!(paid(&split), vec![(r.clone(), 20), (d.clone(), 50)]);
    let nothing = decided(&t, DisputeOutcome::Split, 70, 0);
    assert_eq!(paid(&nothing), vec![(d, 70)]);
    let everything = decided(&t, DisputeOutcome::Split, 70, 10_000);
    assert_eq!(paid(&everything), vec![(r, 70)]);
}

#[test]
fn payouts_of_odd_records_are_rounded_towards_zero() {
    let t = Fixture::bare();
    let negative = decided(&t, DisputeOutcome::Split, -7, 5_000);
    assert_eq!(paid(&negative), vec![]);
    let debt = decided(&t, DisputeOutcome::Split, -7, 30_000);
    assert_eq!(paid(&debt), vec![(t.disputer.clone(), 14)]);
    let beyond = decided(&t, DisputeOutcome::Split, 1, u32::MAX);
    assert_eq!(paid(&beyond), vec![(t.respondent.clone(), 429_496)]);
    let huge = decided(&t, DisputeOutcome::Split, i128::MAX, 2);
    assert_eq!(huge.payouts().err(), Some(DisputeError::SplitOverflow));
    let whole = decided(&t, DisputeOutcome::RefundDisputer, i128::MAX, 2);
    assert_eq!(paid(&whole), vec![(t.disputer.clone(), i128::MAX)]);
}

#[test]
fn whoever_is_both_parties_submits_as_the_disputer() {
    let t = Fixture::bare();
    let filed = Dispute::file(
        t.id(),
        t.disputer.clone(),
        t.disputer.clone(),
        t.token.clone(),
        5,
        t.text("abc"),
        3,
    );
    let after = filed.submit(&t.disputer, t.text("new")).ok().unwrap();
    assert_eq!(after.disputer_evidence, Some(t.text("new")));
    assert_eq!(after.respondent_evidence, None);
    assert_eq!(after.status, DisputeStatus::Evidence);
}

#[test]
fn a_record_gives_its_dispute_back() {
    let t = Fixture::bare();
    let dispute = decided(&t, DisputeOutcome::Split, 70, 2_999).close(44);
    let record = dispute.clone().encode();
    assert_eq!(record.status, 3);
    assert_eq!(record.outcome, 2);
    assert_eq!(record.settled_at, 44);
    let back = record.decode().unwrap();
    assert_eq!(back.status, DisputeStatus::Settled);
    assert_eq!(back.outcome, DisputeOutcome::Split);
    assert_eq!(back.id, dispute.id);
    assert_eq!(back.arbitrator, Some(t.arbitrator.clone()));
    let mut odd = dispute.encode();
    odd.outcome = 3;
    assert!(odd.decode().is_none());
}
