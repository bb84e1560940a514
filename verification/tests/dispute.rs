use bluecollar::dispute::contract::DisputeContract;
use bluecollar::dispute::types::{DisputeError, DisputeOutcome, DisputeStatus, VERSION};
use bluecollar::dispute::views::{get_dispute_summary_batch, CachedDisputeView};
use soroban_sdk::testutils::{Address as _, ContractFunctionSet, EnvTestConfig};
use soroban_sdk::token::{StellarAssetClient, TokenClient};
use soroban_sdk::{Address, Env, String, Symbol, Val, Vec};

struct Host;

impl ContractFunctionSet for Host {
    fn call(&self, _func: &str, _env: Env, _args: &[Val]) -> Option<Val> {
        None
    }
}

struct Fixture {
    env: Env,
    contract: Address,
    admin: Address,
    disputer: Address,
    respondent: Address,
    arbitrator: Address,
    token: Address,
}

fn accept<R>(result: Result<R, DisputeError>) -> R {
    match result {
        Ok(value) => value,
        Err(error) => panic!("{}", error.message()),
    }
}

impl Fixture {
    fn new() -> Self {
        let env = Env::new_with_config(EnvTestConfig { capture_snapshot_at_drop: false });
        env.mock_all_auths();

        let admin = Address::generate(&env);
        let disputer = Address::generate(&env);
        let respondent = Address::generate(&env);
        let arbitrator = Address::generate(&env);

        let token = env.register_stellar_asset_contract_v2(admin.clone()).address();
        StellarAssetClient::new(&env, &token).mint(&disputer, &1_000_000);

        let contract = env.register(Host, ());
        let t = Fixture { env, contract, admin, disputer, respondent, arbitrator, token };
        accept(t.run(|env| DisputeContract::initialize(env, t.admin.clone())));
        accept(t.run(|env| {
            DisputeContract::add_arbitrator(env, t.admin.clone(), t.arbitrator.clone())
        }));
        t
    }

    fn run<R>(&self, f: impl FnOnce(&mut Env) -> R) -> R {
        let mut env = self.env.clone();
        self.env.as_contract(&self.contract, || f(&mut env))
    }

    fn id(&self) -> Symbol {
        Symbol::new(&self.env, "d1")
    }

    fn hash(&self, s: &str) -> String {
        String::from_str(&self.env, s)
    }

    fn balance(&self, addr: &Address) -> i128 {
        TokenClient::new(&self.env, &self.token).balance(addr)
    }

    fn file(&self, id: Symbol, amount: i128, evidence: &str) -> Result<(), DisputeError> {
        self.run(|env| {
            DisputeContract::file_dispute(
                env,
                id,
                self.disputer.clone(),
                self.respondent.clone(),
                self.token.clone(),
                amount,
                self.hash(evidence),
            )
        })
    }

    fn open(&self) {
        accept(self.file(self.id(), 100_000, "abc123"));
    }

    fn submit(&self, caller: &Address, evidence: &str) -> Result<(), DisputeError> {
        self.run(|env| {
            DisputeContract::submit_evidence(env, self.id(), caller.clone(), self.hash(evidence))
        })
    }

    fn decide(&self, who: &Address, outcome: DisputeOutcome, bps: u32) -> Result<(), DisputeError> {
        self.run(|env| DisputeContract::decide(env, self.id(), who.clone(), outcome, bps))
    }

    fn settle(&self) -> Result<(), DisputeError> {
        self.run(|env| DisputeContract::settle(env, self.id()))
    }

    fn dispute(&self) -> bluecollar::dispute::types::Dispute {
        self.run(|env| DisputeContract::get_dispute(env, self.id())).unwrap()
    }

    fn view(&self) -> CachedDisputeView {
        self.run(|env| CachedDisputeView::load(env, self.id())).expect("dispute must exist")
    }
}

#[test]
fn test_initialize_sets_admin() {
    let t = Fixture::new();
    assert_eq!(t.run(|env| DisputeContract::get_admin(env)), Ok(t.admin.clone()));
}

#[test]
#[should_panic(expected = "Already initialized")]
fn test_double_initialize_panics() {
    let t = Fixture::new();
    accept(t.run(|env| DisputeContract::initialize(env, t.admin.clone())));
}

#[test]
fn test_file_dispute_locks_tokens() {
    let t = Fixture::new();
    t.open();
    assert_eq!(t.balance(&t.contract), 100_000);
    assert_eq!(t.balance(&t.disputer), 900_000);
    assert_eq!(t.dispute().status, DisputeStatus::Open);
}

#[test]
#[should_panic(expected = "Dispute id already exists")]
fn test_duplicate_dispute_panics() {
    let t = Fixture::new();
    t.open();
    t.open();
}

#[test]
fn test_submit_evidence_advances_status() {
    let t = Fixture::new();
    t.open();
    accept(t.submit(&t.respondent, "def456"));
    let d = t.dispute();
    assert_eq!(d.status, DisputeStatus::Evidence);
    assert!(d.respondent_evidence.is_some());
}

#[test]
#[should_panic(expected = "Not a party")]
fn test_submit_evidence_stranger_panics() {
    let t = Fixture::new();
    t.open();
    let stranger = Address::generate(&t.env);
    accept(t.submit(&stranger, "xyz"));
}

#[test]
fn test_decide_records_outcome() {
    let t = Fixture::new();
    t.open();
    accept(t.decide(&t.arbitrator, DisputeOutcome::ReleaseRespondent, 0));
    let d = t.dispute();
    assert_eq!(d.status, DisputeStatus::Decided);
    assert_eq!(d.outcome, DisputeOutcome::ReleaseRespondent);
    assert_eq!(d.arbitrator, Some(t.arbitrator.clone()));
}

#[test]
#[should_panic(expected = "Not an arbitrator")]
fn test_decide_non_arbitrator_panics() {
    let t = Fixture::new();
    t.open();
    let stranger = Address::generate(&t.env);
    accept(t.decide(&stranger, DisputeOutcome::RefundDisputer, 0));
}

#[test]
#[should_panic(expected = "Not decided yet")]
fn test_settle_before_decide_panics() {
    let t = Fixture::new();
    t.open();
    accept(t.settle());
}

#[test]
fn test_settle_refund_disputer() {
    let t = Fixture::new();
    t.open();
    accept(t.decide(&t.arbitrator, DisputeOutcome::RefundDisputer, 0));
    accept(t.settle());
    assert_eq!(t.balance(&t.disputer), 1_000_000);
    assert_eq!(t.balance(&t.contract), 0);
    assert_eq!(t.dispute().status, DisputeStatus::Settled);
}

#[test]
fn test_settle_release_respondent() {
    let t = Fixture::new();
    t.open();
    accept(t.decide(&t.arbitrator, DisputeOutcome::ReleaseRespondent, 0));
    accept(t.settle());
    assert_eq!(t.balance(&t.respondent), 100_000);
    assert_eq!(t.balance(&t.contract), 0);
}

#[test]
fn test_settle_split_50_50() {
    let t = Fixture::new();
    t.open();
    accept(t.decide(&t.arbitrator, DisputeOutcome::Split, 5_000));
    accept(t.settle());
    assert_eq!(t.balance(&t.respondent), 50_000);
    assert_eq!(t.balance(&t.disputer), 950_000);
    assert_eq!(t.balance(&t.contract), 0);
}

#[test]
#[should_panic(expected = "Not decided yet")]
fn test_settle_twice_panics() {
    let t = Fixture::new();
    t.open();
    accept(t.decide(&t.arbitrator, DisputeOutcome::RefundDisputer, 0));
    accept(t.settle());
    accept(t.settle());
}

#[test]
fn test_version_returns_constant() {
    let t = Fixture::new();
    assert_eq!(DisputeContract::version(&t.env), VERSION);
}

#[test]
fn test_list_disputes() {
    let t = Fixture::new();
    t.open();
    let ids = t.run(|env| DisputeContract::list_disputes(env));
    assert_eq!(ids.len(), 1);
    assert_eq!(ids.get(0).unwrap(), t.id());
}

#[test]
fn test_pause_blocks_file_dispute() {
    let t = Fixture::new();
    accept(t.run(|env| DisputeContract::pause(env, t.admin.clone())));
    assert_eq!(t.file(t.id(), 100_000, "abc123"), Err(DisputeError::Paused));
    accept(t.run(|env| DisputeContract::unpause(env, t.admin.clone())));
    t.open();
}

#[test]
fn test_cached_dispute_view_load_existing() {
    let t = Fixture::new();
    t.open();
    let view = t.view();
    assert!(matches!(view.status(), DisputeStatus::Open));
    assert!(view.is_decidable());
    assert!(!view.is_settled());
    assert!(!view.is_pending_settlement());
    assert!(view.has_disputer_evidence());
    assert!(!view.has_respondent_evidence());
    assert!(!view.both_parties_submitted());
    assert_eq!(view.amount(), 100_000);
}

#[test]
fn test_cached_dispute_view_load_nonexistent() {
    let t = Fixture::new();
    let view = t.run(|env| CachedDisputeView::load(env, Symbol::new(&t.env, "ghost")));
    assert!(view.is_none());
}

#[test]
fn test_cached_dispute_view_both_evidence_after_respondent_submits() {
    let t = Fixture::new();
    t.open();
    accept(t.submit(&t.respondent, "def"));
    let view = t.view();
    assert!(view.both_parties_submitted());
    assert!(matches!(view.status(), DisputeStatus::Evidence));
}

#[test]
fn test_cached_dispute_view_decided_phase() {
    let t = Fixture::new();
    t.open();
    accept(t.decide(&t.arbitrator, DisputeOutcome::ReleaseRespondent, 0));
    let view = t.view();
    assert!(view.is_pending_settlement());
    assert!(!view.is_decidable());
    assert!(matches!(view.outcome(), DisputeOutcome::ReleaseRespondent));
}

#[test]
fn test_cached_dispute_view_settled_phase() {
    let t = Fixture::new();
    t.open();
    accept(t.decide(&t.arbitrator, DisputeOutcome::RefundDisputer, 0));
    accept(t.settle());
    let view = t.view();
    assert!(view.is_settled());
    let _settled_at = view.settled_at();
}

#[test]
fn test_cached_dispute_view_split_bps() {
    let t = Fixture::new();
    t.open();
    accept(t.decide(&t.arbitrator, DisputeOutcome::Split, 6_000));
    assert_eq!(t.view().split_bps(), 6_000);
}

#[test]
fn test_dispute_summary_batch_all_present() {
    let t = Fixture::new();
    let mut ids: Vec<Symbol> = Vec::new(&t.env);
    for name in ["d0", "d1", "d2"] {
        let id = Symbol::new(&t.env, name);
        accept(t.file(id.clone(), 50_000, "h"));
        ids.push_back(id);
    }
    let summaries = t.run(|env| get_dispute_summary_batch(env, ids));
    assert_eq!(summaries.len(), 3);
    for s in &summaries {
        assert!(matches!(s.status, DisputeStatus::Open));
        assert_eq!(s.amount, 50_000);
    }
}

#[test]
fn test_dispute_summary_batch_skips_missing() {
    let t = Fixture::new();
    t.open();
    let ids = Vec::from_array(&t.env, [t.id(), Symbol::new(&t.env, "ghost")]);
    let summaries = t.run(|env| get_dispute_summary_batch(env, ids));
    assert_eq!(summaries.len(), 1);
}

#[test]
fn test_dispute_summary_batch_empty() {
    let t = Fixture::new();
    let summaries = t.run(|env| get_dispute_summary_batch(env, Vec::new(&t.env)));
    assert_eq!(summaries.len(), 0);
}
