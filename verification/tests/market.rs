use bluecollar::market::types::MarketError;
use bluecollar::market::views::{
    get_escrow_status_batch, get_escrow_with_arbitration_cached,
    get_multisig_with_arbitration_cached, CachedConfigView, CachedEscrowView,
};
use soroban_sdk::testutils::{Address as _, ContractFunctionSet, EnvTestConfig};
use soroban_sdk::{Address, Env, IntoVal, Symbol, Val, Vec};

type Fields = soroban_sdk::Map<Symbol, Val>;

struct Host;

impl ContractFunctionSet for Host {
    fn call(&self, _func: &str, _env: Env, _args: &[Val]) -> Option<Val> {
        None
    }
}

/// A market whose storage the test fills by hand.
struct Fixture {
    env: Env,
    contract: Address,
    admin: Address,
    payer: Address,
    worker: Address,
}

impl Fixture {
    fn bare() -> Self {
        let env = Env::new_with_config(EnvTestConfig { capture_snapshot_at_drop: false });
        let admin = Address::generate(&env);
        let payer = Address::generate(&env);
        let worker = Address::generate(&env);
        let contract = env.register(Host, ());
        Fixture { env, contract, admin, payer, worker }
    }

    fn new_with_fee(fee_bps: u32) -> Self {
        let t = Fixture::bare();
        let config = t.fields(&[
            ("fee_bps", t.val(fee_bps)),
            ("fee_recipient", t.val(t.admin.clone())),
            ("admin", t.val(t.admin.clone())),
        ]);
        t.run(|env| env.storage().instance().set(&(Symbol::new(env, "Config"),), &config));
        t
    }

    fn new() -> Self {
        Self::new_with_fee(0)
    }

    fn run<R>(&self, f: impl FnOnce(&mut Env) -> R) -> R {
        let mut env = self.env.clone();
        self.env.as_contract(&self.contract, || f(&mut env))
    }

    fn symbol(&self, text: &str) -> Symbol {
        Symbol::new(&self.env, text)
    }

    fn escrow_id(&self) -> Symbol {
        self.symbol("esc1")
    }

    fn fields(&self, list: &[(&str, Val)]) -> Fields {
        let mut fields = Fields::new(&self.env);
        for (name, value) in list {
            fields.set(self.symbol(name), *value);
        }
        fields
    }

    fn val<V: IntoVal<Env, Val>>(&self, value: V) -> Val {
        value.into_val(&self.env)
    }

    fn store(&self, name: &str, id: &Symbol, fields: &Fields) {
        self.run(|env| {
            env.storage().persistent().set(&(Symbol::new(env, name), id.clone()), fields)
        })
    }

    fn stored(&self, name: &str, id: &Symbol) -> Fields {
        self.run(|env| {
            env.storage().persistent().get(&(Symbol::new(env, name), id.clone())).unwrap()
        })
    }

    fn flag(&self, fields: &Fields, name: &str) -> bool {
        fields.get(self.symbol(name)).unwrap().into_val(&self.env)
    }

    fn set_flag(&self, name: &str, id: &Symbol, field: &str) {
        let mut fields = self.stored(name, id);
        fields.set(self.symbol(field), self.val(true));
        self.store(name, id, &fields);
    }

    fn create_escrow(&self, id: &Symbol, amount: i128, expiry: u64) {
        let escrow = self.fields(&[
            ("from", self.val(self.payer.clone())),
            ("to", self.val(self.worker.clone())),
            ("amount", self.val(amount)),
            ("expiry", self.val(expiry)),
            ("released", self.val(false)),
            ("cancelled", self.val(false)),
            ("arbitration_requested", self.val(false)),
        ]);
        self.store("Escrow", id, &escrow);
    }

    fn release_escrow(&self, id: &Symbol) {
        self.set_flag("Escrow", id, "released");
    }

    fn create_multisig_escrow(&self, id: &Symbol, threshold: u32) {
        let escrow =
            self.fields(&[("released", self.val(false)), ("threshold", self.val(threshold))]);
        self.store("MultiSigEscrow", id, &escrow);
    }

    fn store_arbitration(&self, id: &Symbol, arbitrator: &Address) {
        let arbitration = self.fields(&[
            ("arbitrator", self.val(arbitrator.clone())),
            ("resolved", self.val(false)),
        ]);
        self.store("Arbitration", id, &arbitration);
    }

    fn request_arbitration(&self, id: &Symbol, arbitrator: &Address) {
        self.set_flag("Escrow", id, "arbitration_requested");
        self.store_arbitration(id, arbitrator);
    }

    fn config(&self) -> CachedConfigView {
        self.run(|env| CachedConfigView::load(env)).ok().expect("config must exist")
    }

    fn view(&self, id: &Symbol) -> CachedEscrowView {
        self.run(|env| CachedEscrowView::load(env, id.clone())).expect("escrow must exist")
    }
}

#[test]
fn test_cached_config_view_load() {
    let view = Fixture::new_with_fee(100).config();
    assert_eq!(view.fee_bps(), 100);
    assert!(view.has_fee());
}

#[test]
fn test_cached_config_view_zero_fee() {
    let view = Fixture::new().config();
    assert_eq!(view.fee_bps(), 0);
    assert!(!view.has_fee());
}

#[test]
fn test_cached_config_view_into_config() {
    let view = Fixture::new_with_fee(250).config();
    let cfg = view.into_config();
    assert_eq!(cfg.fee_bps, 250);
}

#[test]
fn test_cached_escrow_view_load_existing() {
    let t = Fixture::new();
    t.create_escrow(&t.escrow_id(), 300_000, 9_999);
    let view = t.view(&t.escrow_id());
    assert!(view.is_active());
    assert!(!view.is_released());
    assert!(!view.is_cancelled());
    assert!(!view.arbitration_requested());
    assert_eq!(view.amount(), 300_000);
    assert_eq!(view.expiry(), 9_999);
}

#[test]
fn test_cached_escrow_view_load_nonexistent() {
    let t = Fixture::new();
    assert!(t.run(|env| CachedEscrowView::load(env, t.symbol("ghost"))).is_none());
}

#[test]
fn test_cached_escrow_view_is_expired() {
    let t = Fixture::new();
    t.create_escrow(&t.escrow_id(), 100_000, 9_999_999);
    let view = t.view(&t.escrow_id());
    assert!(!view.is_expired(0));
    assert!(view.is_expired(9_999_999));
    assert!(view.is_expired(10_000_000));
}

#[test]
fn test_cached_escrow_view_after_release() {
    let t = Fixture::new();
    t.create_escrow(&t.escrow_id(), 100_000, 9_999);
    t.release_escrow(&t.escrow_id());
    let view = t.view(&t.escrow_id());
    assert!(view.is_released());
    assert!(!view.is_active());
}

#[test]
fn test_get_escrow_with_arbitration_cached_no_arbitration() {
    let t = Fixture::new();
    t.create_escrow(&t.escrow_id(), 100_000, 9_999);
    let (escrow, arb) =
        t.run(|env| get_escrow_with_arbitration_cached(env, t.escrow_id())).unwrap();
    assert!(!escrow.released);
    assert!(arb.is_none());
}

#[test]
fn test_get_escrow_with_arbitration_cached_with_arbitration() {
    let t = Fixture::new();
    let arbitrator = Address::generate(&t.env);
    t.create_escrow(&t.escrow_id(), 100_000, 9_999);
    t.request_arbitration(&t.escrow_id(), &arbitrator);
    let (escrow, arb) =
        t.run(|env| get_escrow_with_arbitration_cached(env, t.escrow_id())).unwrap();
    assert!(escrow.arbitration_requested);
    let a = arb.expect("arbitration record must exist");
    assert_eq!(a.arbitrator, arbitrator);
    assert!(!a.resolved);
}

#[test]
fn test_get_escrow_with_arbitration_cached_nonexistent() {
    let t = Fixture::new();
    let result = t.run(|env| get_escrow_with_arbitration_cached(env, t.symbol("ghost")));
    assert!(result.is_none());
}

#[test]
fn test_get_multisig_with_arbitration_cached_no_arb() {
    let t = Fixture::new();
    let ms_id = t.symbol("ms1");
    t.create_multisig_escrow(&ms_id, 1);
    let (escrow, arb) =
        t.run(|env| get_multisig_with_arbitration_cached(env, ms_id)).unwrap();
    assert!(!escrow.released);
    assert!(arb.is_none());
}

#[test]
fn test_get_escrow_status_batch_all_present() {
    let t = Fixture::new();
    let ids = Vec::from_array(&t.env, [t.symbol("e1"), t.symbol("e2"), t.symbol("e3")]);
    for id in ids.iter() {
        t.create_escrow(&id, 50_000, 9_999);
    }
    let summaries = t.run(|env| get_escrow_status_batch(env, ids));
    assert_eq!(summaries.len(), 3);
    for s in &summaries {
        assert!(!s.released);
        assert!(!s.cancelled);
        assert_eq!(s.amount, 50_000);
    }
}

#[test]
fn test_get_escrow_status_batch_skips_missing() {
    let t = Fixture::new();
    t.create_escrow(&t.escrow_id(), 100_000, 9_999);
    let ids = Vec::from_array(&t.env, [t.escrow_id(), t.symbol("ghost1"), t.symbol("ghost2")]);
    let summaries = t.run(|env| get_escrow_status_batch(env, ids));
    assert_eq!(summaries.len(), 1);
    assert_eq!(summaries[0].amount, 100_000);
}

#[test]
fn test_get_escrow_status_batch_empty() {
    let t = Fixture::new();
    assert_eq!(t.run(|env| get_escrow_status_batch(env, Vec::new(&t.env))).len(), 0);
}

#[test]
fn test_get_escrow_status_batch_reflects_released_state() {
    let t = Fixture::new();
    let id = t.symbol("rel1");
    t.create_escrow(&id, 200_000, 9_999);
    t.release_escrow(&id);
    let ids = Vec::from_array(&t.env, [id]);
    let summaries = t.run(|env| get_escrow_status_batch(env, ids));
    assert_eq!(summaries.len(), 1);
    assert!(summaries[0].released);
}

#[test]
fn bench_cached_config_view_one_read() {
    let view = Fixture::new_with_fee(100).config();
    assert_eq!(view.fee_bps(), 100);
    assert!(view.has_fee());
    let cfg = view.config();
    assert_eq!(cfg.fee_bps, 100);
}

#[test]
fn bench_cached_config_view_zero_fee_no_extra_read() {
    assert!(!Fixture::new().config().has_fee());
}

#[test]
fn bench_cached_escrow_view_one_read() {
    let t = Fixture::new();
    let id = t.symbol("be1");
    t.create_escrow(&id, 200_000, 9_999);
    let view = t.view(&id);
    assert!(view.is_active());
    assert!(!view.is_released());
    assert!(!view.is_cancelled());
    assert!(!view.arbitration_requested());
    assert_eq!(view.amount(), 200_000);
    assert_eq!(view.expiry(), 9_999);
    assert!(!view.is_expired(5_000));
}

#[test]
fn bench_cached_escrow_view_after_release_one_read() {
    let t = Fixture::new();
    let id = t.symbol("be2");
    t.create_escrow(&id, 100_000, 9_999);
    t.release_escrow(&id);
    let view = t.view(&id);
    assert!(view.is_released());
    assert!(!view.is_active());
}

#[test]
fn bench_get_escrow_with_arbitration_cached_no_arb_two_reads() {
    let t = Fixture::new();
    let id = t.symbol("arb1");
    t.create_escrow(&id, 100_000, 9_999);
    let (escrow, arb) = t.run(|env| get_escrow_with_arbitration_cached(env, id)).unwrap();
    assert!(!escrow.released);
    assert!(arb.is_none());
}

#[test]
fn bench_get_escrow_with_arbitration_cached_with_arb_two_reads() {
    let t = Fixture::new();
    let id = t.symbol("arb2");
    let arbitrator = Address::generate(&t.env);
    t.create_escrow(&id, 100_000, 9_999);
    t.request_arbitration(&id, &arbitrator);
    let (escrow, arb) = t.run(|env| get_escrow_with_arbitration_cached(env, id)).unwrap();
    assert!(escrow.arbitration_requested);
    let a = arb.expect("arbitration record must be present");
    assert!(!a.resolved);
}

#[test]
fn bench_get_multisig_with_arbitration_cached_two_reads() {
    let t = Fixture::new();
    let id = t.symbol("ms_arb");
    let arbitrator = Address::generate(&t.env);
    t.create_multisig_escrow(&id, 2);
    t.store_arbitration(&id, &arbitrator);
    let (ms_escrow, arb) =
        t.run(|env| get_multisig_with_arbitration_cached(env, id)).unwrap();
    assert_eq!(ms_escrow.threshold, 2);
    let a = arb.expect("arbitration must be present");
    assert_eq!(a.arbitrator, arbitrator);
}

#[test]
fn bench_escrow_status_batch_n_reads_for_n_escrows() {
    let t = Fixture::new();
    const N: u8 = 5;
    let mut ids: Vec<Symbol> = Vec::new(&t.env);
    for i in 0..N {
        let id = t.symbol(&format!("bs{i}"));
        t.create_escrow(&id, 50_000, 9_999);
        ids.push_back(id);
    }
    let summaries = t.run(|env| get_escrow_status_batch(env, ids));
    assert_eq!(summaries.len(), N as usize);
    for s in &summaries {
        assert!(!s.released);
        assert!(!s.cancelled);
        assert_eq!(s.amount, 50_000);
    }
}

#[test]
fn bench_escrow_status_batch_missing_ids_skipped() {
    let t = Fixture::new();
    let real_id = t.symbol("real");
    t.create_escrow(&real_id, 100_000, 9_999);
    let ids = Vec::from_array(&t.env, [real_id, t.symbol("ghost1"), t.symbol("ghost2")]);
    let summaries = t.run(|env| get_escrow_status_batch(env, ids));
    assert_eq!(summaries.len(), 1);
}

#[test]
fn bench_regression_cached_config_equals_get_config() {
    let t = Fixture::new_with_fee(150);
    let before: Fields = t
        .run(|env| env.storage().instance().get(&(Symbol::new(env, "Config"),)).unwrap());
    let fee_bps: u32 = before.get(t.symbol("fee_bps")).unwrap().into_val(&t.env);
    assert_eq!(t.config().fee_bps(), fee_bps);
    assert_eq!(fee_bps, 150);
}

#[test]
fn bench_regression_cached_escrow_equals_get_escrow() {
    let t = Fixture::new();
    let id = t.symbol("reg1");
    t.create_escrow(&id, 300_000, 5_555);
    let before = t.stored("Escrow", &id);
    let amount: i128 = before.get(t.symbol("amount")).unwrap().into_val(&t.env);
    let expiry: u64 = before.get(t.symbol("expiry")).unwrap().into_val(&t.env);
    let view = t.view(&id);
    assert_eq!(view.amount(), amount);
    assert_eq!(view.expiry(), expiry);
    assert_eq!(view.is_released(), t.flag(&before, "released"));
    assert_eq!(view.is_cancelled(), t.flag(&before, "cancelled"));
}

#[test]
fn bench_regression_batch_status_equals_individual() {
    let t = Fixture::new();
    let id1 = t.symbol("cmp1");
    let id2 = t.symbol("cmp2");
    t.create_escrow(&id1, 100_000, 9_999);
    t.create_escrow(&id2, 200_000, 9_999);
    t.release_escrow(&id1);
    let e1 = t.stored("Escrow", &id1);
    let e2 = t.stored("Escrow", &id2);
    let ids = Vec::from_array(&t.env, [id1, id2]);
    let summaries = t.run(|env| get_escrow_status_batch(env, ids));
    assert_eq!(summaries[0].released, t.flag(&e1, "released"));
    assert_eq!(summaries[0].cancelled, t.flag(&e1, "cancelled"));
    assert_eq!(summaries[1].released, t.flag(&e2, "released"));
    assert_eq!(summaries[1].cancelled, t.flag(&e2, "cancelled"));
}

#[test]
fn a_market_without_configuration_says_so() {
    let t = Fixture::bare();
    let error = t.run(|env| CachedConfigView::load(env)).err().unwrap();
    assert_eq!(error, MarketError::NotInitialized);
    assert_eq!(error.message(), "Not initialized");
}

#[test]
fn the_configuration_names_who_gets_the_fee() {
    let t = Fixture::new_with_fee(1);
    assert!(t.config().has_fee());
    assert_eq!(t.config().config().clone().fee_recipient, t.admin);
}

#[test]
fn a_cancelled_escrow_is_not_active() {
    let t = Fixture::new();
    let id = t.escrow_id();
    t.create_escrow(&id, 1, 10);
    t.set_flag("Escrow", &id, "cancelled");
    let view = t.view(&id);
    assert!(view.is_cancelled());
    assert!(!view.is_released());
    assert!(!view.is_active());
    assert!(!view.is_expired(9));
    assert!(view.is_expired(10));
    assert!(view.escrow().cancelled);
    assert_eq!(view.into_escrow().amount, 1);
}

#[test]
fn an_arbitration_without_its_escrow_is_not_given() {
    let t = Fixture::new();
    let id = t.escrow_id();
    t.store_arbitration(&id, &t.admin);
    assert!(t.run(|env| get_escrow_with_arbitration_cached(env, id.clone())).is_none());
    assert!(t.run(|env| get_multisig_with_arbitration_cached(env, id)).is_none());
}

#[test]
fn what_no_market_view_reads_is_handed_on() {
    let t = Fixture::new_with_fee(1);
    let id = t.escrow_id();
    t.create_escrow(&id, 1, 10);
    let escrow = t.view(&id).into_escrow();
    let payer: Address = escrow.record.get(t.symbol("from")).unwrap().into_val(&t.env);
    assert_eq!(payer, t.payer);
    let config = t.config().into_config();
    let admin: Address = config.record.get(t.symbol("admin")).unwrap().into_val(&t.env);
    assert_eq!(admin, t.admin);
}

#[test]
fn an_item_that_is_no_id_gives_no_escrow() {
    let t = Fixture::new();
    let id = t.escrow_id();
    t.create_escrow(&id, 1, 10);
    let mixed: Vec<Val> = Vec::from_array(&t.env, [t.val(id.clone()), t.val(true), t.val(id)]);
    let ids: Vec<Symbol> = mixed.to_val().into_val(&t.env);
    assert_eq!(t.run(|env| get_escrow_status_batch(env, ids)).len(), 2);
}

#[test]
fn a_configuration_that_is_no_record_is_none() {
    let t = Fixture::bare();
    t.run(|env| env.storage().instance().set(&(Symbol::new(env, "Config"),), &5u32));
    let error = t.run(|env| CachedConfigView::load(env)).err().unwrap();
    assert_eq!(error, MarketError::NotInitialized);
}

#[test]
fn escrow_summaries_come_in_the_order_of_the_ids() {
    let t = Fixture::new();
    let first = t.symbol("e1");
    let second = t.symbol("e2");
    t.create_escrow(&first, 1, 10);
    t.create_escrow(&second, 2, 20);
    t.request_arbitration(&second, &t.admin);
    let ids = Vec::from_array(&t.env, [second.clone(), t.symbol("no"), first.clone()]);
    let summaries = t.run(|env| get_escrow_status_batch(env, ids));
    assert_eq!(summaries.len(), 2);
    assert_eq!(summaries[0].id, second);
    assert_eq!(summaries[0].expiry, 20);
    assert!(summaries[0].arbitration_requested);
    assert_eq!(summaries[1].clone().id, first);
    assert!(!summaries[1].arbitration_requested);
}
