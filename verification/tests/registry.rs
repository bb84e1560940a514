use bluecollar::registry::types::{SubscriptionTier, VerificationLevel, WorkerSubscription};
use bluecollar::registry::views::{
    get_category_verification_cached, get_location_verification_cached, get_worker_count_cached,
    get_worker_profile_cached, get_worker_summary_batch, get_worker_with_availability_cached,
    get_worker_with_metrics_cached, get_worker_with_reputation_inputs_cached,
    get_worker_with_stake_cached, CachedWorkerView,
};
use soroban_sdk::testutils::{Address as _, ContractFunctionSet, EnvTestConfig};
use soroban_sdk::{Address, BytesN, Env, IntoVal, String, Symbol, Val, Vec};

type Fields = soroban_sdk::Map<Symbol, Val>;

struct Host;

impl ContractFunctionSet for Host {
    fn call(&self, _func: &str, _env: Env, _args: &[Val]) -> Option<Val> {
        None
    }
}

/// A registry whose storage the test fills by hand.
struct Fixture {
    env: Env,
    contract: Address,
    owner: Address,
    wallet: Address,
}

impl Fixture {
    fn new() -> Self {
        let env = Env::new_with_config(EnvTestConfig { capture_snapshot_at_drop: false });
        let owner = Address::generate(&env);
        let wallet = Address::generate(&env);
        let contract = env.register(Host, ());
        Fixture { env, contract, owner, wallet }
    }

    fn run<R>(&self, f: impl FnOnce(&mut Env) -> R) -> R {
        let mut env = self.env.clone();
        self.env.as_contract(&self.contract, || f(&mut env))
    }

    fn symbol(&self, text: &str) -> Symbol {
        Symbol::new(&self.env, text)
    }

    fn worker_id(&self) -> Symbol {
        self.symbol("worker1")
    }

    fn fields(&self, list: &[(&str, Val)]) -> Fields {
        let mut fields = Fields::new(&self.env);
        for (name, value) in list {
            fields.set(self.symbol(name), *value);
        }
        fields
    }

    fn val<V: IntoVal<Env, Val>>(&self, value: V) -> Val {
        value.into_val(&self.env)
    }

    fn store<V: IntoVal<Env, Val>>(&self, name: &str, id: &Symbol, value: V) {
        self.run(|env| {
            env.storage().persistent().set(&(Symbol::new(env, name), id.clone()), &value)
        })
    }

    fn worker_fields(&self, id: &Symbol) -> Fields {
        let subscription =
            self.fields(&[("tier", self.val(0u32)), ("expires_at", self.val(0u64))]);
        self.fields(&[
            ("id", self.val(id.clone())),
            ("owner", self.val(self.owner.clone())),
            ("name", self.val(String::from_str(&self.env, "Alice"))),
            ("category", self.val(self.symbol("plumber"))),
            ("wallet", self.val(self.wallet.clone())),
            ("location_hash", self.val(BytesN::from_array(&self.env, &[1u8; 32]))),
            ("contact_hash", self.val(BytesN::from_array(&self.env, &[2u8; 32]))),
            ("is_active", self.val(true)),
            ("reputation", self.val(0u32)),
            ("review_count", self.val(0u32)),
            ("avg_rating", self.val(0u32)),
            ("staked_amount", self.val(0i128)),
            ("subscription", self.val(subscription)),
            ("verified_categories", self.val(Vec::<Symbol>::new(&self.env))),
        ])
    }

    fn set_count(&self, count: u32) {
        self.run(|env| {
            env.storage().persistent().set(&(Symbol::new(env, "WorkerCount"),), &count)
        })
    }

    fn count(&self) -> u32 {
        self.run(|env| get_worker_count_cached(env))
    }

    fn register(&self, id: &Symbol) {
        self.store("Worker", id, self.worker_fields(id));
        self.set_count(self.count() + 1);
    }

    fn register_worker(&self) -> Symbol {
        self.register(&self.worker_id());
        self.worker_id()
    }

    fn set_field<V: IntoVal<Env, Val>>(&self, id: &Symbol, field: &str, value: V) {
        let value = self.val(value);
        let field = self.symbol(field);
        self.run(|env| {
            let key = (Symbol::new(env, "Worker"), id.clone());
            let mut fields: Fields = env.storage().persistent().get(&key).unwrap();
            fields.set(field, value);
            env.storage().persistent().set(&key, &fields);
        })
    }

    fn submit_review(&self, id: &Symbol, rating: u32) {
        self.set_field(id, "reputation", rating);
        self.set_field(id, "avg_rating", rating);
        self.set_field(id, "review_count", 1u32);
        let inputs = self.fields(&[
            ("rating_count", self.val(1u32)),
            ("rating_sum", self.val(rating as u64)),
        ]);
        self.store("ReputationInputs", id, inputs);
    }

    fn verify_category(&self, id: &Symbol, category: &Symbol, expires_at: u64) {
        let list = Vec::from_array(&self.env, [self.symbol("painter"), category.clone()]);
        self.set_field(id, "verified_categories", list);
        self.store_category(id, category, expires_at);
    }

    fn store_category(&self, id: &Symbol, category: &Symbol, expires_at: u64) {
        let detail = self.fields(&[("expires_at", self.val(expires_at))]);
        self.run(|env| {
            let key = (Symbol::new(env, "CategoryVerification"), id.clone(), category.clone());
            env.storage().persistent().set(&key, &detail)
        })
    }

    fn verify_location(&self, id: &Symbol, expires_at: u64) {
        let detail = self.fields(&[("expires_at", self.val(expires_at))]);
        self.store("LocationVerification", id, detail);
    }

    fn update_availability(&self, id: &Symbol, available: bool) {
        let detail = self.fields(&[("is_available", self.val(available))]);
        self.store("AvailabilityStatus", id, detail);
    }

    fn update_metrics(&self, id: &Symbol, jobs: u32, score: u32) {
        let detail = self
            .fields(&[("jobs_completed", self.val(jobs)), ("success_rate", self.val(score))]);
        self.store("PerformanceMetrics", id, detail);
    }

    fn view(&self, id: &Symbol) -> CachedWorkerView {
        self.run(|env| CachedWorkerView::load(env, id.clone())).expect("worker must exist")
    }
}

#[test]
fn test_cached_worker_view_load_existing() {
    let t = Fixture::new();
    let id = t.register_worker();
    let view = t.view(&id);
    assert!(view.is_active());
    assert_eq!(view.reputation(), 0);
    assert_eq!(view.review_count(), 0);
    assert_eq!(view.avg_rating(), 0);
    assert_eq!(view.staked_amount(), 0);
    assert!(matches!(view.subscription_tier(), SubscriptionTier::Free));
}

#[test]
fn test_cached_worker_view_load_nonexistent() {
    let t = Fixture::new();
    assert!(t.run(|env| CachedWorkerView::load(env, t.symbol("ghost"))).is_none());
}

#[test]
fn test_cached_worker_view_multiple_accessors_single_read() {
    let t = Fixture::new();
    let id = t.register_worker();
    let view = t.view(&id);
    let _id = view.id();
    let _owner = view.owner();
    let _wallet = view.wallet();
    let _loc = view.location_hash();
    let _con = view.contact_hash();
    let _active = view.is_active();
    let _rep = view.reputation();
    let _rc = view.review_count();
    let _ar = view.avg_rating();
    let _staked = view.staked_amount();
    let _tier = view.subscription_tier();
    let _exp = view.subscription_expires_at();
    let _sub = view.subscription();
    assert!(view.subscription_is_active(u64::MAX));
}

#[test]
fn test_get_worker_profile_cached_returns_defaults() {
    let t = Fixture::new();
    let id = t.register_worker();
    let profile =
        t.run(|env| get_worker_profile_cached(env, id)).expect("profile should exist");
    assert!(profile.worker.is_active);
    assert!(matches!(profile.verification_level, VerificationLevel::Unverified));
}

#[test]
fn test_get_worker_profile_cached_missing_worker() {
    let t = Fixture::new();
    assert!(t.run(|env| get_worker_profile_cached(env, t.symbol("missing"))).is_none());
}

#[test]
fn test_get_worker_profile_cached_reflects_verification_level() {
    let t = Fixture::new();
    let id = t.register_worker();
    t.store("VerificationLevel", &id, 1u32);
    let profile = t.run(|env| get_worker_profile_cached(env, id)).unwrap();
    assert!(matches!(profile.verification_level, VerificationLevel::Verified));
}

#[test]
fn test_get_worker_with_stake_cached_no_stake() {
    let t = Fixture::new();
    let id = t.register_worker();
    let (worker, stake) = t.run(|env| get_worker_with_stake_cached(env, id)).unwrap();
    assert!(worker.is_active);
    assert!(stake.is_none());
}

#[test]
fn test_get_worker_with_stake_cached_missing_worker() {
    let t = Fixture::new();
    assert!(t.run(|env| get_worker_with_stake_cached(env, t.symbol("ghost"))).is_none());
}

#[test]
fn test_get_worker_with_availability_cached_no_availability() {
    let t = Fixture::new();
    let id = t.register_worker();
    let (worker, avail) = t.run(|env| get_worker_with_availability_cached(env, id)).unwrap();
    assert!(worker.is_active);
    assert!(avail.is_none());
}

#[test]
fn test_get_worker_with_availability_cached_with_availability() {
    let t = Fixture::new();
    let id = t.register_worker();
    t.update_availability(&id, true);
    let (_, avail) = t.run(|env| get_worker_with_availability_cached(env, id)).unwrap();
    assert!(avail.is_some());
    assert!(avail.unwrap().is_available);
}

#[test]
fn test_get_worker_with_reputation_inputs_cached_no_reviews() {
    let t = Fixture::new();
    let id = t.register_worker();
    let (worker, inputs) =
        t.run(|env| get_worker_with_reputation_inputs_cached(env, id)).unwrap();
    assert_eq!(worker.reputation, 0);
    assert!(inputs.is_none());
}

#[test]
fn test_get_worker_with_reputation_inputs_cached_after_review() {
    let t = Fixture::new();
    let id = t.register_worker();
    t.submit_review(&id, 8_000);
    let (worker, inputs) =
        t.run(|env| get_worker_with_reputation_inputs_cached(env, id)).unwrap();
    assert!(worker.reputation > 0);
    let inp = inputs.expect("reputation inputs should be present after review");
    assert_eq!(inp.rating_count, 1);
    assert_eq!(inp.rating_sum, 8_000);
}

#[test]
fn test_get_worker_summary_batch_empty_ids() {
    let t = Fixture::new();
    assert_eq!(t.run(|env| get_worker_summary_batch(env, Vec::new(&t.env))).len(), 0);
}

#[test]
fn test_get_worker_summary_batch_all_present() {
    let t = Fixture::new();
    let mut ids: Vec<Symbol> = Vec::new(&t.env);
    for i in 0u8..3 {
        let id = t.symbol(&format!("w{i}"));
        t.register(&id);
        ids.push_back(id);
    }
    let summaries = t.run(|env| get_worker_summary_batch(env, ids));
    assert_eq!(summaries.len(), 3);
    for s in &summaries {
        assert!(s.is_active);
        assert_eq!(s.reputation, 0);
    }
}

#[test]
fn test_get_worker_summary_batch_skips_missing() {
    let t = Fixture::new();
    let id = t.register_worker();
    let ids = Vec::from_array(&t.env, [id.clone(), t.symbol("ghost1"), t.symbol("ghost2")]);
    let summaries = t.run(|env| get_worker_summary_batch(env, ids));
    assert_eq!(summaries.len(), 1);
    assert_eq!(summaries[0].id, id);
}

#[test]
fn test_get_category_verification_cached_absent_category() {
    let t = Fixture::new();
    let id = t.register_worker();
    let result = t.run(|env| get_category_verification_cached(env, id, t.symbol("welder")));
    assert!(result.is_none());
}

#[test]
fn test_get_category_verification_cached_present_category() {
    let t = Fixture::new();
    let id = t.register_worker();
    t.verify_category(&id, &t.symbol("plumber"), 9_999);
    let result = t.run(|env| get_category_verification_cached(env, id, t.symbol("plumber")));
    assert!(result.is_some());
    assert_eq!(result.unwrap().expires_at, 9_999);
}

#[test]
fn test_get_location_verification_cached_no_record() {
    let t = Fixture::new();
    let id = t.register_worker();
    assert!(t.run(|env| get_location_verification_cached(env, id)).is_none());
}

#[test]
fn test_get_location_verification_cached_with_record() {
    let t = Fixture::new();
    let id = t.register_worker();
    t.verify_location(&id, 5_000);
    let result = t.run(|env| get_location_verification_cached(env, id));
    assert!(result.is_some());
    assert_eq!(result.unwrap().expires_at, 5_000);
}

#[test]
fn test_get_location_verification_cached_nonexistent_worker() {
    let t = Fixture::new();
    let result = t.run(|env| get_location_verification_cached(env, t.symbol("nonexistent")));
    assert!(result.is_none());
}

#[test]
fn test_get_worker_with_metrics_cached_no_metrics() {
    let t = Fixture::new();
    let id = t.register_worker();
    let (worker, metrics) = t.run(|env| get_worker_with_metrics_cached(env, id)).unwrap();
    assert!(worker.is_active);
    assert!(metrics.is_none());
}

#[test]
fn test_get_worker_with_metrics_cached_after_update() {
    let t = Fixture::new();
    let id = t.register_worker();
    t.update_metrics(&id, 5, 8_000);
    let (_, metrics) = t.run(|env| get_worker_with_metrics_cached(env, id)).unwrap();
    let m = metrics.expect("metrics should exist after update");
    assert_eq!(m.jobs_completed, 5);
}

#[test]
fn test_get_worker_count_cached_zero() {
    let t = Fixture::new();
    assert_eq!(t.run(|env| get_worker_count_cached(env)), 0);
}

#[test]
fn test_get_worker_count_cached_after_register() {
    let t = Fixture::new();
    t.register_worker();
    assert_eq!(t.run(|env| get_worker_count_cached(env)), 1);
}

#[test]
fn test_get_worker_count_cached_after_deregister() {
    let t = Fixture::new();
    let id = t.register_worker();
    t.run(|env| env.storage().persistent().remove(&(Symbol::new(env, "Worker"), id)));
    t.set_count(0);
    assert_eq!(t.run(|env| get_worker_count_cached(env)), 0);
}

#[test]
fn bench_cached_worker_view_load_one_read() {
    let t = Fixture::new();
    let id = t.register_worker();
    let view = t.view(&id);
    let _ = view.reputation();
    let _ = view.avg_rating();
    let _ = view.review_count();
    let _ = view.is_active();
    let _ = view.staked_amount();
    let _ = view.subscription_tier();
    let _ = view.subscription_expires_at();
    let _ = view.subscription_is_active(0);
}

#[test]
fn bench_subscription_access_no_extra_read() {
    let t = Fixture::new();
    let id = t.register_worker();
    let view = t.view(&id);
    assert_eq!(view.subscription().expires_at, 0);
}

#[test]
fn bench_get_worker_profile_cached_two_reads() {
    let t = Fixture::new();
    let id = t.register_worker();
    let profile = t.run(|env| get_worker_profile_cached(env, id)).expect("profile must exist");
    assert!(profile.worker.is_active);
    assert!(matches!(profile.verification_level, VerificationLevel::Unverified));
    assert_eq!(profile.worker.subscription.expires_at, 0);
}

#[test]
fn bench_get_worker_profile_cached_with_verification_two_reads() {
    let t = Fixture::new();
    let id = t.register_worker();
    t.store("VerificationLevel", &id, 2u32);
    let profile = t.run(|env| get_worker_profile_cached(env, id)).unwrap();
    assert!(matches!(profile.verification_level, VerificationLevel::Expert));
}

#[test]
fn bench_get_worker_with_stake_cached_two_reads() {
    let t = Fixture::new();
    let id = t.register_worker();
    let (worker, stake) = t.run(|env| get_worker_with_stake_cached(env, id)).unwrap();
    assert!(worker.is_active);
    assert_eq!(worker.staked_amount, 0);
    assert!(stake.is_none());
}

#[test]
fn bench_get_worker_with_availability_cached_two_reads() {
    let t = Fixture::new();
    let id = t.register_worker();
    t.update_availability(&id, true);
    let (worker, avail) = t.run(|env| get_worker_with_availability_cached(env, id)).unwrap();
    assert!(worker.is_active);
    let a = avail.expect("availability should be set");
    assert!(a.is_available);
}

#[test]
fn bench_get_worker_with_reputation_inputs_cached_two_reads() {
    let t = Fixture::new();
    let id = t.register_worker();
    t.submit_review(&id, 7_000);
    let (worker, inputs) =
        t.run(|env| get_worker_with_reputation_inputs_cached(env, id)).unwrap();
    assert!(worker.reputation > 0);
    let inp = inputs.expect("inputs required after review");
    assert_eq!(inp.rating_count, 1);
    assert_eq!(worker.avg_rating, inp.rating_sum as u32 / inp.rating_count);
}

#[test]
fn bench_worker_summary_batch_n_reads_for_n_workers() {
    let t = Fixture::new();
    const N: u8 = 5;
    let mut ids: Vec<Symbol> = Vec::new(&t.env);
    for i in 0..N {
        let id = t.symbol(&format!("bw{i}"));
        t.register(&id);
        ids.push_back(id);
    }
    let summaries = t.run(|env| get_worker_summary_batch(env, ids));
    assert_eq!(summaries.len(), N as usize);
    for s in &summaries {
        assert!(s.is_active);
        assert_eq!(s.reputation, 0);
    }
}

#[test]
fn bench_worker_summary_batch_handles_missing_gracefully() {
    let t = Fixture::new();
    let id = t.register_worker();
    let ids = Vec::from_array(&t.env, [id, t.symbol("ghost1"), t.symbol("ghost2")]);
    let summaries = t.run(|env| get_worker_summary_batch(env, ids));
    assert_eq!(summaries.len(), 1);
}

#[test]
fn bench_category_verification_cached_miss_one_read() {
    let t = Fixture::new();
    let id = t.register_worker();
    let result = t.run(|env| get_category_verification_cached(env, id, t.symbol("welder")));
    assert!(result.is_none());
}

#[test]
fn bench_category_verification_cached_hit_two_reads() {
    let t = Fixture::new();
    let id = t.register_worker();
    t.verify_category(&id, &t.symbol("plumber"), 9_999);
    let result = t.run(|env| get_category_verification_cached(env, id, t.symbol("plumber")));
    assert!(result.is_some());
    assert_eq!(result.unwrap().expires_at, 9_999);
}

#[test]
fn bench_location_verification_cached_nonexistent_worker_one_read() {
    let t = Fixture::new();
    let result = t.run(|env| get_location_verification_cached(env, t.symbol("nonexistent")));
    assert!(result.is_none());
}

#[test]
fn bench_location_verification_cached_existing_worker_two_reads() {
    let t = Fixture::new();
    let id = t.register_worker();
    t.verify_location(&id, 1_234);
    let result = t.run(|env| get_location_verification_cached(env, id));
    assert!(result.is_some());
    assert_eq!(result.unwrap().expires_at, 1_234);
}

#[test]
fn bench_get_worker_with_metrics_cached_two_reads() {
    let t = Fixture::new();
    let id = t.register_worker();
    t.update_metrics(&id, 10, 9_000);
    let (worker, metrics) = t.run(|env| get_worker_with_metrics_cached(env, id)).unwrap();
    assert!(worker.is_active);
    let m = metrics.expect("metrics must be set");
    assert_eq!(m.jobs_completed, 10);
}

#[test]
fn bench_get_worker_count_cached_one_read() {
    let t = Fixture::new();
    for i in 0u8..3 {
        t.register(&t.symbol(&format!("cnt{i}")));
    }
    assert_eq!(t.run(|env| get_worker_count_cached(env)), 3);
}

#[test]
fn bench_regression_naive_get_worker_and_subscription_before() {
    let t = Fixture::new();
    let id = t.register_worker();
    let before: Fields = t.run(|env| {
        env.storage().persistent().get(&(Symbol::new(env, "Worker"), id.clone())).unwrap()
    });
    let subscription: Fields = before.get(t.symbol("subscription")).unwrap().into_val(&t.env);
    let expires_at: u64 = subscription.get(t.symbol("expires_at")).unwrap().into_val(&t.env);
    let reputation: u32 = before.get(t.symbol("reputation")).unwrap().into_val(&t.env);
    let view = t.view(&id);
    let after: WorkerSubscription = view.subscription().clone();
    assert_eq!(expires_at, after.expires_at);
    assert_eq!(reputation, view.reputation());
}

#[test]
fn bench_regression_naive_batch_vs_cached_batch() {
    let t = Fixture::new();
    const N: u8 = 3;
    let mut ids: Vec<Symbol> = Vec::new(&t.env);
    for i in 0..N {
        let id = t.symbol(&format!("rb{i}"));
        t.register(&id);
        t.set_field(&id, "reputation", 100 + i as u32);
        ids.push_back(id);
    }
    let naive_reps: std::vec::Vec<u32> = ids.iter().map(|id| t.view(&id).reputation()).collect();
    let summaries = t.run(|env| get_worker_summary_batch(env, ids));
    let cached_reps: std::vec::Vec<u32> = summaries.iter().map(|s| s.reputation).collect();
    assert_eq!(naive_reps, cached_reps);
    assert_eq!(cached_reps, vec![100, 101, 102]);
}

#[test]
fn every_field_of_a_worker_is_read() {
    let t = Fixture::new();
    let id = t.register_worker();
    let subscription = t.fields(&[("tier", t.val(3u32)), ("expires_at", t.val(500u64))]);
    t.set_field(&id, "is_active", false);
    t.set_field(&id, "reputation", 11u32);
    t.set_field(&id, "review_count", 12u32);
    t.set_field(&id, "avg_rating", 13u32);
    t.set_field(&id, "staked_amount", 14i128);
    t.set_field(&id, "subscription", subscription);
    let view = t.view(&id);
    assert_eq!(*view.id(), id);
    assert_eq!(*view.owner(), t.owner);
    assert_eq!(*view.wallet(), t.wallet);
    assert_eq!(*view.location_hash(), BytesN::from_array(&t.env, &[1u8; 32]));
    assert_eq!(*view.contact_hash(), BytesN::from_array(&t.env, &[2u8; 32]));
    assert!(!view.is_active());
    assert_eq!(view.reputation(), 11);
    assert_eq!(view.review_count(), 12);
    assert_eq!(view.avg_rating(), 13);
    assert_eq!(view.staked_amount(), 14);
    assert_eq!(view.subscription_tier(), SubscriptionTier::Paid(3));
    assert_eq!(view.subscription_expires_at(), 500);
    assert_eq!(view.worker().verified_categories.len(), 0);
    let copy = view.worker().clone();
    assert_eq!(copy.owner, t.owner);
    assert_eq!(view.into_worker().id, id);
}

#[test]
fn a_subscription_ends_at_its_expiry() {
    let t = Fixture::new();
    let id = t.register_worker();
    let subscription = t.fields(&[("tier", t.val(1u32)), ("expires_at", t.val(500u64))]);
    t.set_field(&id, "subscription", subscription);
    let view = t.view(&id);
    assert!(view.subscription_is_active(0));
    assert!(view.subscription_is_active(499));
    assert!(!view.subscription_is_active(500));
    assert!(!view.subscription_is_active(501));
}

#[test]
fn a_record_without_a_field_is_no_worker() {
    let t = Fixture::new();
    let id = t.worker_id();
    let mut fields = t.worker_fields(&id);
    fields.remove(t.symbol("wallet"));
    t.store("Worker", &id, fields);
    t.verify_location(&id, 77);
    assert!(t.run(|env| CachedWorkerView::load(env, id.clone())).is_none());
    let found = t.run(|env| get_location_verification_cached(env, id));
    assert_eq!(found.unwrap().expires_at, 77);
}

#[test]
fn a_field_of_another_kind_is_not_taken() {
    let t = Fixture::new();
    let id = t.register_worker();
    t.set_field(&id, "reputation", true);
    assert!(t.run(|env| CachedWorkerView::load(env, id)).is_none());
}

#[test]
fn a_stake_comes_with_its_worker() {
    let t = Fixture::new();
    let id = t.register_worker();
    t.store("StakeInfo", &id, t.fields(&[("amount", t.val(900i128))]));
    let (worker, stake) = t.run(|env| get_worker_with_stake_cached(env, id.clone())).unwrap();
    assert_eq!(worker.id, id);
    assert_eq!(stake.unwrap().amount, 900);
}

#[test]
fn records_without_a_worker_are_not_given() {
    let t = Fixture::new();
    let id = t.worker_id();
    t.store("StakeInfo", &id, t.fields(&[("amount", t.val(900i128))]));
    t.update_availability(&id, true);
    t.update_metrics(&id, 1, 1);
    t.verify_location(&id, 1);
    t.store_category(&id, &t.symbol("plumber"), 1);
    assert!(t.run(|env| get_worker_with_stake_cached(env, id.clone())).is_none());
    assert!(t.run(|env| get_worker_with_availability_cached(env, id.clone())).is_none());
    assert!(t.run(|env| get_worker_with_reputation_inputs_cached(env, id.clone())).is_none());
    assert!(t.run(|env| get_worker_with_metrics_cached(env, id.clone())).is_none());
    assert!(t.run(|env| get_location_verification_cached(env, id.clone())).is_none());
    assert!(t
        .run(|env| get_category_verification_cached(env, id.clone(), t.symbol("plumber")))
        .is_none());
}

#[test]
fn a_detail_of_an_unlisted_category_is_not_given() {
    let t = Fixture::new();
    let id = t.register_worker();
    t.store_category(&id, &t.symbol("welder"), 9_999);
    let result =
        t.run(|env| get_category_verification_cached(env, id.clone(), t.symbol("welder")));
    assert!(result.is_none());
    t.verify_category(&id, &t.symbol("plumber"), 5);
    let result = t.run(|env| get_category_verification_cached(env, id, t.symbol("painter")));
    assert!(result.is_none());
}

#[test]
fn levels_and_tiers_keep_their_numbers() {
    assert_eq!(VerificationLevel::from_code(0), VerificationLevel::Unverified);
    assert_eq!(VerificationLevel::from_code(1), VerificationLevel::Verified);
    assert_eq!(VerificationLevel::from_code(2), VerificationLevel::Expert);
    assert_eq!(VerificationLevel::from_code(3), VerificationLevel::Other(3));
    assert_eq!(SubscriptionTier::from_code(0), SubscriptionTier::Free);
    assert_eq!(SubscriptionTier::from_code(2), SubscriptionTier::Paid(2));
}

#[test]
fn a_tier_that_is_no_number_is_unknown() {
    let t = Fixture::new();
    let id = t.register_worker();
    let subscription =
        t.fields(&[("tier", t.val(t.symbol("Free"))), ("expires_at", t.val(9u64))]);
    t.set_field(&id, "subscription", subscription);
    let view = t.view(&id);
    assert_eq!(view.subscription_tier(), SubscriptionTier::Unknown);
    assert_eq!(view.subscription_expires_at(), 9);
}

#[test]
fn a_level_that_is_no_number_does_not_verify() {
    let t = Fixture::new();
    let id = t.register_worker();
    t.store("VerificationLevel", &id, Vec::from_array(&t.env, [t.symbol("Verified")]));
    let profile = t.run(|env| get_worker_profile_cached(env, id)).unwrap();
    assert_eq!(profile.verification_level, VerificationLevel::Unverified);
}

#[test]
fn an_entry_that_is_no_record_is_no_worker() {
    let t = Fixture::new();
    let id = t.worker_id();
    t.store("Worker", &id, 5u32);
    t.verify_location(&id, 77);
    assert!(t.run(|env| CachedWorkerView::load(env, id.clone())).is_none());
    let found = t.run(|env| get_location_verification_cached(env, id));
    assert_eq!(found.unwrap().expires_at, 77);
}

#[test]
fn a_count_that_is_no_number_counts_nobody() {
    let t = Fixture::new();
    t.run(|env| env.storage().persistent().set(&(Symbol::new(env, "WorkerCount"),), &true));
    assert_eq!(t.count(), 0);
}

#[test]
fn what_no_view_reads_is_handed_on() {
    let t = Fixture::new();
    let id = t.register_worker();
    let worker = t.view(&id).into_worker();
    let name: String = worker.record.get(t.symbol("name")).unwrap().into_val(&t.env);
    assert_eq!(name, String::from_str(&t.env, "Alice"));
    assert_eq!(worker.clone().record.len(), 14);
    t.update_metrics(&id, 5, 8_000);
    let (_, metrics) = t.run(|env| get_worker_with_metrics_cached(env, id)).unwrap();
    let record = metrics.unwrap().record;
    let rate: u32 = record.get(t.symbol("success_rate")).unwrap().into_val(&t.env);
    assert_eq!(rate, 8_000);
}

#[test]
fn items_that_are_no_symbols_are_no_ids_and_no_categories() {
    let t = Fixture::new();
    let id = t.register_worker();
    let mixed: Vec<Val> =
        Vec::from_array(&t.env, [t.val(7u32), t.val(id.clone()), t.val(t.symbol("plumber"))]);
    let list: Vec<Symbol> = mixed.to_val().into_val(&t.env);
    let summaries = t.run(|env| get_worker_summary_batch(env, list.clone()));
    assert_eq!(summaries.len(), 1);
    t.set_field(&id, "verified_categories", mixed);
    t.store_category(&id, &t.symbol("plumber"), 3);
    let found =
        t.run(|env| get_category_verification_cached(env, id.clone(), t.symbol("plumber")));
    assert_eq!(found.unwrap().expires_at, 3);
    let found = t.run(|env| get_category_verification_cached(env, id, t.symbol("welder")));
    assert!(found.is_none());
}

#[test]
fn worker_summaries_come_in_the_order_of_the_ids() {
    let t = Fixture::new();
    let first = t.symbol("w1");
    let second = t.symbol("w2");
    t.register(&first);
    t.register(&second);
    t.submit_review(&second, 6_000);
    let ids = Vec::from_array(&t.env, [second.clone(), t.symbol("no"), first.clone()]);
    let summaries = t.run(|env| get_worker_summary_batch(env, ids));
    assert_eq!(summaries.len(), 2);
    assert_eq!(summaries[0].id, second);
    assert_eq!(summaries[0].avg_rating, 6_000);
    assert_eq!(summaries[0].review_count, 1);
    assert_eq!(summaries[0].subscription_tier, SubscriptionTier::Free);
    assert_eq!(summaries[1].clone().id, first);
    let profile = t.run(|env| get_worker_profile_cached(env, first.clone())).unwrap().clone();
    assert_eq!(profile.worker.id, first);
}
