//! Plans, service kinds, and the price of a (plan, service set) pair.
use vstd::prelude::*;
use vstd::string::*;

use crate::text::str_eq;

verus! {

/// Service types that can be individually selected.
#[derive(Debug, Clone, Copy, PartialEq, Eq, Structural, Hash)]
pub enum ServiceType {
    Subdomain,
    EmailForwarding,
    Nip05,
}

/// Supported rental plans.
#[derive(Debug, Clone, Copy, PartialEq, Eq, Structural, Hash)]
pub enum Plan {
    OneDay,
    SevenDays,
    ThirtyDays,
    NinetyDays,
    OneYear,
}

/// Milliseconds in one day.
pub const MS_PER_DAY: u64 = 86_400_000;

/// The compiled-in price of one service for one plan.
pub open spec fn default_service_price(p: Plan, s: ServiceType) -> u64 {
    match (p, s) {
        (Plan::OneDay, ServiceType::Subdomain) => 500,
        (Plan::OneDay, ServiceType::EmailForwarding) => 1500,
        (Plan::OneDay, ServiceType::Nip05) => 200,
        (Plan::SevenDays, ServiceType::Subdomain) => 1000,
        (Plan::SevenDays, ServiceType::EmailForwarding) => 2500,
        (Plan::SevenDays, ServiceType::Nip05) => 500,
        (Plan::ThirtyDays, ServiceType::Subdomain) => 2000,
        (Plan::ThirtyDays, ServiceType::EmailForwarding) => 5000,
        (Plan::ThirtyDays, ServiceType::Nip05) => 1000,
        (Plan::NinetyDays, ServiceType::Subdomain) => 5000,
        (Plan::NinetyDays, ServiceType::EmailForwarding) => 12000,
        (Plan::NinetyDays, ServiceType::Nip05) => 2500,
        (Plan::OneYear, ServiceType::Subdomain) => 15000,
        (Plan::OneYear, ServiceType::EmailForwarding) => 40000,
        (Plan::OneYear, ServiceType::Nip05) => 8000,
    }
}

/// The compiled-in bundle price of a plan.
pub open spec fn default_bundle_price(p: Plan) -> u64 {
    match p {
        Plan::OneDay => 1800,
        Plan::SevenDays => 3300,
        Plan::ThirtyDays => 6500,
        Plan::NinetyDays => 16000,
        Plan::OneYear => 50000,
    }
}

/// The storage key of a plan's period.
pub open spec fn period_key_of(p: Plan) -> Seq<char> {
    match p {
        Plan::OneDay => "1d"@,
        Plan::SevenDays => "7d"@,
        Plan::ThirtyDays => "30d"@,
        Plan::NinetyDays => "90d"@,
        Plan::OneYear => "365d"@,
    }
}

/// The pricing-table key of a service.
pub open spec fn service_key_of(s: ServiceType) -> Seq<char> {
    match s {
        ServiceType::Subdomain => "subdomain"@,
        ServiceType::EmailForwarding => "email"@,
        ServiceType::Nip05 => "nip05"@,
    }
}

/// The pricing-table key of the bundle price.
pub open spec fn bundle_key() -> Seq<char> {
    "bundle"@
}

/// Length of a plan in days.
pub open spec fn plan_days(p: Plan) -> u64 {
    match p {
        Plan::OneDay => 1,
        Plan::SevenDays => 7,
        Plan::ThirtyDays => 30,
        Plan::NinetyDays => 90,
        Plan::OneYear => 365,
    }
}

/// Length of a plan in milliseconds.
pub open spec fn plan_duration_ms(p: Plan) -> u64 {
    (plan_days(p) * MS_PER_DAY) as u64
}

/// Whether a requested list names every one of the three services.
pub open spec fn all_three(s: Seq<ServiceType>) -> bool {
    s.contains(ServiceType::Subdomain) && s.contains(ServiceType::EmailForwarding) && s.contains(
        ServiceType::Nip05,
    )
}

/// `price` when `t` is among the requested services, else nothing.
pub open spec fn if_picked(s: Seq<ServiceType>, t: ServiceType, price: u64) -> int {
    if s.contains(t) {
        price as int
    } else {
        0
    }
}

/// The price of a requested list under the compiled-in matrix: the bundle price when
/// all three services are requested, else the sum over the distinct requested services.
pub open spec fn default_total(p: Plan, s: Seq<ServiceType>) -> int {
    if all_three(s) {
        default_bundle_price(p) as int
    } else {
        if_picked(s, ServiceType::Subdomain, default_service_price(p, ServiceType::Subdomain))
            + if_picked(
            s,
            ServiceType::EmailForwarding,
            default_service_price(p, ServiceType::EmailForwarding),
        ) + if_picked(s, ServiceType::Nip05, default_service_price(p, ServiceType::Nip05))
    }
}

/// The value of the first entry under `key`, if any.
pub open spec fn lookup<V>(s: Seq<(Seq<char>, V)>, key: Seq<char>) -> Option<V>
    decreases s.len(),
{
    if s.len() == 0 {
        None
    } else if s[0].0 == key {
        Some(s[0].1)
    } else {
        lookup(s.drop_first(), key)
    }
}

/// One price of a period: a service key (or the bundle key) and its price in sats.
#[derive(Debug, Clone)]
pub struct PriceEntry {
    pub key: String,
    pub sats: u64,
}

/// The prices of one plan period.
#[derive(Debug, Clone)]
pub struct PeriodPricing {
    pub period: String,
    pub prices: Vec<PriceEntry>,
}

/// The mutable pricing table: for each period key, its prices. Where a key occurs twice,
/// its first entry counts.
#[derive(Debug, Clone)]
pub struct PricingConfig {
    pub periods: Vec<PeriodPricing>,
}

impl View for PriceEntry {
    type V = (Seq<char>, u64);

    open spec fn view(&self) -> (Seq<char>, u64) {
        (self.key@, self.sats)
    }
}

impl View for PeriodPricing {
    type V = (Seq<char>, Seq<(Seq<char>, u64)>);

    open spec fn view(&self) -> (Seq<char>, Seq<(Seq<char>, u64)>) {
        (self.period@, self.prices@.map_values(|e: PriceEntry| e@))
    }
}

impl View for PricingConfig {
    type V = Seq<(Seq<char>, Seq<(Seq<char>, u64)>)>;

    open spec fn view(&self) -> Seq<(Seq<char>, Seq<(Seq<char>, u64)>)> {
        self.periods@.map_values(|p: PeriodPricing| p@)
    }
}

/// The table's price under `period` and `key`, if it has one.
pub open spec fn table_cell(cfg: Seq<(Seq<char>, Seq<(Seq<char>, u64)>)>, period: Seq<char>, key: Seq<char>) -> Option<u64> {
    match lookup(cfg, period) {
        Some(prices) => lookup(prices, key),
        None => None,
    }
}

/// The price that counts for one service of a plan: the table's cell, else the compiled-in one.
pub open spec fn effective_price(p: Plan, s: ServiceType, cfg: Seq<(Seq<char>, Seq<(Seq<char>, u64)>)>) -> u64 {
    match table_cell(cfg, period_key_of(p), service_key_of(s)) {
        Some(v) => v,
        None => default_service_price(p, s),
    }
}

/// The bundle price that counts for a plan: the table's cell, else the compiled-in one.
pub open spec fn effective_bundle(p: Plan, cfg: Seq<(Seq<char>, Seq<(Seq<char>, u64)>)>) -> u64 {
    match table_cell(cfg, period_key_of(p), bundle_key()) {
        Some(v) => v,
        None => default_bundle_price(p),
    }
}

/// The price of a requested list under a pricing table, with the same bundle rule as
/// `default_total`.
pub open spec fn dynamic_total(p: Plan, s: Seq<ServiceType>, cfg: Seq<(Seq<char>, Seq<(Seq<char>, u64)>)>) -> int {
    if all_three(s) {
        effective_bundle(p, cfg) as int
    } else {
        if_picked(s, ServiceType::Subdomain, effective_price(p, ServiceType::Subdomain, cfg))
            + if_picked(
            s,
            ServiceType::EmailForwarding,
            effective_price(p, ServiceType::EmailForwarding, cfg),
        ) + if_picked(s, ServiceType::Nip05, effective_price(p, ServiceType::Nip05, cfg))
    }
}

/// Which of the three services a requested list names.
fn requested_kinds(services: &[ServiceType]) -> (r: (bool, bool, bool))
    ensures
        r.0 == services@.contains(ServiceType::Subdomain),
        r.1 == services@.contains(ServiceType::EmailForwarding),
        r.2 == services@.contains(ServiceType::Nip05),
{
    let mut sub = false;
    let mut email = false;
    let mut nip = false;
    let mut i: usize = 0;
    while i < services.len()
        invariant
            i <= services@.len(),
            sub == services@.subrange(0, i as int).contains(ServiceType::Subdomain),
            email == services@.subrange(0, i as int).contains(ServiceType::EmailForwarding),
            nip == services@.subrange(0, i as int).contains(ServiceType::Nip05),
        decreases services@.len() - i,
    {
        let s = services[i];
        proof {
            let prev = services@.subrange(0, i as int);
            let next = services@.subrange(0, i + 1);
            assert(next =~= prev.push(s));
            assert forall|t: ServiceType| next.contains(t) == (prev.contains(t) || t == s) by {
                if next.contains(t) {
                    let k = choose|k: int| 0 <= k < next.len() && next[k] == t;
                    if k < prev.len() {
                        assert(prev[k] == t);
                    }
                }
                if prev.contains(t) {
                    let k = choose|k: int| 0 <= k < prev.len() && prev[k] == t;
                    assert(next[k] == t);
                }
                if t == s {
                    assert(next[i as int] == t);
                }
            }
        }
        match s {
            ServiceType::Subdomain => {
                sub = true;
            },
            ServiceType::EmailForwarding => {
                email = true;
            },
            ServiceType::Nip05 => {
                nip = true;
            },
        }
        i = i + 1;
    }
    assert(services@.subrange(0, services@.len() as int) =~= services@);
    (sub, email, nip)
}

impl ServiceType {
    /// The key of this service in the pricing table.
    pub fn price_key(&self) -> (r: &'static str)
        ensures
            r@ == service_key_of(*self),
    {
        match self {
            ServiceType::Subdomain => "subdomain",
            ServiceType::EmailForwarding => "email",
            ServiceType::Nip05 => "nip05",
        }
    }
}

impl Plan {
    /// Compiled-in price of a single service.
    pub fn service_price(&self, service: &ServiceType) -> (r: u64)
        ensures
            r == default_service_price(*self, *service),
    {
        match (self, service) {
            (Plan::OneDay, ServiceType::Subdomain) => 500,
            (Plan::OneDay, ServiceType::EmailForwarding) => 1500,
            (Plan::OneDay, ServiceType::Nip05) => 200,
            (Plan::SevenDays, ServiceType::Subdomain) => 1000,
            (Plan::SevenDays, ServiceType::EmailForwarding) => 2500,
            (Plan::SevenDays, ServiceType::Nip05) => 500,
            (Plan::ThirtyDays, ServiceType::Subdomain) => 2000,
            (Plan::ThirtyDays, ServiceType::EmailForwarding) => 5000,
            (Plan::ThirtyDays, ServiceType::Nip05) => 1000,
            (Plan::NinetyDays, ServiceType::Subdomain) => 5000,
            (Plan::NinetyDays, ServiceType::EmailForwarding) => 12000,
            (Plan::NinetyDays, ServiceType::Nip05) => 2500,
            (Plan::OneYear, ServiceType::Subdomain) => 15000,
            (Plan::OneYear, ServiceType::EmailForwarding) => 40000,
            (Plan::OneYear, ServiceType::Nip05) => 8000,
        }
    }

    /// Compiled-in price when all three services are selected.
    pub fn bundle_price(&self) -> (r: u64)
        ensures
            r == default_bundle_price(*self),
    {
        match self {
            Plan::OneDay => 1800,
            Plan::SevenDays => 3300,
            Plan::ThirtyDays => 6500,
            Plan::NinetyDays => 16000,
            Plan::OneYear => 50000,
        }
    }

    /// Total compiled-in price of the selected services; repeated entries count once.
    pub fn calculate_total(plan: &Plan, services: &[ServiceType]) -> (r: u64)
        ensures
            r == default_total(*plan, services@),
    {
        let (sub, email, nip) = requested_kinds(services);
        if sub && email && nip {
            return plan.bundle_price();
        }
        let mut total: u64 = 0;
        if sub {
            total = total + plan.service_price(&ServiceType::Subdomain);
        }
        if email {
            total = total + plan.service_price(&ServiceType::EmailForwarding);
        }
        if nip {
            total = total + plan.service_price(&ServiceType::Nip05);
        }
        total
    }

    /// The period key of this plan in the pricing table.
    pub fn period_key(&self) -> (r: &'static str)
        ensures
            r@ == period_key_of(*self),
    {
        match self {
            Plan::OneDay => "1d",
            Plan::SevenDays => "7d",
            Plan::ThirtyDays => "30d",
            Plan::NinetyDays => "90d",
            Plan::OneYear => "365d",
        }
    }

    /// Price of one service: the table's cell for this plan, else the compiled-in price.
    pub fn service_price_dynamic(&self, service: &ServiceType, pricing: &PricingConfig) -> (r: u64)
        ensures
            r == effective_price(*self, *service, pricing@),
    {
        match pricing.cell(self.period_key(), service.price_key()) {
            Some(v) => v,
            None => self.service_price(service),
        }
    }

    /// Bundle price: the table's cell for this plan, else the compiled-in price.
    pub fn bundle_price_dynamic(&self, pricing: &PricingConfig) -> (r: u64)
        ensures
            r == effective_bundle(*self, pricing@),
    {
        match pricing.cell(self.period_key(), "bundle") {
            Some(v) => v,
            None => self.bundle_price(),
        }
    }

    /// Total price of the selected services under a pricing table.
    pub fn calculate_total_dynamic(plan: &Plan, services: &[ServiceType], pricing: &PricingConfig) -> (r: u64)
        requires
            dynamic_total(*plan, services@, pricing@) <= u64::MAX,
        ensures
            r == dynamic_total(*plan, services@, pricing@),
    {
        match Plan::checked_total_dynamic(plan, services, pricing) {
            Some(v) => v,
            None => 0,
        }
    }

    /// Total price of the selected services under a pricing table, or `None` where the
    /// sum does not fit in a `u64`.
    pub fn checked_total_dynamic(plan: &Plan, services: &[ServiceType], pricing: &PricingConfig) -> (r: Option<u64>)
        ensures
            r == (if dynamic_total(*plan, services@, pricing@) <= u64::MAX {
                Some(dynamic_total(*plan, services@, pricing@) as u64)
            } else {
                None::<u64>
            }),
    {
        let (sub, email, nip) = requested_kinds(services);
        if sub && email && nip {
            return Some(plan.bundle_price_dynamic(pricing));
        }
        let mut total: u64 = 0;
        if sub {
            let p = plan.service_price_dynamic(&ServiceType::Subdomain, pricing);
            total = p;
        }
        if email {
            let p = plan.service_price_dynamic(&ServiceType::EmailForwarding, pricing);
            match total.checked_add(p) {
                Some(t) => {
                    total = t;
                },
                None => {
                    return None;
                },
            }
        }
        if nip {
            let p = plan.service_price_dynamic(&ServiceType::Nip05, pricing);
            match total.checked_add(p) {
                Some(t) => {
                    total = t;
                },
                None => {
                    return None;
                },
            }
        }
        Some(total)
    }

    /// Length of the plan in days.
    pub fn duration_days(&self) -> (r: u64)
        ensures
            r == plan_days(*self),
    {
        match self {
            Plan::OneDay => 1,
            Plan::SevenDays => 7,
            Plan::ThirtyDays => 30,
            Plan::NinetyDays => 90,
            Plan::OneYear => 365,
        }
    }

    /// Length of the plan in milliseconds.
    pub fn duration_ms(&self) -> (r: u64)
        ensures
            r == plan_duration_ms(*self),
    {
        self.duration_days() * MS_PER_DAY
    }
}

impl PeriodPricing {
    /// The price stored under `key`, if any.
    pub fn get(&self, key: &str) -> (r: Option<u64>)
        ensures
            r == lookup(self@.1, key@),
    {
        let ghost s = self@.1;
        assert(s.subrange(0, s.len() as int) =~= s);
        let mut i: usize = 0;
        while i < self.prices.len()
            invariant
                s == self@.1,
                s.len() == self.prices@.len(),
                i <= self.prices@.len(),
                lookup(s, key@) == lookup(s.subrange(i as int, s.len() as int), key@),
            decreases self.prices@.len() - i,
        {
            let e = &self.prices[i];
            proof {
                assert(s[i as int] == e@);
                assert(s.subrange(i as int, s.len() as int).drop_first() =~= s.subrange(
                    i + 1,
                    s.len() as int,
                ));
            }
            if str_eq(e.key.as_str(), key) {
                return Some(e.sats);
            }
            i = i + 1;
        }
        None
    }
}

impl PricingConfig {
    /// The prices of the period stored under `period`, if any.
    pub fn get(&self, period: &str) -> (r: Option<&PeriodPricing>)
        ensures
            match r {
                Some(p) => p@.0 == period@ && lookup(self@, period@) == Some(p@.1),
                None => lookup(self@, period@) is None,
            },
    {
        let ghost s = self@;
        assert(s.subrange(0, s.len() as int) =~= s);
        let mut i: usize = 0;
        while i < self.periods.len()
            invariant
                s == self@,
                s.len() == self.periods@.len(),
                i <= self.periods@.len(),
                lookup(s, period@) == lookup(s.subrange(i as int, s.len() as int), period@),
            decreases self.periods@.len() - i,
        {
            let p = &self.periods[i];
            proof {
                assert(s[i as int] == p@);
                assert(s.subrange(i as int, s.len() as int).drop_first() =~= s.subrange(
                    i + 1,
                    s.len() as int,
                ));
            }
            if str_eq(p.period.as_str(), period) {
                return Some(p);
            }
            i = i + 1;
        }
        None
    }

    /// The price stored under `period` and `key`, if any.
    pub fn cell(&self, period: &str, key: &str) -> (r: Option<u64>)
        ensures
            r == table_cell(self@, period@, key@),
    {
        match self.get(period) {
            Some(p) => p.get(key),
            None => None,
        }
    }
}

/// The compiled-in prices of one plan, as a period of the pricing table.
pub open spec fn default_period(p: Plan) -> (Seq<char>, Seq<(Seq<char>, u64)>) {
    (
        period_key_of(p),
        seq![
            (service_key_of(ServiceType::Subdomain), default_service_price(p, ServiceType::Subdomain)),
            (service_key_of(ServiceType::EmailForwarding), default_service_price(p, ServiceType::EmailForwarding)),
            (service_key_of(ServiceType::Nip05), default_service_price(p, ServiceType::Nip05)),
            (bundle_key(), default_bundle_price(p)),
        ],
    )
}

/// The compiled-in matrix as a pricing table.
pub open spec fn default_table() -> Seq<(Seq<char>, Seq<(Seq<char>, u64)>)> {
    seq![
        default_period(Plan::OneDay),
        default_period(Plan::SevenDays),
        default_period(Plan::ThirtyDays),
        default_period(Plan::NinetyDays),
        default_period(Plan::OneYear),
    ]
}

fn price_entry(key: &str, sats: u64) -> (r: PriceEntry)
    ensures
        r@ == (key@, sats),
{
    PriceEntry { key: String::from_str(key), sats }
}

fn default_period_pricing(plan: Plan) -> (r: PeriodPricing)
    ensures
        r@ == default_period(plan),
{
    let mut prices: Vec<PriceEntry> = Vec::new();
    prices.push(price_entry(ServiceType::Subdomain.price_key(), plan.service_price(&ServiceType::Subdomain)));
    prices.push(
        price_entry(
            ServiceType::EmailForwarding.price_key(),
            plan.service_price(&ServiceType::EmailForwarding),
        ),
    );
    prices.push(price_entry(ServiceType::Nip05.price_key(), plan.service_price(&ServiceType::Nip05)));
    prices.push(price_entry("bundle", plan.bundle_price()));
    let r = PeriodPricing { period: String::from_str(plan.period_key()), prices };
    assert(r@.1 =~= default_period(plan).1);
    r
}

/// The compiled-in pricing table.
pub fn default_pricing() -> (r: PricingConfig)
    ensures
        r@ == default_table(),
{
    let mut periods: Vec<PeriodPricing> = Vec::new();
    periods.push(default_period_pricing(Plan::OneDay));
    periods.push(default_period_pricing(Plan::SevenDays));
    periods.push(default_period_pricing(Plan::ThirtyDays));
    periods.push(default_period_pricing(Plan::NinetyDays));
    periods.push(default_period_pricing(Plan::OneYear));
    let r = PricingConfig { periods };
    assert(r@ =~= default_table());
    r
}

proof fn lemma_keys_distinct()
    ensures
        forall|a: Plan, b: Plan| period_key_of(a) == period_key_of(b) ==> a == b,
        forall|a: ServiceType, b: ServiceType| service_key_of(a) == service_key_of(b) ==> a == b,
        forall|a: ServiceType| service_key_of(a) != bundle_key(),
{
    reveal_strlit("1d");
    reveal_strlit("7d");
    reveal_strlit("30d");
    reveal_strlit("90d");
    reveal_strlit("365d");
    reveal_strlit("subdomain");
    reveal_strlit("email");
    reveal_strlit("nip05");
    reveal_strlit("bundle");
    assert forall|a: Plan, b: Plan| period_key_of(a) == period_key_of(b) implies a == b by {
        if a != b {
            assert(period_key_of(a).len() != period_key_of(b).len() || period_key_of(a)[0]
                != period_key_of(b)[0]);
        }
    }
    assert(service_key_of(ServiceType::EmailForwarding)[0] != service_key_of(ServiceType::Nip05)[0]);
    assert(service_key_of(ServiceType::EmailForwarding)[0] != bundle_key()[0]);
    assert(service_key_of(ServiceType::Subdomain)[0] != bundle_key()[0]);
    assert(service_key_of(ServiceType::Nip05)[0] != bundle_key()[0]);
}

proof fn lemma_default_cells(p: Plan)
    ensures
        forall|s: ServiceType| table_cell(default_table(), period_key_of(p), service_key_of(s))
            == Some(default_service_price(p, s)),
        table_cell(default_table(), period_key_of(p), bundle_key()) == Some(default_bundle_price(p)),
{
    lemma_keys_distinct();
    let t = default_table();
    reveal_with_fuel(lookup, 6);
    assert(lookup(t, period_key_of(p)) == Some(default_period(p).1));
    let prices = default_period(p).1;
    assert forall|s: ServiceType| lookup(prices, service_key_of(s)) == Some(default_service_price(p, s)) by {
        reveal_with_fuel(lookup, 5);
    }
    assert(lookup(prices, bundle_key()) == Some(default_bundle_price(p)));
}

/// With the compiled-in table, pricing by table gives exactly the compiled-in prices.
pub proof fn lemma_default_table_matches_matrix(p: Plan, s: Seq<ServiceType>)
    ensures
        dynamic_total(p, s, default_table()) == default_total(p, s),
        forall|t: ServiceType| effective_price(p, t, default_table()) == default_service_price(p, t),
        effective_bundle(p, default_table()) == default_bundle_price(p),
{
    lemma_default_cells(p);
}

/// The price of a service list is the sum of the prices of its distinct services taken one
/// by one, unless it names all three, in which case it is the bundle price; under the
/// compiled-in matrix the bundle price is below the sum of the three single prices.
pub proof fn lemma_price_additive(p: Plan, s: Seq<ServiceType>, cfg: Seq<(Seq<char>, Seq<(Seq<char>, u64)>)>)
    ensures
        !all_three(s) ==> dynamic_total(p, s, cfg) == (if s.contains(ServiceType::Subdomain) {
            dynamic_total(p, seq![ServiceType::Subdomain], cfg)
        } else {
            0
        }) + (if s.contains(ServiceType::EmailForwarding) {
            dynamic_total(p, seq![ServiceType::EmailForwarding], cfg)
        } else {
            0
        }) + (if s.contains(ServiceType::Nip05) {
            dynamic_total(p, seq![ServiceType::Nip05], cfg)
        } else {
            0
        }),
        all_three(s) ==> dynamic_total(p, s, cfg) == effective_bundle(p, cfg),
        (default_bundle_price(p) as int) < default_service_price(p, ServiceType::Subdomain)
            + default_service_price(p, ServiceType::EmailForwarding) + default_service_price(
            p,
            ServiceType::Nip05,
        ),
{
    assert forall|t: ServiceType, u: ServiceType| #[trigger] seq![t].contains(u) == (t == u) by {
        if t == u {
            assert(seq![t][0] == u);
        }
    }
}

} // verus!
