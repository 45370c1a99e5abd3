//! Administrative operations that bypass payment, and the figures an administrator sees.
use vstd::prelude::*;
use vstd::multiset::Multiset;
use vstd::string::*;

use crate::dns::{record_type_named, upper_of, DnsRecordType};
use crate::model::{
    EmailService, Nip05Service, Order, OrderStatus, Rental, RentalServices,
    RentalStatus, SubdomainService,
};
use crate::pricing::{plan_duration_ms, Plan};
use crate::rentals::{available, is_available, AdminError};
use crate::text::str_eq;
use crate::validation::{username_error, validate_username};

verus! {

/// Request to provision a rental directly, without payment. `service` is `"subdomain"`,
/// `"email"`, `"nip05"` or `"bundle"` (all three).
#[derive(Debug, Clone)]
pub struct AdminProvisionRequest {
    pub username: String,
    pub service: String,
    pub plan: Plan,
    pub pubkey: Option<String>,
    pub dns_type: Option<String>,
    pub dns_value: Option<String>,
}

/// Whether the requested `service` covers the service named `kind`.
pub open spec fn covers(service: Seq<char>, kind: Seq<char>) -> bool {
    service == kind || service == "bundle"@
}

fn covers_exec(service: &str, kind: &str) -> (r: bool)
    ensures
        r == covers(service@, kind@),
{
    str_eq(service, kind) || str_eq(service, "bundle")
}

/// Whether a direct provisioning creates a subdomain: the service covers it and both the
/// record type and its value are given.
pub open spec fn wants_subdomain(req: AdminProvisionRequest) -> bool {
    covers(req.service@, "subdomain"@) && req.dns_type is Some && req.dns_value is Some
}

/// Checks a direct provisioning against the rules of a normal registration and, where a
/// subdomain is to be created, reads its record type before any call to the DNS provider.
pub fn admin_provision_check(req: &AdminProvisionRequest, banned: bool, existing: &Option<Rental>, now: u64) -> (r: Result<Option<DnsRecordType>, AdminError>)
    ensures
        username_error(req.username@) is Some ==> r is Err && r->Err_0 is InvalidUsername
            && r->Err_0->InvalidUsername_0@ == username_error(req.username@)->0,
        username_error(req.username@) is None && banned ==> r == Err::<Option<DnsRecordType>, AdminError>(
            AdminError::Blocked,
        ),
        username_error(req.username@) is None && !banned && !available(banned, *existing, now) ==> r
            == Err::<Option<DnsRecordType>, AdminError>(AdminError::Taken),
        username_error(req.username@) is None && available(banned, *existing, now) ==> {
            if !wants_subdomain(*req) {
                r == Ok::<Option<DnsRecordType>, AdminError>(None)
            } else {
                match record_type_named(upper_of(req.dns_type->0@)) {
                    Some(t) => r == Ok::<Option<DnsRecordType>, AdminError>(Some(t)),
                    None => r is Err && r->Err_0 is UnsupportedRecordType
                        && r->Err_0->UnsupportedRecordType_0@ == "Unsupported DNS record type: "@
                        + upper_of(req.dns_type->0@),
                }
            }
        },
{
    if let Err(m) = validate_username(req.username.as_str()) {
        return Err(AdminError::InvalidUsername(m));
    }
    if banned {
        return Err(AdminError::Blocked);
    }
    if !is_available(banned, existing, now) {
        return Err(AdminError::Taken);
    }
    if !covers_exec(req.service.as_str(), "subdomain") {
        return Ok(None);
    }
    match (&req.dns_type, &req.dns_value) {
        (Some(t), Some(_)) => match DnsRecordType::parse(t.as_str()) {
            Ok(rt) => Ok(Some(rt)),
            Err(m) => Err(AdminError::UnsupportedRecordType(m)),
        },
        _ => Ok(None),
    }
}

/// `r` is the rental that a direct provisioning grants at `now`: active for the plan's length,
/// with the services the request covers (NIP-05 only with a key, the subdomain only with a
/// record type and value, holding `record`; email forwarding without a target), and the
/// management token `token`.
pub open spec fn provisioned_rental(r: Rental, req: AdminProvisionRequest, now: u64, record: Option<String>, token: String) -> bool {
    &&& r.username == req.username
    &&& r.status == RentalStatus::Active
    &&& r.created_at == now
    &&& r.expires_at == now + plan_duration_ms(req.plan)
    &&& r.plan == req.plan
    &&& r.management_token == Some(token)
    &&& r.webhook_url is None
    &&& if covers(req.service@, "nip05"@) && req.pubkey is Some {
        r.services.nip05 is Some && r.services.nip05->0.enabled && r.services.nip05->0.pubkey_hex
            == req.pubkey->0 && r.services.nip05->0.relays@.len() == 0
    } else {
        r.services.nip05 is None
    }
    &&& if covers(req.service@, "email"@) {
        r.services.email is Some && r.services.email->0.enabled
            && r.services.email->0.forward_to@.len() == 0 && r.services.email->0.cf_rule_id is None
    } else {
        r.services.email is None
    }
    &&& if wants_subdomain(req) {
        r.services.subdomain == Some(
            SubdomainService {
                enabled: true,
                record_type: req.dns_type->0,
                target: req.dns_value->0,
                proxied: false,
                cf_record_id: record,
            },
        )
    } else {
        r.services.subdomain is None
    }
}

/// Builds the rental of a direct provisioning; `record` is the DNS record created for its
/// subdomain, if any.
pub fn admin_provisioned_rental(req: AdminProvisionRequest, now: u64, record: Option<String>, token: String) -> (r: Rental)
    requires
        now + plan_duration_ms(req.plan) <= u64::MAX,
    ensures
        provisioned_rental(r, req, now, record, token),
{
    let nip05 = if covers_exec(req.service.as_str(), "nip05") {
        match &req.pubkey {
            Some(pk) => Some(Nip05Service { enabled: true, pubkey_hex: pk.clone(), relays: Vec::new() }),
            None => None,
        }
    } else {
        None
    };
    let email = if covers_exec(req.service.as_str(), "email") {
        Some(EmailService { enabled: true, forward_to: String::new(), cf_rule_id: None })
    } else {
        None
    };
    let subdomain = if covers_exec(req.service.as_str(), "subdomain") {
        match (&req.dns_type, &req.dns_value) {
            (Some(t), Some(v)) => Some(
                SubdomainService {
                    enabled: true,
                    record_type: t.clone(),
                    target: v.clone(),
                    proxied: false,
                    cf_record_id: record,
                },
            ),
            _ => None,
        }
    } else {
        None
    };
    Rental {
        username: req.username,
        status: RentalStatus::Active,
        created_at: now,
        expires_at: now + req.plan.duration_ms(),
        plan: req.plan,
        services: RentalServices { email, subdomain, nip05 },
        management_token: Some(token),
        webhook_url: None,
    }
}

/// Figures of the administrator's dashboard.
#[derive(Debug, Clone, PartialEq, Eq)]
pub struct AdminStatsResponse {
    pub active_rentals: u64,
    pub expired_rentals: u64,
    pub banned_users: u64,
    pub expiring_soon: u64,
    pub total_revenue_sats: u64,
}

/// Window within which an active rental counts as expiring soon: seven days.
pub const EXPIRING_SOON_MS: u64 = 604_800_000;

/// Number of rentals among the first `n` that are stored as active.
pub open spec fn count_active(s: Seq<Rental>, n: int) -> int
    decreases n,
{
    if n <= 0 {
        0
    } else {
        count_active(s, n - 1) + if s[n - 1].status == RentalStatus::Active {
            1int
        } else {
            0
        }
    }
}

/// Number of rentals among the first `n` that are active and expire no later than `soon`.
pub open spec fn count_expiring(s: Seq<Rental>, n: int, soon: int) -> int
    decreases n,
{
    if n <= 0 {
        0
    } else {
        count_expiring(s, n - 1, soon) + if s[n - 1].status == RentalStatus::Active
            && s[n - 1].expires_at <= soon {
            1int
        } else {
            0
        }
    }
}

/// Sum of the amounts of the first `n` orders that were paid (paid or provisioned).
pub open spec fn revenue(s: Seq<Order>, n: int) -> int
    decreases n,
{
    if n <= 0 {
        0
    } else {
        revenue(s, n - 1) + if s[n - 1].status == OrderStatus::Paid || s[n - 1].status
            == OrderStatus::Provisioned {
            s[n - 1].amount_sats as int
        } else {
            0
        }
    }
}

/// `x`, or `u64::MAX` where `x` does not fit.
pub open spec fn capped(x: int) -> int {
    if x > u64::MAX {
        u64::MAX as int
    } else {
        x
    }
}

proof fn lemma_count_bounds(s: Seq<Rental>, n: int, soon: int)
    requires
        0 <= n,
    ensures
        0 <= count_active(s, n) <= n,
        0 <= count_expiring(s, n, soon) <= count_active(s, n),
    decreases n,
{
    if n > 0 {
        lemma_count_bounds(s, n - 1, soon);
    }
}

proof fn lemma_revenue_nonneg(s: Seq<Order>, n: int)
    requires
        0 <= n,
    ensures
        0 <= revenue(s, n),
    decreases n,
{
    if n > 0 {
        lemma_revenue_nonneg(s, n - 1);
    }
}

/// Computes the dashboard figures: rentals stored as active and the others, active ones that
/// expire within seven days of `now` (or already have), the number of bans, and the amount
/// of paid and provisioned orders (capped at `u64::MAX`).
pub fn admin_stats(rentals: &Vec<Rental>, banned_users: u64, orders: &Vec<Order>, now: u64) -> (r: AdminStatsResponse)
    ensures
        r.active_rentals == count_active(rentals@, rentals@.len() as int),
        r.expired_rentals == rentals@.len() - count_active(rentals@, rentals@.len() as int),
        r.banned_users == banned_users,
        r.expiring_soon == count_expiring(rentals@, rentals@.len() as int, capped(now + EXPIRING_SOON_MS)),
        r.total_revenue_sats == capped(revenue(orders@, orders@.len() as int)),
{
    let soon = now.saturating_add(EXPIRING_SOON_MS);
    let mut active: usize = 0;
    let mut expiring: usize = 0;
    let mut i: usize = 0;
    while i < rentals.len()
        invariant
            i <= rentals@.len(),
            soon == capped(now + EXPIRING_SOON_MS),
            active == count_active(rentals@, i as int),
            expiring == count_expiring(rentals@, i as int, soon as int),
        decreases rentals@.len() - i,
    {
        proof {
            lemma_count_bounds(rentals@, i as int, soon as int);
        }
        if rentals[i].status == RentalStatus::Active {
            active = active + 1;
            if rentals[i].expires_at <= soon {
                expiring = expiring + 1;
            }
        }
        i = i + 1;
    }
    proof {
        lemma_count_bounds(rentals@, rentals@.len() as int, soon as int);
    }
    let mut total: u64 = 0;
    let mut j: usize = 0;
    while j < orders.len()
        invariant
            j <= orders@.len(),
            total == capped(revenue(orders@, j as int)),
        decreases orders@.len() - j,
    {
        proof {
            lemma_revenue_nonneg(orders@, j as int);
        }
        let o = &orders[j];
        if o.status == OrderStatus::Paid || o.status == OrderStatus::Provisioned {
            total = total.saturating_add(o.amount_sats);
        }
        j = j + 1;
    }
    AdminStatsResponse {
        active_rentals: active as u64,
        expired_rentals: (rentals.len() - active) as u64,
        banned_users,
        expiring_soon: expiring as u64,
        total_revenue_sats: total,
    }
}

/// One rental as the administrator's listing shows it.
#[derive(Debug, Clone)]
pub struct AdminRentalEntry {
    pub username: String,
    /// `"banned"` where a ban exists, else the stored status.
    pub status: String,
    pub plan: Plan,
    pub created_at: u64,
    pub expires_at: u64,
    /// Whole minutes until expiry, rounded up; negative once expired.
    pub minutes_remaining: i64,
    pub has_email: bool,
    pub has_subdomain: bool,
    pub has_nip05: bool,
}

/// Minutes from `now` to `expires`, rounded up.
pub open spec fn minutes_until(expires: u64, now: u64) -> int {
    if expires > now {
        let d = expires - now;
        d / 60_000 + if d % 60_000 != 0 {
            1int
        } else {
            0
        }
    } else {
        -((now - expires) / 60_000)
    }
}

/// The listing entry of a rental.
pub fn rental_entry(rental: &Rental, banned: bool, now: u64) -> (r: AdminRentalEntry)
    ensures
        r.username == rental.username,
        r.status@ == (if banned {
            "banned"@
        } else if rental.status == RentalStatus::Active {
            "active"@
        } else {
            "expired"@
        }),
        r.plan == rental.plan,
        r.created_at == rental.created_at,
        r.expires_at == rental.expires_at,
        r.minutes_remaining == minutes_until(rental.expires_at, now),
        r.has_email == (rental.services.email is Some && rental.services.email->0.enabled),
        r.has_subdomain == (rental.services.subdomain is Some && rental.services.subdomain->0.enabled),
        r.has_nip05 == (rental.services.nip05 is Some && rental.services.nip05->0.enabled),
{
    let minutes: i64 = if rental.expires_at > now {
        let d = rental.expires_at - now;
        let whole = d / 60_000;
        (if d % 60_000 != 0 {
            whole + 1
        } else {
            whole
        }) as i64
    } else {
        let d = now - rental.expires_at;
        -((d / 60_000) as i64)
    };
    let status = if banned {
        String::from_str("banned")
    } else {
        String::from_str(rental.status.as_str())
    };
    AdminRentalEntry {
        username: rental.username.clone(),
        status,
        plan: rental.plan,
        created_at: rental.created_at,
        expires_at: rental.expires_at,
        minutes_remaining: minutes,
        has_email: match &rental.services.email {
            Some(e) => e.enabled,
            None => false,
        },
        has_subdomain: match &rental.services.subdomain {
            Some(s) => s.enabled,
            None => false,
        },
        has_nip05: match &rental.services.nip05 {
            Some(n) => n.enabled,
            None => false,
        },
    }
}

/// Whether a listing entry passes the status filter (no filter passes every entry).
pub fn entry_matches(entry: &AdminRentalEntry, filter: &Option<String>) -> (r: bool)
    ensures
        r == (filter is None || entry.status@ == filter->0@),
{
    match filter {
        None => true,
        Some(f) => str_eq(entry.status.as_str(), f.as_str()),
    }
}

/// Entries ordered by expiry, latest first.
pub open spec fn expiry_descending(s: Seq<AdminRentalEntry>) -> bool {
    forall|i: int, j: int| 0 <= i < j < s.len() ==> s[i].expires_at >= s[j].expires_at
}

/// Orders listing entries by expiry, latest first.
pub fn sort_by_expiry(entries: Vec<AdminRentalEntry>) -> (r: Vec<AdminRentalEntry>)
    ensures
        r@.to_multiset() == entries@.to_multiset(),
        expiry_descending(r@),
{
    broadcast use vstd::seq_lib::to_multiset_build, vstd::seq_lib::to_multiset_insert;

    let ghost input = entries@;
    let mut rest = entries;
    let mut out: Vec<AdminRentalEntry> = Vec::new();
    assert(out@.to_multiset() =~= Multiset::empty()) by {
        broadcast use vstd::seq_lib::to_multiset_len;
        assert(out@.to_multiset().len() == 0);
    }
    while rest.len() > 0
        invariant
            out@.to_multiset().add(rest@.to_multiset()) == input.to_multiset(),
            expiry_descending(out@),
        decreases rest@.len(),
    {
        let ghost before = rest@;
        let e = rest.pop().unwrap();
        assert(before == rest@.push(e));
        let mut pos: usize = 0;
        while pos < out.len() && out[pos].expires_at >= e.expires_at
            invariant
                pos <= out@.len(),
                forall|k: int| 0 <= k < pos ==> out@[k].expires_at >= e.expires_at,
            decreases out@.len() - pos,
        {
            pos = pos + 1;
        }
        let ghost prev = out@;
        out.insert(pos, e);
        assert(out@ == prev.insert(pos as int, e));
        proof {
            vstd::seq_lib::to_multiset_insert(prev, pos as int, e);
            vstd::seq_lib::to_multiset_build(rest@, e);
        }
        assert(out@.to_multiset() == prev.to_multiset().insert(e));
        assert(before.to_multiset() == rest@.to_multiset().insert(e));
        assert(out@.to_multiset().add(rest@.to_multiset()) =~= prev.to_multiset().add(before.to_multiset()));
        assert forall|i: int, j: int| 0 <= i < j < out@.len() implies out@[i].expires_at >= out@[j].expires_at by {
            if pos < prev.len() {
                assert(prev[pos as int].expires_at < e.expires_at);
            }
            if i < pos && j > pos {
                assert(out@[i] == prev[i]);
                assert(out@[j] == prev[j - 1]);
            } else if i < pos && j == pos {
                assert(out@[i] == prev[i]);
            } else if i == pos && j > pos {
                assert(out@[j] == prev[j - 1]);
                assert(prev[pos as int].expires_at >= prev[j - 1].expires_at);
            } else if i > pos {
                assert(out@[i] == prev[i - 1]);
                assert(out@[j] == prev[j - 1]);
            } else {
                assert(out@[i] == prev[i]);
                assert(out@[j] == prev[j]);
            }
        }
    }
    assert(rest@ =~= Seq::<AdminRentalEntry>::empty());
    assert(out@.to_multiset() =~= input.to_multiset()) by {
        assert(rest@.to_multiset() =~= Multiset::empty()) by {
            broadcast use vstd::seq_lib::to_multiset_len;
            assert(rest@.to_multiset().len() == 0);
        }
    }
    out
}

/// One page of the administrator's listing.
#[derive(Debug, Clone)]
pub struct AdminRentalsResponse {
    pub rentals: Vec<AdminRentalEntry>,
    pub total: usize,
    pub page: usize,
    pub limit: usize,
}

/// The page number used: at least 1.
pub open spec fn page_used(page: usize) -> usize {
    if page < 1 {
        1
    } else {
        page
    }
}

/// The page size used: at most 100.
pub open spec fn limit_used(limit: usize) -> usize {
    if limit > 100 {
        100
    } else {
        limit
    }
}

/// Position of the first entry of a page (where it fits in a `usize`).
pub open spec fn page_start(page: usize, limit: usize) -> int {
    (page_used(page) - 1) * limit_used(limit)
}

/// Orders the entries by expiry, latest first, and cuts out page `page` (counted from 1) of
/// `limit` entries (at most 100); a page past the end is empty.
pub fn rentals_page(entries: Vec<AdminRentalEntry>, page: usize, limit: usize) -> (r: AdminRentalsResponse)
    ensures
        r.total == entries@.len(),
        r.page == page_used(page),
        r.limit == limit_used(limit),
        r.rentals@.len() == (if page_start(page, limit) >= entries@.len() {
            0
        } else if page_start(page, limit) + limit_used(limit) > entries@.len() {
            entries@.len() - page_start(page, limit)
        } else {
            limit_used(limit) as int
        }),
        exists|sorted: Seq<AdminRentalEntry>|
            sorted.to_multiset() == entries@.to_multiset() && expiry_descending(sorted) && (
            page_start(page, limit) < entries@.len() ==> r.rentals@ == sorted.subrange(
                page_start(page, limit),
                page_start(page, limit) + r.rentals@.len(),
            )),
{
    let page = if page < 1 {
        1
    } else {
        page
    };
    let limit = if limit > 100 {
        100
    } else {
        limit
    };
    let mut sorted = sort_by_expiry(entries);
    let ghost all = sorted@;
    proof {
        broadcast use vstd::seq_lib::to_multiset_len;
        assert(all.len() == all.to_multiset().len());
        assert(entries@.len() == entries@.to_multiset().len());
    }
    let total = sorted.len();
    let start = match (page - 1).checked_mul(limit) {
        Some(s) => s,
        None => total,
    };
    if start >= total {
        return AdminRentalsResponse { rentals: Vec::new(), total, page, limit };
    }
    let end = if limit > total - start {
        total
    } else {
        start + limit
    };
    sorted.truncate(end);
    let rentals = sorted.split_off(start);
    assert(rentals@ =~= all.subrange(start as int, end as int));
    AdminRentalsResponse { rentals, total, page, limit }
}

} // verus!
