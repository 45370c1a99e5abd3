//! Order lifecycle: creation, webhook challenge, invoice, payment matching, completion.
//!
//! Each step is a function from the stored records and the event to the new records; the
//! calls to outside services (payment provider, DNS provider) happen between the steps.
use vstd::prelude::*;
use vstd::string::*;

use crate::dns::{record_type_named, upper_of, DnsRecordType};
use crate::model::{
    copy_opt_string, CoinosWebhookPayload, EmailService, Nip05Service, Order, OrderRequest,
    OrderResponse, OrderServicesRequest, OrderStatus, OrderStatusResponse, Rental,
    RentalServices, RentalStatus, RenewResponse, SubdomainService,
};
use crate::pricing::{dynamic_total, plan_duration_ms, Plan, PricingConfig, ServiceType};
use crate::rentals::{available, is_available};
use crate::text::{has_prefix, starts_with, str_eq};
use crate::validation::{username_error, validate_username};

verus! {

/// How long an order waits for its challenge and its payment, in milliseconds (15 minutes).
pub const ORDER_TTL_MS: u64 = 900_000;

/// The steps an order may take: WebhookPending to Pending, Paid or Expired; Pending to Paid
/// or Expired; Paid to Provisioned. Provisioned and Expired are terminal.
pub open spec fn order_step(from: OrderStatus, to: OrderStatus) -> bool {
    from == to || match (from, to) {
        (OrderStatus::WebhookPending, OrderStatus::Pending) => true,
        (OrderStatus::WebhookPending, OrderStatus::Paid) => true,
        (OrderStatus::WebhookPending, OrderStatus::Expired) => true,
        (OrderStatus::Pending, OrderStatus::Paid) => true,
        (OrderStatus::Pending, OrderStatus::Expired) => true,
        (OrderStatus::Paid, OrderStatus::Provisioned) => true,
        _ => false,
    }
}

/// No step leaves a terminal status.
pub proof fn lemma_terminal_statuses(to: OrderStatus)
    ensures
        order_step(OrderStatus::Provisioned, to) ==> to == OrderStatus::Provisioned,
        order_step(OrderStatus::Expired, to) ==> to == OrderStatus::Expired,
{
}

/// Refusals of the order operations.
#[derive(Debug, Clone, PartialEq, Eq)]
pub enum OrderError {
    /// The username fails the format rules; carries the refusal.
    InvalidUsername(String),
    /// The caller's webhook URL is missing or not HTTP(S); carries the refusal.
    InvalidWebhookUrl(String),
    /// The username is banned.
    Blocked,
    /// A valid rental holds the username.
    Taken,
    /// The pricing table gives a total that does not fit in a `u64`.
    PriceOutOfRange,
    /// The order is not waiting for its webhook challenge.
    NotAwaitingChallenge,
    /// The presented challenge is not the order's.
    InvalidChallenge,
    /// The order's window has passed.
    OrderExpired,
}

/// The reason reported for an order refusal.
pub open spec fn order_error_text(e: OrderError) -> Seq<char> {
    match e {
        OrderError::InvalidUsername(m) => m@,
        OrderError::InvalidWebhookUrl(m) => m@,
        OrderError::Blocked => "This username is blocked"@,
        OrderError::Taken => "Username is already taken"@,
        OrderError::PriceOutOfRange => "Price is out of range"@,
        OrderError::NotAwaitingChallenge => "Order is not pending webhook verification"@,
        OrderError::InvalidChallenge => "Invalid challenge token"@,
        OrderError::OrderExpired => "Order expired"@,
    }
}

impl OrderError {
    /// The HTTP status that reports this refusal.
    pub fn status_code(&self) -> (r: u16)
        ensures
            r == (match *self {
                OrderError::Blocked | OrderError::InvalidChallenge => 403,
                OrderError::Taken => 409,
                OrderError::OrderExpired => 410,
                _ => 400u16,
            }),
    {
        match self {
            OrderError::Blocked | OrderError::InvalidChallenge => 403,
            OrderError::Taken => 409,
            OrderError::OrderExpired => 410,
            _ => 400,
        }
    }

    /// A human-readable reason.
    pub fn message(&self) -> (r: String)
        ensures
            r@ == order_error_text(*self),
    {
        match self {
            OrderError::InvalidUsername(m) => m.clone(),
            OrderError::InvalidWebhookUrl(m) => m.clone(),
            OrderError::Blocked => String::from_str("This username is blocked"),
            OrderError::Taken => String::from_str("Username is already taken"),
            OrderError::PriceOutOfRange => String::from_str("Price is out of range"),
            OrderError::NotAwaitingChallenge => String::from_str(
                "Order is not pending webhook verification",
            ),
            OrderError::InvalidChallenge => String::from_str("Invalid challenge token"),
            OrderError::OrderExpired => String::from_str("Order expired"),
        }
    }
}

/// Why a caller's webhook URL is refused, or `None`: it must be non-empty and start with
/// `https://` or `http://`.
pub open spec fn webhook_url_error(u: Seq<char>) -> Option<Seq<char>> {
    if u.len() == 0 {
        Some("webhook_url is required"@)
    } else if !has_prefix(u, "https://"@) && !has_prefix(u, "http://"@) {
        Some("webhook_url must be a valid HTTP(S) URL"@)
    } else {
        None
    }
}

/// Checks a caller's webhook URL.
pub fn validate_webhook_url(url: &str) -> (r: Result<(), String>)
    ensures
        match r {
            Ok(()) => webhook_url_error(url@) is None,
            Err(m) => webhook_url_error(url@) == Some(m@),
        },
{
    if url.unicode_len() == 0 {
        return Err(String::from_str("webhook_url is required"));
    }
    if !starts_with(url, "https://") && !starts_with(url, "http://") {
        return Err(String::from_str("webhook_url must be a valid HTTP(S) URL"));
    }
    Ok(())
}

/// Checks the webhook URL submitted in a rental's settings: absent or empty clears it,
/// anything else must pass the same rule as at order creation.
pub fn validate_settings_webhook_url(url: &Option<String>) -> (r: Result<(), String>)
    ensures
        match *url {
            None => r is Ok,
            Some(u) => if u@.len() == 0 {
                r is Ok
            } else {
                match r {
                    Ok(()) => webhook_url_error(u@) is None,
                    Err(m) => webhook_url_error(u@) == Some(m@),
                }
            },
        },
{
    match url {
        None => Ok(()),
        Some(u) => {
            if u.unicode_len() == 0 {
                Ok(())
            } else {
                validate_webhook_url(u.as_str())
            }
        },
    }
}

/// The service kinds that an order requests, in the order subdomain, email, NIP-05.
pub open spec fn requested_kinds(s: Option<OrderServicesRequest>) -> Seq<ServiceType> {
    match s {
        None => Seq::empty(),
        Some(svc) => (if svc.subdomain is Some {
            seq![ServiceType::Subdomain]
        } else {
            Seq::empty()
        }) + (if svc.email is Some {
            seq![ServiceType::EmailForwarding]
        } else {
            Seq::empty()
        }) + (if svc.nip05 is Some {
            seq![ServiceType::Nip05]
        } else {
            Seq::empty()
        }),
    }
}

/// The service kinds that a rental has enabled, in the order subdomain, email, NIP-05.
pub open spec fn enabled_kinds(s: RentalServices) -> Seq<ServiceType> {
    (if s.subdomain is Some && s.subdomain->0.enabled {
        seq![ServiceType::Subdomain]
    } else {
        Seq::empty()
    }) + (if s.email is Some && s.email->0.enabled {
        seq![ServiceType::EmailForwarding]
    } else {
        Seq::empty()
    }) + (if s.nip05 is Some && s.nip05->0.enabled {
        seq![ServiceType::Nip05]
    } else {
        Seq::empty()
    })
}

/// Lists the service kinds that an order requests.
pub fn services_from_request(services: &Option<OrderServicesRequest>) -> (r: Vec<ServiceType>)
    ensures
        r@ == requested_kinds(*services),
{
    let mut result: Vec<ServiceType> = Vec::new();
    if let Some(svc) = services {
        if svc.subdomain.is_some() {
            result.push(ServiceType::Subdomain);
        }
        if svc.email.is_some() {
            result.push(ServiceType::EmailForwarding);
        }
        if svc.nip05.is_some() {
            result.push(ServiceType::Nip05);
        }
    }
    assert(result@ =~= requested_kinds(*services));
    result
}

/// Lists the service kinds that a rental has enabled.
pub fn services_from_rental(services: &RentalServices) -> (r: Vec<ServiceType>)
    ensures
        r@ == enabled_kinds(*services),
{
    let mut result: Vec<ServiceType> = Vec::new();
    if let Some(s) = &services.subdomain {
        if s.enabled {
            result.push(ServiceType::Subdomain);
        }
    }
    if let Some(s) = &services.email {
        if s.enabled {
            result.push(ServiceType::EmailForwarding);
        }
    }
    if let Some(s) = &services.nip05 {
        if s.enabled {
            result.push(ServiceType::Nip05);
        }
    }
    assert(result@ =~= enabled_kinds(*services));
    result
}

/// `o` is the order placed for `req` at `now` under `id` and `challenge`, priced at `price`.
pub open spec fn placed_order(o: Order, req: OrderRequest, price: u64, now: u64, id: String, challenge: String) -> bool {
    &&& o.order_id == id
    &&& o.username == req.username
    &&& o.plan == req.plan
    &&& o.amount_sats == price
    &&& o.bolt11@.len() == 0
    &&& o.status == OrderStatus::WebhookPending
    &&& o.created_at == now
    &&& o.expires_at == now + ORDER_TTL_MS
    &&& o.coinos_invoice_hash is None
    &&& o.webhook_secret is None
    &&& o.services_requested == req.services
    &&& o.management_token is None
    &&& o.renewal_for is None
    &&& o.webhook_url == Some(req.webhook_url)
    &&& o.webhook_challenge == Some(challenge)
}

/// Places an order. Refused, in this order, for a malformed username, a bad webhook URL, a
/// banned username, a username that a valid rental holds, and a total that does not fit in
/// a `u64`. Otherwise the order waits for its webhook challenge for 15 minutes, priced from
/// the table as it stands now.
pub fn create_order(
    req: OrderRequest,
    banned: bool,
    existing: &Option<Rental>,
    pricing: &PricingConfig,
    now: u64,
    order_id: String,
    challenge: String,
) -> (r: Result<Order, OrderError>)
    requires
        now + ORDER_TTL_MS <= u64::MAX,
    ensures
        username_error(req.username@) is Some ==> r is Err && r->Err_0 is InvalidUsername
            && r->Err_0->InvalidUsername_0@ == username_error(req.username@)->0,
        username_error(req.username@) is None && webhook_url_error(req.webhook_url@) is Some ==> r is Err
            && r->Err_0 is InvalidWebhookUrl && r->Err_0->InvalidWebhookUrl_0@ == webhook_url_error(
            req.webhook_url@,
        )->0,
        username_error(req.username@) is None && webhook_url_error(req.webhook_url@) is None ==> {
            if banned {
                r == Err::<Order, OrderError>(OrderError::Blocked)
            } else if !available(banned, *existing, now) {
                r == Err::<Order, OrderError>(OrderError::Taken)
            } else if dynamic_total(req.plan, requested_kinds(req.services), pricing@) > u64::MAX {
                r == Err::<Order, OrderError>(OrderError::PriceOutOfRange)
            } else {
                r is Ok && placed_order(
                    r->Ok_0,
                    req,
                    dynamic_total(req.plan, requested_kinds(req.services), pricing@) as u64,
                    now,
                    order_id,
                    challenge,
                )
            }
        },
{
    if let Err(m) = validate_username(req.username.as_str()) {
        return Err(OrderError::InvalidUsername(m));
    }
    if let Err(m) = validate_webhook_url(req.webhook_url.as_str()) {
        return Err(OrderError::InvalidWebhookUrl(m));
    }
    if banned {
        return Err(OrderError::Blocked);
    }
    if !is_available(banned, existing, now) {
        return Err(OrderError::Taken);
    }
    let kinds = services_from_request(&req.services);
    let amount = match Plan::checked_total_dynamic(&req.plan, kinds.as_slice(), pricing) {
        Some(a) => a,
        None => {
            return Err(OrderError::PriceOutOfRange);
        },
    };
    Ok(
        Order {
            order_id,
            username: req.username,
            plan: req.plan,
            amount_sats: amount,
            bolt11: String::new(),
            status: OrderStatus::WebhookPending,
            created_at: now,
            expires_at: now + ORDER_TTL_MS,
            coinos_invoice_hash: None,
            webhook_secret: None,
            services_requested: req.services,
            management_token: None,
            renewal_for: None,
            webhook_url: Some(req.webhook_url),
            webhook_challenge: Some(challenge),
        },
    )
}

/// Checks a challenge confirmation: the order must wait for its challenge, the challenge
/// must be the one minted at creation, and the order's window must not have passed. A
/// refusal changes nothing.
pub fn confirm_challenge(order: &Order, challenge: &str, now: u64) -> (r: Result<(), OrderError>)
    ensures
        order.expires_at < now ==> r is Err,
        order.status != OrderStatus::WebhookPending ==> r == Err::<(), OrderError>(
            OrderError::NotAwaitingChallenge,
        ),
        order.status == OrderStatus::WebhookPending && !(order.webhook_challenge is Some
            && order.webhook_challenge->0@ == challenge@) ==> r == Err::<(), OrderError>(
            OrderError::InvalidChallenge,
        ),
        order.status == OrderStatus::WebhookPending && order.webhook_challenge is Some
            && order.webhook_challenge->0@ == challenge@ ==> r == (if order.expires_at < now {
            Err::<(), OrderError>(OrderError::OrderExpired)
        } else {
            Ok(())
        }),
{
    if order.status != OrderStatus::WebhookPending {
        return Err(OrderError::NotAwaitingChallenge);
    }
    let matches = match &order.webhook_challenge {
        Some(c) => str_eq(c.as_str(), challenge),
        None => false,
    };
    if !matches {
        return Err(OrderError::InvalidChallenge);
    }
    if order.expires_at < now {
        return Err(OrderError::OrderExpired);
    }
    Ok(())
}

/// The order after its invoice was issued: it holds the invoice and the payment secret, and
/// waits for payment, or counts as paid where payments are simulated.
pub open spec fn invoiced(o: Order, invoice: String, invoice_hash: Option<String>, secret: String, simulated: bool) -> Order {
    Order {
        bolt11: invoice,
        coinos_invoice_hash: invoice_hash,
        webhook_secret: Some(secret),
        status: if simulated {
            OrderStatus::Paid
        } else {
            OrderStatus::Pending
        },
        ..o
    }
}

/// Records the invoice issued after a confirmed challenge.
pub fn record_invoice(order: &mut Order, invoice: String, invoice_hash: Option<String>, secret: String, simulated: bool)
    requires
        old(order).status == OrderStatus::WebhookPending,
    ensures
        *final(order) == invoiced(*old(order), invoice, invoice_hash, secret, simulated),
        order_step(old(order).status, final(order).status),
{
    order.bolt11 = invoice;
    order.coinos_invoice_hash = invoice_hash;
    order.webhook_secret = Some(secret);
    order.status = if simulated {
        OrderStatus::Paid
    } else {
        OrderStatus::Pending
    };
}

/// An order that a payment notice with `secret` may settle: it waits for payment and holds
/// that secret.
pub open spec fn payable(o: Order, secret: Seq<char>) -> bool {
    o.status == OrderStatus::Pending && o.webhook_secret is Some && o.webhook_secret->0@ == secret
}

/// `i` is the first position of `s` that `secret` may settle.
pub open spec fn is_first_payable(s: Seq<Order>, secret: Seq<char>, i: int) -> bool {
    0 <= i < s.len() && payable(s[i], secret) && forall|j: int| 0 <= j < i ==> !payable(#[trigger] s[j], secret)
}

/// A payment notice is considered only when it is confirmed and carries a secret and a hash.
pub open spec fn notice_usable(p: CoinosWebhookPayload) -> bool {
    p.confirmed == Some(true) && p.secret is Some && p.hash is Some
}

/// What a payment notice did.
#[derive(Debug, Clone, Copy, PartialEq, Eq, Structural)]
pub enum PaymentMatch {
    /// Not confirmed, or without secret or hash.
    Ignored,
    /// No order waits for payment under this secret.
    NoMatch,
    /// The order at this position matched, but its window had passed.
    Stale(usize),
    /// The order at this position is now paid.
    Matched(usize),
}

/// The order once its payment was seen, with the provider's settlement hash.
pub open spec fn paid(o: Order, hash: String) -> Order {
    Order { status: OrderStatus::Paid, coinos_invoice_hash: Some(hash), ..o }
}

/// The stored orders and the outcome after a payment notice at `now`: the first order that
/// the notice may settle becomes paid, unless its window has passed; nothing else changes.
pub open spec fn settle(s: Seq<Order>, p: CoinosWebhookPayload, now: u64) -> (Seq<Order>, PaymentMatch) {
    if !notice_usable(p) {
        (s, PaymentMatch::Ignored)
    } else if !(exists|i: int| is_first_payable(s, p.secret->0@, i)) {
        (s, PaymentMatch::NoMatch)
    } else {
        let i = choose|i: int| is_first_payable(s, p.secret->0@, i);
        if s[i].expires_at < now {
            (s, PaymentMatch::Stale(i as usize))
        } else {
            (s.update(i, paid(s[i], p.hash->0)), PaymentMatch::Matched(i as usize))
        }
    }
}

proof fn lemma_first_payable(s: Seq<Order>, secret: Seq<char>, i: int)
    requires
        is_first_payable(s, secret, i),
    ensures
        (choose|k: int| is_first_payable(s, secret, k)) == i,
{
    let c = choose|k: int| is_first_payable(s, secret, k);
    assert(is_first_payable(s, secret, c));
    if c < i {
        assert(!payable(s[c], secret));
    } else if i < c {
        assert(!payable(s[i], secret));
    }
}

/// Applies a payment notice to the stored orders.
pub fn settle_payment(orders: &mut Vec<Order>, payload: &CoinosWebhookPayload, now: u64) -> (r: PaymentMatch)
    ensures
        (final(orders)@, r) == settle(old(orders)@, *payload, now),
        final(orders)@.len() == old(orders)@.len(),
        forall|k: int|
            0 <= k < old(orders)@.len() ==> order_step(
                #[trigger] old(orders)@[k].status,
                final(orders)@[k].status,
            ),
{
    let confirmed = match payload.confirmed {
        Some(c) => c,
        None => false,
    };
    if !confirmed {
        return PaymentMatch::Ignored;
    }
    let secret = match &payload.secret {
        Some(s) => s,
        None => {
            return PaymentMatch::Ignored;
        },
    };
    let hash = match &payload.hash {
        Some(h) => h,
        None => {
            return PaymentMatch::Ignored;
        },
    };
    let ghost s = orders@;
    let mut i: usize = 0;
    while i < orders.len()
        invariant
            orders@ == s,
            old(orders)@ == s,
            notice_usable(*payload),
            *secret == payload.secret->0,
            *hash == payload.hash->0,
            i <= s.len(),
            forall|j: int| 0 <= j < i ==> !payable(#[trigger] s[j], secret@),
        decreases s.len() - i,
    {
        let o = &orders[i];
        let hit = o.status == OrderStatus::Pending && match &o.webhook_secret {
            Some(w) => str_eq(w.as_str(), secret.as_str()),
            None => false,
        };
        if hit {
            proof {
                assert(is_first_payable(s, secret@, i as int));
                lemma_first_payable(s, secret@, i as int);
            }
            if o.expires_at < now {
                return PaymentMatch::Stale(i);
            }
            orders[i].status = OrderStatus::Paid;
            orders[i].coinos_invoice_hash = Some(hash.clone());
            proof {
                assert(orders@ =~= s.update(i as int, paid(s[i as int], payload.hash->0)));
            }
            return PaymentMatch::Matched(i);
        }
        i = i + 1;
    }
    PaymentMatch::NoMatch
}

/// The order once provisioning finished, carrying the management token.
pub open spec fn provisioned(o: Order, token: Option<String>) -> Order {
    Order { status: OrderStatus::Provisioned, management_token: token, ..o }
}

/// Completes a paid order after its rental was granted or extended.
pub fn complete_order(order: &mut Order, token: Option<String>)
    requires
        old(order).status == OrderStatus::Paid,
    ensures
        *final(order) == provisioned(*old(order), token),
        order_step(old(order).status, final(order).status),
{
    order.status = OrderStatus::Provisioned;
    order.management_token = token;
}

/// Whether an order's window has passed before completion.
pub open spec fn overdue(o: Order, now: u64) -> bool {
    (o.status == OrderStatus::WebhookPending || o.status == OrderStatus::Pending) && o.expires_at < now
}

/// Moves an order whose window has passed before completion to `Expired`; returns whether it
/// did.
pub fn expire_if_overdue(order: &mut Order, now: u64) -> (r: bool)
    ensures
        r == overdue(*old(order), now),
        *final(order) == (if r {
            Order { status: OrderStatus::Expired, ..*old(order) }
        } else {
            *old(order)
        }),
        order_step(old(order).status, final(order).status),
{
    if (order.status == OrderStatus::WebhookPending || order.status == OrderStatus::Pending)
        && order.expires_at < now {
        order.status = OrderStatus::Expired;
        true
    } else {
        false
    }
}

/// A replayed payment notice changes nothing. Where at most one order waits for payment under
/// the notice's secret and a first delivery paid it, a second delivery at any time matches no
/// order, whether provisioning then completed or left the order paid.
pub proof fn lemma_payment_replay_is_ignored(
    orders: Seq<Order>,
    p: CoinosWebhookPayload,
    now: u64,
    later: u64,
    i: usize,
    token: Option<String>,
)
    requires
        forall|j: int, k: int|
            0 <= j < orders.len() && 0 <= k < orders.len() && payable(#[trigger] orders[j], p.secret->0@)
                && payable(#[trigger] orders[k], p.secret->0@) ==> j == k,
        settle(orders, p, now).1 == PaymentMatch::Matched(i),
        orders.len() <= usize::MAX,
    ensures
        settle(orders, p, now).0[i as int].status == OrderStatus::Paid,
        settle(settle(orders, p, now).0, p, later) == (settle(orders, p, now).0, PaymentMatch::NoMatch),
        settle(
            settle(orders, p, now).0.update(i as int, provisioned(settle(orders, p, now).0[i as int], token)),
            p,
            later,
        ) == (
            settle(orders, p, now).0.update(i as int, provisioned(settle(orders, p, now).0[i as int], token)),
            PaymentMatch::NoMatch,
        ),
{
    let secret = p.secret->0@;
    assert(notice_usable(p));
    assert(exists|k: int| is_first_payable(orders, secret, k));
    let k = choose|k: int| is_first_payable(orders, secret, k);
    assert(is_first_payable(orders, secret, k));
    assert(k == i as int);
    let after = settle(orders, p, now).0;
    assert(after == orders.update(k, paid(orders[k], p.hash->0)));
    assert forall|j: int| 0 <= j < after.len() implies !payable(#[trigger] after[j], secret) by {
        if j != k && payable(orders[j], secret) {
            assert(payable(orders[k], secret));
        }
    }
    let done = after.update(k, provisioned(after[k], token));
    assert forall|j: int| 0 <= j < done.len() implies !payable(#[trigger] done[j], secret) by {
        if j != k {
            assert(done[j] == after[j]);
        }
    }
}

/// Where an order asks for a subdomain, the record type to create for it, checked before
/// any call to the DNS provider; `Ok(None)` when no subdomain is asked for.
pub fn subdomain_to_provision(order: &Order) -> (r: Result<Option<DnsRecordType>, String>)
    ensures
        match order.services_requested {
            Some(svc) => match svc.subdomain {
                Some(req) => match r {
                    Ok(Some(t)) => record_type_named(upper_of(req.record_type@)) == Some(t),
                    Ok(None) => false,
                    Err(m) => record_type_named(upper_of(req.record_type@)) is None && m@
                        == "Unsupported DNS record type: "@ + upper_of(req.record_type@),
                },
                None => r == Ok::<Option<DnsRecordType>, String>(None),
            },
            None => r == Ok::<Option<DnsRecordType>, String>(None),
        },
{
    match &order.services_requested {
        Some(svc) => match &svc.subdomain {
            Some(req) => match DnsRecordType::parse(req.record_type.as_str()) {
                Ok(t) => Ok(Some(t)),
                Err(m) => Err(m),
            },
            None => Ok(None),
        },
        None => Ok(None),
    }
}

/// `svc` holds, enabled, the services that `req` asks for, the subdomain with the DNS record
/// `record`, and nothing else.
pub open spec fn services_granted(svc: RentalServices, req: Option<OrderServicesRequest>, record: Option<String>) -> bool {
    match req {
        None => svc.email is None && svc.subdomain is None && svc.nip05 is None,
        Some(s) => {
            &&& match s.email {
                Some(e) => svc.email == Some(
                    EmailService { enabled: true, forward_to: e.forward_to, cf_rule_id: None },
                ),
                None => svc.email is None,
            }
            &&& match s.subdomain {
                Some(d) => svc.subdomain == Some(
                    SubdomainService {
                        enabled: true,
                        record_type: d.record_type,
                        target: d.target,
                        proxied: d.proxied,
                        cf_record_id: record,
                    },
                ),
                None => svc.subdomain is None,
            }
            &&& match s.nip05 {
                Some(n) => svc.nip05 is Some && svc.nip05->0.enabled && svc.nip05->0.pubkey_hex
                    == n.pubkey && svc.nip05->0.relays@.len() == 0,
                None => svc.nip05 is None,
            }
        },
    }
}

fn grant_services(req: &Option<OrderServicesRequest>, record: Option<String>) -> (r: RentalServices)
    ensures
        services_granted(r, *req, record),
{
    match req {
        None => RentalServices { email: None, subdomain: None, nip05: None },
        Some(s) => {
            let email = match &s.email {
                Some(e) => Some(
                    EmailService { enabled: true, forward_to: e.forward_to.clone(), cf_rule_id: None },
                ),
                None => None,
            };
            let subdomain = match &s.subdomain {
                Some(d) => Some(
                    SubdomainService {
                        enabled: true,
                        record_type: d.record_type.clone(),
                        target: d.target.clone(),
                        proxied: d.proxied,
                        cf_record_id: record,
                    },
                ),
                None => None,
            };
            let nip05 = match &s.nip05 {
                Some(n) => Some(
                    Nip05Service { enabled: true, pubkey_hex: n.pubkey.clone(), relays: Vec::new() },
                ),
                None => None,
            };
            RentalServices { email, subdomain, nip05 }
        },
    }
}

/// `r` is the rental that a paid new order grants at `now`.
pub open spec fn granted_rental(r: Rental, o: Order, now: u64, record: Option<String>, token: String) -> bool {
    &&& r.username == o.username
    &&& r.status == RentalStatus::Active
    &&& r.created_at == now
    &&& r.expires_at == now + plan_duration_ms(o.plan)
    &&& r.plan == o.plan
    &&& services_granted(r.services, o.services_requested, record)
    &&& r.management_token == Some(token)
    &&& r.webhook_url == o.webhook_url
}

/// Grants the rental of a paid new order: active from `now` for the plan's length, with the
/// requested services (the subdomain with the DNS record created for it), and a fresh
/// management token.
pub fn activate_new(order: &Order, now: u64, record: Option<String>, token: String) -> (r: Rental)
    requires
        now + plan_duration_ms(order.plan) <= u64::MAX,
    ensures
        granted_rental(r, *order, now, record, token),
{
    Rental {
        username: order.username.clone(),
        status: RentalStatus::Active,
        created_at: now,
        expires_at: now + order.plan.duration_ms(),
        plan: order.plan,
        services: grant_services(&order.services_requested, record),
        management_token: Some(token),
        webhook_url: copy_opt_string(&order.webhook_url),
    }
}

/// The read-only projection of an order; the management token is shown only once the order
/// is provisioned.
pub fn order_status(order: &Order) -> (r: OrderStatusResponse)
    ensures
        r.order_id == order.order_id,
        r.status == order.status,
        r.management_token == (if order.status == OrderStatus::Provisioned {
            order.management_token
        } else {
            None
        }),
{
    OrderStatusResponse {
        order_id: order.order_id.clone(),
        status: order.status,
        management_token: if order.status == OrderStatus::Provisioned {
            copy_opt_string(&order.management_token)
        } else {
            None
        },
    }
}

/// The answer about an order to its creator; like the status, it shows the management token
/// only once the order is provisioned.
pub fn order_response(order: &Order, message: Option<String>) -> (r: OrderResponse)
    ensures
        r.order_id == order.order_id,
        r.amount_sats == order.amount_sats,
        r.bolt11 == order.bolt11,
        r.expires_at == order.expires_at,
        r.status == Some(order.status),
        r.message == message,
        r.management_token == (if order.status == OrderStatus::Provisioned {
            order.management_token
        } else {
            None
        }),
{
    OrderResponse {
        order_id: order.order_id.clone(),
        amount_sats: order.amount_sats,
        bolt11: order.bolt11.clone(),
        expires_at: order.expires_at,
        management_token: if order.status == OrderStatus::Provisioned {
            copy_opt_string(&order.management_token)
        } else {
            None
        },
        status: Some(order.status),
        message,
    }
}

/// The position of the first rental whose management token is `token`.
pub fn find_rental_by_token(rentals: &Vec<Rental>, token: &str) -> (r: Option<usize>)
    ensures
        match r {
            Some(i) => i < rentals@.len() && rentals@[i as int].management_token is Some
                && rentals@[i as int].management_token->0@ == token@ && forall|j: int|
                0 <= j < i ==> !(#[trigger] rentals@[j].management_token is Some
                    && rentals@[j].management_token->0@ == token@),
            None => forall|j: int|
                0 <= j < rentals@.len() ==> !(#[trigger] rentals@[j].management_token is Some
                    && rentals@[j].management_token->0@ == token@),
        },
{
    let mut i: usize = 0;
    while i < rentals.len()
        invariant
            i <= rentals@.len(),
            forall|j: int|
                0 <= j < i ==> !(#[trigger] rentals@[j].management_token is Some
                    && rentals@[j].management_token->0@ == token@),
        decreases rentals@.len() - i,
    {
        let hit = match &rentals[i].management_token {
            Some(t) => str_eq(t.as_str(), token),
            None => false,
        };
        if hit {
            return Some(i);
        }
        i = i + 1;
    }
    None
}

/// The services a renewal is priced for: those it asks for, else those the rental has enabled.
pub open spec fn renewal_kinds(rental: Rental, services: Option<OrderServicesRequest>) -> Seq<ServiceType> {
    if services is Some {
        requested_kinds(services)
    } else {
        enabled_kinds(rental.services)
    }
}

/// The price of renewing a rental under `plan`, or `None` where it does not fit in a `u64`.
pub fn renewal_price(rental: &Rental, plan: Plan, services: &Option<OrderServicesRequest>, pricing: &PricingConfig) -> (r: Option<u64>)
    ensures
        r == (if dynamic_total(plan, renewal_kinds(*rental, *services), pricing@) <= u64::MAX {
            Some(dynamic_total(plan, renewal_kinds(*rental, *services), pricing@) as u64)
        } else {
            None::<u64>
        }),
{
    let kinds = if services.is_some() {
        services_from_request(services)
    } else {
        services_from_rental(&rental.services)
    };
    Plan::checked_total_dynamic(&plan, kinds.as_slice(), pricing)
}

/// The order that renews `rental` under `plan`, with its invoice already issued: it waits for
/// payment for 15 minutes (or counts as paid where payments are simulated), and names the
/// rental it renews.
pub fn renewal_order(
    rental: &Rental,
    plan: Plan,
    amount: u64,
    now: u64,
    order_id: String,
    invoice: String,
    invoice_hash: Option<String>,
    secret: String,
    simulated: bool,
) -> (r: Order)
    requires
        now + ORDER_TTL_MS <= u64::MAX,
    ensures
        r == (Order {
            order_id,
            username: rental.username,
            plan,
            amount_sats: amount,
            bolt11: invoice,
            status: if simulated {
                OrderStatus::Paid
            } else {
                OrderStatus::Pending
            },
            created_at: now,
            expires_at: (now + ORDER_TTL_MS) as u64,
            coinos_invoice_hash: invoice_hash,
            webhook_secret: Some(secret),
            services_requested: None,
            management_token: None,
            renewal_for: Some(rental.username),
            webhook_url: rental.webhook_url,
            webhook_challenge: None,
        }),
{
    Order {
        order_id,
        username: rental.username.clone(),
        plan,
        amount_sats: amount,
        bolt11: invoice,
        status: if simulated {
            OrderStatus::Paid
        } else {
            OrderStatus::Pending
        },
        created_at: now,
        expires_at: now + ORDER_TTL_MS,
        coinos_invoice_hash: invoice_hash,
        webhook_secret: Some(secret),
        services_requested: None,
        management_token: None,
        renewal_for: Some(rental.username.clone()),
        webhook_url: copy_opt_string(&rental.webhook_url),
        webhook_challenge: None,
    }
}

/// The answer to a renewal request: the renewal order's id, amount, invoice and window.
pub fn renewal_response(order: &Order) -> (r: RenewResponse)
    ensures
        r == (RenewResponse {
            order_id: order.order_id,
            amount_sats: order.amount_sats,
            bolt11: order.bolt11,
            expires_at: order.expires_at,
        }),
{
    RenewResponse {
        order_id: order.order_id.clone(),
        amount_sats: order.amount_sats,
        bolt11: order.bolt11.clone(),
        expires_at: order.expires_at,
    }
}

/// An order's price is fixed when it is placed: issuing the invoice, seeing the payment,
/// completing the order and expiring it all keep the amount, whatever the pricing table says
/// by then.
pub proof fn lemma_amount_fixed(
    o: Order,
    invoice: String,
    invoice_hash: Option<String>,
    secret: String,
    simulated: bool,
    hash: String,
    token: Option<String>,
)
    ensures
        invoiced(o, invoice, invoice_hash, secret, simulated).amount_sats == o.amount_sats,
        paid(o, hash).amount_sats == o.amount_sats,
        provisioned(o, token).amount_sats == o.amount_sats,
        (Order { status: OrderStatus::Expired, ..o }).amount_sats == o.amount_sats,
{
}

} // verus!
