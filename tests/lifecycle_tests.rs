use noscha::admin::{
    admin_provision_check, admin_provisioned_rental, admin_stats, entry_matches, rental_entry,
    rentals_page, AdminProvisionRequest,
};
use noscha::dns::DnsRecordType;
use noscha::model::{
    CoinosWebhookPayload, Order, OrderRequest, OrderServicesRequest, OrderStatus,
    OrderSubdomainRequest, Rental, RentalServices, RentalStatus, SubdomainService,
};
use noscha::orders::{
    complete_order, confirm_challenge, create_order, expire_if_overdue, find_rental_by_token,
    order_response, order_status, record_invoice, renewal_order, renewal_price, renewal_response,
    settle_payment,
    activate_new, services_from_rental, subdomain_to_provision, validate_settings_webhook_url,
    validate_webhook_url, OrderError,
    PaymentMatch, ORDER_TTL_MS,
};
use noscha::pricing::{default_pricing, Plan, ServiceType};
use noscha::rentals::{
    admin_ban, admin_extend, admin_revoke, admin_unban, check_username, expiry_sweep,
    is_available, renew_rental, AdminError,
};

const DAY: u64 = 86_400_000;
const NOW: u64 = 1_760_000_000_000;

fn rental(username: &str, status: RentalStatus, expires_at: u64, record: Option<&str>) -> Rental {
    Rental {
        username: username.to_string(),
        status,
        created_at: NOW - 40 * DAY,
        expires_at,
        plan: Plan::ThirtyDays,
        services: RentalServices {
            email: None,
            subdomain: record.map(|id| SubdomainService {
                enabled: true,
                record_type: "CNAME".to_string(),
                target: "example.com".to_string(),
                proxied: false,
                cf_record_id: Some(id.to_string()),
            }),
            nip05: None,
        },
        management_token: Some(format!("mgmt_{}", username)),
        webhook_url: Some("https://hooks.example.com/a".to_string()),
    }
}

fn subdomain_request() -> Option<OrderServicesRequest> {
    Some(OrderServicesRequest {
        email: None,
        subdomain: Some(OrderSubdomainRequest {
            record_type: "CNAME".to_string(),
            target: "example.com".to_string(),
            proxied: false,
        }),
        nip05: None,
    })
}

fn order_request(username: &str) -> OrderRequest {
    OrderRequest {
        username: username.to_string(),
        plan: Plan::ThirtyDays,
        services: subdomain_request(),
        webhook_url: "https://hooks.example.com/alice".to_string(),
    }
}

fn payment(secret: &str, hash: &str) -> CoinosWebhookPayload {
    CoinosWebhookPayload {
        id: None,
        amount: Some(2000),
        hash: Some(hash.to_string()),
        confirmed: Some(true),
        secret: Some(secret.to_string()),
    }
}

fn pending_order(now: u64) -> Order {
    let pricing = default_pricing();
    let mut order = create_order(order_request("alice"), false, &None, &pricing, now, "ord_1".to_string(), "ch_1".to_string()).unwrap();
    confirm_challenge(&order, "ch_1", now).unwrap();
    record_invoice(&mut order, "lnbc20u1alice".to_string(), None, "sec_1".to_string(), false);
    order
}

#[test]
fn end_to_end_order_to_provisioned_rental() {
    let pricing = default_pricing();
    let mut order = create_order(order_request("alice"), false, &None, &pricing, NOW, "ord_1".to_string(), "ch_1".to_string()).unwrap();
    assert_eq!(order.status, OrderStatus::WebhookPending);
    assert_eq!(order.amount_sats, 2000);
    assert_eq!(order.expires_at, NOW + ORDER_TTL_MS);
    assert_eq!(order.bolt11, "");
    let created = order_response(&order, None);
    assert_eq!(created.management_token, None);

    assert_eq!(confirm_challenge(&order, "ch_1", NOW + 60_000), Ok(()));
    record_invoice(&mut order, "lnbc20u1alice".to_string(), Some("inv_hash".to_string()), "sec_1".to_string(), false);
    assert_eq!(order.status, OrderStatus::Pending);
    assert_eq!(order.bolt11, "lnbc20u1alice");

    let mut orders = vec![order];
    let paid_at = NOW + 120_000;
    assert_eq!(settle_payment(&mut orders, &payment("sec_1", "settled"), paid_at), PaymentMatch::Matched(0));
    assert_eq!(orders[0].status, OrderStatus::Paid);
    assert_eq!(orders[0].coinos_invoice_hash, Some("settled".to_string()));
    assert_eq!(order_status(&orders[0]).management_token, None);

    assert_eq!(subdomain_to_provision(&orders[0]), Ok(Some(DnsRecordType::CNAME)));
    let alice = activate_new(&orders[0], paid_at, Some("rec_1".to_string()), "mgmt_alice".to_string());
    complete_order(&mut orders[0], alice.management_token.clone());

    let status = order_status(&orders[0]);
    assert_eq!(status.status, OrderStatus::Provisioned);
    assert_eq!(status.management_token, Some("mgmt_alice".to_string()));
    assert_eq!(alice.username, "alice");
    assert_eq!(alice.status, RentalStatus::Active);
    assert_eq!(alice.expires_at, paid_at + 30 * DAY);
    let sub = alice.services.subdomain.as_ref().unwrap();
    assert_eq!(sub.cf_record_id, Some("rec_1".to_string()));
    assert!(sub.enabled);
    assert!(!is_available(false, &Some(alice), paid_at + DAY));
}

#[test]
fn replayed_payment_activates_once() {
    let mut orders = vec![pending_order(NOW)];
    let p = payment("sec_1", "h1");
    assert_eq!(settle_payment(&mut orders, &p, NOW + 1), PaymentMatch::Matched(0));
    complete_order(&mut orders[0], Some("mgmt_alice".to_string()));
    let after_first = orders.clone();
    assert_eq!(settle_payment(&mut orders, &p, NOW + 2), PaymentMatch::NoMatch);
    assert_eq!(orders, after_first);
    assert_eq!(orders[0].status, OrderStatus::Provisioned);
}

#[test]
fn payment_notices_that_are_ignored() {
    let mut orders = vec![pending_order(NOW)];
    let before = orders.clone();
    let mut unconfirmed = payment("sec_1", "h1");
    unconfirmed.confirmed = Some(false);
    assert_eq!(settle_payment(&mut orders, &unconfirmed, NOW), PaymentMatch::Ignored);
    let mut no_hash = payment("sec_1", "h1");
    no_hash.hash = None;
    assert_eq!(settle_payment(&mut orders, &no_hash, NOW), PaymentMatch::Ignored);
    let mut no_secret = payment("sec_1", "h1");
    no_secret.secret = None;
    assert_eq!(settle_payment(&mut orders, &no_secret, NOW), PaymentMatch::Ignored);
    assert_eq!(settle_payment(&mut orders, &payment("other", "h1"), NOW), PaymentMatch::NoMatch);
    assert_eq!(settle_payment(&mut orders, &payment("sec_1", "h1"), NOW + ORDER_TTL_MS + 1), PaymentMatch::Stale(0));
    assert_eq!(orders, before);
}

#[test]
fn renewal_is_anchored_at_the_later_instant() {
    let now = NOW;
    // Renewing ten days early keeps the remaining time.
    let mut early = rental("erin", RentalStatus::Active, now + 10 * DAY, None);
    let t = early.expires_at;
    renew_rental(&mut early, Plan::ThirtyDays, now);
    assert_eq!(early.expires_at, t + 30 * DAY);
    // Renewing ten days late starts from now.
    let mut late = rental("frank", RentalStatus::Expired, now - 10 * DAY, None);
    renew_rental(&mut late, Plan::ThirtyDays, now);
    assert_eq!(late.expires_at, now + 30 * DAY);
    assert_eq!(late.status, RentalStatus::Active);
    assert_eq!(late.plan, Plan::ThirtyDays);
}

#[test]
fn availability_rules() {
    assert!(is_available(false, &None, NOW));
    assert!(is_available(false, &Some(rental("gina", RentalStatus::Active, NOW, None)), NOW));
    assert!(is_available(false, &Some(rental("gina", RentalStatus::Active, NOW - DAY, None)), NOW));
    assert!(!is_available(false, &Some(rental("gina", RentalStatus::Active, NOW + 1, None)), NOW));
    assert!(!is_available(true, &None, NOW));
    assert!(!is_available(true, &Some(rental("gina", RentalStatus::Expired, NOW - DAY, None)), NOW));
}

#[test]
fn check_username_answers() {
    let r = check_username("Bad!", false, &None, NOW);
    assert!(!r.available);
    assert_eq!(r.error, Some("Username can only contain lowercase letters, digits, and hyphens".to_string()));
    let r = check_username("hank", true, &None, NOW);
    assert!(!r.available);
    assert_eq!(r.error, Some("This username is blocked".to_string()));
    let r = check_username("hank", false, &None, NOW);
    assert!(r.available);
    assert_eq!(r.error, None);
    assert_eq!(r.username, "hank");
}

#[test]
fn ban_expires_rental_and_unban_does_not_resurrect() {
    let active = rental("ivan", RentalStatus::Active, NOW + 5 * DAY, Some("rec_ivan"));
    let outcome = admin_ban("ivan", false, Some(active), NOW).unwrap();
    assert_eq!(outcome.ban.username, "ivan");
    assert_eq!(outcome.ban.banned_at, NOW);
    assert_eq!(outcome.deprovision, Some("rec_ivan".to_string()));
    let banned_rental = outcome.rental.unwrap();
    assert_eq!(banned_rental.status, RentalStatus::Expired);
    assert!(!is_available(true, &Some(banned_rental.clone()), NOW));
    assert_eq!(admin_unban(true), Ok(()));
    assert_eq!(banned_rental.status, RentalStatus::Expired);
    assert!(is_available(false, &Some(banned_rental), NOW));
    assert_eq!(admin_ban("ivan", true, None, NOW).unwrap_err(), AdminError::AlreadyBanned);
    assert_eq!(admin_unban(false), Err(AdminError::NotBanned));
    let pre = admin_ban("nobody", false, None, NOW).unwrap();
    assert!(pre.rental.is_none());
    assert!(pre.deprovision.is_none());
}

#[test]
fn expired_challenge_fails_with_any_token() {
    let pricing = default_pricing();
    let order = create_order(order_request("judy"), false, &None, &pricing, NOW, "ord_j".to_string(), "ch_j".to_string()).unwrap();
    let late = NOW + ORDER_TTL_MS + 1;
    assert_eq!(confirm_challenge(&order, "ch_j", late), Err(OrderError::OrderExpired));
    assert_eq!(confirm_challenge(&order, "wrong", late), Err(OrderError::InvalidChallenge));
    assert_eq!(confirm_challenge(&order, "ch_j", NOW + ORDER_TTL_MS), Ok(()));
    assert_eq!(confirm_challenge(&order, "wrong", NOW), Err(OrderError::InvalidChallenge));
    let mut pending = order.clone();
    record_invoice(&mut pending, "inv".to_string(), None, "s".to_string(), false);
    assert_eq!(confirm_challenge(&pending, "ch_j", NOW), Err(OrderError::NotAwaitingChallenge));
}

#[test]
fn create_order_refusals() {
    let pricing = default_pricing();
    let id = || "ord".to_string();
    let ch = || "ch".to_string();
    match create_order(order_request("ab"), false, &None, &pricing, NOW, id(), ch()) {
        Err(OrderError::InvalidUsername(m)) => assert_eq!(m, "Username must be at least 3 characters"),
        other => panic!("unexpected {:?}", other),
    }
    let mut bad_url = order_request("kate");
    bad_url.webhook_url = "ftp://x".to_string();
    match create_order(bad_url, false, &None, &pricing, NOW, id(), ch()) {
        Err(OrderError::InvalidWebhookUrl(m)) => assert_eq!(m, "webhook_url must be a valid HTTP(S) URL"),
        other => panic!("unexpected {:?}", other),
    }
    assert_eq!(create_order(order_request("kate"), true, &None, &pricing, NOW, id(), ch()).unwrap_err(), OrderError::Blocked);
    let held = Some(rental("kate", RentalStatus::Active, NOW + DAY, None));
    assert_eq!(create_order(order_request("kate"), false, &held, &pricing, NOW, id(), ch()).unwrap_err(), OrderError::Taken);
    let lapsed = Some(rental("kate", RentalStatus::Active, NOW - DAY, None));
    assert!(create_order(order_request("kate"), false, &lapsed, &pricing, NOW, id(), ch()).is_ok());
    assert_eq!(validate_webhook_url(""), Err("webhook_url is required".to_string()));
    assert_eq!(validate_webhook_url("http://x"), Ok(()));
    assert_eq!(validate_settings_webhook_url(&None), Ok(()));
    assert_eq!(validate_settings_webhook_url(&Some(String::new())), Ok(()));
    assert!(validate_settings_webhook_url(&Some("mailto:x".to_string())).is_err());
    assert_eq!(OrderError::OrderExpired.status_code(), 410);
    assert_eq!(OrderError::Taken.message(), "Username is already taken");
}

#[test]
fn simulated_payment_marks_order_paid() {
    let pricing = default_pricing();
    let mut order = create_order(order_request("liam"), false, &None, &pricing, NOW, "o".to_string(), "c".to_string()).unwrap();
    record_invoice(&mut order, "lnbc".to_string(), Some("h".to_string()), "s".to_string(), true);
    assert_eq!(order.status, OrderStatus::Paid);
    assert_eq!(order.webhook_secret, Some("s".to_string()));
}

#[test]
fn overdue_orders_expire_and_stay_expired() {
    let mut order = pending_order(NOW);
    assert!(!expire_if_overdue(&mut order, NOW + ORDER_TTL_MS));
    assert!(expire_if_overdue(&mut order, NOW + ORDER_TTL_MS + 1));
    assert_eq!(order.status, OrderStatus::Expired);
    assert!(!expire_if_overdue(&mut order, NOW + 10 * ORDER_TTL_MS));
}

#[test]
fn renewal_orders() {
    let mia = rental("mia", RentalStatus::Active, NOW + DAY, Some("rec_mia"));
    let rentals = vec![rental("ned", RentalStatus::Active, NOW, None), mia.clone()];
    assert_eq!(find_rental_by_token(&rentals, "mgmt_mia"), Some(1));
    assert_eq!(find_rental_by_token(&rentals, "nope"), None);
    assert_eq!(services_from_rental(&mia.services), vec![ServiceType::Subdomain]);
    let pricing = default_pricing();
    assert_eq!(renewal_price(&mia, Plan::SevenDays, &None, &pricing), Some(1000));
    let asked = Some(OrderServicesRequest { email: None, subdomain: None, nip05: None });
    assert_eq!(renewal_price(&mia, Plan::SevenDays, &asked, &pricing), Some(0));
    let order = renewal_order(&mia, Plan::SevenDays, 1000, NOW, "ord_r".to_string(), "lnbc".to_string(), None, "sec_r".to_string(), false);
    assert_eq!(order.renewal_for, Some("mia".to_string()));
    assert_eq!(order.status, OrderStatus::Pending);
    assert_eq!(order.webhook_url, mia.webhook_url);
    assert_eq!(order.expires_at, NOW + ORDER_TTL_MS);
    let answer = renewal_response(&order);
    assert_eq!(answer.order_id, "ord_r");
    assert_eq!(answer.amount_sats, 1000);
    assert_eq!(answer.bolt11, "lnbc");
}

#[test]
fn admin_extend_and_revoke() {
    let r = rental("olga", RentalStatus::Expired, NOW - DAY, None);
    assert_eq!(admin_extend(Some(r.clone()), 0, NOW).unwrap_err(), AdminError::InvalidMinutes);
    assert_eq!(admin_extend(Some(r.clone()), 525_601, NOW).unwrap_err(), AdminError::InvalidMinutes);
    assert_eq!(admin_extend(None, 30, NOW).unwrap_err(), AdminError::RentalNotFound);
    let extended = admin_extend(Some(r), 30, NOW).unwrap();
    assert_eq!(extended.expires_at, NOW + 30 * 60_000);
    assert_eq!(extended.status, RentalStatus::Active);
    let ahead = rental("olga", RentalStatus::Active, NOW + DAY, None);
    assert_eq!(admin_extend(Some(ahead), 525_600, NOW).unwrap().expires_at, NOW + DAY + 525_600 * 60_000);

    let live = rental("pete", RentalStatus::Active, NOW + DAY, Some("rec_pete"));
    let (revoked, record) = admin_revoke(Some(live)).unwrap();
    assert_eq!(revoked.status, RentalStatus::Expired);
    assert_eq!(record, Some("rec_pete".to_string()));
    assert_eq!(admin_revoke(Some(revoked)).unwrap_err(), AdminError::NotActive);
    assert_eq!(admin_revoke(None).unwrap_err(), AdminError::RentalNotFound);
    assert_eq!(AdminError::NotActive.message(), "Rental is not active");
    assert_eq!(AdminError::Taken.status_code(), 409);
}

#[test]
fn sweep_expires_due_rentals_only() {
    let mut rentals = vec![
        rental("quin", RentalStatus::Active, NOW - 1, Some("rec_q")),
        rental("rita", RentalStatus::Active, NOW + 1, None),
        rental("sam", RentalStatus::Expired, NOW - DAY, None),
        rental("tess", RentalStatus::Active, NOW, None),
    ];
    let swept = expiry_sweep(&mut rentals, NOW);
    assert_eq!(swept, vec![0, 3]);
    assert_eq!(rentals[0].status, RentalStatus::Expired);
    assert_eq!(rentals[1].status, RentalStatus::Active);
    assert_eq!(rentals[2].status, RentalStatus::Expired);
    assert_eq!(rentals[3].status, RentalStatus::Expired);
    let mut empty: Vec<Rental> = vec![];
    assert!(expiry_sweep(&mut empty, NOW).is_empty());
}

#[test]
fn admin_direct_provisioning() {
    let req = AdminProvisionRequest {
        username: "uma".to_string(),
        service: "bundle".to_string(),
        plan: Plan::OneDay,
        pubkey: Some("c".repeat(64)),
        dns_type: Some("aaaa".to_string()),
        dns_value: Some("2001:db8::1".to_string()),
    };
    assert_eq!(admin_provision_check(&req, false, &None, NOW), Ok(Some(DnsRecordType::AAAA)));
    assert_eq!(admin_provision_check(&req, true, &None, NOW), Err(AdminError::Blocked));
    let held = Some(rental("uma", RentalStatus::Active, NOW + 1, None));
    assert_eq!(admin_provision_check(&req, false, &held, NOW), Err(AdminError::Taken));
    let mut mx = req.clone();
    mx.dns_type = Some("mx".to_string());
    assert_eq!(
        admin_provision_check(&mx, false, &None, NOW),
        Err(AdminError::UnsupportedRecordType("Unsupported DNS record type: MX".to_string()))
    );
    let r = admin_provisioned_rental(req, NOW, Some("rec_uma".to_string()), "mgmt_uma".to_string());
    assert_eq!(r.expires_at, NOW + DAY);
    assert_eq!(r.services.subdomain.unwrap().cf_record_id, Some("rec_uma".to_string()));
    assert!(r.services.email.unwrap().enabled);
    assert_eq!(r.services.nip05.unwrap().pubkey_hex, "c".repeat(64));
    let email_only = AdminProvisionRequest {
        username: "vera".to_string(),
        service: "email".to_string(),
        plan: Plan::OneDay,
        pubkey: None,
        dns_type: None,
        dns_value: None,
    };
    assert_eq!(admin_provision_check(&email_only, false, &None, NOW), Ok(None));
    let r = admin_provisioned_rental(email_only, NOW, None, "t".to_string());
    assert!(r.services.subdomain.is_none() && r.services.nip05.is_none());
}

#[test]
fn admin_figures() {
    let rentals = vec![
        rental("a1", RentalStatus::Active, NOW + 2 * DAY, None),
        rental("a2", RentalStatus::Active, NOW + 10 * DAY, None),
        rental("a3", RentalStatus::Expired, NOW - DAY, None),
    ];
    let mut paid = pending_order(NOW);
    paid.status = OrderStatus::Paid;
    paid.amount_sats = 700;
    let mut done = pending_order(NOW);
    done.status = OrderStatus::Provisioned;
    done.amount_sats = 300;
    let open = pending_order(NOW);
    let stats = admin_stats(&rentals, 4, &vec![paid, done, open], NOW);
    assert_eq!(stats.active_rentals, 2);
    assert_eq!(stats.expired_rentals, 1);
    assert_eq!(stats.banned_users, 4);
    assert_eq!(stats.expiring_soon, 1);
    assert_eq!(stats.total_revenue_sats, 1000);

    let e = rental_entry(&rentals[0], false, NOW - 1);
    assert_eq!(e.minutes_remaining, 2 * 24 * 60 + 1);
    assert_eq!(e.status, "active");
    let gone = rental_entry(&rentals[2], true, NOW);
    assert_eq!(gone.status, "banned");
    assert_eq!(gone.minutes_remaining, -24 * 60);
    assert!(gone.has_subdomain == false);
}

#[test]
fn admin_listing_pages() {
    let rentals: Vec<Rental> = (0..5u64)
        .map(|k| rental(&format!("user{}", k), RentalStatus::Active, NOW + k * DAY, None))
        .collect();
    let entries: Vec<_> = rentals.iter().map(|r| rental_entry(r, false, NOW)).collect();
    assert!(entry_matches(&entries[0], &None));
    assert!(entry_matches(&entries[0], &Some("active".to_string())));
    assert!(!entry_matches(&entries[0], &Some("banned".to_string())));
    let first = rentals_page(entries.clone(), 0, 2);
    assert_eq!(first.page, 1);
    assert_eq!(first.total, 5);
    let names: Vec<_> = first.rentals.iter().map(|e| e.username.clone()).collect();
    assert_eq!(names, vec!["user4".to_string(), "user3".to_string()]);
    let last = rentals_page(entries.clone(), 3, 2);
    assert_eq!(last.rentals.len(), 1);
    assert_eq!(last.rentals[0].username, "user0");
    assert!(rentals_page(entries.clone(), 4, 2).rentals.is_empty());
    assert_eq!(rentals_page(entries, 1, 500).limit, 100);
}
