//! The records of the service: orders, rentals, bans, and the messages around them.
//!
//! Instants are milliseconds since the Unix epoch.
use vstd::prelude::*;

use crate::pricing::Plan;

verus! {

/// Order status lifecycle.
#[derive(Debug, Clone, Copy, PartialEq, Eq, Structural)]
pub enum OrderStatus {
    /// Created; waiting for the caller to prove control of its webhook.
    WebhookPending,
    /// Invoice issued; waiting for payment.
    Pending,
    /// Payment seen; provisioning not yet complete.
    Paid,
    /// Rental granted or extended. Terminal.
    Provisioned,
    /// Invoice window passed without completion. Terminal.
    Expired,
}

/// Stored status of a rental. Being banned is not stored here: a ban record decides it.
#[derive(Debug, Clone, Copy, PartialEq, Eq, Structural)]
pub enum RentalStatus {
    Active,
    Expired,
}

/// Email forwarding requested in an order.
#[derive(Debug, Clone, PartialEq, Eq)]
pub struct OrderEmailRequest {
    pub forward_to: String,
}

/// Subdomain requested in an order.
#[derive(Debug, Clone, PartialEq, Eq)]
pub struct OrderSubdomainRequest {
    pub record_type: String,
    pub target: String,
    pub proxied: bool,
}

/// NIP-05 identity requested in an order.
#[derive(Debug, Clone, PartialEq, Eq)]
pub struct OrderNip05Request {
    pub pubkey: String,
}

/// Services requested in an order (for provisioning after payment).
#[derive(Debug, Clone, PartialEq, Eq)]
pub struct OrderServicesRequest {
    pub email: Option<OrderEmailRequest>,
    pub subdomain: Option<OrderSubdomainRequest>,
    pub nip05: Option<OrderNip05Request>,
}

/// One attempt to pay for and provision (or renew) a rental.
#[derive(Debug, Clone, PartialEq, Eq)]
pub struct Order {
    pub order_id: String,
    pub username: String,
    pub plan: Plan,
    pub amount_sats: u64,
    /// The payment provider's invoice text (bolt11); empty until an invoice is issued.
    pub bolt11: String,
    pub status: OrderStatus,
    pub created_at: u64,
    pub expires_at: u64,
    /// Settlement hash reported by the payment provider.
    pub coinos_invoice_hash: Option<String>,
    /// Shared secret that correlates a payment webhook with this order.
    pub webhook_secret: Option<String>,
    pub services_requested: Option<OrderServicesRequest>,
    /// Management token, attached once provisioned.
    pub management_token: Option<String>,
    /// Username of the rental that this order renews, if it is a renewal.
    pub renewal_for: Option<String>,
    /// The caller's notification endpoint.
    pub webhook_url: Option<String>,
    /// Token that proves control of the caller's webhook.
    pub webhook_challenge: Option<String>,
}

/// Subdomain service of a rental.
#[derive(Debug, Clone, PartialEq, Eq)]
pub struct SubdomainService {
    pub enabled: bool,
    pub record_type: String,
    pub target: String,
    pub proxied: bool,
    /// Identifier of the DNS record at the provider, for later removal.
    pub cf_record_id: Option<String>,
}

/// Email forwarding service of a rental.
#[derive(Debug, Clone, PartialEq, Eq)]
pub struct EmailService {
    pub enabled: bool,
    pub forward_to: String,
    pub cf_rule_id: Option<String>,
}

/// NIP-05 service of a rental.
#[derive(Debug, Clone, PartialEq, Eq)]
pub struct Nip05Service {
    pub enabled: bool,
    pub pubkey_hex: String,
    pub relays: Vec<String>,
}

/// Services configured for a rental.
#[derive(Debug, Clone, PartialEq, Eq)]
pub struct RentalServices {
    pub email: Option<EmailService>,
    pub subdomain: Option<SubdomainService>,
    pub nip05: Option<Nip05Service>,
}

/// A time-bounded grant of a username; the username is its storage key.
#[derive(Debug, Clone, PartialEq, Eq)]
pub struct Rental {
    pub username: String,
    pub status: RentalStatus,
    pub created_at: u64,
    pub expires_at: u64,
    pub plan: Plan,
    pub services: RentalServices,
    pub management_token: Option<String>,
    pub webhook_url: Option<String>,
}

/// A ban on a username; its existence alone blocks the name.
#[derive(Debug, Clone, PartialEq, Eq)]
pub struct BanRecord {
    pub username: String,
    pub banned_at: u64,
    pub reason: Option<String>,
}

/// Request to create an order.
#[derive(Debug, Clone)]
pub struct OrderRequest {
    pub username: String,
    pub plan: Plan,
    pub services: Option<OrderServicesRequest>,
    pub webhook_url: String,
}

/// Answer to an order creation or a challenge confirmation.
#[derive(Debug, Clone)]
pub struct OrderResponse {
    pub order_id: String,
    pub amount_sats: u64,
    pub bolt11: String,
    pub expires_at: u64,
    pub management_token: Option<String>,
    pub status: Option<OrderStatus>,
    pub message: Option<String>,
}

/// Answer to a username availability check.
#[derive(Debug, Clone)]
pub struct CheckUsernameResponse {
    pub available: bool,
    pub username: String,
    pub error: Option<String>,
}

/// Read-only projection of an order.
#[derive(Debug, Clone)]
pub struct OrderStatusResponse {
    pub order_id: String,
    pub status: OrderStatus,
    pub management_token: Option<String>,
}

/// Request to renew a rental.
#[derive(Debug, Clone)]
pub struct RenewRequest {
    pub management_token: String,
    pub plan: Plan,
    pub services: Option<OrderServicesRequest>,
}

/// Answer to a renewal request.
#[derive(Debug, Clone)]
pub struct RenewResponse {
    pub order_id: String,
    pub amount_sats: u64,
    pub bolt11: String,
    pub expires_at: u64,
}

/// Payment notification delivered by the payment provider.
#[derive(Debug, Clone)]
pub struct CoinosWebhookPayload {
    pub id: Option<String>,
    pub amount: Option<u64>,
    pub hash: Option<String>,
    pub confirmed: Option<bool>,
    pub secret: Option<String>,
}

/// An administrator session.
#[derive(Debug, Clone)]
pub struct AdminSession {
    pub token: String,
    pub pubkey: String,
    pub created_at: u64,
    pub expires_at: u64,
}

/// A one-time login challenge for an administrator.
#[derive(Debug, Clone)]
pub struct AdminChallenge {
    pub challenge: String,
    pub created_at: u64,
    pub expires_at: u64,
}

/// A signed Nostr event, as presented at administrator login.
#[derive(Debug, Clone)]
pub struct NostrEvent {
    pub id: Option<String>,
    pub pubkey: String,
    pub created_at: Option<u64>,
    pub kind: Option<u32>,
    pub tags: Option<Vec<Vec<String>>>,
    pub content: String,
    pub sig: Option<String>,
}

/// A rental is valid at `now` when it is stored as active and has not reached its expiry.
pub open spec fn rental_live(r: Rental, now: u64) -> bool {
    r.status == RentalStatus::Active && now < r.expires_at
}

/// Copies an optional string.
pub fn copy_opt_string(o: &Option<String>) -> (r: Option<String>)
    ensures
        r == *o,
{
    match o {
        Some(s) => Some(s.clone()),
        None => None,
    }
}

impl RentalStatus {
    /// The stored text of this status.
    pub fn as_str(&self) -> (r: &'static str)
        ensures
            r@ == (match *self {
                RentalStatus::Active => "active"@,
                RentalStatus::Expired => "expired"@,
            }),
    {
        match self {
            RentalStatus::Active => "active",
            RentalStatus::Expired => "expired",
        }
    }

    /// Reads a stored status text: `"active"` or `"expired"`.
    pub fn parse(text: &str) -> (r: Option<RentalStatus>)
        ensures
            r == (if text@ == "active"@ {
                Some(RentalStatus::Active)
            } else if text@ == "expired"@ {
                Some(RentalStatus::Expired)
            } else {
                None::<RentalStatus>
            }),
    {
        if crate::text::str_eq(text, "active") {
            Some(RentalStatus::Active)
        } else if crate::text::str_eq(text, "expired") {
            Some(RentalStatus::Expired)
        } else {
            None
        }
    }
}

} // verus!
