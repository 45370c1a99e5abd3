//! Rental lifecycle: availability, renewal, administrative overrides, and the expiry sweep.
use vstd::prelude::*;
use vstd::string::*;

use crate::model::{
    copy_opt_string, rental_live, BanRecord, CheckUsernameResponse, Rental, RentalStatus,
};
use crate::pricing::{plan_duration_ms, Plan};
use crate::validation::{username_error, validate_username};

verus! {

/// Milliseconds in one minute.
pub const MS_PER_MINUTE: u64 = 60_000;

/// Largest extension an administrator may grant at once, in minutes (one year).
pub const MAX_EXTEND_MINUTES: u64 = 525_600;

/// A username can be registered when it is not banned and no valid rental holds it.
pub open spec fn available(banned: bool, existing: Option<Rental>, now: u64) -> bool {
    !banned && match existing {
        None => true,
        Some(r) => !rental_live(r, now),
    }
}

/// New expiry when `delta` is added to a rental that expires at `current`: counted from the
/// later of `now` and `current`, so time left is kept and a lapsed rental restarts at `now`.
pub open spec fn anchored_expiry(current: u64, now: u64, delta: u64) -> int {
    (if current > now {
        current
    } else {
        now
    }) + delta
}

/// The DNS record that a rental's subdomain holds at the provider, if any.
pub open spec fn subdomain_record(r: Rental) -> Option<String> {
    match r.services.subdomain {
        Some(s) => s.cf_record_id,
        None => None,
    }
}

/// Whether `username` is free for a new registration.
pub fn is_available(banned: bool, existing: &Option<Rental>, now: u64) -> (r: bool)
    ensures
        r == available(banned, *existing, now),
{
    if banned {
        return false;
    }
    match existing {
        None => true,
        Some(rental) => !(rental.status == RentalStatus::Active && now < rental.expires_at),
    }
}

/// Answers an availability check: a malformed name carries its refusal, a banned name is
/// blocked, else the name is available exactly when no valid rental holds it.
pub fn check_username(username: &str, banned: bool, existing: &Option<Rental>, now: u64) -> (r:
    CheckUsernameResponse)
    ensures
        r.username@ == username@,
        r.available == (username_error(username@) is None && available(banned, *existing, now)),
        match username_error(username@) {
            Some(m) => r.error is Some && r.error->0@ == m,
            None => if banned {
                r.error is Some && r.error->0@ == "This username is blocked"@
            } else {
                r.error is None
            },
        },
{
    match validate_username(username) {
        Err(m) => CheckUsernameResponse {
            available: false,
            username: String::from_str(username),
            error: Some(m),
        },
        Ok(()) => {
            if banned {
                CheckUsernameResponse {
                    available: false,
                    username: String::from_str(username),
                    error: Some(String::from_str("This username is blocked")),
                }
            } else {
                CheckUsernameResponse {
                    available: is_available(banned, existing, now),
                    username: String::from_str(username),
                    error: None,
                }
            }
        },
    }
}

/// Adds `delta` to an expiry, anchored at the later of `now` and the current expiry.
pub fn anchored_extension(current: u64, now: u64, delta: u64) -> (r: u64)
    requires
        anchored_expiry(current, now, delta) <= u64::MAX,
    ensures
        r == anchored_expiry(current, now, delta),
{
    let base = if current > now {
        current
    } else {
        now
    };
    base + delta
}

/// The rental after a paid renewal under `plan` at `now`.
pub open spec fn renewed(r: Rental, plan: Plan, now: u64) -> Rental {
    Rental {
        expires_at: anchored_expiry(r.expires_at, now, plan_duration_ms(plan)) as u64,
        status: RentalStatus::Active,
        plan,
        ..r
    }
}

/// Renews a rental for `plan`: its expiry grows by the plan's length, counted from the later
/// of `now` and its current expiry; it becomes active under the new plan; its services, token
/// and owner endpoint stay as they were.
pub fn renew_rental(rental: &mut Rental, plan: Plan, now: u64)
    requires
        anchored_expiry(old(rental).expires_at, now, plan_duration_ms(plan)) <= u64::MAX,
    ensures
        *final(rental) == renewed(*old(rental), plan, now),
{
    let d = plan.duration_ms();
    rental.expires_at = anchored_extension(rental.expires_at, now, d);
    rental.status = RentalStatus::Active;
    rental.plan = plan;
}

/// Refusals of the administrative operations.
#[derive(Debug, Clone, PartialEq, Eq)]
pub enum AdminError {
    /// The username fails the format rules; carries the refusal.
    InvalidUsername(String),
    /// The username is banned.
    Blocked,
    /// A valid rental holds the username.
    Taken,
    /// No rental is stored under the username.
    RentalNotFound,
    /// The rental is not active.
    NotActive,
    /// A ban already exists.
    AlreadyBanned,
    /// No ban exists.
    NotBanned,
    /// An extension outside 1..=525600 minutes.
    InvalidMinutes,
    /// The requested DNS record type is not supported; carries the refusal.
    UnsupportedRecordType(String),
}

impl AdminError {
    /// The HTTP status that reports this refusal.
    pub fn status_code(&self) -> (r: u16)
        ensures
            r == (match *self {
                AdminError::Blocked => 403,
                AdminError::Taken | AdminError::AlreadyBanned => 409,
                AdminError::RentalNotFound | AdminError::NotBanned => 404,
                _ => 400u16,
            }),
    {
        match self {
            AdminError::Blocked => 403,
            AdminError::Taken | AdminError::AlreadyBanned => 409,
            AdminError::RentalNotFound | AdminError::NotBanned => 404,
            _ => 400,
        }
    }

    /// A human-readable reason.
    pub fn message(&self) -> (r: String)
        ensures
            r@ == admin_error_text(*self),
    {
        match self {
            AdminError::InvalidUsername(m) => m.clone(),
            AdminError::UnsupportedRecordType(m) => m.clone(),
            AdminError::Blocked => String::from_str("This username is blocked"),
            AdminError::Taken => String::from_str("Username is already taken"),
            AdminError::RentalNotFound => String::from_str("Rental not found"),
            AdminError::NotActive => String::from_str("Rental is not active"),
            AdminError::AlreadyBanned => String::from_str("User is already banned"),
            AdminError::NotBanned => String::from_str("User is not banned"),
            AdminError::InvalidMinutes => String::from_str("Minutes must be between 1 and 525600"),
        }
    }
}

/// The reason reported for an administrative refusal.
pub open spec fn admin_error_text(e: AdminError) -> Seq<char> {
    match e {
        AdminError::InvalidUsername(m) => m@,
        AdminError::UnsupportedRecordType(m) => m@,
        AdminError::Blocked => "This username is blocked"@,
        AdminError::Taken => "Username is already taken"@,
        AdminError::RentalNotFound => "Rental not found"@,
        AdminError::NotActive => "Rental is not active"@,
        AdminError::AlreadyBanned => "User is already banned"@,
        AdminError::NotBanned => "User is not banned"@,
        AdminError::InvalidMinutes => "Minutes must be between 1 and 525600"@,
    }
}

/// Extends a rental by `minutes`, anchored like a renewal, and forces it active.
pub fn admin_extend(existing: Option<Rental>, minutes: u64, now: u64) -> (r: Result<Rental, AdminError>)
    requires
        existing is Some && 1 <= minutes <= MAX_EXTEND_MINUTES ==> anchored_expiry(
            existing->0.expires_at,
            now,
            (minutes * MS_PER_MINUTE) as u64,
        ) <= u64::MAX,
    ensures
        minutes == 0 || minutes > MAX_EXTEND_MINUTES ==> r == Err::<Rental, AdminError>(
            AdminError::InvalidMinutes,
        ),
        1 <= minutes <= MAX_EXTEND_MINUTES && existing is None ==> r == Err::<Rental, AdminError>(
            AdminError::RentalNotFound,
        ),
        1 <= minutes <= MAX_EXTEND_MINUTES && existing is Some ==> r == Ok::<Rental, AdminError>(
            (Rental {
                expires_at: anchored_expiry(
                    existing->0.expires_at,
                    now,
                    (minutes * MS_PER_MINUTE) as u64,
                ) as u64,
                status: RentalStatus::Active,
                ..existing->0
            }),
        ),
{
    if minutes == 0 || minutes > MAX_EXTEND_MINUTES {
        return Err(AdminError::InvalidMinutes);
    }
    match existing {
        None => Err(AdminError::RentalNotFound),
        Some(mut rental) => {
            rental.expires_at = anchored_extension(rental.expires_at, now, minutes * MS_PER_MINUTE);
            rental.status = RentalStatus::Active;
            Ok(rental)
        },
    }
}

/// Identifier of the DNS record of a rental's subdomain, if it has one.
pub fn subdomain_record_id(rental: &Rental) -> (r: Option<String>)
    ensures
        r == subdomain_record(*rental),
{
    match &rental.services.subdomain {
        Some(s) => copy_opt_string(&s.cf_record_id),
        None => None,
    }
}

/// Revokes an active rental: it becomes expired, and the DNS record of its subdomain, if
/// any, is returned for removal.
pub fn admin_revoke(existing: Option<Rental>) -> (r: Result<(Rental, Option<String>), AdminError>)
    ensures
        existing is None ==> r == Err::<(Rental, Option<String>), AdminError>(
            AdminError::RentalNotFound,
        ),
        existing is Some && existing->0.status != RentalStatus::Active ==> r == Err::<
            (Rental, Option<String>),
            AdminError,
        >(AdminError::NotActive),
        existing is Some && existing->0.status == RentalStatus::Active ==> r == Ok::<
            (Rental, Option<String>),
            AdminError,
        >(((Rental { status: RentalStatus::Expired, ..existing->0 }), subdomain_record(existing->0))),
{
    match existing {
        None => Err(AdminError::RentalNotFound),
        Some(mut rental) => {
            if rental.status != RentalStatus::Active {
                return Err(AdminError::NotActive);
            }
            let record = subdomain_record_id(&rental);
            rental.status = RentalStatus::Expired;
            Ok((rental, record))
        },
    }
}

/// What a ban writes: the ban record, the rental forced to expired (if one exists), and the
/// DNS record to remove (if the rental's subdomain holds one).
#[derive(Debug, Clone)]
pub struct BanOutcome {
    pub ban: BanRecord,
    pub rental: Option<Rental>,
    pub deprovision: Option<String>,
}

/// The outcome of banning `username` at `now` when it is not banned yet.
pub open spec fn ban_outcome(username: Seq<char>, existing: Option<Rental>, now: u64, b: BanOutcome) -> bool {
    &&& b.ban.username@ == username
    &&& b.ban.banned_at == now
    &&& b.ban.reason is None
    &&& match existing {
        None => b.rental is None && b.deprovision is None,
        Some(r) => b.rental == Some(Rental { status: RentalStatus::Expired, ..r })
            && b.deprovision == subdomain_record(r),
    }
}

/// Bans a username, with or without a rental.
pub fn admin_ban(username: &str, already_banned: bool, existing: Option<Rental>, now: u64) -> (r:
    Result<BanOutcome, AdminError>)
    ensures
        already_banned ==> r == Err::<BanOutcome, AdminError>(AdminError::AlreadyBanned),
        !already_banned ==> r is Ok && ban_outcome(username@, existing, now, r->Ok_0),
{
    if already_banned {
        return Err(AdminError::AlreadyBanned);
    }
    let ban = BanRecord { username: String::from_str(username), banned_at: now, reason: None };
    match existing {
        None => Ok(BanOutcome { ban, rental: None, deprovision: None }),
        Some(mut rental) => {
            let record = subdomain_record_id(&rental);
            rental.status = RentalStatus::Expired;
            Ok(BanOutcome { ban, rental: Some(rental), deprovision: record })
        },
    }
}

/// Lifts a ban. Rentals are not touched.
pub fn admin_unban(banned: bool) -> (r: Result<(), AdminError>)
    ensures
        r == (if banned {
            Ok::<(), AdminError>(())
        } else {
            Err(AdminError::NotBanned)
        }),
{
    if banned {
        Ok(())
    } else {
        Err(AdminError::NotBanned)
    }
}

/// A rental is due for the sweep when it is stored as active and its expiry has come.
pub open spec fn sweep_due(r: Rental, now: u64) -> bool {
    r.status == RentalStatus::Active && r.expires_at <= now
}

/// A rental after the sweep at `now`.
pub open spec fn swept(r: Rental, now: u64) -> Rental {
    if sweep_due(r, now) {
        Rental { status: RentalStatus::Expired, ..r }
    } else {
        r
    }
}

/// Expires every due rental. Returns, in increasing order, the positions of the rentals it
/// expired; their subdomain records are theirs to remove, and failing to remove one does not
/// undo the expiry.
pub fn expiry_sweep(rentals: &mut Vec<Rental>, now: u64) -> (r: Vec<usize>)
    ensures
        final(rentals)@.len() == old(rentals)@.len(),
        forall|i: int| 0 <= i < old(rentals)@.len() ==> #[trigger] final(rentals)@[i] == swept(old(rentals)@[i], now),
        forall|k: int| 0 <= k < r@.len() ==> (r@[k] as int) < old(rentals)@.len() && sweep_due(
            old(rentals)@[r@[k] as int],
            now,
        ),
        forall|k: int, l: int| 0 <= k < l < r@.len() ==> r@[k] < r@[l],
        forall|i: int| 0 <= i < old(rentals)@.len() && sweep_due(#[trigger] old(rentals)@[i], now) ==> r@.contains(i as usize),
{
    let ghost before = rentals@;
    let mut out: Vec<usize> = Vec::new();
    let mut i: usize = 0;
    while i < rentals.len()
        invariant
            rentals@.len() == before.len(),
            i <= before.len(),
            forall|j: int| 0 <= j < i ==> #[trigger] rentals@[j] == swept(before[j], now),
            forall|j: int| i <= j < before.len() ==> #[trigger] rentals@[j] == before[j],
            forall|k: int| 0 <= k < out@.len() ==> (out@[k] as int) < i && sweep_due(before[out@[k] as int], now),
            forall|k: int, l: int| 0 <= k < l < out@.len() ==> out@[k] < out@[l],
            forall|j: int| 0 <= j < i && sweep_due(#[trigger] before[j], now) ==> out@.contains(j as usize),
        decreases before.len() - i,
    {
        let ghost out0 = out@;
        if rentals[i].status == RentalStatus::Active && rentals[i].expires_at <= now {
            rentals[i].status = RentalStatus::Expired;
            proof {
                assert(out@.push(i)[out@.len() as int] == i);
            }
            out.push(i);
        }
        proof {
            assert forall|j: int| 0 <= j < i + 1 && sweep_due(#[trigger] before[j], now) implies out@.contains(j as usize) by {
                if j < i {
                    assert(out0.contains(j as usize));
                    let k = choose|k: int| 0 <= k < out0.len() && out0[k] == j as usize;
                    assert(out@[k] == j as usize);
                } else {
                    assert(out@[out@.len() - 1] == i);
                }
            }
        }
        i = i + 1;
    }
    out
}

/// Banning a username that holds an active rental forces the rental to expired and hands
/// back its subdomain record for removal; lifting the ban afterwards leaves the rental
/// expired, so it is valid at no instant and the name is free for a new registration.
pub proof fn lemma_ban_precedence(username: Seq<char>, rental: Rental, now: u64, b: BanOutcome, later: u64)
    requires
        rental.status == RentalStatus::Active,
        ban_outcome(username, Some(rental), now, b),
    ensures
        b.rental is Some,
        b.rental->0.status == RentalStatus::Expired,
        b.deprovision == subdomain_record(rental),
        !available(true, b.rental, later),
        !rental_live(b.rental->0, later),
        available(false, b.rental, later),
{
}

} // verus!
