//! Administrator authentication: bearer tokens, login challenges and sessions.
use vstd::prelude::*;
use vstd::string::*;

use crate::email::{lower_of, lowercase};
use crate::model::{AdminChallenge, AdminSession, NostrEvent};
use crate::text::{has_prefix, starts_with, str_eq};

verus! {

/// How long a login challenge stays usable, in milliseconds (5 minutes).
pub const CHALLENGE_TTL_MS: u64 = 300_000;

/// How long an administrator session lasts, in milliseconds (24 hours).
pub const SESSION_TTL_MS: u64 = 86_400_000;

/// The token of an `Authorization` header of the bearer scheme, if it is one.
pub open spec fn bearer_of(header: Seq<char>) -> Option<Seq<char>> {
    if has_prefix(header, "Bearer "@) {
        Some(header.subrange(7, header.len() as int))
    } else {
        None
    }
}

/// The token of an `Authorization` header of the bearer scheme.
pub fn bearer_token(header: &str) -> (r: Option<&str>)
    ensures
        match r {
            Some(t) => bearer_of(header@) == Some(t@),
            None => bearer_of(header@) is None,
        },
{
    proof {
        reveal_strlit("Bearer ");
    }
    if !starts_with(header, "Bearer ") {
        return None;
    }
    Some(header.substring_char(7, header.unicode_len()))
}

/// Whether an `Authorization` header carries the configured administrator token; an empty
/// configured token admits nobody.
pub fn bearer_admits(header: &str, expected: &str) -> (r: bool)
    ensures
        r == (expected@.len() > 0 && bearer_of(header@) == Some(expected@)),
{
    if expected.unicode_len() == 0 {
        return false;
    }
    match bearer_token(header) {
        Some(t) => str_eq(t, expected),
        None => false,
    }
}

/// Whether a session is still valid at `now`.
pub fn session_valid(session: &AdminSession, now: u64) -> (r: bool)
    ensures
        r == (now <= session.expires_at),
{
    now <= session.expires_at
}

/// A new session for `pubkey`, valid for 24 hours from `now`.
pub fn new_session(token: String, pubkey: String, now: u64) -> (r: AdminSession)
    requires
        now + SESSION_TTL_MS <= u64::MAX,
    ensures
        r == (AdminSession { token, pubkey, created_at: now, expires_at: (now + SESSION_TTL_MS) as u64 }),
{
    AdminSession { token, pubkey, created_at: now, expires_at: now + SESSION_TTL_MS }
}

/// A new login challenge, usable for 5 minutes from `now`.
pub fn new_challenge(challenge: String, now: u64) -> (r: AdminChallenge)
    requires
        now + CHALLENGE_TTL_MS <= u64::MAX,
    ensures
        r == (AdminChallenge { challenge, created_at: now, expires_at: (now + CHALLENGE_TTL_MS) as u64 }),
{
    AdminChallenge { challenge, created_at: now, expires_at: now + CHALLENGE_TTL_MS }
}

/// Refusals of an administrator login.
#[derive(Debug, Clone, Copy, PartialEq, Eq, Structural)]
pub enum LoginError {
    /// The event is not signed by the administrator's key.
    WrongPubkey,
    /// The event carries no challenge.
    MissingChallenge,
    /// The challenge was never issued, or was used already.
    UnknownChallenge,
    /// The challenge is no longer usable.
    ChallengeExpired,
}

impl LoginError {
    /// The HTTP status that reports this refusal.
    pub fn status_code(&self) -> (r: u16)
        ensures
            r == (if *self == LoginError::WrongPubkey {
                403u16
            } else {
                400u16
            }),
    {
        match self {
            LoginError::WrongPubkey => 403,
            _ => 400,
        }
    }

    /// A human-readable reason.
    pub fn message(&self) -> (r: &'static str)
        ensures
            r@ == (match *self {
                LoginError::WrongPubkey => "Unauthorized: invalid pubkey"@,
                LoginError::MissingChallenge => "Missing challenge in event content"@,
                LoginError::UnknownChallenge => "Invalid challenge"@,
                LoginError::ChallengeExpired => "Challenge expired"@,
            }),
    {
        match self {
            LoginError::WrongPubkey => "Unauthorized: invalid pubkey",
            LoginError::MissingChallenge => "Missing challenge in event content",
            LoginError::UnknownChallenge => "Invalid challenge",
            LoginError::ChallengeExpired => "Challenge expired",
        }
    }
}

/// What `str::trim` makes of a text.
pub uninterp spec fn trim_of(s: Seq<char>) -> Seq<char>;

/// Relies on `str::trim`: the text without leading and trailing white space, which depends
/// on the characters alone.
#[verifier::external_body]
pub(crate) fn trimmed(s: &str) -> (r: String)
    ensures
        r@ == trim_of(s@),
{
    s.trim().to_string()
}

/// The challenge that a login event answers, given the event's trimmed content: the event
/// must be signed by `admin_pubkey` and carry a challenge.
pub fn login_challenge_from_trimmed(event: &NostrEvent, content: String, admin_pubkey: &str) -> (r: Result<String, LoginError>)
    ensures
        event.pubkey@ != admin_pubkey@ ==> r == Err::<String, LoginError>(LoginError::WrongPubkey),
        event.pubkey@ == admin_pubkey@ ==> r == (if content@.len() == 0 {
            Err::<String, LoginError>(LoginError::MissingChallenge)
        } else {
            Ok(content)
        }),
{
    if !str_eq(event.pubkey.as_str(), admin_pubkey) {
        return Err(LoginError::WrongPubkey);
    }
    if content.unicode_len() == 0 {
        return Err(LoginError::MissingChallenge);
    }
    Ok(content)
}

/// The challenge that a login event answers: its content with surrounding white space removed.
pub fn login_challenge(event: &NostrEvent, admin_pubkey: &str) -> (r: Result<String, LoginError>)
    ensures
        event.pubkey@ != admin_pubkey@ ==> r == Err::<String, LoginError>(LoginError::WrongPubkey),
        event.pubkey@ == admin_pubkey@ ==> match r {
            Ok(c) => c@ == trim_of(event.content@) && c@.len() > 0,
            Err(e) => e == LoginError::MissingChallenge && trim_of(event.content@).len() == 0,
        },
{
    let content = trimmed(event.content.as_str());
    login_challenge_from_trimmed(event, content, admin_pubkey)
}

/// Checks the stored record of a presented challenge at `now`.
pub fn check_challenge(stored: &Option<AdminChallenge>, now: u64) -> (r: Result<(), LoginError>)
    ensures
        r == (match *stored {
            None => Err(LoginError::UnknownChallenge),
            Some(c) => if c.expires_at < now {
                Err(LoginError::ChallengeExpired)
            } else {
                Ok::<(), LoginError>(())
            },
        }),
{
    match stored {
        None => Err(LoginError::UnknownChallenge),
        Some(c) => {
            if c.expires_at < now {
                Err(LoginError::ChallengeExpired)
            } else {
                Ok(())
            }
        },
    }
}

/// Settings of the debug webhook.
#[derive(Debug, Clone, PartialEq, Eq)]
pub struct DebugWebhookConfig {
    pub enabled: bool,
    pub webhook_url: String,
    pub level: String,
}

impl Default for DebugWebhookConfig {
    fn default() -> (r: DebugWebhookConfig)
        ensures
            !r.enabled,
            r.webhook_url@.len() == 0,
            r.level@ == "off"@,
    {
        DebugWebhookConfig { enabled: false, webhook_url: String::new(), level: String::from_str("off") }
    }
}

/// The levels the debug webhook accepts.
pub open spec fn debug_level_ok(level: Seq<char>) -> bool {
    level == "off"@ || level == "error"@ || level == "warn"@ || level == "info"@ || level == "debug"@
}

/// Debug webhook settings from an already lowercased level and an already trimmed URL; an
/// unknown level is refused.
pub fn debug_config_from_normalized(enabled: bool, url: String, level: String) -> (r: Result<DebugWebhookConfig, String>)
    ensures
        debug_level_ok(level@) ==> r == Ok::<DebugWebhookConfig, String>(
            DebugWebhookConfig { enabled, webhook_url: url, level },
        ),
        !debug_level_ok(level@) ==> r is Err && r->Err_0@
            == "Invalid level: must be off, error, warn, info, or debug"@,
{
    let l = level.as_str();
    if str_eq(l, "off") || str_eq(l, "error") || str_eq(l, "warn") || str_eq(l, "info") || str_eq(l, "debug") {
        Ok(DebugWebhookConfig { enabled, webhook_url: url, level })
    } else {
        Err(String::from_str("Invalid level: must be off, error, warn, info, or debug"))
    }
}

/// Debug webhook settings as submitted: the level is taken in lowercase and the URL without
/// surrounding white space.
pub fn debug_config(enabled: bool, url: &str, level: &str) -> (r: Result<DebugWebhookConfig, String>)
    ensures
        debug_level_ok(lower_of(level@)) ==> r is Ok && r->Ok_0.enabled == enabled
            && r->Ok_0.webhook_url@ == trim_of(url@) && r->Ok_0.level@ == lower_of(level@),
        !debug_level_ok(lower_of(level@)) ==> r is Err && r->Err_0@
            == "Invalid level: must be off, error, warn, info, or debug"@,
{
    let lower = lowercase(level);
    let trimmed_url = trimmed(url);
    debug_config_from_normalized(enabled, trimmed_url, lower)
}

} // verus!
