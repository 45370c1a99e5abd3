//! NIP-05 identity resolution.
use vstd::prelude::*;
use vstd::string::*;

use crate::model::{rental_live, Rental, RentalStatus};

verus! {

/// A hexadecimal digit, in either case.
pub open spec fn hex_digit(c: char) -> bool {
    ('0' <= c && c <= '9') || ('a' <= c && c <= 'f') || ('A' <= c && c <= 'F')
}

/// A public key in hex: exactly 64 hexadecimal digits.
pub open spec fn pubkey_hex_ok(s: Seq<char>) -> bool {
    s.len() == 64 && forall|i: int| 0 <= i < s.len() ==> hex_digit(#[trigger] s[i])
}

/// Checks that a text is a hex-encoded public key: 64 hexadecimal digits.
pub fn validate_pubkey_hex(s: &str) -> (r: bool)
    ensures
        r == pubkey_hex_ok(s@),
{
    let n = s.unicode_len();
    if n != 64 {
        return false;
    }
    let mut i: usize = 0;
    while i < n
        invariant
            n == s@.len(),
            i <= n,
            forall|k: int| 0 <= k < i ==> hex_digit(#[trigger] s@[k]),
        decreases n - i,
    {
        let c = s.get_char(i);
        if !(('0' <= c && c <= '9') || ('a' <= c && c <= 'f') || ('A' <= c && c <= 'F')) {
            assert(!hex_digit(s@[i as int]));
            return false;
        }
        i = i + 1;
    }
    true
}

/// Why a name does not resolve.
#[derive(Debug, Clone, Copy, PartialEq, Eq, Structural)]
pub enum Nip05Error {
    /// No valid rental holds the name, or the name is banned.
    NotFound,
    /// The rental's NIP-05 service is switched off.
    NotEnabled,
    /// The stored public key is malformed.
    InvalidPubkey,
    /// The rental has no NIP-05 service.
    NotProvisioned,
}

impl Nip05Error {
    /// The HTTP status that reports this refusal.
    pub fn status_code(&self) -> (r: u16)
        ensures
            r == (if *self == Nip05Error::InvalidPubkey {
                500u16
            } else {
                404u16
            }),
    {
        match self {
            Nip05Error::InvalidPubkey => 500,
            _ => 404,
        }
    }

    /// A human-readable reason.
    pub fn message(&self) -> (r: &'static str)
        ensures
            r@ == (match *self {
                Nip05Error::NotFound => "Username not found"@,
                Nip05Error::NotEnabled => "NIP-05 service not enabled for this username"@,
                Nip05Error::InvalidPubkey => "Invalid pubkey format in rental"@,
                Nip05Error::NotProvisioned => "NIP-05 service not provisioned for this username"@,
            }),
    {
        match self {
            Nip05Error::NotFound => "Username not found",
            Nip05Error::NotEnabled => "NIP-05 service not enabled for this username",
            Nip05Error::InvalidPubkey => "Invalid pubkey format in rental",
            Nip05Error::NotProvisioned => "NIP-05 service not provisioned for this username",
        }
    }
}

/// The outcome of resolving a name at `now`: its public key where a valid, unbanned rental
/// holds it with an enabled NIP-05 service whose key is well formed.
pub open spec fn nip05_outcome(banned: bool, rental: Option<Rental>, now: u64) -> Result<String, Nip05Error> {
    match rental {
        None => Err(Nip05Error::NotFound),
        Some(r) => if banned || !rental_live(r, now) {
            Err(Nip05Error::NotFound)
        } else {
            match r.services.nip05 {
                None => Err(Nip05Error::NotProvisioned),
                Some(svc) => if !svc.enabled {
                    Err(Nip05Error::NotEnabled)
                } else if !pubkey_hex_ok(svc.pubkey_hex@) {
                    Err(Nip05Error::InvalidPubkey)
                } else {
                    Ok(svc.pubkey_hex)
                },
            }
        },
    }
}

/// Resolves a name to its public key. Validity is judged from the expiry at `now`, not only
/// from the stored status, since the sweep may lag.
pub fn resolve_nip05(banned: bool, rental: &Option<Rental>, now: u64) -> (r: Result<String, Nip05Error>)
    ensures
        r == nip05_outcome(banned, *rental, now),
{
    match rental {
        None => Err(Nip05Error::NotFound),
        Some(r) => {
            if banned || !(r.status == RentalStatus::Active && now < r.expires_at) {
                return Err(Nip05Error::NotFound);
            }
            match &r.services.nip05 {
                None => Err(Nip05Error::NotProvisioned),
                Some(svc) => {
                    if !svc.enabled {
                        Err(Nip05Error::NotEnabled)
                    } else if !validate_pubkey_hex(svc.pubkey_hex.as_str()) {
                        Err(Nip05Error::InvalidPubkey)
                    } else {
                        Ok(svc.pubkey_hex.clone())
                    }
                },
            }
        },
    }
}

} // verus!
