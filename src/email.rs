//! Email addresses: format check, recipient parsing, and forwarding lookup.
use vstd::prelude::*;
use vstd::string::*;

use crate::model::{Rental, RentalStatus};
use crate::text::{contains_char, ends_with, has_char, has_suffix};

verus! {

/// What `str::to_lowercase` makes of a text.
pub uninterp spec fn lower_of(s: Seq<char>) -> Seq<char>;

/// Relies on `str::to_lowercase`: the lowercase mapping of each character, which depends on
/// the characters alone.
#[verifier::external_body]
pub(crate) fn lowercase(s: &str) -> (r: String)
    ensures
        r@ == lower_of(s@),
{
    s.to_lowercase()
}

/// `k` is the position of the first `@` in `e`.
pub open spec fn is_first_at(e: Seq<char>, k: int) -> bool {
    0 <= k < e.len() && e[k] == '@' && forall|j: int| 0 <= j < k ==> e[j] != '@'
}

/// The position of the first `@` in `e` (meaningful where `e` holds one).
pub open spec fn first_at(e: Seq<char>) -> int {
    choose|k: int| is_first_at(e, k)
}

/// Whether `d` holds two dots in a row.
pub open spec fn has_double_dot(d: Seq<char>) -> bool {
    exists|j: int| 0 <= j < d.len() - 1 && d[j] == '.' && #[trigger] d[j + 1] == '.'
}

/// Why an email address is refused, checked in this order, or `None` when it is accepted.
/// The address is split at its first `@`; lengths count characters.
pub open spec fn email_error(e: Seq<char>) -> Option<Seq<char>> {
    if e.len() == 0 {
        Some("Email address cannot be empty"@)
    } else if e.len() > 254 {
        Some("Email address is too long"@)
    } else if !has_char(e, '@') {
        Some("Email must contain exactly one @ symbol"@)
    } else {
        let k = first_at(e);
        let local = e.subrange(0, k);
        let domain = e.subrange(k + 1, e.len() as int);
        if local.len() == 0 {
            Some("Email local part cannot be empty"@)
        } else if local.len() > 64 {
            Some("Email local part is too long"@)
        } else if domain.len() == 0 {
            Some("Email domain cannot be empty"@)
        } else if !has_char(domain, '.') {
            Some("Email domain must contain a dot"@)
        } else if domain[0] == '.' || domain[domain.len() - 1] == '.' {
            Some("Email domain cannot start or end with a dot"@)
        } else if has_double_dot(domain) {
            Some("Email domain cannot contain consecutive dots"@)
        } else {
            None
        }
    }
}

proof fn lemma_first_at(e: Seq<char>, k: int)
    requires
        is_first_at(e, k),
    ensures
        first_at(e) == k,
{
    let c = first_at(e);
    assert(is_first_at(e, c));
    if c < k {
        assert(e[c] != '@');
    } else if k < c {
        assert(e[k] != '@');
    }
}

fn double_dot(d: &str) -> (r: bool)
    ensures
        r == has_double_dot(d@),
{
    let n = d.unicode_len();
    if n < 2 {
        return false;
    }
    let mut j: usize = 0;
    while j + 1 < n
        invariant
            n == d@.len(),
            n >= 2,
            j + 1 <= n,
            forall|k: int| 0 <= k < j ==> !(d@[k] == '.' && #[trigger] d@[k + 1] == '.'),
        decreases n - j,
    {
        if d.get_char(j) == '.' && d.get_char(j + 1) == '.' {
            return true;
        }
        j = j + 1;
    }
    false
}

/// Checks the basic format of an email address.
pub fn validate_email(email: &str) -> (r: Result<(), String>)
    ensures
        match r {
            Ok(()) => email_error(email@) is None,
            Err(m) => email_error(email@) == Some(m@),
        },
{
    let n = email.unicode_len();
    if n == 0 {
        return Err(String::from_str("Email address cannot be empty"));
    }
    if n > 254 {
        return Err(String::from_str("Email address is too long"));
    }
    let mut k: usize = 0;
    while k < n && email.get_char(k) != '@'
        invariant
            n == email@.len(),
            k <= n,
            forall|j: int| 0 <= j < k ==> email@[j] != '@',
        decreases n - k,
    {
        k = k + 1;
    }
    if k == n {
        return Err(String::from_str("Email must contain exactly one @ symbol"));
    }
    proof {
        lemma_first_at(email@, k as int);
    }
    let local = email.substring_char(0, k);
    let domain = email.substring_char(k + 1, n);
    let dn = domain.unicode_len();
    if k == 0 {
        return Err(String::from_str("Email local part cannot be empty"));
    }
    if local.unicode_len() > 64 {
        return Err(String::from_str("Email local part is too long"));
    }
    if dn == 0 {
        return Err(String::from_str("Email domain cannot be empty"));
    }
    if !contains_char(domain, '.') {
        return Err(String::from_str("Email domain must contain a dot"));
    }
    if domain.get_char(0) == '.' || domain.get_char(dn - 1) == '.' {
        return Err(String::from_str("Email domain cannot start or end with a dot"));
    }
    if double_dot(domain) {
        return Err(String::from_str("Email domain cannot contain consecutive dots"));
    }
    Ok(())
}

/// The views of an optional string.
pub open spec fn opt_view(o: Option<String>) -> Option<Seq<char>> {
    match o {
        Some(s) => Some(s@),
        None => None,
    }
}

/// The local part of an already lowercased recipient that ends with an already lowercased
/// `@domain` suffix; `None` when the suffix is absent or nothing stands before it.
pub open spec fn local_part_of(lower: Seq<char>, suffix: Seq<char>) -> Option<Seq<char>> {
    if has_suffix(lower, suffix) && lower.len() > suffix.len() {
        Some(lower.subrange(0, lower.len() - suffix.len()))
    } else {
        None
    }
}

/// The username part of a lowercased recipient, given the lowercased `@domain` suffix.
pub fn username_from_lowered(lower: &str, suffix: &str) -> (r: Option<String>)
    ensures
        opt_view(r) == local_part_of(lower@, suffix@),
{
    if !ends_with(lower, suffix) {
        return None;
    }
    let n = lower.unicode_len();
    let m = suffix.unicode_len();
    if n == m {
        return None;
    }
    Some(String::from_str(lower.substring_char(0, n - m)))
}

/// Extracts the username from a recipient address of `domain`, ignoring case.
pub fn extract_username(recipient: &str, domain: &str) -> (r: Option<String>)
    ensures
        opt_view(r) == local_part_of(lower_of(recipient@), lower_of(seq!['@'] + domain@)),
{
    let mut suffix = String::from_str("@");
    suffix.append(domain);
    proof {
        reveal_strlit("@");
        assert(suffix@ =~= seq!['@'] + domain@);
    }
    let lower = lowercase(recipient);
    let lower_suffix = lowercase(suffix.as_str());
    username_from_lowered(lower.as_str(), lower_suffix.as_str())
}

/// The address that mail should be forwarded to, if any: the rental must be active and its
/// email service enabled with a non-empty target.
pub open spec fn forward_address_of(rental: Rental) -> Option<String> {
    if rental.status != RentalStatus::Active {
        None
    } else {
        match rental.services.email {
            Some(e) => if e.enabled && e.forward_to@.len() > 0 {
                Some(e.forward_to)
            } else {
                None
            },
            None => None,
        }
    }
}

/// Looks up the forwarding address of a rental.
pub fn lookup_forward_address(rental: &Rental) -> (r: Option<String>)
    ensures
        r == forward_address_of(*rental),
{
    if rental.status != RentalStatus::Active {
        return None;
    }
    match &rental.services.email {
        Some(email_svc) => {
            if email_svc.enabled && email_svc.forward_to.unicode_len() > 0 {
                Some(email_svc.forward_to.clone())
            } else {
                None
            }
        },
        None => None,
    }
}

} // verus!
