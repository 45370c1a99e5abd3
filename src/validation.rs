//! Username format and reserved words.
use vstd::prelude::*;
use vstd::string::*;

use crate::text::str_eq;

verus! {

/// Characters allowed in a username: lowercase ASCII letters, digits and the hyphen.
pub open spec fn username_char_ok(c: char) -> bool {
    ('a' <= c && c <= 'z') || ('0' <= c && c <= '9') || c == '-'
}

/// Usernames that cannot be registered.
pub open spec fn reserved_usernames() -> Seq<Seq<char>> {
    seq![
        "admin"@, "www"@, "mail"@, "api"@, "ns1"@, "ns2"@, "_dmarc"@, "autoconfig"@,
        "postmaster"@, "abuse"@, "hostmaster"@, "webmaster"@, "ftp"@, "smtp"@, "imap"@,
        "pop"@, "pop3"@, "root"@, "test"@, "localhost"@, "noscha"@,
    ]
}

/// Why a username is refused, checked in this order, or `None` when it is accepted:
/// 3 to 20 characters, no leading or trailing hyphen, only allowed characters, not reserved.
pub open spec fn username_error(u: Seq<char>) -> Option<Seq<char>> {
    if u.len() < 3 {
        Some("Username must be at least 3 characters"@)
    } else if u.len() > 20 {
        Some("Username must be at most 20 characters"@)
    } else if u[0] == '-' || u[u.len() - 1] == '-' {
        Some("Username cannot start or end with a hyphen"@)
    } else if exists|i: int| 0 <= i < u.len() && !username_char_ok(#[trigger] u[i]) {
        Some("Username can only contain lowercase letters, digits, and hyphens"@)
    } else if reserved_usernames().contains(u) {
        Some("This username is reserved"@)
    } else {
        None
    }
}

fn reserved_list() -> (r: Vec<&'static str>)
    ensures
        r@.len() == reserved_usernames().len(),
        forall|k: int| 0 <= k < r@.len() ==> (#[trigger] r@[k])@ == reserved_usernames()[k],
{
    let r = vec![
        "admin", "www", "mail", "api", "ns1", "ns2", "_dmarc", "autoconfig",
        "postmaster", "abuse", "hostmaster", "webmaster", "ftp", "smtp", "imap",
        "pop", "pop3", "root", "test", "localhost", "noscha",
    ];
    r
}

fn is_reserved(username: &str) -> (r: bool)
    ensures
        r == reserved_usernames().contains(username@),
{
    let names = reserved_list();
    let mut i: usize = 0;
    while i < names.len()
        invariant
            names@.len() == reserved_usernames().len(),
            forall|k: int| 0 <= k < names@.len() ==> (#[trigger] names@[k])@ == reserved_usernames()[k],
            i <= names@.len(),
            forall|k: int| 0 <= k < i ==> reserved_usernames()[k] != username@,
        decreases names@.len() - i,
    {
        if str_eq(names[i], username) {
            assert(reserved_usernames()[i as int] == username@);
            return true;
        }
        i = i + 1;
    }
    false
}

/// Checks a username: 3 to 20 characters, lowercase letters, digits and hyphens, no
/// leading or trailing hyphen, and not a reserved word.
pub fn validate_username(username: &str) -> (r: Result<(), String>)
    ensures
        match r {
            Ok(()) => username_error(username@) is None,
            Err(m) => username_error(username@) == Some(m@),
        },
{
    let n = username.unicode_len();
    if n < 3 {
        return Err(String::from_str("Username must be at least 3 characters"));
    }
    if n > 20 {
        return Err(String::from_str("Username must be at most 20 characters"));
    }
    if username.get_char(0) == '-' || username.get_char(n - 1) == '-' {
        return Err(String::from_str("Username cannot start or end with a hyphen"));
    }
    let mut i: usize = 0;
    while i < n
        invariant
            n == username@.len(),
            3 <= n <= 20,
            username@[0] != '-' && username@[n - 1] != '-',
            i <= n,
            forall|k: int| 0 <= k < i ==> username_char_ok(#[trigger] username@[k]),
        decreases n - i,
    {
        let c = username.get_char(i);
        if !(('a' <= c && c <= 'z') || ('0' <= c && c <= '9') || c == '-') {
            assert(!username_char_ok(username@[i as int]));
            assert(exists|k: int| 0 <= k < username@.len() && !username_char_ok(#[trigger] username@[k]));
            return Err(
                String::from_str("Username can only contain lowercase letters, digits, and hyphens"),
            );
        }
        i = i + 1;
    }
    if is_reserved(username) {
        return Err(String::from_str("This username is reserved"));
    }
    Ok(())
}

} // verus!
