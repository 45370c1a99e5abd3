//! DNS records for rented subdomains: record types, subdomain names, record requests.
use vstd::prelude::*;
use vstd::string::*;

use crate::email::{lower_of, lowercase};
use crate::text::{contains_char, has_char, str_eq};
use crate::validation::username_char_ok;

verus! {

/// Supported DNS record types for subdomain provisioning.
#[derive(Debug, Clone, Copy, PartialEq, Eq, Structural)]
pub enum DnsRecordType {
    CNAME,
    A,
    AAAA,
}

/// The name of a record type.
pub open spec fn record_type_name(t: DnsRecordType) -> Seq<char> {
    match t {
        DnsRecordType::CNAME => "CNAME"@,
        DnsRecordType::A => "A"@,
        DnsRecordType::AAAA => "AAAA"@,
    }
}

/// The record type named exactly by `upper`, if any.
pub open spec fn record_type_named(upper: Seq<char>) -> Option<DnsRecordType> {
    if upper == "CNAME"@ {
        Some(DnsRecordType::CNAME)
    } else if upper == "A"@ {
        Some(DnsRecordType::A)
    } else if upper == "AAAA"@ {
        Some(DnsRecordType::AAAA)
    } else {
        None
    }
}

/// What `str::to_uppercase` makes of a text.
pub uninterp spec fn upper_of(s: Seq<char>) -> Seq<char>;

/// Relies on `str::to_uppercase`: the uppercase mapping of each character, which depends on
/// the characters alone.
#[verifier::external_body]
fn uppercase(s: &str) -> (r: String)
    ensures
        r@ == upper_of(s@),
{
    s.to_uppercase()
}

impl DnsRecordType {
    /// The name of this record type.
    pub fn as_str(&self) -> (r: &'static str)
        ensures
            r@ == record_type_name(*self),
    {
        match self {
            DnsRecordType::CNAME => "CNAME",
            DnsRecordType::A => "A",
            DnsRecordType::AAAA => "AAAA",
        }
    }

    /// The record type named by an already uppercased text.
    pub fn from_upper(upper: &str) -> (r: Option<DnsRecordType>)
        ensures
            r == record_type_named(upper@),
    {
        if str_eq(upper, "CNAME") {
            Some(DnsRecordType::CNAME)
        } else if str_eq(upper, "A") {
            Some(DnsRecordType::A)
        } else if str_eq(upper, "AAAA") {
            Some(DnsRecordType::AAAA)
        } else {
            None
        }
    }

    /// The record type named by a text in any case. An unsupported type is reported with
    /// its uppercased name.
    pub fn parse(text: &str) -> (r: Result<DnsRecordType, String>)
        ensures
            match r {
                Ok(t) => record_type_named(upper_of(text@)) == Some(t),
                Err(m) => record_type_named(upper_of(text@)) is None && m@
                    == "Unsupported DNS record type: "@ + upper_of(text@),
            },
    {
        let upper = uppercase(text);
        match DnsRecordType::from_upper(upper.as_str()) {
            Some(t) => Ok(t),
            None => {
                let msg = String::from_str("Unsupported DNS record type: ").concat(upper.as_str());
                Err(msg)
            },
        }
    }
}

/// Request body for creating a DNS record at the provider.
#[derive(Debug, Clone)]
pub struct CreateDnsRecordRequest {
    pub record_type: String,
    pub name: String,
    pub content: String,
    pub ttl: u32,
    pub proxied: bool,
    pub comment: String,
}

/// Time to live of every created record, in seconds.
pub const RECORD_TTL: u32 = 300;

/// Why a subdomain name is refused, given its lowercase form, checked in this order, or
/// `None` when it is accepted. Lengths count characters.
pub open spec fn subdomain_error(s: Seq<char>, lower: Seq<char>) -> Option<Seq<char>> {
    if s.len() == 0 {
        Some("Subdomain cannot be empty"@)
    } else if s.len() > 63 {
        Some("Subdomain must be at most 63 characters"@)
    } else if has_char(s, '.') {
        Some("Subdomain cannot contain dots"@)
    } else if lower != s {
        Some("Subdomain must be lowercase"@)
    } else if s[0] == '-' || s[s.len() - 1] == '-' {
        Some("Subdomain cannot start or end with a hyphen"@)
    } else if exists|i: int| 0 <= i < s.len() && !username_char_ok(#[trigger] s[i]) {
        Some("Subdomain can only contain lowercase letters, digits, and hyphens"@)
    } else {
        None
    }
}

/// Checks a subdomain name, given its lowercase form.
pub fn validate_subdomain_lowered(subdomain: &str, lower: &str) -> (r: Result<(), String>)
    ensures
        match r {
            Ok(()) => subdomain_error(subdomain@, lower@) is None,
            Err(m) => subdomain_error(subdomain@, lower@) == Some(m@),
        },
{
    let n = subdomain.unicode_len();
    if n == 0 {
        return Err(String::from_str("Subdomain cannot be empty"));
    }
    if n > 63 {
        return Err(String::from_str("Subdomain must be at most 63 characters"));
    }
    if contains_char(subdomain, '.') {
        return Err(String::from_str("Subdomain cannot contain dots"));
    }
    if !str_eq(lower, subdomain) {
        return Err(String::from_str("Subdomain must be lowercase"));
    }
    if subdomain.get_char(0) == '-' || subdomain.get_char(n - 1) == '-' {
        return Err(String::from_str("Subdomain cannot start or end with a hyphen"));
    }
    let mut i: usize = 0;
    while i < n
        invariant
            n == subdomain@.len(),
            1 <= n <= 63,
            !has_char(subdomain@, '.'),
            lower@ == subdomain@,
            subdomain@[0] != '-' && subdomain@[n - 1] != '-',
            i <= n,
            forall|k: int| 0 <= k < i ==> username_char_ok(#[trigger] subdomain@[k]),
        decreases n - i,
    {
        let c = subdomain.get_char(i);
        if !(('a' <= c && c <= 'z') || ('0' <= c && c <= '9') || c == '-') {
            assert(!username_char_ok(subdomain@[i as int]));
            return Err(
                String::from_str(
                    "Subdomain can only contain lowercase letters, digits, and hyphens",
                ),
            );
        }
        i = i + 1;
    }
    Ok(())
}

/// Checks a subdomain name for DNS provisioning.
pub fn validate_subdomain(subdomain: &str) -> (r: Result<(), String>)
    ensures
        match r {
            Ok(()) => subdomain_error(subdomain@, lower_of(subdomain@)) is None,
            Err(m) => subdomain_error(subdomain@, lower_of(subdomain@)) == Some(m@),
        },
{
    let lower = lowercase(subdomain);
    validate_subdomain_lowered(subdomain, lower.as_str())
}

/// The comment attached to a created record.
pub open spec fn record_comment(username: Seq<char>, expires: Seq<char>) -> Seq<char> {
    "noscha rental: "@ + username + ", expires: "@ + expires
}

/// Builds the request body for creating a DNS record for `subdomain.domain`.
pub fn build_create_request(
    subdomain: &str,
    domain: &str,
    record_type: &DnsRecordType,
    content: &str,
    proxied: bool,
    username: &str,
    expires: &str,
) -> (r: CreateDnsRecordRequest)
    ensures
        r.record_type@ == record_type_name(*record_type),
        r.name@ == subdomain@ + "."@ + domain@,
        r.content@ == content@,
        r.ttl == RECORD_TTL,
        r.proxied == proxied,
        r.comment@ == record_comment(username@, expires@),
{
    let name = String::from_str(subdomain).concat(".").concat(domain);
    let comment = String::from_str("noscha rental: ").concat(username).concat(", expires: ").concat(
        expires,
    );
    CreateDnsRecordRequest {
        record_type: String::from_str(record_type.as_str()),
        name,
        content: String::from_str(content),
        ttl: RECORD_TTL,
        proxied,
        comment,
    }
}

/// Checks the subdomain and builds the request that creates its record; the subdomain's
/// refusal is returned as it is.
pub fn prepare_dns_record(
    subdomain: &str,
    domain: &str,
    record_type: &DnsRecordType,
    content: &str,
    proxied: bool,
    username: &str,
    expires: &str,
) -> (r: Result<CreateDnsRecordRequest, String>)
    ensures
        match r {
            Ok(req) => subdomain_error(subdomain@, lower_of(subdomain@)) is None
                && req.record_type@ == record_type_name(*record_type)
                && req.name@ == subdomain@ + "."@ + domain@
                && req.content@ == content@
                && req.ttl == RECORD_TTL
                && req.proxied == proxied
                && req.comment@ == record_comment(username@, expires@),
            Err(m) => subdomain_error(subdomain@, lower_of(subdomain@)) == Some(m@),
        },
{
    match validate_subdomain(subdomain) {
        Ok(()) => Ok(build_create_request(subdomain, domain, record_type, content, proxied, username, expires)),
        Err(m) => Err(m),
    }
}

} // verus!
