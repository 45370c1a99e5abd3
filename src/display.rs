//! Numbers and durations as people read them, and the price rows of the public price list.
use vstd::prelude::*;
use vstd::multiset::Multiset;
use vstd::string::*;

use crate::auth::{trim_of, trimmed};
use crate::pricing::{lookup, PricingConfig};
use crate::text::{ends_with, has_suffix};

verus! {

/// The character of a decimal digit.
pub open spec fn digit_char(d: nat) -> char {
    if d == 0 {
        '0'
    } else if d == 1 {
        '1'
    } else if d == 2 {
        '2'
    } else if d == 3 {
        '3'
    } else if d == 4 {
        '4'
    } else if d == 5 {
        '5'
    } else if d == 6 {
        '6'
    } else if d == 7 {
        '7'
    } else if d == 8 {
        '8'
    } else {
        '9'
    }
}

/// The decimal text of `n`, without leading zeros.
pub open spec fn decimal(n: nat) -> Seq<char>
    decreases n,
{
    if n < 10 {
        seq![digit_char(n)]
    } else {
        decimal(n / 10).push(digit_char(n % 10))
    }
}

/// The three decimal digits of `n` (below 1000), with leading zeros.
pub open spec fn three_digits(n: nat) -> Seq<char> {
    seq![digit_char(n / 100), digit_char((n / 10) % 10), digit_char(n % 10)]
}

/// The decimal text of `n` with a comma between groups of three digits (`1,500`).
pub open spec fn grouped(n: nat) -> Seq<char>
    decreases n,
{
    if n < 1000 {
        decimal(n)
    } else {
        grouped(n / 1000) + seq![','] + three_digits(n % 1000)
    }
}

fn digit_text(d: u64) -> (r: &'static str)
    requires
        d < 10,
    ensures
        r@ == seq![digit_char(d as nat)],
{
    proof {
        reveal_strlit("0");
        reveal_strlit("1");
        reveal_strlit("2");
        reveal_strlit("3");
        reveal_strlit("4");
        reveal_strlit("5");
        reveal_strlit("6");
        reveal_strlit("7");
        reveal_strlit("8");
        reveal_strlit("9");
    }
    let r = match d {
        0 => "0",
        1 => "1",
        2 => "2",
        3 => "3",
        4 => "4",
        5 => "5",
        6 => "6",
        7 => "7",
        8 => "8",
        _ => "9",
    };
    assert(r@ =~= seq![digit_char(d as nat)]);
    r
}

/// The decimal text of `n`.
pub fn decimal_text(n: u64) -> (r: String)
    ensures
        r@ == decimal(n as nat),
    decreases n,
{
    if n < 10 {
        String::from_str(digit_text(n))
    } else {
        let mut s = decimal_text(n / 10);
        s.append(digit_text(n % 10));
        assert(s@ =~= decimal(n as nat));
        s
    }
}

/// Formats a number with comma thousands separators (1500 gives "1,500").
pub fn format_sats(n: u64) -> (r: String)
    ensures
        r@ == grouped(n as nat),
    decreases n,
{
    if n < 1000 {
        decimal_text(n)
    } else {
        let mut s = format_sats(n / 1000);
        let low = n % 1000;
        s.append(",");
        s.append(digit_text(low / 100));
        s.append(digit_text((low / 10) % 10));
        s.append(digit_text(low % 10));
        proof {
            reveal_strlit(",");
        }
        assert(s@ =~= grouped(n as nat));
        s
    }
}

/// Whether every character of `s` is a decimal digit.
pub open spec fn all_digits(s: Seq<char>) -> bool {
    forall|i: int| 0 <= i < s.len() ==> '0' <= #[trigger] s[i] && s[i] <= '9'
}

/// The value of a digit character.
pub open spec fn digit_value(c: char) -> int {
    c as int - '0' as int
}

/// The value of a text of decimal digits.
pub open spec fn digits_value(s: Seq<char>) -> int
    decreases s.len(),
{
    if s.len() == 0 {
        0
    } else {
        digits_value(s.drop_last()) * 10 + digit_value(s.last())
    }
}

/// What `u64::from_str` makes of a text: an optional `+` and at least one decimal digit, whose
/// value fits in a `u64`; `None` otherwise.
pub open spec fn parsed_u64(s: Seq<char>) -> Option<u64> {
    let body = if s.len() > 0 && s[0] == '+' {
        s.drop_first()
    } else {
        s
    };
    if body.len() > 0 && all_digits(body) && digits_value(body) <= u64::MAX {
        Some(digits_value(body) as u64)
    } else {
        None
    }
}

proof fn lemma_digits_value_grows(s: Seq<char>, i: int)
    requires
        all_digits(s),
        0 <= i <= s.len(),
    ensures
        0 <= digits_value(s.subrange(0, i)) <= digits_value(s),
    decreases s.len(),
{
    if s.len() > 0 {
        let t = s.drop_last();
        assert(all_digits(t)) by {
            assert forall|k: int| 0 <= k < t.len() implies '0' <= #[trigger] t[k] && t[k] <= '9' by {
                assert(t[k] == s[k]);
            }
        }
        assert('0' <= s[s.len() - 1] && s[s.len() - 1] <= '9');
        if i == s.len() {
            assert(s.subrange(0, i) =~= s);
            lemma_digits_value_grows(t, t.len() as int);
            assert(t.subrange(0, t.len() as int) =~= t);
        } else {
            lemma_digits_value_grows(t, i);
            assert(t.subrange(0, i) =~= s.subrange(0, i));
            lemma_digits_value_grows(t, t.len() as int);
            assert(t.subrange(0, t.len() as int) =~= t);
        }
    } else {
        assert(s.subrange(0, i) =~= s);
    }
}

/// Reads a decimal number as `u64::from_str` does.
pub fn parse_u64(s: &str) -> (r: Option<u64>)
    ensures
        r == parsed_u64(s@),
{
    let n = s.unicode_len();
    let start: usize = if n > 0 && s.get_char(0) == '+' {
        1
    } else {
        0
    };
    let ghost body = if s@.len() > 0 && s@[0] == '+' {
        s@.drop_first()
    } else {
        s@
    };
    assert(body =~= s@.subrange(start as int, n as int));
    if start == n {
        return None;
    }
    let mut value: u64 = 0;
    let mut i: usize = start;
    while i < n
        invariant
            n == s@.len(),
            start <= i <= n,
            start < n,
            body == s@.subrange(start as int, n as int),
            body == (if s@.len() > 0 && s@[0] == '+' {
                s@.drop_first()
            } else {
                s@
            }),
            forall|k: int| start <= k < i ==> '0' <= #[trigger] s@[k] && s@[k] <= '9',
            value == digits_value(s@.subrange(start as int, i as int)),
        decreases n - i,
    {
        let c = s.get_char(i);
        if !('0' <= c && c <= '9') {
            assert(body[i - start] == c);
            assert(!all_digits(body));
            return None;
        }
        let d = (c as u32 - '0' as u32) as u64;
        let ghost prefix = s@.subrange(start as int, i + 1);
        assert(prefix.drop_last() =~= s@.subrange(start as int, i as int));
        assert(prefix.last() == c);
        let next = match value.checked_mul(10) {
            Some(v) => v.checked_add(d),
            None => None,
        };
        match next {
            Some(v) => {
                value = v;
            },
            None => {
                proof {
                    if all_digits(body) {
                        assert(body.subrange(0, i + 1 - start) =~= prefix);
                        lemma_digits_value_grows(body, i + 1 - start);
                    }
                }
                return None;
            },
        }
        i = i + 1;
    }
    assert(s@.subrange(start as int, n as int) =~= body);
    assert(all_digits(body)) by {
        assert forall|k: int| 0 <= k < body.len() implies '0' <= #[trigger] body[k] && body[k] <= '9' by {
            assert(body[k] == s@[start + k]);
        }
    }
    Some(value)
}

/// A parsed number, or 0 where the text is not one.
pub open spec fn value_or_zero(s: Seq<char>) -> u64 {
    match parsed_u64(s) {
        Some(v) => v,
        None => 0,
    }
}

/// `a * b`, or `u64::MAX` where the product does not fit.
pub open spec fn saturating_product(a: u64, b: u64) -> u64 {
    if a * b > u64::MAX {
        u64::MAX
    } else {
        (a * b) as u64
    }
}

/// Minutes of an already trimmed period key: a number with the unit `m`, `h` or `d`, or a bare
/// number of minutes; a number that does not parse counts as 0, and a product that does not
/// fit saturates.
pub open spec fn period_minutes(s: Seq<char>) -> u64 {
    if has_suffix(s, "m"@) {
        value_or_zero(s.drop_last())
    } else if has_suffix(s, "h"@) {
        saturating_product(value_or_zero(s.drop_last()), 60)
    } else if has_suffix(s, "d"@) {
        saturating_product(value_or_zero(s.drop_last()), 1440)
    } else {
        value_or_zero(s)
    }
}

fn number_or_zero(s: &str) -> (r: u64)
    ensures
        r == value_or_zero(s@),
{
    match parse_u64(s) {
        Some(v) => v,
        None => 0,
    }
}

/// Minutes of a period key that is already trimmed.
pub fn minutes_of_trimmed(s: &str) -> (r: u64)
    ensures
        r == period_minutes(s@),
{
    let n = s.unicode_len();
    let unit_m = ends_with(s, "m");
    let unit_h = ends_with(s, "h");
    let unit_d = ends_with(s, "d");
    proof {
        reveal_strlit("m");
        reveal_strlit("h");
        reveal_strlit("d");
    }
    if unit_m || unit_h || unit_d {
        let num = s.substring_char(0, n - 1);
        assert(num@ =~= s@.drop_last());
        let v = number_or_zero(num);
        if unit_m {
            v
        } else {
            let factor: u64 = if unit_h {
                60
            } else {
                1440
            };
            match v.checked_mul(factor) {
                Some(x) => x,
                None => u64::MAX,
            }
        }
    } else {
        number_or_zero(s)
    }
}

/// Parses a period key like "5m", "1h", "1d" or "7d" into a duration in minutes.
pub fn period_to_minutes(period: &str) -> (r: u64)
    ensures
        r == period_minutes(trim_of(period@)),
{
    let t = trimmed(period);
    minutes_of_trimmed(t.as_str())
}

/// A human-readable label of a duration in minutes.
pub open spec fn minutes_label(mins: u64) -> Seq<char> {
    if mins < 60 {
        decimal(mins as nat) + " Min"@
    } else if mins == 60 {
        "1 Hour"@
    } else if mins < 1440 {
        decimal((mins / 60) as nat) + " Hours"@
    } else if mins / 1440 == 1 {
        "1 Day"@
    } else {
        decimal((mins / 1440) as nat) + " Days"@
    }
}

/// Labels a duration in minutes: "30 Min", "1 Hour", "12 Hours", "1 Day", "30 Days".
pub fn minutes_to_label(mins: u64) -> (r: String)
    ensures
        r@ == minutes_label(mins),
{
    if mins < 60 {
        decimal_text(mins).concat(" Min")
    } else if mins == 60 {
        String::from_str("1 Hour")
    } else if mins < 1440 {
        decimal_text(mins / 60).concat(" Hours")
    } else if mins / 1440 == 1 {
        String::from_str("1 Day")
    } else {
        decimal_text(mins / 1440).concat(" Days")
    }
}

/// One line of the public price list: a period's length and its prices (0 where unset).
#[derive(Debug, Clone, Copy, PartialEq, Eq, Structural)]
pub struct PricingRow {
    pub minutes: u64,
    pub subdomain: u64,
    pub email: u64,
    pub nip05: u64,
    pub bundle: u64,
}

/// A price, or 0 where none is set.
pub open spec fn or_zero(o: Option<u64>) -> u64 {
    match o {
        Some(v) => v,
        None => 0,
    }
}

/// The price-list line of a period of the pricing table: its length comes from its
/// `_duration_minutes` entry, else from its key.
pub open spec fn row_of(p: (Seq<char>, Seq<(Seq<char>, u64)>)) -> PricingRow {
    PricingRow {
        minutes: match lookup(p.1, "_duration_minutes"@) {
            Some(m) => m,
            None => period_minutes(trim_of(p.0)),
        },
        subdomain: or_zero(lookup(p.1, "subdomain"@)),
        email: or_zero(lookup(p.1, "email"@)),
        nip05: or_zero(lookup(p.1, "nip05"@)),
        bundle: or_zero(lookup(p.1, "bundle"@)),
    }
}

/// Rows ordered by period length, shortest first.
pub open spec fn minutes_ascending(s: Seq<PricingRow>) -> bool {
    forall|i: int, j: int| 0 <= i < j < s.len() ==> s[i].minutes <= s[j].minutes
}

fn price_or_zero(p: &crate::pricing::PeriodPricing, key: &str) -> (r: u64)
    ensures
        r == or_zero(lookup(p@.1, key@)),
{
    match p.get(key) {
        Some(v) => v,
        None => 0,
    }
}

/// The lines of the public price list, one per period of the table, shortest period first.
pub fn pricing_rows(pricing: &PricingConfig) -> (r: Vec<PricingRow>)
    ensures
        r@.to_multiset() == pricing@.map_values(|p: (Seq<char>, Seq<(Seq<char>, u64)>)| row_of(p)).to_multiset(),
        minutes_ascending(r@),
{
    broadcast use vstd::seq_lib::to_multiset_build;

    let ghost rows = pricing@.map_values(|p: (Seq<char>, Seq<(Seq<char>, u64)>)| row_of(p));
    let mut out: Vec<PricingRow> = Vec::new();
    assert(out@.to_multiset() =~= Multiset::empty()) by {
        broadcast use vstd::seq_lib::to_multiset_len;
        assert(out@.to_multiset().len() == 0);
    }
    assert(rows.subrange(0, 0).to_multiset() =~= Multiset::empty()) by {
        broadcast use vstd::seq_lib::to_multiset_len;
        assert(rows.subrange(0, 0).to_multiset().len() == 0);
    }
    let mut i: usize = 0;
    while i < pricing.periods.len()
        invariant
            i <= pricing.periods@.len(),
            rows == pricing@.map_values(|p: (Seq<char>, Seq<(Seq<char>, u64)>)| row_of(p)),
            rows.len() == pricing.periods@.len(),
            out@.to_multiset() == rows.subrange(0, i as int).to_multiset(),
            minutes_ascending(out@),
        decreases pricing.periods@.len() - i,
    {
        let p = &pricing.periods[i];
        proof {
            reveal_strlit("_duration_minutes");
            reveal_strlit("subdomain");
            reveal_strlit("email");
            reveal_strlit("nip05");
            reveal_strlit("bundle");
        }
        let minutes = match p.get("_duration_minutes") {
            Some(m) => m,
            None => period_to_minutes(p.period.as_str()),
        };
        let row = PricingRow {
            minutes,
            subdomain: price_or_zero(p, "subdomain"),
            email: price_or_zero(p, "email"),
            nip05: price_or_zero(p, "nip05"),
            bundle: price_or_zero(p, "bundle"),
        };
        assert(row == rows[i as int]);
        let mut pos: usize = 0;
        while pos < out.len() && out[pos].minutes <= row.minutes
            invariant
                pos <= out@.len(),
                forall|k: int| 0 <= k < pos ==> out@[k].minutes <= row.minutes,
            decreases out@.len() - pos,
        {
            pos = pos + 1;
        }
        let ghost prev = out@;
        out.insert(pos, row);
        proof {
            vstd::seq_lib::to_multiset_insert(prev, pos as int, row);
            assert(rows.subrange(0, i + 1) =~= rows.subrange(0, i as int).push(row));
            vstd::seq_lib::to_multiset_build(rows.subrange(0, i as int), row);
        }
        assert forall|a: int, b: int| 0 <= a < b < out@.len() implies out@[a].minutes <= out@[b].minutes by {
            if pos < prev.len() {
                assert(prev[pos as int].minutes > row.minutes);
            }
            if a < pos && b > pos {
                assert(out@[a] == prev[a]);
                assert(out@[b] == prev[b - 1]);
            } else if a < pos && b == pos {
                assert(out@[a] == prev[a]);
            } else if a == pos && b > pos {
                assert(out@[b] == prev[b - 1]);
                assert(prev[pos as int].minutes <= prev[b - 1].minutes);
            } else if a > pos {
                assert(out@[a] == prev[a - 1]);
                assert(out@[b] == prev[b - 1]);
            } else {
                assert(out@[a] == prev[a]);
                assert(out@[b] == prev[b]);
            }
        }
        i = i + 1;
    }
    assert(rows.subrange(0, rows.len() as int) =~= rows);
    out
}

} // verus!
