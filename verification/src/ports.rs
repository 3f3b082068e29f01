//! Port ranges: reading one from text, and the ports that it holds.

use crate::text::{
    after, decimal, find_char, first_index_of, is_digit, lemma_first_index_of, lemma_decimal_digits,
    lemma_first_index_is, parse_u16_between, parsed_u16, unsigned_digits, up_to,
};
use vstd::prelude::*;

verus! {

/// The start of a range whose text gives none.
pub const DEFAULT_START_PORT: u16 = 1;

/// The end of a range whose text gives none.
pub const DEFAULT_END_PORT: u16 = 65535;

/// The range that a text stands for. The text is cut at its first `-`, if it
/// has one: what stands before is the start, what stands behind is the end.
/// A piece that is missing or is no 16-bit number leaves the default in its
/// place.
pub open spec fn port_range_of(s: Seq<char>) -> (u16, u16) {
    let start = match parsed_u16(up_to(s, '-')) {
        Some(p) => p,
        None => DEFAULT_START_PORT,
    };
    let end = match after(s, '-') {
        Some(rest) => match parsed_u16(rest) {
            Some(p) => p,
            None => DEFAULT_END_PORT,
        },
        None => DEFAULT_END_PORT,
    };
    (start, end)
}

/// The ports from `start` to `end`, both included, in rising order: none
/// where `start` is above `end`.
pub open spec fn ports_between(start: u16, end: u16) -> Seq<u16> {
    Seq::new(
        if start <= end {
            (end - start + 1) as nat
        } else {
            0
        },
        |i: int| (start + i) as u16,
    )
}

/// How a range from `a` to `b` is written.
pub open spec fn range_text(a: u16, b: u16) -> Seq<char> {
    decimal(a as nat) + seq!['-'] + decimal(b as nat)
}

/// Reads a port range. It never fails: what the text does not give is taken
/// from the defaults, and the start may lie above the end.
pub fn parse_port_range(range: &str) -> (r: (u16, u16))
    ensures
        r == port_range_of(range@),
{
    let n: usize = range.unicode_len();
    let cut: usize = find_char(range, 0, '-');
    assert(range@.subrange(0, n as int) =~= range@);
    let start: u16 = match parse_u16_between(range, 0, cut) {
        Some(p) => p,
        None => DEFAULT_START_PORT,
    };
    if cut < n {
        let end: u16 = match parse_u16_between(range, cut + 1, n) {
            Some(p) => p,
            None => DEFAULT_END_PORT,
        };
        (start, end)
    } else {
        (start, DEFAULT_END_PORT)
    }
}

/// Lists the ports of a range, one probe each.
pub fn ports_in_range(start: u16, end: u16) -> (r: Vec<u16>)
    ensures
        r@ == ports_between(start, end),
        start > end ==> r@.len() == 0,
        forall|p: u16| start <= p <= end ==> r@.contains(p),
{
    let mut ports: Vec<u16> = Vec::new();
    if start <= end {
        let mut p: u16 = start;
        while p < end
            invariant
                start <= p <= end,
                ports@ == ports_between(start, p).drop_last(),
            decreases end - p,
        {
            ports.push(p);
            p = p + 1;
            assert(ports@ =~= ports_between(start, p).drop_last());
        }
        ports.push(p);
        assert(ports@ =~= ports_between(start, end));
    }
    assert(ports@ =~= ports_between(start, end));
    assert forall|p: u16| start <= p <= end implies ports@.contains(p) by {
        assert(ports@[p - start] == p);
    }
    ports
}

/// A range that is written as two numbers with `-` between them is read as
/// those two numbers.
pub proof fn law_written_range_reads_back(a: u16, b: u16)
    ensures
        port_range_of(range_text(a, b)) == (a, b),
{
    let s = range_text(a, b);
    let da = decimal(a as nat);
    let db = decimal(b as nat);
    lemma_decimal_digits(a as nat);
    lemma_decimal_digits(b as nat);
    assert forall|j: int| 0 <= j < da.len() implies s[j] != '-' by {
        assert(s[j] == da[j]);
        assert(is_digit(da[j]));
    }
    assert(s[da.len() as int] == '-');
    lemma_first_index_is(s, '-', da.len() as int);
    assert(up_to(s, '-') =~= da);
    assert(is_digit(da[0]));
    assert(unsigned_digits(da) == da);
    assert(after(s, '-') == Some(s.subrange(da.len() as int + 1, s.len() as int)));
    assert(s.subrange(da.len() as int + 1, s.len() as int) =~= db);
    assert(is_digit(db[0]));
    assert(unsigned_digits(db) == db);
}

/// A range whose start lies above its end holds no port, also where it was
/// read from text.
pub proof fn law_inverted_range_is_empty(a: u16, b: u16)
    requires
        a > b,
    ensures
        ports_between(a, b).len() == 0,
        ports_between(port_range_of(range_text(a, b)).0, port_range_of(range_text(a, b)).1).len()
            == 0,
{
    law_written_range_reads_back(a, b);
}

/// A text without a digit in it is read as the full range.
pub proof fn law_text_without_digits_is_full_range(s: Seq<char>)
    requires
        forall|i: int| 0 <= i < s.len() ==> !is_digit(s[i]),
    ensures
        port_range_of(s) == (DEFAULT_START_PORT, DEFAULT_END_PORT),
{
    lemma_first_index_of(s, '-');
    lemma_no_digit_no_number(s, 0, first_index_of(s, '-'));
    if first_index_of(s, '-') < s.len() {
        lemma_no_digit_no_number(s, first_index_of(s, '-') + 1, s.len() as int);
    }
}

/// A piece of a text without digits is no number.
proof fn lemma_no_digit_no_number(s: Seq<char>, from: int, to: int)
    requires
        0 <= from <= to <= s.len(),
        forall|i: int| 0 <= i < s.len() ==> !is_digit(s[i]),
    ensures
        parsed_u16(s.subrange(from, to)) is None,
{
    let d = unsigned_digits(s.subrange(from, to));
    if d.len() > 0 {
        assert(!is_digit(d[0])) by {
            if d == s.subrange(from, to) {
                assert(d[0] == s[from]);
            } else {
                assert(d[0] == s[from + 1]);
            }
        }
    }
}

} // verus!
