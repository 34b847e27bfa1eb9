//! Compact numeric texts: hexadecimal identifiers and access-mode triples.
//!
//! Both forms are read leniently. Blanks before an item are skipped, and
//! whatever follows the last item is ignored.

use vstd::prelude::*;
use crate::error::{Error, ErrorView};

verus! {

/// A character that is skipped before an item.
pub open spec fn is_blank(c: char) -> bool {
    c == ' ' || c == '\t' || c == '\n' || c == '\r'
}

/// The first position at or after `i` that holds no blank.
pub open spec fn after_blanks(s: Seq<char>, i: int) -> int
    decreases s.len() - i,
{
    if 0 <= i < s.len() && is_blank(s[i]) {
        after_blanks(s, i + 1)
    } else {
        i
    }
}

/// What `c` counts as a digit in base `radix` (at most 16), if anything.
pub open spec fn digit_of(c: char, radix: int) -> Option<int> {
    let d: int = if '0' <= c <= '9' {
        c as int - '0' as int
    } else if 'a' <= c <= 'f' {
        c as int - 'a' as int + 10
    } else if 'A' <= c <= 'F' {
        c as int - 'A' as int + 10
    } else {
        16
    };
    if d < radix {
        Some(d)
    } else {
        None
    }
}

/// The first position at or after `i` that holds no digit of base `radix`.
pub open spec fn after_digits(s: Seq<char>, i: int, radix: int) -> int
    decreases s.len() - i,
{
    if 0 <= i < s.len() && digit_of(s[i], radix) is Some {
        after_digits(s, i + 1, radix)
    } else {
        i
    }
}

/// The number that the digits `s[from..to]` spell in base `radix`.
pub open spec fn number(s: Seq<char>, from: int, to: int, radix: int) -> int
    decreases to - from,
{
    if to <= from {
        0
    } else {
        number(s, from, to - 1, radix) * radix + digit_of(s[to - 1], radix).unwrap()
    }
}

/// Whether `c` is skipped before an item.
fn blank(c: char) -> (b: bool)
    ensures
        b == is_blank(c),
{
    c == ' ' || c == '\t' || c == '\n' || c == '\r'
}

/// What `c` counts as a digit in base `radix`, if anything.
fn digit(c: char, radix: u64) -> (d: Option<u64>)
    requires
        radix <= 16,
    ensures
        match d {
            Some(v) => digit_of(c, radix as int) == Some(v as int),
            None => digit_of(c, radix as int) is None,
        },
{
    let d: u64 = if '0' <= c && c <= '9' {
        (c as u64) - ('0' as u64)
    } else if 'a' <= c && c <= 'f' {
        (c as u64) - ('a' as u64) + 10
    } else if 'A' <= c && c <= 'F' {
        (c as u64) - ('A' as u64) + 10
    } else {
        16
    };
    if d < radix {
        Some(d)
    } else {
        None
    }
}

/// The characters of `s`, one by one.
fn chars_of(s: &str) -> (v: Vec<char>)
    ensures
        v@ == s@,
{
    let mut v: Vec<char> = Vec::new();
    for c in it: s.chars()
        invariant
            it.seq() == s@,
            v@ == it.seq().take(it.index()),
    {
        v.push(c);
    }
    v
}

/// The first position at or after `start` that holds no blank.
fn skip_blanks(v: &Vec<char>, start: usize) -> (end: usize)
    requires
        start <= v.len(),
    ensures
        end == after_blanks(v@, start as int),
        start <= end <= v.len(),
{
    let mut i: usize = start;
    while i < v.len() && blank(v[i])
        invariant
            start <= i <= v.len(),
            after_blanks(v@, start as int) == after_blanks(v@, i as int),
        decreases v.len() - i,
    {
        i += 1;
    }
    i
}

/// Reads the digits of base `radix` that start at `start`. Gives the position
/// after the last of them and, where there is at least one digit and the
/// number is at most `max`, the number.
fn scan_digits(v: &Vec<char>, start: usize, radix: u64, max: u64) -> (r: (usize, Option<u64>))
    requires
        start <= v.len(),
        2 <= radix <= 16,
    ensures
        r.0 == after_digits(v@, start as int, radix as int),
        start <= r.0 <= v.len(),
        r.1 == if start < r.0 && number(v@, start as int, r.0 as int, radix as int) <= max {
            Some(number(v@, start as int, r.0 as int, radix as int) as u64)
        } else {
            None
        },
        r.1 matches Some(n) ==> n <= max,
        0 <= number(v@, start as int, r.0 as int, radix as int),
{
    let mut i: usize = start;
    let mut acc: u64 = 0;
    let mut fits: bool = true;
    while i < v.len()
        invariant
            start <= i <= v.len(),
            2 <= radix <= 16,
            after_digits(v@, start as int, radix as int) == after_digits(
                v@,
                i as int,
                radix as int,
            ),
            0 <= number(v@, start as int, i as int, radix as int),
            fits ==> acc == number(v@, start as int, i as int, radix as int) && acc <= max,
            !fits ==> number(v@, start as int, i as int, radix as int) > max,
            i == start ==> fits,
        ensures
            i == after_digits(v@, i as int, radix as int),
        decreases v.len() - i,
    {
        let d: u64 = match digit(v[i], radix) {
            Some(d) => d,
            None => { break ; },
        };
        let ghost before = number(v@, start as int, i as int, radix as int);
        assert(number(v@, start as int, i + 1, radix as int) == before * radix + d);
        assert(before * radix >= before) by (nonlinear_arith)
            requires
                before >= 0,
                radix >= 2,
        ;
        if fits {
            assert(acc * radix <= 0xffff_ffff_ffff_ffff * 16) by (nonlinear_arith)
                requires
                    0 <= acc <= 0xffff_ffff_ffff_ffff,
                    0 <= radix <= 16,
            ;
            let next: u128 = (acc as u128) * (radix as u128) + (d as u128);
            if next <= max as u128 {
                acc = next as u64;
            } else {
                fits = false;
            }
        }
        i += 1;
    }
    if start < i && fits {
        (i, Some(acc))
    } else {
        (i, None)
    }
}

/// The identifier that `s` spells in hexadecimal.
///
/// After leading blanks an optional `0x` is passed over; the digits that
/// follow, up to the first character that is no hexadecimal digit, are the
/// number. There is no identifier where no digit stands there, or where the
/// number does not fit in 64 bits.
pub open spec fn scan_hex(s: Seq<char>) -> Option<u64> {
    let t = after_blanks(s, 0);
    let from = if t + 1 < s.len() && s[t] == '0' && s[t + 1] == 'x' {
        t + 2
    } else {
        t
    };
    let to = after_digits(s, from, 16);
    if from < to && number(s, from, to, 16) <= u64::MAX {
        Some(number(s, from, to, 16) as u64)
    } else {
        None
    }
}

/// Reads an identifier written in hexadecimal, such as `0x1234`.
pub fn scan_ptr(s: &str) -> (r: Result<u64, Error>)
    ensures
        match r {
            Ok(id) => scan_hex(s@) == Some(id),
            Err(e) => scan_hex(s@) is None && e@ == ErrorView::Scan(s@),
        },
{
    let v = chars_of(s);
    let t = skip_blanks(&v, 0);
    let from = if t < v.len() && v.len() - t > 1 && v[t] == '0' && v[t + 1] == 'x' {
        t + 2
    } else {
        t
    };
    let (_, value) = scan_digits(&v, from, 16, u64::MAX);
    match value {
        Some(id) => Ok(id),
        None => Err(Error::Scan(s.to_owned())),
    }
}

/// The count that stands at `i`, and the position after it.
///
/// A count is an optional plus sign and then decimal digits, up to the first
/// character that is no digit. There is no count where no digit stands there,
/// or where the number does not fit in 16 bits.
pub open spec fn scan_count(s: Seq<char>, i: int) -> Option<(u16, int)> {
    let from = if 0 <= i < s.len() && s[i] == '+' {
        i + 1
    } else {
        i
    };
    let to = after_digits(s, from, 10);
    if from < to && number(s, from, to, 10) <= u16::MAX {
        Some((number(s, from, to, 10) as u16, to))
    } else {
        None
    }
}

/// The count that follows the letter `tag`, and the position after it. Blanks
/// may stand before the letter and between the letter and the count.
pub open spec fn scan_tagged(s: Seq<char>, i: int, tag: char) -> Option<(u16, int)> {
    let t = after_blanks(s, i);
    if 0 <= t < s.len() && s[t] == tag {
        scan_count(s, after_blanks(s, t + 1))
    } else {
        None
    }
}

/// The three counts of an access mode such as `r1w1e0`: readers, writers and
/// exclusive holders, in this order.
pub open spec fn scan_triple(s: Seq<char>) -> Option<(u16, u16, u16)> {
    match scan_tagged(s, 0, 'r') {
        Some((r, i)) => match scan_tagged(s, i, 'w') {
            Some((w, j)) => match scan_tagged(s, j, 'e') {
                Some((e, _)) => Some((r, w, e)),
                None => None,
            },
            None => None,
        },
        None => None,
    }
}

/// Reads the count that follows the letter `tag`.
fn scan_tag(v: &Vec<char>, i: usize, tag: char) -> (r: Option<(u16, usize)>)
    requires
        i <= v.len(),
    ensures
        match r {
            Some((n, end)) => scan_tagged(v@, i as int, tag) == Some((n, end as int)) && end
                <= v.len(),
            None => scan_tagged(v@, i as int, tag) is None,
        },
{
    let t = skip_blanks(v, i);
    if t < v.len() && v[t] == tag {
        let c = skip_blanks(v, t + 1);
        let from = if c < v.len() && v[c] == '+' {
            c + 1
        } else {
            c
        };
        let (end, value) = scan_digits(v, from, 10, 0xffff);
        match value {
            Some(n) => Some((n as u16, end)),
            None => None,
        }
    } else {
        None
    }
}

/// Reads the three counts of an access mode such as `r1w1e0`.
pub fn scan_mode(s: &str) -> (r: Result<(u16, u16, u16), Error>)
    ensures
        match r {
            Ok(counts) => scan_triple(s@) == Some(counts),
            Err(e) => scan_triple(s@) is None && e@ == ErrorView::Scan(s@),
        },
{
    let v = chars_of(s);
    let read = match scan_tag(&v, 0, 'r') {
        Some(found) => found,
        None => { return Err(Error::Scan(s.to_owned())); },
    };
    let write = match scan_tag(&v, read.1, 'w') {
        Some(found) => found,
        None => { return Err(Error::Scan(s.to_owned())); },
    };
    let exclusive = match scan_tag(&v, write.1, 'e') {
        Some(found) => found,
        None => { return Err(Error::Scan(s.to_owned())); },
    };
    Ok((read.0, write.0, exclusive.0))
}

/// The character that writes the digit `d`, which is below 16, in upper or in
/// lower case.
pub open spec fn hex_char(d: int, upper: bool) -> char {
    if d < 10 {
        ('0' as u8 + d) as u8 as char
    } else if upper {
        ('A' as u8 + d - 10) as u8 as char
    } else {
        ('a' as u8 + d - 10) as u8 as char
    }
}

/// The hexadecimal digits of `n`, the most significant first, without
/// leading zeros.
pub open spec fn hex_digits(n: nat, upper: bool) -> Seq<char>
    decreases n,
{
    if n < 16 {
        seq![hex_char(n as int, upper)]
    } else {
        hex_digits(n / 16, upper).push(hex_char((n % 16) as int, upper))
    }
}

/// An identifier as it is written: `0x` and then its hexadecimal digits.
pub open spec fn hex_text(id: u64, upper: bool) -> Seq<char> {
    seq!['0', 'x'] + hex_digits(id as nat, upper)
}

/// The digits of `n`, written after any text, are all read, and spell `n`.
proof fn lemma_number_of_digits(pre: Seq<char>, n: nat, upper: bool)
    ensures
        ({
            let s = pre + hex_digits(n, upper);
            &&& s.len() > pre.len()
            &&& after_digits(s, pre.len() as int, 16) == s.len()
            &&& number(s, pre.len() as int, s.len() as int, 16) == n
        }),
    decreases n,
{
    let s = pre + hex_digits(n, upper);
    let from = pre.len() as int;
    if n < 16 {
        assert(s[from] == hex_char(n as int, upper));
        assert(digit_of(s[from], 16) == Some(n as int));
        assert(after_digits(s, from + 1, 16) == from + 1);
        assert(number(s, from, from, 16) == 0);
    } else {
        let high = pre + hex_digits(n / 16, upper);
        let last = hex_char((n % 16) as int, upper);
        lemma_number_of_digits(pre, n / 16, upper);
        assert(s == high.push(last));
        assert(digit_of(last, 16) == Some((n % 16) as int));
        lemma_same_digits(high, s, from, high.len() as int);
        assert(after_digits(s, high.len() as int + 1, 16) == s.len());
        lemma_digits_go_on(s, from, high.len() as int);
    }
}

/// Two texts that agree between `from` and `to` spell the same number there,
/// and a run of digits that reaches `to` in one reaches `to` in the other.
proof fn lemma_same_digits(a: Seq<char>, b: Seq<char>, from: int, to: int)
    requires
        0 <= from <= to <= a.len(),
        to <= b.len(),
        forall|k: int| from <= k < to ==> a[k] == b[k],
    ensures
        number(a, from, to, 16) == number(b, from, to, 16),
        after_digits(a, from, 16) == to ==> forall|k: int|
            from <= k < to ==> (#[trigger] digit_of(b[k], 16)) is Some,
    decreases to - from,
{
    if from < to {
        lemma_same_digits(a, b, from, to - 1);
        lemma_same_digits(a, b, from + 1, to);
        if after_digits(a, from, 16) == to {
            assert(digit_of(a[from], 16) is Some);
            assert(after_digits(a, from + 1, 16) == to);
        }
    }
}

/// Where digits stand from `from` up to `mid`, the run that starts at `from`
/// ends where the run that starts at `mid` ends.
proof fn lemma_digits_go_on(s: Seq<char>, from: int, mid: int)
    requires
        0 <= from <= mid <= s.len(),
        forall|k: int| from <= k < mid ==> (#[trigger] digit_of(s[k], 16)) is Some,
    ensures
        after_digits(s, from, 16) == after_digits(s, mid, 16),
    decreases mid - from,
{
    if from < mid {
        lemma_digits_go_on(s, from + 1, mid);
    }
}

/// Writing an identifier and reading it again gives the identifier back, in
/// either case of the letters. So the number that a text spells survives
/// being written out again.
pub proof fn lemma_hex_round_trip(s: Seq<char>, upper: bool)
    requires
        scan_hex(s) is Some,
    ensures
        scan_hex(hex_text(scan_hex(s).unwrap(), upper)) == scan_hex(s),
{
    let id = scan_hex(s).unwrap();
    lemma_hex_text_reads_back(id, upper);
}

/// Every identifier is read back from its written form.
pub proof fn lemma_hex_text_reads_back(id: u64, upper: bool)
    ensures
        scan_hex(hex_text(id, upper)) == Some(id),
{
    let pre = seq!['0', 'x'];
    let t = hex_text(id, upper);
    lemma_number_of_digits(pre, id as nat, upper);
    assert(t[0] == '0' && t[1] == 'x');
    assert(after_blanks(t, 0) == 0);
}

} // verus!
