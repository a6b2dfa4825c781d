//! Decoding of the value of the response status pseudo-header.
//!
//! A status value is an optional `+` followed by one or more ASCII decimal
//! digits that denote a number of at most 65535. Any other value decodes to 0,
//! the "unset" status.

use vstd::prelude::*;

verus! {

/// Whether `b` is an ASCII decimal digit.
pub open spec fn is_digit(b: u8) -> bool {
    0x30 <= b <= 0x39
}

/// Whether every byte of `s` is an ASCII decimal digit.
pub open spec fn all_digits(s: Seq<u8>) -> bool {
    forall|i: int| 0 <= i < s.len() ==> is_digit(#[trigger] s[i])
}

/// The number that a run of decimal digits denotes, most significant digit
/// first. The empty run denotes 0.
pub open spec fn decimal_value(s: Seq<u8>) -> nat
    decreases s.len(),
{
    if s.len() == 0 {
        0
    } else {
        decimal_value(s.drop_last()) * 10 + (s.last() - 0x30) as nat
    }
}

/// The text without its sign: one leading `+` is dropped.
pub open spec fn unsigned_part(s: Seq<u8>) -> Seq<u8> {
    if s.len() > 0 && s[0] == 0x2b {
        s.subrange(1, s.len() as int)
    } else {
        s
    }
}

/// Whether `s` is a status value: digits, at least one, denoting a `u16`.
pub open spec fn is_status_text(s: Seq<u8>) -> bool {
    let d = unsigned_part(s);
    d.len() > 0 && all_digits(d) && decimal_value(d) <= u16::MAX
}

/// The status that the header value `s` stands for: its number where it is a
/// status value, 0 otherwise.
pub open spec fn status_value(s: Seq<u8>) -> u16 {
    if is_status_text(s) {
        decimal_value(unsigned_part(s)) as u16
    } else {
        0
    }
}

/// A run of digits denotes at least what any of its prefixes denotes.
pub proof fn lemma_prefix_value(s: Seq<u8>, k: int)
    requires
        all_digits(s),
        0 <= k <= s.len(),
    ensures
        decimal_value(s.take(k)) <= decimal_value(s),
    decreases s.len() - k,
{
    if k == s.len() {
        assert(s.take(k) =~= s);
    } else {
        lemma_prefix_value(s, k + 1);
        assert(s.take(k + 1).drop_last() =~= s.take(k));
    }
}

/// Decodes the value of a status header. Returns the number it denotes, and 0
/// where the value is not a status value.
pub fn parse_status(value: &[u8]) -> (status: u16)
    ensures
        status == status_value(value@),
{
    let n: usize = value.len();
    let first: usize = if n > 0 && value[0] == 0x2b {
        1
    } else {
        0
    };
    let ghost d = unsigned_part(value@);
    if first == n {
        return 0;
    }
    let mut acc: u32 = 0;
    let mut i: usize = first;
    while i < n
        invariant
            n == value@.len(),
            first <= i <= n,
            d == value@.subrange(first as int, n as int),
            d == unsigned_part(value@),
            all_digits(d.take(i - first)),
            acc == decimal_value(d.take(i - first)),
            acc <= u16::MAX,
        decreases n - i,
    {
        let b: u8 = value[i];
        let ghost k = i - first;
        assert(d.take(k + 1).drop_last() =~= d.take(k));
        assert(d.take(k + 1).last() == b);
        if !(0x30 <= b && b <= 0x39) {
            return 0;
        }
        let next: u32 = acc * 10 + (b - 0x30) as u32;
        assert(all_digits(d.take(k + 1)));
        if next > 0xffff {
            proof {
                if all_digits(d) {
                    lemma_prefix_value(d, k + 1);
                }
            }
            return 0;
        }
        acc = next;
        i = i + 1;
    }
    assert(d.take(n - first) =~= d);
    acc as u16
}

} // verus!
