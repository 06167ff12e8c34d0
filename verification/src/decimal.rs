//! Decimal rendering and parsing of unsigned integers: the `content-length`
//! value is rendered from a byte count, and the listening port is parsed
//! from its configuration string.

use vstd::prelude::*;

verus! {

/// The decimal digits of `n`, most significant first, as ASCII bytes.
pub open spec fn dec_of(n: nat) -> Seq<u8>
    decreases n,
{
    if n < 10 {
        seq![(48 + n) as u8]
    } else {
        dec_of(n / 10) + seq![(48 + n % 10) as u8]
    }
}

/// Renders `n` in decimal, most significant digit first.
pub fn u64_to_decimal(n: u64) -> (r: Vec<u8>)
    ensures
        r@ == dec_of(n as nat),
    decreases n,
{
    if n < 10 {
        let mut v: Vec<u8> = Vec::new();
        v.push(48 + n as u8);
        assert(v@ =~= dec_of(n as nat));
        v
    } else {
        let mut v = u64_to_decimal(n / 10);
        v.push(48 + (n % 10) as u8);
        assert(v@ =~= dec_of(n as nat));
        v
    }
}

/// Is `c` an ASCII decimal digit?
pub open spec fn is_digit(c: u8) -> bool {
    48 <= c <= 57
}

/// Is every byte of `s` an ASCII decimal digit?
pub open spec fn all_digits(s: Seq<u8>) -> bool {
    forall|i: int| 0 <= i < s.len() ==> is_digit(#[trigger] s[i])
}

/// The value of the digit string `s` read in decimal.
pub open spec fn dec_val(s: Seq<u8>) -> int
    decreases s.len(),
{
    if s.len() == 0 {
        0
    } else {
        dec_val(s.drop_last()) * 10 + (s.last() - 48)
    }
}

/// What `u16::from_str` accepts: an optional leading `+`, then at least one
/// digit and nothing else, with a value that fits in sixteen bits.
pub open spec fn parse_u16_spec(s: Seq<u8>) -> Option<u16> {
    let t = if s.len() > 0 && s[0] == 43 {
        s.skip(1)
    } else {
        s
    };
    if t.len() > 0 && all_digits(t) && dec_val(t) <= 65535 {
        Some(dec_val(t) as u16)
    } else {
        None
    }
}

proof fn lemma_dec_val_nonneg(s: Seq<u8>)
    requires
        all_digits(s),
    ensures
        dec_val(s) >= 0,
    decreases s.len(),
{
    if s.len() > 0 {
        assert(all_digits(s.drop_last()));
        lemma_dec_val_nonneg(s.drop_last());
    }
}

/// A digit string is worth at least any of its prefixes.
proof fn lemma_dec_val_prefix(s: Seq<u8>, j: int)
    requires
        all_digits(s),
        0 <= j <= s.len(),
    ensures
        dec_val(s.take(j)) <= dec_val(s),
    decreases s.len() - j,
{
    if j == s.len() {
        assert(s.take(j) =~= s);
    } else {
        assert(s.take(j + 1).drop_last() =~= s.take(j));
        assert(s.take(j + 1).last() == s[j]);
        assert(forall|i: int| 0 <= i < j ==> is_digit(#[trigger] s.take(j)[i]));
        lemma_dec_val_nonneg(s.take(j));
        assert(dec_val(s.take(j + 1)) == dec_val(s.take(j)) * 10 + (s[j] - 48));
        assert(dec_val(s.take(j)) <= dec_val(s.take(j + 1)));
        lemma_dec_val_prefix(s, j + 1);
    }
}

/// Parses a decimal port number exactly as `u16::from_str` would.
pub fn parse_u16(s: &[u8]) -> (r: Option<u16>)
    ensures
        r == parse_u16_spec(s@),
{
    let start: usize = if s.len() > 0 && s[0] == 43 {
        1
    } else {
        0
    };
    let ghost t = if start == 1 { s@.skip(1) } else { s@ };
    assert(t.len() == s@.len() - start);
    assert(forall|i: int| 0 <= i < t.len() ==> t[i] == s@[i + start]);
    let n = s.len();
    if n == start {
        return None;
    }
    let mut acc: u32 = 0;
    let mut i: usize = start;
    while i < n
        invariant
            start <= i <= n,
            n == s@.len(),
            n > start,
            (start == 1) == (s@.len() > 0 && s@[0] == 43),
            start <= 1,
            t == (if start == 1 { s@.skip(1) } else { s@ }),
            t.len() == n - start,
            forall|j: int| 0 <= j < t.len() ==> t[j] == s@[j + start],
            forall|j: int| 0 <= j < i - start ==> is_digit(#[trigger] t[j]),
            acc == dec_val(t.take(i - start)),
            acc <= 65535,
        decreases n - i,
    {
        let c = s[i];
        if c < 48 || c > 57 {
            assert(!is_digit(t[i - start]));
            assert(!all_digits(t));
            return None;
        }
        assert(is_digit(t[i - start]));
        let ghost tj = t.take(i - start + 1);
        proof {
            assert(tj.drop_last() =~= t.take(i - start));
            assert(tj.last() == t[i - start]);
            assert(dec_val(tj) == acc * 10 + (c - 48));
        }
        acc = acc * 10 + (c - 48) as u32;
        if acc > 65535 {
            proof {
                assert(forall|j: int| 0 <= j < tj.len() ==> is_digit(#[trigger] tj[j]));
                if all_digits(t) {
                    lemma_dec_val_prefix(t, i - start + 1);
                    assert(dec_val(t) >= acc > 65535);
                }
            }
            return None;
        }
        i += 1;
    }
    assert(t.take(n - start) =~= t);
    assert(all_digits(t));
    Some(acc as u16)
}

} // verus!
