//! Octal permission strings: one or more octal digits, of which only the
//! permission bits (the low nine) are kept.
use vstd::prelude::*;
use vstd::string::*;

verus! {

/// Permission bits used when a declaration gives no mode.
pub const DEFAULT_MODE: u16 = 0o755;

pub open spec fn is_octal_digit(c: char) -> bool {
    '0' <= c && c <= '7'
}

pub open spec fn all_octal_digits(s: Seq<char>) -> bool {
    forall|k: int| 0 <= k < s.len() ==> is_octal_digit(#[trigger] s[k])
}

/// The number that a string of octal digits denotes.
pub open spec fn octal_value(s: Seq<char>) -> int
    decreases s.len(),
{
    if s.len() == 0 {
        0
    } else {
        octal_value(s.drop_last()) * 8 + (s.last() as u32 - '0' as u32)
    }
}

/// The permission bits that a mode string gives: its value with everything
/// above the low nine bits dropped, or `None` where it is empty or holds
/// anything but octal digits.
pub open spec fn octal_mode(s: Seq<char>) -> Option<u16> {
    if s.len() > 0 && all_octal_digits(s) {
        Some((octal_value(s) % 512) as u16)
    } else {
        None
    }
}

proof fn lemma_mod_step(a: int, d: int)
    requires
        0 <= a,
    ensures
        ((a % 512) * 8 + d) % 512 == (a * 8 + d) % 512,
{
    let q = a / 512;
    let r = a % 512;
    vstd::arithmetic::div_mod::lemma_fundamental_div_mod(a, 512);
    assert(a * 8 + d == 512 * (8 * q) + (r * 8 + d)) by (nonlinear_arith)
        requires
            a == 512 * q + r,
    ;
    vstd::arithmetic::div_mod::lemma_mod_multiples_vanish(8 * q, r * 8 + d, 512);
}

proof fn lemma_octal_value_nonneg(s: Seq<char>)
    requires
        all_octal_digits(s),
    ensures
        octal_value(s) >= 0,
    decreases s.len(),
{
    if s.len() > 0 {
        let p = s.drop_last();
        assert(all_octal_digits(p)) by {
            assert forall|j: int| 0 <= j < p.len() implies is_octal_digit(#[trigger] p[j]) by {
                assert(p[j] == s[j]);
            }
        }
        lemma_octal_value_nonneg(p);
    }
}

/// Parses an octal mode string and keeps its permission bits; `None` where
/// the string is empty or holds anything but octal digits.
pub fn parse_octal_mode(s: &str) -> (r: Option<u16>)
    ensures
        r == octal_mode(s@),
{
    let n = s.unicode_len();
    if n == 0 {
        return None;
    }
    let mut acc: u16 = 0;
    let mut k: usize = 0;
    while k < n
        invariant
            n == s@.len(),
            k <= n,
            all_octal_digits(s@.subrange(0, k as int)),
            acc == octal_value(s@.subrange(0, k as int)) % 512,
        decreases n - k,
    {
        let c = s.get_char(k);
        if c < '0' || c > '7' {
            assert(!is_octal_digit(s@[k as int]));
            return None;
        }
        let ghost before = s@.subrange(0, k as int);
        let ghost prefix = s@.subrange(0, k + 1);
        assert(prefix.drop_last() =~= before);
        assert(all_octal_digits(prefix)) by {
            assert forall|j: int| 0 <= j < prefix.len() implies is_octal_digit(#[trigger] prefix[j]) by {
                if j < k {
                    assert(prefix[j] == before[j]);
                }
            }
        }
        proof {
            lemma_octal_value_nonneg(before);
            lemma_mod_step(octal_value(before), (c as u32 - '0' as u32) as int);
        }
        acc = (acc * 8 + (c as u16 - '0' as u16)) % 512;
        k += 1;
    }
    assert(s@.subrange(0, n as int) =~= s@);
    Some(acc)
}

} // verus!
