//! MSVC toolchain version validation: parsing the preprocessed
//! `_MSC_VER` value printed by the compiler and holding it to the
//! minimum supported version.

use vstd::prelude::*;

verus! {

/// The minimum supported MSVC compiler version (the `_MSC_VER` value of
/// Visual Studio 2022 version 17.11).
pub const MINIMUM_MSVC_VERSION: u64 = 1941;

/// ASCII whitespace as the compiler output may carry it around the
/// version number.
pub open spec fn is_space(c: char) -> bool {
    c == ' ' || c == '\t' || c == '\n' || c == '\r'
}

/// A decimal digit.
pub open spec fn is_digit(c: char) -> bool {
    '0' <= c && c <= '9'
}

/// The value of a decimal digit.
pub open spec fn digit_val(c: char) -> int {
    c as int - '0' as int
}

/// `s` with its leading whitespace removed.
pub open spec fn trim_front(s: Seq<char>) -> Seq<char>
    decreases s.len(),
{
    if s.len() > 0 && is_space(s[0]) {
        trim_front(s.drop_first())
    } else {
        s
    }
}

/// `s` with its trailing whitespace removed.
pub open spec fn trim_back(s: Seq<char>) -> Seq<char>
    decreases s.len(),
{
    if s.len() > 0 && is_space(s.last()) {
        trim_back(s.drop_last())
    } else {
        s
    }
}

/// `s` with whitespace removed from both ends.
pub open spec fn trimmed(s: Seq<char>) -> Seq<char> {
    trim_back(trim_front(s))
}

/// Every character of `s` is a decimal digit.
pub open spec fn all_digits(s: Seq<char>) -> bool {
    forall|i: int| 0 <= i < s.len() ==> is_digit(s[i])
}

/// The value of `s` read as a decimal numeral (most significant digit
/// first).
pub open spec fn decimal_val(s: Seq<char>) -> int
    decreases s.len(),
{
    if s.len() == 0 {
        0
    } else {
        decimal_val(s.drop_last()) * 10 + digit_val(s.last())
    }
}

/// `s` is a compiler version report: after trimming whitespace, a
/// non-empty run of decimal digits whose value fits in 64 bits.
pub open spec fn parses_as_version(s: Seq<char>) -> bool {
    trimmed(s).len() > 0 && all_digits(trimmed(s)) && decimal_val(trimmed(s)) <= u64::MAX
}

/// The value of a digit sequence is never negative.
proof fn lemma_decimal_nonneg(s: Seq<char>)
    requires
        all_digits(s),
    ensures
        decimal_val(s) >= 0,
    decreases s.len(),
{
    if s.len() > 0 {
        assert(all_digits(s.drop_last()));
        lemma_decimal_nonneg(s.drop_last());
    }
}

/// Extending a digit sequence never shrinks its value: a prefix reads as
/// at most the whole.
proof fn lemma_decimal_prefix_le(s: Seq<char>, k: int)
    requires
        all_digits(s),
        0 <= k <= s.len(),
    ensures
        decimal_val(s.take(k)) <= decimal_val(s),
    decreases s.len() - k,
{
    if k == s.len() {
        assert(s.take(k) =~= s);
    } else {
        lemma_decimal_prefix_le(s, k + 1);
        assert(s.take(k + 1).drop_last() =~= s.take(k));
        assert(all_digits(s.take(k))) by {
            assert(forall|i: int| 0 <= i < k ==> s.take(k)[i] == s[i]);
        }
        lemma_decimal_nonneg(s.take(k));
        assert(decimal_val(s.take(k + 1)) == decimal_val(s.take(k)) * 10 + digit_val(s[k]));
    }
}

/// Whether `c` is ASCII whitespace.
fn is_space_char(c: char) -> (r: bool)
    ensures
        r == is_space(c),
{
    c == ' ' || c == '\t' || c == '\n' || c == '\r'
}

/// Parses the compiler's preprocessed version report: the decimal value
/// of the output after trimming surrounding whitespace. Returns `None`
/// iff the trimmed output is empty, holds a non-digit, or exceeds 64
/// bits.
pub fn parse_msvc_version(out: &str) -> (r: Option<u64>)
    ensures
        r is Some <==> parses_as_version(out@),
        (r matches Some(v) ==> v == decimal_val(trimmed(out@))),
{
    let n = out.unicode_len();
    let mut a: usize = 0;
    proof {
        assert(out@.skip(0) =~= out@);
    }
    while a < n && is_space_char(out.get_char(a))
        invariant
            a <= n,
            n == out@.len(),
            trim_front(out@) == trim_front(out@.skip(a as int)),
        decreases n - a,
    {
        proof {
            assert(out@.skip(a as int).drop_first() =~= out@.skip(a as int + 1));
        }
        a = a + 1;
    }
    proof {
        if a == n {
            assert(out@.skip(a as int) =~= Seq::<char>::empty());
        }
        assert(trim_front(out@) == out@.skip(a as int));
    }
    let mut b: usize = n;
    while b > a && is_space_char(out.get_char(b - 1))
        invariant
            a <= b <= n,
            n == out@.len(),
            trim_front(out@) == out@.skip(a as int),
            trim_back(out@.skip(a as int)) == trim_back(out@.subrange(a as int, b as int)),
        decreases b,
    {
        proof {
            assert(out@.subrange(a as int, b as int).last() == out@[b - 1]);
            assert(out@.subrange(a as int, b as int).drop_last() =~= out@.subrange(
                a as int,
                b as int - 1,
            ));
        }
        b = b - 1;
    }
    proof {
        assert(trimmed(out@) == out@.subrange(a as int, b as int));
    }
    if a == b {
        proof {
            assert(trimmed(out@).len() == 0);
        }
        return None;
    }
    let ghost core = out@.subrange(a as int, b as int);
    let mut val: u64 = 0;
    let mut k: usize = a;
    while k < b
        invariant
            a <= k <= b <= n,
            n == out@.len(),
            a < b,
            core == out@.subrange(a as int, b as int),
            trimmed(out@) == core,
            all_digits(core.take(k - a)),
            val == decimal_val(core.take(k - a)),
        decreases b - k,
    {
        let c = out.get_char(k);
        proof {
            assert(core[k - a] == out@[k as int]);
        }
        if !(c >= '0' && c <= '9') {
            proof {
                assert(!all_digits(core));
                assert(!parses_as_version(out@));
            }
            return None;
        }
        let d: u64 = ((c as u32) - ('0' as u32)) as u64;
        proof {
            assert(d == digit_val(c));
            assert(core.take(k - a + 1).drop_last() =~= core.take(k - a));
            assert(all_digits(core.take(k - a + 1))) by {
                assert(forall|i: int|
                    0 <= i < k - a + 1 ==> core.take(k - a + 1)[i] == core[i]);
            }
            assert(decimal_val(core.take(k - a + 1)) == decimal_val(core.take(k - a)) * 10
                + digit_val(c));
        }
        let scaled = match val.checked_mul(10) {
            Some(m) => m,
            None => {
                proof {
                    lemma_decimal_nonneg(core.take(k - a + 1));
                    if all_digits(core) {
                        lemma_decimal_prefix_le(core, k - a + 1);
                    }
                    assert(!parses_as_version(out@));
                }
                return None;
            },
        };
        let next = match scaled.checked_add(d) {
            Some(m) => m,
            None => {
                proof {
                    if all_digits(core) {
                        lemma_decimal_prefix_le(core, k - a + 1);
                    }
                    assert(!parses_as_version(out@));
                }
                return None;
            },
        };
        val = next;
        k = k + 1;
    }
    proof {
        assert(core.take(b - a) =~= core);
        assert(parses_as_version(out@));
    }
    Some(val)
}

/// Whether a parsed compiler version meets the minimum supported
/// version.
pub fn msvc_version_supported(version: u64) -> (r: bool)
    ensures
        r == (version >= MINIMUM_MSVC_VERSION),
{
    version >= MINIMUM_MSVC_VERSION
}

} // verus!
