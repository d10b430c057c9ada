//! Download-URL composition and cache keying.
//!
//! The URL of a release archive is a pure function of the resolved
//! platform, the archive variant and the release version. The cache
//! entry for a download is keyed by a 64-bit FNV-1a hash of the fully
//! resolved URL, rendered as sixteen lowercase hex digits.

use vstd::prelude::*;
use vstd::string::StrSliceExecFns;
use vstd::string::StringExecFns;
use crate::target::CrtVariant;

verus! {

/// The base URL of the release downloads.
pub open spec fn base_url_text() -> Seq<char> {
    "https://github.com/DouglasDwyer/mach-dxcompiler/releases"@
}

/// The version identifier of the bundled release; changes only when the
/// prebuilt native library is upgraded.
pub open spec fn release_version_text() -> Seq<char> {
    "2024.11.22+284d956.1"@
}

/// The base URL of the release downloads.
pub fn base_url() -> (u: String)
    ensures
        u@ == base_url_text(),
{
    String::from_str("https://github.com/DouglasDwyer/mach-dxcompiler/releases")
}

/// The version identifier of the bundled release.
pub fn release_version() -> (v: String)
    ensures
        v@ == release_version_text(),
{
    String::from_str("2024.11.22+284d956.1")
}

/// The archive-filename segment that encodes the C-runtime variant.
pub open spec fn variant_suffix(v: CrtVariant) -> Seq<char> {
    match v {
        CrtVariant::StaticRuntime => "lib"@,
        CrtVariant::DynamicRuntime => "Dynamic_lib"@,
    }
}

/// The fully resolved download URL for one platform, variant and
/// release: `{base}/download/{release}/{platform}_ReleaseFast_{variant}.tar.gz`.
pub open spec fn url_text(platform: Seq<char>, variant: CrtVariant, release: Seq<char>) -> Seq<
    char,
> {
    base_url_text() + "/download/"@ + release + "/"@ + platform + "_ReleaseFast_"@
        + variant_suffix(variant) + ".tar.gz"@
}

/// Composes the download URL for a resolved platform. Pure string
/// composition: no I/O.
pub fn build_url(platform: &str, variant: CrtVariant, release: &str) -> (u: String)
    ensures
        u@ == url_text(platform@, variant, release@),
{
    let mut u = base_url();
    u.append("/download/");
    u.append(release);
    u.append("/");
    u.append(platform);
    u.append("_ReleaseFast_");
    match variant {
        CrtVariant::StaticRuntime => u.append("lib"),
        CrtVariant::DynamicRuntime => u.append("Dynamic_lib"),
    }
    u.append(".tar.gz");
    u
}

/// The FNV-1a offset basis (64-bit).
pub const FNV_OFFSET_BASIS: u64 = 0xcbf29ce484222325;

/// The FNV-1a prime (64-bit).
pub const FNV_PRIME: u64 = 0x100000001b3;

/// One FNV-1a round: fold a character's scalar value into the hash.
pub open spec fn fnv1a_step(h: u64, c: char) -> u64 {
    vstd::wrapping::u64_specs::wrapping_mul(h ^ ((c as u32) as u64), FNV_PRIME)
}

/// The 64-bit FNV-1a hash of a character sequence.
pub open spec fn fnv1a_of(s: Seq<char>) -> u64
    decreases s.len(),
{
    if s.len() == 0 {
        FNV_OFFSET_BASIS
    } else {
        fnv1a_step(fnv1a_of(s.drop_last()), s.last())
    }
}

/// The cache key of a download: the FNV-1a hash of its URL.
pub fn cache_key(url: &str) -> (k: u64)
    ensures
        k == fnv1a_of(url@),
{
    let n = url.unicode_len();
    let mut h: u64 = FNV_OFFSET_BASIS;
    let mut i: usize = 0;
    while i < n
        invariant
            i <= n,
            n == url@.len(),
            h == fnv1a_of(url@.take(i as int)),
        decreases n - i,
    {
        let c = url.get_char(i);
        h = (h ^ ((c as u32) as u64)).wrapping_mul(FNV_PRIME);
        i = i + 1;
        proof {
            assert(url@.take(i as int).drop_last() =~= url@.take(i as int - 1));
        }
    }
    proof {
        assert(url@.take(n as int) =~= url@);
    }
    h
}

/// The hex digit (lowercase) for a value below sixteen.
pub open spec fn hex_digit(d: int) -> char {
    "0123456789abcdef"@[d]
}

/// The nibble of `k` rendered at position `i` (most significant first).
pub open spec fn nibble(k: u64, i: int) -> u64 {
    (k >> (((15 - i) * 4) as u64)) & 0xf
}

/// A 64-bit cache key rendered as sixteen lowercase hex digits, most
/// significant nibble first.
pub open spec fn hex_of(k: u64) -> Seq<char> {
    Seq::new(16, |i: int| hex_digit(nibble(k, i) as int))
}

/// The name of the cache directory for a cache key: its sixteen hex
/// digits.
pub fn cache_dir_name(k: u64) -> (s: String)
    ensures
        s@ == hex_of(k),
{
    let digits = "0123456789abcdef";
    proof {
        reveal_strlit("0123456789abcdef");
    }
    let mut s = String::new();
    let mut i: usize = 0;
    while i < 16
        invariant
            i <= 16,
            digits@ =~= "0123456789abcdef"@,
            digits@.len() == 16,
            s@ =~= hex_of(k).take(i as int),
        decreases 16 - i,
    {
        let shift: u64 = ((15 - i) * 4) as u64;
        let d: usize = ((k >> shift) & 0xf) as usize;
        proof {
            assert((k >> shift) & 0xf < 16) by (bit_vector);
            assert(d == nibble(k, i as int));
        }
        let digit = digits.substring_char(d, d + 1);
        s.append(digit);
        proof {
            assert(digit@ =~= seq![hex_digit(d as int)]);
            assert(s@ =~= hex_of(k).take(i as int + 1));
        }
        i = i + 1;
    }
    proof {
        assert(hex_of(k).take(16) =~= hex_of(k));
    }
    s
}

} // verus!
