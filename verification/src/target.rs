//! Target-triple resolution: normalization, the allow-list of supported
//! platforms, and selection of the C-runtime archive variant.

use vstd::prelude::*;
use vstd::string::StringExecFns;
use crate::error::BuildError;

verus! {

/// Which C-runtime linkage variant of a release archive to use.
///
/// Only targets with the MSVC-style ABI distinguish the two; every other
/// ABI always uses the default (static-runtime) archive.
#[derive(Clone, Copy, Debug, PartialEq, Eq, Structural)]
pub enum CrtVariant {
    /// The default archive: the C runtime is linked statically.
    StaticRuntime,
    /// The archive built against the dynamically loaded C runtime.
    DynamicRuntime,
}

/// A successfully resolved build target: the canonical platform string
/// (one of the supported triples) and the archive variant to download.
#[derive(Debug)]
pub struct ResolvedTarget {
    /// The normalized `arch-os-abi` platform string.
    pub platform: String,
    /// The C-runtime linkage variant of the archive.
    pub variant: CrtVariant,
}

/// The operating-system name after vendor aliasing: the `apple` vendor's
/// `darwin` is published under the canonical name `macos`.
pub open spec fn normalized_os(vendor: Seq<char>, os: Seq<char>) -> Seq<char> {
    if vendor == "apple"@ && os == "darwin"@ {
        "macos"@
    } else {
        os
    }
}

/// The ABI name after normalization: an absent/empty ABI is the
/// sentinel `none`.
pub open spec fn normalized_abi(abi: Seq<char>) -> Seq<char> {
    if abi.len() == 0 {
        "none"@
    } else {
        abi
    }
}

/// The normalized `arch-os-abi` triple that is looked up in the
/// allow-list of supported platforms.
pub open spec fn triple_of(arch: Seq<char>, vendor: Seq<char>, os: Seq<char>, abi: Seq<char>) -> Seq<
    char,
> {
    arch + "-"@ + normalized_os(vendor, os) + "-"@ + normalized_abi(abi)
}

/// The fixed allow-list: the platforms for which a prebuilt archive is
/// published.
pub open spec fn is_supported_triple(t: Seq<char>) -> bool {
    ||| t == "x86_64-linux-gnu"@
    ||| t == "x86_64-linux-musl"@
    ||| t == "aarch64-linux-gnu"@
    ||| t == "aarch64-linux-musl"@
    ||| t == "x86_64-windows-gnu"@
    ||| t == "x86_64-windows-msvc"@
    ||| t == "aarch64-windows-gnu"@
    ||| t == "x86_64-macos-none"@
    ||| t == "aarch64-macos-none"@
}

/// The archive variant selected by the ABI and the static-CRT flag:
/// an MSVC-style ABI without the static-CRT flag takes the
/// dynamic-runtime archive; everything else takes the default.
pub open spec fn crt_variant_of(abi: Seq<char>, static_crt: bool) -> CrtVariant {
    if abi == "msvc"@ && !static_crt {
        CrtVariant::DynamicRuntime
    } else {
        CrtVariant::StaticRuntime
    }
}

/// String equality on character sequences.
fn str_eq(a: &str, b: &str) -> (r: bool)
    ensures
        r == (a@ == b@),
{
    let sa = String::from_str(a);
    let sb = String::from_str(b);
    sa == sb
}

/// Whether `t` is in the allow-list of supported platform strings.
pub fn is_supported(t: &str) -> (r: bool)
    ensures
        r == is_supported_triple(t@),
{
    str_eq(t, "x86_64-linux-gnu") || str_eq(t, "x86_64-linux-musl") || str_eq(
        t,
        "aarch64-linux-gnu",
    ) || str_eq(t, "aarch64-linux-musl") || str_eq(t, "x86_64-windows-gnu") || str_eq(
        t,
        "x86_64-windows-msvc",
    ) || str_eq(t, "aarch64-windows-gnu") || str_eq(t, "x86_64-macos-none") || str_eq(
        t,
        "aarch64-macos-none",
    )
}

/// Maps build-target metadata to the canonical platform string and the
/// archive variant, or fails with [`BuildError::UnsupportedTarget`]
/// naming the triple that missed the allow-list. Pure: no I/O is
/// performed on any path, supported or not.
pub fn resolve_target(arch: &str, vendor: &str, os: &str, abi: &str, static_crt: bool) -> (r:
    Result<ResolvedTarget, BuildError>)
    ensures
        r is Ok <==> is_supported_triple(triple_of(arch@, vendor@, os@, abi@)),
        (r matches Ok(t) ==> {
            &&& t.platform@ == triple_of(arch@, vendor@, os@, abi@)
            &&& t.variant == crt_variant_of(normalized_abi(abi@), static_crt)
        }),
        (r matches Err(e) ==> e matches BuildError::UnsupportedTarget { triple } && triple@
            == triple_of(arch@, vendor@, os@, abi@)),
{
    let os_n: &str = if str_eq(vendor, "apple") && str_eq(os, "darwin") {
        "macos"
    } else {
        os
    };
    let abi_n: &str = if abi.is_empty() {
        "none"
    } else {
        abi
    };
    let mut triple = String::from_str(arch);
    triple.append("-");
    triple.append(os_n);
    triple.append("-");
    triple.append(abi_n);
    let variant = if str_eq(abi_n, "msvc") && !static_crt {
        CrtVariant::DynamicRuntime
    } else {
        CrtVariant::StaticRuntime
    };
    if is_supported(triple.as_str()) {
        Ok(ResolvedTarget { platform: triple, variant })
    } else {
        Err(BuildError::UnsupportedTarget { triple })
    }
}

/// `needle` occurs in `haystack` starting at position `i`.
pub open spec fn contains_at(haystack: Seq<char>, needle: Seq<char>, i: int) -> bool {
    0 <= i && i + needle.len() <= haystack.len() && haystack.subrange(i, i + needle.len())
        == needle
}

/// `needle` occurs somewhere in `haystack`.
pub open spec fn contains_seq(haystack: Seq<char>, needle: Seq<char>) -> bool {
    exists|i: int| contains_at(haystack, needle, i)
}

/// Whether `needle` occurs as a contiguous substring of `haystack`.
fn str_contains(haystack: &str, needle: &str) -> (r: bool)
    ensures
        r == contains_seq(haystack@, needle@),
{
    let hl = haystack.unicode_len();
    let nl = needle.unicode_len();
    if nl > hl {
        proof {
            assert(forall|t: int| !contains_at(haystack@, needle@, t));
        }
        return false;
    }
    let mut i: usize = 0;
    while i <= hl - nl
        invariant
            nl <= hl,
            hl == haystack@.len(),
            nl == needle@.len(),
            i <= hl - nl + 1,
            forall|t: int| 0 <= t < i ==> !contains_at(haystack@, needle@, t),
        decreases hl - nl + 1 - i,
    {
        let mut j: usize = 0;
        let mut matched = true;
        while j < nl
            invariant
                nl <= hl,
                hl == haystack@.len(),
                nl == needle@.len(),
                i + nl <= hl,
                j <= nl,
                matched <==> (forall|t: int|
                    0 <= t < j ==> haystack@[i + t] == needle@[t]),
            decreases nl - j,
        {
            let c1 = haystack.get_char(i + j);
            let c2 = needle.get_char(j);
            if c1 != c2 {
                matched = false;
            }
            j = j + 1;
        }
        if matched {
            proof {
                assert(haystack@.subrange(i as int, i as int + nl as int) =~= needle@);
                assert(contains_at(haystack@, needle@, i as int));
            }
            return true;
        }
        proof {
            assert(!contains_at(haystack@, needle@, i as int)) by {
                if contains_at(haystack@, needle@, i as int) {
                    let t = choose|t: int|
                        0 <= t < nl && haystack@[i + t] != needle@[t];
                    assert(haystack@.subrange(i as int, i as int + nl as int)[t] == needle@[t]);
                }
            }
        }
        i = i + 1;
    }
    proof {
        assert(forall|t: int| !contains_at(haystack@, needle@, t));
    }
    false
}

/// The compiler flag whose presence requests a statically linked C
/// runtime.
pub open spec fn static_crt_request() -> Seq<char> {
    "target-feature=+crt-static"@
}

/// Whether the (possibly absent) encoded compiler flags request a
/// statically linked C runtime.
pub fn static_crt_flag(flags: Option<&str>) -> (r: bool)
    ensures
        r == (flags matches Some(f) && contains_seq(f@, static_crt_request())),
{
    match flags {
        Some(f) => str_contains(f, "target-feature=+crt-static"),
        None => false,
    }
}

/// The text of an optional metadata value; absent means empty.
pub open spec fn opt_text(o: Option<&str>) -> Seq<char> {
    match o {
        Option::Some(s) => s@,
        Option::None => Seq::<char>::empty(),
    }
}

/// [`resolve_target`] over metadata as the build system hands it over:
/// architecture and operating system are required, vendor and ABI may be
/// absent (an absent vendor aliases nothing; an absent ABI is the
/// sentinel `none`).
pub fn resolve_build_target(
    arch: Option<&str>,
    vendor: Option<&str>,
    os: Option<&str>,
    abi: Option<&str>,
    static_crt: bool,
) -> (r: Result<ResolvedTarget, BuildError>)
    ensures
        (arch is None || os is None) ==> (r matches Err(e) && e is EnvironmentMissing),
        (arch is Some && os is Some) ==> {
            &&& r is Ok <==> is_supported_triple(
                triple_of(arch->0@, opt_text(vendor), os->0@, opt_text(abi)),
            )
            &&& (r matches Ok(t) ==> t.platform@ == triple_of(
                arch->0@,
                opt_text(vendor),
                os->0@,
                opt_text(abi),
            ) && t.variant == crt_variant_of(normalized_abi(opt_text(abi)), static_crt))
            &&& (r matches Err(e) ==> e matches BuildError::UnsupportedTarget { triple } && triple@
                == triple_of(arch->0@, opt_text(vendor), os->0@, opt_text(abi)))
        },
{
    match (arch, os) {
        (Some(a), Some(o)) => {
            let vendor_s: &str = match vendor {
                Some(v) => v,
                None => "",
            };
            let abi_s: &str = match abi {
                Some(x) => x,
                None => "",
            };
            proof {
                reveal_strlit("");
                assert(""@ =~= Seq::<char>::empty());
                assert(vendor_s@ == opt_text(vendor));
                assert(abi_s@ == opt_text(abi));
            }
            resolve_target(a, vendor_s, o, abi_s, static_crt)
        },
        _ => Err(BuildError::EnvironmentMissing),
    }
}

} // verus!

