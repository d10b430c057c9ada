//! The artifact cache and the provisioning pipeline.
//!
//! [`ArtifactStore`] models the cache entry of one resolved download: the
//! downloaded archive at its destination path, the extracted cache
//! directory, and how many transfers and extractions have been performed.
//! The external transfer and decompression tools are represented by their
//! observable outcomes ([`TransferOutcome`], [`ExtractOutcome`]); the
//! enclosing build script runs the tools and hands the outcome over, and
//! every decision — whether to run them at all, and how to react to a
//! failure — is made and verified here.

use vstd::prelude::*;
use vstd::string::StringExecFns;
use crate::error::BuildError;
use crate::target::{normalized_abi, opt_text, triple_of, crt_variant_of, is_supported_triple};
use crate::url::{url_text, release_version_text, fnv1a_of, hex_of};
use crate::url::{build_url, cache_key, cache_dir_name, release_version};

verus! {

/// The archive file at the download destination.
#[derive(Clone, Copy, Debug, PartialEq, Eq, Structural)]
pub enum ArchiveState {
    /// No file exists at the destination path.
    Missing,
    /// A file of `size` bytes exists at the destination path.
    Present { size: u64 },
}

/// The cache entry of one resolved download URL.
#[derive(Clone, Copy, Debug, PartialEq, Eq, Structural)]
pub struct ArtifactStore {
    /// The downloaded archive at its destination path.
    pub archive: ArchiveState,
    /// How many entries the extracted cache directory holds; zero means
    /// the directory is absent or empty.
    pub entries: u64,
    /// How many network transfers have been performed.
    pub transfers: u64,
    /// How many extractions have been performed.
    pub extractions: u64,
}

/// A cache entry holds a valid prior download iff the archive file
/// exists and is non-empty; a zero-length file is never treated as
/// cached.
pub open spec fn archive_cached(s: ArtifactStore) -> bool {
    s.archive matches ArchiveState::Present { size } && size > 0
}

/// The cache directory is populated iff it contains at least one entry.
pub open spec fn dir_populated(s: ArtifactStore) -> bool {
    s.entries > 0
}

/// What the external transfer tool did, as observed by the build script.
#[derive(Clone, Copy, Debug, PartialEq, Eq, Structural)]
pub enum TransferOutcome {
    /// The transfer exited successfully, leaving `size` bytes at the
    /// destination path.
    Delivered { size: u64 },
    /// The transfer could not be started or exited with a non-success
    /// status; a partial file may be left at the destination.
    TransferFailed,
}

/// What the external decompression tool did, as observed by the build
/// script.
#[derive(Clone, Copy, Debug, PartialEq, Eq, Structural)]
pub enum ExtractOutcome {
    /// Decompression exited successfully, placing `entries` entries in
    /// the output directory.
    Unpacked { entries: u64 },
    /// Decompression could not be started or exited with a non-success
    /// status; partial output may be left in the directory.
    UnpackFailed,
}

/// Whether a download must be performed: the destination holds no valid
/// (non-empty) prior download.
pub fn needs_transfer(store: &ArtifactStore) -> (r: bool)
    ensures
        r == !archive_cached(*store),
{
    match store.archive {
        ArchiveState::Present { size } => size == 0,
        ArchiveState::Missing => true,
    }
}

/// Whether an extraction must be performed: the cache directory holds no
/// entry yet.
pub fn needs_extraction(store: &ArtifactStore) -> (r: bool)
    ensures
        r == !dir_populated(*store),
{
    store.entries == 0
}

/// The state and result of a fetch: a valid cached archive is kept as it
/// is with no transfer; otherwise one transfer runs, a delivered archive
/// is recorded, and a failed transfer leaves the destination removed and
/// the fetch failed.
pub open spec fn fetch_spec(s: ArtifactStore, o: TransferOutcome) -> (ArtifactStore, Result<
    (),
    BuildError,
>) {
    if archive_cached(s) {
        (s, Result::Ok(()))
    } else {
        match o {
            TransferOutcome::Delivered { size } => (
                ArtifactStore {
                    archive: ArchiveState::Present { size },
                    transfers: (s.transfers + 1) as u64,
                    ..s
                },
                Result::Ok(()),
            ),
            TransferOutcome::TransferFailed => (
                ArtifactStore {
                    archive: ArchiveState::Missing,
                    transfers: (s.transfers + 1) as u64,
                    ..s
                },
                Result::Err(BuildError::DownloadFailed),
            ),
        }
    }
}

/// Ensures the archive is present at its destination. Idempotent: a
/// valid (non-empty) prior download is a no-op and costs no transfer.
/// On a failed transfer the partial download is removed before the
/// error surfaces, so the destination never holds a corrupt file.
pub fn fetch(store: &mut ArtifactStore, outcome: TransferOutcome) -> (r: Result<(), BuildError>)
    requires
        old(store).transfers < u64::MAX,
    ensures
        *final(store) == fetch_spec(*old(store), outcome).0,
        r == fetch_spec(*old(store), outcome).1,
        archive_cached(*old(store)) ==> (*final(store) == *old(store) && r is Ok),
        !archive_cached(*old(store)) ==> final(store).transfers == old(store).transfers + 1,
        !archive_cached(*old(store)) ==> (outcome matches TransferOutcome::Delivered { size }
            ==> (final(store).archive == ArchiveState::Present { size } && r is Ok)),
        (!archive_cached(*old(store)) && outcome is TransferFailed) ==> (final(store).archive
            is Missing && (r matches Err(e) && e is DownloadFailed)),
{
    if needs_transfer(store) {
        store.transfers = store.transfers + 1;
        match outcome {
            TransferOutcome::Delivered { size } => {
                store.archive = ArchiveState::Present { size };
                Ok(())
            },
            TransferOutcome::TransferFailed => {
                store.archive = ArchiveState::Missing;
                Err(BuildError::DownloadFailed)
            },
        }
    } else {
        Ok(())
    }
}

/// The state and result of an extraction: a populated cache directory is
/// kept as it is with no extraction; otherwise one extraction runs, its
/// entries are recorded, and a failed extraction leaves the directory
/// removed (delete-then-fail) and the extraction failed.
pub open spec fn extract_spec(s: ArtifactStore, o: ExtractOutcome) -> (ArtifactStore, Result<
    (),
    BuildError,
>) {
    if dir_populated(s) {
        (s, Result::Ok(()))
    } else {
        match o {
            ExtractOutcome::Unpacked { entries } => (
                ArtifactStore { entries, extractions: (s.extractions + 1) as u64, ..s },
                Result::Ok(()),
            ),
            ExtractOutcome::UnpackFailed => (
                ArtifactStore { entries: 0, extractions: (s.extractions + 1) as u64, ..s },
                Result::Err(BuildError::ExtractFailed),
            ),
        }
    }
}

/// Ensures the archive is extracted into the cache directory.
/// Idempotent: a populated directory is a no-op and costs no
/// extraction. On a failed extraction the partial output is removed
/// before the error surfaces.
pub fn extract(store: &mut ArtifactStore, outcome: ExtractOutcome) -> (r: Result<(), BuildError>)
    requires
        old(store).extractions < u64::MAX,
    ensures
        *final(store) == extract_spec(*old(store), outcome).0,
        r == extract_spec(*old(store), outcome).1,
        dir_populated(*old(store)) ==> (*final(store) == *old(store) && r is Ok),
        !dir_populated(*old(store)) ==> final(store).extractions == old(store).extractions + 1,
        !dir_populated(*old(store)) ==> (outcome matches ExtractOutcome::Unpacked { entries }
            ==> (final(store).entries == entries && r is Ok)),
        (!dir_populated(*old(store)) && outcome is UnpackFailed) ==> (final(store).entries == 0
            && (r matches Err(e) && e is ExtractFailed)),
{
    if needs_extraction(store) {
        store.extractions = store.extractions + 1;
        match outcome {
            ExtractOutcome::Unpacked { entries } => {
                store.entries = entries;
                Ok(())
            },
            ExtractOutcome::UnpackFailed => {
                store.entries = 0;
                Err(BuildError::ExtractFailed)
            },
        }
    } else {
        Ok(())
    }
}

/// Fetching is idempotent. After a fetch that succeeded and left a valid
/// (non-empty) archive, a second fetch against the same destination is a
/// no-op: it changes nothing, succeeds, and performs no further
/// transfer — so a pair of calls whose first member transfers performs
/// exactly one transfer in total.
pub proof fn lemma_fetch_idempotent(s: ArtifactStore, o1: TransferOutcome, o2: TransferOutcome)
    requires
        s.transfers < u64::MAX,
        fetch_spec(s, o1).1 is Ok,
        !archive_cached(s) ==> (o1 matches TransferOutcome::Delivered { size } ==> size > 0),
    ensures
        fetch_spec(fetch_spec(s, o1).0, o2).0 == fetch_spec(s, o1).0,
        fetch_spec(fetch_spec(s, o1).0, o2).1 is Ok,
        !archive_cached(s) ==> fetch_spec(fetch_spec(s, o1).0, o2).0.transfers == s.transfers + 1,
        archive_cached(s) ==> fetch_spec(fetch_spec(s, o1).0, o2).0.transfers == s.transfers,
{
}

/// Extraction is idempotent. After an extraction that succeeded and left
/// a populated directory, a second extraction against that directory is
/// a no-op: it changes nothing, succeeds, and performs no further
/// extraction — so a pair of calls whose first member extracts performs
/// exactly one extraction in total.
pub proof fn lemma_extract_idempotent(s: ArtifactStore, o1: ExtractOutcome, o2: ExtractOutcome)
    requires
        s.extractions < u64::MAX,
        extract_spec(s, o1).1 is Ok,
        !dir_populated(s) ==> (o1 matches ExtractOutcome::Unpacked { entries } ==> entries > 0),
    ensures
        extract_spec(extract_spec(s, o1).0, o2).0 == extract_spec(s, o1).0,
        extract_spec(extract_spec(s, o1).0, o2).1 is Ok,
        !dir_populated(s) ==> extract_spec(extract_spec(s, o1).0, o2).0.extractions
            == s.extractions + 1,
        dir_populated(s) ==> extract_spec(extract_spec(s, o1).0, o2).0.extractions
            == s.extractions,
{
}

/// The two linker directives that conclude a successful provisioning:
/// the static library to link by name, and the directory to search for
/// it.
#[derive(Debug)]
pub struct LinkDirectives {
    /// The name of the static library to link.
    pub lib_name: String,
    /// The directory to search for native libraries: the cache
    /// directory of the extracted archive.
    pub search_dir: String,
}

/// Produces the linker directives for a successful provisioning run.
pub fn emit_link_directives(lib_name: &str, search_dir: &str) -> (d: LinkDirectives)
    ensures
        d.lib_name@ == lib_name@,
        d.search_dir@ == search_dir@,
{
    LinkDirectives {
        lib_name: String::from_str(lib_name),
        search_dir: String::from_str(search_dir),
    }
}

/// The fully resolved download URL for raw build-target metadata.
pub open spec fn resolved_url(
    arch: Seq<char>,
    vendor: Seq<char>,
    os: Seq<char>,
    abi: Seq<char>,
    static_crt: bool,
) -> Seq<char> {
    url_text(
        triple_of(arch, vendor, os, abi),
        crt_variant_of(normalized_abi(abi), static_crt),
        release_version_text(),
    )
}

/// The whole provisioning pipeline for one build invocation: resolve the
/// target, compose the URL, ensure the archive is downloaded and
/// extracted into the cache directory keyed by the URL's hash, and
/// produce the linker directives naming that directory.
///
/// An unsupported or unresolvable target fails before any transfer or
/// extraction and leaves the store untouched. Every failure is fatal:
/// the directives exist only on the fully successful path.
pub fn provision(
    arch: Option<&str>,
    vendor: Option<&str>,
    os: Option<&str>,
    abi: Option<&str>,
    static_crt: bool,
    store: &mut ArtifactStore,
    transfer: TransferOutcome,
    extraction: ExtractOutcome,
) -> (r: Result<LinkDirectives, BuildError>)
    requires
        old(store).transfers < u64::MAX,
        old(store).extractions < u64::MAX,
    ensures
        (arch is None || os is None) ==> (*final(store) == *old(store) && (r matches Err(e) && e
            is EnvironmentMissing)),
        (arch is Some && os is Some && !is_supported_triple(
            triple_of(arch->0@, opt_text(vendor), os->0@, opt_text(abi)),
        )) ==> (*final(store) == *old(store) && (r matches Err(e)
            && e matches BuildError::UnsupportedTarget { triple } && triple@ == triple_of(
            arch->0@,
            opt_text(vendor),
            os->0@,
            opt_text(abi),
        ))),
        (arch is Some && os is Some && is_supported_triple(
            triple_of(arch->0@, opt_text(vendor), os->0@, opt_text(abi)),
        )) ==> ({
            let s1 = fetch_spec(*old(store), transfer).0;
            let f = fetch_spec(*old(store), transfer).1;
            &&& (f is Err ==> (*final(store) == s1 && (r matches Err(e) && e is DownloadFailed)))
            &&& (f is Ok ==> ({
                let s2 = extract_spec(s1, extraction).0;
                let x = extract_spec(s1, extraction).1;
                &&& *final(store) == s2
                &&& (x is Err ==> (r matches Err(e) && e is ExtractFailed))
                &&& (x is Ok ==> (r matches Ok(d) && d.lib_name@ == "machdxcompiler"@
                    && d.search_dir@ == hex_of(
                    fnv1a_of(
                        resolved_url(arch->0@, opt_text(vendor), os->0@, opt_text(abi), static_crt),
                    ),
                )))
            }))
        }),
{
    let resolved = match crate::target::resolve_build_target(arch, vendor, os, abi, static_crt) {
        Ok(t) => t,
        Err(e) => {
            return Err(e);
        },
    };
    let release = release_version();
    let url = build_url(resolved.platform.as_str(), resolved.variant, release.as_str());
    let key = cache_key(url.as_str());
    match fetch(store, transfer) {
        Ok(_) => {},
        Err(e) => {
            return Err(e);
        },
    }
    match extract(store, extraction) {
        Ok(_) => {},
        Err(e) => {
            return Err(e);
        },
    }
    let dir = cache_dir_name(key);
    Ok(emit_link_directives("machdxcompiler", dir.as_str()))
}

} // verus!
