//! Build-time provisioning of a prebuilt DXC (DirectX shader compiler)
//! static library.
//!
//! The library resolves a build target (architecture, operating system,
//! ABI, C-runtime linkage) to one of a fixed set of supported platform
//! strings, composes the download URL of the matching release archive,
//! and plans the download and extraction of that archive against a local
//! cache keyed by a hash of the URL. Downloads and extractions are
//! idempotent: a cached non-empty archive is never fetched again, and a
//! populated cache directory is never re-extracted. A failed transfer
//! leaves no partial archive behind.
//!
//! The actual network transfer and archive unpacking are performed by an
//! enclosing build script; this crate makes every decision (what to
//! fetch, whether a cached copy is valid, how to react to a failure) and
//! states those decisions as verified contracts over an explicit model
//! of the cache ([`store::ArtifactStore`]).
//!
//! Note: a cached archive is trusted by size alone — no checksum is
//! verified. This favours build speed over integrity checking; a corrupt
//! but non-empty download is not re-fetched.

pub mod error;
pub mod msvc;
pub mod store;
pub mod target;
pub mod url;
