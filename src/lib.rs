//! Resolution of git pins: follow a branch, or follow the latest release tag of a repository,
//! and decide what is to be hashed for the resolved version.
//!
//! - [`version`]: lenient semantic versions as plain values; parsing and order come from
//!   `lenient_semver_parser` and `lenient_version`.
//! - [`release`]: the choice of the latest release among tags (prefix, pre-releases, bound).
//! - [`remote`]: reading `git ls-remote` output, exact ref lookup, default branch, tag names.
//! - [`revision`]: validated git revisions.
//! - [`urls`] and [`repository`]: hosters and the URLs they offer, built with the `url` crate.
//! - [`pin`]: branch and release pins, their updates (with monotonicity) and fetch plans.
//! - [`text`]: verified helpers on text.

pub mod text;
pub mod urls;
pub mod version;
pub mod release;
pub mod repository;
pub mod remote;
pub mod revision;
pub mod pin;
