//! Tools to keep `Cargo.toml` files in-sync.
//!
//! Reading and writing the manifests is the caller's part. Here are the
//! command itself and the rules that need no file: when a dependency is
//! inherited, where an inherited path points, and when a generated file is
//! out of date.

use vstd::prelude::*;
use vstd::string::StringExecFns;

verus! {

pub enum Command {
    /// Use `Cargo.xsync.toml` to regenerate synced `Cargo.toml`
    Regen,
}

/// Tools to keep Cargo.toml files in-sync
pub struct CargoToml {
    pub cmd: Command,
}

/// Whether a dependency that is given as `version` is to be taken over
/// from the base manifest: it is, where it is spelled `$inherit`.
pub fn is_inherited(version: &String) -> (inherited: bool)
    ensures
        inherited == (version@ == "$inherit"@),
{
    let marker = String::from_str("$inherit");
    *version == marker
}

/// The path of an inherited dependency as the overlay manifest names it:
/// the way from the overlay to the base workspace, a slash, and the path
/// that the base manifest gives.
pub fn inherited_path(inherit_relative_path: &str, path: &str) -> (out: String)
    ensures
        out@ == inherit_relative_path@ + "/"@ + path@,
{
    let mut out = String::from_str(inherit_relative_path);
    out.append("/");
    out.append(path);
    out
}

/// Whether the manifest on disk is the one that was generated.
pub fn is_up_to_date(generated: &String, existing: &String) -> (same: bool)
    ensures
        same == (generated@ == existing@),
{
    *generated == *existing
}

} // verus!
