//! Paths used by the toolkit.

use vstd::prelude::*;

use crate::text::owned;

verus! {

/// Base directory for managed NixOS configuration
pub const MANAGED_DIR: &'static str = "/etc/nixos/nixos-toolkit";

/// State directory within managed dir
pub const STATE_DIR: &'static str = "/etc/nixos/nixos-toolkit/state";

/// Profiles directory within managed dir
pub const PROFILES_DIR: &'static str = "/etc/nixos/nixos-toolkit/profiles";

/// Bundles directory within managed dir
pub const BUNDLES_DIR: &'static str = "/etc/nixos/nixos-toolkit/bundles";

/// Main selected.nix file that user imports
pub const SELECTED_NIX: &'static str = "/etc/nixos/nixos-toolkit/state/selected.nix";

/// Optional JSON state file for UI state
pub const STATE_JSON: &'static str = "/etc/nixos/nixos-toolkit/state/state.json";

/// Hostname snippet file
pub const HOSTNAME_NIX: &'static str = "/etc/nixos/nixos-toolkit/state/hostname.nix";

/// DNS configuration snippet file
pub const DNS_NIX: &'static str = "/etc/nixos/nixos-toolkit/state/dns.nix";

/// User groups snippet file
pub const USERS_NIX: &'static str = "/etc/nixos/nixos-toolkit/state/users.nix";

/// The managed directory path.
pub fn managed_dir() -> (r: String)
    ensures
        r@ == MANAGED_DIR@,
{
    owned(MANAGED_DIR)
}

/// The state directory path.
pub fn state_dir() -> (r: String)
    ensures
        r@ == STATE_DIR@,
{
    owned(STATE_DIR)
}

/// The selected.nix path.
pub fn selected_nix() -> (r: String)
    ensures
        r@ == SELECTED_NIX@,
{
    owned(SELECTED_NIX)
}

} // verus!
