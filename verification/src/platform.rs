//! The two target-platform families the rebuild pipeline knows about.
//! Platform branching is resolved once at startup and passed in as a value,
//! so the state-machine logic itself stays platform-agnostic.

use vstd::prelude::*;

verus! {

/// Which family of system configuration is being rebuilt.
#[derive(Clone, Copy, PartialEq, Eq, Structural, Debug)]
pub enum Platform {
    /// NixOS-style systems: bootloader registration via the generation's
    /// `switch-to-configuration` script.
    Linux,
    /// nix-darwin-style systems: separate user and system activation scripts.
    Darwin,
}

} // verus!
