//! Resolving the flake locations from environment-supplied values.
//!
//! The environment variables themselves, and the platform configuration
//! directories, are read by the caller; the precedence rules live here.

use vstd::prelude::*;

use crate::platform::Platform;

verus! {

/// The resolved flake locations: one for the operating-system configuration
/// and one for the home configuration.
#[derive(Debug)]
pub struct Config {
    pub os_flake: String,
    pub home_flake: String,
}

/// A needed platform configuration directory could not be determined.
#[derive(Clone, Copy, PartialEq, Eq, Structural, Debug)]
pub struct HomeDirError;

/// The source chosen for a flake location: the dedicated variable first,
/// then the shared one.
pub open spec fn flake_choice(dedicated: Option<String>, shared: Option<String>) -> Option<
    String,
> {
    if dedicated is Some {
        dedicated
    } else {
        shared
    }
}

impl Config {
    /// Resolves the flake locations.
    ///
    /// `nh_flake` and `flake_var` are the shared settings, in that order of
    /// preference; `nh_os_flake` and `nh_home_flake` override them for one
    /// configuration each.  When nothing is set, the operating-system flake
    /// falls back to `/etc/nixos` on Linux and to the platform configuration
    /// directory `os_fallback_dir` on Darwin, and the home flake falls back
    /// to `home_fallback_dir`; a needed fallback directory that could not be
    /// determined (`None`) is an error.
    pub fn from_vars(
        nh_flake: Option<String>,
        flake_var: Option<String>,
        nh_os_flake: Option<String>,
        nh_home_flake: Option<String>,
        platform: Platform,
        os_fallback_dir: Option<String>,
        home_fallback_dir: Option<String>,
    ) -> (r: Result<Config, HomeDirError>)
        ensures
            ({
                let shared = flake_choice(nh_flake, flake_var);
                let os_choice = flake_choice(nh_os_flake, shared);
                let home_choice = flake_choice(nh_home_flake, shared);
                match r {
                    Ok(c) => {
                        &&& match os_choice {
                            Some(f) => c.os_flake@ == f@,
                            None => match platform {
                                Platform::Linux => c.os_flake@ == "/etc/nixos"@,
                                Platform::Darwin => match os_fallback_dir {
                                    Some(d) => c.os_flake@ == d@,
                                    None => false,
                                },
                            },
                        }
                        &&& match home_choice {
                            Some(f) => c.home_flake@ == f@,
                            None => match home_fallback_dir {
                                Some(d) => c.home_flake@ == d@,
                                None => false,
                            },
                        }
                    },
                    Err(_) => (os_choice is None && platform == Platform::Darwin
                        && os_fallback_dir is None) || (home_choice is None && home_fallback_dir
                        is None),
                }
            }),
    {
        let shared = match (nh_flake, flake_var) {
            (Some(f), _) => Some(f),
            (None, g) => g,
        };
        let shared2 = match &shared {
            Some(f) => Some(f.clone()),
            None => None,
        };
        let os_flake = match (nh_os_flake, shared) {
            (Some(f), _) => f,
            (None, Some(f)) => f,
            (None, None) => match platform {
                Platform::Linux => "/etc/nixos".to_owned(),
                Platform::Darwin => match os_fallback_dir {
                    Some(d) => d,
                    None => {
                        return Err(HomeDirError);
                    },
                },
            },
        };
        let home_flake = match (nh_home_flake, shared2) {
            (Some(f), _) => f,
            (None, Some(f)) => f,
            (None, None) => match home_fallback_dir {
                Some(d) => d,
                None => {
                    return Err(HomeDirError);
                },
            },
        };
        Ok(Config { os_flake, home_flake })
    }
}

} // verus!
