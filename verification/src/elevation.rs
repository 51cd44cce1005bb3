//! Choosing the privilege-elevation program for a run.
//!
//! The search path is probed by the caller (that is an effect); the decision
//! which program to use, and with which prefix arguments, is made here.  The
//! fixed candidate order is `doas`, `sudo`, `run0`, `pkexec`: presence of a
//! less common tool is a stronger signal of deliberate preference than
//! presence of the near-universal default.

use vstd::prelude::*;

use crate::text::str_views;

verus! {

/// The elevation program chosen for a run, and the arguments that go before
/// the elevated command.  Resolved once per run, then reused for every
/// elevated step.
#[derive(Debug)]
pub struct ElevationStrategy {
    pub program: String,
    pub prefix_args: Vec<String>,
}

/// No elevation program could be found in the search path.
#[derive(Clone, Copy, PartialEq, Eq, Structural, Debug)]
pub struct NotFoundError;

/// What probing the search path found: for each candidate, its absolute path
/// if present, and whether `sudo`'s help text advertises selective
/// environment preservation.
#[derive(Debug)]
pub struct ProgramLookup {
    pub doas: Option<String>,
    pub sudo: Option<String>,
    pub run0: Option<String>,
    pub pkexec: Option<String>,
    pub sudo_preserve_env: bool,
}

/// Prefix arguments used with `sudo`: keep login-shell semantics, and when
/// the selective-preservation flag exists, forward the search-path variable
/// through to the elevated process.
pub open spec fn sudo_prefix(preserve_env: bool) -> Seq<Seq<char>> {
    if preserve_env {
        seq!["-H"@, "--preserve-env=PATH"@, "env"@]
    } else {
        seq!["-H"@]
    }
}

/// The program and prefix arguments that resolution picks: the explicit
/// override if one was supplied (no prefix arguments, absent means failure),
/// else the first candidate present, in the fixed order.
pub open spec fn resolved_elevation(explicit: Option<Option<String>>, lookup: ProgramLookup) -> Option<
    (Seq<char>, Seq<Seq<char>>),
> {
    match explicit {
        Some(Some(p)) => Some((p@, seq![])),
        Some(None) => None,
        None => match lookup.doas {
            Some(p) => Some((p@, seq![])),
            None => match lookup.sudo {
                Some(p) => Some((p@, sudo_prefix(lookup.sudo_preserve_env))),
                None => match lookup.run0 {
                    Some(p) => Some((p@, seq![])),
                    None => match lookup.pkexec {
                        Some(p) => Some((p@, seq![])),
                        None => None,
                    },
                },
            },
        },
    }
}

/// Picks the elevation program for a run.
///
/// `explicit` is the user's override: `Some(Some(path))` when it was given
/// and found in the search path, `Some(None)` when it was given and absent.
/// `lookup` holds what probing the search path found for the fixed
/// candidates.
pub fn get_elevation_program(explicit: Option<Option<String>>, lookup: ProgramLookup) -> (r: Result<
    ElevationStrategy,
    NotFoundError,
>)
    ensures
        match (r, resolved_elevation(explicit, lookup)) {
            (Ok(s), Some(pr)) => s.program@ == pr.0 && str_views(s.prefix_args@) == pr.1,
            (Err(_), None) => true,
            _ => false,
        },
{
    match explicit {
        Some(Some(p)) => {
            return Ok(ElevationStrategy { program: p, prefix_args: Vec::new() });
        },
        Some(None) => {
            return Err(NotFoundError);
        },
        None => {},
    }
    if let Some(p) = lookup.doas {
        return Ok(ElevationStrategy { program: p, prefix_args: Vec::new() });
    }
    if let Some(p) = lookup.sudo {
        let prefix_args: Vec<String> = if lookup.sudo_preserve_env {
            vec!["-H".to_owned(), "--preserve-env=PATH".to_owned(), "env".to_owned()]
        } else {
            vec!["-H".to_owned()]
        };
        proof {
            assert(str_views(prefix_args@) =~= sudo_prefix(lookup.sudo_preserve_env));
        }
        return Ok(ElevationStrategy { program: p, prefix_args });
    }
    if let Some(p) = lookup.run0 {
        return Ok(ElevationStrategy { program: p, prefix_args: Vec::new() });
    }
    if let Some(p) = lookup.pkexec {
        return Ok(ElevationStrategy { program: p, prefix_args: Vec::new() });
    }
    Err(NotFoundError)
}

/// Resolution respects the fixed candidate order: with no override and no
/// `doas` present, a present `sudo` is always chosen, whatever `run0` and
/// `pkexec` look like.
pub proof fn lemma_elevation_prefers_sudo(lookup: ProgramLookup, p: String)
    requires
        lookup.doas is None,
        lookup.sudo == Some(p),
    ensures
        resolved_elevation(None, lookup) == Some((p@, sudo_prefix(lookup.sudo_preserve_env))),
{
}

/// Resolution is a pure choice: probing twice with the same outcome picks
/// the same strategy.
pub proof fn lemma_elevation_deterministic(
    e1: Option<Option<String>>,
    l1: ProgramLookup,
    e2: Option<Option<String>>,
    l2: ProgramLookup,
)
    requires
        e1 == e2,
        l1 == l2,
    ensures
        resolved_elevation(e1, l1) == resolved_elevation(e2, l2),
{
}

} // verus!
