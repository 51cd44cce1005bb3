//! Choosing which named sub-configuration, if any, to activate.
//!
//! The rule is "stay on the specialisation you are already on unless told
//! otherwise": the one recorded as active on the running system wins over a
//! requested one, and an explicit opt-out wins over both.

use vstd::prelude::*;

verus! {

/// The specialisation that a run activates: none when opted out, else the
/// one currently recorded as active, else the requested one, else none (the
/// base configuration).
pub open spec fn resolve_specialisation_spec(
    no_specialisation: bool,
    requested: Option<String>,
    current: Option<String>,
) -> Option<String> {
    if no_specialisation {
        None
    } else if current is Some {
        current
    } else {
        requested
    }
}

/// Picks the specialisation to activate.  `current` is the contents of the
/// running system's specialisation marker file, if that file exists.
pub fn resolve_specialisation(
    no_specialisation: bool,
    requested: Option<String>,
    current: Option<String>,
) -> (r: Option<String>)
    ensures
        r == resolve_specialisation_spec(no_specialisation, requested, current),
{
    if no_specialisation {
        None
    } else if current.is_some() {
        current
    } else {
        requested
    }
}

/// Opting out always wins: with the flag set the resolution is "none",
/// whatever is recorded as active and whatever was requested.
pub proof fn lemma_no_specialisation_wins(requested: Option<String>, current: Option<String>)
    ensures
        resolve_specialisation_spec(true, requested, current) == None::<String>,
{
}

} // verus!
