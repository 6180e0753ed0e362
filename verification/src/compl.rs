//! What the command line asks of shell completion.

use vstd::prelude::*;

verus! {

/// Enumeration of all possible matches.
#[derive(Clone, Copy, Debug, PartialEq, Eq)]
pub enum Match<'a> {
    /// Generate completion script for the given shell slice.
    Generate(&'a str),
}

/// Completion arg matcher. `completion` is the shell that was named with the
/// completion subcommand, where that subcommand was given.
pub fn matches<'a>(completion: Option<&'a str>) -> (m: Option<Match<'a>>)
    ensures
        m == match completion {
            Some(shell) => Some(Match::Generate(shell)),
            None => None,
        },
{
    match completion {
        Some(shell) => Some(Match::Generate(shell)),
        None => None,
    }
}

} // verus!
