//! The decisions of the command layer that do not touch the terminal or the
//! network.

use vstd::prelude::*;
use crate::error::Error;
use crate::text::{parse_u64, decimal_u64};
use crate::value::str_eq;

verus! {

/// The branch a new pull request targets when none is given and none is
/// configured.
pub const DEFAULT_TARGET: &'static str = "master";

/// The kinds of profile that can be added, in the order they are offered.
pub enum ProfileKind {
    GitLabSelfHosted,
    GitHub,
}

/// The name a profile kind is offered under.
pub fn display_name(kind: &ProfileKind) -> (r: String)
    ensures
        r@ == match kind {
            ProfileKind::GitLabSelfHosted => "GitLab (self-hosted)"@,
            ProfileKind::GitHub => "GitHub"@,
        },
{
    match kind {
        ProfileKind::GitLabSelfHosted => String::from_str("GitLab (self-hosted)"),
        ProfileKind::GitHub => String::from_str("GitHub"),
    }
}

/// The profile kind picked by what the user typed: `1` or `2`, as offered.
pub fn choose_profile_kind(input: &str) -> (r: Result<ProfileKind, Error>)
    ensures
        match decimal_u64(input@) {
            Some(1) => r matches Ok(ProfileKind::GitLabSelfHosted),
            Some(2) => r matches Ok(ProfileKind::GitHub),
            _ => r matches Err(Error::InvalidChoice),
        },
{
    match parse_u64(input) {
        Some(1) => Ok(ProfileKind::GitLabSelfHosted),
        Some(2) => Ok(ProfileKind::GitHub),
        _ => Err(Error::InvalidChoice),
    }
}

/// The target branch of a new pull request: the one given, else the one
/// configured, else `DEFAULT_TARGET`.
pub fn target_branch(given: Option<String>, configured: Option<String>) -> (r: String)
    ensures
        r@ == match (given, configured) {
            (Some(b), _) => b@,
            (None, Some(c)) => c@,
            (None, None) => DEFAULT_TARGET@,
        },
{
    match given {
        Some(b) => b,
        None => match configured {
            Some(c) => c,
            None => String::from_str(DEFAULT_TARGET),
        },
    }
}

/// Refuses a pull request from a branch into itself.
pub fn check_branches(source: &str, target: &str) -> (r: Result<(), Error>)
    ensures
        source@ == target@ ==> (r matches Err(Error::SameBranches(b)) && b@ == source@),
        source@ != target@ ==> r is Ok,
{
    if str_eq(source, target) {
        Err(Error::SameBranches(String::from_str(source)))
    } else {
        Ok(())
    }
}

} // verus!
