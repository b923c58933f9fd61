//! The commit-message hook.
use vstd::prelude::*;
use crate::cli::Exit;

verus! {

/// What the hook tells the operator.
pub open spec fn hook_notice() -> Seq<char> {
    "Generate commit message"@
}

/// Runs the hook: it succeeds with the line to show.
pub fn hook() -> (r: Result<String, Exit>)
    ensures
        r matches Ok(line) && line@ == hook_notice(),
{
    Ok(String::from_str("Generate commit message"))
}

} // verus!
