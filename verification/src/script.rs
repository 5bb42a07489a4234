//! The privileged fallback command.
//!
//! When the unprivileged renames are denied, the whole swap is retried as
//! one privileged shell invocation: move the root away, move the new tree
//! into place, remove the displaced old tree — three steps gated by `&&`
//! so a failed step stops the chain, combined into a single invocation so
//! the user sees exactly one elevation prompt. The command string built
//! here is pinned down character for character, and the exit status of
//! the spawned process is the sole success signal.

use vstd::prelude::*;
use vstd::string::StringExecFns;

use crate::errors::ApplyError;

verus! {

/// The exact privileged command line for the given paths: an AppleScript
/// one-liner that asks the OS to run the three chained moves with
/// administrator privileges. Each path is wrapped in single quotes so
/// that spaces survive the shell.
pub open spec fn elevated_script_view(
    root: Seq<char>,
    staging_new: Seq<char>,
    staging_old: Seq<char>,
) -> Seq<char> {
    "do shell script \"mv -f '"@ + root + "' '"@ + staging_old + "' && mv -f '"@ + staging_new
        + "' '"@ + root + "' && rm -rf '"@ + staging_old
        + "'\" with administrator privileges"@
}

/// Builds the privileged command line, exactly as
/// [`elevated_script_view`] states it.
pub fn build_elevated_script(root: &str, staging_new: &str, staging_old: &str) -> (r: String)
    ensures
        r@ == elevated_script_view(root@, staging_new@, staging_old@),
{
    let mut s = String::from_str("do shell script \"mv -f '");
    s.append(root);
    s.append("' '");
    s.append(staging_old);
    s.append("' && mv -f '");
    s.append(staging_new);
    s.append("' '");
    s.append(root);
    s.append("' && rm -rf '");
    s.append(staging_old);
    s.append("'\" with administrator privileges");
    proof {
        assert(s@ =~= elevated_script_view(root@, staging_new@, staging_old@));
    }
    s
}

/// Interprets the exit status of the privileged process. Its reported
/// status is the sole success signal: success means all three inner steps
/// completed; anything else fails with the raw exit code kept for
/// diagnostics. No filesystem state is re-examined here.
pub fn interpret_elevated_exit(exit_ok: bool, exit_code: i32) -> (r: Result<(), ApplyError>)
    ensures
        exit_ok ==> r is Ok,
        !exit_ok ==> (r matches Err(e) && e@ == (crate::errors::ApplyErrorV::ElevationFailed {
            exit_code: exit_code as int,
        })),
{
    if exit_ok {
        Ok(())
    } else {
        Err(ApplyError::ElevationFailed { exit_code })
    }
}

} // verus!
