//! Planning the "reveal in file manager" action.
//!
//! The file manager is driven through a scripting helper that takes one
//! script per invocation: first a script that reveals and selects the
//! path, then one that brings the file manager to the foreground. The
//! library decides whether the action may go ahead and produces the two
//! scripts; the I/O shell spawns the helper. A path reported missing is
//! refused here, before any plan exists — so nothing is ever spawned
//! for it.

use vstd::prelude::*;
use vstd::string::StringExecFns;

verus! {

/// The script that asks the file manager to reveal and select `path`.
pub open spec fn reveal_script_of(path: Seq<char>) -> Seq<char> {
    "tell application \"Finder\" to reveal POSIX file \""@ + path + "\""@
}

/// The script that brings the file manager to the foreground.
pub open spec fn activate_script() -> Seq<char> {
    "tell application \"Finder\" to activate"@
}

/// The two helper invocations of one reveal action, in order.
#[derive(Debug)]
pub struct RevealPlan {
    pub reveal_arg: String,
    pub activate_arg: String,
}

/// Decide one reveal request: a path reported missing is refused with a
/// descriptive message and no plan; an existing path yields the two
/// scripts to run, in order.
pub fn plan_reveal(path: &str, path_exists: bool) -> (r: Result<RevealPlan, String>)
    ensures
        path_exists ==> r is Ok && r->Ok_0.reveal_arg@ == reveal_script_of(path@)
            && r->Ok_0.activate_arg@ == activate_script(),
        !path_exists ==> r is Err && r->Err_0@ == "Path does not exist"@,
{
    if !path_exists {
        Err(String::from_str("Path does not exist"))
    } else {
        let mut s = String::from_str("tell application \"Finder\" to reveal POSIX file \"");
        s.append(path);
        s.append("\"");
        Ok(
            RevealPlan {
                reveal_arg: s,
                activate_arg: String::from_str("tell application \"Finder\" to activate"),
            },
        )
    }
}

} // verus!
