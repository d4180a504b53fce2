//! Git operations (clone, checkout, pull), as shell invocations.

use vstd::prelude::*;
use crate::text::{concat2, concat3};

verus! {

/// A shell command line to run, with its working directory and time limit.
#[derive(Debug)]
pub struct ShellInvocation {
    pub command: String,
    /// `None`: the current directory.
    pub cwd: Option<String>,
    pub timeout_seconds: u64,
}

/// The command line that clones `url` into `target`, on `branch` where one is given.
pub open spec fn clone_command(url: Seq<char>, target: Seq<char>, branch: Option<Seq<char>>) -> Seq<char> {
    match branch {
        None => "git clone "@ + url + " "@ + target,
        Some(b) => "git clone -b "@ + b + " "@ + url + " "@ + target,
    }
}

/// The view of an optional string slice.
pub open spec fn opt_str_view(o: Option<&str>) -> Option<Seq<char>> {
    match o {
        Some(s) => Some(s@),
        None => None,
    }
}

/// Clone a git repository (time limit: 600 s).
pub fn clone(url: &str, target_path: &str, branch: Option<&str>) -> (r: ShellInvocation)
    ensures
        r.command@ == clone_command(url@, target_path@, opt_str_view(branch)),
        r.cwd.is_none(),
        r.timeout_seconds == 600,
{
    let tail = concat3(url, " ", target_path);
    let command = match branch {
        None => concat2("git clone ", tail.as_str()),
        Some(b) => concat3("git clone -b ", b, " ").concat(tail.as_str()),
    };
    ShellInvocation { command, cwd: None, timeout_seconds: 600 }
}

/// Pull latest changes in a repository (time limit: 120 s).
pub fn pull(repo_path: &str) -> (r: ShellInvocation)
    ensures
        r.command@ == "git pull"@,
        r.cwd matches Some(d) && d@ == repo_path@,
        r.timeout_seconds == 120,
{
    ShellInvocation {
        command: String::from_str("git pull"),
        cwd: Some(String::from_str(repo_path)),
        timeout_seconds: 120,
    }
}

/// Checkout a branch (time limit: 30 s).
pub fn checkout(repo_path: &str, branch: &str) -> (r: ShellInvocation)
    ensures
        r.command@ == "git checkout "@ + branch@,
        r.cwd matches Some(d) && d@ == repo_path@,
        r.timeout_seconds == 30,
{
    ShellInvocation {
        command: concat2("git checkout ", branch),
        cwd: Some(String::from_str(repo_path)),
        timeout_seconds: 30,
    }
}

} // verus!

verus! {

/// Cloning a branch is cloning with `-b <branch> ` put right after
/// `git clone `; both name the URL and then the target.
pub proof fn law_clone_with_branch(url: Seq<char>, target: Seq<char>, branch: Seq<char>)
    ensures
        clone_command(url, target, None) == "git clone "@ + url + " "@ + target,
        clone_command(url, target, Some(branch)) == "git clone "@ + "-b "@ + branch + " "@ + url
            + " "@ + target,
{
    reveal_strlit("git clone ");
    reveal_strlit("-b ");
    reveal_strlit("git clone -b ");
    assert("git clone -b "@ =~= "git clone "@ + "-b "@);
    assert(clone_command(url, target, Some(branch)) =~= "git clone "@ + "-b "@ + branch + " "@
        + url + " "@ + target);
}

} // verus!
