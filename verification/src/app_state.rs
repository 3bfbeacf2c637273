//! What the application knows of the repository it runs in.

use vstd::prelude::*;

verus! {

/// How long a branch name is trusted before `git` is asked again, in
/// milliseconds.
pub const BRANCH_CHECK_MS: u128 = 500;

/// The repository and the branch that is checked out.
pub struct AppState {
    pub repo_root: String,
    pub current_branch: String,
}

/// Whether the branch is to be asked for again, so long after the last
/// time.
pub fn branch_check_due(elapsed_ms: u128) -> (due: bool)
    ensures
        due == (elapsed_ms >= BRANCH_CHECK_MS),
{
    elapsed_ms >= BRANCH_CHECK_MS
}

impl AppState {
    /// The state at start.
    pub fn init(repo_root: String, current_branch: String) -> (state: Self)
        ensures
            state.repo_root == repo_root,
            state.current_branch == current_branch,
    {
        AppState { repo_root, current_branch }
    }

    /// Takes over the branch that `git` named, if it was asked and named
    /// one. Returns whether a check was due, in which case the time of the
    /// last check is now.
    pub fn refresh_branch_if_needed(&mut self, elapsed_ms: u128, fetched: Option<String>) -> (checked:
        bool)
        ensures
            checked == (elapsed_ms >= BRANCH_CHECK_MS),
            final(self).repo_root == old(self).repo_root,
            final(self).current_branch@ == match fetched {
                Some(branch) => if checked {
                    branch@
                } else {
                    old(self).current_branch@
                },
                None => old(self).current_branch@,
            },
    {
        if !branch_check_due(elapsed_ms) {
            return false;
        }
        if let Some(branch) = fetched {
            if branch != self.current_branch {
                self.current_branch = branch;
            }
        }
        true
    }
}

} // verus!
