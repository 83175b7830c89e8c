//! Decisions about the version-control tool's output: recognising a
//! detached head in the current-branch query, and turning a commit
//! lookup's outcome into either the hash or the diagnostic to echo.

use vstd::prelude::*;
use vstd::slice::slice_to_vec;
use crate::text::{trim_ascii, trimmed};

verus! {

/// The bytes of the marker the version-control tool prints in place of a
/// branch name when the head is detached: the word "HEAD".
pub open spec fn head_marker() -> Seq<u8> {
    seq![72u8, 69u8, 65u8, 68u8]
}

/// What the current-branch query's output means: `None` for a detached
/// head, otherwise the branch name, which is the output trimmed.
pub open spec fn spec_branch_of_head_output(stdout: Seq<u8>) -> Option<Seq<u8>> {
    if trimmed(stdout) == head_marker() {
        None
    } else {
        Some(trimmed(stdout))
    }
}

/// Reads the current-branch query's output: trims it, and recognises the
/// detached-head marker, on which no branch is available.
pub fn branch_of_head_output(stdout: &[u8]) -> (r: Option<Vec<u8>>)
    ensures
        match r {
            Some(b) => spec_branch_of_head_output(stdout@) == Some(b@),
            None => spec_branch_of_head_output(stdout@) is None,
        },
{
    let t = trim_ascii(stdout);
    let is_marker = t.len() == 4 && t[0] == 72 && t[1] == 69 && t[2] == 65 && t[3] == 68;
    if is_marker {
        proof {
            assert(t@ =~= head_marker());
        }
        None
    } else {
        proof {
            if t@ == head_marker() {
                assert(t@.len() == 4 && t@[0] == 72 && t@[1] == 69 && t@[2] == 65 && t@[3] == 68);
            }
        }
        Some(t)
    }
}

/// The outcome of a commit-hash lookup for a branch: on success the
/// trimmed output is the hash; on failure the tool's diagnostic output is
/// handed back unchanged, to be echoed before the program exits.
pub fn commit_of_lookup(success: bool, stdout: &[u8], stderr: &[u8]) -> (r: Result<
    Vec<u8>,
    Vec<u8>,
>)
    ensures
        success ==> (r matches Ok(c) && c@ == trimmed(stdout@)),
        !success ==> (r matches Err(d) && d@ == stderr@),
{
    if success {
        Ok(trim_ascii(stdout))
    } else {
        Err(slice_to_vec(stderr))
    }
}

} // verus!
