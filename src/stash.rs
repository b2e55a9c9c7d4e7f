use vstd::prelude::*;

use crate::error::{CliError, LalResult};
use crate::paths::{
    join, join_path, stash_dir, stash_dir_of, stash_lockfile, stash_tarball, stashed_tarball_name,
};

verus! {

/// Where stashing the build output of `name` under `code` puts things.
#[derive(Debug)]
pub struct StashPlan {
    /// The stash directory, to be created with its parents.
    pub dir: String,
    /// The compressed archive of the build output.
    pub tarball: String,
    /// The lockfile of the build, copied from here...
    pub lockfile_from: String,
    /// ...to here, beside the archive.
    pub lockfile_to: String,
}

/// The stashed tarball of `name` under `code`.
pub open spec fn stashed_of(root: Seq<char>, name: Seq<char>, code: Seq<char>) -> Seq<char> {
    join(stash_dir_of(root, name, code), stashed_tarball_name(name))
}

/// The lockfile of a finished build.
pub open spec fn output_lockfile() -> Seq<char> {
    "./OUTPUT/lockfile.json"@
}

/// `p` is where stashing `name` under `code` below `root` puts things.
pub open spec fn stash_plan_of(root: Seq<char>, name: Seq<char>, code: Seq<char>, p: StashPlan) -> bool {
    &&& p.dir@ == stash_dir_of(root, name, code)
    &&& p.tarball@ == stashed_of(root, name, code)
    &&& p.lockfile_from@ == output_lockfile()
    &&& p.lockfile_to@ == join(stash_dir_of(root, name, code), "lockfile.json"@)
}

/// `r` is the outcome of looking up what was stashed for `name` under `code`,
/// where `present` tells whether the stashed tarball is there.
pub open spec fn retrieved_of(
    root: Seq<char>,
    name: Seq<char>,
    code: Seq<char>,
    present: bool,
    r: LalResult<String>,
) -> bool {
    if present {
        r matches Ok(path) && path@ == stashed_of(root, name, code)
    } else {
        r matches Err(CliError::MissingStashArtifact(m)) && m@ == join(name, code)
    }
}

/// Where stashing the build output of `name` under `code` puts things.
pub fn stash_plan(root: &str, name: &str, code: &str) -> (r: StashPlan)
    ensures
        stash_plan_of(root@, name@, code@, r),
{
    StashPlan {
        dir: stash_dir(root, name, code),
        tarball: stash_tarball(root, name, code),
        lockfile_from: String::from_str("./OUTPUT/lockfile.json"),
        lockfile_to: stash_lockfile(root, name, code),
    }
}

/// The stashed tarball of `name` under `code`, where `present` says it is
/// there, and otherwise the error that nothing is stashed for them.
pub fn stashed_outcome(root: &str, name: &str, code: &str, present: bool) -> (r: LalResult<String>)
    ensures
        retrieved_of(root@, name@, code@, present, r),
{
    if present {
        Ok(stash_tarball(root, name, code))
    } else {
        Err(CliError::MissingStashArtifact(join_path(name, code)))
    }
}

/// What is stashed is what is found: after stashing `name` under `code`, a
/// look-up of the same pair finds the archive that was written, and a look-up
/// that finds nothing fails as nothing stashed.
pub proof fn lemma_stash_then_retrieve(
    root: Seq<char>,
    name: Seq<char>,
    code: Seq<char>,
    p: StashPlan,
    r: LalResult<String>,
)
    requires
        stash_plan_of(root, name, code, p),
    ensures
        retrieved_of(root, name, code, true, r) ==> (r matches Ok(path) && path@ == p.tarball@),
        retrieved_of(root, name, code, false, r) ==> r is Err && r->Err_0 is MissingStashArtifact,
{
}

} // verus!
