use vstd::prelude::*;

use crate::error::CliError;
use crate::paths::{
    cache_dir, cache_dir_of, cache_tarball, join, join_path, opt_view, staging_tarball,
    tarball_file, tarball_name,
};

verus! {

/// A component as the storage backend resolved it: a concrete version and
/// the location its tarball is downloaded from.
#[derive(Debug)]
pub struct Component {
    pub name: String,
    pub version: u32,
    pub tarball: String,
}

impl Component {
    /// A copy of this component.
    pub fn duplicate(&self) -> (r: Component)
        ensures
            r == *self,
    {
        Component { name: self.name.clone(), version: self.version, tarball: self.tarball.clone() }
    }
}

/// A request to fetch `name` (at `version`, the latest where none is given,
/// for the environment `env` where one is given) into the cache under `root`.
#[derive(Debug)]
pub struct FetchRequest {
    pub root: String,
    pub name: String,
    pub version: Option<u32>,
    pub env: Option<String>,
}

/// How far a fetch has come.
#[derive(Debug)]
pub enum Phase {
    /// Nothing is known yet: the request must be resolved.
    Start,
    /// Resolved; is it cached already?
    Checking(Component),
    /// Not cached: the tarball is being downloaded next to the build.
    Downloading(Component),
    /// Is the downloaded tarball where the download put it?
    Staging(Component),
    /// The tarball is there: the partial cache directory is being made.
    Creating(Component),
    /// The tarball is being copied into the partial cache directory.
    Copying(Component),
    /// The complete partial directory is being renamed to the cache directory.
    Publishing(Component),
    /// The downloaded tarball is being removed.
    Removing(Component),
    /// Stored: the cache directory must now be there.
    Confirming(Component),
    /// The component is in the cache.
    Done(Component),
    /// The cache directory is missing right after the tarball was stored in it.
    Inconsistent(Component),
    /// The fetch failed.
    Failed(CliError),
}

/// What the caller of a fetch reports back after doing what was asked.
#[derive(Debug)]
pub enum FetchEvent {
    /// The backend resolved the request to this component.
    Resolved(Component),
    /// The answer to a question (is it a directory, is it a file).
    Answer(bool),
    /// The work asked for was done.
    Completed,
    /// The work asked for failed.
    Failed(CliError),
}

/// What a fetch asks its caller to do next.
#[derive(Debug)]
pub enum FetchAction {
    /// Resolve `name` (the latest version where none is given, for `env`
    /// where one is given) through the storage backend.
    Resolve { name: String, version: Option<u32>, env: Option<String> },
    /// Report whether `dir` is a directory.
    CheckCached { dir: String },
    /// Download `url` to the file `dest`.
    Download { url: String, dest: String },
    /// Report whether `path` is a file.
    CheckStaged { path: String },
    /// Create the directory `dir` and its parents.
    CreateDir { dir: String },
    /// Copy the file `from` to `to`.
    Copy { from: String, to: String },
    /// Rename the directory `from` to `to`.
    Rename { from: String, to: String },
    /// Remove the file `path`.
    Remove { path: String },
    /// Report whether `dir` is a directory; it must be.
    ConfirmCached { dir: String },
    /// The fetch is over: the tarball is at `tarball`.
    Finish { tarball: String, component: Component },
    /// The fetch is over: `dir` should be cached and is not.
    Abort { dir: String },
    /// The fetch is over: it failed.
    Fail(CliError),
}

/// The view of an optional string.
pub open spec fn opt_string_view(s: Option<String>) -> Option<Seq<char>> {
    match s {
        Some(t) => Some(t@),
        None => None,
    }
}

/// The cache directory of the component `c`, resolved for `req`.
pub open spec fn dir_of(req: FetchRequest, c: Component) -> Seq<char> {
    cache_dir_of(req.root@, c.name@, c.version, opt_string_view(req.env))
}

/// Where the cache entry of `c` is put together before it is renamed into
/// place: beside the cache directory, as `<version>.partial`. A version is
/// written in digits alone, so this is never the cache directory of any key.
pub open spec fn partial_of(req: FetchRequest, c: Component) -> Seq<char> {
    dir_of(req, c) + ".partial"@
}

/// Where the tarball of the component `c`, resolved for `req`, is cached.
pub open spec fn cached_tarball_of(req: FetchRequest, c: Component) -> Seq<char> {
    join(dir_of(req, c), tarball_name(req.name@))
}

/// Where the tarball for `req` is downloaded to before it is stored.
pub open spec fn staged_of(req: FetchRequest) -> Seq<char> {
    join("."@, tarball_name(req.name@))
}

/// The phase a fetch in `phase` moves to on `event`. An event that does not
/// answer what the phase asked leaves the phase as it is.
pub open spec fn next_phase_of(phase: Phase, event: FetchEvent) -> Phase {
    match (phase, event) {
        (Phase::Start, FetchEvent::Resolved(c)) => Phase::Checking(c),
        (Phase::Start, FetchEvent::Failed(e)) => Phase::Failed(e),
        (Phase::Checking(c), FetchEvent::Answer(cached)) => if cached {
            Phase::Done(c)
        } else {
            Phase::Downloading(c)
        },
        (Phase::Downloading(c), FetchEvent::Completed) => Phase::Staging(c),
        (Phase::Downloading(c), FetchEvent::Failed(e)) => Phase::Failed(e),
        (Phase::Staging(c), FetchEvent::Answer(present)) => if present {
            Phase::Creating(c)
        } else {
            Phase::Failed(CliError::MissingTarball)
        },
        (Phase::Creating(c), FetchEvent::Completed) => Phase::Copying(c),
        (Phase::Creating(c), FetchEvent::Failed(e)) => Phase::Failed(e),
        (Phase::Copying(c), FetchEvent::Completed) => Phase::Publishing(c),
        (Phase::Copying(c), FetchEvent::Failed(e)) => Phase::Failed(e),
        (Phase::Publishing(c), FetchEvent::Completed) => Phase::Removing(c),
        (Phase::Publishing(c), FetchEvent::Failed(e)) => Phase::Failed(e),
        (Phase::Removing(c), FetchEvent::Completed) => Phase::Confirming(c),
        (Phase::Removing(c), FetchEvent::Failed(e)) => Phase::Failed(e),
        (Phase::Confirming(c), FetchEvent::Answer(cached)) => if cached {
            Phase::Done(c)
        } else {
            Phase::Inconsistent(c)
        },
        (p, _) => p,
    }
}

/// `a` is what a fetch for `req` in `phase` asks for.
pub open spec fn action_of(req: FetchRequest, phase: Phase, a: FetchAction) -> bool {
    match phase {
        Phase::Start => a matches FetchAction::Resolve { name, version, env } && name@ == req.name@
            && version == req.version && opt_string_view(env) == opt_string_view(req.env),
        Phase::Checking(c) => a matches FetchAction::CheckCached { dir } && dir@ == dir_of(req, c),
        Phase::Downloading(c) => a matches FetchAction::Download { url, dest } && url == c.tarball
            && dest@ == staged_of(req),
        Phase::Staging(c) => a matches FetchAction::CheckStaged { path } && path@ == staged_of(req),
        Phase::Creating(c) => a matches FetchAction::CreateDir { dir } && dir@ == partial_of(req, c),
        Phase::Copying(c) => a matches FetchAction::Copy { from, to } && from@ == staged_of(req)
            && to@ == join(partial_of(req, c), tarball_name(req.name@)),
        Phase::Publishing(c) => a matches FetchAction::Rename { from, to } && from@ == partial_of(
            req,
            c,
        ) && to@ == dir_of(req, c),
        Phase::Removing(c) => a matches FetchAction::Remove { path } && path@ == staged_of(req),
        Phase::Confirming(c) => a matches FetchAction::ConfirmCached { dir } && dir@ == dir_of(
            req,
            c,
        ),
        Phase::Done(c) => a matches FetchAction::Finish { tarball, component } && tarball@
            == cached_tarball_of(req, c) && component == c,
        Phase::Inconsistent(c) => a matches FetchAction::Abort { dir } && dir@ == dir_of(req, c),
        Phase::Failed(e) => a == FetchAction::Fail(e),
    }
}

/// The phase a fetch in `phase` moves to on `event`.
pub fn next_phase(phase: Phase, event: FetchEvent) -> (r: Phase)
    ensures
        r == next_phase_of(phase, event),
{
    match (phase, event) {
        (Phase::Start, FetchEvent::Resolved(c)) => Phase::Checking(c),
        (Phase::Start, FetchEvent::Failed(e)) => Phase::Failed(e),
        (Phase::Checking(c), FetchEvent::Answer(cached)) => if cached {
            Phase::Done(c)
        } else {
            Phase::Downloading(c)
        },
        (Phase::Downloading(c), FetchEvent::Completed) => Phase::Staging(c),
        (Phase::Downloading(_), FetchEvent::Failed(e)) => Phase::Failed(e),
        (Phase::Staging(c), FetchEvent::Answer(present)) => if present {
            Phase::Creating(c)
        } else {
            Phase::Failed(CliError::MissingTarball)
        },
        (Phase::Creating(c), FetchEvent::Completed) => Phase::Copying(c),
        (Phase::Creating(_), FetchEvent::Failed(e)) => Phase::Failed(e),
        (Phase::Copying(c), FetchEvent::Completed) => Phase::Publishing(c),
        (Phase::Copying(_), FetchEvent::Failed(e)) => Phase::Failed(e),
        (Phase::Publishing(c), FetchEvent::Completed) => Phase::Removing(c),
        (Phase::Publishing(_), FetchEvent::Failed(e)) => Phase::Failed(e),
        (Phase::Removing(c), FetchEvent::Completed) => Phase::Confirming(c),
        (Phase::Removing(_), FetchEvent::Failed(e)) => Phase::Failed(e),
        (Phase::Confirming(c), FetchEvent::Answer(cached)) => if cached {
            Phase::Done(c)
        } else {
            Phase::Inconsistent(c)
        },
        (p, _) => p,
    }
}

fn partial_dir(root: &str, c: &Component, env: Option<&str>) -> (r: String)
    ensures
        r@ == cache_dir_of(root@, c.name@, c.version, opt_view(env)) + ".partial"@,
{
    cache_dir(root, c.name.as_str(), c.version, env).concat(".partial")
}

/// What a fetch for `req` in `phase` asks its caller to do.
pub fn pending_action(req: &FetchRequest, phase: &Phase) -> (r: FetchAction)
    ensures
        action_of(*req, *phase, r),
{
    let env = match &req.env {
        Some(e) => Some(e.as_str()),
        None => None,
    };
    assert(opt_view(env) == opt_string_view(req.env));
    match phase {
        Phase::Start => FetchAction::Resolve {
            name: req.name.clone(),
            version: req.version,
            env: match &req.env {
                Some(e) => Some(e.clone()),
                None => None,
            },
        },
        Phase::Checking(c) => FetchAction::CheckCached {
            dir: cache_dir(req.root.as_str(), c.name.as_str(), c.version, env),
        },
        Phase::Downloading(c) => FetchAction::Download {
            url: c.tarball.clone(),
            dest: staging_tarball(req.name.as_str()),
        },
        Phase::Staging(_) => FetchAction::CheckStaged { path: staging_tarball(req.name.as_str()) },
        Phase::Creating(c) => FetchAction::CreateDir {
            dir: partial_dir(req.root.as_str(), c, env),
        },
        Phase::Copying(c) => {
            let partial = partial_dir(req.root.as_str(), c, env);
            let file = tarball_file(req.name.as_str());
            FetchAction::Copy {
                from: staging_tarball(req.name.as_str()),
                to: join_path(partial.as_str(), file.as_str()),
            }
        },
        Phase::Publishing(c) => FetchAction::Rename {
            from: partial_dir(req.root.as_str(), c, env),
            to: cache_dir(req.root.as_str(), c.name.as_str(), c.version, env),
        },
        Phase::Removing(_) => FetchAction::Remove { path: staging_tarball(req.name.as_str()) },
        Phase::Confirming(c) => FetchAction::ConfirmCached {
            dir: cache_dir(req.root.as_str(), c.name.as_str(), c.version, env),
        },
        Phase::Done(c) => FetchAction::Finish {
            tarball: cache_tarball(
                req.root.as_str(),
                c.name.as_str(),
                c.version,
                env,
                req.name.as_str(),
            ),
            component: c.duplicate(),
        },
        Phase::Inconsistent(c) => FetchAction::Abort {
            dir: cache_dir(req.root.as_str(), c.name.as_str(), c.version, env),
        },
        Phase::Failed(e) => FetchAction::Fail(e.duplicate()),
    }
}

/// One step of fetching a published component into the cache: the phase
/// that `event` leads to from `phase`, and what the caller must do next.
/// A fetch begins in `Phase::Start`, whose action is to resolve the request,
/// and is over at `Finish`, `Abort` or `Fail`.
pub fn fetch_step(req: &FetchRequest, phase: Phase, event: FetchEvent) -> (r: (Phase, FetchAction))
    ensures
        r.0 == next_phase_of(phase, event),
        action_of(*req, r.0, r.1),
{
    let next = next_phase(phase, event);
    let action = pending_action(req, &next);
    (next, action)
}

/// A fetch of a component that is cached already downloads nothing and is
/// over at once, and stays over whatever is reported after; a fetch that had
/// to download it ends in the same place. Either way the tarball handed back
/// is the one in the cache directory of the resolved component, so repeated
/// fetches of one resolved key give one path.
pub proof fn lemma_fetch_of_cached_key(req: FetchRequest, c: Component)
    ensures
        next_phase_of(Phase::Checking(c), FetchEvent::Answer(true)) == Phase::Done(c),
        next_phase_of(Phase::Confirming(c), FetchEvent::Answer(true)) == Phase::Done(c),
        forall|e: FetchEvent| #[trigger] next_phase_of(Phase::Done(c), e) == Phase::Done(c),
        forall|a: FetchAction| #[trigger]
            action_of(req, Phase::Done(c), a) ==> (a matches FetchAction::Finish {
                tarball,
                component,
            } && tarball@ == cached_tarball_of(req, c) && component == c),
{
}

/// A cache directory appears only once its content is complete. A finished
/// download is first checked for; when it is missing the fetch fails with
/// `MissingTarball` before anything is created. The entry is put together in
/// a partial directory that is never a cache directory, and only a rename of
/// that complete directory, which comes after the copy, creates the cache
/// directory; each step on that path is reached only from the one before.
pub proof fn lemma_cache_dir_appears_complete(req: FetchRequest, c: Component)
    ensures
        next_phase_of(Phase::Downloading(c), FetchEvent::Completed) == Phase::Staging(c),
        next_phase_of(Phase::Staging(c), FetchEvent::Answer(false)) == Phase::Failed(
            CliError::MissingTarball,
        ),
        partial_of(req, c) != dir_of(req, c),
        forall|p: Phase, e: FetchEvent| #[trigger]
            next_phase_of(p, e) is Creating ==> p is Creating || (p is Staging && e
                == FetchEvent::Answer(true)),
        forall|p: Phase, e: FetchEvent| #[trigger]
            next_phase_of(p, e) is Copying ==> p is Copying || (p is Creating && e is Completed),
        forall|p: Phase, e: FetchEvent| #[trigger]
            next_phase_of(p, e) is Publishing ==> p is Publishing || (p is Copying
                && e is Completed),
        forall|a: FetchAction| #[trigger]
            action_of(req, Phase::Creating(c), a) ==> (a matches FetchAction::CreateDir { dir }
                && dir@ != dir_of(req, c)),
        forall|a: FetchAction| #[trigger]
            action_of(req, Phase::Publishing(c), a) ==> (a matches FetchAction::Rename { from, to }
                && from@ == partial_of(req, c) && to@ == dir_of(req, c)),
{
    reveal_strlit(".partial");
    assert(partial_of(req, c).len() != dir_of(req, c).len());
}

} // verus!
