//! The version-control routines each task runs: clone with submodules, and
//! fetch then hard reset with submodules.
use vstd::prelude::*;
use git2::build::RepoBuilder;
use git2::{FetchOptions, Object, Oid, Remote, Repository, Submodule};
use git2::Error as LibGitError;
use crate::package::opt_str;

verus! {

#[verifier::external_type_specification]
#[verifier::external_body]
pub struct ExGit2Error(LibGitError);

#[verifier::external_type_specification]
#[verifier::external_body]
pub struct ExRepository(Repository);

#[verifier::external_type_specification]
#[verifier::external_body]
pub struct ExSubmodule<'repo>(Submodule<'repo>);

#[verifier::external_type_specification]
#[verifier::external_body]
pub struct ExRepoBuilder<'cb>(RepoBuilder<'cb>);

#[verifier::external_type_specification]
#[verifier::external_body]
pub struct ExFetchOptions<'cb>(FetchOptions<'cb>);

#[verifier::external_type_specification]
#[verifier::external_body]
pub struct ExRemote<'repo>(Remote<'repo>);

#[verifier::external_type_specification]
#[verifier::external_body]
pub struct ExOid(Oid);

#[verifier::external_type_specification]
#[verifier::external_body]
pub struct ExObject<'repo>(Object<'repo>);

/// Why a version-control routine failed.
#[derive(Debug)]
pub enum GitError {
    /// libgit2 reported an error.
    Git(LibGitError),
    /// The branch name holds a NUL character, which libgit2 cannot take.
    InvalidBranch,
    /// The submodule tree holds more repositories than a traversal visits.
    SubmoduleLimit,
}

/// The host that plugin names are resolved against.
pub const LOCATION: &'static str = "https://github.com";

/// How many repositories one submodule traversal visits at most.
pub const MAX_REPOSITORIES: u64 = 0xffff_ffff_ffff_ffff;

/// The refspec that a fetch asks for: every branch, into the same name.
pub const HEADS_REFSPEC: &'static str = "refs/heads/*:refs/heads/*";

/// The remote URL of the plugin `name`: the host, a slash, then the name.
pub open spec fn url_of(name: Seq<char>) -> Seq<char> {
    LOCATION@ + "/"@ + name
}

/// The remote URL of the plugin `name`: the host, a slash, then the name.
pub fn github_url(name: &str) -> (r: String)
    ensures
        r@ == url_of(name@),
{
    let mut r = String::from_str(LOCATION);
    r.append("/");
    r.append(name);
    r
}

/// Whether an update walks into the submodule so named: every one but `docs`.
pub fn syncs_submodule(name: &Option<String>) -> (r: bool)
    ensures
        r == !is_docs(opt_str(*name)),
{
    match name {
        Some(n) => {
            let docs = String::from_str("docs");
            !(*n == docs)
        },
        None => true,
    }
}

/// Whether `s` holds a NUL character.
pub fn has_nul(s: &str) -> (r: bool)
    ensures
        r == s@.contains('\0'),
{
    let n = s.unicode_len();
    let mut i: usize = 0;
    while i < n
        invariant
            n == s@.len(),
            i <= n,
            forall|k: int| 0 <= k < i ==> s@[k] != '\0',
        decreases n - i,
    {
        if s.get_char(i) == '\0' {
            return true;
        }
        i = i + 1;
    }
    false
}

/// Whether a submodule is named `docs`.
pub open spec fn is_docs(name: Option<Seq<char>>) -> bool {
    name == Some("docs"@)
}

/// What a walk over submodules does with one submodule.
#[derive(Debug, Clone, Copy, PartialEq, Eq, Structural)]
pub enum SubStep {
    /// Leave it, and what lies below it, alone.
    Skip,
    /// Stop the walk with the error that came back.
    Fail,
    /// Walk into its repository later.
    Descend,
}

/// A submodule named `docs` is skipped where `skip_docs` holds; any other
/// fails the walk unless it was updated and its repository opened, and is
/// then walked into.
pub open spec fn step_of(name: Option<Seq<char>>, updated: bool, opened: bool, skip_docs: bool) -> SubStep {
    if skip_docs && is_docs(name) {
        SubStep::Skip
    } else if !updated || !opened {
        SubStep::Fail
    } else {
        SubStep::Descend
    }
}

/// Decides what a walk does with the submodule `name`, given whether its
/// update succeeded and whether its repository opened.
pub fn submodule_step(name: &Option<String>, updated: bool, opened: bool, skip_docs: bool) -> (r: SubStep)
    ensures
        r == step_of(opt_str(*name), updated, opened, skip_docs),
{
    if skip_docs && !syncs_submodule(name) {
        SubStep::Skip
    } else if !updated || !opened {
        SubStep::Fail
    } else {
        SubStep::Descend
    }
}

/// One submodule as a walk met it.
#[derive(Debug)]
pub struct Visit {
    pub name: Option<String>,
    pub updated: bool,
    pub opened: bool,
    pub step: SubStep,
}

/// What a walk over submodules records, in order.
#[derive(Debug)]
pub enum WalkEvent {
    /// The submodules of the next queued repository were listed: this many.
    Listed(usize),
    /// One submodule of the repository listed last was handled.
    Visited(Visit),
}

/// Where a walk stands after its events: repositories queued but not yet
/// listed, submodules listed but not yet handled, whether the last event
/// failed, and whether every event was in order.
pub struct WalkState {
    pub listed: int,
    pub queued: int,
    pub left: int,
    pub failed: bool,
    pub legal: bool,
}

/// The state a walk reaches through `log`, starting with its root queued:
/// also how many repositories it listed.
/// An event is in order when nothing failed before it; a listing comes once
/// the previous repository's submodules are all handled and one is queued; a
/// submodule is handled while its repository's list lasts, with the step
/// that `step_of` gives; a skipped one was neither updated nor opened.
pub open spec fn walk_state(log: Seq<WalkEvent>, skip_docs: bool) -> WalkState
    decreases log.len(),
{
    if log.len() == 0 {
        WalkState { listed: 0, queued: 1, left: 0, failed: false, legal: true }
    } else {
        let s = walk_state(log.drop_last(), skip_docs);
        match log.last() {
            WalkEvent::Listed(n) => WalkState {
                listed: s.listed + 1,
                queued: s.queued - 1,
                left: n as int,
                failed: false,
                legal: s.legal && !s.failed && s.left == 0 && s.queued > 0,
            },
            WalkEvent::Visited(v) => WalkState {
                listed: s.listed,
                queued: if v.step == SubStep::Descend { s.queued + 1 } else { s.queued },
                left: s.left - 1,
                failed: v.step == SubStep::Fail,
                legal: s.legal && !s.failed && s.left > 0 && v.step == step_of(opt_str(v.name), v.updated, v.opened, skip_docs)
                    && (v.step == SubStep::Skip ==> !v.updated && !v.opened),
            },
        }
    }
}

/// A walk that went through the whole tree: every repository queued was
/// listed, every submodule listed was handled, and none failed.
pub open spec fn walk_complete(log: Seq<WalkEvent>, skip_docs: bool) -> bool {
    let s = walk_state(log, skip_docs);
    s.legal && !s.failed && s.queued == 0 && s.left == 0
}

/// A step of syncing a repository that succeeded.
#[derive(Debug, Clone, Copy, PartialEq, Eq, Structural)]
pub enum Stage {
    Cloned,
    AllTags,
    Opened,
    RemoteMade,
    Fetched,
    HeadResolved,
    ObjectFound,
    Reset,
}

/// The steps of a fetch.
pub open spec fn fetch_stages() -> Seq<Stage> {
    seq![Stage::AllTags, Stage::RemoteMade, Stage::Fetched]
}

/// The steps of syncing an open repository with its remote.
pub open spec fn sync_stages() -> Seq<Stage> {
    fetch_stages() + seq![Stage::HeadResolved, Stage::ObjectFound, Stage::Reset]
}

/// The steps of an update.
pub open spec fn update_stages() -> Seq<Stage> {
    seq![Stage::Opened] + sync_stages()
}

/// Whether `a` begins `b`.
pub open spec fn is_prefix<T>(a: Seq<T>, b: Seq<T>) -> bool {
    a.len() <= b.len() && a == b.subrange(0, a.len() as int)
}

/// What a sync did: the steps that succeeded, its walk over submodules, and
/// the URL, branch and refspec that it handed to libgit2.
#[derive(Debug)]
pub struct SyncLog {
    pub stages: Vec<Stage>,
    pub walk: Vec<WalkEvent>,
    pub url: Option<String>,
    pub branch: Option<String>,
    pub refspec: Option<String>,
}

impl SyncLog {
    pub open spec fn is_empty(&self) -> bool {
        &&& self.stages@.len() == 0
        &&& self.walk@.len() == 0
        &&& self.url is None
        &&& self.branch is None
        &&& self.refspec is None
    }

    pub fn new() -> (r: SyncLog)
        ensures
            r.is_empty(),
    {
        SyncLog { stages: Vec::new(), walk: Vec::new(), url: None, branch: None, refspec: None }
    }
}

/// An update of the plugin `name` that did everything: opened, fetched every
/// branch and tag of `url_of(name)`, reset, and walked every submodule but
/// `docs`.
pub open spec fn update_complete(log: SyncLog, name: Seq<char>) -> bool {
    &&& log.stages@ == update_stages()
    &&& walk_complete(log.walk@, true)
    &&& opt_str(log.url) == Some(url_of(name))
    &&& opt_str(log.refspec) == Some(HEADS_REFSPEC@)
    &&& log.branch is None
}

/// A clone of `url` at `branch` that did everything: cloned, and walked
/// every submodule.
pub open spec fn clone_complete(log: SyncLog, url: Seq<char>, branch: Option<Seq<char>>) -> bool {
    &&& log.stages@ == seq![Stage::Cloned]
    &&& walk_complete(log.walk@, false)
    &&& opt_str(log.url) == Some(url)
    &&& opt_str(log.branch) == branch
    &&& log.refspec is None
}

/// Whether a failed clone's target is to be deleted, as it may hold a
/// partial clone: on any failure but a refused branch name, before which
/// nothing was touched.
pub fn clone_cleanup(r: &Result<(), GitError>) -> (c: bool)
    ensures
        c == (r is Err && !(r matches Err(GitError::InvalidBranch))),
{
    match r {
        Ok(()) => false,
        Err(GitError::InvalidBranch) => false,
        Err(_) => true,
    }
}

/// Relies on git2::build::RepoBuilder::new: a builder with default options.
#[verifier::external_body]
fn repo_builder() -> RepoBuilder<'static> {
    RepoBuilder::new()
}

/// Relies on git2::build::RepoBuilder::branch: the clone checks out `branch`.
/// It panics on a name with a NUL character.
#[verifier::external_body]
fn builder_branch(builder: &mut RepoBuilder<'static>, branch: String) -> (r: String)
    requires
        !branch@.contains('\0'),
    ensures
        r@ == branch@,
{
    builder.branch(&branch);
    branch
}

/// Relies on git2::build::RepoBuilder::clone: clones `url` into the
/// directory `into`. Hands `url` back.
#[verifier::external_body]
fn builder_clone(builder: &mut RepoBuilder<'static>, url: String, into: &str) -> (r: (Result<Repository, LibGitError>, String))
    ensures
        r.1@ == url@,
{
    (builder.clone(&url, std::path::Path::new(into)), url)
}

/// Relies on git2::Repository::open: opens the repository at `path`.
#[verifier::external_body]
fn repository_open(path: &str) -> Result<Repository, LibGitError> {
    Repository::open(path)
}

/// Relies on git2::Repository::submodules: the submodules of `repo`.
#[verifier::external_body]
fn repository_submodules(repo: &Repository) -> Result<Vec<Submodule<'_>>, LibGitError> {
    repo.submodules()
}

/// Relies on git2::Submodule::name: the submodule's name, if it is UTF-8.
#[verifier::external_body]
fn submodule_name(sub: &Submodule<'_>) -> Option<String> {
    sub.name().map(|n| n.to_string())
}

/// Relies on git2::Submodule::init: copies the submodule's settings into the
/// parent's configuration, replacing entries already there when `overwrite`.
#[verifier::external_body]
fn submodule_init(sub: &mut Submodule<'_>, overwrite: bool) -> Result<(), LibGitError> {
    sub.init(overwrite)
}

/// Relies on git2::Submodule::update: clones a missing submodule and checks
/// out the commit that the parent records, initialising it first when `init`.
#[verifier::external_body]
fn submodule_update(sub: &mut Submodule<'_>, init: bool) -> Result<(), LibGitError> {
    sub.update(init, None)
}

/// Relies on git2::Submodule::open: opens the submodule's own repository.
#[verifier::external_body]
fn submodule_open(sub: &Submodule<'_>) -> Result<Repository, LibGitError> {
    sub.open()
}

/// Relies on git2::FetchOptions::new: fetch options with default values.
#[verifier::external_body]
fn fetch_options() -> FetchOptions<'static> {
    FetchOptions::new()
}

/// Relies on git2::FetchOptions::download_tags: a fetch downloads all tags.
#[verifier::external_body]
fn fetch_all_tags(opts: &mut FetchOptions<'static>) {
    opts.download_tags(git2::AutotagOption::All);
}

/// Relies on git2::FetchOptions::update_fetchhead: whether a fetch writes
/// FETCH_HEAD.
#[verifier::external_body]
fn fetch_update_head(opts: &mut FetchOptions<'static>, update: bool) {
    opts.update_fetchhead(update);
}

/// Relies on git2::Repository::remote_anonymous: an unnamed remote at `url`.
/// Hands `url` back.
#[verifier::external_body]
fn anonymous_remote<'r>(repo: &'r Repository, url: String) -> (r: (Result<Remote<'r>, LibGitError>, String))
    ensures
        r.1@ == url@,
{
    (repo.remote_anonymous(&url), url)
}

/// Relies on git2::Remote::fetch: fetches what `refspec` names. Hands
/// `refspec` back.
#[verifier::external_body]
fn remote_fetch(remote: &mut Remote<'_>, refspec: String, opts: &mut FetchOptions<'static>) -> (r: (Result<(), LibGitError>, String))
    ensures
        r.1@ == refspec@,
{
    (remote.fetch(&[refspec.as_str()], Some(opts), None), refspec)
}

/// Relies on git2::Repository::refname_to_id: the commit a reference names.
#[verifier::external_body]
fn reference_target(repo: &Repository, name: &str) -> Result<Oid, LibGitError> {
    repo.refname_to_id(name)
}

/// Relies on git2::Repository::find_object: the object with id `oid`.
#[verifier::external_body]
fn find_object<'r>(repo: &'r Repository, oid: Oid) -> Result<Object<'r>, LibGitError> {
    repo.find_object(oid, None)
}

/// Relies on git2::Repository::reset with a hard reset: moves HEAD to
/// `target` and makes index and working tree match it.
#[verifier::external_body]
fn hard_reset(repo: &Repository, target: &Object<'_>) -> Result<(), LibGitError> {
    repo.reset(target, git2::ResetType::Hard, None)
}

/// Fetches every branch and tag of the plugin `name` into `repo`, through
/// an anonymous remote at `github_url(name)`.
pub fn fetch(repo: &Repository, name: &str, log: &mut SyncLog) -> (r: Result<(), GitError>)
    ensures
        final(log).walk@ == old(log).walk@,
        final(log).branch == old(log).branch,
        opt_str(final(log).url) == Some(url_of(name@)),
        r is Ok <==> final(log).stages@ == old(log).stages@ + fetch_stages(),
        r is Ok ==> opt_str(final(log).refspec) == Some(HEADS_REFSPEC@),
        !(r is Ok) ==> final(log).refspec == old(log).refspec,
        r is Err ==> r matches Err(GitError::Git(_)),
        is_prefix(final(log).stages@, old(log).stages@ + fetch_stages()),
{
    let ghost before = log.stages@;
    let ghost full = before + fetch_stages();
    let url = github_url(name);
    let mut opts = fetch_options();
    fetch_all_tags(&mut opts);
    log.stages.push(Stage::AllTags);
    fetch_update_head(&mut opts, true);
    let (made, used) = anonymous_remote(repo, url);
    log.url = Some(used);
    let mut remote = match made {
        Ok(r) => r,
        Err(e) => {
            assert(log.stages@ =~= full.subrange(0, before.len() as int + 1));
            return Err(GitError::Git(e));
        },
    };
    log.stages.push(Stage::RemoteMade);
    let (fetched, spec_used) = remote_fetch(&mut remote, String::from_str(HEADS_REFSPEC), &mut opts);
    match fetched {
        Ok(()) => {
            log.refspec = Some(spec_used);
            log.stages.push(Stage::Fetched);
            assert(log.stages@ =~= full);
            assert(log.stages@ =~= full.subrange(0, log.stages@.len() as int));
            Ok(())
        },
        Err(e) => {
            assert(log.stages@ =~= full.subrange(0, before.len() as int + 2));
            Err(GitError::Git(e))
        },
    }
}

/// Fetches, hard resets the working tree to `HEAD`, then updates every
/// submodule but `docs`, at any depth.
pub fn sync_repo(repo: &Repository, name: &str, log: &mut SyncLog) -> (r: Result<(), GitError>)
    requires
        old(log).walk@.len() == 0,
        old(log).refspec is None,
    ensures
        final(log).branch == old(log).branch,
        opt_str(final(log).url) == Some(url_of(name@)),
        r is Ok <==> final(log).stages@ == old(log).stages@ + sync_stages() && walk_complete(final(log).walk@, true)
            && opt_str(final(log).refspec) == Some(HEADS_REFSPEC@),
        r matches Err(GitError::InvalidBranch) ==> false,
        r matches Err(GitError::SubmoduleLimit) ==> final(log).stages@ == old(log).stages@ + sync_stages()
            && walk_state(final(log).walk@, true).listed > MAX_REPOSITORIES,
        is_prefix(final(log).stages@, old(log).stages@ + sync_stages()),
        walk_state(final(log).walk@, true).legal,
{
    let ghost before = log.stages@;
    let ghost full = before + sync_stages();
    let r = fetch(repo, name, log);
    if r.is_err() {
        assert(is_prefix(log.stages@, full)) by {
            assert((before + fetch_stages()) =~= full.subrange(0, before.len() as int + 3));
            assert(log.stages@ =~= full.subrange(0, log.stages@.len() as int));
        }
        return r;
    }
    let oid = match reference_target(repo, "HEAD") {
        Ok(o) => o,
        Err(e) => {
            assert(log.stages@ =~= full.subrange(0, before.len() as int + 3));
            return Err(GitError::Git(e));
        },
    };
    log.stages.push(Stage::HeadResolved);
    let object = match find_object(repo, oid) {
        Ok(o) => o,
        Err(e) => {
            assert(log.stages@ =~= full.subrange(0, before.len() as int + 4));
            return Err(GitError::Git(e));
        },
    };
    log.stages.push(Stage::ObjectFound);
    match hard_reset(repo, &object) {
        Ok(()) => {},
        Err(e) => {
            assert(log.stages@ =~= full.subrange(0, before.len() as int + 5));
            return Err(GitError::Git(e));
        },
    }
    log.stages.push(Stage::Reset);
    assert(log.stages@ =~= full);
    assert(full.subrange(0, full.len() as int) =~= full);
    update_submodules(repo, &mut log.walk)
}

/// Handles each submodule of `repo`, the next repository of a walk: a clone
/// initialises and updates it; an update skips one named `docs` and updates
/// the others. Each opened repository joins `found`, to be walked later.
fn visit_submodules(
    repo: &Repository,
    skip_docs: bool,
    found: &mut Vec<Repository>,
    log: &mut Vec<WalkEvent>,
) -> (r: Result<(), GitError>)
    requires
        walk_state(old(log)@, skip_docs).legal,
        !walk_state(old(log)@, skip_docs).failed,
        walk_state(old(log)@, skip_docs).left == 0,
        walk_state(old(log)@, skip_docs).queued == old(found)@.len() + 1,
    ensures
        walk_state(final(log)@, skip_docs).legal,
        r is Ok ==> !walk_state(final(log)@, skip_docs).failed && walk_state(final(log)@, skip_docs).left == 0
            && walk_state(final(log)@, skip_docs).queued == final(found)@.len()
            && walk_state(final(log)@, skip_docs).listed == walk_state(old(log)@, skip_docs).listed + 1,
        r is Err ==> r matches Err(GitError::Git(_)),
        r is Err ==> walk_state(final(log)@, skip_docs).failed || walk_state(final(log)@, skip_docs).queued > 0,
{
    let mut subs = match repository_submodules(repo) {
        Ok(s) => s,
        Err(e) => return Err(GitError::Git(e)),
    };
    let ghost pre = log@;
    log.push(WalkEvent::Listed(subs.len()));
    assert(log@.drop_last() =~= pre);
    while subs.len() > 0
        invariant
            walk_state(log@, skip_docs).legal,
            !walk_state(log@, skip_docs).failed,
            walk_state(log@, skip_docs).left == subs.len(),
            walk_state(log@, skip_docs).queued == found@.len(),
            walk_state(log@, skip_docs).listed == walk_state(old(log)@, skip_docs).listed + 1,
        decreases subs.len(),
    {
        let mut sub = subs.remove(0);
        let name = submodule_name(&sub);
        let ghost pre = log@;
        if skip_docs && !syncs_submodule(&name) {
            let step = submodule_step(&name, false, false, skip_docs);
            log.push(WalkEvent::Visited(Visit { name, updated: false, opened: false, step }));
            assert(log@.drop_last() =~= pre);
        } else {
            let mut res = if skip_docs {
                Ok(())
            } else {
                submodule_init(&mut sub, false)
            };
            if res.is_ok() {
                res = submodule_update(&mut sub, true);
            }
            match res {
                Err(e) => {
                    let step = submodule_step(&name, false, false, skip_docs);
                    log.push(WalkEvent::Visited(Visit { name, updated: false, opened: false, step }));
                    assert(log@.drop_last() =~= pre);
                    return Err(GitError::Git(e));
                },
                Ok(()) => match submodule_open(&sub) {
                    Err(e) => {
                        let step = submodule_step(&name, true, false, skip_docs);
                        log.push(WalkEvent::Visited(Visit { name, updated: true, opened: false, step }));
                        assert(log@.drop_last() =~= pre);
                        return Err(GitError::Git(e));
                    },
                    Ok(opened) => {
                        let step = submodule_step(&name, true, true, skip_docs);
                        found.push(opened);
                        log.push(WalkEvent::Visited(Visit { name, updated: true, opened: true, step }));
                        assert(log@.drop_last() =~= pre);
                    },
                },
            }
        }
    }
    Ok(())
}

/// Walks the whole submodule tree below `root`, a repository at a time.
/// The walk stops at the first failure and returns it; it gives up with
/// `SubmoduleLimit` only once it has listed more than `MAX_REPOSITORIES`
/// repositories.
fn walk_submodules(root: &Repository, skip_docs: bool, log: &mut Vec<WalkEvent>) -> (r: Result<(), GitError>)
    requires
        old(log)@.len() == 0,
    ensures
        walk_state(final(log)@, skip_docs).legal,
        r is Ok <==> walk_complete(final(log)@, skip_docs),
        r matches Err(GitError::InvalidBranch) ==> false,
        r matches Err(GitError::SubmoduleLimit) ==> walk_state(final(log)@, skip_docs).listed > MAX_REPOSITORIES,
{
    let mut todo: Vec<Repository> = Vec::new();
    visit_submodules(root, skip_docs, &mut todo, log)?;
    let mut budget: u64 = MAX_REPOSITORIES;
    while todo.len() > 0
        invariant
            walk_state(log@, skip_docs).legal,
            !walk_state(log@, skip_docs).failed,
            walk_state(log@, skip_docs).left == 0,
            walk_state(log@, skip_docs).queued == todo@.len(),
            walk_state(log@, skip_docs).listed == 1 + MAX_REPOSITORIES - budget,
        decreases budget,
    {
        if budget == 0 {
            return Err(GitError::SubmoduleLimit);
        }
        budget = budget - 1;
        match todo.pop() {
            Some(sub) => visit_submodules(&sub, skip_docs, &mut todo, log)?,
            None => {},
        }
    }
    Ok(())
}

/// Clones `url` into `path`, checking out `branch` where one is given, then
/// initialises and updates every submodule, nested ones included. A branch
/// name with a NUL character is refused before anything is called. The log
/// records the URL and branch handed to libgit2.
pub fn clone_recursive(url: &str, path: &str, branch: &Option<String>, log: &mut SyncLog) -> (r: Result<Repository, GitError>)
    requires
        old(log).is_empty(),
    ensures
        (branch matches Some(b) && b@.contains('\0')) <==> r matches Err(GitError::InvalidBranch),
        r matches Err(GitError::InvalidBranch) ==> final(log).is_empty(),
        !(r matches Err(GitError::InvalidBranch)) ==> opt_str(final(log).url) == Some(url@)
            && opt_str(final(log).branch) == opt_str(*branch),
        r is Ok <==> clone_complete(*final(log), url@, opt_str(*branch)),
        r matches Err(GitError::SubmoduleLimit) ==> final(log).stages@ == seq![Stage::Cloned]
            && walk_state(final(log).walk@, false).listed > MAX_REPOSITORIES,
        is_prefix(final(log).stages@, seq![Stage::Cloned]),
        walk_state(final(log).walk@, false).legal,
{
    match branch {
        Some(b) => if has_nul(b.as_str()) {
            assert(log.stages@ =~= seq![Stage::Cloned].subrange(0, 0));
            return Err(GitError::InvalidBranch);
        },
        None => {},
    }
    let mut builder = repo_builder();
    match branch {
        Some(b) => {
            let used = builder_branch(&mut builder, b.clone());
            log.branch = Some(used);
        },
        None => {},
    }
    let (cloned, used_url) = builder_clone(&mut builder, String::from_str(url), path);
    log.url = Some(used_url);
    let repo = match cloned {
        Ok(r) => r,
        Err(e) => {
            assert(log.stages@ =~= seq![Stage::Cloned].subrange(0, 0));
            return Err(GitError::Git(e));
        },
    };
    log.stages.push(Stage::Cloned);
    assert(log.stages@ =~= seq![Stage::Cloned]);
    assert(seq![Stage::Cloned].subrange(0, 1) =~= seq![Stage::Cloned]);
    walk_submodules(&repo, false, &mut log.walk)?;
    Ok(repo)
}

/// Clones the plugin `name` from `github_url(name)` into `target` with its
/// submodules. Where this fails, `clone_cleanup` tells whether the caller
/// deletes `target`, which may hold a partial clone.
pub fn clone(name: &str, target: &str, branch: &Option<String>, log: &mut SyncLog) -> (r: Result<(), GitError>)
    requires
        old(log).is_empty(),
    ensures
        (branch matches Some(b) && b@.contains('\0')) <==> r matches Err(GitError::InvalidBranch),
        !(r matches Err(GitError::InvalidBranch)) ==> opt_str(final(log).url) == Some(url_of(name@))
            && opt_str(final(log).branch) == opt_str(*branch),
        r is Ok <==> clone_complete(*final(log), url_of(name@), opt_str(*branch)),
        r matches Err(GitError::SubmoduleLimit) ==> final(log).stages@ == seq![Stage::Cloned]
            && walk_state(final(log).walk@, false).listed > MAX_REPOSITORIES,
        is_prefix(final(log).stages@, seq![Stage::Cloned]),
        walk_state(final(log).walk@, false).legal,
{
    let url = github_url(name);
    clone_recursive(url.as_str(), target, branch, log)?;
    Ok(())
}

/// Brings the repository at `path` up to date with the plugin `name`'s
/// remote. On failure the repository stays as the failed step left it.
pub fn update(name: &str, path: &str, log: &mut SyncLog) -> (r: Result<(), GitError>)
    requires
        old(log).is_empty(),
    ensures
        r is Ok <==> update_complete(*final(log), name@),
        r is Err ==> r matches Err(GitError::Git(_)) || r matches Err(GitError::SubmoduleLimit),
        r matches Err(GitError::SubmoduleLimit) ==> final(log).stages@ == update_stages()
            && walk_state(final(log).walk@, true).listed > MAX_REPOSITORIES,
        final(log).branch is None,
        is_prefix(final(log).stages@, update_stages()),
        walk_state(final(log).walk@, true).legal,
{
    let repo = match repository_open(path) {
        Ok(r) => r,
        Err(e) => {
            assert(log.stages@ =~= update_stages().subrange(0, 0));
            return Err(GitError::Git(e));
        },
    };
    log.stages.push(Stage::Opened);
    assert(log.stages@ =~= seq![Stage::Opened]);
    assert(seq![Stage::Opened] + sync_stages() =~= update_stages());
    sync_repo(&repo, name, log)
}

/// Updates the whole submodule tree of `repo`, nested submodules included,
/// skipping any submodule named `docs` and what lies below it.
pub fn update_submodules(repo: &Repository, log: &mut Vec<WalkEvent>) -> (r: Result<(), GitError>)
    requires
        old(log)@.len() == 0,
    ensures
        r is Ok <==> walk_complete(final(log)@, true),
        r matches Err(GitError::InvalidBranch) ==> false,
        r matches Err(GitError::SubmoduleLimit) ==> walk_state(final(log)@, true).listed > MAX_REPOSITORIES,
        walk_state(final(log)@, true).legal,
{
    walk_submodules(repo, true, log)
}

} // verus!
