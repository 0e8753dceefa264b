//! Resolving a reference to a workspace directory, as a machine that decides
//! each next action from the outcome of the previous one. The caller carries
//! out the actions (looking at the file system, creating directories,
//! running the clone) and reports what happened.

use vstd::prelude::*;
use vstd::string::*;
use crate::reference::{
    lemma_parsed_components_valid, parse_spec, shorthand_text, valid_component, ParseError, ParseErrorView,
    Repository, RepositoryView,
};
use crate::text::{join, join_path};

verus! {

/// Why a run failed.
#[derive(Debug)]
pub enum RunError {
    /// No base directory was configured.
    BaseNotSet,
    /// The configured base directory is not a directory.
    BaseNotDirectory(String),
    /// The reference could not be read.
    Parse(ParseError),
    /// The workspace directory could not be created.
    DirectoryCreateFailed,
    /// The clone could not be started.
    CloneExecFailed,
    /// The clone ended with this non-zero exit code.
    CloneUnsuccessful(i32),
}

pub enum RunErrorView {
    BaseNotSet,
    BaseNotDirectory(Seq<char>),
    Parse(ParseErrorView),
    DirectoryCreateFailed,
    CloneExecFailed,
    CloneUnsuccessful(i32),
}

impl View for RunError {
    type V = RunErrorView;

    open spec fn view(&self) -> RunErrorView {
        match self {
            RunError::BaseNotSet => RunErrorView::BaseNotSet,
            RunError::BaseNotDirectory(b) => RunErrorView::BaseNotDirectory(b@),
            RunError::Parse(e) => RunErrorView::Parse(e@),
            RunError::DirectoryCreateFailed => RunErrorView::DirectoryCreateFailed,
            RunError::CloneExecFailed => RunErrorView::CloneExecFailed,
            RunError::CloneUnsuccessful(c) => RunErrorView::CloneUnsuccessful(*c),
        }
    }
}

/// What the caller is to do next.
#[derive(Debug)]
pub enum Action {
    /// Report whether this path (the workspace's `.git`) is a directory.
    InspectMarker(String),
    /// Create this directory and its missing ancestors, and report success.
    CreateDirectories(String),
    /// Run `git clone <url> <destination>` and report how it ended.
    Clone { url: String, destination: String },
    /// Remove this directory if it is empty, ignoring any failure.
    RemoveIfEmpty(String),
    /// Stop: the workspace path, or the error to report.
    Finish(Result<String, RunError>),
}

pub enum ActionView {
    InspectMarker(Seq<char>),
    CreateDirectories(Seq<char>),
    Clone { url: Seq<char>, destination: Seq<char> },
    RemoveIfEmpty(Seq<char>),
    Finish(Result<Seq<char>, RunErrorView>),
}

impl View for Action {
    type V = ActionView;

    open spec fn view(&self) -> ActionView {
        match self {
            Action::InspectMarker(p) => ActionView::InspectMarker(p@),
            Action::CreateDirectories(p) => ActionView::CreateDirectories(p@),
            Action::Clone { url, destination } => ActionView::Clone { url: url@, destination: destination@ },
            Action::RemoveIfEmpty(p) => ActionView::RemoveIfEmpty(p@),
            Action::Finish(Ok(p)) => ActionView::Finish(Ok(p@)),
            Action::Finish(Err(e)) => ActionView::Finish(Err(e@)),
        }
    }
}

/// What happened when the caller carried out an action.
#[derive(Clone, Copy, Debug, PartialEq, Eq, Structural)]
pub enum Event {
    /// The workspace's `.git` directory is present (`true`) or not.
    MarkerFound(bool),
    /// The workspace directory was created (`true`) or not.
    DirectoriesCreated(bool),
    /// The clone process could not be started.
    CloneFailedToStart,
    /// The clone process exited with this code; `None` when a signal ended it.
    CloneExited(Option<i32>),
    /// A removal was attempted; its outcome does not matter.
    RemovalAttempted,
}

/// Where a resolution stands.
#[derive(Clone, Copy, Debug, PartialEq, Eq, Structural)]
pub enum Phase {
    Marker,
    Create,
    Clone,
    CleanTarget,
    CleanOwner,
    CleanProvider,
    Done,
}

/// A resolution in progress.
pub struct Resolver {
    phase: Phase,
    target: String,
    url: String,
    owner_dir: String,
    provider_dir: String,
    pending: Option<RunError>,
}

pub struct ResolverView {
    pub phase: Phase,
    pub target: Seq<char>,
    pub url: Seq<char>,
    pub owner_dir: Seq<char>,
    pub provider_dir: Seq<char>,
    pub pending: Option<RunErrorView>,
}

impl View for Resolver {
    type V = ResolverView;

    closed spec fn view(&self) -> ResolverView {
        ResolverView {
            phase: self.phase,
            target: self.target@,
            url: self.url@,
            owner_dir: self.owner_dir@,
            provider_dir: self.provider_dir@,
            pending: match self.pending {
                Some(e) => Some(e@),
                None => None,
            },
        }
    }
}

pub open spec fn git_marker_name() -> Seq<char> {
    seq!['.', 'g', 'i', 't']
}

/// The workspace of `repo` under `base`: `base/provider/owner/name`.
pub open spec fn workspace_spec(base: Seq<char>, repo: RepositoryView) -> Seq<char> {
    join_path(base, repo.directory_spec())
}

/// The resolution of `repo` under `base`, before anything was looked at.
pub open spec fn initial_spec(base: Seq<char>, repo: RepositoryView) -> ResolverView {
    ResolverView {
        phase: Phase::Marker,
        target: workspace_spec(base, repo),
        url: repo.url_spec(),
        owner_dir: join_path(base, join_path(repo.provider.token_spec(), repo.owner)),
        provider_dir: join_path(base, repo.provider.token_spec()),
        pending: None,
    }
}

/// What `begin` does: check the base directory first, then read the
/// reference, then look for the workspace's marker.
pub open spec fn begin_spec(base: Option<Seq<char>>, base_is_dir: bool, input: Seq<char>) -> (ResolverView, ActionView) {
    match base {
        None => (ended(), ActionView::Finish(Err(RunErrorView::BaseNotSet))),
        Some(b) => if !base_is_dir {
            (ended(), ActionView::Finish(Err(RunErrorView::BaseNotDirectory(b))))
        } else {
            match parse_spec(input) {
                Err(e) => (ended(), ActionView::Finish(Err(RunErrorView::Parse(e)))),
                Ok(repo) => (
                    initial_spec(b, repo),
                    ActionView::InspectMarker(join_path(workspace_spec(b, repo), git_marker_name())),
                ),
            }
        },
    }
}

/// A resolution that never started.
pub open spec fn ended() -> ResolverView {
    ResolverView {
        phase: Phase::Done,
        target: Seq::empty(),
        url: Seq::empty(),
        owner_dir: Seq::empty(),
        provider_dir: Seq::empty(),
        pending: None,
    }
}

pub open spec fn with_phase(s: ResolverView, phase: Phase, pending: Option<RunErrorView>) -> ResolverView {
    ResolverView {
        phase,
        target: s.target,
        url: s.url,
        owner_dir: s.owner_dir,
        provider_dir: s.provider_dir,
        pending,
    }
}

/// Whether `e` answers the action that a resolution in `phase` asked for.
pub open spec fn expects(phase: Phase, e: Event) -> bool {
    match phase {
        Phase::Marker => e is MarkerFound,
        Phase::Create => e is DirectoriesCreated,
        Phase::Clone => e is CloneFailedToStart || e is CloneExited,
        Phase::CleanTarget | Phase::CleanOwner | Phase::CleanProvider => e is RemovalAttempted,
        Phase::Done => false,
    }
}

/// One decision. A present marker ends the resolution at once; otherwise
/// the directory is created and the repository cloned into it. A clone that
/// cannot start or exits non-zero leads to removing the workspace, then the
/// owner's and the provider's directories, each only if empty, before the
/// clone's error is reported.
pub open spec fn step(s: ResolverView, e: Event) -> (ResolverView, ActionView) {
    match e {
        Event::MarkerFound(true) => (with_phase(s, Phase::Done, None), ActionView::Finish(Ok(s.target))),
        Event::MarkerFound(false) => (with_phase(s, Phase::Create, None), ActionView::CreateDirectories(s.target)),
        Event::DirectoriesCreated(false) => (
            with_phase(s, Phase::Done, None),
            ActionView::Finish(Err(RunErrorView::DirectoryCreateFailed)),
        ),
        Event::DirectoriesCreated(true) => (
            with_phase(s, Phase::Clone, None),
            ActionView::Clone { url: s.url, destination: s.target },
        ),
        Event::CloneFailedToStart => (
            with_phase(s, Phase::CleanTarget, Some(RunErrorView::CloneExecFailed)),
            ActionView::RemoveIfEmpty(s.target),
        ),
        Event::CloneExited(code) => if code == Some(0i32) {
            (with_phase(s, Phase::Done, None), ActionView::Finish(Ok(s.target)))
        } else {
            (
                with_phase(s, Phase::CleanTarget, Some(RunErrorView::CloneUnsuccessful(
                    match code {
                        Some(c) => c,
                        None => 1,
                    },
                ))),
                ActionView::RemoveIfEmpty(s.target),
            )
        },
        Event::RemovalAttempted => match s.phase {
            Phase::CleanTarget => (with_phase(s, Phase::CleanOwner, s.pending), ActionView::RemoveIfEmpty(s.owner_dir)),
            Phase::CleanOwner => (
                with_phase(s, Phase::CleanProvider, s.pending),
                ActionView::RemoveIfEmpty(s.provider_dir),
            ),
            _ => (
                with_phase(s, Phase::Done, None),
                match s.pending {
                    Some(err) => ActionView::Finish(Err(err)),
                    None => ActionView::Finish(Ok(s.target)),
                },
            ),
        },
    }
}

impl Resolver {
    pub fn phase(&self) -> (r: Phase)
        ensures
            r == self@.phase,
    {
        self.phase
    }

    /// Starts a run: the base directory (if one is configured, and whether
    /// it is a directory) is checked before the reference is read.
    pub fn begin(base: Option<String>, base_is_dir: bool, input: String) -> (r: (Resolver, Action))
        ensures
            (r.0@, r.1@) == begin_spec(base.deep_view(), base_is_dir, input@),
    {
        let b = match base {
            None => return (Resolver::ended(), Action::Finish(Err(RunError::BaseNotSet))),
            Some(b) => b,
        };
        if !base_is_dir {
            return (Resolver::ended(), Action::Finish(Err(RunError::BaseNotDirectory(b))));
        }
        let repo = match Repository::parse(input) {
            Err(e) => return (Resolver::ended(), Action::Finish(Err(RunError::Parse(e)))),
            Ok(repo) => repo,
        };
        let dir = repo.directory();
        let target = join(b.as_str(), dir.as_str());
        let owner_rel = join(repo.provider_str(), repo.owner());
        let owner_dir = join(b.as_str(), owner_rel.as_str());
        let provider_dir = join(b.as_str(), repo.provider_str());
        proof {
            reveal_strlit(".git");
        }
        let marker = join(target.as_str(), ".git");
        proof {
            assert(b@ == base.deep_view()->0);
            assert(parse_spec(input@) == Ok::<RepositoryView, ParseErrorView>(repo@));
            assert(target@ == workspace_spec(b@, repo@));
            assert(marker@ == join_path(workspace_spec(b@, repo@), git_marker_name()));
        }
        let r = Resolver { phase: Phase::Marker, target, url: repo.url(), owner_dir, provider_dir, pending: None };
        (r, Action::InspectMarker(marker))
    }

    fn ended() -> (r: Resolver)
        ensures
            r@ == ended(),
    {
        Resolver {
            phase: Phase::Done,
            target: String::new(),
            url: String::new(),
            owner_dir: String::new(),
            provider_dir: String::new(),
            pending: None,
        }
    }

    /// Whether `e` answers the action that was last asked for.
    pub fn accepts(&self, e: Event) -> (r: bool)
        ensures
            r == expects(self@.phase, e),
    {
        match self.phase {
            Phase::Marker => matches!(e, Event::MarkerFound(_)),
            Phase::Create => matches!(e, Event::DirectoriesCreated(_)),
            Phase::Clone => matches!(e, Event::CloneFailedToStart | Event::CloneExited(_)),
            Phase::CleanTarget | Phase::CleanOwner | Phase::CleanProvider => matches!(e, Event::RemovalAttempted),
            Phase::Done => false,
        }
    }

    /// Takes the outcome of the last action and decides the next one.
    pub fn advance(&mut self, e: Event) -> (r: Action)
        requires
            expects(old(self)@.phase, e),
        ensures
            (final(self)@, r@) == step(old(self)@, e),
    {
        match e {
            Event::MarkerFound(true) => {
                self.phase = Phase::Done;
                self.pending = None;
                Action::Finish(Ok(self.target.clone()))
            },
            Event::MarkerFound(false) => {
                self.phase = Phase::Create;
                self.pending = None;
                Action::CreateDirectories(self.target.clone())
            },
            Event::DirectoriesCreated(false) => {
                self.phase = Phase::Done;
                self.pending = None;
                Action::Finish(Err(RunError::DirectoryCreateFailed))
            },
            Event::DirectoriesCreated(true) => {
                self.phase = Phase::Clone;
                self.pending = None;
                Action::Clone { url: self.url.clone(), destination: self.target.clone() }
            },
            Event::CloneFailedToStart => {
                self.phase = Phase::CleanTarget;
                self.pending = Some(RunError::CloneExecFailed);
                Action::RemoveIfEmpty(self.target.clone())
            },
            Event::CloneExited(code) => {
                if code == Some(0i32) {
                    self.phase = Phase::Done;
                    self.pending = None;
                    Action::Finish(Ok(self.target.clone()))
                } else {
                    let c = match code {
                        Some(c) => c,
                        None => 1,
                    };
                    self.phase = Phase::CleanTarget;
                    self.pending = Some(RunError::CloneUnsuccessful(c));
                    Action::RemoveIfEmpty(self.target.clone())
                }
            },
            Event::RemovalAttempted => {
                match self.phase {
                    Phase::CleanTarget => {
                        self.phase = Phase::CleanOwner;
                        Action::RemoveIfEmpty(self.owner_dir.clone())
                    },
                    Phase::CleanOwner => {
                        self.phase = Phase::CleanProvider;
                        Action::RemoveIfEmpty(self.provider_dir.clone())
                    },
                    _ => {
                        self.phase = Phase::Done;
                        match self.pending.take() {
                            Some(err) => Action::Finish(Err(err)),
                            None => Action::Finish(Ok(self.target.clone())),
                        }
                    },
                }
            },
        }
    }
}

/// The actions that a resolution asks for when it is answered with `events`
/// in turn, with the state it ends in.
pub open spec fn run_events(s: ResolverView, events: Seq<Event>) -> (ResolverView, Seq<ActionView>)
    decreases events.len(),
{
    if events.len() == 0 {
        (s, Seq::empty())
    } else {
        let (next, action) = step(s, events[0]);
        let (last, rest) = run_events(next, events.subrange(1, events.len() as int));
        (last, seq![action] + rest)
    }
}

/// Resolving a repository twice: the first run, finding no marker, clones
/// exactly once and ends with the workspace path; the second, finding the
/// marker that the clone left, asks for nothing and ends with the same path.
pub proof fn lemma_second_run_reuses(base: Seq<char>, repo: RepositoryView)
    ensures
        run_events(
            initial_spec(base, repo),
            seq![Event::MarkerFound(false), Event::DirectoriesCreated(true), Event::CloneExited(Some(0i32))],
        ).1 == seq![
            ActionView::CreateDirectories(workspace_spec(base, repo)),
            ActionView::Clone { url: repo.url_spec(), destination: workspace_spec(base, repo) },
            ActionView::Finish(Ok(workspace_spec(base, repo))),
        ],
        run_events(initial_spec(base, repo), seq![Event::MarkerFound(true)]).1 == seq![
            ActionView::Finish(Ok(workspace_spec(base, repo))),
        ],
{
    reveal_with_fuel(run_events, 4);
    let s0 = initial_spec(base, repo);
    let first = seq![Event::MarkerFound(false), Event::DirectoriesCreated(true), Event::CloneExited(Some(0i32))];
    assert(first.subrange(1, 3) =~= seq![Event::DirectoriesCreated(true), Event::CloneExited(Some(0i32))]);
    assert(first.subrange(1, 3).subrange(1, 2) =~= seq![Event::CloneExited(Some(0i32))]);
    assert(first.subrange(1, 3).subrange(1, 2).subrange(1, 1) =~= Seq::<Event>::empty());
    let second = seq![Event::MarkerFound(true)];
    assert(second.subrange(1, 1) =~= Seq::<Event>::empty());
    assert(run_events(s0, first).1 =~= seq![
        ActionView::CreateDirectories(workspace_spec(base, repo)),
        ActionView::Clone { url: repo.url_spec(), destination: workspace_spec(base, repo) },
        ActionView::Finish(Ok(workspace_spec(base, repo))),
    ]);
    assert(run_events(s0, second).1 =~= seq![ActionView::Finish(Ok(workspace_spec(base, repo)))]);
}

/// `path` lies strictly inside `base`: it extends `base` by more text.
pub open spec fn strictly_under(base: Seq<char>, path: Seq<char>) -> bool {
    path.len() > base.len() && path.subrange(0, base.len() as int) == base
}

proof fn lemma_join_under(base: Seq<char>, part: Seq<char>)
    requires
        part.len() > 0,
    ensures
        strictly_under(base, join_path(base, part)),
{
    let j = join_path(base, part);
    assert(j.subrange(0, base.len() as int) =~= base);
}

/// A first clone that cannot start or exits non-zero: the workspace, then
/// the owner's and the provider's directories are removed (each only if
/// empty), all of them strictly inside the base directory, which is never
/// touched; the clone's error is then reported.
pub proof fn lemma_failed_clone_cleans_up(base: Seq<char>, repo: RepositoryView, outcome: Event)
    requires
        valid_component(repo.owner),
        valid_component(repo.name),
        outcome is CloneFailedToStart || (outcome is CloneExited && outcome->CloneExited_0 != Some(0i32)),
    ensures
        ({
            let s0 = initial_spec(base, repo);
            let error = match outcome {
                Event::CloneExited(Some(c)) => RunErrorView::CloneUnsuccessful(c),
                Event::CloneExited(None) => RunErrorView::CloneUnsuccessful(1),
                _ => RunErrorView::CloneExecFailed,
            };
            run_events(
                s0,
                seq![
                    Event::MarkerFound(false),
                    Event::DirectoriesCreated(true),
                    outcome,
                    Event::RemovalAttempted,
                    Event::RemovalAttempted,
                    Event::RemovalAttempted,
                ],
            ).1 == seq![
                ActionView::CreateDirectories(s0.target),
                ActionView::Clone { url: s0.url, destination: s0.target },
                ActionView::RemoveIfEmpty(s0.target),
                ActionView::RemoveIfEmpty(s0.owner_dir),
                ActionView::RemoveIfEmpty(s0.provider_dir),
                ActionView::Finish(Err(error)),
            ]
        }),
        strictly_under(base, initial_spec(base, repo).target),
        strictly_under(base, initial_spec(base, repo).owner_dir),
        strictly_under(base, initial_spec(base, repo).provider_dir),
        initial_spec(base, repo).target == join_path(base, shorthand_text(repo.provider, repo.owner, repo.name)),
        initial_spec(base, repo).owner_dir == join_path(base, repo.provider.token_spec() + seq!['/'] + repo.owner),
        initial_spec(base, repo).provider_dir == join_path(base, repo.provider.token_spec()),
{
    lemma_relative_layout(repo);
    reveal_with_fuel(run_events, 7);
    let s0 = initial_spec(base, repo);
    let ev = seq![
        Event::MarkerFound(false),
        Event::DirectoriesCreated(true),
        outcome,
        Event::RemovalAttempted,
        Event::RemovalAttempted,
        Event::RemovalAttempted,
    ];
    assert(ev.subrange(1, 6) =~= seq![ev[1], ev[2], ev[3], ev[4], ev[5]]);
    assert(ev.subrange(1, 6).subrange(1, 5) =~= seq![ev[2], ev[3], ev[4], ev[5]]);
    assert(ev.subrange(1, 6).subrange(1, 5).subrange(1, 4) =~= seq![ev[3], ev[4], ev[5]]);
    assert(ev.subrange(1, 6).subrange(1, 5).subrange(1, 4).subrange(1, 3) =~= seq![ev[4], ev[5]]);
    assert(ev.subrange(1, 6).subrange(1, 5).subrange(1, 4).subrange(1, 3).subrange(1, 2) =~= seq![ev[5]]);
    assert(seq![ev[5]].subrange(1, 1) =~= Seq::<Event>::empty());
    let error = match outcome {
        Event::CloneExited(Some(c)) => RunErrorView::CloneUnsuccessful(c),
        Event::CloneExited(None) => RunErrorView::CloneUnsuccessful(1),
        _ => RunErrorView::CloneExecFailed,
    };
    assert(run_events(s0, ev).1 =~= seq![
        ActionView::CreateDirectories(s0.target),
        ActionView::Clone { url: s0.url, destination: s0.target },
        ActionView::RemoveIfEmpty(s0.target),
        ActionView::RemoveIfEmpty(s0.owner_dir),
        ActionView::RemoveIfEmpty(s0.provider_dir),
        ActionView::Finish(Err(error)),
    ]);
    let t = repo.provider.token_spec();
    assert(join_path(t, repo.owner).len() > 0);
    assert(repo.directory_spec().len() > 0);
    lemma_join_under(base, repo.directory_spec());
    lemma_join_under(base, join_path(t, repo.owner));
    lemma_join_under(base, t);
}

/// Below the base directory, a workspace is the provider's token, the owner
/// and the name, one directory each.
proof fn lemma_relative_layout(repo: RepositoryView)
    requires
        valid_component(repo.owner),
        valid_component(repo.name),
    ensures
        join_path(repo.provider.token_spec(), repo.owner) == repo.provider.token_spec() + seq!['/'] + repo.owner,
        repo.directory_spec() == shorthand_text(repo.provider, repo.owner, repo.name),
{
    let t = repo.provider.token_spec();
    let o = repo.owner;
    assert(t.last() != '/');
    let to = t + seq!['/'] + o;
    assert(to.last() == o[o.len() - 1]);
    assert(o[o.len() - 1] != '/') by {
        if o[o.len() - 1] == '/' {
            assert(o.contains('/'));
        }
    }
}

/// With a base directory configured, a reference that reads as a repository
/// has its workspace at the base joined with `provider/owner/name`, and
/// its marker at `.git` inside that.
pub proof fn lemma_workspace_layout(base: Seq<char>, input: Seq<char>, repo: RepositoryView)
    requires
        parse_spec(input) == Ok::<RepositoryView, ParseErrorView>(repo),
    ensures
        begin_spec(Some(base), true, input).0.target == join_path(
            base,
            shorthand_text(repo.provider, repo.owner, repo.name),
        ),
        begin_spec(Some(base), true, input).1 == ActionView::InspectMarker(
            join_path(join_path(base, shorthand_text(repo.provider, repo.owner, repo.name)), git_marker_name()),
        ),
{
    lemma_parsed_components_valid(input);
    lemma_relative_layout(repo);
}

/// A missing base directory, or one that is not a directory, ends the run
/// with that error whatever the reference is: nothing is read, created or
/// cloned.
pub proof fn lemma_base_checked_first(base: Option<Seq<char>>, base_is_dir: bool, input: Seq<char>)
    requires
        base is None || !base_is_dir,
    ensures
        begin_spec(base, base_is_dir, input).0.phase == Phase::Done,
        begin_spec(base, base_is_dir, input).1 == ActionView::Finish(Err(
            match base {
                None => RunErrorView::BaseNotSet,
                Some(b) => RunErrorView::BaseNotDirectory(b),
            },
        )),
{
}

} // verus!
