//! One tracked container and the pass that keeps it up to date.
//!
//! A pass is a short conversation with the outside world. At each [`Stage`]
//! the container has one [`Request`]; the caller performs it and reports the
//! result as an [`Event`], and [`Container::update`] moves the pass on. The
//! pass ends in a [`Stage::Done`] that says what came of it.

use crate::runtime::RuntimeError;
use crate::steam::{ResolveError, SteamVersion};
use crate::text::{join, join_path, lemma_join_injective};
use std::collections::BTreeMap;
use std::time::Duration;
use vstd::prelude::*;
use vstd::string::StringExecFns;

verus! {

/// What is done to a container when a new version of its game is out.
#[derive(Clone, Copy, Debug, PartialEq, Eq, Structural)]
pub enum UpdateAction {
    /// Build the container's image again.
    DockerBuild,
    /// Restart the container, whose entry point fetches the update.
    DockerRestart,
    /// Pull the container's image again.
    DockerPull,
    /// Run a hook of the operator's own.
    Custom,
}

/// The record that is kept on disk for one container.
#[derive(Clone, Copy, Debug, PartialEq, Eq, Structural)]
pub struct PersistedState {
    /// The last version that the container is known to run.
    pub current_version: SteamVersion,
}

/// How a pass ended.
#[derive(Clone, Copy, Debug, PartialEq, Eq)]
pub enum Outcome {
    /// First sight of the container: the published version was taken as the
    /// one it runs, and stored.
    Baselined(SteamVersion),
    /// The published version is the one the container runs.
    UpToDate(SteamVersion),
    /// The action succeeded; the container now runs this version, and the
    /// record on disk says so.
    Updated(SteamVersion),
    /// The version source gave no version.
    Unresolved(ResolveError),
    /// The runtime did not say whether the container runs.
    Uninspected(RuntimeError),
    /// The container does not run, so the action was not attempted.
    NotRunning,
    /// A new version is out, but the configured action is not supported.
    Unsupported(UpdateAction),
    /// The action was attempted and failed.
    ActionFailed(RuntimeError),
    /// The new version is known, but the record could not be written.
    SaveFailed,
    /// An event came in that answers no request of the stage it met.
    Unexpected,
}

/// Where a pass stands.
#[derive(Clone, Copy, Debug, PartialEq, Eq)]
pub enum Stage {
    /// Start of the first pass: waiting for the record on disk.
    Loading,
    /// No record was found: waiting for the version that becomes the baseline.
    Baseline,
    /// Start of every later pass: waiting for the published version.
    Observing,
    /// `latest` differs from the known version: waiting to hear whether the
    /// container runs.
    Checking { latest: SteamVersion },
    /// The action is under way: waiting for its result.
    Acting { latest: SteamVersion },
    /// `version` is now the known version: waiting for the record to be
    /// written. `first` tells a baseline from an update.
    Saving { version: SteamVersion, first: bool },
    /// The pass is over.
    Done(Outcome),
}

/// What the outside world reports back.
#[derive(Clone, Copy, Debug, PartialEq, Eq)]
pub enum Event {
    /// The record on disk, `None` where there is none.
    Loaded(Option<PersistedState>),
    /// The published version.
    Resolved(Result<SteamVersion, ResolveError>),
    /// Whether the container runs.
    Inspected(Result<bool, RuntimeError>),
    /// Whether the restart went through.
    Restarted(Result<(), RuntimeError>),
    /// Whether the record was written.
    Saved(bool),
    /// The time to sleep is over.
    Woke,
}

/// What the caller is asked to do.
#[derive(Debug, PartialEq, Eq)]
pub enum Request {
    /// Read the record at `path`; answer with [`Event::Loaded`].
    Load { path: String },
    /// Ask the version source for application `appid`; answer with
    /// [`Event::Resolved`].
    Resolve { appid: u64 },
    /// Ask the runtime whether container `name` runs; answer with
    /// [`Event::Inspected`].
    Inspect { name: String },
    /// Have the runtime restart container `name`; answer with
    /// [`Event::Restarted`].
    Restart { name: String },
    /// Write `state` to `path`, replacing what is there; answer with
    /// [`Event::Saved`].
    Save { path: String, state: PersistedState },
    /// Sleep for `interval`; answer with [`Event::Woke`].
    Sleep { interval: Duration },
    /// Stop the process: the state on disk can no longer be trusted to
    /// follow what is done.
    Abort,
}

/// A [`Request`] with its texts as sequences of characters.
pub enum RequestView {
    Load { path: Seq<char> },
    Resolve { appid: u64 },
    Inspect { name: Seq<char> },
    Restart { name: Seq<char> },
    Save { path: Seq<char>, state: PersistedState },
    Sleep { interval: Duration },
    Abort,
}

impl View for Request {
    type V = RequestView;

    open spec fn view(&self) -> RequestView {
        match *self {
            Request::Load { path } => RequestView::Load { path: path@ },
            Request::Resolve { appid } => RequestView::Resolve { appid },
            Request::Inspect { name } => RequestView::Inspect { name: name@ },
            Request::Restart { name } => RequestView::Restart { name: name@ },
            Request::Save { path, state } => RequestView::Save { path: path@, state },
            Request::Sleep { interval } => RequestView::Sleep { interval },
            Request::Abort => RequestView::Abort,
        }
    }
}

/// The view of a request that may be absent.
pub open spec fn request_view(r: Option<Request>) -> Option<RequestView> {
    match r {
        Some(q) => Some(q@),
        None => None,
    }
}

/// One configured container with what is known of the version it runs.
#[derive(Debug)]
pub struct Container {
    name: String,
    appid: u64,
    current_version: Option<SteamVersion>,
    action: UpdateAction,
    options: BTreeMap<String, String>,
}

/// A [`Container`] as a plain value.
pub struct ContainerView {
    /// The container's name: how the runtime knows it, and the key of its
    /// record on disk.
    pub name: Seq<char>,
    /// The application whose published version the container follows.
    pub appid: u64,
    /// `None` until a version was loaded, taken as baseline or reached by
    /// an action; no number stands for "unknown".
    pub current_version: Option<SteamVersion>,
    pub action: UpdateAction,
    pub options: Map<String, String>,
}

impl ContainerView {
    /// The same container, known to run `version`.
    pub open spec fn with_version(self, version: SteamVersion) -> ContainerView {
        ContainerView { current_version: Some(version), ..self }
    }
}

impl View for Container {
    type V = ContainerView;

    closed spec fn view(&self) -> ContainerView {
        ContainerView {
            name: self.name@,
            appid: self.appid,
            current_version: self.current_version,
            action: self.action,
            options: self.options@,
        }
    }
}

/// The name of a container's record: its name and `.json`.
pub open spec fn state_file(name: Seq<char>) -> Seq<char> {
    name + seq!['.', 'j', 's', 'o', 'n']
}

/// Where the record of container `name` lies below directory `dir`.
pub open spec fn state_path(dir: Seq<char>, name: Seq<char>) -> Seq<char> {
    join(dir, state_file(name))
}

/// The write that stores what is known of `c` below `dir`; `None` while no
/// version is known.
pub open spec fn save_of(c: ContainerView, dir: Seq<char>) -> Option<RequestView> {
    match c.current_version {
        Some(v) => Some(
            RequestView::Save {
                path: state_path(dir, c.name),
                state: PersistedState { current_version: v },
            },
        ),
        None => None,
    }
}

/// The pass after the record on disk was read: with a record, its version
/// is the known one and the pass goes on to observe; without one, the pass
/// goes on to take a baseline.
pub open spec fn loaded(c: ContainerView, saved: Option<PersistedState>) -> (ContainerView, Stage) {
    match saved {
        Some(record) => (c.with_version(record.current_version), Stage::Observing),
        None => (c, Stage::Baseline),
    }
}

/// The stage that follows when a change to `latest` was seen and the
/// container runs: only a restart can be carried out.
pub open spec fn dispatch(action: UpdateAction, latest: SteamVersion) -> Stage {
    match action {
        UpdateAction::DockerRestart => Stage::Acting { latest },
        _ => Stage::Done(Outcome::Unsupported(action)),
    }
}

/// One move of a pass: the container and the stage after `event` arrived
/// at `stage`.
///
/// The known version changes in three places only: when a record was
/// loaded, when a baseline was taken, and when the action succeeded.
pub open spec fn step(c: ContainerView, stage: Stage, event: Event) -> (ContainerView, Stage) {
    match stage {
        Stage::Loading => match event {
            Event::Loaded(saved) => loaded(c, saved),
            _ => (c, Stage::Done(Outcome::Unexpected)),
        },
        Stage::Baseline => match event {
            Event::Resolved(Ok(v)) => (
                c.with_version(v),
                Stage::Saving { version: v, first: true },
            ),
            Event::Resolved(Err(e)) => (c, Stage::Done(Outcome::Unresolved(e))),
            _ => (c, Stage::Done(Outcome::Unexpected)),
        },
        Stage::Observing => match event {
            Event::Resolved(Ok(v)) => if c.current_version == Some(v) {
                (c, Stage::Done(Outcome::UpToDate(v)))
            } else {
                (c, Stage::Checking { latest: v })
            },
            Event::Resolved(Err(e)) => (c, Stage::Done(Outcome::Unresolved(e))),
            _ => (c, Stage::Done(Outcome::Unexpected)),
        },
        Stage::Checking { latest } => match event {
            Event::Inspected(Ok(running)) => if running {
                (c, dispatch(c.action, latest))
            } else {
                (c, Stage::Done(Outcome::NotRunning))
            },
            Event::Inspected(Err(e)) => (c, Stage::Done(Outcome::Uninspected(e))),
            _ => (c, Stage::Done(Outcome::Unexpected)),
        },
        Stage::Acting { latest } => match event {
            Event::Restarted(Ok(_)) => (
                c.with_version(latest),
                Stage::Saving { version: latest, first: false },
            ),
            Event::Restarted(Err(e)) => (c, Stage::Done(Outcome::ActionFailed(e))),
            _ => (c, Stage::Done(Outcome::Unexpected)),
        },
        Stage::Saving { version, first } => match event {
            Event::Saved(written) => if !written {
                (c, Stage::Done(Outcome::SaveFailed))
            } else if first {
                (c, Stage::Done(Outcome::Baselined(version)))
            } else {
                (c, Stage::Done(Outcome::Updated(version)))
            },
            _ => (c, Stage::Done(Outcome::Unexpected)),
        },
        Stage::Done(outcome) => (c, Stage::Done(outcome)),
    }
}

/// What the caller has to do for container `c` at `stage`, with the records
/// below `dir`; `None` when the pass is over.
pub open spec fn request_of(c: ContainerView, stage: Stage, dir: Seq<char>) -> Option<RequestView> {
    match stage {
        Stage::Loading => Some(RequestView::Load { path: state_path(dir, c.name) }),
        Stage::Baseline => Some(RequestView::Resolve { appid: c.appid }),
        Stage::Observing => Some(RequestView::Resolve { appid: c.appid }),
        Stage::Checking { .. } => Some(RequestView::Inspect { name: c.name }),
        Stage::Acting { .. } => Some(RequestView::Restart { name: c.name }),
        Stage::Saving { version, .. } => Some(
            RequestView::Save {
                path: state_path(dir, c.name),
                state: PersistedState { current_version: version },
            },
        ),
        Stage::Done(_) => None,
    }
}

impl Stage {
    /// The outcome of the pass, once it is over.
    pub fn outcome(&self) -> (r: Option<Outcome>)
        ensures
            r == (match *self {
                Stage::Done(o) => Some(o),
                _ => None,
            }),
    {
        match self {
            Stage::Done(o) => Some(*o),
            _ => None,
        }
    }
}

impl Container {
    /// A container of which no version is known yet.
    pub fn new(
        name: String,
        appid: u64,
        action: UpdateAction,
        options: BTreeMap<String, String>,
    ) -> (c: Container)
        ensures
            c@ == (ContainerView {
                name: name@,
                appid,
                current_version: None,
                action,
                options: options@,
            }),
    {
        Container { name, appid, current_version: None, action, options }
    }

    /// The container's name.
    pub fn name(&self) -> (n: &str)
        ensures
            n@ == self@.name,
    {
        self.name.as_str()
    }

    /// The application that the container follows.
    pub fn appid(&self) -> (a: u64)
        ensures
            a == self@.appid,
    {
        self.appid
    }

    /// Whether `other` has the same name as this container.
    pub fn same_name(&self, other: &Container) -> (same: bool)
        ensures
            same == (self@.name == other@.name),
    {
        self.name == other.name
    }

    /// The version that the container is known to run, if any.
    pub fn current_version(&self) -> (v: Option<SteamVersion>)
        ensures
            v == self@.current_version,
    {
        self.current_version
    }

    /// The configured action.
    pub fn action(&self) -> (a: UpdateAction)
        ensures
            a == self@.action,
    {
        self.action
    }

    /// The parameters of the action, as configured.
    pub fn options(&self) -> (o: &BTreeMap<String, String>)
        ensures
            o@ == self@.options,
    {
        &self.options
    }

    /// Takes in what the state store holds for this container, which starts
    /// its first pass: see [`loaded`].
    pub fn init(&mut self, saved: Option<PersistedState>) -> (next: Stage)
        ensures
            final(self)@ == loaded(old(self)@, saved).0,
            next == loaded(old(self)@, saved).1,
    {
        match saved {
            Some(record) => {
                self.current_version = Some(record.current_version);
                Stage::Observing
            },
            None => Stage::Baseline,
        }
    }

    /// Moves the pass on by one event: see [`step`].
    pub fn update(&mut self, stage: Stage, event: Event) -> (next: Stage)
        ensures
            final(self)@ == step(old(self)@, stage, event).0,
            next == step(old(self)@, stage, event).1,
    {
        match stage {
            Stage::Loading => match event {
                Event::Loaded(saved) => self.init(saved),
                _ => Stage::Done(Outcome::Unexpected),
            },
            Stage::Baseline => match event {
                Event::Resolved(Ok(v)) => {
                    self.current_version = Some(v);
                    Stage::Saving { version: v, first: true }
                },
                Event::Resolved(Err(e)) => Stage::Done(Outcome::Unresolved(e)),
                _ => Stage::Done(Outcome::Unexpected),
            },
            Stage::Observing => match event {
                Event::Resolved(Ok(v)) => {
                    let known: bool = match self.current_version {
                        Some(current) => current == v,
                        None => false,
                    };
                    if known {
                        Stage::Done(Outcome::UpToDate(v))
                    } else {
                        Stage::Checking { latest: v }
                    }
                },
                Event::Resolved(Err(e)) => Stage::Done(Outcome::Unresolved(e)),
                _ => Stage::Done(Outcome::Unexpected),
            },
            Stage::Checking { latest } => match event {
                Event::Inspected(Ok(running)) => {
                    if running {
                        match self.action {
                            UpdateAction::DockerRestart => Stage::Acting { latest },
                            other => Stage::Done(Outcome::Unsupported(other)),
                        }
                    } else {
                        Stage::Done(Outcome::NotRunning)
                    }
                },
                Event::Inspected(Err(e)) => Stage::Done(Outcome::Uninspected(e)),
                _ => Stage::Done(Outcome::Unexpected),
            },
            Stage::Acting { latest } => match event {
                Event::Restarted(Ok(_)) => {
                    self.current_version = Some(latest);
                    Stage::Saving { version: latest, first: false }
                },
                Event::Restarted(Err(e)) => Stage::Done(Outcome::ActionFailed(e)),
                _ => Stage::Done(Outcome::Unexpected),
            },
            Stage::Saving { version, first } => match event {
                Event::Saved(written) => {
                    if !written {
                        Stage::Done(Outcome::SaveFailed)
                    } else if first {
                        Stage::Done(Outcome::Baselined(version))
                    } else {
                        Stage::Done(Outcome::Updated(version))
                    }
                },
                _ => Stage::Done(Outcome::Unexpected),
            },
            Stage::Done(outcome) => Stage::Done(outcome),
        }
    }

    /// The request that has the runtime restart this container.
    pub fn restart(&self) -> (r: Request)
        ensures
            r@ == (RequestView::Restart { name: self@.name }),
    {
        Request::Restart { name: self.name.clone() }
    }

    /// The request that stores what is known of this container below `dir`:
    /// see [`save_of`].
    pub fn save_state(&self, dir: &str) -> (r: Option<Request>)
        ensures
            request_view(r) == save_of(self@, dir@),
    {
        match self.current_version {
            Some(v) => Some(
                Request::Save {
                    path: self.save_file(dir),
                    state: PersistedState { current_version: v },
                },
            ),
            None => None,
        }
    }

    /// The path of this container's record below `dir`.
    pub fn save_file(&self, dir: &str) -> (path: String)
        ensures
            path@ == state_path(dir@, self@.name),
    {
        let mut file = self.name.clone();
        proof {
            reveal_strlit(".json");
        }
        file.append(".json");
        assert(file@ =~= state_file(self@.name));
        join_path(dir, file.as_str())
    }

    /// What the caller has to do at `stage`: see [`request_of`].
    pub fn request(&self, stage: Stage, dir: &str) -> (r: Option<Request>)
        ensures
            request_view(r) == request_of(self@, stage, dir@),
    {
        match stage {
            Stage::Loading => Some(Request::Load { path: self.save_file(dir) }),
            Stage::Baseline => Some(Request::Resolve { appid: self.appid }),
            Stage::Observing => Some(Request::Resolve { appid: self.appid }),
            Stage::Checking { .. } => Some(Request::Inspect { name: self.name.clone() }),
            Stage::Acting { .. } => Some(self.restart()),
            Stage::Saving { version, .. } => Some(
                Request::Save {
                    path: self.save_file(dir),
                    state: PersistedState { current_version: version },
                },
            ),
            Stage::Done(_) => None,
        }
    }
}

/// Containers with different names keep their records at different paths
/// of one directory, as long as no name starts with `/`.
pub proof fn lemma_state_paths_differ(dir: Seq<char>, a: Seq<char>, b: Seq<char>)
    requires
        a != b,
        !(a.len() > 0 && a[0] == '/'),
        !(b.len() > 0 && b[0] == '/'),
    ensures
        state_path(dir, a) != state_path(dir, b),
{
    let ext = seq!['.', 'j', 's', 'o', 'n'];
    if state_path(dir, a) == state_path(dir, b) {
        lemma_join_injective(dir, state_file(a), state_file(b));
        assert(a =~= state_file(a).take(a.len() as int));
        assert(b =~= state_file(b).take(b.len() as int));
        assert(state_file(a).len() == a.len() + ext.len());
        assert(state_file(b).len() == b.len() + ext.len());
    }
}

} // verus!
