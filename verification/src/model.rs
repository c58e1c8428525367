//! A model of the outside world, and what holds of every pass against it.
//!
//! A [`World`] fixes what the version source, the runtime and the state
//! store answer during one pass. [`pass`] plays the pass against it from a
//! stage on and records what was asked. The theorems below are stated over
//! [`step`] and [`request_of`], the functions that the contracts of
//! [`Container::update`](crate::container::Container::update) and
//! [`Container::request`](crate::container::Container::request) speak of.
//!
//! [`round`] does the same for the engine, with one world and one record
//! for each container.

use crate::container::{
    request_of, state_path, step, ContainerView, Event, Outcome, PersistedState, RequestView,
    Stage, UpdateAction,
};
use crate::engine::{first_stage, EngineView, Phase};
use crate::runtime::RuntimeError;
use crate::steam::{ResolveError, SteamVersion};
use vstd::prelude::*;

verus! {

/// What the outside world answers during one pass.
pub struct World {
    /// What the version source says.
    pub resolve: Result<SteamVersion, ResolveError>,
    /// What the runtime says when asked whether the container runs.
    pub running: Result<bool, RuntimeError>,
    /// What the runtime says when asked to restart the container.
    pub restart: Result<(), RuntimeError>,
    /// Whether the state store can write.
    pub writable: bool,
}

/// What a pass did.
pub struct Run {
    /// The container after the pass.
    pub container: ContainerView,
    /// The container's record on disk after the pass.
    pub record: Option<PersistedState>,
    /// The requests that were made, in order.
    pub requests: Seq<RequestView>,
    /// How the pass ended.
    pub outcome: Outcome,
}

/// The answer to `request` in world `w` when the disk holds `record`, and
/// the record on disk afterwards. A write that fails leaves the old record
/// in place.
pub open spec fn answer(w: World, record: Option<PersistedState>, request: RequestView) -> (
    Event,
    Option<PersistedState>,
) {
    match request {
        RequestView::Load { .. } => (Event::Loaded(record), record),
        RequestView::Resolve { .. } => (Event::Resolved(w.resolve), record),
        RequestView::Inspect { .. } => (Event::Inspected(w.running), record),
        RequestView::Restart { .. } => (Event::Restarted(w.restart), record),
        RequestView::Save { state, .. } => if w.writable {
            (Event::Saved(true), Some(state))
        } else {
            (Event::Saved(false), record)
        },
        RequestView::Sleep { .. } => (Event::Woke, record),
        RequestView::Abort => (Event::Woke, record),
    }
}

/// How many events a pass at `stage` can still take.
pub open spec fn rank(stage: Stage) -> nat {
    match stage {
        Stage::Loading => 5,
        Stage::Baseline => 4,
        Stage::Observing => 4,
        Stage::Checking { .. } => 3,
        Stage::Acting { .. } => 2,
        Stage::Saving { .. } => 1,
        Stage::Done(_) => 0,
    }
}

/// The pass of container `c` from `stage` on, in world `w`, with `record`
/// on disk and the records below `dir`: every request is answered as
/// [`answer`] says until the pass is over.
pub open spec fn pass(
    c: ContainerView,
    stage: Stage,
    w: World,
    record: Option<PersistedState>,
    dir: Seq<char>,
) -> Run
    decreases rank(stage),
{
    match stage {
        Stage::Done(outcome) => Run { container: c, record, requests: Seq::empty(), outcome },
        _ => {
            let request = request_of(c, stage, dir).unwrap();
            let (event, written) = answer(w, record, request);
            let (container, next) = step(c, stage, event);
            let rest = pass(container, next, w, written, dir);
            Run { requests: seq![request] + rest.requests, ..rest }
        },
    }
}

/// A tick: the pass that starts by observing.
pub open spec fn tick(
    c: ContainerView,
    w: World,
    record: Option<PersistedState>,
    dir: Seq<char>,
) -> Run {
    pass(c, Stage::Observing, w, record, dir)
}

/// One tick after the other, each in its own world; the outcome is that
/// of the last one.
pub open spec fn ticks(
    c: ContainerView,
    worlds: Seq<World>,
    record: Option<PersistedState>,
    dir: Seq<char>,
) -> Run
    decreases worlds.len(),
{
    if worlds.len() == 0 {
        Run { container: c, record, requests: Seq::empty(), outcome: Outcome::Unexpected }
    } else {
        let before = ticks(c, worlds.drop_last(), record, dir);
        let last = tick(before.container, worlds.last(), before.record, dir);
        Run { requests: before.requests + last.requests, ..last }
    }
}

/// As long as the version source names the version that the container is
/// known to run, ticks do nothing but ask for the version: the runtime is
/// never called, nothing is written, and the container and its record stay
/// as they are. This holds of any number of ticks in a row.
pub proof fn unchanged_version_is_a_no_op(
    c: ContainerView,
    version: SteamVersion,
    worlds: Seq<World>,
    record: Option<PersistedState>,
    dir: Seq<char>,
)
    requires
        c.current_version == Some(version),
        forall|i: int| 0 <= i < worlds.len() ==> (#[trigger] worlds[i]).resolve == Ok::<
            SteamVersion,
            ResolveError,
        >(version),
    ensures
        ticks(c, worlds, record, dir).container == c,
        ticks(c, worlds, record, dir).record == record,
        ticks(c, worlds, record, dir).requests.len() == worlds.len(),
        forall|i: int|
            0 <= i < worlds.len() ==> (#[trigger] ticks(c, worlds, record, dir).requests[i])
                == (RequestView::Resolve { appid: c.appid }),
        worlds.len() > 0 ==> ticks(c, worlds, record, dir).outcome == Outcome::UpToDate(version),
    decreases worlds.len(),
{
    if worlds.len() > 0 {
        unchanged_version_is_a_no_op(c, version, worlds.drop_last(), record, dir);
        let w = worlds.last();
        assert(w == worlds[worlds.len() - 1]);
        let last = tick(c, w, record, dir);
        reveal_with_fuel(pass, 2);
        assert(last.requests =~= seq![RequestView::Resolve { appid: c.appid }]);
    }
}

/// A change of the published version, seen while the container runs, is
/// acted on once: the tick asks for the version, asks whether the container
/// runs, and asks for exactly one restart. Where the restart succeeds, the
/// new version becomes the known one and is written to disk; the record on
/// disk names the new version only if the restart succeeded.
pub proof fn change_is_acted_on_once(
    c: ContainerView,
    old_version: SteamVersion,
    new_version: SteamVersion,
    w: World,
    dir: Seq<char>,
)
    requires
        c.action == UpdateAction::DockerRestart,
        c.current_version == Some(old_version),
        old_version != new_version,
        w.resolve == Ok::<SteamVersion, ResolveError>(new_version),
        w.running == Ok::<bool, RuntimeError>(true),
    ensures
        ({
            let before = Some(PersistedState { current_version: old_version });
            let after = Some(PersistedState { current_version: new_version });
            let run = tick(c, w, before, dir);
            &&& run.requests.len() >= 3
            &&& run.requests[0] == (RequestView::Resolve { appid: c.appid })
            &&& run.requests[1] == (RequestView::Inspect { name: c.name })
            &&& forall|i: int|
                0 <= i < run.requests.len() ==> ((#[trigger] run.requests[i]) is Restart <==> i
                    == 2)
            &&& run.requests[2] == (RequestView::Restart { name: c.name })
            &&& run.record == after ==> w.restart is Ok
            &&& w.restart is Ok ==> run.container == c.with_version(new_version) && run.requests
                =~= seq![
                run.requests[0],
                run.requests[1],
                run.requests[2],
                RequestView::Save {
                    path: state_path(dir, c.name),
                    state: PersistedState { current_version: new_version },
                },
            ]
            &&& w.restart is Ok && w.writable ==> run.record == after && run.outcome
                == Outcome::Updated(new_version)
            &&& w.restart is Ok && !w.writable ==> run.record == before && run.outcome
                == Outcome::SaveFailed
        }),
{
    reveal_with_fuel(pass, 5);
}

/// A restart that fails leaves everything as it was: the known version and
/// the record on disk are the old ones and nothing is written. The change is
/// therefore seen again by the next tick, which asks for the restart again.
pub proof fn failed_action_changes_nothing(
    c: ContainerView,
    old_version: SteamVersion,
    new_version: SteamVersion,
    w: World,
    next: World,
    dir: Seq<char>,
)
    requires
        c.action == UpdateAction::DockerRestart,
        c.current_version == Some(old_version),
        old_version != new_version,
        w.resolve == Ok::<SteamVersion, ResolveError>(new_version),
        w.running == Ok::<bool, RuntimeError>(true),
        w.restart is Err,
        next.resolve == Ok::<SteamVersion, ResolveError>(new_version),
        next.running == Ok::<bool, RuntimeError>(true),
    ensures
        ({
            let before = Some(PersistedState { current_version: old_version });
            let run = tick(c, w, before, dir);
            let again = tick(run.container, next, run.record, dir);
            &&& run.container == c
            &&& run.record == before
            &&& run.outcome == Outcome::ActionFailed(w.restart->Err_0)
            &&& forall|i: int|
                0 <= i < run.requests.len() ==> !((#[trigger] run.requests[i]) is Save)
            &&& again.requests.len() >= 3
            &&& again.requests[2] == (RequestView::Restart { name: c.name })
        }),
{
    reveal_with_fuel(pass, 5);
}

/// While the container does not run, a tick neither restarts it nor writes
/// anything, whatever version is published: the container and its record
/// stay as they are.
pub proof fn stopped_container_is_skipped(
    c: ContainerView,
    w: World,
    record: Option<PersistedState>,
    dir: Seq<char>,
)
    requires
        w.running == Ok::<bool, RuntimeError>(false),
    ensures
        ({
            let run = tick(c, w, record, dir);
            &&& run.container == c
            &&& run.record == record
            &&& forall|i: int|
                0 <= i < run.requests.len() ==> !((#[trigger] run.requests[i]) is Restart) && !(
                run.requests[i] is Save)
            &&& (w.resolve is Ok && c.current_version != Some(w.resolve->Ok_0)) ==> run.outcome
                == Outcome::NotRunning
        }),
{
    reveal_with_fuel(pass, 5);
}

/// The first pass of a container that has no record takes the published
/// version as the one the container runs: the runtime is not called, and
/// the version becomes the known one and, where the store can write, the
/// one on disk.
pub proof fn first_sight_sets_baseline(
    c: ContainerView,
    version: SteamVersion,
    w: World,
    dir: Seq<char>,
)
    requires
        w.resolve == Ok::<SteamVersion, ResolveError>(version),
    ensures
        ({
            let run = pass(c, Stage::Loading, w, None, dir);
            &&& run.container == c.with_version(version)
            &&& run.requests =~= seq![
                RequestView::Load { path: state_path(dir, c.name) },
                RequestView::Resolve { appid: c.appid },
                RequestView::Save {
                    path: state_path(dir, c.name),
                    state: PersistedState { current_version: version },
                },
            ]
            &&& w.writable ==> run.record == Some(PersistedState { current_version: version })
                && run.outcome == Outcome::Baselined(version)
            &&& !w.writable ==> run.record.is_none() && run.outcome == Outcome::SaveFailed
        }),
{
    reveal_with_fuel(pass, 5);
}

/// Where no version can be had at first sight, the container stays without
/// one and nothing is written. The next tick then treats whatever version
/// it sees as a change: it goes on to ask whether the container runs.
pub proof fn first_sight_without_version(
    c: ContainerView,
    e: ResolveError,
    w: World,
    next: World,
    dir: Seq<char>,
)
    requires
        c.current_version is None,
        w.resolve == Err::<SteamVersion, ResolveError>(e),
        next.resolve is Ok,
    ensures
        ({
            let run = pass(c, Stage::Loading, w, None, dir);
            let later = tick(run.container, next, run.record, dir);
            &&& run.container == c
            &&& run.record.is_none()
            &&& run.outcome == Outcome::Unresolved(e)
            &&& run.requests =~= seq![
                RequestView::Load { path: state_path(dir, c.name) },
                RequestView::Resolve { appid: c.appid },
            ]
            &&& later.requests.len() >= 2
            &&& later.requests[1] == (RequestView::Inspect { name: c.name })
        }),
{
    reveal_with_fuel(pass, 5);
}

/// The first pass of a container that has a record is a tick of the
/// container with the recorded version, after the one request that reads
/// the record. A change that happened while the daemon was down is thus
/// treated like any other.
pub proof fn recovery_is_a_tick(
    c: ContainerView,
    saved: PersistedState,
    w: World,
    dir: Seq<char>,
)
    ensures
        ({
            let run = pass(c, Stage::Loading, w, Some(saved), dir);
            let steady = tick(c.with_version(saved.current_version), w, Some(saved), dir);
            &&& run.container == steady.container
            &&& run.record == steady.record
            &&& run.outcome == steady.outcome
            &&& run.requests =~= seq![RequestView::Load { path: state_path(dir, c.name) }]
                + steady.requests
        }),
{
    reveal_with_fuel(pass, 2);
}

/// The known version changes only where a record was loaded, a baseline
/// was taken or a restart succeeded; in every other move it stays, and the
/// name, the application, the action and its options never change.
pub proof fn version_changes_in_three_places(c: ContainerView, stage: Stage, event: Event)
    ensures
        step(c, stage, event).0.name == c.name,
        step(c, stage, event).0.appid == c.appid,
        step(c, stage, event).0.action == c.action,
        step(c, stage, event).0.options == c.options,
        step(c, stage, event).0.current_version != c.current_version ==> {
            ||| stage is Loading && event matches Event::Loaded(Some(_))
            ||| stage is Baseline && event matches Event::Resolved(Ok(_))
            ||| stage is Acting && event matches Event::Restarted(Ok(_))
        },
{
}

/// Every write names the version that the container is known to run at
/// that moment: what is on disk never runs ahead of what was confirmed.
pub proof fn writes_follow_the_known_version(c: ContainerView, stage: Stage, event: Event)
    ensures
        step(c, stage, event).1 matches Stage::Saving { version, .. } ==> step(
            c,
            stage,
            event,
        ).0.current_version == Some(version),
{
}

/// The rest of a round of engine `e`, with `worlds[i]` and `records[i]` as
/// the world and the record of container `i`: every request is answered as
/// [`answer`] says until the engine sleeps or halts. Returns the engine and
/// the records at that point.
pub open spec fn round(
    e: EngineView,
    worlds: Seq<World>,
    records: Seq<Option<PersistedState>>,
) -> (EngineView, Seq<Option<PersistedState>>)
    decreases
        e.containers.len() - (match e.phase {
            Phase::Pass { index, .. } => index as int,
            _ => e.containers.len() as int,
        }),
        (match e.phase {
            Phase::Pass { stage, .. } => rank(stage),
            _ => 0,
        }),
{
    match e.phase {
        Phase::Pass { index, .. } => if e.wf() && worlds.len() == e.containers.len()
            && records.len() == e.containers.len() {
            let at = index as int;
            let (event, written) = answer(worlds[at], records[at], e.request());
            round(e.step(event), worlds, records.update(at, written))
        } else {
            (e, records)
        },
        _ => (e, records),
    }
}

/// A move of the engine keeps it well formed.
pub proof fn step_keeps_engine_well_formed(e: EngineView, event: Event)
    requires
        e.wf(),
    ensures
        e.step(event).wf(),
{
    let after = e.step(event);
    assert(after.containers.len() == e.containers.len());
    assert forall|i: int| 0 <= i < e.containers.len() implies (#[trigger] after.containers[i]).name
        == e.containers[i].name by {
        if e.phase is Pass {
            version_changes_in_three_places(
                e.containers[e.phase->Pass_index as int],
                e.phase->Pass_stage,
                event,
            );
        }
    }
    assert forall|i: int, j: int| 0 <= i < j < after.containers.len() implies (
    #[trigger] after.containers[i]).name != (#[trigger] after.containers[j]).name by {
        assert(e.containers[i].name != e.containers[j].name);
    }
}

/// A move of the engine changes no container but the one whose pass is
/// under way, and it changes that one as [`step`] says.
pub proof fn step_touches_one_container(e: EngineView, event: Event)
    requires
        e.wf(),
    ensures
        e.step(event).containers.len() == e.containers.len(),
        forall|j: int|
            0 <= j < e.containers.len() && !(e.phase matches Phase::Pass { index, .. } && index
                == j) ==> (#[trigger] e.step(event).containers[j]) == e.containers[j],
        e.phase matches Phase::Pass { index, stage, .. } ==> e.step(event).containers[index as int]
            == step(e.containers[index as int], stage, event).0,
{
}

/// A container whose version cannot be had does not hold up the round: its
/// pass ends there and then, no container is changed, and the engine turns
/// to the next container and asks for its version. If that one's version
/// has changed and it runs, it is restarted and brought to the new version
/// as if the first had not failed.
pub proof fn failure_stays_with_its_container(
    e: EngineView,
    failure: ResolveError,
    version: SteamVersion,
)
    requires
        e.wf(),
        e.phase matches Phase::Pass { index, stage: Stage::Observing, .. } && index + 1
            < e.containers.len(),
        e.containers[e.phase->Pass_index + 1].action == UpdateAction::DockerRestart,
        e.containers[e.phase->Pass_index + 1].current_version != Some(version),
    ensures
        ({
            let index = e.phase->Pass_index;
            let first = e.phase->Pass_first;
            let next = e.containers[index + 1];
            let failed = e.step(Event::Resolved(Err(failure)));
            let updated = failed.step(Event::Resolved(Ok(version))).step(
                Event::Inspected(Ok(true)),
            ).step(Event::Restarted(Ok(()))).step(Event::Saved(true));
            &&& failed.containers == e.containers
            &&& failed.phase == (Phase::Pass {
                first,
                index: (index + 1) as usize,
                stage: first_stage(first),
            })
            &&& !first ==> failed.request() == (RequestView::Resolve { appid: next.appid })
            &&& !first ==> updated.containers[index + 1] == next.with_version(version)
            &&& !first ==> updated.containers[index as int] == e.containers[index as int]
        }),
{
    let index = e.phase->Pass_index;
    let failed = e.step(Event::Resolved(Err(failure)));
    assert(failed.containers =~= e.containers);
}

/// The pass that is container `j`'s own in the rest of the round of `e`:
/// from the stage reached for the container whose pass is under way, from
/// the start for those whose turn is still to come.
pub open spec fn own_pass(
    e: EngineView,
    worlds: Seq<World>,
    records: Seq<Option<PersistedState>>,
    j: int,
) -> Run {
    let stage = if j == e.phase->Pass_index {
        e.phase->Pass_stage
    } else {
        first_stage(e.phase->Pass_first)
    };
    pass(e.containers[j], stage, worlds[j], records[j], e.state_dir)
}

/// In a round in which every record can be written, each container fares
/// as it would alone: whatever the other containers' passes run into, the
/// container and its record end up as its own pass in its own world leaves
/// them, and the round ends in the sleep. Containers whose pass was over
/// before are not touched again.
pub proof fn containers_fare_alone(
    e: EngineView,
    worlds: Seq<World>,
    records: Seq<Option<PersistedState>>,
)
    requires
        e.wf(),
        e.phase is Pass,
        worlds.len() == e.containers.len(),
        records.len() == e.containers.len(),
        forall|i: int| 0 <= i < worlds.len() ==> (#[trigger] worlds[i]).writable,
    ensures
        round(e, worlds, records).0.phase == Phase::Sleep,
        round(e, worlds, records).0.containers.len() == e.containers.len(),
        round(e, worlds, records).1.len() == records.len(),
        forall|j: int|
            0 <= j < e.phase->Pass_index ==> (#[trigger] round(e, worlds, records).0.containers[j])
                == e.containers[j] && round(e, worlds, records).1[j] == records[j],
        forall|j: int|
            e.phase->Pass_index <= j < e.containers.len() ==> (#[trigger] round(
                e,
                worlds,
                records,
            ).0.containers[j]) == own_pass(e, worlds, records, j).container && round(
                e,
                worlds,
                records,
            ).1[j] == own_pass(e, worlds, records, j).record,
    decreases e.containers.len() - e.phase->Pass_index, rank(e.phase->Pass_stage),
{
    let now = e.phase->Pass_index as int;
    let (event, record) = answer(worlds[now], records[now], e.request());
    let next = e.step(event);
    let next_records = records.update(now, record);
    let (after, written) = round(e, worlds, records);
    let (container, reached) = step(e.containers[now], e.phase->Pass_stage, event);
    step_keeps_engine_well_formed(e, event);
    // One move of the engine is one move of the pass under way.
    assert(next.containers[now] == container && next_records[now] == record);
    let rest = pass(container, reached, worlds[now], record, e.state_dir);
    assert(own_pass(e, worlds, records, now).container == rest.container);
    assert(own_pass(e, worlds, records, now).record == rest.record);
    if next.phase is Pass {
        // The rest of the round is the round of the engine after this
        // move, in which the containers ahead are as they were.
        containers_fare_alone(next, worlds, next_records);
        let ahead = next.phase->Pass_index as int;
        assert(now <= ahead);
        assert forall|j: int| 0 <= j < e.containers.len() implies (#[trigger] after.containers[j])
            == (if j < now {
            e.containers[j]
        } else {
            own_pass(e, worlds, records, j).container
        }) && written[j] == (if j < now {
            records[j]
        } else {
            own_pass(e, worlds, records, j).record
        }) by {
            if j != now {
                assert(next.containers[j] == e.containers[j]);
                assert(next_records[j] == records[j]);
                if j >= ahead {
                    assert(own_pass(next, worlds, next_records, j) == own_pass(
                        e,
                        worlds,
                        records,
                        j,
                    ));
                }
            } else if ahead == now {
                assert(own_pass(next, worlds, next_records, now) == rest);
            }
        }
    } else {
        // This move ended the last pass; it did not end in a failed write.
        assert(next.phase == Phase::Sleep);
    }
}

} // verus!
