use heat_exchanger::container::{
    Container, Event, Outcome, PersistedState, Request, Stage, UpdateAction,
};
use heat_exchanger::engine::{names_are_unique, Engine, Phase, Report};
use heat_exchanger::runtime::RuntimeError;
use heat_exchanger::steam::ResolveError;
use std::collections::BTreeMap;
use std::time::Duration;

fn container(name: &str, appid: u64) -> Container {
    Container::new(String::from(name), appid, UpdateAction::DockerRestart, BTreeMap::new())
}

fn engine(names: &[&str]) -> Engine {
    let containers = names.iter().enumerate().map(|(i, n)| container(n, 100 + i as u64)).collect();
    Engine::new(containers, String::from("/state"), Duration::from_secs(300)).unwrap()
}

fn versions(engine: &Engine) -> Vec<Option<u64>> {
    engine.containers().iter().map(|c| c.current_version()).collect()
}

/// Feeds the events in turn and returns the engine with every report made.
fn feed(mut engine: Engine, events: &[Event]) -> (Engine, Vec<Report>) {
    let mut reports = Vec::new();
    for event in events {
        let (next, report) = engine.step(*event);
        engine = next;
        reports.extend(report);
    }
    (engine, reports)
}

#[test]
fn unique_names_are_accepted() {
    assert!(names_are_unique(&vec![]));
    assert!(names_are_unique(&vec![container("a", 1)]));
    assert!(names_are_unique(&vec![container("a", 1), container("b", 1), container("c", 1)]));
}

#[test]
fn repeated_names_are_found() {
    assert!(!names_are_unique(&vec![container("a", 1), container("a", 2)]));
    assert!(!names_are_unique(&vec![container("a", 1), container("b", 2), container("a", 3)]));
    assert!(!names_are_unique(&vec![container("b", 1), container("a", 2), container("a", 3)]));
}

#[test]
fn engine_refuses_repeated_names() {
    let twice = vec![container("a", 1), container("b", 2), container("b", 3)];
    assert!(Engine::new(twice, String::from("/state"), Duration::from_secs(1)).is_none());
}

#[test]
fn engine_starts_by_loading_the_first_record() {
    let e = engine(&["a", "b"]);
    assert_eq!(e.phase(), Phase::Pass { first: true, index: 0, stage: Stage::Loading });
    assert_eq!(e.request(), Request::Load { path: String::from("/state/a.json") });
    assert_eq!(versions(&e), vec![None, None]);
}

#[test]
fn engine_without_containers_only_sleeps() {
    let e = engine(&[]);
    assert_eq!(e.phase(), Phase::Sleep);
    assert_eq!(e.request(), Request::Sleep { interval: Duration::from_secs(300) });
    let (e, reports) = feed(e, &[Event::Woke, Event::Woke]);
    assert_eq!(e.phase(), Phase::Sleep);
    assert!(reports.is_empty());
}

#[test]
fn initial_round_initialises_every_container_then_sleeps() {
    let e = engine(&["a", "b"]);
    let (e, reports) = feed(
        e,
        &[
            Event::Loaded(None),
            Event::Resolved(Ok(5)),
            Event::Saved(true),
            Event::Loaded(Some(PersistedState { current_version: 8 })),
            Event::Resolved(Ok(8)),
        ],
    );
    assert_eq!(reports, vec![
        Report { index: 0, outcome: Outcome::Baselined(5) },
        Report { index: 1, outcome: Outcome::UpToDate(8) },
    ]);
    assert_eq!(versions(&e), vec![Some(5), Some(8)]);
    assert_eq!(e.phase(), Phase::Sleep);
    assert_eq!(e.request(), Request::Sleep { interval: Duration::from_secs(300) });
}

#[test]
fn requests_follow_the_pass() {
    let e = engine(&["a"]);
    let (e, _) = feed(e, &[Event::Loaded(Some(PersistedState { current_version: 1 }))]);
    assert_eq!(e.request(), Request::Resolve { appid: 100 });
    let (e, _) = feed(e, &[Event::Resolved(Ok(2))]);
    assert_eq!(e.request(), Request::Inspect { name: String::from("a") });
    let (e, _) = feed(e, &[Event::Inspected(Ok(true))]);
    assert_eq!(e.request(), Request::Restart { name: String::from("a") });
    let (e, _) = feed(e, &[Event::Restarted(Ok(()))]);
    assert_eq!(
        e.request(),
        Request::Save {
            path: String::from("/state/a.json"),
            state: PersistedState { current_version: 2 },
        }
    );
    let (e, reports) = feed(e, &[Event::Saved(true)]);
    assert_eq!(reports, vec![Report { index: 0, outcome: Outcome::Updated(2) }]);
    assert_eq!(e.request(), Request::Sleep { interval: Duration::from_secs(300) });
}

#[test]
fn waking_starts_a_round_of_ticks() {
    let e = engine(&["a", "b"]);
    let (e, _) = feed(
        e,
        &[
            Event::Loaded(Some(PersistedState { current_version: 1 })),
            Event::Resolved(Ok(1)),
            Event::Loaded(Some(PersistedState { current_version: 2 })),
            Event::Resolved(Ok(2)),
        ],
    );
    assert_eq!(e.phase(), Phase::Sleep);
    let (e, reports) = feed(e, &[Event::Woke]);
    assert!(reports.is_empty());
    assert_eq!(e.phase(), Phase::Pass { first: false, index: 0, stage: Stage::Observing });
    assert_eq!(e.request(), Request::Resolve { appid: 100 });
    let (e, reports) = feed(e, &[Event::Resolved(Ok(1)), Event::Resolved(Ok(2))]);
    assert_eq!(reports, vec![
        Report { index: 0, outcome: Outcome::UpToDate(1) },
        Report { index: 1, outcome: Outcome::UpToDate(2) },
    ]);
    assert_eq!(e.phase(), Phase::Sleep);
}

#[test]
fn sleeping_engine_ignores_other_events() {
    let e = engine(&["a"]);
    let (e, _) = feed(
        e,
        &[Event::Loaded(Some(PersistedState { current_version: 1 })), Event::Resolved(Ok(1))],
    );
    let (e, reports) = feed(
        e,
        &[
            Event::Resolved(Ok(9)),
            Event::Restarted(Ok(())),
            Event::Saved(true),
            Event::Loaded(None),
        ],
    );
    assert!(reports.is_empty());
    assert_eq!(e.phase(), Phase::Sleep);
    assert_eq!(versions(&e), vec![Some(1)]);
}

#[test]
fn failure_of_one_container_does_not_stop_the_next() {
    let e = engine(&["a", "b"]);
    let (e, _) = feed(
        e,
        &[
            Event::Loaded(Some(PersistedState { current_version: 1 })),
            Event::Resolved(Ok(1)),
            Event::Loaded(Some(PersistedState { current_version: 2 })),
            Event::Resolved(Ok(2)),
            Event::Woke,
        ],
    );
    let (e, reports) = feed(e, &[Event::Resolved(Err(ResolveError::Transient))]);
    assert_eq!(reports, vec![Report {
        index: 0,
        outcome: Outcome::Unresolved(ResolveError::Transient),
    }]);
    assert_eq!(e.phase(), Phase::Pass { first: false, index: 1, stage: Stage::Observing });
    assert_eq!(e.request(), Request::Resolve { appid: 101 });
    let (e, reports) = feed(
        e,
        &[
            Event::Resolved(Ok(3)),
            Event::Inspected(Ok(true)),
            Event::Restarted(Ok(())),
            Event::Saved(true),
        ],
    );
    assert_eq!(reports, vec![Report { index: 1, outcome: Outcome::Updated(3) }]);
    assert_eq!(versions(&e), vec![Some(1), Some(3)]);
    assert_eq!(e.phase(), Phase::Sleep);
}

#[test]
fn failure_at_initialisation_does_not_stop_the_others() {
    let e = engine(&["a", "b", "c"]);
    let (e, reports) = feed(
        e,
        &[
            Event::Loaded(None),
            Event::Resolved(Err(ResolveError::Unauthorized)),
            Event::Loaded(None),
            Event::Resolved(Ok(4)),
            Event::Saved(true),
            Event::Loaded(Some(PersistedState { current_version: 6 })),
            Event::Resolved(Ok(7)),
            Event::Inspected(Err(RuntimeError::NotFound)),
        ],
    );
    assert_eq!(reports, vec![
        Report { index: 0, outcome: Outcome::Unresolved(ResolveError::Unauthorized) },
        Report { index: 1, outcome: Outcome::Baselined(4) },
        Report { index: 2, outcome: Outcome::Uninspected(RuntimeError::NotFound) },
    ]);
    assert_eq!(versions(&e), vec![None, Some(4), Some(6)]);
    assert_eq!(e.phase(), Phase::Sleep);
}

#[test]
fn failed_action_is_retried_in_the_next_round() {
    let e = engine(&["a"]);
    let (e, reports) = feed(
        e,
        &[
            Event::Loaded(Some(PersistedState { current_version: 1 })),
            Event::Resolved(Ok(2)),
            Event::Inspected(Ok(true)),
            Event::Restarted(Err(RuntimeError::Transient)),
        ],
    );
    assert_eq!(reports, vec![Report {
        index: 0,
        outcome: Outcome::ActionFailed(RuntimeError::Transient),
    }]);
    assert_eq!(versions(&e), vec![Some(1)]);
    let (e, _) = feed(e, &[Event::Woke, Event::Resolved(Ok(2)), Event::Inspected(Ok(true))]);
    assert_eq!(e.request(), Request::Restart { name: String::from("a") });
    let (e, reports) = feed(e, &[Event::Restarted(Ok(())), Event::Saved(true)]);
    assert_eq!(reports, vec![Report { index: 0, outcome: Outcome::Updated(2) }]);
    assert_eq!(versions(&e), vec![Some(2)]);
}

#[test]
fn failed_write_halts_the_engine() {
    let e = engine(&["a", "b"]);
    let (e, reports) = feed(
        e,
        &[Event::Loaded(None), Event::Resolved(Ok(5)), Event::Saved(false)],
    );
    assert_eq!(reports, vec![Report { index: 0, outcome: Outcome::SaveFailed }]);
    assert_eq!(e.phase(), Phase::Halt);
    assert_eq!(e.request(), Request::Abort);
    let (e, reports) = feed(e, &[Event::Woke, Event::Loaded(None), Event::Resolved(Ok(1))]);
    assert!(reports.is_empty());
    assert_eq!(e.phase(), Phase::Halt);
    assert_eq!(versions(&e), vec![Some(5), None]);
}

#[test]
fn stray_event_ends_only_the_pass_it_meets() {
    let e = engine(&["a", "b"]);
    let (e, reports) = feed(e, &[Event::Woke]);
    assert_eq!(reports, vec![Report { index: 0, outcome: Outcome::Unexpected }]);
    assert_eq!(e.phase(), Phase::Pass { first: true, index: 1, stage: Stage::Loading });
    assert_eq!(versions(&e), vec![None, None]);
}

#[test]
fn many_rounds_without_change_do_nothing() {
    let e = engine(&["a"]);
    let (mut e, _) = feed(
        e,
        &[Event::Loaded(Some(PersistedState { current_version: 1 })), Event::Resolved(Ok(1))],
    );
    for _ in 0..10 {
        assert_eq!(e.request(), Request::Sleep { interval: Duration::from_secs(300) });
        let (next, _) = feed(e, &[Event::Woke]);
        assert_eq!(next.request(), Request::Resolve { appid: 100 });
        let (next, reports) = feed(next, &[Event::Resolved(Ok(1))]);
        assert_eq!(reports, vec![Report { index: 0, outcome: Outcome::UpToDate(1) }]);
        e = next;
    }
    assert_eq!(versions(&e), vec![Some(1)]);
}
