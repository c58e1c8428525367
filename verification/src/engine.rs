//! The update engine: all containers, taken through their passes in turn.
//!
//! The engine starts with one initial round, in which every container is
//! initialised, sleeps, and then runs periodic rounds for ever, with a sleep
//! after each. Like a single pass it does nothing by itself:
//! [`Engine::request`] says what the caller has to do, and [`Engine::step`]
//! takes the result. A pass that ends badly ends alone: the round goes on
//! with the next container. Only a record that cannot be written stops the
//! engine.

use crate::container::{
    request_of, step, Container, ContainerView, Event, Outcome, Request, RequestView, Stage,
};
use std::time::Duration;
use vstd::prelude::*;

verus! {

/// What the engine is busy with.
#[derive(Clone, Copy, Debug, PartialEq, Eq)]
pub enum Phase {
    /// A round is under way: the pass of container `index` is at `stage`.
    /// `first` is true in the initial round only.
    Pass { first: bool, index: usize, stage: Stage },
    /// The round is over; the next one starts after the sleep.
    Sleep,
    /// A record could not be written. Nothing more will be done.
    Halt,
}

/// The end of one container's pass.
#[derive(Clone, Copy, Debug, PartialEq, Eq)]
pub struct Report {
    /// Which container, by its place in the list.
    pub index: usize,
    /// How its pass ended.
    pub outcome: Outcome,
}

/// The engine's containers and what it is doing.
pub struct Engine {
    containers: Vec<Container>,
    state_dir: String,
    interval: Duration,
    phase: Phase,
}

/// An [`Engine`] as a plain value.
pub struct EngineView {
    pub containers: Seq<ContainerView>,
    /// The directory below which the records lie.
    pub state_dir: Seq<char>,
    /// How long the engine sleeps between two rounds.
    pub interval: Duration,
    pub phase: Phase,
}

/// The containers of a list as plain values.
pub open spec fn views(containers: Seq<Container>) -> Seq<ContainerView> {
    Seq::new(containers.len(), |i: int| containers[i]@)
}

/// No two containers of the list have the same name.
pub open spec fn names_unique(containers: Seq<ContainerView>) -> bool {
    forall|i: int, j: int|
        0 <= i < j < containers.len() ==> (#[trigger] containers[i]).name != (
        #[trigger] containers[j]).name
}

/// The stage at which a pass starts: the first pass of a container loads
/// its record, every later one observes at once.
pub open spec fn first_stage(first: bool) -> Stage {
    if first {
        Stage::Loading
    } else {
        Stage::Observing
    }
}

/// The phase at the start of a round over `count` containers.
pub open spec fn round_start(first: bool, count: nat) -> Phase {
    if count == 0 {
        Phase::Sleep
    } else {
        Phase::Pass { first, index: 0, stage: first_stage(first) }
    }
}

/// The phase after the pass of container `index` ended with `outcome`, in a
/// round over `count` containers.
pub open spec fn after_pass(first: bool, index: usize, outcome: Outcome, count: nat) -> Phase {
    if outcome == Outcome::SaveFailed {
        Phase::Halt
    } else if index + 1 < count {
        Phase::Pass { first, index: (index + 1) as usize, stage: first_stage(first) }
    } else {
        Phase::Sleep
    }
}

impl EngineView {
    /// What every engine satisfies: the list can be counted, names are
    /// unique, and a pass under way belongs to a container of the list and
    /// is not over.
    pub open spec fn wf(self) -> bool {
        &&& self.containers.len() <= usize::MAX
        &&& names_unique(self.containers)
        &&& self.phase matches Phase::Pass { index, stage, .. } ==> index < self.containers.len()
            && !(stage is Done)
    }

    /// The engine before anything was done.
    pub open spec fn start(
        containers: Seq<ContainerView>,
        state_dir: Seq<char>,
        interval: Duration,
    ) -> EngineView {
        EngineView { containers, state_dir, interval, phase: round_start(true, containers.len()) }
    }

    /// What the caller has to do now.
    pub open spec fn request(self) -> RequestView {
        match self.phase {
            Phase::Pass { index, stage, .. } => request_of(
                self.containers[index as int],
                stage,
                self.state_dir,
            ).unwrap(),
            Phase::Sleep => RequestView::Sleep { interval: self.interval },
            Phase::Halt => RequestView::Abort,
        }
    }

    /// The engine after `event`.
    ///
    /// During a pass the event goes to the container whose pass it is, and
    /// to no other. When the pass is over, the round moves to the next
    /// container, or to the sleep after the last one. While the engine
    /// sleeps, only [`Event::Woke`] has an effect: the next round starts.
    pub open spec fn step(self, event: Event) -> EngineView {
        match self.phase {
            Phase::Pass { first, index, stage } => {
                let (container, next) = step(self.containers[index as int], stage, event);
                let containers = self.containers.update(index as int, container);
                match next {
                    Stage::Done(outcome) => EngineView {
                        containers,
                        phase: after_pass(first, index, outcome, self.containers.len()),
                        ..self
                    },
                    _ => EngineView {
                        containers,
                        phase: Phase::Pass { first, index, stage: next },
                        ..self
                    },
                }
            },
            Phase::Sleep => match event {
                Event::Woke => EngineView {
                    phase: round_start(false, self.containers.len()),
                    ..self
                },
                _ => self,
            },
            Phase::Halt => self,
        }
    }

    /// The pass that `event` brings to its end, if it does.
    pub open spec fn report(self, event: Event) -> Option<Report> {
        match self.phase {
            Phase::Pass { index, stage, .. } => match step(
                self.containers[index as int],
                stage,
                event,
            ).1 {
                Stage::Done(outcome) => Some(Report { index, outcome }),
                _ => None,
            },
            _ => None,
        }
    }
}

impl View for Engine {
    type V = EngineView;

    closed spec fn view(&self) -> EngineView {
        EngineView {
            containers: views(self.containers@),
            state_dir: self.state_dir@,
            interval: self.interval,
            phase: self.phase,
        }
    }
}

/// Tells whether no name occurs twice in `containers`.
pub fn names_are_unique(containers: &Vec<Container>) -> (unique: bool)
    ensures
        unique == names_unique(views(containers@)),
{
    let ghost all = views(containers@);
    let count: usize = containers.len();
    let mut j: usize = 0;
    while j < count
        invariant
            j <= count,
            count == containers.len(),
            all == views(containers@),
            forall|a: int, b: int|
                0 <= a < b < j ==> (#[trigger] all[a]).name != (#[trigger] all[b]).name,
        decreases count - j,
    {
        let mut i: usize = 0;
        while i < j
            invariant
                i <= j < count,
                count == containers.len(),
                all == views(containers@),
                forall|a: int| 0 <= a < i ==> (#[trigger] all[a]).name != all[j as int].name,
            decreases j - i,
        {
            if containers[i].same_name(&containers[j]) {
                assert(all[i as int].name == all[j as int].name);
                return false;
            }
            i = i + 1;
        }
        j = j + 1;
    }
    true
}

impl Engine {
    #[verifier::type_invariant]
    spec fn inv(self) -> bool {
        self@.wf()
    }

    /// An engine for `containers` that keeps its records below `state_dir`
    /// and sleeps for `interval` between rounds; `None` where two
    /// containers have the same name.
    pub fn new(containers: Vec<Container>, state_dir: String, interval: Duration) -> (r: Option<
        Engine,
    >)
        ensures
            r is Some <==> names_unique(views(containers@)),
            r matches Some(e) ==> e@ == EngineView::start(
                views(containers@),
                state_dir@,
                interval,
            ) && e@.wf(),
    {
        if !names_are_unique(&containers) {
            return None;
        }
        let phase = if containers.len() == 0 {
            Phase::Sleep
        } else {
            Phase::Pass { first: true, index: 0, stage: Stage::Loading }
        };
        Some(Engine { containers, state_dir, interval, phase })
    }

    /// The containers, in the order in which they were given.
    pub fn containers(&self) -> (cs: &Vec<Container>)
        ensures
            views(cs@) == self@.containers,
    {
        &self.containers
    }

    /// What the engine is busy with.
    pub fn phase(&self) -> (p: Phase)
        ensures
            p == self@.phase,
            self@.wf(),
    {
        proof {
            use_type_invariant(self);
        }
        self.phase
    }

    /// What the caller has to do now: see [`EngineView::request`].
    pub fn request(&self) -> (r: Request)
        ensures
            r@ == self@.request(),
    {
        proof {
            use_type_invariant(self);
        }
        match self.phase {
            Phase::Pass { index, stage, .. } => self.containers[index].request(
                stage,
                self.state_dir.as_str(),
            ).unwrap(),
            Phase::Sleep => Request::Sleep { interval: self.interval },
            Phase::Halt => Request::Abort,
        }
    }

    /// Takes the result of the request: see [`EngineView::step`]. Returns
    /// the engine after the event, and the end of the pass, if this event
    /// ended one.
    pub fn step(self, event: Event) -> (r: (Engine, Option<Report>))
        ensures
            r.0@ == self@.step(event),
            r.0@.wf(),
            r.1 == self@.report(event),
    {
        proof {
            use_type_invariant(&self);
        }
        let ghost before = self@;
        let Engine { mut containers, state_dir, interval, phase } = self;
        match phase {
            Phase::Pass { first, index, stage } => {
                let count: usize = containers.len();
                assert(index < count);
                let next = containers[index].update(stage, event);
                assert(views(containers@) =~= before.containers.update(
                    index as int,
                    containers@[index as int]@,
                ));
                match next {
                    Stage::Done(outcome) => {
                        let last: bool = index + 1 >= count;
                        let phase = match outcome {
                            Outcome::SaveFailed => Phase::Halt,
                            _ => if last {
                                Phase::Sleep
                            } else {
                                Phase::Pass {
                                    first,
                                    index: index + 1,
                                    stage: if first {
                                        Stage::Loading
                                    } else {
                                        Stage::Observing
                                    },
                                }
                            },
                        };
                        (
                            Engine { containers, state_dir, interval, phase },
                            Some(Report { index, outcome }),
                        )
                    },
                    _ => {
                        let phase = Phase::Pass { first, index, stage: next };
                        (Engine { containers, state_dir, interval, phase }, None)
                    },
                }
            },
            Phase::Sleep => {
                let phase = match event {
                    Event::Woke => if containers.len() == 0 {
                        Phase::Sleep
                    } else {
                        Phase::Pass { first: false, index: 0, stage: Stage::Observing }
                    },
                    _ => Phase::Sleep,
                };
                (Engine { containers, state_dir, interval, phase }, None)
            },
            Phase::Halt => (Engine { containers, state_dir, interval, phase }, None),
        }
    }
}

} // verus!
