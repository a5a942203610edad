use vstd::prelude::*;

use crate::action::{chain_step, invoke_update_loop, Action};
use crate::event::RawEvent;
use crate::guard::{check_terminate_sequence, chord_free, chord_of, is_first_chord, Termination};

verus! {

/// What the driver of the loop is to do next.
#[derive(Debug, PartialEq, Eq)]
pub enum Command {
    /// Ask the model whether it is exiting, and report it back.
    CheckExit,
    /// Render the model, and report when done.
    Draw,
    /// Collect the batch of raw events that are ready, and report it back.
    Poll,
    /// Apply the action to the model, and report the action it returns.
    Update(Action),
    /// End the run on a reserved chord.
    Stop(Termination),
    /// End the run normally: the model is exiting.
    Finish,
}

/// Which report the loop waits for.
#[derive(Clone, Copy, Debug, PartialEq, Eq, Structural)]
pub enum Phase {
    CheckingExit,
    Drawing,
    Polling,
    Updating,
    Stopped,
    Finished,
}

/// The actions that one iteration seeds chains with, for a batch that
/// holds no reserved chord: each event in arrival order, then one tick.
pub open spec fn iteration_plan(batch: Seq<RawEvent>) -> Seq<Action> {
    batch.map_values(|e: RawEvent| Action::TranslateRawEvent(e)).push(Action::UpdateTimer)
}

/// The decisions of the application loop: draw, poll, guard, one chain per
/// event, one chain for the tick, and again until the model is exiting.
pub struct AppLoop {
    phase: Phase,
    pending: Vec<RawEvent>,
    timer_seeded: bool,
    batch: Ghost<Seq<RawEvent>>,
    seeds: Ghost<Seq<Action>>,
    chain: Ghost<Seq<Action>>,
}

impl AppLoop {
    /// Which report the loop waits for.
    pub closed spec fn phase_spec(&self) -> Phase {
        self.phase
    }

    /// The batch of the current iteration.
    pub closed spec fn batch(&self) -> Seq<RawEvent> {
        self.batch@
    }

    /// The seeds of the chains started in the current iteration, in order.
    pub closed spec fn seeds(&self) -> Seq<Action> {
        self.seeds@
    }

    /// The actions handed to the update step in the current chain, in order.
    pub closed spec fn chain(&self) -> Seq<Action> {
        self.chain@
    }

    /// The seeds not yet started in the current iteration.
    closed spec fn remaining(&self) -> Seq<Action> {
        let rest = self.pending@.map_values(|e: RawEvent| Action::TranslateRawEvent(e));
        if self.timer_seeded {
            rest
        } else {
            rest.push(Action::UpdateTimer)
        }
    }

    /// The seeds started and those left make up the iteration's plan.
    closed spec fn dispatching(&self) -> bool {
        &&& self.timer_seeded ==> self.pending@.len() == 0
        &&& self.seeds@ + self.remaining() == iteration_plan(self.batch@)
    }

    /// The loop's internal invariant.
    pub closed spec fn wf(&self) -> bool {
        self.phase == Phase::Updating ==> {
            &&& self.dispatching()
            &&& self.seeds@.len() > 0
            &&& self.chain@.len() > 0
            &&& self.chain@.last() !is Noop
        }
    }

    /// A loop about to ask whether the model is exiting.
    pub fn new() -> (r: (AppLoop, Command))
        ensures
            r.0.wf(),
            r.0.phase_spec() == Phase::CheckingExit,
            r.1 == Command::CheckExit,
    {
        let lp = AppLoop {
            phase: Phase::CheckingExit,
            pending: Vec::new(),
            timer_seeded: false,
            batch: Ghost(Seq::empty()),
            seeds: Ghost(Seq::empty()),
            chain: Ghost(Seq::empty()),
        };
        (lp, Command::CheckExit)
    }

    /// Which report the loop waits for.
    pub fn phase(&self) -> (r: Phase)
        ensures
            r == self.phase_spec(),
    {
        self.phase
    }

    /// Takes the model's answer to `CheckExit`: an exiting model ends the
    /// run at once, with no further draw; otherwise the next frame is drawn.
    pub fn exit_checked(&mut self, exiting: bool) -> (cmd: Command)
        requires
            old(self).wf(),
            old(self).phase_spec() == Phase::CheckingExit,
        ensures
            final(self).wf(),
            exiting ==> cmd == Command::Finish && final(self).phase_spec() == Phase::Finished,
            !exiting ==> cmd == Command::Draw && final(self).phase_spec() == Phase::Drawing,
    {
        if exiting {
            self.phase = Phase::Finished;
            Command::Finish
        } else {
            self.phase = Phase::Drawing;
            Command::Draw
        }
    }

    /// Takes the report that the frame was drawn: the events are polled next.
    pub fn drawn(&mut self) -> (cmd: Command)
        requires
            old(self).wf(),
            old(self).phase_spec() == Phase::Drawing,
        ensures
            final(self).wf(),
            cmd == Command::Poll,
            final(self).phase_spec() == Phase::Polling,
    {
        self.phase = Phase::Polling;
        Command::Poll
    }

    /// Starts the chain of the next seed of the iteration, or, when none is
    /// left, asks whether the model is exiting.
    fn start_next_chain(&mut self) -> (cmd: Command)
        requires
            old(self).dispatching(),
        ensures
            final(self).wf(),
            final(self).batch() == old(self).batch(),
            ({
                let plan = iteration_plan(old(self).batch());
                let k = old(self).seeds().len();
                if k < plan.len() {
                    &&& cmd == Command::Update(plan[k as int])
                    &&& final(self).phase_spec() == Phase::Updating
                    &&& final(self).seeds() == old(self).seeds().push(plan[k as int])
                    &&& final(self).chain() == seq![plan[k as int]]
                } else {
                    &&& cmd == Command::CheckExit
                    &&& final(self).phase_spec() == Phase::CheckingExit
                    &&& final(self).seeds() == plan
                }
            }),
    {
        let ghost before = self.remaining();
        let seed = if self.pending.len() > 0 {
            let ev = self.pending.remove(0);
            assert(before =~= seq![Action::TranslateRawEvent(ev)] + self.remaining());
            Action::TranslateRawEvent(ev)
        } else if !self.timer_seeded {
            self.timer_seeded = true;
            assert(before =~= seq![Action::UpdateTimer] + self.remaining());
            Action::UpdateTimer
        } else {
            assert(self.remaining() =~= Seq::<Action>::empty());
            assert(self.pending@.map_values(|e: RawEvent| Action::TranslateRawEvent(e)) =~= Seq::<Action>::empty());
            assert(self.seeds@ =~= iteration_plan(self.batch@));
            self.phase = Phase::CheckingExit;
            return Command::CheckExit;
        };
        assert(self.seeds@.push(seed) + self.remaining() =~= self.seeds@ + before);
        assert(iteration_plan(self.batch@)[self.seeds@.len() as int] == seed);
        self.seeds = Ghost(self.seeds@.push(seed));
        self.chain = Ghost(Seq::empty().push(seed));
        self.phase = Phase::Updating;
        Command::Update(seed)
    }

    /// Takes the polled batch. A batch that holds a reserved chord ends the
    /// run on the first one, before any of its events reaches the model.
    /// Otherwise each event seeds a chain, in arrival order, and then the
    /// tick seeds one.
    pub fn polled(&mut self, batch: Vec<RawEvent>) -> (cmd: Command)
        requires
            old(self).wf(),
            old(self).phase_spec() == Phase::Polling,
        ensures
            final(self).wf(),
            !chord_free(batch@) <==> cmd is Stop,
            cmd matches Command::Stop(t) ==> {
                &&& is_first_chord(batch@, t.index as int)
                &&& chord_of(batch@[t.index as int]) == Some(t.chord)
                &&& final(self).phase_spec() == Phase::Stopped
                &&& final(self).seeds().len() == 0
            },
            chord_free(batch@) ==> {
                &&& final(self).batch() == batch@
                &&& cmd == Command::Update(iteration_plan(batch@)[0])
                &&& final(self).phase_spec() == Phase::Updating
                &&& final(self).seeds() == seq![iteration_plan(batch@)[0]]
                &&& final(self).chain() == seq![iteration_plan(batch@)[0]]
            },
    {
        match check_terminate_sequence(&batch) {
            Err(t) => {
                self.seeds = Ghost(Seq::empty());
                self.phase = Phase::Stopped;
                Command::Stop(t)
            },
            Ok(()) => {
                self.batch = Ghost(batch@);
                self.pending = batch;
                self.timer_seeded = false;
                self.seeds = Ghost(Seq::empty());
                assert(self.seeds@ + self.remaining() =~= iteration_plan(self.batch@));
                let cmd = self.start_next_chain();
                cmd
            },
        }
    }

    /// Takes the action that the update step returned. Anything but `Noop`
    /// goes back to the update step in the same chain. `Noop` closes the
    /// chain for good: the next seed starts a new one, and after the tick's
    /// chain the loop asks whether the model is exiting.
    pub fn updated(&mut self, next: Action) -> (cmd: Command)
        requires
            old(self).wf(),
            old(self).phase_spec() == Phase::Updating,
        ensures
            final(self).wf(),
            final(self).batch() == old(self).batch(),
            next !is Noop ==> {
                &&& cmd == Command::Update(next)
                &&& final(self).phase_spec() == Phase::Updating
                &&& final(self).seeds() == old(self).seeds()
                &&& final(self).chain() == old(self).chain().push(next)
            },
            next is Noop ==> ({
                let plan = iteration_plan(old(self).batch());
                let k = old(self).seeds().len();
                if k < plan.len() {
                    &&& cmd == Command::Update(plan[k as int])
                    &&& final(self).phase_spec() == Phase::Updating
                    &&& final(self).seeds() == old(self).seeds().push(plan[k as int])
                    &&& final(self).chain() == seq![plan[k as int]]
                } else {
                    &&& cmd == Command::CheckExit
                    &&& final(self).phase_spec() == Phase::CheckingExit
                    &&& final(self).seeds() == plan
                }
            }),
            cmd is CheckExit ==> final(self).seeds() == iteration_plan(final(self).batch()),
    {
        let ghost n = next;
        match invoke_update_loop(next) {
            Some(a) => {
                self.chain = Ghost(self.chain@.push(a));
                Command::Update(a)
            },
            None => {
                assert(chain_step(n) is None);
                self.start_next_chain()
            },
        }
    }
}

/// Each iteration seeds exactly one tick, and seeds it last, after every
/// event of the batch in arrival order.
pub proof fn iteration_plan_has_one_tick(batch: Seq<RawEvent>)
    ensures
        iteration_plan(batch).len() == batch.len() + 1,
        iteration_plan(batch).last() == Action::UpdateTimer,
        forall|i: int|
            0 <= i < batch.len() ==> #[trigger] iteration_plan(batch)[i]
                == Action::TranslateRawEvent(batch[i]),
        forall|i: int|
            0 <= i < iteration_plan(batch).len() && #[trigger] iteration_plan(batch)[i]
                == Action::UpdateTimer ==> i == batch.len(),
{
}

} // verus!
