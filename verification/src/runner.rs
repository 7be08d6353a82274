//! The runner: configuration for spawning one external process, and the
//! protocol of lifecycle events one run may produce. The blocking spawn,
//! read and kill calls live outside the library; they drive a `RunSession`,
//! which decides which event may be sent at each point and records the
//! history, so the ordering guarantees are checked rather than hoped for.

use vstd::prelude::*;
use crate::event::{ExitInfo, RunEvent};

verus! {

/// The space-joined rendering of a command and its arguments.
pub open spec fn joined_command(cmd: Seq<char>, args: Seq<Seq<char>>) -> Seq<char>
    decreases args.len(),
{
    if args.len() == 0 {
        cmd
    } else {
        joined_command(cmd, args.drop_last()) + seq![' '] + args.last()
    }
}

/// Configuration for one external process: the command to spawn and its
/// argument list. A `Runner` spawns exactly one process.
#[derive(Debug, Clone, PartialEq, Eq)]
pub struct Runner {
    command: String,
    args: Vec<String>,
}

impl Runner {
    pub closed spec fn command(self) -> Seq<char> {
        self.command@
    }

    pub closed spec fn args(self) -> Seq<Seq<char>> {
        self.args.deep_view()
    }

    pub fn new(command: String, args: Vec<String>) -> (r: Runner)
        ensures
            r.command() == command@,
            r.args() == args.deep_view(),
    {
        Runner { command, args }
    }

    /// The full command line this runner will spawn, for display.
    pub fn get_full_command(&self) -> (r: String)
        ensures
            r@ == joined_command(self.command(), self.args()),
    {
        let ghost av = self.args.deep_view();
        let mut r = self.command.clone();
        let mut i: usize = 0;
        proof {
            assert(av.take(0) =~= Seq::<Seq<char>>::empty());
        }
        while i < self.args.len()
            invariant
                i <= self.args@.len(),
                av == self.args.deep_view(),
                av.len() == self.args@.len(),
                r@ == joined_command(self.command@, av.take(i as int)),
            decreases self.args@.len() - i,
        {
            r.append(" ");
            r.append(self.args[i].as_str());
            proof {
                reveal_strlit(" ");
                assert(" "@ =~= seq![' ']);
                assert(av.take(i + 1).drop_last() =~= av.take(i as int));
                assert(av.take(i + 1).last() == av[i as int]);
                assert(av[i as int] == self.args@[i as int]@);
                assert(r@ =~= joined_command(self.command@, av.take(i as int)) + seq![' ']
                    + av[i as int]);
            }
            i = i + 1;
        }
        proof {
            assert(av.take(av.len() as int) =~= av);
        }
        r
    }
}

/// Phase of one run of an external process.
#[derive(Debug, Clone, Copy, PartialEq, Eq)]
pub enum RunPhase {
    /// Nothing has happened yet: the process is not spawned.
    Idle,
    /// The process is alive and its output is being streamed.
    Streaming,
    /// The run is over: spawn failed, the run was abandoned before the
    /// spawn, or the process ended.
    Finished,
}

/// Every event of `s` is an output line.
pub open spec fn all_output_lines(s: Seq<RunEvent>) -> bool {
    forall|i: int| 0 <= i < s.len() ==> s[i] is ProcessNewOutputLine
}

/// A well-formed event history for a run still streaming: the creation
/// marker followed only by output lines.
pub open spec fn streaming_history(s: Seq<RunEvent>) -> bool {
    s.len() >= 1 && s[0] is ProcessCreated && all_output_lines(s.skip(1))
}

/// A well-formed event history for a finished run: nothing (cancelled before
/// the spawn), a lone creation failure, or a complete
/// created–lines–end sequence.
pub open spec fn finished_history(s: Seq<RunEvent>) -> bool {
    ||| s.len() == 0
    ||| (s.len() == 1 && s[0] is ProcessCreationFailed)
    ||| (s.len() >= 2 && s[0] is ProcessCreated && s.last() is ProcessEnd && all_output_lines(
        s.subrange(1, s.len() - 1),
    ))
}

/// One run of one external process, tracked as a state machine. The caller
/// performs the spawn, the reads and the kill, and records each outcome
/// here; the machine only permits histories in which `ProcessCreated`
/// precedes all output lines, a single `ProcessEnd` closes a spawned run,
/// and `ProcessCreationFailed` excludes every other event.
pub struct RunSession {
    phase: RunPhase,
    events: Ghost<Seq<RunEvent>>,
}

impl RunSession {
    pub closed spec fn phase(self) -> RunPhase {
        self.phase
    }

    /// The events this run has produced, in order.
    pub closed spec fn events(self) -> Seq<RunEvent> {
        self.events@
    }

    pub open spec fn wf(self) -> bool {
        match self.phase() {
            RunPhase::Idle => self.events().len() == 0,
            RunPhase::Streaming => streaming_history(self.events()),
            RunPhase::Finished => finished_history(self.events()),
        }
    }

    pub fn new() -> (s: RunSession)
        ensures
            s.wf(),
            s.phase() is Idle,
            s.events().len() == 0,
    {
        RunSession { phase: RunPhase::Idle, events: Ghost(Seq::empty()) }
    }

    /// The phase the run is in, for callers that must decide what may
    /// happen next.
    pub fn current_phase(&self) -> (p: RunPhase)
        ensures
            p == self.phase(),
    {
        self.phase
    }

    /// The cancellation flag was observed before the spawn: the run is over
    /// and the process never starts, so no event at all is produced.
    pub fn cancelled_before_spawn(&mut self)
        requires
            old(self).wf(),
            old(self).phase() is Idle,
        ensures
            final(self).wf(),
            final(self).phase() is Finished,
            final(self).events() == old(self).events(),
            final(self).events().len() == 0,
    {
        self.phase = RunPhase::Finished;
    }

    /// The spawn failed; the error report is the only event of the run.
    pub fn spawn_failed(&mut self, err: String) -> (ev: RunEvent)
        requires
            old(self).wf(),
            old(self).phase() is Idle,
        ensures
            final(self).wf(),
            final(self).phase() is Finished,
            ev == RunEvent::ProcessCreationFailed(err),
            final(self).events() == old(self).events().push(ev),
    {
        let ev = RunEvent::ProcessCreationFailed(err);
        proof {
            let new_events = self.events@.push(RunEvent::ProcessCreationFailed(err));
            assert(new_events.len() == 1);
        }
        self.events = Ghost(self.events@.push(ev));
        self.phase = RunPhase::Finished;
        ev
    }

    /// The process was spawned; streaming begins.
    pub fn spawned(&mut self) -> (ev: RunEvent)
        requires
            old(self).wf(),
            old(self).phase() is Idle,
        ensures
            final(self).wf(),
            final(self).phase() is Streaming,
            ev == RunEvent::ProcessCreated,
            final(self).events() == old(self).events().push(ev),
    {
        let ev = RunEvent::ProcessCreated;
        self.events = Ghost(self.events@.push(RunEvent::ProcessCreated));
        self.phase = RunPhase::Streaming;
        proof {
            assert(self.events@.skip(1) =~= Seq::<RunEvent>::empty());
        }
        ev
    }

    /// One line of the process's output became available.
    pub fn output_line(&mut self, line: String) -> (ev: RunEvent)
        requires
            old(self).wf(),
            old(self).phase() is Streaming,
        ensures
            final(self).wf(),
            final(self).phase() is Streaming,
            ev == RunEvent::ProcessNewOutputLine(line),
            final(self).events() == old(self).events().push(ev),
    {
        let ev = RunEvent::ProcessNewOutputLine(line);
        proof {
            let s = self.events@.push(ev);
            assert(s.skip(1) =~= self.events@.skip(1).push(ev));
        }
        self.events = Ghost(self.events@.push(ev));
        ev
    }

    /// The process exited, naturally or after a kill; this closes the run
    /// and is its single end marker.
    pub fn process_ended(&mut self, exit: ExitInfo) -> (ev: RunEvent)
        requires
            old(self).wf(),
            old(self).phase() is Streaming,
        ensures
            final(self).wf(),
            final(self).phase() is Finished,
            ev == RunEvent::ProcessEnd(exit),
            final(self).events() == old(self).events().push(ev),
    {
        let ev = RunEvent::ProcessEnd(exit);
        proof {
            let s = self.events@.push(ev);
            assert(s.subrange(1, s.len() - 1) =~= self.events@.skip(1));
        }
        self.events = Ghost(self.events@.push(ev));
        self.phase = RunPhase::Finished;
        ev
    }
}

/// A creation failure excludes every other event: whenever a well-formed
/// history contains `ProcessCreationFailed`, it is the whole history, so no
/// output line and no end marker can follow it.
pub proof fn lemma_creation_failure_is_alone(s: RunSession, i: int)
    requires
        s.wf(),
        0 <= i < s.events().len(),
        s.events()[i] is ProcessCreationFailed,
    ensures
        s.events().len() == 1,
        i == 0,
{
    let ev = s.events();
    match s.phase() {
        RunPhase::Idle => {},
        RunPhase::Streaming => {
            if i >= 1 {
                assert(ev.skip(1)[i - 1] == ev[i]);
            }
        },
        RunPhase::Finished => {
            if ev.len() >= 2 {
                if 1 <= i < ev.len() - 1 {
                    assert(ev.subrange(1, ev.len() - 1)[i - 1] == ev[i]);
                }
            }
        },
    }
}

/// A spawned run that finished ends with exactly one `ProcessEnd`.
pub proof fn lemma_spawned_run_ends_once(s: RunSession)
    requires
        s.wf(),
        s.phase() is Finished,
        s.events().len() > 0,
        s.events()[0] is ProcessCreated,
    ensures
        s.events().last() is ProcessEnd,
        forall|i: int| 0 <= i < s.events().len() - 1 ==> !(s.events()[i] is ProcessEnd),
{
    let ev = s.events();
    assert forall|i: int| 0 <= i < ev.len() - 1 implies !(ev[i] is ProcessEnd) by {
        if 1 <= i < ev.len() - 1 {
            assert(ev.subrange(1, ev.len() - 1)[i - 1] == ev[i]);
        }
    }
}

/// A run abandoned before its spawn never reports a created process: its
/// history stays empty, so `ProcessCreated` (and hence `RunStart`) is never
/// observed for that work id.
pub proof fn lemma_no_start_after_early_cancel(s: RunSession)
    requires
        s.wf(),
        s.phase() is Finished,
        s.events().len() == 0,
    ensures
        forall|i: int| 0 <= i < s.events().len() ==> !(s.events()[i] is ProcessCreated),
{
}

} // verus!
