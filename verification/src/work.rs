//! Units of cancellable work and the worker that owns one of them. A
//! launcher adapts the runner's process-lifecycle events into the outward
//! event vocabulary, tagged with the work's id; a worker pairs one unit of
//! work with the id the dispatcher assigned to it.

use vstd::prelude::*;
use crate::event::{Event, RunEvent, WorkType};
use crate::runner::Runner;

verus! {

/// How a launcher renders one runner event outward, tagged with its id.
pub open spec fn translate_spec(id: usize, ev: RunEvent) -> Event {
    match ev {
        RunEvent::ProcessCreationFailed(err) => Event::RunFail(id, err),
        RunEvent::ProcessCreated => Event::RunStart(id),
        RunEvent::ProcessEnd(_) => Event::RunEnd(id),
        RunEvent::ProcessNewOutputLine(line) => Event::RunOutputLine(id, line),
    }
}

/// The outward events for a received event sequence, with the launcher's
/// result: a creation failure is relayed as `RunFail` and stops the relay
/// with `false`; every other sequence is relayed in full and yields `true`.
pub open spec fn run_spec(id: usize, msgs: Seq<RunEvent>) -> (Seq<Event>, bool)
    decreases msgs.len(),
{
    if msgs.len() == 0 {
        (Seq::empty(), true)
    } else if msgs[0] is ProcessCreationFailed {
        (seq![translate_spec(id, msgs[0])], false)
    } else {
        let rest = run_spec(id, msgs.drop_first());
        (seq![translate_spec(id, msgs[0])] + rest.0, rest.1)
    }
}

/// Every event the translation produces carries the id it was given: the
/// front end can attribute each event to the work that caused it.
pub proof fn lemma_translated_events_carry_id(id: usize, msgs: Seq<RunEvent>)
    ensures
        forall|j: int| 0 <= j < run_spec(id, msgs).0.len() ==> (#[trigger] run_spec(id,
            msgs).0[j]).id() == id,
    decreases msgs.len(),
{
    if msgs.len() == 0 {
    } else if msgs[0] is ProcessCreationFailed {
    } else {
        lemma_translated_events_carry_id(id, msgs.drop_first());
        let rest = run_spec(id, msgs.drop_first());
        let whole = run_spec(id, msgs).0;
        assert forall|j: int| 0 <= j < whole.len() implies (#[trigger] whole[j]).id() == id by {
            if j > 0 {
                assert(whole[j] == rest.0[j - 1]);
            }
        }
    }
}

/// Launch-type work: runs the compiled binary of an exercise through a
/// runner and relays the runner's events outward under this work's id.
pub struct Launcher {
    id: usize,
    runner: Runner,
}

impl Launcher {
    pub closed spec fn id(self) -> usize {
        self.id
    }

    pub closed spec fn runner(self) -> Runner {
        self.runner
    }

    pub fn new(id: usize, command: String, args: Vec<String>) -> (l: Launcher)
        ensures
            l.id() == id,
            l.runner().command() == command@,
            l.runner().args() == args.deep_view(),
    {
        Launcher { id, runner: Runner::new(command, args) }
    }

    /// The full command line this launcher will run, for display.
    pub fn get_full_command(&self) -> (r: String)
        ensures
            r@ == crate::runner::joined_command(self.runner().command(), self.runner().args()),
    {
        self.runner.get_full_command()
    }

    /// Render one received runner event outward under this work's id.
    pub fn translate(&self, ev: &RunEvent) -> (r: Event)
        ensures
            r == translate_spec(self.id(), *ev),
            r.id() == self.id(),
    {
        match ev {
            RunEvent::ProcessCreationFailed(err) => Event::RunFail(self.id, err.clone()),
            RunEvent::ProcessCreated => Event::RunStart(self.id),
            RunEvent::ProcessEnd(_) => Event::RunEnd(self.id),
            RunEvent::ProcessNewOutputLine(line) => Event::RunOutputLine(self.id, line.clone()),
        }
    }

    /// Translate a received event sequence in order. A creation failure is
    /// relayed as `RunFail` and aborts the translation with `false`: the
    /// subject process never started. Every other sequence is relayed in
    /// full and yields `true`.
    pub fn run(&self, msgs: &Vec<RunEvent>) -> (r: (Vec<Event>, bool))
        ensures
            r.0@ == run_spec(self.id(), msgs@).0,
            r.1 == run_spec(self.id(), msgs@).1,
            forall|j: int| 0 <= j < r.0@.len() ==> (#[trigger] r.0@[j]).id() == self.id(),
    {
        let ghost all = run_spec(self.id(), msgs@);
        let mut out: Vec<Event> = Vec::new();
        let mut i: usize = 0;
        proof {
            assert(msgs@.skip(0) =~= msgs@);
            assert(out@ + all.0 =~= all.0);
        }
        while i < msgs.len()
            invariant
                i <= msgs@.len(),
                all == run_spec(self.id(), msgs@),
                all.0 == out@ + run_spec(self.id(), msgs@.skip(i as int)).0,
                all.1 == run_spec(self.id(), msgs@.skip(i as int)).1,
            decreases msgs@.len() - i,
        {
            let ev = self.translate(&msgs[i]);
            let failed = matches!(&msgs[i], RunEvent::ProcessCreationFailed(_));
            out.push(ev);
            proof {
                let tail = msgs@.skip(i as int);
                assert(tail[0] == msgs@[i as int]);
                assert(tail.drop_first() =~= msgs@.skip(i as int + 1));
                if failed {
                    assert(out@ =~= all.0);
                } else {
                    assert(out@ + run_spec(self.id(), msgs@.skip(i as int + 1)).0 =~= all.0);
                }
            }
            if failed {
                proof {
                    lemma_translated_events_carry_id(self.id(), msgs@);
                }
                return (out, false);
            }
            i = i + 1;
        }
        proof {
            assert(msgs@.skip(msgs@.len() as int) =~= Seq::<RunEvent>::empty());
            assert(out@ + Seq::<Event>::empty() =~= out@);
            lemma_translated_events_carry_id(self.id(), msgs@);
        }
        (out, true)
    }

    pub fn work_type(&self) -> (t: WorkType)
        ensures
            t == WorkType::Launcher,
    {
        WorkType::Launcher
    }

    /// The same launch under another id; the dispatcher assigns ids at
    /// submission.
    pub fn with_id(self, id: usize) -> (l: Launcher)
        ensures
            l.id() == id,
            l.runner() == self.runner(),
    {
        Launcher { id, runner: self.runner }
    }
}

/// A unit of cancellable, event-emitting work. Launching a compiled binary
/// is the process-backed unit this core provides; each variant carries the
/// data it needs to execute itself.
pub enum Work {
    Launch(Launcher),
}

impl Work {
    /// The id of this work; every event it emits carries it.
    pub open spec fn id(self) -> usize {
        match self {
            Work::Launch(l) => l.id(),
        }
    }

    /// Process a received event sequence; see `Launcher::run`.
    pub fn run(&self, msgs: &Vec<RunEvent>) -> (r: (Vec<Event>, bool))
        ensures
            r.0@ == run_spec(self.id(), msgs@).0,
            r.1 == run_spec(self.id(), msgs@).1,
            forall|j: int| 0 <= j < r.0@.len() ==> (#[trigger] r.0@[j]).id() == self.id(),
    {
        match self {
            Work::Launch(l) => l.run(msgs),
        }
    }

    pub fn work_type(&self) -> (t: WorkType)
        ensures
            self is Launch ==> t == WorkType::Launcher,
    {
        match self {
            Work::Launch(l) => l.work_type(),
        }
    }

    /// The same work under another id; the dispatcher assigns ids at
    /// submission.
    pub fn with_id(self, id: usize) -> (w: Work)
        ensures
            w.id() == id,
            self matches Work::Launch(l) ==> (w matches Work::Launch(n) && n.runner()
                == l.runner()),
    {
        match self {
            Work::Launch(l) => Work::Launch(l.with_id(id)),
        }
    }
}

/// Executes one unit of work under the id the dispatcher assigned to it.
/// The dedicated thread, the outward event channel and the completion signal
/// live outside the library; the worker owns the work and guarantees that
/// the id on its events is its own.
pub struct Worker {
    id: usize,
    work: Work,
}

impl Worker {
    pub closed spec fn id(self) -> usize {
        self.id
    }

    pub closed spec fn work(self) -> Work {
        self.work
    }

    /// The worker's id and its work's id agree, so events are attributed
    /// correctly.
    pub open spec fn wf(self) -> bool {
        self.id() == self.work().id()
    }

    pub fn new(id: usize, work: Work) -> (w: Worker)
        requires
            work.id() == id,
        ensures
            w.wf(),
            w.id() == id,
            w.work() == work,
    {
        Worker { id, work }
    }

    /// Run the owned work on a received event sequence. Every emitted event
    /// carries this worker's id.
    pub fn run(&self, msgs: &Vec<RunEvent>) -> (r: (Vec<Event>, bool))
        requires
            self.wf(),
        ensures
            r.0@ == run_spec(self.id(), msgs@).0,
            r.1 == run_spec(self.id(), msgs@).1,
            forall|j: int| 0 <= j < r.0@.len() ==> (#[trigger] r.0@[j]).id() == self.id(),
    {
        self.work.run(msgs)
    }
}

} // verus!
