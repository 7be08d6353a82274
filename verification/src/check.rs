//! Checks and their evaluation state machine: a check names the arguments a
//! compiled exercise is run with and the output it must produce; a
//! `CheckState` tracks one validation pass of one check from `Pending` to a
//! terminal verdict.

use vstd::prelude::*;
use vstd::pervasive::unreached;

verus! {

/// Opaque rendering of the difference between an expected and an actual
/// output. It is produced by the diff collaborator; the core only carries it
/// through to the front end.
#[derive(Debug, Clone, PartialEq, Eq)]
pub struct Diff {
    pub rendered: String,
}

/// The assertion a check makes about a program run.
#[derive(Debug, Clone, PartialEq, Eq)]
pub enum CheckTest {
    /// The captured standard output must equal `expected` exactly.
    Output { expected: String },
}

/// One validation assertion of an exercise: a display name, the arguments the
/// compiled program is run with, and the assertion on its behaviour.
#[derive(Debug, Clone, PartialEq, Eq)]
pub struct Check {
    pub name: String,
    pub args: Vec<String>,
    pub test: CheckTest,
}

impl Check {
    /// The output this check expects.
    pub open spec fn expected_output(self) -> Seq<char> {
        match self.test {
            CheckTest::Output { expected } => expected@,
        }
    }

    /// An exact copy. Verified code cannot conclude anything from the
    /// derived clone, so the copy is rebuilt field by field.
    pub fn duplicate(&self) -> (r: Check)
        ensures
            check_equiv(r, *self),
    {
        let mut args: Vec<String> = Vec::new();
        let mut i: usize = 0;
        while i < self.args.len()
            invariant
                i <= self.args@.len(),
                args@ == self.args@.take(i as int),
            decreases self.args@.len() - i,
        {
            args.push(self.args[i].clone());
            proof {
                assert(self.args@.take(i + 1) =~= self.args@.take(i as int).push(self.args@[i as int]));
            }
            i = i + 1;
        }
        proof {
            assert(self.args@.take(self.args@.len() as int) =~= self.args@);
        }
        let test = match &self.test {
            CheckTest::Output { expected } => CheckTest::Output { expected: expected.clone() },
        };
        Check { name: self.name.clone(), args, test }
    }
}

/// `a` and `b` denote the same check: same name, same argument list, same
/// assertion. (`Vec` values with equal contents need not be equal as values,
/// so the arguments are compared through their view.)
pub open spec fn check_equiv(a: Check, b: Check) -> bool {
    a.name == b.name && a.args@ == b.args@ && a.test == b.test
}

/// Status of one check over one validation pass.
#[derive(Debug, Clone, PartialEq, Eq)]
pub enum CheckStatus {
    Passed,
    /// Wrong output: the actual output, the expected output, and the diff
    /// rendered from the two (never a diff without its two source strings).
    Failed(String, String, Diff),
    /// Output fully captured, comparison in progress.
    Checking,
    /// The subject process is executing.
    Running,
    /// The subject process could not be spawned or run.
    RunFail(String),
    Pending,
}

/// The transition relation of the check state machine. Statuses only move
/// `Pending → Running → Checking → {Passed, Failed}`; `RunFail` cuts the run
/// short before any comparison.
pub open spec fn can_step(a: CheckStatus, b: CheckStatus) -> bool {
    ||| (a is Pending && b is Running)
    ||| (a is Pending && b is RunFail)
    ||| (a is Running && b is Checking)
    ||| (a is Running && b is RunFail)
    ||| (a is Checking && b is Passed)
    ||| (a is Checking && b is Failed)
}

/// A status history allowed by `can_step` that starts at `Pending` and ends
/// in a verdict reaches it only through `Running` and then `Checking`: the
/// comparison phase is never skipped, and no verdict follows `Pending`
/// directly.
pub proof fn lemma_verdict_only_via_checking(path: Seq<CheckStatus>)
    requires
        path.len() >= 2,
        path[0] is Pending,
        forall|i: int| 0 <= i < path.len() - 1 ==> can_step(path[i], #[trigger] path[i + 1]),
        path.last() is Passed || path.last() is Failed,
    ensures
        path.len() >= 4,
        path[path.len() - 2] is Checking,
        path[path.len() - 3] is Running,
{
    let n = path.len() as int;
    assert(can_step(path[n - 2], path[n - 2 + 1]));
    assert(path[n - 2] is Checking);
    assert(n >= 3) by {
        if n == 2 {
            assert(path[0] is Checking);
        }
    }
    assert(can_step(path[n - 3], path[n - 3 + 1]));
    assert(path[n - 3] is Running);
    assert(n >= 4) by {
        if n == 3 {
            assert(path[0] is Running);
        }
    }
}

/// Pairs a check with its current status for one validation pass.
#[derive(Debug, Clone, PartialEq, Eq)]
pub struct CheckState {
    pub check: Check,
    pub status: CheckStatus,
}

impl CheckState {
    /// A fresh record for one validation pass of `check`; it always starts
    /// `Pending`.
    pub fn new(check: &Check) -> (r: CheckState)
        ensures
            check_equiv(r.check, *check),
            r.status is Pending,
    {
        CheckState { check: check.duplicate(), status: CheckStatus::Pending }
    }

    /// The subject process was spawned.
    pub fn start_run(&mut self)
        requires
            old(self).status is Pending,
        ensures
            final(self).check == old(self).check,
            final(self).status is Running,
            can_step(old(self).status, final(self).status),
    {
        self.status = CheckStatus::Running;
    }

    /// The subject process ended and its output is fully captured; the
    /// comparison may begin.
    pub fn output_captured(&mut self)
        requires
            old(self).status is Running,
        ensures
            final(self).check == old(self).check,
            final(self).status is Checking,
            can_step(old(self).status, final(self).status),
    {
        self.status = CheckStatus::Checking;
    }

    /// The subject process could not be spawned or failed while running;
    /// `Checking` is never entered on this path.
    pub fn run_failed(&mut self, err: String)
        requires
            old(self).status is Pending || old(self).status is Running,
        ensures
            final(self).check == old(self).check,
            final(self).status == CheckStatus::RunFail(err),
            can_step(old(self).status, final(self).status),
    {
        self.status = CheckStatus::RunFail(err);
    }

    /// Settle the verdict by comparing the captured output against the
    /// expected one. On a mismatch the caller supplies the diff the
    /// collaborator rendered from the expected and actual strings.
    pub fn conclude(&mut self, actual: String, diff: Option<Diff>)
        requires
            old(self).status is Checking,
            diff is Some <==> actual@ != old(self).check.expected_output(),
        ensures
            final(self).check == old(self).check,
            can_step(old(self).status, final(self).status),
            actual@ == old(self).check.expected_output() ==> final(self).status is Passed,
            actual@ != old(self).check.expected_output() ==> (final(self).status matches CheckStatus::Failed(a, e, d)
                && a == actual && e@ == old(self).check.expected_output() && diff == Some(d)),
    {
        let expected = match &self.check.test {
            CheckTest::Output { expected } => expected.clone(),
        };
        if actual == expected {
            self.status = CheckStatus::Passed;
        } else {
            match diff {
                Some(d) => {
                    self.status = CheckStatus::Failed(actual, expected, d);
                },
                None => unreached(),
            }
        }
    }
}

/// An exercise is solved exactly when every one of its checks passed; an
/// empty list counts as solved.
pub fn all_checks_passed(checks: &Vec<CheckState>) -> (r: bool)
    ensures
        r == (forall|i: int| 0 <= i < checks@.len() ==> checks@[i].status is Passed),
{
    let mut i: usize = 0;
    while i < checks.len()
        invariant
            i <= checks@.len(),
            forall|j: int| 0 <= j < i ==> checks@[j].status is Passed,
        decreases checks@.len() - i,
    {
        let passed = match &checks[i].status {
            CheckStatus::Passed => true,
            _ => false,
        };
        if !passed {
            return false;
        }
        i = i + 1;
    }
    true
}

/// The output lines of a run joined by newlines: the captured standard
/// output a check's expectation is compared against.
pub open spec fn joined_lines(lines: Seq<Seq<char>>) -> Seq<char>
    decreases lines.len(),
{
    if lines.len() == 0 {
        Seq::empty()
    } else if lines.len() == 1 {
        lines[0]
    } else {
        joined_lines(lines.drop_last()) + seq!['\n'] + lines.last()
    }
}

/// Join captured output lines with newlines.
pub fn concat_output(lines: &Vec<String>) -> (r: String)
    ensures
        r@ == joined_lines(lines@.map_values(|l: String| l@)),
{
    let ghost lv = lines@.map_values(|l: String| l@);
    let mut out = String::new();
    let mut i: usize = 0;
    proof {
        assert(lv.take(0) =~= Seq::<Seq<char>>::empty());
    }
    while i < lines.len()
        invariant
            i <= lines@.len(),
            lv == lines@.map_values(|l: String| l@),
            out@ == joined_lines(lv.take(i as int)),
        decreases lines@.len() - i,
    {
        let ghost before = out@;
        if i > 0 {
            out.append("\n");
        }
        out.append(lines[i].as_str());
        proof {
            reveal_strlit("\n");
            assert("\n"@ =~= seq!['\n']);
            assert(lv.take(i + 1).drop_last() =~= lv.take(i as int));
            assert(lv.take(i + 1).last() == lv[i as int]);
            if i == 0 {
                assert(out@ =~= lv[0]);
                assert(joined_lines(lv.take(1)) == lv.take(1)[0]);
            } else {
                assert(out@ =~= joined_lines(lv.take(i as int)) + seq!['\n'] + lv[i as int]);
            }
        }
        i = i + 1;
    }
    proof {
        assert(lv.take(lines@.len() as int) =~= lv);
    }
    out
}

} // verus!
