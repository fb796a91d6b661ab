use vstd::prelude::*;

use crate::{QueryFailure, QueryFailureV};

verus! {

/// Most attempts the invoker makes before giving up on a command that
/// keeps exiting non-zero.
pub const MAX_ATTEMPTS: u32 = 10;

/// Seconds a caller is expected to pause between attempts.
pub const RETRY_PAUSE_SECS: u64 = 1;

/// What one completed run of the status command produced.
#[derive(Debug, PartialEq)]
pub struct RunOutput {
    pub success: bool,
    pub stdout: Vec<u8>,
    pub stderr: Vec<u8>,
}

/// The outcome of one attempt to run the status command: it could not be
/// spawned at all (with the launcher's message), or it ran to completion.
#[derive(Debug, PartialEq)]
pub enum Attempt {
    SpawnFailed(String),
    Completed(RunOutput),
}

/// Mathematical model of a `RunOutput`.
pub struct RunOutputV {
    pub success: bool,
    pub stdout: Seq<u8>,
    pub stderr: Seq<u8>,
}

/// Mathematical model of an `Attempt`.
pub enum AttemptV {
    SpawnFailed(Seq<char>),
    Completed(RunOutputV),
}

impl View for RunOutput {
    type V = RunOutputV;

    open spec fn view(&self) -> RunOutputV {
        RunOutputV { success: self.success, stdout: self.stdout@, stderr: self.stderr@ }
    }
}

impl View for Attempt {
    type V = AttemptV;

    open spec fn view(&self) -> AttemptV {
        match self {
            Attempt::SpawnFailed(m) => AttemptV::SpawnFailed(m@),
            Attempt::Completed(o) => AttemptV::Completed(o@),
        }
    }
}

/// The models of a sequence of attempt outcomes.
pub open spec fn attempts_view(s: Seq<Attempt>) -> Seq<AttemptV> {
    s.map_values(|a: Attempt| a@)
}

/// Whether the retry loop stops at this outcome: a spawn failure is not
/// transient and is never retried, and a successful exit ends the loop.
pub open spec fn is_terminal(a: AttemptV) -> bool {
    match a {
        AttemptV::SpawnFailed(_) => true,
        AttemptV::Completed(o) => o.success,
    }
}

/// What the attempt the loop stops on yields: stdout on success, the
/// spawn failure as such, or the captured stderr of the failed run.
pub open spec fn spec_verdict(a: AttemptV) -> Result<Seq<u8>, QueryFailureV> {
    match a {
        AttemptV::SpawnFailed(m) => Err(QueryFailureV::SpawnFailure(m)),
        AttemptV::Completed(o) => if o.success {
            Ok(o.stdout)
        } else {
            Err(QueryFailureV::CommandFailure(o.stderr))
        },
    }
}

/// Index of the attempt the retry loop stops on, searching from `i`: the
/// first terminal outcome, or the last attempt the budget of
/// `MAX_ATTEMPTS` (and the supplied sequence) allows.
pub open spec fn spec_stop_from(s: Seq<AttemptV>, i: int) -> int
    decreases s.len() - i,
{
    if i < 0 || i >= s.len() {
        i
    } else if is_terminal(s[i]) || i + 1 >= s.len() || i + 1 >= MAX_ATTEMPTS {
        i
    } else {
        spec_stop_from(s, i + 1)
    }
}

/// Index of the attempt the retry loop stops on.
pub open spec fn spec_stop(s: Seq<AttemptV>) -> int {
    spec_stop_from(s, 0)
}

/// The invoker's raw result on a given sequence of attempt outcomes.
pub open spec fn spec_invoke(s: Seq<AttemptV>) -> Result<Seq<u8>, QueryFailureV>
    recommends
        s.len() >= 1,
{
    spec_verdict(s[spec_stop(s)])
}

/// How many pauses a run takes: one after every attempt that is retried,
/// none after the attempt the loop stops on.
pub open spec fn spec_pauses(s: Seq<AttemptV>) -> int {
    spec_stop(s)
}

/// The model of an exec raw result.
pub open spec fn raw_view(r: Result<Vec<u8>, QueryFailure>) -> Result<Seq<u8>, QueryFailureV> {
    match r {
        Ok(b) => Ok(b@),
        Err(f) => Err(f@),
    }
}

/// Turn the attempt the loop stopped on into the invoker's raw result.
fn verdict_of(a: Attempt) -> (r: Result<Vec<u8>, QueryFailure>)
    ensures
        raw_view(r) == spec_verdict(a@),
{
    match a {
        Attempt::SpawnFailed(m) => Err(QueryFailure::SpawnFailure(m)),
        Attempt::Completed(o) => {
            let RunOutput { success, stdout, stderr } = o;
            if success {
                Ok(stdout)
            } else {
                Err(QueryFailure::CommandFailure(stderr))
            }
        },
    }
}

/// Retry bookkeeping for a caller that performs the attempts itself:
/// hand each outcome to `observe` and act on the step it returns.
pub struct Invoker {
    pub attempts_done: u32,
}

/// What a caller driving the retry loop must do next: stop with this
/// result, or pause for `RETRY_PAUSE_SECS` and try once more.
pub enum Step {
    Done(Result<Vec<u8>, QueryFailure>),
    Retry,
}

impl Invoker {
    /// A fresh invoker that has made no attempt yet.
    pub fn new() -> (s: Self)
        ensures
            s.attempts_done == 0,
    {
        Invoker { attempts_done: 0 }
    }

    /// Account one attempt's outcome: the final result on a terminal
    /// outcome or an exhausted budget, a retry otherwise.
    pub fn observe(&mut self, a: Attempt) -> (step: Step)
        requires
            old(self).attempts_done < MAX_ATTEMPTS,
        ensures
            final(self).attempts_done == old(self).attempts_done + 1,
            match step {
                Step::Done(r) => (is_terminal(a@) || old(self).attempts_done + 1 == MAX_ATTEMPTS)
                    && raw_view(r) == spec_verdict(a@),
                Step::Retry => !is_terminal(a@) && old(self).attempts_done + 1 < MAX_ATTEMPTS,
            },
    {
        self.attempts_done = self.attempts_done + 1;
        let terminal = match &a {
            Attempt::SpawnFailed(_) => true,
            Attempt::Completed(o) => o.success,
        };
        if terminal || self.attempts_done >= MAX_ATTEMPTS {
            Step::Done(verdict_of(a))
        } else {
            Step::Retry
        }
    }
}

/// Run the retry policy over a sequence of attempt outcomes, handed over
/// up front: the raw result, and the number of pauses a live run would
/// have slept through.
pub fn run_attempts(attempts: Vec<Attempt>) -> (r: (Result<Vec<u8>, QueryFailure>, u32))
    requires
        attempts@.len() >= 1,
    ensures
        raw_view(r.0) == spec_invoke(attempts_view(attempts@)),
        r.1 == spec_pauses(attempts_view(attempts@)),
{
    let ghost sv = attempts_view(attempts@);
    let mut work = attempts;
    let mut i: usize = 0;
    loop
        invariant
            sv == attempts_view(attempts@),
            sv == attempts_view(work@),
            sv.len() == work@.len(),
            1 <= sv.len(),
            0 <= i < sv.len(),
            i < MAX_ATTEMPTS,
            spec_stop_from(sv, 0) == spec_stop_from(sv, i as int),
        decreases sv.len() - i,
    {
        let stop_here = {
            let a = &work[i];
            let terminal = match a {
                Attempt::SpawnFailed(_) => true,
                Attempt::Completed(o) => o.success,
            };
            terminal || i + 1 >= work.len() || i + 1 >= MAX_ATTEMPTS as usize
        };
        if stop_here {
            proof {
                assert(spec_stop_from(sv, i as int) == i);
            }
            let a = work.remove(i);
            proof {
                assert(a@ == sv[i as int]);
            }
            let verdict = verdict_of(a);
            return (verdict, i as u32);
        }
        proof {
            assert(spec_stop_from(sv, i as int) == spec_stop_from(sv, i as int + 1));
        }
        i += 1;
    }
}

/// Law: with failed runs on the first three attempts and a successful one
/// on the fourth, the run stops on the fourth attempt, succeeds with its
/// stdout, and pauses exactly three times.
pub proof fn lemma_retry_then_success(s: Seq<AttemptV>)
    requires
        s.len() >= 4,
        forall|i: int|
            0 <= i < 3 ==> (#[trigger] s[i] matches AttemptV::Completed(o) && !o.success),
        s[3] matches AttemptV::Completed(o) && o.success,
    ensures
        spec_stop(s) == 3,
        spec_pauses(s) == 3,
        spec_invoke(s) == Ok::<Seq<u8>, QueryFailureV>(s[3]->Completed_0.stdout),
        crate::decode::spec_decode(s[3]->Completed_0.stdout) matches Some(st)
            ==> crate::spec_query(s) == Ok::<crate::decode::StatusV, Seq<char>>(st),
{
    reveal_with_fuel(spec_stop_from, 6);
    assert(!is_terminal(s[0]));
    assert(!is_terminal(s[1]));
    assert(!is_terminal(s[2]));
    assert(is_terminal(s[3]));
}

/// Law: with a command that keeps exiting non-zero, the run stops only
/// once all `MAX_ATTEMPTS` attempts are spent, fails with the stderr of
/// the final attempt, and pauses after every attempt but the last.
pub proof fn lemma_always_failing_exhausts(s: Seq<AttemptV>)
    requires
        s.len() >= MAX_ATTEMPTS,
        forall|i: int|
            0 <= i < s.len() ==> (#[trigger] s[i] matches AttemptV::Completed(o) && !o.success),
    ensures
        spec_stop(s) == MAX_ATTEMPTS - 1,
        spec_pauses(s) == MAX_ATTEMPTS - 1,
        spec_invoke(s) == Err::<Seq<u8>, QueryFailureV>(
            QueryFailureV::CommandFailure(s[MAX_ATTEMPTS - 1]->Completed_0.stderr),
        ),
        crate::spec_query(s) == Err::<crate::decode::StatusV, Seq<char>>(
            crate::spec_collapsed_message(
                QueryFailureV::CommandFailure(s[MAX_ATTEMPTS - 1]->Completed_0.stderr),
            ),
        ),
{
    reveal_with_fuel(spec_stop_from, 12);
    assert(forall|i: int| 0 <= i < s.len() ==> !is_terminal(#[trigger] s[i]));
}

/// Law: a command that cannot be spawned at all fails the run at once:
/// no retry, no pause, and the spawn failure comes back as such.
pub proof fn lemma_spawn_failure_immediate(s: Seq<AttemptV>)
    requires
        s.len() >= 1,
        s[0] matches AttemptV::SpawnFailed(m),
    ensures
        spec_stop(s) == 0,
        spec_pauses(s) == 0,
        spec_invoke(s) == Err::<Seq<u8>, QueryFailureV>(
            QueryFailureV::SpawnFailure(s[0]->SpawnFailed_0),
        ),
        crate::spec_query(s) == Err::<crate::decode::StatusV, Seq<char>>(
            "failed to spawn 'rpm-ostree status'"@,
        ),
{
    assert(is_terminal(s[0]));
}

} // verus!
