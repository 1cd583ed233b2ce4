//! The polling loop's decisions: what follows an attempt, and which `ssh`
//! candidate on the search path can be run.
use vstd::prelude::*;
use crate::args::Args;
use crate::attempt::AttemptError;

verus! {

/// What the polling loop does after an attempt.
#[derive(Debug)]
pub enum PollStep {
    /// Stop: the unlock succeeded and only one was asked for.
    Finish,
    /// Stop with the attempt's error: retrying it is unsafe.
    Fail,
    /// Wait this many seconds, then attempt again.
    Sleep(u64),
}

/// After a success, stop in once mode and otherwise wait the success
/// interval; after a transport failure, wait the failure interval; after an
/// unsafe failure, stop with its error.
pub open spec fn poll_step_spec(args: Args, outcome: Result<(), AttemptError>) -> PollStep {
    match outcome {
        Ok(()) => if args.once {
            PollStep::Finish
        } else {
            PollStep::Sleep(args.success_interval)
        },
        Err(AttemptError::Retry(_)) => PollStep::Sleep(args.failure_interval),
        Err(AttemptError::Fatal(_)) => PollStep::Fail,
    }
}

/// Decides what follows an attempt.
pub fn next_poll_step(args: &Args, outcome: &Result<(), AttemptError>) -> (r: PollStep)
    ensures
        r == poll_step_spec(*args, *outcome),
{
    match outcome {
        Ok(()) => {
            if args.once {
                PollStep::Finish
            } else {
                PollStep::Sleep(args.success_interval)
            }
        },
        Err(AttemptError::Retry(_)) => PollStep::Sleep(args.failure_interval),
        Err(AttemptError::Fatal(_)) => PollStep::Fail,
    }
}

/// The steps taken after a run of attempt outcomes, up to and including the
/// first one that stops the loop.
pub open spec fn steps_until_stop(args: Args, outcomes: Seq<Result<(), AttemptError>>) -> Seq<
    PollStep,
>
    decreases outcomes.len(),
{
    if outcomes.len() == 0 {
        Seq::empty()
    } else {
        let step = poll_step_spec(args, outcomes[0]);
        match step {
            PollStep::Sleep(_) => seq![step] + steps_until_stop(args, outcomes.drop_first()),
            _ => seq![step],
        }
    }
}

/// Transport failures never end polling: however many come in a row, the
/// loop waits the failure interval after each.
pub proof fn lemma_transport_failures_keep_polling(
    args: Args,
    outcomes: Seq<Result<(), AttemptError>>,
)
    requires
        forall|i: int| 0 <= i < outcomes.len() ==> #[trigger] outcomes[i] is Err && outcomes[i]->Err_0 is Retry,
    ensures
        steps_until_stop(args, outcomes).len() == outcomes.len(),
        forall|i: int|
            0 <= i < outcomes.len() ==> #[trigger] steps_until_stop(args, outcomes)[i]
                == PollStep::Sleep(args.failure_interval),
    decreases outcomes.len(),
{
    if outcomes.len() > 0 {
        let rest = outcomes.drop_first();
        assert forall|i: int| 0 <= i < rest.len() implies #[trigger] rest[i] is Err
            && rest[i]->Err_0 is Retry by {
            assert(rest[i] == outcomes[i + 1]);
        }
        lemma_transport_failures_keep_polling(args, rest);
        assert(outcomes[0] is Err && outcomes[0]->Err_0 is Retry);
    }
}

/// In once mode the first success ends polling; an unsafe failure ends it
/// in every mode.
pub proof fn lemma_polling_stops(args: Args, outcome: Result<(), AttemptError>)
    ensures
        (args.once && outcome is Ok) ==> poll_step_spec(args, outcome) == PollStep::Finish,
        (outcome is Err && outcome->Err_0 is Fatal) ==> poll_step_spec(args, outcome)
            == PollStep::Fail,
        (!args.once && outcome is Ok) ==> poll_step_spec(args, outcome) == PollStep::Sleep(
            args.success_interval,
        ),
{
}

/// The permission bits that let someone execute a file (`0o111`).
pub const EXECUTE_BITS: u32 = 73;

/// Whether an `ssh` candidate found on the search path can be run: it is a
/// regular file and some execute permission bit is set.
pub fn is_executable_file(is_file: bool, mode: u32) -> (r: bool)
    ensures
        r == (is_file && mode & EXECUTE_BITS != 0),
{
    is_file && mode & EXECUTE_BITS != 0
}

/// A search-path candidate that can be run: its metadata could be read (as
/// whether it is a regular file, and its permission bits) and shows an
/// executable file.
pub open spec fn runnable(entry: Option<(bool, u32)>) -> bool {
    match entry {
        Some((is_file, mode)) => is_file && mode & EXECUTE_BITS != 0,
        None => false,
    }
}

/// The `ssh` to run: the first candidate, in search-path order, that can be
/// run; `None` when no candidate can.
pub fn first_executable(candidates: &Vec<Option<(bool, u32)>>) -> (r: Option<usize>)
    ensures
        match r {
            Some(i) => i < candidates.len() && runnable(candidates@[i as int]) && forall|k: int|
                0 <= k < i ==> !runnable(#[trigger] candidates@[k]),
            None => forall|k: int| 0 <= k < candidates.len() ==> !runnable(#[trigger] candidates@[k]),
        },
{
    let mut i: usize = 0;
    while i < candidates.len()
        invariant
            i <= candidates.len(),
            forall|k: int| 0 <= k < i ==> !runnable(#[trigger] candidates@[k]),
        decreases candidates.len() - i,
    {
        match candidates[i] {
            Some((is_file, mode)) => {
                if is_executable_file(is_file, mode) {
                    return Some(i);
                }
            },
            None => {},
        }
        i = i + 1;
    }
    None
}

/// A candidate is runnable exactly when its metadata was read, it is a
/// regular file, and someone (owner, group or others) may execute it,
/// whatever other bits (file type, set-id, sticky, read and write) its mode
/// holds.
pub proof fn lemma_runnable_exactly_when_executable(is_file: bool, mode: u32)
    ensures
        !runnable(None),
        runnable(Some((is_file, mode))) <==> (is_file && (mode & 0o100 != 0 || mode & 0o010 != 0
            || mode & 0o001 != 0)),
        runnable(Some((is_file, mode))) == runnable(Some((is_file, mode & 0o111))),
{
    assert((mode & 73 != 0) <==> (mode & 0o100 != 0 || mode & 0o010 != 0 || mode & 0o001 != 0))
        by (bit_vector);
    assert((mode & 73) & 73 == mode & 73) by (bit_vector);
}

} // verus!
