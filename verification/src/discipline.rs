//! What holds of every run of a transfer, whatever the platform answers.

use vstd::prelude::*;
use crate::buffer::CF_UNICODETEXT;
use crate::transfer::{ClipboardError, Ownership, Phase, Reply, Request, Task, Transfer};

verus! {

/// The state reached from `t` when the calls are answered by `replies` in
/// turn.
pub open spec fn after(t: Transfer, replies: Seq<Reply>) -> Transfer
    decreases replies.len(),
{
    if replies.len() == 0 {
        t
    } else {
        after(t.spec_step(replies[0]), replies.drop_first())
    }
}

/// How often the call `wanted` is made along that run.
pub open spec fn issued(t: Transfer, replies: Seq<Reply>, wanted: Request) -> nat
    decreases replies.len(),
{
    if replies.len() == 0 {
        0
    } else {
        let here: nat = if t.spec_pending() == Some(wanted) {
            1
        } else {
            0
        };
        here + issued(t.spec_step(replies[0]), replies.drop_first(), wanted)
    }
}

/// An upper bound on the calls that a transfer in this phase still makes.
pub open spec fn remaining(phase: Phase) -> nat {
    match phase {
        Phase::Opening => 9,
        Phase::Allocating => 8,
        Phase::LockingBuffer => 7,
        Phase::CopyingIn => 6,
        Phase::UnlockingBuffer => 5,
        Phase::Emptying => 4,
        Phase::Installing => 3,
        Phase::Freeing => 2,
        Phase::Fetching => 5,
        Phase::LockingSource => 4,
        Phase::CopyingOut => 3,
        Phase::UnlockingSource => 2,
        Phase::Enumerating => 2,
        Phase::Naming => 2,
        Phase::Closing => 1,
        Phase::Finished => 0,
    }
}

/// A step keeps a transfer among the states it can be in.
pub proof fn lemma_step_wf(t: Transfer, reply: Reply)
    requires
        t.wf(),
    ensures
        t.spec_step(reply).wf(),
{
}

/// Every reply brings a running transfer closer to its end.
pub proof fn lemma_step_progress(t: Transfer, reply: Reply)
    requires
        !(t.phase is Finished),
    ensures
        remaining(t.spec_step(reply).phase) < remaining(t.phase),
{
}

/// A run keeps a transfer among the states it can be in, and keeps its
/// task.
pub proof fn lemma_run_wf(t: Transfer, replies: Seq<Reply>)
    requires
        t.wf(),
    ensures
        after(t, replies).wf(),
        after(t, replies).task == t.task,
    decreases replies.len(),
{
    if replies.len() > 0 {
        lemma_step_wf(t, replies[0]);
        lemma_run_wf(t.spec_step(replies[0]), replies.drop_first());
    }
}

/// A transfer has finished once as many replies have come as its phase
/// still allows calls: nine at most from the start.
pub proof fn lemma_run_finishes(t: Transfer, replies: Seq<Reply>)
    requires
        replies.len() >= remaining(t.phase),
    ensures
        after(t, replies).phase is Finished,
    decreases replies.len(),
{
    if replies.len() > 0 {
        if !(t.phase is Finished) {
            lemma_step_progress(t, replies[0]);
        }
        lemma_run_finishes(t.spec_step(replies[0]), replies.drop_first());
    }
}

/// Every call but the open and the close is made inside the session, and
/// those two are made outside it.
pub proof fn lemma_calls_inside_session(t: Transfer)
    requires
        t.wf(),
    ensures
        t.session_open <==> (t.spec_pending() is Some && t.spec_pending() != Some(Request::Open)
            && t.spec_pending() != Some(Request::Close)),
{
}

/// The source is unlocked and the buffer is not left locked whenever the
/// close is asked for or the transfer has finished.
pub proof fn lemma_no_lock_outlives_session(t: Transfer)
    requires
        t.wf(),
        t.phase is Closing || t.phase is Finished,
    ensures
        !t.source_locked,
        !(t.buffer is Locked),
        !(t.buffer is Held),
{
}

/// The accounting of a finished run from any state: how many opens, closes
/// and frees it makes, told from the state it starts in and ends in.
pub proof fn lemma_run_accounting(t: Transfer, replies: Seq<Reply>)
    requires
        t.wf(),
        after(t, replies).phase is Finished,
    ensures
        issued(t, replies, Request::Open) == if t.phase is Opening {
            1nat
        } else {
            0nat
        },
        issued(t, replies, Request::Close) == if t.phase is Finished {
            0nat
        } else if t.phase is Opening {
            if replies[0] is Done {
                1nat
            } else {
                0nat
            }
        } else {
            1nat
        },
        issued(t, replies, Request::Free) == if after(t, replies).buffer is Freed && !(t.buffer
            is Freed) {
            1nat
        } else {
            0nat
        },
        t.buffer is Freed ==> after(t, replies).buffer is Freed,
        t.buffer is Transferred ==> after(t, replies).buffer is Transferred,
    decreases replies.len(),
{
    if replies.len() > 0 {
        lemma_step_wf(t, replies[0]);
        lemma_run_accounting(t.spec_step(replies[0]), replies.drop_first());
    }
}

/// Every lock is released exactly once. From a state in which the buffer
/// or the source is locked, a run to the end unlocks it once; from a state
/// past the locking it unlocks nothing; and no run unlocks twice.
pub proof fn lemma_locks_are_released(t: Transfer, replies: Seq<Reply>)
    requires
        t.wf(),
        after(t, replies).phase is Finished,
    ensures
        issued(t, replies, Request::UnlockBuffer) <= 1,
        issued(t, replies, Request::UnlockSource) <= 1,
        t.buffer is Locked ==> issued(t, replies, Request::UnlockBuffer) == 1,
        t.source_locked ==> issued(t, replies, Request::UnlockSource) == 1,
        !(t.buffer is Locked) && !(t.phase is Opening || t.phase is Allocating
            || t.phase is LockingBuffer) ==> issued(t, replies, Request::UnlockBuffer) == 0,
        !t.source_locked && !(t.phase is Opening || t.phase is Fetching
            || t.phase is LockingSource) ==> issued(t, replies, Request::UnlockSource) == 0,
        t.phase is LockingBuffer ==> issued(t, replies, Request::UnlockBuffer) == (if replies[0]
            is Done {
            1nat
        } else {
            0nat
        }),
        t.phase is LockingSource ==> issued(t, replies, Request::UnlockSource) == (if replies[0]
            is Done {
            1nat
        } else {
            0nat
        }),
    decreases replies.len(),
{
    if replies.len() > 0 {
        lemma_step_wf(t, replies[0]);
        lemma_run_wf(t.spec_step(replies[0]), replies.drop_first());
        lemma_locks_are_released(t.spec_step(replies[0]), replies.drop_first());
    }
}

/// The calls of a transfer that succeeds. A write allocates, copies in,
/// empties the clipboard and installs once each, for the size and the format
/// of its task; a read fetches and copies out once each.
pub proof fn lemma_successful_run_calls(task: Task, replies: Seq<Reply>)
    requires
        after(Transfer::initial(task), replies).phase is Finished,
        after(Transfer::initial(task), replies).failure is None,
    ensures
        ({
            let t = Transfer::initial(task);
            match task {
                Task::Write { format, bytes } => {
                    &&& issued(t, replies, Request::Allocate { bytes }) == 1
                    &&& issued(t, replies, Request::CopyIn) == 1
                    &&& issued(t, replies, Request::Empty) == 1
                    &&& issued(t, replies, Request::Install { format }) == 1
                },
                Task::Read { format } => {
                    &&& issued(t, replies, Request::Fetch { format }) == 1
                    &&& issued(t, replies, Request::CopyOut) == 1
                },
                Task::ReadText => {
                    &&& issued(t, replies, Request::Fetch { format: CF_UNICODETEXT }) == 1
                    &&& issued(t, replies, Request::CopyOut) == 1
                },
                Task::ListFormats => issued(t, replies, Request::Enumerate) == 1,
                Task::FormatName { format } => issued(t, replies, Request::QueryName { format })
                    == 1,
            }
        }),
{
    lemma_successful_calls_from(Transfer::initial(task), replies);
}

/// One if a state with `left` calls to go has not yet passed the call that
/// is made with `mark` calls to go, zero if it has.
pub open spec fn ahead(left: nat, mark: nat) -> nat {
    if left >= mark {
        1
    } else {
        0
    }
}

/// How often each call of a successful run is still made from a state on
/// the way: once if the state has not passed it, never if it has.
proof fn lemma_successful_calls_from(t: Transfer, replies: Seq<Reply>)
    requires
        t.wf(),
        after(t, replies).phase is Finished,
        after(t, replies).failure is None,
    ensures
        ({
            let left = remaining(t.phase);
            match t.task {
                Task::Write { format, bytes } => {
                    &&& issued(t, replies, Request::Allocate { bytes }) == ahead(left, 8)
                    &&& issued(t, replies, Request::CopyIn) == ahead(left, 6)
                    &&& issued(t, replies, Request::Empty) == ahead(left, 4)
                    &&& issued(t, replies, Request::Install { format }) == ahead(left, 3)
                },
                Task::Read { format } => {
                    &&& issued(t, replies, Request::Fetch { format }) == ahead(left, 5)
                    &&& issued(t, replies, Request::CopyOut) == ahead(left, 3)
                },
                Task::ReadText => {
                    &&& issued(t, replies, Request::Fetch { format: CF_UNICODETEXT }) == ahead(
                        left,
                        5,
                    )
                    &&& issued(t, replies, Request::CopyOut) == ahead(left, 3)
                },
                Task::ListFormats => issued(t, replies, Request::Enumerate) == ahead(left, 2),
                Task::FormatName { format } => issued(t, replies, Request::QueryName { format })
                    == ahead(left, 2),
            }
        }),
    decreases replies.len(),
{
    if replies.len() > 0 {
        let next = t.spec_step(replies[0]);
        let rest = replies.drop_first();
        lemma_step_wf(t, replies[0]);
        lemma_failure_stays(next, rest);
        lemma_successful_calls_from(next, rest);
    }
}

/// A failure once recorded is still recorded at the end of the run.
pub proof fn lemma_failure_stays(t: Transfer, replies: Seq<Reply>)
    requires
        t.wf(),
    ensures
        t.failure is Some ==> after(t, replies).failure == t.failure,
    decreases replies.len(),
{
    if replies.len() > 0 {
        lemma_step_wf(t, replies[0]);
        lemma_failure_stays(t.spec_step(replies[0]), replies.drop_first());
    }
}

/// Session discipline. A transfer that has run to its end opened the
/// clipboard once; it closed it exactly once if the open succeeded and never
/// if it failed, whatever happened in between; and the session is over.
pub proof fn lemma_session_closed_once(task: Task, replies: Seq<Reply>)
    requires
        after(Transfer::initial(task), replies).phase is Finished,
    ensures
        replies.len() > 0,
        issued(Transfer::initial(task), replies, Request::Open) == 1,
        replies[0] is Done ==> issued(Transfer::initial(task), replies, Request::Close) == 1,
        replies[0] is Failed ==> issued(Transfer::initial(task), replies, Request::Close) == 0,
        !after(Transfer::initial(task), replies).session_open,
{
    let t = Transfer::initial(task);
    lemma_run_accounting(t, replies);
    lemma_run_wf(t, replies);
}

/// No leak and no double free. At the end of a transfer the buffer is with
/// the clipboard and was never freed if it was installed, whether or not the
/// close then failed; it was freed exactly once if locking it, emptying the
/// clipboard or installing it failed; and none was allocated, and none
/// freed, on any other failure.
pub proof fn lemma_buffer_released_once(task: Task, replies: Seq<Reply>)
    requires
        task is Write,
        after(Transfer::initial(task), replies).phase is Finished,
    ensures
        ({
            let end = after(Transfer::initial(task), replies);
            let frees = issued(Transfer::initial(task), replies, Request::Free);
            match end.failure {
                None => end.buffer is Transferred && frees == 0,
                Some(ClipboardError::CloseFailure(_)) => end.buffer is Transferred && frees == 0,
                Some(ClipboardError::InstallFailure(_)) => end.buffer is Freed && frees == 1,
                Some(ClipboardError::EmptyFailure(_)) => end.buffer is Freed && frees == 1,
                Some(ClipboardError::LockFailure(_)) => end.buffer is Freed && frees == 1,
                Some(_) => end.buffer is Unallocated && frees == 0,
            }
        }),
{
    let t = Transfer::initial(task);
    lemma_run_accounting(t, replies);
    lemma_run_wf(t, replies);
}

/// A transfer that does not write never allocates, holds or frees a buffer.
pub proof fn lemma_only_writes_allocate(task: Task, replies: Seq<Reply>)
    requires
        !(task is Write),
    ensures
        after(Transfer::initial(task), replies).buffer == Ownership::Unallocated,
{
    lemma_run_wf(Transfer::initial(task), replies);
}

} // verus!
