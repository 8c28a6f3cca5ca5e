//! The clipboard session and transfer protocol as a state machine.
//!
//! A `Transfer` decides which platform call comes next; the caller performs
//! that call and reports how it went. The machine brackets every operation
//! between one open and one close of the clipboard, and keeps track of who
//! owns the buffer that a write allocates.

use vstd::prelude::*;
use crate::buffer::{content, read_raw, read_text, CF_UNICODETEXT};
use crate::error::WinResult;
use crate::formats::{format_name_from, spec_format_name, FormatScan};
use crate::text::utf16_lossy;

verus! {

/// Why a transfer failed, with the platform's status code.
#[derive(Clone, Copy, Debug, PartialEq, Eq, Structural)]
pub enum ClipboardError {
    /// The clipboard could not be opened.
    AccessDenied(WinResult),
    /// The platform refused to allocate the buffer.
    AllocationFailure(WinResult),
    /// A buffer could not be locked.
    LockFailure(WinResult),
    /// The clipboard rejected the buffer.
    InstallFailure(WinResult),
    /// Nothing is stored under the requested format.
    NoData(WinResult),
    /// The format has no registered name.
    NameUnavailable(WinResult),
    /// Enumerating the formats ended with an error.
    EnumerationFailure(WinResult),
    /// The clipboard could not be emptied before the buffer was installed.
    EmptyFailure(WinResult),
    /// The clipboard could not be closed after an operation that succeeded.
    CloseFailure(WinResult),
}

impl ClipboardError {
    /// The status code that the platform gave.
    pub open spec fn spec_status(self) -> WinResult {
        match self {
            ClipboardError::AccessDenied(e) => e,
            ClipboardError::AllocationFailure(e) => e,
            ClipboardError::LockFailure(e) => e,
            ClipboardError::InstallFailure(e) => e,
            ClipboardError::NoData(e) => e,
            ClipboardError::NameUnavailable(e) => e,
            ClipboardError::EnumerationFailure(e) => e,
            ClipboardError::EmptyFailure(e) => e,
            ClipboardError::CloseFailure(e) => e,
        }
    }

    /// The status code that the platform gave.
    pub fn status(&self) -> (e: WinResult)
        ensures
            e == self.spec_status(),
    {
        match *self {
            ClipboardError::AccessDenied(e) => e,
            ClipboardError::AllocationFailure(e) => e,
            ClipboardError::LockFailure(e) => e,
            ClipboardError::InstallFailure(e) => e,
            ClipboardError::NoData(e) => e,
            ClipboardError::NameUnavailable(e) => e,
            ClipboardError::EnumerationFailure(e) => e,
            ClipboardError::EmptyFailure(e) => e,
            ClipboardError::CloseFailure(e) => e,
        }
    }
}

/// What a transfer is for.
#[derive(Clone, Copy, Debug, PartialEq, Eq, Structural)]
pub enum Task {
    /// Read the bytes stored under a format.
    Read { format: u32 },
    /// Read the text stored under the 16-bit Unicode text format.
    ReadText,
    /// Store an image of `bytes` bytes, terminator included, under a format.
    Write { format: u32, bytes: usize },
    /// Enumerate the formats present.
    ListFormats,
    /// Look up the registered name of a format.
    FormatName { format: u32 },
}

/// A platform call that the caller makes on behalf of a transfer.
#[derive(Clone, Copy, Debug, PartialEq, Eq, Structural)]
pub enum Request {
    /// Open the clipboard with no owning window.
    Open,
    /// Ask for the handle stored under the format.
    Fetch { format: u32 },
    /// Lock the handle obtained by `Fetch`.
    LockSource,
    /// Copy the payload out of the locked source.
    CopyOut,
    /// Unlock the source.
    UnlockSource,
    /// Allocate zeroed, movable memory of this many bytes.
    Allocate { bytes: usize },
    /// Lock the allocated buffer.
    LockBuffer,
    /// Copy the image into the locked buffer.
    CopyIn,
    /// Unlock the allocated buffer.
    UnlockBuffer,
    /// Empty the clipboard.
    Empty,
    /// Hand the buffer to the clipboard under the format.
    Install { format: u32 },
    /// Free the allocated buffer.
    Free,
    /// Walk the formats present.
    Enumerate,
    /// Query the registered name of the format.
    QueryName { format: u32 },
    /// Close the clipboard.
    Close,
}

/// How a platform call went.
#[derive(Clone, Copy, Debug, PartialEq, Eq, Structural)]
pub enum Reply {
    /// The call succeeded.
    Done,
    /// The call failed with this status.
    Failed(WinResult),
}

/// Where a transfer stands: the call whose reply it awaits.
#[derive(Clone, Copy, Debug, PartialEq, Eq, Structural)]
pub enum Phase {
    Opening,
    Fetching,
    LockingSource,
    CopyingOut,
    UnlockingSource,
    Allocating,
    LockingBuffer,
    CopyingIn,
    UnlockingBuffer,
    Emptying,
    Installing,
    Freeing,
    Enumerating,
    Naming,
    Closing,
    Finished,
}

/// Who owns the buffer that a write allocates.
#[derive(Clone, Copy, Debug, PartialEq, Eq, Structural)]
pub enum Ownership {
    /// No buffer has been allocated.
    Unallocated,
    /// The transfer holds the buffer, unlocked.
    Held,
    /// The transfer holds the buffer, locked.
    Locked,
    /// The clipboard owns the buffer; the transfer must not free it.
    Transferred,
    /// The transfer has freed the buffer.
    Freed,
}

/// One clipboard operation in progress.
#[derive(Clone, Copy, Debug, PartialEq, Eq, Structural)]
pub struct Transfer {
    pub task: Task,
    pub phase: Phase,
    /// True from a successful open until the close is asked for.
    pub session_open: bool,
    /// True while the clipboard's own buffer is locked for reading.
    pub source_locked: bool,
    pub buffer: Ownership,
    /// The first failure met, which the outcome reports.
    pub failure: Option<ClipboardError>,
}

impl Transfer {
    /// The state of a transfer before its first call.
    pub open spec fn initial(task: Task) -> Transfer {
        Transfer {
            task,
            phase: Phase::Opening,
            session_open: false,
            source_locked: false,
            buffer: Ownership::Unallocated,
            failure: None,
        }
    }

    /// The phase entered once the clipboard is open.
    pub open spec fn first_phase(task: Task) -> Phase {
        match task {
            Task::Read { .. } => Phase::Fetching,
            Task::ReadText => Phase::Fetching,
            Task::Write { .. } => Phase::Allocating,
            Task::ListFormats => Phase::Enumerating,
            Task::FormatName { .. } => Phase::Naming,
        }
    }

    /// The format that the task names, and zero for a task that names none.
    pub open spec fn spec_format(self) -> u32 {
        match self.task {
            Task::Read { format } => format,
            Task::ReadText => CF_UNICODETEXT,
            Task::Write { format, .. } => format,
            Task::ListFormats => 0,
            Task::FormatName { format } => format,
        }
    }

    /// The size of the image that the task stores, and zero for other tasks.
    pub open spec fn spec_bytes(self) -> usize {
        match self.task {
            Task::Write { bytes, .. } => bytes,
            _ => 0,
        }
    }

    /// The call that the transfer awaits, and `None` once it has finished.
    pub open spec fn spec_pending(self) -> Option<Request> {
        match self.phase {
            Phase::Opening => Some(Request::Open),
            Phase::Fetching => Some(Request::Fetch { format: self.spec_format() }),
            Phase::LockingSource => Some(Request::LockSource),
            Phase::CopyingOut => Some(Request::CopyOut),
            Phase::UnlockingSource => Some(Request::UnlockSource),
            Phase::Allocating => Some(Request::Allocate { bytes: self.spec_bytes() }),
            Phase::LockingBuffer => Some(Request::LockBuffer),
            Phase::CopyingIn => Some(Request::CopyIn),
            Phase::UnlockingBuffer => Some(Request::UnlockBuffer),
            Phase::Emptying => Some(Request::Empty),
            Phase::Installing => Some(Request::Install { format: self.spec_format() }),
            Phase::Freeing => Some(Request::Free),
            Phase::Enumerating => Some(Request::Enumerate),
            Phase::Naming => Some(Request::QueryName { format: self.spec_format() }),
            Phase::Closing => Some(Request::Close),
            Phase::Finished => None,
        }
    }

    /// The same transfer in another phase.
    pub open spec fn moved(self, phase: Phase) -> Transfer {
        Transfer { phase, ..self }
    }

    /// The transfer after a failure outside the buffer's care: the failure is
    /// recorded and the close comes next.
    pub open spec fn failed(self, failure: ClipboardError) -> Transfer {
        Transfer { phase: Phase::Closing, session_open: false, failure: Some(failure), ..self }
    }

    /// The transfer after a failure while it holds the buffer: the failure is
    /// recorded and the buffer is freed next.
    pub open spec fn failed_holding(self, failure: ClipboardError) -> Transfer {
        Transfer { phase: Phase::Freeing, failure: Some(failure), ..self }
    }

    /// The transfer with the close asked for.
    pub open spec fn closing(self) -> Transfer {
        Transfer { phase: Phase::Closing, session_open: false, ..self }
    }

    /// The state after the awaited call was answered with `reply`.
    pub open spec fn spec_step(self, reply: Reply) -> Transfer {
        match self.phase {
            Phase::Opening => match reply {
                Reply::Done => Transfer {
                    phase: Self::first_phase(self.task),
                    session_open: true,
                    ..self
                },
                Reply::Failed(e) => Transfer {
                    phase: Phase::Finished,
                    failure: Some(ClipboardError::AccessDenied(e)),
                    ..self
                },
            },
            Phase::Fetching => match reply {
                Reply::Done => self.moved(Phase::LockingSource),
                Reply::Failed(e) => self.failed(ClipboardError::NoData(e)),
            },
            Phase::LockingSource => match reply {
                Reply::Done => Transfer { phase: Phase::CopyingOut, source_locked: true, ..self },
                Reply::Failed(e) => self.failed(ClipboardError::LockFailure(e)),
            },
            Phase::CopyingOut => self.moved(Phase::UnlockingSource),
            Phase::UnlockingSource => Transfer { source_locked: false, ..self.closing() },
            Phase::Allocating => match reply {
                Reply::Done => Transfer {
                    phase: Phase::LockingBuffer,
                    buffer: Ownership::Held,
                    ..self
                },
                Reply::Failed(e) => self.failed(ClipboardError::AllocationFailure(e)),
            },
            Phase::LockingBuffer => match reply {
                Reply::Done => Transfer {
                    phase: Phase::CopyingIn,
                    buffer: Ownership::Locked,
                    ..self
                },
                Reply::Failed(e) => self.failed_holding(ClipboardError::LockFailure(e)),
            },
            Phase::CopyingIn => self.moved(Phase::UnlockingBuffer),
            Phase::UnlockingBuffer => Transfer {
                phase: Phase::Emptying,
                buffer: Ownership::Held,
                ..self
            },
            Phase::Emptying => match reply {
                Reply::Done => self.moved(Phase::Installing),
                Reply::Failed(e) => self.failed_holding(ClipboardError::EmptyFailure(e)),
            },
            Phase::Installing => match reply {
                Reply::Done => Transfer { buffer: Ownership::Transferred, ..self.closing() },
                Reply::Failed(e) => self.failed_holding(ClipboardError::InstallFailure(e)),
            },
            Phase::Freeing => Transfer { buffer: Ownership::Freed, ..self.closing() },
            Phase::Enumerating => match reply {
                Reply::Done => self.closing(),
                Reply::Failed(e) => self.failed(ClipboardError::EnumerationFailure(e)),
            },
            Phase::Naming => match reply {
                Reply::Done => self.closing(),
                Reply::Failed(e) => self.failed(ClipboardError::NameUnavailable(e)),
            },
            Phase::Closing => match reply {
                Reply::Failed(e) if self.failure is None => Transfer {
                    phase: Phase::Finished,
                    failure: Some(ClipboardError::CloseFailure(e)),
                    ..self
                },
                _ => self.moved(Phase::Finished),
            },
            Phase::Finished => self,
        }
    }

    /// What a finished transfer reports: `None` while it is still running.
    pub open spec fn spec_outcome(self) -> Option<Result<(), ClipboardError>> {
        if self.phase is Finished {
            match self.failure {
                Some(e) => Some(Err(e)),
                None => Some(Ok(())),
            }
        } else {
            None
        }
    }

    /// The states that a transfer can be in: what each phase implies for the
    /// session, the locks, the buffer and the recorded failure.
    pub open spec fn wf(self) -> bool {
        let writing = self.task is Write;
        let reading = self.task is Read || self.task is ReadText;
        &&& self.session_open <==> !(self.phase is Opening || self.phase is Closing
            || self.phase is Finished)
        &&& self.source_locked <==> (self.phase is CopyingOut || self.phase is UnlockingSource)
        &&& self.buffer is Locked <==> (self.phase is CopyingIn || self.phase is UnlockingBuffer)
        &&& self.buffer is Held <==> (self.phase is LockingBuffer || self.phase is Emptying
            || self.phase is Installing || self.phase is Freeing)
        &&& (self.phase is Fetching || self.phase is LockingSource || self.phase is CopyingOut
            || self.phase is UnlockingSource) ==> reading
        &&& (self.phase is Allocating || self.phase is LockingBuffer || self.phase is CopyingIn
            || self.phase is UnlockingBuffer || self.phase is Emptying || self.phase is Installing
            || self.phase is Freeing) ==> writing
        &&& self.phase is Enumerating ==> self.task is ListFormats
        &&& self.phase is Naming ==> self.task is FormatName
        &&& !(self.buffer is Unallocated) ==> writing
        &&& (self.phase is Opening || self.phase is Allocating) ==> self.buffer is Unallocated
        &&& (self.buffer is Transferred || self.buffer is Freed) ==> (self.phase is Closing
            || self.phase is Finished)
        &&& self.failure is Some ==> (self.phase is Freeing || self.phase is Closing
            || self.phase is Finished)
        &&& self.failure is None ==> !(self.phase is Freeing) && !(self.buffer is Freed)
        &&& self.failure is None && writing && (self.phase is Closing || self.phase is Finished)
            ==> self.buffer is Transferred
        &&& self.buffer is Transferred ==> (self.failure is None || self.failure->0
            is CloseFailure)
        &&& self.failure is Some ==> match self.failure->0 {
            ClipboardError::AccessDenied(_) => self.phase is Finished
                && self.buffer is Unallocated,
            ClipboardError::AllocationFailure(_) => writing && self.buffer is Unallocated,
            ClipboardError::LockFailure(_) => (reading && self.buffer is Unallocated) || (writing
                && if self.phase is Freeing {
                self.buffer is Held
            } else {
                self.buffer is Freed
            }),
            ClipboardError::InstallFailure(_) => writing && if self.phase is Freeing {
                self.buffer is Held
            } else {
                self.buffer is Freed
            },
            ClipboardError::NoData(_) => reading,
            ClipboardError::NameUnavailable(_) => self.task is FormatName,
            ClipboardError::EnumerationFailure(_) => self.task is ListFormats,
            ClipboardError::EmptyFailure(_) => writing && if self.phase is Freeing {
                self.buffer is Held
            } else {
                self.buffer is Freed
            },
            ClipboardError::CloseFailure(_) => self.phase is Finished && if writing {
                self.buffer is Transferred
            } else {
                self.buffer is Unallocated
            },
        }
    }

    /// Starts a transfer: the clipboard is opened first.
    pub fn begin(task: Task) -> (t: Transfer)
        ensures
            t == Self::initial(task),
            t.wf(),
            t.spec_pending() == Some(Request::Open),
    {
        Transfer {
            task,
            phase: Phase::Opening,
            session_open: false,
            source_locked: false,
            buffer: Ownership::Unallocated,
            failure: None,
        }
    }

    /// The format that the task names, and zero for a task that names none.
    pub fn format(&self) -> (f: u32)
        ensures
            f == self.spec_format(),
    {
        match self.task {
            Task::Read { format } => format,
            Task::ReadText => CF_UNICODETEXT,
            Task::Write { format, .. } => format,
            Task::ListFormats => 0,
            Task::FormatName { format } => format,
        }
    }

    /// The call to make next, and `None` once the transfer has finished.
    pub fn pending(&self) -> (r: Option<Request>)
        ensures
            r == self.spec_pending(),
            r is None <==> self.phase is Finished,
    {
        match self.phase {
            Phase::Opening => Some(Request::Open),
            Phase::Fetching => Some(Request::Fetch { format: self.format() }),
            Phase::LockingSource => Some(Request::LockSource),
            Phase::CopyingOut => Some(Request::CopyOut),
            Phase::UnlockingSource => Some(Request::UnlockSource),
            Phase::Allocating => {
                let bytes: usize = match self.task {
                    Task::Write { bytes, .. } => bytes,
                    _ => 0,
                };
                Some(Request::Allocate { bytes })
            },
            Phase::LockingBuffer => Some(Request::LockBuffer),
            Phase::CopyingIn => Some(Request::CopyIn),
            Phase::UnlockingBuffer => Some(Request::UnlockBuffer),
            Phase::Emptying => Some(Request::Empty),
            Phase::Installing => Some(Request::Install { format: self.format() }),
            Phase::Freeing => Some(Request::Free),
            Phase::Enumerating => Some(Request::Enumerate),
            Phase::Naming => Some(Request::QueryName { format: self.format() }),
            Phase::Closing => Some(Request::Close),
            Phase::Finished => None,
        }
    }

    /// Takes the reply to the awaited call and moves on. A finished transfer
    /// stays as it is.
    pub fn step(self, reply: Reply) -> (next: Transfer)
        ensures
            next == self.spec_step(reply),
            self.wf() ==> next.wf(),
    {
        let mut next = self;
        match self.phase {
            Phase::Opening => match reply {
                Reply::Done => {
                    next.session_open = true;
                    next.phase = match self.task {
                        Task::Read { .. } => Phase::Fetching,
                        Task::ReadText => Phase::Fetching,
                        Task::Write { .. } => Phase::Allocating,
                        Task::ListFormats => Phase::Enumerating,
                        Task::FormatName { .. } => Phase::Naming,
                    };
                },
                Reply::Failed(e) => {
                    next.failure = Some(ClipboardError::AccessDenied(e));
                    next.phase = Phase::Finished;
                },
            },
            Phase::Fetching => match reply {
                Reply::Done => {
                    next.phase = Phase::LockingSource;
                },
                Reply::Failed(e) => {
                    next = next.abandon(ClipboardError::NoData(e));
                },
            },
            Phase::LockingSource => match reply {
                Reply::Done => {
                    next.source_locked = true;
                    next.phase = Phase::CopyingOut;
                },
                Reply::Failed(e) => {
                    next = next.abandon(ClipboardError::LockFailure(e));
                },
            },
            Phase::CopyingOut => {
                next.phase = Phase::UnlockingSource;
            },
            Phase::UnlockingSource => {
                next.source_locked = false;
                next.session_open = false;
                next.phase = Phase::Closing;
            },
            Phase::Allocating => match reply {
                Reply::Done => {
                    next.buffer = Ownership::Held;
                    next.phase = Phase::LockingBuffer;
                },
                Reply::Failed(e) => {
                    next = next.abandon(ClipboardError::AllocationFailure(e));
                },
            },
            Phase::LockingBuffer => match reply {
                Reply::Done => {
                    next.buffer = Ownership::Locked;
                    next.phase = Phase::CopyingIn;
                },
                Reply::Failed(e) => {
                    next.failure = Some(ClipboardError::LockFailure(e));
                    next.phase = Phase::Freeing;
                },
            },
            Phase::CopyingIn => {
                next.phase = Phase::UnlockingBuffer;
            },
            Phase::UnlockingBuffer => {
                next.buffer = Ownership::Held;
                next.phase = Phase::Emptying;
            },
            Phase::Emptying => match reply {
                Reply::Done => {
                    next.phase = Phase::Installing;
                },
                Reply::Failed(e) => {
                    next.failure = Some(ClipboardError::EmptyFailure(e));
                    next.phase = Phase::Freeing;
                },
            },
            Phase::Installing => match reply {
                Reply::Done => {
                    next.buffer = Ownership::Transferred;
                    next.session_open = false;
                    next.phase = Phase::Closing;
                },
                Reply::Failed(e) => {
                    next.failure = Some(ClipboardError::InstallFailure(e));
                    next.phase = Phase::Freeing;
                },
            },
            Phase::Freeing => {
                next.buffer = Ownership::Freed;
                next.session_open = false;
                next.phase = Phase::Closing;
            },
            Phase::Enumerating => match reply {
                Reply::Done => {
                    next.session_open = false;
                    next.phase = Phase::Closing;
                },
                Reply::Failed(e) => {
                    next = next.abandon(ClipboardError::EnumerationFailure(e));
                },
            },
            Phase::Naming => match reply {
                Reply::Done => {
                    next.session_open = false;
                    next.phase = Phase::Closing;
                },
                Reply::Failed(e) => {
                    next = next.abandon(ClipboardError::NameUnavailable(e));
                },
            },
            Phase::Closing => {
                match reply {
                    Reply::Failed(e) => {
                        if self.failure.is_none() {
                            next.failure = Some(ClipboardError::CloseFailure(e));
                        }
                    },
                    Reply::Done => {},
                }
                next.phase = Phase::Finished;
            },
            Phase::Finished => {},
        }
        next
    }

    /// True while a transfer that reads bytes awaits the copy from its locked
    /// source.
    pub open spec fn awaits_raw(self) -> bool {
        self.phase is CopyingOut && self.task is Read
    }

    /// True while a transfer that reads text awaits the copy from its locked
    /// source.
    pub open spec fn awaits_text(self) -> bool {
        self.phase is CopyingOut && self.task is ReadText
    }

    /// Answers the request to copy out, for a transfer that reads bytes:
    /// while the source is locked and the copy is awaited, the payload before
    /// the first zero byte of `mem` is copied and the transfer moves on to
    /// the unlock. In any other phase, and for any other task, nothing is
    /// read and nothing changes.
    pub fn copy_out_raw(self, mem: &[u8]) -> (r: (Transfer, Option<Vec<u8>>))
        ensures
            r.0 == (if self.awaits_raw() {
                self.spec_step(Reply::Done)
            } else {
                self
            }),
            r.1 is Some <==> self.awaits_raw(),
            r.1 is Some ==> r.1->0@ == content(mem@, 0u8),
            self.wf() ==> r.0.wf(),
    {
        match (self.phase, self.task) {
            (Phase::CopyingOut, Task::Read { .. }) => {
                let data = read_raw(mem);
                (self.step(Reply::Done), Some(data))
            },
            _ => (self, None),
        }
    }

    /// Answers the request to copy out, for a transfer that reads text:
    /// while the source is locked and the copy is awaited, the units before
    /// the first zero unit of `mem` are decoded lossily and the transfer
    /// moves on to the unlock. In any other phase, and for any other task,
    /// nothing is read and nothing changes.
    pub fn copy_out_text(self, mem: &[u16]) -> (r: (Transfer, Option<String>))
        ensures
            r.0 == (if self.awaits_text() {
                self.spec_step(Reply::Done)
            } else {
                self
            }),
            r.1 is Some <==> self.awaits_text(),
            r.1 is Some ==> r.1->0@ == utf16_lossy(content(mem@, 0u16)),
            self.wf() ==> r.0.wf(),
    {
        match (self.phase, self.task) {
            (Phase::CopyingOut, Task::ReadText) => {
                let text = read_text(mem);
                (self.step(Reply::Done), Some(text))
            },
            _ => (self, None),
        }
    }

    /// The reply that the platform's last error stands for after an
    /// enumeration: success for zero, failure with that status otherwise.
    pub open spec fn enumeration_reply(last_error: u32) -> Reply {
        if last_error == 0 {
            Reply::Done
        } else {
            Reply::Failed(WinResult(last_error))
        }
    }

    /// Answers the request to enumerate with an enumeration that was run to
    /// its end and the platform's last error, read once after it. While the
    /// enumeration is awaited, the transfer moves on, and the formats found
    /// are handed out if the last error is zero. In any other phase, and for
    /// an enumeration that the platform has not yet ended, nothing changes
    /// and nothing is handed out.
    pub fn enumerated(self, scan: FormatScan, last_error: u32) -> (r: (Transfer, Option<Vec<u32>>))
        ensures
            r.0 == (if self.phase is Enumerating && scan.exhausted {
                self.spec_step(Self::enumeration_reply(last_error))
            } else {
                self
            }),
            r.1 is Some <==> self.phase is Enumerating && scan.exhausted && last_error == 0,
            r.1 is Some ==> r.1->0@ == scan.found@,
            self.wf() ==> r.0.wf(),
    {
        if !scan.exhausted {
            return (self, None);
        }
        match self.phase {
            Phase::Enumerating => match scan.finish(last_error) {
                Ok(formats) => (self.step(Reply::Done), Some(formats)),
                Err(status) => (self.step(Reply::Failed(status)), None),
            },
            _ => (self, None),
        }
    }

    /// Answers the request for a format's name with what the name query
    /// wrote and the platform's last error. While the name is awaited, the
    /// transfer moves on: with the name if the query copied one, with the
    /// failure that the last error gives if it copied nothing. In any other
    /// phase nothing changes.
    pub fn name_queried(self, copied: usize, name_buff: &[u16], last_error: u32) -> (r: (
        Transfer,
        Option<String>,
    ))
        ensures
            r.0 == (if self.phase is Naming {
                self.spec_step(
                    if copied == 0 {
                        Reply::Failed(WinResult(last_error))
                    } else {
                        Reply::Done
                    },
                )
            } else {
                self
            }),
            r.1 is Some <==> self.phase is Naming && copied != 0,
            r.1 is Some ==> Some(r.1->0@) == spec_format_name(copied, name_buff@),
            self.wf() ==> r.0.wf(),
    {
        match self.phase {
            Phase::Naming => match format_name_from(copied, name_buff) {
                Some(name) => (self.step(Reply::Done), Some(name)),
                None => (self.step(Reply::Failed(WinResult(last_error))), None),
            },
            _ => (self, None),
        }
    }

    /// Records a failure met while no buffer is held and asks for the close.
    fn abandon(self, failure: ClipboardError) -> (next: Transfer)
        ensures
            next == self.failed(failure),
    {
        let mut next = self;
        next.failure = Some(failure);
        next.session_open = false;
        next.phase = Phase::Closing;
        next
    }

    /// What the transfer reports once it has finished: success, or the first
    /// failure met. `None` while calls are still to be made.
    pub fn outcome(&self) -> (r: Option<Result<(), ClipboardError>>)
        ensures
            r == self.spec_outcome(),
            r is Some <==> self.phase is Finished,
    {
        match self.phase {
            Phase::Finished => match self.failure {
                Some(e) => Some(Err(e)),
                None => Some(Ok(())),
            },
            _ => None,
        }
    }
}

} // verus!
