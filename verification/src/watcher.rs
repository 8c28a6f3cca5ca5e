//! Change detection by polling the clipboard's sequence number.
//!
//! The sequence number changes with every change of the clipboard's content.
//! Zero is not a count: it says that the caller may not query the number.
//! Numbers are compared for equality only, since the counter may wrap.

use vstd::prelude::*;
use crate::error::WinResult;
use crate::transfer::{Task, Transfer};

verus! {

/// The sequence number as the platform reports it: `None` for the zero that
/// stands for missing access rights.
pub fn get_clipboard_seq_num(raw: u32) -> (r: Option<u32>)
    ensures
        r == (if raw == 0 {
            None
        } else {
            Some(raw)
        }),
{
    if raw == 0 {
        return None;
    }
    Some(raw)
}

/// What a watcher remembers between polls.
#[derive(Clone, Copy, Debug, PartialEq, Eq, Structural)]
pub struct Watch {
    /// The sequence number seen last; never zero.
    pub remembered: u32,
}

impl Watch {
    /// The state after one poll, and whether the poll calls for a read.
    pub open spec fn spec_observe(self, seq: Option<u32>) -> (Watch, bool) {
        match seq {
            Some(n) if n != 0 && n != self.remembered => (Watch { remembered: n }, true),
            _ => (self, false),
        }
    }

    /// The sequence number seen last is a real one.
    pub open spec fn wf(self) -> bool {
        self.remembered != 0
    }

    /// Seeds a watch with the sequence number read at startup. Without access
    /// to the clipboard there is nothing to watch, and `None` is returned.
    pub fn seed(initial: Option<u32>) -> (w: Option<Watch>)
        ensures
            w == (match initial {
                Some(n) if n != 0 => Some(Watch { remembered: n }),
                _ => None,
            }),
            w is Some ==> w->0.wf(),
    {
        match initial {
            Some(n) => if n != 0 {
                Some(Watch { remembered: n })
            } else {
                None
            },
            None => None,
        }
    }

    /// Takes the sequence number just polled. Returns true, and remembers the
    /// number, exactly when it is a real number that differs from the one
    /// remembered; otherwise nothing changes and no read is called for.
    pub fn observe(&mut self, seq: Option<u32>) -> (read: bool)
        ensures
            (*final(self), read) == old(self).spec_observe(seq),
            old(self).wf() ==> final(self).wf(),
    {
        match seq {
            Some(n) => {
                if n != 0 && n != self.remembered {
                    self.remembered = n;
                    true
                } else {
                    false
                }
            },
            None => false,
        }
    }
}

/// Two polls in a row that report the same number call for no read at the
/// second, whatever was remembered before the first.
pub proof fn lemma_unchanged_number_is_quiet(w: Watch, seq: Option<u32>)
    requires
        w.wf(),
    ensures
        !w.spec_observe(seq).0.spec_observe(seq).1,
        w.spec_observe(seq).0.spec_observe(seq).0 == w.spec_observe(seq).0,
{
}

/// A poll that reports a real number other than the remembered one calls for
/// a read and remembers that number.
pub proof fn lemma_changed_number_reads(w: Watch, n: u32)
    requires
        n != 0,
        n != w.remembered,
    ensures
        w.spec_observe(Some(n)) == (Watch { remembered: n }, true),
{
}

/// A poll without access changes nothing and calls for no read.
pub proof fn lemma_no_access_is_quiet(w: Watch)
    ensures
        w.spec_observe(None) == (w, false),
        w.spec_observe(Some(0)) == (w, false),
{
}

/// What one turn of the manager's loop calls for.
#[derive(Clone, Copy, Debug, PartialEq, Eq, Structural)]
pub enum Turn {
    /// Nothing to read: sleep for the delay.
    Wait { delay_ms: u32 },
    /// The clipboard changed: run the transfer to its end, hand what it read
    /// to `notify`, then sleep for the delay.
    Read { transfer: Transfer, delay_ms: u32 },
}

/// Polls the clipboard on a fixed delay and hands what it reads to one of
/// two handlers.
pub struct ClipboardManager<S, F> {
    pub delay_ms: u32,
    pub ok_fn: S,
    pub err_fn: F,
}

impl<S: Fn(&String) -> (), F: Fn(&WinResult) -> ()> ClipboardManager<S, F> {
    /// A manager with the default delay of 100 ms and the given handlers.
    pub fn new(ok_fn: S, err_fn: F) -> (m: Self)
        ensures
            m.delay_ms == 100,
            m.ok_fn == ok_fn,
            m.err_fn == err_fn,
    {
        ClipboardManager { delay_ms: 100, ok_fn, err_fn }
    }

    /// Sets the delay between polls and hands the manager back for further
    /// configuration.
    pub fn delay(&mut self, delay_ms: u32) -> (ret: &mut Self)
        ensures
            ret.delay_ms == delay_ms,
            ret.ok_fn == old(self).ok_fn,
            ret.err_fn == old(self).err_fn,
            *final(self) == *final(ret),
    {
        self.delay_ms = delay_ms;
        self
    }

    /// Replaces the handler for text that was read.
    pub fn ok_callback<T: Fn(&String) -> ()>(self, callback: T) -> (m: ClipboardManager<T, F>)
        ensures
            m.delay_ms == self.delay_ms,
            m.ok_fn == callback,
            m.err_fn == self.err_fn,
    {
        ClipboardManager { delay_ms: self.delay_ms, ok_fn: callback, err_fn: self.err_fn }
    }

    /// Replaces the handler for a read that failed.
    pub fn err_callback<T: Fn(&WinResult) -> ()>(self, callback: T) -> (m: ClipboardManager<S, T>)
        ensures
            m.delay_ms == self.delay_ms,
            m.ok_fn == self.ok_fn,
            m.err_fn == callback,
    {
        ClipboardManager { delay_ms: self.delay_ms, ok_fn: self.ok_fn, err_fn: callback }
    }

    /// One turn of the loop, for the sequence number just polled. A real
    /// number other than the one remembered is remembered and calls for the
    /// transfer that reads the clipboard's text; anything else changes
    /// nothing and calls for no platform call but the sleep.
    pub fn run(&self, watch: &mut Watch, seq: Option<u32>) -> (turn: Turn)
        ensures
            *final(watch) == old(watch).spec_observe(seq).0,
            old(watch).wf() ==> final(watch).wf(),
            turn == (if old(watch).spec_observe(seq).1 {
                Turn::Read {
                    transfer: Transfer::initial(Task::ReadText),
                    delay_ms: self.delay_ms,
                }
            } else {
                Turn::Wait { delay_ms: self.delay_ms }
            }),
    {
        if watch.observe(seq) {
            Turn::Read { transfer: Transfer::begin(Task::ReadText), delay_ms: self.delay_ms }
        } else {
            Turn::Wait { delay_ms: self.delay_ms }
        }
    }

    /// Ends a turn that read. A handler is invoked only for a transfer that
    /// has finished, so that the clipboard is closed while it runs: the
    /// failure handler with the status of a transfer that failed, the
    /// success handler with the text of one that succeeded. For a transfer
    /// still running, or one that succeeded without a text, no handler is
    /// invoked and false is returned.
    pub fn notify(&self, transfer: &Transfer, text: Option<String>) -> (handled: bool)
        requires
            forall|text: &String| call_requires(self.ok_fn, (text,)),
            forall|status: &WinResult| call_requires(self.err_fn, (status,)),
        ensures
            handled <==> transfer.phase is Finished && (transfer.failure is Some || text is Some),
            handled && transfer.wf() ==> !transfer.session_open && !transfer.source_locked,
            handled ==> match transfer.failure {
                Some(e) => call_ensures(self.err_fn, (&e.spec_status(),), ()),
                None => call_ensures(self.ok_fn, (&text->0,), ()),
            },
    {
        match transfer.outcome() {
            Some(Err(e)) => {
                let outcome: Result<String, WinResult> = Err(e.status());
                self.dispatch(&outcome);
                true
            },
            Some(Ok(())) => match text {
                Some(t) => {
                    let outcome: Result<String, WinResult> = Ok(t);
                    self.dispatch(&outcome);
                    true
                },
                None => false,
            },
            None => false,
        }
    }

    /// Hands the outcome of a read to the handler that it is for: the text to
    /// the success handler, the status to the failure handler.
    pub fn dispatch(&self, outcome: &Result<String, WinResult>)
        requires
            forall|text: &String| call_requires(self.ok_fn, (text,)),
            forall|status: &WinResult| call_requires(self.err_fn, (status,)),
        ensures
            match outcome {
                Ok(text) => call_ensures(self.ok_fn, (text,), ()),
                Err(status) => call_ensures(self.err_fn, (status,), ()),
            },
    {
        match outcome {
            Ok(text) => (self.ok_fn)(text),
            Err(status) => (self.err_fn)(status),
        }
    }
}

} // verus!
