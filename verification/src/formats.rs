//! Enumeration of the formats present on the clipboard, and format names.
//!
//! The platform hands out the formats one at a time: asked for the format
//! after a given one, it answers with the next, and with zero when none is
//! left. Zero as the given one asks for the first.

use vstd::prelude::*;
use vstd::slice::slice_subrange;
use crate::buffer::{
    content, free_of, is_span, lemma_span_exists, lemma_span_unique, span_len,
};
use crate::error::WinResult;
use crate::text::{decode_lossy, utf16_lossy};

verus! {

/// An enumeration in progress.
pub struct FormatScan {
    /// The formats reported so far, in the order reported.
    pub found: Vec<u32>,
    /// The format to ask after next; zero at the start.
    pub cursor: u32,
    /// True once the platform has reported that none is left.
    pub exhausted: bool,
}

/// What taking one answer does to the formats found and to whether the
/// enumeration has ended: a format is appended, zero ends the enumeration,
/// and nothing changes once it has ended.
pub open spec fn spec_accept(found: Seq<u32>, exhausted: bool, answer: u32) -> (Seq<u32>, bool) {
    if exhausted || answer == 0 {
        (found, true)
    } else {
        (found.push(answer), false)
    }
}

/// The formats found after taking the answers in turn.
pub open spec fn collected(found: Seq<u32>, exhausted: bool, answers: Seq<u32>) -> Seq<u32>
    decreases answers.len(),
{
    if answers.len() == 0 {
        found
    } else {
        let next = spec_accept(found, exhausted, answers[0]);
        collected(next.0, next.1, answers.drop_first())
    }
}

/// The queries made while the answers are taken in turn: each asks after the
/// format answered last, the first after `cursor`, and none is made once
/// the enumeration has ended.
pub open spec fn queried(cursor: u32, exhausted: bool, answers: Seq<u32>) -> Seq<u32>
    decreases answers.len(),
{
    if exhausted || answers.len() == 0 {
        Seq::<u32>::empty()
    } else if answers[0] == 0 {
        seq![cursor] + queried(cursor, true, answers.drop_first())
    } else {
        seq![cursor] + queried(answers[0], false, answers.drop_first())
    }
}

impl FormatScan {
    /// An enumeration that has asked for nothing yet.
    pub fn new() -> (s: FormatScan)
        ensures
            s.found@ == Seq::<u32>::empty(),
            s.cursor == 0,
            !s.exhausted,
    {
        FormatScan { found: Vec::new(), cursor: 0, exhausted: false }
    }

    /// The format to ask after next, and `None` once none is left to ask
    /// for.
    pub fn next_query(&self) -> (q: Option<u32>)
        ensures
            q == (if self.exhausted {
                None
            } else {
                Some(self.cursor)
            }),
    {
        if self.exhausted {
            None
        } else {
            Some(self.cursor)
        }
    }

    /// Takes the platform's answer to the last query. A format is appended
    /// and asked after next; zero ends the enumeration. Answers that come
    /// after the end are ignored.
    pub fn accept(&mut self, answer: u32)
        ensures
            (final(self).found@, final(self).exhausted) == spec_accept(
                old(self).found@,
                old(self).exhausted,
                answer,
            ),
            final(self).cursor == (if old(self).exhausted || answer == 0 {
                old(self).cursor
            } else {
                answer
            }),
    {
        if self.exhausted {
            return ;
        }
        if answer == 0 {
            self.exhausted = true;
        } else {
            self.found.push(answer);
            self.cursor = answer;
        }
    }

    /// Ends the enumeration with the platform's last error, read once after
    /// the last answer: the formats found if it is zero, the error if not.
    pub fn finish(self, last_error: u32) -> (r: Result<Vec<u32>, WinResult>)
        ensures
            last_error == 0 ==> r is Ok && r->Ok_0@ == self.found@,
            last_error != 0 ==> r == Err::<Vec<u32>, WinResult>(WinResult(last_error)),
    {
        if last_error != 0 {
            return Err(WinResult(last_error));
        }
        Ok(self.found)
    }
}

/// Once the enumeration has ended, further answers add nothing.
pub proof fn lemma_collected_after_end(found: Seq<u32>, answers: Seq<u32>)
    ensures
        collected(found, true, answers) == found,
    decreases answers.len(),
{
    if answers.len() > 0 {
        lemma_collected_after_end(found, answers.drop_first());
    }
}

/// The answers before the first zero are the first answer, if it is not
/// zero, and then those of the rest; they are none if there is no answer or
/// the first is zero.
pub proof fn lemma_content_unfolds(answers: Seq<u32>)
    ensures
        answers.len() == 0 || answers[0] == 0 ==> content(answers, 0u32) == Seq::<u32>::empty(),
        answers.len() > 0 && answers[0] != 0 ==> content(answers, 0u32) == seq![answers[0]]
            + content(answers.drop_first(), 0u32),
{
    if answers.len() == 0 || answers[0] == 0 {
        assert(is_span(answers, 0u32, 0));
        lemma_span_unique(answers, 0u32, 0, 0);
        assert(answers.take(0) =~= Seq::<u32>::empty());
    } else {
        let rest = answers.drop_first();
        lemma_span_exists(rest, 0u32);
        let k = span_len(rest, 0u32);
        assert(is_span(answers, 0u32, k + 1)) by {
            assert forall|i: int| 0 <= i < k + 1 implies answers[i] != 0u32 by {
                if i > 0 {
                    assert(rest[i - 1] == answers[i]);
                }
            }
            if k + 1 < answers.len() {
                assert(rest[k] == answers[k + 1]);
            }
        }
        lemma_span_unique(answers, 0u32, k + 1, k + 1);
        assert(answers.take(k + 1) =~= seq![answers[0]] + rest.take(k));
    }
}

/// Taking the answers one by one finds the answers before the first zero, in
/// the platform's order and each as often as it was reported, after what was
/// found before.
pub proof fn lemma_collected_is_prefix(found: Seq<u32>, answers: Seq<u32>)
    ensures
        collected(found, false, answers) == found + content(answers, 0u32),
    decreases answers.len(),
{
    lemma_content_unfolds(answers);
    if answers.len() == 0 || answers[0] == 0 {
        assert(found + Seq::<u32>::empty() =~= found);
        if answers.len() > 0 {
            lemma_collected_after_end(found, answers.drop_first());
        }
    } else {
        let rest = answers.drop_first();
        lemma_collected_is_prefix(found.push(answers[0]), rest);
        assert(found.push(answers[0]) + content(rest, 0u32) =~= found + (seq![answers[0]]
            + content(rest, 0u32)));
    }
}

/// Once the enumeration has ended, no further query is made.
pub proof fn lemma_no_query_after_end(cursor: u32, answers: Seq<u32>)
    ensures
        queried(cursor, true, answers) == Seq::<u32>::empty(),
{
}

/// Where the platform answers with some formats and then with zero, one
/// query is made for each format and one more: the first asks after
/// `cursor`, zero at the start, each next one after the format answered
/// before, and none follows the zero.
pub proof fn lemma_queries_follow_answers(cursor: u32, answers: Seq<u32>)
    requires
        !free_of(answers, 0u32),
    ensures
        queried(cursor, false, answers) == seq![cursor] + content(answers, 0u32),
        queried(cursor, false, answers).len() == content(answers, 0u32).len() + 1,
    decreases answers.len(),
{
    lemma_content_unfolds(answers);
    let i = choose|i: int| 0 <= i < answers.len() && answers[i] == 0u32;
    let rest = answers.drop_first();
    if answers[0] == 0 {
        lemma_no_query_after_end(cursor, rest);
        assert(seq![cursor] + Seq::<u32>::empty() =~= seq![cursor] + content(answers, 0u32));
    } else {
        assert(rest[i - 1] == answers[i]);
        lemma_queries_follow_answers(answers[0], rest);
        assert(seq![cursor] + (seq![answers[0]] + content(rest, 0u32)) =~= seq![cursor]
            + content(answers, 0u32));
    }
}

/// On a clipboard that reports no format at the first query, nothing is
/// found.
pub proof fn lemma_empty_clipboard_lists_nothing(answers: Seq<u32>)
    requires
        answers.len() > 0,
        answers[0] == 0,
    ensures
        collected(Seq::<u32>::empty(), false, answers) == Seq::<u32>::empty(),
{
    lemma_collected_after_end(Seq::<u32>::empty(), answers.drop_first());
}

/// The name that a name query gives: `None` where it copied nothing, as it
/// does for predefined and unknown formats; else the units it copied,
/// decoded lossily.
pub open spec fn spec_format_name(copied: usize, name_buff: Seq<u16>) -> Option<Seq<char>> {
    if copied == 0 {
        None
    } else if copied <= name_buff.len() {
        Some(utf16_lossy(name_buff.take(copied as int)))
    } else {
        Some(utf16_lossy(name_buff))
    }
}

/// Turns the answer of the platform's name query into a name. `copied` is
/// the number of units that the query reports to have written into
/// `name_buff`, zero when the format has no name.
pub fn format_name_from(copied: usize, name_buff: &[u16]) -> (name: Option<String>)
    ensures
        name is Some == spec_format_name(copied, name_buff@) is Some,
        name is Some ==> name->0@ == spec_format_name(copied, name_buff@)->0,
{
    if copied == 0 {
        return None;
    }
    if copied <= name_buff.len() {
        let written = slice_subrange(name_buff, 0, copied);
        assert(written@ =~= name_buff@.take(copied as int));
        Some(decode_lossy(written))
    } else {
        Some(decode_lossy(name_buff))
    }
}

} // verus!
