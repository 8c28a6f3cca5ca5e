//! Platform status codes.

use vstd::prelude::*;
use vstd::slice::slice_subrange;
use crate::text::{decode_strict, utf16_strict};

verus! {

/// A status code from the platform's error domain. Zero means success.
#[derive(Debug, Clone, Copy, PartialEq, Eq, Structural)]
pub struct WinResult(pub u32);

impl WinResult {
    /// Wraps a raw status value.
    pub fn new(errno: u32) -> (r: WinResult)
        ensures
            r.0 == errno,
    {
        WinResult(errno)
    }

    /// True exactly when the status is the success sentinel.
    pub fn is_ok(&self) -> (r: bool)
        ensures
            r == (self.0 == 0),
    {
        self.0 == 0
    }

    /// The exact complement of `is_ok`.
    pub fn is_err(&self) -> (r: bool)
        ensures
            r == (self.0 != 0),
    {
        !self.is_ok()
    }

    /// The raw status value, for programmatic branching.
    pub fn errno(&self) -> (r: u32)
        ensures
            r == self.0,
    {
        self.0
    }

    /// The description that a lookup in the platform's message table gives:
    /// the first `num_chars` units of the buffer, decoded, where the lookup
    /// wrote that many units and they are well-formed; the fallback text
    /// where it wrote none, reports more than the buffer holds, or wrote
    /// units that do not decode.
    pub open spec fn spec_errno_desc(num_chars: u32, format_buff: Seq<u16>) -> Seq<char> {
        if num_chars == 0 || num_chars > format_buff.len() {
            "Unknown error"@
        } else {
            match utf16_strict(format_buff.take(num_chars as int)) {
                Some(text) => text,
                None => "Unknown error"@,
            }
        }
    }

    /// Turns the answer of the platform's message lookup for this status
    /// into a description. `num_chars` is the number of units that the lookup
    /// reports to have written into `format_buff`, zero when it found nothing.
    pub fn errno_desc(&self, num_chars: u32, format_buff: &[u16]) -> (desc: String)
        ensures
            desc@ == Self::spec_errno_desc(num_chars, format_buff@),
    {
        if num_chars == 0 || num_chars as usize > format_buff.len() {
            return "Unknown error".to_owned();
        }
        let written = slice_subrange(format_buff, 0, num_chars as usize);
        assert(written@ =~= format_buff@.take(num_chars as int));
        match decode_strict(written) {
            Some(text) => text,
            None => "Unknown error".to_owned(),
        }
    }
}

} // verus!
