//! The clipboard operations. Each one prepares what is stored, where
//! something is, and starts the transfer that the caller then drives call by
//! call.

use vstd::prelude::*;
use crate::buffer::{content, free_of, raw_image, text_image, CF_UNICODETEXT};
use crate::formats::FormatScan;
use crate::text::{nul_free, utf16_lossy, utf16_units};
use crate::transfer::{Task, Transfer};

verus! {

/// The size in bytes of one unit of 16-bit text.
pub const WIDE_UNIT: usize = 2;

/// Sets the clipboard to a text. Returns the transfer and the image to copy
/// into the buffer that the transfer allocates: the text's UTF-16 units and
/// a terminator. `None` when the image's size in bytes does not fit the
/// platform's size type; nothing is to be done then.
///
/// Reading the stored image back as text gives the text exactly, unless
/// the text holds a NUL character.
pub fn set_clipboard(text: &str) -> (r: Option<(Transfer, Vec<u16>)>)
    ensures
        r is Some <==> (utf16_units(text@).len() + 1) * 2 <= usize::MAX,
        match r {
            Some((transfer, image)) => {
                &&& image@ == utf16_units(text@).push(0u16)
                &&& transfer == Transfer::initial(
                    Task::Write { format: CF_UNICODETEXT, bytes: (image@.len() * 2) as usize },
                )
                &&& nul_free(text@) ==> utf16_lossy(content(image@, 0u16)) == text@
            },
            None => true,
        },
{
    let image = text_image(text);
    if image.len() > usize::MAX / WIDE_UNIT {
        return None;
    }
    let bytes: usize = image.len() * WIDE_UNIT;
    Some((Transfer::begin(Task::Write { format: CF_UNICODETEXT, bytes }), image))
}

/// Sets the clipboard to raw bytes under a format. Returns the transfer and
/// the image to copy into the buffer that the transfer allocates: the bytes
/// and a terminator.
///
/// Reading the stored image back gives the bytes exactly, unless one of them
/// is zero.
pub fn set_clipboard_raw(data: &[u8], format: u32) -> (r: (Transfer, Vec<u8>))
    ensures
        r.1@ == data@.push(0u8),
        free_of(data@, 0u8) ==> content(r.1@, 0u8) == data@,
        r.0 == Transfer::initial(Task::Write { format, bytes: r.1@.len() as usize }),
{
    let image = raw_image(data);
    let bytes: usize = image.len();
    (Transfer::begin(Task::Write { format, bytes }), image)
}

/// Reads the clipboard's text: the transfer that reads the 16-bit Unicode
/// text format and hands out what it finds decoded.
pub fn get_clipboard_string() -> (t: Transfer)
    ensures
        t == Transfer::initial(Task::ReadText),
        t.spec_format() == CF_UNICODETEXT,
{
    Transfer::begin(Task::ReadText)
}

/// Reads the bytes that the clipboard holds under a format.
pub fn get_clipboard(format: u32) -> (t: Transfer)
    ensures
        t == Transfer::initial(Task::Read { format }),
{
    Transfer::begin(Task::Read { format })
}

/// Lists the formats present on the clipboard: the transfer, and the
/// enumeration to run when the transfer asks for it.
pub fn get_clipboard_formats() -> (r: (Transfer, FormatScan))
    ensures
        r.0 == Transfer::initial(Task::ListFormats),
        r.1.found@ == Seq::<u32>::empty(),
        r.1.cursor == 0,
        !r.1.exhausted,
{
    (Transfer::begin(Task::ListFormats), FormatScan::new())
}

/// Looks up the registered name of a format.
pub fn get_format_name(format: u32) -> (t: Transfer)
    ensures
        t == Transfer::initial(Task::FormatName { format }),
{
    Transfer::begin(Task::FormatName { format })
}

} // verus!
