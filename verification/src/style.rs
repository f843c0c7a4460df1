//! Plain-text styling of backtrace locations.

use vstd::prelude::*;

use crate::format::{decimal, push_decimal};
use crate::text::{owned, push_str};

verus! {

/// Location text of a backtrace frame, shown as given when no terminal
/// hyperlink is produced.
pub fn backtrace_link(display: &str, absolute_path: &str, line: Option<u32>) -> (r: String)
    ensures
        r@ == display@,
{
    owned(display)
}

/// The `editor://` address of a source location.
pub open spec fn editor_url(absolute_path: Seq<char>, line: Option<u32>) -> Seq<char> {
    match line {
        Some(l) => "editor://open?path="@ + absolute_path + "&line="@ + decimal(l as nat),
        None => "editor://open?path="@ + absolute_path,
    }
}

/// An OSC 8 terminal hyperlink around `text` pointing at `url`.
pub open spec fn osc8_link(url: Seq<char>, text: Seq<char>) -> Seq<char> {
    "\x1b]8;;"@ + url + "\x07"@ + text + "\x1b]8;;\x07"@
}

/// A terminal hyperlink showing `display` and opening the source location
/// in an editor.
pub fn terminal_backtrace_link(display: &str, absolute_path: &str, line: Option<u32>) -> (r: String)
    ensures
        r@ == osc8_link(editor_url(absolute_path@, line), display@),
{
    let mut out = owned("\x1b]8;;");
    push_str(&mut out, "editor://open?path=");
    push_str(&mut out, absolute_path);
    match line {
        Some(l) => {
            push_str(&mut out, "&line=");
            push_decimal(&mut out, l as u64);
        }
        None => {}
    }
    push_str(&mut out, "\x07");
    push_str(&mut out, display);
    push_str(&mut out, "\x1b]8;;\x07");
    assert(out@ =~= osc8_link(editor_url(absolute_path@, line), display@));
    out
}

} // verus!
