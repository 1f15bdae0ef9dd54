//! The requests that a client hands to the service, one line of text each.

use vstd::prelude::*;
use vstd::string::*;

verus! {

/// A request of a client. The parameters of a request are JSON; they are
/// handed on as they came.
#[derive(Clone, Copy, Debug, PartialEq, Eq)]
pub enum Request<'a> {
    /// Reset the custom colours.
    ResetCustomColors,
    /// Select an animation with these parameters.
    SetLedAnimation { params: &'a str },
    /// Set the custom colours to this table.
    SetCustomColors { params: &'a str },
    /// Anything else.
    Invalid,
}

/// The mathematical value of a `Request`.
pub enum RequestView {
    ResetCustomColors,
    SetLedAnimation { params: Seq<char> },
    SetCustomColors { params: Seq<char> },
    Invalid,
}

impl<'a> View for Request<'a> {
    type V = RequestView;

    open spec fn view(&self) -> RequestView {
        match *self {
            Request::ResetCustomColors => RequestView::ResetCustomColors,
            Request::SetLedAnimation { params } => RequestView::SetLedAnimation { params: params@ },
            Request::SetCustomColors { params } => RequestView::SetCustomColors { params: params@ },
            Request::Invalid => RequestView::Invalid,
        }
    }
}

/// The request that a line of text holds.
pub open spec fn request_of(line: Seq<char>) -> RequestView {
    if "reset_custom_colors"@.is_prefix_of(line) {
        RequestView::ResetCustomColors
    } else if "set_led_animation="@.is_prefix_of(line) {
        RequestView::SetLedAnimation { params: line.skip("set_led_animation="@.len() as int) }
    } else if "set_custom_colors="@.is_prefix_of(line) {
        RequestView::SetCustomColors { params: line.skip("set_custom_colors="@.len() as int) }
    } else {
        RequestView::Invalid
    }
}

/// Tells whether `text` begins with `prefix`.
fn starts_with(text: &str, prefix: &str) -> (yes: bool)
    ensures
        yes == prefix@.is_prefix_of(text@),
{
    let len = prefix.unicode_len();
    if text.unicode_len() < len {
        return false;
    }
    let mut i: usize = 0;
    while i < len
        invariant
            i <= len == prefix@.len() <= text@.len(),
            forall|j: int| 0 <= j < i ==> text@[j] == prefix@[j],
        decreases len - i,
    {
        if text.get_char(i) != prefix.get_char(i) {
            assert(text@.subrange(0, prefix@.len() as int)[i as int] != prefix@[i as int]);
            return false;
        }
        i = i + 1;
    }
    assert(prefix@ =~= text@.subrange(0, prefix@.len() as int));
    true
}

/// What follows the first `len` characters of `text`.
fn behind(text: &str, len: usize) -> (rest: &str)
    requires
        len <= text@.len(),
    ensures
        rest@ == text@.skip(len as int),
{
    let end = text.unicode_len();
    text.substring_char(len, end)
}

/// Reads the request that the line `msg` holds. A line that begins with
/// `reset_custom_colors` asks for the reset, whatever follows; the lines
/// `set_led_animation=` and `set_custom_colors=` carry their parameters
/// behind the equals sign. They are tried in this order, and every other
/// line is invalid.
pub fn parse_request(msg: &str) -> (request: Request<'_>)
    ensures
        request@ == request_of(msg@),
{
    if starts_with(msg, "reset_custom_colors") {
        return Request::ResetCustomColors;
    }
    if starts_with(msg, "set_led_animation=") {
        let len = "set_led_animation=".unicode_len();
        return Request::SetLedAnimation { params: behind(msg, len) };
    }
    if starts_with(msg, "set_custom_colors=") {
        let len = "set_custom_colors=".unicode_len();
        return Request::SetCustomColors { params: behind(msg, len) };
    }
    Request::Invalid
}

} // verus!
