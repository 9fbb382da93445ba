//! Clipboard support via the OSC 52 terminal escape.
//!
//! This deliberately avoids a system clipboard crate: OSC 52 is handled by the
//! terminal emulator itself, so it works identically over SSH and inside tmux,
//! and needs no X11/Wayland connection.

use base64::engine::general_purpose::STANDARD;
use base64::Engine as _;
use vstd::prelude::*;

use crate::text::cat3;

verus! {

broadcast use vstd::string::group_string_axioms;

/// The standard Base64 encoding of some bytes, with padding.
pub uninterp spec fn base64_of(bytes: Seq<u8>) -> Seq<char>;

/// `base64::engine::general_purpose::STANDARD.encode`. The text depends on the
/// bytes alone.
#[verifier::external_body]
fn encode(bytes: &[u8]) -> (out: String)
    ensures
        out@ == base64_of(bytes@),
{
    STANDARD.encode(bytes)
}

/// The escape that asks a terminal to put a Base64 payload on the clipboard.
/// tmux swallows OSC sequences unless they're wrapped in a passthrough.
pub open spec fn osc52_text(encoded: Seq<char>, tmux: bool) -> Seq<char> {
    if tmux {
        "\x1bPtmux;\x1b\x1b]52;c;"@ + encoded + "\x07\x1b\\"@
    } else {
        "\x1b]52;c;"@ + encoded + "\x07"@
    }
}

/// The escape that asks a terminal to put a Base64 payload on the clipboard.
pub fn osc52(encoded: &str, tmux: bool) -> (out: String)
    ensures
        out@ == osc52_text(encoded@, tmux),
{
    if tmux {
        cat3("\x1bPtmux;\x1b\x1b]52;c;", encoded, "\x07\x1b\\")
    } else {
        cat3("\x1b]52;c;", encoded, "\x07")
    }
}

/// What to write to the terminal to place `text` on the system clipboard.
///
/// Not every terminal honours OSC 52 (and some require it to be enabled), so
/// writing it means "the request was sent", not "the clipboard definitely
/// changed".
pub fn copy(text: &str, tmux: bool) -> (out: String)
    ensures
        out@ == osc52_text(base64_of(vstd::utf8::encode_utf8(text@)), tmux),
{
    let encoded = encode(text.as_bytes());
    osc52(&encoded, tmux)
}

} // verus!
