//! The texts that report a value or a failure nobody handles yet.

use core::fmt::Debug;
use core::fmt::Write;
use vstd::prelude::*;
use vstd::string::StringExecFns;

verus! {

/// The text that reports an absent value without handling.
pub open spec fn none_message() -> Seq<char> {
    "None handling not yet implemented"@
}

/// The text that reports a failure without handling, where `debug` is the
/// failure's debug text.
pub open spec fn err_message(debug: Seq<char>) -> Seq<char> {
    "Err handling not yet implemented: "@ + debug
}

/// The report of a failure is never the report of an absent value, whatever
/// the failure's debug text: the text alone tells which of the two went
/// unhandled.
pub proof fn lemma_messages_differ(debug: Seq<char>)
    ensures
        err_message(debug) != none_message(),
{
    reveal_strlit("None handling not yet implemented");
    reveal_strlit("Err handling not yet implemented: ");
    assert(none_message()[0] == 'N');
    assert(err_message(debug)[0] == 'E');
}

/// Gives the text that reports an absent value without handling.
pub fn unwrap_none() -> (msg: &'static str)
    ensures
        msg@ == none_message(),
{
    "None handling not yet implemented"
}

/// Gives the text that reports a failure without handling, from the
/// failure's debug text.
pub fn render_err(debug: &str) -> (msg: String)
    ensures
        msg@ == err_message(debug@),
{
    let mut msg = String::from_str("Err handling not yet implemented: ");
    msg.append(debug);
    msg
}

/// Trusted: calls `write!` with `{:?}` on `e` into a fresh `String`, which
/// runs the `Debug` impl of `e`. What that impl writes is its own business,
/// and it may differ from one call to the next, so the contract claims
/// nothing of the text. Writing into a `String` cannot fail, and where the
/// impl itself reports an error, what it wrote up to then is returned. A
/// panic raised by the impl's own code is all that is left to stop this call.
#[verifier::external_body]
fn debug_text(e: &dyn Debug) -> (text: String) {
    let mut text = String::new();
    let _ = write!(text, "{:?}", e);
    text
}

/// Gives the text that reports the failure `e` without handling: the text of
/// [`render_err`] for whatever the `Debug` impl of `e` writes, also where
/// that impl reports an error.
pub fn unwrap_err(e: &dyn Debug) -> (msg: String)
    ensures
        exists|debug: Seq<char>| msg@ == err_message(debug),
{
    let text = debug_text(e);
    render_err(text.as_str())
}

} // verus!
