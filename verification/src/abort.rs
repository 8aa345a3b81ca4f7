//! The abort and marker sinks: a message is built from the rendered text,
//! delivered on the abort channel, and the current unit of execution
//! stops.
//!
//! The four causes of termination differ only in the fixed note each one
//! prepends to the text; at run time all four behave identically.

use vstd::prelude::*;

verus! {

/// Why a unit of execution is being stopped.
///
/// The four reasons are distinguished purely to signal intent at the call
/// site: a generic fatal condition, a code path that is not written yet, a
/// path deliberately left unsupported, and a path that an invariant says
/// can never be reached.
#[derive(Clone, Copy, Debug, PartialEq, Eq, Structural)]
pub enum AbortReason {
    Fatal,
    Unfinished,
    Unsupported,
    InvariantViolation,
}

/// The fixed note a reason prepends to the rendered text.  A generic
/// fatal abort adds nothing; the marker reasons each add a fixed phrase.
pub open spec fn reason_note(reason: AbortReason) -> Seq<char> {
    match reason {
        AbortReason::Fatal => Seq::empty(),
        AbortReason::Unfinished => "not yet implemented: "@,
        AbortReason::Unsupported => "not implemented: "@,
        AbortReason::InvariantViolation => "internal error: entered unreachable code: "@,
    }
}

/// The full message delivered on the abort channel: the reason's fixed
/// note, then the rendered text.
pub open spec fn abort_text(reason: AbortReason, t: Seq<char>) -> Seq<char> {
    reason_note(reason) + t
}

/// Build the message that the abort channel receives for `reason` and the
/// rendered text `text`.
pub fn abort_message(reason: AbortReason, text: &str) -> (r: String)
    ensures
        r@ == abort_text(reason, text@),
{
    let mut m = match reason {
        AbortReason::Fatal => String::new(),
        AbortReason::Unfinished => String::from_str("not yet implemented: "),
        AbortReason::Unsupported => String::from_str("not implemented: "),
        AbortReason::InvariantViolation => String::from_str(
            "internal error: entered unreachable code: ",
        ),
    };
    m.append(text);
    m
}

/// Two reasons given the same text produce messages that differ only in
/// the fixed note each prepends: past its note, each message is exactly
/// the shared text.
pub proof fn lemma_abort_texts_differ_only_in_note(
    first: AbortReason,
    second: AbortReason,
    t: Seq<char>,
)
    ensures
        abort_text(first, t).skip(reason_note(first).len() as int) == t,
        abort_text(second, t).skip(reason_note(second).len() as int) == t,
{
    assert(abort_text(first, t).skip(reason_note(first).len() as int) =~= t);
    assert(abort_text(second, t).skip(reason_note(second).len() as int) =~= t);
}

/// A generic fatal abort delivers the rendered text unchanged: its reason
/// contributes no note of its own.
pub proof fn lemma_fatal_text_is_unchanged(t: Seq<char>)
    ensures
        abort_text(AbortReason::Fatal, t) == t,
{
    assert(abort_text(AbortReason::Fatal, t) =~= t);
}

/// Relies on Option::expect: called on `None` it panics, with exactly the
/// given message as the panic payload, so control never returns to the
/// caller.  The panic is this library's abort channel: it stops the
/// current unit of execution, and nothing after the call runs, which is
/// more than any postcondition here could state.
#[verifier::external_body]
pub(crate) fn abort_with(msg: &str) {
    let nothing: Option<u8> = None;
    let _ = nothing.expect(msg);
}

} // verus!
