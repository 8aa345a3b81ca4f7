//! A minimal output-routing layer: values that can render themselves as
//! text, and operations that deliver the rendered text to one of four
//! fixed sinks — standard output, standard error, an abort channel, and a
//! marker channel for code paths that must not run to completion.
//!
//! Each operation renders its argument once and hands the whole payload
//! to its sink in a single delivery.  The four stream operations return;
//! the four terminating operations stop the current unit of execution
//! after the message reaches the abort channel, and differ from one
//! another only in the fixed note each prepends to the rendered text.

use vstd::prelude::*;

mod abort;
mod render;
mod route;

pub use abort::AbortReason;
pub use abort::abort_message;
pub use abort::abort_text;
pub use abort::lemma_abort_texts_differ_only_in_note;
pub use abort::lemma_fatal_text_is_unchanged;
pub use abort::reason_note;
pub use render::Render;
pub use render::dec_seq;
pub use render::dec_string;
pub use render::int_seq;
pub use render::int_string;
pub use render::lemma_render_deterministic;
pub use route::lemma_line_text;
pub use route::line_text;
pub use route::rendered_line;

verus! {

/// Write the rendered text of `v` to standard output, with no extra
/// characters.
pub fn print<T: Render>(v: &T) {
    let s = v.render();
    crate::route::write_stdout(s.as_str());
}

/// Write the rendered text of `v` to standard output, followed by exactly
/// one line terminator.
pub fn println<T: Render>(v: &T) {
    let s = rendered_line(v);
    crate::route::write_stdout(s.as_str());
}

/// Write the rendered text of `v` to standard error, with no extra
/// characters.
pub fn eprint<T: Render>(v: &T) {
    let s = v.render();
    crate::route::write_stderr(s.as_str());
}

/// Write the rendered text of `v` to standard error, followed by exactly
/// one line terminator.
pub fn eprintln<T: Render>(v: &T) {
    let s = rendered_line(v);
    crate::route::write_stderr(s.as_str());
}

/// Deliver the rendered text of `v` on the abort channel, unchanged, and
/// stop the current unit of execution: a generic fatal condition.
pub fn panic<T: Render>(v: &T) {
    let s = v.render();
    let msg = abort_message(AbortReason::Fatal, s.as_str());
    crate::abort::abort_with(msg.as_str());
}

/// Mark a code path that is not written yet: deliver the rendered text of
/// `v` on the marker channel, behind the note of `AbortReason::Unfinished`,
/// and stop the current unit of execution.
pub fn todo<T: Render>(v: &T) {
    let s = v.render();
    let msg = abort_message(AbortReason::Unfinished, s.as_str());
    crate::abort::abort_with(msg.as_str());
}

/// Mark a code path deliberately left unsupported: deliver the rendered
/// text of `v` on the marker channel, behind the note of
/// `AbortReason::Unsupported`, and stop the current unit of execution.
pub fn unimplemented<T: Render>(v: &T) {
    let s = v.render();
    let msg = abort_message(AbortReason::Unsupported, s.as_str());
    crate::abort::abort_with(msg.as_str());
}

/// Mark a code path that an invariant says can never be reached: deliver
/// the rendered text of `v` on the marker channel, behind the note of
/// `AbortReason::InvariantViolation`, and stop the current unit of
/// execution.
pub fn unreachable<T: Render>(v: &T) {
    let s = v.render();
    let msg = abort_message(AbortReason::InvariantViolation, s.as_str());
    crate::abort::abort_with(msg.as_str());
}

/// The stream-routing operations in value-first style.
///
/// Every renderable value has them: the blanket implementation below
/// grants the capability uniformly, with no way to opt out short of not
/// being renderable at all.  Each method's body is exactly one call of
/// the free function of the same name, so the two forms hand the sink
/// byte-identical payloads.
pub trait Print: Render {
    /// Write this value's rendered text to standard output.
    fn print(&self);

    /// Write this value's rendered text, newline-terminated, to standard
    /// output.
    fn println(&self);

    /// Write this value's rendered text to standard error.
    fn eprint(&self);

    /// Write this value's rendered text, newline-terminated, to standard
    /// error.
    fn eprintln(&self);
}

impl<T: Render> Print for T {
    fn print(&self) {
        crate::print(self)
    }

    fn println(&self) {
        crate::println(self)
    }

    fn eprint(&self) {
        crate::eprint(self)
    }

    fn eprintln(&self) {
        crate::eprintln(self)
    }
}

} // verus!
