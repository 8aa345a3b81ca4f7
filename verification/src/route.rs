//! Routing to the two stream sinks: standard output and standard error,
//! each in a plain form and a newline-terminated form.
//!
//! Every operation first builds the full payload — the rendered text, plus
//! exactly one line terminator for the line forms — and then hands it to
//! the sink in a single write.  Write failures are not surfaced: the
//! stream either accepts the text or the failure is silently dropped.

use vstd::prelude::*;

use crate::render::Render;

verus! {

/// The payload of a newline-terminated write: the text followed by
/// exactly one line terminator.
pub open spec fn line_text(t: Seq<char>) -> Seq<char> {
    t.push('\n')
}

/// A newline-terminated payload is the given text followed by exactly one
/// line terminator and nothing else.
pub proof fn lemma_line_text(t: Seq<char>)
    ensures
        line_text(t).len() == t.len() + 1,
        line_text(t).subrange(0, t.len() as int) == t,
        line_text(t).last() == '\n',
{
    assert(line_text(t).subrange(0, t.len() as int) =~= t);
}

/// The rendered text of `v`, followed by exactly one line terminator.
pub fn rendered_line<T: Render>(v: &T) -> (r: String)
    ensures
        r@ == line_text(v.text()),
{
    let mut s = v.render();
    s.append("\n");
    proof {
        reveal_strlit("\n");
        assert(s@ =~= line_text(v.text()));
    }
    s
}

/// Relies on std::io::Write::write_all on std::io::stdout: delivers the
/// bytes of `s`, in full and in one call, to standard output.  A write
/// failure is silently dropped, as the stream sinks' contract says.
#[verifier::external_body]
pub(crate) fn write_stdout(s: &str) {
    let mut out = std::io::stdout();
    let _ = std::io::Write::write_all(&mut out, s.as_bytes());
}

/// Relies on std::io::Write::write_all on std::io::stderr: delivers the
/// bytes of `s`, in full and in one call, to standard error.  A write
/// failure is silently dropped, as the stream sinks' contract says.
#[verifier::external_body]
pub(crate) fn write_stderr(s: &str) {
    let mut err = std::io::stderr();
    let _ = std::io::Write::write_all(&mut err, s.as_bytes());
}

} // verus!
