//! The renderable capability: a deterministic, non-mutating conversion of
//! a value to text, described at the specification level by a sequence of
//! characters.

use vstd::prelude::*;

verus! {

/// A value that can render itself as text.
///
/// `text` is the mathematical statement of what the rendering is; `render`
/// produces exactly that text.  Because `text` is a function of the value
/// alone, rendering is deterministic: it can be called any number of times
/// and always yields the same characters, and it never mutates the value.
pub trait Render {
    /// The text this value renders to.
    spec fn text(&self) -> Seq<char>;

    /// Produce the rendered text.
    fn render(&self) -> (r: String)
        ensures
            r@ == self.text(),
    ;
}

/// The character for a single decimal digit.
pub open spec fn dec_digit(d: nat) -> char {
    if d == 0 {
        '0'
    } else if d == 1 {
        '1'
    } else if d == 2 {
        '2'
    } else if d == 3 {
        '3'
    } else if d == 4 {
        '4'
    } else if d == 5 {
        '5'
    } else if d == 6 {
        '6'
    } else if d == 7 {
        '7'
    } else if d == 8 {
        '8'
    } else {
        '9'
    }
}

/// The decimal representation of a natural number: most significant digit
/// first, no leading zeros (except for the number zero itself).
pub open spec fn dec_seq(n: nat) -> Seq<char>
    decreases n,
{
    if n < 10 {
        seq![dec_digit(n)]
    } else {
        dec_seq(n / 10) + seq![dec_digit(n % 10)]
    }
}

/// A one-character string slice for a single decimal digit.
fn digit_str(d: u64) -> (r: &'static str)
    requires
        d < 10,
    ensures
        r@ == seq![dec_digit(d as nat)],
{
    let r: &'static str = if d == 0 {
        "0"
    } else if d == 1 {
        "1"
    } else if d == 2 {
        "2"
    } else if d == 3 {
        "3"
    } else if d == 4 {
        "4"
    } else if d == 5 {
        "5"
    } else if d == 6 {
        "6"
    } else if d == 7 {
        "7"
    } else if d == 8 {
        "8"
    } else {
        "9"
    };
    proof {
        reveal_strlit("0");
        reveal_strlit("1");
        reveal_strlit("2");
        reveal_strlit("3");
        reveal_strlit("4");
        reveal_strlit("5");
        reveal_strlit("6");
        reveal_strlit("7");
        reveal_strlit("8");
        reveal_strlit("9");
        assert(r@ =~= seq![dec_digit(d as nat)]);
    }
    r
}

/// Append the decimal representation of `n` to `s`.
fn push_dec(n: u64, s: &mut String)
    ensures
        final(s)@ == old(s)@ + dec_seq(n as nat),
    decreases n,
{
    if n >= 10 {
        assert(n / 10 < n) by (nonlinear_arith)
            requires
                n >= 10,
        ;
        push_dec(n / 10, s);
    }
    s.append(digit_str(n % 10));
    assert(s@ =~= old(s)@ + dec_seq(n as nat));
}

/// The decimal representation of `n` as a string.
pub fn dec_string(n: u64) -> (r: String)
    ensures
        r@ == dec_seq(n as nat),
{
    let mut s = String::new();
    push_dec(n, &mut s);
    assert(s@ =~= dec_seq(n as nat));
    s
}

/// The decimal representation of an integer: a leading minus sign for
/// negative values, then the digits of the magnitude.
pub open spec fn int_seq(i: int) -> Seq<char> {
    if i < 0 {
        seq!['-'] + dec_seq((-i) as nat)
    } else {
        dec_seq(i as nat)
    }
}

/// The decimal representation of `i` as a string.
pub fn int_string(i: i64) -> (r: String)
    ensures
        r@ == int_seq(i as int),
{
    if i >= 0 {
        dec_string(i as u64)
    } else {
        let wide: i128 = -(i as i128);
        let mag: u64 = wide as u64;
        let mut s = String::from_str("-");
        push_dec(mag, &mut s);
        proof {
            reveal_strlit("-");
            assert(s@ =~= int_seq(i as int));
        }
        s
    }
}

impl Render for String {
    open spec fn text(&self) -> Seq<char> {
        self@
    }

    fn render(&self) -> (r: String) {
        self.clone()
    }
}

impl Render for u64 {
    open spec fn text(&self) -> Seq<char> {
        dec_seq(*self as nat)
    }

    fn render(&self) -> (r: String) {
        dec_string(*self)
    }
}

impl Render for u32 {
    open spec fn text(&self) -> Seq<char> {
        dec_seq(*self as nat)
    }

    fn render(&self) -> (r: String) {
        dec_string(*self as u64)
    }
}

impl Render for i64 {
    open spec fn text(&self) -> Seq<char> {
        int_seq(*self as int)
    }

    fn render(&self) -> (r: String) {
        int_string(*self)
    }
}

impl Render for i32 {
    open spec fn text(&self) -> Seq<char> {
        int_seq(*self as int)
    }

    fn render(&self) -> (r: String) {
        int_string(*self as i64)
    }
}

impl Render for bool {
    open spec fn text(&self) -> Seq<char> {
        if *self {
            "true"@
        } else {
            "false"@
        }
    }

    fn render(&self) -> (r: String) {
        if *self {
            String::from_str("true")
        } else {
            String::from_str("false")
        }
    }
}

impl<'a> Render for &'a str {
    open spec fn text(&self) -> Seq<char> {
        (*self)@
    }

    fn render(&self) -> (r: String) {
        String::from_str(*self)
    }
}

/// Rendering is deterministic: any two renderings of the same value have
/// the same text, since each equals the value's `text`.
pub proof fn lemma_render_deterministic<T: Render>(v: &T, first: Seq<char>, second: Seq<char>)
    requires
        first == v.text(),
        second == v.text(),
    ensures
        first == second,
{
}

} // verus!
