use textsink::AbortReason;
use textsink::Print;
use textsink::Render;

#[test]
fn render_string_is_identity() {
    let v = String::from("hello");
    assert_eq!(v.render(), "hello");
    let empty = String::new();
    assert_eq!(empty.render(), "");
}

#[test]
fn render_str_is_identity() {
    let v: &str = "hi there";
    assert_eq!(v.render(), "hi there");
}

#[test]
fn render_u64_decimal() {
    assert_eq!(0u64.render(), "0");
    assert_eq!(5u64.render(), "5");
    assert_eq!(10u64.render(), "10");
    assert_eq!(42u64.render(), "42");
    assert_eq!(u64::MAX.render(), "18446744073709551615");
}

#[test]
fn render_u32_decimal() {
    assert_eq!(0u32.render(), "0");
    assert_eq!(4294967295u32.render(), "4294967295");
}

#[test]
fn render_i64_decimal() {
    assert_eq!(0i64.render(), "0");
    assert_eq!((-1i64).render(), "-1");
    assert_eq!((-10i64).render(), "-10");
    assert_eq!(i64::MAX.render(), "9223372036854775807");
    assert_eq!(i64::MIN.render(), "-9223372036854775808");
}

#[test]
fn render_i32_decimal() {
    assert_eq!((-2147483648i32).render(), "-2147483648");
    assert_eq!(7i32.render(), "7");
}

#[test]
fn render_bool_words() {
    assert_eq!(true.render(), "true");
    assert_eq!(false.render(), "false");
}

#[test]
fn dec_string_matches_render() {
    assert_eq!(textsink::dec_string(123), "123");
    assert_eq!(textsink::int_string(-123), "-123");
}

#[test]
fn render_is_deterministic() {
    let v = String::from("same every time");
    assert_eq!(v.render(), v.render());
    assert_eq!(99u64.render(), 99u64.render());
}

#[test]
fn rendered_line_appends_one_newline() {
    let v = String::from("hello");
    assert_eq!(textsink::rendered_line(&v), "hello\n");
    let empty = String::new();
    assert_eq!(textsink::rendered_line(&empty), "\n");
}

#[test]
fn fatal_message_is_text_unchanged() {
    let m = textsink::abort_message(AbortReason::Fatal, "boom");
    assert_eq!(m, "boom");
}

#[test]
fn marker_messages_differ_only_in_note() {
    let unfinished = textsink::abort_message(AbortReason::Unfinished, "t");
    let violation = textsink::abort_message(AbortReason::InvariantViolation, "t");
    let unsupported = textsink::abort_message(AbortReason::Unsupported, "t");
    assert_eq!(unfinished, "not yet implemented: t");
    assert_eq!(violation, "internal error: entered unreachable code: t");
    assert_eq!(unsupported, "not implemented: t");
    assert!(unfinished.ends_with("t"));
    assert!(violation.ends_with("t"));
}

#[test]
fn interpolated_text_round_trips() {
    let mut v = String::from("x=");
    v.push_str(&5u64.render());
    assert_eq!(v, "x=5");
    assert_eq!(v.render(), "x=5");
}

#[test]
fn stream_operations_accept_any_renderable() {
    let v = String::from("hello");
    textsink::print(&v);
    textsink::println(&v);
    textsink::eprint(&v);
    textsink::eprintln(&v);
    41u64.print();
    42u64.println();
    (-1i64).eprint();
    true.eprintln();
}
