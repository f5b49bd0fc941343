use sidecar_supervisor::text::{join_text, push_integer, render_optional};

#[test]
fn none_is_shown_as_none() {
    assert_eq!(render_optional(None), "None");
}

#[test]
fn zero_is_shown_inside_some() {
    assert_eq!(render_optional(Some(0)), "Some(0)");
}

#[test]
fn single_and_multiple_digits() {
    assert_eq!(render_optional(Some(7)), "Some(7)");
    assert_eq!(render_optional(Some(10)), "Some(10)");
    assert_eq!(render_optional(Some(101)), "Some(101)");
    assert_eq!(render_optional(Some(9009)), "Some(9009)");
}

#[test]
fn negative_numbers_carry_a_minus_sign() {
    assert_eq!(render_optional(Some(-1)), "Some(-1)");
    assert_eq!(render_optional(Some(-130)), "Some(-130)");
}

#[test]
fn extremes_of_the_range() {
    assert_eq!(render_optional(Some(i32::MAX)), "Some(2147483647)");
    assert_eq!(render_optional(Some(i32::MIN)), "Some(-2147483648)");
}

#[test]
fn rendering_agrees_with_debug_formatting() {
    let samples: Vec<i32> = vec![0, 1, -1, 9, 10, 11, 99, 100, 255, -255, 65536, i32::MAX, i32::MIN];
    for i in samples {
        assert_eq!(render_optional(Some(i)), format!("{:?}", Some(i)));
    }
    assert_eq!(render_optional(None), format!("{:?}", None::<i32>));
}

#[test]
fn push_integer_appends_to_what_is_there() {
    let mut s = String::from("code ");
    push_integer(&mut s, 42);
    assert_eq!(s, "code 42");
    push_integer(&mut s, -3);
    assert_eq!(s, "code 42-3");
}

#[test]
fn concat_joins_head_and_tail() {
    assert_eq!(join_text("ab", "cd"), "abcd");
    assert_eq!(join_text("", "x"), "x");
    assert_eq!(join_text("x", ""), "x");
}
