use message_dispatch::iters::{f, ItemSource, Repeat};
use message_dispatch::util::invert_option_result;

#[test]
fn present_success_keeps_its_value() {
    let a: Option<Result<i32, String>> = Some(Ok(5));
    assert_eq!(invert_option_result(a), Ok(Some(5)));
}

#[test]
fn present_failure_stays_a_failure() {
    let a: Option<Result<i32, String>> = Some(Err("bad".to_owned()));
    assert_eq!(invert_option_result(a), Err("bad".to_owned()));
}

#[test]
fn absent_value_is_success() {
    let a: Option<Result<i32, String>> = None;
    assert_eq!(invert_option_result(a), Ok(None));
}

#[test]
fn take_cuts_a_repeating_source() {
    let mut it = Repeat { item: 5i32 }.take(2);
    assert_eq!(it.next(), Some(5));
    assert_eq!(it.next(), Some(5));
    assert_eq!(it.next(), None);
    assert_eq!(it.next(), None);
}

#[test]
fn f_runs() {
    f();
}
