use ntest::checks;
use ntest::outcome::BodyResult;

#[test]
fn assert_true() {
    assert!(checks::assert_true(true).is_ok());
}

#[test]
fn assert_true_trailing_comma() {
    assert!(checks::assert_true(true).is_ok());
}

#[test]
fn assert_false() {
    assert!(checks::assert_false(false).is_ok());
}

#[test]
fn assert_false_trailing_comma() {
    assert!(checks::assert_false(false).is_ok());
}

#[test]
fn assert_panics() {
    let captured = BodyResult::<()>::Panicked(String::from("I am panicing!"));
    assert!(checks::assert_panics(&captured).is_ok());
}

#[test]
fn assert_panics_trailing_comma() {
    let captured = BodyResult::<()>::Panicked(String::from("I am panicing!"));
    assert!(checks::assert_panics(&captured).is_ok());
}

#[test]
fn assert_true_rejects_false_with_message() {
    let r = checks::assert_true(false);
    assert_eq!(
        r.unwrap_err(),
        "assertion failed: Expected 'true', but was 'false'"
    );
}

#[test]
fn assert_false_rejects_true_with_message() {
    let r = checks::assert_false(true);
    assert_eq!(
        r.unwrap_err(),
        "assertion failed: Expected 'false', but was 'true'"
    );
}

#[test]
fn assert_panics_rejects_value_with_message() {
    let finished = BodyResult::<u32>::Value(3);
    let r = checks::assert_panics(&finished);
    assert_eq!(r.unwrap_err(), "assertion failed: code in block did not panic");
}
