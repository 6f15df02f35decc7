use ntest::directive::{
    check_other_attributes, get_timeout, timeout, validate_directives, ConfigError,
};
use ntest::meta::{AttrArg, AttrPath, LitValue, MetaItem};

fn path(name: &str) -> AttrPath {
    AttrPath {
        segments: vec![String::from(name)],
    }
}

fn timeout_directive(ms: &str) -> MetaItem {
    MetaItem::List(
        path("timeout"),
        vec![AttrArg::Lit(LitValue::Int(String::from(ms)))],
    )
}

#[test]
fn get_timeout_reads_a_positive_integer() {
    let args = vec![AttrArg::Lit(LitValue::Int(String::from("10")))];
    assert_eq!(get_timeout(&args), Ok(10));
    let large = vec![AttrArg::Lit(LitValue::Int(String::from("18446744073709551615")))];
    assert_eq!(get_timeout(&large), Ok(u64::MAX));
}

#[test]
fn get_timeout_rejects_two_arguments() {
    let args = vec![
        AttrArg::Lit(LitValue::Int(String::from("10"))),
        AttrArg::Lit(LitValue::Int(String::from("20"))),
    ];
    let e = get_timeout(&args).unwrap_err();
    assert_eq!(e, ConfigError::TooManyArguments);
    assert_eq!(e.message(), "Only one integer expected. Example: #[timeout(10)]");
}

#[test]
fn get_timeout_rejects_an_empty_argument_list() {
    let args: Vec<AttrArg> = vec![];
    let e = get_timeout(&args).unwrap_err();
    assert_eq!(e, ConfigError::NoArgument);
    assert_eq!(e.message(), "Integer expected. Example: #[timeout(10)]");
}

#[test]
fn get_timeout_rejects_a_meta_argument() {
    let args = vec![AttrArg::Meta(MetaItem::Path(path("slow")))];
    let e = get_timeout(&args).unwrap_err();
    assert_eq!(e, ConfigError::NotInteger);
    assert_eq!(e.message(), "Integer expected. Example: #[timeout(10)]");
}

#[test]
fn get_timeout_rejects_a_non_integer_literal() {
    let args = vec![AttrArg::Lit(LitValue::Str(String::from("10")))];
    let e = get_timeout(&args).unwrap_err();
    assert_eq!(e, ConfigError::NotIntegerLit);
    assert_eq!(
        e.message(),
        "Integer as timeout in ms expected. Example: #[timeout(10)]"
    );
}

#[test]
fn get_timeout_rejects_bad_digits_and_overflow() {
    let bad = vec![AttrArg::Lit(LitValue::Int(String::from("1x0")))];
    let e = get_timeout(&bad).unwrap_err();
    assert_eq!(e, ConfigError::InvalidInteger);
    assert_eq!(e.message(), "Integer expected");
    let too_big = vec![AttrArg::Lit(LitValue::Int(String::from("18446744073709551616")))];
    assert_eq!(get_timeout(&too_big).unwrap_err(), ConfigError::InvalidInteger);
}

#[test]
fn get_timeout_rejects_a_zero_deadline() {
    let args = vec![AttrArg::Lit(LitValue::Int(String::from("0")))];
    let e = get_timeout(&args).unwrap_err();
    assert_eq!(e, ConfigError::ZeroDeadline);
    assert_eq!(e.message(), "Integer must be a positive number of milliseconds");
}

#[test]
fn a_second_timeout_attribute_is_rejected() {
    let others = vec![
        MetaItem::Path(path("test")),
        timeout_directive("100"),
    ];
    let e = check_other_attributes(&others).unwrap_err();
    assert_eq!(e, ConfigError::Duplicate);
    assert_eq!(e.message(), "Timeout attribute is only allowed once");
}

#[test]
fn unrelated_attributes_pass_the_duplicate_check() {
    let others = vec![
        MetaItem::Path(path("test")),
        MetaItem::Path(path("ignore")),
        MetaItem::NameValue(path("should_panic"), LitValue::Str(String::from("402"))),
    ];
    assert!(check_other_attributes(&others).is_ok());
}

#[test]
fn timeout_setup_reads_the_deadline_beside_other_attributes() {
    let args = vec![AttrArg::Lit(LitValue::Int(String::from("300")))];
    let others = vec![MetaItem::Path(path("test")), MetaItem::Path(path("ignore"))];
    assert_eq!(timeout(&args, &others), Ok(300));
}

#[test]
fn timeout_setup_reports_the_argument_error_first() {
    let args = vec![AttrArg::Lit(LitValue::Str(String::from("oops")))];
    let others = vec![timeout_directive("100")];
    assert_eq!(timeout(&args, &others).unwrap_err(), ConfigError::NotIntegerLit);
}

#[test]
fn two_timeout_directives_on_one_item_fail_at_setup() {
    // Two directives attached to one work item: the configuration is
    // rejected before any work item is constructed or executed.
    let attrs = vec![
        MetaItem::Path(path("test")),
        timeout_directive("100"),
        timeout_directive("200"),
    ];
    let e = validate_directives(&attrs).unwrap_err();
    assert_eq!(e, ConfigError::Duplicate);
}

#[test]
fn exactly_one_timeout_directive_is_read() {
    let attrs = vec![
        MetaItem::Path(path("test")),
        timeout_directive("250"),
        MetaItem::Path(path("ignore")),
    ];
    assert_eq!(validate_directives(&attrs), Ok(250));
}

#[test]
fn zero_timeout_directives_fail_at_setup() {
    let attrs = vec![MetaItem::Path(path("test"))];
    let e = validate_directives(&attrs).unwrap_err();
    assert_eq!(e, ConfigError::Missing);
    assert_eq!(e.message(), "Timeout attribute expected");
}

#[test]
fn a_bare_timeout_directive_has_no_argument() {
    let attrs = vec![MetaItem::Path(path("timeout"))];
    assert_eq!(validate_directives(&attrs).unwrap_err(), ConfigError::NoArgument);
}
