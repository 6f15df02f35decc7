use ntest::cases::{
    calculate_test_name, collect_function_arg_idents, collect_test_descriptions,
    parse_test_case_attributes, test_case, CaseError, FnArg, FnModel, FnPat, TestCaseAttributes,
};
use ntest::ident::{lit_to_str, number_to_identifier, string_to_identifier};
use ntest::meta::{AttrArg, AttrPath, LitValue, MetaItem};

fn path(name: &str) -> AttrPath {
    AttrPath {
        segments: vec![String::from(name)],
    }
}

fn int_lit(digits: &str) -> AttrArg {
    AttrArg::Lit(LitValue::Int(String::from(digits)))
}

#[test]
fn number_to_identifier_keeps_digits_and_escapes_the_point() {
    assert_eq!(number_to_identifier("42"), "42");
    assert_eq!(number_to_identifier("1.2"), "1d2");
    assert_eq!(number_to_identifier("13.0.7"), "13d0d7");
}

#[test]
fn string_to_identifier_escapes_everything_but_ascii_alphanumerics() {
    assert_eq!(string_to_identifier("true"), "true");
    assert_eq!(string_to_identifier("Abc09z"), "Abc09z");
    assert_eq!(string_to_identifier("I am a string#"), "I_am_a_string_");
}

#[test]
fn lit_to_str_renders_each_supported_kind() {
    assert_eq!(lit_to_str(&LitValue::Bool(true)), "true");
    assert_eq!(lit_to_str(&LitValue::Bool(false)), "false");
    assert_eq!(lit_to_str(&LitValue::Str(String::from("abc def"))), "abc_def");
    assert_eq!(lit_to_str(&LitValue::Int(String::from("13"))), "13");
    assert_eq!(lit_to_str(&LitValue::Float(String::from("1.2"))), "1d2");
}

#[test]
fn test_name_appends_one_fragment_per_literal() {
    let attrs = TestCaseAttributes {
        literals: vec![LitValue::Int(String::from("13"))],
        custom_name: None,
    };
    assert_eq!(calculate_test_name(&attrs, "one_arg").unwrap(), "one_arg_13");
    let mixed = TestCaseAttributes {
        literals: vec![
            LitValue::Bool(true),
            LitValue::Str(String::from("true")),
            LitValue::Int(String::from("1")),
        ],
        custom_name: None,
    };
    assert_eq!(
        calculate_test_name(&mixed, "test_mix").unwrap(),
        "test_mix_true_true_1"
    );
}

#[test]
fn a_custom_name_replaces_the_generated_one() {
    let attrs = TestCaseAttributes {
        literals: vec![LitValue::Int(String::from("42"))],
        custom_name: Some(String::from("my_fancy_test")),
    };
    assert_eq!(calculate_test_name(&attrs, "with_name").unwrap(), "my_fancy_test");
}

#[test]
fn an_unsupported_literal_cannot_be_rendered() {
    let attrs = TestCaseAttributes {
        literals: vec![LitValue::Unsupported],
        custom_name: None,
    };
    let e = calculate_test_name(&attrs, "one_arg").unwrap_err();
    assert_eq!(e, CaseError::UnsupportedLiteral);
    assert_eq!(
        e.message(),
        "String conversion for literal. Only bool, str, positive int, and float values are supported."
    );
}

#[test]
fn parse_collects_literals_and_the_name() {
    let args = vec![
        int_lit("42"),
        AttrArg::Meta(MetaItem::NameValue(
            path("name"),
            LitValue::Str(String::from("my fancy test")),
        )),
    ];
    let t = parse_test_case_attributes(args).unwrap();
    assert_eq!(t.literals, vec![LitValue::Int(String::from("42"))]);
    assert_eq!(t.custom_name, Some(String::from("my_fancy_test")));
}

#[test]
fn parse_rejects_a_second_name() {
    let args = vec![
        AttrArg::Meta(MetaItem::NameValue(
            path("test_name"),
            LitValue::Str(String::from("first")),
        )),
        AttrArg::Meta(MetaItem::NameValue(
            path("name"),
            LitValue::Str(String::from("second")),
        )),
    ];
    let e = parse_test_case_attributes(args).unwrap_err();
    assert_eq!(e, CaseError::DuplicateName);
    assert_eq!(e.message(), "Test name can only be defined once.");
}

#[test]
fn parse_rejects_paths_lists_and_unknown_pairs() {
    let e = parse_test_case_attributes(vec![AttrArg::Meta(MetaItem::Path(path("x")))])
        .unwrap_err();
    assert_eq!(e, CaseError::PathArgument);
    assert_eq!(e.message(), "Path not expected.");
    let e = parse_test_case_attributes(vec![AttrArg::Meta(MetaItem::List(path("x"), vec![]))])
        .unwrap_err();
    assert_eq!(e, CaseError::ListArgument);
    let e = parse_test_case_attributes(vec![AttrArg::Meta(MetaItem::NameValue(
        path("label"),
        LitValue::Str(String::from("x")),
    ))])
    .unwrap_err();
    assert_eq!(e, CaseError::UnexpectedIdentifier(String::from("label")));
    assert_eq!(e.message(), "Unexpected identifier 'label'");
    let e = parse_test_case_attributes(vec![AttrArg::Meta(MetaItem::NameValue(
        path("name"),
        LitValue::Int(String::from("3")),
    ))])
    .unwrap_err();
    assert_eq!(e, CaseError::NameNotString);
}

#[test]
fn arg_idents_come_back_in_order() {
    let args = vec![
        FnArg::Typed(FnPat::Ident(String::from("x"))),
        FnArg::Typed(FnPat::Ident(String::from("y"))),
    ];
    assert_eq!(
        collect_function_arg_idents(args).unwrap(),
        vec![String::from("x"), String::from("y")]
    );
    let e = collect_function_arg_idents(vec![FnArg::Receiver]).unwrap_err();
    assert_eq!(e, CaseError::ReceiverArg);
    let e = collect_function_arg_idents(vec![FnArg::Typed(FnPat::Other)]).unwrap_err();
    assert_eq!(e, CaseError::UnexpectedFnIdent);
}

#[test]
fn descriptions_split_by_directive_and_keep_following_attributes() {
    let fn_attrs = vec![
        MetaItem::Path(path("ignore")),
        MetaItem::List(path("test_case"), vec![int_lit("15")]),
        MetaItem::List(
            path("should_panic"),
            vec![AttrArg::Meta(MetaItem::NameValue(
                path("expected"),
                LitValue::Str(String::from("I am panicing")),
            ))],
        ),
    ];
    let descs = collect_test_descriptions(
        &String::from("attributes_test_case"),
        fn_attrs,
        vec![int_lit("18")],
    )
    .unwrap();
    assert_eq!(descs.len(), 2);
    assert_eq!(descs[0].name, "attributes_test_case_18");
    assert_eq!(descs[0].literals, vec![LitValue::Int(String::from("18"))]);
    assert_eq!(descs[0].attributes, vec![MetaItem::Path(path("ignore"))]);
    assert_eq!(descs[1].name, "attributes_test_case_15");
    assert_eq!(descs[1].literals, vec![LitValue::Int(String::from("15"))]);
    assert_eq!(descs[1].attributes.len(), 1);
}

#[test]
fn a_bare_test_case_attribute_needs_arguments() {
    let fn_attrs = vec![MetaItem::Path(path("test_case"))];
    let e = collect_test_descriptions(&String::from("f"), fn_attrs, vec![int_lit("1")])
        .unwrap_err();
    assert_eq!(e, CaseError::TestCaseWithoutArgs);
    assert_eq!(
        e.message(),
        "Test case attributes need at least one argument such as #[test_case(42)]."
    );
}

#[test]
fn a_multi_segment_path_is_no_identifier() {
    let two = AttrPath {
        segments: vec![String::from("a"), String::from("b")],
    };
    let fn_attrs = vec![MetaItem::Path(two)];
    let e = collect_test_descriptions(&String::from("f"), fn_attrs, vec![int_lit("1")])
        .unwrap_err();
    assert_eq!(e, CaseError::ExpectedIdentifier);
    assert_eq!(e.message(), "Expected identifier!");
}

#[test]
fn the_plan_pairs_each_case_with_the_arguments() {
    let input = FnModel {
        name: String::from("one_arg"),
        args: vec![FnArg::Typed(FnPat::Ident(String::from("x")))],
        attrs: vec![MetaItem::List(path("test_case"), vec![int_lit("42")])],
    };
    let plan = test_case(input, vec![int_lit("13")]).unwrap();
    assert_eq!(plan.arg_idents, vec![String::from("x")]);
    assert_eq!(plan.cases.len(), 2);
    assert_eq!(plan.cases[0].name, "one_arg_13");
    assert_eq!(plan.cases[1].name, "one_arg_42");
}

#[test]
fn float_literals_name_tests_with_an_escaped_point() {
    let attrs = TestCaseAttributes {
        literals: vec![LitValue::Float(String::from("1.2"))],
        custom_name: None,
    };
    assert_eq!(calculate_test_name(&attrs, "test_f64").unwrap(), "test_f64_1d2");
}

#[test]
fn a_literal_count_mismatch_is_rejected() {
    let input = FnModel {
        name: String::from("one_arg"),
        args: vec![
            FnArg::Typed(FnPat::Ident(String::from("x"))),
            FnArg::Typed(FnPat::Ident(String::from("y"))),
        ],
        attrs: vec![],
    };
    let e = test_case(input, vec![int_lit("13")]).unwrap_err();
    assert_eq!(e, CaseError::ArgumentMismatch);
    assert_eq!(
        e.message(),
        "Test case arguments and function input signature mismatch."
    );
}
