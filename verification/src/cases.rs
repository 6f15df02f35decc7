//! Test-case planning: from a test function's model and the literal
//! argument lists attached to it, compute the set of generated test
//! functions — their names, their bindings and their passed-through
//! attributes — or reject the configuration at setup time.

use crate::ident::{spec_lit_to_str, spec_string_to_identifier, lit_to_str};
use crate::meta::{lit_wf, spec_path_ident, AttrArg, LitValue, MetaItem};
use vstd::prelude::*;

verus! {

/// A model of the test function the attribute stands on: its name, its
/// arguments, and the attributes that follow the first test-case
/// directive.
#[derive(Debug, PartialEq, Eq)]
pub struct FnModel {
    pub name: String,
    pub args: Vec<FnArg>,
    pub attrs: Vec<MetaItem>,
}

/// One argument of the test function.
#[derive(Debug, PartialEq, Eq)]
pub enum FnArg {
    /// An ordinary typed argument with its pattern.
    Typed(FnPat),
    /// A `self` receiver.
    Receiver,
}

/// The pattern an argument binds.
#[derive(Debug, PartialEq, Eq)]
pub enum FnPat {
    /// A plain identifier.
    Ident(String),
    /// Anything else.
    Other,
}

/// Why a test-case configuration was rejected at setup time.
#[derive(Debug, PartialEq, Eq)]
pub enum CaseError {
    /// A bare path stood among the test-case arguments.
    PathArgument,
    /// A nested list stood among the test-case arguments.
    ListArgument,
    /// A path where a single identifier was expected.
    ExpectedIdentifier,
    /// The test name was given more than once.
    DuplicateName,
    /// The test name was given as something other than a string.
    NameNotString,
    /// A `name = value` argument with an identifier the toolkit does not
    /// know; carries that identifier.
    UnexpectedIdentifier(String),
    /// A test-case directive without arguments.
    TestCaseWithoutArgs,
    /// A literal of a kind that cannot be rendered into a test name.
    UnsupportedLiteral,
    /// A function argument whose pattern is not a plain identifier.
    UnexpectedFnIdent,
    /// A `self` receiver on a test function.
    ReceiverArg,
    /// A test case whose literal count differs from the function's
    /// argument count.
    ArgumentMismatch,
}

/// The message each case error reports.
pub open spec fn spec_case_error_message(e: CaseError) -> Seq<char> {
    match e {
        CaseError::PathArgument => "Path not expected."@,
        CaseError::ListArgument => "Metalist not expected."@,
        CaseError::ExpectedIdentifier => "Expected identifier!"@,
        CaseError::DuplicateName => "Test name can only be defined once."@,
        CaseError::NameNotString => "Unexpected type for test name. Expected string."@,
        CaseError::UnexpectedIdentifier(id) => "Unexpected identifier '"@ + id@ + "'"@,
        CaseError::TestCaseWithoutArgs => "Test case attributes need at least one argument such as #[test_case(42)]."@,
        CaseError::UnsupportedLiteral => "String conversion for literal. Only bool, str, positive int, and float values are supported."@,
        CaseError::UnexpectedFnIdent => "Unexpected function identifier."@,
        CaseError::ReceiverArg => "Receiver function not expected for test case attribute."@,
        CaseError::ArgumentMismatch => "Test case arguments and function input signature mismatch."@,
    }
}

impl CaseError {
    /// The message this case error reports.
    pub fn message(&self) -> (m: String)
        ensures
            m@ == spec_case_error_message(*self),
    {
        match self {
            CaseError::PathArgument => String::from_str("Path not expected."),
            CaseError::ListArgument => String::from_str("Metalist not expected."),
            CaseError::ExpectedIdentifier => String::from_str("Expected identifier!"),
            CaseError::DuplicateName => String::from_str("Test name can only be defined once."),
            CaseError::NameNotString => String::from_str(
                "Unexpected type for test name. Expected string.",
            ),
            CaseError::UnexpectedIdentifier(id) => {
                let mut m = String::from_str("Unexpected identifier '");
                m.append(id.as_str());
                m.append("'");
                proof {
                    assert(m@ =~= spec_case_error_message(*self));
                }
                m
            },
            CaseError::TestCaseWithoutArgs => String::from_str(
                "Test case attributes need at least one argument such as #[test_case(42)].",
            ),
            CaseError::UnsupportedLiteral => String::from_str(
                "String conversion for literal. Only bool, str, positive int, and float values are supported.",
            ),
            CaseError::UnexpectedFnIdent => String::from_str("Unexpected function identifier."),
            CaseError::ReceiverArg => String::from_str(
                "Receiver function not expected for test case attribute.",
            ),
            CaseError::ArgumentMismatch => String::from_str(
                "Test case arguments and function input signature mismatch.",
            ),
        }
    }
}

/// What one generated test consists of: the literals bound to the
/// function's arguments, the generated function name, and the attributes
/// passed through to it.
#[derive(Debug, PartialEq, Eq)]
pub struct TestDescription {
    pub literals: Vec<LitValue>,
    pub name: String,
    pub attributes: Vec<MetaItem>,
}

/// The mathematical model of one test description.
pub ghost struct DescView {
    pub literals: Seq<LitValue>,
    pub name: Seq<char>,
    pub attributes: Seq<MetaItem>,
}

impl View for TestDescription {
    type V = DescView;

    open spec fn view(&self) -> DescView {
        DescView { literals: self.literals@, name: self.name@, attributes: self.attributes@ }
    }
}

/// The views of a sequence of test descriptions.
pub open spec fn views_of(s: Seq<TestDescription>) -> Seq<DescView> {
    s.map_values(|d: TestDescription| d@)
}

/// The identifiers of the function's arguments, or why they are rejected:
/// each argument must be an ordinary typed argument binding a plain
/// identifier.  Processing is in order; the first offending argument
/// decides the error.
pub open spec fn spec_collect_arg_idents(args: Seq<FnArg>) -> Result<Seq<Seq<char>>, CaseError>
    decreases args.len(),
{
    if args.len() == 0 {
        Ok(Seq::empty())
    } else {
        match spec_collect_arg_idents(args.drop_last()) {
            Err(e) => Err(e),
            Ok(idents) => match args.last() {
                FnArg::Typed(FnPat::Ident(s)) => Ok(idents.push(s@)),
                FnArg::Typed(FnPat::Other) => Err(CaseError::UnexpectedFnIdent),
                FnArg::Receiver => Err(CaseError::ReceiverArg),
            },
        }
    }
}

/// The views of a sequence of identifier strings.
pub open spec fn ident_views_of(s: Seq<String>) -> Seq<Seq<char>> {
    s.map_values(|x: String| x@)
}

/// Collect the identifiers the function's arguments bind, in order.
#[verifier::loop_isolation(false)]
pub fn collect_function_arg_idents(args: Vec<FnArg>) -> (r: Result<Vec<String>, CaseError>)
    ensures
        r matches Ok(v) ==> spec_collect_arg_idents(args@) == Ok::<_, CaseError>(
            ident_views_of(v@),
        ),
        r matches Err(e) ==> spec_collect_arg_idents(args@) == Err::<Seq<Seq<char>>, _>(e),
{
    let ghost orig = args@;
    let mut rest = args;
    let mut idents: Vec<String> = Vec::new();
    proof {
        assert(orig.subrange(0, 0) =~= Seq::<FnArg>::empty());
        assert(ident_views_of(idents@) =~= Seq::<Seq<char>>::empty());
        assert(rest@ =~= orig.subrange(0, orig.len() as int));
    }
    while rest.len() > 0
        invariant
            rest@.len() <= orig.len(),
            rest@ =~= orig.subrange(orig.len() - rest@.len(), orig.len() as int),
            spec_collect_arg_idents(orig.subrange(0, orig.len() - rest@.len())) == Ok::<
                _,
                CaseError,
            >(ident_views_of(idents@)),
        decreases rest.len(),
    {
        let ghost i = orig.len() - rest@.len();
        let a = rest.remove(0);
        proof {
            assert(a == orig[i as int]);
            assert(orig.subrange(0, i + 1).drop_last() =~= orig.subrange(0, i as int));
            assert(orig.subrange(0, i + 1).last() == orig[i as int]);
            assert(rest@ =~= orig.subrange(i + 1, orig.len() as int));
        }
        match a {
            FnArg::Typed(FnPat::Ident(s)) => {
                let ghost old_views = ident_views_of(idents@);
                idents.push(s);
                proof {
                    assert(ident_views_of(idents@) =~= old_views.push(idents@.last()@));
                    assert(spec_collect_arg_idents(orig.subrange(0, i + 1)) == Ok::<
                        _,
                        CaseError,
                    >(ident_views_of(idents@)));
                }
            },
            FnArg::Typed(FnPat::Other) => {
                proof {
                    assert(spec_collect_arg_idents(orig.subrange(0, i + 1)) == Err::<
                        Seq<Seq<char>>,
                        CaseError,
                    >(CaseError::UnexpectedFnIdent));
                    lemma_collect_arg_idents_error_persists(orig, i + 1);
                }
                return Err(CaseError::UnexpectedFnIdent);
            },
            FnArg::Receiver => {
                proof {
                    assert(spec_collect_arg_idents(orig.subrange(0, i + 1)) == Err::<
                        Seq<Seq<char>>,
                        CaseError,
                    >(CaseError::ReceiverArg));
                    lemma_collect_arg_idents_error_persists(orig, i + 1);
                }
                return Err(CaseError::ReceiverArg);
            },
        }
    }
    proof {
        assert(orig.subrange(0, orig.len() as int) =~= orig);
    }
    Ok(idents)
}

/// An error in a prefix of the argument list decides the whole list.
pub proof fn lemma_collect_arg_idents_error_persists(args: Seq<FnArg>, j: int)
    requires
        0 <= j <= args.len(),
        spec_collect_arg_idents(args.subrange(0, j)) is Err,
    ensures
        spec_collect_arg_idents(args) == spec_collect_arg_idents(args.subrange(0, j)),
    decreases args.len() - j,
{
    if j < args.len() {
        assert(args.subrange(0, j + 1).drop_last() =~= args.subrange(0, j));
        lemma_collect_arg_idents_error_persists(args, j + 1);
    } else {
        assert(args.subrange(0, j) =~= args);
    }
}

/// The literals and the optional custom name one test-case argument list
/// carries.
#[derive(Debug, PartialEq, Eq)]
pub struct TestCaseAttributes {
    pub literals: Vec<LitValue>,
    pub custom_name: Option<String>,
}

/// The view of an optional string.
pub open spec fn opt_str_view(o: Option<String>) -> Option<Seq<char>> {
    match o {
        Option::Some(s) => Some(s@),
        Option::None => None,
    }
}

/// How one argument of a test-case directive advances the parse: a literal
/// joins the literal list, a `name = "..."` pair sets the custom name
/// (escaped, and at most once), and everything else is rejected.
pub open spec fn spec_parse_tc_step(
    st: (Seq<LitValue>, Option<Seq<char>>),
    a: AttrArg,
) -> Result<(Seq<LitValue>, Option<Seq<char>>), CaseError> {
    match a {
        AttrArg::Meta(m) => match m {
            MetaItem::Path(_) => Err(CaseError::PathArgument),
            MetaItem::List(_, _) => Err(CaseError::ListArgument),
            MetaItem::NameValue(p, lit) => match spec_path_ident(p) {
                Option::None => Err(CaseError::ExpectedIdentifier),
                Option::Some(id) => if id == "test_name"@ || id == "name"@ {
                    if st.1 is Some {
                        Err(CaseError::DuplicateName)
                    } else {
                        match lit {
                            LitValue::Str(s) => Ok(
                                (st.0, Some(spec_string_to_identifier(s@))),
                            ),
                            _ => Err(CaseError::NameNotString),
                        }
                    }
                } else {
                    Err(CaseError::UnexpectedIdentifier(p.segments@[0]))
                },
            },
        },
        AttrArg::Lit(lit) => Ok((st.0.push(lit), st.1)),
    }
}

/// What a test-case directive's argument list parses to, processing the
/// arguments in order; the first offending argument decides the error.
pub open spec fn spec_parse_test_case_attributes(args: Seq<AttrArg>) -> Result<
    (Seq<LitValue>, Option<Seq<char>>),
    CaseError,
>
    decreases args.len(),
{
    if args.len() == 0 {
        Ok((Seq::empty(), None))
    } else {
        match spec_parse_test_case_attributes(args.drop_last()) {
            Err(e) => Err(e),
            Ok(st) => spec_parse_tc_step(st, args.last()),
        }
    }
}

/// An error in a prefix of the argument list decides the whole list.
pub proof fn lemma_parse_tc_error_persists(args: Seq<AttrArg>, j: int)
    requires
        0 <= j <= args.len(),
        spec_parse_test_case_attributes(args.subrange(0, j)) is Err,
    ensures
        spec_parse_test_case_attributes(args) == spec_parse_test_case_attributes(
            args.subrange(0, j),
        ),
    decreases args.len() - j,
{
    if j < args.len() {
        assert(args.subrange(0, j + 1).drop_last() =~= args.subrange(0, j));
        lemma_parse_tc_error_persists(args, j + 1);
    } else {
        assert(args.subrange(0, j) =~= args);
    }
}

/// Parse the arguments of one test-case directive: its literals, in order,
/// and its custom name if one is given.
#[verifier::loop_isolation(false)]
pub fn parse_test_case_attributes(attr: Vec<AttrArg>) -> (r: Result<TestCaseAttributes, CaseError>)
    ensures
        r matches Ok(t) ==> spec_parse_test_case_attributes(attr@) == Ok::<_, CaseError>(
            (t.literals@, opt_str_view(t.custom_name)),
        ),
        r matches Err(e) ==> spec_parse_test_case_attributes(attr@) == Err::<
            (Seq<LitValue>, Option<Seq<char>>),
            _,
        >(e),
{
    let ghost orig = attr@;
    let mut rest = attr;
    let mut literals: Vec<LitValue> = Vec::new();
    let mut custom_name: Option<String> = None;
    proof {
        assert(orig.subrange(0, 0) =~= Seq::<AttrArg>::empty());
        assert(literals@ =~= Seq::<LitValue>::empty());
        assert(rest@ =~= orig.subrange(0, orig.len() as int));
    }
    while rest.len() > 0
        invariant
            rest@.len() <= orig.len(),
            rest@ =~= orig.subrange(orig.len() - rest@.len(), orig.len() as int),
            spec_parse_test_case_attributes(orig.subrange(0, orig.len() - rest@.len())) == Ok::<
                _,
                CaseError,
            >((literals@, opt_str_view(custom_name))),
        decreases rest.len(),
    {
        let ghost i = orig.len() - rest@.len();
        let ghost st = (literals@, opt_str_view(custom_name));
        let a = rest.remove(0);
        proof {
            assert(a == orig[i as int]);
            assert(orig.subrange(0, i + 1).drop_last() =~= orig.subrange(0, i as int));
            assert(orig.subrange(0, i + 1).last() == orig[i as int]);
            assert(rest@ =~= orig.subrange(i + 1, orig.len() as int));
        }
        match a {
            AttrArg::Meta(m) => {
                match m {
                    MetaItem::Path(_) => {
                        proof {
                            lemma_parse_tc_error_persists(orig, i + 1);
                        }
                        return Err(CaseError::PathArgument);
                    },
                    MetaItem::List(_, _) => {
                        proof {
                            lemma_parse_tc_error_persists(orig, i + 1);
                        }
                        return Err(CaseError::ListArgument);
                    },
                    MetaItem::NameValue(p, lit) => {
                        let mut segments = p.segments;
                        if segments.len() != 1 {
                            proof {
                                lemma_parse_tc_error_persists(orig, i + 1);
                            }
                            return Err(CaseError::ExpectedIdentifier);
                        }
                        let id = segments.remove(0);
                        if crate::text::str_eq(id.as_str(), "test_name") || crate::text::str_eq(
                            id.as_str(),
                            "name",
                        ) {
                            if custom_name.is_some() {
                                proof {
                                    lemma_parse_tc_error_persists(orig, i + 1);
                                }
                                return Err(CaseError::DuplicateName);
                            }
                            match lit {
                                LitValue::Str(s) => {
                                    custom_name = Some(
                                        crate::ident::string_to_identifier(s.as_str()),
                                    );
                                },
                                _ => {
                                    proof {
                                        lemma_parse_tc_error_persists(orig, i + 1);
                                    }
                                    return Err(CaseError::NameNotString);
                                },
                            }
                        } else {
                            proof {
                                lemma_parse_tc_error_persists(orig, i + 1);
                            }
                            return Err(CaseError::UnexpectedIdentifier(id));
                        }
                    },
                }
            },
            AttrArg::Lit(lit) => {
                literals.push(lit);
                proof {
                    assert(literals@ =~= st.0.push(literals@.last()));
                }
            },
        }
        proof {
            assert(spec_parse_test_case_attributes(orig.subrange(0, i + 1)) == Ok::<
                _,
                CaseError,
            >((literals@, opt_str_view(custom_name))));
        }
    }
    proof {
        assert(orig.subrange(0, orig.len() as int) =~= orig);
    }
    Ok(TestCaseAttributes { literals, custom_name })
}

/// Whether every literal can be rendered into a test name.
pub open spec fn all_lits_supported(lits: Seq<LitValue>) -> bool {
    forall|i: int|
        0 <= i < lits.len() ==> lit_wf(#[trigger] lits[i]) && !(lits[i] is Unsupported)
}

/// The suffix a literal list appends to a test name: one underscore-led
/// fragment per literal, in order.
pub open spec fn spec_name_suffix(lits: Seq<LitValue>) -> Seq<char>
    decreases lits.len(),
{
    if lits.len() == 0 {
        Seq::empty()
    } else {
        spec_name_suffix(lits.drop_last()) + seq!['_'] + spec_lit_to_str(lits.last())
    }
}

/// The name one generated test gets: the custom name if one was given, and
/// otherwise the function's own name followed by one escaped fragment per
/// literal.  Without a custom name, every literal must be renderable.
pub open spec fn spec_calculate_test_name(
    lits: Seq<LitValue>,
    custom: Option<Seq<char>>,
    fn_name: Seq<char>,
) -> Result<Seq<char>, CaseError> {
    match custom {
        Option::Some(n) => Ok(n),
        Option::None => if all_lits_supported(lits) {
            Ok(fn_name + spec_name_suffix(lits))
        } else {
            Err(CaseError::UnsupportedLiteral)
        },
    }
}

/// Calculate the name of one generated test.
#[verifier::loop_isolation(false)]
pub fn calculate_test_name(attr: &TestCaseAttributes, fn_name: &str) -> (r: Result<
    String,
    CaseError,
>)
    ensures
        r matches Ok(n) ==> spec_calculate_test_name(
            attr.literals@,
            opt_str_view(attr.custom_name),
            fn_name@,
        ) == Ok::<_, CaseError>(n@),
        r matches Err(e) ==> spec_calculate_test_name(
            attr.literals@,
            opt_str_view(attr.custom_name),
            fn_name@,
        ) == Err::<Seq<char>, _>(e),
{
    match &attr.custom_name {
        Option::Some(n) => Ok(n.clone()),
        Option::None => {
            let mut name = String::from_str(fn_name);
            let total = attr.literals.len();
            let mut i: usize = 0;
            proof {
                assert(attr.literals@.subrange(0, 0) =~= Seq::<LitValue>::empty());
                assert(name@ =~= fn_name@ + spec_name_suffix(attr.literals@.subrange(0, 0)));
            }
            while i < total
                invariant
                    i <= total,
                    total == attr.literals@.len(),
                    forall|j: int|
                        0 <= j < i ==> lit_wf(#[trigger] attr.literals@[j]) && !(attr.literals@[j]
                            is Unsupported),
                    name@ == fn_name@ + spec_name_suffix(attr.literals@.subrange(0, i as int)),
                decreases total - i,
            {
                let lit = &attr.literals[i];
                if !lit.supported() {
                    return Err(CaseError::UnsupportedLiteral);
                }
                name.append("_");
                let frag = lit_to_str(lit);
                name.append(frag.as_str());
                proof {
                    assert(attr.literals@.subrange(0, i + 1).drop_last() =~= attr.literals@
                        .subrange(0, i as int));
                    assert(attr.literals@.subrange(0, i + 1).last() == attr.literals@[i as int]);
                    reveal_strlit("_");
                    assert("_"@ =~= seq!['_']);
                    assert(name@ =~= fn_name@ + spec_name_suffix(
                        attr.literals@.subrange(0, i + 1),
                    ));
                }
                i = i + 1;
            }
            proof {
                assert(attr.literals@.subrange(0, total as int) =~= attr.literals@);
            }
            Ok(name)
        },
    }
}

/// A sequence of descriptions with one attribute appended to the last one.
pub open spec fn push_attr_to_last(descs: Seq<DescView>, attr: MetaItem) -> Seq<DescView>
    recommends
        descs.len() > 0,
{
    descs.update(
        descs.len() - 1,
        DescView {
            literals: descs.last().literals,
            name: descs.last().name,
            attributes: descs.last().attributes.push(attr),
        },
    )
}

/// How one attribute of the test function advances the collection: a
/// further test-case directive opens a new description, and every other
/// attribute is passed through to the most recently opened one.
pub open spec fn spec_collect_step(
    fn_name: Seq<char>,
    descs: Seq<DescView>,
    attr: MetaItem,
) -> Result<Seq<DescView>, CaseError> {
    match attr {
        MetaItem::Path(p) => match spec_path_ident(p) {
            Option::None => Err(CaseError::ExpectedIdentifier),
            Option::Some(id) => if id == "test_case"@ {
                Err(CaseError::TestCaseWithoutArgs)
            } else {
                Ok(push_attr_to_last(descs, attr))
            },
        },
        MetaItem::List(p, args) => match spec_path_ident(p) {
            Option::None => Err(CaseError::ExpectedIdentifier),
            Option::Some(id) => if id == "test_case"@ {
                match spec_parse_test_case_attributes(args@) {
                    Err(e) => Err(e),
                    Ok(st) => match spec_calculate_test_name(st.0, st.1, fn_name) {
                        Err(e) => Err(e),
                        Ok(nm) => Ok(
                            descs.push(
                                DescView { literals: st.0, name: nm, attributes: Seq::empty() },
                            ),
                        ),
                    },
                }
            } else {
                Ok(push_attr_to_last(descs, attr))
            },
        },
        MetaItem::NameValue(_, _) => Ok(push_attr_to_last(descs, attr)),
    }
}

/// The descriptions a run over the function's attributes collects, starting
/// from the ones already opened; the first offending attribute decides the
/// error.
pub open spec fn spec_collect_descs(
    fn_name: Seq<char>,
    descs0: Seq<DescView>,
    attrs: Seq<MetaItem>,
) -> Result<Seq<DescView>, CaseError>
    decreases attrs.len(),
{
    if attrs.len() == 0 {
        Ok(descs0)
    } else {
        match spec_collect_descs(fn_name, descs0, attrs.drop_last()) {
            Err(e) => Err(e),
            Ok(ds) => spec_collect_step(fn_name, ds, attrs.last()),
        }
    }
}

/// An error in a prefix of the attribute list decides the whole list.
pub proof fn lemma_collect_descs_error_persists(
    fn_name: Seq<char>,
    descs0: Seq<DescView>,
    attrs: Seq<MetaItem>,
    j: int,
)
    requires
        0 <= j <= attrs.len(),
        spec_collect_descs(fn_name, descs0, attrs.subrange(0, j)) is Err,
    ensures
        spec_collect_descs(fn_name, descs0, attrs) == spec_collect_descs(
            fn_name,
            descs0,
            attrs.subrange(0, j),
        ),
    decreases attrs.len() - j,
{
    if j < attrs.len() {
        assert(attrs.subrange(0, j + 1).drop_last() =~= attrs.subrange(0, j));
        lemma_collect_descs_error_persists(fn_name, descs0, attrs, j + 1);
    } else {
        assert(attrs.subrange(0, j) =~= attrs);
    }
}

/// What the whole collection comes to: the description the directive's own
/// arguments open, then one further description per test-case directive
/// among the function's attributes, with the other attributes distributed
/// to the description they follow.
pub open spec fn spec_collect_test_descriptions(
    fn_name: Seq<char>,
    fn_attrs: Seq<MetaItem>,
    macro_args: Seq<AttrArg>,
) -> Result<Seq<DescView>, CaseError> {
    match spec_parse_test_case_attributes(macro_args) {
        Err(e) => Err(e),
        Ok(st) => match spec_calculate_test_name(st.0, st.1, fn_name) {
            Err(e) => Err(e),
            Ok(nm) => spec_collect_descs(
                fn_name,
                seq![DescView { literals: st.0, name: nm, attributes: Seq::empty() }],
                fn_attrs,
            ),
        },
    }
}

/// Append one attribute to the most recently opened description.
fn push_attr(descs: &mut Vec<TestDescription>, attr: MetaItem)
    requires
        old(descs)@.len() > 0,
    ensures
        views_of(final(descs)@) == push_attr_to_last(views_of(old(descs)@), attr),
        final(descs)@.len() == old(descs)@.len(),
{
    let ghost old_views = views_of(descs@);
    let mut d = descs.pop().unwrap();
    d.attributes.push(attr);
    descs.push(d);
    proof {
        assert(views_of(descs@) =~= push_attr_to_last(old_views, attr));
    }
}

/// Collect the full set of test descriptions for one test function: the
/// directive's own arguments open the first, and each further test-case
/// directive among the function's attributes opens another.
#[verifier::loop_isolation(false)]
pub fn collect_test_descriptions(
    fn_name: &String,
    fn_attrs: Vec<MetaItem>,
    attribute_args: Vec<AttrArg>,
) -> (r: Result<Vec<TestDescription>, CaseError>)
    ensures
        r matches Ok(v) ==> spec_collect_test_descriptions(fn_name@, fn_attrs@, attribute_args@)
            == Ok::<_, CaseError>(views_of(v@)),
        r matches Err(e) ==> spec_collect_test_descriptions(fn_name@, fn_attrs@, attribute_args@)
            == Err::<Seq<DescView>, _>(e),
{
    let tca = match parse_test_case_attributes(attribute_args) {
        Ok(t) => t,
        Err(e) => {
            return Err(e);
        },
    };
    let first_name = match calculate_test_name(&tca, fn_name.as_str()) {
        Ok(n) => n,
        Err(e) => {
            return Err(e);
        },
    };
    let ghost st0: (Seq<LitValue>, Option<Seq<char>>) = (tca.literals@, opt_str_view(
        tca.custom_name,
    ));
    let ghost nm0 = first_name@;
    let mut descs: Vec<TestDescription> = Vec::new();
    descs.push(
        TestDescription { literals: tca.literals, name: first_name, attributes: Vec::new() },
    );
    let ghost d0 = views_of(descs@);
    proof {
        assert(d0 =~= seq![DescView { literals: st0.0, name: nm0, attributes: Seq::empty() }]);
        assert(spec_collect_test_descriptions(fn_name@, fn_attrs@, attribute_args@)
            == spec_collect_descs(fn_name@, d0, fn_attrs@));
    }
    let ghost orig = fn_attrs@;
    let mut rest = fn_attrs;
    proof {
        assert(orig.subrange(0, 0) =~= Seq::<MetaItem>::empty());
        assert(rest@ =~= orig.subrange(0, orig.len() as int));
    }
    while rest.len() > 0
        invariant
            rest@.len() <= orig.len(),
            rest@ =~= orig.subrange(orig.len() - rest@.len(), orig.len() as int),
            descs@.len() > 0,
            spec_collect_descs(fn_name@, d0, orig.subrange(0, orig.len() - rest@.len())) == Ok::<
                _,
                CaseError,
            >(views_of(descs@)),
        decreases rest.len(),
    {
        let ghost i = orig.len() - rest@.len();
        let ghost ds = views_of(descs@);
        let a = rest.remove(0);
        proof {
            assert(a == orig[i as int]);
            assert(orig.subrange(0, i + 1).drop_last() =~= orig.subrange(0, i as int));
            assert(orig.subrange(0, i + 1).last() == orig[i as int]);
            assert(rest@ =~= orig.subrange(i + 1, orig.len() as int));
        }
        match a {
            MetaItem::Path(p) => {
                if p.segments.len() != 1 {
                    proof {
                        lemma_collect_descs_error_persists(fn_name@, d0, orig, i + 1);
                    }
                    return Err(CaseError::ExpectedIdentifier);
                }
                if crate::text::str_eq(p.segments[0].as_str(), "test_case") {
                    proof {
                        lemma_collect_descs_error_persists(fn_name@, d0, orig, i + 1);
                    }
                    return Err(CaseError::TestCaseWithoutArgs);
                }
                push_attr(&mut descs, MetaItem::Path(p));
            },
            MetaItem::List(p, args) => {
                if p.segments.len() != 1 {
                    proof {
                        lemma_collect_descs_error_persists(fn_name@, d0, orig, i + 1);
                    }
                    return Err(CaseError::ExpectedIdentifier);
                }
                if crate::text::str_eq(p.segments[0].as_str(), "test_case") {
                    let tca2 = match parse_test_case_attributes(args) {
                        Ok(t) => t,
                        Err(e) => {
                            proof {
                                lemma_collect_descs_error_persists(fn_name@, d0, orig, i + 1);
                            }
                            return Err(e);
                        },
                    };
                    let nm2 = match calculate_test_name(&tca2, fn_name.as_str()) {
                        Ok(n) => n,
                        Err(e) => {
                            proof {
                                lemma_collect_descs_error_persists(fn_name@, d0, orig, i + 1);
                            }
                            return Err(e);
                        },
                    };
                    descs.push(
                        TestDescription {
                            literals: tca2.literals,
                            name: nm2,
                            attributes: Vec::new(),
                        },
                    );
                    proof {
                        assert(views_of(descs@) =~= ds.push(descs@.last()@));
                    }
                } else {
                    push_attr(&mut descs, MetaItem::List(p, args));
                }
            },
            MetaItem::NameValue(p, l) => {
                push_attr(&mut descs, MetaItem::NameValue(p, l));
            },
        }
        proof {
            assert(spec_collect_descs(fn_name@, d0, orig.subrange(0, i + 1)) == Ok::<
                _,
                CaseError,
            >(views_of(descs@)));
        }
    }
    proof {
        assert(orig.subrange(0, orig.len() as int) =~= orig);
    }
    Ok(descs)
}

/// The full plan for one test-case directive: the function's argument
/// identifiers and the generated tests, each of whose literal lists binds
/// those arguments one for one.
#[derive(Debug, PartialEq, Eq)]
pub struct TestPlan {
    pub arg_idents: Vec<String>,
    pub cases: Vec<TestDescription>,
}

/// What planning one test-case directive comes to: the collected
/// descriptions and the function's argument identifiers, provided every
/// description carries exactly one literal per argument.
pub open spec fn spec_test_case(
    fn_name: Seq<char>,
    fn_args: Seq<FnArg>,
    fn_attrs: Seq<MetaItem>,
    macro_args: Seq<AttrArg>,
) -> Result<(Seq<Seq<char>>, Seq<DescView>), CaseError> {
    match spec_collect_test_descriptions(fn_name, fn_attrs, macro_args) {
        Err(e) => Err(e),
        Ok(descs) => match spec_collect_arg_idents(fn_args) {
            Err(e) => Err(e),
            Ok(idents) => if forall|i: int|
                0 <= i < descs.len() ==> (#[trigger] descs[i]).literals.len() == idents.len() {
                Ok((idents, descs))
            } else {
                Err(CaseError::ArgumentMismatch)
            },
        },
    }
}

/// Plan the tests one test-case directive generates for its function: one
/// test per description, named and bound, with the remaining attributes
/// passed through.
#[verifier::loop_isolation(false)]
pub fn test_case(input: FnModel, attribute_args: Vec<AttrArg>) -> (r: Result<TestPlan, CaseError>)
    ensures
        r matches Ok(plan) ==> spec_test_case(input.name@, input.args@, input.attrs@, attribute_args@)
            == Ok::<_, CaseError>((ident_views_of(plan.arg_idents@), views_of(plan.cases@))),
        r matches Err(e) ==> spec_test_case(input.name@, input.args@, input.attrs@, attribute_args@)
            == Err::<(Seq<Seq<char>>, Seq<DescView>), _>(e),
{
    let FnModel { name, args, attrs } = input;
    let cases = match collect_test_descriptions(&name, attrs, attribute_args) {
        Ok(v) => v,
        Err(e) => {
            return Err(e);
        },
    };
    let arg_idents = match collect_function_arg_idents(args) {
        Ok(v) => v,
        Err(e) => {
            return Err(e);
        },
    };
    let n = cases.len();
    let expected = arg_idents.len();
    let mut i: usize = 0;
    while i < n
        invariant
            i <= n,
            n == cases@.len(),
            expected == arg_idents@.len(),
            forall|j: int|
                0 <= j < i ==> (#[trigger] views_of(cases@)[j]).literals.len() == ident_views_of(
                    arg_idents@,
                ).len(),
        decreases n - i,
    {
        if cases[i].literals.len() != expected {
            proof {
                assert(views_of(cases@)[i as int].literals.len() != ident_views_of(
                    arg_idents@,
                ).len());
            }
            return Err(CaseError::ArgumentMismatch);
        }
        i = i + 1;
    }
    Ok(TestPlan { arg_idents, cases })
}

} // verus!
