//! A plain-value model of the attribute metadata attached to a test
//! function: paths, literals, and the three meta shapes (a bare path, a
//! path with a parenthesised argument list, and a `name = value` pair).
//! Setup-time validation and test-case planning work on these values.

use crate::text::{
    all_dec_digits, all_num_chars, str_all_dec_digits, str_all_num_chars, str_eq,
};
use vstd::prelude::*;

verus! {

/// A path of identifier segments, as an attribute names itself.
#[derive(Debug, PartialEq, Eq)]
pub struct AttrPath {
    pub segments: Vec<String>,
}

/// A literal argument of an attribute: a boolean, a string, an integer or a
/// floating-point number (the numbers carry their base-ten digits), or some
/// other literal kind the toolkit does not support.
#[derive(Debug, PartialEq, Eq)]
pub enum LitValue {
    Bool(bool),
    Str(String),
    Int(String),
    Float(String),
    Unsupported,
}

/// One argument inside an attribute's parenthesised list: either a nested
/// meta item or a bare literal.
#[derive(Debug, PartialEq, Eq)]
pub enum AttrArg {
    Meta(MetaItem),
    Lit(LitValue),
}

/// One parsed attribute.
#[derive(Debug, PartialEq, Eq)]
pub enum MetaItem {
    /// A bare path, as in `#[ignore]`.
    Path(AttrPath),
    /// A path with arguments, as in `#[timeout(10)]`.
    List(AttrPath, Vec<AttrArg>),
    /// A `name = value` pair, as in `#[should_panic = "msg"]`.
    NameValue(AttrPath, LitValue),
}

/// Whether any segment of a path is the given name.
pub open spec fn path_mentions(p: AttrPath, name: Seq<char>) -> bool {
    exists|i: int| 0 <= i < p.segments@.len() && (#[trigger] p.segments@[i])@ == name
}

/// The single identifier a path consists of, if it consists of exactly one
/// segment.
pub open spec fn spec_path_ident(p: AttrPath) -> Option<Seq<char>> {
    if p.segments@.len() == 1 {
        Some(p.segments@[0]@)
    } else {
        None
    }
}

impl AttrPath {
    /// Whether any segment of this path is the given name.
    pub fn mentions(&self, name: &str) -> (b: bool)
        ensures
            b == path_mentions(*self, name@),
    {
        let n = self.segments.len();
        let mut i: usize = 0;
        while i < n
            invariant
                n == self.segments@.len(),
                i <= n,
                forall|j: int| 0 <= j < i ==> (#[trigger] self.segments@[j])@ != name@,
            decreases n - i,
        {
            if str_eq(self.segments[i].as_str(), name) {
                return true;
            }
            i = i + 1;
        }
        false
    }

    /// The single identifier this path consists of, if any.
    pub fn get_ident(&self) -> (r: Option<&String>)
        ensures
            r matches Some(s) ==> spec_path_ident(*self) == Some(s@),
            r is None ==> spec_path_ident(*self) is None,
    {
        if self.segments.len() == 1 {
            Some(&self.segments[0])
        } else {
            None
        }
    }
}

/// The path of a meta item, whatever its shape.
pub open spec fn spec_meta_path(m: MetaItem) -> AttrPath {
    match m {
        MetaItem::Path(p) => p,
        MetaItem::List(p, _) => p,
        MetaItem::NameValue(p, _) => p,
    }
}

impl MetaItem {
    /// The path of this meta item, whatever its shape.
    pub fn path(&self) -> (p: &AttrPath)
        ensures
            *p == spec_meta_path(*self),
    {
        match self {
            MetaItem::Path(p) => p,
            MetaItem::List(p, _) => p,
            MetaItem::NameValue(p, _) => p,
        }
    }
}

/// Whether a literal is well formed: the digits an integer carries are
/// decimal, and a float's digits may also hold the decimal point.
pub open spec fn lit_wf(lit: LitValue) -> bool {
    match lit {
        LitValue::Int(d) => all_dec_digits(d@),
        LitValue::Float(d) => all_num_chars(d@),
        _ => true,
    }
}

impl LitValue {
    /// Whether the escaping below supports this literal: it is one of the
    /// four supported kinds and its digits, if any, are well formed.
    pub fn supported(&self) -> (b: bool)
        ensures
            b == (lit_wf(*self) && !(*self is Unsupported)),
    {
        match self {
            LitValue::Bool(_) => true,
            LitValue::Str(_) => true,
            LitValue::Int(d) => str_all_dec_digits(d.as_str()),
            LitValue::Float(d) => str_all_num_chars(d.as_str()),
            LitValue::Unsupported => false,
        }
    }
}

} // verus!
