//! The directive validator: rejects malformed or duplicated timeout
//! configuration at setup time, before any work item is constructed or
//! executed.

use crate::meta::{AttrArg, LitValue, MetaItem, path_mentions, spec_meta_path};
use crate::text::{all_dec_digits, digits_value, parse_u64_digits};
use vstd::prelude::*;

verus! {

/// Why a timeout configuration was rejected at setup time.
#[derive(Debug, PartialEq, Eq, Clone, Copy)]
pub enum ConfigError {
    /// No timeout directive stands on the work item.
    Missing,
    /// More than one timeout directive stands on the work item.
    Duplicate,
    /// The directive has more than one argument.
    TooManyArguments,
    /// The directive has no argument at all.
    NoArgument,
    /// The directive's argument is not a literal.
    NotInteger,
    /// The directive's argument is a literal of the wrong kind.
    NotIntegerLit,
    /// The directive's argument is not a valid base-ten integer that fits.
    InvalidInteger,
    /// The directive's argument is zero; a deadline must be positive.
    ZeroDeadline,
}

/// The message each configuration error reports.
pub open spec fn spec_config_error_message(e: ConfigError) -> Seq<char> {
    match e {
        ConfigError::Missing => "Timeout attribute expected"@,
        ConfigError::Duplicate => "Timeout attribute is only allowed once"@,
        ConfigError::TooManyArguments => "Only one integer expected. Example: #[timeout(10)]"@,
        ConfigError::NoArgument => "Integer expected. Example: #[timeout(10)]"@,
        ConfigError::NotInteger => "Integer expected. Example: #[timeout(10)]"@,
        ConfigError::NotIntegerLit => "Integer as timeout in ms expected. Example: #[timeout(10)]"@,
        ConfigError::InvalidInteger => "Integer expected"@,
        ConfigError::ZeroDeadline => "Integer must be a positive number of milliseconds"@,
    }
}

impl ConfigError {
    /// The message this configuration error reports.
    pub fn message(&self) -> (m: String)
        ensures
            m@ == spec_config_error_message(*self),
    {
        match self {
            ConfigError::Missing => String::from_str("Timeout attribute expected"),
            ConfigError::Duplicate => String::from_str("Timeout attribute is only allowed once"),
            ConfigError::TooManyArguments => String::from_str(
                "Only one integer expected. Example: #[timeout(10)]",
            ),
            ConfigError::NoArgument => String::from_str("Integer expected. Example: #[timeout(10)]"),
            ConfigError::NotInteger => String::from_str("Integer expected. Example: #[timeout(10)]"),
            ConfigError::NotIntegerLit => String::from_str(
                "Integer as timeout in ms expected. Example: #[timeout(10)]",
            ),
            ConfigError::InvalidInteger => String::from_str("Integer expected"),
            ConfigError::ZeroDeadline => String::from_str(
                "Integer must be a positive number of milliseconds",
            ),
        }
    }
}

/// What the arguments of one timeout directive come to: the deadline in
/// milliseconds, if the list is a single positive integer literal that
/// fits, and the reason it is rejected otherwise.
pub open spec fn spec_get_timeout(args: Seq<AttrArg>) -> Result<u64, ConfigError> {
    if args.len() > 1 {
        Err(ConfigError::TooManyArguments)
    } else if args.len() == 0 {
        Err(ConfigError::NoArgument)
    } else {
        match args[0] {
            AttrArg::Meta(_) => Err(ConfigError::NotInteger),
            AttrArg::Lit(LitValue::Int(digits)) => if !(digits@.len() > 0 && all_dec_digits(
                digits@,
            ) && digits_value(digits@) <= u64::MAX as nat) {
                Err(ConfigError::InvalidInteger)
            } else if digits_value(digits@) == 0 {
                Err(ConfigError::ZeroDeadline)
            } else {
                Ok(digits_value(digits@) as u64)
            },
            AttrArg::Lit(_) => Err(ConfigError::NotIntegerLit),
        }
    }
}

/// Read the deadline out of a timeout directive's argument list: exactly
/// one argument, a positive integer literal in milliseconds.
pub fn get_timeout(args: &Vec<AttrArg>) -> (r: Result<u64, ConfigError>)
    ensures
        r == spec_get_timeout(args@),
{
    if args.len() > 1 {
        Err(ConfigError::TooManyArguments)
    } else if args.len() == 0 {
        Err(ConfigError::NoArgument)
    } else {
        match &args[0] {
            AttrArg::Meta(_) => Err(ConfigError::NotInteger),
            AttrArg::Lit(LitValue::Int(digits)) => {
                match parse_u64_digits(digits.as_str()) {
                    Some(v) => {
                        if v == 0 {
                            Err(ConfigError::ZeroDeadline)
                        } else {
                            Ok(v)
                        }
                    },
                    None => Err(ConfigError::InvalidInteger),
                }
            },
            AttrArg::Lit(_) => Err(ConfigError::NotIntegerLit),
        }
    }
}

/// Whether a meta item names the timeout directive in any of its path
/// segments.
pub open spec fn meta_names_timeout(m: MetaItem) -> bool {
    path_mentions(spec_meta_path(m), "timeout"@)
}

/// Whether this attribute is a timeout directive.
pub fn names_timeout(m: &MetaItem) -> (b: bool)
    ensures
        b == meta_names_timeout(*m),
{
    m.path().mentions("timeout")
}

/// Check the attributes that stand beside one timeout directive: none of
/// them may be a second timeout directive.  Accepts the list exactly when
/// no attribute in it names the timeout directive.
pub fn check_other_attributes(attrs: &Vec<MetaItem>) -> (r: Result<(), ConfigError>)
    ensures
        r is Ok <==> (forall|k: int|
            0 <= k < attrs@.len() ==> !meta_names_timeout(#[trigger] attrs@[k])),
        r is Err ==> r->Err_0 == ConfigError::Duplicate,
{
    let n = attrs.len();
    let mut i: usize = 0;
    while i < n
        invariant
            n == attrs@.len(),
            i <= n,
            forall|k: int| 0 <= k < i ==> !meta_names_timeout(#[trigger] attrs@[k]),
        decreases n - i,
    {
        if names_timeout(&attrs[i]) {
            return Err(ConfigError::Duplicate);
        }
        i = i + 1;
    }
    Ok(())
}

/// What setting up one timeout directive comes to: its argument list must
/// be a single positive integer, and no second timeout directive may stand
/// among the other attributes of the same work item.  A malformed argument
/// is reported before a duplicate, as the argument is read first.
pub open spec fn spec_timeout(args: Seq<AttrArg>, other_attrs: Seq<MetaItem>) -> Result<
    u64,
    ConfigError,
> {
    match spec_get_timeout(args) {
        Err(e) => Err(e),
        Ok(d) => if forall|k: int|
            0 <= k < other_attrs.len() ==> !meta_names_timeout(#[trigger] other_attrs[k]) {
            Ok(d)
        } else {
            Err(ConfigError::Duplicate)
        },
    }
}

/// Set up one timeout directive: read its deadline and reject a duplicate
/// directive among the work item's other attributes.  This is everything
/// the directive decides before any execution starts.
pub fn timeout(args: &Vec<AttrArg>, other_attrs: &Vec<MetaItem>) -> (r: Result<u64, ConfigError>)
    ensures
        r == spec_timeout(args@, other_attrs@),
{
    let deadline_ms = match get_timeout(args) {
        Ok(d) => d,
        Err(e) => {
            return Err(e);
        },
    };
    match check_other_attributes(other_attrs) {
        Ok(()) => Ok(deadline_ms),
        Err(e) => Err(e),
    }
}

/// What the full set of attributes attached to one work item comes to:
/// exactly one timeout directive must be present, carrying its deadline as
/// a single positive integer argument.  Zero directives, duplicated
/// directives, and a malformed argument are each a distinct configuration
/// error.
pub open spec fn spec_validate_directives(attrs: Seq<MetaItem>) -> Result<u64, ConfigError> {
    if forall|k: int| 0 <= k < attrs.len() ==> !meta_names_timeout(#[trigger] attrs[k]) {
        Err(ConfigError::Missing)
    } else if exists|j: int, k: int|
        0 <= j < k < attrs.len() && #[trigger] meta_names_timeout(attrs[j])
            && #[trigger] meta_names_timeout(attrs[k]) {
        Err(ConfigError::Duplicate)
    } else {
        let j = choose|j: int| 0 <= j < attrs.len() && #[trigger] meta_names_timeout(attrs[j]);
        match attrs[j] {
            MetaItem::List(_, args) => spec_get_timeout(args@),
            _ => Err(ConfigError::NoArgument),
        }
    }
}

/// Validate the full set of attributes attached to one work item and read
/// its deadline.  This is the setup-time check: it fails fast, before any
/// work item is constructed, and never defers a configuration error to
/// execution time.
pub fn validate_directives(attrs: &Vec<MetaItem>) -> (r: Result<u64, ConfigError>)
    ensures
        r == spec_validate_directives(attrs@),
{
    let n = attrs.len();
    let mut found: Option<usize> = None;
    let mut i: usize = 0;
    while i < n
        invariant
            n == attrs@.len(),
            i <= n,
            match found {
                Option::None => forall|k: int|
                    0 <= k < i ==> !meta_names_timeout(#[trigger] attrs@[k]),
                Option::Some(j) => j < i && meta_names_timeout(attrs@[j as int]) && (forall|k: int|
                    0 <= k < i && k != j ==> !meta_names_timeout(#[trigger] attrs@[k])),
            },
        decreases n - i,
    {
        if names_timeout(&attrs[i]) {
            match found {
                Option::None => {
                    found = Some(i);
                },
                Option::Some(j) => {
                    proof {
                        assert(0 <= j < i < attrs@.len() && meta_names_timeout(attrs@[j as int])
                            && meta_names_timeout(attrs@[i as int]));
                    }
                    return Err(ConfigError::Duplicate);
                },
            }
        }
        i = i + 1;
    }
    match found {
        Option::None => Err(ConfigError::Missing),
        Option::Some(j) => {
            proof {
                let jj = choose|jj: int|
                    0 <= jj < attrs@.len() && #[trigger] meta_names_timeout(attrs@[jj]);
                assert(jj == j as int);
            }
            match &attrs[j] {
                MetaItem::List(_, args) => get_timeout(args),
                _ => Err(ConfigError::NoArgument),
            }
        },
    }
}

} // verus!
