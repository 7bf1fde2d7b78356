//! The filter resolver: turns a parsed filter invocation (name plus
//! literal arguments) into a validated [`GrokFilter`], at pattern-compile
//! time.
//!
//! [`resolve_model`] is the full resolution table as one spec function;
//! [`resolve`] is proved to follow it exactly. Two consequences of the
//! table are stated as laws below: a name outside the table always yields
//! the unknown-filter error (never the invalid-arguments error), and a
//! known name with well-formed arguments never yields any error.

use crate::digits::dec_of_int;
use crate::digits::i64_to_string;
use crate::filter::{GrokFilter, GrokStaticError, Numeric};
use crate::text::{lossy_decode, lossy_of};
use crate::value::Value;
use vstd::prelude::*;

verus! {

/// A parsed filter invocation from the pattern: a name and an optional
/// ordered argument list.
#[derive(Debug, PartialEq)]
pub struct Function {
    pub name: String,
    pub args: Option<Vec<FunctionArgument>>,
}

/// One argument of a filter invocation: a literal value, or a nested call
/// (which no filter accepts).
#[derive(Debug, PartialEq)]
pub enum FunctionArgument {
    Arg(Value),
    Function(Function),
}

/// What resolution produced.
#[derive(Debug, PartialEq)]
pub enum Resolution {
    /// A fully resolved filter.
    Resolved(GrokFilter),
    /// A `nullIf` call whose sentinel literal the engine cannot render to
    /// text itself (a float, array or object: their canonical text depends
    /// on IEEE-754 formatting). The caller renders the literal and builds
    /// `GrokFilter::NullIf` from that text.
    NeedsRendering(Value),
}

/// The abstract outcome of resolving one invocation.
pub ghost enum ResolutionModel {
    Integer,
    IntegerExt,
    Number,
    NumberExt,
    Lowercase,
    Uppercase,
    Json,
    Scale(Numeric),
    NullIf(Seq<char>),
    NeedsRendering(Value),
    UnknownFilter,
    InvalidArguments,
}

/// The argument list carries no arguments.
pub open spec fn spec_zero_args(args: Option<Vec<FunctionArgument>>) -> bool {
    match args {
        None => true,
        Some(a) => a@.len() == 0,
    }
}

/// The single literal argument of the list, when the list holds exactly
/// one argument and it is a literal.
pub open spec fn single_literal_spec(args: Option<Vec<FunctionArgument>>) -> Option<Value> {
    match args {
        Some(a) => if a@.len() == 1 {
            match a@[0] {
                FunctionArgument::Arg(v) => Some(v),
                FunctionArgument::Function(_) => None,
            }
        } else {
            None
        },
        None => None,
    }
}

/// The canonical text of a literal the engine renders itself: byte strings
/// decode lossily, integers print in decimal, booleans and null print as
/// their keywords. Floats, arrays and objects have no text here; their
/// rendering is delegated.
pub open spec fn sentinel_of(v: Value) -> Option<Seq<char>> {
    match v {
        Value::Bytes(b) => Some(lossy_of(b@)),
        Value::Integer(i) => Some(dec_of_int(i as int)),
        Value::Boolean(bv) => Some(if bv {
            "true"@
        } else {
            "false"@
        }),
        Value::Null => Some("null"@),
        _ => None,
    }
}

/// The names the fixed filter table knows.
pub open spec fn known_name(n: Seq<char>) -> bool {
    ||| n == "scale"@
    ||| n == "integer"@
    ||| n == "integerExt"@
    ||| n == "number"@
    ||| n == "numberExt"@
    ||| n == "lowercase"@
    ||| n == "uppercase"@
    ||| n == "json"@
    ||| n == "nullIf"@
}

/// The resolution table. Names match case-sensitively; any arity or
/// argument-type mismatch for a known name is an invalid-arguments
/// outcome, and any other name is an unknown-filter outcome.
pub open spec fn resolve_model(f: Function) -> ResolutionModel {
    let n = f.name@;
    if n == "scale"@ {
        match single_literal_spec(f.args) {
            Some(Value::Integer(i)) => ResolutionModel::Scale(Numeric::Integer(i)),
            Some(Value::Float(fb)) => ResolutionModel::Scale(Numeric::Float(fb)),
            _ => ResolutionModel::InvalidArguments,
        }
    } else if n == "integer"@ {
        if spec_zero_args(f.args) {
            ResolutionModel::Integer
        } else {
            ResolutionModel::InvalidArguments
        }
    } else if n == "integerExt"@ {
        if spec_zero_args(f.args) {
            ResolutionModel::IntegerExt
        } else {
            ResolutionModel::InvalidArguments
        }
    } else if n == "number"@ {
        if spec_zero_args(f.args) {
            ResolutionModel::Number
        } else {
            ResolutionModel::InvalidArguments
        }
    } else if n == "numberExt"@ {
        if spec_zero_args(f.args) {
            ResolutionModel::NumberExt
        } else {
            ResolutionModel::InvalidArguments
        }
    } else if n == "lowercase"@ {
        if spec_zero_args(f.args) {
            ResolutionModel::Lowercase
        } else {
            ResolutionModel::InvalidArguments
        }
    } else if n == "uppercase"@ {
        if spec_zero_args(f.args) {
            ResolutionModel::Uppercase
        } else {
            ResolutionModel::InvalidArguments
        }
    } else if n == "json"@ {
        if spec_zero_args(f.args) {
            ResolutionModel::Json
        } else {
            ResolutionModel::InvalidArguments
        }
    } else if n == "nullIf"@ {
        match single_literal_spec(f.args) {
            Some(v) => match sentinel_of(v) {
                Some(t) => ResolutionModel::NullIf(t),
                None => ResolutionModel::NeedsRendering(v),
            },
            None => ResolutionModel::InvalidArguments,
        }
    } else {
        ResolutionModel::UnknownFilter
    }
}

/// `r` is the concrete result the model prescribes for the call `f`.
pub open spec fn outcome_matches(r: Result<Resolution, GrokStaticError>, f: Function) -> bool {
    match resolve_model(f) {
        ResolutionModel::Integer => r == Ok::<Resolution, GrokStaticError>(Resolution::Resolved(GrokFilter::Integer)),
        ResolutionModel::IntegerExt => r == Ok::<Resolution, GrokStaticError>(Resolution::Resolved(GrokFilter::IntegerExt)),
        ResolutionModel::Number => r == Ok::<Resolution, GrokStaticError>(Resolution::Resolved(GrokFilter::Number)),
        ResolutionModel::NumberExt => r == Ok::<Resolution, GrokStaticError>(Resolution::Resolved(GrokFilter::NumberExt)),
        ResolutionModel::Lowercase => r == Ok::<Resolution, GrokStaticError>(Resolution::Resolved(GrokFilter::Lowercase)),
        ResolutionModel::Uppercase => r == Ok::<Resolution, GrokStaticError>(Resolution::Resolved(GrokFilter::Uppercase)),
        ResolutionModel::Json => r == Ok::<Resolution, GrokStaticError>(Resolution::Resolved(GrokFilter::Json)),
        ResolutionModel::Scale(num) => r == Ok::<Resolution, GrokStaticError>(Resolution::Resolved(GrokFilter::Scale(num))),
        ResolutionModel::NullIf(t) => (r matches Ok(Resolution::Resolved(GrokFilter::NullIf(s)))
            && s@ == t),
        ResolutionModel::NeedsRendering(v) => r == Ok::<Resolution, GrokStaticError>(Resolution::NeedsRendering(v)),
        ResolutionModel::UnknownFilter => (r matches Err(GrokStaticError::UnknownFilter(m))
            && m@ == f.name@),
        ResolutionModel::InvalidArguments => (r matches Err(
            GrokStaticError::InvalidFunctionArguments(m),
        ) && m@ == f.name@),
    }
}

/// The argument list carries no arguments.
fn zero_args(args: &Option<Vec<FunctionArgument>>) -> (r: bool)
    ensures
        r == spec_zero_args(*args),
{
    match args {
        None => true,
        Some(a) => a.len() == 0,
    }
}

/// Extracts the single literal argument, if the list has that shape.
fn single_literal(args: Option<Vec<FunctionArgument>>) -> (r: Option<Value>)
    ensures
        r == single_literal_spec(args),
{
    match args {
        Some(mut a) => if a.len() == 1 {
            match a.remove(0) {
                FunctionArgument::Arg(v) => Some(v),
                FunctionArgument::Function(_) => None,
            }
        } else {
            None
        },
        None => None,
    }
}

/// Resolves a parsed filter invocation against the fixed filter table.
///
/// Follows [`resolve_model`] exactly: every known name with well-formed
/// arguments yields its filter (or, for a `nullIf` sentinel the engine
/// cannot render, a rendering request); a known name with a malformed
/// argument list yields the invalid-arguments error; every other name
/// yields the unknown-filter error. It never panics.
pub fn resolve(f: Function) -> (r: Result<Resolution, GrokStaticError>)
    ensures
        outcome_matches(r, f),
{
    let Function { name, args } = f;
    if name == "scale".to_owned() {
        match single_literal(args) {
            Some(Value::Integer(i)) => Ok(Resolution::Resolved(GrokFilter::Scale(Numeric::Integer(i)))),
            Some(Value::Float(fb)) => Ok(Resolution::Resolved(GrokFilter::Scale(Numeric::Float(fb)))),
            _ => Err(GrokStaticError::InvalidFunctionArguments(name)),
        }
    } else if name == "integer".to_owned() {
        if zero_args(&args) {
            Ok(Resolution::Resolved(GrokFilter::Integer))
        } else {
            Err(GrokStaticError::InvalidFunctionArguments(name))
        }
    } else if name == "integerExt".to_owned() {
        if zero_args(&args) {
            Ok(Resolution::Resolved(GrokFilter::IntegerExt))
        } else {
            Err(GrokStaticError::InvalidFunctionArguments(name))
        }
    } else if name == "number".to_owned() {
        if zero_args(&args) {
            Ok(Resolution::Resolved(GrokFilter::Number))
        } else {
            Err(GrokStaticError::InvalidFunctionArguments(name))
        }
    } else if name == "numberExt".to_owned() {
        if zero_args(&args) {
            Ok(Resolution::Resolved(GrokFilter::NumberExt))
        } else {
            Err(GrokStaticError::InvalidFunctionArguments(name))
        }
    } else if name == "lowercase".to_owned() {
        if zero_args(&args) {
            Ok(Resolution::Resolved(GrokFilter::Lowercase))
        } else {
            Err(GrokStaticError::InvalidFunctionArguments(name))
        }
    } else if name == "uppercase".to_owned() {
        if zero_args(&args) {
            Ok(Resolution::Resolved(GrokFilter::Uppercase))
        } else {
            Err(GrokStaticError::InvalidFunctionArguments(name))
        }
    } else if name == "json".to_owned() {
        if zero_args(&args) {
            Ok(Resolution::Resolved(GrokFilter::Json))
        } else {
            Err(GrokStaticError::InvalidFunctionArguments(name))
        }
    } else if name == "nullIf".to_owned() {
        match single_literal(args) {
            Some(Value::Bytes(b)) => Ok(
                Resolution::Resolved(GrokFilter::NullIf(lossy_decode(b.as_slice()))),
            ),
            Some(Value::Integer(i)) => Ok(
                Resolution::Resolved(GrokFilter::NullIf(i64_to_string(i))),
            ),
            Some(Value::Boolean(bv)) => if bv {
                Ok(Resolution::Resolved(GrokFilter::NullIf("true".to_owned())))
            } else {
                Ok(Resolution::Resolved(GrokFilter::NullIf("false".to_owned())))
            },
            Some(Value::Null) => Ok(Resolution::Resolved(GrokFilter::NullIf("null".to_owned()))),
            Some(v) => Ok(Resolution::NeedsRendering(v)),
            None => Err(GrokStaticError::InvalidFunctionArguments(name)),
        }
    } else {
        Err(GrokStaticError::UnknownFilter(name))
    }
}

/// Law: a name outside the filter table always resolves to the
/// unknown-filter outcome — in particular, never to the invalid-arguments
/// outcome — whatever its arguments are.
pub proof fn lemma_unknown_name_is_unknown_filter(f: Function)
    requires
        !known_name(f.name@),
    ensures
        resolve_model(f) == ResolutionModel::UnknownFilter,
{
}

/// Law: a name in the filter table never resolves to the unknown-filter
/// outcome, whatever its arguments are.
pub proof fn lemma_known_name_is_never_unknown(f: Function)
    requires
        known_name(f.name@),
    ensures
        resolve_model(f) != ResolutionModel::UnknownFilter,
{
}

/// Law: a known name with well-formed arguments — exactly one integer or
/// float literal for `scale`, exactly one literal for `nullIf`, none for
/// the rest — resolves to its filter and never to an error.
pub proof fn lemma_known_name_good_args_resolves(f: Function)
    requires
        known_name(f.name@),
        f.name@ == "scale"@ ==> (single_literal_spec(f.args) matches Some(v) && (v is Integer
            || v is Float)),
        f.name@ == "nullIf"@ ==> single_literal_spec(f.args) is Some,
        (f.name@ != "scale"@ && f.name@ != "nullIf"@) ==> spec_zero_args(f.args),
    ensures
        !(resolve_model(f) is UnknownFilter),
        !(resolve_model(f) is InvalidArguments),
{
    broadcast use vstd::string::group_string_axioms;

    reveal_strlit("scale");
    reveal_strlit("integer");
    reveal_strlit("integerExt");
    reveal_strlit("number");
    reveal_strlit("numberExt");
    reveal_strlit("lowercase");
    reveal_strlit("uppercase");
    reveal_strlit("json");
    reveal_strlit("nullIf");
    if f.name@ == "nullIf"@ {
        // the one table name of the same length as `nullIf` differs at index 2
        assert(f.name@ != "number"@) by {
            assert("number"@[2] == 'm' && "nullIf"@[2] == 'l');
        }
    }
}

} // verus!
