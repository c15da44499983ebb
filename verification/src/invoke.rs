//! The entry-point invoker's type-dispatch core: resolve a function
//! descriptor, match its declared return type's identity token against a
//! fixed, closed allow-list of native representations — boolean, 64-bit
//! float, 64-bit integer, in that priority order — and decide the
//! invoke-and-decode path before any native call is attempted.

use crate::digits::{format_bool, format_i64, int_str};
use crate::error::CliError;
use vstd::prelude::*;

verus! {

/// A stable, content-derived token identifying a declared type across
/// compilations without exposing the type system itself.
#[derive(Copy, Debug, Clone, PartialEq, Eq, Structural)]
pub struct TypeToken {
    pub value: u128,
}

/// A declared type as the invoker sees it: its identity token, and its name
/// for reporting only.
#[derive(Debug, Clone)]
pub struct TypeInfo {
    pub token: TypeToken,
    pub name: String,
}

/// A resolved entry point: its name, its parameter types, and its declared
/// return type if it has one.
#[derive(Debug, Clone)]
pub struct FunctionDescriptor {
    pub name: String,
    pub arg_types: Vec<TypeInfo>,
    pub ret_type: Option<TypeInfo>,
}

/// The tokens of the three native representations the invoker supports, as
/// the runtime derives them for its own primitive types.
#[derive(Copy, Debug, Clone, PartialEq, Eq, Structural)]
pub struct KnownTokens {
    pub boolean: TypeToken,
    pub float64: TypeToken,
    pub int64: TypeToken,
}

/// The invoke-and-decode path selected for an entry point.
#[derive(Copy, Debug, Clone, PartialEq, Eq, Structural)]
pub enum InvokePlan {
    /// No declared return type: invoke, and report success with no printed
    /// value.
    NoReturn,
    /// Invoke requesting a boolean and print `true` or `false`.
    ReturnBool,
    /// Invoke requesting a 64-bit float and print it in decimal.
    ReturnFloat64,
    /// Invoke requesting a 64-bit integer and print it in decimal.
    ReturnInt64,
}

/// Decides how the entry point named `entry_point` is invoked, from the
/// descriptor its lookup returned. A missing descriptor is "entry point not
/// found"; a declared return type is matched against the closed allow-list
/// in its fixed priority order — boolean, float64, int64 — and one outside
/// the list is refused here, before any native call, naming the type.
pub fn entry_point_plan(
    entry_point: &String,
    lookup: Option<&FunctionDescriptor>,
    known: &KnownTokens,
) -> (r: Result<InvokePlan, CliError>)
    ensures
        match lookup {
            None => r matches Err(e) && e matches CliError::EntryPointNotFound { name } && name@
                == entry_point@,
            Some(d) => match d.ret_type {
                None => r == Ok::<InvokePlan, CliError>(InvokePlan::NoReturn),
                Some(rt) => if rt.token == known.boolean {
                    r == Ok::<InvokePlan, CliError>(InvokePlan::ReturnBool)
                } else if rt.token == known.float64 {
                    r == Ok::<InvokePlan, CliError>(InvokePlan::ReturnFloat64)
                } else if rt.token == known.int64 {
                    r == Ok::<InvokePlan, CliError>(InvokePlan::ReturnInt64)
                } else {
                    r matches Err(e) && e matches CliError::UnsupportedReturnType { found }
                        && found@ == rt.name@
                },
            },
        },
{
    match lookup {
        None => Err(CliError::EntryPointNotFound { name: entry_point.clone() }),
        Some(d) => match &d.ret_type {
            None => Ok(InvokePlan::NoReturn),
            Some(rt) => {
                if rt.token == known.boolean {
                    Ok(InvokePlan::ReturnBool)
                } else if rt.token == known.float64 {
                    Ok(InvokePlan::ReturnFloat64)
                } else if rt.token == known.int64 {
                    Ok(InvokePlan::ReturnInt64)
                } else {
                    Err(CliError::UnsupportedReturnType { found: rt.name.clone() })
                }
            },
        },
    }
}

/// A decoded invocation result, one variant per native representation the
/// decode protocol prints here. A 64-bit float is printed from the native
/// value by the caller holding it, floating point being outside this
/// library's own code.
#[derive(Copy, Debug, Clone, PartialEq, Eq, Structural)]
pub enum DecodedValue {
    /// The entry point declared no return type.
    Unit,
    /// A decoded boolean.
    Boolean(bool),
    /// A decoded 64-bit integer.
    Int64(i64),
}

/// The line printed for a decoded result: none for a unit result, the
/// canonical text — `true`/`false`, or the decimal integer — otherwise.
pub open spec fn spec_rendered(v: DecodedValue) -> Option<Seq<char>> {
    match v {
        DecodedValue::Unit => None,
        DecodedValue::Boolean(b) => Some(
            if b {
                "true"@
            } else {
                "false"@
            },
        ),
        DecodedValue::Int64(n) => Some(int_str(n as int)),
    }
}

/// Renders a decoded result for printing.
pub fn render_value(v: DecodedValue) -> (r: Option<String>)
    ensures
        match spec_rendered(v) {
            Some(text) => r matches Some(s) && s@ == text,
            None => r is None,
        },
{
    match v {
        DecodedValue::Unit => None,
        DecodedValue::Boolean(b) => Some(format_bool(b)),
        DecodedValue::Int64(n) => Some(format_i64(n)),
    }
}

} // verus!
