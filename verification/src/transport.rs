//! The value that a script ends with, as the caller of the script gets it.
//!
//! A script hands exactly one value back, and only a scalar can leave: a
//! string, a number, a boolean or nil. A script that means to hand back a
//! table has to write it as JSON itself.

use crate::errors::{type_error_view, RuntimeError, RuntimeErrorView};
use crate::text::{signed_decimal, signed_decimal_string};
use crate::value::{LuaValue, LuaView};
use vstd::prelude::*;
use vstd::string::StringExecFns;

verus! {

/// What leaves a script.
#[derive(Debug, PartialEq)]
pub enum Transport {
    /// The text to hand to the caller as it is.
    Text(String),
    /// A floating-point number, by the bits of its encoding. The caller
    /// writes it out as the host writes its numbers.
    Number(u64),
}

/// The mathematical content of a [`Transport`] value.
pub ghost enum TransportView {
    Text(Seq<char>),
    Number(u64),
}

impl View for Transport {
    type V = TransportView;

    open spec fn view(&self) -> TransportView {
        match self {
            Transport::Text(s) => TransportView::Text(s@),
            Transport::Number(bits) => TransportView::Number(*bits),
        }
    }
}

/// The error for a script that ends with a value of the kind `got`, which
/// cannot leave it.
pub open spec fn not_transportable(got: Seq<char>) -> RuntimeErrorView {
    type_error_view("string, number, boolean or nil"@, got, "return value"@)
}

/// What the caller of a script gets for the value `v` that the script ends
/// with.
pub open spec fn coerced(v: LuaView) -> Result<TransportView, RuntimeErrorView> {
    match v {
        LuaView::String(s) => Ok(TransportView::Text(s)),
        LuaView::Integer(i) => Ok(TransportView::Text(signed_decimal(i as int))),
        LuaView::Number(bits) => Ok(TransportView::Number(bits)),
        LuaView::Boolean(b) => Ok(
            TransportView::Text(
                if b {
                    "true"@
                } else {
                    "false"@
                },
            ),
        ),
        LuaView::Nil => Ok(TransportView::Text("nil"@)),
        LuaView::Table(_) => Err(not_transportable("table"@)),
        LuaView::Other => Err(not_transportable("function"@)),
    }
}

/// What the caller of a script gets for the value `value` that the script
/// ends with: the value as text, or a type error where the value is no
/// scalar.
pub fn coerce_result(value: &LuaValue) -> (out: Result<Transport, RuntimeError>)
    ensures
        match coerced(value@) {
            Ok(transport) => out matches Ok(t) && t@ == transport,
            Err(error) => out matches Err(e) && e@ == error,
        },
{
    match value {
        LuaValue::String(s) => Ok(Transport::Text(s.clone())),
        LuaValue::Integer(i) => Ok(Transport::Text(signed_decimal_string(*i))),
        LuaValue::Number(bits) => Ok(Transport::Number(*bits)),
        LuaValue::Boolean(b) => Ok(
            Transport::Text(
                String::from_str(
                    if *b {
                        "true"
                    } else {
                        "false"
                    },
                ),
            ),
        ),
        LuaValue::Nil => Ok(Transport::Text(String::from_str("nil"))),
        LuaValue::Table(_) => Err(
            RuntimeError::type_error("string, number, boolean or nil", "table", "return value"),
        ),
        LuaValue::Other => Err(
            RuntimeError::type_error("string, number, boolean or nil", "function", "return value"),
        ),
    }
}

} // verus!
