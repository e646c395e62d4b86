//! The error a guarded call can end in.

use core::fmt::Write;
use vstd::prelude::*;
use vstd::string::StringExecFns;

verus! {

/// Why a call gave no success value.
#[derive(Debug, PartialEq, Eq)]
pub enum MyError<E> {
    /// The operation ran and returned this failure, which is passed on untouched.
    FunctionError(E),
    /// The deadline passed without a result, or the breaker was open and
    /// not yet due for a probe.
    TimeoutError,
}

/// Renders a value as its `Debug` impl writes it, through `write!` with `{:?}`
/// into a fresh `String`. Nothing is claimed of the text: what it holds is up
/// to that impl. Should the impl report an error the text is what it had
/// written until then.
#[verifier::external_body]
fn debug_text<E: core::fmt::Debug>(value: &E) -> String {
    let mut text = String::new();
    let _ = write!(text, "{:?}", value);
    text
}

/// The line of text for a failure of the operation whose rendering is
/// `detail`: the words `FunctionError: ` and then the detail.
pub fn function_error_text(detail: &str) -> (text: String)
    ensures
        text@ == "FunctionError: "@ + detail@,
{
    String::from_str("FunctionError: ").concat(detail)
}

impl<E: core::fmt::Debug> MyError<E> {
    /// The error as a line of text: `TimeoutError` for a timeout, and for a
    /// failure of the operation what `function_error_text` makes of the
    /// failure as its `Debug` impl writes it.
    pub fn describe(&self) -> (text: String)
        ensures
            self is TimeoutError ==> text@ == "TimeoutError"@,
            self is FunctionError ==> exists|detail: Seq<char>|
                text@ == "FunctionError: "@ + detail,
    {
        match self {
            MyError::FunctionError(e) => {
                let detail = debug_text(e);
                function_error_text(detail.as_str())
            },
            MyError::TimeoutError => String::from_str("TimeoutError"),
        }
    }
}

} // verus!
