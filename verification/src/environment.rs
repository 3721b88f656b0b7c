//! Converting the textual contents of environment variables into other
//! types. Reading the variables themselves is I/O and lives outside this
//! crate's verified core; the conversion rules live here.

use vstd::prelude::*;
use crate::string_extensions::str_eq;

verus! {

/// The trait responsible for converting environment variable contents into
/// other types.
pub trait EnvironmentConverter: Sized {
    /// The error type produced if the conversion fails.
    type ConversionError;

    /// What the conversion answers for the given variable name and contents.
    spec fn spec_try_convert(name: &'static str, value: &'static str) -> Result<
        Self,
        Self::ConversionError,
    >;

    /// Converts the `value` into a value of this type. The name of the
    /// variable is provided in `name` to facilitate improved error
    /// reporting.
    fn try_convert(name: &'static str, value: &'static str) -> (r: Result<
        Self,
        Self::ConversionError,
    >)
        ensures
            r == Self::spec_try_convert(name, value),
    ;
}

/// The error type for converting to `bool`.
#[derive(Clone, Copy, Debug)]
pub struct ConvertBoolError {
    /// The name of the environment variable whose contents were rejected.
    pub name: &'static str,
    /// The rejected contents.
    pub unexpected_value: &'static str,
}

impl EnvironmentConverter for bool {
    type ConversionError = ConvertBoolError;

    /// `"on"`, `"true"`, `"yes"` and `"1"` convert to `true`; `"off"`,
    /// `"false"`, `"no"` and `"0"` convert to `false`; anything else is an
    /// error naming the variable and the rejected contents.
    open spec fn spec_try_convert(name: &'static str, value: &'static str) -> Result<
        bool,
        ConvertBoolError,
    > {
        if value@ == "on"@ || value@ == "true"@ || value@ == "yes"@ || value@ == "1"@ {
            Ok(true)
        } else if value@ == "off"@ || value@ == "false"@ || value@ == "no"@ || value@ == "0"@ {
            Ok(false)
        } else {
            Err(ConvertBoolError { name, unexpected_value: value })
        }
    }

    fn try_convert(name: &'static str, value: &'static str) -> (r: Result<
        bool,
        ConvertBoolError,
    >) {
        if str_eq(value, "on") || str_eq(value, "true") || str_eq(value, "yes") || str_eq(
            value,
            "1",
        ) {
            Ok(true)
        } else if str_eq(value, "off") || str_eq(value, "false") || str_eq(value, "no") || str_eq(
            value,
            "0",
        ) {
            Ok(false)
        } else {
            Err(ConvertBoolError { name, unexpected_value: value })
        }
    }
}

} // verus!
