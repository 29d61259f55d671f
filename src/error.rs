use vstd::prelude::*;

verus! {

/// Why a version specifier was rejected.
#[derive(Debug, Clone, Copy, PartialEq, Eq, Structural)]
pub enum ParseError {
    /// The text is neither a reserved tag nor a semantic version.
    InvalidVersion,
}

/// The library's error: a message for the user, or a rejected specifier.
#[derive(Debug)]
pub enum SVMError {
    Thrown(String),
    Parse(ParseError),
}

impl From<String> for SVMError {
    fn from(value: String) -> SVMError {
        SVMError::Thrown(value)
    }
}

impl vstd::std_specs::convert::FromSpecImpl<String> for SVMError {
    open spec fn obeys_from_spec() -> bool {
        true
    }

    open spec fn from_spec(v: String) -> SVMError {
        SVMError::Thrown(v)
    }
}

impl From<ParseError> for SVMError {
    fn from(value: ParseError) -> SVMError {
        SVMError::Parse(value)
    }
}

impl vstd::std_specs::convert::FromSpecImpl<ParseError> for SVMError {
    open spec fn obeys_from_spec() -> bool {
        true
    }

    open spec fn from_spec(v: ParseError) -> SVMError {
        SVMError::Parse(v)
    }
}

} // verus!
