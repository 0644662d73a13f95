//! Errors that carry the text shown to the user.

use vstd::prelude::*;
use vstd::string::*;

verus! {

/// An error that is its message.
#[derive(Debug)]
pub struct StringError(pub String);

impl StringError {
    /// The message.
    pub fn to_string(&self) -> (r: String)
        ensures
            r@ == self.0@,
    {
        self.0.clone()
    }
}

impl From<&str> for StringError {
    fn from(data: &str) -> (r: Self)
        ensures
            r.0@ == data@,
    {
        StringError(data.to_owned())
    }
}

impl vstd::std_specs::convert::FromSpecImpl<&str> for StringError {
    open spec fn obeys_from_spec() -> bool {
        false
    }

    open spec fn from_spec(v: &str) -> Self {
        arbitrary()
    }
}

/// Why an argument of a command could not be read. The text of `Parse` is the message of
/// the parser that rejected the argument.
#[derive(Debug)]
pub enum ArgError {
    /// No argument was left.
    Eos,
    /// The argument is not of the wanted kind.
    Parse(String),
    /// Any other reason.
    Other,
}

/// What the user is told of an argument error.
pub open spec fn arg_error_message(e: ArgError) -> Seq<char> {
    match e {
        ArgError::Eos => "Not enough arguments provided"@,
        ArgError::Parse(text) => "Failed parsing an argument: "@ + text@,
        ArgError::Other => "Unknown argument parsing error"@,
    }
}

impl ArgError {
    /// How the error shows itself, as part of a longer message.
    pub fn to_string(&self) -> (r: String)
        requires
            self !is Other,
        ensures
            r@ == shown_arg_error(*self),
    {
        match self {
            ArgError::Parse(text) => {
                let mut out = "ArgError(\"".to_owned();
                out.append(text.as_str());
                out.append("\")");
                out
            },
            _ => "ArgError(\"end of string\")".to_owned(),
        }
    }
}

/// How the failure of a parser shows itself: its message in quotes and brackets.
pub open spec fn shown_parse_error(message: Seq<char>) -> Seq<char> {
    "ArgError(\""@ + message + "\")"@
}

/// How an argument error shows itself.
pub open spec fn shown_arg_error(e: ArgError) -> Seq<char> {
    match e {
        ArgError::Parse(message) => shown_parse_error(message@),
        _ => "ArgError(\"end of string\")"@,
    }
}

impl From<ArgError> for StringError {
    fn from(arg_error: ArgError) -> (r: Self)
        ensures
            r.0@ == arg_error_message(arg_error),
    {
        match arg_error {
            ArgError::Eos => StringError::from("Not enough arguments provided"),
            ArgError::Parse(text) => {
                let mut out = "Failed parsing an argument: ".to_owned();
                out.append(text.as_str());
                StringError(out)
            },
            ArgError::Other => StringError::from("Unknown argument parsing error"),
        }
    }
}

impl vstd::std_specs::convert::FromSpecImpl<ArgError> for StringError {
    open spec fn obeys_from_spec() -> bool {
        false
    }

    open spec fn from_spec(v: ArgError) -> Self {
        arbitrary()
    }
}

} // verus!
