//! The library's errors, and how an error becomes an item.
use vstd::prelude::*;

use crate::chars::{opt_view, push_str};
use crate::Item;

verus! {

/// What went wrong. Each variant holds the text of its cause.
#[derive(Debug, Clone, PartialEq, Eq)]
pub enum Error {
    Io(String),
    Fmt(String),
    FromUtf8(String),
    ParseInt(String),
    Serde(String),
    Var(String),
    MissingEnvVar(String),
    Workflow(String),
    Clipboard(String),
}

/// The message of an error: a prefix naming its kind, then its cause.
pub open spec fn error_text(e: Error) -> Seq<char> {
    match e {
        Error::Io(m) => "IO Error: "@ + m@,
        Error::Fmt(m) => "Fmt Error: "@ + m@,
        Error::FromUtf8(m) => "FromUtf8 Error: "@ + m@,
        Error::ParseInt(m) => "ParseIntError: "@ + m@,
        Error::Serde(m) => "Serde Error: "@ + m@,
        Error::Var(m) => "Var Error: "@ + m@,
        Error::MissingEnvVar(m) => "Missing environment variable: "@ + m@,
        Error::Workflow(m) => "Workflow Error: "@ + m@,
        Error::Clipboard(m) => "Clipboard Error: "@ + m@,
    }
}

/// The name of the kind of cause that an error wraps, if it wraps one.
pub open spec fn error_source_name(e: Error) -> Option<Seq<char>> {
    match e {
        Error::Io(_) => Some("std::io::error::Error"@),
        Error::Fmt(_) => Some("core::fmt::Error"@),
        Error::FromUtf8(_) => Some("alloc::string::FromUtf8Error"@),
        Error::ParseInt(_) => Some("core::num::error::ParseIntError"@),
        Error::Serde(_) => Some("serde_json::error::Error"@),
        Error::Var(_) => Some("std::env::VarError"@),
        _ => None,
    }
}

pub type Result<T> = std::result::Result<T, Error>;

impl Error {
    /// The error's message.
    pub fn to_string(&self) -> (r: String)
        ensures
            r@ == error_text(*self),
    {
        let (prefix, cause) = match self {
            Error::Io(m) => ("IO Error: ", m),
            Error::Fmt(m) => ("Fmt Error: ", m),
            Error::FromUtf8(m) => ("FromUtf8 Error: ", m),
            Error::ParseInt(m) => ("ParseIntError: ", m),
            Error::Serde(m) => ("Serde Error: ", m),
            Error::Var(m) => ("Var Error: ", m),
            Error::MissingEnvVar(m) => ("Missing environment variable: ", m),
            Error::Workflow(m) => ("Workflow Error: ", m),
            Error::Clipboard(m) => ("Clipboard Error: ", m),
        };
        let mut r = prefix.to_owned();
        push_str(&mut r, cause.as_str());
        r
    }

    /// The name of the kind of cause that the error wraps, if it wraps one.
    pub fn source_name(&self) -> (r: Option<&'static str>)
        ensures
            match r {
                Some(s) => error_source_name(*self) == Some(s@),
                None => error_source_name(*self) is None,
            },
    {
        match self {
            Error::Io(_) => Some("std::io::error::Error"),
            Error::Fmt(_) => Some("core::fmt::Error"),
            Error::FromUtf8(_) => Some("alloc::string::FromUtf8Error"),
            Error::ParseInt(_) => Some("core::num::error::ParseIntError"),
            Error::Serde(_) => Some("serde_json::error::Error"),
            Error::Var(_) => Some("std::env::VarError"),
            _ => None,
        }
    }
}

impl From<String> for Error {
    fn from(msg: String) -> (r: Error) {
        Error::Workflow(msg)
    }
}

impl vstd::std_specs::convert::FromSpecImpl<String> for Error {
    open spec fn obeys_from_spec() -> bool {
        true
    }

    open spec fn from_spec(msg: String) -> Error {
        Error::Workflow(msg)
    }
}

impl From<&str> for Error {
    fn from(msg: &str) -> (r: Error) {
        Error::Workflow(msg.to_owned())
    }
}

/// A `String` cannot be built in a specification; `Error::Workflow` with the
/// message is what `from` returns.
impl vstd::std_specs::convert::FromSpecImpl<&str> for Error {
    open spec fn obeys_from_spec() -> bool {
        false
    }

    open spec fn from_spec(msg: &str) -> Error {
        Error::Workflow(choose|m: String| #[trigger] m@ == msg@)
    }
}

/// The item that reports an error with `message`: with the name of the
/// cause's kind as subtitle where there is a cause.
pub fn error_item_for(message: &str, source: Option<&str>) -> (r: Item)
    ensures
        match source {
            Some(s) => {
                &&& r.title@ == "Error: "@ + message@
                &&& opt_view(r.subtitle) == Some(s@)
                &&& (Item { subtitle: None, ..r }).is_bare()
            },
            None => r.title@ == "An error occurred: "@ + message@ && r.is_bare(),
        },
{
    match source {
        Some(s) => {
            let mut title = "Error: ".to_owned();
            push_str(&mut title, message);
            Item::new(title.as_str()).subtitle(s)
        },
        None => {
            let mut title = "An error occurred: ".to_owned();
            push_str(&mut title, message);
            Item::new(title.as_str())
        },
    }
}

/// An error that a workflow can show as an item.
pub trait WorkflowError {
    /// The error's message.
    fn message(&self) -> String;

    /// The name of the kind of cause that the error wraps, if any.
    fn source_type(&self) -> Option<String>;

    /// The item that reports the error.
    fn error_item(&self) -> Item
    {
        let m = self.message();
        match self.source_type() {
            Some(s) => error_item_for(m.as_str(), Some(s.as_str())),
            None => error_item_for(m.as_str(), None),
        }
    }
}

impl WorkflowError for Error {
    fn message(&self) -> String {
        self.to_string()
    }

    fn source_type(&self) -> Option<String> {
        match self.source_name() {
            Some(s) => Some(s.to_owned()),
            None => None,
        }
    }
}

} // verus!
