//! The one error type of the library.

use vstd::prelude::*;
use vstd::string::StringExecFns;

verus! {

/// Why a topology could not be had.
///
/// The first four variants carry a diagnostic text; nothing else is said of
/// a failure.
#[derive(Debug, PartialEq, Eq)]
pub enum Error {
    /// The system did not hand out its topology. Holds the system's message.
    Sysctl(String),
    /// The document does not have the expected shape. Holds the reader's
    /// message.
    Decode(String),
    /// A name is none of the names its position admits. Holds the name.
    Parse(String),
    /// A text is not in the compact numeric form its position asks for. Holds
    /// the text.
    Scan(String),
    /// A rule that relates several records of the mesh is broken.
    GraphError,
}

/// What an [`Error`] says, with its text as a sequence of characters.
pub enum ErrorView {
    Sysctl(Seq<char>),
    Decode(Seq<char>),
    Parse(Seq<char>),
    Scan(Seq<char>),
    GraphError,
}

impl View for Error {
    type V = ErrorView;

    open spec fn view(&self) -> ErrorView {
        match self {
            Error::Sysctl(m) => ErrorView::Sysctl(m@),
            Error::Decode(m) => ErrorView::Decode(m@),
            Error::Parse(m) => ErrorView::Parse(m@),
            Error::Scan(m) => ErrorView::Scan(m@),
            Error::GraphError => ErrorView::GraphError,
        }
    }
}

impl ErrorView {
    /// The name of the variant.
    pub open spec fn name(self) -> Seq<char> {
        match self {
            ErrorView::Sysctl(_) => "Sysctl"@,
            ErrorView::Decode(_) => "Decode"@,
            ErrorView::Parse(_) => "Parse"@,
            ErrorView::Scan(_) => "Scan"@,
            ErrorView::GraphError => "GraphError"@,
        }
    }

    /// The line shown to a reader: the variant's name, followed by a colon, a
    /// space and the diagnostic text where the variant carries one.
    pub open spec fn text(self) -> Seq<char> {
        match self {
            ErrorView::Sysctl(m) => self.name() + ": "@ + m,
            ErrorView::Decode(m) => self.name() + ": "@ + m,
            ErrorView::Parse(m) => self.name() + ": "@ + m,
            ErrorView::Scan(m) => self.name() + ": "@ + m,
            ErrorView::GraphError => self.name(),
        }
    }
}

impl Error {
    /// The name of the variant.
    pub fn as_ref(&self) -> (name: &'static str)
        ensures
            name@ == self@.name(),
    {
        match self {
            Error::Sysctl(_) => "Sysctl",
            Error::Decode(_) => "Decode",
            Error::Parse(_) => "Parse",
            Error::Scan(_) => "Scan",
            Error::GraphError => "GraphError",
        }
    }

    /// The line shown to a reader.
    pub fn to_string(&self) -> (line: String)
        ensures
            line@ == self@.text(),
    {
        let head = String::from_str(self.as_ref());
        match self {
            Error::Sysctl(m) => head.concat(": ").concat(m.as_str()),
            Error::Decode(m) => head.concat(": ").concat(m.as_str()),
            Error::Parse(m) => head.concat(": ").concat(m.as_str()),
            Error::Scan(m) => head.concat(": ").concat(m.as_str()),
            Error::GraphError => head,
        }
    }
}

/// What a call gives, seen through the views: the view of what it returns or
/// the view of its error.
pub open spec fn outcome<T: View>(r: Result<T, Error>) -> Result<T::V, ErrorView> {
    match r {
        Ok(t) => Ok(t@),
        Err(e) => Err(e@),
    }
}

} // verus!
