//! What loading a ReSSA needs beside reading files: the scripts of its
//! patterns are minified, and each way of failing has its message.

use vstd::prelude::*;

verus! {

/// This type represents all possible errors that can occur when creating a
/// ReSSA from its file parts.
#[derive(Debug)]
pub enum MinifyError {
    Io(String),
    Deserialize(String),
}

/// The value of a [`MinifyError`].
pub enum MinifyErrorView {
    Io(Seq<char>),
    Deserialize(Seq<char>),
}

impl View for MinifyError {
    type V = MinifyErrorView;

    open spec fn view(&self) -> MinifyErrorView {
        match self {
            MinifyError::Io(text) => MinifyErrorView::Io(text@),
            MinifyError::Deserialize(text) => MinifyErrorView::Deserialize(text@),
        }
    }
}

impl MinifyErrorView {
    /// The message of an error.
    pub open spec fn message(self) -> Seq<char> {
        match self {
            MinifyErrorView::Io(text) => "Could not read file: "@ + text,
            MinifyErrorView::Deserialize(text) => "Could not deserialize ReSSA JSON: "@ + text,
        }
    }
}

impl MinifyError {
    /// The message of this error.
    pub fn to_string(&self) -> (message: String)
        ensures
            message@ == self@.message(),
    {
        match self {
            MinifyError::Io(text) => {
                let mut message = "Could not read file: ".to_owned();
                message.append(text.as_str());
                message
            },
            MinifyError::Deserialize(text) => {
                let mut message = "Could not deserialize ReSSA JSON: ".to_owned();
                message.append(text.as_str());
                message
            },
        }
    }
}

impl Clone for MinifyError {
    fn clone(&self) -> (copy: MinifyError)
        ensures
            copy@ == self@,
    {
        match self {
            MinifyError::Io(text) => MinifyError::Io(text.clone()),
            MinifyError::Deserialize(text) => MinifyError::Deserialize(text.clone()),
        }
    }
}

/// Errors that arise while running the ReSSA.
#[derive(Debug)]
pub enum Error {
    Io(String),
    Minify(String),
}

/// The value of an [`Error`].
pub enum ErrorView {
    Io(Seq<char>),
    Minify(Seq<char>),
}

impl View for Error {
    type V = ErrorView;

    open spec fn view(&self) -> ErrorView {
        match self {
            Error::Io(text) => ErrorView::Io(text@),
            Error::Minify(text) => ErrorView::Minify(text@),
        }
    }
}

impl ErrorView {
    /// The message of an error.
    pub open spec fn message(self) -> Seq<char> {
        match self {
            ErrorView::Io(text) => "IO Error: "@ + text,
            ErrorView::Minify(text) => "Minify Error: "@ + text,
        }
    }
}

impl Error {
    /// The message of this error.
    pub fn to_string(&self) -> (message: String)
        ensures
            message@ == self@.message(),
    {
        match self {
            Error::Io(text) => {
                let mut message = "IO Error: ".to_owned();
                message.append(text.as_str());
                message
            },
            Error::Minify(text) => {
                let mut message = "Minify Error: ".to_owned();
                message.append(text.as_str());
                message
            },
        }
    }
}

impl Clone for Error {
    fn clone(&self) -> (copy: Error)
        ensures
            copy@ == self@,
    {
        match self {
            Error::Io(text) => Error::Io(text.clone()),
            Error::Minify(text) => Error::Minify(text.clone()),
        }
    }
}

impl From<MinifyError> for Error {
    fn from(min_error: MinifyError) -> (error: Error)
        ensures
            error@ == ErrorView::Minify(min_error@.message()),
    {
        Error::Minify(min_error.to_string())
    }
}

/// An error is known by its value: `from` promises the value of the error.
impl vstd::std_specs::convert::FromSpecImpl<MinifyError> for Error {
    open spec fn obeys_from_spec() -> bool {
        false
    }

    open spec fn from_spec(min_error: MinifyError) -> Error {
        choose|error: Error| error@ == ErrorView::Minify(min_error@.message())
    }
}

/// A text without the occurrences of a pattern, found from the left, each
/// next one looked for behind the one before. An empty pattern takes
/// nothing away.
pub open spec fn without(text: Seq<char>, pattern: Seq<char>) -> Seq<char>
    decreases text.len(),
{
    if pattern.len() == 0 || text.len() < pattern.len() {
        text
    } else if text.take(pattern.len() as int) == pattern {
        without(text.skip(pattern.len() as int), pattern)
    } else {
        seq![text[0]] + without(text.skip(1), pattern)
    }
}

/// `str::replace` with an empty replacement: every match of the pattern is
/// left out, the matches being found from the left and not overlapping.
#[verifier::external_body]
fn remove_all(text: &str, pattern: &str) -> (rest: String)
    ensures
        rest@ == without(text@, pattern@),
{
    text.replace(pattern, "")
}

/// A script minified: first every run of four spaces is taken out, then
/// every pair of spaces that is left, then every line feed, then every
/// carriage return.
pub open spec fn minified(script: Seq<char>) -> Seq<char> {
    without(without(without(without(script, "    "@), "  "@), "\n"@), "\r"@)
}

/// Minifies the script of a pattern.
pub fn minify_script(script: &str) -> (small: String)
    ensures
        small@ == minified(script@),
{
    let indents = remove_all(script, "    ");
    let pairs = remove_all(indents.as_str(), "  ");
    let feeds = remove_all(pairs.as_str(), "\n");
    remove_all(feeds.as_str(), "\r")
}

} // verus!
