//! The errors of launching and disposing, and the lines that show them.

use vstd::prelude::*;
use vstd::std_specs::convert::FromSpec;
use vstd::std_specs::convert::FromSpecImpl;

verus! {

/// What went wrong, with the operating system's or the client's own words
/// for it where there are any.
#[derive(Debug, Clone, PartialEq, Eq)]
pub enum ErrorInner {
    /// Failed to create the temporary directory: the cause.
    MakeTempDir(String),
    /// Failed to create the database directory: its path, the cause.
    MakeDbDir(String, String),
    /// Failed to spawn the server: the command that was tried, the cause.
    SpawnServer(String, String),
    /// Failed to kill the server: the cause.
    KillServer(String),
    /// Failed to clean up the temporary directory: its path, the cause.
    CleanDir(String, String),
    /// Failed to connect to the server: the address, the cause.
    Connect(String, String),
    /// The operating system gave no free port.
    Port,
}

/// An error kind over sequences of characters.
pub enum ErrorView {
    MakeTempDir(Seq<char>),
    MakeDbDir(Seq<char>, Seq<char>),
    SpawnServer(Seq<char>, Seq<char>),
    KillServer(Seq<char>),
    CleanDir(Seq<char>, Seq<char>),
    Connect(Seq<char>, Seq<char>),
    Port,
}

impl ErrorView {
    /// The line shown to a person for this error.
    pub open spec fn message(self) -> Seq<char> {
        match self {
            ErrorView::MakeTempDir(cause) => "Failed to create temporary directory: "@ + cause,
            ErrorView::MakeDbDir(path, cause) => "Failed to create data directory "@ + path + ": "@
                + cause,
            ErrorView::SpawnServer(name, cause) => "Failed to run server command: "@ + name + ": "@
                + cause,
            ErrorView::KillServer(cause) => "Failed to terminate spanwed server: "@ + cause,
            ErrorView::CleanDir(path, cause) => "Failed to clean up temporary state directory "@
                + path + ": "@ + cause,
            ErrorView::Connect(address, cause) => "Failed to connect to server at "@ + address
                + ": "@ + cause,
            ErrorView::Port => "Failed to select a free port by the os "@,
        }
    }
}

impl View for ErrorInner {
    type V = ErrorView;

    open spec fn view(&self) -> ErrorView {
        match self {
            ErrorInner::MakeTempDir(cause) => ErrorView::MakeTempDir(cause@),
            ErrorInner::MakeDbDir(path, cause) => ErrorView::MakeDbDir(path@, cause@),
            ErrorInner::SpawnServer(name, cause) => ErrorView::SpawnServer(name@, cause@),
            ErrorInner::KillServer(cause) => ErrorView::KillServer(cause@),
            ErrorInner::CleanDir(path, cause) => ErrorView::CleanDir(path@, cause@),
            ErrorInner::Connect(address, cause) => ErrorView::Connect(address@, cause@),
            ErrorInner::Port => ErrorView::Port,
        }
    }
}

/// `head`, then `middle`, then `separator`, then `tail`, as one string.
fn four_parts(head: &str, middle: &str, separator: &str, tail: &str) -> (text: String)
    ensures
        text@ == head@ + middle@ + separator@ + tail@,
{
    let mut text = String::from_str(head);
    text.append(middle);
    text.append(separator);
    text.append(tail);
    text
}

impl ErrorInner {
    /// The line shown to a person for this error: what failed, on what, and
    /// the cause.
    pub fn message(&self) -> (text: String)
        ensures
            text@ == self@.message(),
    {
        match self {
            ErrorInner::MakeTempDir(cause) => String::from_str(
                "Failed to create temporary directory: ",
            ).concat(cause.as_str()),
            ErrorInner::MakeDbDir(path, cause) => four_parts(
                "Failed to create data directory ",
                path.as_str(),
                ": ",
                cause.as_str(),
            ),
            ErrorInner::SpawnServer(name, cause) => four_parts(
                "Failed to run server command: ",
                name.as_str(),
                ": ",
                cause.as_str(),
            ),
            ErrorInner::KillServer(cause) => String::from_str(
                "Failed to terminate spanwed server: ",
            ).concat(cause.as_str()),
            ErrorInner::CleanDir(path, cause) => four_parts(
                "Failed to clean up temporary state directory ",
                path.as_str(),
                ": ",
                cause.as_str(),
            ),
            ErrorInner::Connect(address, cause) => four_parts(
                "Failed to connect to server at ",
                address.as_str(),
                ": ",
                cause.as_str(),
            ),
            ErrorInner::Port => String::from_str("Failed to select a free port by the os "),
        }
    }
}

/// An error that can occur when creating or cleaning a MongoDB instance.
#[derive(Debug, Clone, PartialEq, Eq)]
pub struct Error {
    inner: ErrorInner,
}

impl View for Error {
    type V = ErrorView;

    closed spec fn view(&self) -> ErrorView {
        self.inner@
    }
}

impl DeepView for Error {
    type V = ErrorView;

    open spec fn deep_view(&self) -> ErrorView {
        self@
    }
}

impl Error {
    /// The kind of this error and what it carries.
    pub fn inner(&self) -> (inner: &ErrorInner)
        ensures
            inner@ == self@,
    {
        &self.inner
    }

    /// The line shown to a person for this error.
    pub fn message(&self) -> (text: String)
        ensures
            text@ == self@.message(),
    {
        self.inner.message()
    }
}

impl From<ErrorInner> for Error {
    fn from(inner: ErrorInner) -> (error: Self) {
        Error { inner }
    }
}

impl FromSpecImpl<ErrorInner> for Error {
    open spec fn obeys_from_spec() -> bool {
        true
    }

    closed spec fn from_spec(inner: ErrorInner) -> Self {
        Error { inner }
    }
}

/// An error made from a kind shows that kind.
pub proof fn lemma_from_keeps_kind(inner: ErrorInner)
    ensures
        <Error as FromSpec<ErrorInner>>::from_spec(inner)@ == inner@,
{
}

} // verus!
