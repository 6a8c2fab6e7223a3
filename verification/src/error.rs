//! The failures that the finder reports to its user.

use vstd::prelude::*;

verus! {

/// Everything that can go wrong between building the catalogue and placing
/// the editor's cursor. Where the failure is that of a collaborator, its
/// message is kept.
#[derive(Debug, PartialEq, Eq)]
pub enum Error {
    /// A source file could not be read, or the editor endpoint not reached.
    Io(String),
    /// A source file is malformed.
    Syn(String),
    /// A remote call was rejected by the editor, or the channel broke.
    Nvim(String),
    /// A file path is not valid text.
    Utf8,
    /// The editor shows no window on an ordinary, editable buffer.
    NoWindow,
}

/// A failure as a plain value.
pub enum ErrorView {
    Io(Seq<char>),
    Syn(Seq<char>),
    Nvim(Seq<char>),
    Utf8,
    NoWindow,
}

impl View for Error {
    type V = ErrorView;

    open spec fn view(&self) -> ErrorView {
        match self {
            Error::Io(m) => ErrorView::Io(m@),
            Error::Syn(m) => ErrorView::Syn(m@),
            Error::Nvim(m) => ErrorView::Nvim(m@),
            Error::Utf8 => ErrorView::Utf8,
            Error::NoWindow => ErrorView::NoWindow,
        }
    }
}

impl ErrorView {
    /// The text shown to the user for this failure.
    pub open spec fn text(self) -> Seq<char> {
        match self {
            ErrorView::Io(m) => m,
            ErrorView::Syn(m) => m,
            ErrorView::Nvim(m) => m,
            ErrorView::Utf8 => "Invalid utf-8 could not be parsed"@,
            ErrorView::NoWindow => "No valid window found"@,
        }
    }
}

impl Clone for Error {
    fn clone(&self) -> (res: Self)
        ensures
            res == *self,
    {
        match self {
            Error::Io(m) => Error::Io(m.clone()),
            Error::Syn(m) => Error::Syn(m.clone()),
            Error::Nvim(m) => Error::Nvim(m.clone()),
            Error::Utf8 => Error::Utf8,
            Error::NoWindow => Error::NoWindow,
        }
    }
}

impl Error {

    /// Renders the failure for the user: the collaborator's own message where
    /// there is one, a fixed sentence otherwise.
    pub fn message(&self) -> (res: String)
        ensures
            res@ == self@.text(),
    {
        match self {
            Error::Io(m) => m.clone(),
            Error::Syn(m) => m.clone(),
            Error::Nvim(m) => m.clone(),
            Error::Utf8 => "Invalid utf-8 could not be parsed".to_owned(),
            Error::NoWindow => "No valid window found".to_owned(),
        }
    }
}

} // verus!
