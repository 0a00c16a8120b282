//! The failures of the workflow and the classes they fall into.

use vstd::prelude::*;

verus! {

/// The class of a failure.
#[derive(Clone, Copy, Debug, PartialEq, Eq, Structural)]
pub enum ErrorKind {
    /// The remote fetch or the download failed.
    Transport,
    /// The script text does not hold the URL that was asked for.
    Lookup,
    /// A file or a directory could not be created or written.
    Filesystem,
    /// The archiving tool reported a failure.
    ExternalProcess,
    /// The workflow was handed an outcome that it had not asked for.
    Sequence,
}

/// A failure of one step of the workflow.
#[derive(Clone, Debug, PartialEq, Eq)]
pub enum Stage4Error {
    /// The remote side could not be reached; holds the transport's own words.
    Unreachable(String),
    /// The remote side answered with a status outside the success range.
    HttpStatus(u16),
    /// The script has fewer archive lines than the profile's position needs.
    UrlNotFound,
    /// The archive line at the profile's position captured no URL text.
    MalformedCapture,
    /// The regex engine rejected the archive line pattern.
    Pattern,
    /// A file or a directory could not be created or written; holds the
    /// system's own words.
    Filesystem(String),
    /// The archiving tool did not exit with status zero; holds the bytes that
    /// it wrote to its standard error stream.
    ToolFailed(Vec<u8>),
    /// The outcome handed to the workflow does not answer the pending action.
    UnexpectedOutcome,
}

/// The mathematical value of a [`Stage4Error`]: texts are sequences of
/// characters, the tool's output a sequence of bytes.
pub enum Stage4ErrorView {
    Unreachable(Seq<char>),
    HttpStatus(u16),
    UrlNotFound,
    MalformedCapture,
    Pattern,
    Filesystem(Seq<char>),
    ToolFailed(Seq<u8>),
    UnexpectedOutcome,
}

impl View for Stage4Error {
    type V = Stage4ErrorView;

    open spec fn view(&self) -> Stage4ErrorView {
        match self {
            Stage4Error::Unreachable(detail) => Stage4ErrorView::Unreachable(detail@),
            Stage4Error::HttpStatus(status) => Stage4ErrorView::HttpStatus(*status),
            Stage4Error::UrlNotFound => Stage4ErrorView::UrlNotFound,
            Stage4Error::MalformedCapture => Stage4ErrorView::MalformedCapture,
            Stage4Error::Pattern => Stage4ErrorView::Pattern,
            Stage4Error::Filesystem(detail) => Stage4ErrorView::Filesystem(detail@),
            Stage4Error::ToolFailed(diagnostic) => Stage4ErrorView::ToolFailed(diagnostic@),
            Stage4Error::UnexpectedOutcome => Stage4ErrorView::UnexpectedOutcome,
        }
    }
}

impl Stage4ErrorView {
    /// The class that a failure belongs to.
    pub open spec fn kind(self) -> ErrorKind {
        match self {
            Stage4ErrorView::Unreachable(_) => ErrorKind::Transport,
            Stage4ErrorView::HttpStatus(_) => ErrorKind::Transport,
            Stage4ErrorView::UrlNotFound => ErrorKind::Lookup,
            Stage4ErrorView::MalformedCapture => ErrorKind::Lookup,
            Stage4ErrorView::Pattern => ErrorKind::Lookup,
            Stage4ErrorView::Filesystem(_) => ErrorKind::Filesystem,
            Stage4ErrorView::ToolFailed(_) => ErrorKind::ExternalProcess,
            Stage4ErrorView::UnexpectedOutcome => ErrorKind::Sequence,
        }
    }

    /// The text that describes a failure to a reader.
    pub open spec fn message(self) -> Seq<char> {
        match self {
            Stage4ErrorView::Unreachable(detail) => detail,
            Stage4ErrorView::HttpStatus(_) => "server answered with a non-success status"@,
            Stage4ErrorView::UrlNotFound => "no stage4 url at the profile's position in script"@,
            Stage4ErrorView::MalformedCapture => "unable to find url in script"@,
            Stage4ErrorView::Pattern => "stage4 url pattern was rejected"@,
            Stage4ErrorView::Filesystem(detail) => detail,
            Stage4ErrorView::ToolFailed(_) => "archiving tool did not exit with status zero"@,
            Stage4ErrorView::UnexpectedOutcome => "outcome does not answer the pending action"@,
        }
    }
}

impl Stage4Error {
    /// Returns the class of this failure.
    pub fn kind(&self) -> (kind: ErrorKind)
        ensures
            kind == self@.kind(),
    {
        match self {
            Stage4Error::Unreachable(_) => ErrorKind::Transport,
            Stage4Error::HttpStatus(_) => ErrorKind::Transport,
            Stage4Error::UrlNotFound => ErrorKind::Lookup,
            Stage4Error::MalformedCapture => ErrorKind::Lookup,
            Stage4Error::Pattern => ErrorKind::Lookup,
            Stage4Error::Filesystem(_) => ErrorKind::Filesystem,
            Stage4Error::ToolFailed(_) => ErrorKind::ExternalProcess,
            Stage4Error::UnexpectedOutcome => ErrorKind::Sequence,
        }
    }

    /// Returns the text that describes this failure. For a failure that
    /// carries the words of the transport or of the system, the text is those
    /// words, unchanged. What the tool wrote is bytes and stays in the value.
    pub fn message(&self) -> (text: String)
        ensures
            text@ == self@.message(),
    {
        match self {
            Stage4Error::Unreachable(detail) => detail.clone(),
            Stage4Error::HttpStatus(_) => "server answered with a non-success status".to_owned(),
            Stage4Error::UrlNotFound => "no stage4 url at the profile's position in script".to_owned(),
            Stage4Error::MalformedCapture => "unable to find url in script".to_owned(),
            Stage4Error::Pattern => "stage4 url pattern was rejected".to_owned(),
            Stage4Error::Filesystem(detail) => detail.clone(),
            Stage4Error::ToolFailed(_) => "archiving tool did not exit with status zero".to_owned(),
            Stage4Error::UnexpectedOutcome => "outcome does not answer the pending action".to_owned(),
        }
    }
}

} // verus!
