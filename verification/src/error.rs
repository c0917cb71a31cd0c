//! The ways in which a download fails.

use vstd::prelude::*;

verus! {

/// The failure of a download. A response with a status outside 200 to 299
/// is none: it ends the download without a file and without an error.
#[derive(Debug, PartialEq, Eq)]
pub enum DownloadError {
    /// The target is no absolute URL; the parser's reason is inside.
    InvalidUrl(url::ParseError),
    /// The request or the transfer of the body failed; the cause is inside.
    TransportError(String),
    /// The file could not be written; the cause is inside.
    IoError(String),
}

/// The mathematical value of a `DownloadError`.
pub enum ErrorView {
    InvalidUrl(url::ParseError),
    TransportError(Seq<char>),
    IoError(Seq<char>),
}

impl View for DownloadError {
    type V = ErrorView;

    open spec fn view(&self) -> ErrorView {
        match *self {
            DownloadError::InvalidUrl(reason) => ErrorView::InvalidUrl(reason),
            DownloadError::TransportError(cause) => ErrorView::TransportError(cause@),
            DownloadError::IoError(cause) => ErrorView::IoError(cause@),
        }
    }
}

} // verus!
