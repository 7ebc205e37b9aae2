//! The error taxonomy shared by every component of the library.

use vstd::prelude::*;
use vstd::string::StringExecFns;

verus! {

/// Result type used across the library.
pub type IrohResult<T> = Result<T, IrohError>;

/// Everything that can go wrong in a send or receive session.
///
/// `SendError` means that the progress sink is gone; it never aborts a
/// transfer. Every other kind is fatal to the session that observes it.
#[derive(Debug, Clone)]
pub enum IrohError {
    /// Sender-side failure: file access, ingestion, or an unusable request.
    NodeError(String),
    /// Transport or store failure while resolving a download.
    DownloadError(String),
    /// Header mismatch, broken length invariant, or undecodable bytes.
    InvalidMetadata(String),
    /// The ticket string is malformed.
    InvalidTicket,
    /// The ticket does not name a recognised collection format.
    UnsupportedFormat,
    /// The progress sink has been dropped by its consumer.
    SendError,
    /// Cooperative cancellation was observed.
    Cancelled,
    /// Anything that fits no other kind.
    Unknown,
}

/// The mathematical value of an error: its kind and the detail it carries.
pub enum IrohErrorView {
    NodeError(Seq<char>),
    DownloadError(Seq<char>),
    InvalidMetadata(Seq<char>),
    InvalidTicket,
    UnsupportedFormat,
    SendError,
    Cancelled,
    Unknown,
}

impl View for IrohError {
    type V = IrohErrorView;

    open spec fn view(&self) -> IrohErrorView {
        match self {
            IrohError::NodeError(e) => IrohErrorView::NodeError(e@),
            IrohError::DownloadError(e) => IrohErrorView::DownloadError(e@),
            IrohError::InvalidMetadata(e) => IrohErrorView::InvalidMetadata(e@),
            IrohError::InvalidTicket => IrohErrorView::InvalidTicket,
            IrohError::UnsupportedFormat => IrohErrorView::UnsupportedFormat,
            IrohError::SendError => IrohErrorView::SendError,
            IrohError::Cancelled => IrohErrorView::Cancelled,
            IrohError::Unknown => IrohErrorView::Unknown,
        }
    }
}

impl IrohErrorView {
    /// The human-readable message of this error.
    pub open spec fn message(self) -> Seq<char> {
        match self {
            IrohErrorView::InvalidTicket => "Invalid ticket"@,
            IrohErrorView::UnsupportedFormat => "Unsupported format"@,
            IrohErrorView::SendError => "Send error"@,
            IrohErrorView::Cancelled => "Cancelled"@,
            IrohErrorView::Unknown => "Unknown error"@,
            IrohErrorView::NodeError(e) => "Node error: "@ + e,
            IrohErrorView::DownloadError(e) => "Download error: "@ + e,
            IrohErrorView::InvalidMetadata(e) => "Invalid metadata: "@ + e,
        }
    }

    /// True for every kind that ends the session in which it is observed.
    pub open spec fn is_fatal(self) -> bool {
        !(self is SendError)
    }
}

impl IrohError {

    /// Renders the error as text.
    pub fn to_string(&self) -> (s: String)
        ensures
            s@ == self@.message(),
    {
        match self {
            IrohError::InvalidTicket => String::from_str("Invalid ticket"),
            IrohError::UnsupportedFormat => String::from_str("Unsupported format"),
            IrohError::SendError => String::from_str("Send error"),
            IrohError::Cancelled => String::from_str("Cancelled"),
            IrohError::Unknown => String::from_str("Unknown error"),
            IrohError::NodeError(e) => String::from_str("Node error: ").concat(e.as_str()),
            IrohError::DownloadError(e) => String::from_str("Download error: ").concat(e.as_str()),
            IrohError::InvalidMetadata(e) => String::from_str("Invalid metadata: ").concat(
                e.as_str(),
            ),
        }
    }

    /// Whether this error ends the session.
    pub fn fatal(&self) -> (b: bool)
        ensures
            b == self@.is_fatal(),
    {
        match self {
            IrohError::SendError => false,
            _ => true,
        }
    }
}

} // verus!
