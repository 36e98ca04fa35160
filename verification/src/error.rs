//! The errors of framing and parsing.
use vstd::prelude::*;

verus! {

#[verifier::external_type_specification]
#[verifier::external_body]
pub struct ExIoError(std::io::Error);

/// What can go wrong while framing or parsing a message.
#[derive(Debug)]
pub enum ProtocolError {
    /// An I/O failure of the underlying transport.
    IO(std::io::Error),
    /// The frame does not start with the start marker.
    InvalidMagic { expected: u16, got: u16 },
    /// The frame would be longer than the detector accepts.
    InvalidLength(usize),
    /// Fewer bytes are present than the frame needs.
    IncompleteData { needed: usize, available: usize },
    /// The checksum does not match the frame.
    ChecksumMismatch,
    /// The peer speaks another protocol version.
    VersionMismatch(String),
    /// Any other malformed input, with a description.
    ParseError(String),
}

/// An I/O failure becomes a `ProtocolError::IO`.
impl From<std::io::Error> for ProtocolError {
    fn from(e: std::io::Error) -> (r: Self) {
        ProtocolError::IO(e)
    }
}

impl vstd::std_specs::convert::FromSpecImpl<std::io::Error> for ProtocolError {
    open spec fn obeys_from_spec() -> bool {
        true
    }

    open spec fn from_spec(e: std::io::Error) -> Self {
        ProtocolError::IO(e)
    }
}

/// The result type of the protocol operations.
pub type Result<T> = std::result::Result<T, ProtocolError>;

/// A `ProtocolError` as contracts speak of it: each text by its characters.
pub enum ProtocolErrorView {
    IO(std::io::Error),
    InvalidMagic { expected: u16, got: u16 },
    InvalidLength(usize),
    IncompleteData { needed: usize, available: usize },
    ChecksumMismatch,
    VersionMismatch(Seq<char>),
    ParseError(Seq<char>),
}

impl View for ProtocolError {
    type V = ProtocolErrorView;

    open spec fn view(&self) -> ProtocolErrorView {
        match self {
            ProtocolError::IO(e) => ProtocolErrorView::IO(*e),
            ProtocolError::InvalidMagic { expected, got } => ProtocolErrorView::InvalidMagic {
                expected: *expected,
                got: *got,
            },
            ProtocolError::InvalidLength(n) => ProtocolErrorView::InvalidLength(*n),
            ProtocolError::IncompleteData { needed, available } =>
                ProtocolErrorView::IncompleteData { needed: *needed, available: *available },
            ProtocolError::ChecksumMismatch => ProtocolErrorView::ChecksumMismatch,
            ProtocolError::VersionMismatch(s) => ProtocolErrorView::VersionMismatch(s@),
            ProtocolError::ParseError(s) => ProtocolErrorView::ParseError(s@),
        }
    }
}

/// A result with its error taken by its view.
pub open spec fn result_view<T>(r: Result<T>) -> std::result::Result<T, ProtocolErrorView> {
    match r {
        Ok(v) => Ok(v),
        Err(e) => Err(e@),
    }
}

} // verus!
