//! What a protocol provides: messages, a frame detector and a parser.
use crate::buffers::{bytes_mut_view, bytes_view};
use crate::error::{ProtocolErrorView, Result};
use bytes::{Bytes, BytesMut};
use std::fmt::Debug;
use vstd::prelude::*;

verus! {

/// A message of a protocol.
pub trait ProtocolMessage: View + Debug + Send + Sync + Clone + Sized {
    /// The kind of message.
    fn message_type(&self) -> &str;

    /// When `to_bytes` can serialise the message.
    spec fn to_bytes_requires(&self) -> bool;

    /// Serialises the message to bytes.
    fn to_bytes(&self) -> Result<Bytes>
        requires
            self.to_bytes_requires(),
    ;

    /// A one-line description of the message: by default its `Debug` form.
    fn summary(&self) -> String {
        crate::text::format_debug(self)
    }
}

/// Finds where a frame ends in a stream of bytes.
pub trait FrameDetector: Send + Sync + Sized {
    /// What `detect_frame` answers on the buffered bytes `src`.
    spec fn spec_detect(&self, src: Seq<u8>) -> std::result::Result<Option<usize>, ProtocolErrorView>;

    /// Detects the boundary of a frame and returns the length of the complete frame:
    /// `Ok(Some(len))` when a complete frame was found, `Ok(None)` when more data
    /// is needed, `Err(e)` when the data cannot hold a frame. Detection does not
    /// change what the detector answers.
    fn detect_frame(&mut self, src: &BytesMut) -> (r: Result<Option<usize>>)
        ensures
            crate::error::result_view(r) == old(self).spec_detect(bytes_mut_view(*src)),
            r matches Ok(Some(n)) ==> n <= bytes_mut_view(*src).len(),
            forall|s: Seq<u8>| #[trigger] final(self).spec_detect(s) == old(self).spec_detect(s),
    ;

    /// Resets the state of the detector; by default there is none to reset.
    fn reset(&mut self)
        default_ensures
            *final(self) == *old(self),
    {
    }
}

/// Turns frames into messages and messages into frames.
pub trait ProtocolParser: Send + Sync {
    type Message: ProtocolMessage;

    /// The frames that `parse` accepts without failing.
    spec fn parse_requires(&self, src: Seq<u8>) -> bool;

    /// What `parse` makes of the frame `src`.
    spec fn spec_parse(&self, src: Seq<u8>) -> std::result::Result<
        <Self::Message as View>::V,
        ProtocolErrorView,
    >;

    /// Whether `parse` accepts the frame `frame`.
    fn can_parse(&self, frame: &[u8]) -> (r: bool)
        ensures
            r == self.parse_requires(frame@),
    ;

    /// Parses a frame into a message.
    fn parse(&self, src: Bytes) -> (r: Result<Self::Message>)
        requires
            self.parse_requires(bytes_view(src)),
        ensures
            match r {
                Ok(m) => self.spec_parse(bytes_view(src)) == Ok::<_, ProtocolErrorView>(m@),
                Err(e) => self.spec_parse(bytes_view(src)) == Err::<<Self::Message as View>::V, _>(e@),
            },
    ;

    /// The messages that `encode` accepts without failing.
    spec fn encode_requires(&self, msg: <Self::Message as View>::V) -> bool;

    /// What `encode` makes of the message `msg`.
    spec fn spec_encode(&self, msg: <Self::Message as View>::V) -> std::result::Result<
        Seq<u8>,
        ProtocolErrorView,
    >;

    /// Encodes a message into the bytes of its frame.
    fn encode(&self, msg: &Self::Message) -> (r: Result<Bytes>)
        requires
            self.encode_requires(msg@),
        ensures
            match r {
                Ok(b) => self.spec_encode(msg@) == Ok::<_, ProtocolErrorView>(bytes_view(b)),
                Err(e) => self.spec_encode(msg@) == Err::<Seq<u8>, _>(e@),
            },
    ;
}

/// A complete protocol: its name, frame detector and parser.
pub trait Protocol: Send + Sync + 'static {
    type Message: ProtocolMessage;

    type Detector: FrameDetector;

    type Parser: ProtocolParser<Message = Self::Message>;

    /// The name of the protocol.
    spec fn spec_name(&self) -> Seq<char>;

    /// The name of the protocol.
    fn name(&self) -> (r: &str)
        ensures
            r@ == self.spec_name(),
    ;

    /// Creates a frame detector.
    fn create_frame_detector(&self) -> Self::Detector;

    /// Creates a parser.
    fn create_parser(&self) -> Self::Parser;

    /// The version of the protocol: "1.0" unless the protocol says otherwise.
    fn version(&self) -> (r: &str)
        default_ensures
            r@ == "1.0"@,
    {
        "1.0"
    }
}

} // verus!
