//! The codec that cuts frames out of a byte stream and parses them.
use crate::buffers::{bytes_mut_as_slice, bytes_mut_freeze, bytes_mut_split_to, bytes_mut_view};
use crate::error::Result;
use crate::protocol::traits::{FrameDetector, Protocol, ProtocolParser};
use bytes::BytesMut;
use std::marker::PhantomData;
use vstd::prelude::*;

verus! {

/// A codec for the protocol `P`: a frame detector and a parser of `P`.
pub struct ProtocolCodec<P: Protocol> {
    frame_detector: P::Detector,
    parser: P::Parser,
    _phantom_data: PhantomData<P>,
}

impl<P: Protocol> ProtocolCodec<P> {
    /// The frame detector of the codec.
    pub closed spec fn detector(&self) -> P::Detector {
        self.frame_detector
    }

    /// The parser of the codec.
    pub closed spec fn parser(&self) -> P::Parser {
        self.parser
    }

    /// A codec with a new frame detector and parser of `protocol`.
    pub fn new(protocol: &P) -> (r: Self)
        ensures
            call_ensures(P::create_frame_detector, (protocol,), r.detector()),
            call_ensures(P::create_parser, (protocol,), r.parser()),
    {
        Self {
            frame_detector: protocol.create_frame_detector(),
            parser: protocol.create_parser(),
            _phantom_data: PhantomData,
        }
    }

    /// The buffers on which `decode` does not fail: those in which the frame that
    /// the detector finds, if any, can be parsed.
    pub open spec fn decode_requires(&self, src: Seq<u8>) -> bool {
        match self.detector().spec_detect(src) {
            Ok(Some(n)) => self.parser().parse_requires(src.take(n as int)),
            _ => true,
        }
    }

    /// Whether `decode` can be called on `src`.
    pub fn can_decode(&mut self, src: &BytesMut) -> (r: bool)
        ensures
            r == old(self).decode_requires(bytes_mut_view(*src)),
            forall|s: Seq<u8>| #[trigger] final(self).detector().spec_detect(s) == old(self).detector().spec_detect(s),
            final(self).parser() == old(self).parser(),
    {
        match self.frame_detector.detect_frame(src) {
            Ok(Some(frame_len)) => {
                let frame = vstd::slice::slice_subrange(bytes_mut_as_slice(src), 0, frame_len);
                proof {
                    assert(frame@ == bytes_mut_view(*src).take(frame_len as int));
                }
                self.parser.can_parse(frame)
            },
            _ => true,
        }
    }

    /// What `decode` gives on the buffer `before`, leaving `after` in it: when the
    /// detector finds a frame, that many bytes are taken from the front and parsed;
    /// otherwise the buffer stays as it was and the detector's answer is returned.
    pub open spec fn decode_outcome(
        &self,
        before: Seq<u8>,
        after: Seq<u8>,
        r: Result<Option<P::Message>>,
    ) -> bool {
        match self.detector().spec_detect(before) {
            Ok(Some(n)) => {
                &&& after == before.skip(n as int)
                &&& match self.parser().spec_parse(before.take(n as int)) {
                    Ok(v) => r matches Ok(Some(m)) && m@ == v,
                    Err(e) => r matches Err(x) && x@ == e,
                }
            },
            Ok(None) => r matches Ok(None) && after == before,
            Err(e) => r matches Err(x) && x@ == e && after == before,
        }
    }

    /// Decodes one message from the front of `src`. When the detector finds a frame,
    /// that many bytes are taken from the front of `src` and parsed; otherwise `src`
    /// stays as it was and the detector's answer is returned.
    pub fn decode(&mut self, src: &mut BytesMut) -> (r: Result<Option<P::Message>>)
        requires
            old(self).decode_requires(bytes_mut_view(*old(src))),
        ensures
            forall|s: Seq<u8>| #[trigger] final(self).detector().spec_detect(s) == old(self).detector().spec_detect(s),
            final(self).parser() == old(self).parser(),
            old(self).decode_outcome(bytes_mut_view(*old(src)), bytes_mut_view(*final(src)), r),
    {
        match self.frame_detector.detect_frame(src) {
            Ok(Some(frame_len)) => {
                let frame = bytes_mut_freeze(bytes_mut_split_to(src, frame_len));
                match self.parser.parse(frame) {
                    Ok(message) => Ok(Some(message)),
                    Err(error) => Err(error),
                }
            },
            Ok(None) => Ok(None),
            Err(err) => Err(err),
        }
    }
}

} // verus!
