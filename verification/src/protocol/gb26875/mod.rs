//! The GB26875 protocol.
pub mod framing;
pub mod parser;
pub mod properties;
pub mod types;

use crate::protocol::gb26875::framing::{FrameDetectorImpl, DEFAULT_MAX_FRAME_SIZE};
use crate::protocol::gb26875::parser::ParserImpl;
use crate::protocol::gb26875::types::ProtocolAMessage;
use crate::protocol::traits::Protocol;
use vstd::prelude::*;

verus! {

/// The GB26875 protocol, served as "ProtocolA".
pub struct ProtocolA;

impl Protocol for ProtocolA {
    type Message = ProtocolAMessage;

    type Detector = FrameDetectorImpl;

    type Parser = ParserImpl;

    open spec fn spec_name(&self) -> Seq<char> {
        "ProtocolA"@
    }

    fn name(&self) -> (r: &str) {
        "ProtocolA"
    }

    fn create_frame_detector(&self) -> (r: FrameDetectorImpl)
        ensures
            r.max_frame_size() == DEFAULT_MAX_FRAME_SIZE,
    {
        FrameDetectorImpl::new()
    }

    fn create_parser(&self) -> (r: ParserImpl) {
        ParserImpl
    }

    fn version(&self) -> (r: &str)
        ensures
            r@ == "1.0"@,
    {
        "1.0"
    }
}

} // verus!
