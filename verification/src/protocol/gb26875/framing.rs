//! Finding GB26875 frames in a stream of bytes.
use crate::buffers::{be_u16_at, bytes_mut_as_slice, bytes_mut_view};
use crate::error::{ProtocolError, ProtocolErrorView, Result};
use crate::protocol::gb26875::types::{END_MARKER, HEADER_SIZE, MAGIC_NUMBER};
use crate::protocol::traits::FrameDetector;
use crate::text::{end_marker_text, format_end_marker, no_magic_text};
use bytes::BytesMut;
use vstd::prelude::*;

verus! {

/// The frame detector of GB26875: finds the start marker, reads the data length
/// and checks the end marker.
pub struct FrameDetectorImpl {
    max_frame_size: usize,
}

/// The largest frame that `FrameDetectorImpl::new` accepts.
pub const DEFAULT_MAX_FRAME_SIZE: usize = 2048;

/// The shortest possible frame: a header, a checksum and an end marker.
pub const MIN_FRAME_SIZE: usize = 30;

/// Whether the start marker stands at position `i` of `s`.
pub open spec fn magic_at(s: Seq<u8>, i: int) -> bool {
    &&& 0 <= i
    &&& i + 1 < s.len()
    &&& be_u16_at(s, i) == MAGIC_NUMBER
}

/// Whether `i` is the first position of `s` where the start marker stands.
pub open spec fn first_magic_at(s: Seq<u8>, i: int) -> bool {
    &&& magic_at(s, i)
    &&& forall|j: int| 0 <= j < i ==> !#[trigger] magic_at(s, j)
}

/// The first position of the start marker in `s`, if any.
pub open spec fn spec_find_magic(s: Seq<u8>) -> Option<int> {
    if exists|i: int| first_magic_at(s, i) {
        Some(choose|i: int| first_magic_at(s, i))
    } else {
        None
    }
}

/// What detection answers on the buffered bytes `s` with frames of at most `max`
/// bytes. Too few bytes for any frame: more data is needed. No start marker: an
/// error once `max` bytes are buffered, else more data is needed. Otherwise the
/// frame's length is its header, its data length (the header's data unit length,
/// the two bytes at offsets 24 and 25 of the frame, big-endian), a checksum and an
/// end marker; a frame longer
/// than `max` is an error; a frame not yet complete needs more data; a complete
/// frame must end with the end marker, and then its length is the answer.
pub open spec fn spec_detect_frame(s: Seq<u8>, max: usize) -> std::result::Result<
    Option<usize>,
    ProtocolErrorView,
> {
    if s.len() < MIN_FRAME_SIZE {
        Ok(None)
    } else {
        match spec_find_magic(s) {
            None => if s.len() >= max {
                Err(ProtocolErrorView::ParseError(no_magic_text()))
            } else {
                Ok(None)
            },
            Some(start) => if s.len() < start + MIN_FRAME_SIZE {
                Ok(None)
            } else {
                let total = HEADER_SIZE + be_u16_at(s, start + 24) + 3;
                if total > max {
                    Err(ProtocolErrorView::InvalidLength(total as usize))
                } else if s.len() < start + total {
                    Ok(None)
                } else {
                    let marker = be_u16_at(s, start + total - 2);
                    if marker != END_MARKER {
                        Err(ProtocolErrorView::ParseError(end_marker_text(marker as u16)))
                    } else {
                        Ok(Some(total as usize))
                    }
                }
            },
        }
    }
}

impl FrameDetectorImpl {
    /// Every detector accepts frames of up to 2048 bytes.
    #[verifier::type_invariant]
    spec fn inv(self) -> bool {
        self.max_frame_size == DEFAULT_MAX_FRAME_SIZE
    }

    /// The largest frame this detector accepts: 2048 bytes for every detector.
    pub open spec fn max_frame_size(&self) -> usize {
        DEFAULT_MAX_FRAME_SIZE
    }

    /// A detector that accepts frames of up to 2048 bytes.
    pub fn new() -> (r: Self)
        ensures
            r.max_frame_size() == DEFAULT_MAX_FRAME_SIZE,
    {
        Self { max_frame_size: DEFAULT_MAX_FRAME_SIZE }
    }
}

impl FrameDetector for FrameDetectorImpl {
    open spec fn spec_detect(&self, src: Seq<u8>) -> std::result::Result<Option<usize>, ProtocolErrorView> {
        spec_detect_frame(src, self.max_frame_size())
    }

    fn detect_frame(&mut self, src: &BytesMut) -> (r: Result<Option<usize>>)
        ensures
            *final(self) == *old(self),
    {
        proof {
            use_type_invariant(&*self);
        }
        let bytes = bytes_mut_as_slice(src);
        let ghost s = bytes@;
        if bytes.len() < MIN_FRAME_SIZE {
            return Ok(None);
        }

        // Find the start marker.
        let start_pos = find_magic(src);

        let start_offset = match start_pos {
            Some(start) => start,
            None => {
                // No start marker.
                if bytes.len() >= self.max_frame_size {
                    let r = Err(ProtocolError::ParseError(
                        "No magic number found within max frame size".to_string(),
                    ));
                    proof {
                        reveal_strlit("No magic number found within max frame size");
                    }
                    return r;
                }
                return Ok(None);
            },
        };

        if bytes.len() - start_offset < MIN_FRAME_SIZE {
            return Ok(None);
        }
        // Read the data length.
        if bytes.len() - start_offset < HEADER_SIZE {
            return Ok(None);
        }

        let data_len = u16_from_be_bytes(bytes[start_offset + 24], bytes[start_offset + 25]) as usize;
        let total_len = HEADER_SIZE + data_len + 1 + 2;

        if total_len > self.max_frame_size {
            return Err(ProtocolError::InvalidLength(total_len));
        }
        if bytes.len() - start_offset < total_len {
            return Ok(None);
        }
        // Check the end marker.
        let end_pos = start_offset + HEADER_SIZE + data_len + 1;
        let end_marker = u16_from_be_bytes(bytes[end_pos], bytes[end_pos + 1]);

        if end_marker != END_MARKER {
            return Err(ProtocolError::ParseError(format_end_marker(end_marker)));
        }
        Ok(Some(total_len))
    }
}

/// The `u16` whose big-endian bytes are `hi` and `lo`.
fn u16_from_be_bytes(hi: u8, lo: u8) -> (r: u16)
    ensures
        r == hi * 256 + lo,
{
    (hi as u16) * 256 + (lo as u16)
}

/// The position of the first start marker in `src`.
fn find_magic(src: &BytesMut) -> (r: Option<usize>)
    ensures
        match r {
            Some(i) => spec_find_magic(bytes_mut_view(*src)) == Some(i as int),
            None => spec_find_magic(bytes_mut_view(*src)) is None,
        },
{
    let bytes = bytes_mut_as_slice(src);
    let ghost s = bytes@;
    let hi = (MAGIC_NUMBER / 256) as u8;
    let lo = (MAGIC_NUMBER % 256) as u8;
    let mut i: usize = 0;
    while bytes.len() >= 2 && i < bytes.len() - 1
        invariant
            s == bytes@,
            s == bytes_mut_view(*src),
            hi * 256 + lo == MAGIC_NUMBER,
            0 <= i <= bytes.len(),
            forall|j: int| 0 <= j < i ==> !#[trigger] magic_at(s, j),
        decreases bytes.len() - i,
    {
        if bytes[i] == hi && bytes[i + 1] == lo {
            assert(first_magic_at(s, i as int));
            proof {
                let k = choose|k: int| first_magic_at(s, k);
                assert(k == i) by {
                    if k < i {
                        assert(!magic_at(s, k));
                    } else if k > i {
                        assert(!magic_at(s, i as int));
                    }
                }
                assert(spec_find_magic(s) == Some(i as int));
            }
            return Some(i);
        }
        i = i + 1;
    }
    assert forall|k: int| !first_magic_at(s, k) by {
        if first_magic_at(s, k) {
            assert(!magic_at(s, k));
        }
    }
    None
}

} // verus!
