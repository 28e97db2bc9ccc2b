//! CAN frame values: an 11-bit standard identifier and up to 8 payload bytes.

use vstd::prelude::*;
use crate::errors::FrameError;

verus! {

/// Largest 11-bit standard identifier.
pub const MAX_STANDARD_ID: u16 = 0x7FF;

/// Largest payload a classic CAN data frame carries.
pub const MAX_PAYLOAD_LEN: usize = 8;

/// Mathematical model of a frame: its identifier and payload bytes.
pub struct FrameView {
    pub id: u16,
    pub payload: Seq<u8>,
}

impl FrameView {
    /// A well-formed frame: identifier fits in 11 bits, payload in 8 bytes.
    pub open spec fn wf(self) -> bool {
        self.id <= MAX_STANDARD_ID && self.payload.len() <= MAX_PAYLOAD_LEN
    }

    /// The same payload under a new identifier — what one relay hop does.
    pub open spec fn relabeled(self, id: u16) -> FrameView {
        FrameView { id, payload: self.payload }
    }
}

/// One CAN message. Immutable once constructed; construction rejects an
/// identifier wider than 11 bits or a payload longer than 8 bytes.
#[derive(Debug)]
pub struct Frame {
    id: u16,
    bytes: Vec<u8>,
}

impl View for Frame {
    type V = FrameView;

    closed spec fn view(&self) -> FrameView {
        FrameView { id: self.id, payload: self.bytes@ }
    }
}

impl Frame {
    /// Build a frame, checking the identifier first and the payload second.
    pub fn new(id: u16, bytes: Vec<u8>) -> (r: Result<Frame, FrameError>)
        ensures
            id > MAX_STANDARD_ID ==> r == Err::<Frame, FrameError>(FrameError::IdentifierTooWide),
            id <= MAX_STANDARD_ID && bytes@.len() > MAX_PAYLOAD_LEN
                ==> r == Err::<Frame, FrameError>(FrameError::PayloadTooLong),
            id <= MAX_STANDARD_ID && bytes@.len() <= MAX_PAYLOAD_LEN ==> {
                &&& r is Ok
                &&& r->Ok_0@ == (FrameView { id, payload: bytes@ })
                &&& r->Ok_0@.wf()
            },
    {
        if id > MAX_STANDARD_ID {
            Err(FrameError::IdentifierTooWide)
        } else if bytes.len() > MAX_PAYLOAD_LEN {
            Err(FrameError::PayloadTooLong)
        } else {
            Ok(Frame { id, bytes })
        }
    }

    pub fn id(&self) -> (r: u16)
        ensures
            r == self@.id,
    {
        self.id
    }

    pub fn payload(&self) -> (r: &Vec<u8>)
        ensures
            r@ == self@.payload,
    {
        &self.bytes
    }

    pub fn payload_len(&self) -> (r: usize)
        ensures
            r == self@.payload.len(),
    {
        self.bytes.len()
    }
}

impl Clone for Frame {
    fn clone(&self) -> (r: Self)
        ensures
            r@ == self@,
    {
        let bytes = self.bytes.clone();
        Frame { id: self.id, bytes }
    }
}

} // verus!
