//! Frames of the Redis protocol, as they are handed to and produced by the
//! commands.
use crate::bytes_buf::bytes_view;
use bytes::Bytes;
use vstd::prelude::*;

verus! {

/// A frame in the Redis protocol.
#[derive(Debug, PartialEq)]
pub enum Frame {
    Simple(String),
    Error(String),
    Integer(u64),
    Bulk(Bytes),
    Null,
    Array(Vec<Frame>),
}

/// `f` is a bulk frame that holds exactly the bytes `data`.
pub open spec fn is_bulk_of(f: Frame, data: Seq<u8>) -> bool {
    f matches Frame::Bulk(b) && bytes_view(b) == data
}

impl Frame {
    /// The frames held by an array frame (empty for any other frame).
    pub open spec fn elements(self) -> Seq<Frame> {
        match self {
            Frame::Array(v) => v@,
            _ => Seq::empty(),
        }
    }

    /// Returns an empty array frame.
    pub fn array() -> (r: Frame)
        ensures
            r is Array,
            r.elements() == Seq::<Frame>::empty(),
    {
        Frame::Array(Vec::new())
    }

    /// Pushes a bulk frame onto the end of an array frame.
    pub fn push_bulk(&mut self, bytes: Bytes)
        requires
            *old(self) is Array,
        ensures
            *final(self) is Array,
            final(self).elements() == old(self).elements().push(Frame::Bulk(bytes)),
    {
        match self {
            Frame::Array(vec) => {
                vec.push(Frame::Bulk(bytes));
            },
            _ => {},
        }
    }

    /// Pushes an integer frame onto the end of an array frame.
    pub fn push_int(&mut self, value: u64)
        requires
            *old(self) is Array,
        ensures
            *final(self) is Array,
            final(self).elements() == old(self).elements().push(Frame::Integer(value)),
    {
        match self {
            Frame::Array(vec) => {
                vec.push(Frame::Integer(value));
            },
            _ => {},
        }
    }
}

} // verus!
