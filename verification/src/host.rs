//! What crosses the boundary to the host language, as plain values.

use vstd::prelude::*;
use crate::elem::{Values, ValuesView};
use crate::stream::HopStream;

verus! {

/// A collection of values as the host hands it over: for each primitive
/// element type, what the collection reads as under that type, if it can be
/// read as a sequence of it at all.
#[derive(Debug, PartialEq, Eq)]
pub struct ValueCollection {
    /// The collection as a sequence of signed 64-bit integers.
    pub as_ints: Option<Vec<i64>>,
    /// The collection as a sequence of 64-bit floating point numbers, each
    /// by its bits.
    pub as_floats: Option<Vec<u64>>,
}

impl ValueCollection {
    /// The first reading that the collection has, in the order of
    /// [`crate::elem::ElemType`]: integers before floats.
    pub open spec fn reading(&self) -> Option<ValuesView> {
        match (self.as_ints, self.as_floats) {
            (Some(ints), _) => Some(ValuesView::Int(ints@)),
            (None, Some(floats)) => Some(ValuesView::Float(floats@)),
            (None, None) => None,
        }
    }

    /// The first reading that the collection has, integers before floats.
    pub fn into_reading(self) -> (values: Option<Values>)
        ensures
            match values {
                Some(v) => self.reading() == Some(v@),
                None => self.reading() is None,
            },
    {
        if let Some(ints) = self.as_ints {
            Some(Values::Int(ints))
        } else if let Some(floats) = self.as_floats {
            Some(Values::Float(floats))
        } else {
            None
        }
    }
}

/// An object that the host passes where a stream handle is expected.
#[derive(Debug, PartialEq, Eq)]
pub enum HostObject {
    /// A stream handle.
    Stream(HopStream),
    /// Anything else.
    Other,
}

impl HostObject {
    /// Whether the object is a stream handle that has not been consumed.
    pub open spec fn is_live_stream(&self) -> bool {
        self matches HostObject::Stream(handle) && handle.stream.is_live()
    }

    /// The object after its stream, if it is one, has been consumed.
    pub open spec fn spent(self) -> HostObject {
        match self {
            HostObject::Stream(handle) => HostObject::Stream(
                HopStream { stream: handle.stream.spent() },
            ),
            HostObject::Other => HostObject::Other,
        }
    }
}

} // verus!
