//! Samples: what a publication carries.

use vstd::prelude::*;
use crate::encoding::Encoding;

verus! {

/// Whether a sample asserts a value at its key or retracts it.
#[derive(Clone, Copy, Debug, PartialEq, Eq, Structural)]
pub enum SampleKind {
    Put,
    Delete,
}

impl SampleKind {
    /// The kind a sample has when it names none: `Put`.
    pub open spec fn spec_default() -> Self {
        SampleKind::Put
    }
}

impl Default for SampleKind {
    fn default() -> (r: Self)
        ensures
            r == Self::spec_default(),
    {
        SampleKind::Put
    }
}

/// A timestamp minted by a session: a 64-bit time and the identifier of the
/// clock that gave it.
#[derive(Clone, Copy, Debug, PartialEq, Eq, Structural)]
pub struct Timestamp {
    pub time: u64,
    pub id: u128,
}

/// What a [`Value`] is in contracts: its bytes in order, and its encoding.
pub struct ValueView {
    pub payload: Seq<u8>,
    pub encoding: Encoding,
}

/// A payload and the tag that says how to read it.
#[derive(Clone, Debug, PartialEq, Eq)]
pub struct Value {
    pub payload: Vec<u8>,
    pub encoding: Encoding,
}

impl View for Value {
    type V = ValueView;

    open spec fn view(&self) -> ValueView {
        ValueView { payload: self.payload@, encoding: self.encoding }
    }
}

impl Value {
    /// A value with the given payload and the default encoding.
    pub fn new(payload: Vec<u8>) -> (r: Value)
        ensures
            r.payload == payload,
            r.encoding == Encoding::spec_default(),
    {
        Value { payload, encoding: Encoding::Exact(crate::encoding::KnownEncoding::Empty) }
    }

    /// The value of a delete: no payload, default encoding.
    pub fn empty() -> (r: Value)
        ensures
            r@ == (ValueView { payload: Seq::<u8>::empty(), encoding: Encoding::spec_default() }),
    {
        Value { payload: Vec::new(), encoding: Encoding::Exact(crate::encoding::KnownEncoding::Empty) }
    }

    /// The same payload under another encoding.
    pub fn encoding(self, encoding: Encoding) -> (r: Value)
        ensures
            r.payload == self.payload,
            r.encoding == encoding,
    {
        Value { payload: self.payload, encoding }
    }
}

impl From<Vec<u8>> for Value {
    fn from(payload: Vec<u8>) -> (r: Self) {
        Value { payload, encoding: Encoding::Exact(crate::encoding::KnownEncoding::Empty) }
    }
}

impl vstd::std_specs::convert::FromSpecImpl<Vec<u8>> for Value {
    open spec fn obeys_from_spec() -> bool {
        true
    }

    open spec fn from_spec(payload: Vec<u8>) -> Self {
        Value { payload, encoding: Encoding::spec_default() }
    }
}

} // verus!
