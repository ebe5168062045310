//! Fixed-capacity text fields.
//!
//! `slug` and `uri` fields live in records of a fixed byte layout, so their
//! length is capped. An overlong input is refused at construction — never
//! silently truncated.

use vstd::prelude::*;
use crate::records::NinaError;

verus! {

/// The fixed capacity, in bytes, of a bounded text field.
pub const TEXT_CAPACITY: usize = 100;

/// A text field of at most `TEXT_CAPACITY` bytes.
#[derive(Debug)]
pub struct BoundedText {
    bytes: Vec<u8>,
}

impl View for BoundedText {
    type V = Seq<u8>;

    closed spec fn view(&self) -> Seq<u8> {
        self.bytes@
    }
}

impl BoundedText {
    /// Every constructed value respects the capacity.
    pub open spec fn wf(&self) -> bool {
        self@.len() <= TEXT_CAPACITY
    }

    /// Construct a bounded text field, refusing an overlong input with
    /// `FieldTooLong` rather than truncating it.
    pub fn new(bytes: Vec<u8>) -> (r: Result<BoundedText, NinaError>)
        ensures
            bytes@.len() <= TEXT_CAPACITY ==> (r matches Ok(t) && t@ == bytes@ && t.wf()),
            bytes@.len() > TEXT_CAPACITY ==> r == Err::<BoundedText, NinaError>(
                NinaError::FieldTooLong,
            ),
    {
        if bytes.len() > TEXT_CAPACITY {
            Err(NinaError::FieldTooLong)
        } else {
            Ok(BoundedText { bytes })
        }
    }

    /// Construct from an input already known to fit.
    pub fn from_bytes(bytes: Vec<u8>) -> (r: BoundedText)
        requires
            bytes@.len() <= TEXT_CAPACITY,
        ensures
            r@ == bytes@ && r.wf(),
    {
        BoundedText { bytes }
    }

    pub fn as_bytes(&self) -> (r: &Vec<u8>)
        ensures
            r@ == self@,
    {
        &self.bytes
    }

    pub fn len(&self) -> (r: usize)
        ensures
            r == self@.len(),
    {
        self.bytes.len()
    }

    /// An owned copy of the field's bytes.
    pub fn to_vec(&self) -> (r: Vec<u8>)
        ensures
            r@ == self@,
    {
        vstd::slice::slice_to_vec(self.bytes.as_slice())
    }
}

} // verus!
