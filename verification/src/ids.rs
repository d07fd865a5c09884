//! Twelve-byte document identifiers.
use vstd::prelude::*;
use crate::text::{hex_encode, hex_of};

verus! {

/// The identifier of a stored document: twelve raw bytes.
#[derive(Clone, Copy, Debug, PartialEq, Eq)]
pub struct ObjectId {
    pub bytes: [u8; 12],
}

impl ObjectId {
    /// The identifier's 24-character lower-case hex form.
    pub open spec fn hex(self) -> Seq<char> {
        hex_of(self.bytes@)
    }

    /// The identifier in lower-case hex (what `ObjectId::to_hex` gives).
    pub fn to_hex(&self) -> (r: String)
        ensures
            r@ == self.hex(),
            r@.len() == 24,
    {
        hex_encode(&self.bytes)
    }
}

/// `id` was produced by the document store's identifier generator. Outside
/// this module only [`fresh_object_id`] establishes it, so a contract that
/// asks for a generated identifier is met only by calling the generator,
/// not by any identifier made up in its place. Any twelve bytes could come
/// out of the generator, so nothing follows from it about the bytes.
#[verifier::opaque]
pub closed spec fn is_generated_id(id: ObjectId) -> bool {
    true
}

/// A new identifier from the document store's generator
/// (`bson::oid::ObjectId::new`): it combines the clock, a per-process random
/// value and a counter, so nothing is stated of its bytes, only that it is a
/// generated identifier.
#[verifier::external_body]
pub(crate) fn fresh_object_id() -> (r: ObjectId)
    ensures
        is_generated_id(r),
{
    ObjectId { bytes: mongodb::bson::oid::ObjectId::new().bytes() }
}

} // verus!
