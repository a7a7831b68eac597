//! The opaque value container: type-erased storage of any encodable
//! value as an immutable byte buffer.

use vstd::prelude::*;

verus! {

#[verifier::external_type_specification]
#[verifier::external_body]
pub struct ExEncodeError(bincode::error::EncodeError);

#[verifier::external_type_specification]
#[verifier::external_body]
pub struct ExDecodeError(bincode::error::DecodeError);

/// An opaque value: the bytes produced by encoding a caller-supplied
/// typed object with a fixed, deterministic binary codec.
///
/// The buffer is never mutated after construction, and no type tag is
/// stored beside it: recovering the original object requires the caller
/// to ask for the same type that was encoded. Two values are equal iff
/// their bytes are identical, whatever types produced them.
#[derive(Debug)]
pub struct Value {
    data: Vec<u8>,
}

impl View for Value {
    type V = Seq<u8>;

    closed spec fn view(&self) -> Seq<u8> {
        self.data@
    }
}

impl Clone for Value {
    /// The clone is an independent, byte-equal copy of the buffer.
    fn clone(&self) -> (r: Self)
        ensures
            r@ == self@,
    {
        let data = self.data.clone();
        proof {
            assert(data@ =~= self.data@);
        }
        Value { data }
    }
}

impl PartialEq for Value {
    fn eq(&self, other: &Self) -> (r: bool) {
        if self.data.len() != other.data.len() {
            return false;
        }
        let mut i: usize = 0;
        while i < self.data.len()
            invariant
                i <= self.data@.len(),
                self.data@.len() == other.data@.len(),
                forall|j: int| 0 <= j < i ==> self.data@[j] == other.data@[j],
            decreases self.data@.len() - i,
        {
            if self.data[i] != other.data[i] {
                return false;
            }
            i += 1;
        }
        proof {
            assert(self.data@ =~= other.data@);
        }
        true
    }
}

impl vstd::std_specs::cmp::PartialEqSpecImpl for Value {
    open spec fn obeys_eq_spec() -> bool {
        true
    }

    open spec fn eq_spec(&self, other: &Self) -> bool {
        self@ == other@
    }
}

impl Value {
    /// Serialize any encodable object into a `Value`.
    ///
    /// Relies on `bincode::encode_to_vec` with the standard
    /// configuration: it returns the bytes that encode `obj`, or an
    /// encode error where the codec cannot represent the object.
    #[verifier::external_body]
    pub fn from_serializable<T: bincode::Encode>(obj: &T) -> (r: Result<Self, bincode::error::EncodeError>) {
        match bincode::encode_to_vec(obj, bincode::config::standard()) {
            Ok(data) => Ok(Value { data }),
            Err(e) => Err(e),
        }
    }

    /// Decode the stored bytes back into a caller-specified type.
    ///
    /// Relies on `bincode::decode_from_slice` with the standard
    /// configuration: it returns the value that the bytes encode, read
    /// as type `T`, or a decode error where the byte layout does not
    /// match `T`'s shape. Which type was originally encoded is not
    /// recorded: asking for a different type of a coincidentally
    /// matching shape silently yields its reading of the bytes.
    #[verifier::external_body]
    pub fn to_deserializable<T: bincode::Decode<()>>(&self) -> (r: Result<T, Box<bincode::error::DecodeError>>) {
        match bincode::decode_from_slice(&self.data, bincode::config::standard()) {
            Ok((decoded, _)) => Ok(decoded),
            Err(e) => Err(Box::new(e)),
        }
    }
}

} // verus!
