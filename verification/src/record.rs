use vstd::prelude::*;

verus! {

/// Error reported by a record codec, reduced to the rendered description
/// that the adapter embeds in its user-visible failure messages.
pub struct CodecError {
    /// Rendered description of the codec's error value.
    pub detail: String,
}

/// Capability interface of an owned binary record: a value that can be
/// constructed from a byte sequence and serialized back to bytes without
/// borrowing from either side.
///
/// The spec functions give each implementation a mathematical model: the
/// byte sequence a value serializes to, whether serialization succeeds,
/// what a byte sequence decodes to, and the rendered error details for the
/// failing paths. The executable methods are pinned to that model. The
/// defaults of the spec functions are placeholders for implementations that
/// live outside the verifier; an implementation the verifier checks states
/// its own model by overriding them.
pub trait OwnedRecord: Sized {
    /// The bytes that a successful serialization of `self` writes.
    open spec fn encoded(&self) -> Seq<u8> {
        Seq::empty()
    }

    /// Whether serialization of `self` succeeds.
    open spec fn encode_ok(&self) -> bool {
        true
    }

    /// Rendered codec error for a failing serialization of `self`.
    open spec fn encode_err_detail(&self) -> Seq<char> {
        Seq::empty()
    }

    /// The record, if any, that `bytes` decodes to.
    open spec fn decoded(bytes: Seq<u8>) -> Option<Self> {
        None
    }

    /// Rendered codec error for bytes that do not decode.
    open spec fn decode_err_detail(bytes: Seq<u8>) -> Seq<char> {
        Seq::empty()
    }

    /// The exact number of bytes that `serialize` will write.
    fn serialized_size(&self) -> (n: usize)
        ensures
            n == self.encoded().len(),
    ;

    /// Append the binary representation of `self` to `dest`.
    fn serialize(&self, dest: &mut Vec<u8>) -> (r: Result<(), CodecError>)
        ensures
            self.encode_ok() ==> r is Ok && final(dest)@ == old(dest)@ + self.encoded(),
            !self.encode_ok() ==> (r matches Err(e) && e.detail@ == self.encode_err_detail()),
    ;

    /// Construct a record from `bytes`, owning the result.
    fn deserialize(bytes: &[u8]) -> (r: Result<Self, CodecError>)
        ensures
            Self::decoded(bytes@) matches Some(v) ==> (r matches Ok(w) && w == v),
            Self::decoded(bytes@) is None ==> (r matches Err(e) && e.detail@
                == Self::decode_err_detail(bytes@)),
    ;
}

} // verus!
