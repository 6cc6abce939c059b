//! Adapter between a binary record codec and an HTTP-style request/response
//! boundary: it gates requests on the octet-stream content type, decodes a
//! buffered body into a typed record, and encodes a typed record back into
//! response bytes, with an exact error taxonomy for every failing path.

use vstd::prelude::*;

mod media_type;
mod model;
mod record;
mod rejection;
mod response;

pub use media_type::{
    content_type_view, is_octet_stream, octet_content_type, octet_stream_content_type,
    octet_stream_media_type,
};
pub use model::{
    body_view, decode_model, encode_model, lemma_body_failure_isolation, lemma_content_type_gate,
    lemma_decode_failure, lemma_encode_failure, lemma_round_trip, lemma_serialized_size_accuracy,
    DecodeModel,
};
pub use record::{CodecError, OwnedRecord};
pub use rejection::{rejection_message, rejection_status, Rejection, RejectionModel};
pub use response::{failure_message, response_status, EncodeModel, WireResponse};

verus! {

/// Envelope that exclusively owns one typed record for the duration of a
/// single decode or encode cycle. It has no state beyond the value it wraps.
pub struct Bebop<T: OwnedRecord>(pub T);

/// Whether a decode result reports exactly the outcome that the decode
/// policy assigns to its inputs.
pub open spec fn decode_matches<T: OwnedRecord>(
    r: Result<Bebop<T>, Rejection>,
    m: DecodeModel<T>,
) -> bool {
    match r {
        Ok(envelope) => m == DecodeModel::Accepted(envelope.0),
        Err(rejection) => m == DecodeModel::<T>::Rejected(rejection.model()),
    }
}

impl<T: OwnedRecord> Bebop<T> {
    /// Decode one inbound request, given its `Content-Type` value and the
    /// outcome of buffering its body: gate on the content type, then branch
    /// on the body read, then let the codec decide. Succeeds exactly when
    /// the content type is the octet-stream media type, the body was read,
    /// and the codec accepts the bytes; every failing path yields the one
    /// rejection the decode policy assigns to it.
    pub fn from_request(content_type: Option<String>, body: Result<Vec<u8>, String>) -> (r: Result<
        Bebop<T>,
        Rejection,
    >)
        ensures
            decode_matches(r, decode_model::<T>(content_type_view(&content_type), body_view(&body))),
    {
        if !octet_content_type(&content_type) {
            return Err(Rejection::UnsupportedMediaType);
        }
        let bytes = match body {
            Ok(bytes) => bytes,
            Err(_) => {
                return Err(Rejection::BodyReadFailure);
            },
        };
        match T::deserialize(bytes.as_slice()) {
            Ok(value) => Ok(Bebop(value)),
            Err(e) => Err(Rejection::DecodeFailure { detail: e.detail }),
        }
    }

    /// Encode the wrapped record into a response: pre-size a buffer to the
    /// record's serialized size and serialize into it. A successful encode
    /// carries exactly the codec's bytes; a failed one carries the codec's
    /// rendered error.
    pub fn into_response(self) -> (r: WireResponse)
        ensures
            r.model() == encode_model::<T>(self.0),
    {
        let size = self.0.serialized_size();
        let mut buffer: Vec<u8> = Vec::with_capacity(size);
        match self.0.serialize(&mut buffer) {
            Ok(_) => WireResponse::Payload { body: buffer },
            Err(e) => WireResponse::Failure { detail: e.detail },
        }
    }
}

} // verus!
