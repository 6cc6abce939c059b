use vstd::prelude::*;

use crate::media_type::{is_octet_stream, octet_stream_media_type};
use crate::record::OwnedRecord;
use crate::rejection::{rejection_message, rejection_status, RejectionModel};
use crate::response::{response_status, EncodeModel};

verus! {

/// Outcome of decoding one request: the accepted record, or the rejection
/// it was refused with.
pub enum DecodeModel<T> {
    Accepted(T),
    Rejected(RejectionModel),
}

/// View of a buffered body: the bytes that were read, or the transport's
/// rendered error when reading failed.
pub open spec fn body_view(body: &Result<Vec<u8>, String>) -> Result<Seq<u8>, Seq<char>> {
    match body {
        Ok(bytes) => Ok(bytes@),
        Err(e) => Err(e@),
    }
}

/// The decode policy in full: the content-type gate comes first, then the
/// body-read outcome, then the codec. Each failing path maps to exactly one
/// rejection.
pub open spec fn decode_model<T: OwnedRecord>(
    content_type: Option<Seq<char>>,
    body: Result<Seq<u8>, Seq<char>>,
) -> DecodeModel<T> {
    if !is_octet_stream(content_type) {
        DecodeModel::Rejected(RejectionModel::UnsupportedMediaType)
    } else {
        match body {
            Err(_) => DecodeModel::Rejected(RejectionModel::BodyReadFailure),
            Ok(bytes) => match T::decoded(bytes) {
                Some(v) => DecodeModel::Accepted(v),
                None => DecodeModel::Rejected(
                    RejectionModel::DecodeFailure(T::decode_err_detail(bytes)),
                ),
            },
        }
    }
}

/// The encode policy in full: a successful serialization yields exactly the
/// codec's bytes, a failed one yields the codec's rendered detail.
pub open spec fn encode_model<T: OwnedRecord>(v: T) -> EncodeModel {
    if v.encode_ok() {
        EncodeModel::Payload(v.encoded())
    } else {
        EncodeModel::Failure(v.encode_err_detail())
    }
}

/// Round trip: a record that its codec decodes back from its own encoding is
/// accepted unchanged when a successful response body is decoded under the
/// octet-stream content type. The adapter adds, strips and re-encodes
/// nothing in transit.
pub proof fn lemma_round_trip<T: OwnedRecord>(v: T)
    requires
        v.encode_ok(),
        T::decoded(v.encoded()) == Some(v),
    ensures
        encode_model::<T>(v) == EncodeModel::Payload(v.encoded()),
        decode_model::<T>(Some(octet_stream_media_type()), Ok(v.encoded()))
            == DecodeModel::Accepted(v),
{
}

/// Content-type gate: under anything but the exact octet-stream media type
/// the decoder rejects with the unsupported-media-type rejection, reported
/// with status 415, and the outcome does not depend on the body at all.
pub proof fn lemma_content_type_gate<T: OwnedRecord>(
    content_type: Option<Seq<char>>,
    b1: Result<Seq<u8>, Seq<char>>,
    b2: Result<Seq<u8>, Seq<char>>,
)
    requires
        content_type != Some(octet_stream_media_type()),
    ensures
        decode_model::<T>(content_type, b1)
            == DecodeModel::<T>::Rejected(RejectionModel::UnsupportedMediaType),
        decode_model::<T>(content_type, b1) == decode_model::<T>(content_type, b2),
        rejection_status(RejectionModel::UnsupportedMediaType) == 415,
{
}

/// Body-read failure isolation: a failed body read is rejected with the
/// fixed body-read rejection, reported with status 400, whatever the
/// transport's own error detail was: nothing of it reaches the caller.
pub proof fn lemma_body_failure_isolation<T: OwnedRecord>(d1: Seq<char>, d2: Seq<char>)
    ensures
        decode_model::<T>(Some(octet_stream_media_type()), Err(d1))
            == DecodeModel::<T>::Rejected(RejectionModel::BodyReadFailure),
        decode_model::<T>(Some(octet_stream_media_type()), Err(d1))
            == decode_model::<T>(Some(octet_stream_media_type()), Err(d2)),
        rejection_message(RejectionModel::BodyReadFailure) == "body should be octet stream"@,
{
}

/// Invalid decode: bytes the codec refuses are rejected with the
/// decode-failure rejection carrying the codec's rendered detail, reported
/// with status 400 and a message that embeds that detail after its fixed
/// prefix.
pub proof fn lemma_decode_failure<T: OwnedRecord>(bytes: Seq<u8>)
    requires
        T::decoded(bytes) is None,
    ensures
        decode_model::<T>(Some(octet_stream_media_type()), Ok(bytes))
            == DecodeModel::<T>::Rejected(
            RejectionModel::DecodeFailure(T::decode_err_detail(bytes)),
        ),
        rejection_status(RejectionModel::DecodeFailure(T::decode_err_detail(bytes))) == 400,
        rejection_message(RejectionModel::DecodeFailure(T::decode_err_detail(bytes)))
            == "Bebop deserialization error: "@ + T::decode_err_detail(bytes),
{
}

/// Serialized-size accuracy: an encode yields a payload exactly when the
/// record serializes, and then the body's byte length equals the record's
/// own serialized size.
pub proof fn lemma_serialized_size_accuracy<T: OwnedRecord>(v: T)
    ensures
        v.encode_ok() <==> encode_model::<T>(v) is Payload,
        encode_model::<T>(v) matches EncodeModel::Payload(b) ==> b.len() == v.encoded().len(),
{
}

/// Encode failure surfacing: a record whose serialization fails maps to the
/// failure response carrying the codec's rendered detail, reported with
/// status 500.
pub proof fn lemma_encode_failure<T: OwnedRecord>(v: T)
    requires
        !v.encode_ok(),
    ensures
        encode_model::<T>(v) == EncodeModel::Failure(v.encode_err_detail()),
        response_status(encode_model::<T>(v)) == 500,
{
}

} // verus!
