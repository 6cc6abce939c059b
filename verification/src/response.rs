use vstd::prelude::*;
use vstd::string::StringExecFns;

use crate::media_type::{octet_stream_content_type, octet_stream_media_type};

verus! {

/// Outcome of encoding one record into an HTTP-style response.
pub enum WireResponse {
    /// Serialization succeeded: the response carries exactly the bytes the
    /// codec wrote, under the octet-stream content type, with status 200.
    Payload { body: Vec<u8> },
    /// Serialization failed: the response carries a plain-text message
    /// embedding `detail`, the codec's rendered error, with status 500 and
    /// no content type of its own.
    Failure { detail: String },
}

/// Ghost counterpart of `WireResponse`: the body bytes of a successful
/// encode, or the rendered codec detail of a failed one.
pub enum EncodeModel {
    Payload(Seq<u8>),
    Failure(Seq<char>),
}

/// The status code a response is reported with.
pub open spec fn response_status(m: EncodeModel) -> u16 {
    match m {
        EncodeModel::Payload(_) => 200,
        EncodeModel::Failure(_) => 500,
    }
}

/// The plain-text body of a failed encode.
pub open spec fn failure_message(detail: Seq<char>) -> Seq<char> {
    "failed to serialize bebop record: "@ + detail
}

impl WireResponse {
    /// Ghost view of the response.
    pub open spec fn model(&self) -> EncodeModel {
        match self {
            WireResponse::Payload { body } => EncodeModel::Payload(body@),
            WireResponse::Failure { detail } => EncodeModel::Failure(detail@),
        }
    }

    /// The status code of the response: 200 for a payload, 500 for a failed
    /// encode.
    pub fn status(&self) -> (s: u16)
        ensures
            s == response_status(self.model()),
    {
        match self {
            WireResponse::Payload { .. } => 200,
            WireResponse::Failure { .. } => 500,
        }
    }

    /// The `Content-Type` value of the response: the octet-stream media type
    /// on a payload, none on a failed encode.
    pub fn content_type(&self) -> (r: Option<String>)
        ensures
            self.model() is Payload ==> (r matches Some(c) && c@ == octet_stream_media_type()),
            self.model() is Failure ==> r is None,
    {
        match self {
            WireResponse::Payload { .. } => Some(octet_stream_content_type()),
            WireResponse::Failure { .. } => None,
        }
    }

    /// The plain-text message of a failed encode, embedding the codec's
    /// rendered error; a payload has none.
    pub fn message(&self) -> (r: Option<String>)
        ensures
            self.model() is Payload ==> r is None,
            self.model() matches EncodeModel::Failure(d) ==> (r matches Some(m) && m@
                == failure_message(d)),
    {
        match self {
            WireResponse::Payload { .. } => None,
            WireResponse::Failure { detail } => Some(
                String::from_str("failed to serialize bebop record: ").concat(detail.as_str()),
            ),
        }
    }
}

} // verus!
