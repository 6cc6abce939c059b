use vstd::prelude::*;
use vstd::string::StringExecFns;

verus! {

/// Why the decode path refused a request. Every variant is terminal for the
/// request being processed; nothing is retried and no default record value is
/// substituted.
pub enum Rejection {
    /// `Content-Type` was missing or was not exactly the octet-stream media
    /// type. Reported with status 415 and a fixed message.
    UnsupportedMediaType,
    /// The transport failed while the body was being buffered. Reported with
    /// status 400 and a fixed message; the transport's own error detail is
    /// deliberately discarded.
    BodyReadFailure,
    /// The codec refused the body bytes; `detail` renders the codec's error.
    /// Reported with status 400 and a message embedding the detail.
    DecodeFailure { detail: String },
}

/// Ghost counterpart of `Rejection`, carrying the codec detail as a
/// character sequence so that decode outcomes can be stated in specs.
pub enum RejectionModel {
    UnsupportedMediaType,
    BodyReadFailure,
    DecodeFailure(Seq<char>),
}

/// The status class a rejection is reported with.
pub open spec fn rejection_status(m: RejectionModel) -> u16 {
    match m {
        RejectionModel::UnsupportedMediaType => 415,
        RejectionModel::BodyReadFailure => 400,
        RejectionModel::DecodeFailure(_) => 400,
    }
}

/// The user-visible message a rejection carries. Only the decode-failure
/// message depends on data; the other two are fixed.
pub open spec fn rejection_message(m: RejectionModel) -> Seq<char> {
    match m {
        RejectionModel::UnsupportedMediaType => "Bebop only supports octet streams"@,
        RejectionModel::BodyReadFailure => "body should be octet stream"@,
        RejectionModel::DecodeFailure(detail) => "Bebop deserialization error: "@ + detail,
    }
}

impl Rejection {
    /// Ghost view of the rejection.
    pub open spec fn model(&self) -> RejectionModel {
        match self {
            Rejection::UnsupportedMediaType => RejectionModel::UnsupportedMediaType,
            Rejection::BodyReadFailure => RejectionModel::BodyReadFailure,
            Rejection::DecodeFailure { detail } => RejectionModel::DecodeFailure(detail@),
        }
    }

    /// The status code of the rejection: 415 for an unsupported media type,
    /// 400 for a body-read or decode failure.
    pub fn status(&self) -> (s: u16)
        ensures
            s == rejection_status(self.model()),
    {
        match self {
            Rejection::UnsupportedMediaType => 415,
            Rejection::BodyReadFailure => 400,
            Rejection::DecodeFailure { .. } => 400,
        }
    }

    /// The user-visible message of the rejection.
    pub fn message(&self) -> (m: String)
        ensures
            m@ == rejection_message(self.model()),
    {
        match self {
            Rejection::UnsupportedMediaType => String::from_str("Bebop only supports octet streams"),
            Rejection::BodyReadFailure => String::from_str("body should be octet stream"),
            Rejection::DecodeFailure { detail } => String::from_str(
                "Bebop deserialization error: ",
            ).concat(detail.as_str()),
        }
    }
}

} // verus!
