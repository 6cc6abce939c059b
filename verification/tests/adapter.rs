use bebop_axum::{Bebop, CodecError, OwnedRecord, Rejection, WireResponse};

/// A two-byte record: its encoding is exactly `[x, y]`.
#[derive(Debug, Clone, PartialEq, Eq)]
struct Pair {
    x: u8,
    y: u8,
}

impl OwnedRecord for Pair {
    fn serialized_size(&self) -> usize {
        2
    }

    fn serialize(&self, dest: &mut Vec<u8>) -> Result<(), CodecError> {
        dest.push(self.x);
        dest.push(self.y);
        Ok(())
    }

    fn deserialize(bytes: &[u8]) -> Result<Pair, CodecError> {
        if bytes.len() == 2 {
            Ok(Pair { x: bytes[0], y: bytes[1] })
        } else {
            Err(CodecError { detail: format!("expected 2 bytes, got {}", bytes.len()) })
        }
    }
}

/// A record whose serialization always fails.
#[derive(Debug)]
struct Broken;

impl OwnedRecord for Broken {
    fn serialized_size(&self) -> usize {
        0
    }

    fn serialize(&self, _dest: &mut Vec<u8>) -> Result<(), CodecError> {
        Err(CodecError { detail: String::from("forced failure") })
    }

    fn deserialize(_bytes: &[u8]) -> Result<Broken, CodecError> {
        Err(CodecError { detail: String::from("never decodes") })
    }
}

fn octet() -> Option<String> {
    Some(String::from("application/octet-stream"))
}

#[test]
fn round_trip_preserves_value() {
    let v = Pair { x: 3, y: 9 };
    let response = Bebop(v.clone()).into_response();
    let body = match response {
        WireResponse::Payload { body } => body,
        WireResponse::Failure { .. } => panic!("encode failed"),
    };
    let decoded = match Bebop::<Pair>::from_request(octet(), Ok(body)) {
        Ok(envelope) => envelope,
        Err(_) => panic!("decode failed"),
    };
    assert_eq!(decoded.0, v);
}

#[test]
fn content_type_gate_rejects_before_body_read() {
    let wrong: Vec<Option<String>> = vec![
        None,
        Some(String::from("application/json")),
        Some(String::from("application/octet-stream; charset=utf-8")),
        Some(String::from("Application/Octet-Stream")),
        Some(String::from("application/octet-strea")),
    ];
    for content_type in wrong {
        let mut body_reads: usize = 0;
        // Staged use, as the framework glue does it: the content-type test
        // runs first, and the body is read only if it passes.
        let body: Result<Vec<u8>, String> = if bebop_axum::octet_content_type(&content_type) {
            body_reads += 1;
            Ok(vec![1, 2])
        } else {
            Err(String::from("never read"))
        };
        let rejection = match Bebop::<Pair>::from_request(content_type, body) {
            Ok(_) => panic!("gate let a wrong content type through"),
            Err(r) => r,
        };
        assert_eq!(body_reads, 0);
        assert!(matches!(rejection, Rejection::UnsupportedMediaType));
        assert_eq!(rejection.status(), 415);
        assert_eq!(rejection.message(), "Bebop only supports octet streams");
    }
}

#[test]
fn exact_content_type_passes_the_gate() {
    assert!(bebop_axum::octet_content_type(&octet()));
    assert!(!bebop_axum::octet_content_type(&None));
    assert!(!bebop_axum::octet_content_type(&Some(String::from("text/plain"))));
    assert_eq!(bebop_axum::octet_stream_content_type(), "application/octet-stream");
}

#[test]
fn invalid_body_yields_decode_failure() {
    let rejection = match Bebop::<Pair>::from_request(octet(), Ok(vec![1])) {
        Ok(_) => panic!("decode of a short body succeeded"),
        Err(r) => r,
    };
    assert_eq!(rejection.status(), 400);
    let message = rejection.message();
    assert!(message.contains("Bebop deserialization error: "));
    assert_eq!(message, "Bebop deserialization error: expected 2 bytes, got 1");
}

#[test]
fn structurally_invalid_body_yields_decode_failure() {
    let rejection = match Bebop::<Broken>::from_request(octet(), Ok(vec![1, 2, 3])) {
        Ok(_) => panic!("decode of a refused body succeeded"),
        Err(r) => r,
    };
    assert_eq!(rejection.status(), 400);
    assert_eq!(rejection.message(), "Bebop deserialization error: never decodes");
}

#[test]
fn body_read_failure_is_isolated() {
    let transport_error = String::from("connection reset by peer");
    let rejection = match Bebop::<Pair>::from_request(octet(), Err(transport_error)) {
        Ok(_) => panic!("decode of a failed body read succeeded"),
        Err(r) => r,
    };
    assert!(matches!(rejection, Rejection::BodyReadFailure));
    assert_eq!(rejection.status(), 400);
    let message = rejection.message();
    assert_eq!(message, "body should be octet stream");
    assert!(!message.contains("connection"));
}

#[test]
fn response_body_length_matches_serialized_size() {
    let v = Pair { x: 250, y: 0 };
    let size = v.serialized_size();
    let response = Bebop(v).into_response();
    assert_eq!(response.status(), 200);
    assert_eq!(response.content_type(), Some(String::from("application/octet-stream")));
    assert_eq!(response.message(), None);
    match response {
        WireResponse::Payload { body } => {
            assert_eq!(body.len(), size);
            assert_eq!(body, vec![250, 0]);
        },
        WireResponse::Failure { .. } => panic!("encode failed"),
    }
}

#[test]
fn forced_encode_failure_yields_500() {
    let response = Bebop(Broken).into_response();
    assert_eq!(response.status(), 500);
    assert_eq!(response.content_type(), None);
    let message = response.message().expect("a failed encode carries a message");
    assert!(message.contains("failed to serialize bebop record: "));
    assert_eq!(message, "failed to serialize bebop record: forced failure");
    assert!(matches!(response, WireResponse::Failure { .. }));
}

#[test]
fn empty_body_with_right_content_type_reaches_the_codec() {
    let rejection = match Bebop::<Pair>::from_request(octet(), Ok(Vec::new())) {
        Ok(_) => panic!("decode of an empty body succeeded"),
        Err(r) => r,
    };
    assert_eq!(rejection.message(), "Bebop deserialization error: expected 2 bytes, got 0");
}
