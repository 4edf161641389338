//! Wire-codec tests: request reading, response writing, and round trips.

use picturas::json::{Json, JsonNum};
use picturas::wire::{
    ErrorObject, Metadata, OutputObject, OutputType, ResponseMessage, ResponseStatus,
};
use picturas::worker::Tool;

#[test]
fn test_deserialize_request_message() {
    let input = r#"{
            "messageId": "request-2",
            "timestamp": "2024-11-01T12:00:00Z",
            "procedure": "rotate",
            "parameters": {
                "inputImageURI": "images/request-1-out.jpg",
                "outputImageURI": "images/request-2-out.jpg",
                "angle": -90
            }
        }"#;

    let input = picturas::worker::parse_request(input).expect("Failed to parse input");

    assert_eq!(input.message_id, "request-2");
    assert_eq!(input.params.image_uris.input_image_uri, "images/request-1-out.jpg");
    assert_eq!(
        input.params.image_uris.output_image_uri,
        Some("images/request-2-out.jpg".to_string())
    );
    assert_eq!(
        input.params.tool,
        Tool::Rotate { angle: JsonNum { neg: true, mantissa: 90, scale: 0 } }
    );
}

#[test]
fn test_deserialize() {
    let input = r#"{
            "messageId": "request-2",
            "timestamp": "2024-11-01T12:00:00Z",
            "procedure": "rotate",
            "parameters": {
                "inputImageURI": "images/request-1-out.jpg",
                "outputImageURI": "images/request-2-out.jpg",
                "angle": -90
            }
        }"#;

    let input = picturas::worker::parse_request(input).expect("Failed to parse input");

    assert_eq!(input.message_id, "request-2");
    assert_eq!(input.timestamp, "2024-11-01T12:00:00Z");
    assert_eq!(input.params.image_uris.input_image_uri, "images/request-1-out.jpg");
    assert_eq!(
        input.params.image_uris.output_image_uri,
        Some("images/request-2-out.jpg".to_string())
    );
    assert_eq!(
        input.params.tool,
        Tool::Rotate { angle: JsonNum { neg: true, mantissa: 90, scale: 0 } }
    );
}

#[test]
fn test_serialize_response_message() {
    let response = ResponseMessage {
        message_id: "completion-2".to_string(),
        correlation_id: "request-2".to_string(),
        timestamp: "2024-11-01T12:00:01Z".to_string(),
        status: ResponseStatus::Success {
            output: OutputObject {
                kind: OutputType::Image,
                image_uri: Some("images/request-2-out.jpg".to_string()),
                text: None,
            },
        },
        metadata: Metadata {
            processing_time: JsonNum { neg: false, mantissa: 2, scale: 1 },
            microservice: "picturas-rotate-tool-ms".to_string(),
        },
    };

    let output = picturas::wire::serialize_response(&response);
    let expected = r#"{"messageId":"completion-2","correlationId":"request-2","timestamp":"2024-11-01T12:00:01Z","status":"success","output":{"type":"image","imageURI":"images/request-2-out.jpg"},"metadata":{"processingTime":0.2,"microservice":"picturas-rotate-tool-ms"}}"#;
    assert_eq!(output, expected);

    let response = ResponseMessage {
        message_id: "completion-20".to_string(),
        correlation_id: "request-20".to_string(),
        timestamp: "2024-11-01T12:01:00Z".to_string(),
        status: ResponseStatus::Error {
            error: ErrorObject {
                code: "INVALID_INPUT".to_string(),
                message: "The input file format is not supported.".to_string(),
            },
        },
        metadata: Metadata {
            processing_time: JsonNum { neg: false, mantissa: 1, scale: 1 },
            microservice: "picturas-crop-tool-ms".to_string(),
        },
    };

    let output = picturas::wire::serialize_response(&response);
    let expected = r#"{"messageId":"completion-20","correlationId":"request-20","timestamp":"2024-11-01T12:01:00Z","status":"error","error":{"code":"INVALID_INPUT","message":"The input file format is not supported."},"metadata":{"processingTime":0.1,"microservice":"picturas-crop-tool-ms"}}"#;
    assert_eq!(output, expected);
}

#[test]
fn response_round_trip_success() {
    let response = ResponseMessage {
        message_id: "completion-7".to_string(),
        correlation_id: "request-7".to_string(),
        timestamp: "2024-11-01T12:00:01Z".to_string(),
        status: ResponseStatus::Success {
            output: OutputObject {
                kind: OutputType::Text,
                image_uri: None,
                text: Some("hello from the page".to_string()),
            },
        },
        metadata: Metadata {
            processing_time: JsonNum { neg: false, mantissa: 125, scale: 2 },
            microservice: "picturas-ocr-tool-ms".to_string(),
        },
    };
    let text = picturas::wire::serialize_response(&response);
    let back = picturas::wire::parse_response(&text).expect("round trip parse");
    assert_eq!(back.message_id, "completion-7");
    assert_eq!(back.correlation_id, "request-7");
    assert_eq!(back.timestamp, "2024-11-01T12:00:01Z");
    match back.status {
        ResponseStatus::Success { output } => {
            assert_eq!(output.kind, OutputType::Text);
            assert_eq!(output.image_uri, None);
            assert_eq!(output.text, Some("hello from the page".to_string()));
        }
        _ => panic!("status changed"),
    }
    assert_eq!(back.metadata.processing_time, JsonNum { neg: false, mantissa: 125, scale: 2 });
    assert_eq!(back.metadata.microservice, "picturas-ocr-tool-ms");
}

#[test]
fn response_round_trip_error() {
    let response = ResponseMessage {
        message_id: "completion-8".to_string(),
        correlation_id: "request-8".to_string(),
        timestamp: "2024-11-01T12:02:00Z".to_string(),
        status: ResponseStatus::Error {
            error: ErrorObject {
                code: "TOOL_APPLY_ERROR".to_string(),
                message: "Failed to apply tool: out of bounds".to_string(),
            },
        },
        metadata: Metadata {
            processing_time: JsonNum { neg: false, mantissa: 3, scale: 0 },
            microservice: "picturas-crop-tool-ms".to_string(),
        },
    };
    let text = picturas::wire::serialize_response(&response);
    let back = picturas::wire::parse_response(&text).expect("round trip parse");
    match back.status {
        ResponseStatus::Error { error } => {
            assert_eq!(error.code, "TOOL_APPLY_ERROR");
            assert_eq!(error.message, "Failed to apply tool: out of bounds");
        }
        _ => panic!("status changed"),
    }
}

#[test]
fn json_text_forms() {
    let v = Json::Arr(vec![
        Json::Null,
        Json::Bool(true),
        Json::Num(JsonNum { neg: true, mantissa: 905, scale: 1 }),
        Json::Str("a\"b\\c\nd".to_string()),
    ]);
    let text = picturas::json::json_to_string(&v);
    assert_eq!(text, "[null,true,-90.5,\"a\\\"b\\\\c\\nd\"]");
    let back = picturas::json::parse_json(&text).expect("parse back");
    let again = picturas::json::json_to_string(&back);
    assert_eq!(again, text);
}

#[test]
fn json_rejects_malformed() {
    assert!(picturas::json::parse_json("{\"a\":}").is_none());
    assert!(picturas::json::parse_json("[1,]").is_none());
    assert!(picturas::json::parse_json("tru").is_none());
    assert!(picturas::json::parse_json("\"open").is_none());
    assert!(picturas::json::parse_json("01x").is_none());
    assert!(picturas::json::parse_json("-0").is_none());
    assert!(picturas::json::parse_json("5.").is_none());
}

#[test]
fn id_text_is_canonical() {
    assert_eq!(
        picturas::ids::id_to_string(1),
        "00000000-0000-0000-0000-000000000001"
    );
    assert_eq!(
        picturas::ids::id_to_string(0xdeadbeef_0123_4567_89ab_cdef01234567),
        "deadbeef-0123-4567-89ab-cdef01234567"
    );
}
