//! Worker-side tests: tool reading, argument normalization, paths, and
//! response composition.

use picturas::errors::AppError;
use picturas::json::{Json, JsonNum};
use picturas::worker::{
    brightness_step, compose_response, crop_arguments, image_uris_from, output_path_for_image,
    tool_from_parts, tool_parameters, HandleRequestError, HandleRequestResult, ImageUriParams,
    ResponseMessageStatus, Tool,
};

fn num(n: u64) -> Json {
    Json::Num(JsonNum { neg: false, mantissa: n, scale: 0 })
}

#[test]
fn reads_every_procedure() {
    let crop = tool_from_parts(
        &"crop".to_string(),
        &vec![
            ("start".to_string(), Json::Arr(vec![num(0), num(0)])),
            ("end".to_string(), Json::Arr(vec![num(100), num(100)])),
        ],
    );
    assert_eq!(crop, Some(Tool::Crop { start: (0, 0), end: (100, 100) }));

    let scale = tool_from_parts(
        &"scale".to_string(),
        &vec![("x".to_string(), num(2000)), ("y".to_string(), num(2000))],
    );
    assert_eq!(scale, Some(Tool::Scale { x: 2000, y: 2000 }));

    let border = tool_from_parts(
        &"addBorder".to_string(),
        &vec![
            ("size".to_string(), num(10)),
            ("color".to_string(), Json::Arr(vec![num(255), num(0), num(0)])),
        ],
    );
    assert_eq!(border, Some(Tool::AddBorder { size: 10, color: (255, 0, 0) }));

    let brightness = tool_from_parts(
        &"adjustBrightness".to_string(),
        &vec![("value".to_string(), Json::Num(JsonNum { neg: false, mantissa: 5, scale: 1 }))],
    );
    assert_eq!(
        brightness,
        Some(Tool::AdjustBrightness { value: JsonNum { neg: false, mantissa: 5, scale: 1 } })
    );

    let contrast = tool_from_parts(
        &"adjustContrast".to_string(),
        &vec![("value".to_string(), num(30))],
    );
    assert_eq!(
        contrast,
        Some(Tool::AdjustContrast { value: JsonNum { neg: false, mantissa: 30, scale: 0 } })
    );

    let rotate = tool_from_parts(&"rotate".to_string(), &vec![("angle".to_string(), num(180))]);
    assert_eq!(
        rotate,
        Some(Tool::Rotate { angle: JsonNum { neg: false, mantissa: 180, scale: 0 } })
    );

    let blur = tool_from_parts(&"blur".to_string(), &vec![("radius".to_string(), num(5))]);
    assert_eq!(blur, Some(Tool::Blur { radius: 5 }));

    assert_eq!(tool_from_parts(&"grayscale".to_string(), &vec![]), Some(Tool::Grayscale));
    assert_eq!(tool_from_parts(&"binarize".to_string(), &vec![]), Some(Tool::Binarize));
    assert_eq!(tool_from_parts(&"ocr".to_string(), &vec![]), Some(Tool::Ocr));
}

#[test]
fn refuses_bad_tools() {
    assert_eq!(tool_from_parts(&"sharpen".to_string(), &vec![]), None);
    assert_eq!(tool_from_parts(&"scale".to_string(), &vec![("x".to_string(), num(1))]), None);
    let negative = Json::Num(JsonNum { neg: true, mantissa: 4, scale: 0 });
    assert_eq!(
        tool_from_parts(&"scale".to_string(), &vec![
            ("x".to_string(), negative),
            ("y".to_string(), num(1)),
        ]),
        None
    );
}

#[test]
fn tool_parameters_write_the_schema_keys() {
    let tool = Tool::Crop { start: (1, 2), end: (3, 4) };
    assert_eq!(picturas::worker::procedure_name(&tool), "crop");
    let ps = tool_parameters(&tool);
    let keys: Vec<&str> = ps.iter().map(|p| p.0.as_str()).collect();
    assert_eq!(keys, vec!["start", "end"]);
    let ps = tool_parameters(&Tool::Blur { radius: -2 });
    assert_eq!(ps.len(), 1);
    assert_eq!(ps[0].0, "radius");
    let ps = tool_parameters(&Tool::Ocr);
    assert!(ps.is_empty());
}

#[test]
fn crop_normalizes_swapped_corners() {
    let normalized = crop_arguments((0, 0), (100, 50));
    assert_eq!(normalized, ((0, 0), (100, 50)));
    let swapped = crop_arguments((100, 50), (0, 0));
    assert_eq!(swapped, ((0, 0), (100, 50)));
    let mixed = crop_arguments((100, 0), (0, 50));
    assert_eq!(mixed, ((0, 0), (100, 50)));
}

#[test]
fn brightness_clamps_to_one() {
    let half = brightness_step(JsonNum { neg: false, mantissa: 5, scale: 1 });
    assert_eq!(half, (true, 127));
    let two = brightness_step(JsonNum { neg: false, mantissa: 2, scale: 0 });
    assert_eq!(two, (true, 255));
    let minus_three = brightness_step(JsonNum { neg: true, mantissa: 3, scale: 0 });
    assert_eq!(minus_three, (false, 255));
    let exactly_one = brightness_step(JsonNum { neg: false, mantissa: 1, scale: 0 });
    assert_eq!(exactly_one, (true, 255));
    let zero = brightness_step(JsonNum { neg: false, mantissa: 0, scale: 0 });
    assert_eq!(zero, (false, 0));
}

#[test]
fn image_output_requires_a_path() {
    let with = ImageUriParams {
        input_image_uri: "in.png".to_string(),
        output_image_uri: Some("out.png".to_string()),
    };
    assert_eq!(output_path_for_image(&with).unwrap(), "out.png");
    let without = ImageUriParams { input_image_uri: "in.png".to_string(), output_image_uri: None };
    match output_path_for_image(&without) {
        Err(HandleRequestError::MissingOutputPath) => {}
        _ => panic!("a missing output path must be refused"),
    }
}

#[test]
fn uri_partition_requires_string_input() {
    let good = image_uris_from(&vec![
        ("inputImageURI".to_string(), Json::Str("a.png".to_string())),
        ("angle".to_string(), num(90)),
    ])
    .unwrap();
    assert_eq!(good.input_image_uri, "a.png");
    assert_eq!(good.output_image_uri, None);
    assert!(image_uris_from(&vec![("inputImageURI".to_string(), num(1))]).is_none());
    assert!(image_uris_from(&vec![("outputImageURI".to_string(), Json::Str("o".to_string()))])
        .is_none());
}

#[test]
fn error_codes_are_the_closed_set() {
    assert_eq!(HandleRequestError::ImageOpenError("x".to_string()).error_code(), "IMAGE_OPEN_ERROR");
    assert_eq!(HandleRequestError::ImageReadError("x".to_string()).error_code(), "IMAGE_OPEN_ERROR");
    assert_eq!(HandleRequestError::ImageSaveError("x".to_string()).error_code(), "IMAGE_SAVE_ERROR");
    assert_eq!(
        HandleRequestError::ImageSaveCreateFoldersError("x".to_string()).error_code(),
        "IMAGE_SAVE_ERROR"
    );
    assert_eq!(HandleRequestError::ToolApplyError("x".to_string()).error_code(), "TOOL_APPLY_ERROR");
    assert_eq!(HandleRequestError::MissingOutputPath.error_code(), "MISSING_OUTPUT_PATH");
    assert_eq!(
        HandleRequestError::ToolApplyError("boom".to_string()).error_message(),
        "Failed to apply tool: boom"
    );
    assert_eq!(HandleRequestError::MissingOutputPath.error_message(), "Missing output path");
}

#[test]
fn composes_responses_with_correlation() {
    let ok = compose_response(
        Ok(HandleRequestResult::Image("out.png".to_string())),
        "req-1".to_string(),
        42,
        "ts".to_string(),
        JsonNum { neg: false, mantissa: 2, scale: 1 },
        "w".to_string(),
    );
    assert_eq!(ok.correlation_id, "req-1");
    assert_eq!(ok.message_id, picturas::ids::id_to_string(42));
    let text = picturas::wire::serialize_response(&ok);
    assert!(text.contains("\"status\":\"success\""));
    assert!(text.contains("\"imageURI\":\"out.png\""));

    let err = compose_response(
        Err(HandleRequestError::MissingOutputPath),
        "req-2".to_string(),
        43,
        "ts".to_string(),
        JsonNum { neg: false, mantissa: 1, scale: 0 },
        "w".to_string(),
    );
    let text = picturas::wire::serialize_response(&err);
    assert!(text.contains("\"status\":\"error\""));
    assert!(text.contains("\"code\":\"MISSING_OUTPUT_PATH\""));
}

#[test]
fn paths_and_names() {
    assert!(picturas::paths::is_image_file("photo.PNG"));
    assert!(picturas::paths::is_image_file("a.jpeg"));
    assert!(picturas::paths::is_image_file("x.webp"));
    assert!(!picturas::paths::is_image_file("notes.txt"));
    assert!(!picturas::paths::is_image_file("png"));

    let folder = picturas::paths::generate_image_version_folder_uri("/root", 7);
    assert_eq!(folder, format!("/root/{}/output", picturas::ids::id_to_string(7)));
    let img = picturas::paths::generate_image_uri("/root", 7, 9, "photo.jpeg");
    assert_eq!(
        img,
        format!(
            "/root/{}/{}.jpeg",
            picturas::ids::id_to_string(7),
            picturas::ids::id_to_string(9)
        )
    );
    let bare = picturas::paths::generate_image_uri("/root", 7, 9, "noext");
    assert_eq!(
        bare,
        format!("/root/{}/{}", picturas::ids::id_to_string(7), picturas::ids::id_to_string(9))
    );

    let q = picturas::routing::parse_tool_queue("rotate:rotate-key");
    assert_eq!(q.name, "rotate");
    assert_eq!(q.routing_key, "rotate-key");
    let q = picturas::routing::parse_tool_queue("blur");
    assert_eq!(q.name, "blur");
    assert_eq!(q.routing_key, "blur");
}

#[test]
fn register_validation() {
    let ok = picturas::users::RegisterRequest {
        name: "Ada Lovelace".to_string(),
        email: "ada@example.org".to_string(),
        password: "longenough".to_string(),
    };
    assert!(ok.validate());
    let short = picturas::users::RegisterRequest {
        name: "Al".to_string(),
        email: "a@example.org".to_string(),
        password: "longenough".to_string(),
    };
    assert!(!short.validate());
    let bad_email = picturas::users::RegisterRequest {
        name: "Ada".to_string(),
        email: "not-an-email".to_string(),
        password: "longenough".to_string(),
    };
    assert!(!bad_email.validate());
    assert!(picturas::users::validate_expiration_date(100, 50).is_ok());
    assert!(picturas::users::validate_expiration_date(100, 150).is_err());
}

#[test]
fn error_surface() {
    assert_eq!(AppError::EntityNotFound.status_code(), 404);
    assert_eq!(AppError::Forbidden.status_code(), 403);
    assert_eq!(AppError::Unauthorized.status_code(), 401);
    assert_eq!(AppError::NotAnImage("text/plain".to_string()).status_code(), 400);
    assert_eq!(AppError::Sqlx("x".to_string()).status_code(), 500);
    assert_eq!(
        AppError::NotAnImage("text/plain".to_string()).error_body(),
        "Not an image: text/plain"
    );
}

#[test]
fn duration_minutes_to_seconds() {
    assert_eq!(picturas::users::parse_duration("15"), Some(900));
    assert_eq!(picturas::users::parse_duration("0"), Some(0));
    assert_eq!(picturas::users::parse_duration(""), None);
    assert_eq!(picturas::users::parse_duration("15m"), None);
    assert_eq!(picturas::users::parse_duration("99999999999999999999"), None);
}

#[test]
fn project_rows_need_a_name() {
    let p = picturas::projects::create_project(5, "holiday".to_string(), 9, "now".to_string())
        .expect("a named project");
    assert_eq!(p.id, 9);
    assert_eq!(p.user_id, 5);
    assert_eq!(p.created_at, "now");
    assert_eq!(p.updated_at, "now");
    assert!(picturas::projects::create_project(5, "".to_string(), 9, "now".to_string()).is_none());
}

#[test]
fn worker_status_reaches_the_wire() {
    let status = ResponseMessageStatus::from_result(Ok(HandleRequestResult::Text(
        "words".to_string(),
    )));
    match &status {
        ResponseMessageStatus::Success(picturas::worker::OutputType::Text { text }) => {
            assert_eq!(text, "words")
        }
        _ => panic!("text result must become a text output"),
    }
    match status.to_wire() {
        picturas::wire::ResponseStatus::Success { output } => {
            assert_eq!(output.kind, picturas::wire::OutputType::Text);
            assert_eq!(output.text, Some("words".to_string()));
            assert_eq!(output.image_uri, None);
        }
        _ => panic!("success must stay success"),
    }
    let failed = ResponseMessageStatus::from_result(Err(HandleRequestError::MissingOutputPath));
    match failed.to_wire() {
        picturas::wire::ResponseStatus::Error { error } => {
            assert_eq!(error.code, "MISSING_OUTPUT_PATH");
        }
        _ => panic!("errors must stay errors"),
    }
}
