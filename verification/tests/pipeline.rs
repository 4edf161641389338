//! End-to-end coordinator scenarios: chains, failures, replacements,
//! unknown procedures and unknown correlations.

use picturas::coordinator::{
    add_to_queue, apply_added_tools, handle_response, update_tools, ImageVersionWithUrl, Image,
    InFlightTable, RequestedTool, ResponseOutcome, Tool,
};
use picturas::ids::id_to_string;
use picturas::json::{Json, JsonNum};
use picturas::routing::{RabbitMqControllerError, RoutingTable, ToolQueue};
use picturas::wire::{Metadata, OutputObject, OutputType, ResponseMessage, ResponseStatus};

fn num(n: u64) -> Json {
    Json::Num(JsonNum { neg: false, mantissa: n, scale: 0 })
}

fn success_image(correlation: String, path: String) -> ResponseMessage {
    ResponseMessage {
        message_id: "m".to_string(),
        correlation_id: correlation,
        timestamp: "2024-11-01T12:00:01Z".to_string(),
        status: ResponseStatus::Success {
            output: OutputObject {
                kind: OutputType::Image,
                image_uri: Some(path),
                text: None,
            },
        },
        metadata: Metadata {
            processing_time: JsonNum { neg: false, mantissa: 2, scale: 1 },
            microservice: "w".to_string(),
        },
    }
}

#[test]
fn chain_of_two_tools_one_image() {
    let project: u128 = 7;
    let user: u128 = 99;
    let root = "/images";
    let images = vec![Image { id: 1, name: "img1.png".to_string(), project_id: project }];
    let tools = vec![
        Tool {
            id: 11,
            project_id: project,
            position: 1,
            procedure: "rotate".to_string(),
            parameters: Json::Obj(vec![("angle".to_string(), num(90))]),
        },
        Tool {
            id: 12,
            project_id: project,
            position: 2,
            procedure: "grayscale".to_string(),
            parameters: Json::Obj(vec![]),
        },
    ];

    let mut chains = apply_added_tools(project, user, &images, &tools, root);
    assert_eq!(chains.len(), 1);
    let chain = chains.pop().unwrap();
    assert_eq!(
        chain.image_input_uri,
        format!("/images/{}/{}.png", id_to_string(project), id_to_string(1))
    );
    let first_version_id = chain.new_image_uuid;
    let first_output = chain.image_output_uri.clone();
    assert_eq!(
        first_output,
        format!(
            "/images/{}/output/{}/{}.png",
            id_to_string(project),
            id_to_string(1),
            id_to_string(first_version_id)
        )
    );

    let mut table = InFlightTable::new();
    let req1 = add_to_queue(&mut table, chain, 1001, "t1".to_string()).expect("first request");
    assert_eq!(req1.procedure, "rotate");
    assert_eq!(req1.message_id, 1001);
    assert_eq!(table.len(), 1);

    let resp1 = success_image(id_to_string(1001), first_output.clone());
    let outcome1 = handle_response(&mut table, resp1, "2024-11-01T12:00:02Z".to_string(), root);
    assert_eq!(table.len(), 0);
    let (version1, next) = match outcome1 {
        ResponseOutcome::StepSaved { version, project_id, user_id, next } => {
            assert_eq!(project_id, project);
            assert_eq!(user_id, user);
            (version, next.expect("one tool remains"))
        }
        _ => panic!("first response must record a version"),
    };
    assert_eq!(version1.id, first_version_id);
    assert_eq!(version1.original_image_id, 1);
    assert_eq!(version1.tool_id, 11);
    assert_eq!(version1.text_result, None);
    assert_eq!(version1.created_at, "2024-11-01T12:00:02Z");

    let notification = ImageVersionWithUrl::from_image_version(version1, "https://picturas.test");
    assert_eq!(
        notification.url,
        format!(
            "https://picturas.test/api/v1/projects/{}/tools/images/{}",
            id_to_string(project),
            id_to_string(first_version_id)
        )
    );

    assert_eq!(next.image_input_uri, first_output);
    let second_version_id = next.new_image_uuid;
    let second_output = next.image_output_uri.clone();

    let req2 = add_to_queue(&mut table, next, 1002, "t2".to_string()).expect("second request");
    assert_eq!(req2.procedure, "grayscale");
    assert_eq!(table.len(), 1);

    let resp2 = success_image(id_to_string(1002), second_output);
    let outcome2 = handle_response(&mut table, resp2, "2024-11-01T12:00:03Z".to_string(), root);
    assert_eq!(table.len(), 0);
    match outcome2 {
        ResponseOutcome::StepSaved { version, next, .. } => {
            assert_eq!(version.id, second_version_id);
            assert_eq!(version.original_image_id, 1);
            assert_eq!(version.tool_id, 12);
            assert!(next.is_none());
        }
        _ => panic!("second response must record a version"),
    }
}

#[test]
fn ocr_produces_text() {
    let project: u128 = 3;
    let images = vec![Image { id: 5, name: "scan.png".to_string(), project_id: project }];
    let tools = vec![Tool {
        id: 31,
        project_id: project,
        position: 1,
        procedure: "ocr".to_string(),
        parameters: Json::Obj(vec![]),
    }];
    let mut chains = apply_added_tools(project, 2, &images, &tools, "/images");
    let chain = chains.pop().unwrap();
    let version_id = chain.new_image_uuid;

    let mut table = InFlightTable::new();
    add_to_queue(&mut table, chain, 42, "t".to_string()).expect("publishes the ocr request");

    let resp = ResponseMessage {
        message_id: "m".to_string(),
        correlation_id: id_to_string(42),
        timestamp: "ts".to_string(),
        status: ResponseStatus::Success {
            output: OutputObject {
                kind: OutputType::Text,
                image_uri: None,
                text: Some("extracted words".to_string()),
            },
        },
        metadata: Metadata {
            processing_time: JsonNum { neg: false, mantissa: 9, scale: 1 },
            microservice: "w".to_string(),
        },
    };
    match handle_response(&mut table, resp, "now".to_string(), "/images") {
        ResponseOutcome::StepSaved { version, next, .. } => {
            assert_eq!(version.id, version_id);
            assert_eq!(version.tool_id, 31);
            assert_eq!(version.text_result, Some("extracted words".to_string()));
            assert!(next.is_none());
        }
        _ => panic!("ocr success must record a version"),
    }
}

#[test]
fn failure_aborts_chain() {
    let project: u128 = 4;
    let images = vec![Image { id: 6, name: "img.png".to_string(), project_id: project }];
    let tools = vec![
        Tool {
            id: 41,
            project_id: project,
            position: 1,
            procedure: "crop".to_string(),
            parameters: Json::Obj(vec![
                ("start".to_string(), Json::Arr(vec![num(10000), num(10000)])),
                ("end".to_string(), Json::Arr(vec![num(20000), num(20000)])),
            ]),
        },
        Tool {
            id: 42,
            project_id: project,
            position: 2,
            procedure: "grayscale".to_string(),
            parameters: Json::Obj(vec![]),
        },
    ];
    let mut chains = apply_added_tools(project, 8, &images, &tools, "/images");
    let chain = chains.pop().unwrap();
    let mut table = InFlightTable::new();
    add_to_queue(&mut table, chain, 77, "t".to_string()).expect("publishes the crop request");

    let resp = ResponseMessage {
        message_id: "m".to_string(),
        correlation_id: id_to_string(77),
        timestamp: "ts".to_string(),
        status: ResponseStatus::Error {
            error: picturas::wire::ErrorObject {
                code: "TOOL_APPLY_ERROR".to_string(),
                message: "Failed to apply tool: out of bounds".to_string(),
            },
        },
        metadata: Metadata {
            processing_time: JsonNum { neg: false, mantissa: 1, scale: 1 },
            microservice: "w".to_string(),
        },
    };
    match handle_response(&mut table, resp, "now".to_string(), "/images") {
        ResponseOutcome::ChainFailed { project_id, user_id, error } => {
            assert_eq!(project_id, project);
            assert_eq!(user_id, 8);
            assert_eq!(error.code, "TOOL_APPLY_ERROR");
        }
        _ => panic!("a worker error must abort the chain"),
    }
    assert_eq!(table.len(), 0);
}

#[test]
fn tool_replacement_renumbers_from_one() {
    let requested = vec![RequestedTool {
        procedure: "blur".to_string(),
        parameters: vec![("radius".to_string(), num(3))],
    }];
    let rows = update_tools(7, &requested, &vec![21]);
    assert_eq!(rows.len(), 1);
    assert_eq!(rows[0].position, 1);
    assert_eq!(rows[0].procedure, "blur");
    assert_eq!(rows[0].id, 21);
}

#[test]
fn add_tool_appends_at_next_position() {
    let existing = vec![Tool {
        id: 1,
        project_id: 7,
        position: 1,
        procedure: "rotate".to_string(),
        parameters: Json::Obj(vec![("angle".to_string(), num(90))]),
    }];
    let requested = RequestedTool { procedure: "grayscale".to_string(), parameters: vec![] };
    let t = picturas::coordinator::add_tool(7, requested, &existing, 2);
    assert_eq!(t.position, 2);
    assert_eq!(t.procedure, "grayscale");
}

#[test]
fn unknown_procedure_on_publish() {
    let table = RoutingTable::new(vec![
        ToolQueue { name: "rotate".to_string(), routing_key: "rotate-key".to_string() },
        ToolQueue { name: "grayscale".to_string(), routing_key: "gray-key".to_string() },
    ]);
    assert_eq!(table.routing_key_for(&"rotate".to_string()).unwrap(), "rotate-key");
    match table.routing_key_for(&"ocr".to_string()) {
        Err(RabbitMqControllerError::UnknownToolProcedure(p)) => assert_eq!(p, "ocr"),
        _ => panic!("an unconfigured procedure must be refused"),
    }
}

#[test]
fn response_for_absent_correlation() {
    let mut table = InFlightTable::new();
    let images = vec![Image { id: 1, name: "a.png".to_string(), project_id: 1 }];
    let tools = vec![Tool {
        id: 2,
        project_id: 1,
        position: 1,
        procedure: "grayscale".to_string(),
        parameters: Json::Obj(vec![]),
    }];
    let mut chains = apply_added_tools(1, 1, &images, &tools, "/images");
    add_to_queue(&mut table, chains.pop().unwrap(), 5, "t".to_string()).unwrap();
    assert_eq!(table.len(), 1);

    let resp = success_image(
        "11111111-2222-3333-4444-555555555555".to_string(),
        "somewhere.png".to_string(),
    );
    match handle_response(&mut table, resp, "now".to_string(), "/images") {
        ResponseOutcome::UnknownCorrelation => {}
        _ => panic!("an unknown correlation must change nothing"),
    }
    assert_eq!(table.len(), 1);
}

#[test]
fn empty_tool_list_is_a_no_op() {
    let images = vec![Image { id: 1, name: "a.png".to_string(), project_id: 1 }];
    let tools: Vec<Tool> = vec![];
    let mut chains = apply_added_tools(1, 1, &images, &tools, "/images");
    assert_eq!(chains.len(), 1);
    let mut table = InFlightTable::new();
    let req = add_to_queue(&mut table, chains.pop().unwrap(), 9, "t".to_string());
    assert!(req.is_none());
    assert_eq!(table.len(), 0);
}

#[test]
fn push_registry_tracks_subscribers() {
    let mut reg = picturas::registry::PushRegistry::new();
    assert_eq!(reg.send_ws_message(1, 2), None);
    reg.register_ws_client(1, 2, 10);
    reg.register_ws_client(1, 3, 11);
    assert_eq!(reg.send_ws_message(1, 2), Some(10));
    assert_eq!(reg.send_ws_message(1, 3), Some(11));
    reg.register_ws_client(1, 2, 12);
    assert_eq!(reg.send_ws_message(1, 2), Some(12));
    reg.unregister_ws_client(1, 2);
    assert_eq!(reg.send_ws_message(1, 2), None);
    assert_eq!(reg.send_ws_message(1, 3), Some(11));
}

#[test]
fn full_loop_over_the_wire() {
    let project: u128 = 9;
    let images = vec![Image { id: 2, name: "pic.png".to_string(), project_id: project }];
    let tools = vec![Tool {
        id: 91,
        project_id: project,
        position: 1,
        procedure: "rotate".to_string(),
        parameters: Json::Obj(vec![("angle".to_string(), num(90))]),
    }];
    let mut chains = apply_added_tools(project, 5, &images, &tools, "/images");
    let chain = chains.pop().unwrap();
    let input_uri = chain.image_input_uri.clone();
    let output_uri = chain.image_output_uri.clone();

    let mut table = InFlightTable::new();
    let request = add_to_queue(&mut table, chain, 1234, "t0".to_string()).unwrap();
    let request_text = picturas::wire::serialize_request(&request);

    let worker_request =
        picturas::worker::parse_request(&request_text).expect("the worker reads the request");
    assert_eq!(worker_request.message_id, id_to_string(1234));
    assert_eq!(
        worker_request.params.tool,
        picturas::worker::Tool::Rotate {
            angle: picturas::json::JsonNum { neg: false, mantissa: 90, scale: 0 }
        }
    );
    assert_eq!(worker_request.params.image_uris.input_image_uri, input_uri);
    assert_eq!(worker_request.params.image_uris.output_image_uri, Some(output_uri.clone()));

    let response = picturas::worker::compose_response(
        Ok(picturas::worker::HandleRequestResult::Image(output_uri.clone())),
        worker_request.message_id,
        777,
        "2024-11-01T12:00:05Z".to_string(),
        JsonNum { neg: false, mantissa: 42, scale: 2 },
        "picturas-rotate-tool-ms".to_string(),
    );
    let response_text = picturas::wire::serialize_response(&response);

    let received =
        picturas::wire::parse_response(&response_text).expect("the coordinator reads the response");
    match handle_response(&mut table, received, "now".to_string(), "/images") {
        ResponseOutcome::StepSaved { version, next, .. } => {
            assert_eq!(version.tool_id, 91);
            assert_eq!(version.original_image_id, 2);
            assert!(next.is_none());
        }
        _ => panic!("the delivered response must complete the chain"),
    }
    assert_eq!(table.len(), 0);
}
