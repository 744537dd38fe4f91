use typed_routes::doc::components;
use typed_routes::doc::path_item;
use typed_routes::doc::ApiInfo;
use typed_routes::doc::ErrorResponse;
use typed_routes::doc::ResponseExample;
use typed_routes::doc::SuccessResponse;
use typed_routes::ApiDoc;
use typed_routes::DocumentedEndpoint;
use typed_routes::endpoint::Method;
use typed_routes::endpoint::RouteBinding;
use typed_routes::Endpoint;
use typed_routes::EndpointWrapper;
use typed_routes::Tag;

#[test]
fn path_item_has_one_entry_per_declared_response() {
    let d = DocumentedEndpoint {
        endpoint: Endpoint {
            method: Method::Post,
            path: String::from("/users/:id"),
        },
        operation_id: String::from("CreateUser"),
        tag: Tag {
            name: "user",
            desc: "User operations.",
        },
        summary: String::from("Creates a user."),
        description: String::from(""),
        deprecated: false,
        successes: vec![
            SuccessResponse {
                status: 201,
                description: String::from("created"),
                example: 7u32,
            },
            SuccessResponse {
                status: 200,
                description: String::from("already present"),
                example: 8u32,
            },
        ],
        errors: vec![ErrorResponse {
            status: 404,
            description: String::from("no such user"),
            example: String::from("missing"),
        }],
    };
    let p = path_item(d);
    assert_eq!(p.responses.len(), 3);
    assert_eq!(p.responses[0].status, 201);
    assert_eq!(p.responses[0].description, "created");
    assert_eq!(p.responses[0].schema_ref, "CreateUserResponse");
    match &p.responses[0].example {
        ResponseExample::Success(v) => {
            assert_eq!(
                serde_json::to_value(v).unwrap(),
                serde_json::to_value(7u32).unwrap()
            );
        }
        _ => panic!("expected a success example"),
    }
    assert_eq!(p.responses[1].status, 200);
    assert_eq!(p.responses[1].schema_ref, "CreateUserResponse");
    assert_eq!(p.responses[2].status, 404);
    assert_eq!(p.responses[2].description, "no such user");
    assert_eq!(p.responses[2].schema_ref, "CreateUserError");
    match &p.responses[2].example {
        ResponseExample::Failure(e) => {
            assert_eq!(
                serde_json::to_value(e).unwrap(),
                serde_json::to_value("missing").unwrap()
            );
        }
        _ => panic!("expected a failure example"),
    }
    assert_eq!(p.method, Method::Post);
    assert_eq!(p.operation_id, "CreateUser");
    assert!(!p.deprecated);
    assert_eq!(p.summary.as_deref(), Some("Creates a user."));
    assert!(p.description.is_none());
    assert_eq!(p.tag, "user");
    assert_eq!(p.security_scheme, "api_key");
    assert_eq!(p.parameter.name, "id");
    assert!(p.parameter.required);
    assert_eq!(p.parameter.format, "uuid");
}

#[test]
fn path_item_omits_empty_summary_and_keeps_description() {
    let d: DocumentedEndpoint<u32, String> = DocumentedEndpoint {
        endpoint: Endpoint {
            method: Method::Get,
            path: String::from("/health"),
        },
        operation_id: String::from("Health"),
        tag: Tag {
            name: "api",
            desc: "This is the catch all tag.",
        },
        summary: String::from(""),
        description: String::from("Liveness probe."),
        deprecated: true,
        successes: vec![],
        errors: vec![],
    };
    let p = path_item(d);
    assert!(p.summary.is_none());
    assert_eq!(p.description.as_deref(), Some("Liveness probe."));
    assert!(p.deprecated);
    assert_eq!(p.responses.len(), 0);
}

#[test]
fn documented_endpoint_defaults_carry_no_metadata() {
    let d: DocumentedEndpoint<u32, String> = DocumentedEndpoint::new(
        Endpoint {
            method: Method::Get,
            path: String::from("/health"),
        },
        String::from("Health"),
    );
    assert_eq!(d.tag.name, "api");
    assert_eq!(d.tag.desc, "This is the catch all tag.");
    assert_eq!(d.summary, "");
    assert_eq!(d.description, "");
    assert!(!d.deprecated);
    assert!(d.successes.is_empty());
    assert!(d.errors.is_empty());
}

#[test]
fn components_are_named_after_operation_id() {
    let c = components("CreateUser");
    assert_eq!(c.response_schema, "CreateUserResponse");
    assert_eq!(c.error_schema, "CreateUserError");
}

#[test]
fn openapi_document_carries_tags_security_and_translated_paths() {
    let info = ApiInfo {
        title: String::from("todo-api"),
        version: String::from("0.1.0"),
        description: String::from("A todo service."),
    };
    let routes = vec![
        String::from("/users/:id/resource/:resID"),
        String::from("/health"),
    ];
    let doc = ApiDoc::openapi(
        info,
        Tag {
            name: "user",
            desc: "User operations.",
        },
        &routes,
    );
    assert_eq!(doc.tags.len(), 2);
    assert_eq!(doc.tags[0].name, "user");
    assert_eq!(doc.tags[1].name, "api");
    assert_eq!(doc.tags[1].desc, "This is the catch all tag.");
    assert_eq!(doc.security_scheme_name, "api_key");
    assert_eq!(doc.api_key_header, "todo_apikey");
    assert_eq!(doc.paths.len(), 2);
    assert_eq!(doc.paths[0], "/users/{id}/resource/{resID}");
    assert_eq!(doc.paths[1], "/health");
    assert_eq!(doc.info.title, "todo-api");
    assert_eq!(doc.info.version, "0.1.0");
    assert_eq!(
        doc.info.description,
        "A todo service.\n\nNotes:\n- Time values are integers despite the `string($date-time)` note they get"
    );
}

#[test]
fn route_binding_keeps_method_and_path() {
    let e = Endpoint {
        method: Method::Get,
        path: String::from("/users/:id"),
    };
    let r: RouteBinding = e.route();
    assert_eq!(r.method, Method::Get);
    assert_eq!(r.path, "/users/:id");
}

#[test]
fn endpoint_wrapper_holds_the_inner_endpoint() {
    let w = EndpointWrapper::new(5u8);
    assert_eq!(w.inner, 5);
    let w2 = w.clone();
    assert_eq!(w2.inner, 5);
}
