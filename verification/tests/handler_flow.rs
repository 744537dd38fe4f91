use std::sync::Arc;

use typed_routes::handler::AfterContext;
use typed_routes::handler::AfterExtraction;
use typed_routes::handler::Rejection;
use typed_routes::handler::ResponseBody;
use typed_routes::handler::on_context;
use typed_routes::handler::on_extraction;
use typed_routes::handler::on_handler_result;
use typed_routes::Config;
use typed_routes::Context;

#[test]
fn success_round_trips_with_success_status() {
    let outcome: Result<u32, (u16, String)> = Ok(42);
    let resp = on_handler_result(outcome, 201);
    assert_eq!(resp.status, 201);
    match resp.body {
        ResponseBody::Success(v) => {
            let body = serde_json::to_string(&v).unwrap();
            let back: u32 = serde_json::from_str(&body).unwrap();
            assert_eq!(back, 42);
        }
        _ => panic!("expected a success body"),
    }
}

#[test]
fn failure_uses_declared_conversion_status() {
    let err = String::from("missing");
    let status = if err == "missing" { 404 } else { 500 };
    let outcome: Result<u32, (u16, String)> = Err((status, err));
    let resp = on_handler_result(outcome, 200);
    assert_eq!(resp.status, 404);
    match resp.body {
        ResponseBody::Failure(e) => {
            let body = serde_json::to_string(&e).unwrap();
            let back: String = serde_json::from_str(&body).unwrap();
            assert_eq!(back, "missing");
        }
        _ => panic!("expected a failure body"),
    }
}

#[test]
fn malformed_payload_replies_without_reaching_handler() {
    let extracted: Result<u32, Rejection> = Err(Rejection {
        status: 400,
        message: String::from("invalid body"),
    });
    let mut handler_ran = false;
    let outcome: AfterExtraction<u32, u32, String> = on_extraction(extracted);
    match outcome {
        AfterExtraction::Proceed(_req) => {
            handler_ran = true;
        }
        AfterExtraction::Reply(resp) => {
            assert_eq!(resp.status, 400);
            match resp.body {
                ResponseBody::Transport(m) => assert_eq!(m, "invalid body"),
                _ => panic!("expected a transport body"),
            }
        }
    }
    assert!(!handler_ran);
}

#[test]
fn missing_context_replies_without_reaching_handler() {
    let found: Result<Arc<Context>, Rejection> = Err(Rejection {
        status: 500,
        message: String::from("missing extension"),
    });
    let mut handler_ran = false;
    let outcome: AfterContext<Arc<Context>, u32, u32, String> = on_context(found, 7);
    match outcome {
        AfterContext::Invoke(_ctx, _req) => {
            handler_ran = true;
        }
        AfterContext::Reply(resp) => {
            assert_eq!(resp.status, 500);
            match resp.body {
                ResponseBody::Transport(m) => assert_eq!(m, "missing extension"),
                _ => panic!("expected a transport body"),
            }
        }
    }
    assert!(!handler_ran);
}

#[test]
fn well_formed_request_flows_to_the_handler() {
    let extracted: Result<u32, Rejection> = Ok(41);
    let after_extraction: AfterExtraction<u32, u32, String> = on_extraction(extracted);
    let request = match after_extraction {
        AfterExtraction::Proceed(req) => req,
        AfterExtraction::Reply(_) => panic!("extraction succeeded, must proceed"),
    };
    let ctx = Arc::new(Context { config: Config {} });
    let found: Result<Arc<Context>, Rejection> = Ok(ctx);
    let after_context: AfterContext<Arc<Context>, u32, u32, String> = on_context(found, request);
    let (_ctx, request) = match after_context {
        AfterContext::Invoke(ctx, req) => (ctx, req),
        AfterContext::Reply(_) => panic!("context present, must invoke"),
    };
    let handled: Result<u32, (u16, String)> = Ok(request + 1);
    let resp = on_handler_result(handled, 200);
    assert_eq!(resp.status, 200);
    match resp.body {
        ResponseBody::Success(v) => assert_eq!(v, 42),
        _ => panic!("expected a success body"),
    }
}
