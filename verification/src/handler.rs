//! The request-handling projection, as decisions over plain values.
//!
//! Handling one request goes through three decisions: after the
//! transport has tried to extract the typed request, after the shared
//! context has been looked up, and after the handler has returned.  The
//! surrounding application performs the suspending work (extraction and
//! the handler call) and feeds each outcome to the matching decision
//! here; the decisions say exactly which response every outcome gets.
//! A failed extraction or a missing context short-circuits to a
//! transport-level reply, so the handler is never reached on such a
//! request.

use vstd::prelude::*;

verus! {

/// A transport-level rejection: the status and message the transport
/// itself reports when a request cannot reach a handler.
pub struct Rejection {
    pub status: u16,
    pub message: String,
}

/// What a response carries: a success value, a typed handler error, or
/// the transport's own rejection text.  The surrounding application
/// serializes the success or error value as the body; a transport body
/// is already plain text.
pub enum ResponseBody<Res, E> {
    Success(Res),
    Failure(E),
    Transport(String),
}

/// A response: a status code and what the body is built from.
pub struct HttpResponse<Res, E> {
    pub status: u16,
    pub body: ResponseBody<Res, E>,
}

/// The decision after request extraction: hand the typed request on, or
/// reply at once.
pub enum AfterExtraction<Req, Res, E> {
    Proceed(Req),
    Reply(HttpResponse<Res, E>),
}

/// The decision after the context lookup: invoke the handler with
/// (context, request), or reply at once.
pub enum AfterContext<Ctx, Req, Res, E> {
    Invoke(Ctx, Req),
    Reply(HttpResponse<Res, E>),
}

/// Decides the flow once the transport has tried to extract the typed
/// request value.  A malformed or missing payload never proceeds to the
/// handler: it is answered with the transport's own rejection, as a
/// transport-level response.
pub fn on_extraction<Req, Res, E>(extracted: Result<Req, Rejection>) -> (o: AfterExtraction<
    Req,
    Res,
    E,
>)
    ensures
        (extracted matches Ok(req) ==> o == AfterExtraction::<Req, Res, E>::Proceed(req)),
        (extracted matches Err(rej) ==> o == AfterExtraction::<Req, Res, E>::Reply(
            (HttpResponse { status: rej.status, body: ResponseBody::Transport(rej.message) }),
        )),
{
    match extracted {
        Ok(req) => AfterExtraction::Proceed(req),
        Err(rej) => AfterExtraction::Reply(
            HttpResponse { status: rej.status, body: ResponseBody::Transport(rej.message) },
        ),
    }
}

/// Decides the flow once the shared context has been looked up.  A
/// missing context never proceeds to the handler: it is answered with
/// the lookup's rejection, as a transport-level response.
pub fn on_context<Ctx, Req, Res, E>(found: Result<Ctx, Rejection>, request: Req) -> (o:
    AfterContext<Ctx, Req, Res, E>)
    ensures
        (found matches Ok(ctx) ==> o == AfterContext::<Ctx, Req, Res, E>::Invoke(ctx, request)),
        (found matches Err(rej) ==> o == AfterContext::<Ctx, Req, Res, E>::Reply(
            (HttpResponse { status: rej.status, body: ResponseBody::Transport(rej.message) }),
        )),
{
    match found {
        Ok(ctx) => AfterContext::Invoke(ctx, request),
        Err(rej) => AfterContext::Reply(
            HttpResponse { status: rej.status, body: ResponseBody::Transport(rej.message) },
        ),
    }
}

/// Decides the response once the handler has returned.  A success value
/// becomes the body under the endpoint's success status.  A typed error
/// arrives paired with the status the endpoint's declared
/// error-to-status conversion gave for it, and becomes the body under
/// exactly that status.  Handler errors are values, never exceptions,
/// and never answered with a framework default.
pub fn on_handler_result<Res, E>(outcome: Result<Res, (u16, E)>, success_status: u16) -> (r:
    HttpResponse<Res, E>)
    ensures
        (outcome matches Ok(v) ==> r == (HttpResponse {
            status: success_status,
            body: ResponseBody::<Res, E>::Success(v),
        })),
        (outcome matches Err(p) ==> r == (HttpResponse {
            status: p.0,
            body: ResponseBody::<Res, E>::Failure(p.1),
        })),
{
    match outcome {
        Ok(v) => HttpResponse { status: success_status, body: ResponseBody::Success(v) },
        Err(p) => HttpResponse { status: p.0, body: ResponseBody::Failure(p.1) },
    }
}

} // verus!
