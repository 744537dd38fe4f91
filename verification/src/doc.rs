//! The documentation projection: from documented endpoints to an
//! OpenAPI-style document model.
//!
//! The model here is plain data of the library's own: the surrounding
//! application turns it into its schema generator's objects and
//! serializes the example values.  The projection is pure and
//! idempotent; the document is rebuilt from the declared metadata on
//! demand and never mutated incrementally.

use vstd::prelude::*;
use vstd::string::StringExecFns;
use crate::endpoint::Endpoint;
use crate::endpoint::Method;
use crate::endpoint::Tag;
use crate::endpoint::default_tag;
use crate::path::axum_path_str_to_openapi;
use crate::path::translate_path;

verus! {

/// A declared success response: its status code, a description, and an
/// example success value.
pub struct SuccessResponse<Res> {
    pub status: u16,
    pub description: String,
    pub example: Res,
}

/// A declared error response: a description, an example error value,
/// and the status the endpoint's declared error-to-status conversion
/// gives for that example.
pub struct ErrorResponse<E> {
    pub status: u16,
    pub description: String,
    pub example: E,
}

/// An endpoint definition augmented with human-readable metadata and
/// the declared example responses.  Purely additive: the endpoint
/// routes the same whether or not it is documented.
pub struct DocumentedEndpoint<Res, E> {
    pub endpoint: Endpoint,
    pub operation_id: String,
    pub tag: Tag,
    pub summary: String,
    pub description: String,
    pub deprecated: bool,
    pub successes: Vec<SuccessResponse<Res>>,
    pub errors: Vec<ErrorResponse<E>>,
}

impl<Res, E> DocumentedEndpoint<Res, E> {
    /// A documented endpoint with no metadata declared yet: the
    /// catch-all tag, empty summary and description, not deprecated,
    /// and no example responses.
    pub fn new(endpoint: Endpoint, operation_id: String) -> (d: Self)
        ensures
            d.endpoint == endpoint,
            d.operation_id == operation_id,
            d.tag.name@ == "api"@,
            d.tag.desc@ == "This is the catch all tag."@,
            d.summary@.len() == 0,
            d.description@.len() == 0,
            !d.deprecated,
            d.successes@.len() == 0,
            d.errors@.len() == 0,
    {
        DocumentedEndpoint {
            endpoint,
            operation_id,
            tag: default_tag(),
            summary: String::new(),
            description: String::new(),
            deprecated: false,
            successes: Vec::new(),
            errors: Vec::new(),
        }
    }
}

/// The example carried by one documented response entry.
pub enum ResponseExample<Res, E> {
    Success(Res),
    Failure(E),
}

/// One entry of a path item's responses map.
pub struct ResponseEntry<Res, E> {
    pub status: u16,
    pub description: String,
    pub schema_ref: String,
    pub example: ResponseExample<Res, E>,
}

/// The path parameter every generated path item declares: required,
/// named `id`, typed as a string in UUID format.
pub struct PathParameter {
    pub name: &'static str,
    pub required: bool,
    pub format: &'static str,
}

/// The documentation fragment of one endpoint: an OpenAPI-style path
/// item.
pub struct PathItem<Res, E> {
    pub method: Method,
    pub operation_id: String,
    pub deprecated: bool,
    pub summary: Option<String>,
    pub description: Option<String>,
    pub tag: &'static str,
    pub security_scheme: &'static str,
    pub parameter: PathParameter,
    pub responses: Vec<ResponseEntry<Res, E>>,
}

/// The names under which an endpoint's response and error schemas stand
/// in the shared schema registry.
pub struct ComponentsContribution {
    pub response_schema: String,
    pub error_schema: String,
}

/// Builds the documentation fragment of one documented endpoint.  The
/// responses map holds exactly one entry per declared success pair and
/// then one per declared error pair, in declaration order; each entry
/// keeps the declared status, description and example value, and refers
/// to the schema named after the operation id.  Empty summaries and
/// descriptions are omitted.
pub fn path_item<Res, E>(d: DocumentedEndpoint<Res, E>) -> (p: PathItem<Res, E>)
    ensures
        p.method == d.endpoint.method,
        p.operation_id == d.operation_id,
        p.deprecated == d.deprecated,
        (d.summary@.len() == 0 ==> p.summary is None),
        (d.summary@.len() > 0 ==> p.summary == Some(d.summary)),
        (d.description@.len() == 0 ==> p.description is None),
        (d.description@.len() > 0 ==> p.description == Some(d.description)),
        p.tag@ == d.tag.name@,
        p.security_scheme@ == "api_key"@,
        p.parameter.name@ == "id"@,
        p.parameter.required,
        p.parameter.format@ == "uuid"@,
        p.responses@.len() == d.successes@.len() + d.errors@.len(),
        forall|q: int|
            0 <= q < d.successes@.len() ==> {
                &&& (#[trigger] p.responses@[q]).status == d.successes@[q].status
                &&& p.responses@[q].description == d.successes@[q].description
                &&& p.responses@[q].schema_ref@ == d.operation_id@ + "Response"@
                &&& p.responses@[q].example == ResponseExample::<Res, E>::Success(
                    d.successes@[q].example,
                )
            },
        forall|q: int|
            0 <= q < d.errors@.len() ==> {
                &&& (#[trigger] p.responses@[d.successes@.len() + q]).status == d.errors@[q].status
                &&& p.responses@[d.successes@.len() + q].description == d.errors@[q].description
                &&& p.responses@[d.successes@.len() + q].schema_ref@ == d.operation_id@ + "Error"@
                &&& p.responses@[d.successes@.len() + q].example == ResponseExample::<Res, E>::Failure(
                    d.errors@[q].example,
                )
            },
{
    let DocumentedEndpoint {
        endpoint,
        operation_id,
        tag,
        summary,
        description,
        deprecated,
        mut successes,
        mut errors,
    } = d;
    let response_ref = operation_id.clone().concat("Response");
    let error_ref = operation_id.clone().concat("Error");
    let summary_opt = if summary.as_str().is_empty() {
        None
    } else {
        Some(summary)
    };
    let description_opt = if description.as_str().is_empty() {
        None
    } else {
        Some(description)
    };
    let mut responses: Vec<ResponseEntry<Res, E>> = Vec::new();
    let ghost succ0 = successes@;
    let ghost err0 = errors@;
    while successes.len() > 0
        invariant
            responses@.len() + successes@.len() == succ0.len(),
            successes@ == succ0.skip(responses@.len() as int),
            response_ref@ == operation_id@ + "Response"@,
            forall|q: int|
                0 <= q < responses@.len() ==> {
                    &&& (#[trigger] responses@[q]).status == succ0[q].status
                    &&& responses@[q].description == succ0[q].description
                    &&& responses@[q].schema_ref@ == operation_id@ + "Response"@
                    &&& responses@[q].example == ResponseExample::<Res, E>::Success(
                        succ0[q].example,
                    )
                },
        decreases successes.len(),
    {
        let ghost k = responses@.len() as int;
        let sr = successes.remove(0);
        proof {
            assert(sr == succ0[k]);
            assert(successes@ =~= succ0.skip(k + 1));
        }
        let entry = ResponseEntry {
            status: sr.status,
            description: sr.description,
            schema_ref: response_ref.clone(),
            example: ResponseExample::Success(sr.example),
        };
        responses.push(entry);
    }
    let ghost nsucc = succ0.len() as int;
    while errors.len() > 0
        invariant
            responses@.len() == nsucc + err0.len() - errors@.len(),
            nsucc == succ0.len(),
            errors@.len() <= err0.len(),
            errors@ == err0.skip(responses@.len() - nsucc),
            error_ref@ == operation_id@ + "Error"@,
            forall|q: int|
                0 <= q < nsucc ==> {
                    &&& (#[trigger] responses@[q]).status == succ0[q].status
                    &&& responses@[q].description == succ0[q].description
                    &&& responses@[q].schema_ref@ == operation_id@ + "Response"@
                    &&& responses@[q].example == ResponseExample::<Res, E>::Success(
                        succ0[q].example,
                    )
                },
            forall|q: int|
                0 <= q < responses@.len() - nsucc ==> {
                    &&& (#[trigger] responses@[nsucc + q]).status == err0[q].status
                    &&& responses@[nsucc + q].description == err0[q].description
                    &&& responses@[nsucc + q].schema_ref@ == operation_id@ + "Error"@
                    &&& responses@[nsucc + q].example == ResponseExample::<Res, E>::Failure(
                        err0[q].example,
                    )
                },
        decreases errors.len(),
    {
        let ghost k = responses@.len() - nsucc;
        let er = errors.remove(0);
        proof {
            assert(er == err0[k]);
            assert(errors@ =~= err0.skip(k + 1));
        }
        let entry = ResponseEntry {
            status: er.status,
            description: er.description,
            schema_ref: error_ref.clone(),
            example: ResponseExample::Failure(er.example),
        };
        responses.push(entry);
    }
    PathItem {
        method: endpoint.method,
        operation_id,
        deprecated,
        summary: summary_opt,
        description: description_opt,
        tag: tag.name,
        security_scheme: "api_key",
        parameter: PathParameter { name: "id", required: true, format: "uuid" },
        responses,
    }
}

/// The schema names an endpoint contributes to the shared registry:
/// `{id}Response` for its response type and `{id}Error` for its error
/// type, with `{id}` the operation id.
pub fn components(operation_id: &str) -> (c: ComponentsContribution)
    ensures
        c.response_schema@ == operation_id@ + "Response"@,
        c.error_schema@ == operation_id@ + "Error"@,
{
    ComponentsContribution {
        response_schema: String::from_str(operation_id).concat("Response"),
        error_schema: String::from_str(operation_id).concat("Error"),
    }
}

/// The document's own metadata, sourced from build information by the
/// surrounding application.
pub struct ApiInfo {
    pub title: String,
    pub version: String,
    pub description: String,
}

/// The note every generated document appends to its description.
pub const DESCRIPTION_NOTES: &'static str = "\n\nNotes:\n- Time values are integers despite the `string($date-time)` note they get";

/// The generated document: its info, the translated path keys in mount
/// order, the tag list, and the API-key security scheme.
pub struct OpenApiModel {
    pub info: ApiInfo,
    pub paths: Vec<String>,
    pub tags: Vec<Tag>,
    pub security_scheme_name: &'static str,
    pub api_key_header: &'static str,
}

/// Builds the whole document model.
pub struct ApiDoc;

impl ApiDoc {
    /// Assembles the document: the title and version pass through, the
    /// description gets the fixed note appended, the tag list is the
    /// caller's tag followed by the catch-all tag, the security scheme
    /// is the API key carried in the `todo_apikey` header, and every
    /// route path is translated to its OpenAPI form, in order.
    pub fn openapi(info: ApiInfo, user_tag: Tag, route_paths: &Vec<String>) -> (doc: OpenApiModel)
        ensures
            doc.info.title == info.title,
            doc.info.version == info.version,
            doc.info.description@ == info.description@ + DESCRIPTION_NOTES@,
            doc.tags@.len() == 2,
            doc.tags@[0] == user_tag,
            doc.tags@[1].name@ == "api"@,
            doc.tags@[1].desc@ == "This is the catch all tag."@,
            doc.security_scheme_name@ == "api_key"@,
            doc.api_key_header@ == "todo_apikey"@,
            doc.paths@.len() == route_paths@.len(),
            forall|q: int|
                0 <= q < route_paths@.len() ==> (#[trigger] doc.paths@[q])@ == translate_path(
                    route_paths@[q]@,
                ),
    {
        let mut paths: Vec<String> = Vec::new();
        let mut i: usize = 0;
        while i < route_paths.len()
            invariant
                i <= route_paths@.len(),
                paths@.len() == i,
                forall|q: int|
                    0 <= q < i ==> (#[trigger] paths@[q])@ == translate_path(route_paths@[q]@),
            decreases route_paths@.len() - i,
        {
            let translated = axum_path_str_to_openapi(route_paths[i].as_str());
            paths.push(translated);
            i = i + 1;
        }
        let mut tags: Vec<Tag> = Vec::new();
        tags.push(user_tag);
        tags.push(default_tag());
        let ApiInfo { title, version, mut description } = info;
        description.append(DESCRIPTION_NOTES);
        OpenApiModel {
            info: ApiInfo { title, version, description },
            paths,
            tags,
            security_scheme_name: "api_key",
            api_key_header: "todo_apikey",
        }
    }
}

} // verus!
