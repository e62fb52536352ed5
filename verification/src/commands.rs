//! The four calls of the dashboard API, without the transport.
//!
//! A call has two halves. The first says which request goes out. The second
//! takes what the transport brought back, the bytes of a response body or the
//! description of a failure, and gives the typed result. Sending the request
//! is the caller's part: exactly one request per call, sent once.

use crate::decode::{
    agent_list_of, decode_agent_list, decode_health, decode_snapshot, decode_submit_task_response,
    health_of, snapshot_of, submit_task_response_of,
};
use crate::encode::{encode_submit_task_request, submit_task_request_json};
use crate::error::{ApiError, ApiErrorView, DecodeError};
use crate::json::Json;
use crate::records::{
    agent_views, AgentSnapshot, AgentView, DashboardSnapshot, HealthResponse, SubmitTaskRequest,
    SubmitTaskRequestView, SubmitTaskResponse,
};
use crate::value::{json_model, json_parse, json_text, parse, render};
use vstd::prelude::*;
use vstd::string::StringExecFns;

verus! {

/// The backend of a local deployment.
pub const API_BASE: &'static str = "http://localhost:3000/api";

/// The method of a request.
#[derive(Clone, Copy, Debug, PartialEq, Eq, Structural)]
pub enum Method {
    Get,
    Post,
}

/// A request to send. A body, where there is one, is JSON text and goes out
/// as `application/json`.
#[derive(Clone, Debug, PartialEq, Eq)]
pub struct Request {
    pub method: Method,
    pub url: String,
    pub body: Option<Vec<u8>>,
}

/// What a request holds.
pub struct RequestView {
    pub method: Method,
    pub url: Seq<char>,
    pub body: Option<Seq<u8>>,
}

impl View for Request {
    type V = RequestView;

    open spec fn view(&self) -> RequestView {
        RequestView {
            method: self.method,
            url: self.url@,
            body: match self.body {
                Some(bytes) => Some(bytes@),
                None => None,
            },
        }
    }
}

/// A request without a body for the resource at `path` under `base`.
pub open spec fn get_of(base: Seq<char>, path: Seq<char>) -> RequestView {
    RequestView { method: Method::Get, url: base + path, body: None }
}

/// The request that carries a task submission to the backend at `base`.
pub open spec fn submit_of(base: Seq<char>, req: SubmitTaskRequestView) -> RequestView {
    RequestView {
        method: Method::Post,
        url: base + "/tasks"@,
        body: Some(json_text(submit_task_request_json(req))),
    }
}

/// A request without a body for the resource at `path` under `base`.
fn get_request(base: &str, path: &str) -> (r: Request)
    ensures
        r@ == get_of(base@, path@),
{
    Request { method: Method::Get, url: String::from_str(base).concat(path), body: None }
}

/// The request of `get_health`.
pub fn get_health_request(base: &str) -> (r: Request)
    ensures
        r@ == get_of(base@, "/health"@),
{
    get_request(base, "/health")
}

/// The request of `get_snapshot`.
pub fn get_snapshot_request(base: &str) -> (r: Request)
    ensures
        r@ == get_of(base@, "/snapshot"@),
{
    get_request(base, "/snapshot")
}

/// The request of `get_agents`.
pub fn get_agents_request(base: &str) -> (r: Request)
    ensures
        r@ == get_of(base@, "/agents"@),
{
    get_request(base, "/agents")
}

/// The request of `submit_task`, given the outcome of writing its body: the
/// request with that body, or `Encode` for a failed write.
pub fn submit_task_request_with(base: &str, body: Result<Vec<u8>, serde_json::Error>) -> (r: Result<
    Request,
    ApiError,
>)
    ensures
        match body {
            Ok(bytes) => r is Ok && r->Ok_0@ == (RequestView {
                method: Method::Post,
                url: base@ + "/tasks"@,
                body: Some(bytes@),
            }),
            Err(_) => r is Err && r->Err_0@ == ApiErrorView::Encode,
        },
{
    match body {
        Ok(bytes) => Ok(
            Request {
                method: Method::Post,
                url: String::from_str(base).concat("/tasks"),
                body: Some(bytes),
            },
        ),
        Err(_) => Err(ApiError::Encode),
    }
}

/// The request of `submit_task`: one for every pair of strings. Neither
/// string is examined: both go out as they are, empty or not. The result is
/// always `Ok`; it is a `Result` because writing the body gives one.
pub fn submit_task_request(base: &str, name: String, description: String) -> (r: Result<
    Request,
    ApiError,
>)
    ensures
        r is Ok,
        r->Ok_0@ == submit_of(
            base@,
            SubmitTaskRequestView { name: name@, description: description@ },
        ),
{
    let submission = SubmitTaskRequest { name, description };
    let v = encode_submit_task_request(&submission);
    submit_task_request_with(base, render(&v))
}

/// What a call gives for a reply, where `of` says which record a document
/// stands for: the transport's failure as it is, a decode error for a body
/// that is not JSON or stands for no record, else the record.
pub open spec fn reply_outcome<V>(
    reply: Result<Seq<u8>, Seq<char>>,
    of: spec_fn(Json) -> Result<V, DecodeError>,
) -> Result<V, ApiErrorView> {
    match reply {
        Err(text) => Err(ApiErrorView::Transport(text)),
        Ok(body) => match json_parse(body) {
            None => Err(ApiErrorView::Decode(DecodeError::Syntax)),
            Some(doc) => match of(doc) {
                Ok(record) => Ok(record),
                Err(e) => Err(ApiErrorView::Decode(e)),
            },
        },
    }
}

/// A reply, over the views of its two cases.
pub open spec fn reply_view(reply: Result<Vec<u8>, String>) -> Result<Seq<u8>, Seq<char>> {
    match reply {
        Ok(body) => Ok(body@),
        Err(text) => Err(text@),
    }
}

/// The result of a call, over the views of its two cases.
pub open spec fn result_view<T: View>(r: Result<T, ApiError>) -> Result<T::V, ApiErrorView> {
    match r {
        Ok(record) => Ok(record@),
        Err(e) => Err(e@),
    }
}

/// The result of a call that gives a list of agents, over views.
pub open spec fn agents_result_view(r: Result<Vec<AgentSnapshot>, ApiError>) -> Result<
    Seq<AgentView>,
    ApiErrorView,
> {
    match r {
        Ok(agents) => Ok(agent_views(agents@)),
        Err(e) => Err(e@),
    }
}

/// The document of a reply: the transport's failure as it is, and a syntax
/// error for a body that is not JSON text.
fn received(reply: Result<Vec<u8>, String>) -> (r: Result<serde_json::Value, ApiError>)
    ensures
        match r {
            Ok(v) => reply is Ok && json_parse(reply->Ok_0@) == Some(json_model(v)),
            Err(e) => match reply {
                Err(text) => e@ == ApiErrorView::Transport(text@),
                Ok(body) => json_parse(body@) is None && e@ == ApiErrorView::Decode(
                    DecodeError::Syntax,
                ),
            },
        },
{
    match reply {
        Err(text) => Err(ApiError::Transport(text)),
        Ok(body) => match parse(body.as_slice()) {
            Ok(v) => Ok(v),
            Err(_) => Err(ApiError::Decode(DecodeError::Syntax)),
        },
    }
}

/// The health of the backend, from the reply to `get_health_request`. The
/// score of a health record that comes back is finite.
pub fn get_health(reply: Result<Vec<u8>, String>) -> (r: Result<HealthResponse, ApiError>)
    ensures
        result_view(r) == reply_outcome(reply_view(reply), |doc: Json| health_of(doc)),
        r matches Ok(health) ==> health.health.is_finite(),
{
    let v = received(reply)?;
    match decode_health(&v) {
        Ok(health) => Ok(health),
        Err(e) => Err(ApiError::Decode(e)),
    }
}

/// The state of the system, from the reply to `get_snapshot_request`. The
/// score of a snapshot that comes back is finite.
pub fn get_snapshot(reply: Result<Vec<u8>, String>) -> (r: Result<DashboardSnapshot, ApiError>)
    ensures
        result_view(r) == reply_outcome(reply_view(reply), |doc: Json| snapshot_of(doc)),
        r matches Ok(snapshot) ==> snapshot.system_health.is_finite(),
{
    let v = received(reply)?;
    match decode_snapshot(&v) {
        Ok(snapshot) => Ok(snapshot),
        Err(e) => Err(ApiError::Decode(e)),
    }
}

/// The agents, from the reply to `get_agents_request`: the list inside the
/// envelope, not the envelope.
pub fn get_agents(reply: Result<Vec<u8>, String>) -> (r: Result<Vec<AgentSnapshot>, ApiError>)
    ensures
        agents_result_view(r) == reply_outcome(reply_view(reply), |doc: Json| agent_list_of(doc)),
{
    let v = received(reply)?;
    match decode_agent_list(&v) {
        Ok(agents) => Ok(agents),
        Err(e) => Err(ApiError::Decode(e)),
    }
}

/// The backend's answer to a task, from the reply to `submit_task_request`.
pub fn submit_task(reply: Result<Vec<u8>, String>) -> (r: Result<SubmitTaskResponse, ApiError>)
    ensures
        result_view(r) == reply_outcome(
            reply_view(reply),
            |doc: Json| submit_task_response_of(doc),
        ),
{
    let v = received(reply)?;
    match decode_submit_task_response(&v) {
        Ok(answer) => Ok(answer),
        Err(e) => Err(ApiError::Decode(e)),
    }
}

} // verus!
