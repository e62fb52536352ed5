//! From a JSON document to a typed record.
//!
//! Each record has a spec function that says, over the model of a document,
//! which record the document stands for or why it stands for none, and an
//! executable decoder proved to compute exactly that. Members are looked up
//! by their wire names; members that a record does not name are ignored. The
//! members of a record are examined in the order in which the record lists
//! them, and the first one at fault decides the error.
//!
//! A decoder sees the document, not the text. Where a text names a member
//! twice, `serde_json` keeps the name once with the later value, so such a
//! body is decoded with the later value and not rejected.

use crate::error::{DecodeError, Field};
use crate::json::{Json, Number};
use crate::value::{
    as_float_bits, as_signed, as_text, as_unsigned, elements, is_null, is_object, json_model,
    json_models, member,
};
use crate::records::{
    agent_views, AgentSnapshot, AgentView, DashboardSnapshot, DashboardView, HealthResponse,
    HealthView, SubmitTaskRequest, SubmitTaskRequestView, SubmitTaskResponse,
    SubmitTaskResponseView,
};
use vstd::prelude::*;
use vstd::string::StringExecFns;

verus! {

/// A required string member.
pub open spec fn text_at(doc: Json, f: Field) -> Result<Seq<char>, DecodeError> {
    match doc.member(f.wire()) {
        None => Err(DecodeError::Missing(f)),
        Some(Json::Text(s)) => Ok(s),
        Some(_) => Err(DecodeError::Mismatch(f)),
    }
}

/// A string member that may be absent or null.
pub open spec fn optional_text_at(doc: Json, f: Field) -> Result<Option<Seq<char>>, DecodeError> {
    match doc.member(f.wire()) {
        None => Ok(None),
        Some(Json::Null) => Ok(None),
        Some(Json::Text(s)) => Ok(Some(s)),
        Some(_) => Err(DecodeError::Mismatch(f)),
    }
}

/// A required member that holds a non-negative integer.
pub open spec fn u64_at(doc: Json, f: Field) -> Result<u64, DecodeError> {
    match doc.member(f.wire()) {
        None => Err(DecodeError::Missing(f)),
        Some(Json::Number(Number::PosInt(n))) => Ok(n),
        Some(_) => Err(DecodeError::Mismatch(f)),
    }
}

/// A required member that holds a non-negative integer of 32 bits.
pub open spec fn u32_at(doc: Json, f: Field) -> Result<u32, DecodeError> {
    match u64_at(doc, f) {
        Ok(n) => if n <= u32::MAX {
            Ok(n as u32)
        } else {
            Err(DecodeError::Mismatch(f))
        },
        Err(e) => Err(e),
    }
}

/// A required member that holds a number of any form.
pub open spec fn number_at(doc: Json, f: Field) -> Result<Number, DecodeError> {
    match doc.member(f.wire()) {
        None => Err(DecodeError::Missing(f)),
        Some(Json::Number(n)) => Ok(n),
        Some(_) => Err(DecodeError::Mismatch(f)),
    }
}

/// The health record that a document stands for.
pub open spec fn health_of(doc: Json) -> Result<HealthView, DecodeError> {
    if !(doc is Object) {
        Err(DecodeError::NotObject)
    } else {
        match text_at(doc, Field::Status) {
            Err(e) => Err(e),
            Ok(status) => match number_at(doc, Field::Health) {
                Err(e) => Err(e),
                Ok(health) => Ok(HealthView { status, health }),
            },
        }
    }
}

/// The agent that a document stands for.
pub open spec fn agent_of(doc: Json) -> Result<AgentView, DecodeError> {
    if !(doc is Object) {
        Err(DecodeError::NotObject)
    } else {
        match text_at(doc, Field::AgentId) {
            Err(e) => Err(e),
            Ok(agent_id) => match text_at(doc, Field::TeamType) {
                Err(e) => Err(e),
                Ok(team_type) => match text_at(doc, Field::Status) {
                    Err(e) => Err(e),
                    Ok(status) => match optional_text_at(doc, Field::CurrentTask) {
                        Err(e) => Err(e),
                        Ok(current_task) => match u32_at(doc, Field::TasksCompleted) {
                            Err(e) => Err(e),
                            Ok(tasks_completed) => match u32_at(doc, Field::TasksFailed) {
                                Err(e) => Err(e),
                                Ok(tasks_failed) => match u64_at(doc, Field::Uptime) {
                                    Err(e) => Err(e),
                                    Ok(uptime) => Ok(
                                        AgentView {
                                            agent_id,
                                            team_type,
                                            status,
                                            current_task,
                                            tasks_completed,
                                            tasks_failed,
                                            uptime,
                                        },
                                    ),
                                },
                            },
                        },
                    },
                },
            },
        }
    }
}

/// The position of the first document that stands for no agent.
pub open spec fn first_failure(items: Seq<Json>) -> int {
    choose|k: int|
        0 <= k < items.len() && (#[trigger] agent_of(items[k])) is Err && forall|i: int|
            0 <= i < k ==> (#[trigger] agent_of(items[i])) is Ok
}

/// The agents that a sequence of documents stands for, in the same order; the
/// error of the first document that stands for none.
pub open spec fn agents_of(items: Seq<Json>) -> Result<Seq<AgentView>, DecodeError> {
    if forall|i: int| 0 <= i < items.len() ==> (#[trigger] agent_of(items[i])) is Ok {
        Ok(Seq::new(items.len(), |i: int| agent_of(items[i])->Ok_0))
    } else {
        Err(agent_of(items[first_failure(items)])->Err_0)
    }
}

/// A required member that holds an array of agents.
pub open spec fn agents_at(doc: Json, f: Field) -> Result<Seq<AgentView>, DecodeError> {
    match doc.member(f.wire()) {
        None => Err(DecodeError::Missing(f)),
        Some(Json::Array(items)) => agents_of(items),
        Some(_) => Err(DecodeError::Mismatch(f)),
    }
}

/// The dashboard snapshot that a document stands for.
pub open spec fn snapshot_of(doc: Json) -> Result<DashboardView, DecodeError> {
    if !(doc is Object) {
        Err(DecodeError::NotObject)
    } else {
        match number_at(doc, Field::SystemHealth) {
            Err(e) => Err(e),
            Ok(system_health) => match agents_at(doc, Field::Agents) {
                Err(e) => Err(e),
                Ok(agents) => match u32_at(doc, Field::ActiveWorkflows) {
                    Err(e) => Err(e),
                    Ok(active_workflows) => match u32_at(doc, Field::TotalTasksCompleted) {
                        Err(e) => Err(e),
                        Ok(total_tasks_completed) => match u32_at(doc, Field::TotalTasksFailed) {
                            Err(e) => Err(e),
                            Ok(total_tasks_failed) => match u64_at(doc, Field::Uptime) {
                                Err(e) => Err(e),
                                Ok(uptime) => match text_at(doc, Field::Timestamp) {
                                    Err(e) => Err(e),
                                    Ok(timestamp) => Ok(
                                        DashboardView {
                                            system_health,
                                            agents,
                                            active_workflows,
                                            total_tasks_completed,
                                            total_tasks_failed,
                                            uptime,
                                            timestamp,
                                        },
                                    ),
                                },
                            },
                        },
                    },
                },
            },
        }
    }
}

/// The agents inside the envelope that a document stands for.
pub open spec fn agent_list_of(doc: Json) -> Result<Seq<AgentView>, DecodeError> {
    if !(doc is Object) {
        Err(DecodeError::NotObject)
    } else {
        agents_at(doc, Field::Agents)
    }
}

/// The task submission that a document stands for.
pub open spec fn submit_task_request_of(doc: Json) -> Result<SubmitTaskRequestView, DecodeError> {
    if !(doc is Object) {
        Err(DecodeError::NotObject)
    } else {
        match text_at(doc, Field::Name) {
            Err(e) => Err(e),
            Ok(name) => match text_at(doc, Field::Description) {
                Err(e) => Err(e),
                Ok(description) => Ok(SubmitTaskRequestView { name, description }),
            },
        }
    }
}

/// The answer to a task submission that a document stands for.
pub open spec fn submit_task_response_of(doc: Json) -> Result<
    SubmitTaskResponseView,
    DecodeError,
> {
    if !(doc is Object) {
        Err(DecodeError::NotObject)
    } else {
        match text_at(doc, Field::TaskId) {
            Err(e) => Err(e),
            Ok(task_id) => match text_at(doc, Field::Status) {
                Err(e) => Err(e),
                Ok(status) => Ok(SubmitTaskResponseView { task_id, status }),
            },
        }
    }
}

/// The outcome of an executable decoder, over the view of its record.
pub open spec fn outcome<T: View>(r: Result<T, DecodeError>) -> Result<T::V, DecodeError> {
    match r {
        Ok(record) => Ok(record@),
        Err(e) => Err(e),
    }
}

/// The number that a value holds, which is finite; `None` for a value that
/// is no number.
pub fn number_of(v: &serde_json::Value) -> (r: Option<Number>)
    ensures
        match r {
            Some(n) => json_model(*v) == Json::Number(n) && n.is_finite(),
            None => !(json_model(*v) is Number),
        },
{
    if let Some(n) = as_unsigned(v) {
        return Some(Number::PosInt(n));
    }
    if let Some(n) = as_signed(v) {
        return Some(Number::NegInt(n));
    }
    match as_float_bits(v) {
        Some(bits) => Some(Number::Float(bits)),
        None => None,
    }
}

/// Reads a required string member.
fn read_text(v: &serde_json::Value, f: Field) -> (r: Result<String, DecodeError>)
    ensures
        outcome(r) == text_at(json_model(*v), f),
{
    match member(v, f.wire_name()) {
        None => Err(DecodeError::Missing(f)),
        Some(child) => match as_text(child) {
            Some(s) => Ok(String::from_str(s)),
            None => Err(DecodeError::Mismatch(f)),
        },
    }
}

/// Reads a string member that may be absent or null.
fn read_optional_text(v: &serde_json::Value, f: Field) -> (r: Result<Option<String>, DecodeError>)
    ensures
        match r {
            Ok(Some(s)) => optional_text_at(json_model(*v), f) == Ok::<
                Option<Seq<char>>,
                DecodeError,
            >(Some(s@)),
            Ok(None) => optional_text_at(json_model(*v), f) == Ok::<Option<Seq<char>>, DecodeError>(
                None,
            ),
            Err(e) => optional_text_at(json_model(*v), f) == Err::<Option<Seq<char>>, DecodeError>(
                e,
            ),
        },
{
    match member(v, f.wire_name()) {
        None => Ok(None),
        Some(child) => match as_text(child) {
            Some(s) => Ok(Some(String::from_str(s))),
            None => if is_null(child) {
                Ok(None)
            } else {
                Err(DecodeError::Mismatch(f))
            },
        },
    }
}

/// Reads a required member that holds a non-negative integer.
fn read_u64(v: &serde_json::Value, f: Field) -> (r: Result<u64, DecodeError>)
    ensures
        r == u64_at(json_model(*v), f),
{
    match member(v, f.wire_name()) {
        None => Err(DecodeError::Missing(f)),
        Some(child) => match as_unsigned(child) {
            Some(n) => Ok(n),
            None => Err(DecodeError::Mismatch(f)),
        },
    }
}

/// Reads a required member that holds a non-negative integer of 32 bits.
fn read_u32(v: &serde_json::Value, f: Field) -> (r: Result<u32, DecodeError>)
    ensures
        r == u32_at(json_model(*v), f),
{
    let n: u64 = read_u64(v, f)?;
    if n <= u32::MAX as u64 {
        Ok(n as u32)
    } else {
        Err(DecodeError::Mismatch(f))
    }
}

/// Reads a required member that holds a number of any form.
fn read_number(v: &serde_json::Value, f: Field) -> (r: Result<Number, DecodeError>)
    ensures
        r == number_at(json_model(*v), f),
        r matches Ok(n) ==> n.is_finite(),
{
    match member(v, f.wire_name()) {
        None => Err(DecodeError::Missing(f)),
        Some(child) => match number_of(child) {
            Some(n) => Ok(n),
            None => Err(DecodeError::Mismatch(f)),
        },
    }
}

/// Decodes a health record. The score of a decoded record is finite.
pub fn decode_health(v: &serde_json::Value) -> (r: Result<HealthResponse, DecodeError>)
    ensures
        outcome(r) == health_of(json_model(*v)),
        r matches Ok(health) ==> health.health.is_finite(),
{
    if !is_object(v) {
        return Err(DecodeError::NotObject);
    }
    let status = read_text(v, Field::Status)?;
    let health = read_number(v, Field::Health)?;
    Ok(HealthResponse { status, health })
}

/// Decodes one agent.
pub fn decode_agent(v: &serde_json::Value) -> (r: Result<AgentSnapshot, DecodeError>)
    ensures
        outcome(r) == agent_of(json_model(*v)),
{
    if !is_object(v) {
        return Err(DecodeError::NotObject);
    }
    let agent_id = read_text(v, Field::AgentId)?;
    let team_type = read_text(v, Field::TeamType)?;
    let status = read_text(v, Field::Status)?;
    let current_task = read_optional_text(v, Field::CurrentTask)?;
    let tasks_completed = read_u32(v, Field::TasksCompleted)?;
    let tasks_failed = read_u32(v, Field::TasksFailed)?;
    let uptime = read_u64(v, Field::Uptime)?;
    Ok(
        AgentSnapshot {
            agent_id,
            team_type,
            status,
            current_task,
            tasks_completed,
            tasks_failed,
            uptime,
        },
    )
}

/// Decodes a sequence of agents, in order, and stops at the first value that
/// holds none.
pub fn decode_agents(items: &Vec<serde_json::Value>) -> (r: Result<Vec<AgentSnapshot>, DecodeError>)
    ensures
        match r {
            Ok(agents) => agents_of(json_models(items@)) == Ok::<Seq<AgentView>, DecodeError>(
                agent_views(agents@),
            ),
            Err(e) => agents_of(json_models(items@)) == Err::<Seq<AgentView>, DecodeError>(e),
        },
{
    let ghost docs = json_models(items@);
    let mut agents: Vec<AgentSnapshot> = Vec::new();
    let mut i: usize = 0;
    while i < items.len()
        invariant
            i <= items.len(),
            docs == json_models(items@),
            agents@.len() == i,
            forall|j: int|
                0 <= j < i ==> (#[trigger] agent_of(docs[j])) == Ok::<AgentView, DecodeError>(
                    agents@[j]@,
                ),
        decreases items.len() - i,
    {
        match decode_agent(&items[i]) {
            Ok(agent) => {
                agents.push(agent);
            },
            Err(e) => {
                proof {
                    assert(agent_of(docs[i as int]) == Err::<AgentView, DecodeError>(e));
                    let k = first_failure(docs);
                    assert(k == i) by {
                        if k < i {
                            assert(agent_of(docs[k]) is Ok);
                        }
                    }
                }
                return Err(e);
            },
        }
        i += 1;
    }
    proof {
        assert(Seq::new(docs.len(), |i: int| agent_of(docs[i])->Ok_0) =~= agent_views(agents@));
    }
    Ok(agents)
}

/// Reads a required member that holds an array of agents.
fn read_agents(v: &serde_json::Value, f: Field) -> (r: Result<Vec<AgentSnapshot>, DecodeError>)
    ensures
        match r {
            Ok(agents) => agents_at(json_model(*v), f) == Ok::<Seq<AgentView>, DecodeError>(
                agent_views(agents@),
            ),
            Err(e) => agents_at(json_model(*v), f) == Err::<Seq<AgentView>, DecodeError>(e),
        },
{
    match member(v, f.wire_name()) {
        None => Err(DecodeError::Missing(f)),
        Some(child) => match elements(child) {
            Some(items) => decode_agents(items),
            None => Err(DecodeError::Mismatch(f)),
        },
    }
}

/// Decodes a dashboard snapshot. The score of a decoded snapshot is finite.
pub fn decode_snapshot(v: &serde_json::Value) -> (r: Result<DashboardSnapshot, DecodeError>)
    ensures
        outcome(r) == snapshot_of(json_model(*v)),
        r matches Ok(snapshot) ==> snapshot.system_health.is_finite(),
{
    if !is_object(v) {
        return Err(DecodeError::NotObject);
    }
    let system_health = read_number(v, Field::SystemHealth)?;
    let agents = read_agents(v, Field::Agents)?;
    let active_workflows = read_u32(v, Field::ActiveWorkflows)?;
    let total_tasks_completed = read_u32(v, Field::TotalTasksCompleted)?;
    let total_tasks_failed = read_u32(v, Field::TotalTasksFailed)?;
    let uptime = read_u64(v, Field::Uptime)?;
    let timestamp = read_text(v, Field::Timestamp)?;
    Ok(
        DashboardSnapshot {
            system_health,
            agents,
            active_workflows,
            total_tasks_completed,
            total_tasks_failed,
            uptime,
            timestamp,
        },
    )
}

/// Decodes the envelope around a list of agents and hands out the list.
pub fn decode_agent_list(v: &serde_json::Value) -> (r: Result<Vec<AgentSnapshot>, DecodeError>)
    ensures
        match r {
            Ok(agents) => agent_list_of(json_model(*v)) == Ok::<Seq<AgentView>, DecodeError>(
                agent_views(agents@),
            ),
            Err(e) => agent_list_of(json_model(*v)) == Err::<Seq<AgentView>, DecodeError>(e),
        },
{
    if !is_object(v) {
        return Err(DecodeError::NotObject);
    }
    read_agents(v, Field::Agents)
}

/// Decodes a task submission.
pub fn decode_submit_task_request(v: &serde_json::Value) -> (r: Result<
    SubmitTaskRequest,
    DecodeError,
>)
    ensures
        outcome(r) == submit_task_request_of(json_model(*v)),
{
    if !is_object(v) {
        return Err(DecodeError::NotObject);
    }
    let name = read_text(v, Field::Name)?;
    let description = read_text(v, Field::Description)?;
    Ok(SubmitTaskRequest { name, description })
}

/// Decodes the answer to a task submission.
pub fn decode_submit_task_response(v: &serde_json::Value) -> (r: Result<
    SubmitTaskResponse,
    DecodeError,
>)
    ensures
        outcome(r) == submit_task_response_of(json_model(*v)),
{
    if !is_object(v) {
        return Err(DecodeError::NotObject);
    }
    let task_id = read_text(v, Field::TaskId)?;
    let status = read_text(v, Field::Status)?;
    Ok(SubmitTaskResponse { task_id, status })
}

} // verus!
