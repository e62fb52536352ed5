//! What holds of the decoders and of the calls, for every document and every
//! reply.

use crate::commands::reply_outcome;
use crate::decode::{
    agent_list_of, agent_of, agents_of, first_failure, health_of, snapshot_of,
    submit_task_request_of, submit_task_response_of,
};
use crate::encode::submit_task_request_json;
use crate::error::{ApiErrorView, DecodeError, Field};
use crate::json::{lookup, Json, Number};
use crate::value::json_parse;
use crate::records::{
    AgentView, DashboardView, HealthView, SubmitTaskRequestView, SubmitTaskResponseView,
};
use vstd::prelude::*;

verus! {

/// A document has the shape of a health record with the given values: it is
/// an object whose `status` is that string and whose `health` is that number.
pub open spec fn health_shape(doc: Json, h: HealthView) -> bool {
    &&& doc is Object
    &&& doc.member(Field::Status.wire()) == Some(Json::Text(h.status))
    &&& doc.member(Field::Health.wire()) == Some(Json::Number(h.health))
}

/// A member has the shape of an optional string: absent or null for none,
/// else that string.
pub open spec fn optional_text_shape(member: Option<Json>, text: Option<Seq<char>>) -> bool {
    match text {
        Some(s) => member == Some(Json::Text(s)),
        None => member is None || member == Some(Json::Null),
    }
}

/// A member holds the given count as a non-negative integer.
pub open spec fn count_shape(member: Option<Json>, n: int) -> bool {
    0 <= n <= u64::MAX && member == Some(Json::Number(Number::PosInt(n as u64)))
}

/// A document has the shape of an agent with the given values.
pub open spec fn agent_shape(doc: Json, a: AgentView) -> bool {
    &&& doc is Object
    &&& doc.member(Field::AgentId.wire()) == Some(Json::Text(a.agent_id))
    &&& doc.member(Field::TeamType.wire()) == Some(Json::Text(a.team_type))
    &&& doc.member(Field::Status.wire()) == Some(Json::Text(a.status))
    &&& optional_text_shape(doc.member(Field::CurrentTask.wire()), a.current_task)
    &&& count_shape(doc.member(Field::TasksCompleted.wire()), a.tasks_completed as int)
    &&& count_shape(doc.member(Field::TasksFailed.wire()), a.tasks_failed as int)
    &&& count_shape(doc.member(Field::Uptime.wire()), a.uptime as int)
}

/// Documents have, one by one and in order, the shapes of the given agents.
pub open spec fn agents_shape(items: Seq<Json>, agents: Seq<AgentView>) -> bool {
    &&& items.len() == agents.len()
    &&& forall|i: int| 0 <= i < items.len() ==> agent_shape(#[trigger] items[i], agents[i])
}

/// A member is an array with the shapes of the given agents.
pub open spec fn agents_member_shape(member: Option<Json>, agents: Seq<AgentView>) -> bool {
    member matches Some(Json::Array(items)) && agents_shape(items, agents)
}

/// A document has the shape of a dashboard snapshot with the given values.
pub open spec fn snapshot_shape(doc: Json, s: DashboardView) -> bool {
    &&& doc is Object
    &&& doc.member(Field::SystemHealth.wire()) == Some(Json::Number(s.system_health))
    &&& agents_member_shape(doc.member(Field::Agents.wire()), s.agents)
    &&& count_shape(doc.member(Field::ActiveWorkflows.wire()), s.active_workflows as int)
    &&& count_shape(doc.member(Field::TotalTasksCompleted.wire()), s.total_tasks_completed as int)
    &&& count_shape(doc.member(Field::TotalTasksFailed.wire()), s.total_tasks_failed as int)
    &&& count_shape(doc.member(Field::Uptime.wire()), s.uptime as int)
    &&& doc.member(Field::Timestamp.wire()) == Some(Json::Text(s.timestamp))
}

/// A document has the shape of the envelope around the given agents.
pub open spec fn agent_list_shape(doc: Json, agents: Seq<AgentView>) -> bool {
    &&& doc is Object
    &&& agents_member_shape(doc.member(Field::Agents.wire()), agents)
}

/// A document has the shape of the given task submission.
pub open spec fn submit_task_request_shape(doc: Json, req: SubmitTaskRequestView) -> bool {
    &&& doc is Object
    &&& doc.member(Field::Name.wire()) == Some(Json::Text(req.name))
    &&& doc.member(Field::Description.wire()) == Some(Json::Text(req.description))
}

/// A document has the shape of the given answer to a task submission.
pub open spec fn submit_task_response_shape(doc: Json, answer: SubmitTaskResponseView) -> bool {
    &&& doc is Object
    &&& doc.member(Field::TaskId.wire()) == Some(Json::Text(answer.task_id))
    &&& doc.member(Field::Status.wire()) == Some(Json::Text(answer.status))
}

/// A document decodes to a health record exactly when it has that record's
/// shape: each field of the record is the value of the member with the
/// field's wire name, and other members do not matter.
pub proof fn lemma_health_exact(doc: Json, h: HealthView)
    ensures
        health_of(doc) == Ok::<HealthView, DecodeError>(h) <==> health_shape(doc, h),
{
}

/// A document decodes to an agent exactly when it has that agent's shape.
pub proof fn lemma_agent_exact(doc: Json, a: AgentView)
    ensures
        agent_of(doc) == Ok::<AgentView, DecodeError>(a) <==> agent_shape(doc, a),
{
}

/// A sequence of documents decodes to a list of agents exactly when the
/// documents have the agents' shapes one by one: as many agents as
/// documents, in the same order.
pub proof fn lemma_agents_exact(items: Seq<Json>, agents: Seq<AgentView>)
    ensures
        agents_of(items) == Ok::<Seq<AgentView>, DecodeError>(agents) <==> agents_shape(
            items,
            agents,
        ),
{
    if agents_of(items) == Ok::<Seq<AgentView>, DecodeError>(agents) {
        assert forall|i: int| 0 <= i < items.len() implies agent_shape(
            #[trigger] items[i],
            agents[i],
        ) by {
            assert(agent_of(items[i]) is Ok);
            lemma_agent_exact(items[i], agents[i]);
        }
    }
    if agents_shape(items, agents) {
        assert forall|i: int| 0 <= i < items.len() implies (#[trigger] agent_of(items[i]))
            == Ok::<AgentView, DecodeError>(agents[i]) by {
            lemma_agent_exact(items[i], agents[i]);
        }
        assert(agents_of(items)->Ok_0 =~= agents);
    }
}

/// Where a document in a sequence stands for no agent, the sequence decodes
/// to the error of the first such document.
pub proof fn lemma_agents_first_failure(items: Seq<Json>, k: int)
    requires
        0 <= k < items.len(),
        agent_of(items[k]) is Err,
        forall|i: int| 0 <= i < k ==> (#[trigger] agent_of(items[i])) is Ok,
    ensures
        agents_of(items) == Err::<Seq<AgentView>, DecodeError>(agent_of(items[k])->Err_0),
{
    let first = first_failure(items);
    if first < k {
        assert(agent_of(items[first]) is Ok);
    }
}

/// A document decodes to a dashboard snapshot exactly when it has that
/// snapshot's shape.
pub proof fn lemma_snapshot_exact(doc: Json, s: DashboardView)
    ensures
        snapshot_of(doc) == Ok::<DashboardView, DecodeError>(s) <==> snapshot_shape(doc, s),
{
    match doc.member(Field::Agents.wire()) {
        Some(Json::Array(items)) => {
            lemma_agents_exact(items, s.agents);
        },
        _ => {},
    }
}

/// A document decodes to a list of agents exactly when it is an envelope
/// whose `agents` member has the agents' shapes: the list is what is inside
/// the envelope.
pub proof fn lemma_agent_list_exact(doc: Json, agents: Seq<AgentView>)
    ensures
        agent_list_of(doc) == Ok::<Seq<AgentView>, DecodeError>(agents) <==> agent_list_shape(
            doc,
            agents,
        ),
{
    match doc.member(Field::Agents.wire()) {
        Some(Json::Array(items)) => {
            lemma_agents_exact(items, agents);
        },
        _ => {},
    }
}

/// A document decodes to a task submission exactly when it has that
/// submission's shape.
pub proof fn lemma_submit_task_request_exact(doc: Json, req: SubmitTaskRequestView)
    ensures
        submit_task_request_of(doc) == Ok::<SubmitTaskRequestView, DecodeError>(req)
            <==> submit_task_request_shape(doc, req),
{
}

/// A document decodes to an answer to a task submission exactly when it has
/// that answer's shape.
pub proof fn lemma_submit_task_response_exact(doc: Json, answer: SubmitTaskResponseView)
    ensures
        submit_task_response_of(doc) == Ok::<SubmitTaskResponseView, DecodeError>(answer)
            <==> submit_task_response_shape(doc, answer),
{
}

/// A health document without one of its two members is rejected.
pub proof fn lemma_health_needs(doc: Json, f: Field)
    requires
        f == Field::Status || f == Field::Health,
        doc.member(f.wire()) is None,
    ensures
        health_of(doc) is Err,
{
}

/// An agent without one of its members, other than the current task, is
/// rejected.
pub proof fn lemma_agent_needs(doc: Json, f: Field)
    requires
        f == Field::AgentId || f == Field::TeamType || f == Field::Status || f
            == Field::TasksCompleted || f == Field::TasksFailed || f == Field::Uptime,
        doc.member(f.wire()) is None,
    ensures
        agent_of(doc) is Err,
{
}

/// A dashboard snapshot without one of its members is rejected.
pub proof fn lemma_snapshot_needs(doc: Json, f: Field)
    requires
        f == Field::SystemHealth || f == Field::Agents || f == Field::ActiveWorkflows || f
            == Field::TotalTasksCompleted || f == Field::TotalTasksFailed || f == Field::Uptime
            || f == Field::Timestamp,
        doc.member(f.wire()) is None,
    ensures
        snapshot_of(doc) is Err,
{
}

/// An envelope without its `agents` member is rejected.
pub proof fn lemma_agent_list_needs(doc: Json)
    requires
        doc.member(Field::Agents.wire()) is None,
    ensures
        agent_list_of(doc) is Err,
{
}

/// A list of agents in which one document lacks a required member is
/// rejected as a whole.
pub proof fn lemma_agents_need(items: Seq<Json>, k: int, f: Field)
    requires
        0 <= k < items.len(),
        f == Field::AgentId || f == Field::TeamType || f == Field::Status || f
            == Field::TasksCompleted || f == Field::TasksFailed || f == Field::Uptime,
        items[k].member(f.wire()) is None,
    ensures
        agents_of(items) is Err,
{
    lemma_agent_needs(items[k], f);
}

/// An answer to a task submission without one of its two members is
/// rejected.
pub proof fn lemma_submit_task_response_needs(doc: Json, f: Field)
    requires
        f == Field::TaskId || f == Field::Status,
        doc.member(f.wire()) is None,
    ensures
        submit_task_response_of(doc) is Err,
{
}

/// Encoding a task submission and decoding the document gives the submission
/// back, whatever the two strings hold.
pub proof fn lemma_submit_task_request_round_trip(req: SubmitTaskRequestView)
    ensures
        submit_task_request_of(submit_task_request_json(req)) == Ok::<
            SubmitTaskRequestView,
            DecodeError,
        >(req),
{
    reveal_strlit("name");
    reveal_strlit("description");
    reveal_with_fuel(lookup, 3);
    let members = submit_task_request_json(req)->Object_0;
    assert(members[0].0 == Field::Name.wire());
    assert(members[1].0 == Field::Description.wire());
    assert(Field::Name.wire().len() != Field::Description.wire().len());
    assert(members.drop_first()[0] == members[1]);
}

/// When the transport fails, a call fails with the transport's description,
/// whichever record it was to give.
pub proof fn lemma_unreachable_backend<V>(
    text: Seq<char>,
    of: spec_fn(Json) -> Result<V, DecodeError>,
)
    ensures
        reply_outcome(Err(text), of) == Err::<V, ApiErrorView>(ApiErrorView::Transport(text)),
{
}

/// When a body comes back, a call gives what the body's document decodes to:
/// the record, or the decode error; and a decode error for a body that is no
/// JSON text.
pub proof fn lemma_body_decides<V>(body: Seq<u8>, of: spec_fn(Json) -> Result<V, DecodeError>)
    ensures
        match json_parse(body) {
            Some(doc) => match of(doc) {
                Ok(record) => reply_outcome(Ok(body), of) == Ok::<V, ApiErrorView>(record),
                Err(e) => reply_outcome(Ok(body), of) == Err::<V, ApiErrorView>(
                    ApiErrorView::Decode(e),
                ),
            },
            None => reply_outcome(Ok(body), of) == Err::<V, ApiErrorView>(
                ApiErrorView::Decode(DecodeError::Syntax),
            ),
        },
{
}

} // verus!
