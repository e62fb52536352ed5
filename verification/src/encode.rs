//! From a task submission to the body of the request that carries it.

use crate::error::Field;
use crate::json::Json;
use crate::value::{json_model, object_value, text_value};
use crate::records::{SubmitTaskRequest, SubmitTaskRequestView};
use vstd::prelude::*;
use vstd::string::StringExecFns;

verus! {

/// The document that stands for a task submission: an object with the name
/// first and the description second, both as they are.
pub open spec fn submit_task_request_json(req: SubmitTaskRequestView) -> Json {
    Json::Object(
        seq![
            (Field::Name.wire(), Json::Text(req.name)),
            (Field::Description.wire(), Json::Text(req.description)),
        ],
    )
}

/// Encodes a task submission.
pub fn encode_submit_task_request(req: &SubmitTaskRequest) -> (v: serde_json::Value)
    ensures
        json_model(v) == submit_task_request_json(req@),
{
    let name = text_value(req.name.clone());
    let description = text_value(req.description.clone());
    let mut members: Vec<(String, serde_json::Value)> = Vec::new();
    members.push((String::from_str(Field::Name.wire_name()), name));
    members.push((String::from_str(Field::Description.wire_name()), description));
    proof {
        reveal_strlit("name");
        reveal_strlit("description");
        assert(Field::Name.wire().len() != Field::Description.wire().len());
    }
    let v = object_value(members);
    proof {
        assert(Seq::new(members@.len(), |i: int| (members@[i].0@, json_model(members@[i].1)))
            =~= submit_task_request_json(req@)->Object_0);
    }
    v
}

} // verus!
