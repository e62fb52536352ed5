use dashboard_proxy::decode::{
    decode_agent, decode_agent_list, decode_agents, decode_health, decode_snapshot,
    decode_submit_task_request, decode_submit_task_response, number_of,
};
use dashboard_proxy::error::{DecodeError, Field};
use dashboard_proxy::json::Number;
use dashboard_proxy::records::{AgentSnapshot, HealthResponse, SubmitTaskRequest};
use serde_json::Value;

fn doc(text: &str) -> Value {
    serde_json::from_str(text).expect("the test's own text is JSON")
}

fn agent_with(member: &str) -> Value {
    doc(&format!(
        "{{\"agentId\":\"a1\",\"teamType\":\"qa\",\"status\":\"idle\",\"tasksCompleted\":3,\"tasksFailed\":0,\"uptime\":120{}}}",
        member
    ))
}

fn agent_without(left_out: &str) -> Value {
    let members = [
        ("agentId", "\"a1\""),
        ("teamType", "\"qa\""),
        ("status", "\"idle\""),
        ("currentTask", "\"t\""),
        ("tasksCompleted", "3"),
        ("tasksFailed", "0"),
        ("uptime", "120"),
    ];
    let mut object = serde_json::Map::new();
    for (name, value) in members.iter() {
        if *name != left_out {
            object.insert(String::from(*name), doc(value));
        }
    }
    Value::Object(object)
}

#[test]
fn number_of_a_non_negative_integer() {
    assert_eq!(number_of(&doc("0")), Some(Number::PosInt(0)));
    assert_eq!(number_of(&doc("18446744073709551615")), Some(Number::PosInt(u64::MAX)));
    assert_eq!(number_of(&doc("9223372036854775808")), Some(Number::PosInt(1 << 63)));
}

#[test]
fn number_of_a_negative_integer() {
    assert_eq!(number_of(&doc("-1")), Some(Number::NegInt(-1)));
    assert_eq!(number_of(&doc("-9223372036854775808")), Some(Number::NegInt(i64::MIN)));
}

#[test]
fn number_of_a_double() {
    assert_eq!(number_of(&doc("0.97")), Some(Number::Float(0.97f64.to_bits())));
    assert_eq!(number_of(&doc("1.0")), Some(Number::Float(1.0f64.to_bits())));
    assert_eq!(number_of(&doc("-2.5e3")), Some(Number::Float((-2500.0f64).to_bits())));
    assert_eq!(number_of(&doc("-0")), Some(Number::Float((-0.0f64).to_bits())));
    assert_eq!(
        number_of(&doc("18446744073709551616")),
        Some(Number::Float(18446744073709551616.0f64.to_bits()))
    );
}

#[test]
fn number_of_what_is_no_number() {
    assert_eq!(number_of(&doc("null")), None);
    assert_eq!(number_of(&doc("true")), None);
    assert_eq!(number_of(&doc("\"1\"")), None);
    assert_eq!(number_of(&doc("[1]")), None);
    assert_eq!(number_of(&doc("{}")), None);
}

#[test]
fn decode_health_reads_both_members() {
    assert_eq!(
        decode_health(&doc(r#"{"status":"degraded","health":0.25}"#)),
        Ok(HealthResponse {
            status: String::from("degraded"),
            health: Number::Float(0.25f64.to_bits()),
        })
    );
}

#[test]
fn decode_health_keeps_an_empty_status() {
    let health = decode_health(&doc(r#"{"status":"","health":0}"#)).unwrap();
    assert_eq!(health.status, "");
    assert_eq!(health.health, Number::PosInt(0));
}

#[test]
fn decode_health_reports_the_status_before_the_health() {
    assert_eq!(
        decode_health(&doc(r#"{"status":1,"health":"x"}"#)),
        Err(DecodeError::Mismatch(Field::Status))
    );
    assert_eq!(
        decode_health(&doc(r#"{"health":"x"}"#)),
        Err(DecodeError::Missing(Field::Status))
    );
    assert_eq!(
        decode_health(&doc(r#"{"status":"ok","health":true}"#)),
        Err(DecodeError::Mismatch(Field::Health))
    );
}

#[test]
fn decode_health_rejects_what_is_no_object() {
    for text in ["null", "true", "3", "\"status\"", "[]"] {
        assert_eq!(decode_health(&doc(text)), Err(DecodeError::NotObject));
    }
}

#[test]
fn decode_agent_reads_every_member() {
    assert_eq!(
        decode_agent(&agent_with(r#","currentTask":"deploy""#)),
        Ok(AgentSnapshot {
            agent_id: String::from("a1"),
            team_type: String::from("qa"),
            status: String::from("idle"),
            current_task: Some(String::from("deploy")),
            tasks_completed: 3,
            tasks_failed: 0,
            uptime: 120,
        })
    );
}

#[test]
fn decode_agent_takes_null_or_nothing_for_no_current_task() {
    assert_eq!(decode_agent(&agent_with(r#","currentTask":null"#)).unwrap().current_task, None);
    assert_eq!(decode_agent(&agent_with("")).unwrap().current_task, None);
    assert_eq!(
        decode_agent(&agent_with(r#","currentTask":"""#)).unwrap().current_task,
        Some(String::new())
    );
}

#[test]
fn decode_agent_rejects_a_current_task_that_is_no_string() {
    for value in ["7", "false", "[]", "{}"] {
        let agent = agent_with(&format!(",\"currentTask\":{}", value));
        assert_eq!(decode_agent(&agent), Err(DecodeError::Mismatch(Field::CurrentTask)));
    }
}

#[test]
fn decode_agent_rejects_each_missing_member() {
    let required = [
        ("agentId", Field::AgentId),
        ("teamType", Field::TeamType),
        ("status", Field::Status),
        ("tasksCompleted", Field::TasksCompleted),
        ("tasksFailed", Field::TasksFailed),
        ("uptime", Field::Uptime),
    ];
    for (name, field) in required.iter() {
        assert_eq!(decode_agent(&agent_without(name)), Err(DecodeError::Missing(*field)));
    }
    assert!(decode_agent(&agent_without("currentTask")).is_ok());
    assert!(decode_agent(&agent_without("")).is_ok());
}

#[test]
fn decode_agent_rejects_counters_that_are_no_counters() {
    let mut agent = agent_without("tasksCompleted");
    for value in ["-1", "3.0", "4294967296", "\"3\"", "null"] {
        agent["tasksCompleted"] = doc(value);
        assert_eq!(decode_agent(&agent), Err(DecodeError::Mismatch(Field::TasksCompleted)));
    }
    agent["tasksCompleted"] = doc("4294967295");
    assert_eq!(decode_agent(&agent).unwrap().tasks_completed, u32::MAX);
}

#[test]
fn decode_agent_takes_an_uptime_of_64_bits() {
    let mut agent = agent_without("uptime");
    agent["uptime"] = doc("4294967296");
    assert_eq!(decode_agent(&agent).unwrap().uptime, 4294967296);
    agent["uptime"] = doc("18446744073709551616");
    assert_eq!(decode_agent(&agent), Err(DecodeError::Mismatch(Field::Uptime)));
    agent["uptime"] = doc("-5");
    assert_eq!(decode_agent(&agent), Err(DecodeError::Mismatch(Field::Uptime)));
}

#[test]
fn decode_agents_of_nothing() {
    assert_eq!(decode_agents(&Vec::new()), Ok(Vec::new()));
}

#[test]
fn decode_agents_in_order() {
    let mut second = agent_without("");
    second["agentId"] = doc("\"a2\"");
    let agents = decode_agents(&vec![agent_without(""), second]).unwrap();
    assert_eq!(agents.len(), 2);
    assert_eq!(agents[0].agent_id, "a1");
    assert_eq!(agents[1].agent_id, "a2");
}

#[test]
fn decode_agents_stops_at_the_first_fault() {
    let items = vec![agent_without(""), agent_without("uptime"), agent_without("agentId")];
    assert_eq!(decode_agents(&items), Err(DecodeError::Missing(Field::Uptime)));
}

#[test]
fn decode_agent_list_hands_out_the_inner_list() {
    let agents =
        decode_agent_list(&doc(r#"{"agents":[{"agentId":"a1","teamType":"qa","status":"idle","currentTask":null,"tasksCompleted":3,"tasksFailed":0,"uptime":120}],"count":1}"#))
            .unwrap();
    assert_eq!(agents.len(), 1);
    assert_eq!(agents[0].agent_id, "a1");
    assert_eq!(agents[0].team_type, "qa");
    assert_eq!(agents[0].status, "idle");
    assert_eq!(agents[0].current_task, None);
    assert_eq!(agents[0].tasks_completed, 3);
    assert_eq!(agents[0].tasks_failed, 0);
    assert_eq!(agents[0].uptime, 120);
}

#[test]
fn decode_agent_list_rejects_agents_that_are_no_array() {
    for value in ["null", "\"a1\"", "{}", "1"] {
        let envelope = doc(&format!("{{\"agents\":{}}}", value));
        assert_eq!(decode_agent_list(&envelope), Err(DecodeError::Mismatch(Field::Agents)));
    }
}

#[test]
fn decode_snapshot_reports_members_in_their_order() {
    assert_eq!(decode_snapshot(&doc("{}")), Err(DecodeError::Missing(Field::SystemHealth)));
    assert_eq!(
        decode_snapshot(&doc(r#"{"systemHealth":1}"#)),
        Err(DecodeError::Missing(Field::Agents))
    );
    assert_eq!(
        decode_snapshot(&doc(r#"{"systemHealth":1,"agents":[],"timestamp":7}"#)),
        Err(DecodeError::Missing(Field::ActiveWorkflows))
    );
    assert_eq!(
        decode_snapshot(&doc(
            r#"{"systemHealth":1,"agents":[],"activeWorkflows":0,"totalTasksCompleted":0,"totalTasksFailed":0,"uptime":0,"timestamp":7}"#
        )),
        Err(DecodeError::Mismatch(Field::Timestamp))
    );
    assert_eq!(decode_snapshot(&doc("[]")), Err(DecodeError::NotObject));
}

#[test]
fn decode_snapshot_takes_an_empty_system() {
    let snapshot = decode_snapshot(&doc(
        r#"{"timestamp":"","uptime":0,"totalTasksFailed":0,"totalTasksCompleted":0,"activeWorkflows":0,"agents":[],"systemHealth":-0.5}"#,
    ))
    .unwrap();
    assert_eq!(snapshot.system_health, Number::Float((-0.5f64).to_bits()));
    assert!(snapshot.agents.is_empty());
    assert_eq!(snapshot.active_workflows, 0);
    assert_eq!(snapshot.total_tasks_completed, 0);
    assert_eq!(snapshot.total_tasks_failed, 0);
    assert_eq!(snapshot.uptime, 0);
    assert_eq!(snapshot.timestamp, "");
}

#[test]
fn decode_submit_task_request_reads_both_members() {
    assert_eq!(
        decode_submit_task_request(&doc(r#"{"description":"d","name":"n"}"#)),
        Ok(SubmitTaskRequest { name: String::from("n"), description: String::from("d") })
    );
    assert_eq!(
        decode_submit_task_request(&doc(r#"{"name":"n"}"#)),
        Err(DecodeError::Missing(Field::Description))
    );
    assert_eq!(
        decode_submit_task_request(&doc(r#"{"name":null,"description":"d"}"#)),
        Err(DecodeError::Mismatch(Field::Name))
    );
    assert_eq!(decode_submit_task_request(&doc("\"n\"")), Err(DecodeError::NotObject));
}

#[test]
fn decode_submit_task_response_reads_both_members() {
    let answer = decode_submit_task_response(&doc(r#"{"taskId":"","status":"rejected"}"#)).unwrap();
    assert_eq!(answer.task_id, "");
    assert_eq!(answer.status, "rejected");
    assert_eq!(
        decode_submit_task_response(&doc(r#"{"taskId":17,"status":"queued"}"#)),
        Err(DecodeError::Mismatch(Field::TaskId))
    );
    assert_eq!(decode_submit_task_response(&doc("17")), Err(DecodeError::NotObject));
}
