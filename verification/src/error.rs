//! What can go wrong with a call, and the text shown for it.

use vstd::prelude::*;
use vstd::string::StringExecFns;

verus! {

/// A member of a wire record.
#[derive(Clone, Copy, Debug, PartialEq, Eq, Structural)]
pub enum Field {
    Status,
    Health,
    AgentId,
    TeamType,
    CurrentTask,
    TasksCompleted,
    TasksFailed,
    Uptime,
    SystemHealth,
    Agents,
    ActiveWorkflows,
    TotalTasksCompleted,
    TotalTasksFailed,
    Timestamp,
    TaskId,
    Name,
    Description,
}

impl Field {
    /// The member's name on the wire.
    pub open spec fn wire(self) -> Seq<char> {
        match self {
            Field::Status => "status"@,
            Field::Health => "health"@,
            Field::AgentId => "agentId"@,
            Field::TeamType => "teamType"@,
            Field::CurrentTask => "currentTask"@,
            Field::TasksCompleted => "tasksCompleted"@,
            Field::TasksFailed => "tasksFailed"@,
            Field::Uptime => "uptime"@,
            Field::SystemHealth => "systemHealth"@,
            Field::Agents => "agents"@,
            Field::ActiveWorkflows => "activeWorkflows"@,
            Field::TotalTasksCompleted => "totalTasksCompleted"@,
            Field::TotalTasksFailed => "totalTasksFailed"@,
            Field::Timestamp => "timestamp"@,
            Field::TaskId => "taskId"@,
            Field::Name => "name"@,
            Field::Description => "description"@,
        }
    }

    /// The member's name on the wire.
    pub fn wire_name(self) -> (name: &'static str)
        ensures
            name@ == self.wire(),
    {
        match self {
            Field::Status => "status",
            Field::Health => "health",
            Field::AgentId => "agentId",
            Field::TeamType => "teamType",
            Field::CurrentTask => "currentTask",
            Field::TasksCompleted => "tasksCompleted",
            Field::TasksFailed => "tasksFailed",
            Field::Uptime => "uptime",
            Field::SystemHealth => "systemHealth",
            Field::Agents => "agents",
            Field::ActiveWorkflows => "activeWorkflows",
            Field::TotalTasksCompleted => "totalTasksCompleted",
            Field::TotalTasksFailed => "totalTasksFailed",
            Field::Timestamp => "timestamp",
            Field::TaskId => "taskId",
            Field::Name => "name",
            Field::Description => "description",
        }
    }
}

/// Why a body could not be decoded into a record.
#[derive(Clone, Copy, Debug, PartialEq, Eq, Structural)]
pub enum DecodeError {
    /// The body is not JSON text.
    Syntax,
    /// A record was expected where the document holds something that is not
    /// an object.
    NotObject,
    /// A required member is absent.
    Missing(Field),
    /// A member holds a value of the wrong type, or a number out of the
    /// member's range.
    Mismatch(Field),
}

impl DecodeError {
    /// The text shown for this error.
    pub open spec fn text(self) -> Seq<char> {
        match self {
            DecodeError::Syntax => "error decoding response body: invalid JSON"@,
            DecodeError::NotObject => "error decoding response body: expected an object"@,
            DecodeError::Missing(f) => "error decoding response body: missing field `"@ + f.wire()
                + "`"@,
            DecodeError::Mismatch(f) => "error decoding response body: invalid value for field `"@
                + f.wire() + "`"@,
        }
    }

    /// The text shown for this error.
    pub fn message(&self) -> (s: String)
        ensures
            s@ == self.text(),
    {
        match self {
            DecodeError::Syntax => String::from_str("error decoding response body: invalid JSON"),
            DecodeError::NotObject => String::from_str(
                "error decoding response body: expected an object",
            ),
            DecodeError::Missing(f) => {
                let s = String::from_str("error decoding response body: missing field `");
                s.concat(f.wire_name()).concat("`")
            },
            DecodeError::Mismatch(f) => {
                let s = String::from_str("error decoding response body: invalid value for field `");
                s.concat(f.wire_name()).concat("`")
            },
        }
    }
}

/// Why a call gave no value.
#[derive(Clone, Debug, PartialEq, Eq)]
pub enum ApiError {
    /// The request could not be sent or no response came back; the text is
    /// the transport's own description.
    Transport(String),
    /// Writing the request body failed.
    Encode,
    /// A response came back and its body could not be decoded.
    Decode(DecodeError),
}

/// What an error of a call holds.
pub enum ApiErrorView {
    Transport(Seq<char>),
    Encode,
    Decode(DecodeError),
}

impl View for ApiError {
    type V = ApiErrorView;

    open spec fn view(&self) -> ApiErrorView {
        match self {
            ApiError::Transport(text) => ApiErrorView::Transport(text@),
            ApiError::Encode => ApiErrorView::Encode,
            ApiError::Decode(e) => ApiErrorView::Decode(*e),
        }
    }
}

impl ApiErrorView {
    /// The text shown for this error.
    pub open spec fn text(self) -> Seq<char> {
        match self {
            ApiErrorView::Transport(text) => text,
            ApiErrorView::Encode => "error encoding request body"@,
            ApiErrorView::Decode(e) => e.text(),
        }
    }
}

impl ApiError {
    /// The text shown to the caller for this error. A transport failure keeps
    /// the transport's description.
    pub fn message(&self) -> (s: String)
        ensures
            s@ == self@.text(),
    {
        match self {
            ApiError::Transport(text) => text.clone(),
            ApiError::Encode => String::from_str("error encoding request body"),
            ApiError::Decode(e) => e.message(),
        }
    }
}

} // verus!
