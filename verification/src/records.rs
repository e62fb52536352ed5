//! The typed records that travel between the dashboard backend and the UI,
//! each with the mathematical view that contracts speak of.

use crate::json::Number;
use vstd::prelude::*;

verus! {

/// Liveness of the backend.
#[derive(Clone, Debug, PartialEq, Eq)]
pub struct HealthResponse {
    pub status: String,
    /// The health score, as the JSON number that the backend sent.
    pub health: Number,
}

/// What a health record holds.
pub struct HealthView {
    pub status: Seq<char>,
    pub health: Number,
}

impl View for HealthResponse {
    type V = HealthView;

    open spec fn view(&self) -> HealthView {
        HealthView { status: self.status@, health: self.health }
    }
}

/// The observable state of one worker.
#[derive(Clone, Debug, PartialEq, Eq)]
pub struct AgentSnapshot {
    pub agent_id: String,
    pub team_type: String,
    pub status: String,
    pub current_task: Option<String>,
    pub tasks_completed: u32,
    pub tasks_failed: u32,
    /// Seconds since the agent started.
    pub uptime: u64,
}

/// What an agent holds.
pub struct AgentView {
    pub agent_id: Seq<char>,
    pub team_type: Seq<char>,
    pub status: Seq<char>,
    pub current_task: Option<Seq<char>>,
    pub tasks_completed: u32,
    pub tasks_failed: u32,
    pub uptime: u64,
}

impl View for AgentSnapshot {
    type V = AgentView;

    open spec fn view(&self) -> AgentView {
        AgentView {
            agent_id: self.agent_id@,
            team_type: self.team_type@,
            status: self.status@,
            current_task: match self.current_task {
                Some(task) => Some(task@),
                None => None,
            },
            tasks_completed: self.tasks_completed,
            tasks_failed: self.tasks_failed,
            uptime: self.uptime,
        }
    }
}

/// The views of a list of agents, in the same order.
pub open spec fn agent_views(agents: Seq<AgentSnapshot>) -> Seq<AgentView> {
    Seq::new(agents.len(), |i: int| agents[i]@)
}

/// The state of the whole system at one moment.
#[derive(Clone, Debug, PartialEq, Eq)]
pub struct DashboardSnapshot {
    /// The system health score, as the JSON number that the backend sent.
    pub system_health: Number,
    pub agents: Vec<AgentSnapshot>,
    pub active_workflows: u32,
    pub total_tasks_completed: u32,
    pub total_tasks_failed: u32,
    /// Seconds since the system started.
    pub uptime: u64,
    /// The moment of the snapshot, as the backend wrote it.
    pub timestamp: String,
}

/// What a dashboard snapshot holds.
pub struct DashboardView {
    pub system_health: Number,
    pub agents: Seq<AgentView>,
    pub active_workflows: u32,
    pub total_tasks_completed: u32,
    pub total_tasks_failed: u32,
    pub uptime: u64,
    pub timestamp: Seq<char>,
}

impl View for DashboardSnapshot {
    type V = DashboardView;

    open spec fn view(&self) -> DashboardView {
        DashboardView {
            system_health: self.system_health,
            agents: agent_views(self.agents@),
            active_workflows: self.active_workflows,
            total_tasks_completed: self.total_tasks_completed,
            total_tasks_failed: self.total_tasks_failed,
            uptime: self.uptime,
            timestamp: self.timestamp@,
        }
    }
}

/// A task handed to the backend.
#[derive(Clone, Debug, PartialEq, Eq)]
pub struct SubmitTaskRequest {
    pub name: String,
    pub description: String,
}

/// What a task submission holds.
pub struct SubmitTaskRequestView {
    pub name: Seq<char>,
    pub description: Seq<char>,
}

impl View for SubmitTaskRequest {
    type V = SubmitTaskRequestView;

    open spec fn view(&self) -> SubmitTaskRequestView {
        SubmitTaskRequestView { name: self.name@, description: self.description@ }
    }
}

/// The backend's answer to an accepted task.
#[derive(Clone, Debug, PartialEq, Eq)]
pub struct SubmitTaskResponse {
    pub task_id: String,
    pub status: String,
}

/// What an answer to a task submission holds.
pub struct SubmitTaskResponseView {
    pub task_id: Seq<char>,
    pub status: Seq<char>,
}

impl View for SubmitTaskResponse {
    type V = SubmitTaskResponseView;

    open spec fn view(&self) -> SubmitTaskResponseView {
        SubmitTaskResponseView { task_id: self.task_id@, status: self.status@ }
    }
}

} // verus!
