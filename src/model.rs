use vstd::prelude::*;

verus! {

/// What a caller asks the runtime to launch. The runtime validates it; nothing
/// is checked locally.
#[derive(Debug, Clone, PartialEq, Eq)]
pub struct AgentConfig {
    pub agent_type: String,
    pub name: String,
    pub working_dir: String,
    pub prompt: Option<String>,
    pub model: Option<String>,
}

/// A snapshot of one agent, as the runtime reported it.
#[derive(Debug, Clone, PartialEq, Eq)]
pub struct Agent {
    pub id: String,
    pub agent_type: String,
    pub name: String,
    pub status: String,
    pub working_dir: String,
    pub started_at: String,
}

/// A request to the runtime: exactly one is sent per exchange.
#[derive(Debug, Clone, PartialEq, Eq)]
pub enum RuntimeMessage {
    StartAgent { config: AgentConfig },
    StopAgent { agent_id: String },
    ListAgents,
    GetAgent { agent_id: String },
    SendMessage { agent_id: String, message: String },
}

/// A reply of the runtime: exactly one is expected per exchange.
#[derive(Debug, Clone, PartialEq, Eq)]
pub enum RuntimeResponse {
    Agent { agent: Agent },
    Agents { agents: Vec<Agent> },
    AgentOptional { agent: Option<Agent> },
    Success,
    Error { message: String },
}

/// The kind of a request, without its payload.
#[derive(Debug, Clone, Copy, PartialEq, Eq, Structural)]
pub enum Operation {
    StartAgent,
    StopAgent,
    ListAgents,
    GetAgent,
    SendMessage,
}

pub open spec fn operation_of(m: RuntimeMessage) -> Operation {
    match m {
        RuntimeMessage::StartAgent { .. } => Operation::StartAgent,
        RuntimeMessage::StopAgent { .. } => Operation::StopAgent,
        RuntimeMessage::ListAgents => Operation::ListAgents,
        RuntimeMessage::GetAgent { .. } => Operation::GetAgent,
        RuntimeMessage::SendMessage { .. } => Operation::SendMessage,
    }
}

/// The discriminant shared with the runtime for each kind of request.
pub open spec fn operation_tag(op: Operation) -> Seq<char> {
    match op {
        Operation::StartAgent => "start_agent"@,
        Operation::StopAgent => "stop_agent"@,
        Operation::ListAgents => "list_agents"@,
        Operation::GetAgent => "get_agent"@,
        Operation::SendMessage => "send_message"@,
    }
}

/// The discriminant shared with the runtime for each kind of reply.
pub open spec fn response_tag(r: RuntimeResponse) -> Seq<char> {
    match r {
        RuntimeResponse::Agent { .. } => "agent"@,
        RuntimeResponse::Agents { .. } => "agents"@,
        RuntimeResponse::AgentOptional { .. } => "agent_optional"@,
        RuntimeResponse::Success => "success"@,
        RuntimeResponse::Error { .. } => "error"@,
    }
}

impl RuntimeMessage {
    /// The kind of this request.
    pub fn operation(&self) -> (r: Operation)
        ensures
            r == operation_of(*self),
    {
        match self {
            RuntimeMessage::StartAgent { .. } => Operation::StartAgent,
            RuntimeMessage::StopAgent { .. } => Operation::StopAgent,
            RuntimeMessage::ListAgents => Operation::ListAgents,
            RuntimeMessage::GetAgent { .. } => Operation::GetAgent,
            RuntimeMessage::SendMessage { .. } => Operation::SendMessage,
        }
    }

    /// The wire discriminant of this request.
    pub fn tag(&self) -> (r: &'static str)
        ensures
            r@ == operation_tag(operation_of(*self)),
    {
        let op = self.operation();
        op.tag()
    }
}

impl Operation {
    /// The wire discriminant of this kind of request.
    pub fn tag(&self) -> (r: &'static str)
        ensures
            r@ == operation_tag(*self),
    {
        proof {
            reveal_strlit("start_agent");
            reveal_strlit("stop_agent");
            reveal_strlit("list_agents");
            reveal_strlit("get_agent");
            reveal_strlit("send_message");
        }
        match self {
            Operation::StartAgent => "start_agent",
            Operation::StopAgent => "stop_agent",
            Operation::ListAgents => "list_agents",
            Operation::GetAgent => "get_agent",
            Operation::SendMessage => "send_message",
        }
    }
}

impl RuntimeResponse {
    /// The wire discriminant of this reply.
    pub fn tag(&self) -> (r: &'static str)
        ensures
            r@ == response_tag(*self),
    {
        proof {
            reveal_strlit("agent");
            reveal_strlit("agents");
            reveal_strlit("agent_optional");
            reveal_strlit("success");
            reveal_strlit("error");
        }
        match self {
            RuntimeResponse::Agent { .. } => "agent",
            RuntimeResponse::Agents { .. } => "agents",
            RuntimeResponse::AgentOptional { .. } => "agent_optional",
            RuntimeResponse::Success => "success",
            RuntimeResponse::Error { .. } => "error",
        }
    }
}

} // verus!
