use vstd::prelude::*;
use crate::error::{error_text, BridgeError};
use crate::model::{Agent, RuntimeResponse};

verus! {

/// What `start_agent` makes of a reply: an `Agent` record.
pub open spec fn agent_outcome(r: RuntimeResponse) -> Result<Agent, BridgeError> {
    match r {
        RuntimeResponse::Agent { agent } => Ok(agent),
        RuntimeResponse::Error { message } => Err(BridgeError::Peer(message)),
        _ => Err(BridgeError::UnexpectedResponse),
    }
}

/// What `stop_agent` and `send_message` make of a reply: a bare success.
pub open spec fn success_outcome(r: RuntimeResponse) -> Result<(), BridgeError> {
    match r {
        RuntimeResponse::Success => Ok(()),
        RuntimeResponse::Error { message } => Err(BridgeError::Peer(message)),
        _ => Err(BridgeError::UnexpectedResponse),
    }
}

/// What `list_agents` makes of a reply: a list of `Agent` records.
pub open spec fn agents_outcome(r: RuntimeResponse) -> Result<Vec<Agent>, BridgeError> {
    match r {
        RuntimeResponse::Agents { agents } => Ok(agents),
        RuntimeResponse::Error { message } => Err(BridgeError::Peer(message)),
        _ => Err(BridgeError::UnexpectedResponse),
    }
}

/// What `get_agent` makes of a reply: an `Agent` record, or its absence.
pub open spec fn agent_optional_outcome(r: RuntimeResponse) -> Result<Option<Agent>, BridgeError> {
    match r {
        RuntimeResponse::AgentOptional { agent } => Ok(agent),
        RuntimeResponse::Error { message } => Err(BridgeError::Peer(message)),
        _ => Err(BridgeError::UnexpectedResponse),
    }
}

/// The reply to a `start_agent` request, as the caller receives it.
pub fn expect_agent(r: RuntimeResponse) -> (out: Result<Agent, BridgeError>)
    ensures
        out == agent_outcome(r),
{
    match r {
        RuntimeResponse::Agent { agent } => Ok(agent),
        RuntimeResponse::Error { message } => Err(BridgeError::Peer(message)),
        _ => Err(BridgeError::UnexpectedResponse),
    }
}

/// The reply to a `stop_agent` or `send_message` request, as the caller receives it.
pub fn expect_success(r: RuntimeResponse) -> (out: Result<(), BridgeError>)
    ensures
        out == success_outcome(r),
{
    match r {
        RuntimeResponse::Success => Ok(()),
        RuntimeResponse::Error { message } => Err(BridgeError::Peer(message)),
        _ => Err(BridgeError::UnexpectedResponse),
    }
}

/// The reply to a `list_agents` request, as the caller receives it.
pub fn expect_agents(r: RuntimeResponse) -> (out: Result<Vec<Agent>, BridgeError>)
    ensures
        out == agents_outcome(r),
{
    match r {
        RuntimeResponse::Agents { agents } => Ok(agents),
        RuntimeResponse::Error { message } => Err(BridgeError::Peer(message)),
        _ => Err(BridgeError::UnexpectedResponse),
    }
}

/// The reply to a `get_agent` request, as the caller receives it.
pub fn expect_agent_optional(r: RuntimeResponse) -> (out: Result<Option<Agent>, BridgeError>)
    ensures
        out == agent_optional_outcome(r),
{
    match r {
        RuntimeResponse::AgentOptional { agent } => Ok(agent),
        RuntimeResponse::Error { message } => Err(BridgeError::Peer(message)),
        _ => Err(BridgeError::UnexpectedResponse),
    }
}

/// A reply of the shape that each request calls for reaches the caller as
/// exactly the value it carries.
pub proof fn lemma_expected_reply_returns_payload(
    agent: Agent,
    agents: Vec<Agent>,
    found: Option<Agent>,
)
    ensures
        agent_outcome(RuntimeResponse::Agent { agent }) == Ok::<Agent, BridgeError>(agent),
        agents_outcome(RuntimeResponse::Agents { agents }) == Ok::<Vec<Agent>, BridgeError>(
            agents,
        ),
        agent_optional_outcome(RuntimeResponse::AgentOptional { agent: found }) == Ok::<
            Option<Agent>,
            BridgeError,
        >(found),
        success_outcome(RuntimeResponse::Success) == Ok::<(), BridgeError>(()),
{
}

/// An error reply reaches the caller of every operation as a peer error whose
/// text is the peer's message, verbatim.
pub proof fn lemma_peer_error_passes_through(message: String)
    ensures
        agent_outcome(RuntimeResponse::Error { message }) == Err::<Agent, BridgeError>(
            BridgeError::Peer(message),
        ),
        agents_outcome(RuntimeResponse::Error { message }) == Err::<Vec<Agent>, BridgeError>(
            BridgeError::Peer(message),
        ),
        agent_optional_outcome(RuntimeResponse::Error { message }) == Err::<
            Option<Agent>,
            BridgeError,
        >(BridgeError::Peer(message)),
        success_outcome(RuntimeResponse::Error { message }) == Err::<(), BridgeError>(
            BridgeError::Peer(message),
        ),
        error_text(BridgeError::Peer(message)) == message@,
{
}

/// A reply that is neither an error nor of the shape a request calls for is
/// never taken as a success: it fails with `UnexpectedResponse`.
pub proof fn lemma_mismatched_reply_rejected(r: RuntimeResponse)
    ensures
        !(r is Agent) && !(r is Error) ==> agent_outcome(r) == Err::<Agent, BridgeError>(
            BridgeError::UnexpectedResponse,
        ),
        !(r is Agents) && !(r is Error) ==> agents_outcome(r) == Err::<Vec<Agent>, BridgeError>(
            BridgeError::UnexpectedResponse,
        ),
        !(r is AgentOptional) && !(r is Error) ==> agent_optional_outcome(r) == Err::<
            Option<Agent>,
            BridgeError,
        >(BridgeError::UnexpectedResponse),
        !(r is Success) && !(r is Error) ==> success_outcome(r) == Err::<(), BridgeError>(
            BridgeError::UnexpectedResponse,
        ),
{
}

} // verus!
