use vstd::prelude::*;
use crate::error::BridgeError;
use crate::model::{operation_of, AgentConfig, Operation, RuntimeMessage, RuntimeResponse};

verus! {

/// What the transport delivered where a reply was awaited.
#[derive(Debug, Clone, PartialEq, Eq)]
pub enum Frame {
    /// A text frame, decoded into a reply.
    Text(RuntimeResponse),
    /// A text frame whose content could not be decoded; the decoder's description.
    Undecodable(String),
    /// A frame that is not a text frame (binary or control).
    NonText,
    /// The transport reported a failure; its description.
    Failed(String),
    /// The stream ended with no frame.
    Closed,
}

/// The exchange in flight after a request of kind `op` is issued.
/// A request issued while another awaits its reply is refused.
pub open spec fn after_issue(pending: Option<Operation>, op: Operation) -> Option<Operation> {
    if pending is None {
        Some(op)
    } else {
        pending
    }
}

/// What an exchange yields once the transport has delivered `f`.
pub open spec fn frame_outcome(pending: Option<Operation>, f: Frame) -> Result<
    RuntimeResponse,
    BridgeError,
> {
    if pending is None {
        Err(BridgeError::UnexpectedResponse)
    } else {
        match f {
            Frame::Text(r) => Ok(r),
            Frame::Undecodable(d) => Err(BridgeError::Malformed(d)),
            Frame::NonText => Err(BridgeError::UnexpectedMessageType),
            Frame::Failed(d) => Err(BridgeError::Transport(d)),
            Frame::Closed => Err(BridgeError::ConnectionClosed),
        }
    }
}

/// The request that `stop_agent` sends for `id`.
pub open spec fn is_stop_request(m: RuntimeMessage, id: Seq<char>) -> bool {
    match m {
        RuntimeMessage::StopAgent { agent_id } => agent_id@ == id,
        _ => false,
    }
}

/// The request that `get_agent` sends for `id`.
pub open spec fn is_get_request(m: RuntimeMessage, id: Seq<char>) -> bool {
    match m {
        RuntimeMessage::GetAgent { agent_id } => agent_id@ == id,
        _ => false,
    }
}

/// The request that `send_message` sends for `id` and `text`.
pub open spec fn is_send_request(m: RuntimeMessage, id: Seq<char>, text: Seq<char>) -> bool {
    match m {
        RuntimeMessage::SendMessage { agent_id, message } => agent_id@ == id && message@ == text,
        _ => false,
    }
}

/// One live connection's exchange discipline: at most one request awaits its
/// reply at any time, and each reply is handed to the request that is awaiting.
pub struct AgentBridge {
    pending: Option<Operation>,
}

impl View for AgentBridge {
    /// The kind of the request that awaits its reply, if any.
    type V = Option<Operation>;

    closed spec fn view(&self) -> Option<Operation> {
        self.pending
    }
}

impl AgentBridge {
    /// The bridge over a connection attempt: idle on success, a connection
    /// error carrying the transport's description on failure.
    pub fn connect(outcome: Result<(), String>) -> (r: Result<AgentBridge, BridgeError>)
        ensures
            outcome is Ok <==> r is Ok,
            r is Ok ==> r->Ok_0@ is None,
            outcome is Err ==> r == Err::<AgentBridge, BridgeError>(
                BridgeError::Connect(outcome->Err_0),
            ),
    {
        match outcome {
            Ok(()) => Ok(AgentBridge { pending: None }),
            Err(d) => Err(BridgeError::Connect(d)),
        }
    }

    /// Opens an exchange for `msg` and hands it back for transmission; refused
    /// while another exchange awaits its reply.
    fn issue(&mut self, msg: RuntimeMessage) -> (r: Result<RuntimeMessage, BridgeError>)
        ensures
            final(self)@ == after_issue(old(self)@, operation_of(msg)),
            old(self)@ is None ==> r == Ok::<RuntimeMessage, BridgeError>(msg),
            old(self)@ is Some ==> r == Err::<RuntimeMessage, BridgeError>(
                BridgeError::ExchangeInProgress,
            ),
    {
        if self.pending.is_some() {
            Err(BridgeError::ExchangeInProgress)
        } else {
            self.pending = Some(msg.operation());
            Ok(msg)
        }
    }

    /// Opens an exchange that asks the runtime to launch `config`.
    pub fn start_agent(&mut self, config: AgentConfig) -> (r: Result<RuntimeMessage, BridgeError>)
        ensures
            final(self)@ == after_issue(old(self)@, Operation::StartAgent),
            old(self)@ is None ==> r == Ok::<RuntimeMessage, BridgeError>(
                RuntimeMessage::StartAgent { config },
            ),
            old(self)@ is Some ==> r == Err::<RuntimeMessage, BridgeError>(
                BridgeError::ExchangeInProgress,
            ),
    {
        self.issue(RuntimeMessage::StartAgent { config })
    }

    /// Opens an exchange that asks the runtime to stop agent `agent_id`.
    pub fn stop_agent(&mut self, agent_id: &str) -> (r: Result<RuntimeMessage, BridgeError>)
        ensures
            final(self)@ == after_issue(old(self)@, Operation::StopAgent),
            old(self)@ is None ==> r is Ok && is_stop_request(r->Ok_0, agent_id@),
            old(self)@ is Some ==> r == Err::<RuntimeMessage, BridgeError>(
                BridgeError::ExchangeInProgress,
            ),
    {
        self.issue(RuntimeMessage::StopAgent { agent_id: agent_id.to_owned() })
    }

    /// Opens an exchange that asks the runtime for every agent.
    pub fn list_agents(&mut self) -> (r: Result<RuntimeMessage, BridgeError>)
        ensures
            final(self)@ == after_issue(old(self)@, Operation::ListAgents),
            old(self)@ is None ==> r == Ok::<RuntimeMessage, BridgeError>(
                RuntimeMessage::ListAgents,
            ),
            old(self)@ is Some ==> r == Err::<RuntimeMessage, BridgeError>(
                BridgeError::ExchangeInProgress,
            ),
    {
        self.issue(RuntimeMessage::ListAgents)
    }

    /// Opens an exchange that asks the runtime for agent `agent_id`.
    pub fn get_agent(&mut self, agent_id: &str) -> (r: Result<RuntimeMessage, BridgeError>)
        ensures
            final(self)@ == after_issue(old(self)@, Operation::GetAgent),
            old(self)@ is None ==> r is Ok && is_get_request(r->Ok_0, agent_id@),
            old(self)@ is Some ==> r == Err::<RuntimeMessage, BridgeError>(
                BridgeError::ExchangeInProgress,
            ),
    {
        self.issue(RuntimeMessage::GetAgent { agent_id: agent_id.to_owned() })
    }

    /// Opens an exchange that hands `message` to agent `agent_id`.
    pub fn send_message(&mut self, agent_id: &str, message: &str) -> (r: Result<
        RuntimeMessage,
        BridgeError,
    >)
        ensures
            final(self)@ == after_issue(old(self)@, Operation::SendMessage),
            old(self)@ is None ==> r is Ok && is_send_request(r->Ok_0, agent_id@, message@),
            old(self)@ is Some ==> r == Err::<RuntimeMessage, BridgeError>(
                BridgeError::ExchangeInProgress,
            ),
    {
        self.issue(
            RuntimeMessage::SendMessage { agent_id: agent_id.to_owned(), message: message.to_owned() },
        )
    }

    /// Closes the exchange in flight without a reply, because encoding or
    /// sending its request failed with `err`.
    pub fn abandon(&mut self, err: BridgeError) -> (r: BridgeError)
        ensures
            final(self)@ is None,
            r == err,
    {
        self.pending = None;
        err
    }

    /// Closes the exchange in flight with what the transport delivered.
    pub fn receive(&mut self, frame: Frame) -> (r: Result<RuntimeResponse, BridgeError>)
        ensures
            final(self)@ is None,
            r == frame_outcome(old(self)@, frame),
    {
        if self.pending.is_none() {
            return Err(BridgeError::UnexpectedResponse);
        }
        self.pending = None;
        match frame {
            Frame::Text(r) => Ok(r),
            Frame::Undecodable(d) => Err(BridgeError::Malformed(d)),
            Frame::NonText => Err(BridgeError::UnexpectedMessageType),
            Frame::Failed(d) => Err(BridgeError::Transport(d)),
            Frame::Closed => Err(BridgeError::ConnectionClosed),
        }
    }

    /// Whether a request awaits its reply.
    pub fn awaiting_reply(&self) -> (r: bool)
        ensures
            r == self@ is Some,
    {
        self.pending.is_some()
    }
}

/// One event in the life of a connection: a caller issues a request of some
/// kind, or the transport delivers what stands where a reply was awaited.
pub enum Step {
    Issue(Operation),
    Deliver,
}

/// Replays `steps` from a fresh connection, as `AgentBridge` handles them:
/// the exchange in flight at the end, the kinds of the requests transmitted,
/// and the kinds of the requests that were handed a reply, each in order.
pub open spec fn replay(steps: Seq<Step>) -> (Option<Operation>, Seq<Operation>, Seq<Operation>)
    decreases steps.len(),
{
    if steps.len() == 0 {
        (None, Seq::empty(), Seq::empty())
    } else {
        let (pending, sent, answered) = replay(steps.drop_last());
        match steps.last() {
            Step::Issue(op) => (
                after_issue(pending, op),
                if pending is None {
                    sent.push(op)
                } else {
                    sent
                },
                answered,
            ),
            Step::Deliver => match pending {
                Some(p) => (None, sent, answered.push(p)),
                None => (None, sent, answered),
            },
        }
    }
}

/// However callers and deliveries interleave, at most one request awaits its
/// reply, and replies are handed out one for one, in the order in which the
/// requests were transmitted.
pub proof fn lemma_replies_pair_in_order(steps: Seq<Step>)
    ensures
        ({
            let (pending, sent, answered) = replay(steps);
            &&& answered.len() <= sent.len() <= answered.len() + 1
            &&& answered == sent.subrange(0, answered.len() as int)
            &&& (pending is Some <==> sent.len() == answered.len() + 1)
            &&& (pending is Some ==> pending == Some(sent.last()))
        }),
    decreases steps.len(),
{
    if steps.len() > 0 {
        lemma_replies_pair_in_order(steps.drop_last());
        let (pending, sent, answered) = replay(steps.drop_last());
        match steps.last() {
            Step::Issue(op) => {
                if pending is None {
                    assert(sent.push(op).subrange(0, answered.len() as int) =~= sent.subrange(
                        0,
                        answered.len() as int,
                    ));
                }
            },
            Step::Deliver => {
                if pending is Some {
                    assert(answered.push(pending->Some_0) =~= sent.subrange(
                        0,
                        (answered.len() + 1) as int,
                    ));
                }
            },
        }
    }
}

/// The exchange in flight fails with a connection-closed error when the
/// stream ends before its reply.
pub proof fn lemma_closed_stream_fails(op: Operation)
    ensures
        frame_outcome(Some(op), Frame::Closed) == Err::<RuntimeResponse, BridgeError>(
            BridgeError::ConnectionClosed,
        ),
{
}

/// A reply frame reaches the exchange in flight unchanged.
pub proof fn lemma_reply_frame_delivered(op: Operation, r: RuntimeResponse)
    ensures
        frame_outcome(Some(op), Frame::Text(r)) == Ok::<RuntimeResponse, BridgeError>(r),
{
}

} // verus!
