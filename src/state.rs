use vstd::prelude::*;
use crate::bridge::{
    after_issue, frame_outcome, is_get_request, is_send_request, is_stop_request, AgentBridge,
    Frame,
};
use crate::error::BridgeError;
use crate::model::{AgentConfig, Operation, RuntimeMessage, RuntimeResponse};

verus! {

/// The application's single connection slot: empty until a connect succeeds.
pub struct AppState {
    bridge: Option<AgentBridge>,
}

impl View for AppState {
    /// `None` while not connected; otherwise the exchange in flight, if any.
    type V = Option<Option<Operation>>;

    closed spec fn view(&self) -> Option<Option<Operation>> {
        match self.bridge {
            Some(b) => Some(b@),
            None => None,
        }
    }
}

impl Default for AppState {
    fn default() -> (r: AppState)
        ensures
            r@ is None,
    {
        AppState { bridge: None }
    }
}

impl AppState {
    /// Installs a fresh bridge when the connection attempt succeeded; leaves the
    /// slot as it was when it failed.
    pub fn connect_to_runtime(&mut self, outcome: Result<(), String>) -> (r: Result<
        bool,
        BridgeError,
    >)
        ensures
            outcome is Ok ==> r == Ok::<bool, BridgeError>(true) && final(self)@ == Some(
                None::<Operation>,
            ),
            outcome is Err ==> r == Err::<bool, BridgeError>(BridgeError::Connect(outcome->Err_0))
                && final(self)@ == old(self)@,
    {
        match AgentBridge::connect(outcome) {
            Ok(b) => {
                self.bridge = Some(b);
                Ok(true)
            },
            Err(e) => Err(e),
        }
    }

    /// See `AgentBridge::start_agent`; fails with `NotConnected`, sending
    /// nothing, while no connection is established.
    pub fn start_agent(&mut self, config: AgentConfig) -> (r: Result<RuntimeMessage, BridgeError>)
        ensures
            old(self)@ is None ==> r == Err::<RuntimeMessage, BridgeError>(
                BridgeError::NotConnected,
            ) && final(self)@ == old(self)@,
            old(self)@ == Some(None::<Operation>) ==> r == Ok::<RuntimeMessage, BridgeError>(
                RuntimeMessage::StartAgent { config },
            ),
            old(self)@ matches Some(Some(_)) ==> r == Err::<RuntimeMessage, BridgeError>(
                BridgeError::ExchangeInProgress,
            ),
            old(self)@ is Some ==> final(self)@ == Some(
                after_issue(old(self)@->Some_0, Operation::StartAgent),
            ),
    {
        match &mut self.bridge {
            Some(b) => b.start_agent(config),
            None => Err(BridgeError::NotConnected),
        }
    }

    /// See `AgentBridge::stop_agent`; fails with `NotConnected`, sending
    /// nothing, while no connection is established.
    pub fn stop_agent(&mut self, agent_id: &str) -> (r: Result<RuntimeMessage, BridgeError>)
        ensures
            old(self)@ is None ==> r == Err::<RuntimeMessage, BridgeError>(
                BridgeError::NotConnected,
            ) && final(self)@ == old(self)@,
            old(self)@ == Some(None::<Operation>) ==> r is Ok && is_stop_request(
                r->Ok_0,
                agent_id@,
            ),
            old(self)@ matches Some(Some(_)) ==> r == Err::<RuntimeMessage, BridgeError>(
                BridgeError::ExchangeInProgress,
            ),
            old(self)@ is Some ==> final(self)@ == Some(
                after_issue(old(self)@->Some_0, Operation::StopAgent),
            ),
    {
        match &mut self.bridge {
            Some(b) => b.stop_agent(agent_id),
            None => Err(BridgeError::NotConnected),
        }
    }

    /// See `AgentBridge::list_agents`; fails with `NotConnected`, sending
    /// nothing, while no connection is established.
    pub fn list_agents(&mut self) -> (r: Result<RuntimeMessage, BridgeError>)
        ensures
            old(self)@ is None ==> r == Err::<RuntimeMessage, BridgeError>(
                BridgeError::NotConnected,
            ) && final(self)@ == old(self)@,
            old(self)@ == Some(None::<Operation>) ==> r == Ok::<RuntimeMessage, BridgeError>(
                RuntimeMessage::ListAgents,
            ),
            old(self)@ matches Some(Some(_)) ==> r == Err::<RuntimeMessage, BridgeError>(
                BridgeError::ExchangeInProgress,
            ),
            old(self)@ is Some ==> final(self)@ == Some(
                after_issue(old(self)@->Some_0, Operation::ListAgents),
            ),
    {
        match &mut self.bridge {
            Some(b) => b.list_agents(),
            None => Err(BridgeError::NotConnected),
        }
    }

    /// See `AgentBridge::get_agent`; fails with `NotConnected`, sending
    /// nothing, while no connection is established.
    pub fn get_agent(&mut self, agent_id: &str) -> (r: Result<RuntimeMessage, BridgeError>)
        ensures
            old(self)@ is None ==> r == Err::<RuntimeMessage, BridgeError>(
                BridgeError::NotConnected,
            ) && final(self)@ == old(self)@,
            old(self)@ == Some(None::<Operation>) ==> r is Ok && is_get_request(
                r->Ok_0,
                agent_id@,
            ),
            old(self)@ matches Some(Some(_)) ==> r == Err::<RuntimeMessage, BridgeError>(
                BridgeError::ExchangeInProgress,
            ),
            old(self)@ is Some ==> final(self)@ == Some(
                after_issue(old(self)@->Some_0, Operation::GetAgent),
            ),
    {
        match &mut self.bridge {
            Some(b) => b.get_agent(agent_id),
            None => Err(BridgeError::NotConnected),
        }
    }

    /// See `AgentBridge::send_message`; fails with `NotConnected`, sending
    /// nothing, while no connection is established.
    pub fn send_message(&mut self, agent_id: &str, message: &str) -> (r: Result<
        RuntimeMessage,
        BridgeError,
    >)
        ensures
            old(self)@ is None ==> r == Err::<RuntimeMessage, BridgeError>(
                BridgeError::NotConnected,
            ) && final(self)@ == old(self)@,
            old(self)@ == Some(None::<Operation>) ==> r is Ok && is_send_request(
                r->Ok_0,
                agent_id@,
                message@,
            ),
            old(self)@ matches Some(Some(_)) ==> r == Err::<RuntimeMessage, BridgeError>(
                BridgeError::ExchangeInProgress,
            ),
            old(self)@ is Some ==> final(self)@ == Some(
                after_issue(old(self)@->Some_0, Operation::SendMessage),
            ),
    {
        match &mut self.bridge {
            Some(b) => b.send_message(agent_id, message),
            None => Err(BridgeError::NotConnected),
        }
    }

    /// See `AgentBridge::abandon`; while not connected the slot stays empty.
    pub fn abandon(&mut self, err: BridgeError) -> (r: BridgeError)
        ensures
            r == err,
            old(self)@ is None ==> final(self)@ is None,
            old(self)@ is Some ==> final(self)@ == Some(None::<Operation>),
    {
        match &mut self.bridge {
            Some(b) => b.abandon(err),
            None => err,
        }
    }

    /// See `AgentBridge::receive`; fails with `NotConnected` while no
    /// connection is established.
    pub fn receive(&mut self, frame: Frame) -> (r: Result<RuntimeResponse, BridgeError>)
        ensures
            old(self)@ is None ==> r == Err::<RuntimeResponse, BridgeError>(
                BridgeError::NotConnected,
            ) && final(self)@ is None,
            old(self)@ is Some ==> r == frame_outcome(old(self)@->Some_0, frame) && final(self)@
                == Some(None::<Operation>),
    {
        match &mut self.bridge {
            Some(b) => b.receive(frame),
            None => Err(BridgeError::NotConnected),
        }
    }
}

} // verus!
