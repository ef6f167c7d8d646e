use agent_bridge::bridge::{AgentBridge, Frame};
use agent_bridge::error::BridgeError;
use agent_bridge::model::{Agent, AgentConfig, Operation, RuntimeMessage, RuntimeResponse};
use agent_bridge::protocol::{expect_agent, expect_agent_optional, expect_agents, expect_success};
use agent_bridge::state::AppState;

fn config(agent_type: &str, name: &str, working_dir: &str) -> AgentConfig {
    AgentConfig {
        agent_type: agent_type.to_string(),
        name: name.to_string(),
        working_dir: working_dir.to_string(),
        prompt: None,
        model: None,
    }
}

fn agent(id: &str, name: &str) -> Agent {
    Agent {
        id: id.to_string(),
        agent_type: "shell".to_string(),
        name: name.to_string(),
        status: "running".to_string(),
        working_dir: "/tmp".to_string(),
        started_at: "t0".to_string(),
    }
}

fn connected() -> AppState {
    let mut state = AppState::default();
    assert_eq!(state.connect_to_runtime(Ok(())), Ok(true));
    state
}

fn error_reply(text: &str) -> Frame {
    Frame::Text(RuntimeResponse::Error { message: text.to_string() })
}

#[test]
fn list_agents_empty_then_start_agent_echoed() {
    let mut state = connected();
    assert_eq!(state.list_agents(), Ok(RuntimeMessage::ListAgents));
    let reply = state.receive(Frame::Text(RuntimeResponse::Agents { agents: vec![] }));
    assert_eq!(expect_agents(reply.unwrap()), Ok(vec![]));

    let cfg = config("shell", "x", "/tmp");
    let sent = state.start_agent(cfg.clone()).unwrap();
    assert_eq!(sent, RuntimeMessage::StartAgent { config: cfg });
    let record = Agent {
        id: "1".to_string(),
        agent_type: "shell".to_string(),
        name: "x".to_string(),
        status: "running".to_string(),
        working_dir: "/tmp".to_string(),
        started_at: "t0".to_string(),
    };
    let reply = state.receive(Frame::Text(RuntimeResponse::Agent { agent: record.clone() }));
    assert_eq!(expect_agent(reply.unwrap()), Ok(record));
}

#[test]
fn every_operation_round_trips_its_payload() {
    let mut state = connected();
    let sent = state.stop_agent("a1").unwrap();
    assert_eq!(sent, RuntimeMessage::StopAgent { agent_id: "a1".to_string() });
    assert_eq!(expect_success(state.receive(Frame::Text(RuntimeResponse::Success)).unwrap()), Ok(()));

    let sent = state.get_agent("a2").unwrap();
    assert_eq!(sent, RuntimeMessage::GetAgent { agent_id: "a2".to_string() });
    let found = Some(agent("a2", "two"));
    let reply = state.receive(Frame::Text(RuntimeResponse::AgentOptional { agent: found.clone() }));
    assert_eq!(expect_agent_optional(reply.unwrap()), Ok(found));

    state.get_agent("gone").unwrap();
    let reply = state.receive(Frame::Text(RuntimeResponse::AgentOptional { agent: None }));
    assert_eq!(expect_agent_optional(reply.unwrap()), Ok(None));

    let sent = state.send_message("a3", "hello").unwrap();
    assert_eq!(
        sent,
        RuntimeMessage::SendMessage { agent_id: "a3".to_string(), message: "hello".to_string() }
    );
    assert_eq!(expect_success(state.receive(Frame::Text(RuntimeResponse::Success)).unwrap()), Ok(()));

    state.list_agents().unwrap();
    let all = vec![agent("1", "one"), agent("2", "two")];
    let reply = state.receive(Frame::Text(RuntimeResponse::Agents { agents: all.clone() }));
    assert_eq!(expect_agents(reply.unwrap()), Ok(all));
}

#[test]
fn peer_error_is_passed_through_verbatim() {
    let mut state = connected();
    let boom = BridgeError::Peer("boom".to_string());

    state.start_agent(config("shell", "x", "/tmp")).unwrap();
    let e = expect_agent(state.receive(error_reply("boom")).unwrap()).unwrap_err();
    assert_eq!(e, boom);
    assert_eq!(e.message(), "boom");

    state.stop_agent("a").unwrap();
    assert_eq!(expect_success(state.receive(error_reply("boom")).unwrap()), Err(boom.clone()));
    state.list_agents().unwrap();
    assert_eq!(expect_agents(state.receive(error_reply("boom")).unwrap()), Err(boom.clone()));
    state.get_agent("a").unwrap();
    assert_eq!(expect_agent_optional(state.receive(error_reply("boom")).unwrap()), Err(boom.clone()));
    state.send_message("a", "m").unwrap();
    assert_eq!(expect_success(state.receive(error_reply("boom")).unwrap()), Err(boom));
}

#[test]
fn mismatched_reply_is_an_unexpected_response() {
    let mut state = connected();
    state.list_agents().unwrap();
    let reply = state.receive(Frame::Text(RuntimeResponse::Success)).unwrap();
    let e = expect_agents(reply).unwrap_err();
    assert_eq!(e, BridgeError::UnexpectedResponse);
    assert_eq!(e.message(), "Unexpected response");

    assert_eq!(
        expect_agent(RuntimeResponse::Agents { agents: vec![] }),
        Err(BridgeError::UnexpectedResponse)
    );
    assert_eq!(
        expect_success(RuntimeResponse::Agent { agent: agent("1", "x") }),
        Err(BridgeError::UnexpectedResponse)
    );
    assert_eq!(expect_agent_optional(RuntimeResponse::Success), Err(BridgeError::UnexpectedResponse));
}

#[test]
fn not_connected_fails_every_operation() {
    let mut state = AppState::default();
    let nc = Err(BridgeError::NotConnected);
    assert_eq!(state.start_agent(config("shell", "x", "/tmp")), nc);
    assert_eq!(state.stop_agent("a"), nc);
    assert_eq!(state.list_agents(), nc);
    assert_eq!(state.get_agent("a"), nc);
    assert_eq!(state.send_message("a", "m"), nc);
    assert_eq!(state.receive(Frame::Closed), Err(BridgeError::NotConnected));
    assert_eq!(BridgeError::NotConnected.message(), "Not connected to agent runtime");
}

#[test]
fn failed_connect_keeps_the_slot_empty() {
    let mut state = AppState::default();
    let r = state.connect_to_runtime(Err("refused".to_string()));
    assert_eq!(r, Err(BridgeError::Connect("refused".to_string())));
    assert_eq!(state.list_agents(), Err(BridgeError::NotConnected));
    assert!(AgentBridge::connect(Err("refused".to_string())).is_err());
}

#[test]
fn closed_stream_fails_the_pending_call() {
    let mut state = connected();
    state.get_agent("a").unwrap();
    let e = state.receive(Frame::Closed).unwrap_err();
    assert_eq!(e, BridgeError::ConnectionClosed);
    assert_eq!(e.message(), "Connection closed");
    // the connection stays usable for the next exchange
    assert_eq!(state.list_agents(), Ok(RuntimeMessage::ListAgents));
}

#[test]
fn transport_failures_map_to_their_errors() {
    let mut bridge = AgentBridge::connect(Ok(())).unwrap();
    bridge.list_agents().unwrap();
    assert_eq!(bridge.receive(Frame::NonText), Err(BridgeError::UnexpectedMessageType));
    bridge.list_agents().unwrap();
    assert_eq!(
        bridge.receive(Frame::Undecodable("bad json".to_string())),
        Err(BridgeError::Malformed("bad json".to_string()))
    );
    bridge.list_agents().unwrap();
    assert_eq!(
        bridge.receive(Frame::Failed("reset".to_string())),
        Err(BridgeError::Transport("reset".to_string()))
    );
    assert_eq!(BridgeError::UnexpectedMessageType.message(), "Unexpected message type");
    assert_eq!(BridgeError::Transport("reset".to_string()).message(), "reset");
}

#[test]
fn abandoned_exchange_frees_the_connection() {
    let mut bridge = AgentBridge::connect(Ok(())).unwrap();
    bridge.stop_agent("a").unwrap();
    assert!(bridge.awaiting_reply());
    let e = bridge.abandon(BridgeError::Transport("broken pipe".to_string()));
    assert_eq!(e, BridgeError::Transport("broken pipe".to_string()));
    assert!(!bridge.awaiting_reply());
    assert_eq!(bridge.list_agents(), Ok(RuntimeMessage::ListAgents));
}

#[test]
fn unsolicited_frame_is_unexpected() {
    let mut bridge = AgentBridge::connect(Ok(())).unwrap();
    assert_eq!(
        bridge.receive(Frame::Text(RuntimeResponse::Success)),
        Err(BridgeError::UnexpectedResponse)
    );
}

#[test]
fn concurrent_start_agents_are_paired_with_their_own_replies() {
    let mut state = connected();
    let first = state.start_agent(config("shell", "a", "/tmp")).unwrap();
    assert_eq!(first.operation(), Operation::StartAgent);
    // a second request while the first awaits its reply is refused, not interleaved
    assert_eq!(
        state.start_agent(config("shell", "b", "/tmp")),
        Err(BridgeError::ExchangeInProgress)
    );
    let reply = state.receive(Frame::Text(RuntimeResponse::Agent { agent: agent("1", "a") }));
    assert_eq!(expect_agent(reply.unwrap()).unwrap().name, "a");

    let second = state.start_agent(config("shell", "b", "/tmp")).unwrap();
    assert_eq!(second, RuntimeMessage::StartAgent { config: config("shell", "b", "/tmp") });
    let reply = state.receive(Frame::Text(RuntimeResponse::Agent { agent: agent("2", "b") }));
    assert_eq!(expect_agent(reply.unwrap()).unwrap().name, "b");
}

#[test]
fn wire_discriminants_are_stable() {
    assert_eq!(RuntimeMessage::StartAgent { config: config("t", "n", "/") }.tag(), "start_agent");
    assert_eq!(RuntimeMessage::StopAgent { agent_id: "a".to_string() }.tag(), "stop_agent");
    assert_eq!(RuntimeMessage::ListAgents.tag(), "list_agents");
    assert_eq!(RuntimeMessage::GetAgent { agent_id: "a".to_string() }.tag(), "get_agent");
    assert_eq!(
        RuntimeMessage::SendMessage { agent_id: "a".to_string(), message: "m".to_string() }.tag(),
        "send_message"
    );
    assert_eq!(RuntimeResponse::Agent { agent: agent("1", "x") }.tag(), "agent");
    assert_eq!(RuntimeResponse::Agents { agents: vec![] }.tag(), "agents");
    assert_eq!(RuntimeResponse::AgentOptional { agent: None }.tag(), "agent_optional");
    assert_eq!(RuntimeResponse::Success.tag(), "success");
    assert_eq!(RuntimeResponse::Error { message: "e".to_string() }.tag(), "error");
}
