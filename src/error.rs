use vstd::prelude::*;

verus! {

/// Why a connect or an exchange failed.
#[derive(Debug, Clone, PartialEq, Eq)]
pub enum BridgeError {
    /// No connection has been established yet.
    NotConnected,
    /// The transport or its handshake could not be set up.
    Connect(String),
    /// A request could not be encoded.
    Encode(String),
    /// Sending or receiving on the live connection failed.
    Transport(String),
    /// The peer closed the stream before replying.
    ConnectionClosed,
    /// The reply frame was not a text frame.
    UnexpectedMessageType,
    /// The reply frame could not be decoded.
    Malformed(String),
    /// The peer answered with an error of its own.
    Peer(String),
    /// The reply does not have the shape that the request calls for.
    UnexpectedResponse,
    /// A request was issued while another exchange was still waiting for its reply.
    ExchangeInProgress,
}

/// The text that callers are shown for an error.
pub open spec fn error_text(e: BridgeError) -> Seq<char> {
    match e {
        BridgeError::NotConnected => "Not connected to agent runtime"@,
        BridgeError::Connect(d) => d@,
        BridgeError::Encode(d) => d@,
        BridgeError::Transport(d) => d@,
        BridgeError::ConnectionClosed => "Connection closed"@,
        BridgeError::UnexpectedMessageType => "Unexpected message type"@,
        BridgeError::Malformed(d) => d@,
        BridgeError::Peer(m) => m@,
        BridgeError::UnexpectedResponse => "Unexpected response"@,
        BridgeError::ExchangeInProgress => "Another request is awaiting its reply"@,
    }
}

impl BridgeError {
    /// The text that callers are shown: the peer's own words for a peer error,
    /// the underlying description for a transport or decode failure.
    pub fn message(&self) -> (r: String)
        ensures
            r@ == error_text(*self),
    {
        match self {
            BridgeError::NotConnected => {
                proof {
                    reveal_strlit("Not connected to agent runtime");
                }
                "Not connected to agent runtime".to_owned()
            },
            BridgeError::Connect(d) => d.clone(),
            BridgeError::Encode(d) => d.clone(),
            BridgeError::Transport(d) => d.clone(),
            BridgeError::ConnectionClosed => {
                proof {
                    reveal_strlit("Connection closed");
                }
                "Connection closed".to_owned()
            },
            BridgeError::UnexpectedMessageType => {
                proof {
                    reveal_strlit("Unexpected message type");
                }
                "Unexpected message type".to_owned()
            },
            BridgeError::Malformed(d) => d.clone(),
            BridgeError::Peer(m) => m.clone(),
            BridgeError::UnexpectedResponse => {
                proof {
                    reveal_strlit("Unexpected response");
                }
                "Unexpected response".to_owned()
            },
            BridgeError::ExchangeInProgress => {
                proof {
                    reveal_strlit("Another request is awaiting its reply");
                }
                "Another request is awaiting its reply".to_owned()
            },
        }
    }
}

} // verus!
