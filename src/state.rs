use netcode::ClientState as NetcodeClientState;
use vstd::prelude::*;

verus! {

/// Declares netcode's client state enum so that its variants can be matched.
#[verifier::external_type_specification]
pub struct ExNetcodeClientState(NetcodeClientState);

/// Where a client stands in the connection handshake.
#[derive(Debug, Clone, Copy, PartialEq, Eq, Structural, PartialOrd, Ord, Hash)]
pub enum ClientState {
    ConnectTokenExpired,
    ConnectionTimedOut,
    ConnectionRequestTimedOut,
    ChallengeResponseTimedOut,
    ConnectionDenied,
    Disconnected,
    SendingConnectionRequest,
    SendingChallengeResponse,
    Connected,
}

/// The states in which a connection attempt or session failed.
pub open spec fn spec_is_error(s: ClientState) -> bool {
    match s {
        ClientState::ConnectTokenExpired
        | ClientState::ConnectionTimedOut
        | ClientState::ConnectionRequestTimedOut
        | ClientState::ChallengeResponseTimedOut
        | ClientState::ConnectionDenied => true,
        _ => false,
    }
}

/// The two handshake states.
pub open spec fn spec_is_pending(s: ClientState) -> bool {
    s == ClientState::SendingConnectionRequest || s == ClientState::SendingChallengeResponse
}

pub open spec fn spec_is_connected(s: ClientState) -> bool {
    s == ClientState::Connected
}

/// A client that is neither connecting nor connected.
pub open spec fn spec_is_disconnected(s: ClientState) -> bool {
    s == ClientState::Disconnected || spec_is_error(s)
}

/// The constant name under which a state is exported.
pub open spec fn state_name(s: ClientState) -> Seq<char> {
    match s {
        ClientState::ConnectTokenExpired => "CONNECT_TOKEN_EXPIRED"@,
        ClientState::ConnectionTimedOut => "CONNECTION_TIMED_OUT"@,
        ClientState::ConnectionRequestTimedOut => "CONNECTION_REQUEST_TIMED_OUT"@,
        ClientState::ChallengeResponseTimedOut => "CHALLENGE_RESPONSE_TIMED_OUT"@,
        ClientState::ConnectionDenied => "CONNECTION_DENIED"@,
        ClientState::Disconnected => "DISCONNECTED"@,
        ClientState::SendingConnectionRequest => "SENDING_CONNECTION_REQUEST"@,
        ClientState::SendingChallengeResponse => "SENDING_CHALLENGE_RESPONSE"@,
        ClientState::Connected => "CONNECTED"@,
    }
}

/// The state of this library that corresponds to a state of netcode's client.
pub open spec fn spec_from_netcode(s: NetcodeClientState) -> ClientState {
    match s {
        NetcodeClientState::ConnectTokenExpired => ClientState::ConnectTokenExpired,
        NetcodeClientState::ConnectionTimedOut => ClientState::ConnectionTimedOut,
        NetcodeClientState::ConnectionRequestTimedOut => ClientState::ConnectionRequestTimedOut,
        NetcodeClientState::ChallengeResponseTimedOut => ClientState::ChallengeResponseTimedOut,
        NetcodeClientState::ConnectionDenied => ClientState::ConnectionDenied,
        NetcodeClientState::Disconnected => ClientState::Disconnected,
        NetcodeClientState::SendingConnectionRequest => ClientState::SendingConnectionRequest,
        NetcodeClientState::SendingChallengeResponse => ClientState::SendingChallengeResponse,
        NetcodeClientState::Connected => ClientState::Connected,
    }
}

/// Every state is exactly one of: pending, connected, disconnected.
pub proof fn lemma_state_partition(s: ClientState)
    ensures
        spec_is_pending(s) || spec_is_connected(s) || spec_is_disconnected(s),
        !(spec_is_pending(s) && spec_is_connected(s)),
        !(spec_is_pending(s) && spec_is_disconnected(s)),
        !(spec_is_connected(s) && spec_is_disconnected(s)),
{
}

/// A failed client is a disconnected one, and the only disconnected state
/// that is not a failure is `Disconnected`.
pub proof fn lemma_error_is_disconnected(s: ClientState)
    ensures
        spec_is_error(s) ==> spec_is_disconnected(s),
        spec_is_disconnected(s) && !spec_is_error(s) <==> s == ClientState::Disconnected,
{
}

/// Distinct states are exported under distinct names.
pub proof fn lemma_names_distinct(a: ClientState, b: ClientState)
    requires
        a != b,
    ensures
        state_name(a) != state_name(b),
{
    reveal_strlit("CONNECT_TOKEN_EXPIRED");
    reveal_strlit("CONNECTION_TIMED_OUT");
    reveal_strlit("CONNECTION_REQUEST_TIMED_OUT");
    reveal_strlit("CHALLENGE_RESPONSE_TIMED_OUT");
    reveal_strlit("CONNECTION_DENIED");
    reveal_strlit("DISCONNECTED");
    reveal_strlit("SENDING_CONNECTION_REQUEST");
    reveal_strlit("SENDING_CHALLENGE_RESPONSE");
    reveal_strlit("CONNECTED");
    let (x, y) = (state_name(a), state_name(b));
    assert(x.len() != y.len() || x[1] != y[1] || x[9] != y[9]);
}

/// The conversion from netcode's states loses nothing: distinct netcode
/// states map to distinct states.
pub proof fn lemma_from_netcode_injective(a: NetcodeClientState, b: NetcodeClientState)
    requires
        a != b,
    ensures
        spec_from_netcode(a) != spec_from_netcode(b),
{
}

impl ClientState {
    pub fn is_error(&self) -> (r: bool)
        ensures
            r == spec_is_error(*self),
    {
        match self {
            ClientState::ConnectTokenExpired
            | ClientState::ConnectionTimedOut
            | ClientState::ConnectionRequestTimedOut
            | ClientState::ChallengeResponseTimedOut
            | ClientState::ConnectionDenied => true,
            _ => false,
        }
    }

    pub fn is_pending(&self) -> (r: bool)
        ensures
            r == spec_is_pending(*self),
    {
        match self {
            ClientState::SendingConnectionRequest | ClientState::SendingChallengeResponse => true,
            _ => false,
        }
    }

    pub fn is_connected(&self) -> (r: bool)
        ensures
            r == spec_is_connected(*self),
    {
        match self {
            ClientState::Connected => true,
            _ => false,
        }
    }

    pub fn is_disconnected(&self) -> (r: bool)
        ensures
            r == spec_is_disconnected(*self),
    {
        match self {
            ClientState::Disconnected => true,
            _ => self.is_error(),
        }
    }

    /// The exported constant name of this state, e.g. `CONNECTED`.
    pub fn name(&self) -> (r: String)
        ensures
            r@ == state_name(*self),
    {
        let s: &str = match self {
            ClientState::ConnectTokenExpired => "CONNECT_TOKEN_EXPIRED",
            ClientState::ConnectionTimedOut => "CONNECTION_TIMED_OUT",
            ClientState::ConnectionRequestTimedOut => "CONNECTION_REQUEST_TIMED_OUT",
            ClientState::ChallengeResponseTimedOut => "CHALLENGE_RESPONSE_TIMED_OUT",
            ClientState::ConnectionDenied => "CONNECTION_DENIED",
            ClientState::Disconnected => "DISCONNECTED",
            ClientState::SendingConnectionRequest => "SENDING_CONNECTION_REQUEST",
            ClientState::SendingChallengeResponse => "SENDING_CHALLENGE_RESPONSE",
            ClientState::Connected => "CONNECTED",
        };
        proof {
            reveal_strlit("CONNECT_TOKEN_EXPIRED");
            reveal_strlit("CONNECTION_TIMED_OUT");
            reveal_strlit("CONNECTION_REQUEST_TIMED_OUT");
            reveal_strlit("CHALLENGE_RESPONSE_TIMED_OUT");
            reveal_strlit("CONNECTION_DENIED");
            reveal_strlit("DISCONNECTED");
            reveal_strlit("SENDING_CONNECTION_REQUEST");
            reveal_strlit("SENDING_CHALLENGE_RESPONSE");
            reveal_strlit("CONNECTED");
        }
        s.to_string()
    }
}

impl From<NetcodeClientState> for ClientState {
    fn from(s: NetcodeClientState) -> (r: ClientState)
        ensures
            r == spec_from_netcode(s),
    {
        match s {
            NetcodeClientState::ConnectTokenExpired => ClientState::ConnectTokenExpired,
            NetcodeClientState::ConnectionTimedOut => ClientState::ConnectionTimedOut,
            NetcodeClientState::ConnectionRequestTimedOut => ClientState::ConnectionRequestTimedOut,
            NetcodeClientState::ChallengeResponseTimedOut => ClientState::ChallengeResponseTimedOut,
            NetcodeClientState::ConnectionDenied => ClientState::ConnectionDenied,
            NetcodeClientState::Disconnected => ClientState::Disconnected,
            NetcodeClientState::SendingConnectionRequest => ClientState::SendingConnectionRequest,
            NetcodeClientState::SendingChallengeResponse => ClientState::SendingChallengeResponse,
            NetcodeClientState::Connected => ClientState::Connected,
        }
    }
}

impl vstd::std_specs::convert::FromSpecImpl<NetcodeClientState> for ClientState {
    open spec fn obeys_from_spec() -> bool {
        true
    }

    open spec fn from_spec(s: NetcodeClientState) -> ClientState {
        spec_from_netcode(s)
    }
}

} // verus!
