use netcode_py::ClientState;

const ALL: [ClientState; 9] = [
    ClientState::ConnectTokenExpired,
    ClientState::ConnectionTimedOut,
    ClientState::ConnectionRequestTimedOut,
    ClientState::ChallengeResponseTimedOut,
    ClientState::ConnectionDenied,
    ClientState::Disconnected,
    ClientState::SendingConnectionRequest,
    ClientState::SendingChallengeResponse,
    ClientState::Connected,
];

#[test]
fn state_names() {
    let names: Vec<String> = ALL.iter().map(|s| s.name()).collect();
    assert_eq!(
        names,
        vec![
            "CONNECT_TOKEN_EXPIRED",
            "CONNECTION_TIMED_OUT",
            "CONNECTION_REQUEST_TIMED_OUT",
            "CHALLENGE_RESPONSE_TIMED_OUT",
            "CONNECTION_DENIED",
            "DISCONNECTED",
            "SENDING_CONNECTION_REQUEST",
            "SENDING_CHALLENGE_RESPONSE",
            "CONNECTED",
        ]
    );
}

#[test]
fn error_states() {
    let errors: Vec<ClientState> = ALL.iter().copied().filter(|s| s.is_error()).collect();
    assert_eq!(errors, ALL[0..5].to_vec());
}

#[test]
fn pending_states() {
    let pending: Vec<ClientState> = ALL.iter().copied().filter(|s| s.is_pending()).collect();
    assert_eq!(
        pending,
        vec![ClientState::SendingConnectionRequest, ClientState::SendingChallengeResponse]
    );
}

#[test]
fn connected_state() {
    let connected: Vec<ClientState> = ALL.iter().copied().filter(|s| s.is_connected()).collect();
    assert_eq!(connected, vec![ClientState::Connected]);
}

#[test]
fn disconnected_states() {
    let disconnected: Vec<ClientState> =
        ALL.iter().copied().filter(|s| s.is_disconnected()).collect();
    assert_eq!(disconnected, ALL[0..6].to_vec());
}

#[test]
fn every_state_in_exactly_one_group() {
    for s in ALL {
        let groups = [s.is_pending(), s.is_connected(), s.is_disconnected()];
        assert_eq!(groups.iter().filter(|g| **g).count(), 1, "{:?}", s);
    }
}

#[test]
fn from_netcode_state() {
    let pairs = [
        (netcode::ClientState::ConnectTokenExpired, ClientState::ConnectTokenExpired),
        (netcode::ClientState::ConnectionTimedOut, ClientState::ConnectionTimedOut),
        (netcode::ClientState::ConnectionRequestTimedOut, ClientState::ConnectionRequestTimedOut),
        (netcode::ClientState::ChallengeResponseTimedOut, ClientState::ChallengeResponseTimedOut),
        (netcode::ClientState::ConnectionDenied, ClientState::ConnectionDenied),
        (netcode::ClientState::Disconnected, ClientState::Disconnected),
        (netcode::ClientState::SendingConnectionRequest, ClientState::SendingConnectionRequest),
        (netcode::ClientState::SendingChallengeResponse, ClientState::SendingChallengeResponse),
        (netcode::ClientState::Connected, ClientState::Connected),
    ];
    for (theirs, ours) in pairs {
        assert_eq!(ClientState::from(theirs), ours);
    }
}
