//! Verified core of a Python binding to the netcode protocol: the client
//! state model and connect-token construction.

pub mod address;
pub mod state;
pub mod token;

pub use address::{keep_resolved, resolved_addresses, IpAddress, SocketAddress};
pub use state::ClientState;
pub use token::{select_addresses, ConnectToken, TokenError, CONNECT_TOKEN_BYTES};
