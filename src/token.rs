use crate::address::{keep_resolved, resolved_addresses, SocketAddress};
use netcode::ConnectToken as NetcodeToken;
use netcode::Error as NetcodeError;
use vstd::prelude::*;

verus! {

/// The size in bytes of a serialized connect token.
pub const CONNECT_TOKEN_BYTES: usize = 2048;

#[verifier::external_type_specification]
#[verifier::external_body]
pub struct ExNetcodeToken(NetcodeToken);

#[verifier::external_type_specification]
#[verifier::external_body]
pub struct ExNetcodeError(NetcodeError);

#[verifier::external_type_specification]
#[verifier::external_body]
pub struct ExIoError(std::io::Error);

/// Why a connect token could not be made.
#[derive(Debug, Clone, Copy, PartialEq, Eq, Structural)]
pub enum TokenError {
    /// None of the candidate server addresses resolved.
    NoValidAddress,
    /// netcode failed to generate the token (clock or encryption failure).
    Generation,
}

/// The bytes that netcode writes for a generated token.
pub uninterp spec fn token_bytes_of(t: NetcodeToken) -> Seq<u8>;

/// Relies on netcode's `ConnectToken::try_into_bytes`: the token, whose address
/// list netcode caps at 32 entries, always fits the array of exactly
/// `CONNECT_TOKEN_BYTES` bytes it is written into, and what is written depends
/// on the token alone.
#[verifier::external_body]
fn serialize_token(token: NetcodeToken) -> (r: Result<Vec<u8>, std::io::Error>)
    ensures
        r is Ok,
        r->Ok_0@ == token_bytes_of(token),
        r->Ok_0@.len() == CONNECT_TOKEN_BYTES,
{
    token.try_into_bytes().map(|b| b.to_vec())
}

/// The server addresses that a token is minted for: the candidates that
/// resolved, in order, of which there must be at least one.
pub fn select_addresses(candidates: &Vec<Option<SocketAddress>>) -> (r: Result<
    Vec<SocketAddress>,
    TokenError,
>)
    ensures
        keep_resolved(candidates@).len() == 0 ==> r == Err::<Vec<SocketAddress>, TokenError>(
            TokenError::NoValidAddress,
        ),
        keep_resolved(candidates@).len() > 0 ==> r is Ok && r->Ok_0@ == keep_resolved(
            candidates@,
        ),
{
    let addresses = resolved_addresses(candidates);
    if addresses.len() == 0 {
        Err(TokenError::NoValidAddress)
    } else {
        Ok(addresses)
    }
}

/// A serialized connect token, ready to hand to a client.
pub struct ConnectToken {
    bytes: Vec<u8>,
}

impl View for ConnectToken {
    type V = Seq<u8>;

    closed spec fn view(&self) -> Seq<u8> {
        self.bytes@
    }
}

impl ConnectToken {
    /// A token always holds exactly `CONNECT_TOKEN_BYTES` bytes.
    pub open spec fn wf(&self) -> bool {
        self@.len() == CONNECT_TOKEN_BYTES
    }

    /// Serializes the outcome of netcode's token generation; a generation
    /// failure is `Generation`.
    pub fn from_netcode(generated: Result<NetcodeToken, NetcodeError>) -> (r: Result<
        ConnectToken,
        TokenError,
    >)
        ensures
            generated is Err ==> r == Err::<ConnectToken, TokenError>(TokenError::Generation),
            generated is Ok ==> r is Ok && r->Ok_0@ == token_bytes_of(generated->Ok_0),
            r is Ok ==> r->Ok_0.wf(),
    {
        match generated {
            Ok(token) => match serialize_token(token) {
                Ok(bytes) => Ok(ConnectToken { bytes }),
                Err(_) => {
                    assert(false);
                    Err(TokenError::Generation)
                },
            },
            Err(_) => Err(TokenError::Generation),
        }
    }

    /// Takes serialized token bytes, which must be exactly `CONNECT_TOKEN_BYTES` long.
    pub fn from_bytes(bytes: Vec<u8>) -> (r: Option<ConnectToken>)
        ensures
            r is Some <==> bytes@.len() == CONNECT_TOKEN_BYTES,
            r is Some ==> r->Some_0@ == bytes@,
    {
        if bytes.len() == CONNECT_TOKEN_BYTES {
            Some(ConnectToken { bytes })
        } else {
            None
        }
    }

    /// The serialized token.
    pub fn bytes(&self) -> (r: Vec<u8>)
        ensures
            r@ == self@,
    {
        self.bytes.clone()
    }
}

} // verus!
