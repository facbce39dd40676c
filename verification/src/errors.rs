use vstd::prelude::*;

verus! {

/// Failure taxonomy of the client core.
///
/// `TransportError` carries a remote-call failure verbatim; `SignatureError`
/// marks a malformed event signature; `EventNotFound` marks a budgeted wait
/// that ran out with no predicate match; `FilterTeardownFailed` marks a
/// failed uninstall of a server-side filter; `DecodeError` marks an RPC
/// result of an unexpected shape; `InvalidKey` marks a private key that the
/// signer rejects.
#[derive(Clone, Debug, PartialEq, Eq)]
pub enum Web3Error {
    TransportError(String),
    SignatureError,
    EventNotFound(String),
    FilterTeardownFailed,
    DecodeError(String),
    InvalidKey,
}

} // verus!
