use vstd::prelude::*;

verus! {

/// A JSON value of `serde_json`, carried through unread: the crate moves such
/// values between its own records and never looks inside one.
#[verifier::external_type_specification]
#[verifier::external_body]
pub struct ExJsonValue(serde_json::Value);

/// Why a command did not produce its value.
#[derive(Debug, PartialEq)]
pub enum CommandError {
    /// There is no active connection to the local game client.
    GatewayUnavailable,
    /// A request was sent and no usable response came back.
    TransportError,
    /// A response came back and did not match the expected schema.
    ParseError,
    /// The configuration could not be written.
    PersistenceError,
    /// The statistics service answered with an error of its own, carried here.
    RemoteApiError(serde_json::Value),
    /// The statistics service answered with neither a result nor an error.
    NoResponse,
}

} // verus!
