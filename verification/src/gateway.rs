use crate::error::CommandError;
use vstd::prelude::*;

verus! {

/// How one request to the gateway ended, once its response was read into
/// the typed model `T`.
#[derive(Debug, PartialEq)]
pub enum GatewayReply<T> {
    /// The request was sent and no usable response came back.
    Unreachable,
    /// A response came back and did not match the schema of `T`.
    Malformed,
    /// The response, read into its model.
    Parsed(T),
}

impl<T> GatewayReply<T> {
    /// The reply as a result: each failure under its own error kind.
    pub open spec fn outcome(self) -> Result<T, CommandError> {
        match self {
            GatewayReply::Unreachable => Err(CommandError::TransportError),
            GatewayReply::Malformed => Err(CommandError::ParseError),
            GatewayReply::Parsed(value) => Ok(value),
        }
    }

    /// Turns the reply into a result.
    pub fn into_result(self) -> (result: Result<T, CommandError>)
        ensures
            result == self.outcome(),
    {
        match self {
            GatewayReply::Unreachable => Err(CommandError::TransportError),
            GatewayReply::Malformed => Err(CommandError::ParseError),
            GatewayReply::Parsed(value) => Ok(value),
        }
    }
}

/// The method of a request to the gateway.
#[derive(Clone, Copy, Debug, PartialEq, Eq, Structural)]
pub enum HttpMethod {
    Get,
    Post,
}

/// The requests that the commands put to the gateway. A transition hands one
/// of these to its caller, who performs it and hands the outcome back.
#[derive(Clone, Copy, Debug, PartialEq, Eq, Structural)]
pub enum GatewayCall {
    /// List the participants of the chat rooms.
    Participants,
    /// Read the region and locale of the client.
    RegionLocale,
    /// Read the champion-select session in progress.
    ChampSelectSession,
    /// Leave the champion-select phase.
    QuitChampSelect,
}

impl GatewayCall {
    /// The endpoint path of the request.
    pub open spec fn spec_path(self) -> Seq<char> {
        match self {
            GatewayCall::Participants => "/chat/v5/participants"@,
            GatewayCall::RegionLocale => "/riotclient/region-locale"@,
            GatewayCall::ChampSelectSession => "/lol-champ-select/v1/session"@,
            GatewayCall::QuitChampSelect =>
                "/lol-login/v1/session/invoke?destination=lcdsServiceProxy&method=call&args=[\"\",\"teambuilder-draft\",\"quitV2\",\"\"]"@,
        }
    }

    /// The method of the request; a `Post` carries an empty JSON object.
    pub open spec fn spec_method(self) -> HttpMethod {
        match self {
            GatewayCall::QuitChampSelect => HttpMethod::Post,
            _ => HttpMethod::Get,
        }
    }

    /// Whether the request goes to the remoting surface of the game client
    /// rather than to its application surface.
    pub open spec fn spec_remoting(self) -> bool {
        match self {
            GatewayCall::Participants | GatewayCall::RegionLocale => false,
            GatewayCall::ChampSelectSession | GatewayCall::QuitChampSelect => true,
        }
    }

    pub fn path(self) -> (path: &'static str)
        ensures
            path@ == self.spec_path(),
    {
        match self {
            GatewayCall::Participants => "/chat/v5/participants",
            GatewayCall::RegionLocale => "/riotclient/region-locale",
            GatewayCall::ChampSelectSession => "/lol-champ-select/v1/session",
            GatewayCall::QuitChampSelect =>
                "/lol-login/v1/session/invoke?destination=lcdsServiceProxy&method=call&args=[\"\",\"teambuilder-draft\",\"quitV2\",\"\"]",
        }
    }

    #[verifier::when_used_as_spec(spec_method)]
    pub fn method(self) -> (method: HttpMethod)
        ensures
            method == self.spec_method(),
    {
        match self {
            GatewayCall::QuitChampSelect => HttpMethod::Post,
            _ => HttpMethod::Get,
        }
    }

    #[verifier::when_used_as_spec(spec_remoting)]
    pub fn remoting(self) -> (remoting: bool)
        ensures
            remoting == self.spec_remoting(),
    {
        match self {
            GatewayCall::Participants | GatewayCall::RegionLocale => false,
            GatewayCall::ChampSelectSession | GatewayCall::QuitChampSelect => true,
        }
    }
}

} // verus!
