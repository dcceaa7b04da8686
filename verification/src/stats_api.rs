use crate::error::CommandError;
use vstd::prelude::*;

verus! {

/// The name and arguments of the remote function to call.
#[derive(Debug, PartialEq)]
pub struct McpParams {
    pub name: String,
    pub arguments: serde_json::Value,
}

/// One call to the statistics service.
#[derive(Debug, PartialEq)]
pub struct McpRequest {
    pub jsonrpc: String,
    pub id: u64,
    pub method: String,
    pub params: McpParams,
}

/// One answer of the statistics service. An absent or `null` member is `None`.
#[derive(Debug, PartialEq)]
pub struct McpResponse {
    pub jsonrpc: String,
    pub id: u64,
    pub result: Option<serde_json::Value>,
    pub error: Option<serde_json::Value>,
}

/// How one exchange with the statistics service ended.
#[derive(Debug, PartialEq)]
pub enum ApiExchange {
    /// The request could not be delivered, or no response arrived.
    NetworkFailed,
    /// A response arrived and was not a well-formed answer.
    Unparsable,
    /// A well-formed answer arrived.
    Answered(McpResponse),
}

/// The endpoint of the statistics service.
pub const MCP_URL: &'static str = "https://mcp-api.op.gg/mcp";

/// What a caller of the statistics service gets for an exchange: the remote
/// error wins over a result, a result alone is success, and an answer with
/// neither is a failure of its own kind.
pub open spec fn api_outcome(exchange: ApiExchange) -> Result<serde_json::Value, CommandError> {
    match exchange {
        ApiExchange::NetworkFailed => Err(CommandError::TransportError),
        ApiExchange::Unparsable => Err(CommandError::ParseError),
        ApiExchange::Answered(response) => match response.error {
            Some(error) => Err(CommandError::RemoteApiError(error)),
            None => match response.result {
                Some(result) => Ok(result),
                None => Err(CommandError::NoResponse),
            },
        },
    }
}

/// The request identifier for a clock reading in nanoseconds since the epoch:
/// its low 64 bits.
pub open spec fn request_id_of(nanos: u128) -> u64 {
    (nanos % 0x1_0000_0000_0000_0000) as u64
}

/// Derives the request identifier from a clock reading.
pub fn request_id(nanos: u128) -> (id: u64)
    ensures
        id == request_id_of(nanos),
{
    let low: u128 = nanos & 0xffff_ffff_ffff_ffff;
    assert(low == nanos % 0x1_0000_0000_0000_0000) by (bit_vector)
        requires
            low == nanos & 0xffff_ffff_ffff_ffff,
    ;
    low as u64
}

/// Builds the request that calls `function_name` with `params` under the
/// identifier `request_id`. The caller sends it to `MCP_URL` and hands the
/// outcome to `finish_call_opgg_api`.
pub fn call_opgg_api(
    function_name: String,
    params: serde_json::Value,
    request_id: u64,
) -> (request: McpRequest)
    ensures
        request.jsonrpc@ == "2.0"@,
        request.id == request_id,
        request.method@ == "tools/call"@,
        request.params.name == function_name,
        request.params.arguments == params,
{
    McpRequest {
        jsonrpc: "2.0".to_string(),
        id: request_id,
        method: "tools/call".to_string(),
        params: McpParams { name: function_name, arguments: params },
    }
}

/// Reads the outcome of the exchange that `call_opgg_api` asked for. An
/// answer that carries an error is that remote error, also where it carries
/// a result beside it.
pub fn finish_call_opgg_api(exchange: ApiExchange) -> (outcome: Result<
    serde_json::Value,
    CommandError,
>)
    ensures
        outcome == api_outcome(exchange),
        exchange is Answered && exchange->Answered_0.error is Some ==> outcome == Err::<
            serde_json::Value,
            CommandError,
        >(CommandError::RemoteApiError(exchange->Answered_0.error->0)),
{
    match exchange {
        ApiExchange::NetworkFailed => Err(CommandError::TransportError),
        ApiExchange::Unparsable => Err(CommandError::ParseError),
        ApiExchange::Answered(response) => {
            if let Some(error) = response.error {
                Err(CommandError::RemoteApiError(error))
            } else if let Some(result) = response.result {
                Ok(result)
            } else {
                Err(CommandError::NoResponse)
            }
        },
    }
}

} // verus!
