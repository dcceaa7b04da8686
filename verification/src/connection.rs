use crate::error::CommandError;
use vstd::prelude::*;

verus! {

/// Where and with which credentials the local game client is reached.
#[derive(Debug, PartialEq)]
pub struct GatewayEndpointInfo {
    /// The loopback port on which the client answers.
    pub port: String,
    /// The token that authenticates a request to the client.
    pub auth_token: String,
}

impl Clone for GatewayEndpointInfo {
    fn clone(&self) -> (copy: Self)
        ensures
            copy == *self,
    {
        GatewayEndpointInfo { port: self.port.clone(), auth_token: self.auth_token.clone() }
    }
}

/// A transition in the life of the gateway.
#[derive(Debug, PartialEq)]
pub enum LifecycleEvent {
    /// The game client was found; it is reached as the payload says.
    Connected(GatewayEndpointInfo),
    /// The game client went away.
    Disconnected,
}

/// The state that one lifecycle event leaves behind, whatever was there
/// before: the endpoint of a connect, nothing after a disconnect.
pub open spec fn state_after(event: LifecycleEvent) -> Option<GatewayEndpointInfo> {
    match event {
        LifecycleEvent::Connected(info) => Some(info),
        LifecycleEvent::Disconnected => None,
    }
}

/// Whether the gateway is connected, and how it is reached while it is.
///
/// The endpoint is present exactly while the state is connected. The state is
/// written by `on_lifecycle_event` alone; every other operation reads it.
#[derive(Debug)]
pub struct ConnectionState {
    connected: bool,
    data: Option<GatewayEndpointInfo>,
}

impl View for ConnectionState {
    type V = Option<GatewayEndpointInfo>;

    closed spec fn view(&self) -> Option<GatewayEndpointInfo> {
        self.data
    }
}

impl ConnectionState {
    #[verifier::type_invariant]
    spec fn endpoint_iff_connected(self) -> bool {
        self.connected == self.data is Some
    }

    /// The state before any event: disconnected.
    pub fn new() -> (state: Self)
        ensures
            state@ is None,
    {
        ConnectionState { connected: false, data: None }
    }

    /// Applies one lifecycle event and returns the status to broadcast to
    /// the observers: the new value of the connected flag.
    pub fn on_lifecycle_event(&mut self, event: LifecycleEvent) -> (status: bool)
        ensures
            final(self)@ == state_after(event),
            status == (event is Connected),
    {
        match event {
            LifecycleEvent::Connected(info) => {
                *self = ConnectionState { connected: true, data: Some(info) };
                true
            },
            LifecycleEvent::Disconnected => {
                *self = ConnectionState { connected: false, data: None };
                false
            },
        }
    }
}

/// One access to the connection state: the delivery of a lifecycle event, or
/// a read by any other component.
pub enum Access {
    Deliver(LifecycleEvent),
    Read,
}

/// The state after one access. A read leaves it as it was.
pub open spec fn after_access(
    state: Option<GatewayEndpointInfo>,
    access: Access,
) -> Option<GatewayEndpointInfo> {
    match access {
        Access::Deliver(event) => state_after(event),
        Access::Read => state,
    }
}

/// The state after the accesses of `trace`, applied in arrival order.
pub open spec fn after_trace(
    start: Option<GatewayEndpointInfo>,
    trace: Seq<Access>,
) -> Option<GatewayEndpointInfo>
    decreases trace.len(),
{
    if trace.len() == 0 {
        start
    } else {
        after_access(after_trace(start, trace.drop_last()), trace.last())
    }
}

/// The last event that `trace` delivers, if it delivers any.
pub open spec fn last_delivered(trace: Seq<Access>) -> Option<LifecycleEvent>
    decreases trace.len(),
{
    if trace.len() == 0 {
        None
    } else {
        match trace.last() {
            Access::Deliver(event) => Some(event),
            Access::Read => last_delivered(trace.drop_last()),
        }
    }
}

/// However deliveries and reads interleave, the state at the end is the one
/// that the last delivered event leaves behind: connected exactly if that
/// event was a connect. Without any delivery the state is the initial one.
pub proof fn lemma_last_event_decides(start: Option<GatewayEndpointInfo>, trace: Seq<Access>)
    ensures
        last_delivered(trace) is None ==> after_trace(start, trace) == start,
        last_delivered(trace) matches Some(event) ==> after_trace(start, trace) == state_after(
            event,
        ),
        last_delivered(trace) matches Some(event) ==> (after_trace(start, trace) is Some <==> event
            is Connected),
    decreases trace.len(),
{
    if trace.len() > 0 {
        lemma_last_event_decides(start, trace.drop_last());
    }
}

/// Reads the connection status: whether the gateway is connected.
pub fn get_lcu_state(lcu: &ConnectionState) -> (connected: bool)
    ensures
        connected == (lcu@ is Some),
{
    proof {
        use_type_invariant(lcu);
    }
    lcu.connected
}

/// Reads how the gateway is reached, or fails with `GatewayUnavailable`
/// while there is no connection.
pub fn get_lcu_info(lcu: &ConnectionState) -> (info: Result<GatewayEndpointInfo, CommandError>)
    ensures
        lcu@ matches Some(endpoint) ==> info == Ok::<GatewayEndpointInfo, CommandError>(endpoint),
        lcu@ is None ==> info == Err::<GatewayEndpointInfo, CommandError>(
            CommandError::GatewayUnavailable,
        ),
{
    match &lcu.data {
        Some(endpoint) => Ok(endpoint.clone()),
        None => Err(CommandError::GatewayUnavailable),
    }
}

} // verus!
