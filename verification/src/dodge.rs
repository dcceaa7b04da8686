use crate::connection::{get_lcu_state, ConnectionState};
use crate::error::CommandError;
use crate::gateway::{GatewayCall, GatewayReply};
use crate::session::ChampSelectSession;
use vstd::prelude::*;

verus! {

/// The dodge watch: disarmed, or armed for one game.
#[derive(Clone, Copy, Debug, PartialEq, Eq)]
pub struct DodgeWatch {
    /// The game that the watch is armed for, if it is armed.
    pub armed_game_id: Option<u64>,
}

/// The first half of a toggle. Without a connection nothing happens and the
/// toggle fails. An armed watch is disarmed, and the toggle is done. A
/// disarmed watch stays as it is until the session in progress is known: the
/// toggle asks for it.
pub open spec fn toggle_begin(watch: DodgeWatch, connected: bool) -> (
    DodgeWatch,
    Result<Option<GatewayCall>, CommandError>,
) {
    if !connected {
        (watch, Err(CommandError::GatewayUnavailable))
    } else if watch.armed_game_id is Some {
        (DodgeWatch { armed_game_id: None }, Ok(None))
    } else {
        (watch, Ok(Some(GatewayCall::ChampSelectSession)))
    }
}

/// The second half of a toggle, with the reply to the session request. A
/// failed request leaves the watch as it is and fails the toggle with the
/// error of the request. With a session, a disarmed watch is armed for its
/// game; a watch that was armed in the meantime is disarmed, since to arm an
/// armed watch is to toggle it.
pub open spec fn toggle_finish(watch: DodgeWatch, fetched: GatewayReply<ChampSelectSession>) -> (
    DodgeWatch,
    Result<(), CommandError>,
) {
    match fetched.outcome() {
        Err(error) => (watch, Err(error)),
        Ok(session) => if watch.armed_game_id is Some {
            (DodgeWatch { armed_game_id: None }, Ok(()))
        } else {
            (DodgeWatch { armed_game_id: Some(session.game_id) }, Ok(()))
        },
    }
}

/// One whole toggle: the watch and the result it ends with, and the requests
/// it put to the gateway. `fetched` is the reply that a session request
/// would get; it is read only if the toggle makes that request.
pub open spec fn toggle_once(
    watch: DodgeWatch,
    connected: bool,
    fetched: GatewayReply<ChampSelectSession>,
) -> (DodgeWatch, Result<(), CommandError>, Seq<GatewayCall>) {
    let (begun, step) = toggle_begin(watch, connected);
    match step {
        Err(error) => (begun, Err(error), Seq::empty()),
        Ok(None) => (begun, Ok(()), Seq::empty()),
        Ok(Some(call)) => {
            let (finished, result) = toggle_finish(begun, fetched);
            (finished, result, seq![call])
        },
    }
}

impl DodgeWatch {
    /// The watch before any toggle: disarmed.
    pub fn new() -> (watch: Self)
        ensures
            watch.armed_game_id is None,
    {
        DodgeWatch { armed_game_id: None }
    }

    /// Whether the watch is armed for the game `game_id`. A watch must not
    /// fire for any other game than the one it was armed for.
    pub fn is_armed_for(&self, game_id: u64) -> (armed: bool)
        ensures
            armed == (self.armed_game_id == Some(game_id)),
    {
        match self.armed_game_id {
            Some(armed_game_id) => armed_game_id == game_id,
            None => false,
        }
    }
}

/// Starts a toggle of the watch. `Ok(None)` says that the toggle is done;
/// `Ok(Some(call))` asks the caller to perform `call` and to hand the reply
/// to `finish_enable_dodge`.
pub fn enable_dodge(lcu: &ConnectionState, watch: &mut DodgeWatch) -> (step: Result<
    Option<GatewayCall>,
    CommandError,
>)
    ensures
        (*final(watch), step) == toggle_begin(*old(watch), lcu@ is Some),
{
    if !get_lcu_state(lcu) {
        return Err(CommandError::GatewayUnavailable);
    }
    if watch.armed_game_id.is_some() {
        watch.armed_game_id = None;
        return Ok(None);
    }
    Ok(Some(GatewayCall::ChampSelectSession))
}

/// Finishes a toggle with the reply to the session request.
pub fn finish_enable_dodge(
    watch: &mut DodgeWatch,
    fetched: GatewayReply<ChampSelectSession>,
) -> (done: Result<(), CommandError>)
    ensures
        (*final(watch), done) == toggle_finish(*old(watch), fetched),
        fetched.outcome() is Err ==> *final(watch) == *old(watch) && done is Err,
        old(watch).armed_game_id is None && final(watch).armed_game_id is Some ==> fetched
            is Parsed && final(watch).armed_game_id == Some(fetched->Parsed_0.game_id),
{
    let session = match fetched.into_result() {
        Ok(session) => session,
        Err(error) => {
            return Err(error);
        },
    };
    if watch.armed_game_id.is_some() {
        watch.armed_game_id = None;
    } else {
        watch.armed_game_id = Some(session.game_id);
    }
    Ok(())
}

/// The manual leave: whatever the watch says, the one request that leaves
/// the champion-select phase, or `GatewayUnavailable` while there is no
/// connection. The watch is no part of it and stays as it is.
pub fn dodge(lcu: &ConnectionState) -> (leave: Result<GatewayCall, CommandError>)
    ensures
        lcu@ is Some ==> leave == Ok::<GatewayCall, CommandError>(GatewayCall::QuitChampSelect),
        lcu@ is None ==> leave == Err::<GatewayCall, CommandError>(
            CommandError::GatewayUnavailable,
        ),
{
    if get_lcu_state(lcu) {
        Ok(GatewayCall::QuitChampSelect)
    } else {
        Err(CommandError::GatewayUnavailable)
    }
}

/// No toggle ever asks the gateway to leave the game, whatever it meets.
pub proof fn lemma_toggle_never_leaves(
    watch: DodgeWatch,
    connected: bool,
    fetched: GatewayReply<ChampSelectSession>,
)
    ensures
        !toggle_once(watch, connected, fetched).2.contains(GatewayCall::QuitChampSelect),
{
    let calls = toggle_once(watch, connected, fetched).2;
    assert forall|i: int| 0 <= i < calls.len() implies calls[i] != GatewayCall::QuitChampSelect by {
    }
}

/// Two toggles from the disarmed watch end on the disarmed watch, provided
/// that both succeed or both fail. (Where just one of the two fails, the
/// other one decides: the watch ends armed.)
pub proof fn lemma_toggle_twice_disarms(
    first_connected: bool,
    first_fetched: GatewayReply<ChampSelectSession>,
    second_connected: bool,
    second_fetched: GatewayReply<ChampSelectSession>,
)
    requires
        ({
            let first = toggle_once(
                DodgeWatch { armed_game_id: None },
                first_connected,
                first_fetched,
            );
            let second = toggle_once(first.0, second_connected, second_fetched);
            first.1 is Ok <==> second.1 is Ok
        }),
    ensures
        ({
            let first = toggle_once(
                DodgeWatch { armed_game_id: None },
                first_connected,
                first_fetched,
            );
            let second = toggle_once(first.0, second_connected, second_fetched);
            &&& second.0 == DodgeWatch { armed_game_id: None }
            &&& !(first.2 + second.2).contains(GatewayCall::QuitChampSelect)
        }),
{
    let first = toggle_once(DodgeWatch { armed_game_id: None }, first_connected, first_fetched);
    let second = toggle_once(first.0, second_connected, second_fetched);
    lemma_toggle_never_leaves(DodgeWatch { armed_game_id: None }, first_connected, first_fetched);
    lemma_toggle_never_leaves(first.0, second_connected, second_fetched);
    let calls = first.2 + second.2;
    assert forall|i: int| 0 <= i < calls.len() implies calls[i] != GatewayCall::QuitChampSelect by {
        if i < first.2.len() {
            assert(first.2.contains(calls[i]));
        } else {
            assert(calls[i] == second.2[i - first.2.len()]);
            assert(second.2.contains(calls[i]));
        }
    }
}

/// A toggle arms the watch only with a connection and a session that was
/// fetched, and then for the game of that session. Where the toggle starts
/// disarmed and the connection or the fetch fails, the watch stays disarmed
/// and the toggle fails.
pub proof fn lemma_arming_needs_session(
    watch: DodgeWatch,
    connected: bool,
    fetched: GatewayReply<ChampSelectSession>,
)
    requires
        watch.armed_game_id is None,
    ensures
        ({
            let after = toggle_once(watch, connected, fetched);
            &&& after.0.armed_game_id is Some ==> connected && after.1 is Ok && fetched is Parsed
                && after.0.armed_game_id == Some(fetched->Parsed_0.game_id)
            &&& !connected ==> after.0 == watch && after.1 == Err::<(), CommandError>(
                CommandError::GatewayUnavailable,
            )
            &&& connected && fetched.outcome() is Err ==> after.0 == watch && after.1 is Err
                && after.1->Err_0 == fetched.outcome()->Err_0
        }),
{
}

} // verus!
