use crate::config::Config;
use crate::connection::{get_lcu_state, ConnectionState};
use crate::error::CommandError;
use crate::gateway::{GatewayCall, GatewayReply};
use crate::lobby::{get_lobby_info, lobby_members, Lobby};
use vstd::prelude::*;

verus! {

/// The region and locale of the game client, as far as the links need it.
#[derive(Debug, PartialEq)]
pub struct RegionInfo {
    pub web_region: String,
}

/// What a statistics page for the lobby is opened with.
#[derive(Debug, PartialEq)]
pub struct LobbyLink {
    /// The participants to look up.
    pub team: Lobby,
    /// The short region code of the link.
    pub region: String,
    /// The statistics provider of the link.
    pub provider: String,
}

/// The short region code for a web region: `SG` for `SG2`, and every other
/// web region as it is.
pub open spec fn short_region(web_region: Seq<char>) -> Seq<char> {
    if web_region == "SG2"@ {
        "SG"@
    } else {
        web_region
    }
}

/// Derives the short region code of a web region.
pub fn region_code(web_region: &String) -> (code: String)
    ensures
        code@ == short_region(web_region@),
{
    let singapore = "SG2".to_string();
    if *web_region == singapore {
        "SG".to_string()
    } else {
        web_region.clone()
    }
}

/// The link for the replies to the two requests of `open_opgg_link`. A
/// failed participant request gives the link of the empty lobby; a failed
/// region request fails the link with the error of the request.
pub open spec fn lobby_link(
    team: GatewayReply<Lobby>,
    region: GatewayReply<RegionInfo>,
    cfg: Config,
    link: Result<LobbyLink, CommandError>,
) -> bool {
    match region.outcome() {
        Err(error) => link == Err::<LobbyLink, CommandError>(error),
        Ok(info) => {
            &&& link is Ok
            &&& link->Ok_0.team@ == lobby_members(team)
            &&& link->Ok_0.region@ == short_region(info.web_region@)
            &&& link->Ok_0.provider@ == cfg.multi_provider@
        },
    }
}

/// Starts the opening of a lobby link: the two requests to make, the
/// participants first, or `GatewayUnavailable` while there is no connection.
/// The replies go to `finish_open_opgg_link`.
pub fn open_opgg_link(lcu: &ConnectionState) -> (calls: Result<
    (GatewayCall, GatewayCall),
    CommandError,
>)
    ensures
        lcu@ is Some ==> calls == Ok::<(GatewayCall, GatewayCall), CommandError>(
            (GatewayCall::Participants, GatewayCall::RegionLocale),
        ),
        lcu@ is None ==> calls == Err::<(GatewayCall, GatewayCall), CommandError>(
            CommandError::GatewayUnavailable,
        ),
{
    if get_lcu_state(lcu) {
        Ok((GatewayCall::Participants, GatewayCall::RegionLocale))
    } else {
        Err(CommandError::GatewayUnavailable)
    }
}

/// Builds the lobby link from the replies to the two requests.
pub fn finish_open_opgg_link(
    team: GatewayReply<Lobby>,
    region: GatewayReply<RegionInfo>,
    cfg: &Config,
) -> (link: Result<LobbyLink, CommandError>)
    ensures
        lobby_link(team, region, *cfg, link),
{
    let team = get_lobby_info(team);
    let info = match region.into_result() {
        Ok(info) => info,
        Err(error) => {
            return Err(error);
        },
    };
    Ok(
        LobbyLink {
            team,
            region: region_code(&info.web_region),
            provider: cfg.multi_provider.clone(),
        },
    )
}

} // verus!
