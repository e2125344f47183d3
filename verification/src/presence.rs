use vstd::prelude::*;
use crate::ids::{DOGEBOT_GUILD_ID, DOGEBOT_ID};

verus! {

/// A user's status as a presence update reports it.
#[derive(Clone, Copy, Debug, PartialEq, Eq, Structural)]
pub enum OnlineStatus {
    DoNotDisturb,
    Idle,
    Invisible,
    Offline,
    Online,
}

/// What a presence update leads to.
#[derive(Clone, Copy, Debug, PartialEq, Eq, Structural)]
pub enum PresenceRoute {
    /// Nothing happens.
    Ignore,
    /// The rival bot changed status in its home guild.
    WatchDogebot,
    /// The user went offline: they join the canary update list.
    RecordOffline,
    /// The user came online: their pending canary update, if any, is announced.
    AnnounceReturn,
}

/// What a presence update of `user_id` with `status`, in guild `guild_id` if
/// any, leads to: updates outside guilds are ignored; the rival bot is only
/// watched in its home guild; other users join the canary list when they go
/// offline and are looked up when they come online.
pub open spec fn presence_route_spec(guild_id: Option<u64>, user_id: u64, status: OnlineStatus) -> PresenceRoute {
    match guild_id {
        None => PresenceRoute::Ignore,
        Some(g) => {
            let is_dogebot = user_id == DOGEBOT_ID;
            if is_dogebot && g == DOGEBOT_GUILD_ID {
                PresenceRoute::WatchDogebot
            } else if !is_dogebot && status == OnlineStatus::Offline {
                PresenceRoute::RecordOffline
            } else if !is_dogebot && status == OnlineStatus::Online {
                PresenceRoute::AnnounceReturn
            } else {
                PresenceRoute::Ignore
            }
        },
    }
}

/// What a presence update of `user_id` with `status`, in guild `guild_id` if
/// any, leads to.
pub fn presence_route(guild_id: Option<u64>, user_id: u64, status: OnlineStatus) -> (r: PresenceRoute)
    ensures
        r == presence_route_spec(guild_id, user_id, status),
{
    match guild_id {
        None => PresenceRoute::Ignore,
        Some(g) => {
            let is_dogebot = user_id == DOGEBOT_ID;
            if is_dogebot && g == DOGEBOT_GUILD_ID {
                PresenceRoute::WatchDogebot
            } else if !is_dogebot && status == OnlineStatus::Offline {
                PresenceRoute::RecordOffline
            } else if !is_dogebot && status == OnlineStatus::Online {
                PresenceRoute::AnnounceReturn
            } else {
                PresenceRoute::Ignore
            }
        },
    }
}

/// Who is watched and who joins the canary list: only the rival bot is ever
/// watched, and only in its home guild; any other user in a guild joins the
/// list on going offline and is looked up on coming online; updates outside
/// guilds and the rival bot elsewhere are ignored.
pub proof fn lemma_presence_routing(guild_id: Option<u64>, user_id: u64, status: OnlineStatus)
    ensures
        presence_route_spec(guild_id, user_id, status) == PresenceRoute::WatchDogebot
            <==> user_id == 612070962913083405 && guild_id == Some(561874457283657728u64),
        guild_id is Some && user_id != 612070962913083405 && status == OnlineStatus::Offline
            ==> presence_route_spec(guild_id, user_id, status) == PresenceRoute::RecordOffline,
        guild_id is Some && user_id != 612070962913083405 && status == OnlineStatus::Online
            ==> presence_route_spec(guild_id, user_id, status) == PresenceRoute::AnnounceReturn,
        presence_route_spec(guild_id, user_id, status) == PresenceRoute::RecordOffline
            ==> guild_id is Some && user_id != 612070962913083405 && status == OnlineStatus::Offline,
        presence_route_spec(guild_id, user_id, status) == PresenceRoute::AnnounceReturn
            ==> guild_id is Some && user_id != 612070962913083405 && status == OnlineStatus::Online,
        guild_id is None ==> presence_route_spec(guild_id, user_id, status) == PresenceRoute::Ignore,
{
}

} // verus!
