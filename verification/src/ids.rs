use vstd::prelude::*;

verus! {

/// The bot owner, who passes every permission check.
pub const OWNER_ID: u64 = 453344368913547265;

/// This bot's own user.
pub const OOFBOT_ID: u64 = 468928390917783553;

/// The rival bot that gets special replies.
pub const DOGEBOT_ID: u64 = 612070962913083405;

/// The guild where the rival bot's presence is watched.
pub const DOGEBOT_GUILD_ID: u64 = 561874457283657728;

/// The rival bot's maintainer, pinged when it stays offline.
pub const DOGEBOT_MAINTAINER_ID: u64 = 355803584228622346;

/// The user whose stream links get a complaint.
pub const STREAMER_ID: u64 = 266345279513427971;

/// The guild where the game server status command works.
pub const DVS_GUILD_ID: u64 = 693213312099287153;

} // verus!
