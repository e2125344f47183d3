//! Decision logic of a Discord bot: message and presence routing, the pending
//! "canary update" list, the per-guild music queue, message clean-up rules,
//! permission encodings and the text the bot sends.
pub mod admin;
pub mod canary;
pub mod clock;
pub mod dogebot;
pub mod handler;
pub mod ids;
pub mod logger;
pub mod mention;
pub mod pattern;
pub mod permissions;
pub mod presence;
pub mod someone;
pub mod text;
pub mod voice;
