//! A verified core for a Steamworks binding: Steam identifiers, auth
//! tickets, call results and the rules that decide how the native library
//! is loaded and initialised.
pub mod auth;
pub mod callback;
pub mod init;
pub mod steam_id;
pub mod text;

pub use auth::{EBeginAuthSessionResult, HAuthTicket, SteamNetworkingIdentity};
pub use init::{EServerMode, InitError};
pub use steam_id::{AccountType, CSteamID, Universe};
