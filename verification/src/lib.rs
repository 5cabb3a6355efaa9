//! Player identifiers for a game's account model: 128-bit values whose
//! version field tells an account issued by the directory service from one
//! derived locally from a username.

pub mod digest;
pub mod error;
pub mod id;
pub mod laws;
pub mod offline;
pub mod online;
pub mod player;

pub use crate::error::Error;
pub use crate::id::Uuid;
pub use crate::offline::OfflineUuid;
pub use crate::online::{LookupReply, OnlineUuid, OnlineUuidResponse};
pub use crate::player::PlayerUuid;
