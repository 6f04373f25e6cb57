//! Jump back to the tab or workspace that was focused before the current one in Herdr.
//!
//! A subscriber follows which tab is focused in each workspace and which workspace is
//! ([`subscriber`], [`tabs`]) and keeps what was focused before in state files ([`state_file`]) in
//! a directory of the session ([`session`]). A jump back reads such a file and has Herdr focus
//! what it names ([`cli`], [`protocol`]). A daemon keeps the subscriber running ([`daemon`],
//! [`reconnect`]).
//!
//! The library decides and leaves sockets, files and clocks to its caller. A function that needs
//! them takes an event, which says how the last operation ended, and gives the action to carry out
//! next, until that action is a result.
//!
//! What follows for a user from all that is stated in [`history`], and of a whole session in
//! [`recording`].

pub mod cli;
pub mod daemon;
pub mod error;
pub mod history;
pub mod json;
pub mod paths;
pub mod protocol;
pub mod reconnect;
pub mod recording;
pub mod session;
pub mod state_file;
pub mod subscriber;
pub mod tabs;
pub mod text;

pub use error::{Error, HerdrError};
pub use protocol::{herdr_notify, jump_back, workspace_jump_back};
pub use reconnect::run_subscriber;
pub use session::{session_hash, SessionHash, SESSION_HASH_LEN};
pub use state_file::StateFile;
pub use tabs::CurrentTabs;
