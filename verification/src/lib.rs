//! Session logic of a Discord Rich Presence bridge for editors: which
//! application an editor talks to, what its presence shows for a buffer, and
//! how a session answers the editor's requests.

pub mod status;
pub mod text;
pub mod number;
pub mod assets;
pub mod client;
pub mod config;
pub mod presence;
pub mod session;
pub mod activity;
pub mod repository;
pub mod laws;
pub mod presence_laws;
pub mod rule_laws;
