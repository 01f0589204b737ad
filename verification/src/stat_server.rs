//! The stat server: what it answers over HTTP about who is playing, scores,
//! rooms, matches and ranks.
//!
//! What a request asks for is worked out here and carried out by the host, which
//! owns the sockets, the database and the live state of the server. The host
//! hands that state over as plain values and sends the responses that come back.

pub mod api_key;
pub mod board_laws;
pub mod cache;
pub mod http;
pub mod json;
pub mod laws;
pub mod leaderboard;
pub mod matches;
pub mod operator;
pub mod order;
pub mod players;
pub mod rooms;
pub mod route;
pub mod route_laws;
pub mod scores;
pub mod server;
pub mod step_laws;
pub mod text_laws;
pub mod trim;
pub mod types;
pub mod usage;
