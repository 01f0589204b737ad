//! The parts of an RPCN server that decide: title user storage, the statistics
//! that it serves over HTTP, and what it does for single titles.
//!
//! Nothing here talks to a socket, a file or a database. A request is worked on
//! step by step: each step is computed from the request and what the host has
//! found out so far, and names the next thing that the host has to do or find out,
//! or the answer. What each step is, is stated by a specification function; the
//! `law_` functions state what follows for every run.

pub mod cmd_tus;
pub mod com_id;
pub mod error;
pub mod game_specific_matchmaking;
pub mod game_specific_tus;
pub mod stat_server;
pub mod text;
pub mod tus_files;
