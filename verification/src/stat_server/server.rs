//! Setting the stat server up.

use crate::stat_server::cache::{blank, JsonCache, JsonCacheView};
use crate::tus_files::Server;
use vstd::prelude::*;
use vstd::string::*;

verus! {

/// What the configuration says of the stat server.
#[derive(Debug)]
pub struct StatConfig {
    /// Host and port to listen on, if the stat server is to run.
    pub binds: Option<(String, String)>,
    /// For how many seconds an answer may be served again.
    pub cache_life: u32,
    /// The path to serve everything under, without its leading slash.
    pub path: String,
    /// The operator API key, empty where there is none.
    pub external_user_api_key: String,
}

/// A stat server.
#[derive(Debug)]
pub struct StatServer {
    /// The path that everything is served under, with its leading slash.
    pub path: String,
    /// For how many seconds an answer may be served again.
    pub cache_life: u32,
    /// The answers that are kept.
    pub json_cache: JsonCache,
    /// The key that operators present, where there is one.
    pub external_user_api_key: Option<String>,
}

impl StatServer {
    /// A stat server that has not answered anything yet.
    pub fn new(path: String, cache_life: u32, external_user_api_key: Option<String>) -> (server:
        StatServer)
        ensures
            server.path == path,
            server.cache_life == cache_life,
            server.json_cache@ == (JsonCacheView {
                usage: blank(),
                tables: Map::empty(),
                titles: Map::empty(),
                leaderboards: Map::empty(),
            }),
            server.external_user_api_key == external_user_api_key,
    {
        StatServer { path, cache_life, json_cache: JsonCache::new(), external_user_api_key }
    }

    /// Why the stat server cannot listen on an address that names no host.
    pub fn invalid_address(address: &str) -> (text: String)
        ensures
            text@ == "Stat: "@ + address@ + " is not a valid address"@,
    {
        let mut text: String = "Stat: ".to_owned();
        text.append(address);
        text.append(" is not a valid address");
        text
    }

    /// Why the stat server cannot listen on an address that it could not be bound
    /// to.
    pub fn bind_failure(address: &str, reason: &str) -> (text: String)
        ensures
            text@ == "Stat: error binding to <"@ + address@ + ">: "@ + reason@,
    {
        let mut text: String = "Stat: error binding to <".to_owned();
        text.append(address);
        text.append(">: ");
        text.append(reason);
        text
    }
}

impl Server {
    /// The stat server that the configuration asks for and the address it has to
    /// listen on, if it asks for one.
    pub fn start_stat_server(config: &StatConfig) -> (started: Option<(String, StatServer)>)
        ensures
            match (config.binds, started) {
                (None, None) => true,
                (Some((host, port)), Some((address, server))) => {
                    &&& address@ == host@ + ":"@ + port@
                    &&& server.path@ == "/"@ + config.path@
                    &&& server.cache_life == config.cache_life
                    &&& server.external_user_api_key == (if config.external_user_api_key@.len()
                        == 0 {
                        None
                    } else {
                        Some(config.external_user_api_key)
                    })
                    &&& server.json_cache@ == (JsonCacheView {
                        usage: blank(),
                        tables: Map::empty(),
                        titles: Map::empty(),
                        leaderboards: Map::empty(),
                    })
                },
                _ => false,
            },
    {
        let binds: &(String, String) = match &config.binds {
            Some(binds) => binds,
            None => return None,
        };
        let mut address: String = binds.0.clone();
        address.append(":");
        address.append(binds.1.as_str());
        let mut path: String = "/".to_owned();
        path.append(config.path.as_str());
        let external_user_api_key: Option<String> = if config.external_user_api_key.as_str().is_empty() {
            None
        } else {
            Some(config.external_user_api_key.clone())
        };
        Some((address, StatServer::new(path, config.cache_life, external_user_api_key)))
    }
}

} // verus!
