//! Which endpoint a request is for.

use crate::com_id::{com_id_from_str, spelled_com_id, ComId};
use crate::stat_server::api_key::key_accepted;
use crate::stat_server::http::{
    bare, error, HttpResponse, Method, ResponseView, BAD_REQUEST, NOT_FOUND, OK,
};
use crate::stat_server::server::StatServer;
use crate::stat_server::types::default_slot;
use crate::text::{
    has_prefix, has_suffix, integer_value, natural_value, param_value, parse_i32, parse_u32,
    piece_end, query_param, same_text, split_piece, strip_prefix, strip_suffix,
};
use vstd::prelude::*;
use vstd::string::*;

verus! {

/// Where a request goes.
#[derive(Debug)]
pub enum Route {
    /// Check a user's credentials.
    VerifyUser,
    /// Set the rank of a character.
    SetRank,
    /// The usage summary.
    Usage { include_ips: bool },
    /// Every account by rank.
    Leaderboard { com_id: ComId, com_id_text: String, slot: i32, limit: u32 },
    /// The most recent finished matches.
    RecentMatches { com_id: ComId, limit: u32 },
    /// One account's match history.
    PlayerMatches { npid: String, limit: u32 },
    /// One account's ranks, per character.
    PlayerRanks { npid: String, com_id_text: String, slot: i32 },
    /// The rooms of a title.
    Rooms { com_id: ComId },
    /// One score board of a title.
    TableScore { com_id: ComId, table_id: u32 },
    /// All score boards of a title.
    ComIdScore { com_id: ComId },
    /// Nowhere: this response is sent.
    Respond(HttpResponse),
}

/// What is in a [`Route`].
pub enum RouteView {
    VerifyUser,
    SetRank,
    Usage { include_ips: bool },
    Leaderboard { com_id: ComId, com_id_text: Seq<char>, slot: i32, limit: u32 },
    RecentMatches { com_id: ComId, limit: u32 },
    PlayerMatches { npid: Seq<char>, limit: u32 },
    PlayerRanks { npid: Seq<char>, com_id_text: Seq<char>, slot: i32 },
    Rooms { com_id: ComId },
    TableScore { com_id: ComId, table_id: u32 },
    ComIdScore { com_id: ComId },
    Respond(ResponseView),
}

impl View for Route {
    type V = RouteView;

    open spec fn view(&self) -> RouteView {
        match *self {
            Route::VerifyUser => RouteView::VerifyUser,
            Route::SetRank => RouteView::SetRank,
            Route::Usage { include_ips } => RouteView::Usage { include_ips },
            Route::Leaderboard { com_id, com_id_text, slot, limit } => RouteView::Leaderboard {
                com_id,
                com_id_text: com_id_text@,
                slot,
                limit,
            },
            Route::RecentMatches { com_id, limit } => RouteView::RecentMatches { com_id, limit },
            Route::PlayerMatches { npid, limit } => RouteView::PlayerMatches {
                npid: npid@,
                limit,
            },
            Route::PlayerRanks { npid, com_id_text, slot } => RouteView::PlayerRanks {
                npid: npid@,
                com_id_text: com_id_text@,
                slot,
            },
            Route::Rooms { com_id } => RouteView::Rooms { com_id },
            Route::TableScore { com_id, table_id } => RouteView::TableScore { com_id, table_id },
            Route::ComIdScore { com_id } => RouteView::ComIdScore { com_id },
            Route::Respond(response) => RouteView::Respond(response@),
        }
    }
}

/// The value of a query parameter, where the request has a query with it.
pub open spec fn query_value(query: Option<&str>, name: Seq<char>) -> Option<Seq<char>> {
    match query {
        Some(q) => param_value(q@, name),
        None => None,
    }
}

/// The number that the `limit` parameter asks for, or `default` where it asks
/// for none.
pub open spec fn asked_limit(query: Option<&str>, default: u32) -> u32 {
    match query_value(query, "limit"@) {
        Some(text) => match natural_value(text) {
            Some(n) if n <= u32::MAX => n as u32,
            _ => default,
        },
        None => default,
    }
}

/// A limit, held between one and `max` so a caller cannot ask for everything.
pub open spec fn clamped(limit: u32, max: u32) -> u32 {
    if limit < 1 {
        1
    } else if limit > max {
        max
    } else {
        limit
    }
}

/// The slot that a request asks for.
pub open spec fn asked_slot(query: Option<&str>) -> i32 {
    match query_value(query, "slot"@) {
        Some(text) => match integer_value(text) {
            Some(n) if i32::MIN <= n <= i32::MAX => n as i32,
            _ => 1,
        },
        None => 1,
    }
}

/// `/leaderboard/<com_id>[?limit=n][&slot=n]`. A whole population is a
/// reasonable thing to ask for here, unlike a match list, so the ceiling is
/// higher.
pub open spec fn leaderboard_route(rest: Seq<char>, query: Option<&str>) -> Option<RouteView> {
    match spelled_com_id(rest) {
        Some(com_id) => Some(
            RouteView::Leaderboard {
                com_id,
                com_id_text: rest,
                slot: asked_slot(query),
                limit: clamped(asked_limit(query, 100), 10_000),
            },
        ),
        None => None,
    }
}

/// `/matches/<com_id>[?limit=n]`.
pub open spec fn matches_route(rest: Seq<char>, query: Option<&str>) -> Option<RouteView> {
    match spelled_com_id(rest) {
        Some(com_id) => Some(
            RouteView::RecentMatches { com_id, limit: clamped(asked_limit(query, 50), 500) },
        ),
        None => None,
    }
}

/// `/players/<npid>/matches[?limit=n]` and
/// `/players/<npid>/ranks?com_id=...[&slot=n]`.
pub open spec fn players_route(rest: Seq<char>, query: Option<&str>) -> Option<RouteView> {
    if has_suffix(rest, "/matches"@) {
        Some(
            RouteView::PlayerMatches {
                npid: rest.take(rest.len() - "/matches"@.len()),
                limit: clamped(asked_limit(query, 50), 500),
            },
        )
    } else if has_suffix(rest, "/ranks"@) {
        Some(
            match query_value(query, "com_id"@) {
                None => RouteView::Respond(error(BAD_REQUEST, "com_id_required"@)),
                Some(com_id_text) => RouteView::PlayerRanks {
                    npid: rest.take(rest.len() - "/ranks"@.len()),
                    com_id_text,
                    slot: asked_slot(query),
                },
            },
        )
    } else {
        None
    }
}

/// `/rooms/<com_id>`.
pub open spec fn rooms_route(rest: Seq<char>) -> Option<RouteView> {
    match spelled_com_id(rest) {
        Some(com_id) => Some(RouteView::Rooms { com_id }),
        None => None,
    }
}

/// `/score/<com_id>` and `/score/<com_id>/<table_id>`.
pub open spec fn score_route(rest: Seq<char>) -> Option<RouteView> {
    let end = piece_end(rest, '/');
    match spelled_com_id(rest.take(end)) {
        Some(com_id) => if end < rest.len() {
            match natural_value(rest.skip(end + 1)) {
                Some(n) if n <= u32::MAX => Some(
                    RouteView::TableScore { com_id, table_id: n as u32 },
                ),
                _ => None,
            }
        } else {
            Some(RouteView::ComIdScore { com_id })
        },
        None => None,
    }
}

/// What follows a prefix, where a path starts with it.
pub open spec fn behind(path: Seq<char>, prefix: Seq<char>) -> Option<Seq<char>> {
    if has_prefix(path, prefix) {
        Some(path.skip(prefix.len() as int))
    } else {
        None
    }
}

/// Where a GET request goes whose path names no endpoint in full.
pub open spec fn prefixed_route(path: Seq<char>, req_path: Seq<char>, query: Option<&str>) -> Option<
    RouteView,
> {
    match behind(req_path, path + "/leaderboard/"@) {
        Some(rest) if leaderboard_route(rest, query) is Some => leaderboard_route(rest, query),
        _ => match behind(req_path, path + "/matches/"@) {
            Some(rest) if matches_route(rest, query) is Some => matches_route(rest, query),
            _ => match behind(req_path, path + "/players/"@) {
                Some(rest) if players_route(rest, query) is Some => players_route(rest, query),
                _ => match behind(req_path, path + "/rooms/"@) {
                    Some(rest) if rooms_route(rest) is Some => rooms_route(rest),
                    _ => match behind(req_path, path + "/score/"@) {
                        Some(rest) => score_route(rest),
                        None => None,
                    },
                },
            },
        },
    }
}

/// Where a request goes. `path` is what the server serves everything under,
/// `key` the request's `X-API-Key` header, where it has one that is text.
pub open spec fn route(
    path: Seq<char>,
    method: Method,
    req_path: Seq<char>,
    query: Option<&str>,
    key: Option<&str>,
    external_user_api_key: Option<String>,
) -> RouteView {
    if req_path == path + "/external/users/verify"@ {
        if external_user_api_key is Some {
            RouteView::VerifyUser
        } else {
            RouteView::Respond(bare(NOT_FOUND, Seq::empty()))
        }
    } else if req_path == path + "/admin/character-rank"@ {
        if external_user_api_key is Some {
            RouteView::SetRank
        } else {
            RouteView::Respond(bare(NOT_FOUND, Seq::empty()))
        }
    } else if method != Method::Get {
        RouteView::Respond(bare(OK, Seq::empty()))
    } else if req_path == path + "/usage"@ {
        RouteView::Usage {
            include_ips: external_user_api_key matches Some(expected) && key_accepted(
                key,
                expected@,
            ),
        }
    } else {
        match prefixed_route(path, req_path, query) {
            Some(found) => found,
            None => RouteView::Respond(bare(OK, Seq::empty())),
        }
    }
}

fn under(path: &str, tail: &str) -> (full: String)
    ensures
        full@ == path@ + tail@,
{
    let mut full: String = path.to_owned();
    full.append(tail);
    full
}

fn find_leaderboard(rest: &str, query: Option<&str>) -> (found: Option<Route>)
    ensures
        match found {
            Some(r) => leaderboard_route(rest@, query) == Some(r@),
            None => leaderboard_route(rest@, query) is None,
        },
{
    match com_id_from_str(rest) {
        Some(com_id) => Some(
            Route::Leaderboard {
                com_id,
                com_id_text: rest.to_owned(),
                slot: StatServer::parse_slot(query),
                limit: StatServer::parse_limit_with(query, 100, 10_000),
            },
        ),
        None => None,
    }
}

fn find_matches(rest: &str, query: Option<&str>) -> (found: Option<Route>)
    ensures
        match found {
            Some(r) => matches_route(rest@, query) == Some(r@),
            None => matches_route(rest@, query) is None,
        },
{
    match com_id_from_str(rest) {
        Some(com_id) => Some(
            Route::RecentMatches { com_id, limit: StatServer::parse_limit(query) },
        ),
        None => None,
    }
}

fn find_players(rest: &str, query: Option<&str>) -> (found: Option<Route>)
    ensures
        match found {
            Some(r) => players_route(rest@, query) == Some(r@),
            None => players_route(rest@, query) is None,
        },
{
    if let Some(npid) = strip_suffix(rest, "/matches") {
        return Some(
            Route::PlayerMatches { npid: npid.to_owned(), limit: StatServer::parse_limit(query) },
        );
    }
    if let Some(npid) = strip_suffix(rest, "/ranks") {
        return Some(
            match query_param(query, "com_id") {
                None => Route::Respond(
                    StatServer::error_response(BAD_REQUEST, "com_id_required"),
                ),
                Some(com_id_text) => Route::PlayerRanks {
                    npid: npid.to_owned(),
                    com_id_text: com_id_text.to_owned(),
                    slot: StatServer::parse_slot(query),
                },
            },
        );
    }
    None
}

fn find_rooms(rest: &str) -> (found: Option<Route>)
    ensures
        match found {
            Some(r) => rooms_route(rest@) == Some(r@),
            None => rooms_route(rest@) is None,
        },
{
    match com_id_from_str(rest) {
        Some(com_id) => Some(Route::Rooms { com_id }),
        None => None,
    }
}

fn find_score(rest: &str) -> (found: Option<Route>)
    ensures
        match found {
            Some(r) => score_route(rest@) == Some(r@),
            None => score_route(rest@) is None,
        },
{
    let (com_id_text, table): (&str, Option<&str>) = split_piece(rest, '/');
    let com_id: ComId = match com_id_from_str(com_id_text) {
        Some(com_id) => com_id,
        None => return None,
    };
    match table {
        Some(table) => match parse_u32(table) {
            Some(table_id) => Some(Route::TableScore { com_id, table_id }),
            None => None,
        },
        None => Some(Route::ComIdScore { com_id }),
    }
}

fn find_prefixed(path: &str, req_path: &str, query: Option<&str>) -> (found: Option<Route>)
    ensures
        match found {
            Some(r) => prefixed_route(path@, req_path@, query) == Some(r@),
            None => prefixed_route(path@, req_path@, query) is None,
        },
{
    if let Some(rest) = strip_prefix(req_path, under(path, "/leaderboard/").as_str()) {
        if let Some(r) = find_leaderboard(rest, query) {
            return Some(r);
        }
    }
    if let Some(rest) = strip_prefix(req_path, under(path, "/matches/").as_str()) {
        if let Some(r) = find_matches(rest, query) {
            return Some(r);
        }
    }
    if let Some(rest) = strip_prefix(req_path, under(path, "/players/").as_str()) {
        if let Some(r) = find_players(rest, query) {
            return Some(r);
        }
    }
    if let Some(rest) = strip_prefix(req_path, under(path, "/rooms/").as_str()) {
        if let Some(r) = find_rooms(rest) {
            return Some(r);
        }
    }
    match strip_prefix(req_path, under(path, "/score/").as_str()) {
        Some(rest) => find_score(rest),
        None => None,
    }
}

impl StatServer {
    /// A query parameter, without pulling in a query string parser.
    pub fn query_param<'a>(query: Option<&'a str>, name: &str) -> (value: Option<&'a str>)
        ensures
            match value {
                Some(v) => query_value(query, name@) == Some(v@),
                None => query_value(query, name@) is None,
            },
    {
        query_param(query, name)
    }

    /// `limit` query parameter, clamped so a caller cannot ask for everything.
    pub fn parse_limit(query: Option<&str>) -> (limit: u32)
        ensures
            limit == clamped(asked_limit(query, 50), 500),
    {
        StatServer::parse_limit_with(query, 50, 500)
    }

    /// `limit` query parameter, or `default`, held between one and `max`.
    pub fn parse_limit_with(query: Option<&str>, default: u32, max: u32) -> (limit: u32)
        requires
            max >= 1,
        ensures
            limit == clamped(asked_limit(query, default), max),
    {
        let asked: u32 = match query_param(query, "limit") {
            Some(text) => match parse_u32(text) {
                Some(n) => n,
                None => default,
            },
            None => default,
        };
        if asked < 1 {
            1
        } else if asked > max {
            max
        } else {
            asked
        }
    }

    /// `slot` query parameter.
    pub fn parse_slot(query: Option<&str>) -> (slot: i32)
        ensures
            slot == asked_slot(query),
    {
        match query_param(query, "slot") {
            Some(text) => match parse_i32(text) {
                Some(n) => n,
                None => default_slot(),
            },
            None => default_slot(),
        }
    }

    /// Finds out where a request goes. `path` is what the server serves
    /// everything under, `key` the request's `X-API-Key` header, where it has
    /// one that is text.
    pub fn route_stat_server_req(
        path: &str,
        method: Method,
        req_path: &str,
        query: Option<&str>,
        key: Option<&str>,
        external_user_api_key: &Option<String>,
    ) -> (found: Route)
        ensures
            found@ == route(path@, method, req_path@, query, key, *external_user_api_key),
    {
        if same_text(req_path, under(path, "/external/users/verify").as_str()) {
            return if external_user_api_key.is_some() {
                Route::VerifyUser
            } else {
                Route::Respond(HttpResponse::not_found())
            };
        }
        if same_text(req_path, under(path, "/admin/character-rank").as_str()) {
            return if external_user_api_key.is_some() {
                Route::SetRank
            } else {
                Route::Respond(HttpResponse::not_found())
            };
        }
        if method != Method::Get {
            return Route::Respond(HttpResponse::new(String::new()));
        }
        if same_text(req_path, under(path, "/usage").as_str()) {
            return Route::Usage { include_ips: StatServer::is_operator(key, external_user_api_key) };
        }
        match find_prefixed(path, req_path, query) {
            Some(found) => found,
            None => Route::Respond(HttpResponse::new(String::new())),
        }
    }
}

/// All that a route holds is seen.
pub proof fn law_all_of_a_route_is_seen(route: Route)
    ensures
        match (route, route@) {
            (Route::VerifyUser, RouteView::VerifyUser) => true,
            (Route::SetRank, RouteView::SetRank) => true,
            (Route::Usage { include_ips }, RouteView::Usage { include_ips: seen }) => {
                seen == include_ips
            },
            (
                Route::Leaderboard { com_id, com_id_text, slot, limit },
                RouteView::Leaderboard { com_id: id, com_id_text: text, slot: s, limit: l },
            ) => id == com_id && text == com_id_text@ && s == slot && l == limit,
            (
                Route::RecentMatches { com_id, limit },
                RouteView::RecentMatches { com_id: id, limit: l },
            ) => id == com_id && l == limit,
            (
                Route::PlayerMatches { npid, limit },
                RouteView::PlayerMatches { npid: name, limit: l },
            ) => name == npid@ && l == limit,
            (
                Route::PlayerRanks { npid, com_id_text, slot },
                RouteView::PlayerRanks { npid: name, com_id_text: text, slot: s },
            ) => name == npid@ && text == com_id_text@ && s == slot,
            (Route::Rooms { com_id }, RouteView::Rooms { com_id: id }) => id == com_id,
            (
                Route::TableScore { com_id, table_id },
                RouteView::TableScore { com_id: id, table_id: table },
            ) => id == com_id && table == table_id,
            (Route::ComIdScore { com_id }, RouteView::ComIdScore { com_id: id }) => id == com_id,
            (Route::Respond(response), RouteView::Respond(seen)) => seen == response@,
            _ => false,
        },
{
}

} // verus!
