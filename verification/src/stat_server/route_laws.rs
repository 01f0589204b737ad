//! Where requests go, told by their paths and queries alone.

use crate::stat_server::http::{Method, ResponseView};
use crate::stat_server::laws::{lemma_behind, lemma_tails_differ};
use crate::stat_server::route::{
    asked_limit, asked_slot, clamped, query_value, route, RouteView,
};
use crate::stat_server::step_laws::{
    has_the_key, is_title, law_titles_are_spelled_by_their_bytes,
};
use crate::text::{
    decimal, has_prefix, integer_value, is_number, law_decimal_reads_back,
    lemma_number_value_nonnegative, lemma_piece_end_is, natural_value, unsigned,
};
use vstd::prelude::*;
use vstd::utf8::*;

verus! {

/// A limit is the number that the query gives, held between one and the most that
/// is allowed. A query that gives none, or something that is no number or too
/// large a one, gets the default instead.
pub proof fn law_limits_are_as_asked(query: Option<&str>, default: u32, max: u32)
    requires
        1 <= max,
    ensures
        ({
            let limit = clamped(asked_limit(query, default), max) as int;
            let asked = match query_value(query, "limit"@) {
                Some(text) => natural_value(text),
                None => None,
            };
            let wanted: int = if asked is Some && asked->0 <= 0xffff_ffff {
                asked->0
            } else {
                default as int
            };
            &&& 1 <= limit <= max
            &&& 1 <= wanted <= max ==> limit == wanted
            &&& wanted < 1 ==> limit == 1
            &&& wanted > max ==> limit == max
        }),
        forall|n: u32|
            query_value(query, "limit"@) == Some(#[trigger] decimal(n as int)) ==> asked_limit(
                query,
                default,
            ) == n,
{
    if let Some(text) = query_value(query, "limit"@) {
        lemma_natural(text);
    }
    assert forall|n: u32| query_value(query, "limit"@) == Some(
        #[trigger] decimal(n as int),
    ) implies asked_limit(query, default) == n by {
        law_decimal_reads_back(n as int);
    }
}

proof fn lemma_natural(text: Seq<char>)
    ensures
        natural_value(text) matches Some(n) ==> n >= 0,
{
    let number = unsigned(text, '+');
    if is_number(number) {
        lemma_number_value_nonnegative(number);
    }
}

/// A slot is the number that the query gives. A query that gives none, or
/// something that is no number or too large or small a one, means slot one.
pub proof fn law_slots_are_as_asked(query: Option<&str>)
    ensures
        ({
            let asked = match query_value(query, "slot"@) {
                Some(text) => integer_value(text),
                None => None,
            };
            if asked is Some && -0x8000_0000 <= asked->0 <= 0x7fff_ffff {
                asked_slot(query) == asked->0
            } else {
                asked_slot(query) == 1
            }
        }),
        forall|n: i32|
            query_value(query, "slot"@) == Some(#[trigger] decimal(n as int)) ==> asked_slot(query)
                == n,
{
    assert forall|n: i32| query_value(query, "slot"@) == Some(
        #[trigger] decimal(n as int),
    ) implies asked_slot(query) == n by {
        law_decimal_reads_back(n as int);
    }
}

/// Whether a response says nothing but that all is well.
pub open spec fn says_nothing(response: ResponseView) -> bool {
    &&& response.status == 200
    &&& !response.json
    &&& !response.cross_origin
    &&& !response.preflight
    &&& response.body.len() == 0
}

proof fn lemma_apart(path: Seq<char>, tail: Seq<char>)
    requires
        tail.len() > 1,
    ensures
        tail[1] != 'e' ==> path + tail != path + "/external/users/verify"@,
        tail[1] != 'a' ==> path + tail != path + "/admin/character-rank"@,
        tail[1] != 'u' ==> path + tail != path + "/usage"@,
        tail[1] != 'l' ==> !has_prefix(path + tail, path + "/leaderboard/"@),
        tail[1] != 'm' ==> !has_prefix(path + tail, path + "/matches/"@),
        tail[1] != 'p' ==> !has_prefix(path + tail, path + "/players/"@),
        tail[1] != 'r' ==> !has_prefix(path + tail, path + "/rooms/"@),
        tail[1] != 's' ==> !has_prefix(path + tail, path + "/score/"@),
{
    reveal_strlit("/external/users/verify");
    reveal_strlit("/admin/character-rank");
    reveal_strlit("/usage");
    reveal_strlit("/leaderboard/");
    reveal_strlit("/matches/");
    reveal_strlit("/players/");
    reveal_strlit("/rooms/");
    reveal_strlit("/score/");
    if tail[1] != 'e' {
        lemma_tails_differ(path, tail, "/external/users/verify"@);
    }
    if tail[1] != 'a' {
        lemma_tails_differ(path, tail, "/admin/character-rank"@);
    }
    if tail[1] != 'u' {
        lemma_tails_differ(path, tail, "/usage"@);
    }
    if tail[1] != 'l' {
        lemma_tails_differ(path, tail, "/leaderboard/"@);
    }
    if tail[1] != 'm' {
        lemma_tails_differ(path, tail, "/matches/"@);
    }
    if tail[1] != 'p' {
        lemma_tails_differ(path, tail, "/players/"@);
    }
    if tail[1] != 'r' {
        lemma_tails_differ(path, tail, "/rooms/"@);
    }
    if tail[1] != 's' {
        lemma_tails_differ(path, tail, "/score/"@);
    }
}

/// The leaderboard of a title is found at `/leaderboard/<com_id>`, under the path
/// of the server, for the slot and the number of entries that the query asks for.
/// What names no title gets an answer that says nothing.
pub proof fn law_leaderboards_are_found(
    path: Seq<char>,
    title: Seq<char>,
    query: Option<&str>,
    key: Option<&str>,
    external_user_api_key: Option<String>,
)
    ensures
        match route(
            path,
            Method::Get,
            path + ("/leaderboard/"@ + title),
            query,
            key,
            external_user_api_key,
        ) {
            RouteView::Leaderboard { com_id, com_id_text, slot, limit } => {
                &&& is_title(title, com_id)
                &&& com_id_text == title
                &&& slot == asked_slot(query)
                &&& limit == clamped(asked_limit(query, 100), 10_000)
            },
            RouteView::Respond(response) => {
                encode_utf8(title).len() != 12 && says_nothing(response)
            },
            _ => false,
        },
{
    reveal_strlit("/leaderboard/");
    let tail = "/leaderboard/"@ + title;
    assert(tail[1] == 'l');
    lemma_apart(path, tail);
    lemma_behind(path, "/leaderboard/"@, title);
    law_titles_are_spelled_by_their_bytes(title);
}

/// The rooms of a title are found at `/rooms/<com_id>`, under the path of the
/// server. What names no title gets an answer that says nothing.
pub proof fn law_rooms_are_found(
    path: Seq<char>,
    title: Seq<char>,
    query: Option<&str>,
    key: Option<&str>,
    external_user_api_key: Option<String>,
)
    ensures
        match route(
            path,
            Method::Get,
            path + ("/rooms/"@ + title),
            query,
            key,
            external_user_api_key,
        ) {
            RouteView::Rooms { com_id } => is_title(title, com_id),
            RouteView::Respond(response) => {
                encode_utf8(title).len() != 12 && says_nothing(response)
            },
            _ => false,
        },
{
    reveal_strlit("/rooms/");
    let tail = "/rooms/"@ + title;
    assert(tail[1] == 'r');
    lemma_apart(path, tail);
    lemma_behind(path, "/rooms/"@, title);
    law_titles_are_spelled_by_their_bytes(title);
}

/// The score boards of a title are found at `/score/<com_id>`, and one of them at
/// `/score/<com_id>/<table_id>`, under the path of the server. What names no title
/// or no board gets an answer that says nothing.
pub proof fn law_scores_are_found(
    path: Seq<char>,
    title: Seq<char>,
    table: Seq<char>,
    query: Option<&str>,
    key: Option<&str>,
    external_user_api_key: Option<String>,
)
    requires
        forall|i: int| 0 <= i < title.len() ==> title[i] != '/',
    ensures
        match route(
            path,
            Method::Get,
            path + ("/score/"@ + title),
            query,
            key,
            external_user_api_key,
        ) {
            RouteView::ComIdScore { com_id } => is_title(title, com_id),
            RouteView::Respond(response) => {
                encode_utf8(title).len() != 12 && says_nothing(response)
            },
            _ => false,
        },
        match route(
            path,
            Method::Get,
            path + ("/score/"@ + (title + seq!['/'] + table)),
            query,
            key,
            external_user_api_key,
        ) {
            RouteView::TableScore { com_id, table_id } => {
                &&& is_title(title, com_id)
                &&& natural_value(table) == Some(table_id as int)
            },
            RouteView::Respond(response) => says_nothing(response) && (encode_utf8(title).len()
                != 12 || natural_value(table) is None || natural_value(table)->0 > 0xffff_ffff),
            _ => false,
        },
{
    reveal_strlit("/score/");
    law_titles_are_spelled_by_their_bytes(title);
    let all = "/score/"@ + title;
    assert(all[1] == 's');
    lemma_apart(path, all);
    lemma_behind(path, "/score/"@, title);
    lemma_piece_end_is(title, '/', title.len() as int);
    assert(title.take(title.len() as int) =~= title);
    let rest = title + seq!['/'] + table;
    let one = "/score/"@ + rest;
    assert(one[1] == 's');
    lemma_apart(path, one);
    lemma_behind(path, "/score/"@, rest);
    lemma_piece_end_is(rest, '/', title.len() as int);
    assert(rest.take(title.len() as int) =~= title);
    assert(rest.skip(title.len() as int + 1) =~= table);
    lemma_natural(table);
}

/// The usage summary is found at `/usage`, under the path of the server, and tells
/// addresses exactly to a request that carries the operator key, where there is
/// one.
pub proof fn law_usage_is_found(
    path: Seq<char>,
    query: Option<&str>,
    key: Option<&str>,
    external_user_api_key: Option<String>,
)
    ensures
        route(path, Method::Get, path + "/usage"@, query, key, external_user_api_key) == (
        RouteView::Usage {
            include_ips: external_user_api_key is Some && has_the_key(
                key,
                external_user_api_key->0@,
            ),
        }),
{
    reveal_strlit("/usage");
    lemma_apart(path, "/usage"@);
}

/// A request whose path is not under that of the server gets an answer that says
/// nothing.
pub proof fn law_other_paths_lead_nowhere(
    path: Seq<char>,
    method: Method,
    req_path: Seq<char>,
    query: Option<&str>,
    key: Option<&str>,
    external_user_api_key: Option<String>,
)
    requires
        !has_prefix(req_path, path),
    ensures
        route(path, method, req_path, query, key, external_user_api_key) matches RouteView::Respond(
            response,
        ) && says_nothing(response),
{
    lemma_not_under(path, req_path, "/external/users/verify"@);
    lemma_not_under(path, req_path, "/admin/character-rank"@);
    lemma_not_under(path, req_path, "/usage"@);
    lemma_not_under(path, req_path, "/leaderboard/"@);
    lemma_not_under(path, req_path, "/matches/"@);
    lemma_not_under(path, req_path, "/players/"@);
    lemma_not_under(path, req_path, "/rooms/"@);
    lemma_not_under(path, req_path, "/score/"@);
}

proof fn lemma_not_under(path: Seq<char>, req_path: Seq<char>, tail: Seq<char>)
    requires
        !has_prefix(req_path, path),
    ensures
        req_path != path + tail,
        !has_prefix(req_path, path + tail),
{
    let full = path + tail;
    assert(full.take(path.len() as int) =~= path);
    if has_prefix(req_path, full) {
        assert(req_path.take(path.len() as int) =~= req_path.take(full.len() as int).take(
            path.len() as int,
        ));
    }
    if req_path == full {
        assert(has_prefix(req_path, path));
    }
}

} // verus!
