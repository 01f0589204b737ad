//! What holds of the stat server across its endpoints.

use crate::com_id::spelled_com_id;
use crate::error::DbError;
use crate::game_specific_tus::CHARACTERS;
use crate::stat_server::api_key::key_accepted;
use crate::stat_server::http::{
    bare, error, Method, BAD_REQUEST, CONFLICT, FORBIDDEN, METHOD_NOT_ALLOWED, NOT_FOUND, OK,
    UNAUTHORIZED,
};
use crate::stat_server::operator::{
    accepted_request, is_online, is_valid_set_rank, is_valid_verify, kept_info, set_rank_step,
    turned_away, verified_user, verify_step, SetRankAnswers, VerifyAnswers,
};
use crate::stat_server::players::{
    player_matches_step, player_ranks_step, PlayerMatchesAnswers, PlayerRanksAnswers,
};
use crate::stat_server::route::{
    asked_limit, asked_slot, behind, clamped, query_value, route, RouteView,
};
use crate::stat_server::types::{
    AdminCharacterRank, DocumentView, EditError, StatQuery, StatStepView, UserInfo,
};
use crate::text::{has_prefix, has_suffix};
use vstd::prelude::*;

verus! {

/// The operator endpoints are there only where a key is configured: without one
/// their paths lead nowhere, whatever the method.
pub proof fn law_operator_endpoints_need_a_key(
    path: Seq<char>,
    method: Method,
    req_path: Seq<char>,
    query: Option<&str>,
    key: Option<&str>,
    external_user_api_key: Option<String>,
)
    ensures
        ({
            let found = route(path, method, req_path, query, key, external_user_api_key);
            &&& found is VerifyUser || found is SetRank ==> external_user_api_key is Some
            &&& external_user_api_key is None && (req_path == path + "/external/users/verify"@
                || req_path == path + "/admin/character-rank"@) ==> found == RouteView::Respond(
                bare(NOT_FOUND, Seq::empty()),
            )
        }),
{
}

/// Only the operator endpoints are reached by anything but GET.
pub proof fn law_everything_else_is_read_only(
    path: Seq<char>,
    method: Method,
    req_path: Seq<char>,
    query: Option<&str>,
    key: Option<&str>,
    external_user_api_key: Option<String>,
)
    requires
        method != Method::Get,
    ensures
        ({
            let found = route(path, method, req_path, query, key, external_user_api_key);
            found is VerifyUser || found is SetRank || found is Respond
        }),
{
}

/// Addresses are shown only to a request that carries the operator key.
pub proof fn law_addresses_need_the_key(
    path: Seq<char>,
    method: Method,
    req_path: Seq<char>,
    query: Option<&str>,
    key: Option<&str>,
    external_user_api_key: Option<String>,
)
    ensures
        route(path, method, req_path, query, key, external_user_api_key) matches RouteView::Usage {
            include_ips,
        } ==> include_ips == (external_user_api_key matches Some(expected) && key_accepted(
            key,
            expected@,
        )),
{
}

/// Wherever a request goes, no more is looked up for it than its endpoint
/// allows, and never nothing: 500 matches, or the first 10000 of a board.
pub proof fn law_limits_are_held(
    path: Seq<char>,
    method: Method,
    req_path: Seq<char>,
    query: Option<&str>,
    key: Option<&str>,
    external_user_api_key: Option<String>,
)
    ensures
        match route(path, method, req_path, query, key, external_user_api_key) {
            RouteView::RecentMatches { limit, .. } => 1 <= limit <= 500,
            RouteView::PlayerMatches { limit, .. } => 1 <= limit <= 500,
            RouteView::Leaderboard { limit, .. } => 1 <= limit <= 10_000,
            _ => true,
        },
{
}

/// A request that names no limit and no slot gets 50 matches, the first 100 of a
/// board, and slot 1.
pub proof fn law_defaults(
    path: Seq<char>,
    method: Method,
    req_path: Seq<char>,
    query: Option<&str>,
    key: Option<&str>,
    external_user_api_key: Option<String>,
)
    requires
        query_value(query, "limit"@) is None,
        query_value(query, "slot"@) is None,
    ensures
        match route(path, method, req_path, query, key, external_user_api_key) {
            RouteView::RecentMatches { limit, .. } => limit == 50,
            RouteView::PlayerMatches { limit, .. } => limit == 50,
            RouteView::Leaderboard { limit, slot, .. } => limit == 100 && slot == 1,
            RouteView::PlayerRanks { slot, .. } => slot == 1,
            _ => true,
        },
{
}

/// An operator endpoint answers a request without the key, or by another method
/// than POST, at once: nothing is read or looked up for it.
pub proof fn law_strangers_are_turned_away(
    method: Method,
    key: Option<&str>,
    expected: Seq<char>,
    verify: VerifyAnswers,
    set_rank: SetRankAnswers,
)
    requires
        method != Method::Post || !key_accepted(key, expected),
    ensures
        ({
            let response = if method != Method::Post {
                error(METHOD_NOT_ALLOWED, "method_not_allowed"@)
            } else {
                error(FORBIDDEN, "forbidden"@)
            };
            &&& verify_step(method, key, expected, &verify) == StatStepView::Respond(response)
            &&& set_rank_step(method, key, expected, &set_rank) == StatStepView::Respond(response)
        }),
{
}

/// Invalid credentials always get the same answer, regardless of whether there
/// is such a user.
pub proof fn law_wrong_users_and_wrong_passwords_look_alike(
    method: Method,
    key: Option<&str>,
    expected: Seq<char>,
    unknown: VerifyAnswers,
    wrong: VerifyAnswers,
)
    requires
        turned_away(method, key, expected) is None,
        unknown.request matches Some(Some(request)) && is_valid_verify(request),
        wrong.request matches Some(Some(request)) && is_valid_verify(request),
        unknown.user == Some(Err::<UserInfo, DbError>(DbError::Empty)),
        wrong.user == Some(Err::<UserInfo, DbError>(DbError::WrongPass)),
    ensures
        verify_step(method, key, expected, &unknown) == StatStepView::Respond(
            error(UNAUTHORIZED, "invalid_credentials"@),
        ),
        verify_step(method, key, expected, &wrong) == StatStepView::Respond(
            error(UNAUTHORIZED, "invalid_credentials"@),
        ),
{
}

/// What is told of an account is what the database found for the very name and
/// password that the request holds, and is told only then.
pub proof fn law_accounts_are_told_to_their_owners_only(
    method: Method,
    key: Option<&str>,
    expected: Seq<char>,
    got: VerifyAnswers,
)
    ensures
        match verify_step(method, key, expected, &got) {
            StatStepView::Ask(StatQuery::CheckUser { username, password }) => got.request matches Some(
                Some(request),
            ) && *username == request.username && *password == request.password,
            StatStepView::Encode(document) => got.user matches Some(Ok(user)) && document
                == verified_user(user),
            StatStepView::Respond(response) => response.status == OK ==> got.user matches Some(
                Ok(_),
            ),
            _ => true,
        },
{
}

/// An npid without an account is not found, rather than a player without
/// matches or ranks.
pub proof fn law_players_without_an_account_are_not_found(
    npid: String,
    limit: u32,
    com_id_text: Seq<char>,
    slot: i32,
    matches: PlayerMatchesAnswers,
    ranks: PlayerRanksAnswers,
)
    requires
        matches.valid == Some(true),
        matches.user_id == Some(Err::<i64, DbError>(DbError::Empty)),
        ranks.valid == Some(true),
        spelled_com_id(com_id_text) is Some,
        ranks.user_id == Some(Err::<i64, DbError>(DbError::Empty)),
    ensures
        player_matches_step(&npid, limit, &matches) == StatStepView::Respond(
            error(NOT_FOUND, "not_found"@),
        ),
        player_ranks_step(&npid, com_id_text, slot, &ranks) == StatStepView::Respond(
            error(NOT_FOUND, "not_found"@),
        ),
{
}

/// A request for the ranks of a title whose saves have an unknown layout is a
/// bad one.
pub proof fn law_unknown_layouts_are_refused(
    npid: String,
    com_id_text: Seq<char>,
    slot: i32,
    got: PlayerRanksAnswers,
)
    requires
        got.valid == Some(true),
        spelled_com_id(com_id_text) is Some,
        got.user_id matches Some(Ok(_)),
        got.online_name matches Some(Ok(_)),
        got.slot_data matches Some(Ok(_)),
        got.save matches Some(Some(_)),
        got.ranks matches Some(Err(EditError::UnsupportedTitle)),
    ensures
        player_ranks_step(&npid, com_id_text, slot, &got) == StatStepView::Respond(
            error(BAD_REQUEST, "unsupported_title"@),
        ),
{
}

/// A connected account is refused unless the request insists: nothing is read
/// or written for it.
pub proof fn law_connected_accounts_are_refused(
    method: Method,
    key: Option<&str>,
    expected: Seq<char>,
    got: SetRankAnswers,
)
    requires
        accepted_request(method, key, expected, &got) matches Ok(request) && !request.force,
        got.user_id matches Some(Ok(_)),
        got.online_name matches Some(Ok(_)),
        got.slot_data matches Some(Ok(_)),
        got.players matches Some(players) && is_online(players, got.online_name->0->Ok_0@),
    ensures
        set_rank_step(method, key, expected, &got) == StatStepView::Respond(
            error(CONFLICT, "player_online"@),
        ),
{
}

/// The account that a request to set a rank is about.
pub open spec fn edited_account(got: SetRankAnswers) -> i64 {
    match got.user_id {
        Some(Ok(user_id)) => user_id,
        _ => 0,
    }
}

/// An edit is written the way a save from the game is. What is written is the
/// edited save, to a file of its own; the slot of the request, and no other, is
/// pointed at that file, with the info blob it had; and the file goes into the
/// slot's history only once the slot points at it. Nothing is ever deleted, so
/// the save that was replaced stays to fall back on.
pub proof fn law_edits_are_written_as_new_saves(
    method: Method,
    key: Option<&str>,
    expected: Seq<char>,
    got: SetRankAnswers,
)
    ensures
        match set_rank_step(method, key, expected, &got) {
            StatStepView::Ask(StatQuery::CreateSave { save }) => got.edited matches Some(Ok(edited))
                && *save == edited.save,
            StatStepView::Ask(
                StatQuery::SetSlotData {
                    com_id,
                    user_id,
                    slot,
                    data_id,
                    info,
                    author_id,
                    timestamp,
                },
            ) => {
                &&& accepted_request(method, key, expected, &got) matches Ok(request) && slot
                    == request.slot && spelled_com_id(request.com_id@) == Some(com_id)
                &&& got.data_id == Some(data_id) && data_id != 0
                &&& user_id == edited_account(got) && author_id == user_id
                &&& got.slot_data matches Some(Ok((_, kept))) && info == kept_info(&kept)
                &&& got.timestamp == Some(timestamp)
            },
            StatStepView::Ask(
                StatQuery::RecordHistory { com_id, user_id, slot, data_id, timestamp },
            ) => {
                &&& accepted_request(method, key, expected, &got) matches Ok(request) && slot
                    == request.slot && spelled_com_id(request.com_id@) == Some(com_id)
                &&& got.stored matches Some(Ok(_))
                &&& got.data_id == Some(data_id)
                &&& user_id == edited_account(got)
                &&& got.timestamp == Some(timestamp)
            },
            _ => true,
        },
{
}

/// Nothing is written for a request to set a rank unless it carries the key and
/// makes sense, and the account is not connected or the request insists.
pub proof fn law_edits_need_permission(
    method: Method,
    key: Option<&str>,
    expected: Seq<char>,
    got: SetRankAnswers,
)
    requires
        match set_rank_step(method, key, expected, &got) {
            StatStepView::Ask(StatQuery::CreateSave { .. }) => true,
            StatStepView::Ask(StatQuery::SetSlotData { .. }) => true,
            StatStepView::Ask(StatQuery::RecordHistory { .. }) => true,
            _ => false,
        },
    ensures
        method == Method::Post,
        key_accepted(key, expected),
        accepted_request(method, key, expected, &got) matches Ok(request) && {
            &&& is_valid_set_rank(*request)
            &&& request.character < CHARACTERS
            &&& request.force || (got.players matches Some(players) && got.online_name matches Some(
                Ok(name),
            ) && !is_online(players, name@))
        },
{
}

/// A rank is reported as set only once the new save is in place, and the report
/// tells the rank that the save held before and the one that was asked for.
pub proof fn law_reported_edits_have_been_made(
    method: Method,
    key: Option<&str>,
    expected: Seq<char>,
    got: SetRankAnswers,
)
    ensures
        match set_rank_step(method, key, expected, &got) {
            StatStepView::Encode(document) => {
                &&& got.stored matches Some(Ok(_))
                &&& got.recorded
                &&& accepted_request(method, key, expected, &got) matches Ok(request)
                    && got.edited matches Some(Ok(edited)) && document matches DocumentView::SetRank {
                    npid,
                    character,
                    previous,
                    current,
                    data_id,
                } && {
                    &&& npid == request.npid@
                    &&& character == request.character
                    &&& previous == (AdminCharacterRank {
                        rank: edited.previous.rank,
                        rank_points: edited.previous.rank_points,
                    })
                    &&& current.rank == request.rank
                    &&& request.rank_points matches Some(points) ==> current.rank_points == points
                    &&& got.data_id == Some(data_id)
                }
            },
            StatStepView::Respond(response) => response.status == OK ==> (got.stored matches Some(
                Ok(_),
            )) && got.recorded,
            _ => true,
        },
{
}

/// Whether the answer to a question of a request to set a rank is still missing.
pub open spec fn is_unanswered(query: StatQuery, got: SetRankAnswers) -> bool {
    match query {
        StatQuery::ReadSetRankRequest { .. } => got.request is None,
        StatQuery::UserId { .. } => got.user_id is None,
        StatQuery::OnlineName { .. } => got.online_name is None,
        StatQuery::SlotData { .. } => got.slot_data is None,
        StatQuery::Players { .. } => got.players is None,
        StatQuery::ReadSave { .. } => got.save is None,
        StatQuery::EditSave { .. } => got.edited is None,
        StatQuery::CreateSave { .. } => got.data_id is None,
        StatQuery::Timestamp => got.timestamp is None,
        StatQuery::SetSlotData { .. } => got.stored is None,
        StatQuery::RecordHistory { .. } => !got.recorded,
        StatQuery::ReadRanks { .. } => got.ranks is None,
        _ => false,
    }
}

/// A request to set a rank asks nothing twice: a question is only asked while its
/// answer is missing. So it ends, and writes one save and one slot at most.
pub proof fn law_setting_a_rank_asks_nothing_twice(
    method: Method,
    key: Option<&str>,
    expected: Seq<char>,
    got: SetRankAnswers,
)
    ensures
        match set_rank_step(method, key, expected, &got) {
            StatStepView::Ask(query) => is_unanswered(query, got),
            StatStepView::Encode(_) => got.json is None,
            StatStepView::Respond(_) => true,
        },
{
}

pub(crate) proof fn lemma_tails_differ(path: Seq<char>, a: Seq<char>, b: Seq<char>)
    requires
        a.len() > 1,
        b.len() > 1,
        a[1] != b[1],
    ensures
        path + a != path + b,
        !has_prefix(path + a, path + b),
{
    let whole = path + a;
    let at: int = path.len() as int + 1;
    assert(whole[at] == a[1]);
    assert((path + b)[at] == b[1]);
    if has_prefix(whole, path + b) {
        assert(whole.take((path + b).len() as int)[at] == b[1]);
    }
}

pub(crate) proof fn lemma_behind(path: Seq<char>, prefix: Seq<char>, rest: Seq<char>)
    ensures
        behind(path + (prefix + rest), path + prefix) == Some(rest),
{
    let whole = path + (prefix + rest);
    let head = path + prefix;
    assert(whole.take(head.len() as int) =~= head);
    assert(whole.skip(head.len() as int) =~= rest);
}

/// The match lists are found where they are documented to be:
/// `/matches/<com_id>` for a title and `/players/<npid>/matches` for a player,
/// each under the path of the server.
pub proof fn law_match_lists_are_found(
    path: Seq<char>,
    com_id_text: Seq<char>,
    npid: Seq<char>,
    query: Option<&str>,
    key: Option<&str>,
    external_user_api_key: Option<String>,
)
    requires
        spelled_com_id(com_id_text) is Some,
    ensures
        route(
            path,
            Method::Get,
            path + ("/matches/"@ + com_id_text),
            query,
            key,
            external_user_api_key,
        ) == (RouteView::RecentMatches {
            com_id: spelled_com_id(com_id_text)->0,
            limit: clamped(asked_limit(query, 50), 500),
        }),
        route(
            path,
            Method::Get,
            path + ("/players/"@ + (npid + "/matches"@)),
            query,
            key,
            external_user_api_key,
        ) == (RouteView::PlayerMatches { npid, limit: clamped(asked_limit(query, 50), 500) }),
{
    reveal_strlit("/external/users/verify");
    reveal_strlit("/admin/character-rank");
    reveal_strlit("/usage");
    reveal_strlit("/leaderboard/");
    reveal_strlit("/matches/");
    reveal_strlit("/players/");
    let title = "/matches/"@ + com_id_text;
    assert(title[1] == 'm');
    lemma_tails_differ(path, title, "/external/users/verify"@);
    lemma_tails_differ(path, title, "/admin/character-rank"@);
    lemma_tails_differ(path, title, "/usage"@);
    lemma_tails_differ(path, title, "/leaderboard/"@);
    lemma_behind(path, "/matches/"@, com_id_text);
    let rest = npid + "/matches"@;
    let player = "/players/"@ + rest;
    assert(player[1] == 'p');
    lemma_tails_differ(path, player, "/external/users/verify"@);
    lemma_tails_differ(path, player, "/admin/character-rank"@);
    lemma_tails_differ(path, player, "/usage"@);
    lemma_tails_differ(path, player, "/leaderboard/"@);
    lemma_tails_differ(path, player, "/matches/"@);
    lemma_behind(path, "/players/"@, rest);
    assert(rest.skip(rest.len() - "/matches"@.len()) =~= "/matches"@);
    assert(rest.take(rest.len() - "/matches"@.len()) =~= npid);
}

/// The ranks of a player are found where they are documented to be:
/// `/players/<npid>/ranks`, under the path of the server, for the title that the
/// query names.
pub proof fn law_ranks_are_found(
    path: Seq<char>,
    npid: Seq<char>,
    query: Option<&str>,
    key: Option<&str>,
    external_user_api_key: Option<String>,
)
    ensures
        route(
            path,
            Method::Get,
            path + ("/players/"@ + (npid + "/ranks"@)),
            query,
            key,
            external_user_api_key,
        ) == (match query_value(query, "com_id"@) {
            Some(com_id_text) => RouteView::PlayerRanks {
                npid,
                com_id_text,
                slot: asked_slot(query),
            },
            None => RouteView::Respond(error(BAD_REQUEST, "com_id_required"@)),
        }),
{
    reveal_strlit("/external/users/verify");
    reveal_strlit("/admin/character-rank");
    reveal_strlit("/usage");
    reveal_strlit("/leaderboard/");
    reveal_strlit("/matches/");
    reveal_strlit("/matches");
    reveal_strlit("/ranks");
    reveal_strlit("/players/");
    let rest = npid + "/ranks"@;
    let player = "/players/"@ + rest;
    assert(player[1] == 'p');
    lemma_tails_differ(path, player, "/external/users/verify"@);
    lemma_tails_differ(path, player, "/admin/character-rank"@);
    lemma_tails_differ(path, player, "/usage"@);
    lemma_tails_differ(path, player, "/leaderboard/"@);
    lemma_tails_differ(path, player, "/matches/"@);
    lemma_behind(path, "/players/"@, rest);
    assert(rest.skip(rest.len() - "/ranks"@.len()) =~= "/ranks"@);
    assert(rest.take(rest.len() - "/ranks"@.len()) =~= npid);
    if has_suffix(rest, "/matches"@) {
        let tail = rest.skip(rest.len() - "/matches"@.len());
        assert(tail[7] == rest[rest.len() - 1]);
        assert(rest[rest.len() - 1] == 's');
        assert(tail[6] == rest[rest.len() - 2]);
        assert(rest[rest.len() - 2] == 'k');
    }
}

/// The operator endpoints are found where they are documented to be, under the
/// path of the server, once a key is configured.
pub proof fn law_operator_endpoints_are_found(
    path: Seq<char>,
    method: Method,
    query: Option<&str>,
    key: Option<&str>,
    external_user_api_key: Option<String>,
)
    requires
        external_user_api_key is Some,
    ensures
        route(
            path,
            method,
            path + "/external/users/verify"@,
            query,
            key,
            external_user_api_key,
        ) == RouteView::VerifyUser,
        route(
            path,
            method,
            path + "/admin/character-rank"@,
            query,
            key,
            external_user_api_key,
        ) == RouteView::SetRank,
{
    reveal_strlit("/external/users/verify");
    reveal_strlit("/admin/character-rank");
    lemma_tails_differ(path, "/admin/character-rank"@, "/external/users/verify"@);
}

} // verus!
