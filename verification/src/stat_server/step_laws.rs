//! How requests to the stat server go on, told by the request and the host's
//! answers alone.

use crate::com_id::{spelled_com_id, ComId};
use crate::error::DbError;
use crate::stat_server::api_key::key_accepted;
use crate::stat_server::board_laws::is_json_answer;
use crate::stat_server::cache::CachedView;
use crate::stat_server::http::{Method, ResponseView};
use crate::stat_server::matches::{matches_text, DbMatchRecord};
use crate::stat_server::operator::{
    set_rank_step, verify_step, SetRankAnswers, VerifyAnswers,
};
use crate::stat_server::players::{
    matches_answer, player_matches_step, player_ranks_step, PlayerMatchesAnswers,
    PlayerRanksAnswers,
};
use crate::stat_server::types::{
    AdminSetRankRequest, DocumentView, EditError, ExternalUserVerifyRequest, StatQuery,
    StatStepView,
};
use crate::stat_server::usage::{usage_kept, usage_step, usage_text, GameTracker};
use vstd::prelude::*;
use vstd::utf8::*;

verus! {

/// Whether a response reports an error: by its status, and by its code in JSON.
pub open spec fn is_error(response: ResponseView, status: u16, code: Seq<char>) -> bool {
    &&& response.status == status
    &&& response.json
    &&& !response.cross_origin
    &&& !response.preflight
    &&& response.body == "{\"error\":\""@ + code + "\"}"@
}

/// Whether a request is let in by the operator key: it presents that very key.
pub open spec fn has_the_key(key: Option<&str>, expected: Seq<char>) -> bool {
    key matches Some(presented) && presented@ == expected
}

/// A request without a key is let in by none, and one with a key by that key
/// alone.
pub proof fn law_only_the_very_key_lets_in(key: Option<&str>, expected: Seq<char>)
    ensures
        key_accepted(key, expected) <==> has_the_key(key, expected),
{
}

/// Whether the title that `text` names is `com_id`: its bytes are those of the
/// text.
pub open spec fn is_title(text: Seq<char>, com_id: ComId) -> bool {
    com_id@ == encode_utf8(text)
}

/// A text names a title exactly where it has twelve bytes, and the title has the
/// same bytes.
pub proof fn law_titles_are_spelled_by_their_bytes(text: Seq<char>)
    ensures
        spelled_com_id(text) is Some <==> encode_utf8(text).len() == 12,
        spelled_com_id(text) matches Some(com_id) ==> is_title(text, com_id),
{
    if let Some(com_id) = spelled_com_id(text) {
        assert(com_id@ =~= encode_utf8(text));
    }
}

/// Whether a request to check credentials is complete.
pub open spec fn is_complete(request: Option<ExternalUserVerifyRequest>) -> bool {
    request matches Some(r) && r.username@.len() > 0 && r.password@.len() > 0
}

/// Checking credentials, step by step. Without POST or the key the request is
/// turned away; then its body is read, the account is looked up by the very name
/// and password in it, and what was found of the account is told.
pub proof fn law_checking_credentials(
    method: Method,
    key: Option<&str>,
    expected: Seq<char>,
    got: VerifyAnswers,
)
    ensures
        ({
            let let_in = method == Method::Post && has_the_key(key, expected);
            let complete = let_in && got.request is Some && is_complete(got.request->0);
            let request = got.request->0->0;
            match verify_step(method, key, expected, &got) {
                StatStepView::Ask(StatQuery::ReadVerifyRequest { max_size }) => {
                    &&& let_in
                    &&& got.request is None
                    &&& max_size == 4096
                },
                StatStepView::Ask(StatQuery::CheckUser { username, password }) => {
                    &&& complete
                    &&& got.user is None
                    &&& username@ == request.username@
                    &&& password@ == request.password@
                },
                StatStepView::Ask(_) => false,
                StatStepView::Encode(
                    DocumentView::VerifiedUser {
                        user_id,
                        username,
                        online_name,
                        avatar_url,
                        admin,
                        banned,
                    },
                ) => complete && got.json is None && (got.user matches Some(Ok(user)) && {
                    &&& user_id == user.user_id
                    &&& username == user.username@
                    &&& online_name == user.online_name@
                    &&& avatar_url == user.avatar_url@
                    &&& admin == user.admin
                    &&& banned == user.banned
                }),
                StatStepView::Encode(_) => false,
                StatStepView::Respond(response) => {
                    ||| method != Method::Post && is_error(response, 405, "method_not_allowed"@)
                    ||| method == Method::Post && !has_the_key(key, expected) && is_error(
                        response,
                        403,
                        "forbidden"@,
                    )
                    ||| let_in && got.request is Some && !is_complete(got.request->0) && is_error(
                        response,
                        400,
                        "invalid_request"@,
                    )
                    ||| complete && (got.user matches Some(Err(why)) && (why == DbError::Empty
                        || why == DbError::WrongPass)) && is_error(
                        response,
                        401,
                        "invalid_credentials"@,
                    )
                    ||| complete && (got.user matches Some(Err(why)) && why != DbError::Empty && why
                        != DbError::WrongPass) && is_error(response, 500, "internal_error"@)
                    ||| complete && (got.user matches Some(Ok(_))) && (got.json matches Some(text)
                        && is_json_answer(response, text@))
                },
            }
        }),
{
}

/// Whether a lookup that failed is answered as it should be: nothing found, or the
/// database failed.
pub open spec fn tells_failure(response: ResponseView, why: DbError) -> bool {
    if why == DbError::Empty {
        is_error(response, 404, "not_found"@)
    } else {
        is_error(response, 500, "internal_error"@)
    }
}

/// Whether a request to set a rank names an account and a title.
pub open spec fn names_target(request: Option<AdminSetRankRequest>) -> bool {
    request matches Some(r) && r.npid@.len() > 0 && encode_utf8(r.com_id@).len() == 12
}

/// Whether somebody is among players.
pub open spec fn is_among(players: Option<Vec<String>>, name: Seq<char>) -> bool {
    players matches Some(names) && exists|i: int|
        0 <= i < names@.len() && (#[trigger] names@[i])@ == name
}

/// Whether a request to set a rank is let in and makes sense.
pub open spec fn edit_makes_sense(
    method: Method,
    key: Option<&str>,
    expected: Seq<char>,
    got: SetRankAnswers,
) -> bool {
    &&& method == Method::Post
    &&& has_the_key(key, expected)
    &&& got.request is Some
    &&& names_target(got.request->0)
    &&& got.request->0->0.character < 59
}

/// Whether, on top of that, the account and its slot have been found and it is
/// not connected, or the request insists.
pub open spec fn edit_has_target(
    method: Method,
    key: Option<&str>,
    expected: Seq<char>,
    got: SetRankAnswers,
) -> bool {
    &&& edit_makes_sense(method, key, expected, got)
    &&& got.user_id matches Some(Ok(_))
    &&& got.online_name matches Some(Ok(_))
    &&& got.slot_data matches Some(Ok(_))
    &&& got.request->0->0.force || (got.players is Some && !is_among(
        got.players->0,
        got.online_name->0->Ok_0@,
    ))
}

/// Whether, on top of that, the save has been read and edited.
pub open spec fn edit_is_made(
    method: Method,
    key: Option<&str>,
    expected: Seq<char>,
    got: SetRankAnswers,
) -> bool {
    &&& edit_has_target(method, key, expected, got)
    &&& got.save matches Some(Some(_))
    &&& got.edited matches Some(Ok(_))
}

/// Whether, on top of that, the new save is in place.
pub open spec fn edit_is_stored(
    method: Method,
    key: Option<&str>,
    expected: Seq<char>,
    got: SetRankAnswers,
) -> bool {
    &&& edit_is_made(method, key, expected, got)
    &&& got.data_id matches Some(data_id) && data_id != 0
    &&& got.timestamp is Some
    &&& got.stored matches Some(Ok(_))
}

/// Setting a rank, question by question: what the host is asked, when, and what
/// it is handed.
pub proof fn law_setting_a_rank_asks(
    method: Method,
    key: Option<&str>,
    expected: Seq<char>,
    got: SetRankAnswers,
)
    ensures
        set_rank_step(method, key, expected, &got) matches StatStepView::Ask(query) ==> {
            let let_in = method == Method::Post && has_the_key(key, expected);
            let sensible = edit_makes_sense(method, key, expected, got);
            let has_target = edit_has_target(method, key, expected, got);
            let made = edit_is_made(method, key, expected, got);
            let in_place = edit_is_stored(method, key, expected, got);
            let request = got.request->0->0;
            let account = got.user_id->0->Ok_0;
            let edited = got.edited->0->Ok_0;
            match query {
                StatQuery::ReadSetRankRequest { max_size } => {
                    &&& let_in
                    &&& got.request is None
                    &&& max_size == 4096
                },
                StatQuery::UserId { npid } => {
                    &&& sensible
                    &&& got.user_id is None
                    &&& npid@ == request.npid@
                },
                StatQuery::OnlineName { user_id } => {
                    &&& sensible
                    &&& got.user_id == Some(Ok::<i64, DbError>(user_id))
                    &&& got.online_name is None
                },
                StatQuery::SlotData { com_id, user_id, slot } => {
                    &&& sensible
                    &&& is_title(request.com_id@, com_id)
                    &&& got.user_id == Some(Ok::<i64, DbError>(user_id))
                    &&& got.online_name matches Some(Ok(_))
                    &&& got.slot_data is None
                    &&& slot == request.slot
                },
                StatQuery::Players { com_id } => {
                    &&& sensible
                    &&& is_title(request.com_id@, com_id)
                    &&& got.slot_data matches Some(Ok(_))
                    &&& !request.force
                    &&& got.players is None
                },
                StatQuery::ReadSave { data_id } => {
                    &&& has_target
                    &&& got.save is None
                    &&& got.slot_data matches Some(Ok((current, _))) && data_id == current
                },
                StatQuery::EditSave { com_id, save, character, rank, rank_points } => {
                    &&& has_target
                    &&& got.edited is None
                    &&& is_title(request.com_id@, com_id)
                    &&& got.save matches Some(Some(current)) && save@ == current@
                    &&& character == request.character
                    &&& rank == request.rank
                    &&& rank_points == request.rank_points
                },
                StatQuery::CreateSave { save } => {
                    &&& made
                    &&& got.data_id is None
                    &&& save@ == edited.save@
                },
                StatQuery::Timestamp => {
                    &&& made
                    &&& got.data_id matches Some(data_id) && data_id != 0
                    &&& got.timestamp is None
                },
                StatQuery::SetSlotData {
                    com_id,
                    user_id,
                    slot,
                    data_id,
                    info,
                    author_id,
                    timestamp,
                } => {
                    &&& made
                    &&& got.stored is None
                    &&& is_title(request.com_id@, com_id)
                    &&& user_id == account
                    &&& slot == request.slot
                    &&& data_id != 0 && got.data_id == Some(data_id)
                    &&& got.slot_data matches Some(Ok((_, blob))) && match info {
                        Some(kept) => blob@.len() > 0 && kept@ == blob@,
                        None => blob@.len() == 0,
                    }
                    &&& author_id == account
                    &&& got.timestamp == Some(timestamp)
                },
                StatQuery::RecordHistory { com_id, user_id, slot, data_id, timestamp } => {
                    &&& in_place
                    &&& !got.recorded
                    &&& is_title(request.com_id@, com_id)
                    &&& user_id == account
                    &&& slot == request.slot
                    &&& got.data_id == Some(data_id)
                    &&& got.timestamp == Some(timestamp)
                },
                StatQuery::ReadRanks { com_id, save } => {
                    &&& in_place
                    &&& got.recorded
                    &&& request.rank_points is None
                    &&& got.ranks is None
                    &&& is_title(request.com_id@, com_id)
                    &&& save@ == edited.save@
                },
                _ => false,
            }
        },
{
    if let Some(Some(request)) = got.request {
        law_titles_are_spelled_by_their_bytes(request.com_id@);
    }
}

/// Whether the points in a report are those of the request or, where it gives
/// none, those that the new save holds for the character.
pub open spec fn are_current_points(points: u16, got: SetRankAnswers) -> bool {
    let request = got.request->0->0;
    match request.rank_points {
        Some(asked) => points == asked,
        None => match got.ranks {
            Some(Some(ranks)) if request.character < ranks@.len() => points
                == ranks@[request.character as int].rank_points,
            Some(_) => points == 0,
            None => false,
        },
    }
}

/// Setting a rank, end by end: what is reported, and why it fails.
pub proof fn law_setting_a_rank_ends(
    method: Method,
    key: Option<&str>,
    expected: Seq<char>,
    got: SetRankAnswers,
)
    ensures
        ({
            let let_in = method == Method::Post && has_the_key(key, expected);
            let sensible = edit_makes_sense(method, key, expected, got);
            let has_target = edit_has_target(method, key, expected, got);
            let made = edit_is_made(method, key, expected, got);
            let finished = edit_is_stored(method, key, expected, got) && got.recorded && (
            got.request->0->0.rank_points is Some || got.ranks is Some);
            let request = got.request->0->0;
            match set_rank_step(method, key, expected, &got) {
                StatStepView::Ask(_) => true,
                StatStepView::Encode(
                    DocumentView::SetRank { npid, character, previous, current, data_id },
                ) => {
                    &&& finished
                    &&& got.json is None
                    &&& npid == request.npid@
                    &&& character == request.character
                    &&& got.edited matches Some(Ok(edited)) && previous.rank
                        == edited.previous.rank && previous.rank_points
                        == edited.previous.rank_points
                    &&& current.rank == request.rank
                    &&& are_current_points(current.rank_points, got)
                    &&& got.data_id == Some(data_id)
                },
                StatStepView::Encode(_) => false,
                StatStepView::Respond(response) => {
                    ||| method != Method::Post && is_error(response, 405, "method_not_allowed"@)
                    ||| method == Method::Post && !has_the_key(key, expected) && is_error(
                        response,
                        403,
                        "forbidden"@,
                    )
                    ||| let_in && got.request is Some && !names_target(got.request->0) && is_error(
                        response,
                        400,
                        "invalid_request"@,
                    )
                    ||| let_in && got.request is Some && names_target(got.request->0)
                        && request.character >= 59 && is_error(response, 400, "no_such_character"@)
                    ||| sensible && (got.user_id matches Some(Err(why)) && tells_failure(
                        response,
                        why,
                    ))
                    ||| sensible && (got.user_id matches Some(Ok(_))) && (
                    got.online_name matches Some(Err(why)) && tells_failure(response, why))
                    ||| sensible && (got.user_id matches Some(Ok(_))) && (
                    got.online_name matches Some(Ok(_))) && (got.slot_data matches Some(Err(why))
                        && tells_failure(response, why))
                    ||| sensible && (got.user_id matches Some(Ok(_))) && (
                    got.online_name matches Some(Ok(name)) && got.players is Some && is_among(
                        got.players->0,
                        name@,
                    )) && (got.slot_data matches Some(Ok(_))) && !request.force && is_error(
                        response,
                        409,
                        "player_online"@,
                    )
                    ||| has_target && got.save == Some(None::<Vec<u8>>) && is_error(
                        response,
                        500,
                        "save_unreadable"@,
                    )
                    ||| has_target && (got.save matches Some(Some(_))) && (
                    got.edited matches Some(Err(why)) && match why {
                        EditError::UnsupportedTitle => is_error(
                            response,
                            400,
                            "unsupported_title"@,
                        ),
                        EditError::NoSuchCharacter => is_error(
                            response,
                            400,
                            "no_such_character"@,
                        ),
                        EditError::MalformedSave => is_error(response, 409, "malformed_save"@),
                    })
                    ||| made && got.data_id == Some(0u64) && is_error(
                        response,
                        500,
                        "save_not_written"@,
                    )
                    ||| made && (got.data_id matches Some(data_id) && data_id != 0)
                        && got.timestamp is Some && (got.stored matches Some(Err(_))) && is_error(
                        response,
                        500,
                        "internal_error"@,
                    )
                    ||| finished && (got.json matches Some(Some(text)) && is_json_answer(
                        response,
                        text@,
                    ))
                    ||| finished && got.json == Some(None::<String>) && is_error(
                        response,
                        500,
                        "internal_error"@,
                    )
                },
            }
        }),
{
    if let Some(Some(request)) = got.request {
        law_titles_are_spelled_by_their_bytes(request.com_id@);
    }
}

/// Matches that were looked up are listed as they were found, and a database that
/// failed is reported.
pub proof fn law_matches_are_answered(looked_up: Result<Vec<DbMatchRecord>, DbError>)
    ensures
        match looked_up {
            Ok(list) => is_json_answer(matches_answer(looked_up), matches_text(list@)),
            Err(_) => is_error(matches_answer(looked_up), 500, "internal_error"@),
        },
{
}

/// The matches of a player, step by step. The name is checked, the account is
/// looked up, and then the matches of that account are asked for and told.
pub proof fn law_requests_for_matches(npid: String, limit: u32, got: PlayerMatchesAnswers)
    ensures
        match player_matches_step(&npid, limit, &got) {
            StatStepView::Ask(StatQuery::IsValidUsername { npid: name }) => got.valid is None
                && name@ == npid@,
            StatStepView::Ask(StatQuery::UserId { npid: name }) => {
                &&& got.valid == Some(true)
                &&& got.user_id is None
                &&& name@ == npid@
            },
            StatStepView::Ask(StatQuery::UserMatches { user_id, limit: most }) => {
                &&& got.valid == Some(true)
                &&& got.user_id == Some(Ok::<i64, DbError>(user_id))
                &&& got.matches is None
                &&& most == limit
            },
            StatStepView::Ask(_) => false,
            StatStepView::Encode(_) => false,
            StatStepView::Respond(response) => {
                ||| got.valid == Some(false) && is_error(response, 400, "invalid_npid"@)
                ||| got.valid == Some(true) && (got.user_id matches Some(Err(why))
                    && tells_failure(response, why))
                ||| got.valid == Some(true) && (got.user_id matches Some(Ok(_))) && (
                got.matches matches Some(Ok(list)) && is_json_answer(
                    response,
                    matches_text(list@),
                ))
                ||| got.valid == Some(true) && (got.user_id matches Some(Ok(_))) && (
                got.matches matches Some(Err(_))) && is_error(response, 500, "internal_error"@)
            },
        },
{
}

/// The ranks of a player, step by step. The name and the title are checked, the
/// account and its slot are looked up, the save is read, and the ranks and the
/// record in it are told as they were found.
pub proof fn law_requests_for_ranks(
    npid: String,
    com_id_text: Seq<char>,
    slot: i32,
    got: PlayerRanksAnswers,
)
    ensures
        ({
            let sensible = got.valid == Some(true) && encode_utf8(com_id_text).len() == 12;
            let named = sensible && (got.user_id matches Some(Ok(_)));
            let found = named && (got.online_name matches Some(Ok(_))) && (
            got.slot_data matches Some(Ok(_)));
            let read = found && (got.save matches Some(Some(_)));
            let ranked = read && (got.ranks matches Some(Ok(_)));
            let finished = ranked && got.record is Some;
            match player_ranks_step(&npid, com_id_text, slot, &got) {
                StatStepView::Ask(StatQuery::IsValidUsername { npid: name }) => got.valid is None
                    && name@ == npid@,
                StatStepView::Ask(StatQuery::UserId { npid: name }) => {
                    &&& sensible
                    &&& got.user_id is None
                    &&& name@ == npid@
                },
                StatStepView::Ask(StatQuery::OnlineName { user_id }) => {
                    &&& sensible
                    &&& got.user_id == Some(Ok::<i64, DbError>(user_id))
                    &&& got.online_name is None
                },
                StatStepView::Ask(StatQuery::SlotData { com_id, user_id, slot: of_slot }) => {
                    &&& sensible
                    &&& is_title(com_id_text, com_id)
                    &&& got.user_id == Some(Ok::<i64, DbError>(user_id))
                    &&& got.online_name matches Some(Ok(_))
                    &&& got.slot_data is None
                    &&& of_slot == slot
                },
                StatStepView::Ask(StatQuery::ReadSave { data_id }) => {
                    &&& found
                    &&& got.save is None
                    &&& got.slot_data matches Some(Ok((current, _))) && data_id == current
                },
                StatStepView::Ask(StatQuery::ReadRanks { com_id, save }) => {
                    &&& read
                    &&& got.ranks is None
                    &&& is_title(com_id_text, com_id)
                    &&& save@ == got.save->0->0@
                },
                StatStepView::Ask(StatQuery::AccountRecord { com_id, save }) => {
                    &&& ranked
                    &&& got.record is None
                    &&& is_title(com_id_text, com_id)
                    &&& save@ == got.save->0->0@
                },
                StatStepView::Ask(_) => false,
                StatStepView::Encode(
                    DocumentView::Ranks {
                        npid: name,
                        online_name,
                        com_id,
                        slot: of_slot,
                        data_id,
                        record,
                        characters,
                    },
                ) => {
                    &&& finished
                    &&& got.json is None
                    &&& name == npid@
                    &&& online_name == got.online_name->0->Ok_0@
                    &&& com_id == com_id_text
                    &&& of_slot == slot
                    &&& got.slot_data matches Some(Ok((current, _))) && data_id == current
                    &&& match got.record->0 {
                        Some((wins, losses)) => record matches Some(r) && r.wins == wins
                            && r.losses == losses,
                        None => record is None,
                    }
                    &&& characters == got.ranks->0->Ok_0@
                },
                StatStepView::Encode(_) => false,
                StatStepView::Respond(response) => {
                    ||| got.valid is Some && !sensible && is_error(
                        response,
                        400,
                        "invalid_request"@,
                    )
                    ||| sensible && (got.user_id matches Some(Err(why)) && tells_failure(
                        response,
                        why,
                    ))
                    ||| named && (got.online_name matches Some(Err(why)) && tells_failure(
                        response,
                        why,
                    ))
                    ||| named && (got.online_name matches Some(Ok(_))) && (
                    got.slot_data matches Some(Err(why)) && tells_failure(response, why))
                    ||| found && got.save == Some(None::<Vec<u8>>) && is_error(
                        response,
                        500,
                        "save_unreadable"@,
                    )
                    ||| read && (got.ranks matches Some(Err(why)) && if why
                        == EditError::UnsupportedTitle {
                        is_error(response, 400, "unsupported_title"@)
                    } else {
                        is_error(response, 409, "malformed_save"@)
                    })
                    ||| finished && (got.json matches Some(Some(text)) && is_json_answer(
                        response,
                        text@,
                    ))
                    ||| finished && got.json == Some(None::<String>) && is_error(
                        response,
                        500,
                        "internal_error"@,
                    )
                },
            }
        }),
{
    law_titles_are_spelled_by_their_bytes(com_id_text);
}

/// The usage summary, step by step. The public one is served out of the cache
/// while it is fresh, and is kept when it is built. An operator gets a summary of
/// the moment, which is not kept.
pub proof fn law_requests_for_usage(
    cache_life: u32,
    kept: CachedView,
    include_ips: bool,
    now: u32,
    tracker: Option<&GameTracker>,
)
    ensures
        ({
            let fresh = cache_life > 0 && !include_ips && now <= kept.timestamp + cache_life;
            let after = usage_kept(cache_life, kept, include_ips, now, tracker);
            match usage_step(cache_life, kept, include_ips, now, tracker) {
                StatStepView::Ask(query) => {
                    &&& query is GameTracker
                    &&& !fresh
                    &&& tracker is None
                    &&& after == kept
                },
                StatStepView::Encode(_) => false,
                StatStepView::Respond(response) => if fresh {
                    response == kept.response && after == kept
                } else {
                    &&& tracker matches Some(t) && is_json_answer(
                        response,
                        usage_text(*t, include_ips),
                    )
                    &&& if cache_life > 0 && !include_ips {
                        after.timestamp == now && after.response == response
                    } else {
                        after == kept
                    }
                },
            }
        }),
{
}

} // verus!
