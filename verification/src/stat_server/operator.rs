//! The endpoints that take the operator key: checking a user's credentials and
//! setting a character's rank.

use crate::com_id::{com_id_from_str, spelled_com_id, ComId};
use crate::error::DbError;
use crate::game_specific_tus::CHARACTERS;
use crate::stat_server::api_key::key_accepted;
use crate::stat_server::http::{
    error, json, HttpResponse, Method, ResponseView, BAD_REQUEST, CONFLICT, FORBIDDEN,
    INTERNAL_SERVER_ERROR, METHOD_NOT_ALLOWED, NOT_FOUND, OK, UNAUTHORIZED,
};
use crate::stat_server::server::StatServer;
use crate::stat_server::types::{
    AdminCharacterRank, AdminSetRankRequest, AdminSetRankResponse, CharacterRank, Document,
    DocumentView, EditError, ExternalUserVerifyRequest, ExternalUserVerifyResponse, StatQuery,
    StatStep, StatStepView, UserInfo, EXTERNAL_USER_API_MAX_BODY_SIZE,
};
use crate::text::same_text;
use vstd::prelude::*;
use vstd::string::*;

verus! {

/// Why a request to an operator endpoint is turned away before its body is even
/// read: only POST is served, and only with the operator key.
pub open spec fn turned_away(method: Method, key: Option<&str>, expected: Seq<char>) -> Option<
    ResponseView,
> {
    if method != Method::Post {
        Some(error(METHOD_NOT_ALLOWED, "method_not_allowed"@))
    } else if !key_accepted(key, expected) {
        Some(error(FORBIDDEN, "forbidden"@))
    } else {
        None
    }
}

fn turn_away(method: Method, key: Option<&str>, expected: &str) -> (response: Option<HttpResponse>)
    ensures
        match response {
            Some(r) => turned_away(method, key, expected@) == Some(r@),
            None => turned_away(method, key, expected@) is None,
        },
{
    if method != Method::Post {
        Some(StatServer::error_response(METHOD_NOT_ALLOWED, "method_not_allowed"))
    } else if !StatServer::is_authorized(key, expected) {
        Some(StatServer::error_response(FORBIDDEN, "forbidden"))
    } else {
        None
    }
}

/// What is known while credentials are being checked.
#[derive(Debug)]
pub struct VerifyAnswers {
    /// The body of the request, where it could be read.
    pub request: Option<Option<ExternalUserVerifyRequest>>,
    /// The account that the credentials belong to.
    pub user: Option<Result<UserInfo, DbError>>,
    /// The account as JSON.
    pub json: Option<String>,
}

impl VerifyAnswers {
    /// What is known at the start: nothing.
    pub fn new() -> (answers: VerifyAnswers)
        ensures
            answers == (VerifyAnswers { request: None, user: None, json: None }),
    {
        VerifyAnswers { request: None, user: None, json: None }
    }
}

/// Whether a request names a user and a password.
pub open spec fn is_valid_verify(request: ExternalUserVerifyRequest) -> bool {
    request.username@.len() > 0 && request.password@.len() > 0
}

/// What is told of an account to whoever presents its credentials.
pub open spec fn verified_user(user: UserInfo) -> DocumentView {
    DocumentView::VerifiedUser {
        user_id: user.user_id,
        username: user.username@,
        online_name: user.online_name@,
        avatar_url: user.avatar_url@,
        admin: user.admin,
        banned: user.banned,
    }
}

/// How a request to check credentials goes on.
pub open spec fn verify_step<'a>(
    method: Method,
    key: Option<&str>,
    expected: Seq<char>,
    got: &'a VerifyAnswers,
) -> StatStepView<'a> {
    match turned_away(method, key, expected) {
        Some(response) => StatStepView::Respond(response),
        None => match got.request {
            None => StatStepView::Ask(
                StatQuery::ReadVerifyRequest { max_size: EXTERNAL_USER_API_MAX_BODY_SIZE },
            ),
            Some(Some(request)) if is_valid_verify(request) => match got.user {
                None => StatStepView::Ask(
                    StatQuery::CheckUser {
                        username: &request.username,
                        password: &request.password,
                    },
                ),
                Some(Ok(user)) => match got.json {
                    None => StatStepView::Encode(verified_user(user)),
                    Some(text) => StatStepView::Respond(json(OK, text@)),
                },
                Some(Err(DbError::Empty)) | Some(Err(DbError::WrongPass)) => StatStepView::Respond(
                    error(UNAUTHORIZED, "invalid_credentials"@),
                ),
                Some(Err(_)) => StatStepView::Respond(
                    error(INTERNAL_SERVER_ERROR, "internal_error"@),
                ),
            },
            _ => StatStepView::Respond(error(BAD_REQUEST, "invalid_request"@)),
        },
    }
}

impl StatServer {
    /// Checks a user's credentials for an operator. `key` is the request's
    /// `X-API-Key` header, where it has one that is text.
    pub fn handle_external_user_verify_req<'a>(
        method: Method,
        key: Option<&str>,
        external_user_api_key: &str,
        got: &'a VerifyAnswers,
    ) -> (step: StatStep<'a>)
        ensures
            step@ == verify_step(method, key, external_user_api_key@, got),
    {
        if let Some(response) = turn_away(method, key, external_user_api_key) {
            return StatStep::Respond(response);
        }
        let request: &'a ExternalUserVerifyRequest = match &got.request {
            None => return StatStep::Ask(
                StatQuery::ReadVerifyRequest { max_size: EXTERNAL_USER_API_MAX_BODY_SIZE },
            ),
            Some(Some(request)) => request,
            Some(None) => return StatStep::Respond(
                StatServer::error_response(BAD_REQUEST, "invalid_request"),
            ),
        };
        if request.username.as_str().is_empty() || request.password.as_str().is_empty() {
            return StatStep::Respond(StatServer::error_response(BAD_REQUEST, "invalid_request"));
        }
        match &got.user {
            None => StatStep::Ask(
                StatQuery::CheckUser { username: &request.username, password: &request.password },
            ),
            Some(Ok(user)) => match &got.json {
                None => StatStep::Encode(
                    Document::VerifiedUser(
                        ExternalUserVerifyResponse {
                            user_id: user.user_id,
                            username: user.username.clone(),
                            online_name: user.online_name.clone(),
                            avatar_url: user.avatar_url.clone(),
                            admin: user.admin,
                            banned: user.banned,
                        },
                    ),
                ),
                Some(text) => StatStep::Respond(StatServer::json_response(OK, text.clone())),
            },
            Some(Err(DbError::Empty)) | Some(Err(DbError::WrongPass)) => StatStep::Respond(
                StatServer::error_response(UNAUTHORIZED, "invalid_credentials"),
            ),
            Some(Err(_)) => StatStep::Respond(
                StatServer::error_response(INTERNAL_SERVER_ERROR, "internal_error"),
            ),
        }
    }
}

/// A save with the rank of one character changed, and the rank it had.
#[derive(Debug)]
pub struct EditedSave {
    pub save: Vec<u8>,
    pub previous: CharacterRank,
}

/// What is known while a rank is being set.
#[derive(Debug)]
pub struct SetRankAnswers {
    /// The body of the request, where it could be read.
    pub request: Option<Option<AdminSetRankRequest>>,
    /// The account that the request names.
    pub user_id: Option<Result<i64, DbError>>,
    pub online_name: Option<Result<String, DbError>>,
    /// The save that the slot points at, and its info blob.
    pub slot_data: Option<Result<(u64, Vec<u8>), DbError>>,
    /// The names of the title's players, if the title is tracked.
    pub players: Option<Option<Vec<String>>>,
    /// The save, where it could be read.
    pub save: Option<Option<Vec<u8>>>,
    /// The save with the rank changed.
    pub edited: Option<Result<EditedSave, EditError>>,
    /// The id of the new save.
    pub data_id: Option<u64>,
    pub timestamp: Option<u64>,
    /// Whether the slot now points at the new save.
    pub stored: Option<Result<(), DbError>>,
    /// Whether the history has been dealt with.
    pub recorded: bool,
    /// The ranks in the new save, where they could be read.
    pub ranks: Option<Option<Vec<CharacterRank>>>,
    /// The answer as JSON, where it could be written.
    pub json: Option<Option<String>>,
}

impl SetRankAnswers {
    /// Nothing is known yet.
    pub open spec fn none() -> SetRankAnswers {
        SetRankAnswers {
            request: None,
            user_id: None,
            online_name: None,
            slot_data: None,
            players: None,
            save: None,
            edited: None,
            data_id: None,
            timestamp: None,
            stored: None,
            recorded: false,
            ranks: None,
            json: None,
        }
    }

    /// What is known at the start: nothing.
    pub fn new() -> (answers: SetRankAnswers)
        ensures
            answers == SetRankAnswers::none(),
    {
        SetRankAnswers {
            request: None,
            user_id: None,
            online_name: None,
            slot_data: None,
            players: None,
            save: None,
            edited: None,
            data_id: None,
            timestamp: None,
            stored: None,
            recorded: false,
            ranks: None,
            json: None,
        }
    }
}

/// Whether a request names an account and, by its length, a title.
pub open spec fn is_valid_set_rank(request: AdminSetRankRequest) -> bool {
    request.npid@.len() > 0 && spelled_com_id(request.com_id@) is Some
}

/// Whether somebody is among a title's players.
pub open spec fn is_online(players: Option<Vec<String>>, online_name: Seq<char>) -> bool {
    players matches Some(names) && exists|i: int|
        0 <= i < names@.len() && (#[trigger] names@[i])@ == online_name
}

/// The answer to a lookup that failed: nothing was found, or the database
/// failed.
pub open spec fn lookup_failure(e: DbError) -> ResponseView {
    if e == DbError::Empty {
        error(NOT_FOUND, "not_found"@)
    } else {
        error(INTERNAL_SERVER_ERROR, "internal_error"@)
    }
}

/// The answer to an edit that failed.
pub open spec fn edit_failure(e: EditError) -> ResponseView {
    match e {
        EditError::UnsupportedTitle => error(BAD_REQUEST, "unsupported_title"@),
        EditError::NoSuchCharacter => error(BAD_REQUEST, "no_such_character"@),
        EditError::MalformedSave => error(CONFLICT, "malformed_save"@),
    }
}

/// The request, once its body has been read and makes sense.
pub open spec fn accepted_request<'a>(
    method: Method,
    key: Option<&str>,
    expected: Seq<char>,
    got: &'a SetRankAnswers,
) -> Result<&'a AdminSetRankRequest, StatStepView<'a>> {
    match turned_away(method, key, expected) {
        Some(response) => Err(StatStepView::Respond(response)),
        None => match got.request {
            None => Err(
                StatStepView::Ask(
                    StatQuery::ReadSetRankRequest { max_size: EXTERNAL_USER_API_MAX_BODY_SIZE },
                ),
            ),
            Some(Some(request)) if is_valid_set_rank(request) => if request.character
                >= CHARACTERS {
                Err(StatStepView::Respond(error(BAD_REQUEST, "no_such_character"@)))
            } else {
                Ok(&request)
            },
            _ => Err(StatStepView::Respond(error(BAD_REQUEST, "invalid_request"@))),
        },
    }
}

/// The account, the id of its save and the slot's info blob, once they have been
/// looked up and the account may be written to: unless the request insists, only
/// while it is not connected.
pub open spec fn target<'a>(
    request: &'a AdminSetRankRequest,
    com_id: ComId,
    got: &'a SetRankAnswers,
) -> Result<(i64, u64, &'a Vec<u8>), StatStepView<'a>> {
    match got.user_id {
        None => Err(StatStepView::Ask(StatQuery::UserId { npid: &request.npid })),
        Some(Err(e)) => Err(StatStepView::Respond(lookup_failure(e))),
        Some(Ok(user_id)) => match got.online_name {
            None => Err(StatStepView::Ask(StatQuery::OnlineName { user_id })),
            Some(Err(e)) => Err(StatStepView::Respond(lookup_failure(e))),
            Some(Ok(online_name)) => match got.slot_data {
                None => Err(
                    StatStepView::Ask(
                        StatQuery::SlotData { com_id, user_id, slot: request.slot },
                    ),
                ),
                Some(Err(e)) => Err(StatStepView::Respond(lookup_failure(e))),
                Some(Ok((data_id, info))) => if request.force {
                    Ok((user_id, data_id, &info))
                } else {
                    match got.players {
                        None => Err(StatStepView::Ask(StatQuery::Players { com_id })),
                        Some(players) => if is_online(players, online_name@) {
                            Err(StatStepView::Respond(error(CONFLICT, "player_online"@)))
                        } else {
                            Ok((user_id, data_id, &info))
                        },
                    }
                },
            },
        },
    }
}

/// The edited save, once the save has been read and edited.
pub open spec fn edited_save<'a>(
    request: &'a AdminSetRankRequest,
    com_id: ComId,
    previous_data_id: u64,
    got: &'a SetRankAnswers,
) -> Result<&'a EditedSave, StatStepView<'a>> {
    match got.save {
        None => Err(StatStepView::Ask(StatQuery::ReadSave { data_id: previous_data_id })),
        Some(None) => Err(
            StatStepView::Respond(error(INTERNAL_SERVER_ERROR, "save_unreadable"@)),
        ),
        Some(Some(save)) => match got.edited {
            None => Err(
                StatStepView::Ask(
                    StatQuery::EditSave {
                        com_id,
                        save: &save,
                        character: request.character,
                        rank: request.rank,
                        rank_points: request.rank_points,
                    },
                ),
            ),
            Some(Err(e)) => Err(StatStepView::Respond(edit_failure(e))),
            Some(Ok(edited)) => Ok(&edited),
        },
    }
}

/// The info blob that the slot keeps: it is carried over untouched, only the
/// save behind it changed.
pub open spec fn kept_info<'a>(info: &'a Vec<u8>) -> Option<&'a Vec<u8>> {
    if info@.len() == 0 {
        None
    } else {
        Some(info)
    }
}

/// The id of the new save, once it has been written, the slot points at it and
/// its history has been dealt with.
pub open spec fn stored_save<'a>(
    request: &'a AdminSetRankRequest,
    com_id: ComId,
    user_id: i64,
    info: &'a Vec<u8>,
    edited: &'a EditedSave,
    got: &'a SetRankAnswers,
) -> Result<u64, StatStepView<'a>> {
    match got.data_id {
        None => Err(StatStepView::Ask(StatQuery::CreateSave { save: &edited.save })),
        Some(0) => Err(StatStepView::Respond(error(INTERNAL_SERVER_ERROR, "save_not_written"@))),
        Some(data_id) => match got.timestamp {
            None => Err(StatStepView::Ask(StatQuery::Timestamp)),
            Some(timestamp) => match got.stored {
                None => Err(
                    StatStepView::Ask(
                        StatQuery::SetSlotData {
                            com_id,
                            user_id,
                            slot: request.slot,
                            data_id,
                            info: kept_info(info),
                            author_id: user_id,
                            timestamp,
                        },
                    ),
                ),
                Some(Err(_)) => Err(
                    StatStepView::Respond(error(INTERNAL_SERVER_ERROR, "internal_error"@)),
                ),
                Some(Ok(_)) => if got.recorded {
                    Ok(data_id)
                } else {
                    Err(
                        StatStepView::Ask(
                            StatQuery::RecordHistory {
                                com_id,
                                user_id,
                                slot: request.slot,
                                data_id,
                                timestamp,
                            },
                        ),
                    )
                },
            },
        },
    }
}

/// The points that the character now has: those that the request gave, or those
/// that the edited save holds.
pub open spec fn current_points<'a>(
    request: &'a AdminSetRankRequest,
    com_id: ComId,
    edited: &'a EditedSave,
    got: &'a SetRankAnswers,
) -> Result<u16, StatStepView<'a>> {
    match request.rank_points {
        Some(points) => Ok(points),
        None => match got.ranks {
            None => Err(StatStepView::Ask(StatQuery::ReadRanks { com_id, save: &edited.save })),
            Some(Some(ranks)) if request.character < ranks@.len() => Ok(
                ranks@[request.character as int].rank_points,
            ),
            _ => Ok(0),
        },
    }
}

/// How a request to set a rank ends once all is done: its answer is written and
/// sent.
pub open spec fn set_rank_answer<'a>(
    request: &'a AdminSetRankRequest,
    edited: &'a EditedSave,
    points: u16,
    data_id: u64,
    got: &'a SetRankAnswers,
) -> StatStepView<'a> {
    match got.json {
        None => StatStepView::Encode(
            DocumentView::SetRank {
                npid: request.npid@,
                character: request.character,
                previous: AdminCharacterRank {
                    rank: edited.previous.rank,
                    rank_points: edited.previous.rank_points,
                },
                current: AdminCharacterRank { rank: request.rank, rank_points: points },
                data_id,
            },
        ),
        Some(Some(text)) => StatStepView::Respond(json(OK, text@)),
        Some(None) => StatStepView::Respond(error(INTERNAL_SERVER_ERROR, "internal_error"@)),
    }
}

/// How a request to set a rank goes on.
pub open spec fn set_rank_step<'a>(
    method: Method,
    key: Option<&str>,
    expected: Seq<char>,
    got: &'a SetRankAnswers,
) -> StatStepView<'a> {
    match accepted_request(method, key, expected, got) {
        Err(step) => step,
        Ok(request) => {
            let com_id = spelled_com_id(request.com_id@)->0;
            match target(request, com_id, got) {
                Err(step) => step,
                Ok((user_id, previous_data_id, info)) => match edited_save(
                    request,
                    com_id,
                    previous_data_id,
                    got,
                ) {
                    Err(step) => step,
                    Ok(edited) => match stored_save(request, com_id, user_id, info, edited, got) {
                        Err(step) => step,
                        Ok(data_id) => match current_points(request, com_id, edited, got) {
                            Err(step) => step,
                            Ok(points) => set_rank_answer(request, edited, points, data_id, got),
                        },
                    },
                },
            }
        },
    }
}

pub(crate) fn fail_lookup(e: DbError) -> (response: HttpResponse)
    ensures
        response@ == lookup_failure(e),
{
    if e == DbError::Empty {
        StatServer::error_response(NOT_FOUND, "not_found")
    } else {
        StatServer::error_response(INTERNAL_SERVER_ERROR, "internal_error")
    }
}

fn fail_edit(e: EditError) -> (response: HttpResponse)
    ensures
        response@ == edit_failure(e),
{
    match e {
        EditError::UnsupportedTitle => StatServer::error_response(
            BAD_REQUEST,
            "unsupported_title",
        ),
        EditError::NoSuchCharacter => StatServer::error_response(BAD_REQUEST, "no_such_character"),
        EditError::MalformedSave => StatServer::error_response(CONFLICT, "malformed_save"),
    }
}

fn accept_request<'a>(
    method: Method,
    key: Option<&str>,
    expected: &str,
    got: &'a SetRankAnswers,
) -> (accepted: Result<(&'a AdminSetRankRequest, ComId), StatStep<'a>>)
    ensures
        match (accepted, accepted_request(method, key, expected@, got)) {
            (Ok((a, com_id)), Ok(b)) => a == b && spelled_com_id(b.com_id@) == Some(com_id),
            (Err(a), Err(b)) => a@ == b,
            _ => false,
        },
{
    if let Some(response) = turn_away(method, key, expected) {
        return Err(StatStep::Respond(response));
    }
    let request: &'a AdminSetRankRequest = match &got.request {
        None => return Err(
            StatStep::Ask(
                StatQuery::ReadSetRankRequest { max_size: EXTERNAL_USER_API_MAX_BODY_SIZE },
            ),
        ),
        Some(Some(request)) => request,
        Some(None) => return Err(
            StatStep::Respond(StatServer::error_response(BAD_REQUEST, "invalid_request")),
        ),
    };
    let com_id: ComId = match com_id_from_str(request.com_id.as_str()) {
        Some(com_id) if !request.npid.as_str().is_empty() => com_id,
        _ => return Err(
            StatStep::Respond(StatServer::error_response(BAD_REQUEST, "invalid_request")),
        ),
    };
    if request.character >= CHARACTERS {
        return Err(
            StatStep::Respond(StatServer::error_response(BAD_REQUEST, "no_such_character")),
        );
    }
    Ok((request, com_id))
}

fn find_target<'a>(
    request: &'a AdminSetRankRequest,
    com_id: &ComId,
    got: &'a SetRankAnswers,
) -> (found: Result<(i64, u64, &'a Vec<u8>), StatStep<'a>>)
    ensures
        match (found, target(request, *com_id, got)) {
            (Ok(a), Ok(b)) => a == b,
            (Err(a), Err(b)) => a@ == b,
            _ => false,
        },
{
    let user_id: i64 = match &got.user_id {
        None => return Err(StatStep::Ask(StatQuery::UserId { npid: &request.npid })),
        Some(Err(e)) => return Err(StatStep::Respond(fail_lookup(*e))),
        Some(Ok(user_id)) => *user_id,
    };
    let online_name: &'a String = match &got.online_name {
        None => return Err(StatStep::Ask(StatQuery::OnlineName { user_id })),
        Some(Err(e)) => return Err(StatStep::Respond(fail_lookup(*e))),
        Some(Ok(online_name)) => online_name,
    };
    let (data_id, info): (u64, &'a Vec<u8>) = match &got.slot_data {
        None => return Err(
            StatStep::Ask(StatQuery::SlotData { com_id: *com_id, user_id, slot: request.slot }),
        ),
        Some(Err(e)) => return Err(StatStep::Respond(fail_lookup(*e))),
        Some(Ok(slot_data)) => (slot_data.0, &slot_data.1),
    };
    if !request.force {
        match &got.players {
            None => return Err(StatStep::Ask(StatQuery::Players { com_id: *com_id })),
            Some(players) => if StatServer::is_player_online(players, online_name.as_str()) {
                return Err(
                    StatStep::Respond(StatServer::error_response(CONFLICT, "player_online")),
                );
            },
        }
    }
    Ok((user_id, data_id, info))
}

fn edit_save<'a>(
    request: &'a AdminSetRankRequest,
    com_id: &ComId,
    previous_data_id: u64,
    got: &'a SetRankAnswers,
) -> (edited: Result<&'a EditedSave, StatStep<'a>>)
    ensures
        match (edited, edited_save(request, *com_id, previous_data_id, got)) {
            (Ok(a), Ok(b)) => a == b,
            (Err(a), Err(b)) => a@ == b,
            _ => false,
        },
{
    let save: &'a Vec<u8> = match &got.save {
        None => return Err(StatStep::Ask(StatQuery::ReadSave { data_id: previous_data_id })),
        Some(None) => return Err(
            StatStep::Respond(
                StatServer::error_response(INTERNAL_SERVER_ERROR, "save_unreadable"),
            ),
        ),
        Some(Some(save)) => save,
    };
    match &got.edited {
        None => Err(
            StatStep::Ask(
                StatQuery::EditSave {
                    com_id: *com_id,
                    save,
                    character: request.character,
                    rank: request.rank,
                    rank_points: request.rank_points,
                },
            ),
        ),
        Some(Err(e)) => Err(StatStep::Respond(fail_edit(*e))),
        Some(Ok(edited)) => Ok(edited),
    }
}

fn store_save<'a>(
    request: &'a AdminSetRankRequest,
    com_id: &ComId,
    user_id: i64,
    info: &'a Vec<u8>,
    edited: &'a EditedSave,
    got: &'a SetRankAnswers,
) -> (stored: Result<u64, StatStep<'a>>)
    ensures
        match (stored, stored_save(request, *com_id, user_id, info, edited, got)) {
            (Ok(a), Ok(b)) => a == b,
            (Err(a), Err(b)) => a@ == b,
            _ => false,
        },
{
    let data_id: u64 = match got.data_id {
        None => return Err(StatStep::Ask(StatQuery::CreateSave { save: &edited.save })),
        Some(data_id) => data_id,
    };
    if data_id == 0 {
        return Err(
            StatStep::Respond(
                StatServer::error_response(INTERNAL_SERVER_ERROR, "save_not_written"),
            ),
        );
    }
    let timestamp: u64 = match got.timestamp {
        None => return Err(StatStep::Ask(StatQuery::Timestamp)),
        Some(timestamp) => timestamp,
    };
    match &got.stored {
        None => Err(
            StatStep::Ask(
                StatQuery::SetSlotData {
                    com_id: *com_id,
                    user_id,
                    slot: request.slot,
                    data_id,
                    info: if info.len() == 0 {
                        None
                    } else {
                        Some(info)
                    },
                    author_id: user_id,
                    timestamp,
                },
            ),
        ),
        Some(Err(_)) => Err(
            StatStep::Respond(
                StatServer::error_response(INTERNAL_SERVER_ERROR, "internal_error"),
            ),
        ),
        Some(Ok(_)) => if got.recorded {
            Ok(data_id)
        } else {
            Err(
                StatStep::Ask(
                    StatQuery::RecordHistory {
                        com_id: *com_id,
                        user_id,
                        slot: request.slot,
                        data_id,
                        timestamp,
                    },
                ),
            )
        },
    }
}

fn find_points<'a>(
    request: &'a AdminSetRankRequest,
    com_id: &ComId,
    edited: &'a EditedSave,
    got: &'a SetRankAnswers,
) -> (points: Result<u16, StatStep<'a>>)
    ensures
        match (points, current_points(request, *com_id, edited, got)) {
            (Ok(a), Ok(b)) => a == b,
            (Err(a), Err(b)) => a@ == b,
            _ => false,
        },
{
    if let Some(points) = request.rank_points {
        return Ok(points);
    }
    match &got.ranks {
        None => Err(StatStep::Ask(StatQuery::ReadRanks { com_id: *com_id, save: &edited.save })),
        Some(Some(ranks)) => if request.character < ranks.len() {
            Ok(ranks[request.character].rank_points)
        } else {
            Ok(0)
        },
        Some(None) => Ok(0),
    }
}

fn answer_set_rank<'a>(
    request: &'a AdminSetRankRequest,
    edited: &'a EditedSave,
    points: u16,
    data_id: u64,
    got: &'a SetRankAnswers,
) -> (step: StatStep<'a>)
    ensures
        step@ == set_rank_answer(request, edited, points, data_id, got),
{
    match &got.json {
        None => StatStep::Encode(
            Document::SetRank(
                AdminSetRankResponse {
                    npid: request.npid.clone(),
                    character: request.character,
                    previous: AdminCharacterRank {
                        rank: edited.previous.rank,
                        rank_points: edited.previous.rank_points,
                    },
                    current: AdminCharacterRank { rank: request.rank, rank_points: points },
                    data_id,
                },
            ),
        ),
        Some(Some(text)) => StatStep::Respond(StatServer::json_response(OK, text.clone())),
        Some(None) => StatStep::Respond(
            StatServer::error_response(INTERNAL_SERVER_ERROR, "internal_error"),
        ),
    }
}

impl StatServer {
    /// Whether somebody is among a title's players, if the title is tracked.
    pub fn is_player_online(players: &Option<Vec<String>>, online_name: &str) -> (online: bool)
        ensures
            online == is_online(*players, online_name@),
    {
        let names: &Vec<String> = match players {
            Some(names) => names,
            None => return false,
        };
        for i in 0..names.len()
            invariant
                *players == Some(*names),
                forall|j: int| 0 <= j < i ==> (#[trigger] names@[j])@ != online_name@,
        {
            if same_text(names[i].as_str(), online_name) {
                assert(players->0 == *names && (players->0)@[i as int]@ == online_name@);
                return true;
            }
        }
        false
    }

    /// Sets one character's rank for an operator. `key` is the request's
    /// `X-API-Key` header, where it has one that is text.
    ///
    /// This writes a new save exactly the way the game does - a fresh data_id,
    /// the slot repointed at it, a history row - rather than overwriting the
    /// file in place, so nothing else has to know the edit happened.
    pub fn handle_admin_set_rank_req<'a>(
        method: Method,
        key: Option<&str>,
        external_user_api_key: &str,
        got: &'a SetRankAnswers,
    ) -> (step: StatStep<'a>)
        ensures
            step@ == set_rank_step(method, key, external_user_api_key@, got),
    {
        let (request, com_id): (&'a AdminSetRankRequest, ComId) = match accept_request(
            method,
            key,
            external_user_api_key,
            got,
        ) {
            Ok(accepted) => accepted,
            Err(step) => return step,
        };
        let (user_id, previous_data_id, info): (i64, u64, &'a Vec<u8>) = match find_target(
            request,
            &com_id,
            got,
        ) {
            Ok(found) => found,
            Err(step) => return step,
        };
        let edited: &'a EditedSave = match edit_save(request, &com_id, previous_data_id, got) {
            Ok(edited) => edited,
            Err(step) => return step,
        };
        let data_id: u64 = match store_save(request, &com_id, user_id, info, edited, got) {
            Ok(data_id) => data_id,
            Err(step) => return step,
        };
        let points: u16 = match find_points(request, &com_id, edited, got) {
            Ok(points) => points,
            Err(step) => return step,
        };
        answer_set_rank(request, edited, points, data_id, got)
    }
}

} // verus!
