//! What is told of players: their matches and their ranks.

use crate::com_id::{com_id_from_str, spelled_com_id, ComId};
use crate::error::DbError;
use crate::stat_server::http::{
    error, json, HttpResponse, ResponseView, BAD_REQUEST, CONFLICT, INTERNAL_SERVER_ERROR, OK,
};
use crate::stat_server::matches::{matches_text, DbMatchRecord};
use crate::stat_server::operator::{fail_lookup, lookup_failure};
use crate::stat_server::server::StatServer;
use crate::stat_server::types::{
    CharacterRank, Document, DocumentView, EditError, PlayerRanksResponse, PlayerRecord, StatQuery,
    StatStep, StatStepView,
};
use vstd::prelude::*;

verus! {

/// The answer to a request for matches, once the database has been asked.
pub open spec fn matches_answer(matches: Result<Vec<DbMatchRecord>, DbError>) -> ResponseView {
    match matches {
        Ok(list) => json(OK, matches_text(list@)),
        Err(_) => error(INTERNAL_SERVER_ERROR, "internal_error"@),
    }
}

fn answer_matches(matches: &Result<Vec<DbMatchRecord>, DbError>) -> (response: HttpResponse)
    ensures
        response@ == matches_answer(*matches),
{
    match matches {
        Ok(list) => StatServer::json_response(OK, StatServer::matches_to_json(list)),
        Err(_) => StatServer::error_response(INTERNAL_SERVER_ERROR, "internal_error"),
    }
}

/// What is known while the matches of an account are being looked up.
#[derive(Debug)]
pub struct PlayerMatchesAnswers {
    /// Whether the name is one that an account can have.
    pub valid: Option<bool>,
    pub user_id: Option<Result<i64, DbError>>,
    pub matches: Option<Result<Vec<DbMatchRecord>, DbError>>,
}

impl PlayerMatchesAnswers {
    /// What is known at the start: nothing.
    pub fn new() -> (answers: PlayerMatchesAnswers)
        ensures
            answers == (PlayerMatchesAnswers { valid: None, user_id: None, matches: None }),
    {
        PlayerMatchesAnswers { valid: None, user_id: None, matches: None }
    }
}

/// How a request for the matches of an account goes on.
pub open spec fn player_matches_step<'a>(
    npid: &'a String,
    limit: u32,
    got: &'a PlayerMatchesAnswers,
) -> StatStepView<'a> {
    match got.valid {
        None => StatStepView::Ask(StatQuery::IsValidUsername { npid }),
        Some(false) => StatStepView::Respond(error(BAD_REQUEST, "invalid_npid"@)),
        Some(true) => match got.user_id {
            None => StatStepView::Ask(StatQuery::UserId { npid }),
            Some(Err(e)) => StatStepView::Respond(lookup_failure(e)),
            Some(Ok(user_id)) => match got.matches {
                None => StatStepView::Ask(StatQuery::UserMatches { user_id, limit }),
                Some(matches) => StatStepView::Respond(matches_answer(matches)),
            },
        },
    }
}

/// What is known while the ranks of an account are being looked up.
#[derive(Debug)]
pub struct PlayerRanksAnswers {
    /// Whether the name is one that an account can have.
    pub valid: Option<bool>,
    pub user_id: Option<Result<i64, DbError>>,
    pub online_name: Option<Result<String, DbError>>,
    /// The save that the slot points at, and its info blob.
    pub slot_data: Option<Result<(u64, Vec<u8>), DbError>>,
    /// The save, where it could be read.
    pub save: Option<Option<Vec<u8>>>,
    /// The ranks in the save.
    pub ranks: Option<Result<Vec<CharacterRank>, EditError>>,
    /// Wins and losses, where the save tells.
    pub record: Option<Option<(u32, u32)>>,
    /// The answer as JSON, where it could be written.
    pub json: Option<Option<String>>,
}

impl PlayerRanksAnswers {
    /// Nothing is known yet.
    pub open spec fn none() -> PlayerRanksAnswers {
        PlayerRanksAnswers {
            valid: None,
            user_id: None,
            online_name: None,
            slot_data: None,
            save: None,
            ranks: None,
            record: None,
            json: None,
        }
    }

    /// What is known at the start: nothing.
    pub fn new() -> (answers: PlayerRanksAnswers)
        ensures
            answers == PlayerRanksAnswers::none(),
    {
        PlayerRanksAnswers {
            valid: None,
            user_id: None,
            online_name: None,
            slot_data: None,
            save: None,
            ranks: None,
            record: None,
            json: None,
        }
    }
}

/// The title that a request for ranks is about, if it makes sense.
pub open spec fn ranks_title<'a>(
    npid: &'a String,
    com_id_text: Seq<char>,
    got: &'a PlayerRanksAnswers,
) -> Result<ComId, StatStepView<'a>> {
    match got.valid {
        None => Err(StatStepView::Ask(StatQuery::IsValidUsername { npid })),
        Some(valid) => match spelled_com_id(com_id_text) {
            Some(com_id) if valid => Ok(com_id),
            _ => Err(StatStepView::Respond(error(BAD_REQUEST, "invalid_request"@))),
        },
    }
}

/// The online name of the account and the id of its save, once they have been
/// looked up.
pub open spec fn ranks_account<'a>(
    npid: &'a String,
    com_id: ComId,
    slot: i32,
    got: &'a PlayerRanksAnswers,
) -> Result<(&'a String, u64), StatStepView<'a>> {
    match got.user_id {
        None => Err(StatStepView::Ask(StatQuery::UserId { npid })),
        Some(Err(e)) => Err(StatStepView::Respond(lookup_failure(e))),
        Some(Ok(user_id)) => match got.online_name {
            None => Err(StatStepView::Ask(StatQuery::OnlineName { user_id })),
            Some(Err(e)) => Err(StatStepView::Respond(lookup_failure(e))),
            Some(Ok(online_name)) => match got.slot_data {
                None => Err(StatStepView::Ask(StatQuery::SlotData { com_id, user_id, slot })),
                Some(Err(e)) => Err(StatStepView::Respond(lookup_failure(e))),
                Some(Ok((data_id, _))) => Ok((&online_name, data_id)),
            },
        },
    }
}

/// The ranks and the running record in the save, once it has been read.
pub open spec fn ranks_in_save<'a>(
    com_id: ComId,
    data_id: u64,
    got: &'a PlayerRanksAnswers,
) -> Result<(&'a Vec<CharacterRank>, Option<PlayerRecord>), StatStepView<'a>> {
    match got.save {
        None => Err(StatStepView::Ask(StatQuery::ReadSave { data_id })),
        Some(None) => Err(
            StatStepView::Respond(error(INTERNAL_SERVER_ERROR, "save_unreadable"@)),
        ),
        Some(Some(save)) => match got.ranks {
            None => Err(StatStepView::Ask(StatQuery::ReadRanks { com_id, save: &save })),
            Some(Err(EditError::UnsupportedTitle)) => Err(
                StatStepView::Respond(error(BAD_REQUEST, "unsupported_title"@)),
            ),
            Some(Err(_)) => Err(StatStepView::Respond(error(CONFLICT, "malformed_save"@))),
            Some(Ok(ranks)) => match got.record {
                None => Err(StatStepView::Ask(StatQuery::AccountRecord { com_id, save: &save })),
                Some(None) => Ok((&ranks, None)),
                Some(Some((wins, losses))) => Ok((&ranks, Some(PlayerRecord { wins, losses }))),
            },
        },
    }
}

/// How a request for the ranks of an account goes on.
pub open spec fn player_ranks_step<'a>(
    npid: &'a String,
    com_id_text: Seq<char>,
    slot: i32,
    got: &'a PlayerRanksAnswers,
) -> StatStepView<'a> {
    match ranks_title(npid, com_id_text, got) {
        Err(step) => step,
        Ok(com_id) => match ranks_account(npid, com_id, slot, got) {
            Err(step) => step,
            Ok((online_name, data_id)) => match ranks_in_save(com_id, data_id, got) {
                Err(step) => step,
                Ok((ranks, record)) => match got.json {
                    None => StatStepView::Encode(
                        DocumentView::Ranks {
                            npid: npid@,
                            online_name: online_name@,
                            com_id: com_id_text,
                            slot,
                            data_id,
                            record,
                            characters: ranks@,
                        },
                    ),
                    Some(Some(text)) => StatStepView::Respond(json(OK, text@)),
                    Some(None) => StatStepView::Respond(
                        error(INTERNAL_SERVER_ERROR, "internal_error"@),
                    ),
                },
            },
        },
    }
}

fn find_ranks_account<'a>(
    npid: &'a String,
    com_id: &ComId,
    slot: i32,
    got: &'a PlayerRanksAnswers,
) -> (found: Result<(&'a String, u64), StatStep<'a>>)
    ensures
        match (found, ranks_account(npid, *com_id, slot, got)) {
            (Ok(a), Ok(b)) => a == b,
            (Err(a), Err(b)) => a@ == b,
            _ => false,
        },
{
    let user_id: i64 = match &got.user_id {
        None => return Err(StatStep::Ask(StatQuery::UserId { npid })),
        Some(Err(e)) => return Err(StatStep::Respond(fail_lookup(*e))),
        Some(Ok(user_id)) => *user_id,
    };
    let online_name: &'a String = match &got.online_name {
        None => return Err(StatStep::Ask(StatQuery::OnlineName { user_id })),
        Some(Err(e)) => return Err(StatStep::Respond(fail_lookup(*e))),
        Some(Ok(online_name)) => online_name,
    };
    match &got.slot_data {
        None => Err(StatStep::Ask(StatQuery::SlotData { com_id: *com_id, user_id, slot })),
        Some(Err(e)) => Err(StatStep::Respond(fail_lookup(*e))),
        Some(Ok(slot_data)) => Ok((online_name, slot_data.0)),
    }
}

fn find_ranks_in_save<'a>(com_id: &ComId, data_id: u64, got: &'a PlayerRanksAnswers) -> (found:
    Result<(&'a Vec<CharacterRank>, Option<PlayerRecord>), StatStep<'a>>)
    ensures
        match (found, ranks_in_save(*com_id, data_id, got)) {
            (Ok(a), Ok(b)) => a == b,
            (Err(a), Err(b)) => a@ == b,
            _ => false,
        },
{
    let save: &'a Vec<u8> = match &got.save {
        None => return Err(StatStep::Ask(StatQuery::ReadSave { data_id })),
        Some(None) => return Err(
            StatStep::Respond(
                StatServer::error_response(INTERNAL_SERVER_ERROR, "save_unreadable"),
            ),
        ),
        Some(Some(save)) => save,
    };
    let ranks: &'a Vec<CharacterRank> = match &got.ranks {
        None => return Err(StatStep::Ask(StatQuery::ReadRanks { com_id: *com_id, save })),
        Some(Err(EditError::UnsupportedTitle)) => return Err(
            StatStep::Respond(StatServer::error_response(BAD_REQUEST, "unsupported_title")),
        ),
        Some(Err(_)) => return Err(
            StatStep::Respond(StatServer::error_response(CONFLICT, "malformed_save")),
        ),
        Some(Ok(ranks)) => ranks,
    };
    match &got.record {
        None => Err(StatStep::Ask(StatQuery::AccountRecord { com_id: *com_id, save })),
        Some(None) => Ok((ranks, None)),
        Some(Some(record)) => Ok(
            (ranks, Some(PlayerRecord { wins: record.0, losses: record.1 })),
        ),
    }
}

fn copy_ranks(ranks: &Vec<CharacterRank>) -> (copy: Vec<CharacterRank>)
    ensures
        copy@ == ranks@,
{
    let mut copy: Vec<CharacterRank> = Vec::new();
    for i in 0..ranks.len()
        invariant
            copy@ == ranks@.take(i as int),
    {
        copy.push(ranks[i]);
        assert(copy@ =~= ranks@.take(i + 1));
    }
    assert(ranks@.take(ranks@.len() as int) =~= ranks@);
    copy
}

impl StatServer {
    /// Answers a request for the most recent matches of a title.
    pub fn handle_recent_matches_req<'a>(
        com_id: &ComId,
        limit: u32,
        matches: &'a Option<Result<Vec<DbMatchRecord>, DbError>>,
    ) -> (step: StatStep<'a>)
        ensures
            step@ == (match *matches {
                None => StatStepView::<'a>::Ask(
                    StatQuery::RecentMatches { com_id: *com_id, limit },
                ),
                Some(found) => StatStepView::<'a>::Respond(matches_answer(found)),
            }),
    {
        match matches {
            None => StatStep::Ask(StatQuery::RecentMatches { com_id: *com_id, limit }),
            Some(found) => StatStep::Respond(answer_matches(found)),
        }
    }

    /// Answers a request for the matches of an account.
    pub fn handle_player_matches_req<'a>(
        npid: &'a String,
        limit: u32,
        got: &'a PlayerMatchesAnswers,
    ) -> (step: StatStep<'a>)
        ensures
            step@ == player_matches_step(npid, limit, got),
    {
        match got.valid {
            None => return StatStep::Ask(StatQuery::IsValidUsername { npid }),
            Some(false) => return StatStep::Respond(
                StatServer::error_response(BAD_REQUEST, "invalid_npid"),
            ),
            Some(true) => {},
        }
        let user_id: i64 = match &got.user_id {
            None => return StatStep::Ask(StatQuery::UserId { npid }),
            Some(Err(e)) => return StatStep::Respond(fail_lookup(*e)),
            Some(Ok(user_id)) => *user_id,
        };
        match &got.matches {
            None => StatStep::Ask(StatQuery::UserMatches { user_id, limit }),
            Some(matches) => StatStep::Respond(answer_matches(matches)),
        }
    }

    /// One account's per character ranks and running record, read out of the
    /// save it last wrote.
    ///
    /// Served to everybody, like the rooms and the scores: ranks are what the
    /// game shows to everyone in a lobby anyway.
    pub fn handle_player_ranks_req<'a>(
        npid: &'a String,
        com_id_text: &'a String,
        slot: i32,
        got: &'a PlayerRanksAnswers,
    ) -> (step: StatStep<'a>)
        ensures
            step@ == player_ranks_step(npid, com_id_text@, slot, got),
    {
        let valid: bool = match got.valid {
            None => return StatStep::Ask(StatQuery::IsValidUsername { npid }),
            Some(valid) => valid,
        };
        let com_id: ComId = match com_id_from_str(com_id_text.as_str()) {
            Some(com_id) if valid => com_id,
            _ => return StatStep::Respond(
                StatServer::error_response(BAD_REQUEST, "invalid_request"),
            ),
        };
        let (online_name, data_id): (&'a String, u64) = match find_ranks_account(
            npid,
            &com_id,
            slot,
            got,
        ) {
            Ok(found) => found,
            Err(step) => return step,
        };
        let (ranks, record): (&'a Vec<CharacterRank>, Option<PlayerRecord>) =
            match find_ranks_in_save(&com_id, data_id, got) {
            Ok(found) => found,
            Err(step) => return step,
        };
        match &got.json {
            None => StatStep::Encode(
                Document::Ranks(
                    PlayerRanksResponse {
                        npid: npid.clone(),
                        online_name: online_name.clone(),
                        com_id: com_id_text.clone(),
                        slot,
                        data_id,
                        record,
                        characters: copy_ranks(ranks),
                    },
                ),
            ),
            Some(Some(text)) => StatStep::Respond(StatServer::json_response(OK, text.clone())),
            Some(None) => StatStep::Respond(
                StatServer::error_response(INTERNAL_SERVER_ERROR, "internal_error"),
            ),
        }
    }
}

} // verus!
