//! What the commands on data ask, change and answer, told by their requests and
//! the host's answers alone.

use crate::cmd_tus::data::{
    delete_multislot_data, get_data, get_multislot_data_status, get_multiuser_data_status,
    set_data, stamp_refusal, DeleteDataAnswers, GetDataAnswers, GetStatusAnswers, SetDataAnswers,
    Stamp,
};
use crate::cmd_tus::requests::{
    connected, fails_later, is_about, is_known, may_change, names_somebody, starts_right,
};
use crate::cmd_tus::rows::{lemma_status_author_at, status_authors};
use crate::cmd_tus::types::{
    Client, DbTusDataStatus, FloorState, MatchOutcome, Query, ReplyView, StepView,
    TusDataStatusView, TusDeleteMultiSlotDataRequest, TusGetDataRequest,
    TusGetMultiSlotDataStatusRequest, TusGetMultiUserDataStatusRequest, TusSetDataRequest,
};
use crate::cmd_tus::variable_steps::is_date_condition;
use crate::error::{DbError, ErrorType};
use vstd::prelude::*;

verus! {

/// Whether a request to store data is well formed: it names somebody, carries
/// from one byte to 1 MiB, has no more than 387 bytes of info, and gives one date
/// at most.
pub open spec fn can_be_stored(req: TusSetDataRequest) -> bool {
    &&& names_somebody(req.user)
    &&& 1 <= req.data@.len() <= 1_048_576
    &&& req.info@.len() <= 387
    &&& req.is_last_changed_date@.len() <= 1
}

/// Whether it is known whom the slot must have been changed by, where the request
/// names somebody.
pub open spec fn author_known(req: TusSetDataRequest, got: SetDataAnswers) -> bool {
    req.is_last_changed_author_id@.len() == 0 || (got.compare_author matches Some(Ok(_)))
}

/// Whether a request sets a condition on the slot.
pub open spec fn sets_condition(req: TusSetDataRequest) -> bool {
    req.is_last_changed_date@.len() > 0 || req.is_last_changed_author_id@.len() > 0
}

/// Whether a slot that was changed at `timestamp` by `author_id` breaks a
/// condition of the request: it was changed later than the date, or by somebody
/// else than the author.
pub open spec fn breaks_condition(
    req: TusSetDataRequest,
    got: SetDataAnswers,
    timestamp: u64,
    author_id: i64,
) -> bool {
    ||| req.is_last_changed_date@.len() > 0 && timestamp > req.is_last_changed_date@[0]
    ||| req.is_last_changed_author_id@.len() > 0 && got.compare_author != Some(
        Ok::<i64, DbError>(author_id),
    )
}

/// Whether the request may be carried out as far as is known: it is well formed,
/// all has been looked up, and the slot is one that the client may change.
pub open spec fn is_allowed(client: Client, req: TusSetDataRequest, got: SetDataAnswers) -> bool {
    &&& can_be_stored(req)
    &&& connected(got.db)
    &&& author_known(req, got)
    &&& got.timestamp is Some
    &&& may_change(client, req.user->0, got.owner)
}

/// Whether, on top of that, the slot is known not to break a condition. A slot
/// that holds nothing breaks none.
pub open spec fn is_free_to_store(
    client: Client,
    req: TusSetDataRequest,
    got: SetDataAnswers,
) -> bool {
    &&& is_allowed(client, req, got)
    &&& sets_condition(req) ==> (got.stamp matches Some(Ok(stamp)) && match stamp {
        None => true,
        Some((timestamp, author_id)) => !breaks_condition(req, got, timestamp, author_id),
    })
}

/// Whether it is known what the slot of an account held, if anything.
pub open spec fn replaced_known(got: SetDataAnswers) -> bool {
    ||| got.replaced == Some(Err::<DbTusDataStatus, DbError>(DbError::Empty))
    ||| (got.replaced matches Some(Ok(_))) && got.previous_save is Some
}

/// Whether the save that is replaced could be read.
pub open spec fn has_previous(got: SetDataAnswers) -> bool {
    (got.replaced matches Some(Ok(_))) && (got.previous_save matches Some(Some(_)))
}

/// Whether it is known what the rank floor makes of the save.
pub open spec fn floor_known(got: SetDataAnswers) -> bool {
    (got.floor matches Some(Ok(_))) && got.floored is Some
}

/// Whether all that goes before the writing of a file is known: of a virtual user
/// there is nothing.
pub open spec fn is_prepared(req: TusSetDataRequest, got: SetDataAnswers) -> bool {
    req.user->0.vuser || (replaced_known(got) && floor_known(got) && (has_previous(got)
        ==> got.outcome is Some))
}

/// Whether the comparison of the two saves told how the match went.
pub open spec fn tells_match(got: SetDataAnswers) -> bool {
    has_previous(got) && (got.outcome matches Some(Some(_)))
}

/// Whether the match that a save reports on has been dealt with: there is none,
/// its history could not be recorded, or it has been resolved.
pub open spec fn match_settled(got: SetDataAnswers) -> bool {
    got.history is Some && (tells_match(got) && (got.history matches Some(Ok(_)))
        ==> got.resolved)
}

/// Whether the new rank floor has been dealt with, where there is one.
pub open spec fn floor_settled(got: SetDataAnswers) -> bool {
    (got.floored matches Some(Some(_))) ==> got.floor_recorded
}

/// What is to be stored: for an account the save that the rank floor raised, if
/// it raised it, and otherwise what the request carries.
pub open spec fn is_to_be_stored(
    bytes: Seq<u8>,
    req: TusSetDataRequest,
    got: SetDataAnswers,
) -> bool {
    if !req.user->0.vuser && (got.floored matches Some(Some(f)) && f.data is Some) {
        bytes == got.floored->0->0.data->0@
    } else {
        bytes == req.data@
    }
}

/// Whether `outcome` is what the history is told of the match: won, lost, or
/// nothing where the saves do not tell.
pub open spec fn is_outcome(outcome: Option<bool>, got: SetDataAnswers) -> bool {
    let compared = if has_previous(got) {
        got.outcome
    } else {
        None
    };
    &&& outcome == Some(true) <==> compared == Some(Some(MatchOutcome::Won))
    &&& outcome == Some(false) <==> compared == Some(Some(MatchOutcome::Lost))
}

/// Whether `state` is the rank floor that is on record.
pub open spec fn is_floor_on_record(state: FloorState, got: SetDataAnswers) -> bool {
    match state.applied {
        Some(floor) => got.floor == Some(
            Ok::<Option<(u8, bool)>, DbError>(Some((floor, state.delivered))),
        ),
        None => !state.delivered && got.floor == Some(
            Ok::<Option<(u8, bool)>, DbError>(None),
        ),
    }
}

/// Storing data, question by question: what the host is asked, when, and what it
/// is handed. In particular a match is recorded as won exactly where comparing
/// the saves told that it was won, and as lost exactly where it told so.
pub proof fn law_storing_data_asks(client: Client, req: TusSetDataRequest, got: SetDataAnswers)
    ensures
        set_data(client, &req, &got) matches StepView::Ask(query) ==> {
            let user = req.user->0;
            let author = req.is_last_changed_author_id@;
            let free = is_free_to_store(client, req, got);
            let stored = free && is_prepared(req, got) && got.data_id is Some && !user.vuser && (
            got.stored matches Some(Ok(_)));
            match query {
                Query::Connect => can_be_stored(req) && got.db is None,
                Query::UserId { npid } => can_be_stored(req) && connected(got.db) && if author.len()
                    > 0 && got.compare_author is None {
                    npid@ == author
                } else {
                    &&& author_known(req, got)
                    &&& got.timestamp is Some
                    &&& !user.vuser
                    &&& got.owner is None
                    &&& npid@ == user.npid@
                },
                Query::Timestamp => {
                    &&& can_be_stored(req)
                    &&& connected(got.db)
                    &&& author_known(req, got)
                    &&& got.timestamp is None
                },
                Query::GetDataStamp { owner, slot } => {
                    &&& is_allowed(client, req, got)
                    &&& sets_condition(req)
                    &&& got.stamp is None
                    &&& is_about(owner, user, got.owner)
                    &&& slot == req.slot_id
                },
                Query::GetData { owner, slot } => {
                    &&& free
                    &&& !user.vuser
                    &&& got.replaced is None
                    &&& is_about(owner, user, got.owner)
                    &&& slot == req.slot_id
                },
                Query::ReadFile { data_id } => {
                    &&& free
                    &&& !user.vuser
                    &&& got.replaced matches Some(Ok(status)) && status.data_id == data_id
                    &&& got.previous_save is None
                },
                Query::GetRankFloor { user_id, slot } => {
                    &&& free
                    &&& !user.vuser
                    &&& replaced_known(got)
                    &&& got.floor is None
                    &&& user_id == client.user_id
                    &&& slot == req.slot_id
                },
                Query::ApplyRankFloor { data, state } => {
                    &&& free
                    &&& !user.vuser
                    &&& replaced_known(got)
                    &&& got.floored is None
                    &&& data@ == req.data@
                    &&& is_floor_on_record(state, got)
                },
                Query::CompareSaves { data, previous } => {
                    &&& free
                    &&& !user.vuser
                    &&& replaced_known(got)
                    &&& floor_known(got)
                    &&& has_previous(got)
                    &&& got.outcome is None
                    &&& data@ == req.data@
                    &&& previous@ == got.previous_save->0->0@
                },
                Query::CreateFile { data } => {
                    &&& free
                    &&& is_prepared(req, got)
                    &&& got.data_id is None
                    &&& is_to_be_stored(data@, req, got)
                },
                Query::SetData {
                    owner,
                    slot,
                    data_id,
                    info,
                    author_id,
                    timestamp,
                    compare_timestamp,
                    compare_author,
                } => {
                    &&& free
                    &&& is_prepared(req, got)
                    &&& got.stored is None
                    &&& is_about(owner, user, got.owner)
                    &&& slot == req.slot_id
                    &&& got.data_id == Some(data_id)
                    &&& match info {
                        Some(blob) => blob@ == req.info@ && req.info@.len() > 0,
                        None => req.info@.len() == 0,
                    }
                    &&& author_id == client.user_id
                    &&& got.timestamp == Some(timestamp)
                    &&& is_date_condition(compare_timestamp, req.is_last_changed_date@)
                    &&& match compare_author {
                        Some(id) => author.len() > 0 && got.compare_author == Some(
                            Ok::<i64, DbError>(id),
                        ),
                        None => author.len() == 0,
                    }
                },
                Query::RecordHistory { user_id, slot, data_id, timestamp, outcome } => {
                    &&& stored
                    &&& got.history is None
                    &&& user_id == client.user_id
                    &&& slot == req.slot_id
                    &&& got.data_id == Some(data_id)
                    &&& got.timestamp == Some(timestamp)
                    &&& is_outcome(outcome, got)
                },
                Query::ResolveMatch { user_id, data_id, won, timestamp } => {
                    &&& stored
                    &&& got.history matches Some(Ok(_))
                    &&& tells_match(got)
                    &&& !got.resolved
                    &&& user_id == client.user_id
                    &&& got.data_id == Some(data_id)
                    &&& won == (got.outcome == Some(Some(MatchOutcome::Won)))
                    &&& got.timestamp == Some(timestamp)
                },
                Query::SetRankFloor { user_id, slot, floor, delivered } => {
                    &&& stored
                    &&& match_settled(got)
                    &&& !got.floor_recorded
                    &&& user_id == client.user_id
                    &&& slot == req.slot_id
                    &&& got.floored matches Some(Some(f)) && floor == f.floor && delivered
                        == (f.data is None)
                },
                Query::DeleteFile { data_id } => {
                    &&& !got.file_deleted
                    &&& ({
                        ||| stored && match_settled(got) && floor_settled(got)
                            && (got.replaced matches Some(Ok(status)) && status.data_id == data_id)
                        ||| free && is_prepared(req, got) && got.stored == Some(
                            Err::<(), DbError>(DbError::Empty),
                        ) && got.data_id == Some(data_id)
                    })
                },
                _ => false,
            }
        },
{
}

/// Storing data, end by end: when it succeeds and why it fails. It never answers
/// with a reply.
pub proof fn law_storing_data_ends(client: Client, req: TusSetDataRequest, got: SetDataAnswers)
    ensures
        match set_data(client, &req, &got) {
            StepView::Ask(_) => true,
            StepView::Answer(_) => false,
            StepView::Done(result) => {
                let user = req.user->0;
                let author = req.is_last_changed_author_id@;
                let looked_up = can_be_stored(req) && connected(got.db);
                let free = is_free_to_store(client, req, got);
                let written = free && is_prepared(req, got) && got.data_id is Some;
                match result {
                    Ok(ErrorType::NoError) => {
                        &&& written
                        &&& got.stored matches Some(Ok(_))
                        &&& !user.vuser ==> {
                            &&& match_settled(got)
                            &&& floor_settled(got)
                            &&& (got.replaced matches Some(Ok(_))) ==> got.file_deleted
                        }
                    },
                    Ok(ErrorType::NotFound) => {
                        &&& looked_up
                        &&& author_known(req, got)
                        &&& got.timestamp is Some
                        &&& !user.vuser
                        &&& got.owner == Some(Err::<i64, DbError>(DbError::Empty))
                    },
                    Ok(ErrorType::Unauthorized) => {
                        &&& looked_up
                        &&& author_known(req, got)
                        &&& got.timestamp is Some
                        &&& is_known(user, got.owner)
                        &&& !may_change(client, user, got.owner)
                    },
                    Ok(ErrorType::CondFail) => {
                        ||| looked_up && author.len() > 0 && got.compare_author == Some(
                            Err::<i64, DbError>(DbError::Empty),
                        )
                        ||| is_allowed(client, req, got) && (got.stamp matches Some(Ok(Some(s)))
                            && breaks_condition(req, got, s.0, s.1))
                        ||| written && got.file_deleted && got.stored == Some(
                            Err::<(), DbError>(DbError::Empty),
                        )
                    },
                    Ok(_) => false,
                    Err(e) => {
                        ||| !can_be_stored(req) && e == ErrorType::Malformed
                        ||| can_be_stored(req) && got.db == Some(Err::<(), ErrorType>(e))
                        ||| e == ErrorType::DbFail && looked_up && ({
                            ||| author.len() > 0 && (got.compare_author matches Some(Err(why)) && why
                                != DbError::Empty)
                            ||| author_known(req, got) && got.timestamp is Some && !user.vuser && (
                            got.owner matches Some(Err(why)) && why != DbError::Empty)
                            ||| is_allowed(client, req, got) && sets_condition(req) && (
                            got.stamp matches Some(Err(_)))
                            ||| free && !user.vuser && (got.replaced matches Some(Err(why)) && why
                                != DbError::Empty)
                            ||| free && !user.vuser && replaced_known(got) && (
                            got.floor matches Some(Err(_)))
                            ||| written && (got.stored matches Some(Err(why)) && why
                                != DbError::Empty)
                        })
                    },
                }
            },
        },
{
}

/// What the conditions of a request make of a slot before anything is written: a
/// slot that was changed later than the date, or by another author, fails the
/// condition; any other slot passes, and so does one that holds nothing.
pub proof fn law_conditions_on_a_slot(
    stamp: Result<Option<Stamp>, DbError>,
    date: Option<u64>,
    author: Option<i64>,
)
    ensures
        match stamp_refusal(stamp, date, author) {
            Some(Ok(e)) => e == ErrorType::CondFail && (stamp matches Ok(Some(s)) && ((
            date matches Some(d) && s.0 > d) || (author matches Some(a) && a != s.1))),
            Some(Err(e)) => e == ErrorType::DbFail && stamp is Err,
            None => stamp matches Ok(s) && (s matches Some(s) ==> (date matches Some(d) ==> s.0
                <= d) && (author matches Some(a) ==> a == s.1)),
        },
{
}

/// Whether `status` tells of a slot of the user `npid` that holds `row` and
/// `info`, with `names` giving the npid of each account. A slot that holds
/// nothing is told so.
pub open spec fn tells_of_slot(
    status: TusDataStatusView,
    npid: Seq<char>,
    row: Option<(DbTusDataStatus, Vec<u8>)>,
    names: spec_fn(i64) -> Seq<char>,
) -> bool {
    &&& status.owner_id == npid
    &&& status.has_data == (row is Some)
    &&& match row {
        Some((row, info)) => {
            &&& status.last_changed_date == row.timestamp
            &&& status.last_changed_author_id == names(row.author_id)
            &&& status.info == info@
        },
        None => {
            &&& status.last_changed_date == 0
            &&& status.last_changed_author_id.len() == 0
            &&& status.info.len() == 0
        },
    }
}

/// Reading data, step by step. The slot of the request is read, then the file
/// that it points at, and its author is named; the answer holds what was found,
/// and nothing where the slot holds nothing. A client that reads its own slot is
/// recorded to have got it before it is answered.
pub proof fn law_reading_data(client: Client, req: TusGetDataRequest, got: GetDataAnswers)
    ensures
        ({
            let step = get_data(client, &req, got);
            let user = req.user->0;
            let well_formed = names_somebody(req.user);
            let own = !user.vuser && user.npid@ == client.npid@;
            let found = (got.row matches Some(Ok(_))) && (got.file matches Some(Some(_))) && (
            got.author_name matches Some(Ok(_)));
            let empty = got.row == Some(Err::<(DbTusDataStatus, Vec<u8>), DbError>(DbError::Empty));
            &&& starts_right(step, well_formed, user, got.db, got.owner)
            &&& fails_later(step, well_formed, user, got.db, got.owner) ==> {
                &&& step == StepView::Done(Err::<ErrorType, ErrorType>(ErrorType::DbFail))
                &&& match got.row {
                    Some(Err(why)) => why != DbError::Empty,
                    Some(Ok(_)) => got.file == Some(None::<Vec<u8>>) || (
                    got.file is Some && (got.author_name matches Some(Err(_)))),
                    None => false,
                }
            }
            &&& match step {
                StepView::Ask(Query::GetData { owner, slot }) => {
                    &&& is_about(owner, user, got.owner)
                    &&& slot == req.slot_id
                    &&& got.row is None
                },
                StepView::Ask(Query::ReadFile { data_id }) => {
                    &&& got.row matches Some(Ok((status, _))) && status.data_id == data_id
                    &&& got.file is None
                },
                StepView::Ask(Query::Username { user_id }) => {
                    &&& got.row matches Some(Ok((status, _))) && status.author_id == user_id
                    &&& got.file matches Some(Some(_))
                    &&& got.author_name is None
                },
                StepView::Ask(Query::MarkRankFloorDelivered { user_id, slot }) => {
                    &&& own
                    &&& found || empty
                    &&& !got.floor_marked
                    &&& user_id == client.user_id
                    &&& slot == req.slot_id
                },
                StepView::Ask(query) => query is Connect || query is UserId,
                StepView::Done(Ok(e)) => e == ErrorType::NotFound,
                StepView::Done(Err(_)) => true,
                StepView::Answer(ReplyView::Data { status, data }) => {
                    &&& own ==> got.floor_marked
                    &&& found || empty
                    &&& found ==> data == got.file->0->0@ && tells_of_slot(
                        status,
                        user.npid@,
                        Some(got.row->0->Ok_0),
                        |id: i64| got.author_name->0->Ok_0@,
                    )
                    &&& empty ==> data.len() == 0 && tells_of_slot(
                        status,
                        user.npid@,
                        None,
                        |id: i64| Seq::empty(),
                    )
                },
                StepView::Answer(_) => false,
            }
        }),
{
}

/// Reading the states of one user's slots, step by step. The slots are read in
/// their order, then the authors of what was found are named, and then there is
/// an answer.
pub proof fn law_reading_states(req: TusGetMultiSlotDataStatusRequest, got: GetStatusAnswers)
    ensures
        ({
            let step = get_multislot_data_status(&req, got);
            let user = req.user->0;
            let well_formed = names_somebody(req.user);
            let read = got.rows.rows@.len();
            let named = got.names.names@.len();
            &&& starts_right(step, well_formed, user, got.db, got.owner)
            &&& fails_later(step, well_formed, user, got.db, got.owner) ==> {
                &&& got.names.failed && read >= req.slot_id_array@.len()
                &&& step == StepView::Done(Err::<ErrorType, ErrorType>(ErrorType::DbFail))
            }
            &&& match step {
                StepView::Ask(Query::GetData { owner, slot }) => {
                    &&& is_about(owner, user, got.owner)
                    &&& read < req.slot_id_array@.len()
                    &&& slot == req.slot_id_array@[read as int]
                },
                StepView::Ask(Query::Username { user_id }) => {
                    &&& !got.names.failed
                    &&& read >= req.slot_id_array@.len()
                    &&& named < got.rows.authors@.len()
                    &&& user_id == got.rows.authors@[named as int]
                },
                StepView::Ask(query) => query is Connect || query is UserId,
                StepView::Done(Ok(e)) => e == ErrorType::NotFound,
                StepView::Done(Err(_)) => true,
                StepView::Answer(reply) => {
                    &&& reply is Statuses
                    &&& !got.names.failed
                    &&& read >= req.slot_id_array@.len()
                    &&& named >= got.rows.authors@.len()
                },
            }
        }),
{
}

/// Reading the state of one slot of several users, step by step. The users are
/// taken in their order, each is looked up and its slot is read, then the authors
/// of what was found are named, and then there is an answer.
pub proof fn law_reading_a_state_of_users(
    req: TusGetMultiUserDataStatusRequest,
    got: GetStatusAnswers,
)
    ensures
        ({
            let step = get_multiuser_data_status(&req, got);
            let read = got.rows.rows@.len();
            let named = got.names.names@.len();
            let user = req.users@[read as int];
            let well_formed = req.users@.len() > 0 && forall|i: int|
                0 <= i < req.users@.len() ==> (#[trigger] req.users@[i]).npid@.len() > 0;
            let reading = read < req.users@.len();
            &&& reading ==> starts_right(step, well_formed, user, got.db, got.owner)
            &&& reading ==> !fails_later(step, well_formed, user, got.db, got.owner)
            &&& match step {
                StepView::Ask(Query::Connect) => well_formed && got.db is None,
                StepView::Ask(Query::UserId { .. }) => reading,
                StepView::Ask(Query::GetData { owner, slot }) => {
                    &&& reading
                    &&& is_about(owner, user, got.owner)
                    &&& slot == req.slot_id
                },
                StepView::Ask(Query::Username { user_id }) => {
                    &&& well_formed
                    &&& connected(got.db)
                    &&& !got.names.failed
                    &&& !reading
                    &&& named < got.rows.authors@.len()
                    &&& user_id == got.rows.authors@[named as int]
                },
                StepView::Ask(_) => false,
                StepView::Done(Ok(e)) => reading && e == ErrorType::NotFound,
                StepView::Done(Err(e)) => {
                    ||| !well_formed && e == ErrorType::Malformed
                    ||| well_formed && got.db == Some(Err::<(), ErrorType>(e))
                    ||| well_formed && connected(got.db) && e == ErrorType::DbFail && (reading
                        || got.names.failed)
                },
                StepView::Answer(reply) => {
                    &&& reply is Statuses
                    &&& well_formed
                    &&& connected(got.db)
                    &&& !got.names.failed
                    &&& !reading
                    &&& named >= got.rows.authors@.len()
                },
            }
        }),
{
}

/// A reply on the states of slots tells of each slot what was read from it, and
/// names the author of the data in that very slot, be it on several slots of one
/// user or on one slot of several users.
pub proof fn law_states_are_told_with_their_own_authors(
    slots: TusGetMultiSlotDataStatusRequest,
    users: TusGetMultiUserDataStatusRequest,
    got: GetStatusAnswers,
    names: spec_fn(i64) -> Seq<char>,
)
    requires
        got.rows.wf(),
        got.names.names@.len() <= got.rows.authors@.len(),
        forall|m: int|
            0 <= m < got.names.names@.len() ==> (#[trigger] got.names.names@[m])@ == names(
                got.rows.authors@[m],
            ),
    ensures
        get_multislot_data_status(&slots, got) matches StepView::Answer(
            ReplyView::Statuses(statuses),
        ) ==> {
            &&& statuses.len() == got.rows.rows@.len()
            &&& forall|i: int|
                0 <= i < statuses.len() ==> tells_of_slot(
                    #[trigger] statuses[i],
                    slots.user->0.npid@,
                    got.rows.rows@[i],
                    names,
                )
        },
        get_multiuser_data_status(&users, got) matches StepView::Answer(
            ReplyView::Statuses(statuses),
        ) ==> {
            &&& statuses.len() == got.rows.rows@.len()
            &&& forall|i: int|
                0 <= i < statuses.len() && i < users.users@.len() ==> tells_of_slot(
                    #[trigger] statuses[i],
                    users.users@[i].npid@,
                    got.rows.rows@[i],
                    names,
                )
        },
{
    let rows = got.rows.rows@;
    assert forall|i: int| 0 <= i < rows.len() && rows[i] is Some implies ({
        let at = status_authors(#[trigger] rows.take(i)).len() as int;
        at < got.rows.authors@.len() && got.rows.authors@[at] == (rows[i]->0).0.author_id
    }) by {
        lemma_status_author_at(rows, i);
    }
}

/// Deleting data, step by step. The slots of the request go, of the user that it
/// names, and for an account the rank floors of the same slots with them. Slots
/// of another account are not touched.
pub proof fn law_deleting_data(
    client: Client,
    req: TusDeleteMultiSlotDataRequest,
    got: DeleteDataAnswers,
)
    ensures
        ({
            let step = delete_multislot_data(client, &req, got);
            let user = req.user->0;
            let well_formed = names_somebody(req.user) && req.slot_id_array@.len() > 0;
            &&& starts_right(step, well_formed, user, got.db, got.owner)
            &&& fails_later(step, well_formed, user, got.db, got.owner) ==> {
                &&& may_change(client, user, got.owner)
                &&& got.deleted matches Some(Err(_))
                &&& step == StepView::Done(Err::<ErrorType, ErrorType>(ErrorType::DbFail))
            }
            &&& match step {
                StepView::Ask(Query::DeleteData { owner, slots }) => {
                    &&& is_about(owner, user, got.owner)
                    &&& may_change(client, user, got.owner)
                    &&& got.deleted is None
                    &&& slots@ == req.slot_id_array@
                },
                StepView::Ask(Query::ClearRankFloor { user_id, slots }) => {
                    &&& !user.vuser
                    &&& may_change(client, user, got.owner)
                    &&& got.deleted matches Some(Ok(_))
                    &&& !got.floor_cleared
                    &&& user_id == client.user_id
                    &&& slots@ == req.slot_id_array@
                },
                StepView::Ask(query) => query is Connect || query is UserId,
                StepView::Done(Ok(ErrorType::NoError)) => {
                    &&& may_change(client, user, got.owner)
                    &&& got.deleted matches Some(Ok(_))
                    &&& user.vuser || got.floor_cleared
                },
                StepView::Done(Ok(ErrorType::Unauthorized)) => !may_change(client, user, got.owner),
                StepView::Done(Ok(e)) => e == ErrorType::NotFound,
                StepView::Done(Err(_)) => true,
                StepView::Answer(_) => false,
            }
        }),
{
}

} // verus!
