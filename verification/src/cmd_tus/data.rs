//! The commands on TUS data.

use crate::cmd_tus::rows::{
    build_statuses, one_owner, repeat_owner, status_replies, Names, StatusRows,
};
use crate::cmd_tus::types::{
    absent_status, await_db, copy_bytes, find_read_owner, find_write_owner, named_user,
    present_status, read_owner, require_user, status_not_there, status_there, without_db,
    write_owner, Client, DbTusDataStatus, FloorState, Floored, MatchOutcome, Owner, Query, Reply,
    ReplyView, Step, StepView, TusDataStatusView, TusDeleteMultiSlotDataRequest, TusGetDataRequest,
    TusGetMultiSlotDataStatusRequest, TusGetMultiUserDataStatusRequest, TusSetDataRequest, TusUser,
    SCE_NP_TUS_DATA_INFO_MAX_SIZE, UNDOCUMENTED_TUS_DATA_MAX_SIZE,
};
use crate::cmd_tus::variables::{
    all_named, check_all_named, check_compare_date, collect_npids, compare_date, npids,
};
use crate::error::{DbError, ErrorType};
use vstd::prelude::*;
use vstd::string::*;

verus! {

/// When a slot's data were last changed, and by whom.
pub type Stamp = (u64, i64);

/// Why the conditions of a request already rule a change out: the database
/// failed, or the slot was changed later than the request allows or by somebody
/// else. A slot that holds nothing rules nothing out.
pub open spec fn stamp_refusal(
    stamp: Result<Option<Stamp>, DbError>,
    compare_timestamp: Option<u64>,
    compare_author_id: Option<i64>,
) -> Option<Result<ErrorType, ErrorType>> {
    match stamp {
        Err(_) => Some(Err(ErrorType::DbFail)),
        Ok(None) => None,
        Ok(Some((timestamp, author_id))) => if (compare_timestamp matches Some(limit) && timestamp
            > limit) || (compare_author_id matches Some(author) && author != author_id) {
            Some(Ok(ErrorType::CondFail))
        } else {
            None
        },
    }
}

/// What is known while data are being stored.
#[derive(Debug)]
pub struct SetDataAnswers {
    pub db: Option<Result<(), ErrorType>>,
    /// The account that the slot must have been changed by last.
    pub compare_author: Option<Result<i64, DbError>>,
    pub timestamp: Option<u64>,
    /// The account that the request names.
    pub owner: Option<Result<i64, DbError>>,
    /// When the slot was last changed, and by whom.
    pub stamp: Option<Result<Option<Stamp>, DbError>>,
    /// What the slot points at before the change.
    pub replaced: Option<Result<DbTusDataStatus, DbError>>,
    /// The save that the slot points at before the change, if it can be read.
    pub previous_save: Option<Option<Vec<u8>>>,
    /// The rank floor on record and whether it was delivered.
    pub floor: Option<Result<Option<(u8, bool)>, DbError>>,
    /// The new save held to its rank floor, for a title that has one.
    pub floored: Option<Option<Floored>>,
    /// How the match went that lies between the two saves, where they tell.
    pub outcome: Option<Option<MatchOutcome>>,
    /// The id of the new data file.
    pub data_id: Option<u64>,
    /// Whether the slot now points at the new file.
    pub stored: Option<Result<(), DbError>>,
    pub history: Option<Result<(), DbError>>,
    /// Whether the match has been dealt with.
    pub resolved: bool,
    /// Whether the new floor has been dealt with.
    pub floor_recorded: bool,
    /// Whether the file that is no longer wanted has been dealt with.
    pub file_deleted: bool,
}

impl SetDataAnswers {
    /// Nothing is known yet.
    pub open spec fn none() -> SetDataAnswers {
        SetDataAnswers {
            db: None,
            compare_author: None,
            timestamp: None,
            owner: None,
            stamp: None,
            replaced: None,
            previous_save: None,
            floor: None,
            floored: None,
            outcome: None,
            data_id: None,
            stored: None,
            history: None,
            resolved: false,
            floor_recorded: false,
            file_deleted: false,
        }
    }

    /// What is known at the start: nothing.
    pub fn new() -> (answers: SetDataAnswers)
        ensures
            answers == SetDataAnswers::none(),
    {
        SetDataAnswers {
            db: None,
            compare_author: None,
            timestamp: None,
            owner: None,
            stamp: None,
            replaced: None,
            previous_save: None,
            floor: None,
            floored: None,
            outcome: None,
            data_id: None,
            stored: None,
            history: None,
            resolved: false,
            floor_recorded: false,
            file_deleted: false,
        }
    }
}

impl SetDataAnswers {
    /// Takes in what looking up an account gave: the author that the slot must
    /// have been changed by, where the request names one and it has not been
    /// looked up yet, or else the account that the request is about.
    pub fn answer_user_id(&mut self, tus_req: &TusSetDataRequest, reply: Result<i64, DbError>)
        ensures
            *final(self) == (if tus_req.is_last_changed_author_id@.len() > 0
                && old(self).compare_author is None {
                SetDataAnswers { compare_author: Some(reply), ..*old(self) }
            } else {
                SetDataAnswers { owner: Some(reply), ..*old(self) }
            }),
    {
        if !tus_req.is_last_changed_author_id.as_str().is_empty() && self.compare_author.is_none() {
            self.compare_author = Some(reply);
        } else {
            self.owner = Some(reply);
        }
    }
}

/// Whether a request to store data is well formed: it names a user, carries
/// data, and neither the data nor the info blob is too large.
pub open spec fn is_valid_set_data(req: TusSetDataRequest) -> bool {
    &&& named_user(req.user) is Some
    &&& 0 < req.data@.len() <= UNDOCUMENTED_TUS_DATA_MAX_SIZE
    &&& req.info@.len() <= SCE_NP_TUS_DATA_INFO_MAX_SIZE
    &&& compare_date(req.is_last_changed_date@) is Ok
}

/// The author that the slot must have been changed by. A name that nobody has
/// cannot possibly match.
pub open spec fn required_author<'a>(
    name: &'a String,
    looked_up: Option<Result<i64, DbError>>,
) -> Result<Option<i64>, StepView<'a>> {
    if name@.len() == 0 {
        Ok(None)
    } else {
        match looked_up {
            None => Err(StepView::Ask(Query::UserId { npid: name })),
            Some(Ok(user_id)) => Ok(Some(user_id)),
            Some(Err(DbError::Empty)) => Err(StepView::Done(Ok(ErrorType::CondFail))),
            Some(Err(_)) => Err(StepView::Done(Err(ErrorType::DbFail))),
        }
    }
}

/// How a change goes on while it is not known whether its conditions rule it
/// out, or when they do.
pub open spec fn until_conditions_hold<'a>(
    owner: Owner<'a>,
    slot: i32,
    compare_timestamp: Option<u64>,
    compare_author_id: Option<i64>,
    stamp: Option<Result<Option<Stamp>, DbError>>,
) -> Option<StepView<'a>> {
    if compare_timestamp is None && compare_author_id is None {
        None
    } else {
        match stamp {
            None => Some(StepView::Ask(Query::GetDataStamp { owner, slot })),
            Some(stamp) => match stamp_refusal(stamp, compare_timestamp, compare_author_id) {
                Some(result) => Some(StepView::Done(result)),
                None => None,
            },
        }
    }
}

/// The info blob to store: none where the request's is empty.
pub open spec fn info_blob<'a>(req: &'a TusSetDataRequest) -> Option<&'a Vec<u8>> {
    if req.info@.len() == 0 {
        None
    } else {
        Some(&req.info)
    }
}

/// How storing `data` goes on until the slot points at them: the id of the file
/// that was written, once it does. Where the conditions fail at last, the file
/// that was written is deleted again.
pub open spec fn until_stored<'a>(
    client: Client,
    req: &'a TusSetDataRequest,
    got: &'a SetDataAnswers,
    owner: Owner<'a>,
    data: &'a Vec<u8>,
    timestamp: u64,
    compare_author: Option<i64>,
) -> Result<u64, StepView<'a>> {
    match got.data_id {
        None => Err(StepView::Ask(Query::CreateFile { data })),
        Some(data_id) => match got.stored {
            None => Err(
                StepView::Ask(
                    Query::SetData {
                        owner,
                        slot: req.slot_id,
                        data_id,
                        info: info_blob(req),
                        author_id: client.user_id,
                        timestamp,
                        compare_timestamp: compare_date(req.is_last_changed_date@).unwrap(),
                        compare_author,
                    },
                ),
            ),
            Some(Ok(_)) => Ok(data_id),
            Some(Err(DbError::Empty)) => if got.file_deleted {
                Err(StepView::Done(Ok(ErrorType::CondFail)))
            } else {
                Err(StepView::Ask(Query::DeleteFile { data_id }))
            },
            Some(Err(_)) => Err(StepView::Done(Err(ErrorType::DbFail))),
        },
    }
}

/// What a save replaces: the id of the file that the slot points at and what is
/// in it, where it can be read.
pub open spec fn replaced_save<'a>(
    owner: Owner<'a>,
    slot: i32,
    got: &'a SetDataAnswers,
) -> Result<(Option<u64>, Option<&'a Vec<u8>>), StepView<'a>> {
    match got.replaced {
        None => Err(StepView::Ask(Query::GetData { owner, slot })),
        Some(Err(DbError::Empty)) => Ok((None, None)),
        Some(Err(_)) => Err(StepView::Done(Err(ErrorType::DbFail))),
        Some(Ok(status)) => match got.previous_save {
            None => Err(StepView::Ask(Query::ReadFile { data_id: status.data_id })),
            Some(None) => Ok((Some(status.data_id), None)),
            Some(Some(save)) => Ok((Some(status.data_id), Some(&save))),
        },
    }
}

/// What the new save comes to when it is held to the rank floor on record.
pub open spec fn floored_save<'a>(
    user_id: i64,
    req: &'a TusSetDataRequest,
    got: &'a SetDataAnswers,
) -> Result<Option<&'a Floored>, StepView<'a>> {
    match got.floor {
        None => Err(StepView::Ask(Query::GetRankFloor { user_id, slot: req.slot_id })),
        Some(Err(_)) => Err(StepView::Done(Err(ErrorType::DbFail))),
        Some(Ok(on_record)) => {
            let state = match on_record {
                Some((applied, delivered)) => FloorState { applied: Some(applied), delivered },
                None => FloorState { applied: None, delivered: false },
            };
            match got.floored {
                None => Err(StepView::Ask(Query::ApplyRankFloor { data: &req.data, state })),
                Some(None) => Ok(None),
                Some(Some(floored)) => Ok(Some(&floored)),
            }
        },
    }
}

/// How the match went that precedes the save: read from the save as the client
/// sent it and the one it replaces.
pub open spec fn match_result<'a>(
    req: &'a TusSetDataRequest,
    previous: Option<&'a Vec<u8>>,
    got: &'a SetDataAnswers,
) -> Result<Option<bool>, StepView<'a>> {
    match previous {
        None => Ok(None),
        Some(previous) => match got.outcome {
            None => Err(StepView::Ask(Query::CompareSaves { data: &req.data, previous })),
            Some(None) => Ok(None),
            Some(Some(outcome)) => Ok(Some(outcome == MatchOutcome::Won)),
        },
    }
}

/// The save to store: the raised one, where something was raised.
pub open spec fn save_to_store<'a>(
    req: &'a TusSetDataRequest,
    floored: Option<&'a Floored>,
) -> &'a Vec<u8> {
    match floored {
        Some(f) => match f.data {
            Some(data) => &data,
            None => &req.data,
        },
        None => &req.data,
    }
}

/// What follows once an account's slot points at its new save. None of it can
/// fail the command any more.
pub open spec fn after_stored<'a>(
    user_id: i64,
    req: &'a TusSetDataRequest,
    got: &'a SetDataAnswers,
    superseded: Option<u64>,
    floored: Option<&'a Floored>,
    outcome: Option<bool>,
    data_id: u64,
    timestamp: u64,
) -> StepView<'a> {
    if got.history is None {
        StepView::Ask(
            Query::RecordHistory { user_id, slot: req.slot_id, data_id, timestamp, outcome },
        )
    } else if got.history->0 is Ok && outcome is Some && !got.resolved {
        StepView::Ask(Query::ResolveMatch { user_id, data_id, won: outcome->0, timestamp })
    } else if floored is Some && !got.floor_recorded {
        StepView::Ask(
            Query::SetRankFloor {
                user_id,
                slot: req.slot_id,
                floor: floored->0.floor,
                delivered: floored->0.data is None,
            },
        )
    } else if superseded is Some && !got.file_deleted {
        StepView::Ask(Query::DeleteFile { data_id: superseded->0 })
    } else {
        StepView::Done(Ok(ErrorType::NoError))
    }
}

/// How storing an account's data goes on once its conditions hold.
pub open spec fn set_account_data<'a>(
    client: Client,
    req: &'a TusSetDataRequest,
    got: &'a SetDataAnswers,
    user_id: i64,
    timestamp: u64,
    compare_author: Option<i64>,
) -> StepView<'a> {
    let owner = Owner::Account(user_id);
    match replaced_save(owner, req.slot_id, got) {
        Err(step) => step,
        Ok((superseded, previous)) => match floored_save(user_id, req, got) {
            Err(step) => step,
            Ok(floored) => match match_result(req, previous, got) {
                Err(step) => step,
                Ok(outcome) => match until_stored(
                    client,
                    req,
                    got,
                    owner,
                    save_to_store(req, floored),
                    timestamp,
                    compare_author,
                ) {
                    Err(step) => step,
                    Ok(data_id) => after_stored(
                        user_id,
                        req,
                        got,
                        superseded,
                        floored,
                        outcome,
                        data_id,
                        timestamp,
                    ),
                },
            },
        },
    }
}

/// How storing data goes on.
pub open spec fn set_data<'a>(
    client: Client,
    req: &'a TusSetDataRequest,
    got: &'a SetDataAnswers,
) -> StepView<'a> {
    if !is_valid_set_data(*req) {
        StepView::Done(Err(ErrorType::Malformed))
    } else if let Some(step) = without_db(got.db) {
        step
    } else {
        let user = named_user(req.user).unwrap();
        let date = compare_date(req.is_last_changed_date@).unwrap();
        match required_author(&req.is_last_changed_author_id, got.compare_author) {
            Err(step) => step,
            Ok(author) => match got.timestamp {
                None => StepView::Ask(Query::Timestamp),
                Some(timestamp) => match write_owner(client, &user, got.owner) {
                    Err(step) => step,
                    Ok(owner) => match until_conditions_hold(
                        owner,
                        req.slot_id,
                        date,
                        author,
                        got.stamp,
                    ) {
                        Some(step) => step,
                        None => match owner {
                            Owner::Virtual(_) => match until_stored(
                                client,
                                req,
                                got,
                                owner,
                                &req.data,
                                timestamp,
                                author,
                            ) {
                                Err(step) => step,
                                Ok(_) => StepView::Done(Ok(ErrorType::NoError)),
                            },
                            Owner::Account(user_id) => set_account_data(
                                client,
                                req,
                                got,
                                user_id,
                                timestamp,
                                author,
                            ),
                        },
                    },
                },
            },
        }
    }
}

/// What is known while data are being read.
#[derive(Debug)]
pub struct GetDataAnswers {
    pub db: Option<Result<(), ErrorType>>,
    /// The account that the request names.
    pub owner: Option<Result<i64, DbError>>,
    /// What the slot holds.
    pub row: Option<Result<(DbTusDataStatus, Vec<u8>), DbError>>,
    /// What is in the data file, if it can be read.
    pub file: Option<Option<Vec<u8>>>,
    pub author_name: Option<Result<String, DbError>>,
    /// Whether the delivery of the rank floor has been dealt with.
    pub floor_marked: bool,
}

/// The state and the contents of the slot that is being read.
pub open spec fn slot_contents<'a>(
    npid: Seq<char>,
    owner: Owner<'a>,
    slot: i32,
    got: GetDataAnswers,
) -> Result<(TusDataStatusView, Seq<u8>), StepView<'a>> {
    match got.row {
        None => Err(StepView::Ask(Query::GetData { owner, slot })),
        Some(Err(DbError::Empty)) => Ok((absent_status(npid), Seq::empty())),
        Some(Err(_)) => Err(StepView::Done(Err(ErrorType::DbFail))),
        Some(Ok((status, info))) => match got.file {
            None => Err(StepView::Ask(Query::ReadFile { data_id: status.data_id })),
            Some(None) => Err(StepView::Done(Err(ErrorType::DbFail))),
            Some(Some(data)) => match got.author_name {
                None => Err(StepView::Ask(Query::Username { user_id: status.author_id })),
                Some(Err(_)) => Err(StepView::Done(Err(ErrorType::DbFail))),
                Some(Ok(author)) => Ok((present_status(npid, status, info@, author@), data@)),
            },
        },
    }
}

/// How reading data goes on. A client that reads its own slot then holds
/// whatever the server last wrote to it, which is recorded before it is answered.
pub open spec fn get_data<'a>(
    client: Client,
    req: &'a TusGetDataRequest,
    got: GetDataAnswers,
) -> StepView<'a> {
    match named_user(req.user) {
        None => StepView::Done(Err(ErrorType::Malformed)),
        Some(user) => if let Some(step) = without_db(got.db) {
            step
        } else {
            match read_owner(&user, got.owner) {
                Err(step) => step,
                Ok(owner) => match slot_contents(user.npid@, owner, req.slot_id, got) {
                    Err(step) => step,
                    Ok((status, data)) => if !user.vuser && user.npid@ == client.npid@
                        && !got.floor_marked {
                        StepView::Ask(
                            Query::MarkRankFloorDelivered {
                                user_id: client.user_id,
                                slot: req.slot_id,
                            },
                        )
                    } else {
                        StepView::Answer(ReplyView::Data { status, data })
                    },
                },
            }
        },
    }
}

/// What is known while the states of slots are being read.
#[derive(Debug)]
pub struct GetStatusAnswers {
    pub db: Option<Result<(), ErrorType>>,
    /// The account that the request names, or that of the user whose slot is to
    /// be read next.
    pub owner: Option<Result<i64, DbError>>,
    pub rows: StatusRows,
    pub names: Names,
}

impl GetStatusAnswers {
    /// Takes in what reading a user's slot gave, and goes on to the next user,
    /// whose account is still to be looked up. A slot that cannot be read counts
    /// as empty.
    pub fn answer_row(&mut self, reply: Result<(DbTusDataStatus, Vec<u8>), DbError>)
        requires
            old(self).rows.wf(),
        ensures
            final(self).rows.wf(),
            final(self).owner is None,
            final(self).db == old(self).db,
            final(self).names == old(self).names,
            match reply {
                Ok(row) => final(self).rows.rows@ == old(self).rows.rows@.push(Some(row)),
                Err(_) => final(self).rows.rows@ == old(self).rows.rows@.push(None),
            },
    {
        self.rows.answer(reply);
        self.owner = None;
    }
}

/// How reading slot states goes on once every slot has been read.
pub open spec fn name_statuses<'a>(
    owners: Seq<&String>,
    rows: StatusRows,
    names: Names,
) -> StepView<'a> {
    if names.failed {
        StepView::Done(Err(ErrorType::DbFail))
    } else if names.names@.len() < rows.authors@.len() {
        StepView::Ask(Query::Username { user_id: rows.authors@[names.names@.len() as int] })
    } else {
        StepView::Answer(ReplyView::Statuses(status_replies(owners, rows.rows@, names.names@)))
    }
}

/// How reading the states of one user's slots goes on.
pub open spec fn get_multislot_data_status<'a>(
    req: &'a TusGetMultiSlotDataStatusRequest,
    got: GetStatusAnswers,
) -> StepView<'a> {
    match named_user(req.user) {
        None => StepView::Done(Err(ErrorType::Malformed)),
        Some(user) => if let Some(step) = without_db(got.db) {
            step
        } else {
            match read_owner(&user, got.owner) {
                Err(step) => step,
                Ok(owner) => {
                    let read = got.rows.rows@.len();
                    if read < req.slot_id_array@.len() {
                        StepView::Ask(
                            Query::GetData { owner, slot: req.slot_id_array@[read as int] },
                        )
                    } else {
                        name_statuses(one_owner(&user.npid, read), got.rows, got.names)
                    }
                },
            }
        },
    }
}

/// How reading the state of one slot of several users goes on.
pub open spec fn get_multiuser_data_status<'a>(
    req: &'a TusGetMultiUserDataStatusRequest,
    got: GetStatusAnswers,
) -> StepView<'a> {
    if req.users@.len() == 0 || !all_named(req.users@) {
        StepView::Done(Err(ErrorType::Malformed))
    } else if let Some(step) = without_db(got.db) {
        step
    } else {
        let read = got.rows.rows@.len() as int;
        if read < req.users@.len() {
            match read_owner(&req.users@[read], got.owner) {
                Err(step) => step,
                Ok(owner) => StepView::Ask(Query::GetData { owner, slot: req.slot_id }),
            }
        } else {
            name_statuses(npids(req.users@), got.rows, got.names)
        }
    }
}

/// What is known while data are being deleted.
#[derive(Debug)]
pub struct DeleteDataAnswers {
    pub db: Option<Result<(), ErrorType>>,
    /// The account that the request names.
    pub owner: Option<Result<i64, DbError>>,
    pub deleted: Option<Result<(), DbError>>,
    /// Whether the rank floors of the slots have been dealt with.
    pub floor_cleared: bool,
}

/// How deleting data goes on. An account's rank floors go with its data.
pub open spec fn delete_multislot_data<'a>(
    client: Client,
    req: &'a TusDeleteMultiSlotDataRequest,
    got: DeleteDataAnswers,
) -> StepView<'a> {
    match named_user(req.user) {
        Some(user) if req.slot_id_array@.len() > 0 => {
            if let Some(step) = without_db(got.db) {
                step
            } else {
                match write_owner(client, &user, got.owner) {
                    Err(step) => step,
                    Ok(owner) => match got.deleted {
                        None => StepView::Ask(
                            Query::DeleteData { owner, slots: &req.slot_id_array },
                        ),
                        Some(Err(_)) => StepView::Done(Err(ErrorType::DbFail)),
                        Some(Ok(_)) => match owner {
                            Owner::Account(user_id) if !got.floor_cleared => StepView::Ask(
                                Query::ClearRankFloor { user_id, slots: &req.slot_id_array },
                            ),
                            _ => StepView::Done(Ok(ErrorType::NoError)),
                        },
                    },
                }
            }
        },
        _ => StepView::Done(Err(ErrorType::Malformed)),
    }
}

fn find_required_author<'a>(
    name: &'a String,
    looked_up: &Option<Result<i64, DbError>>,
) -> (author: Result<Option<i64>, Step<'a>>)
    ensures
        match (author, required_author(name, *looked_up)) {
            (Ok(a), Ok(b)) => a == b,
            (Err(a), Err(b)) => a@ == b,
            _ => false,
        },
{
    if name.as_str().is_empty() {
        return Ok(None);
    }
    match looked_up {
        None => Err(Step::Ask(Query::UserId { npid: name })),
        Some(Ok(user_id)) => Ok(Some(*user_id)),
        Some(Err(DbError::Empty)) => Err(Step::Done(Ok(ErrorType::CondFail))),
        Some(Err(_)) => Err(Step::Done(Err(ErrorType::DbFail))),
    }
}

fn check_conditions<'a>(
    owner: Owner<'a>,
    slot: i32,
    compare_timestamp: Option<u64>,
    compare_author_id: Option<i64>,
    stamp: &Option<Result<Option<Stamp>, DbError>>,
) -> (step: Option<Step<'a>>)
    requires
        compare_timestamp is Some || compare_author_id is Some ==> (stamp matches Some(Err(e))
            ==> e == DbError::Internal),
    ensures
        match (
            step,
            until_conditions_hold(owner, slot, compare_timestamp, compare_author_id, *stamp),
        ) {
            (Some(a), Some(b)) => a@ == b,
            (None, None) => true,
            _ => false,
        },
{
    if compare_timestamp.is_none() && compare_author_id.is_none() {
        return None;
    }
    match stamp {
        None => Some(Step::Ask(Query::GetDataStamp { owner, slot })),
        Some(stamp) => match Client::preliminary_set_tus_data_check(
            stamp,
            &compare_timestamp,
            &compare_author_id,
        ) {
            Some(result) => Some(Step::Done(result)),
            None => None,
        },
    }
}

fn store_step<'a>(
    client: &Client,
    req: &'a TusSetDataRequest,
    got: &'a SetDataAnswers,
    owner: Owner<'a>,
    data: &'a Vec<u8>,
    timestamp: u64,
    compare_timestamp: Option<u64>,
    compare_author: Option<i64>,
) -> (stored: Result<u64, Step<'a>>)
    requires
        compare_date(req.is_last_changed_date@) == Ok::<Option<u64>, ErrorType>(compare_timestamp),
    ensures
        match (
            stored,
            until_stored(*client, req, got, owner, data, timestamp, compare_author),
        ) {
            (Ok(a), Ok(b)) => a == b,
            (Err(a), Err(b)) => a@ == b,
            _ => false,
        },
{
    let data_id: u64 = match got.data_id {
        Some(data_id) => data_id,
        None => return Err(Step::Ask(Query::CreateFile { data })),
    };
    match &got.stored {
        None => {
            let info: Option<&'a Vec<u8>> = if req.info.is_empty() {
                None
            } else {
                Some(&req.info)
            };
            Err(
                Step::Ask(
                    Query::SetData {
                        owner,
                        slot: req.slot_id,
                        data_id,
                        info,
                        author_id: client.user_id,
                        timestamp,
                        compare_timestamp,
                        compare_author,
                    },
                ),
            )
        },
        Some(Ok(_)) => Ok(data_id),
        Some(Err(DbError::Empty)) => if got.file_deleted {
            Err(Step::Done(Ok(ErrorType::CondFail)))
        } else {
            Err(Step::Ask(Query::DeleteFile { data_id }))
        },
        Some(Err(_)) => Err(Step::Done(Err(ErrorType::DbFail))),
    }
}

fn find_replaced<'a>(
    owner: Owner<'a>,
    slot: i32,
    got: &'a SetDataAnswers,
) -> (replaced: Result<(Option<u64>, Option<&'a Vec<u8>>), Step<'a>>)
    ensures
        match (replaced, replaced_save(owner, slot, got)) {
            (Ok(a), Ok(b)) => a == b,
            (Err(a), Err(b)) => a@ == b,
            _ => false,
        },
{
    match &got.replaced {
        None => Err(Step::Ask(Query::GetData { owner, slot })),
        Some(Err(DbError::Empty)) => Ok((None, None)),
        Some(Err(_)) => Err(Step::Done(Err(ErrorType::DbFail))),
        Some(Ok(status)) => match &got.previous_save {
            None => Err(Step::Ask(Query::ReadFile { data_id: status.data_id })),
            Some(None) => Ok((Some(status.data_id), None)),
            Some(Some(save)) => Ok((Some(status.data_id), Some(save))),
        },
    }
}

fn find_floored<'a>(
    user_id: i64,
    req: &'a TusSetDataRequest,
    got: &'a SetDataAnswers,
) -> (floored: Result<Option<&'a Floored>, Step<'a>>)
    ensures
        match (floored, floored_save(user_id, req, got)) {
            (Ok(a), Ok(b)) => a == b,
            (Err(a), Err(b)) => a@ == b,
            _ => false,
        },
{
    // The crossing is read from what the server recorded, not from the saves: the
    // client writes back its own copy for a whole session without fetching, so
    // the previous save is not evidence of what the player has been given.
    let state: FloorState = match &got.floor {
        None => return Err(Step::Ask(Query::GetRankFloor { user_id, slot: req.slot_id })),
        Some(Err(_)) => return Err(Step::Done(Err(ErrorType::DbFail))),
        Some(Ok(Some((applied, delivered)))) => FloorState {
            applied: Some(*applied),
            delivered: *delivered,
        },
        Some(Ok(None)) => FloorState { applied: None, delivered: false },
    };
    match &got.floored {
        None => Err(Step::Ask(Query::ApplyRankFloor { data: &req.data, state })),
        Some(None) => Ok(None),
        Some(Some(floored)) => Ok(Some(floored)),
    }
}

fn find_outcome<'a>(
    req: &'a TusSetDataRequest,
    previous: Option<&'a Vec<u8>>,
    got: &'a SetDataAnswers,
) -> (outcome: Result<Option<bool>, Step<'a>>)
    ensures
        match (outcome, match_result(req, previous, got)) {
            (Ok(a), Ok(b)) => a == b,
            (Err(a), Err(b)) => a@ == b,
            _ => false,
        },
{
    let previous: &'a Vec<u8> = match previous {
        Some(previous) => previous,
        None => return Ok(None),
    };
    match &got.outcome {
        None => Err(Step::Ask(Query::CompareSaves { data: &req.data, previous })),
        Some(None) => Ok(None),
        Some(Some(outcome)) => Ok(Some(*outcome == MatchOutcome::Won)),
    }
}

fn finish_stored<'a>(
    user_id: i64,
    req: &'a TusSetDataRequest,
    got: &'a SetDataAnswers,
    superseded: Option<u64>,
    floored: Option<&'a Floored>,
    outcome: Option<bool>,
    data_id: u64,
    timestamp: u64,
) -> (step: Step<'a>)
    ensures
        step@ == after_stored(
            user_id,
            req,
            got,
            superseded,
            floored,
            outcome,
            data_id,
            timestamp,
        ),
{
    let recorded: bool = match &got.history {
        None => {
            return Step::Ask(
                Query::RecordHistory { user_id, slot: req.slot_id, data_id, timestamp, outcome },
            );
        },
        Some(history) => history.is_ok(),
    };
    if let Some(won) = outcome {
        // Nobody tells the server who won a match, so the match this save reports
        // on is whichever one the account most recently finished.
        if recorded && !got.resolved {
            return Step::Ask(Query::ResolveMatch { user_id, data_id, won, timestamp });
        }
    }
    if let Some(floored) = floored {
        // A raise the client has not been handed yet stays undelivered, so the
        // next save it sends, written without it, is raised again.
        if !got.floor_recorded {
            return Step::Ask(
                Query::SetRankFloor {
                    user_id,
                    slot: req.slot_id,
                    floor: floored.floor,
                    delivered: floored.data.is_none(),
                },
            );
        }
    }
    if let Some(superseded) = superseded {
        // The slot points at the new save, so the one it replaced is unreachable.
        if !got.file_deleted {
            return Step::Ask(Query::DeleteFile { data_id: superseded });
        }
    }
    Step::Done(Ok(ErrorType::NoError))
}

fn set_account_data_step<'a>(
    client: &Client,
    req: &'a TusSetDataRequest,
    got: &'a SetDataAnswers,
    user_id: i64,
    timestamp: u64,
    compare_timestamp: Option<u64>,
    compare_author: Option<i64>,
) -> (step: Step<'a>)
    requires
        compare_date(req.is_last_changed_date@) == Ok::<Option<u64>, ErrorType>(compare_timestamp),
    ensures
        step@ == set_account_data(*client, req, got, user_id, timestamp, compare_author),
{
    let owner: Owner<'a> = Owner::Account(user_id);
    let (superseded, previous): (Option<u64>, Option<&'a Vec<u8>>) = match find_replaced(
        owner,
        req.slot_id,
        got,
    ) {
        Ok(replaced) => replaced,
        Err(step) => return step,
    };
    let floored: Option<&'a Floored> = match find_floored(user_id, req, got) {
        Ok(floored) => floored,
        Err(step) => return step,
    };
    let outcome: Option<bool> = match find_outcome(req, previous, got) {
        Ok(outcome) => outcome,
        Err(step) => return step,
    };
    let data: &'a Vec<u8> = match floored {
        Some(floored) => match &floored.data {
            Some(data) => data,
            None => &req.data,
        },
        None => &req.data,
    };
    match store_step(
        client,
        req,
        got,
        owner,
        data,
        timestamp,
        compare_timestamp,
        compare_author,
    ) {
        Ok(data_id) => finish_stored(
            user_id,
            req,
            got,
            superseded,
            floored,
            outcome,
            data_id,
            timestamp,
        ),
        Err(step) => step,
    }
}

fn next_status_step<'a>(owners: &Vec<&String>, rows: &StatusRows, names: &Names) -> (step: Step<
    'a,
>)
    requires
        rows.wf(),
        names.names@.len() <= rows.authors@.len(),
        owners@.len() == rows.rows@.len(),
    ensures
        step@ == name_statuses(owners@, *rows, *names),
{
    if names.failed {
        return Step::Done(Err(ErrorType::DbFail));
    }
    if names.names.len() < rows.authors.len() {
        return Step::Ask(Query::Username { user_id: rows.authors[names.names.len()] });
    }
    Step::Answer(Reply::Statuses(build_statuses(owners, &rows.rows, &names.names)))
}

impl Client {
    /// Whether the conditions of a request already rule a change out, before
    /// anything has been written. `stamp` is what looking the slot up gave; it is
    /// not looked at where the request sets no conditions.
    pub fn preliminary_set_tus_data_check(
        stamp: &Result<Option<Stamp>, DbError>,
        compare_timestamp: &Option<u64>,
        compare_author_id: &Option<i64>,
    ) -> (refusal: Option<Result<ErrorType, ErrorType>>)
        requires
            *compare_timestamp is Some || *compare_author_id is Some ==> (stamp matches Err(e)
                ==> e == DbError::Internal),
        ensures
            refusal == (if *compare_timestamp is None && *compare_author_id is None {
                None
            } else {
                stamp_refusal(*stamp, *compare_timestamp, *compare_author_id)
            }),
    {
        if compare_timestamp.is_some() || compare_author_id.is_some() {
            match stamp {
                Err(_) => return Some(Err(ErrorType::DbFail)),
                Ok(None) => return None,
                Ok(Some((db_timestamp, db_author_id))) => {
                    if let Some(compare_timestamp) = compare_timestamp {
                        if *db_timestamp > *compare_timestamp {
                            return Some(Ok(ErrorType::CondFail));
                        }
                    }
                    if let Some(compare_author_id) = compare_author_id {
                        if *compare_author_id != *db_author_id {
                            return Some(Ok(ErrorType::CondFail));
                        }
                    }
                },
            }
        }
        None
    }

    /// Stores data for a virtual user or for the client's own account.
    pub fn tus_set_data<'a>(
        &self,
        tus_req: &'a TusSetDataRequest,
        got: &'a SetDataAnswers,
    ) -> (step: Step<'a>)
        requires
            tus_req.is_last_changed_date@.len() > 0 || tus_req.is_last_changed_author_id@.len() > 0
                ==> (got.stamp matches Some(Err(e)) ==> e == DbError::Internal),
        ensures
            step@ == set_data(*self, tus_req, got),
    {
        let user: &'a TusUser = match require_user(&tus_req.user) {
            Some(user) => user,
            None => return Step::Done(Err(ErrorType::Malformed)),
        };
        if tus_req.data.is_empty() || tus_req.info.len() > SCE_NP_TUS_DATA_INFO_MAX_SIZE
            || tus_req.data.len() > UNDOCUMENTED_TUS_DATA_MAX_SIZE {
            return Step::Done(Err(ErrorType::Malformed));
        }
        let compare_timestamp: Option<u64> = match check_compare_date(
            &tus_req.is_last_changed_date,
        ) {
            Ok(date) => date,
            Err(e) => return Step::Done(Err(e)),
        };
        if let Some(step) = await_db(&got.db) {
            return step;
        }
        let compare_author: Option<i64> = match find_required_author(
            &tus_req.is_last_changed_author_id,
            &got.compare_author,
        ) {
            Ok(author) => author,
            Err(step) => return step,
        };
        let timestamp: u64 = match got.timestamp {
            Some(timestamp) => timestamp,
            None => return Step::Ask(Query::Timestamp),
        };
        let owner: Owner<'a> = match find_write_owner(self, user, &got.owner) {
            Ok(owner) => owner,
            Err(step) => return step,
        };
        if let Some(step) = check_conditions(
            owner,
            tus_req.slot_id,
            compare_timestamp,
            compare_author,
            &got.stamp,
        ) {
            return step;
        }
        match owner {
            Owner::Virtual(_) => match store_step(
                self,
                tus_req,
                got,
                owner,
                &tus_req.data,
                timestamp,
                compare_timestamp,
                compare_author,
            ) {
                Ok(_) => Step::Done(Ok(ErrorType::NoError)),
                Err(step) => step,
            },
            Owner::Account(user_id) => set_account_data_step(
                self,
                tus_req,
                got,
                user_id,
                timestamp,
                compare_timestamp,
                compare_author,
            ),
        }
    }

    /// Reads data of one user.
    pub fn tus_get_data<'a>(&self, tus_req: &'a TusGetDataRequest, got: &GetDataAnswers) -> (step:
        Step<'a>)
        ensures
            step@ == get_data(*self, tus_req, *got),
    {
        let user: &'a TusUser = match require_user(&tus_req.user) {
            Some(user) => user,
            None => return Step::Done(Err(ErrorType::Malformed)),
        };
        if let Some(step) = await_db(&got.db) {
            return step;
        }
        let owner: Owner<'a> = match find_read_owner(user, &got.owner) {
            Ok(owner) => owner,
            Err(step) => return step,
        };
        let found: Option<(&DbTusDataStatus, &Vec<u8>, &Vec<u8>, &String)> = match &got.row {
            None => return Step::Ask(Query::GetData { owner, slot: tus_req.slot_id }),
            Some(Err(DbError::Empty)) => None,
            Some(Err(_)) => return Step::Done(Err(ErrorType::DbFail)),
            Some(Ok(row)) => match &got.file {
                None => return Step::Ask(Query::ReadFile { data_id: row.0.data_id }),
                Some(None) => return Step::Done(Err(ErrorType::DbFail)),
                Some(Some(data)) => match &got.author_name {
                    None => return Step::Ask(Query::Username { user_id: row.0.author_id }),
                    Some(Err(_)) => return Step::Done(Err(ErrorType::DbFail)),
                    Some(Ok(author)) => Some((&row.0, &row.1, data, author)),
                },
            },
        };
        // The player now holds whatever the server last wrote, including a rank
        // floor it raised. From here a demotion below that floor is their own.
        if !user.vuser && user.npid == self.npid && !got.floor_marked {
            return Step::Ask(
                Query::MarkRankFloorDelivered { user_id: self.user_id, slot: tus_req.slot_id },
            );
        }
        match found {
            Some((status, info, data, author)) => Step::Answer(
                Reply::Data {
                    status: status_there(&user.npid, status, info, author),
                    data: copy_bytes(data),
                },
            ),
            None => Step::Answer(
                Reply::Data { status: status_not_there(&user.npid), data: Vec::new() },
            ),
        }
    }

    /// Reads the states of one user's slots.
    pub fn tus_get_multislot_data_status<'a>(
        &self,
        tus_req: &'a TusGetMultiSlotDataStatusRequest,
        got: &GetStatusAnswers,
    ) -> (step: Step<'a>)
        requires
            got.rows.wf(),
            got.names.names@.len() <= got.rows.authors@.len(),
        ensures
            step@ == get_multislot_data_status(tus_req, *got),
    {
        let user: &'a TusUser = match require_user(&tus_req.user) {
            Some(user) => user,
            None => return Step::Done(Err(ErrorType::Malformed)),
        };
        if let Some(step) = await_db(&got.db) {
            return step;
        }
        let owner: Owner<'a> = match find_read_owner(user, &got.owner) {
            Ok(owner) => owner,
            Err(step) => return step,
        };
        let read: usize = got.rows.rows.len();
        if read < tus_req.slot_id_array.len() {
            return Step::Ask(Query::GetData { owner, slot: tus_req.slot_id_array[read] });
        }
        let owners: Vec<&String> = repeat_owner(&user.npid, read);
        next_status_step(&owners, &got.rows, &got.names)
    }

    /// Reads the state of one slot of several users.
    pub fn tus_get_multiuser_data_status<'a>(
        &self,
        tus_req: &'a TusGetMultiUserDataStatusRequest,
        got: &GetStatusAnswers,
    ) -> (step: Step<'a>)
        requires
            got.rows.wf(),
            got.rows.rows@.len() <= tus_req.users@.len(),
            got.names.names@.len() <= got.rows.authors@.len(),
        ensures
            step@ == get_multiuser_data_status(tus_req, *got),
    {
        if tus_req.users.is_empty() || !check_all_named(&tus_req.users) {
            return Step::Done(Err(ErrorType::Malformed));
        }
        if let Some(step) = await_db(&got.db) {
            return step;
        }
        let read: usize = got.rows.rows.len();
        if read < tus_req.users.len() {
            return match find_read_owner(&tus_req.users[read], &got.owner) {
                Ok(owner) => Step::Ask(Query::GetData { owner, slot: tus_req.slot_id }),
                Err(step) => step,
            };
        }
        let owners: Vec<&String> = collect_npids(&tus_req.users);
        next_status_step(&owners, &got.rows, &got.names)
    }

    /// Deletes data of a virtual user or of the client's own account.
    pub fn tus_delete_multislot_data<'a>(
        &self,
        tus_req: &'a TusDeleteMultiSlotDataRequest,
        got: &DeleteDataAnswers,
    ) -> (step: Step<'a>)
        ensures
            step@ == delete_multislot_data(*self, tus_req, *got),
    {
        let user: &'a TusUser = match require_user(&tus_req.user) {
            Some(user) => user,
            None => return Step::Done(Err(ErrorType::Malformed)),
        };
        if tus_req.slot_id_array.is_empty() {
            return Step::Done(Err(ErrorType::Malformed));
        }
        if let Some(step) = await_db(&got.db) {
            return step;
        }
        let owner: Owner<'a> = match find_write_owner(self, user, &got.owner) {
            Ok(owner) => owner,
            Err(step) => return step,
        };
        match &got.deleted {
            None => Step::Ask(Query::DeleteData { owner, slots: &tus_req.slot_id_array }),
            Some(Err(_)) => Step::Done(Err(ErrorType::DbFail)),
            Some(Ok(_)) => match owner {
                // The slot's save is gone, so what the server held it to no longer
                // describes anything. Left behind, the next save written into the
                // slot would be read as one already at its floor.
                Owner::Account(user_id) => if got.floor_cleared {
                    Step::Done(Ok(ErrorType::NoError))
                } else {
                    Step::Ask(Query::ClearRankFloor { user_id, slots: &tus_req.slot_id_array })
                },
                Owner::Virtual(_) => Step::Done(Ok(ErrorType::NoError)),
            },
        }
    }
}

} // verus!
