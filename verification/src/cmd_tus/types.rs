//! The requests, replies and questions of the TUS commands.

use crate::error::{DbError, ErrorType};
use std::collections::HashMap;
use vstd::prelude::*;

verus! {

/// How the variables of friends are ordered.
#[allow(non_camel_case_types)]
#[derive(Clone, Copy, Debug, PartialEq, Eq, Structural)]
pub enum TusSorting {
    SCE_NP_TUS_VARIABLE_SORTTYPE_DESCENDING_DATE,
    SCE_NP_TUS_VARIABLE_SORTTYPE_ASCENDING_DATE,
    SCE_NP_TUS_VARIABLE_SORTTYPE_DESCENDING_VALUE,
    SCE_NP_TUS_VARIABLE_SORTTYPE_ASCENDING_VALUE,
}

/// How a variable is compared before it is set.
#[allow(non_camel_case_types)]
#[derive(Clone, Copy, Debug, PartialEq, Eq, Structural)]
pub enum TusOpeType {
    SCE_NP_TUS_OPETYPE_EQUAL,
    SCE_NP_TUS_OPETYPE_NOT_EQUAL,
    SCE_NP_TUS_OPETYPE_GREATER_THAN,
    SCE_NP_TUS_OPETYPE_GREATER_OR_EQUAL,
    SCE_NP_TUS_OPETYPE_LESS_THAN,
    SCE_NP_TUS_OPETYPE_LESS_OR_EQUAL,
}

/// How the data of friends are ordered.
#[allow(non_camel_case_types)]
#[derive(Clone, Copy, Debug, PartialEq, Eq, Structural)]
pub enum TusStatusSorting {
    SCE_NP_TUS_DATASTATUS_SORTTYPE_DESCENDING_DATE,
    SCE_NP_TUS_DATASTATUS_SORTTYPE_ASCENDING_DATE,
}

impl TusSorting {
    /// The number that stands for this order in a request.
    pub open spec fn code(self) -> int {
        match self {
            TusSorting::SCE_NP_TUS_VARIABLE_SORTTYPE_DESCENDING_DATE => 1,
            TusSorting::SCE_NP_TUS_VARIABLE_SORTTYPE_ASCENDING_DATE => 2,
            TusSorting::SCE_NP_TUS_VARIABLE_SORTTYPE_DESCENDING_VALUE => 3,
            TusSorting::SCE_NP_TUS_VARIABLE_SORTTYPE_ASCENDING_VALUE => 4,
        }
    }

    /// The order that a number stands for, if it stands for one.
    pub fn from_i32(n: i32) -> (sorting: Option<TusSorting>)
        ensures
            match sorting {
                Some(s) => s.code() == n,
                None => forall|s: TusSorting| s.code() != n,
            },
            sorting == (match n {
                1 => Some(TusSorting::SCE_NP_TUS_VARIABLE_SORTTYPE_DESCENDING_DATE),
                2 => Some(TusSorting::SCE_NP_TUS_VARIABLE_SORTTYPE_ASCENDING_DATE),
                3 => Some(TusSorting::SCE_NP_TUS_VARIABLE_SORTTYPE_DESCENDING_VALUE),
                4 => Some(TusSorting::SCE_NP_TUS_VARIABLE_SORTTYPE_ASCENDING_VALUE),
                _ => None,
            }),
    {
        match n {
            1 => Some(TusSorting::SCE_NP_TUS_VARIABLE_SORTTYPE_DESCENDING_DATE),
            2 => Some(TusSorting::SCE_NP_TUS_VARIABLE_SORTTYPE_ASCENDING_DATE),
            3 => Some(TusSorting::SCE_NP_TUS_VARIABLE_SORTTYPE_DESCENDING_VALUE),
            4 => Some(TusSorting::SCE_NP_TUS_VARIABLE_SORTTYPE_ASCENDING_VALUE),
            _ => None,
        }
    }
}

impl TusOpeType {
    /// The number that stands for this comparison in a request.
    pub open spec fn code(self) -> int {
        match self {
            TusOpeType::SCE_NP_TUS_OPETYPE_EQUAL => 1,
            TusOpeType::SCE_NP_TUS_OPETYPE_NOT_EQUAL => 2,
            TusOpeType::SCE_NP_TUS_OPETYPE_GREATER_THAN => 3,
            TusOpeType::SCE_NP_TUS_OPETYPE_GREATER_OR_EQUAL => 4,
            TusOpeType::SCE_NP_TUS_OPETYPE_LESS_THAN => 5,
            TusOpeType::SCE_NP_TUS_OPETYPE_LESS_OR_EQUAL => 6,
        }
    }

    /// The comparison that a number stands for, if it stands for one.
    pub fn from_i32(n: i32) -> (op_type: Option<TusOpeType>)
        ensures
            match op_type {
                Some(o) => o.code() == n,
                None => forall|o: TusOpeType| o.code() != n,
            },
            op_type == (match n {
                1 => Some(TusOpeType::SCE_NP_TUS_OPETYPE_EQUAL),
                2 => Some(TusOpeType::SCE_NP_TUS_OPETYPE_NOT_EQUAL),
                3 => Some(TusOpeType::SCE_NP_TUS_OPETYPE_GREATER_THAN),
                4 => Some(TusOpeType::SCE_NP_TUS_OPETYPE_GREATER_OR_EQUAL),
                5 => Some(TusOpeType::SCE_NP_TUS_OPETYPE_LESS_THAN),
                6 => Some(TusOpeType::SCE_NP_TUS_OPETYPE_LESS_OR_EQUAL),
                _ => None,
            }),
    {
        match n {
            1 => Some(TusOpeType::SCE_NP_TUS_OPETYPE_EQUAL),
            2 => Some(TusOpeType::SCE_NP_TUS_OPETYPE_NOT_EQUAL),
            3 => Some(TusOpeType::SCE_NP_TUS_OPETYPE_GREATER_THAN),
            4 => Some(TusOpeType::SCE_NP_TUS_OPETYPE_GREATER_OR_EQUAL),
            5 => Some(TusOpeType::SCE_NP_TUS_OPETYPE_LESS_THAN),
            6 => Some(TusOpeType::SCE_NP_TUS_OPETYPE_LESS_OR_EQUAL),
            _ => None,
        }
    }
}

impl TusStatusSorting {
    /// The number that stands for this order in a request.
    pub open spec fn code(self) -> int {
        match self {
            TusStatusSorting::SCE_NP_TUS_DATASTATUS_SORTTYPE_DESCENDING_DATE => 1,
            TusStatusSorting::SCE_NP_TUS_DATASTATUS_SORTTYPE_ASCENDING_DATE => 2,
        }
    }

    /// The order that a number stands for, if it stands for one.
    pub fn from_i32(n: i32) -> (sorting: Option<TusStatusSorting>)
        ensures
            match sorting {
                Some(s) => s.code() == n,
                None => forall|s: TusStatusSorting| s.code() != n,
            },
            sorting == (match n {
                1 => Some(TusStatusSorting::SCE_NP_TUS_DATASTATUS_SORTTYPE_DESCENDING_DATE),
                2 => Some(TusStatusSorting::SCE_NP_TUS_DATASTATUS_SORTTYPE_ASCENDING_DATE),
                _ => None,
            }),
    {
        match n {
            1 => Some(TusStatusSorting::SCE_NP_TUS_DATASTATUS_SORTTYPE_DESCENDING_DATE),
            2 => Some(TusStatusSorting::SCE_NP_TUS_DATASTATUS_SORTTYPE_ASCENDING_DATE),
            _ => None,
        }
    }
}

/// Largest info blob that a title may store along with its data.
pub const SCE_NP_TUS_DATA_INFO_MAX_SIZE: usize = 387;

/// Largest data that a title may store: 1 MiB.
pub const UNDOCUMENTED_TUS_DATA_MAX_SIZE: usize = 1_048_576;

/// The connected account that a command comes from.
#[derive(Debug)]
pub struct Client {
    pub user_id: i64,
    pub npid: String,
}

/// Whom a command is about: an account, or a virtual user of the title.
#[derive(Debug)]
pub struct TusUser {
    pub npid: String,
    pub vuser: bool,
}

#[derive(Debug)]
pub struct TusSetMultiSlotVariableRequest {
    pub user: Option<TusUser>,
    pub slot_id_array: Vec<i32>,
    pub variable_array: Vec<i64>,
}

#[derive(Debug)]
pub struct TusGetMultiSlotVariableRequest {
    pub user: Option<TusUser>,
    pub slot_id_array: Vec<i32>,
}

#[derive(Debug)]
pub struct TusGetMultiUserVariableRequest {
    pub users: Vec<TusUser>,
    pub slot_id: i32,
}

#[derive(Debug)]
pub struct TusGetFriendsVariableRequest {
    pub slot_id: i32,
    pub include_self: bool,
    pub sort_type: i32,
    pub array_num: u32,
}

#[derive(Debug)]
pub struct TusAddAndGetVariableRequest {
    pub user: Option<TusUser>,
    pub slot_id: i32,
    pub in_variable: i64,
    pub is_last_changed_date: Vec<u64>,
    pub is_last_changed_author_id: String,
}

#[derive(Debug)]
pub struct TusTryAndSetVariableRequest {
    pub user: Option<TusUser>,
    pub slot_id: i32,
    pub ope_type: i32,
    pub variable: i64,
    pub is_last_changed_date: Vec<u64>,
    pub is_last_changed_author_id: String,
    pub compare_value: Vec<i64>,
}

#[derive(Debug)]
pub struct TusDeleteMultiSlotVariableRequest {
    pub user: Option<TusUser>,
    pub slot_id_array: Vec<i32>,
}

#[derive(Debug)]
pub struct TusSetDataRequest {
    pub user: Option<TusUser>,
    pub slot_id: i32,
    pub data: Vec<u8>,
    pub info: Vec<u8>,
    pub is_last_changed_date: Vec<u64>,
    pub is_last_changed_author_id: String,
}

#[derive(Debug)]
pub struct TusGetDataRequest {
    pub user: Option<TusUser>,
    pub slot_id: i32,
}

#[derive(Debug)]
pub struct TusGetMultiSlotDataStatusRequest {
    pub user: Option<TusUser>,
    pub slot_id_array: Vec<i32>,
}

#[derive(Debug)]
pub struct TusGetMultiUserDataStatusRequest {
    pub users: Vec<TusUser>,
    pub slot_id: i32,
}

#[derive(Debug)]
pub struct TusGetFriendsDataStatusRequest {
    pub slot_id: i32,
    pub include_self: bool,
    pub sort_type: i32,
    pub array_num: u32,
}

#[derive(Debug)]
pub struct TusDeleteMultiSlotDataRequest {
    pub user: Option<TusUser>,
    pub slot_id_array: Vec<i32>,
}

/// A variable as the database keeps it.
#[derive(Clone, Copy, Debug, PartialEq, Eq)]
pub struct DbTusVariable {
    pub variable: i64,
    pub timestamp: u64,
    pub author_id: i64,
}

/// What the database keeps about the data in a slot.
#[derive(Clone, Copy, Debug, PartialEq, Eq)]
pub struct DbTusDataStatus {
    pub data_id: u64,
    pub timestamp: u64,
    pub author_id: i64,
}

/// One variable of a reply.
#[derive(Debug)]
pub struct TusVariable {
    pub owner_id: String,
    pub has_data: bool,
    pub last_changed_date: u64,
    pub last_changed_author_id: String,
    pub variable: i64,
    pub old_variable: i64,
}

/// The state of one slot of a reply.
#[derive(Debug)]
pub struct TusDataStatus {
    pub owner_id: String,
    pub has_data: bool,
    pub last_changed_date: u64,
    pub last_changed_author_id: String,
    pub info: Vec<u8>,
}

/// What is in a [`TusVariable`].
pub struct TusVariableView {
    pub owner_id: Seq<char>,
    pub has_data: bool,
    pub last_changed_date: u64,
    pub last_changed_author_id: Seq<char>,
    pub variable: i64,
    pub old_variable: i64,
}

/// What is in a [`TusDataStatus`].
pub struct TusDataStatusView {
    pub owner_id: Seq<char>,
    pub has_data: bool,
    pub last_changed_date: u64,
    pub last_changed_author_id: Seq<char>,
    pub info: Seq<u8>,
}

impl View for TusVariable {
    type V = TusVariableView;

    open spec fn view(&self) -> TusVariableView {
        TusVariableView {
            owner_id: self.owner_id@,
            has_data: self.has_data,
            last_changed_date: self.last_changed_date,
            last_changed_author_id: self.last_changed_author_id@,
            variable: self.variable,
            old_variable: self.old_variable,
        }
    }
}

impl View for TusDataStatus {
    type V = TusDataStatusView;

    open spec fn view(&self) -> TusDataStatusView {
        TusDataStatusView {
            owner_id: self.owner_id@,
            has_data: self.has_data,
            last_changed_date: self.last_changed_date,
            last_changed_author_id: self.last_changed_author_id@,
            info: self.info@,
        }
    }
}

/// Whose slots a question is about.
#[derive(Clone, Copy, Debug)]
pub enum Owner<'a> {
    /// A virtual user of the title, by name.
    Virtual(&'a String),
    /// An account, by its id.
    Account(i64),
}

/// How far an account's characters have been raised on its behalf.
#[derive(Clone, Copy, Debug, PartialEq, Eq)]
pub struct FloorState {
    /// The floor that was last applied, if any was.
    pub applied: Option<u8>,
    /// Whether the client has fetched a save with that floor since.
    pub delivered: bool,
}

/// What holding a save to its rank floor gave.
#[derive(Debug)]
pub struct Floored {
    /// The floor that the save is held to.
    pub floor: u8,
    /// The raised save, where something was raised.
    pub data: Option<Vec<u8>>,
}

/// How the match went that a save reports on.
#[derive(Clone, Copy, Debug, PartialEq, Eq, Structural)]
pub enum MatchOutcome {
    Won,
    Lost,
}

/// Something that a command needs the host to do or find out.
#[derive(Debug)]
pub enum Query<'a> {
    /// Get a database connection.
    Connect,
    /// The id of the account with this npid.
    UserId { npid: &'a String },
    /// The npid of the account with this id.
    Username { user_id: i64 },
    /// The npid of the author of a friend's slot. The users at hand are tried
    /// before the database.
    AuthorName { author_id: i64 },
    /// The client's friends, as they are at the moment.
    Friends,
    /// The current PSN timestamp.
    Timestamp,
    /// Set a variable, with the timestamp of the moment. One that cannot be set
    /// is passed over.
    SetVariable { owner: Owner<'a>, slot: i32, value: i64, author_id: i64 },
    /// Read a variable.
    GetVariable { owner: Owner<'a>, slot: i32 },
    /// Add to a variable, if the conditions hold, and read it.
    AddAndGetVariable {
        owner: Owner<'a>,
        slot: i32,
        to_add: i64,
        author_id: i64,
        timestamp: u64,
        compare_timestamp: Option<u64>,
        compare_author: Option<i64>,
    },
    /// Set a variable, if the conditions hold, and read it.
    TryAndSetVariable {
        owner: Owner<'a>,
        slot: i32,
        to_set: i64,
        author_id: i64,
        timestamp: u64,
        compare_value: i64,
        op_type: TusOpeType,
        compare_timestamp: Option<u64>,
        compare_author: Option<i64>,
    },
    /// Delete the variables in these slots.
    DeleteVariables { owner: Owner<'a>, slots: &'a Vec<i32> },
    /// Read one slot's variable of each of these users that has one.
    GetVariableOfUsers {
        users: &'a HashMap<i64, String>,
        slot: i32,
        sorting: TusSorting,
        array_num: u32,
    },
    /// When a slot's data were last changed, and by whom.
    GetDataStamp { owner: Owner<'a>, slot: i32 },
    /// What is kept about a slot's data, and their info blob.
    GetData { owner: Owner<'a>, slot: i32 },
    /// What is kept about one slot's data of each of these users that has some.
    GetDataOfUsers {
        users: &'a HashMap<i64, String>,
        slot: i32,
        status_sorting: TusStatusSorting,
        array_num: u32,
    },
    /// Point a slot at new data, if the conditions hold.
    SetData {
        owner: Owner<'a>,
        slot: i32,
        data_id: u64,
        info: Option<&'a Vec<u8>>,
        author_id: i64,
        timestamp: u64,
        compare_timestamp: Option<u64>,
        compare_author: Option<i64>,
    },
    /// Delete the data in these slots.
    DeleteData { owner: Owner<'a>, slots: &'a Vec<i32> },
    /// Write a new data file. The answer is its id, or 0 where it failed.
    CreateFile { data: &'a Vec<u8> },
    /// Read a data file.
    ReadFile { data_id: u64 },
    /// Delete a data file.
    DeleteFile { data_id: u64 },
    /// The rank floor on record for a slot.
    GetRankFloor { user_id: i64, slot: i32 },
    /// Hold a save to its title's rank floor.
    ApplyRankFloor { data: &'a Vec<u8>, state: FloorState },
    /// How the match went that lies between two saves.
    CompareSaves { data: &'a Vec<u8>, previous: &'a Vec<u8> },
    /// Put a save into the slot's history.
    RecordHistory {
        user_id: i64,
        slot: i32,
        data_id: u64,
        timestamp: u64,
        outcome: Option<bool>,
    },
    /// Record who won the match that a save reports on.
    ResolveMatch { user_id: i64, data_id: u64, won: bool, timestamp: u64 },
    /// Record the floor that a slot's save was held to.
    SetRankFloor { user_id: i64, slot: i32, floor: u8, delivered: bool },
    /// Record that the client has fetched what the server last wrote.
    MarkRankFloorDelivered { user_id: i64, slot: i32 },
    /// Forget the floors on record for these slots.
    ClearRankFloor { user_id: i64, slots: &'a Vec<i32> },
}

/// What a command answers with, besides success.
#[derive(Debug)]
pub enum Reply {
    Variable(TusVariable),
    Variables(Vec<TusVariable>),
    Data { status: TusDataStatus, data: Vec<u8> },
    Statuses(Vec<TusDataStatus>),
}

/// What is in a [`Reply`].
pub enum ReplyView {
    Variable(TusVariableView),
    Variables(Seq<TusVariableView>),
    Data { status: TusDataStatusView, data: Seq<u8> },
    Statuses(Seq<TusDataStatusView>),
}

/// Where a command stands.
#[derive(Debug)]
pub enum Step<'a> {
    /// The host has something to do or find out.
    Ask(Query<'a>),
    /// The command ends without a reply packet.
    Done(Result<ErrorType, ErrorType>),
    /// The command succeeds, with a reply packet.
    Answer(Reply),
}

/// What is in a [`Step`].
pub enum StepView<'a> {
    Ask(Query<'a>),
    Done(Result<ErrorType, ErrorType>),
    Answer(ReplyView),
}

/// What is in each of a list of variables.
pub open spec fn variable_views(vars: Seq<TusVariable>) -> Seq<TusVariableView> {
    Seq::new(vars.len(), |i: int| vars[i]@)
}

/// What is in each of a list of slot states.
pub open spec fn status_views(statuses: Seq<TusDataStatus>) -> Seq<TusDataStatusView> {
    Seq::new(statuses.len(), |i: int| statuses[i]@)
}

impl View for Reply {
    type V = ReplyView;

    open spec fn view(&self) -> ReplyView {
        match *self {
            Reply::Variable(var) => ReplyView::Variable(var@),
            Reply::Variables(vars) => ReplyView::Variables(variable_views(vars@)),
            Reply::Data { status, data } => ReplyView::Data { status: status@, data: data@ },
            Reply::Statuses(statuses) => ReplyView::Statuses(status_views(statuses@)),
        }
    }
}

impl<'a> View for Step<'a> {
    type V = StepView<'a>;

    open spec fn view(&self) -> StepView<'a> {
        match *self {
            Step::Ask(query) => StepView::Ask(query),
            Step::Done(result) => StepView::Done(result),
            Step::Answer(reply) => StepView::Answer(reply@),
        }
    }
}

/// A variable of a reply that is there.
pub open spec fn present_variable(
    owner: Seq<char>,
    row: DbTusVariable,
    author: Seq<char>,
) -> TusVariableView {
    TusVariableView {
        owner_id: owner,
        has_data: true,
        last_changed_date: row.timestamp,
        last_changed_author_id: author,
        variable: row.variable,
        old_variable: row.variable,
    }
}

/// A variable of a reply that is not there.
pub open spec fn absent_variable(owner: Seq<char>) -> TusVariableView {
    TusVariableView {
        owner_id: owner,
        has_data: false,
        last_changed_date: 0,
        last_changed_author_id: Seq::empty(),
        variable: 0,
        old_variable: 0,
    }
}

/// The state of a slot that holds data.
pub open spec fn present_status(
    owner: Seq<char>,
    row: DbTusDataStatus,
    info: Seq<u8>,
    author: Seq<char>,
) -> TusDataStatusView {
    TusDataStatusView {
        owner_id: owner,
        has_data: true,
        last_changed_date: row.timestamp,
        last_changed_author_id: author,
        info,
    }
}

/// The state of a slot that holds nothing.
pub open spec fn absent_status(owner: Seq<char>) -> TusDataStatusView {
    TusDataStatusView {
        owner_id: owner,
        has_data: false,
        last_changed_date: 0,
        last_changed_author_id: Seq::empty(),
        info: Seq::empty(),
    }
}

pub(crate) fn variable_there(
    owner: &String,
    row: &DbTusVariable,
    author: &String,
) -> (var: TusVariable)
    ensures
        var@ == present_variable(owner@, *row, author@),
{
    TusVariable {
        owner_id: owner.clone(),
        has_data: true,
        last_changed_date: row.timestamp,
        last_changed_author_id: author.clone(),
        variable: row.variable,
        old_variable: row.variable,
    }
}

pub(crate) fn variable_not_there(owner: &String) -> (var: TusVariable)
    ensures
        var@ == absent_variable(owner@),
{
    TusVariable {
        owner_id: owner.clone(),
        has_data: false,
        last_changed_date: 0,
        last_changed_author_id: String::new(),
        variable: 0,
        old_variable: 0,
    }
}

pub(crate) fn copy_bytes(bytes: &Vec<u8>) -> (copy: Vec<u8>)
    ensures
        copy@ == bytes@,
{
    vstd::slice::slice_to_vec(bytes.as_slice())
}

pub(crate) fn status_there(
    owner: &String,
    row: &DbTusDataStatus,
    info: &Vec<u8>,
    author: &String,
) -> (status: TusDataStatus)
    ensures
        status@ == present_status(owner@, *row, info@, author@),
{
    TusDataStatus {
        owner_id: owner.clone(),
        has_data: true,
        last_changed_date: row.timestamp,
        last_changed_author_id: author.clone(),
        info: copy_bytes(info),
    }
}

pub(crate) fn status_not_there(owner: &String) -> (status: TusDataStatus)
    ensures
        status@ == absent_status(owner@),
{
    TusDataStatus {
        owner_id: owner.clone(),
        has_data: false,
        last_changed_date: 0,
        last_changed_author_id: String::new(),
        info: Vec::new(),
    }
}

/// Whether a user is named at all.
pub open spec fn is_named(user: TusUser) -> bool {
    user.npid@.len() > 0
}

/// The user of a request that names one. Any other request is malformed.
pub open spec fn named_user(user: Option<TusUser>) -> Option<TusUser> {
    match user {
        Some(u) if is_named(u) => Some(u),
        _ => None,
    }
}

pub(crate) fn require_user(user: &Option<TusUser>) -> (named: Option<&TusUser>)
    ensures
        match named {
            Some(u) => named_user(*user) == Some(*u),
            None => named_user(*user) is None,
        },
{
    match user {
        Some(u) => if u.npid.as_str().is_empty() {
            None
        } else {
            Some(u)
        },
        None => None,
    }
}

/// The account that a lookup by npid found, or how the command goes on without
/// one: the lookup is still to be made, there is no such account, or the
/// database failed.
pub open spec fn found_account<'a>(
    npid: &'a String,
    looked_up: Option<Result<i64, DbError>>,
) -> Result<i64, StepView<'a>> {
    match looked_up {
        None => Err(StepView::Ask(Query::UserId { npid })),
        Some(Ok(user_id)) => Ok(user_id),
        Some(Err(DbError::Empty)) => Err(StepView::Done(Ok(ErrorType::NotFound))),
        Some(Err(_)) => Err(StepView::Done(Err(ErrorType::DbFail))),
    }
}

/// Whose slots a command reads: a virtual user's by name, or an account's once
/// it has been looked up.
pub open spec fn read_owner<'a>(
    user: &'a TusUser,
    looked_up: Option<Result<i64, DbError>>,
) -> Result<Owner<'a>, StepView<'a>> {
    if user.vuser {
        Ok(Owner::Virtual(&user.npid))
    } else {
        match found_account(&user.npid, looked_up) {
            Ok(user_id) => Ok(Owner::Account(user_id)),
            Err(step) => Err(step),
        }
    }
}

/// Whose slots a command writes: as for reading, but an account's only if it is
/// the client's own.
pub open spec fn write_owner<'a>(
    client: Client,
    user: &'a TusUser,
    looked_up: Option<Result<i64, DbError>>,
) -> Result<Owner<'a>, StepView<'a>> {
    match read_owner(user, looked_up) {
        Ok(Owner::Account(user_id)) if user_id != client.user_id => Err(
            StepView::Done(Ok(ErrorType::Unauthorized)),
        ),
        other => other,
    }
}

pub(crate) fn find_read_owner<'a>(
    user: &'a TusUser,
    looked_up: &Option<Result<i64, DbError>>,
) -> (owner: Result<Owner<'a>, Step<'a>>)
    ensures
        match (owner, read_owner(user, *looked_up)) {
            (Ok(a), Ok(b)) => a == b,
            (Err(a), Err(b)) => a@ == b,
            _ => false,
        },
{
    if user.vuser {
        return Ok(Owner::Virtual(&user.npid));
    }
    match looked_up {
        None => Err(Step::Ask(Query::UserId { npid: &user.npid })),
        Some(Ok(user_id)) => Ok(Owner::Account(*user_id)),
        Some(Err(DbError::Empty)) => Err(Step::Done(Ok(ErrorType::NotFound))),
        Some(Err(_)) => Err(Step::Done(Err(ErrorType::DbFail))),
    }
}

pub(crate) fn find_write_owner<'a>(
    client: &Client,
    user: &'a TusUser,
    looked_up: &Option<Result<i64, DbError>>,
) -> (owner: Result<Owner<'a>, Step<'a>>)
    ensures
        match (owner, write_owner(*client, user, *looked_up)) {
            (Ok(a), Ok(b)) => a == b,
            (Err(a), Err(b)) => a@ == b,
            _ => false,
        },
{
    match find_read_owner(user, looked_up) {
        Ok(Owner::Account(user_id)) => if user_id != client.user_id {
            Err(Step::Done(Ok(ErrorType::Unauthorized)))
        } else {
            Ok(Owner::Account(user_id))
        },
        Ok(Owner::Virtual(npid)) => Ok(Owner::Virtual(npid)),
        Err(step) => Err(step),
    }
}

/// How a command goes on while it has no database connection.
pub open spec fn without_db<'a>(db: Option<Result<(), ErrorType>>) -> Option<StepView<'a>> {
    match db {
        None => Some(StepView::Ask(Query::Connect)),
        Some(Err(e)) => Some(StepView::Done(Err(e))),
        Some(Ok(_)) => None,
    }
}

pub(crate) fn await_db<'a>(db: &Option<Result<(), ErrorType>>) -> (step: Option<Step<'a>>)
    ensures
        match (step, without_db::<'a>(*db)) {
            (Some(a), Some(b)) => a@ == b,
            (None, None) => true,
            _ => false,
        },
{
    match db {
        None => Some(Step::Ask(Query::Connect)),
        Some(Err(e)) => Some(Step::Done(Err(*e))),
        Some(Ok(_)) => None,
    }
}

/// Whether all that a variable of a reply holds is seen.
pub open spec fn shows_variable(seen: TusVariableView, var: TusVariable) -> bool {
    &&& seen.owner_id == var.owner_id@
    &&& seen.has_data == var.has_data
    &&& seen.last_changed_date == var.last_changed_date
    &&& seen.last_changed_author_id == var.last_changed_author_id@
    &&& seen.variable == var.variable
    &&& seen.old_variable == var.old_variable
}

/// Whether all that the state of a slot holds is seen.
pub open spec fn shows_status(seen: TusDataStatusView, status: TusDataStatus) -> bool {
    &&& seen.owner_id == status.owner_id@
    &&& seen.has_data == status.has_data
    &&& seen.last_changed_date == status.last_changed_date
    &&& seen.last_changed_author_id == status.last_changed_author_id@
    &&& seen.info == status.info@
}

/// All that a reply holds is seen, each item of a list in its place.
pub proof fn law_all_of_a_reply_is_seen(reply: Reply, i: int)
    ensures
        match (reply, reply@) {
            (Reply::Variable(var), ReplyView::Variable(seen)) => shows_variable(seen, var),
            (Reply::Variables(vars), ReplyView::Variables(seen)) => {
                &&& seen.len() == vars@.len()
                &&& 0 <= i < seen.len() ==> shows_variable(seen[i], vars@[i])
            },
            (Reply::Data { status, data }, ReplyView::Data { status: seen, data: bytes }) => {
                shows_status(seen, status) && bytes == data@
            },
            (Reply::Statuses(statuses), ReplyView::Statuses(seen)) => {
                &&& seen.len() == statuses@.len()
                &&& 0 <= i < seen.len() ==> shows_status(seen[i], statuses@[i])
            },
            _ => false,
        },
{
}

/// All that a command asks, ends with or answers is seen.
pub proof fn law_all_of_a_step_is_seen(step: Step)
    ensures
        match (step, step@) {
            (Step::Ask(query), StepView::Ask(seen)) => seen == query,
            (Step::Done(result), StepView::Done(seen)) => seen == result,
            (Step::Answer(reply), StepView::Answer(seen)) => seen == reply@,
            _ => false,
        },
{
}

} // verus!
