//! The commands on TUS variables.

use crate::cmd_tus::rows::{
    build_variables, one_owner, repeat_owner, variable_replies, Names,
    VariableRows,
};
use crate::cmd_tus::types::{
    await_db, find_read_owner, find_write_owner, is_named, named_user,
    present_variable, read_owner, require_user, variable_there, without_db, write_owner, Client,
    DbTusVariable, Owner, Query, Reply, ReplyView, Step, StepView, TusAddAndGetVariableRequest,
    TusDeleteMultiSlotVariableRequest, TusGetMultiSlotVariableRequest,
    TusGetMultiUserVariableRequest, TusOpeType, TusSetMultiSlotVariableRequest,
    TusTryAndSetVariableRequest, TusUser,
};
use crate::error::{DbError, ErrorType};
use vstd::prelude::*;
use vstd::string::*;

verus! {

/// What is known while variables are being set.
#[derive(Debug)]
pub struct SetMultislotAnswers {
    pub db: Option<Result<(), ErrorType>>,
    /// The account that the request names.
    pub owner: Option<Result<i64, DbError>>,
    /// How many of the slots have been dealt with.
    pub written: usize,
}

/// How setting variables goes on.
pub open spec fn set_multislot_variable<'a>(
    client: Client,
    req: &'a TusSetMultiSlotVariableRequest,
    got: SetMultislotAnswers,
) -> StepView<'a> {
    match named_user(req.user) {
        Some(user) if req.slot_id_array@.len() == req.variable_array@.len() => {
            if let Some(step) = without_db(got.db) {
                step
            } else {
                match write_owner(client, &user, got.owner) {
                    Err(step) => step,
                    Ok(owner) => if got.written < req.slot_id_array@.len() {
                        StepView::Ask(
                            Query::SetVariable {
                                owner,
                                slot: req.slot_id_array@[got.written as int],
                                value: req.variable_array@[got.written as int],
                                author_id: client.user_id,
                            },
                        )
                    } else {
                        StepView::Done(Ok(ErrorType::NoError))
                    },
                }
            }
        },
        _ => StepView::Done(Err(ErrorType::Malformed)),
    }
}

/// What is known while the variables of one user are being read.
#[derive(Debug)]
pub struct GetMultislotAnswers {
    pub db: Option<Result<(), ErrorType>>,
    /// The account that the request names.
    pub owner: Option<Result<i64, DbError>>,
    pub rows: VariableRows,
    pub names: Names,
}

/// How reading variables goes on once it is known whose they are: `next` is the
/// slot that comes after those that have been read.
pub open spec fn read_variables<'a>(
    owners: Seq<&String>,
    next: Option<Query<'a>>,
    rows: VariableRows,
    names: Names,
) -> StepView<'a> {
    if rows.failed {
        StepView::Done(Err(ErrorType::DbFail))
    } else if let Some(query) = next {
        StepView::Ask(query)
    } else if names.failed {
        StepView::Done(Err(ErrorType::DbFail))
    } else if names.names@.len() < rows.authors@.len() {
        StepView::Ask(Query::Username { user_id: rows.authors@[names.names@.len() as int] })
    } else {
        StepView::Answer(
            ReplyView::Variables(variable_replies(owners, rows.rows@, names.names@)),
        )
    }
}

/// How reading the variables of one user goes on.
pub open spec fn get_multislot_variable<'a>(
    req: &'a TusGetMultiSlotVariableRequest,
    got: GetMultislotAnswers,
) -> StepView<'a> {
    match named_user(req.user) {
        None => StepView::Done(Err(ErrorType::Malformed)),
        Some(user) => {
            if let Some(step) = without_db(got.db) {
                step
            } else {
                match read_owner(&user, got.owner) {
                    Err(step) => step,
                    Ok(owner) => {
                        let read = got.rows.rows@.len();
                        read_variables(
                            one_owner(&user.npid, read),
                            if read < req.slot_id_array@.len() {
                                Some(
                                    Query::GetVariable {
                                        owner,
                                        slot: req.slot_id_array@[read as int],
                                    },
                                )
                            } else {
                                None
                            },
                            got.rows,
                            got.names,
                        )
                    },
                }
            }
        },
    }
}

/// What is known while one slot of several users is being read.
#[derive(Debug)]
pub struct GetMultiuserAnswers {
    pub db: Option<Result<(), ErrorType>>,
    /// The account of the user whose slot is to be read next.
    pub owner: Option<Result<i64, DbError>>,
    pub rows: VariableRows,
    pub names: Names,
}

impl GetMultiuserAnswers {
    /// Takes in what reading a user's slot gave, and goes on to the next user,
    /// whose account is still to be looked up. An empty slot is no failure.
    pub fn answer_row(&mut self, reply: Result<DbTusVariable, DbError>)
        requires
            old(self).rows.wf(),
        ensures
            final(self).rows.wf(),
            final(self).owner is None,
            final(self).db == old(self).db,
            final(self).names == old(self).names,
            match reply {
                Ok(row) => final(self).rows.rows@ == old(self).rows.rows@.push(Some(row))
                    && final(self).rows.failed == old(self).rows.failed,
                Err(DbError::Empty) => final(self).rows.rows@ == old(self).rows.rows@.push(None)
                    && final(self).rows.failed == old(self).rows.failed,
                Err(_) => final(self).rows.rows@ == old(self).rows.rows@
                    && final(self).rows.failed,
            },
    {
        self.rows.answer(reply);
        self.owner = None;
    }
}

/// The names of users.
pub open spec fn npids<'a>(users: Seq<TusUser>) -> Seq<&'a String> {
    Seq::new(users.len(), |i: int| &users[i].npid)
}

/// Whether every user is named.
pub open spec fn all_named(users: Seq<TusUser>) -> bool {
    forall|i: int| 0 <= i < users.len() ==> is_named(#[trigger] users[i])
}

/// How reading one variable of several users goes on.
pub open spec fn get_multiuser_variable<'a>(
    req: &'a TusGetMultiUserVariableRequest,
    got: GetMultiuserAnswers,
) -> StepView<'a> {
    if !all_named(req.users@) {
        StepView::Done(Err(ErrorType::Malformed))
    } else if let Some(step) = without_db(got.db) {
        step
    } else {
        let read = got.rows.rows@.len() as int;
        if read < req.users@.len() && !got.rows.failed {
            match read_owner(&req.users@[read], got.owner) {
                Err(step) => step,
                Ok(owner) => StepView::Ask(Query::GetVariable { owner, slot: req.slot_id }),
            }
        } else {
            read_variables(npids(req.users@), None, got.rows, got.names)
        }
    }
}

/// What is known while a variable is being changed under conditions.
#[derive(Debug)]
pub struct ChangeVariableAnswers {
    pub timestamp: Option<u64>,
    pub db: Option<Result<(), ErrorType>>,
    /// The account that the variable must have been changed by last.
    pub compare_author: Option<Result<i64, DbError>>,
    /// The account that the request names.
    pub owner: Option<Result<i64, DbError>>,
    /// The variable as it stands after the attempt.
    pub variable: Option<Result<DbTusVariable, DbError>>,
    /// The name of its author.
    pub author_name: Option<Result<String, DbError>>,
}

impl ChangeVariableAnswers {
    /// Takes in what looking up an account gave: the author that the request
    /// names in `author`, where it names one and it has not been looked up yet,
    /// or else the account that the request is about.
    pub fn answer_user_id(&mut self, author: &String, reply: Result<i64, DbError>)
        ensures
            *final(self) == (if author@.len() > 0 && old(self).compare_author is None {
                ChangeVariableAnswers { compare_author: Some(reply), ..*old(self) }
            } else {
                ChangeVariableAnswers { owner: Some(reply), ..*old(self) }
            }),
    {
        if !author.as_str().is_empty() && self.compare_author.is_none() {
            self.compare_author = Some(reply);
        } else {
            self.owner = Some(reply);
        }
    }
}

/// The date that a request compares with: none, or one. More are malformed.
pub open spec fn compare_date(dates: Seq<u64>) -> Result<Option<u64>, ErrorType> {
    if dates.len() == 0 {
        Ok(None)
    } else if dates.len() == 1 {
        Ok(Some(dates[0]))
    } else {
        Err(ErrorType::Malformed)
    }
}

/// Whom a variable must have been changed by last for a change to be made.
#[derive(Clone, Copy, Debug, PartialEq, Eq, Structural)]
pub enum AuthorCondition {
    /// The request names nobody, so anybody will do.
    Any,
    /// This account.
    Is(i64),
    /// Somebody who does not exist, so the condition is never going to match.
    Nobody,
}

/// The condition that a request sets on the author of a variable.
pub open spec fn compare_author<'a>(
    name: &'a String,
    looked_up: Option<Result<i64, DbError>>,
) -> Result<AuthorCondition, StepView<'a>> {
    if name@.len() == 0 {
        Ok(AuthorCondition::Any)
    } else {
        match looked_up {
            None => Err(StepView::Ask(Query::UserId { npid: name })),
            Some(Ok(user_id)) => Ok(AuthorCondition::Is(user_id)),
            Some(Err(DbError::Empty)) => Ok(AuthorCondition::Nobody),
            Some(Err(_)) => Err(StepView::Done(Err(ErrorType::DbFail))),
        }
    }
}

/// How a change goes on once it is known what to ask for. The variable as it
/// stands afterwards is answered with, under the name of its owner.
pub open spec fn changed_variable<'a>(
    npid: &String,
    change: Query<'a>,
    got: ChangeVariableAnswers,
) -> StepView<'a> {
    match got.variable {
        None => StepView::Ask(change),
        Some(Err(_)) => StepView::Done(Err(ErrorType::DbFail)),
        Some(Ok(row)) => match got.author_name {
            None => StepView::Ask(Query::Username { user_id: row.author_id }),
            Some(Err(_)) => StepView::Done(Err(ErrorType::DbFail)),
            Some(Ok(author)) => StepView::Answer(
                ReplyView::Variable(present_variable(npid@, row, author@)),
            ),
        },
    }
}

/// How a change goes on whose condition is never going to match: the variable
/// is only read, and answered with as it stands. Where there is none, the client
/// is told that the condition failed.
pub open spec fn unchanged_variable<'a>(
    npid: &String,
    owner: Owner<'a>,
    slot: i32,
    got: ChangeVariableAnswers,
) -> StepView<'a> {
    match got.variable {
        Some(Err(DbError::Empty)) => StepView::Done(Ok(ErrorType::CondFail)),
        _ => changed_variable(npid, Query::GetVariable { owner, slot }, got),
    }
}

/// The account that a variable must have been changed by, where that is one.
pub open spec fn wanted_author(author: AuthorCondition) -> Option<i64> {
    match author {
        AuthorCondition::Is(user_id) => Some(user_id),
        _ => None,
    }
}

/// How adding to a variable goes on.
pub open spec fn add_and_get_variable<'a>(
    client: Client,
    req: &'a TusAddAndGetVariableRequest,
    got: ChangeVariableAnswers,
) -> StepView<'a> {
    match (named_user(req.user), compare_date(req.is_last_changed_date@)) {
        (Some(user), Ok(date)) => match got.timestamp {
            None => StepView::Ask(Query::Timestamp),
            Some(timestamp) => if let Some(step) = without_db(got.db) {
                step
            } else {
                match compare_author(&req.is_last_changed_author_id, got.compare_author) {
                    Err(step) => step,
                    Ok(author) => match write_owner(client, &user, got.owner) {
                        Err(step) => step,
                        Ok(owner) => match author {
                            AuthorCondition::Nobody => unchanged_variable(
                                &user.npid,
                                owner,
                                req.slot_id,
                                got,
                            ),
                            _ => changed_variable(
                                &user.npid,
                                Query::AddAndGetVariable {
                                    owner,
                                    slot: req.slot_id,
                                    to_add: req.in_variable,
                                    author_id: client.user_id,
                                    timestamp,
                                    compare_timestamp: date,
                                    compare_author: wanted_author(author),
                                },
                                got,
                            ),
                        },
                    },
                }
            },
        },
        _ => StepView::Done(Err(ErrorType::Malformed)),
    }
}

/// The value that a variable is compared with: the one that is to be set where
/// the request gives none. More than one are malformed.
pub open spec fn compare_value(values: Seq<i64>, to_set: i64) -> Result<i64, ErrorType> {
    if values.len() == 0 {
        Ok(to_set)
    } else if values.len() == 1 {
        Ok(values[0])
    } else {
        Err(ErrorType::Malformed)
    }
}

/// The comparison that a number in a request stands for.
pub open spec fn ope_type(n: i32) -> Option<TusOpeType> {
    if exists|o: TusOpeType| o.code() == n {
        Some(choose|o: TusOpeType| o.code() == n)
    } else {
        None
    }
}

/// How setting a variable under conditions goes on.
pub open spec fn try_and_set_variable<'a>(
    client: Client,
    req: &'a TusTryAndSetVariableRequest,
    got: ChangeVariableAnswers,
) -> StepView<'a> {
    match (
        named_user(req.user),
        ope_type(req.ope_type),
        compare_value(req.compare_value@, req.variable),
        compare_date(req.is_last_changed_date@),
    ) {
        (Some(user), Some(op_type), Ok(value), Ok(date)) => match got.timestamp {
            None => StepView::Ask(Query::Timestamp),
            Some(timestamp) => if let Some(step) = without_db(got.db) {
                step
            } else {
                match compare_author(&req.is_last_changed_author_id, got.compare_author) {
                    Err(step) => step,
                    Ok(author) => match write_owner(client, &user, got.owner) {
                        Err(step) => step,
                        Ok(owner) => match author {
                            AuthorCondition::Nobody => unchanged_variable(
                                &user.npid,
                                owner,
                                req.slot_id,
                                got,
                            ),
                            _ => changed_variable(
                                &user.npid,
                                Query::TryAndSetVariable {
                                    owner,
                                    slot: req.slot_id,
                                    to_set: req.variable,
                                    author_id: client.user_id,
                                    timestamp,
                                    compare_value: value,
                                    op_type,
                                    compare_timestamp: date,
                                    compare_author: wanted_author(author),
                                },
                                got,
                            ),
                        },
                    },
                }
            },
        },
        _ => StepView::Done(Err(ErrorType::Malformed)),
    }
}

/// What is known while slots are being deleted.
#[derive(Debug)]
pub struct DeleteMultislotAnswers {
    pub db: Option<Result<(), ErrorType>>,
    /// The account that the request names.
    pub owner: Option<Result<i64, DbError>>,
    pub deleted: Option<Result<(), DbError>>,
}

/// How deleting variables goes on.
pub open spec fn delete_multislot_variable<'a>(
    client: Client,
    req: &'a TusDeleteMultiSlotVariableRequest,
    got: DeleteMultislotAnswers,
) -> StepView<'a> {
    match named_user(req.user) {
        Some(user) if req.slot_id_array@.len() > 0 => {
            if let Some(step) = without_db(got.db) {
                step
            } else {
                match write_owner(client, &user, got.owner) {
                    Err(step) => step,
                    Ok(owner) => match got.deleted {
                        None => StepView::Ask(
                            Query::DeleteVariables { owner, slots: &req.slot_id_array },
                        ),
                        Some(Ok(_)) => StepView::Done(Ok(ErrorType::NoError)),
                        Some(Err(_)) => StepView::Done(Err(ErrorType::DbFail)),
                    },
                }
            }
        },
        _ => StepView::Done(Err(ErrorType::Malformed)),
    }
}

fn next_variable_step<'a>(
    owners: &Vec<&String>,
    next: Option<Query<'a>>,
    rows: &VariableRows,
    names: &Names,
) -> (step: Step<'a>)
    requires
        rows.wf(),
        names.names@.len() <= rows.authors@.len(),
        next is None ==> owners@.len() == rows.rows@.len(),
    ensures
        step@ == read_variables(owners@, next, *rows, *names),
{
    if rows.failed {
        return Step::Done(Err(ErrorType::DbFail));
    }
    if let Some(query) = next {
        return Step::Ask(query);
    }
    if names.failed {
        return Step::Done(Err(ErrorType::DbFail));
    }
    if names.names.len() < rows.authors.len() {
        return Step::Ask(Query::Username { user_id: rows.authors[names.names.len()] });
    }
    Step::Answer(Reply::Variables(build_variables(owners, &rows.rows, &names.names)))
}

pub(crate) fn check_compare_date(dates: &Vec<u64>) -> (date: Result<Option<u64>, ErrorType>)
    ensures
        date == compare_date(dates@),
{
    if dates.len() == 1 {
        Ok(Some(dates[0]))
    } else if dates.is_empty() {
        Ok(None)
    } else {
        Err(ErrorType::Malformed)
    }
}

fn find_compare_author<'a>(
    name: &'a String,
    looked_up: &Option<Result<i64, DbError>>,
) -> (author: Result<AuthorCondition, Step<'a>>)
    ensures
        match (author, compare_author(name, *looked_up)) {
            (Ok(a), Ok(b)) => a == b,
            (Err(a), Err(b)) => a@ == b,
            _ => false,
        },
{
    if name.as_str().is_empty() {
        return Ok(AuthorCondition::Any);
    }
    match looked_up {
        None => Err(Step::Ask(Query::UserId { npid: name })),
        Some(Ok(user_id)) => Ok(AuthorCondition::Is(*user_id)),
        Some(Err(DbError::Empty)) => Ok(AuthorCondition::Nobody),
        Some(Err(_)) => Err(Step::Done(Err(ErrorType::DbFail))),
    }
}

fn next_change_step<'a>(
    npid: &String,
    change: Query<'a>,
    got: &ChangeVariableAnswers,
) -> (step: Step<'a>)
    ensures
        step@ == changed_variable(npid, change, *got),
{
    match &got.variable {
        None => Step::Ask(change),
        Some(Err(_)) => Step::Done(Err(ErrorType::DbFail)),
        Some(Ok(row)) => match &got.author_name {
            None => Step::Ask(Query::Username { user_id: row.author_id }),
            Some(Err(_)) => Step::Done(Err(ErrorType::DbFail)),
            Some(Ok(author)) => Step::Answer(
                Reply::Variable(variable_there(npid, row, author)),
            ),
        },
    }
}

fn next_unchanged_step<'a>(
    npid: &String,
    owner: Owner<'a>,
    slot: i32,
    got: &ChangeVariableAnswers,
) -> (step: Step<'a>)
    ensures
        step@ == unchanged_variable(npid, owner, slot, *got),
{
    match &got.variable {
        Some(Err(DbError::Empty)) => Step::Done(Ok(ErrorType::CondFail)),
        _ => next_change_step(npid, Query::GetVariable { owner, slot }, got),
    }
}

pub(crate) fn check_all_named(users: &Vec<TusUser>) -> (named: bool)
    ensures
        named == all_named(users@),
{
    for i in 0..users.len()
        invariant
            forall|j: int| 0 <= j < i ==> is_named(#[trigger] users@[j]),
    {
        if users[i].npid.as_str().is_empty() {
            assert(!is_named(users@[i as int]));
            return false;
        }
    }
    true
}

pub(crate) fn collect_npids<'a>(users: &'a Vec<TusUser>) -> (names: Vec<&'a String>)
    ensures
        names@ == npids(users@),
{
    let mut names: Vec<&'a String> = Vec::with_capacity(users.len());
    for i in 0..users.len()
        invariant
            names@ == npids(users@).take(i as int),
    {
        names.push(&users[i].npid);
        assert(names@ =~= npids(users@).take(i + 1));
    }
    assert(names@ =~= npids(users@));
    names
}

impl Client {
    /// Sets variables of a virtual user or of the client's own account.
    pub fn tus_set_multislot_variable<'a>(
        &self,
        tus_req: &'a TusSetMultiSlotVariableRequest,
        got: &SetMultislotAnswers,
    ) -> (step: Step<'a>)
        ensures
            step@ == set_multislot_variable(*self, tus_req, *got),
    {
        let user: &'a TusUser = match require_user(&tus_req.user) {
            Some(user) => user,
            None => return Step::Done(Err(ErrorType::Malformed)),
        };
        if tus_req.slot_id_array.len() != tus_req.variable_array.len() {
            return Step::Done(Err(ErrorType::Malformed));
        }
        if let Some(step) = await_db(&got.db) {
            return step;
        }
        let owner: Owner<'a> = match find_write_owner(self, user, &got.owner) {
            Ok(owner) => owner,
            Err(step) => return step,
        };
        let next: usize = got.written;
        if next < tus_req.slot_id_array.len() {
            Step::Ask(
                Query::SetVariable {
                    owner,
                    slot: tus_req.slot_id_array[next],
                    value: tus_req.variable_array[next],
                    author_id: self.user_id,
                },
            )
        } else {
            Step::Done(Ok(ErrorType::NoError))
        }
    }

    /// Reads variables of one user.
    pub fn tus_get_multislot_variable<'a>(
        &self,
        tus_req: &'a TusGetMultiSlotVariableRequest,
        got: &GetMultislotAnswers,
    ) -> (step: Step<'a>)
        requires
            got.rows.wf(),
            got.names.names@.len() <= got.rows.authors@.len(),
        ensures
            step@ == get_multislot_variable(tus_req, *got),
    {
        let user: &'a TusUser = match require_user(&tus_req.user) {
            Some(user) => user,
            None => return Step::Done(Err(ErrorType::Malformed)),
        };
        if let Some(step) = await_db(&got.db) {
            return step;
        }
        let owner: Owner<'a> = match find_read_owner(user, &got.owner) {
            Ok(owner) => owner,
            Err(step) => return step,
        };
        let read: usize = got.rows.rows.len();
        let owners: Vec<&String> = repeat_owner(&user.npid, read);
        if read < tus_req.slot_id_array.len() {
            let slot: i32 = tus_req.slot_id_array[read];
            next_variable_step(
                &owners,
                Some(Query::GetVariable { owner, slot }),
                &got.rows,
                &got.names,
            )
        } else {
            next_variable_step(&owners, None, &got.rows, &got.names)
        }
    }

    /// Reads one variable of several users.
    pub fn tus_get_multiuser_variable<'a>(
        &self,
        tus_req: &'a TusGetMultiUserVariableRequest,
        got: &GetMultiuserAnswers,
    ) -> (step: Step<'a>)
        requires
            got.rows.wf(),
            got.rows.rows@.len() <= tus_req.users@.len(),
            got.names.names@.len() <= got.rows.authors@.len(),
        ensures
            step@ == get_multiuser_variable(tus_req, *got),
    {
        if !check_all_named(&tus_req.users) {
            return Step::Done(Err(ErrorType::Malformed));
        }
        if let Some(step) = await_db(&got.db) {
            return step;
        }
        let read: usize = got.rows.rows.len();
        if read < tus_req.users.len() && !got.rows.failed {
            return match find_read_owner(&tus_req.users[read], &got.owner) {
                Ok(owner) => Step::Ask(Query::GetVariable { owner, slot: tus_req.slot_id }),
                Err(step) => step,
            };
        }
        if got.rows.failed {
            return Step::Done(Err(ErrorType::DbFail));
        }
        let owners: Vec<&String> = collect_npids(&tus_req.users);
        next_variable_step(&owners, None, &got.rows, &got.names)
    }

    /// Adds to a variable, if it was last changed when and by whom the request
    /// says, and answers with the variable.
    pub fn tus_add_and_get_variable<'a>(
        &self,
        tus_req: &'a TusAddAndGetVariableRequest,
        got: &ChangeVariableAnswers,
    ) -> (step: Step<'a>)
        ensures
            step@ == add_and_get_variable(*self, tus_req, *got),
    {
        let user: &'a TusUser = match require_user(&tus_req.user) {
            Some(user) => user,
            None => return Step::Done(Err(ErrorType::Malformed)),
        };
        let compare_timestamp: Option<u64> = match check_compare_date(
            &tus_req.is_last_changed_date,
        ) {
            Ok(date) => date,
            Err(e) => return Step::Done(Err(e)),
        };
        let timestamp: u64 = match got.timestamp {
            Some(timestamp) => timestamp,
            None => return Step::Ask(Query::Timestamp),
        };
        if let Some(step) = await_db(&got.db) {
            return step;
        }
        let author: AuthorCondition = match find_compare_author(
            &tus_req.is_last_changed_author_id,
            &got.compare_author,
        ) {
            Ok(author) => author,
            Err(step) => return step,
        };
        let owner: Owner<'a> = match find_write_owner(self, user, &got.owner) {
            Ok(owner) => owner,
            Err(step) => return step,
        };
        let compare_author: Option<i64> = match author {
            AuthorCondition::Any => None,
            AuthorCondition::Is(user_id) => Some(user_id),
            AuthorCondition::Nobody => return next_unchanged_step(
                &user.npid,
                owner,
                tus_req.slot_id,
                got,
            ),
        };
        next_change_step(
            &user.npid,
            Query::AddAndGetVariable {
                owner,
                slot: tus_req.slot_id,
                to_add: tus_req.in_variable,
                author_id: self.user_id,
                timestamp,
                compare_timestamp,
                compare_author,
            },
            got,
        )
    }

    /// Sets a variable, if it compares as the request asks and was last changed
    /// when and by whom it says, and answers with the variable.
    pub fn tus_try_and_set_variable<'a>(
        &self,
        tus_req: &'a TusTryAndSetVariableRequest,
        got: &ChangeVariableAnswers,
    ) -> (step: Step<'a>)
        ensures
            step@ == try_and_set_variable(*self, tus_req, *got),
    {
        let user: &'a TusUser = match require_user(&tus_req.user) {
            Some(user) => user,
            None => return Step::Done(Err(ErrorType::Malformed)),
        };
        let op_type: TusOpeType = match TusOpeType::from_i32(tus_req.ope_type) {
            Some(op_type) => op_type,
            None => return Step::Done(Err(ErrorType::Malformed)),
        };
        let compare_value: i64 = if tus_req.compare_value.len() == 1 {
            tus_req.compare_value[0]
        } else if tus_req.compare_value.is_empty() {
            tus_req.variable
        } else {
            return Step::Done(Err(ErrorType::Malformed));
        };
        let compare_timestamp: Option<u64> = match check_compare_date(
            &tus_req.is_last_changed_date,
        ) {
            Ok(date) => date,
            Err(e) => return Step::Done(Err(e)),
        };
        let timestamp: u64 = match got.timestamp {
            Some(timestamp) => timestamp,
            None => return Step::Ask(Query::Timestamp),
        };
        if let Some(step) = await_db(&got.db) {
            return step;
        }
        let author: AuthorCondition = match find_compare_author(
            &tus_req.is_last_changed_author_id,
            &got.compare_author,
        ) {
            Ok(author) => author,
            Err(step) => return step,
        };
        let owner: Owner<'a> = match find_write_owner(self, user, &got.owner) {
            Ok(owner) => owner,
            Err(step) => return step,
        };
        let compare_author: Option<i64> = match author {
            AuthorCondition::Any => None,
            AuthorCondition::Is(user_id) => Some(user_id),
            AuthorCondition::Nobody => return next_unchanged_step(
                &user.npid,
                owner,
                tus_req.slot_id,
                got,
            ),
        };
        next_change_step(
            &user.npid,
            Query::TryAndSetVariable {
                owner,
                slot: tus_req.slot_id,
                to_set: tus_req.variable,
                author_id: self.user_id,
                timestamp,
                compare_value,
                op_type,
                compare_timestamp,
                compare_author,
            },
            got,
        )
    }

    /// Deletes variables of a virtual user or of the client's own account.
    pub fn tus_delete_multislot_variable<'a>(
        &self,
        tus_req: &'a TusDeleteMultiSlotVariableRequest,
        got: &DeleteMultislotAnswers,
    ) -> (step: Step<'a>)
        ensures
            step@ == delete_multislot_variable(*self, tus_req, *got),
    {
        let user: &'a TusUser = match require_user(&tus_req.user) {
            Some(user) => user,
            None => return Step::Done(Err(ErrorType::Malformed)),
        };
        if tus_req.slot_id_array.is_empty() {
            return Step::Done(Err(ErrorType::Malformed));
        }
        if let Some(step) = await_db(&got.db) {
            return step;
        }
        let owner: Owner<'a> = match find_write_owner(self, user, &got.owner) {
            Ok(owner) => owner,
            Err(step) => return step,
        };
        match &got.deleted {
            None => Step::Ask(Query::DeleteVariables { owner, slots: &tus_req.slot_id_array }),
            Some(Ok(_)) => Step::Done(Ok(ErrorType::NoError)),
            Some(Err(_)) => Step::Done(Err(ErrorType::DbFail)),
        }
    }
}

} // verus!
