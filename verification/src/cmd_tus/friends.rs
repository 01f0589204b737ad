//! The commands on the slots of a client's friends.

use crate::cmd_tus::types::{
    await_db, present_status, present_variable, status_there, status_views, variable_there,
    variable_views, without_db, Client, DbTusDataStatus, DbTusVariable, Query, Reply, ReplyView,
    Step, StepView, TusDataStatus, TusDataStatusView, TusGetFriendsDataStatusRequest,
    TusGetFriendsVariableRequest, TusSorting, TusStatusSorting, TusVariable, TusVariableView,
};
use crate::error::{DbError, ErrorType};
use std::collections::HashMap;
use vstd::prelude::*;

verus! {

broadcast use vstd::std_specs::hash::group_hash_axioms;

/// The users whose slots a request is about: the client's friends, and the
/// client where the request asks for it.
#[derive(Debug)]
pub struct FriendList {
    /// The npid of each user, by id.
    pub users: HashMap<i64, String>,
}

/// The friends of a client, with the client among them where it is asked for.
pub open spec fn with_self(friends: Map<i64, String>, client: Client, include_self: bool) -> Map<
    i64,
    String,
> {
    if include_self {
        friends.insert(client.user_id, client.npid)
    } else {
        friends
    }
}

impl FriendList {
    pub fn new(friends: HashMap<i64, String>, client: &Client, include_self: bool) -> (list:
        FriendList)
        ensures
            list.users@ == with_self(friends@, *client, include_self),
    {
        let mut users: HashMap<i64, String> = friends;
        if include_self {
            users.insert(client.user_id, client.npid.clone());
        }
        FriendList { users }
    }
}

/// The names of authors that have been looked up so far, and why that failed
/// where it did.
#[derive(Debug)]
pub struct AuthorNames {
    pub names: Vec<String>,
    pub failed: Option<ErrorType>,
}

impl AuthorNames {
    pub fn new() -> (names: AuthorNames)
        ensures
            names.names@.len() == 0,
            names.failed is None,
    {
        AuthorNames { names: Vec::new(), failed: None }
    }

    /// Takes in what looking up the next author gave.
    pub fn answer(&mut self, reply: Result<String, ErrorType>)
        ensures
            match reply {
                Ok(name) => final(self).names@ == old(self).names@.push(name)
                    && final(self).failed == old(self).failed,
                Err(e) => final(self).names@ == old(self).names@ && final(self).failed == Some(e),
            },
    {
        match reply {
            Ok(name) => {
                self.names.push(name);
            },
            Err(e) => {
                self.failed = Some(e);
            },
        }
    }
}

/// What is known while the variables of friends are being read.
#[derive(Debug)]
pub struct FriendsVariableAnswers {
    pub friends: Option<FriendList>,
    pub db: Option<Result<(), ErrorType>>,
    /// The variables that are there, each with the id of its owner.
    pub rows: Option<Result<Vec<(i64, DbTusVariable)>, DbError>>,
    pub names: AuthorNames,
}

/// What is known while the data states of friends are being read.
#[derive(Debug)]
pub struct FriendsStatusAnswers {
    pub friends: Option<FriendList>,
    pub db: Option<Result<(), ErrorType>>,
    /// The data that are there, each with the id of their owner.
    pub rows: Option<Result<Vec<(i64, DbTusDataStatus, Vec<u8>)>, DbError>>,
    pub names: AuthorNames,
}

impl FriendsVariableAnswers {
    /// Whether the answers belong together: only users that were asked about
    /// come up, and no more authors are named than there are variables.
    pub open spec fn wf(self) -> bool {
        self.rows matches Some(Ok(rows)) ==> {
            &&& self.friends matches Some(list) ==> forall|i: int|
                0 <= i < rows@.len() ==> list.users@.contains_key((#[trigger] rows@[i]).0)
            &&& self.names.names@.len() <= rows@.len()
        }
    }
}

impl FriendsStatusAnswers {
    /// Whether the answers belong together: only users that were asked about
    /// come up, and no more authors are named than there are data.
    pub open spec fn wf(self) -> bool {
        self.rows matches Some(Ok(rows)) ==> {
            &&& self.friends matches Some(list) ==> forall|i: int|
                0 <= i < rows@.len() ==> list.users@.contains_key((#[trigger] rows@[i]).0)
            &&& self.names.names@.len() <= rows@.len()
        }
    }
}

/// The variables of a reply, in the order that the database gave them.
pub open spec fn friend_variables(
    users: Map<i64, String>,
    rows: Seq<(i64, DbTusVariable)>,
    names: Seq<String>,
) -> Seq<TusVariableView> {
    Seq::new(
        rows.len(),
        |i: int| present_variable(users[rows[i].0]@, rows[i].1, names[i]@),
    )
}

/// The slot states of a reply, in the order that the database gave them.
pub open spec fn friend_statuses(
    users: Map<i64, String>,
    rows: Seq<(i64, DbTusDataStatus, Vec<u8>)>,
    names: Seq<String>,
) -> Seq<TusDataStatusView> {
    Seq::new(
        rows.len(),
        |i: int| present_status(users[rows[i].0]@, rows[i].1, rows[i].2@, names[i]@),
    )
}

/// The order that a number in a request stands for.
pub open spec fn variable_order(n: i32) -> Option<TusSorting> {
    if exists|s: TusSorting| s.code() == n {
        Some(choose|s: TusSorting| s.code() == n)
    } else {
        None
    }
}

/// The order that a number in a request stands for.
pub open spec fn status_order(n: i32) -> Option<TusStatusSorting> {
    if exists|s: TusStatusSorting| s.code() == n {
        Some(choose|s: TusStatusSorting| s.code() == n)
    } else {
        None
    }
}

/// How reading the variables of friends goes on.
pub open spec fn get_friends_variable<'a>(
    req: &'a TusGetFriendsVariableRequest,
    got: &'a FriendsVariableAnswers,
) -> StepView<'a> {
    match (variable_order(req.sort_type), got.friends) {
        (None, _) => StepView::Done(Err(ErrorType::Malformed)),
        (Some(_), None) => StepView::Ask(Query::Friends),
        (Some(sorting), Some(list)) => if list.users@.len() == 0 {
            StepView::Answer(ReplyView::Variables(Seq::empty()))
        } else if let Some(step) = without_db(got.db) {
            step
        } else {
            match got.rows {
                None => StepView::Ask(
                    Query::GetVariableOfUsers {
                        users: &list.users,
                        slot: req.slot_id,
                        sorting,
                        array_num: req.array_num,
                    },
                ),
                Some(Err(_)) => StepView::Done(Err(ErrorType::DbFail)),
                Some(Ok(rows)) => if let Some(e) = got.names.failed {
                    StepView::Done(Err(e))
                } else if got.names.names@.len() < rows@.len() {
                    StepView::Ask(
                        Query::AuthorName {
                            author_id: rows@[got.names.names@.len() as int].1.author_id,
                        },
                    )
                } else {
                    StepView::Answer(
                        ReplyView::Variables(
                            friend_variables(list.users@, rows@, got.names.names@),
                        ),
                    )
                },
            }
        },
    }
}

/// How reading the data states of friends goes on.
pub open spec fn get_friends_data_status<'a>(
    req: &'a TusGetFriendsDataStatusRequest,
    got: &'a FriendsStatusAnswers,
) -> StepView<'a> {
    match (status_order(req.sort_type), got.friends) {
        (None, _) => StepView::Done(Err(ErrorType::Malformed)),
        (Some(_), None) => StepView::Ask(Query::Friends),
        (Some(status_sorting), Some(list)) => if list.users@.len() == 0 {
            StepView::Answer(ReplyView::Statuses(Seq::empty()))
        } else if let Some(step) = without_db(got.db) {
            step
        } else {
            match got.rows {
                None => StepView::Ask(
                    Query::GetDataOfUsers {
                        users: &list.users,
                        slot: req.slot_id,
                        status_sorting,
                        array_num: req.array_num,
                    },
                ),
                Some(Err(_)) => StepView::Done(Err(ErrorType::DbFail)),
                Some(Ok(rows)) => if let Some(e) = got.names.failed {
                    StepView::Done(Err(e))
                } else if got.names.names@.len() < rows@.len() {
                    StepView::Ask(
                        Query::AuthorName {
                            author_id: rows@[got.names.names@.len() as int].1.author_id,
                        },
                    )
                } else {
                    StepView::Answer(
                        ReplyView::Statuses(
                            friend_statuses(list.users@, rows@, got.names.names@),
                        ),
                    )
                },
            }
        },
    }
}

fn build_friend_variables(
    users: &HashMap<i64, String>,
    rows: &Vec<(i64, DbTusVariable)>,
    names: &Vec<String>,
) -> (vars: Vec<TusVariable>)
    requires
        forall|i: int| 0 <= i < rows@.len() ==> users@.contains_key((#[trigger] rows@[i]).0),
        names@.len() == rows@.len(),
    ensures
        variable_views(vars@) == friend_variables(users@, rows@, names@),
{
    let mut vars: Vec<TusVariable> = Vec::with_capacity(rows.len());
    for i in 0..rows.len()
        invariant
            forall|j: int| 0 <= j < rows@.len() ==> users@.contains_key((#[trigger] rows@[j]).0),
            names@.len() == rows@.len(),
            vars@.len() == i,
            forall|j: int|
                0 <= j < i ==> (#[trigger] vars@[j])@ == friend_variables(
                    users@,
                    rows@,
                    names@,
                )[j],
    {
        assert(users@.contains_key(rows@[i as int].0));
        if let Some(owner) = users.get(&rows[i].0) {
            vars.push(variable_there(owner, &rows[i].1, &names[i]));
        }
    }
    assert(variable_views(vars@) =~= friend_variables(users@, rows@, names@));
    vars
}

fn build_friend_statuses(
    users: &HashMap<i64, String>,
    rows: &Vec<(i64, DbTusDataStatus, Vec<u8>)>,
    names: &Vec<String>,
) -> (statuses: Vec<TusDataStatus>)
    requires
        forall|i: int| 0 <= i < rows@.len() ==> users@.contains_key((#[trigger] rows@[i]).0),
        names@.len() == rows@.len(),
    ensures
        status_views(statuses@) == friend_statuses(users@, rows@, names@),
{
    let mut statuses: Vec<TusDataStatus> = Vec::with_capacity(rows.len());
    for i in 0..rows.len()
        invariant
            forall|j: int| 0 <= j < rows@.len() ==> users@.contains_key((#[trigger] rows@[j]).0),
            names@.len() == rows@.len(),
            statuses@.len() == i,
            forall|j: int|
                0 <= j < i ==> (#[trigger] statuses@[j])@ == friend_statuses(
                    users@,
                    rows@,
                    names@,
                )[j],
    {
        assert(users@.contains_key(rows@[i as int].0));
        if let Some(owner) = users.get(&rows[i].0) {
            statuses.push(status_there(owner, &rows[i].1, &rows[i].2, &names[i]));
        }
    }
    assert(status_views(statuses@) =~= friend_statuses(users@, rows@, names@));
    statuses
}

impl Client {
    /// Reads one variable of each of the client's friends that has it.
    pub fn tus_get_friends_variable<'a>(
        &self,
        tus_req: &'a TusGetFriendsVariableRequest,
        got: &'a FriendsVariableAnswers,
    ) -> (step: Step<'a>)
        requires
            got.wf(),
        ensures
            step@ == get_friends_variable(tus_req, got),
    {
        let sorting: TusSorting = match TusSorting::from_i32(tus_req.sort_type) {
            Some(sorting) => sorting,
            None => return Step::Done(Err(ErrorType::Malformed)),
        };
        let users: &'a HashMap<i64, String> = match &got.friends {
            Some(list) => &list.users,
            None => return Step::Ask(Query::Friends),
        };
        if users.is_empty() {
            let vars: Vec<TusVariable> = Vec::new();
            assert(variable_views(vars@) =~= Seq::<TusVariableView>::empty());
            return Step::Answer(Reply::Variables(vars));
        }
        if let Some(step) = await_db(&got.db) {
            return step;
        }
        let rows: &Vec<(i64, DbTusVariable)> = match &got.rows {
            Some(Ok(rows)) => rows,
            Some(Err(_)) => return Step::Done(Err(ErrorType::DbFail)),
            None => {
                return Step::Ask(
                    Query::GetVariableOfUsers {
                        users,
                        slot: tus_req.slot_id,
                        sorting,
                        array_num: tus_req.array_num,
                    },
                );
            },
        };
        if let Some(e) = got.names.failed {
            return Step::Done(Err(e));
        }
        if got.names.names.len() < rows.len() {
            let author_id: i64 = rows[got.names.names.len()].1.author_id;
            return Step::Ask(Query::AuthorName { author_id });
        }
        Step::Answer(Reply::Variables(build_friend_variables(users, rows, &got.names.names)))
    }

    /// Reads the state of one slot of each of the client's friends that has data
    /// in it.
    pub fn tus_get_friends_data_status<'a>(
        &self,
        tus_req: &'a TusGetFriendsDataStatusRequest,
        got: &'a FriendsStatusAnswers,
    ) -> (step: Step<'a>)
        requires
            got.wf(),
        ensures
            step@ == get_friends_data_status(tus_req, got),
    {
        let status_sorting: TusStatusSorting = match TusStatusSorting::from_i32(
            tus_req.sort_type,
        ) {
            Some(sorting) => sorting,
            None => return Step::Done(Err(ErrorType::Malformed)),
        };
        let users: &'a HashMap<i64, String> = match &got.friends {
            Some(list) => &list.users,
            None => return Step::Ask(Query::Friends),
        };
        if users.is_empty() {
            let statuses: Vec<TusDataStatus> = Vec::new();
            assert(status_views(statuses@) =~= Seq::<TusDataStatusView>::empty());
            return Step::Answer(Reply::Statuses(statuses));
        }
        if let Some(step) = await_db(&got.db) {
            return step;
        }
        let rows: &Vec<(i64, DbTusDataStatus, Vec<u8>)> = match &got.rows {
            Some(Ok(rows)) => rows,
            Some(Err(_)) => return Step::Done(Err(ErrorType::DbFail)),
            None => {
                return Step::Ask(
                    Query::GetDataOfUsers {
                        users,
                        slot: tus_req.slot_id,
                        status_sorting,
                        array_num: tus_req.array_num,
                    },
                );
            },
        };
        if let Some(e) = got.names.failed {
            return Step::Done(Err(e));
        }
        if got.names.names.len() < rows.len() {
            let author_id: i64 = rows[got.names.names.len()].1.author_id;
            return Step::Ask(Query::AuthorName { author_id });
        }
        Step::Answer(Reply::Statuses(build_friend_statuses(users, rows, &got.names.names)))
    }
}

} // verus!
