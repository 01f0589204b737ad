//! What the commands on variables ask, change and answer, told by their requests
//! and the host's answers alone.

use crate::cmd_tus::requests::{
    connected, fails_later, is_about, is_known, may_change, names_somebody, starts_right,
};
use crate::cmd_tus::rows::{lemma_variable_author_at, variable_authors};
use crate::cmd_tus::types::{
    Client, DbTusVariable, Query, ReplyView, StepView, TusAddAndGetVariableRequest,
    TusDeleteMultiSlotVariableRequest, TusGetMultiSlotVariableRequest,
    TusGetMultiUserVariableRequest, TusOpeType, TusSetMultiSlotVariableRequest,
    TusTryAndSetVariableRequest, TusUser, TusVariableView,
};
use crate::cmd_tus::variables::{
    add_and_get_variable, delete_multislot_variable, get_multislot_variable,
    get_multiuser_variable, ope_type, set_multislot_variable, try_and_set_variable,
    ChangeVariableAnswers, DeleteMultislotAnswers, GetMultislotAnswers, GetMultiuserAnswers,
    SetMultislotAnswers,
};
use crate::error::{DbError, ErrorType};
use vstd::prelude::*;

verus! {

/// Setting variables, step by step. The slots are set in their order, each to
/// the value at its place and with the client as its author; success comes once
/// there is none left. Slots of another account are not touched.
pub proof fn law_setting_variables(
    client: Client,
    req: TusSetMultiSlotVariableRequest,
    got: SetMultislotAnswers,
)
    ensures
        ({
            let step = set_multislot_variable(client, &req, got);
            let user = req.user->0;
            let n = req.slot_id_array@.len();
            let well_formed = names_somebody(req.user) && n == req.variable_array@.len();
            &&& starts_right(step, well_formed, user, got.db, got.owner)
            &&& !fails_later(step, well_formed, user, got.db, got.owner)
            &&& match step {
                StepView::Ask(Query::SetVariable { owner, slot, value, author_id }) => {
                    &&& is_about(owner, user, got.owner)
                    &&& may_change(client, user, got.owner)
                    &&& got.written < n
                    &&& slot == req.slot_id_array@[got.written as int]
                    &&& value == req.variable_array@[got.written as int]
                    &&& author_id == client.user_id
                },
                StepView::Ask(query) => query is Connect || query is UserId,
                StepView::Done(Ok(ErrorType::NoError)) => got.written >= n && may_change(
                    client,
                    user,
                    got.owner,
                ),
                StepView::Done(Ok(ErrorType::Unauthorized)) => !may_change(client, user, got.owner),
                StepView::Done(Ok(e)) => e == ErrorType::NotFound,
                StepView::Done(Err(_)) => true,
                StepView::Answer(_) => false,
            }
        }),
{
}

/// Deleting variables, step by step. The slots of the request go, of the user
/// that it names; success comes once they are gone. Slots of another account are
/// not touched.
pub proof fn law_deleting_variables(
    client: Client,
    req: TusDeleteMultiSlotVariableRequest,
    got: DeleteMultislotAnswers,
)
    ensures
        ({
            let step = delete_multislot_variable(client, &req, got);
            let user = req.user->0;
            let well_formed = names_somebody(req.user) && req.slot_id_array@.len() > 0;
            &&& starts_right(step, well_formed, user, got.db, got.owner)
            &&& fails_later(step, well_formed, user, got.db, got.owner) ==> {
                &&& may_change(client, user, got.owner)
                &&& got.deleted matches Some(Err(_))
                &&& step == StepView::Done(Err::<ErrorType, ErrorType>(ErrorType::DbFail))
            }
            &&& match step {
                StepView::Ask(Query::DeleteVariables { owner, slots }) => {
                    &&& is_about(owner, user, got.owner)
                    &&& may_change(client, user, got.owner)
                    &&& got.deleted is None
                    &&& slots@ == req.slot_id_array@
                },
                StepView::Ask(query) => query is Connect || query is UserId,
                StepView::Done(Ok(ErrorType::NoError)) => (got.deleted matches Some(Ok(_)))
                    && may_change(client, user, got.owner),
                StepView::Done(Ok(ErrorType::Unauthorized)) => !may_change(client, user, got.owner),
                StepView::Done(Ok(e)) => e == ErrorType::NotFound,
                StepView::Done(Err(_)) => true,
                StepView::Answer(_) => false,
            }
        }),
{
}

/// Reading variables of one user, step by step. The slots are read in their
/// order, then the authors of what was found are named, and then there is an
/// answer.
pub proof fn law_reading_variables(req: TusGetMultiSlotVariableRequest, got: GetMultislotAnswers)
    ensures
        ({
            let step = get_multislot_variable(&req, got);
            let user = req.user->0;
            let well_formed = names_somebody(req.user);
            let read = got.rows.rows@.len();
            let named = got.names.names@.len();
            &&& starts_right(step, well_formed, user, got.db, got.owner)
            &&& fails_later(step, well_formed, user, got.db, got.owner) ==> {
                &&& got.rows.failed || (got.names.failed && read >= req.slot_id_array@.len())
                &&& step == StepView::Done(Err::<ErrorType, ErrorType>(ErrorType::DbFail))
            }
            &&& match step {
                StepView::Ask(Query::GetVariable { owner, slot }) => {
                    &&& is_about(owner, user, got.owner)
                    &&& !got.rows.failed
                    &&& read < req.slot_id_array@.len()
                    &&& slot == req.slot_id_array@[read as int]
                },
                StepView::Ask(Query::Username { user_id }) => {
                    &&& !got.rows.failed
                    &&& !got.names.failed
                    &&& read >= req.slot_id_array@.len()
                    &&& named < got.rows.authors@.len()
                    &&& user_id == got.rows.authors@[named as int]
                },
                StepView::Ask(query) => query is Connect || query is UserId,
                StepView::Done(Ok(e)) => e == ErrorType::NotFound,
                StepView::Done(Err(_)) => true,
                StepView::Answer(reply) => {
                    &&& reply is Variables
                    &&& !got.rows.failed
                    &&& !got.names.failed
                    &&& read >= req.slot_id_array@.len()
                    &&& named >= got.rows.authors@.len()
                },
            }
        }),
{
}

/// Reading one variable of several users, step by step. The users are taken in
/// their order, each is looked up and its slot is read, then the authors of what
/// was found are named, and then there is an answer.
pub proof fn law_reading_a_variable_of_users(
    req: TusGetMultiUserVariableRequest,
    got: GetMultiuserAnswers,
)
    ensures
        ({
            let step = get_multiuser_variable(&req, got);
            let read = got.rows.rows@.len();
            let named = got.names.names@.len();
            let user = req.users@[read as int];
            let well_formed = forall|i: int|
                0 <= i < req.users@.len() ==> (#[trigger] req.users@[i]).npid@.len() > 0;
            let reading = read < req.users@.len() && !got.rows.failed;
            &&& reading ==> starts_right(step, well_formed, user, got.db, got.owner)
            &&& reading ==> !fails_later(step, well_formed, user, got.db, got.owner)
            &&& match step {
                StepView::Ask(Query::Connect) => well_formed && got.db is None,
                StepView::Ask(Query::UserId { .. }) => reading,
                StepView::Ask(Query::GetVariable { owner, slot }) => {
                    &&& reading
                    &&& is_about(owner, user, got.owner)
                    &&& slot == req.slot_id
                },
                StepView::Ask(Query::Username { user_id }) => {
                    &&& well_formed
                    &&& connected(got.db)
                    &&& !got.rows.failed
                    &&& !got.names.failed
                    &&& read >= req.users@.len()
                    &&& named < got.rows.authors@.len()
                    &&& user_id == got.rows.authors@[named as int]
                },
                StepView::Ask(_) => false,
                StepView::Done(Ok(e)) => reading && e == ErrorType::NotFound,
                StepView::Done(Err(e)) => {
                    ||| !well_formed && e == ErrorType::Malformed
                    ||| well_formed && got.db == Some(Err::<(), ErrorType>(e))
                    ||| well_formed && connected(got.db) && e == ErrorType::DbFail && (reading
                        || got.rows.failed || got.names.failed)
                },
                StepView::Answer(reply) => {
                    &&& reply is Variables
                    &&& well_formed
                    &&& connected(got.db)
                    &&& !got.rows.failed
                    &&& !got.names.failed
                    &&& read >= req.users@.len()
                    &&& named >= got.rows.authors@.len()
                },
            }
        }),
{
}

/// Whether `var` tells of the variable `row` of the user `npid`, with `names`
/// giving the npid of each account. A slot that holds nothing is told so.
pub open spec fn tells_of_variable(
    var: TusVariableView,
    npid: Seq<char>,
    row: Option<DbTusVariable>,
    names: spec_fn(i64) -> Seq<char>,
) -> bool {
    &&& var.owner_id == npid
    &&& var.has_data == (row is Some)
    &&& match row {
        Some(row) => {
            &&& var.variable == row.variable
            &&& var.old_variable == row.variable
            &&& var.last_changed_date == row.timestamp
            &&& var.last_changed_author_id == names(row.author_id)
        },
        None => {
            &&& var.variable == 0
            &&& var.old_variable == 0
            &&& var.last_changed_date == 0
            &&& var.last_changed_author_id.len() == 0
        },
    }
}

/// A reply on variables tells of each slot what was read from it, and names the
/// author of that very variable, be it on several slots of one user or on one
/// slot of several users.
pub proof fn law_variables_are_told_with_their_own_authors(
    slots: TusGetMultiSlotVariableRequest,
    of_slots: GetMultislotAnswers,
    users: TusGetMultiUserVariableRequest,
    of_users: GetMultiuserAnswers,
    names: spec_fn(i64) -> Seq<char>,
)
    requires
        of_slots.rows.wf(),
        of_slots.names.names@.len() <= of_slots.rows.authors@.len(),
        forall|m: int|
            0 <= m < of_slots.names.names@.len() ==> (#[trigger] of_slots.names.names@[m])@
                == names(of_slots.rows.authors@[m]),
        of_users.rows.wf(),
        of_users.names.names@.len() <= of_users.rows.authors@.len(),
        forall|m: int|
            0 <= m < of_users.names.names@.len() ==> (#[trigger] of_users.names.names@[m])@
                == names(of_users.rows.authors@[m]),
    ensures
        get_multislot_variable(&slots, of_slots) matches StepView::Answer(
            ReplyView::Variables(vars),
        ) ==> {
            &&& vars.len() == of_slots.rows.rows@.len()
            &&& forall|i: int|
                0 <= i < vars.len() ==> tells_of_variable(
                    #[trigger] vars[i],
                    slots.user->0.npid@,
                    of_slots.rows.rows@[i],
                    names,
                )
        },
        get_multiuser_variable(&users, of_users) matches StepView::Answer(
            ReplyView::Variables(vars),
        ) ==> {
            &&& vars.len() == of_users.rows.rows@.len()
            &&& forall|i: int|
                0 <= i < vars.len() && i < users.users@.len() ==> tells_of_variable(
                    #[trigger] vars[i],
                    users.users@[i].npid@,
                    of_users.rows.rows@[i],
                    names,
                )
        },
{
    let a = of_slots.rows.rows@;
    assert forall|i: int| 0 <= i < a.len() && a[i] is Some implies ({
        let at = variable_authors(#[trigger] a.take(i)).len() as int;
        at < of_slots.rows.authors@.len() && of_slots.rows.authors@[at] == a[i]->0.author_id
    }) by {
        lemma_variable_author_at(a, i);
    }
    let b = of_users.rows.rows@;
    assert forall|i: int| 0 <= i < b.len() && b[i] is Some implies ({
        let at = variable_authors(#[trigger] b.take(i)).len() as int;
        at < of_users.rows.authors@.len() && of_users.rows.authors@[at] == b[i]->0.author_id
    }) by {
        lemma_variable_author_at(b, i);
    }
}

/// The comparison that each number in a request stands for.
pub open spec fn is_comparison(n: i32, op_type: TusOpeType) -> bool {
    match n {
        1 => op_type == TusOpeType::SCE_NP_TUS_OPETYPE_EQUAL,
        2 => op_type == TusOpeType::SCE_NP_TUS_OPETYPE_NOT_EQUAL,
        3 => op_type == TusOpeType::SCE_NP_TUS_OPETYPE_GREATER_THAN,
        4 => op_type == TusOpeType::SCE_NP_TUS_OPETYPE_GREATER_OR_EQUAL,
        5 => op_type == TusOpeType::SCE_NP_TUS_OPETYPE_LESS_THAN,
        6 => op_type == TusOpeType::SCE_NP_TUS_OPETYPE_LESS_OR_EQUAL,
        _ => false,
    }
}

/// The numbers one to six stand for a comparison each, and no other does.
pub proof fn law_numbers_of_comparisons(n: i32)
    ensures
        ope_type(n) is Some <==> 1 <= n <= 6,
        ope_type(n) matches Some(op_type) ==> is_comparison(n, op_type),
{
    assert(TusOpeType::SCE_NP_TUS_OPETYPE_EQUAL.code() == 1);
    assert(TusOpeType::SCE_NP_TUS_OPETYPE_NOT_EQUAL.code() == 2);
    assert(TusOpeType::SCE_NP_TUS_OPETYPE_GREATER_THAN.code() == 3);
    assert(TusOpeType::SCE_NP_TUS_OPETYPE_GREATER_OR_EQUAL.code() == 4);
    assert(TusOpeType::SCE_NP_TUS_OPETYPE_LESS_THAN.code() == 5);
    assert(TusOpeType::SCE_NP_TUS_OPETYPE_LESS_OR_EQUAL.code() == 6);
}

/// Whether a question to look up an account is the right one for a request that
/// may name an author: first that author, then the user of the request.
pub open spec fn looks_up_in_order(
    npid: Seq<char>,
    author: Seq<char>,
    user: TusUser,
    got: ChangeVariableAnswers,
) -> bool {
    if author.len() > 0 && got.compare_author is None {
        npid == author
    } else {
        !user.vuser && got.owner is None && npid == user.npid@
    }
}

/// Whether a request sets a condition on the author that can be met, and
/// `compare_author` is that condition.
pub open spec fn is_author_condition(
    compare_author: Option<i64>,
    author: Seq<char>,
    got: ChangeVariableAnswers,
) -> bool {
    if author.len() == 0 {
        compare_author is None
    } else {
        compare_author is Some && got.compare_author == Some(
            Ok::<i64, DbError>(compare_author->0),
        )
    }
}

/// Whether `compare_timestamp` is the only date of a request, or none where it
/// gives none.
pub open spec fn is_date_condition(compare_timestamp: Option<u64>, dates: Seq<u64>) -> bool {
    match compare_timestamp {
        Some(date) => dates.len() == 1 && dates[0] == date,
        None => dates.len() == 0,
    }
}

/// Whether a step that changes no variable is a right one for a command that
/// changes one under conditions.
pub open spec fn changes_right(
    step: StepView,
    well_formed: bool,
    client: Client,
    user: TusUser,
    author: Seq<char>,
    slot_id: i32,
    got: ChangeVariableAnswers,
) -> bool {
    let nobody = author.len() > 0 && got.compare_author == Some(
        Err::<i64, DbError>(DbError::Empty),
    );
    let checked = author.len() == 0 || (got.compare_author matches Some(Ok(_))) || nobody;
    let ready = well_formed && got.timestamp is Some && connected(got.db) && checked;
    let allowed = ready && may_change(client, user, got.owner);
    match step {
        StepView::Ask(Query::Timestamp) => well_formed && got.timestamp is None,
        StepView::Ask(Query::Connect) => well_formed && got.timestamp is Some && got.db is None,
        StepView::Ask(Query::UserId { npid }) => {
            &&& well_formed
            &&& got.timestamp is Some
            &&& connected(got.db)
            &&& looks_up_in_order(npid@, author, user, got)
            &&& checked || (author.len() > 0 && got.compare_author is None)
        },
        StepView::Ask(Query::GetVariable { owner, slot }) => {
            &&& allowed
            &&& nobody
            &&& is_about(owner, user, got.owner)
            &&& slot == slot_id
            &&& got.variable is None
        },
        StepView::Ask(Query::AddAndGetVariable { .. }) => {
            allowed && !nobody && got.variable is None
        },
        StepView::Ask(Query::TryAndSetVariable { .. }) => {
            allowed && !nobody && got.variable is None
        },
        StepView::Ask(Query::Username { user_id }) => {
            &&& allowed
            &&& got.author_name is None
            &&& got.variable matches Some(Ok(row)) && row.author_id == user_id
        },
        StepView::Ask(_) => false,
        StepView::Done(Ok(ErrorType::NotFound)) => {
            &&& ready
            &&& !user.vuser
            &&& got.owner == Some(Err::<i64, DbError>(DbError::Empty))
        },
        StepView::Done(Ok(ErrorType::Unauthorized)) => {
            &&& ready
            &&& is_known(user, got.owner)
            &&& !may_change(client, user, got.owner)
        },
        StepView::Done(Ok(ErrorType::CondFail)) => {
            &&& allowed
            &&& nobody
            &&& got.variable == Some(Err::<DbTusVariable, DbError>(DbError::Empty))
        },
        StepView::Done(Ok(_)) => false,
        StepView::Done(Err(e)) => {
            ||| !well_formed && e == ErrorType::Malformed
            ||| well_formed && got.timestamp is Some && got.db == Some(Err::<(), ErrorType>(e))
            ||| well_formed && got.timestamp is Some && connected(got.db) && e
                == ErrorType::DbFail && !checked && got.compare_author is Some
            ||| ready && e == ErrorType::DbFail && !user.vuser && (got.owner matches Some(Err(why))
                && why != DbError::Empty)
            ||| allowed && e == ErrorType::DbFail && (got.variable matches Some(Err(why)) && (why
                != DbError::Empty || !nobody))
            ||| allowed && e == ErrorType::DbFail && (got.variable matches Some(Ok(_))) && (
            got.author_name matches Some(Err(_)))
        },
        StepView::Answer(ReplyView::Variable(var)) => {
            &&& allowed
            &&& got.variable matches Some(Ok(row)) && got.author_name matches Some(Ok(name))
                && tells_of_variable(var, user.npid@, Some(row), |id: i64| name@)
        },
        StepView::Answer(_) => false,
    }
}

/// Adding to a variable, step by step. The amount of the request is added to its
/// slot, for the user it names and under the conditions it sets, and what the
/// host then found there is answered with.
pub proof fn law_adding_to_a_variable(
    client: Client,
    req: TusAddAndGetVariableRequest,
    got: ChangeVariableAnswers,
)
    ensures
        ({
            let step = add_and_get_variable(client, &req, got);
            let user = req.user->0;
            let author = req.is_last_changed_author_id@;
            let well_formed = names_somebody(req.user) && req.is_last_changed_date@.len() <= 1;
            &&& changes_right(step, well_formed, client, user, author, req.slot_id, got)
            &&& step matches StepView::Ask(query) ==> !(query is TryAndSetVariable)
            &&& step matches StepView::Ask(Query::AddAndGetVariable {
                owner,
                slot,
                to_add,
                author_id,
                timestamp,
                compare_timestamp,
                compare_author,
            }) ==> {
                &&& is_about(owner, user, got.owner)
                &&& slot == req.slot_id
                &&& to_add == req.in_variable
                &&& author_id == client.user_id
                &&& got.timestamp == Some(timestamp)
                &&& is_date_condition(compare_timestamp, req.is_last_changed_date@)
                &&& is_author_condition(compare_author, author, got)
            }
        }),
{
}

/// Setting a variable under conditions, step by step. The value of the request is
/// put into its slot, for the user it names and under the comparison and the
/// conditions it sets, and what the host then found there is answered with. A
/// request that gives nothing to compare with compares with its own value.
pub proof fn law_setting_a_variable_on_conditions(
    client: Client,
    req: TusTryAndSetVariableRequest,
    got: ChangeVariableAnswers,
)
    ensures
        ({
            let step = try_and_set_variable(client, &req, got);
            let user = req.user->0;
            let author = req.is_last_changed_author_id@;
            let values = req.compare_value@;
            let well_formed = names_somebody(req.user) && 1 <= req.ope_type <= 6 && values.len()
                <= 1 && req.is_last_changed_date@.len() <= 1;
            &&& changes_right(step, well_formed, client, user, author, req.slot_id, got)
            &&& step matches StepView::Ask(query) ==> !(query is AddAndGetVariable)
            &&& step matches StepView::Ask(Query::TryAndSetVariable {
                owner,
                slot,
                to_set,
                author_id,
                timestamp,
                compare_value,
                op_type,
                compare_timestamp,
                compare_author,
            }) ==> {
                &&& is_about(owner, user, got.owner)
                &&& slot == req.slot_id
                &&& to_set == req.variable
                &&& author_id == client.user_id
                &&& got.timestamp == Some(timestamp)
                &&& values.len() == 1 ==> compare_value == values[0]
                &&& values.len() == 0 ==> compare_value == req.variable
                &&& is_comparison(req.ope_type, op_type)
                &&& is_date_condition(compare_timestamp, req.is_last_changed_date@)
                &&& is_author_condition(compare_author, author, got)
            }
        }),
{
    law_numbers_of_comparisons(req.ope_type);
}

} // verus!
