//! What the commands on the slots of friends ask and answer, told by their
//! requests and the host's answers alone.

use crate::cmd_tus::data_steps::tells_of_slot;
use crate::cmd_tus::friends::{
    get_friends_data_status, get_friends_variable, status_order, variable_order, with_self,
    FriendsStatusAnswers, FriendsVariableAnswers,
};
use crate::cmd_tus::requests::connected;
use crate::cmd_tus::types::{
    Client, Query, ReplyView, StepView, TusGetFriendsDataStatusRequest,
    TusGetFriendsVariableRequest, TusSorting, TusStatusSorting,
};
use crate::cmd_tus::variable_steps::tells_of_variable;
use crate::error::ErrorType;
use vstd::prelude::*;

verus! {

/// The order of variables that each number in a request stands for.
pub open spec fn is_variable_order(n: i32, sorting: TusSorting) -> bool {
    match n {
        1 => sorting == TusSorting::SCE_NP_TUS_VARIABLE_SORTTYPE_DESCENDING_DATE,
        2 => sorting == TusSorting::SCE_NP_TUS_VARIABLE_SORTTYPE_ASCENDING_DATE,
        3 => sorting == TusSorting::SCE_NP_TUS_VARIABLE_SORTTYPE_DESCENDING_VALUE,
        4 => sorting == TusSorting::SCE_NP_TUS_VARIABLE_SORTTYPE_ASCENDING_VALUE,
        _ => false,
    }
}

/// The order of data that each number in a request stands for.
pub open spec fn is_status_order(n: i32, sorting: TusStatusSorting) -> bool {
    match n {
        1 => sorting == TusStatusSorting::SCE_NP_TUS_DATASTATUS_SORTTYPE_DESCENDING_DATE,
        2 => sorting == TusStatusSorting::SCE_NP_TUS_DATASTATUS_SORTTYPE_ASCENDING_DATE,
        _ => false,
    }
}

/// The numbers one to four stand for an order of variables each, one and two for
/// an order of data, and no other does.
pub proof fn law_numbers_of_orders(n: i32)
    ensures
        variable_order(n) is Some <==> 1 <= n <= 4,
        variable_order(n) matches Some(sorting) ==> is_variable_order(n, sorting),
        status_order(n) is Some <==> 1 <= n <= 2,
        status_order(n) matches Some(sorting) ==> is_status_order(n, sorting),
{
    assert(TusSorting::SCE_NP_TUS_VARIABLE_SORTTYPE_DESCENDING_DATE.code() == 1);
    assert(TusSorting::SCE_NP_TUS_VARIABLE_SORTTYPE_ASCENDING_DATE.code() == 2);
    assert(TusSorting::SCE_NP_TUS_VARIABLE_SORTTYPE_DESCENDING_VALUE.code() == 3);
    assert(TusSorting::SCE_NP_TUS_VARIABLE_SORTTYPE_ASCENDING_VALUE.code() == 4);
    assert(TusStatusSorting::SCE_NP_TUS_DATASTATUS_SORTTYPE_DESCENDING_DATE.code() == 1);
    assert(TusStatusSorting::SCE_NP_TUS_DATASTATUS_SORTTYPE_ASCENDING_DATE.code() == 2);
}

/// The users that a request is about are the friends, and the client under its
/// own name exactly where the request asks for it.
pub proof fn law_the_client_joins_its_friends(
    friends: Map<i64, String>,
    client: Client,
    include_self: bool,
    user_id: i64,
)
    ensures
        ({
            let users = with_self(friends, client, include_self);
            &&& include_self ==> users.contains_key(client.user_id) && users[client.user_id]
                == client.npid
            &&& !include_self || user_id != client.user_id ==> {
                &&& users.contains_key(user_id) == friends.contains_key(user_id)
                &&& friends.contains_key(user_id) ==> users[user_id] == friends[user_id]
            }
        }),
{
}

/// Reading a variable of friends, step by step. The host is asked for the friends,
/// then for the variable of each in the order and up to the number that the
/// request asks for, and then for the names of the authors. Each entry of the
/// answer tells of one variable, under the name of its own owner and with its own
/// author.
pub proof fn law_reading_a_variable_of_friends(
    req: TusGetFriendsVariableRequest,
    got: FriendsVariableAnswers,
    names: spec_fn(i64) -> Seq<char>,
)
    requires
        got.wf(),
        got.rows matches Some(Ok(rows)) ==> forall|m: int|
            0 <= m < got.names.names@.len() ==> (#[trigger] got.names.names@[m])@ == names(
                rows@[m].1.author_id,
            ),
    ensures
        ({
            let well_formed = 1 <= req.sort_type <= 4;
            let users = got.friends->0.users;
            let nobody = well_formed && got.friends is Some && users@.len() == 0;
            let asked = well_formed && got.friends is Some && users@.len() > 0;
            let ready = asked && connected(got.db);
            let named = got.names.names@.len() as int;
            let found = ready && (got.rows matches Some(Ok(_)));
            let rows = got.rows->0->Ok_0@;
            match get_friends_variable(&req, &got) {
                StepView::Ask(Query::Friends) => well_formed && got.friends is None,
                StepView::Ask(Query::Connect) => asked && got.db is None,
                StepView::Ask(
                    Query::GetVariableOfUsers { users: of, slot, sorting, array_num },
                ) => {
                    &&& ready
                    &&& got.rows is None
                    &&& of@ == users@
                    &&& slot == req.slot_id
                    &&& is_variable_order(req.sort_type, sorting)
                    &&& array_num == req.array_num
                },
                StepView::Ask(Query::AuthorName { author_id }) => {
                    &&& found
                    &&& got.names.failed is None
                    &&& named < rows.len()
                    &&& author_id == rows[named].1.author_id
                },
                StepView::Ask(_) => false,
                StepView::Done(Ok(_)) => false,
                StepView::Done(Err(e)) => {
                    ||| !well_formed && e == ErrorType::Malformed
                    ||| asked && got.db == Some(Err::<(), ErrorType>(e))
                    ||| ready && (got.rows matches Some(Err(_))) && e == ErrorType::DbFail
                    ||| found && got.names.failed == Some(e)
                },
                StepView::Answer(ReplyView::Variables(vars)) => {
                    ||| nobody && vars.len() == 0
                    ||| {
                        &&& found
                        &&& got.names.failed is None
                        &&& named == rows.len()
                        &&& vars.len() == rows.len()
                        &&& forall|i: int|
                            0 <= i < vars.len() ==> tells_of_variable(
                                #[trigger] vars[i],
                                users@[rows[i].0]@,
                                Some(rows[i].1),
                                names,
                            )
                    }
                },
                StepView::Answer(_) => false,
            }
        }),
{
    law_numbers_of_orders(req.sort_type);
}

/// Reading the data states of friends, step by step. The host is asked for the
/// friends, then for the slot of each in the order and up to the number that the
/// request asks for, and then for the names of the authors. Each entry of the
/// answer tells of one slot, under the name of its own owner and with its own
/// author.
pub proof fn law_reading_a_state_of_friends(
    req: TusGetFriendsDataStatusRequest,
    got: FriendsStatusAnswers,
    names: spec_fn(i64) -> Seq<char>,
)
    requires
        got.wf(),
        got.rows matches Some(Ok(rows)) ==> forall|m: int|
            0 <= m < got.names.names@.len() ==> (#[trigger] got.names.names@[m])@ == names(
                rows@[m].1.author_id,
            ),
    ensures
        ({
            let well_formed = 1 <= req.sort_type <= 2;
            let users = got.friends->0.users;
            let nobody = well_formed && got.friends is Some && users@.len() == 0;
            let asked = well_formed && got.friends is Some && users@.len() > 0;
            let ready = asked && connected(got.db);
            let named = got.names.names@.len() as int;
            let found = ready && (got.rows matches Some(Ok(_)));
            let rows = got.rows->0->Ok_0@;
            match get_friends_data_status(&req, &got) {
                StepView::Ask(Query::Friends) => well_formed && got.friends is None,
                StepView::Ask(Query::Connect) => asked && got.db is None,
                StepView::Ask(
                    Query::GetDataOfUsers { users: of, slot, status_sorting, array_num },
                ) => {
                    &&& ready
                    &&& got.rows is None
                    &&& of@ == users@
                    &&& slot == req.slot_id
                    &&& is_status_order(req.sort_type, status_sorting)
                    &&& array_num == req.array_num
                },
                StepView::Ask(Query::AuthorName { author_id }) => {
                    &&& found
                    &&& got.names.failed is None
                    &&& named < rows.len()
                    &&& author_id == rows[named].1.author_id
                },
                StepView::Ask(_) => false,
                StepView::Done(Ok(_)) => false,
                StepView::Done(Err(e)) => {
                    ||| !well_formed && e == ErrorType::Malformed
                    ||| asked && got.db == Some(Err::<(), ErrorType>(e))
                    ||| ready && (got.rows matches Some(Err(_))) && e == ErrorType::DbFail
                    ||| found && got.names.failed == Some(e)
                },
                StepView::Answer(ReplyView::Statuses(statuses)) => {
                    ||| nobody && statuses.len() == 0
                    ||| {
                        &&& found
                        &&& got.names.failed is None
                        &&& named == rows.len()
                        &&& statuses.len() == rows.len()
                        &&& forall|i: int|
                            0 <= i < statuses.len() ==> tells_of_slot(
                                #[trigger] statuses[i],
                                users@[rows[i].0]@,
                                Some((rows[i].1, rows[i].2)),
                                names,
                            )
                    }
                },
                StepView::Answer(_) => false,
            }
        }),
{
    law_numbers_of_orders(req.sort_type);
}

} // verus!
