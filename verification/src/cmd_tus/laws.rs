//! What holds of the TUS commands whatever the host answers.

use crate::cmd_tus::data::{
    after_stored, delete_multislot_data, get_data, get_multislot_data_status,
    get_multiuser_data_status, info_blob, is_valid_set_data, required_author, set_data,
    until_conditions_hold, DeleteDataAnswers, GetDataAnswers, GetStatusAnswers,
    SetDataAnswers,
};
use crate::cmd_tus::friends::{
    get_friends_data_status, get_friends_variable, status_order, variable_order, with_self,
    FriendsStatusAnswers, FriendsVariableAnswers,
};
use crate::cmd_tus::types::{
    named_user, present_variable, read_owner, Client, DbTusDataStatus, DbTusVariable, Floored,
    Owner, Query, ReplyView, StepView, TusAddAndGetVariableRequest, TusDeleteMultiSlotDataRequest,
    TusDeleteMultiSlotVariableRequest, TusGetDataRequest, TusGetFriendsDataStatusRequest,
    TusGetFriendsVariableRequest, TusGetMultiSlotDataStatusRequest, TusGetMultiSlotVariableRequest,
    TusGetMultiUserDataStatusRequest, TusGetMultiUserVariableRequest, TusSetDataRequest,
    TusSetMultiSlotVariableRequest, TusTryAndSetVariableRequest, TusUser,
};
use crate::cmd_tus::variables::{
    add_and_get_variable, compare_author, compare_date, compare_value, delete_multislot_variable,
    get_multislot_variable, get_multiuser_variable, ope_type, set_multislot_variable,
    try_and_set_variable, ChangeVariableAnswers, DeleteMultislotAnswers, GetMultislotAnswers,
    GetMultiuserAnswers, SetMultislotAnswers,
};
use crate::error::{DbError, ErrorType};
use vstd::prelude::*;

verus! {

/// The account that a question would have the host write to, where it would.
pub open spec fn written_account(query: Query) -> Option<i64> {
    match query {
        Query::SetVariable { owner: Owner::Account(id), .. } => Some(id),
        Query::AddAndGetVariable { owner: Owner::Account(id), .. } => Some(id),
        Query::TryAndSetVariable { owner: Owner::Account(id), .. } => Some(id),
        Query::DeleteVariables { owner: Owner::Account(id), .. } => Some(id),
        Query::SetData { owner: Owner::Account(id), .. } => Some(id),
        Query::DeleteData { owner: Owner::Account(id), .. } => Some(id),
        Query::RecordHistory { user_id, .. } => Some(user_id),
        Query::ResolveMatch { user_id, .. } => Some(user_id),
        Query::SetRankFloor { user_id, .. } => Some(user_id),
        Query::MarkRankFloorDelivered { user_id, .. } => Some(user_id),
        Query::ClearRankFloor { user_id, .. } => Some(user_id),
        _ => None,
    }
}

/// Whether a step leaves every account alone but the client's own.
pub open spec fn spares_other_accounts(step: StepView, client: Client) -> bool {
    match step {
        StepView::Ask(query) => written_account(query) matches Some(id) ==> id == client.user_id,
        _ => true,
    }
}

/// No command on variables ever writes to another account than the client's
/// own, whatever the host answers.
pub proof fn law_variables_of_others_are_safe(
    client: Client,
    set: TusSetMultiSlotVariableRequest,
    set_got: SetMultislotAnswers,
    add: TusAddAndGetVariableRequest,
    try_set: TusTryAndSetVariableRequest,
    change_got: ChangeVariableAnswers,
    delete: TusDeleteMultiSlotVariableRequest,
    delete_got: DeleteMultislotAnswers,
    get: TusGetMultiSlotVariableRequest,
    get_got: GetMultislotAnswers,
    users: TusGetMultiUserVariableRequest,
    users_got: GetMultiuserAnswers,
)
    ensures
        spares_other_accounts(set_multislot_variable(client, &set, set_got), client),
        spares_other_accounts(add_and_get_variable(client, &add, change_got), client),
        spares_other_accounts(try_and_set_variable(client, &try_set, change_got), client),
        spares_other_accounts(delete_multislot_variable(client, &delete, delete_got), client),
        spares_other_accounts(get_multislot_variable(&get, get_got), client),
        spares_other_accounts(get_multiuser_variable(&users, users_got), client),
{
}

/// Each slot is set to the value at the same place, one after the other, and
/// setting variables succeeds only once all have been dealt with.
pub proof fn law_each_slot_is_set_to_its_own_value(
    client: Client,
    req: TusSetMultiSlotVariableRequest,
    got: SetMultislotAnswers,
)
    ensures
        match set_multislot_variable(client, &req, got) {
            StepView::Ask(Query::SetVariable { slot, value, author_id, .. }) => {
                &&& got.written < req.slot_id_array@.len() == req.variable_array@.len()
                &&& slot == req.slot_id_array@[got.written as int]
                &&& value == req.variable_array@[got.written as int]
                &&& author_id == client.user_id
            },
            StepView::Done(Ok(ErrorType::NoError)) => got.written >= req.slot_id_array@.len(),
            _ => true,
        },
{
}

/// No command on data ever writes to another account than the client's own,
/// whatever the host answers.
pub proof fn law_data_of_others_are_safe(
    client: Client,
    set: TusSetDataRequest,
    set_got: SetDataAnswers,
    get: TusGetDataRequest,
    get_got: GetDataAnswers,
    delete: TusDeleteMultiSlotDataRequest,
    delete_got: DeleteDataAnswers,
    slots: TusGetMultiSlotDataStatusRequest,
    users: TusGetMultiUserDataStatusRequest,
    status_got: GetStatusAnswers,
)
    ensures
        spares_other_accounts(set_data(client, &set, &set_got), client),
        spares_other_accounts(get_data(client, &get, get_got), client),
        spares_other_accounts(delete_multislot_data(client, &delete, delete_got), client),
        spares_other_accounts(get_multislot_data_status(&slots, status_got), client),
        spares_other_accounts(get_multiuser_data_status(&users, status_got), client),
{
}

/// Whether a well formed request is about an account that was looked up and
/// turned out to be somebody else's.
pub open spec fn names_another(
    user: Option<TusUser>,
    owner: Option<Result<i64, DbError>>,
    client: Client,
) -> bool {
    &&& named_user(user) matches Some(u) && !u.vuser
    &&& owner matches Some(Ok(id)) && id != client.user_id
}

/// A client that tries to change another account's variables or data is told
/// that it is not authorized.
pub proof fn law_others_are_refused(
    client: Client,
    set: TusSetMultiSlotVariableRequest,
    set_got: SetMultislotAnswers,
    delete: TusDeleteMultiSlotVariableRequest,
    delete_got: DeleteMultislotAnswers,
    delete_data: TusDeleteMultiSlotDataRequest,
    delete_data_got: DeleteDataAnswers,
)
    ensures
        names_another(set.user, set_got.owner, client) && set.slot_id_array@.len()
            == set.variable_array@.len() && (set_got.db matches Some(Ok(_)))
            ==> set_multislot_variable(client, &set, set_got) == StepView::Done(
            Ok(ErrorType::Unauthorized),
        ),
        names_another(delete.user, delete_got.owner, client) && delete.slot_id_array@.len() > 0
            && (delete_got.db matches Some(Ok(_))) ==> delete_multislot_variable(
            client,
            &delete,
            delete_got,
        ) == StepView::Done(Ok(ErrorType::Unauthorized)),
        names_another(delete_data.user, delete_data_got.owner, client)
            && delete_data.slot_id_array@.len() > 0 && (delete_data_got.db matches Some(Ok(_)))
            ==> delete_multislot_data(client, &delete_data, delete_data_got) == StepView::Done(
            Ok(ErrorType::Unauthorized),
        ),
{
}

/// A client that tries to change another account's variable under conditions is
/// told that it is not authorized.
pub proof fn law_conditional_changes_of_others_are_refused(
    client: Client,
    add: TusAddAndGetVariableRequest,
    try_set: TusTryAndSetVariableRequest,
    got: ChangeVariableAnswers,
)
    requires
        got.timestamp is Some,
        got.db matches Some(Ok(_)),
    ensures
        names_another(add.user, got.owner, client) && compare_date(add.is_last_changed_date@) is Ok
            && compare_author(&add.is_last_changed_author_id, got.compare_author) is Ok
            ==> add_and_get_variable(client, &add, got) == StepView::Done(
            Ok(ErrorType::Unauthorized),
        ),
        names_another(try_set.user, got.owner, client) && ope_type(try_set.ope_type) is Some
            && compare_value(try_set.compare_value@, try_set.variable) is Ok && compare_date(
            try_set.is_last_changed_date@,
        ) is Ok && compare_author(&try_set.is_last_changed_author_id, got.compare_author) is Ok
            ==> try_and_set_variable(client, &try_set, got) == StepView::Done(
            Ok(ErrorType::Unauthorized),
        ),
{
}

/// An author that does not exist never matches: neither command changes the
/// variable then. It is answered with as it stands, and where there is none the
/// client is told that the condition failed.
pub proof fn law_an_unknown_author_changes_nothing(
    client: Client,
    add: TusAddAndGetVariableRequest,
    try_set: TusTryAndSetVariableRequest,
    got: ChangeVariableAnswers,
)
    requires
        add.is_last_changed_author_id@.len() > 0,
        try_set.is_last_changed_author_id@.len() > 0,
        got.compare_author == Some(Err::<i64, DbError>(DbError::Empty)),
    ensures
        !writes(add_and_get_variable(client, &add, got)),
        !writes(try_and_set_variable(client, &try_set, got)),
        add_and_get_variable(client, &add, got) matches StepView::Answer(reply) ==> answers_with(
            reply,
            add.user,
            got,
        ),
        try_and_set_variable(client, &try_set, got) matches StepView::Answer(reply)
            ==> answers_with(reply, try_set.user, got),
        found_nothing(add_and_get_variable(client, &add, with_variable(got, None)), got) ==> fails(
            add_and_get_variable(client, &add, got),
        ),
        found_nothing(try_and_set_variable(client, &try_set, with_variable(got, None)), got)
            ==> fails(try_and_set_variable(client, &try_set, got)),
{
}

/// The same answers but for the variable.
pub open spec fn with_variable(
    got: ChangeVariableAnswers,
    variable: Option<Result<DbTusVariable, DbError>>,
) -> ChangeVariableAnswers {
    ChangeVariableAnswers { variable, ..got }
}

/// Whether a step asks for a variable that the host then did not find.
pub open spec fn found_nothing(step: StepView, got: ChangeVariableAnswers) -> bool {
    step is Ask && step->Ask_0 is GetVariable && got.variable == Some(
        Err::<DbTusVariable, DbError>(DbError::Empty),
    )
}

/// Whether a step tells the client that the condition it set failed.
pub open spec fn fails(step: StepView) -> bool {
    step == StepView::Done(Ok::<ErrorType, ErrorType>(ErrorType::CondFail))
}

/// Whether a step would have the host change a variable.
pub open spec fn writes(step: StepView) -> bool {
    match step {
        StepView::Ask(Query::SetVariable { .. }) => true,
        StepView::Ask(Query::AddAndGetVariable { .. }) => true,
        StepView::Ask(Query::TryAndSetVariable { .. }) => true,
        StepView::Ask(Query::DeleteVariables { .. }) => true,
        _ => false,
    }
}

/// Whether a reply holds the variable that the host found, under the name of the
/// user that the request is about.
pub open spec fn answers_with(
    reply: ReplyView,
    user: Option<TusUser>,
    got: ChangeVariableAnswers,
) -> bool {
    got.variable matches Some(Ok(row)) && got.author_name matches Some(Ok(author)) && reply
        == ReplyView::Variable(present_variable(user->0.npid@, row, author@))
}

/// A write is asked for under exactly the condition on the author that the
/// request sets: none where it names nobody, and otherwise the account that it
/// names.
pub proof fn law_the_author_condition_is_passed_on(
    client: Client,
    add: TusAddAndGetVariableRequest,
    try_set: TusTryAndSetVariableRequest,
    got: ChangeVariableAnswers,
)
    ensures
        add_and_get_variable(client, &add, got) matches StepView::Ask(
            Query::AddAndGetVariable { compare_author, .. },
        ) ==> is_the_condition(compare_author, add.is_last_changed_author_id@, got),
        try_and_set_variable(client, &try_set, got) matches StepView::Ask(
            Query::TryAndSetVariable { compare_author, .. },
        ) ==> is_the_condition(compare_author, try_set.is_last_changed_author_id@, got),
{
}

/// Whether `compare_author` is the condition that a request sets by naming
/// `name`.
pub open spec fn is_the_condition(
    compare_author: Option<i64>,
    name: Seq<char>,
    got: ChangeVariableAnswers,
) -> bool {
    match compare_author {
        None => name.len() == 0,
        Some(user_id) => name.len() > 0 && got.compare_author == Some(
            Ok::<i64, DbError>(user_id),
        ),
    }
}

/// A client that tries to store data for another account is told that it is not
/// authorized.
pub proof fn law_data_for_others_are_refused(
    client: Client,
    req: TusSetDataRequest,
    got: SetDataAnswers,
)
    requires
        is_valid_set_data(req),
        names_another(req.user, got.owner, client),
        (got.db matches Some(Ok(_))),
        required_author(&req.is_last_changed_author_id, got.compare_author) is Ok,
        got.timestamp is Some,
    ensures
        set_data(client, &req, &got) == StepView::Done(Ok(ErrorType::Unauthorized)),
{
}

/// A request to store data that is not well formed is answered as malformed,
/// and nothing is asked of the host.
pub proof fn law_malformed_data_are_refused(
    client: Client,
    req: TusSetDataRequest,
    got: SetDataAnswers,
)
    requires
        !is_valid_set_data(req),
    ensures
        set_data(client, &req, &got) == StepView::Done(Err(ErrorType::Malformed)),
{
}

/// Whether the answer to a question of the command that stores data is still
/// missing.
pub open spec fn is_unanswered(
    req: TusSetDataRequest,
    query: Query,
    got: SetDataAnswers,
) -> bool {
    match query {
        Query::Connect => got.db is None,
        Query::UserId { .. } => if req.is_last_changed_author_id@.len() > 0
            && got.compare_author is None {
            true
        } else {
            got.owner is None
        },
        Query::Timestamp => got.timestamp is None,
        Query::GetDataStamp { .. } => got.stamp is None,
        Query::GetData { .. } => got.replaced is None,
        Query::ReadFile { .. } => got.previous_save is None,
        Query::GetRankFloor { .. } => got.floor is None,
        Query::ApplyRankFloor { .. } => got.floored is None,
        Query::CompareSaves { .. } => got.outcome is None,
        Query::CreateFile { .. } => got.data_id is None,
        Query::SetData { .. } => got.stored is None,
        Query::RecordHistory { .. } => got.history is None,
        Query::ResolveMatch { .. } => !got.resolved,
        Query::SetRankFloor { .. } => !got.floor_recorded,
        Query::DeleteFile { .. } => !got.file_deleted,
        _ => false,
    }
}

/// The command that stores data asks nothing twice: a question is only asked
/// while its answer is missing. So it writes one file and one slot at most.
pub proof fn law_storing_asks_nothing_twice(
    client: Client,
    req: TusSetDataRequest,
    got: SetDataAnswers,
)
    ensures
        set_data(client, &req, &got) matches StepView::Ask(query) ==> is_unanswered(
            req,
            query,
            got,
        ),
{
}

/// Whether `after` is what is known once the host has answered `query`.
pub open spec fn answers_query(
    req: TusSetDataRequest,
    before: SetDataAnswers,
    query: Query,
    after: SetDataAnswers,
) -> bool {
    match query {
        Query::Connect => after.db is Some && after == (SetDataAnswers { db: after.db, ..before }),
        Query::UserId { .. } => if req.is_last_changed_author_id@.len() > 0
            && before.compare_author is None {
            after.compare_author is Some && after == (SetDataAnswers {
                compare_author: after.compare_author,
                ..before
            })
        } else {
            after.owner is Some && after == (SetDataAnswers { owner: after.owner, ..before })
        },
        Query::Timestamp => after.timestamp is Some && after == (SetDataAnswers {
            timestamp: after.timestamp,
            ..before
        }),
        Query::GetDataStamp { .. } => after.stamp is Some && after == (SetDataAnswers {
            stamp: after.stamp,
            ..before
        }),
        Query::GetData { .. } => after.replaced is Some && after == (SetDataAnswers {
            replaced: after.replaced,
            ..before
        }),
        Query::ReadFile { .. } => after.previous_save is Some && after == (SetDataAnswers {
            previous_save: after.previous_save,
            ..before
        }),
        Query::GetRankFloor { .. } => after.floor is Some && after == (SetDataAnswers {
            floor: after.floor,
            ..before
        }),
        Query::ApplyRankFloor { .. } => after.floored is Some && after == (SetDataAnswers {
            floored: after.floored,
            ..before
        }),
        Query::CompareSaves { .. } => after.outcome is Some && after == (SetDataAnswers {
            outcome: after.outcome,
            ..before
        }),
        Query::CreateFile { .. } => after.data_id is Some && after == (SetDataAnswers {
            data_id: after.data_id,
            ..before
        }),
        Query::SetData { .. } => after.stored is Some && after == (SetDataAnswers {
            stored: after.stored,
            ..before
        }),
        Query::RecordHistory { .. } => after.history is Some && after == (SetDataAnswers {
            history: after.history,
            ..before
        }),
        Query::ResolveMatch { .. } => after == (SetDataAnswers { resolved: true, ..before }),
        Query::SetRankFloor { .. } => after == (SetDataAnswers { floor_recorded: true, ..before }),
        Query::DeleteFile { .. } => after == (SetDataAnswers { file_deleted: true, ..before }),
        _ => false,
    }
}

/// Whether `run` is what the host goes through as it answers the questions of
/// the command that stores data, one after the other, from the start.
pub open spec fn is_run(client: Client, req: TusSetDataRequest, run: Seq<SetDataAnswers>) -> bool {
    &&& run.len() > 0
    &&& run[0] == SetDataAnswers::none()
    &&& forall|i: int|
        0 < i < run.len() ==> (set_data(client, &req, &run[i - 1]) matches StepView::Ask(query)
            && answers_query(req, run[i - 1], query, #[trigger] run[i]))
}

/// The answers without anything that comes after the file has been written.
spec fn up_to_the_file(got: SetDataAnswers) -> SetDataAnswers {
    SetDataAnswers { data_id: None, ..got }
}

spec fn follows_the_order(client: Client, req: TusSetDataRequest, got: SetDataAnswers) -> bool {
    &&& got.data_id is Some ==> (set_data(client, &req, &up_to_the_file(got)) matches StepView::Ask(
        Query::CreateFile { .. },
    ))
    &&& got.stored is Some ==> got.data_id is Some
    &&& got.history is Some ==> got.stored matches Some(Ok(_))
}

proof fn lemma_runs_follow_the_order(
    client: Client,
    req: TusSetDataRequest,
    run: Seq<SetDataAnswers>,
    i: int,
)
    requires
        is_run(client, req, run),
        0 <= i < run.len(),
    ensures
        follows_the_order(client, req, run[i]),
    decreases i,
{
    if i > 0 {
        lemma_runs_follow_the_order(client, req, run, i - 1);
        let before = run[i - 1];
        let after = run[i];
        if before.data_id is None && after.data_id is Some {
            assert(up_to_the_file(after) == before);
        }
    }
}

#[verifier::opaque]
spec fn one(b: bool) -> int {
    if b {
        1
    } else {
        0
    }
}

proof fn lemma_one()
    ensures
        one(true) == 1,
        one(false) == 0,
        forall|b: bool| 0 <= #[trigger] one(b) <= 1,
{
    reveal(one);
}

/// How many answers the host has given to the command that stores data.
spec fn answers_given(got: SetDataAnswers) -> int {
    lookups_given(got) + readings_given(got) + writes_given(got)
}

spec fn lookups_given(got: SetDataAnswers) -> int {
    one(got.db is Some) + one(got.compare_author is Some) + one(got.timestamp is Some) + one(
        got.owner is Some,
    ) + one(got.stamp is Some)
}

spec fn readings_given(got: SetDataAnswers) -> int {
    one(got.replaced is Some) + one(got.previous_save is Some) + one(got.floor is Some) + one(
        got.floored is Some,
    ) + one(got.outcome is Some)
}

spec fn writes_given(got: SetDataAnswers) -> int {
    one(got.data_id is Some) + one(got.stored is Some) + one(got.history is Some) + one(
        got.resolved,
    ) + one(got.floor_recorded) + one(got.file_deleted)
}

#[verifier::rlimit(30)]
proof fn lemma_an_answer_counts(
    req: TusSetDataRequest,
    before: SetDataAnswers,
    query: Query,
    after: SetDataAnswers,
)
    requires
        is_unanswered(req, query, before),
        answers_query(req, before, query, after),
    ensures
        answers_given(after) == answers_given(before) + 1,
{
    lemma_one();
    match query {
        Query::Connect | Query::UserId { .. } | Query::Timestamp | Query::GetDataStamp { .. } => {
            assert(lookups_given(after) == lookups_given(before) + 1);
        },
        Query::GetData { .. } | Query::ReadFile { .. } | Query::GetRankFloor { .. }
        | Query::ApplyRankFloor { .. } | Query::CompareSaves { .. } => {
            assert(readings_given(after) == readings_given(before) + 1);
        },
        _ => {
            assert(writes_given(after) == writes_given(before) + 1);
        },
    }
}

proof fn lemma_answers_add_up(
    client: Client,
    req: TusSetDataRequest,
    run: Seq<SetDataAnswers>,
    i: int,
)
    requires
        is_run(client, req, run),
        0 <= i < run.len(),
    ensures
        answers_given(run[i]) == i,
    decreases i,
{
    lemma_one();
    if i > 0 {
        lemma_answers_add_up(client, req, run, i - 1);
        law_storing_asks_nothing_twice(client, req, run[i - 1]);
        let query = set_data(client, &req, &run[i - 1])->Ask_0;
        assert(answers_query(req, run[i - 1], query, run[i]));
        lemma_an_answer_counts(req, run[i - 1], query, run[i]);
    }
}

/// The command that stores data ends, however the host answers: it asks sixteen
/// questions at most.
pub proof fn law_storing_ends(client: Client, req: TusSetDataRequest, run: Seq<SetDataAnswers>)
    requires
        is_run(client, req, run),
    ensures
        run.len() <= 17,
{
    lemma_answers_add_up(client, req, run, run.len() - 1);
    lemma_one();
}

/// However the host answers, a request to store data that ends leaves things in
/// order. Success means that the slot points at the new file and that the file
/// it pointed at before is no longer kept. A failed condition means that no
/// file that was written for the request is kept. Any other failure after a file
/// was written comes from the database.
pub proof fn law_storing_leaves_no_file_behind(
    client: Client,
    req: TusSetDataRequest,
    run: Seq<SetDataAnswers>,
)
    requires
        is_run(client, req, run),
    ensures
        ({
            let got = run.last();
            let user = named_user(req.user);
            set_data(client, &req, &got) matches StepView::Done(result) ==> {
                &&& result == Ok::<ErrorType, ErrorType>(ErrorType::NoError) ==> {
                    &&& got.data_id is Some
                    &&& got.stored matches Some(Ok(_))
                    &&& !user->0.vuser && (got.replaced matches Some(Ok(_))) ==> got.file_deleted
                }
                &&& result == Ok::<ErrorType, ErrorType>(ErrorType::CondFail)
                    && got.data_id is Some ==> got.file_deleted
                &&& result is Err && got.data_id is Some ==> result == Err::<ErrorType, ErrorType>(
                    ErrorType::DbFail,
                ) && (got.stored matches Some(Err(_)))
            }
        }),
{
    lemma_runs_follow_the_order(client, req, run, run.len() - 1);
}

/// Whether `read` holds what a host answers that keeps what a step hands it: for
/// the slot what it is pointed at, and for the file what is written.
pub open spec fn keeps(step: StepView, read: GetDataAnswers) -> bool {
    match step {
        StepView::Ask(Query::CreateFile { data }) => read.file matches Some(Some(file)) && file@
            == data@,
        StepView::Ask(Query::SetData { data_id, info, author_id, timestamp, .. }) => {
            read.row matches Some(Ok((status, blob))) && status == (DbTusDataStatus {
                data_id,
                timestamp,
                author_id,
            }) && blob@ == (match info {
                Some(bytes) => bytes@,
                None => Seq::empty(),
            })
        },
        _ => true,
    }
}

/// Whether `read` holds what a host answers that keeps what it was handed in
/// `run`.
pub open spec fn keeps_what_was_handed(
    client: Client,
    req: TusSetDataRequest,
    run: Seq<SetDataAnswers>,
    read: GetDataAnswers,
) -> bool {
    forall|i: int|
        0 <= i < run.len() ==> keeps(set_data(client, &req, &(#[trigger] run[i])), read)
}

/// What is stored for a request: its data, or the save that they were raised to.
pub open spec fn stored_bytes(req: TusSetDataRequest, got: SetDataAnswers) -> Seq<u8> {
    match got.floored {
        Some(Some(floored)) if !req.user->0.vuser && floored.data is Some => floored.data->0@,
        _ => req.data@,
    }
}

/// Whether two owners are the same.
pub open spec fn same_owner(a: Owner, b: Owner) -> bool {
    match (a, b) {
        (Owner::Virtual(x), Owner::Virtual(y)) => x@ == y@,
        (Owner::Account(x), Owner::Account(y)) => x == y,
        _ => false,
    }
}

/// Whether the step asks for a file with these contents.
spec fn hands_over_file(step: StepView, contents: Seq<u8>) -> bool {
    step matches StepView::Ask(Query::CreateFile { data }) && data@ == contents
}

/// Whether the step asks for the slot of the request to be pointed at the file
/// that is known.
spec fn hands_over_slot(
    step: StepView,
    client: Client,
    req: TusSetDataRequest,
    got: SetDataAnswers,
) -> bool {
    step matches StepView::Ask(
        Query::SetData { owner, slot, data_id, info, author_id, timestamp, .. },
    ) && {
        &&& read_owner(&named_user(req.user)->0, got.owner) == Ok::<Owner, StepView>(owner)
        &&& slot == req.slot_id
        &&& Some(data_id) == got.data_id
        &&& info == info_blob(&req)
        &&& author_id == client.user_id
        &&& Some(timestamp) == got.timestamp
    }
}

proof fn lemma_what_is_handed_over(client: Client, req: TusSetDataRequest, got: SetDataAnswers)
    ensures
        ({
            let step = set_data(client, &req, &got);
            &&& step matches StepView::Ask(Query::CreateFile { .. }) ==> hands_over_file(
                step,
                stored_bytes(req, got),
            )
            &&& step matches StepView::Ask(Query::SetData { .. }) ==> hands_over_slot(
                step,
                client,
                req,
                got,
            )
        }),
{
}

/// Whether a question comes only after the file has been written.
spec fn comes_after_the_file(query: Query) -> bool {
    match query {
        Query::SetData { .. } => true,
        Query::RecordHistory { .. } => true,
        Query::ResolveMatch { .. } => true,
        Query::SetRankFloor { .. } => true,
        Query::DeleteFile { .. } => true,
        _ => false,
    }
}

proof fn lemma_after_the_file(client: Client, req: TusSetDataRequest, got: SetDataAnswers)
    requires
        follows_the_order(client, req, got),
        got.data_id is Some,
    ensures
        set_data(client, &req, &got) matches StepView::Ask(query) ==> comes_after_the_file(query),
{
}

proof fn lemma_runs_hand_over(
    client: Client,
    req: TusSetDataRequest,
    run: Seq<SetDataAnswers>,
    i: int,
)
    requires
        is_run(client, req, run),
        0 <= i < run.len(),
    ensures
        run[i].data_id is Some ==> exists|k: int|
            0 <= k < i && hands_over_file(
                set_data(client, &req, &(#[trigger] run[k])),
                stored_bytes(req, run[i]),
            ),
        run[i].stored is Some ==> exists|k: int|
            0 <= k < i && hands_over_slot(
                set_data(client, &req, &(#[trigger] run[k])),
                client,
                req,
                run[i],
            ),
    decreases i,
{
    if i > 0 {
        lemma_runs_hand_over(client, req, run, i - 1);
        lemma_runs_follow_the_order(client, req, run, i - 1);
        let before = run[i - 1];
        let after = run[i];
        let query = set_data(client, &req, &before)->Ask_0;
        assert(answers_query(req, before, query, after));
        lemma_what_is_handed_over(client, req, before);
        if before.data_id is Some {
            lemma_after_the_file(client, req, before);
            lemma_the_rest_is_kept(req, before, query, after);
        } else {
            lemma_only_the_file_is_new(client, req, before, query, after);
        }
    }
}

proof fn lemma_the_rest_is_kept(
    req: TusSetDataRequest,
    before: SetDataAnswers,
    query: Query,
    after: SetDataAnswers,
)
    requires
        comes_after_the_file(query),
        answers_query(req, before, query, after),
    ensures
        after.data_id == before.data_id,
        after.owner == before.owner,
        after.timestamp == before.timestamp,
        after.floored == before.floored,
        after.stored != before.stored ==> query is SetData,
{
}

proof fn lemma_only_the_file_is_new(
    client: Client,
    req: TusSetDataRequest,
    before: SetDataAnswers,
    query: Query,
    after: SetDataAnswers,
)
    requires
        follows_the_order(client, req, before),
        before.data_id is None,
        set_data(client, &req, &before) == StepView::Ask(query),
        answers_query(req, before, query, after),
    ensures
        after.stored is None,
        after.data_id is Some ==> query is CreateFile && after.floored == before.floored,
{
}

/// What was stored reads back. Once a request to store data has succeeded, a
/// request for the same slot of the same user asks for that slot, for the file that
/// was written and for the name of the client that stored it. With what was handed
/// over for them it is answered with the data and the info blob of the first
/// request and the time it was made at. Where the save was raised, what it was
/// raised to reads back.
pub proof fn law_stored_data_read_back(
    client: Client,
    req: TusSetDataRequest,
    run: Seq<SetDataAnswers>,
    reader: Client,
    get: TusGetDataRequest,
    read: GetDataAnswers,
)
    requires
        is_run(client, req, run),
        set_data(client, &req, &run.last()) == StepView::Done(Ok(ErrorType::NoError)),
        keeps_what_was_handed(client, req, run, read),
        get.user matches Some(user) && user.npid@ == req.user->0.npid@ && user.vuser
            == req.user->0.vuser,
        get.slot_id == req.slot_id,
        read.db matches Some(Ok(_)),
        !req.user->0.vuser ==> read.owner == run.last().owner,
        read.author_name matches Some(Ok(_)),
        read.floor_marked,
    ensures
        ({
            let got = run.last();
            &&& get_data(reader, &get, GetDataAnswers { row: None, ..read }) matches StepView::Ask(
                Query::GetData { owner, slot },
            ) && slot == req.slot_id && (read_owner(&req.user->0, got.owner) matches Ok(written)
                && same_owner(owner, written))
            &&& get_data(reader, &get, GetDataAnswers { file: None, ..read }) == StepView::Ask(
                Query::ReadFile { data_id: got.data_id->0 },
            )
            &&& get_data(reader, &get, GetDataAnswers { author_name: None, ..read })
                == StepView::Ask(Query::Username { user_id: client.user_id })
            &&& get_data(reader, &get, read) matches StepView::Answer(
                ReplyView::Data { status, data },
            ) && {
                &&& data == stored_bytes(req, got)
                &&& status.owner_id == req.user->0.npid@
                &&& status.has_data
                &&& Some(status.last_changed_date) == got.timestamp
                &&& status.last_changed_author_id == read.author_name->0->Ok_0@
                &&& status.info == req.info@
            }
        }),
{
    let got = run.last();
    let last = run.len() - 1;
    law_storing_leaves_no_file_behind(client, req, run);
    lemma_runs_hand_over(client, req, run, last);
    let f = choose|k: int|
        0 <= k < last && hands_over_file(
            set_data(client, &req, &(#[trigger] run[k])),
            stored_bytes(req, got),
        );
    let s = choose|k: int|
        0 <= k < last && hands_over_slot(
            set_data(client, &req, &(#[trigger] run[k])),
            client,
            req,
            got,
        );
    assert(set_data(client, &req, &run[f]) is Ask);
    assert(set_data(client, &req, &run[s]) is Ask);
    assert(req.info@.len() == 0 ==> req.info@ =~= Seq::<u8>::empty());
}

/// No file is written and no slot repointed unless the request is well formed
/// and its conditions do not already rule the change out.
pub proof fn law_nothing_is_written_against_the_conditions(
    client: Client,
    req: TusSetDataRequest,
    got: SetDataAnswers,
)
    ensures
        set_data(client, &req, &got) matches StepView::Ask(Query::CreateFile { .. })
            ==> is_valid_set_data(req) && (compare_date(req.is_last_changed_date@).unwrap() is None
            && req.is_last_changed_author_id@.len() == 0 || got.stamp is Some),
        set_data(client, &req, &got) matches StepView::Ask(Query::SetData {
            owner,
            slot,
            data_id,
            info,
            author_id,
            timestamp,
            compare_timestamp,
            compare_author,
        }) ==> {
            &&& is_valid_set_data(req)
            &&& slot == req.slot_id
            &&& Some(data_id) == got.data_id
            &&& info == info_blob(&req)
            &&& author_id == client.user_id
            &&& Some(timestamp) == got.timestamp
            &&& Ok::<Option<u64>, ErrorType>(compare_timestamp) == compare_date(
                req.is_last_changed_date@,
            )
            &&& until_conditions_hold(
                owner,
                slot,
                compare_timestamp,
                compare_author,
                got.stamp,
            ) is None
        },
{
}

/// A file is deleted in two cases only: the slot already points at the new save
/// and the file is the one it pointed at before, or the slot refused the new
/// save and the file is the one that was just written for it.
pub proof fn law_only_unreachable_files_are_deleted(
    client: Client,
    req: TusSetDataRequest,
    got: SetDataAnswers,
)
    ensures
        set_data(client, &req, &got) matches StepView::Ask(Query::DeleteFile { data_id }) ==> {
            ||| (got.stored matches Some(Ok(_))) && (got.replaced matches Some(Ok(status))
                && status.data_id == data_id)
            ||| got.stored == Some(Err::<(), DbError>(DbError::Empty)) && got.data_id == Some(
                data_id,
            )
        },
{
}

/// Once an account's slot points at its new save the command can only succeed,
/// and it ends only after the save it replaced has been dealt with.
pub proof fn law_a_stored_save_succeeds(
    user_id: i64,
    req: TusSetDataRequest,
    got: SetDataAnswers,
    superseded: Option<u64>,
    floored: Option<&Floored>,
    outcome: Option<bool>,
    data_id: u64,
    timestamp: u64,
)
    ensures
        ({
            let step = after_stored(
                user_id,
                &req,
                &got,
                superseded,
                floored,
                outcome,
                data_id,
                timestamp,
            );
            &&& step matches StepView::Done(result) ==> result == Ok::<ErrorType, ErrorType>(
                ErrorType::NoError,
            ) && (superseded is Some ==> got.file_deleted) && (floored is Some
                ==> got.floor_recorded) && got.history is Some
            &&& !(step is Answer)
            // A raise that the client has not been handed yet stays undelivered.
            &&& step matches StepView::Ask(Query::SetRankFloor { delivered, floor, .. })
                ==> floored is Some && floor == floored->0.floor && (delivered <==> floored->0.data
                is None)
        }),
{
}

/// The result of a match is read from the save as the client sent it, never from
/// one that was raised.
pub proof fn law_results_are_read_from_what_was_sent(
    client: Client,
    req: TusSetDataRequest,
    got: SetDataAnswers,
)
    ensures
        set_data(client, &req, &got) matches StepView::Ask(Query::CompareSaves { data, previous })
            ==> *data == req.data && (got.previous_save matches Some(Some(save)) && *previous
            == save),
        set_data(client, &req, &got) matches StepView::Ask(Query::CreateFile { data }) ==> *data
            == req.data || (got.floored matches Some(Some(floored)) && floored.data == Some(*data)),
{
}

/// The delivery of a rank floor is recorded exactly when a client reads a slot
/// of its own account, and before it is given the data.
pub proof fn law_delivery_is_recorded_for_own_reads(
    client: Client,
    req: TusGetDataRequest,
    got: GetDataAnswers,
)
    ensures
        get_data(client, &req, got) matches StepView::Ask(Query::MarkRankFloorDelivered {
            user_id,
            slot,
        }) ==> user_id == client.user_id && slot == req.slot_id && (named_user(
            req.user,
        ) matches Some(user) && !user.vuser && user.npid@ == client.npid@),
        get_data(client, &req, got) is Answer && (named_user(req.user) matches Some(user)
            && !user.vuser && user.npid@ == client.npid@) ==> got.floor_marked,
{
}

/// Deleting an account's data succeeds only after the rank floors of the same
/// slots have been dealt with.
pub proof fn law_deleting_data_clears_floors(
    client: Client,
    req: TusDeleteMultiSlotDataRequest,
    got: DeleteDataAnswers,
)
    ensures
        delete_multislot_data(client, &req, got) == StepView::Done(Ok(ErrorType::NoError)) && (
        named_user(req.user) matches Some(user) && !user.vuser) ==> got.floor_cleared,
        delete_multislot_data(client, &req, got) matches StepView::Ask(Query::ClearRankFloor {
            user_id,
            slots,
        }) ==> user_id == client.user_id && *slots == req.slot_id_array && (got.deleted matches Some(
            Ok(_),
        )),
{
}

/// A reply on several slots of one user holds one variable for each slot, under
/// that user's name, and says of each whether there is one.
pub proof fn law_one_variable_for_each_slot(
    req: TusGetMultiSlotVariableRequest,
    got: GetMultislotAnswers,
)
    requires
        got.rows.rows@.len() <= req.slot_id_array@.len(),
    ensures
        get_multislot_variable(&req, got) matches StepView::Answer(reply) ==> {
            &&& reply matches ReplyView::Variables(vars)
            &&& vars.len() == req.slot_id_array@.len()
            &&& forall|i: int|
                0 <= i < vars.len() ==> (#[trigger] vars[i]).owner_id == req.user->0.npid@
                    && vars[i].has_data == (got.rows.rows@[i] is Some)
        },
{
}

/// A reply on one slot of several users holds one variable for each user, under
/// that user's name, and says of each whether there is one.
pub proof fn law_one_variable_for_each_user(
    req: TusGetMultiUserVariableRequest,
    got: GetMultiuserAnswers,
)
    requires
        got.rows.rows@.len() <= req.users@.len(),
    ensures
        get_multiuser_variable(&req, got) matches StepView::Answer(reply) ==> {
            &&& reply matches ReplyView::Variables(vars)
            &&& vars.len() == req.users@.len()
            &&& forall|i: int|
                0 <= i < vars.len() ==> (#[trigger] vars[i]).owner_id == req.users@[i].npid@
                    && vars[i].has_data == (got.rows.rows@[i] is Some)
        },
{
}

/// A reply on the states of slots holds one for each slot or user, under the
/// right name, and says of each whether it holds data.
pub proof fn law_one_status_for_each_slot(
    slots: TusGetMultiSlotDataStatusRequest,
    users: TusGetMultiUserDataStatusRequest,
    got: GetStatusAnswers,
)
    ensures
        got.rows.rows@.len() <= slots.slot_id_array@.len() ==> (get_multislot_data_status(
            &slots,
            got,
        ) matches StepView::Answer(reply) ==> {
            &&& reply matches ReplyView::Statuses(statuses)
            &&& statuses.len() == slots.slot_id_array@.len()
            &&& forall|i: int|
                0 <= i < statuses.len() ==> (#[trigger] statuses[i]).owner_id
                    == slots.user->0.npid@ && statuses[i].has_data == (got.rows.rows@[i] is Some)
        }),
        got.rows.rows@.len() <= users.users@.len() ==> (get_multiuser_data_status(
            &users,
            got,
        ) matches StepView::Answer(reply) ==> {
            &&& reply matches ReplyView::Statuses(statuses)
            &&& statuses.len() == users.users@.len()
            &&& forall|i: int|
                0 <= i < statuses.len() ==> (#[trigger] statuses[i]).owner_id
                    == users.users@[i].npid@ && statuses[i].has_data == (got.rows.rows@[i] is Some)
        }),
{
}

/// Whether a name is that of a friend, or of the client where the request asks
/// for the client too.
pub open spec fn is_of_the_circle(
    name: Seq<char>,
    friends: Map<i64, String>,
    client: Client,
    include_self: bool,
) -> bool {
    (include_self && name == client.npid@) || exists|user_id: i64|
        friends.contains_key(user_id) && (#[trigger] friends[user_id])@ == name
}

/// A reply on friends is about friends only, and about the client where the
/// request asks for it, and tells only of slots that hold something. Without
/// anybody to tell about, the reply is empty and the database is not asked.
pub proof fn law_friends_and_nobody_else(
    client: Client,
    friends: Map<i64, String>,
    vars: TusGetFriendsVariableRequest,
    vars_got: FriendsVariableAnswers,
    statuses: TusGetFriendsDataStatusRequest,
    statuses_got: FriendsStatusAnswers,
)
    requires
        vars_got.wf(),
        vars_got.friends matches Some(list) ==> list.users@ == with_self(
            friends,
            client,
            vars.include_self,
        ),
        statuses_got.wf(),
        statuses_got.friends matches Some(list) ==> list.users@ == with_self(
            friends,
            client,
            statuses.include_self,
        ),
    ensures
        get_friends_variable(&vars, &vars_got) matches StepView::Answer(reply) ==> {
            &&& reply matches ReplyView::Variables(list)
            &&& forall|i: int|
                0 <= i < list.len() ==> (#[trigger] list[i]).has_data && is_of_the_circle(
                    list[i].owner_id,
                    friends,
                    client,
                    vars.include_self,
                )
        },
        get_friends_data_status(&statuses, &statuses_got) matches StepView::Answer(reply) ==> {
            &&& reply matches ReplyView::Statuses(list)
            &&& forall|i: int|
                0 <= i < list.len() ==> (#[trigger] list[i]).has_data && is_of_the_circle(
                    list[i].owner_id,
                    friends,
                    client,
                    statuses.include_self,
                )
        },
        (vars_got.friends matches Some(list) && list.users@.len() == 0) && variable_order(
            vars.sort_type,
        ) is Some ==> get_friends_variable(&vars, &vars_got) == StepView::Answer(
            ReplyView::Variables(Seq::empty()),
        ),
        (statuses_got.friends matches Some(list) && list.users@.len() == 0) && status_order(
            statuses.sort_type,
        ) is Some ==> get_friends_data_status(&statuses, &statuses_got) == StepView::Answer(
            ReplyView::Statuses(Seq::empty()),
        ),
{
    if let Some(Ok(rows)) = vars_got.rows {
        if let Some(list) = vars_got.friends {
            assert forall|i: int| 0 <= i < rows@.len() implies is_of_the_circle(
                list.users@[(#[trigger] rows@[i]).0]@,
                friends,
                client,
                vars.include_self,
            ) by {
                lemma_circle(list.users@, rows@[i].0, friends, client, vars.include_self);
            }
        }
    }
    if let Some(Ok(rows)) = statuses_got.rows {
        if let Some(list) = statuses_got.friends {
            assert forall|i: int| 0 <= i < rows@.len() implies is_of_the_circle(
                list.users@[(#[trigger] rows@[i]).0]@,
                friends,
                client,
                statuses.include_self,
            ) by {
                lemma_circle(list.users@, rows@[i].0, friends, client, statuses.include_self);
            }
        }
    }
}

proof fn lemma_circle(
    users: Map<i64, String>,
    user_id: i64,
    friends: Map<i64, String>,
    client: Client,
    include_self: bool,
)
    requires
        users == with_self(friends, client, include_self),
        users.contains_key(user_id),
    ensures
        is_of_the_circle(users[user_id]@, friends, client, include_self),
{
    if !(include_self && user_id == client.user_id) {
        assert(friends.contains_key(user_id) && friends[user_id] == users[user_id]);
    }
}

} // verus!
