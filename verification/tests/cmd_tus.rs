use rpcn::cmd_tus::data::{DeleteDataAnswers, GetDataAnswers, GetStatusAnswers, SetDataAnswers};
use rpcn::cmd_tus::friends::{
    AuthorNames, FriendList, FriendsStatusAnswers, FriendsVariableAnswers,
};
use rpcn::cmd_tus::rows::{Names, StatusRows, VariableRows};
use rpcn::cmd_tus::types::{
    Client, DbTusDataStatus, DbTusVariable, FloorState, Floored, MatchOutcome, Owner, Query, Reply,
    Step, TusAddAndGetVariableRequest, TusDeleteMultiSlotDataRequest,
    TusDeleteMultiSlotVariableRequest, TusGetDataRequest, TusGetFriendsDataStatusRequest,
    TusGetFriendsVariableRequest, TusGetMultiSlotDataStatusRequest, TusGetMultiSlotVariableRequest,
    TusGetMultiUserDataStatusRequest, TusGetMultiUserVariableRequest, TusOpeType,
    TusSetDataRequest, TusSetMultiSlotVariableRequest, TusSorting, TusStatusSorting,
    TusTryAndSetVariableRequest, TusUser,
};
use rpcn::cmd_tus::variables::{
    ChangeVariableAnswers, DeleteMultislotAnswers, GetMultislotAnswers, GetMultiuserAnswers,
    SetMultislotAnswers,
};
use rpcn::error::{DbError, ErrorType};
use std::collections::HashMap;

const ME: i64 = 5;
const OTHER: i64 = 6;

fn client() -> Client {
    Client { user_id: ME, npid: "me".to_owned() }
}

fn user(npid: &str, vuser: bool) -> Option<TusUser> {
    Some(TusUser { npid: npid.to_owned(), vuser })
}

fn variable(value: i64, author_id: i64) -> DbTusVariable {
    DbTusVariable { variable: value, timestamp: 70, author_id }
}

fn done(step: Step, wanted: Result<ErrorType, ErrorType>) {
    match step {
        Step::Done(result) => assert_eq!(result, wanted),
        other => panic!("{:?}", other),
    }
}

#[test]
fn numbers_stand_for_orders_and_comparisons() {
    assert_eq!(TusSorting::from_i32(1), Some(TusSorting::SCE_NP_TUS_VARIABLE_SORTTYPE_DESCENDING_DATE));
    assert_eq!(TusSorting::from_i32(4), Some(TusSorting::SCE_NP_TUS_VARIABLE_SORTTYPE_ASCENDING_VALUE));
    assert_eq!(TusSorting::from_i32(0), None);
    assert_eq!(TusSorting::from_i32(5), None);
    assert_eq!(TusOpeType::from_i32(6), Some(TusOpeType::SCE_NP_TUS_OPETYPE_LESS_OR_EQUAL));
    assert_eq!(TusOpeType::from_i32(7), None);
    assert_eq!(TusStatusSorting::from_i32(2), Some(TusStatusSorting::SCE_NP_TUS_DATASTATUS_SORTTYPE_ASCENDING_DATE));
    assert_eq!(TusStatusSorting::from_i32(3), None);
}

#[test]
fn each_slot_is_set_to_its_own_value() {
    let me = client();
    let req = TusSetMultiSlotVariableRequest { user: user("me", false), slot_id_array: vec![1, 2], variable_array: vec![10, 20] };
    let mut got = SetMultislotAnswers { db: None, owner: None, written: 0 };
    assert!(matches!(me.tus_set_multislot_variable(&req, &got), Step::Ask(Query::Connect)));
    got.db = Some(Ok(()));
    assert!(matches!(me.tus_set_multislot_variable(&req, &got), Step::Ask(Query::UserId { npid }) if npid == "me"));
    got.owner = Some(Ok(ME));
    assert!(matches!(me.tus_set_multislot_variable(&req, &got), Step::Ask(Query::SetVariable { owner: Owner::Account(ME), slot: 1, value: 10, author_id: ME })));
    got.written = 1;
    assert!(matches!(me.tus_set_multislot_variable(&req, &got), Step::Ask(Query::SetVariable { slot: 2, value: 20, .. })));
    got.written = 2;
    done(me.tus_set_multislot_variable(&req, &got), Ok(ErrorType::NoError));
}

#[test]
fn variables_that_were_set_read_back() {
    let me = client();
    let set = TusSetMultiSlotVariableRequest { user: user("me", false), slot_id_array: vec![4, 9, 4], variable_array: vec![10, -3, 12] };
    let get = TusGetMultiSlotVariableRequest { user: user("me", false), slot_id_array: vec![9, 2, 4] };
    let mut kept: HashMap<i32, DbTusVariable> = HashMap::new();
    let mut got = SetMultislotAnswers { db: None, owner: None, written: 0 };
    loop {
        match me.tus_set_multislot_variable(&set, &got) {
            Step::Ask(Query::Connect) => got.db = Some(Ok(())),
            Step::Ask(Query::UserId { npid }) => {
                assert_eq!(npid, "me");
                got.owner = Some(Ok(ME));
            }
            Step::Ask(Query::SetVariable { owner: Owner::Account(ME), slot, value, author_id }) => {
                kept.insert(slot, DbTusVariable { variable: value, timestamp: 100 + got.written as u64, author_id });
                got.written += 1;
            }
            step => {
                done(step, Ok(ErrorType::NoError));
                break;
            }
        }
    }
    let mut read = GetMultislotAnswers { db: None, owner: None, rows: VariableRows::new(), names: Names::new() };
    let vars = loop {
        match me.tus_get_multislot_variable(&get, &read) {
            Step::Ask(Query::Connect) => read.db = Some(Ok(())),
            Step::Ask(Query::UserId { .. }) => read.owner = Some(Ok(ME)),
            Step::Ask(Query::GetVariable { owner: Owner::Account(ME), slot }) => {
                read.rows.answer(kept.get(&slot).copied().ok_or(DbError::Empty));
            }
            Step::Ask(Query::Username { user_id: ME }) => read.names.answer(Ok("me".to_owned())),
            Step::Answer(Reply::Variables(vars)) => break vars,
            _ => panic!("the variables are not answered with"),
        }
    };
    let seen: Vec<(bool, i64, u64, &str)> =
        vars.iter().map(|v| (v.has_data, v.variable, v.last_changed_date, v.last_changed_author_id.as_str())).collect();
    assert_eq!(seen, vec![(true, -3, 101, "me"), (false, 0, 0, ""), (true, 12, 102, "me")]);
    assert!(vars.iter().all(|v| v.owner_id == "me"));
}

#[test]
fn variables_of_others_are_safe() {
    let me = client();
    let req = TusSetMultiSlotVariableRequest { user: user("other", false), slot_id_array: vec![1], variable_array: vec![10] };
    let mut got = SetMultislotAnswers { db: Some(Ok(())), owner: Some(Ok(OTHER)), written: 0 };
    done(me.tus_set_multislot_variable(&req, &got), Ok(ErrorType::Unauthorized));
    got.owner = Some(Err(DbError::Empty));
    done(me.tus_set_multislot_variable(&req, &got), Ok(ErrorType::NotFound));
    got.owner = Some(Err(DbError::Internal));
    done(me.tus_set_multislot_variable(&req, &got), Err(ErrorType::DbFail));
    got.db = Some(Err(ErrorType::DbFail));
    done(me.tus_set_multislot_variable(&req, &got), Err(ErrorType::DbFail));
    let virtual_req = TusSetMultiSlotVariableRequest { user: user("club", true), slot_id_array: vec![1], variable_array: vec![10] };
    got.db = Some(Ok(()));
    assert!(matches!(me.tus_set_multislot_variable(&virtual_req, &got), Step::Ask(Query::SetVariable { owner: Owner::Virtual(name), .. }) if name == "club"));
}

#[test]
fn malformed_requests_are_refused_at_once() {
    let me = client();
    let got = SetMultislotAnswers { db: None, owner: None, written: 0 };
    let uneven = TusSetMultiSlotVariableRequest { user: user("me", false), slot_id_array: vec![1], variable_array: vec![] };
    done(me.tus_set_multislot_variable(&uneven, &got), Err(ErrorType::Malformed));
    let nameless = TusSetMultiSlotVariableRequest { user: user("", false), slot_id_array: vec![], variable_array: vec![] };
    done(me.tus_set_multislot_variable(&nameless, &got), Err(ErrorType::Malformed));
    let nobody = TusSetMultiSlotVariableRequest { user: None, slot_id_array: vec![], variable_array: vec![] };
    done(me.tus_set_multislot_variable(&nobody, &got), Err(ErrorType::Malformed));
    let no_slots = TusDeleteMultiSlotVariableRequest { user: user("me", false), slot_id_array: vec![] };
    done(me.tus_delete_multislot_variable(&no_slots, &DeleteMultislotAnswers { db: None, owner: None, deleted: None }), Err(ErrorType::Malformed));
    let no_users = TusGetMultiUserDataStatusRequest { users: vec![], slot_id: 1 };
    done(me.tus_get_multiuser_data_status(&no_users, &GetStatusAnswers { db: None, owner: None, rows: StatusRows::new(), names: Names::new() }), Err(ErrorType::Malformed));
}

#[test]
fn one_variable_is_answered_for_each_slot() {
    let me = client();
    let req = TusGetMultiSlotVariableRequest { user: user("other", false), slot_id_array: vec![3, 4] };
    let mut got = GetMultislotAnswers { db: Some(Ok(())), owner: Some(Ok(OTHER)), rows: VariableRows::new(), names: Names::new() };
    assert!(matches!(me.tus_get_multislot_variable(&req, &got), Step::Ask(Query::GetVariable { owner: Owner::Account(OTHER), slot: 3 })));
    got.rows.answer(Err(DbError::Empty));
    assert!(matches!(me.tus_get_multislot_variable(&req, &got), Step::Ask(Query::GetVariable { slot: 4, .. })));
    got.rows.answer(Ok(variable(9, ME)));
    assert!(matches!(me.tus_get_multislot_variable(&req, &got), Step::Ask(Query::Username { user_id: ME })));
    got.names.answer(Ok("me".to_owned()));
    match me.tus_get_multislot_variable(&req, &got) {
        Step::Answer(Reply::Variables(vars)) => {
            assert_eq!(vars.len(), 2);
            assert_eq!((vars[0].owner_id.as_str(), vars[0].has_data, vars[0].variable), ("other", false, 0));
            assert_eq!((vars[1].has_data, vars[1].variable, vars[1].old_variable, vars[1].last_changed_date), (true, 9, 9, 70));
            assert_eq!(vars[1].last_changed_author_id, "me");
        }
        other => panic!("{:?}", other),
    }
}

#[test]
fn a_failing_database_ends_the_reading() {
    let me = client();
    let req = TusGetMultiSlotVariableRequest { user: user("club", true), slot_id_array: vec![3] };
    let mut got = GetMultislotAnswers { db: Some(Ok(())), owner: None, rows: VariableRows::new(), names: Names::new() };
    got.rows.answer(Err(DbError::Internal));
    done(me.tus_get_multislot_variable(&req, &got), Err(ErrorType::DbFail));
    let mut named = GetMultislotAnswers { db: Some(Ok(())), owner: None, rows: VariableRows::new(), names: Names::new() };
    named.rows.answer(Ok(variable(1, OTHER)));
    named.names.answer(Err(DbError::Empty));
    done(me.tus_get_multislot_variable(&req, &named), Err(ErrorType::DbFail));
}

#[test]
fn one_variable_is_answered_for_each_user() {
    let me = client();
    let req = TusGetMultiUserVariableRequest {
        users: vec![TusUser { npid: "club".to_owned(), vuser: true }, TusUser { npid: "other".to_owned(), vuser: false }],
        slot_id: 8,
    };
    let mut got = GetMultiuserAnswers { db: Some(Ok(())), owner: None, rows: VariableRows::new(), names: Names::new() };
    assert!(matches!(me.tus_get_multiuser_variable(&req, &got), Step::Ask(Query::GetVariable { owner: Owner::Virtual(_), slot: 8 })));
    got.answer_row(Ok(variable(1, ME)));
    assert!(matches!(me.tus_get_multiuser_variable(&req, &got), Step::Ask(Query::UserId { npid }) if npid == "other"));
    got.owner = Some(Ok(OTHER));
    assert!(matches!(me.tus_get_multiuser_variable(&req, &got), Step::Ask(Query::GetVariable { owner: Owner::Account(OTHER), slot: 8 })));
    got.answer_row(Err(DbError::Empty));
    assert!(got.owner.is_none());
    got.names.answer(Ok("me".to_owned()));
    match me.tus_get_multiuser_variable(&req, &got) {
        Step::Answer(Reply::Variables(vars)) => {
            assert_eq!((vars[0].owner_id.as_str(), vars[0].has_data), ("club", true));
            assert_eq!((vars[1].owner_id.as_str(), vars[1].has_data), ("other", false));
        }
        other => panic!("{:?}", other),
    }
    let nameless = TusGetMultiUserVariableRequest { users: vec![TusUser { npid: String::new(), vuser: true }], slot_id: 8 };
    done(me.tus_get_multiuser_variable(&nameless, &got), Err(ErrorType::Malformed));
}

fn no_change() -> ChangeVariableAnswers {
    ChangeVariableAnswers { timestamp: None, db: None, compare_author: None, owner: None, variable: None, author_name: None }
}

#[test]
fn adding_passes_on_the_conditions() {
    let me = client();
    let req = TusAddAndGetVariableRequest { user: user("me", false), slot_id: 2, in_variable: -3, is_last_changed_date: vec![99], is_last_changed_author_id: "boss".to_owned() };
    let mut got = no_change();
    assert!(matches!(me.tus_add_and_get_variable(&req, &got), Step::Ask(Query::Timestamp)));
    got.timestamp = Some(1000);
    assert!(matches!(me.tus_add_and_get_variable(&req, &got), Step::Ask(Query::Connect)));
    got.db = Some(Ok(()));
    assert!(matches!(me.tus_add_and_get_variable(&req, &got), Step::Ask(Query::UserId { npid }) if npid == "boss"));
    got.answer_user_id(&req.is_last_changed_author_id, Ok(44));
    assert_eq!(got.compare_author, Some(Ok(44)));
    assert!(matches!(me.tus_add_and_get_variable(&req, &got), Step::Ask(Query::UserId { npid }) if npid == "me"));
    got.answer_user_id(&req.is_last_changed_author_id, Ok(ME));
    assert_eq!(got.owner, Some(Ok(ME)));
    match me.tus_add_and_get_variable(&req, &got) {
        Step::Ask(Query::AddAndGetVariable { owner: Owner::Account(ME), slot, to_add, author_id, timestamp, compare_timestamp, compare_author }) => {
            assert_eq!((slot, to_add, author_id, timestamp, compare_timestamp, compare_author), (2, -3, ME, 1000, Some(99), Some(44)));
        }
        other => panic!("{:?}", other),
    }
    got.variable = Some(Ok(variable(7, OTHER)));
    assert!(matches!(me.tus_add_and_get_variable(&req, &got), Step::Ask(Query::Username { user_id: OTHER })));
    got.author_name = Some(Ok("other".to_owned()));
    assert!(matches!(me.tus_add_and_get_variable(&req, &got), Step::Answer(Reply::Variable(var)) if var.variable == 7 && var.owner_id == "me" && var.last_changed_author_id == "other"));
    got.variable = Some(Err(DbError::Empty));
    done(me.tus_add_and_get_variable(&req, &got), Err(ErrorType::DbFail));
    got.owner = Some(Ok(OTHER));
    done(me.tus_add_and_get_variable(&req, &got), Ok(ErrorType::Unauthorized));
}

#[test]
fn an_unknown_author_changes_no_variable() {
    let me = client();
    let add = |author: &str| TusAddAndGetVariableRequest { user: user("club", true), slot_id: 2, in_variable: 1, is_last_changed_date: vec![], is_last_changed_author_id: author.to_owned() };
    let try_set = |author: &str| TusTryAndSetVariableRequest {
        user: user("club", true), slot_id: 2, ope_type: 1, variable: 55, is_last_changed_date: vec![], is_last_changed_author_id: author.to_owned(), compare_value: vec![],
    };
    let mut got = no_change();
    got.timestamp = Some(1);
    got.db = Some(Ok(()));
    got.compare_author = Some(Err(DbError::Empty));
    assert!(matches!(me.tus_add_and_get_variable(&add("ghost"), &got), Step::Ask(Query::GetVariable { owner: Owner::Virtual(name), slot: 2 }) if name == "club"));
    assert!(matches!(me.tus_try_and_set_variable(&try_set("ghost"), &got), Step::Ask(Query::GetVariable { owner: Owner::Virtual(_), slot: 2 })));
    got.variable = Some(Ok(variable(7, OTHER)));
    got.author_name = Some(Ok("other".to_owned()));
    assert!(matches!(me.tus_add_and_get_variable(&add("ghost"), &got), Step::Answer(Reply::Variable(var)) if var.variable == 7 && var.last_changed_author_id == "other"));
    assert!(matches!(me.tus_try_and_set_variable(&try_set("ghost"), &got), Step::Answer(Reply::Variable(var)) if var.variable == 7));
    got.variable = Some(Err(DbError::Empty));
    done(me.tus_add_and_get_variable(&add("ghost"), &got), Ok(ErrorType::CondFail));
    done(me.tus_try_and_set_variable(&try_set("ghost"), &got), Ok(ErrorType::CondFail));
    done(me.tus_add_and_get_variable(&add(""), &got), Err(ErrorType::DbFail));
    done(me.tus_try_and_set_variable(&try_set(""), &got), Err(ErrorType::DbFail));
    got.variable = Some(Err(DbError::Internal));
    done(me.tus_add_and_get_variable(&add("ghost"), &got), Err(ErrorType::DbFail));
    done(me.tus_try_and_set_variable(&try_set("ghost"), &got), Err(ErrorType::DbFail));
    got.compare_author = Some(Err(DbError::Internal));
    done(me.tus_add_and_get_variable(&add("ghost"), &got), Err(ErrorType::DbFail));
    done(me.tus_try_and_set_variable(&try_set("ghost"), &got), Err(ErrorType::DbFail));
}

#[test]
fn the_author_condition_is_passed_on() {
    let me = client();
    let make = |author: &str, dates: Vec<u64>| TusAddAndGetVariableRequest { user: user("club", true), slot_id: 2, in_variable: 1, is_last_changed_date: dates, is_last_changed_author_id: author.to_owned() };
    let mut got = no_change();
    got.timestamp = Some(1);
    got.db = Some(Ok(()));
    assert!(matches!(me.tus_add_and_get_variable(&make("", vec![]), &got), Step::Ask(Query::AddAndGetVariable { compare_author: None, compare_timestamp: None, .. })));
    got.compare_author = Some(Ok(44));
    assert!(matches!(me.tus_add_and_get_variable(&make("boss", vec![9]), &got), Step::Ask(Query::AddAndGetVariable { compare_author: Some(44), compare_timestamp: Some(9), .. })));
    done(me.tus_add_and_get_variable(&make("boss", vec![1, 2]), &got), Err(ErrorType::Malformed));
}

#[test]
fn setting_on_a_condition_compares_with_the_value_itself_by_default() {
    let me = client();
    let make = |ope_type: i32, compare_value: Vec<i64>| TusTryAndSetVariableRequest {
        user: user("club", true), slot_id: 2, ope_type, variable: 55, is_last_changed_date: vec![], is_last_changed_author_id: String::new(), compare_value,
    };
    let mut got = no_change();
    got.timestamp = Some(1);
    got.db = Some(Ok(()));
    assert!(matches!(
        me.tus_try_and_set_variable(&make(3, vec![]), &got),
        Step::Ask(Query::TryAndSetVariable { to_set: 55, compare_value: 55, op_type: TusOpeType::SCE_NP_TUS_OPETYPE_GREATER_THAN, .. })
    ));
    assert!(matches!(me.tus_try_and_set_variable(&make(1, vec![-1]), &got), Step::Ask(Query::TryAndSetVariable { compare_value: -1, .. })));
    done(me.tus_try_and_set_variable(&make(1, vec![1, 2]), &got), Err(ErrorType::Malformed));
    done(me.tus_try_and_set_variable(&make(0, vec![]), &got), Err(ErrorType::Malformed));
}

#[test]
fn variables_are_deleted_for_the_client_itself() {
    let me = client();
    let req = TusDeleteMultiSlotVariableRequest { user: user("me", false), slot_id_array: vec![1, 2] };
    let mut got = DeleteMultislotAnswers { db: Some(Ok(())), owner: Some(Ok(ME)), deleted: None };
    assert!(matches!(me.tus_delete_multislot_variable(&req, &got), Step::Ask(Query::DeleteVariables { owner: Owner::Account(ME), slots }) if *slots == vec![1, 2]));
    got.deleted = Some(Ok(()));
    done(me.tus_delete_multislot_variable(&req, &got), Ok(ErrorType::NoError));
    got.deleted = Some(Err(DbError::Empty));
    done(me.tus_delete_multislot_variable(&req, &got), Err(ErrorType::DbFail));
    got.owner = Some(Ok(OTHER));
    done(me.tus_delete_multislot_variable(&req, &got), Ok(ErrorType::Unauthorized));
}

fn set_request() -> TusSetDataRequest {
    TusSetDataRequest { user: user("me", false), slot_id: 1, data: vec![1, 2, 3], info: vec![8], is_last_changed_date: vec![], is_last_changed_author_id: String::new() }
}

fn status(data_id: u64) -> DbTusDataStatus {
    DbTusDataStatus { data_id, timestamp: 60, author_id: ME }
}

#[test]
fn a_save_is_stored_and_the_one_it_replaced_removed() {
    let me = client();
    let req = set_request();
    let mut got = SetDataAnswers::new();
    assert!(matches!(me.tus_set_data(&req, &got), Step::Ask(Query::Connect)));
    got.db = Some(Ok(()));
    assert!(matches!(me.tus_set_data(&req, &got), Step::Ask(Query::Timestamp)));
    got.timestamp = Some(100);
    assert!(matches!(me.tus_set_data(&req, &got), Step::Ask(Query::UserId { .. })));
    got.owner = Some(Ok(ME));
    assert!(matches!(me.tus_set_data(&req, &got), Step::Ask(Query::GetData { owner: Owner::Account(ME), slot: 1 })));
    got.replaced = Some(Ok(status(40)));
    assert!(matches!(me.tus_set_data(&req, &got), Step::Ask(Query::ReadFile { data_id: 40 })));
    got.previous_save = Some(Some(vec![7]));
    assert!(matches!(me.tus_set_data(&req, &got), Step::Ask(Query::GetRankFloor { user_id: ME, slot: 1 })));
    got.floor = Some(Ok(Some((12, true))));
    match me.tus_set_data(&req, &got) {
        Step::Ask(Query::ApplyRankFloor { data, state }) => {
            assert_eq!(*data, vec![1, 2, 3]);
            assert_eq!(state, FloorState { applied: Some(12), delivered: true });
        }
        other => panic!("{:?}", other),
    }
    got.floored = Some(Some(Floored { floor: 13, data: Some(vec![4, 4, 4]) }));
    match me.tus_set_data(&req, &got) {
        Step::Ask(Query::CompareSaves { data, previous }) => assert_eq!((data, previous), (&vec![1, 2, 3], &vec![7])),
        other => panic!("{:?}", other),
    }
    got.outcome = Some(Some(MatchOutcome::Lost));
    assert!(matches!(me.tus_set_data(&req, &got), Step::Ask(Query::CreateFile { data }) if *data == vec![4, 4, 4]));
    got.data_id = Some(41);
    match me.tus_set_data(&req, &got) {
        Step::Ask(Query::SetData { owner: Owner::Account(ME), slot, data_id, info, author_id, timestamp, compare_timestamp, compare_author }) => {
            assert_eq!((slot, data_id, author_id, timestamp, compare_timestamp, compare_author), (1, 41, ME, 100, None, None));
            assert_eq!(info, Some(&vec![8]));
        }
        other => panic!("{:?}", other),
    }
    got.stored = Some(Ok(()));
    assert!(matches!(me.tus_set_data(&req, &got), Step::Ask(Query::RecordHistory { user_id: ME, slot: 1, data_id: 41, timestamp: 100, outcome: Some(false) })));
    got.history = Some(Ok(()));
    assert!(matches!(me.tus_set_data(&req, &got), Step::Ask(Query::ResolveMatch { user_id: ME, data_id: 41, won: false, timestamp: 100 })));
    got.resolved = true;
    assert!(matches!(me.tus_set_data(&req, &got), Step::Ask(Query::SetRankFloor { user_id: ME, slot: 1, floor: 13, delivered: false })));
    got.floor_recorded = true;
    assert!(matches!(me.tus_set_data(&req, &got), Step::Ask(Query::DeleteFile { data_id: 40 })));
    got.file_deleted = true;
    done(me.tus_set_data(&req, &got), Ok(ErrorType::NoError));
}

fn first_save() -> SetDataAnswers {
    let mut got = SetDataAnswers::new();
    got.db = Some(Ok(()));
    got.timestamp = Some(100);
    got.owner = Some(Ok(ME));
    got.replaced = Some(Err(DbError::Empty));
    got.floor = Some(Ok(None));
    got
}

#[test]
fn a_first_save_has_nothing_to_compare_with() {
    let me = client();
    let req = set_request();
    let mut got = first_save();
    assert!(matches!(me.tus_set_data(&req, &got), Step::Ask(Query::ApplyRankFloor { state: FloorState { applied: None, delivered: false }, .. })));
    got.floored = Some(None);
    assert!(matches!(me.tus_set_data(&req, &got), Step::Ask(Query::CreateFile { data }) if *data == vec![1, 2, 3]));
    got.data_id = Some(41);
    got.stored = Some(Ok(()));
    assert!(matches!(me.tus_set_data(&req, &got), Step::Ask(Query::RecordHistory { outcome: None, .. })));
    got.history = Some(Err(DbError::Internal));
    done(me.tus_set_data(&req, &got), Ok(ErrorType::NoError));
}

#[test]
fn a_save_the_slot_refused_is_removed_again() {
    let me = client();
    let req = set_request();
    let mut got = first_save();
    got.floored = Some(Some(Floored { floor: 10, data: None }));
    got.data_id = Some(41);
    got.stored = Some(Err(DbError::Empty));
    assert!(matches!(me.tus_set_data(&req, &got), Step::Ask(Query::DeleteFile { data_id: 41 })));
    got.file_deleted = true;
    done(me.tus_set_data(&req, &got), Ok(ErrorType::CondFail));
    got.stored = Some(Err(DbError::Internal));
    done(me.tus_set_data(&req, &got), Err(ErrorType::DbFail));
    got.stored = Some(Ok(()));
    got.history = Some(Ok(()));
    got.file_deleted = false;
    assert!(matches!(me.tus_set_data(&req, &got), Step::Ask(Query::SetRankFloor { floor: 10, delivered: true, .. })));
}

#[test]
fn data_that_are_malformed_are_refused() {
    let me = client();
    let got = SetDataAnswers::new();
    done(me.tus_set_data(&TusSetDataRequest { data: vec![], ..set_request() }, &got), Err(ErrorType::Malformed));
    done(me.tus_set_data(&TusSetDataRequest { data: vec![0; 1024 * 1024 + 1], ..set_request() }, &got), Err(ErrorType::Malformed));
    done(me.tus_set_data(&TusSetDataRequest { info: vec![0; 388], ..set_request() }, &got), Err(ErrorType::Malformed));
    done(me.tus_set_data(&TusSetDataRequest { is_last_changed_date: vec![1, 2], ..set_request() }, &got), Err(ErrorType::Malformed));
    done(me.tus_set_data(&TusSetDataRequest { user: user("", false), ..set_request() }, &got), Err(ErrorType::Malformed));
    let largest = TusSetDataRequest { data: vec![0; 1024 * 1024], info: vec![0; 387], ..set_request() };
    assert!(matches!(me.tus_set_data(&largest, &got), Step::Ask(Query::Connect)));
}

#[test]
fn conditions_are_looked_at_before_anything_is_written() {
    let me = client();
    let req = TusSetDataRequest { is_last_changed_date: vec![50], is_last_changed_author_id: "boss".to_owned(), ..set_request() };
    let mut got = SetDataAnswers::new();
    got.db = Some(Ok(()));
    assert!(matches!(me.tus_set_data(&req, &got), Step::Ask(Query::UserId { npid }) if npid == "boss"));
    got.compare_author = Some(Err(DbError::Empty));
    done(me.tus_set_data(&req, &got), Ok(ErrorType::CondFail));
    got.compare_author = None;
    got.answer_user_id(&req, Ok(44));
    got.timestamp = Some(100);
    got.answer_user_id(&req, Ok(ME));
    assert_eq!((got.compare_author, got.owner), (Some(Ok(44)), Some(Ok(ME))));
    assert!(matches!(me.tus_set_data(&req, &got), Step::Ask(Query::GetDataStamp { owner: Owner::Account(ME), slot: 1 })));
    got.stamp = Some(Ok(Some((51, 44))));
    done(me.tus_set_data(&req, &got), Ok(ErrorType::CondFail));
    got.stamp = Some(Ok(Some((50, 45))));
    done(me.tus_set_data(&req, &got), Ok(ErrorType::CondFail));
    got.stamp = Some(Err(DbError::Internal));
    done(me.tus_set_data(&req, &got), Err(ErrorType::DbFail));
    got.stamp = Some(Ok(Some((50, 44))));
    assert!(matches!(me.tus_set_data(&req, &got), Step::Ask(Query::GetData { .. })));
    got.stamp = Some(Ok(None));
    assert!(matches!(me.tus_set_data(&req, &got), Step::Ask(Query::GetData { .. })));
    got.owner = Some(Ok(OTHER));
    done(me.tus_set_data(&req, &got), Ok(ErrorType::Unauthorized));
    assert_eq!(Client::preliminary_set_tus_data_check(&Ok(Some((51, 44))), &None, &None), None);
    assert_eq!(Client::preliminary_set_tus_data_check(&Ok(Some((51, 44))), &Some(50), &None), Some(Ok(ErrorType::CondFail)));
}

#[test]
fn without_conditions_a_stamp_does_not_matter() {
    for e in [DbError::Internal, DbError::Empty, DbError::WrongPass, DbError::Other] {
        assert_eq!(Client::preliminary_set_tus_data_check(&Err(e), &None, &None), None);
        let mut got = first_save();
        got.stamp = Some(Err(e));
        assert!(matches!(client().tus_set_data(&set_request(), &got), Step::Ask(Query::ApplyRankFloor { .. })));
    }
    assert_eq!(Client::preliminary_set_tus_data_check(&Err(DbError::Internal), &None, &Some(1)), Some(Err(ErrorType::DbFail)));
}

/// Stores data for a virtual user or a first save, and gives back the file and the
/// slot that were handed over.
fn store(me: &Client, req: &TusSetDataRequest, floored: Option<Vec<u8>>) -> (Vec<u8>, DbTusDataStatus, Vec<u8>) {
    let mut got = SetDataAnswers::new();
    let (mut file, mut slot) = (Vec::new(), None);
    for _ in 0..17 {
        match me.tus_set_data(req, &got) {
            Step::Done(result) => {
                assert_eq!(result, Ok(ErrorType::NoError));
                let (status, info) = slot.unwrap();
                return (file, status, info);
            }
            Step::Ask(Query::Connect) => got.db = Some(Ok(())),
            Step::Ask(Query::Timestamp) => got.timestamp = Some(100),
            Step::Ask(Query::UserId { .. }) => got.answer_user_id(req, Ok(ME)),
            Step::Ask(Query::GetData { .. }) => got.replaced = Some(Err(DbError::Empty)),
            Step::Ask(Query::GetRankFloor { .. }) => got.floor = Some(Ok(None)),
            Step::Ask(Query::ApplyRankFloor { .. }) => got.floored = Some(Some(Floored { floor: 10, data: floored.clone() })),
            Step::Ask(Query::CreateFile { data }) => {
                file = data.clone();
                got.data_id = Some(41);
            }
            Step::Ask(Query::SetData { data_id, info, author_id, timestamp, .. }) => {
                slot = Some((DbTusDataStatus { data_id, timestamp, author_id }, info.cloned().unwrap_or_default()));
                got.stored = Some(Ok(()));
            }
            Step::Ask(Query::RecordHistory { .. }) => got.history = Some(Ok(())),
            Step::Ask(Query::SetRankFloor { .. }) => got.floor_recorded = true,
            other => panic!("{:?}", other),
        }
    }
    panic!("the command does not end");
}

#[test]
fn stored_data_read_back() {
    let me = client();
    for (name, vuser, raised) in [("club", true, None), ("me", false, None), ("me", false, Some(vec![9, 9]))] {
        let req = TusSetDataRequest { user: user(name, vuser), ..set_request() };
        let (file, row, info) = store(&me, &req, raised.clone());
        let get = TusGetDataRequest { user: user(name, vuser), slot_id: 1 };
        let mut read = GetDataAnswers { db: Some(Ok(())), owner: Some(Ok(ME)), row: None, file: None, author_name: None, floor_marked: true };
        assert!(matches!(me.tus_get_data(&get, &read), Step::Ask(Query::GetData { slot: 1, .. })));
        read.row = Some(Ok((row, info)));
        assert!(matches!(me.tus_get_data(&get, &read), Step::Ask(Query::ReadFile { data_id: 41 })));
        read.file = Some(Some(file));
        assert!(matches!(me.tus_get_data(&get, &read), Step::Ask(Query::Username { user_id: ME })));
        read.author_name = Some(Ok("me".to_owned()));
        match me.tus_get_data(&get, &read) {
            Step::Answer(Reply::Data { status, data }) => {
                assert_eq!(data, raised.unwrap_or(vec![1, 2, 3]));
                assert_eq!((status.owner_id.as_str(), status.has_data, status.last_changed_date), (name, true, 100));
                assert_eq!(status.info, vec![8]);
            }
            other => panic!("{:?}", other),
        }
    }
}

#[test]
fn data_of_a_virtual_user_are_stored_as_they_are() {
    let me = client();
    let req = TusSetDataRequest { user: user("club", true), info: vec![], ..set_request() };
    let mut got = SetDataAnswers::new();
    got.db = Some(Ok(()));
    got.timestamp = Some(100);
    assert!(matches!(me.tus_set_data(&req, &got), Step::Ask(Query::CreateFile { data }) if *data == vec![1, 2, 3]));
    got.data_id = Some(9);
    assert!(matches!(me.tus_set_data(&req, &got), Step::Ask(Query::SetData { owner: Owner::Virtual(_), info: None, data_id: 9, .. })));
    got.stored = Some(Ok(()));
    done(me.tus_set_data(&req, &got), Ok(ErrorType::NoError));
}

#[test]
fn reading_an_own_slot_records_the_delivery() {
    let me = client();
    let req = TusGetDataRequest { user: user("me", false), slot_id: 1 };
    let mut got = GetDataAnswers { db: Some(Ok(())), owner: Some(Ok(ME)), row: None, file: None, author_name: None, floor_marked: false };
    assert!(matches!(me.tus_get_data(&req, &got), Step::Ask(Query::GetData { .. })));
    got.row = Some(Ok((status(40), vec![6])));
    assert!(matches!(me.tus_get_data(&req, &got), Step::Ask(Query::ReadFile { data_id: 40 })));
    got.file = Some(Some(vec![1, 2]));
    assert!(matches!(me.tus_get_data(&req, &got), Step::Ask(Query::Username { user_id: ME })));
    got.author_name = Some(Ok("me".to_owned()));
    assert!(matches!(me.tus_get_data(&req, &got), Step::Ask(Query::MarkRankFloorDelivered { user_id: ME, slot: 1 })));
    got.floor_marked = true;
    match me.tus_get_data(&req, &got) {
        Step::Answer(Reply::Data { status, data }) => {
            assert_eq!(data, vec![1, 2]);
            assert_eq!((status.owner_id.as_str(), status.has_data, status.last_changed_date, status.info), ("me", true, 60, vec![6]));
        }
        other => panic!("{:?}", other),
    }
    got.file = Some(None);
    done(me.tus_get_data(&req, &got), Err(ErrorType::DbFail));
}

#[test]
fn an_empty_slot_is_answered_without_data() {
    let me = client();
    let req = TusGetDataRequest { user: user("other", false), slot_id: 1 };
    let mut got = GetDataAnswers { db: Some(Ok(())), owner: Some(Ok(OTHER)), row: Some(Err(DbError::Empty)), file: None, author_name: None, floor_marked: false };
    assert!(matches!(me.tus_get_data(&req, &got), Step::Answer(Reply::Data { status, data }) if !status.has_data && data.is_empty() && status.owner_id == "other"));
    got.row = Some(Err(DbError::Internal));
    done(me.tus_get_data(&req, &got), Err(ErrorType::DbFail));
}

#[test]
fn one_state_is_answered_for_each_slot_and_user() {
    let me = client();
    let req = TusGetMultiSlotDataStatusRequest { user: user("other", false), slot_id_array: vec![1, 2] };
    let mut got = GetStatusAnswers { db: Some(Ok(())), owner: Some(Ok(OTHER)), rows: StatusRows::new(), names: Names::new() };
    assert!(matches!(me.tus_get_multislot_data_status(&req, &got), Step::Ask(Query::GetData { slot: 1, .. })));
    got.rows.answer(Err(DbError::Internal));
    got.rows.answer(Ok((status(3), vec![5])));
    got.names.answer(Ok("me".to_owned()));
    match me.tus_get_multislot_data_status(&req, &got) {
        Step::Answer(Reply::Statuses(list)) => {
            assert_eq!((list[0].has_data, list[1].has_data), (false, true));
            assert_eq!((list[1].info.clone(), list[1].last_changed_author_id.as_str()), (vec![5], "me"));
        }
        other => panic!("{:?}", other),
    }
    let users = TusGetMultiUserDataStatusRequest { users: vec![TusUser { npid: "club".to_owned(), vuser: true }, TusUser { npid: "other".to_owned(), vuser: false }], slot_id: 4 };
    let mut got = GetStatusAnswers { db: Some(Ok(())), owner: None, rows: StatusRows::new(), names: Names::new() };
    assert!(matches!(me.tus_get_multiuser_data_status(&users, &got), Step::Ask(Query::GetData { owner: Owner::Virtual(_), slot: 4 })));
    got.answer_row(Err(DbError::Empty));
    got.owner = Some(Err(DbError::Empty));
    done(me.tus_get_multiuser_data_status(&users, &got), Ok(ErrorType::NotFound));
    got.owner = Some(Ok(OTHER));
    got.answer_row(Ok((status(3), vec![])));
    got.names.answer(Err(DbError::Empty));
    done(me.tus_get_multiuser_data_status(&users, &got), Err(ErrorType::DbFail));
}

#[test]
fn deleting_data_clears_the_floors() {
    let me = client();
    let req = TusDeleteMultiSlotDataRequest { user: user("me", false), slot_id_array: vec![1] };
    let mut got = DeleteDataAnswers { db: Some(Ok(())), owner: Some(Ok(ME)), deleted: None, floor_cleared: false };
    assert!(matches!(me.tus_delete_multislot_data(&req, &got), Step::Ask(Query::DeleteData { .. })));
    got.deleted = Some(Ok(()));
    assert!(matches!(me.tus_delete_multislot_data(&req, &got), Step::Ask(Query::ClearRankFloor { user_id: ME, slots }) if *slots == vec![1]));
    got.floor_cleared = true;
    done(me.tus_delete_multislot_data(&req, &got), Ok(ErrorType::NoError));
    let club = TusDeleteMultiSlotDataRequest { user: user("club", true), slot_id_array: vec![1] };
    got.floor_cleared = false;
    done(me.tus_delete_multislot_data(&club, &got), Ok(ErrorType::NoError));
}

#[test]
fn the_variables_of_friends_are_answered() {
    let me = client();
    let req = TusGetFriendsVariableRequest { slot_id: 3, include_self: true, sort_type: 1, array_num: 10 };
    let mut got = FriendsVariableAnswers { friends: None, db: None, rows: None, names: AuthorNames::new() };
    assert!(matches!(me.tus_get_friends_variable(&req, &got), Step::Ask(Query::Friends)));
    let friends: HashMap<i64, String> = [(OTHER, "other".to_owned())].into_iter().collect();
    got.friends = Some(FriendList::new(friends, &me, req.include_self));
    assert!(matches!(me.tus_get_friends_variable(&req, &got), Step::Ask(Query::Connect)));
    got.db = Some(Ok(()));
    match me.tus_get_friends_variable(&req, &got) {
        Step::Ask(Query::GetVariableOfUsers { users, slot, sorting, array_num }) => {
            assert_eq!(users.len(), 2);
            assert_eq!(users[&ME], "me");
            assert_eq!((slot, sorting, array_num), (3, TusSorting::SCE_NP_TUS_VARIABLE_SORTTYPE_DESCENDING_DATE, 10));
        }
        other => panic!("{:?}", other),
    }
    got.rows = Some(Ok(vec![(OTHER, variable(4, 99)), (ME, variable(5, ME))]));
    assert!(matches!(me.tus_get_friends_variable(&req, &got), Step::Ask(Query::AuthorName { author_id: 99 })));
    got.names.answer(Ok("writer".to_owned()));
    assert!(matches!(me.tus_get_friends_variable(&req, &got), Step::Ask(Query::AuthorName { author_id: ME })));
    got.names.answer(Ok("me".to_owned()));
    match me.tus_get_friends_variable(&req, &got) {
        Step::Answer(Reply::Variables(vars)) => {
            assert_eq!((vars[0].owner_id.as_str(), vars[0].last_changed_author_id.as_str(), vars[0].variable), ("other", "writer", 4));
            assert_eq!(vars[1].owner_id, "me");
        }
        other => panic!("{:?}", other),
    }
    let unknown = TusGetFriendsVariableRequest { slot_id: 3, include_self: true, sort_type: 5, array_num: 10 };
    done(me.tus_get_friends_variable(&unknown, &got), Err(ErrorType::Malformed));
}

#[test]
fn a_client_without_friends_gets_an_empty_list() {
    let me = client();
    let req = TusGetFriendsVariableRequest { slot_id: 3, include_self: false, sort_type: 1, array_num: 10 };
    let got = FriendsVariableAnswers { friends: Some(FriendList::new(HashMap::new(), &me, false)), db: None, rows: None, names: AuthorNames::new() };
    assert!(matches!(me.tus_get_friends_variable(&req, &got), Step::Answer(Reply::Variables(vars)) if vars.is_empty()));
    let status_req = TusGetFriendsDataStatusRequest { slot_id: 3, include_self: false, sort_type: 2, array_num: 10 };
    let status_got = FriendsStatusAnswers { friends: Some(FriendList::new(HashMap::new(), &me, false)), db: None, rows: None, names: AuthorNames::new() };
    assert!(matches!(me.tus_get_friends_data_status(&status_req, &status_got), Step::Answer(Reply::Statuses(list)) if list.is_empty()));
}

#[test]
fn the_states_of_friends_are_answered() {
    let me = client();
    let req = TusGetFriendsDataStatusRequest { slot_id: 3, include_self: true, sort_type: 2, array_num: 10 };
    let mut got = FriendsStatusAnswers { friends: Some(FriendList::new(HashMap::new(), &me, true)), db: Some(Ok(())), rows: None, names: AuthorNames::new() };
    assert!(matches!(
        me.tus_get_friends_data_status(&req, &got),
        Step::Ask(Query::GetDataOfUsers { status_sorting: TusStatusSorting::SCE_NP_TUS_DATASTATUS_SORTTYPE_ASCENDING_DATE, .. })
    ));
    got.rows = Some(Ok(vec![(ME, status(3), vec![1])]));
    got.names.answer(Ok("me".to_owned()));
    assert!(matches!(me.tus_get_friends_data_status(&req, &got), Step::Answer(Reply::Statuses(list)) if list[0].owner_id == "me" && list[0].info == vec![1]));
    got.names = AuthorNames::new();
    got.names.answer(Err(ErrorType::NotFound));
    done(me.tus_get_friends_data_status(&req, &got), Err(ErrorType::NotFound));
    got.rows = Some(Err(DbError::Internal));
    done(me.tus_get_friends_data_status(&req, &got), Err(ErrorType::DbFail));
}
