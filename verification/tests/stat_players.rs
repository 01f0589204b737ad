use rpcn::error::DbError;
use rpcn::stat_server::cache::JsonCache;
use rpcn::stat_server::http::{HttpResponse, Method};
use rpcn::stat_server::leaderboard::{
    build_board, LeaderboardAnswers, SaveReading, SlotOwner, MINIMUM_CACHE_LIFE,
};
use rpcn::stat_server::matches::DbMatchRecord;
use rpcn::stat_server::operator::{EditedSave, SetRankAnswers, VerifyAnswers};
use rpcn::stat_server::players::{PlayerMatchesAnswers, PlayerRanksAnswers};
use rpcn::stat_server::server::StatServer;
use rpcn::stat_server::types::{
    default_slot, AdminCharacterRank, AdminSetRankRequest, CharacterRank, Document, EditError,
    ExternalUserVerifyRequest, LeaderboardResponse, PlayerRecord, StatQuery, StatStep, UserInfo,
};
use std::collections::HashMap;

const COM_ID: [u8; 12] = *b"NPWR02973_00";

fn text(s: &str) -> String {
    s.to_owned()
}

fn respond(step: StatStep) -> HttpResponse {
    match step {
        StatStep::Respond(response) => response,
        other => panic!("{:?}", other),
    }
}

fn refused(step: StatStep, status: u16, code: &str) {
    let response = respond(step);
    assert_eq!(response.status, status);
    assert_eq!(response.body, format!("{{\"error\":\"{}\"}}", code));
}

fn verify(got: &VerifyAnswers) -> StatStep<'_> {
    StatServer::handle_external_user_verify_req(Method::Post, Some("key"), "key", got)
}

fn credentials(username: &str, password: &str) -> VerifyAnswers {
    let mut got = VerifyAnswers::new();
    got.request = Some(Some(ExternalUserVerifyRequest { username: text(username), password: text(password) }));
    got
}

#[test]
fn strangers_are_turned_away() {
    let got = VerifyAnswers::new();
    refused(StatServer::handle_external_user_verify_req(Method::Get, Some("key"), "key", &got), 405, "method_not_allowed");
    refused(StatServer::handle_external_user_verify_req(Method::Post, Some("kex"), "key", &got), 403, "forbidden");
    refused(StatServer::handle_external_user_verify_req(Method::Post, None, "key", &got), 403, "forbidden");
    let edit = SetRankAnswers::new();
    refused(StatServer::handle_admin_set_rank_req(Method::Get, Some("key"), "key", &edit), 405, "method_not_allowed");
    refused(StatServer::handle_admin_set_rank_req(Method::Post, Some("no"), "key", &edit), 403, "forbidden");
}

#[test]
fn credentials_are_looked_up_and_the_account_told() {
    let mut got = VerifyAnswers::new();
    assert!(matches!(verify(&got), StatStep::Ask(StatQuery::ReadVerifyRequest { max_size: 4096 })));
    got.request = credentials("ann", "pw").request;
    match verify(&got) {
        StatStep::Ask(StatQuery::CheckUser { username, password }) => {
            assert_eq!((username.as_str(), password.as_str()), ("ann", "pw"));
        }
        other => panic!("{:?}", other),
    }
    got.user = Some(Ok(UserInfo { user_id: 5, username: text("ann"), online_name: text("Ann"), avatar_url: text("url"), admin: false, banned: true }));
    match verify(&got) {
        StatStep::Encode(Document::VerifiedUser(user)) => {
            assert_eq!((user.user_id, user.admin, user.banned), (5, false, true));
            assert_eq!((user.username.as_str(), user.online_name.as_str(), user.avatar_url.as_str()), ("ann", "Ann", "url"));
        }
        other => panic!("{:?}", other),
    }
    got.json = Some(text("{}"));
    let response = respond(verify(&got));
    assert_eq!((response.status, response.body.as_str()), (200, "{}"));
}

#[test]
fn wrong_users_and_wrong_passwords_look_alike() {
    let mut got = credentials("ann", "pw");
    got.user = Some(Err(DbError::Empty));
    refused(verify(&got), 401, "invalid_credentials");
    got.user = Some(Err(DbError::WrongPass));
    refused(verify(&got), 401, "invalid_credentials");
    got.user = Some(Err(DbError::Internal));
    refused(verify(&got), 500, "internal_error");
    got.user = Some(Err(DbError::Other));
    refused(verify(&got), 500, "internal_error");
}

#[test]
fn credentials_have_to_be_complete() {
    refused(verify(&credentials("", "pw")), 400, "invalid_request");
    refused(verify(&credentials("ann", "")), 400, "invalid_request");
    let mut got = VerifyAnswers::new();
    got.request = Some(None);
    refused(verify(&got), 400, "invalid_request");
}

fn edit(got: &SetRankAnswers) -> StatStep<'_> {
    StatServer::handle_admin_set_rank_req(Method::Post, Some("key"), "key", got)
}

fn edit_request() -> AdminSetRankRequest {
    AdminSetRankRequest { npid: text("ann"), com_id: text("NPWR02973_00"), slot: default_slot(), character: 14, rank: 25, rank_points: None, force: false }
}

fn requested(request: AdminSetRankRequest) -> SetRankAnswers {
    let mut got = SetRankAnswers::new();
    got.request = Some(Some(request));
    got
}

/// What is known of an edit once the save has been found.
fn found() -> SetRankAnswers {
    let mut got = requested(edit_request());
    got.user_id = Some(Ok(7));
    got.online_name = Some(Ok(text("Ann")));
    got.slot_data = Some(Ok((40, vec![9, 9])));
    got.players = Some(None);
    got
}

#[test]
fn an_edit_is_written_as_a_new_save() {
    let mut got = SetRankAnswers::new();
    assert!(matches!(edit(&got), StatStep::Ask(StatQuery::ReadSetRankRequest { max_size: 4096 })));
    got = requested(edit_request());
    assert!(matches!(edit(&got), StatStep::Ask(StatQuery::UserId { npid }) if npid == "ann"));
    got.user_id = Some(Ok(7));
    assert!(matches!(edit(&got), StatStep::Ask(StatQuery::OnlineName { user_id: 7 })));
    got.online_name = Some(Ok(text("Ann")));
    assert!(matches!(edit(&got), StatStep::Ask(StatQuery::SlotData { com_id: COM_ID, user_id: 7, slot: 1 })));
    got.slot_data = Some(Ok((40, vec![9, 9])));
    assert!(matches!(edit(&got), StatStep::Ask(StatQuery::Players { com_id: COM_ID })));
    got.players = Some(Some(vec![text("Bob")]));
    assert!(matches!(edit(&got), StatStep::Ask(StatQuery::ReadSave { data_id: 40 })));
    got.save = Some(Some(vec![1, 2, 3]));
    match edit(&got) {
        StatStep::Ask(StatQuery::EditSave { com_id, save, character, rank, rank_points }) => {
            assert_eq!((com_id, save, character, rank, rank_points), (COM_ID, &vec![1, 2, 3], 14, 25, None));
        }
        other => panic!("{:?}", other),
    }
    got.edited = Some(Ok(EditedSave { save: vec![4, 5], previous: CharacterRank { character: 14, rank: 3, rank_points: 100 } }));
    assert!(matches!(edit(&got), StatStep::Ask(StatQuery::CreateSave { save }) if *save == vec![4, 5]));
    got.data_id = Some(41);
    assert!(matches!(edit(&got), StatStep::Ask(StatQuery::Timestamp)));
    got.timestamp = Some(1000);
    match edit(&got) {
        StatStep::Ask(StatQuery::SetSlotData { com_id, user_id, slot, data_id, info, author_id, timestamp }) => {
            assert_eq!((com_id, user_id, slot, data_id, author_id, timestamp), (COM_ID, 7, 1, 41, 7, 1000));
            assert_eq!(info, Some(&vec![9, 9]));
        }
        other => panic!("{:?}", other),
    }
    got.stored = Some(Ok(()));
    assert!(matches!(edit(&got), StatStep::Ask(StatQuery::RecordHistory { com_id: COM_ID, user_id: 7, slot: 1, data_id: 41, timestamp: 1000 })));
    got.recorded = true;
    assert!(matches!(edit(&got), StatStep::Ask(StatQuery::ReadRanks { com_id: COM_ID, .. })));
    let mut ranks = vec![CharacterRank { character: 0, rank: 0, rank_points: 0 }; 14];
    ranks.push(CharacterRank { character: 14, rank: 25, rank_points: 800 });
    got.ranks = Some(Some(ranks));
    match edit(&got) {
        StatStep::Encode(Document::SetRank(change)) => {
            assert_eq!((change.npid.as_str(), change.character, change.data_id), ("ann", 14, 41));
            assert_eq!(change.previous, AdminCharacterRank { rank: 3, rank_points: 100 });
            assert_eq!(change.current, AdminCharacterRank { rank: 25, rank_points: 800 });
        }
        other => panic!("{:?}", other),
    }
    got.json = Some(Some(text("done")));
    assert_eq!(respond(edit(&got)).body, "done");
    got.json = Some(None);
    refused(edit(&got), 500, "internal_error");
}

#[test]
fn points_of_the_request_are_reported_as_they_are() {
    let mut got = found();
    got.request = Some(Some(AdminSetRankRequest { rank_points: Some(12), ..edit_request() }));
    got.slot_data = Some(Ok((40, vec![])));
    got.save = Some(Some(vec![1]));
    got.edited = Some(Ok(EditedSave { save: vec![2], previous: CharacterRank { character: 14, rank: 3, rank_points: 1 } }));
    got.data_id = Some(41);
    got.timestamp = Some(1);
    assert!(matches!(edit(&got), StatStep::Ask(StatQuery::SetSlotData { info: None, .. })));
    got.stored = Some(Ok(()));
    got.recorded = true;
    assert!(matches!(edit(&got), StatStep::Encode(Document::SetRank(change)) if change.current.rank_points == 12));
    got.request = Some(Some(edit_request()));
    got.ranks = Some(None);
    assert!(matches!(edit(&got), StatStep::Encode(Document::SetRank(change)) if change.current.rank_points == 0));
    got.ranks = Some(Some(vec![]));
    assert!(matches!(edit(&got), StatStep::Encode(Document::SetRank(change)) if change.current.rank_points == 0));
}

#[test]
fn a_connected_account_is_refused_unless_forced() {
    let mut got = found();
    got.players = Some(Some(vec![text("Bob"), text("Ann")]));
    refused(edit(&got), 409, "player_online");
    got.request = Some(Some(AdminSetRankRequest { force: true, ..edit_request() }));
    assert!(matches!(edit(&got), StatStep::Ask(StatQuery::ReadSave { data_id: 40 })));
    assert!(StatServer::is_player_online(&Some(vec![text("Ann")]), "Ann"));
    assert!(!StatServer::is_player_online(&Some(vec![text("Anne")]), "Ann"));
    assert!(!StatServer::is_player_online(&None, "Ann"));
}

#[test]
fn an_edit_that_makes_no_sense_is_refused() {
    let mut got = SetRankAnswers::new();
    got.request = Some(None);
    refused(edit(&got), 400, "invalid_request");
    refused(edit(&requested(AdminSetRankRequest { npid: text(""), ..edit_request() })), 400, "invalid_request");
    refused(edit(&requested(AdminSetRankRequest { com_id: text("NPWR"), ..edit_request() })), 400, "invalid_request");
    refused(edit(&requested(AdminSetRankRequest { character: 59, ..edit_request() })), 400, "no_such_character");
    assert!(matches!(edit(&requested(AdminSetRankRequest { character: 58, ..edit_request() })), StatStep::Ask(_)));
}

#[test]
fn each_failure_of_an_edit_has_its_answer() {
    let mut got = requested(edit_request());
    got.user_id = Some(Err(DbError::Empty));
    refused(edit(&got), 404, "not_found");
    got.user_id = Some(Err(DbError::Internal));
    refused(edit(&got), 500, "internal_error");
    got = found();
    got.online_name = Some(Err(DbError::Empty));
    refused(edit(&got), 404, "not_found");
    got = found();
    got.slot_data = Some(Err(DbError::Empty));
    refused(edit(&got), 404, "not_found");
    got = found();
    got.save = Some(None);
    refused(edit(&got), 500, "save_unreadable");
    got.save = Some(Some(vec![1]));
    got.edited = Some(Err(EditError::UnsupportedTitle));
    refused(edit(&got), 400, "unsupported_title");
    got.edited = Some(Err(EditError::NoSuchCharacter));
    refused(edit(&got), 400, "no_such_character");
    got.edited = Some(Err(EditError::MalformedSave));
    refused(edit(&got), 409, "malformed_save");
    got.edited = Some(Ok(EditedSave { save: vec![2], previous: CharacterRank { character: 14, rank: 3, rank_points: 1 } }));
    got.data_id = Some(0);
    refused(edit(&got), 500, "save_not_written");
    got.data_id = Some(41);
    got.timestamp = Some(1);
    got.stored = Some(Err(DbError::Empty));
    refused(edit(&got), 500, "internal_error");
}

#[test]
fn recent_matches_are_served() {
    assert!(matches!(
        StatServer::handle_recent_matches_req(&COM_ID, 50, &None),
        StatStep::Ask(StatQuery::RecentMatches { com_id: COM_ID, limit: 50 })
    ));
    let none: Option<Result<Vec<DbMatchRecord>, DbError>> = Some(Ok(vec![]));
    assert_eq!(respond(StatServer::handle_recent_matches_req(&COM_ID, 50, &none)).body, "[\n]");
    refused(StatServer::handle_recent_matches_req(&COM_ID, 50, &Some(Err(DbError::Internal))), 500, "internal_error");
}

#[test]
fn the_matches_of_a_player_are_served() {
    let npid = text("ann");
    let mut got = PlayerMatchesAnswers::new();
    assert!(matches!(StatServer::handle_player_matches_req(&npid, 9, &got), StatStep::Ask(StatQuery::IsValidUsername { .. })));
    got.valid = Some(false);
    refused(StatServer::handle_player_matches_req(&npid, 9, &got), 400, "invalid_npid");
    got.valid = Some(true);
    assert!(matches!(StatServer::handle_player_matches_req(&npid, 9, &got), StatStep::Ask(StatQuery::UserId { .. })));
    got.user_id = Some(Err(DbError::Empty));
    refused(StatServer::handle_player_matches_req(&npid, 9, &got), 404, "not_found");
    got.user_id = Some(Err(DbError::Internal));
    refused(StatServer::handle_player_matches_req(&npid, 9, &got), 500, "internal_error");
    got.user_id = Some(Ok(3));
    assert!(matches!(StatServer::handle_player_matches_req(&npid, 9, &got), StatStep::Ask(StatQuery::UserMatches { user_id: 3, limit: 9 })));
    got.matches = Some(Ok(vec![]));
    assert_eq!(respond(StatServer::handle_player_matches_req(&npid, 9, &got)).body, "[\n]");
}

#[test]
fn the_ranks_of_a_player_are_served() {
    let (npid, title) = (text("ann"), text("NPWR02973_00"));
    let mut got = PlayerRanksAnswers::new();
    let step = |got: &PlayerRanksAnswers| -> String {
        format!("{:?}", StatServer::handle_player_ranks_req(&npid, &title, 2, got))
    };
    assert!(step(&got).contains("IsValidUsername"));
    got.valid = Some(true);
    assert!(step(&got).contains("UserId"));
    got.user_id = Some(Ok(3));
    assert!(step(&got).contains("OnlineName"));
    got.online_name = Some(Ok(text("Ann")));
    assert!(matches!(
        StatServer::handle_player_ranks_req(&npid, &title, 2, &got),
        StatStep::Ask(StatQuery::SlotData { com_id: COM_ID, user_id: 3, slot: 2 })
    ));
    got.slot_data = Some(Ok((8, vec![])));
    assert!(matches!(StatServer::handle_player_ranks_req(&npid, &title, 2, &got), StatStep::Ask(StatQuery::ReadSave { data_id: 8 })));
    got.save = Some(None);
    refused(StatServer::handle_player_ranks_req(&npid, &title, 2, &got), 500, "save_unreadable");
    got.save = Some(Some(vec![1]));
    assert!(step(&got).contains("ReadRanks"));
    got.ranks = Some(Err(EditError::UnsupportedTitle));
    refused(StatServer::handle_player_ranks_req(&npid, &title, 2, &got), 400, "unsupported_title");
    got.ranks = Some(Err(EditError::MalformedSave));
    refused(StatServer::handle_player_ranks_req(&npid, &title, 2, &got), 409, "malformed_save");
    got.ranks = Some(Ok(vec![CharacterRank { character: 0, rank: 1, rank_points: 2 }]));
    assert!(step(&got).contains("AccountRecord"));
    got.record = Some(Some((10, 20)));
    match StatServer::handle_player_ranks_req(&npid, &title, 2, &got) {
        StatStep::Encode(Document::Ranks(ranks)) => {
            assert_eq!((ranks.npid.as_str(), ranks.online_name.as_str(), ranks.com_id.as_str()), ("ann", "Ann", "NPWR02973_00"));
            assert_eq!((ranks.slot, ranks.data_id, ranks.record), (2, 8, Some(PlayerRecord { wins: 10, losses: 20 })));
            assert_eq!(ranks.characters, vec![CharacterRank { character: 0, rank: 1, rank_points: 2 }]);
        }
        other => panic!("{:?}", other),
    }
    got.json = Some(Some(text("ranks")));
    assert_eq!(respond(StatServer::handle_player_ranks_req(&npid, &title, 2, &got)).body, "ranks");
    got.json = Some(None);
    refused(StatServer::handle_player_ranks_req(&npid, &title, 2, &got), 500, "internal_error");
}

#[test]
fn a_request_for_ranks_has_to_make_sense() {
    let (npid, short) = (text("ann"), text("NPWR"));
    let mut got = PlayerRanksAnswers::new();
    got.valid = Some(true);
    refused(StatServer::handle_player_ranks_req(&npid, &short, 1, &got), 400, "invalid_request");
    got.valid = Some(false);
    refused(StatServer::handle_player_ranks_req(&npid, &text("NPWR02973_00"), 1, &got), 400, "invalid_request");
    got.valid = Some(true);
    got.user_id = Some(Err(DbError::Empty));
    refused(StatServer::handle_player_ranks_req(&npid, &text("NPWR02973_00"), 1, &got), 404, "not_found");
}

fn owner(user_id: i64, npid: &str) -> SlotOwner {
    SlotOwner { user_id, npid: text(npid), online_name: text(npid).to_uppercase(), data_id: user_id as u64 * 10 }
}

fn reading(ranks: &[(u8, u16)], record: Option<(u32, u32)>) -> SaveReading {
    let characters = ranks.iter().enumerate().map(|(character, (rank, rank_points))| CharacterRank { character, rank: *rank, rank_points: *rank_points }).collect();
    SaveReading::Ranks { characters, record }
}

fn npids(board: &LeaderboardResponse) -> Vec<String> {
    board.entries.iter().map(|e| e.npid.clone()).collect()
}

#[test]
fn a_board_ranks_every_readable_save() {
    let owners = vec![owner(1, "low"), owner(2, "gone"), owner(3, "top"), owner(4, "odd"), owner(5, "empty")];
    let readings = vec![
        reading(&[(3, 5), (4, 1)], None),
        SaveReading::NoFile,
        reading(&[(9, 7), (8, 100), (9, 7)], Some((30, 2))),
        SaveReading::NoRanks(EditError::MalformedSave),
        reading(&[], None),
    ];
    let tallies: HashMap<i64, (u32, u32)> = [(3, (2, 1))].into_iter().collect();
    let board = build_board(&text("NPWR02973_00"), 1, &owners, &readings, &tallies);
    assert_eq!((board.ranked_players, board.unreadable_saves, board.slot), (2, 3, 1));
    assert_eq!(npids(&board), ["top", "low"]);
    let top = &board.entries[0];
    assert_eq!((top.position, top.best_rank, top.best_rank_points, top.best_character), (1, 9, 7, 2));
    assert_eq!(top.record, PlayerRecord { wins: 30, losses: 2 });
    assert_eq!(top.server_record, PlayerRecord { wins: 2, losses: 1 });
    let low = &board.entries[1];
    assert_eq!((low.position, low.best_rank, low.best_character), (2, 4, 1));
    assert_eq!((low.record, low.server_record), (PlayerRecord { wins: 0, losses: 0 }, PlayerRecord { wins: 0, losses: 0 }));
}

#[test]
fn ties_are_broken_down_to_the_npid() {
    let names = ["b", "a", "points", "wins", "ab", "é"];
    let owners: Vec<SlotOwner> = names.iter().enumerate().map(|(i, n)| owner(i as i64, n)).collect();
    let make = |i: usize| match i {
        2 => reading(&[(5, 2)], None),
        3 => reading(&[(5, 1)], Some((9, 9))),
        _ => reading(&[(5, 1)], Some((1, 1))),
    };
    let readings: Vec<SaveReading> = (0..6).map(make).collect();
    let board = build_board(&text("NPWR02973_00"), 1, &owners, &readings, &HashMap::new());
    assert_eq!(npids(&board), ["points", "wins", "a", "ab", "b", "é"]);
    let back: Vec<SlotOwner> = names.iter().enumerate().rev().map(|(i, n)| owner(i as i64, n)).collect();
    let back_readings: Vec<SaveReading> = (0..6).rev().map(make).collect();
    let again = build_board(&text("NPWR02973_00"), 1, &back, &back_readings, &HashMap::new());
    assert_eq!(npids(&again), npids(&board));
}

const BOARD: &str = "{\"ranked_players\":3,\"entries\":[{\"position\":1},{\"position\":2},{\"position\":3}]}";

#[test]
fn a_limit_trims_the_entries_and_nothing_else() {
    assert_eq!(StatServer::trim_leaderboard(text(BOARD), 2).body, "{\"entries\":[{\"position\":1},{\"position\":2}],\"ranked_players\":3}");
    assert_eq!(StatServer::trim_leaderboard(text(BOARD), 5).body, "{\"entries\":[{\"position\":1},{\"position\":2},{\"position\":3}],\"ranked_players\":3}");
    assert_eq!(StatServer::trim_leaderboard(text("{\"a\" : 1}"), 2).body, "{\"a\":1}");
    assert_eq!(StatServer::trim_leaderboard(text("{\"entries\" : 1}"), 2).body, "{\"entries\":1}");
    let response = StatServer::trim_leaderboard(text("no json"), 2);
    assert_eq!(response.body, "no json");
    assert_eq!(response.headers(), vec![("Content-Type", "application/json")]);
}

#[test]
fn trimming_twice_is_trimming_once() {
    let trim = |board: &str, limit: u32| StatServer::trim_leaderboard(text(board), limit).body;
    for (a, b) in [(2u32, 1u32), (1, 2), (2, 2), (5, 2), (2, 5), (0, 3), (3, 0)] {
        assert_eq!(trim(&trim(BOARD, a), b), trim(BOARD, a.min(b)));
        let board: serde_json::Value = serde_json::from_str(BOARD).unwrap();
        let twice = StatServer::trim_board(StatServer::trim_board(board.clone(), a), b);
        assert_eq!(twice, StatServer::trim_board(board, a.min(b)));
        assert_eq!(trim(&trim("no json", a), b), "no json");
    }
    let named = "{\"entries\":[{\"npid\":\"a.1e5\\\"b\",\"live\":true,\"score\":-7},{\"npid\":\"c\"}]}";
    assert_eq!(trim(&trim(named, 2), 1), trim(named, 1));
    assert_eq!(trim(named, 1), "{\"entries\":[{\"live\":true,\"npid\":\"a.1e5\\\"b\",\"score\":-7}]}");
}

#[test]
fn a_board_that_was_read_is_cut_to_its_first_entries() {
    let board: serde_json::Value = serde_json::from_str(BOARD).unwrap();
    let trimmed = StatServer::trim_board(board, 1);
    assert_eq!(trimmed["entries"].as_array().unwrap().len(), 1);
    assert_eq!(trimmed["entries"][0]["position"], 1);
    assert_eq!(trimmed["ranked_players"], 3);
}

#[test]
fn a_board_is_built_once_and_served_to_every_limit() {
    let title = text("NPWR02973_00");
    let mut cache = JsonCache::new();
    let mut got = LeaderboardAnswers::new();
    assert!(matches!(
        StatServer::handle_leaderboard_req(&COM_ID, &title, 1, 100, 0, &mut cache, 1000, &got),
        StatStep::Ask(StatQuery::SlotOwners { com_id: COM_ID, slot: 1 })
    ));
    got.owners = Some(Ok(vec![owner(1, "a"), owner(2, "b")]));
    assert!(matches!(
        StatServer::handle_leaderboard_req(&COM_ID, &title, 1, 100, 0, &mut cache, 1000, &got),
        StatStep::Ask(StatQuery::MatchTallies { com_id: COM_ID })
    ));
    got.tallies = Some(Ok(HashMap::new()));
    for data_id in [10u64, 20] {
        match StatServer::handle_leaderboard_req(&COM_ID, &title, 1, 100, 0, &mut cache, 1000, &got) {
            StatStep::Ask(StatQuery::ReadStanding { com_id, data_id: asked }) => assert_eq!((com_id, asked), (COM_ID, data_id)),
            other => panic!("{:?}", other),
        }
        got.readings.push(reading(&[(1, 1)], None));
    }
    match StatServer::handle_leaderboard_req(&COM_ID, &title, 1, 100, 0, &mut cache, 1000, &got) {
        StatStep::Encode(Document::Leaderboard(board)) => assert_eq!(npids(&board), ["a", "b"]),
        other => panic!("{:?}", other),
    }
    got.json = Some(Some(text(BOARD)));
    let first = respond(StatServer::handle_leaderboard_req(&COM_ID, &title, 1, 1, 0, &mut cache, 1000, &got));
    assert_eq!(first.body, "{\"entries\":[{\"position\":1}],\"ranked_players\":3}");
    let nothing = LeaderboardAnswers::new();
    let last = 1000 + MINIMUM_CACHE_LIFE;
    let second = respond(StatServer::handle_leaderboard_req(&COM_ID, &title, 1, 2, 0, &mut cache, last, &nothing));
    assert_eq!(second.body, "{\"entries\":[{\"position\":1},{\"position\":2}],\"ranked_players\":3}");
    assert!(matches!(
        StatServer::handle_leaderboard_req(&COM_ID, &title, 1, 2, 0, &mut cache, last + 1, &nothing),
        StatStep::Ask(StatQuery::SlotOwners { .. })
    ));
    assert!(matches!(StatServer::handle_leaderboard_req(&COM_ID, &title, 2, 2, 0, &mut cache, 1001, &nothing), StatStep::Ask(_)));
    let longer = respond(StatServer::handle_leaderboard_req(&COM_ID, &title, 1, 3, 500, &mut cache, 1500, &nothing));
    assert_eq!(longer.status, 200);
}

#[test]
fn a_board_that_cannot_be_built_is_an_error() {
    let title = text("NPWR02973_00");
    let mut cache = JsonCache::new();
    let mut got = LeaderboardAnswers::new();
    got.owners = Some(Err(DbError::Internal));
    refused(StatServer::handle_leaderboard_req(&COM_ID, &title, 1, 1, 0, &mut cache, 1, &got), 500, "internal_error");
    got.owners = Some(Ok(vec![]));
    got.tallies = Some(Err(DbError::Empty));
    refused(StatServer::handle_leaderboard_req(&COM_ID, &title, 1, 1, 0, &mut cache, 1, &got), 500, "internal_error");
    got.tallies = Some(Ok(HashMap::new()));
    got.json = Some(None);
    refused(StatServer::handle_leaderboard_req(&COM_ID, &title, 1, 1, 0, &mut cache, 1, &got), 500, "internal_error");
    assert!(cache.leaderboard_cache.is_empty());
}
