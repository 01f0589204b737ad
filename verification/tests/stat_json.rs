use rpcn::stat_server::cache::JsonCache;
use rpcn::stat_server::http::HttpResponse;
use rpcn::stat_server::matches::DbMatchRecord;
use rpcn::stat_server::rooms::{Room, RoomUser};
use rpcn::stat_server::scores::{
    BoardAnswers, BoardsAnswers, DbBoardInfo, GetScoreResultCache, ScoreBoard, ScoreEntry,
};
use rpcn::stat_server::server::StatServer;
use rpcn::stat_server::types::{StatQuery, StatStep};
use rpcn::stat_server::usage::{GameTracker, TicketGame, TrackedGame, TrackedPlayer};

const COM_ID: [u8; 12] = *b"NPWR02973_00";

fn text(s: &str) -> String {
    s.to_owned()
}

fn respond(step: StatStep) -> HttpResponse {
    match step {
        StatStep::Respond(response) => response,
        other => panic!("{:?}", other),
    }
}

fn tracker() -> GameTracker {
    GameTracker {
        num_users: 3,
        psn_games: vec![
            TrackedGame { com_id: text("NPWR00001_00"), num_users: 0, name_hints: vec![], players: vec![] },
            TrackedGame {
                com_id: text("NPWR02973_00"),
                num_users: 2,
                name_hints: vec![text("Tag \"2\""), text("TTT2")],
                players: vec![
                    TrackedPlayer { name: text("Ann"), address: text("10.0.0.1") },
                    TrackedPlayer { name: text("B\\b"), address: text("10.0.0.2") },
                ],
            },
            TrackedGame {
                com_id: text("NPWR00482_00"),
                num_users: 1,
                name_hints: vec![],
                players: vec![TrackedPlayer { name: text("Cy"), address: text("10.0.0.3") }],
            },
        ],
        ticket_games: vec![
            TicketGame { name: text("BLES0"), num_users: 0 },
            TicketGame { name: text("BLES1"), num_users: 4 },
        ],
    }
}

const PUBLIC_USAGE: &str = "{\n    \"num_users\" : 3,\n    \"psn_games\": {\n        \"NPWR02973_00\": [2, \"Tag \\\"2\\\"\", \"TTT2\"],\n        \"NPWR00482_00\": [1]\n    },\n    \"ticket_games\": {\n        \"BLES1\": 4\n    },\n    \"players_id\": {\n        \"NPWR02973_00\": {\n            \"Ann\": null,\n            \"B\\\\b\": null\n        },\n        \"NPWR00482_00\": {\n            \"Cy\": null\n        }\n    }\n}";

#[test]
fn the_usage_summary_hides_addresses() {
    assert_eq!(StatServer::game_tracker_to_json(&tracker(), false), PUBLIC_USAGE);
    let mut moved = tracker();
    moved.psn_games[1].players[0].address = text("192.168.0.1");
    assert_eq!(StatServer::game_tracker_to_json(&moved, false), PUBLIC_USAGE);
}

#[test]
fn the_usage_summary_of_an_operator_holds_addresses() {
    let full = StatServer::game_tracker_to_json(&tracker(), true);
    assert_eq!(full, PUBLIC_USAGE.replace("\"Ann\": null", "\"Ann\": \"10.0.0.1\"").replace("\"B\\\\b\": null", "\"B\\\\b\": \"10.0.0.2\"").replace("\"Cy\": null", "\"Cy\": \"10.0.0.3\""));
}

#[test]
fn an_idle_server_has_an_empty_summary() {
    let idle = GameTracker { num_users: 0, psn_games: vec![], ticket_games: vec![] };
    assert_eq!(StatServer::game_tracker_to_json(&idle, true), "{\n    \"num_users\" : 0\n}");
}

#[test]
fn the_public_summary_is_kept_and_the_operators_is_not() {
    let mut cache = JsonCache::new();
    let busy = tracker();
    let idle = GameTracker { num_users: 0, psn_games: vec![], ticket_games: vec![] };
    assert!(matches!(StatServer::handle_usage_req(10, &mut cache, false, 1000, None), StatStep::Ask(StatQuery::GameTracker)));
    let full = respond(StatServer::handle_usage_req(10, &mut cache, true, 1000, Some(&busy)));
    assert!(full.body.contains("10.0.0.1"));
    assert_eq!(cache.usage_cache.timestamp, 0);
    let first = respond(StatServer::handle_usage_req(10, &mut cache, false, 1000, Some(&busy)));
    assert_eq!(first.body, PUBLIC_USAGE);
    assert_eq!(first.headers(), vec![("Content-Type", "application/json")]);
    let kept = respond(StatServer::handle_usage_req(10, &mut cache, false, 1010, Some(&idle)));
    assert_eq!(kept.body, PUBLIC_USAGE);
    let rebuilt = respond(StatServer::handle_usage_req(10, &mut cache, false, 1011, Some(&idle)));
    assert_eq!(rebuilt.body, "{\n    \"num_users\" : 0\n}");
}

#[test]
fn without_a_cache_life_the_summary_is_built_each_time() {
    let mut cache = JsonCache::new();
    let busy = tracker();
    assert_eq!(respond(StatServer::handle_usage_req(0, &mut cache, false, 5, Some(&busy))).body, PUBLIC_USAGE);
    assert!(matches!(StatServer::handle_usage_req(0, &mut cache, false, 5, None), StatStep::Ask(_)));
}

#[test]
fn matches_are_listed_with_their_winners() {
    let one = DbMatchRecord { match_id: 1, room_id: 20, timestamp: 300, npid_1: text("a"), npid_2: text("b"), winner_npid: Some(text("b")) };
    let two = DbMatchRecord { match_id: 2, room_id: 21, timestamp: 301, npid_1: text("c"), npid_2: text("d"), winner_npid: None };
    assert_eq!(StatServer::matches_to_json(&vec![]), "[\n]");
    assert_eq!(
        StatServer::matches_to_json(&vec![one, two]),
        "[\n  {\n    \"match_id\": 1,\n    \"room_id\": 20,\n    \"timestamp\": 300,\n    \"players\": [\"a\", \"b\"],\n    \"winner\": \"b\"\n  },\n  {\n    \"match_id\": 2,\n    \"room_id\": 21,\n    \"timestamp\": 301,\n    \"players\": [\"c\", \"d\"],\n    \"winner\": null\n  }\n]"
    );
}

fn room(com_id: [u8; 12], room_id: u64, users: Vec<RoomUser>) -> Room {
    Room { com_id, room_id, world_id: 2, lobby_id: 3, max_slot: 4, flag_attr: 5, room_password: None, users }
}

#[test]
fn the_rooms_of_the_title_are_listed() {
    let owner = RoomUser { npid: text("o"), online_name: text("O"), flag_attr: 0x8000_0001 };
    let guest = RoomUser { npid: text("g"), online_name: text("G"), flag_attr: 0x7fff_ffff };
    let mut last = room(COM_ID, 12, vec![]);
    last.room_password = Some([0; 8]);
    let rooms = vec![room(COM_ID, 10, vec![owner, guest]), room(*b"NPWR00482_00", 11, vec![]), last];
    assert_eq!(
        StatServer::rooms_to_json(&rooms, &COM_ID),
        "[\n  {\n    \"room_id\": 10,\n    \"world_id\": 2,\n    \"lobby_id\": 3,\n    \"max_slot\": 4,\n    \"cur_member_num\": 2,\n    \"flag_attr\": 5,\n    \"has_password\": false,\n    \"members\": [\n      { \"npid\": \"o\", \"online_name\": \"O\", \"is_owner\": true },\n      { \"npid\": \"g\", \"online_name\": \"G\", \"is_owner\": false }\n    ]\n  },\n  {\n    \"room_id\": 12,\n    \"world_id\": 2,\n    \"lobby_id\": 3,\n    \"max_slot\": 4,\n    \"cur_member_num\": 0,\n    \"flag_attr\": 5,\n    \"has_password\": true,\n    \"members\": [\n    ]\n  }\n]"
    );
    assert_eq!(StatServer::rooms_to_json(&vec![], &COM_ID), "[\n\n]");
    assert_eq!(StatServer::handle_rooms_req(&rooms, b"NPWR00482_00").status, 200);
}

const INFOS: DbBoardInfo = DbBoardInfo { rank_limit: 100, update_mode: 1, sort_mode: 2, upload_num_limit: 3, upload_size_limit: 4 };

fn scores() -> GetScoreResultCache {
    GetScoreResultCache {
        scores: vec![ScoreEntry { rank: 0, npid: text("n"), online_name: text("N\""), pcid: -1, score: -5, has_gamedata: true, timestamp: 9 }],
        comments: Some(vec![text("hi\n")]),
        infos: Some(vec![vec![0xab, 0x01]]),
        total_records: 1,
    }
}

fn board_text(id: u32) -> String {
    format!("{{\n    \"board_id\": {},\n    \"rank_limit\": 100,\n    \"update_mode\": 1,\n    \"sort_mode\": 2,\n    \"upload_num_limit\": 3,\n    \"upload_size_limit\": 4,\n    \"total_records\": 1,\n    \"scores\": [\n        {{\n\n            \"rank\": 1,\n            \"npid\": \"n\",\n            \"online_name\": \"N\\\"\",\n            \"pcid\": -1,\n            \"score\": -5,\n            \"has_gamedata\": true,\n            \"comment\": \"hi\",\n            \"info\": \"ab01\",\n            \"timestamp\": 9\n        }}\n\n    ]\n}}", id)
}

#[test]
fn a_board_is_written_with_its_scores() {
    assert_eq!(StatServer::score_result_to_json(&scores(), 7, &INFOS), board_text(7));
    let bare = GetScoreResultCache { scores: vec![], comments: None, infos: None, total_records: 0 };
    assert!(StatServer::score_result_to_json(&bare, 7, &INFOS).ends_with("\"total_records\": 0,\n    \"scores\": [\n    ]\n}"));
}

#[test]
fn the_boards_of_a_title_come_by_their_ids() {
    let mut cache = JsonCache::new();
    let mut got = BoardsAnswers { boards: None, ranges: vec![] };
    assert!(matches!(
        StatServer::handle_com_id_score_req(10, &mut cache, &COM_ID, 500, &got),
        StatStep::Ask(StatQuery::ScoreBoards { com_id: COM_ID })
    ));
    got.boards = Some(vec![ScoreBoard { board_id: 9, table_infos: INFOS }, ScoreBoard { board_id: 2, table_infos: INFOS }]);
    for id in [2u32, 9] {
        match StatServer::handle_com_id_score_req(10, &mut cache, &COM_ID, 500, &got) {
            StatStep::Ask(StatQuery::ScoreRange { com_id, board_id, start, count, with_comments, with_infos }) => {
                assert_eq!((com_id, board_id, start, count, with_comments, with_infos), (COM_ID, id, 1, 100, true, true));
            }
            other => panic!("{:?}", other),
        }
        got.ranges.push(scores());
    }
    let wanted = format!("[\n{},\n{}\n]", board_text(2), board_text(9));
    assert_eq!(respond(StatServer::handle_com_id_score_req(10, &mut cache, &COM_ID, 500, &got)).body, wanted);
    let nothing = BoardsAnswers { boards: None, ranges: vec![] };
    assert_eq!(respond(StatServer::handle_com_id_score_req(10, &mut cache, &COM_ID, 510, &nothing)).body, wanted);
    assert!(matches!(StatServer::handle_com_id_score_req(10, &mut cache, &COM_ID, 511, &nothing), StatStep::Ask(_)));
    assert!(matches!(StatServer::handle_com_id_score_req(10, &mut cache, b"NPWR00482_00", 505, &nothing), StatStep::Ask(_)));
}

#[test]
fn a_title_without_boards_has_an_empty_list() {
    let mut cache = JsonCache::new();
    let got = BoardsAnswers { boards: Some(vec![]), ranges: vec![] };
    assert_eq!(respond(StatServer::handle_com_id_score_req(0, &mut cache, &COM_ID, 1, &got)).body, "[]");
    assert!(cache.score_cache.com_id_cache.is_empty());
}

#[test]
fn one_board_is_kept_by_its_title_and_id() {
    let mut cache = JsonCache::new();
    let mut got = BoardAnswers { table: None, range: None };
    assert!(matches!(
        StatServer::handle_table_score_req(10, &mut cache, &COM_ID, 7, 500, &got),
        StatStep::Ask(StatQuery::ScoreBoard { board_id: 7, .. })
    ));
    got.table = Some(Some(INFOS));
    assert!(matches!(
        StatServer::handle_table_score_req(10, &mut cache, &COM_ID, 7, 500, &got),
        StatStep::Ask(StatQuery::ScoreRange { board_id: 7, count: 100, .. })
    ));
    got.range = Some(scores());
    assert_eq!(respond(StatServer::handle_table_score_req(10, &mut cache, &COM_ID, 7, 500, &got)).body, board_text(7));
    let known = BoardAnswers { table: Some(Some(INFOS)), range: None };
    assert_eq!(respond(StatServer::handle_table_score_req(10, &mut cache, &COM_ID, 7, 510, &known)).body, board_text(7));
    assert!(matches!(StatServer::handle_table_score_req(10, &mut cache, &COM_ID, 8, 510, &known), StatStep::Ask(_)));
    assert!(matches!(StatServer::handle_table_score_req(10, &mut cache, b"NPWR00482_00", 7, 510, &known), StatStep::Ask(_)));
    assert!(matches!(StatServer::handle_table_score_req(10, &mut cache, &COM_ID, 7, 511, &known), StatStep::Ask(_)));
}

#[test]
fn a_board_that_is_not_there_is_answered_with_nothing() {
    let mut cache = JsonCache::new();
    let got = BoardAnswers { table: Some(None), range: None };
    let response = respond(StatServer::handle_table_score_req(10, &mut cache, &COM_ID, 7, 500, &got));
    assert_eq!((response.status, response.body.as_str()), (200, ""));
    assert!(response.headers().is_empty());
}

#[test]
fn a_cache_entry_does_not_overflow_at_the_end_of_time() {
    let mut cache = JsonCache::new();
    let busy = tracker();
    let idle = GameTracker { num_users: 0, psn_games: vec![], ticket_games: vec![] };
    respond(StatServer::handle_usage_req(u32::MAX - 1, &mut cache, false, u32::MAX, Some(&busy)));
    let kept = respond(StatServer::handle_usage_req(u32::MAX - 1, &mut cache, false, u32::MAX, Some(&idle)));
    assert_eq!(kept.body, PUBLIC_USAGE);
}
