use rpcn::stat_server::http::{Entry, HttpResponse, Method};
use rpcn::stat_server::route::Route;
use rpcn::stat_server::server::{StatConfig, StatServer};
use rpcn::tus_files::Server;

const COM_ID: [u8; 12] = *b"NPWR02973_00";

fn get(req_path: &str, query: Option<&str>) -> Route {
    StatServer::route_stat_server_req("/rpcn", Method::Get, req_path, query, None, &Some("key".to_owned()))
}

fn is_empty(route: &Route, wanted: u16) -> bool {
    match route {
        Route::Respond(response) => {
            response.status == wanted && response.body.is_empty() && response.headers().is_empty()
        }
        _ => false,
    }
}

#[test]
fn a_preflight_is_answered_for_reading_only() {
    let response = match StatServer::handle_stat_server_req(Method::Options, None) {
        Entry::Respond(response) => response,
        Entry::Route => panic!("a preflight is not routed"),
    };
    assert_eq!(response.status, 204);
    assert_eq!(response.body, "");
    assert_eq!(
        response.headers(),
        vec![
            ("Access-Control-Allow-Origin", "*"),
            ("Access-Control-Allow-Methods", "GET, OPTIONS"),
            ("Access-Control-Allow-Headers", "Content-Type"),
            ("Access-Control-Max-Age", "86400"),
        ]
    );
}

#[test]
fn every_answer_is_readable_by_a_page() {
    assert!(matches!(StatServer::handle_stat_server_req(Method::Get, None), Entry::Route));
    let inner = StatServer::json_response(404, "{}".to_owned());
    match StatServer::handle_stat_server_req(Method::Get, Some(inner)) {
        Entry::Respond(response) => {
            assert_eq!(response.status, 404);
            assert_eq!(response.body, "{}");
            assert_eq!(
                response.headers(),
                vec![("Content-Type", "application/json"), ("Access-Control-Allow-Origin", "*")]
            );
        }
        Entry::Route => panic!("a routed request is answered"),
    }
}

#[test]
fn errors_are_reported_by_their_code() {
    let response = StatServer::error_response(400, "invalid_request");
    assert_eq!(response.status, 400);
    assert_eq!(response.body, "{\"error\":\"invalid_request\"}");
    assert_eq!(response.headers(), vec![("Content-Type", "application/json")]);
    assert_eq!(HttpResponse::not_found().status, 404);
}

#[test]
fn only_the_very_key_is_accepted() {
    assert!(StatServer::is_authorized(Some("secret-key"), "secret-key"));
    assert!(!StatServer::is_authorized(Some("secret-kex"), "secret-key"));
    assert!(!StatServer::is_authorized(Some("secret-ke"), "secret-key"));
    assert!(!StatServer::is_authorized(None, "secret-key"));
    assert!(StatServer::is_operator(Some("k"), &Some("k".to_owned())));
    assert!(!StatServer::is_operator(Some("k"), &None));
    assert!(!StatServer::is_operator(None, &Some("k".to_owned())));
}

#[test]
fn operator_endpoints_need_a_configured_key() {
    for req_path in ["/rpcn/external/users/verify", "/rpcn/admin/character-rank"] {
        for method in [Method::Get, Method::Post, Method::Other] {
            let route = StatServer::route_stat_server_req("/rpcn", method, req_path, None, None, &None);
            assert!(is_empty(&route, 404));
        }
    }
    assert!(matches!(get("/rpcn/external/users/verify", None), Route::VerifyUser));
    assert!(matches!(get("/rpcn/admin/character-rank", None), Route::SetRank));
}

#[test]
fn anything_but_reading_is_answered_with_nothing() {
    let route = StatServer::route_stat_server_req("/rpcn", Method::Post, "/rpcn/usage", None, None, &None);
    assert!(is_empty(&route, 200));
}

#[test]
fn addresses_are_shown_to_operators_only() {
    let key = Some("key".to_owned());
    let usage = |presented| StatServer::route_stat_server_req("/rpcn", Method::Get, "/rpcn/usage", None, presented, &key);
    assert!(matches!(usage(Some("key")), Route::Usage { include_ips: true }));
    assert!(matches!(usage(Some("nope")), Route::Usage { include_ips: false }));
    assert!(matches!(usage(None), Route::Usage { include_ips: false }));
}

#[test]
fn leaderboards_are_routed_with_their_limit_and_slot() {
    match get("/rpcn/leaderboard/NPWR02973_00", None) {
        Route::Leaderboard { com_id, com_id_text, slot, limit } => {
            assert_eq!(com_id, COM_ID);
            assert_eq!(com_id_text, "NPWR02973_00");
            assert_eq!((slot, limit), (1, 100));
        }
        other => panic!("{:?}", other),
    }
    assert!(matches!(
        get("/rpcn/leaderboard/NPWR02973_00", Some("limit=20000&slot=-3")),
        Route::Leaderboard { slot: -3, limit: 10000, .. }
    ));
    assert!(is_empty(&get("/rpcn/leaderboard/NPWR02973", None), 200));
}

#[test]
fn limits_default_to_fifty_and_are_capped_at_five_hundred() {
    assert_eq!(StatServer::parse_limit(None), 50);
    assert_eq!(StatServer::parse_limit(Some("limit=0")), 1);
    assert_eq!(StatServer::parse_limit(Some("limit=7")), 7);
    assert_eq!(StatServer::parse_limit(Some("limit=501")), 500);
    assert_eq!(StatServer::parse_limit(Some("limit=4294967296")), 50);
    assert_eq!(StatServer::parse_limit(Some("limit=abc")), 50);
    assert_eq!(StatServer::parse_slot(Some("slot=x")), 1);
    assert_eq!(StatServer::query_param(Some("a=1"), "a"), Some("1"));
    assert!(matches!(get("/rpcn/matches/NPWR02973_00", None), Route::RecentMatches { limit: 50, com_id: COM_ID }));
}

#[test]
fn players_are_routed_by_what_is_asked_of_them() {
    match get("/rpcn/players/someone/matches", Some("limit=9")) {
        Route::PlayerMatches { npid, limit } => assert_eq!((npid.as_str(), limit), ("someone", 9)),
        other => panic!("{:?}", other),
    }
    match get("/rpcn/players/someone/ranks", Some("com_id=NPWR02973_00&slot=4")) {
        Route::PlayerRanks { npid, com_id_text, slot } => {
            assert_eq!((npid.as_str(), com_id_text.as_str(), slot), ("someone", "NPWR02973_00", 4));
        }
        other => panic!("{:?}", other),
    }
    match get("/rpcn/players/someone/ranks", Some("slot=4")) {
        Route::Respond(response) => {
            assert_eq!(response.status, 400);
            assert_eq!(response.body, "{\"error\":\"com_id_required\"}");
        }
        other => panic!("{:?}", other),
    }
    assert!(is_empty(&get("/rpcn/players/someone", None), 200));
}

#[test]
fn scores_and_rooms_are_routed() {
    assert!(matches!(get("/rpcn/rooms/NPWR02973_00", None), Route::Rooms { com_id: COM_ID }));
    assert!(matches!(get("/rpcn/score/NPWR02973_00", None), Route::ComIdScore { com_id: COM_ID }));
    assert!(matches!(get("/rpcn/score/NPWR02973_00/17", None), Route::TableScore { com_id: COM_ID, table_id: 17 }));
    assert!(is_empty(&get("/rpcn/score/NPWR02973_00/x", None), 200));
    assert!(is_empty(&get("/rpcn/score/NPWR02973_00/1/2", None), 200));
    assert!(is_empty(&get("/rpcn/score/short", None), 200));
    assert!(is_empty(&get("/elsewhere", None), 200));
}

#[test]
fn the_configuration_decides_what_is_started() {
    let mut config = StatConfig { binds: None, cache_life: 5, path: "rpcn".to_owned(), external_user_api_key: String::new() };
    assert!(Server::start_stat_server(&config).is_none());
    config.binds = Some(("127.0.0.1".to_owned(), "31315".to_owned()));
    let (address, server) = Server::start_stat_server(&config).unwrap();
    assert_eq!(address, "127.0.0.1:31315");
    assert_eq!(server.path, "/rpcn");
    assert_eq!(server.cache_life, 5);
    assert_eq!(server.external_user_api_key, None);
    config.external_user_api_key = "key".to_owned();
    let (_, server) = Server::start_stat_server(&config).unwrap();
    assert_eq!(server.external_user_api_key, Some("key".to_owned()));
    assert_eq!(StatServer::invalid_address("x:1"), "Stat: x:1 is not a valid address");
    assert_eq!(StatServer::bind_failure("1.2.3.4:5", "in use"), "Stat: error binding to <1.2.3.4:5>: in use");
}
