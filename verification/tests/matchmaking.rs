use rpcn::game_specific_matchmaking::{
    build_npwr02973_adjusted_request, IntAttr, IntSearchFilter, SearchRoomRequest,
};

const NPWR02973_00: [u8; 12] = *b"NPWR02973_00";

fn search(lower: u32, upper: u32) -> SearchRoomRequest {
    let mut int_filter: Vec<IntSearchFilter> =
        (0..6).map(|i| IntSearchFilter { attr: Some(IntAttr { num: 100 + i }) }).collect();
    int_filter[3] = IntSearchFilter { attr: Some(IntAttr { num: lower }) };
    int_filter[4] = IntSearchFilter { attr: Some(IntAttr { num: upper }) };
    SearchRoomRequest { int_filter }
}

fn range(request: &SearchRoomRequest) -> (u32, u32) {
    (request.int_filter[3].attr.unwrap().num, request.int_filter[4].attr.unwrap().num)
}

fn adjusted(lower: u32, upper: u32) -> Option<(u32, u32)> {
    build_npwr02973_adjusted_request(&NPWR02973_00, &search(lower, upper)).map(|r| range(&r))
}

#[test]
fn a_wide_range_moves_two_ranks_inward() {
    assert_eq!(adjusted(10, 20), Some((12, 18)));
}

#[test]
fn a_narrow_range_stops_at_the_midpoint() {
    assert_eq!(adjusted(19, 22), Some((20, 20)));
    assert_eq!(adjusted(19, 21), Some((20, 20)));
}

#[test]
fn first_dan_keeps_the_range_of_the_client() {
    assert_eq!(adjusted(5, 15), None);
    assert_eq!(adjusted(5, 16), None);
    assert_eq!(adjusted(5, 17), Some((7, 15)));
}

#[test]
fn a_range_of_one_rank_is_left_alone() {
    assert_eq!(adjusted(20, 20), None);
}

#[test]
fn an_inverted_range_is_left_alone() {
    assert_eq!(adjusted(21, 20), None);
}

#[test]
fn the_largest_ranks_do_not_overflow() {
    assert_eq!(adjusted(u32::MAX - 1, u32::MAX), Some((u32::MAX - 1, u32::MAX - 1)));
    assert_eq!(adjusted(0, u32::MAX), Some((2, u32::MAX - 2)));
}

#[test]
fn another_title_is_left_alone() {
    assert!(build_npwr02973_adjusted_request(b"NPWR00482_00", &search(10, 20)).is_none());
}

#[test]
fn a_search_without_the_filters_is_left_alone() {
    let mut short = search(10, 20);
    short.int_filter.truncate(4);
    assert!(build_npwr02973_adjusted_request(&NPWR02973_00, &short).is_none());
    let mut bare = search(10, 20);
    bare.int_filter[3] = IntSearchFilter { attr: None };
    assert!(build_npwr02973_adjusted_request(&NPWR02973_00, &bare).is_none());
}

#[test]
fn the_other_filters_are_kept() {
    let out = build_npwr02973_adjusted_request(&NPWR02973_00, &search(10, 20)).unwrap();
    assert_eq!(out.int_filter.len(), 6);
    for i in [0usize, 1, 2, 5] {
        assert_eq!(out.int_filter[i].attr.unwrap().num, 100 + i as u32);
    }
}
