//! Score tables.

use crate::com_id::ComId;
use crate::stat_server::cache::{
    find_answer, keep_answer, kept_answer, pack_com_id, pack_table, table_key, title_key,
    with_answer, JsonCache, JsonCacheView,
};
use crate::stat_server::http::{bare, json, HttpResponse, OK};
use crate::stat_server::json::{flat, lemma_flat_next, lemma_flat_whole, mark};
use crate::stat_server::order::{in_order, sort, Sortable};
use crate::stat_server::server::StatServer;
use crate::stat_server::types::{StatQuery, StatStep, StatStepView};
use crate::text::{
    decimal, decimal_text, hex, hex_text, sanitize_for_json, sanitized, truth, truth_text,
};
use vstd::prelude::*;
use vstd::string::*;

verus! {

/// How a score board is set up.
#[derive(Clone, Copy, Debug)]
pub struct DbBoardInfo {
    pub rank_limit: u32,
    pub update_mode: u32,
    pub sort_mode: u32,
    pub upload_num_limit: u32,
    pub upload_size_limit: u32,
}

/// One score of a board.
#[derive(Debug)]
pub struct ScoreEntry {
    /// Counted from zero.
    pub rank: u32,
    pub npid: String,
    pub online_name: String,
    pub pcid: i32,
    pub score: i64,
    pub has_gamedata: bool,
    pub timestamp: u64,
}

/// The scores of a board. The comments and the info blobs, where they are
/// there, belong to the scores of the same index.
#[derive(Debug)]
pub struct GetScoreResultCache {
    pub scores: Vec<ScoreEntry>,
    pub comments: Option<Vec<String>>,
    pub infos: Option<Vec<Vec<u8>>>,
    pub total_records: u32,
}

impl GetScoreResultCache {
    /// Whether every score has its comment and its info blob, and a rank that
    /// can be counted from one.
    pub open spec fn wf(self) -> bool {
        &&& self.comments matches Some(c) ==> c@.len() >= self.scores@.len()
        &&& self.infos matches Some(g) ==> g@.len() >= self.scores@.len()
        &&& forall|i: int|
            0 <= i < self.scores@.len() ==> #[trigger] self.scores@[i].rank < u32::MAX
    }
}

/// The comment on a score, or nothing where there are none.
pub open spec fn comment_text(comments: Option<Vec<String>>, index: int) -> Seq<char> {
    match comments {
        Some(c) => sanitized(c@[index]@),
        None => Seq::empty(),
    }
}

/// The info blob of a score in hexadecimal, or nothing where there are none.
pub open spec fn info_text(infos: Option<Vec<Vec<u8>>>, index: int) -> Seq<char> {
    match infos {
        Some(g) => hex(g@[index]@),
        None => Seq::empty(),
    }
}

/// One score of a board.
pub open spec fn score_text(result: GetScoreResultCache, index: int) -> Seq<char> {
    let score = result.scores@[index];
    "        {\n\n            \"rank\": "@ + decimal(score.rank + 1) + ",\n            \"npid\": \""@
        + score.npid@ + "\",\n            \"online_name\": \""@ + sanitized(score.online_name@)
        + "\",\n            \"pcid\": "@ + decimal(score.pcid as int) + ",\n            \"score\": "@
        + decimal(score.score as int) + ",\n            \"has_gamedata\": "@ + truth(
        score.has_gamedata,
    ) + ",\n            \"comment\": \""@ + comment_text(result.comments, index)
        + "\",\n            \"info\": \""@ + info_text(result.infos, index)
        + "\",\n            \"timestamp\": "@ + decimal(score.timestamp as int) + "\n        }\n"@
}

/// The scores of a board.
pub open spec fn scores_text(result: GetScoreResultCache) -> Seq<char> {
    flat(
        Seq::new(
            result.scores@.len(),
            |i: int|
                score_text(result, i) + mark(i, result.scores@.len() as int, ",\n"@, "\n"@),
        ),
    )
}

/// A score board.
pub open spec fn board_text(
    result: GetScoreResultCache,
    board_id: u32,
    table_infos: DbBoardInfo,
) -> Seq<char> {
    "{\n    \"board_id\": "@ + decimal(board_id as int) + ",\n    \"rank_limit\": "@ + decimal(
        table_infos.rank_limit as int,
    ) + ",\n    \"update_mode\": "@ + decimal(table_infos.update_mode as int)
        + ",\n    \"sort_mode\": "@ + decimal(table_infos.sort_mode as int)
        + ",\n    \"upload_num_limit\": "@ + decimal(table_infos.upload_num_limit as int)
        + ",\n    \"upload_size_limit\": "@ + decimal(table_infos.upload_size_limit as int)
        + ",\n    \"total_records\": "@ + decimal(result.total_records as int)
        + ",\n    \"scores\": [\n"@ + scores_text(result) + "    ]\n}"@
}

fn write_comment(comments: &Option<Vec<String>>, index: usize) -> (text: String)
    requires
        comments matches Some(c) ==> index < c@.len(),
    ensures
        text@ == comment_text(*comments, index as int),
{
    match comments {
        Some(c) => sanitize_for_json(c[index].as_str()),
        None => String::new(),
    }
}

fn write_info(infos: &Option<Vec<Vec<u8>>>, index: usize) -> (text: String)
    requires
        infos matches Some(g) ==> index < g@.len(),
    ensures
        text@ == info_text(*infos, index as int),
{
    match infos {
        Some(g) => hex_text(&g[index]),
        None => String::new(),
    }
}

fn write_score(result: &GetScoreResultCache, index: usize) -> (text: String)
    requires
        result.wf(),
        index < result.scores@.len(),
    ensures
        text@ == score_text(*result, index as int),
{
    let score: &ScoreEntry = &result.scores[index];
    let mut text: String = "        {\n\n            \"rank\": ".to_owned();
    text.append(decimal_text((score.rank + 1) as i128).as_str());
    text.append(",\n            \"npid\": \"");
    text.append(score.npid.as_str());
    text.append("\",\n            \"online_name\": \"");
    text.append(sanitize_for_json(score.online_name.as_str()).as_str());
    text.append("\",\n            \"pcid\": ");
    text.append(decimal_text(score.pcid as i128).as_str());
    text.append(",\n            \"score\": ");
    text.append(decimal_text(score.score as i128).as_str());
    text.append(",\n            \"has_gamedata\": ");
    text.append(truth_text(score.has_gamedata));
    text.append(",\n            \"comment\": \"");
    text.append(write_comment(&result.comments, index).as_str());
    text.append("\",\n            \"info\": \"");
    text.append(write_info(&result.infos, index).as_str());
    text.append("\",\n            \"timestamp\": ");
    text.append(decimal_text(score.timestamp as i128).as_str());
    text.append("\n        }\n");
    text
}

fn write_scores(result: &GetScoreResultCache) -> (text: String)
    requires
        result.wf(),
    ensures
        text@ == scores_text(*result),
{
    let ghost n = result.scores@.len();
    let ghost all = Seq::new(
        n,
        |i: int| score_text(*result, i) + mark(i, n as int, ",\n"@, "\n"@),
    );
    let mut text: String = String::new();
    proof {
        lemma_flat_whole(all);
    }
    let len: usize = result.scores.len();
    for i in 0..len
        invariant
            result.wf(),
            n == result.scores@.len(),
            len == n,
            all == Seq::new(
                n,
                |i: int| score_text(*result, i) + mark(i, n as int, ",\n"@, "\n"@),
            ),
            text@ == flat(all.take(i as int)),
    {
        let ghost before = text@;
        text.append(write_score(result, i).as_str());
        text.append(
            if i != len - 1 {
                ",\n"
            } else {
                "\n"
            },
        );
        proof {
            lemma_flat_next(all, i as int);
            assert(text@ =~= before + all[i as int]);
        }
    }
    text
}

impl StatServer {
    /// A score board.
    pub fn score_result_to_json(
        result: &GetScoreResultCache,
        board_id: u32,
        table_infos: &DbBoardInfo,
    ) -> (text: String)
        requires
            result.wf(),
        ensures
            text@ == board_text(*result, board_id, *table_infos),
    {
        let mut text: String = "{\n    \"board_id\": ".to_owned();
        text.append(decimal_text(board_id as i128).as_str());
        text.append(",\n    \"rank_limit\": ");
        text.append(decimal_text(table_infos.rank_limit as i128).as_str());
        text.append(",\n    \"update_mode\": ");
        text.append(decimal_text(table_infos.update_mode as i128).as_str());
        text.append(",\n    \"sort_mode\": ");
        text.append(decimal_text(table_infos.sort_mode as i128).as_str());
        text.append(",\n    \"upload_num_limit\": ");
        text.append(decimal_text(table_infos.upload_num_limit as i128).as_str());
        text.append(",\n    \"upload_size_limit\": ");
        text.append(decimal_text(table_infos.upload_size_limit as i128).as_str());
        text.append(",\n    \"total_records\": ");
        text.append(decimal_text(result.total_records as i128).as_str());
        text.append(",\n    \"scores\": [\n");
        text.append(write_scores(result).as_str());
        text.append("    ]\n}");
        text
    }
}

/// A score board of a title.
#[derive(Clone, Copy, Debug)]
pub struct ScoreBoard {
    pub board_id: u32,
    pub table_infos: DbBoardInfo,
}

impl Sortable for ScoreBoard {
    open spec fn precedes(self, other: ScoreBoard) -> bool {
        self.board_id < other.board_id
    }

    proof fn lemma_order(a: ScoreBoard, b: ScoreBoard, c: ScoreBoard) {
    }

    fn goes_before(&self, other: &ScoreBoard) -> (before: bool) {
        self.board_id < other.board_id
    }
}

/// Whether every board of a list that is there has scores that can be written.
pub open spec fn ranges_wf(ranges: Seq<GetScoreResultCache>) -> bool {
    forall|i: int| 0 <= i < ranges.len() ==> (#[trigger] ranges[i]).wf()
}

/// A list of boards, each with its scores.
pub open spec fn boards_text(boards: Seq<ScoreBoard>, ranges: Seq<GetScoreResultCache>) -> Seq<
    char,
> {
    if boards.len() == 0 {
        "[]"@
    } else {
        "[\n"@ + flat(
            Seq::new(
                boards.len(),
                |i: int|
                    board_text(ranges[i], boards[i].board_id, boards[i].table_infos) + mark(
                        i,
                        boards.len() as int,
                        ",\n"@,
                        "\n"@,
                    ),
            ),
        ) + "]"@
    }
}

impl StatServer {
    /// The boards of a title, each with its scores.
    pub fn com_id_score_to_json(boards: &Vec<ScoreBoard>, ranges: &Vec<GetScoreResultCache>) -> (text:
        String)
        requires
            ranges@.len() >= boards@.len(),
            ranges_wf(ranges@),
        ensures
            text@ == boards_text(boards@, ranges@),
    {
        if boards.len() == 0 {
            return "[]".to_owned();
        }
        let ghost n = boards@.len();
        let ghost all = Seq::new(
            n,
            |i: int|
                board_text(ranges@[i], boards@[i].board_id, boards@[i].table_infos) + mark(
                    i,
                    n as int,
                    ",\n"@,
                    "\n"@,
                ),
        );
        let mut list: String = String::new();
        proof {
            lemma_flat_whole(all);
        }
        let len: usize = boards.len();
        for i in 0..len
            invariant
                n == boards@.len(),
                len == n,
                ranges@.len() >= n,
                ranges_wf(ranges@),
                all == Seq::new(
                    n,
                    |i: int|
                        board_text(ranges@[i], boards@[i].board_id, boards@[i].table_infos) + mark(
                            i,
                            n as int,
                            ",\n"@,
                            "\n"@,
                        ),
                ),
                list@ == flat(all.take(i as int)),
        {
            let board: ScoreBoard = boards[i];
            let mut piece: String = StatServer::score_result_to_json(
                &ranges[i],
                board.board_id,
                &board.table_infos,
            );
            piece.append(
                if i != len - 1 {
                    ",\n"
                } else {
                    "\n"
                },
            );
            assert(piece@ == all[i as int]);
            list.append(piece.as_str());
            proof {
                lemma_flat_next(all, i as int);
            }
        }
        let mut text: String = "[\n".to_owned();
        text.append(list.as_str());
        text.append("]");
        text
    }
}

/// The scores of a board that are shown: all that it ranks, with their comments
/// and info blobs.
pub open spec fn shown_range<'a>(com_id: ComId, board: ScoreBoard) -> StatQuery<'a> {
    StatQuery::ScoreRange {
        com_id,
        board_id: board.board_id,
        start: 1,
        count: board.table_infos.rank_limit,
        with_comments: true,
        with_infos: true,
    }
}

/// What is known while the boards of a title are being shown.
#[derive(Debug)]
pub struct BoardsAnswers {
    /// The boards of the title.
    pub boards: Option<Vec<ScoreBoard>>,
    /// The scores of the boards, in the order of their ids.
    pub ranges: Vec<GetScoreResultCache>,
}

/// How a request for the boards of a title goes on when it cannot be answered
/// out of the cache.
pub open spec fn boards_step<'a>(com_id: ComId, got: &'a BoardsAnswers) -> StatStepView<'a> {
    match got.boards {
        None => StatStepView::Ask(StatQuery::ScoreBoards { com_id }),
        Some(boards) => {
            let sorted = in_order(boards@);
            if got.ranges@.len() < sorted.len() {
                StatStepView::Ask(shown_range(com_id, sorted[got.ranges@.len() as int]))
            } else {
                StatStepView::Respond(json(OK, boards_text(sorted, got.ranges@)))
            }
        },
    }
}

/// What is known while one board of a title is being shown.
#[derive(Debug)]
pub struct BoardAnswers {
    /// How the board is set up, if it is there.
    pub table: Option<Option<DbBoardInfo>>,
    /// The scores of the board.
    pub range: Option<GetScoreResultCache>,
}

/// How a request for one board goes on when the board is there and the request
/// cannot be answered out of the cache.
pub open spec fn board_step<'a>(
    com_id: ComId,
    board: ScoreBoard,
    got: &'a BoardAnswers,
) -> StatStepView<'a> {
    match got.range {
        None => StatStepView::Ask(shown_range(com_id, board)),
        Some(range) => StatStepView::Respond(
            json(OK, board_text(range, board.board_id, board.table_infos)),
        ),
    }
}

impl StatServer {
    /// Answers a request for all boards of a title, out of the cache where it
    /// can.
    pub fn handle_com_id_score_req<'a>(
        cache_life: u32,
        json_cache: &mut JsonCache,
        com_id: &ComId,
        now: u32,
        got: &'a BoardsAnswers,
    ) -> (step: StatStep<'a>)
        requires
            ranges_wf(got.ranges@),
        ensures
            ({
                let key = title_key(com_id@) as u128;
                let titles = old(json_cache)@.titles;
                match kept_answer(titles, key, cache_life, now) {
                    Some(response) => step@ == StatStepView::<'a>::Respond(response)
                        && final(json_cache)@ == old(json_cache)@,
                    None => {
                        &&& step@ == boards_step(*com_id, got)
                        &&& final(json_cache)@ == (JsonCacheView {
                            titles: if step@ is Respond {
                                with_answer(titles, key, cache_life, now, step@->Respond_0)
                            } else {
                                titles
                            },
                            ..old(json_cache)@
                        })
                    },
                }
            }),
            // An answer is given again to whoever asks next, and is not kept for
            // any other title.
            cache_life > 0 ==> (step@ matches StatStepView::Respond(response) ==> kept_answer(
                final(json_cache)@.titles,
                title_key(com_id@) as u128,
                cache_life,
                now,
            ) == Some(response)),
            forall|key: u128|
                key != title_key(com_id@) ==> final(json_cache)@.titles.contains_key(key)
                    == old(json_cache)@.titles.contains_key(key)
                    && #[trigger] final(json_cache)@.titles[key] == old(json_cache)@.titles[key],
            cache_life == 0 || step@ !is Respond ==> final(json_cache)@ == old(json_cache)@,
            final(json_cache)@.tables == old(json_cache)@.tables,
            final(json_cache)@.leaderboards == old(json_cache)@.leaderboards,
            final(json_cache)@.usage == old(json_cache)@.usage,
    {
        let key: u128 = pack_com_id(com_id);
        if let Some(response) = find_answer(
            &json_cache.score_cache.com_id_cache,
            key,
            cache_life,
            now,
        ) {
            return StatStep::Respond(response);
        }
        let boards: Vec<ScoreBoard> = match &got.boards {
            None => return StatStep::Ask(StatQuery::ScoreBoards { com_id: *com_id }),
            Some(boards) => copy_boards(boards),
        };
        let sorted: Vec<ScoreBoard> = sort(boards);
        let shown: usize = got.ranges.len();
        if shown < sorted.len() {
            return StatStep::Ask(ask_range(com_id, &sorted[shown]));
        }
        let body: String = StatServer::com_id_score_to_json(&sorted, &got.ranges);
        let response: HttpResponse = StatServer::json_response(OK, body);
        keep_answer(&mut json_cache.score_cache.com_id_cache, key, cache_life, now, &response);
        StatStep::Respond(response)
    }

    /// Answers a request for one board of a title, out of the cache where it
    /// can. A board that is not there is answered with nothing.
    pub fn handle_table_score_req<'a>(
        cache_life: u32,
        json_cache: &mut JsonCache,
        com_id: &ComId,
        table_id: u32,
        now: u32,
        got: &'a BoardAnswers,
    ) -> (step: StatStep<'a>)
        requires
            got.range matches Some(range) ==> range.wf(),
        ensures
            ({
                let key = table_key(com_id@, table_id) as u128;
                let tables = old(json_cache)@.tables;
                match (got.table, kept_answer(tables, key, cache_life, now)) {
                    (None, _) => step@ == StatStepView::<'a>::Ask(
                        StatQuery::ScoreBoard { com_id: *com_id, board_id: table_id },
                    ) && final(json_cache)@ == old(json_cache)@,
                    (Some(None), _) => step@ == StatStepView::<'a>::Respond(
                        bare(OK, Seq::empty()),
                    ) && final(json_cache)@ == old(json_cache)@,
                    (Some(Some(_)), Some(response)) => step@ == StatStepView::<'a>::Respond(
                        response,
                    ) && final(json_cache)@ == old(json_cache)@,
                    (Some(Some(table_infos)), None) => {
                        &&& step@ == board_step(
                            *com_id,
                            ScoreBoard { board_id: table_id, table_infos },
                            got,
                        )
                        &&& final(json_cache)@ == (JsonCacheView {
                            tables: if step@ is Respond {
                                with_answer(tables, key, cache_life, now, step@->Respond_0)
                            } else {
                                tables
                            },
                            ..old(json_cache)@
                        })
                    },
                }
            }),
            // An answer about a board that is there is given again to whoever asks
            // next, and is not kept for any other board.
            cache_life > 0 && (got.table matches Some(Some(_))) ==> (
            step@ matches StatStepView::Respond(response) ==> kept_answer(
                final(json_cache)@.tables,
                table_key(com_id@, table_id) as u128,
                cache_life,
                now,
            ) == Some(response)),
            forall|key: u128|
                key != table_key(com_id@, table_id) ==> final(json_cache)@.tables.contains_key(key)
                    == old(json_cache)@.tables.contains_key(key)
                    && #[trigger] final(json_cache)@.tables[key] == old(json_cache)@.tables[key],
            cache_life == 0 || step@ !is Respond || got.table == Some(None::<DbBoardInfo>)
                ==> final(json_cache)@ == old(json_cache)@,
            final(json_cache)@.titles == old(json_cache)@.titles,
            final(json_cache)@.leaderboards == old(json_cache)@.leaderboards,
            final(json_cache)@.usage == old(json_cache)@.usage,
    {
        let table_infos: DbBoardInfo = match got.table {
            None => return StatStep::Ask(
                StatQuery::ScoreBoard { com_id: *com_id, board_id: table_id },
            ),
            Some(None) => return StatStep::Respond(HttpResponse::new(String::new())),
            Some(Some(table_infos)) => table_infos,
        };
        let key: u128 = pack_table(com_id, table_id);
        if let Some(response) = find_answer(
            &json_cache.score_cache.table_cache,
            key,
            cache_life,
            now,
        ) {
            return StatStep::Respond(response);
        }
        let range: &GetScoreResultCache = match &got.range {
            None => return StatStep::Ask(
                ask_range(com_id, &ScoreBoard { board_id: table_id, table_infos }),
            ),
            Some(range) => range,
        };
        let body: String = StatServer::score_result_to_json(range, table_id, &table_infos);
        let response: HttpResponse = StatServer::json_response(OK, body);
        keep_answer(&mut json_cache.score_cache.table_cache, key, cache_life, now, &response);
        StatStep::Respond(response)
    }
}

fn ask_range<'a>(com_id: &ComId, board: &ScoreBoard) -> (query: StatQuery<'a>)
    ensures
        query == shown_range::<'a>(*com_id, *board),
{
    StatQuery::ScoreRange {
        com_id: *com_id,
        board_id: board.board_id,
        start: 1,
        count: board.table_infos.rank_limit,
        with_comments: true,
        with_infos: true,
    }
}

fn copy_boards(boards: &Vec<ScoreBoard>) -> (copy: Vec<ScoreBoard>)
    ensures
        copy@ == boards@,
{
    let mut copy: Vec<ScoreBoard> = Vec::new();
    for i in 0..boards.len()
        invariant
            copy@ == boards@.take(i as int),
    {
        copy.push(boards[i]);
        assert(copy@ =~= boards@.take(i + 1));
    }
    assert(boards@.take(boards@.len() as int) =~= boards@);
    copy
}

} // verus!
