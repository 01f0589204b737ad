//! Leaderboards: every account of a title by the rank of its best character.

use crate::com_id::ComId;
use crate::error::DbError;
use crate::stat_server::cache::{
    entry_views, keep_answer, pack_slot, slot_key, CachedResponse, CachedView, JsonCache,
    JsonCacheView,
};
use crate::stat_server::http::{
    bare, error, json, HttpResponse, ResponseView, INTERNAL_SERVER_ERROR, OK,
};
use crate::stat_server::order::{
    in_order, is_in_order, law_sorting_sorts, sort, Sortable,
};
use crate::stat_server::server::StatServer;
use crate::stat_server::trim::trimmed_text;
use crate::stat_server::types::{
    CharacterRank, Document, DocumentView, EditError, LeaderboardEntry, LeaderboardResponse,
    PlayerRecord, StatQuery, StatStep, StatStepView,
};
use std::collections::HashMap;
use vstd::prelude::*;
use vstd::utf8::*;

verus! {

broadcast use vstd::std_specs::hash::group_hash_axioms;

/// The least seconds for which a board is served again.
pub const MINIMUM_CACHE_LIFE: u32 = 30;

/// An account that has a save in a slot.
#[derive(Debug)]
pub struct SlotOwner {
    pub user_id: i64,
    pub npid: String,
    pub online_name: String,
    pub data_id: u64,
}

/// What reading a save gave.
#[derive(Debug)]
pub enum SaveReading {
    /// There is no such file, or it could not be read.
    NoFile,
    /// The save could not be made sense of.
    NoRanks(EditError),
    /// The ranks in the save, and the wins and losses where it tells.
    Ranks { characters: Vec<CharacterRank>, record: Option<(u32, u32)> },
}

/// Whether `a` comes before `b` when bytes are compared one by one.
pub open spec fn bytes_before(a: Seq<u8>, b: Seq<u8>) -> bool
    decreases a.len(),
{
    if b.len() == 0 {
        false
    } else if a.len() == 0 {
        true
    } else if a[0] != b[0] {
        a[0] < b[0]
    } else {
        bytes_before(a.skip(1), b.skip(1))
    }
}

proof fn lemma_bytes_before_order(a: Seq<u8>, b: Seq<u8>, c: Seq<u8>)
    ensures
        !(bytes_before(a, b) && bytes_before(b, a)),
        bytes_before(a, c) ==> bytes_before(a, b) || bytes_before(b, c),
    decreases a.len() + b.len() + c.len(),
{
    if a.len() > 0 && b.len() > 0 {
        lemma_bytes_before_order(
            a.skip(1),
            b.skip(1),
            if c.len() > 0 {
                c.skip(1)
            } else {
                c
            },
        );
    }
}

proof fn lemma_bytes_before_total(a: Seq<u8>, b: Seq<u8>)
    requires
        !bytes_before(a, b),
        !bytes_before(b, a),
    ensures
        a == b,
    decreases a.len(),
{
    if a.len() > 0 && b.len() > 0 {
        lemma_bytes_before_total(a.skip(1), b.skip(1));
        assert(a =~= seq![a[0]] + a.skip(1));
        assert(b =~= seq![b[0]] + b.skip(1));
    } else {
        assert(a =~= b);
    }
}

fn is_before(a: &[u8], b: &[u8]) -> (before: bool)
    ensures
        before == bytes_before(a@, b@),
{
    let mut i: usize = 0;
    assert(a@.skip(0) =~= a@);
    assert(b@.skip(0) =~= b@);
    while i < a.len() && i < b.len()
        invariant
            i <= a@.len(),
            i <= b@.len(),
            bytes_before(a@, b@) == bytes_before(a@.skip(i as int), b@.skip(i as int)),
        decreases a@.len() - i,
    {
        if a[i] != b[i] {
            return a[i] < b[i];
        }
        assert(a@.skip(i as int).skip(1) =~= a@.skip(i + 1));
        assert(b@.skip(i as int).skip(1) =~= b@.skip(i + 1));
        i += 1;
    }
    i < b.len()
}

impl Sortable for LeaderboardEntry {
    /// By rank, points and wins, the most first. Ties are broken all the way down
    /// to the npid so that two requests that see the same data produce the same
    /// board.
    open spec fn precedes(self, other: LeaderboardEntry) -> bool {
        if self.best_rank != other.best_rank {
            self.best_rank > other.best_rank
        } else if self.best_rank_points != other.best_rank_points {
            self.best_rank_points > other.best_rank_points
        } else if self.record.wins != other.record.wins {
            self.record.wins > other.record.wins
        } else {
            bytes_before(encode_utf8(self.npid@), encode_utf8(other.npid@))
        }
    }

    proof fn lemma_order(a: LeaderboardEntry, b: LeaderboardEntry, c: LeaderboardEntry) {
        lemma_bytes_before_order(
            encode_utf8(a.npid@),
            encode_utf8(b.npid@),
            encode_utf8(c.npid@),
        );
    }

    fn goes_before(&self, other: &LeaderboardEntry) -> (before: bool) {
        if self.best_rank != other.best_rank {
            self.best_rank > other.best_rank
        } else if self.best_rank_points != other.best_rank_points {
            self.best_rank_points > other.best_rank_points
        } else if self.record.wins != other.record.wins {
            self.record.wins > other.record.wins
        } else {
            is_before(self.npid.as_str().as_bytes(), other.npid.as_str().as_bytes())
        }
    }
}

/// Whether the first of two characters is ranked higher, or the points decide.
pub open spec fn outranks(a: CharacterRank, b: CharacterRank) -> bool {
    a.rank > b.rank || (a.rank == b.rank && a.rank_points > b.rank_points)
}

/// The highest ranked character: the last of them where there are several.
pub open spec fn best_character(characters: Seq<CharacterRank>) -> CharacterRank
    recommends
        characters.len() > 0,
    decreases characters.len(),
{
    if characters.len() <= 1 {
        characters[0]
    } else {
        let best = best_character(characters.drop_last());
        if outranks(best, characters.last()) {
            best
        } else {
            characters.last()
        }
    }
}

fn find_best(characters: &Vec<CharacterRank>) -> (best: CharacterRank)
    requires
        characters@.len() > 0,
    ensures
        best == best_character(characters@),
{
    let mut best: CharacterRank = characters[0];
    assert(characters@.take(1)[0] == characters@[0]);
    for i in 1..characters.len()
        invariant
            characters@.len() > 0,
            best == best_character(characters@.take(i as int)),
    {
        let c: CharacterRank = characters[i];
        assert(characters@.take(i + 1).drop_last() =~= characters@.take(i as int));
        assert(characters@.take(i + 1).last() == c);
        if !(best.rank > c.rank || (best.rank == c.rank && best.rank_points > c.rank_points)) {
            best = c;
        }
    }
    assert(characters@.take(characters@.len() as int) =~= characters@);
    best
}

/// What the server saw of an account's matches: nothing where it saw none.
pub open spec fn tally(tallies: Map<i64, (u32, u32)>, user_id: i64) -> (u32, u32) {
    if tallies.contains_key(user_id) {
        tallies[user_id]
    } else {
        (0, 0)
    }
}

/// An account's entry, before it has a position, if its save could be read.
pub open spec fn entry_for(
    owner: SlotOwner,
    reading: SaveReading,
    tallies: Map<i64, (u32, u32)>,
) -> Option<LeaderboardEntry> {
    match reading {
        SaveReading::Ranks { characters, record } if characters@.len() > 0 => {
            let best = best_character(characters@);
            let (wins, losses) = match record {
                Some(r) => r,
                None => (0u32, 0u32),
            };
            let (server_wins, server_losses) = tally(tallies, owner.user_id);
            Some(
                LeaderboardEntry {
                    position: 0,
                    npid: owner.npid,
                    online_name: owner.online_name,
                    best_rank: best.rank,
                    best_rank_points: best.rank_points,
                    best_character: best.character,
                    record: PlayerRecord { wins, losses },
                    server_record: PlayerRecord { wins: server_wins, losses: server_losses },
                },
            )
        },
        _ => None,
    }
}

/// The entries of all accounts whose saves could be read, in the order of the
/// accounts.
pub open spec fn entries_for(
    owners: Seq<SlotOwner>,
    readings: Seq<SaveReading>,
    tallies: Map<i64, (u32, u32)>,
) -> Seq<LeaderboardEntry>
    decreases owners.len(),
{
    if owners.len() == 0 {
        Seq::empty()
    } else {
        let before = entries_for(owners.drop_last(), readings, tallies);
        match entry_for(owners.last(), readings[owners.len() - 1], tallies) {
            Some(entry) => before.push(entry),
            None => before,
        }
    }
}

/// Entries with their positions, counted from one.
pub open spec fn numbered(entries: Seq<LeaderboardEntry>) -> Seq<LeaderboardEntry> {
    Seq::new(
        entries.len(),
        |i: int| LeaderboardEntry { position: (i + 1) as usize, ..entries[i] },
    )
}

/// The board of a slot.
pub open spec fn board(
    com_id_text: Seq<char>,
    slot: i32,
    owners: Seq<SlotOwner>,
    readings: Seq<SaveReading>,
    tallies: Map<i64, (u32, u32)>,
) -> DocumentView {
    let entries = entries_for(owners, readings, tallies);
    DocumentView::Leaderboard {
        com_id: com_id_text,
        slot,
        ranked_players: entries.len(),
        unreadable_saves: (owners.len() - entries.len()) as nat,
        entries: numbered(in_order(entries)),
    }
}

fn make_entry(
    owner: &SlotOwner,
    reading: &SaveReading,
    tallies: &HashMap<i64, (u32, u32)>,
) -> (entry: Option<LeaderboardEntry>)
    ensures
        entry == entry_for(*owner, *reading, tallies@),
{
    match reading {
        SaveReading::Ranks { characters, record } => {
            if characters.len() == 0 {
                return None;
            }
            let best: CharacterRank = find_best(characters);
            let (wins, losses): (u32, u32) = match record {
                Some(r) => *r,
                None => (0, 0),
            };
            let (server_wins, server_losses): (u32, u32) = match tallies.get(&owner.user_id) {
                Some(r) => *r,
                None => (0, 0),
            };
            Some(
                LeaderboardEntry {
                    position: 0,
                    npid: owner.npid.clone(),
                    online_name: owner.online_name.clone(),
                    best_rank: best.rank,
                    best_rank_points: best.rank_points,
                    best_character: best.character,
                    record: PlayerRecord { wins, losses },
                    server_record: PlayerRecord { wins: server_wins, losses: server_losses },
                },
            )
        },
        SaveReading::NoFile => None,
        SaveReading::NoRanks(_) => None,
    }
}

fn number_entries(entries: Vec<LeaderboardEntry>) -> (ranked: Vec<LeaderboardEntry>)
    ensures
        ranked@ == numbered(entries@),
{
    let ghost all = entries@;
    let mut ranked: Vec<LeaderboardEntry> = entries;
    let len: usize = ranked.len();
    for i in 0..len
        invariant
            len == ranked@.len(),
            len == all.len(),
            forall|j: int| 0 <= j < i ==> #[trigger] ranked@[j] == numbered(all)[j],
            forall|j: int| i <= j < len ==> #[trigger] ranked@[j] == all[j],
    {
        ranked[i].position = i + 1;
    }
    assert(ranked@ =~= numbered(all));
    ranked
}

/// Builds the board of a slot.
pub fn build_board(
    com_id_text: &String,
    slot: i32,
    owners: &Vec<SlotOwner>,
    readings: &Vec<SaveReading>,
    tallies: &HashMap<i64, (u32, u32)>,
) -> (built: LeaderboardResponse)
    requires
        readings@.len() >= owners@.len(),
    ensures
        Document::Leaderboard(built)@ == board(
            com_id_text@,
            slot,
            owners@,
            readings@,
            tallies@,
        ),
{
    let mut entries: Vec<LeaderboardEntry> = Vec::new();
    let mut unreadable: usize = 0;
    for i in 0..owners.len()
        invariant
            readings@.len() >= owners@.len(),
            entries@ == entries_for(owners@.take(i as int), readings@, tallies@),
            entries@.len() + unreadable == i,
    {
        assert(owners@.take(i + 1).drop_last() =~= owners@.take(i as int));
        match make_entry(&owners[i], &readings[i], tallies) {
            Some(entry) => entries.push(entry),
            None => {
                unreadable += 1;
            },
        }
    }
    assert(owners@.take(owners@.len() as int) =~= owners@);
    proof {
        law_sorting_sorts(entries@);
    }
    let ranked_players: usize = entries.len();
    LeaderboardResponse {
        com_id: com_id_text.clone(),
        slot,
        ranked_players,
        unreadable_saves: unreadable,
        entries: number_entries(sort(entries)),
    }
}

/// What is known while a board is being built.
#[derive(Debug)]
pub struct LeaderboardAnswers {
    /// The accounts that have a save in the slot.
    pub owners: Option<Result<Vec<SlotOwner>, DbError>>,
    /// How many matches each account won and lost here.
    pub tallies: Option<Result<HashMap<i64, (u32, u32)>, DbError>>,
    /// What reading the saves of the accounts gave, in their order.
    pub readings: Vec<SaveReading>,
    /// The board as JSON, where it could be written.
    pub json: Option<Option<String>>,
}

impl LeaderboardAnswers {
    /// What is known at the start: nothing.
    pub fn new() -> (answers: LeaderboardAnswers)
        ensures
            answers.owners is None,
            answers.tallies is None,
            answers.readings@.len() == 0,
            answers.json is None,
    {
        LeaderboardAnswers { owners: None, tallies: None, readings: Vec::new(), json: None }
    }
}

/// Where a request for a board stands.
pub enum BoardStep<'a> {
    Ask(StatQuery<'a>),
    Encode(DocumentView),
    Fail(ResponseView),
    /// The whole board, as text, and whether it was built just now.
    Serve { text: Seq<char>, built: bool },
}

/// For how many seconds a board is served again.
///
/// Building a board reads one file per account, so unlike the other answers this
/// one is never served uncached: a configuration that turns caching off would
/// otherwise let any caller spend the whole population's worth of reads per
/// request.
pub open spec fn board_life(cache_life: u32) -> u32 {
    if cache_life > MINIMUM_CACHE_LIFE {
        cache_life
    } else {
        MINIMUM_CACHE_LIFE
    }
}

/// The board that is kept for a slot, if it is still fresh.
pub open spec fn kept_board(
    leaderboards: Map<u128, CachedView>,
    key: u128,
    cache_life: u32,
    now: u32,
) -> Option<Seq<char>> {
    if leaderboards.contains_key(key) && !leaderboards[key].is_stale(now, board_life(cache_life)) {
        Some(leaderboards[key].response.body)
    } else {
        None
    }
}

/// How a request for a board goes on while it is being built.
pub open spec fn build_step<'a>(
    com_id: ComId,
    com_id_text: Seq<char>,
    slot: i32,
    got: &'a LeaderboardAnswers,
) -> BoardStep<'a> {
    match (got.owners, got.tallies) {
        (None, _) => BoardStep::Ask(StatQuery::SlotOwners { com_id, slot }),
        (Some(Err(_)), _) => BoardStep::Fail(error(INTERNAL_SERVER_ERROR, "internal_error"@)),
        (Some(Ok(_)), None) => BoardStep::Ask(StatQuery::MatchTallies { com_id }),
        (Some(Ok(_)), Some(Err(_))) => BoardStep::Fail(
            error(INTERNAL_SERVER_ERROR, "internal_error"@),
        ),
        (Some(Ok(owners)), Some(Ok(tallies))) => if got.readings@.len() < owners@.len() {
            BoardStep::Ask(
                StatQuery::ReadStanding {
                    com_id,
                    data_id: owners@[got.readings@.len() as int].data_id,
                },
            )
        } else {
            match got.json {
                None => BoardStep::Encode(
                    board(com_id_text, slot, owners@, got.readings@, tallies@),
                ),
                Some(None) => BoardStep::Fail(error(INTERNAL_SERVER_ERROR, "internal_error"@)),
                Some(Some(text)) => BoardStep::Serve { text: text@, built: true },
            }
        },
    }
}

/// How a request for a board goes on: out of the cache where it can, which is
/// looked at before anything is asked.
pub open spec fn leaderboard_step<'a>(
    com_id: ComId,
    com_id_text: Seq<char>,
    slot: i32,
    cache_life: u32,
    leaderboards: Map<u128, CachedView>,
    now: u32,
    got: &'a LeaderboardAnswers,
) -> BoardStep<'a> {
    match kept_board(leaderboards, slot_key(com_id@, slot) as u128, cache_life, now) {
        Some(text) if got.owners is None => BoardStep::Serve { text, built: false },
        _ => build_step(com_id, com_id_text, slot, got),
    }
}

/// The boards that are kept once a request has got this far. A board is kept
/// whole; a limit only trims the reply, so a request with a different limit is
/// served from the same entry.
pub open spec fn kept_boards(
    leaderboards: Map<u128, CachedView>,
    key: u128,
    now: u32,
    step: BoardStep,
) -> Map<u128, CachedView> {
    match step {
        BoardStep::Serve { text, built: true } => leaderboards.insert(
            key,
            CachedView { timestamp: now, response: bare(OK, text) },
        ),
        _ => leaderboards,
    }
}

fn find_board(
    entries: &HashMap<u128, CachedResponse>,
    key: u128,
    cache_life: u32,
    now: u32,
) -> (found: Option<String>)
    ensures
        match found {
            Some(text) => kept_board(entry_views(entries@), key, cache_life, now) == Some(text@),
            None => kept_board(entry_views(entries@), key, cache_life, now) is None,
        },
{
    let life: u32 = if cache_life > MINIMUM_CACHE_LIFE {
        cache_life
    } else {
        MINIMUM_CACHE_LIFE
    };
    match entries.get(&key) {
        Some(entry) => if entry.is_stale(now, life) {
            None
        } else {
            Some(entry.cached_response.body.clone())
        },
        None => None,
    }
}

impl StatServer {
    /// Every account of a title ordered by its best character's rank, cut down
    /// to the first `limit`.
    ///
    /// Served to everybody, like the other things there are to read: a rank is
    /// what the game shows to everyone in a lobby anyway.
    ///
    /// The ranks are not in any table - the title keeps them inside the save -
    /// so this reads every save of the title. That is a few megabytes for a
    /// population in the hundreds, but it is per request, so the result is kept
    /// like the score tables.
    pub fn handle_leaderboard_req<'a>(
        com_id: &ComId,
        com_id_text: &'a String,
        slot: i32,
        limit: u32,
        cache_life: u32,
        json_cache: &mut JsonCache,
        now: u32,
        got: &'a LeaderboardAnswers,
    ) -> (step: StatStep<'a>)
        ensures
            ({
                let before = old(json_cache)@;
                let stage = leaderboard_step(
                    *com_id,
                    com_id_text@,
                    slot,
                    cache_life,
                    before.leaderboards,
                    now,
                    got,
                );
                &&& match stage {
                    BoardStep::Ask(query) => step@ == StatStepView::<'a>::Ask(query),
                    BoardStep::Encode(document) => step@ == StatStepView::<'a>::Encode(document),
                    BoardStep::Fail(response) => step@ == StatStepView::<'a>::Respond(response),
                    BoardStep::Serve { text, .. } => step@ == StatStepView::<'a>::Respond(
                        json(OK, trimmed_text(text, limit)),
                    ),
                }
                &&& final(json_cache)@ == (JsonCacheView {
                    leaderboards: kept_boards(
                        before.leaderboards,
                        slot_key(com_id@, slot) as u128,
                        now,
                        stage,
                    ),
                    ..before
                })
            }),
            // Whatever board is served is the one that is kept from then on, whole,
            // and the reply holds what the limit leaves of it.
            step@ matches StatStepView::Respond(response) ==> response.status != 200 || (kept_board(
                final(json_cache)@.leaderboards,
                slot_key(com_id@, slot) as u128,
                cache_life,
                now,
            ) matches Some(text) && response == json(200, trimmed_text(text, limit))),
            forall|key: u128|
                key != slot_key(com_id@, slot) ==> final(json_cache)@.leaderboards.contains_key(key)
                    == old(json_cache)@.leaderboards.contains_key(key)
                    && #[trigger] final(json_cache)@.leaderboards[key]
                    == old(json_cache)@.leaderboards[key],
            final(json_cache)@.titles == old(json_cache)@.titles,
            final(json_cache)@.tables == old(json_cache)@.tables,
            final(json_cache)@.usage == old(json_cache)@.usage,
    {
        let key: u128 = pack_slot(com_id, slot);
        if got.owners.is_none() {
            if let Some(text) = find_board(&json_cache.leaderboard_cache, key, cache_life, now) {
                return StatStep::Respond(StatServer::trim_leaderboard(text, limit));
            }
        }
        let owners: &'a Vec<SlotOwner> = match &got.owners {
            None => return StatStep::Ask(StatQuery::SlotOwners { com_id: *com_id, slot }),
            Some(Err(_)) => return StatStep::Respond(
                StatServer::error_response(INTERNAL_SERVER_ERROR, "internal_error"),
            ),
            Some(Ok(owners)) => owners,
        };
        let tallies: &'a HashMap<i64, (u32, u32)> = match &got.tallies {
            None => return StatStep::Ask(StatQuery::MatchTallies { com_id: *com_id }),
            Some(Err(_)) => return StatStep::Respond(
                StatServer::error_response(INTERNAL_SERVER_ERROR, "internal_error"),
            ),
            Some(Ok(tallies)) => tallies,
        };
        let read: usize = got.readings.len();
        if read < owners.len() {
            return StatStep::Ask(
                StatQuery::ReadStanding { com_id: *com_id, data_id: owners[read].data_id },
            );
        }
        let text: String = match &got.json {
            None => return StatStep::Encode(
                Document::Leaderboard(
                    build_board(com_id_text, slot, owners, &got.readings, tallies),
                ),
            ),
            Some(None) => return StatStep::Respond(
                StatServer::error_response(INTERNAL_SERVER_ERROR, "internal_error"),
            ),
            Some(Some(text)) => text.clone(),
        };
        keep_answer(
            &mut json_cache.leaderboard_cache,
            key,
            MINIMUM_CACHE_LIFE,
            now,
            &HttpResponse::new(text.clone()),
        );
        StatStep::Respond(StatServer::trim_leaderboard(text, limit))
    }
}

/// The best character of an account is outranked by none, and what comes behind
/// it is not ranked as high.
pub proof fn law_best_character_is_the_last_of_the_highest(characters: Seq<CharacterRank>)
    requires
        characters.len() > 0,
    ensures
        exists|k: int|
            0 <= k < characters.len() && #[trigger] characters[k] == best_character(characters)
                && forall|i: int|
                k < i < characters.len() ==> outranks(characters[k], #[trigger] characters[i]),
        forall|i: int|
            0 <= i < characters.len() ==> !outranks(
                #[trigger] characters[i],
                best_character(characters),
            ),
    decreases characters.len(),
{
    let n = characters.len() - 1;
    if n == 0 {
        assert(characters[0] == best_character(characters));
    } else {
        let front = characters.drop_last();
        law_best_character_is_the_last_of_the_highest(front);
        let best = best_character(front);
        let k = choose|k: int|
            0 <= k < front.len() && #[trigger] front[k] == best && forall|i: int|
                k < i < front.len() ==> outranks(front[k], #[trigger] front[i]);
        assert(front[k] == characters[k]);
        assert forall|i: int| 0 <= i < characters.len() implies !outranks(
            #[trigger] characters[i],
            best_character(characters),
        ) by {
            if i < n {
                assert(characters[i] == front[i]);
            }
        }
        if outranks(best, characters.last()) {
            assert(characters[k] == best_character(characters));
            assert forall|i: int| k < i < characters.len() implies outranks(
                characters[k],
                #[trigger] characters[i],
            ) by {
                if i < n {
                    assert(characters[i] == front[i]);
                }
            }
        } else {
            assert(characters[n] == best_character(characters));
        }
    }
}

proof fn lemma_entries_len(
    owners: Seq<SlotOwner>,
    readings: Seq<SaveReading>,
    tallies: Map<i64, (u32, u32)>,
)
    ensures
        entries_for(owners, readings, tallies).len() <= owners.len(),
    decreases owners.len(),
{
    if owners.len() > 0 {
        lemma_entries_len(owners.drop_last(), readings, tallies);
    }
}

/// A board counts every account once, as ranked or as unreadable, lists all that
/// are ranked with the positions from one on, and is in order.
pub proof fn law_boards_are_complete_and_in_order(
    com_id_text: Seq<char>,
    slot: i32,
    owners: Seq<SlotOwner>,
    readings: Seq<SaveReading>,
    tallies: Map<i64, (u32, u32)>,
)
    requires
        owners.len() <= usize::MAX,
    ensures
        board(com_id_text, slot, owners, readings, tallies) matches DocumentView::Leaderboard {
            ranked_players,
            unreadable_saves,
            entries,
            ..
        } && {
            &&& ranked_players + unreadable_saves == owners.len()
            &&& entries.len() == ranked_players
            &&& forall|i: int| 0 <= i < entries.len() ==> (#[trigger] entries[i]).position == i + 1
            &&& is_in_order(entries)
        },
{
    let found = entries_for(owners, readings, tallies);
    lemma_entries_len(owners, readings, tallies);
    law_sorting_sorts(found);
    let sorted = in_order(found);
    let entries = numbered(sorted);
    assert forall|i: int, j: int| 0 <= i < j < entries.len() implies !(
    #[trigger] entries[j]).precedes(#[trigger] entries[i]) by {
        assert(!sorted[j].precedes(sorted[i]));
    }
}

/// Whether no two entries are of the same account.
pub open spec fn distinct_npids(entries: Seq<LeaderboardEntry>) -> bool {
    forall|i: int, j: int|
        0 <= i < j < entries.len() ==> (#[trigger] entries[i]).npid@ != (
        #[trigger] entries[j]).npid@
}

proof fn lemma_same_place_same_npid(a: LeaderboardEntry, b: LeaderboardEntry)
    requires
        !a.precedes(b),
        !b.precedes(a),
    ensures
        a.npid@ == b.npid@,
{
    lemma_bytes_before_total(encode_utf8(a.npid@), encode_utf8(b.npid@));
    encode_utf8_decode_utf8(a.npid@);
    encode_utf8_decode_utf8(b.npid@);
}

proof fn lemma_ordered_is_unique(x: Seq<LeaderboardEntry>, y: Seq<LeaderboardEntry>)
    requires
        is_in_order(x),
        is_in_order(y),
        x.to_multiset() == y.to_multiset(),
        distinct_npids(x),
    ensures
        x == y,
    decreases x.len(),
{
    broadcast use vstd::seq_lib::group_to_multiset_ensures;

    assert(x.to_multiset().len() == x.len());
    assert(y.to_multiset().len() == y.len());
    if x.len() == 0 {
        assert(x =~= y);
    } else {
        assert(y.to_multiset().contains(x[0])) by {
            assert(x.to_multiset().contains(x[0]));
        }
        assert(y.contains(x[0]));
        assert(x.contains(y[0])) by {
            assert(y.to_multiset().contains(y[0]));
            assert(x.to_multiset().contains(y[0]));
        }
        let j = choose|j: int| 0 <= j < y.len() && y[j] == x[0];
        let k = choose|k: int| 0 <= k < x.len() && x[k] == y[0];
        if j > 0 && k > 0 {
            assert(!y[j].precedes(y[0]));
            assert(!x[k].precedes(x[0]));
            lemma_same_place_same_npid(x[0], x[k]);
        }
        assert(x[0] == y[0]);
        let xs = x.skip(1);
        let ys = y.skip(1);
        assert(x =~= seq![x[0]] + xs);
        assert(y =~= seq![y[0]] + ys);
        vstd::seq_lib::lemma_multiset_commutative(seq![x[0]], xs);
        vstd::seq_lib::lemma_multiset_commutative(seq![y[0]], ys);
        let one = seq![x[0]].to_multiset();
        assert(xs.to_multiset() =~= x.to_multiset().sub(one));
        assert(ys.to_multiset() =~= y.to_multiset().sub(one));
        assert forall|a: int, b: int| 0 <= a < b < xs.len() implies !(
        #[trigger] xs[b]).precedes(#[trigger] xs[a]) by {
            assert(xs[b] == x[b + 1] && xs[a] == x[a + 1]);
        }
        assert forall|a: int, b: int| 0 <= a < b < ys.len() implies !(
        #[trigger] ys[b]).precedes(#[trigger] ys[a]) by {
            assert(ys[b] == y[b + 1] && ys[a] == y[a + 1]);
        }
        assert forall|a: int, b: int| 0 <= a < b < xs.len() implies (#[trigger] xs[a]).npid@ != (
        #[trigger] xs[b]).npid@ by {
            assert(xs[b] == x[b + 1] && xs[a] == x[a + 1]);
        }
        lemma_ordered_is_unique(xs, ys);
    }
}

/// The accounts, each with what reading its save gave.
pub open spec fn standings(owners: Seq<SlotOwner>, readings: Seq<SaveReading>) -> Seq<
    (SlotOwner, SaveReading),
> {
    Seq::new(owners.len(), |i: int| (owners[i], readings[i]))
}

/// Whether no two accounts of a list have the same npid.
pub open spec fn distinct_owners(owners: Seq<SlotOwner>) -> bool {
    forall|i: int, j: int|
        0 <= i < j < owners.len() ==> (#[trigger] owners[i]).npid@ != (#[trigger] owners[j]).npid@
}

proof fn lemma_entries_without(
    owners: Seq<SlotOwner>,
    readings: Seq<SaveReading>,
    tallies: Map<i64, (u32, u32)>,
    k: int,
)
    requires
        0 <= k < owners.len(),
        readings.len() == owners.len(),
    ensures
        entries_for(owners, readings, tallies).to_multiset() == (match entry_for(
            owners[k],
            readings[k],
            tallies,
        ) {
            Some(entry) => entries_for(
                owners.remove(k),
                readings.remove(k),
                tallies,
            ).to_multiset().insert(entry),
            None => entries_for(owners.remove(k), readings.remove(k), tallies).to_multiset(),
        }),
    decreases owners.len(),
{
    broadcast use vstd::seq_lib::group_to_multiset_ensures;

    let n = owners.len() - 1;
    lemma_entries_prefix(owners.drop_last(), readings, readings.drop_last(), tallies);
    if k == n {
        assert(owners.remove(k) =~= owners.drop_last());
        assert(readings.remove(k) =~= readings.drop_last());
    } else {
        lemma_entries_without(owners.drop_last(), readings.drop_last(), tallies, k);
        let o = owners.remove(k);
        let r = readings.remove(k);
        assert(o.drop_last() =~= owners.drop_last().remove(k));
        assert(r.drop_last() =~= readings.drop_last().remove(k));
        assert(o.last() == owners.last());
        assert(r[o.len() - 1] == readings[n]);
        lemma_entries_prefix(o.drop_last(), r, r.drop_last(), tallies);
        let left = entries_for(owners, readings, tallies).to_multiset();
        let rest = entries_for(o, r, tallies).to_multiset();
        match entry_for(owners[k], readings[k], tallies) {
            Some(entry) => {
                assert(left =~= rest.insert(entry));
            },
            None => {
                assert(left =~= rest);
            },
        }
    }
}

proof fn lemma_entries_prefix(
    owners: Seq<SlotOwner>,
    a: Seq<SaveReading>,
    b: Seq<SaveReading>,
    tallies: Map<i64, (u32, u32)>,
)
    requires
        forall|i: int| 0 <= i < owners.len() ==> #[trigger] a[i] == b[i],
    ensures
        entries_for(owners, a, tallies) == entries_for(owners, b, tallies),
    decreases owners.len(),
{
    if owners.len() > 0 {
        lemma_entries_prefix(owners.drop_last(), a, b, tallies);
        assert(a[owners.len() - 1] == b[owners.len() - 1]);
    }
}

proof fn lemma_same_entries(
    owners_a: Seq<SlotOwner>,
    readings_a: Seq<SaveReading>,
    owners_b: Seq<SlotOwner>,
    readings_b: Seq<SaveReading>,
    tallies: Map<i64, (u32, u32)>,
)
    requires
        readings_a.len() == owners_a.len(),
        readings_b.len() == owners_b.len(),
        standings(owners_a, readings_a).to_multiset() == standings(
            owners_b,
            readings_b,
        ).to_multiset(),
    ensures
        entries_for(owners_a, readings_a, tallies).to_multiset() == entries_for(
            owners_b,
            readings_b,
            tallies,
        ).to_multiset(),
    decreases owners_a.len(),
{
    broadcast use vstd::seq_lib::group_to_multiset_ensures;

    let a = standings(owners_a, readings_a);
    let b = standings(owners_b, readings_b);
    assert(a.to_multiset().len() == a.len());
    assert(b.to_multiset().len() == b.len());
    if a.len() > 0 {
        let n = a.len() - 1;
        assert(a.to_multiset().contains(a[n]));
        assert(b.to_multiset().contains(a[n]));
        assert(b.contains(a[n]));
        let k = choose|k: int| 0 <= k < b.len() && b[k] == a[n];
        assert(owners_b[k] == owners_a[n] && readings_b[k] == readings_a[n]);
        assert(standings(owners_a.remove(n), readings_a.remove(n)) =~= a.remove(n));
        assert(standings(owners_b.remove(k), readings_b.remove(k)) =~= b.remove(k));
        assert(a.remove(n).to_multiset() =~= a.to_multiset().remove(a[n]));
        assert(b.remove(k).to_multiset() =~= b.to_multiset().remove(b[k]));
        lemma_same_entries(
            owners_a.remove(n),
            readings_a.remove(n),
            owners_b.remove(k),
            readings_b.remove(k),
            tallies,
        );
        lemma_entries_without(owners_a, readings_a, tallies, n);
        lemma_entries_without(owners_b, readings_b, tallies, k);
    }
}

proof fn lemma_entries_npids(
    owners: Seq<SlotOwner>,
    readings: Seq<SaveReading>,
    tallies: Map<i64, (u32, u32)>,
)
    requires
        distinct_owners(owners),
    ensures
        distinct_npids(entries_for(owners, readings, tallies)),
        forall|i: int|
            0 <= i < entries_for(owners, readings, tallies).len() ==> exists|k: int|
                0 <= k < owners.len() && (#[trigger] owners[k]).npid@ == (
                #[trigger] entries_for(owners, readings, tallies)[i]).npid@,
    decreases owners.len(),
{
    let entries = entries_for(owners, readings, tallies);
    if owners.len() > 0 {
        let n = owners.len() - 1;
        let front = owners.drop_last();
        let before = entries_for(front, readings, tallies);
        assert forall|i: int, j: int| 0 <= i < j < front.len() implies (
        #[trigger] front[i]).npid@ != (#[trigger] front[j]).npid@ by {
            assert(front[i] == owners[i] && front[j] == owners[j]);
        }
        lemma_entries_npids(front, readings, tallies);
        assert forall|i: int| 0 <= i < entries.len() implies exists|k: int|
            0 <= k < owners.len() && (#[trigger] owners[k]).npid@ == (
            #[trigger] entries[i]).npid@ by {
            if i < before.len() {
                assert(entries[i] == before[i]);
                let k = choose|k: int|
                    0 <= k < front.len() && (#[trigger] front[k]).npid@ == before[i].npid@;
                assert(owners[k] == front[k]);
            } else {
                assert(owners[n].npid@ == entries[i].npid@);
            }
        }
        assert forall|i: int, j: int| 0 <= i < j < entries.len() implies (
        #[trigger] entries[i]).npid@ != (#[trigger] entries[j]).npid@ by {
            assert(entries[i] == before[i]);
            if j < before.len() {
                assert(entries[j] == before[j]);
            } else {
                let k = choose|k: int|
                    0 <= k < front.len() && (#[trigger] front[k]).npid@ == before[i].npid@;
                assert(owners[k] == front[k]);
            }
        }
    }
}

proof fn lemma_distinct_is_kept(x: Seq<LeaderboardEntry>, y: Seq<LeaderboardEntry>)
    requires
        x.to_multiset() == y.to_multiset(),
        distinct_npids(x),
    ensures
        distinct_npids(y),
{
    broadcast use vstd::seq_lib::group_to_multiset_ensures;

    assert forall|i: int, j: int| 0 <= i < j < y.len() implies (#[trigger] y[i]).npid@ != (
    #[trigger] y[j]).npid@ by {
        if y[i].npid@ == y[j].npid@ {
            assert(y.to_multiset().contains(y[i]) && y.to_multiset().contains(y[j]));
            assert(x.contains(y[i]) && x.contains(y[j]));
            let p = choose|p: int| 0 <= p < x.len() && x[p] == y[i];
            let q = choose|q: int| 0 <= q < x.len() && x[q] == y[j];
            assert(p == q);
            assert(y[i] == y[j]);
            lemma_twice_in_multiset(y, i, j);
            lemma_count_without(x, p);
            assert(!x.remove(p).contains(x[p])) by {
                if x.remove(p).contains(x[p]) {
                    let r = choose|r: int| 0 <= r < x.remove(p).len() && x.remove(p)[r] == x[p];
                    let r2 = if r < p {
                        r
                    } else {
                        r + 1
                    };
                    assert(x[r2] == x[p]);
                }
            }
        }
    }
}

proof fn lemma_count_without(x: Seq<LeaderboardEntry>, p: int)
    requires
        0 <= p < x.len(),
    ensures
        x.to_multiset().count(x[p]) == x.remove(p).to_multiset().count(x[p]) + 1,
        x.remove(p).contains(x[p]) <==> x.remove(p).to_multiset().count(x[p]) > 0,
{
    broadcast use vstd::seq_lib::group_to_multiset_ensures;

    assert(x =~= x.remove(p).insert(p, x[p]));
}

proof fn lemma_twice_in_multiset(y: Seq<LeaderboardEntry>, i: int, j: int)
    requires
        0 <= i < j < y.len(),
        y[i] == y[j],
    ensures
        y.to_multiset().count(y[i]) >= 2,
{
    lemma_count_without(y, j);
    assert(y.remove(j)[i] == y[i]);
}

/// Two requests that see the same data produce the same board, in whatever
/// order the database lists the accounts.
pub proof fn law_same_data_same_board(
    com_id_text: Seq<char>,
    slot: i32,
    owners_a: Seq<SlotOwner>,
    readings_a: Seq<SaveReading>,
    owners_b: Seq<SlotOwner>,
    readings_b: Seq<SaveReading>,
    tallies: Map<i64, (u32, u32)>,
)
    requires
        readings_a.len() == owners_a.len(),
        readings_b.len() == owners_b.len(),
        standings(owners_a, readings_a).to_multiset() == standings(
            owners_b,
            readings_b,
        ).to_multiset(),
        distinct_owners(owners_a),
    ensures
        board(com_id_text, slot, owners_a, readings_a, tallies) == board(
            com_id_text,
            slot,
            owners_b,
            readings_b,
            tallies,
        ),
{
    broadcast use vstd::seq_lib::group_to_multiset_ensures;

    let a = entries_for(owners_a, readings_a, tallies);
    let b = entries_for(owners_b, readings_b, tallies);
    lemma_same_entries(owners_a, readings_a, owners_b, readings_b, tallies);
    lemma_entries_npids(owners_a, readings_a, tallies);
    law_sorting_sorts(a);
    law_sorting_sorts(b);
    lemma_distinct_is_kept(a, in_order(a));
    lemma_ordered_is_unique(in_order(a), in_order(b));
    let sa = standings(owners_a, readings_a);
    let sb = standings(owners_b, readings_b);
    assert(sa.to_multiset().len() == sa.len());
    assert(sb.to_multiset().len() == sb.len());
    assert(sa.len() == owners_a.len() && sb.len() == owners_b.len());
    assert(a.to_multiset().len() == a.len());
    assert(b.to_multiset().len() == b.len());
}

/// A board that was built is served again, whole but for the limit of each
/// request, until its time is over, which is never sooner than the least life.
/// What is kept for other slots is not touched by it.
pub proof fn law_boards_are_served_while_fresh(
    leaderboards: Map<u128, CachedView>,
    key: u128,
    other: u128,
    cache_life: u32,
    built: u32,
    now: u32,
    text: Seq<char>,
)
    ensures
        board_life(cache_life) >= MINIMUM_CACHE_LIFE,
        ({
            let kept = kept_boards(
                leaderboards,
                key,
                built,
                BoardStep::Serve { text, built: true },
            );
            &&& now <= built + board_life(cache_life) ==> kept_board(kept, key, cache_life, now)
                == Some(text)
            &&& now > built + board_life(cache_life) ==> kept_board(kept, key, cache_life, now)
                is None
            &&& other != key ==> kept_board(kept, other, cache_life, now) == kept_board(
                leaderboards,
                other,
                cache_life,
                now,
            )
        }),
{
}

} // verus!
