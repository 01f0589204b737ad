//! What boards hold and how requests for them go on, told by what the host
//! answered alone.

use crate::com_id::ComId;
use crate::stat_server::cache::{slot_key, CachedView};
use crate::stat_server::http::ResponseView;
use crate::stat_server::leaderboard::{
    best_character, board, bytes_before, entries_for, entry_for, kept_board, kept_boards,
    law_best_character_is_the_last_of_the_highest, law_boards_are_complete_and_in_order,
    leaderboard_step, numbered, BoardStep, LeaderboardAnswers, SaveReading, SlotOwner,
};
use crate::stat_server::order::{in_order, law_sorting_sorts};
use crate::stat_server::scores::{
    board_step, board_text, boards_step, boards_text, BoardAnswers, BoardsAnswers, ScoreBoard,
};
use crate::stat_server::types::{
    CharacterRank, DocumentView, LeaderboardEntry, StatQuery, StatStepView,
};
use vstd::prelude::*;
use vstd::utf8::*;

verus! {

/// Whether `a` goes in front of `b` or is the same, byte by byte: it is the start
/// of `b`, or the first byte in which they differ is the smaller one.
pub open spec fn is_not_behind(a: Seq<u8>, b: Seq<u8>) -> bool {
    exists|k: int|
        {
            &&& 0 <= k <= a.len()
            &&& k <= b.len()
            &&& #[trigger] a.take(k) == b.take(k)
            &&& k == a.len() || (k < b.len() && a[k] < b[k])
        }
}

proof fn lemma_not_behind(a: Seq<u8>, b: Seq<u8>)
    requires
        !bytes_before(b, a),
    ensures
        is_not_behind(a, b),
    decreases a.len(),
{
    if a.len() == 0 || b.len() == 0 || a[0] != b[0] {
        assert(a.take(0) =~= b.take(0));
    } else {
        let x = a.skip(1);
        let y = b.skip(1);
        lemma_not_behind(x, y);
        let k = choose|k: int|
            {
                &&& 0 <= k <= x.len()
                &&& k <= y.len()
                &&& #[trigger] x.take(k) == y.take(k)
                &&& k == x.len() || (k < y.len() && x[k] < y[k])
            };
        assert(a.take(k + 1) =~= seq![a[0]] + x.take(k));
        assert(b.take(k + 1) =~= seq![b[0]] + y.take(k));
        assert(a.take(k + 1) == b.take(k + 1));
    }
}

/// Whether the first of two entries stands where it belongs: the higher rank
/// first, then the more points, then the more wins, and then by the npid.
pub open spec fn stands_first(a: LeaderboardEntry, b: LeaderboardEntry) -> bool {
    &&& a.best_rank >= b.best_rank
    &&& a.best_rank == b.best_rank ==> {
        &&& a.best_rank_points >= b.best_rank_points
        &&& a.best_rank_points == b.best_rank_points ==> {
            &&& a.record.wins >= b.record.wins
            &&& a.record.wins == b.record.wins ==> is_not_behind(
                encode_utf8(a.npid@),
                encode_utf8(b.npid@),
            )
        }
    }
}

/// A leaderboard is ordered by rank, the highest first; points decide only
/// between equal ranks, wins only between equal points, and the npid only between
/// equal wins. Positions count from one.
pub proof fn law_leaderboards_are_ordered(
    com_id_text: Seq<char>,
    slot: i32,
    owners: Seq<SlotOwner>,
    readings: Seq<SaveReading>,
    tallies: Map<i64, (u32, u32)>,
)
    requires
        owners.len() <= usize::MAX,
    ensures
        board(com_id_text, slot, owners, readings, tallies) matches DocumentView::Leaderboard {
            entries,
            ..
        } && {
            &&& forall|i: int, j: int|
                0 <= i < j < entries.len() ==> stands_first(
                    #[trigger] entries[i],
                    #[trigger] entries[j],
                )
            &&& forall|i: int| 0 <= i < entries.len() ==> (#[trigger] entries[i]).position == i + 1
        },
{
    law_boards_are_complete_and_in_order(com_id_text, slot, owners, readings, tallies);
    let entries = board(com_id_text, slot, owners, readings, tallies)->Leaderboard_entries;
    assert forall|i: int, j: int| 0 <= i < j < entries.len() implies stands_first(
        #[trigger] entries[i],
        #[trigger] entries[j],
    ) by {
        let (a, b) = (encode_utf8(entries[i].npid@), encode_utf8(entries[j].npid@));
        if !bytes_before(b, a) {
            lemma_not_behind(a, b);
        }
    }
}

/// Whether a rank and points are the best that a save holds, and belong to
/// `character`. Of several that are equal, the last one counts.
pub open spec fn is_best(
    rank: u8,
    points: u16,
    character: usize,
    characters: Seq<CharacterRank>,
) -> bool {
    exists|b: int|
        {
            &&& 0 <= b < characters.len()
            &&& #[trigger] characters[b] == (CharacterRank { character, rank, rank_points: points })
            &&& forall|i: int|
                0 <= i < characters.len() ==> {
                    &&& (#[trigger] characters[i]).rank <= rank
                    &&& characters[i].rank == rank ==> characters[i].rank_points <= points
                    &&& i > b ==> characters[i].rank < rank || characters[i].rank_points < points
                }
        }
}

/// Whether a save could be read and holds the ranks of somebody.
pub open spec fn is_readable(reading: SaveReading) -> bool {
    reading matches SaveReading::Ranks { characters, .. } && characters@.len() > 0
}

/// Whether an entry is the one of an account: under its names, with the best of
/// the ranks in its save, the wins and losses that the save tells of, and those
/// that the server counted. Where either is missing it counts as none.
pub open spec fn is_entry_of(
    entry: LeaderboardEntry,
    owner: SlotOwner,
    reading: SaveReading,
    tallies: Map<i64, (u32, u32)>,
) -> bool {
    &&& entry.npid@ == owner.npid@
    &&& entry.online_name@ == owner.online_name@
    &&& reading matches SaveReading::Ranks { characters, record } && {
        &&& is_best(
            entry.best_rank,
            entry.best_rank_points,
            entry.best_character,
            characters@,
        )
        &&& match record {
            Some((wins, losses)) => entry.record.wins == wins && entry.record.losses == losses,
            None => entry.record.wins == 0 && entry.record.losses == 0,
        }
    }
    &&& if tallies.contains_key(owner.user_id) {
        &&& entry.server_record.wins == tallies[owner.user_id].0
        &&& entry.server_record.losses == tallies[owner.user_id].1
    } else {
        entry.server_record.wins == 0 && entry.server_record.losses == 0
    }
}

proof fn lemma_entry_for(
    owner: SlotOwner,
    reading: SaveReading,
    tallies: Map<i64, (u32, u32)>,
)
    ensures
        is_readable(reading) <==> entry_for(owner, reading, tallies) is Some,
        entry_for(owner, reading, tallies) matches Some(entry) ==> is_entry_of(
            entry,
            owner,
            reading,
            tallies,
        ),
{
    if is_readable(reading) {
        let characters = reading->characters@;
        let best = best_character(characters);
        law_best_character_is_the_last_of_the_highest(characters);
        assert(is_best(best.rank, best.rank_points, best.character, characters));
    }
}

/// Whether `places` are the places of the accounts whose saves could be read, in
/// their order.
pub open spec fn are_readable_places(
    places: Seq<int>,
    owners: Seq<SlotOwner>,
    readings: Seq<SaveReading>,
) -> bool {
    &&& forall|i: int, j: int|
        0 <= i < j < places.len() ==> #[trigger] places[i] < #[trigger] places[j]
    &&& forall|i: int|
        0 <= i < places.len() ==> 0 <= #[trigger] places[i] < owners.len() && is_readable(
            readings[places[i]],
        )
    &&& forall|k: int|
        0 <= k < owners.len() && is_readable(#[trigger] readings[k]) ==> places.contains(k)
}

proof fn lemma_entries_for(
    owners: Seq<SlotOwner>,
    readings: Seq<SaveReading>,
    tallies: Map<i64, (u32, u32)>,
) -> (places: Seq<int>)
    requires
        owners.len() <= readings.len(),
    ensures
        are_readable_places(places, owners, readings),
        places.len() == entries_for(owners, readings, tallies).len(),
        forall|i: int|
            0 <= i < places.len() ==> is_entry_of(
                entries_for(owners, readings, tallies)[i],
                owners[#[trigger] places[i]],
                readings[places[i]],
                tallies,
            ),
    decreases owners.len(),
{
    if owners.len() == 0 {
        Seq::empty()
    } else {
        let n = owners.len() - 1;
        let front = owners.drop_last();
        let before = lemma_entries_for(front, readings, tallies);
        let told = entries_for(front, readings, tallies);
        lemma_entry_for(owners[n], readings[n], tallies);
        let places = if is_readable(readings[n]) {
            before.push(n)
        } else {
            before
        };
        assert forall|k: int|
            0 <= k < owners.len() && is_readable(#[trigger] readings[k]) implies places.contains(
            k,
        ) by {
            if k < n {
                assert(before.contains(k));
                let i = choose|i: int| 0 <= i < before.len() && before[i] == k;
                assert(places[i] == k);
            } else {
                assert(places[places.len() - 1] == k);
            }
        }
        assert forall|i: int| 0 <= i < places.len() implies is_entry_of(
            entries_for(owners, readings, tallies)[i],
            owners[#[trigger] places[i]],
            readings[places[i]],
            tallies,
        ) by {
            if i < before.len() {
                assert(places[i] == before[i]);
                assert(front[before[i]] == owners[before[i]]);
                assert(entries_for(owners, readings, tallies)[i] == told[i]);
            }
        }
        places
    }
}

/// Whether an entry is of some account of a list.
pub open spec fn is_of_an_account(
    entry: LeaderboardEntry,
    owners: Seq<SlotOwner>,
    readings: Seq<SaveReading>,
    tallies: Map<i64, (u32, u32)>,
) -> bool {
    exists|k: int|
        0 <= k < owners.len() && is_entry_of(entry, #[trigger] owners[k], readings[k], tallies)
}

/// Whether each entry is of an account.
pub open spec fn all_are_of_accounts(
    entries: Seq<LeaderboardEntry>,
    owners: Seq<SlotOwner>,
    readings: Seq<SaveReading>,
    tallies: Map<i64, (u32, u32)>,
) -> bool {
    forall|i: int|
        0 <= i < entries.len() ==> is_of_an_account(
            #[trigger] entries[i],
            owners,
            readings,
            tallies,
        )
}

/// Whether each account whose save could be read has an entry.
pub open spec fn all_readable_are_told(
    entries: Seq<LeaderboardEntry>,
    owners: Seq<SlotOwner>,
    readings: Seq<SaveReading>,
    tallies: Map<i64, (u32, u32)>,
) -> bool {
    forall|k: int|
        0 <= k < owners.len() && is_readable(#[trigger] readings[k]) ==> exists|i: int|
            0 <= i < entries.len() && is_entry_of(
                #[trigger] entries[i],
                owners[k],
                readings[k],
                tallies,
            )
}

proof fn lemma_sorted_entries(
    found: Seq<LeaderboardEntry>,
    places: Seq<int>,
    owners: Seq<SlotOwner>,
    readings: Seq<SaveReading>,
    tallies: Map<i64, (u32, u32)>,
)
    requires
        are_readable_places(places, owners, readings),
        places.len() == found.len(),
        forall|i: int|
            0 <= i < places.len() ==> is_entry_of(
                found[i],
                owners[#[trigger] places[i]],
                readings[places[i]],
                tallies,
            ),
    ensures
        all_are_of_accounts(numbered(in_order(found)), owners, readings, tallies),
        all_readable_are_told(numbered(in_order(found)), owners, readings, tallies),
{
    broadcast use vstd::seq_lib::group_to_multiset_ensures;

    law_sorting_sorts(found);
    let sorted = in_order(found);
    let entries = numbered(sorted);
    assert forall|i: int| 0 <= i < entries.len() implies is_of_an_account(
        #[trigger] entries[i],
        owners,
        readings,
        tallies,
    ) by {
        assert(sorted.to_multiset().contains(sorted[i]));
        assert(found.to_multiset().contains(sorted[i]));
        assert(found.contains(sorted[i]));
        let p = choose|p: int| 0 <= p < found.len() && found[p] == sorted[i];
        let k = places[p];
        assert(is_entry_of(found[p], owners[k], readings[k], tallies));
        assert(is_entry_of(entries[i], owners[k], readings[k], tallies));
    }
    assert forall|k: int|
        0 <= k < owners.len() && is_readable(#[trigger] readings[k]) implies exists|i: int|
        0 <= i < entries.len() && is_entry_of(
            #[trigger] entries[i],
            owners[k],
            readings[k],
            tallies,
        ) by {
        assert(places.contains(k));
        let p = choose|p: int| 0 <= p < places.len() && places[p] == k;
        assert(is_entry_of(found[p], owners[places[p]], readings[places[p]], tallies));
        assert(found.to_multiset().contains(found[p]));
        assert(sorted.to_multiset().contains(found[p]));
        assert(sorted.contains(found[p]));
        let i = choose|i: int| 0 <= i < sorted.len() && sorted[i] == found[p];
        assert(is_entry_of(entries[i], owners[k], readings[k], tallies));
    }
}

/// A leaderboard is of the title and slot that were asked for. It has an entry for
/// every account whose save could be read, each entry is of such an account, and
/// there are as many. The other accounts are counted as unreadable.
pub proof fn law_leaderboards_tell_of_every_readable_save(
    com_id_text: Seq<char>,
    slot: i32,
    owners: Seq<SlotOwner>,
    readings: Seq<SaveReading>,
    tallies: Map<i64, (u32, u32)>,
)
    requires
        owners.len() <= readings.len(),
    ensures
        board(com_id_text, slot, owners, readings, tallies) matches DocumentView::Leaderboard {
            com_id,
            slot: of_slot,
            ranked_players,
            unreadable_saves,
            entries,
        } && {
            &&& com_id == com_id_text
            &&& of_slot == slot
            &&& entries.len() == ranked_players
            &&& ranked_players + unreadable_saves == owners.len()
            &&& exists|places: Seq<int>|
                places.len() == ranked_players && #[trigger] are_readable_places(
                    places,
                    owners,
                    readings,
                )
            &&& all_are_of_accounts(entries, owners, readings, tallies)
            &&& all_readable_are_told(entries, owners, readings, tallies)
        },
{
    let found = entries_for(owners, readings, tallies);
    let places = lemma_entries_for(owners, readings, tallies);
    law_sorting_sorts(found);
    lemma_places_fit(places, owners, readings);
    lemma_sorted_entries(found, places, owners, readings, tallies);
}

proof fn lemma_places_fit(places: Seq<int>, owners: Seq<SlotOwner>, readings: Seq<SaveReading>)
    requires
        are_readable_places(places, owners, readings),
    ensures
        places.len() <= owners.len(),
{
    lemma_increasing(places, places.len() as int);
}

proof fn lemma_increasing(places: Seq<int>, n: int)
    requires
        0 <= n <= places.len(),
        forall|i: int, j: int|
            0 <= i < j < places.len() ==> #[trigger] places[i] < #[trigger] places[j],
        forall|i: int| 0 <= i < places.len() ==> 0 <= #[trigger] places[i],
    ensures
        n > 0 ==> places[n - 1] >= n - 1,
    decreases n,
{
    if n > 1 {
        lemma_increasing(places, n - 1);
        assert(places[n - 2] < places[n - 1]);
    }
}

/// Whether a response reports that the server failed.
pub open spec fn is_internal_error(response: ResponseView) -> bool {
    &&& response.status == 500
    &&& response.json
    &&& !response.cross_origin
    &&& !response.preflight
    &&& response.body == "{\"error\":\""@ + "internal_error"@ + "\"}"@
}

/// Whether a board that was built at `built` is still served: for as many seconds
/// as answers are kept, and for thirty at least.
pub open spec fn is_still_served(built: u32, cache_life: u32, now: u32) -> bool {
    now <= built + 30 || now <= built + cache_life
}

/// A request for a leaderboard, step by step. A board that is still fresh is
/// served at once. Otherwise the accounts of the slot are asked for, then what
/// the server counted, then the save of each account in their order, and then the
/// board is written and served.
pub proof fn law_requests_for_leaderboards(
    com_id: ComId,
    com_id_text: Seq<char>,
    slot: i32,
    cache_life: u32,
    leaderboards: Map<u128, CachedView>,
    now: u32,
    got: LeaderboardAnswers,
)
    ensures
        ({
            let key = slot_key(com_id@, slot) as u128;
            let fresh = leaderboards.contains_key(key) && is_still_served(
                leaderboards[key].timestamp,
                cache_life,
                now,
            );
            let listed = got.owners matches Some(Ok(_));
            let counted = listed && (got.tallies matches Some(Ok(_)));
            let owners = got.owners->0->Ok_0@;
            let read = got.readings@.len();
            let complete = counted && read >= owners.len();
            match leaderboard_step(
                com_id,
                com_id_text,
                slot,
                cache_life,
                leaderboards,
                now,
                &got,
            ) {
                BoardStep::Ask(StatQuery::SlotOwners { com_id: of, slot: of_slot }) => {
                    &&& got.owners is None
                    &&& !fresh
                    &&& of == com_id
                    &&& of_slot == slot
                },
                BoardStep::Ask(StatQuery::MatchTallies { com_id: of }) => {
                    &&& listed
                    &&& got.tallies is None
                    &&& of == com_id
                },
                BoardStep::Ask(StatQuery::ReadStanding { com_id: of, data_id }) => {
                    &&& counted
                    &&& read < owners.len()
                    &&& of == com_id
                    &&& data_id == owners[read as int].data_id
                },
                BoardStep::Ask(_) => false,
                BoardStep::Encode(document) => {
                    &&& complete
                    &&& got.json is None
                    &&& document == board(
                        com_id_text,
                        slot,
                        owners,
                        got.readings@,
                        got.tallies->0->Ok_0@,
                    )
                },
                BoardStep::Fail(response) => {
                    &&& is_internal_error(response)
                    &&& ({
                        ||| got.owners matches Some(Err(_))
                        ||| listed && (got.tallies matches Some(Err(_)))
                        ||| complete && got.json == Some(None::<String>)
                    })
                },
                BoardStep::Serve { text, built } => if built {
                    complete && (got.json matches Some(Some(written)) && text == written@)
                } else {
                    got.owners is None && fresh && text == leaderboards[key].response.body
                },
            }
        }),
{
}

/// A board is kept once it has been built, as it was built and from then on. A
/// board that was served again, or is not there yet, changes nothing of what is
/// kept, and no board changes what is kept of another.
pub proof fn law_built_leaderboards_are_kept(
    leaderboards: Map<u128, CachedView>,
    key: u128,
    other: u128,
    cache_life: u32,
    built: u32,
    now: u32,
    step: BoardStep,
)
    ensures
        ({
            let kept = kept_boards(leaderboards, key, built, step);
            match step {
                BoardStep::Serve { text, built: true } => {
                    &&& kept_board(kept, key, cache_life, now) == (if is_still_served(
                        built,
                        cache_life,
                        now,
                    ) {
                        Some(text)
                    } else {
                        None
                    })
                    &&& other != key ==> kept.contains_key(other) == leaderboards.contains_key(
                        other,
                    ) && kept[other] == leaderboards[other]
                },
                _ => kept == leaderboards,
            }
        }),
{
}

/// The score boards of a title come by their ids, the smallest first, and none is
/// lost or made up.
pub proof fn law_score_boards_come_by_their_ids(boards: Seq<ScoreBoard>)
    ensures
        ({
            let sorted = in_order(boards);
            &&& sorted.len() == boards.len()
            &&& sorted.to_multiset() == boards.to_multiset()
            &&& forall|i: int, j: int|
                0 <= i < j < sorted.len() ==> (#[trigger] sorted[i]).board_id <= (
                #[trigger] sorted[j]).board_id
        }),
{
    law_sorting_sorts(boards);
}

/// Whether a question asks for all that a board ranks, from the first on, with
/// the comments and the info blobs.
pub open spec fn asks_for_all_of(query: StatQuery, of: ComId, board: ScoreBoard) -> bool {
    query matches StatQuery::ScoreRange {
        com_id,
        board_id,
        start,
        count,
        with_comments,
        with_infos,
    } && {
        &&& com_id == of
        &&& board_id == board.board_id
        &&& start == 1
        &&& count == board.table_infos.rank_limit
        &&& with_comments
        &&& with_infos
    }
}

/// Whether a response is a JSON text that reports success.
pub open spec fn is_json_answer(response: ResponseView, body: Seq<char>) -> bool {
    &&& response.status == 200
    &&& response.json
    &&& !response.cross_origin
    &&& !response.preflight
    &&& response.body == body
}

/// A request for all score boards of a title, step by step. The boards are asked
/// for, then the scores of each, by their ids, and then all are told, each with
/// the scores that were found for it.
pub proof fn law_requests_for_score_boards(com_id: ComId, got: BoardsAnswers)
    ensures
        ({
            let sorted = in_order(got.boards->0@);
            let shown = got.ranges@.len();
            match boards_step(com_id, &got) {
                StatStepView::Ask(StatQuery::ScoreBoards { com_id: of }) => got.boards is None && of
                    == com_id,
                StatStepView::Ask(query) => {
                    &&& got.boards is Some
                    &&& shown < sorted.len()
                    &&& asks_for_all_of(query, com_id, sorted[shown as int])
                },
                StatStepView::Encode(_) => false,
                StatStepView::Respond(response) => {
                    &&& got.boards is Some
                    &&& shown >= sorted.len()
                    &&& is_json_answer(response, boards_text(sorted, got.ranges@))
                },
            }
        }),
{
}

/// A request for one score board, step by step. Its scores are asked for, and
/// then it is told with them.
pub proof fn law_requests_for_a_score_board(com_id: ComId, board: ScoreBoard, got: BoardAnswers)
    ensures
        match board_step(com_id, board, &got) {
            StatStepView::Ask(query) => got.range is None && asks_for_all_of(query, com_id, board),
            StatStepView::Encode(_) => false,
            StatStepView::Respond(response) => got.range matches Some(range) && is_json_answer(
                response,
                board_text(range, board.board_id, board.table_infos),
            ),
        },
{
}

} // verus!
