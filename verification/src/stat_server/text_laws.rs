//! What the JSON texts of the stat server tell: which value stands under which
//! name, and how a list grows with each of its entries.

use crate::stat_server::json::{flat, joined, mark};
use crate::stat_server::matches::{match_text, matches_text, DbMatchRecord};
use crate::stat_server::rooms::{
    member_text, members_text, room_text, room_texts, rooms_of, rooms_text, Room, RoomUser,
    OWNER_FLAG,
};
use crate::stat_server::scores::{
    board_text, boards_text, score_text, scores_text, DbBoardInfo, GetScoreResultCache, ScoreBoard,
};
use crate::stat_server::usage::{
    has_players, has_users, hints_text, player_text, players_id_text, players_text, psn_game_text,
    psn_games_text, section_text, ticket_game_text, ticket_games_text, usage_text, GameTracker,
    TicketGame, TrackedGame, TrackedPlayer,
};
use crate::text::{decimal, hex, sanitized};
use vstd::prelude::*;

verus! {

/// Whether `value` stands in a text between the marks `label` and `next`.
pub open spec fn stands_between(
    text: Seq<char>,
    label: Seq<char>,
    value: Seq<char>,
    next: Seq<char>,
) -> bool {
    exists|before: Seq<char>, behind: Seq<char>|
        text == #[trigger] (before + label + value + next + behind)
}

broadcast proof fn lemma_stands_at_the_end(
    before: Seq<char>,
    label: Seq<char>,
    value: Seq<char>,
    next: Seq<char>,
)
    ensures
        #[trigger] stands_between(before + label + value + next, label, value, next),
{
    let text = before + label + value + next;
    assert(text =~= before + label + value + next + Seq::<char>::empty());
}

broadcast proof fn lemma_stands_alone(label: Seq<char>, value: Seq<char>, next: Seq<char>)
    ensures
        #[trigger] stands_between(label + value + next, label, value, next),
{
    let nothing = Seq::<char>::empty();
    assert(label + value + next =~= nothing + label + value + next + nothing);
}

broadcast proof fn lemma_stands_still(
    text: Seq<char>,
    more: Seq<char>,
    label: Seq<char>,
    value: Seq<char>,
    next: Seq<char>,
)
    requires
        stands_between(text, label, value, next),
    ensures
        #[trigger] stands_between(text + more, label, value, next),
{
    let (before, behind) = choose|before: Seq<char>, behind: Seq<char>|
        text == #[trigger] (before + label + value + next + behind);
    assert(text + more =~= before + label + value + next + (behind + more));
}

/// How a truth value is spelled.
pub open spec fn spelled(b: bool) -> Seq<char> {
    if b {
        "true"@
    } else {
        "false"@
    }
}

/// A match is told with its own id, room and time, its two players in their
/// order, and its winner, where there is one.
pub proof fn law_what_is_told_of_a_match(m: DbMatchRecord)
    ensures
        ({
            let text = match_text(m);
            &&& stands_between(
                text,
                "  {\n    \"match_id\": "@,
                decimal(m.match_id as int),
                ",\n    \"room_id\": "@,
            )
            &&& stands_between(
                text,
                ",\n    \"room_id\": "@,
                decimal(m.room_id as int),
                ",\n    \"timestamp\": "@,
            )
            &&& stands_between(
                text,
                ",\n    \"timestamp\": "@,
                decimal(m.timestamp as int),
                ",\n    \"players\": [\""@,
            )
            &&& stands_between(
                text,
                ",\n    \"players\": [\""@,
                sanitized(m.npid_1@),
                "\", \""@,
            )
            &&& stands_between(
                text,
                "\", \""@,
                sanitized(m.npid_2@),
                "\"],\n    \"winner\": "@,
            )
            &&& stands_between(
                text,
                "\"],\n    \"winner\": "@,
                if m.winner_npid is Some {
                    "\""@ + sanitized(m.winner_npid->0@) + "\""@
                } else {
                    "null"@
                },
                "\n"@,
            )
        }),
{
    broadcast use {lemma_stands_at_the_end, lemma_stands_alone, lemma_stands_still};

}

/// A score is told with its own rank, counted from one, its player, value and time,
/// and with the comment and the info blob of its own place, where there are some.
pub proof fn law_what_is_told_of_a_score(result: GetScoreResultCache, i: int)
    ensures
        ({
            let text = score_text(result, i);
            &&& stands_between(
                text,
                "        {\n\n            \"rank\": "@,
                decimal(result.scores@[i].rank + 1),
                ",\n            \"npid\": \""@,
            )
            &&& stands_between(
                text,
                ",\n            \"npid\": \""@,
                result.scores@[i].npid@,
                "\",\n            \"online_name\": \""@,
            )
            &&& stands_between(
                text,
                "\",\n            \"online_name\": \""@,
                sanitized(result.scores@[i].online_name@),
                "\",\n            \"pcid\": "@,
            )
            &&& stands_between(
                text,
                "\",\n            \"pcid\": "@,
                decimal(result.scores@[i].pcid as int),
                ",\n            \"score\": "@,
            )
            &&& stands_between(
                text,
                ",\n            \"score\": "@,
                decimal(result.scores@[i].score as int),
                ",\n            \"has_gamedata\": "@,
            )
            &&& stands_between(
                text,
                ",\n            \"has_gamedata\": "@,
                spelled(result.scores@[i].has_gamedata),
                ",\n            \"comment\": \""@,
            )
            &&& stands_between(
                text,
                ",\n            \"comment\": \""@,
                if result.comments is Some {
                    sanitized((result.comments->0)@[i]@)
                } else {
                    Seq::empty()
                },
                "\",\n            \"info\": \""@,
            )
            &&& stands_between(
                text,
                "\",\n            \"info\": \""@,
                if result.infos is Some {
                    hex((result.infos->0)@[i]@)
                } else {
                    Seq::empty()
                },
                "\",\n            \"timestamp\": "@,
            )
            &&& stands_between(
                text,
                "\",\n            \"timestamp\": "@,
                decimal(result.scores@[i].timestamp as int),
                "\n        }\n"@,
            )
        }),
{
    broadcast use {lemma_stands_at_the_end, lemma_stands_alone, lemma_stands_still};

}

/// A score board is told with its own id and set-up, the number of its records, and
/// its scores.
pub proof fn law_what_is_told_of_a_board(
    result: GetScoreResultCache,
    board_id: u32,
    infos: DbBoardInfo,
)
    ensures
        ({
            let text = board_text(result, board_id, infos);
            &&& stands_between(
                text,
                "{\n    \"board_id\": "@,
                decimal(board_id as int),
                ",\n    \"rank_limit\": "@,
            )
            &&& stands_between(
                text,
                ",\n    \"rank_limit\": "@,
                decimal(infos.rank_limit as int),
                ",\n    \"update_mode\": "@,
            )
            &&& stands_between(
                text,
                ",\n    \"update_mode\": "@,
                decimal(infos.update_mode as int),
                ",\n    \"sort_mode\": "@,
            )
            &&& stands_between(
                text,
                ",\n    \"sort_mode\": "@,
                decimal(infos.sort_mode as int),
                ",\n    \"upload_num_limit\": "@,
            )
            &&& stands_between(
                text,
                ",\n    \"upload_num_limit\": "@,
                decimal(infos.upload_num_limit as int),
                ",\n    \"upload_size_limit\": "@,
            )
            &&& stands_between(
                text,
                ",\n    \"upload_size_limit\": "@,
                decimal(infos.upload_size_limit as int),
                ",\n    \"total_records\": "@,
            )
            &&& stands_between(
                text,
                ",\n    \"total_records\": "@,
                decimal(result.total_records as int),
                ",\n    \"scores\": [\n"@,
            )
            &&& stands_between(
                text,
                ",\n    \"scores\": [\n"@,
                scores_text(result),
                "    ]\n}"@,
            )
        }),
{
    broadcast use {lemma_stands_at_the_end, lemma_stands_alone, lemma_stands_still};

}

/// A member of a room is told with its names, and as the owner exactly where the top
/// bit of its flags is set.
pub proof fn law_what_is_told_of_a_member(user: RoomUser)
    ensures
        ({
            let text = member_text(user);
            &&& stands_between(
                text,
                "      { \"npid\": \""@,
                sanitized(user.npid@),
                "\", \"online_name\": \""@,
            )
            &&& stands_between(
                text,
                "\", \"online_name\": \""@,
                sanitized(user.online_name@),
                "\", \"is_owner\": "@,
            )
            &&& stands_between(
                text,
                "\", \"is_owner\": "@,
                spelled(user.flag_attr >= 0x8000_0000),
                " }"@,
            )
        }),
{
    broadcast use {lemma_stands_at_the_end, lemma_stands_alone, lemma_stands_still};

    let flags = user.flag_attr;
    assert((flags & 0x8000_0000 != 0) == (flags >= 0x8000_0000)) by (bit_vector);
    assert(OWNER_FLAG == 0x8000_0000);
}

/// A room is told with its own ids and set-up, how many members it has, whether it has
/// a password, and its members. The password itself is not told.
pub proof fn law_what_is_told_of_a_room(room: Room)
    ensures
        ({
            let text = room_text(room);
            &&& stands_between(
                text,
                "  {\n    \"room_id\": "@,
                decimal(room.room_id as int),
                ",\n    \"world_id\": "@,
            )
            &&& stands_between(
                text,
                ",\n    \"world_id\": "@,
                decimal(room.world_id as int),
                ",\n    \"lobby_id\": "@,
            )
            &&& stands_between(
                text,
                ",\n    \"lobby_id\": "@,
                decimal(room.lobby_id as int),
                ",\n    \"max_slot\": "@,
            )
            &&& stands_between(
                text,
                ",\n    \"max_slot\": "@,
                decimal(room.max_slot as int),
                ",\n    \"cur_member_num\": "@,
            )
            &&& stands_between(
                text,
                ",\n    \"cur_member_num\": "@,
                decimal(room.users@.len() as int),
                ",\n    \"flag_attr\": "@,
            )
            &&& stands_between(
                text,
                ",\n    \"flag_attr\": "@,
                decimal(room.flag_attr as int),
                ",\n    \"has_password\": "@,
            )
            &&& stands_between(
                text,
                ",\n    \"has_password\": "@,
                spelled(room.room_password is Some),
                ",\n    \"members\": [\n"@,
            )
            &&& stands_between(
                text,
                ",\n    \"members\": [\n"@,
                members_text(room.users@),
                "    ]\n  }"@,
            )
        }),
{
    broadcast use {lemma_stands_at_the_end, lemma_stands_alone, lemma_stands_still};

}

/// A title that is being played is told with its own id, its number of users and its
/// hints.
pub proof fn law_what_is_told_of_a_title(game: TrackedGame)
    ensures
        ({
            let text = psn_game_text(game);
            &&& stands_between(
                text,
                "        \""@,
                game.com_id@,
                "\": ["@,
            )
            &&& stands_between(
                text,
                "\": ["@,
                decimal(game.num_users as int),
                hints_text(game.name_hints@),
            )
            &&& stands_between(
                text,
                decimal(game.num_users as int),
                hints_text(game.name_hints@),
                "]"@,
            )
        }),
{
    broadcast use {lemma_stands_at_the_end, lemma_stands_alone, lemma_stands_still};

}

/// A title that tickets were issued for is told with its own name and number of
/// users.
pub proof fn law_what_is_told_of_a_ticket_title(game: TicketGame)
    ensures
        ({
            let text = ticket_game_text(game);
            &&& stands_between(text, "        \""@, game.name@, "\": "@)
            &&& stands_between(text, "\": "@, decimal(game.num_users as int), Seq::empty())
        }),
{
    broadcast use {lemma_stands_at_the_end, lemma_stands_alone, lemma_stands_still};

    let text = ticket_game_text(game);
    assert(text =~= text + Seq::empty());
}

/// A player is told by name, with the address exactly where it may be told and a
/// null in its place otherwise.
pub proof fn law_what_is_told_of_a_player(player: TrackedPlayer)
    ensures
        ({
            let text = player_text(player, true);
            &&& stands_between(text, "            \""@, sanitized(player.name@), "\": \""@)
            &&& stands_between(text, "\": \""@, player.address@, "\""@)
        }),
        stands_between(
            player_text(player, false),
            "            \""@,
            sanitized(player.name@),
            "\": null"@,
        ),
{
    broadcast use {lemma_stands_at_the_end, lemma_stands_alone, lemma_stands_still};

}

/// The usage summary tells the number of users, then the titles, then the titles
/// of tickets, and then the players.
pub proof fn law_what_is_told_of_usage(tracker: GameTracker, include_ips: bool)
    ensures
        ({
            let text = usage_text(tracker, include_ips);
            let titles = psn_games_text(tracker.psn_games@);
            let tickets = ticket_games_text(tracker.ticket_games@);
            let players = players_id_text(tracker.psn_games@, include_ips);
            let users = decimal(tracker.num_users as int);
            &&& stands_between(text, "{\n    \"num_users\" : "@, users, titles)
            &&& stands_between(text, users, titles, tickets)
            &&& stands_between(text, titles, tickets, players)
            &&& stands_between(text, tickets, players, "\n}"@)
        }),
{
    broadcast use {lemma_stands_at_the_end, lemma_stands_alone, lemma_stands_still};

}

/// Whether a list that was written as `text` is written as `longer` once `piece`
/// stands behind what it held: `between` goes in front of it and `end` closes the
/// list as before.
pub open spec fn grows_by(
    text: Seq<char>,
    longer: Seq<char>,
    between: Seq<char>,
    piece: Seq<char>,
    end: Seq<char>,
) -> bool {
    exists|head: Seq<char>|
        text == #[trigger] (head + end) && longer == head + between + piece + end
}

/// Pieces with what stands behind each of them.
spec fn marked(pieces: Seq<Seq<char>>, between: Seq<char>, end: Seq<char>) -> Seq<Seq<char>> {
    Seq::new(
        pieces.len(),
        |i: int| pieces[i] + mark(i, pieces.len() as int, between, end),
    )
}

proof fn lemma_marked_grows(
    pieces: Seq<Seq<char>>,
    piece: Seq<char>,
    between: Seq<char>,
    end: Seq<char>,
) -> (head: Seq<char>)
    requires
        pieces.len() > 0,
    ensures
        flat(marked(pieces, between, end)) == head + end,
        flat(marked(pieces.push(piece), between, end)) == head + between + piece + end,
{
    let old = marked(pieces, between, end);
    let new = marked(pieces.push(piece), between, end);
    let front = flat(old.drop_last());
    let head = front + pieces.last();
    assert(flat(old) =~= head + end);
    assert(new.drop_last().drop_last() =~= old.drop_last());
    assert(new.drop_last().last() == pieces.last() + between);
    assert(flat(new.drop_last()) == front + (pieces.last() + between));
    assert(new.last() == piece + end);
    assert(flat(new) =~= head + between + piece + end);
    head
}

proof fn lemma_marked_one(piece: Seq<char>, between: Seq<char>, end: Seq<char>)
    ensures
        flat(marked(seq![piece], between, end)) == piece + end,
{
    reveal_with_fuel(flat, 2);
    let one = marked(seq![piece], between, end);
    assert(one.drop_last() =~= Seq::empty());
    assert(flat(one) =~= piece + end);
}

proof fn lemma_enclosed_grows(
    open: Seq<char>,
    pieces: Seq<Seq<char>>,
    piece: Seq<char>,
    between: Seq<char>,
    end: Seq<char>,
    close: Seq<char>,
)
    requires
        pieces.len() > 0,
    ensures
        grows_by(
            open + flat(marked(pieces, between, end)) + close,
            open + flat(marked(pieces.push(piece), between, end)) + close,
            between,
            piece,
            end + close,
        ),
{
    let inner = lemma_marked_grows(pieces, piece, between, end);
    let head = open + inner;
    let last = end + close;
    assert(open + flat(marked(pieces, between, end)) + close =~= head + last);
    assert(open + flat(marked(pieces.push(piece), between, end)) + close =~= head + between + piece
        + last);
}

spec fn match_pieces(matches: Seq<DbMatchRecord>) -> Seq<Seq<char>> {
    Seq::new(matches.len(), |i: int| match_text(matches[i]))
}

proof fn lemma_matches_text(matches: Seq<DbMatchRecord>)
    ensures
        matches_text(matches) == "[\n"@ + flat(
            marked(match_pieces(matches), "  },\n"@, "  }\n"@),
        ) + "]"@,
{
    assert(marked(match_pieces(matches), "  },\n"@, "  }\n"@) =~= Seq::new(
        matches.len(),
        |i: int|
            match_text(matches[i]) + mark(i, matches.len() as int, "  },\n"@, "  }\n"@),
    ));
}

/// A list of matches tells of each of its matches, in their order.
pub proof fn law_matches_are_listed_one_by_one(matches: Seq<DbMatchRecord>, m: DbMatchRecord)
    ensures
        matches_text(Seq::empty()) == "[\n"@ + "]"@,
        matches_text(seq![m]) == "[\n"@ + match_text(m) + "  }\n"@ + "]"@,
        matches.len() > 0 ==> grows_by(
            matches_text(matches),
            matches_text(matches.push(m)),
            "  },\n"@,
            match_text(m),
            "  }\n"@ + "]"@,
        ),
{
    let none = Seq::<DbMatchRecord>::empty();
    lemma_matches_text(none);
    assert(marked(match_pieces(none), "  },\n"@, "  }\n"@) =~= Seq::empty());
    assert(matches_text(none) =~= "[\n"@ + "]"@);
    lemma_matches_text(seq![m]);
    assert(match_pieces(seq![m]) =~= seq![match_text(m)]);
    lemma_marked_one(match_text(m), "  },\n"@, "  }\n"@);
    assert(matches_text(seq![m]) =~= "[\n"@ + match_text(m) + "  }\n"@ + "]"@);
    if matches.len() > 0 {
        lemma_matches_text(matches);
        lemma_matches_text(matches.push(m));
        assert(match_pieces(matches.push(m)) =~= match_pieces(matches).push(match_text(m)));
        let inner = lemma_marked_grows(
            match_pieces(matches),
            match_text(m),
            "  },\n"@,
            "  }\n"@,
        );
        let head = "[\n"@ + inner;
        let end = "  }\n"@ + "]"@;
        assert(matches_text(matches) =~= head + end);
        assert(matches_text(matches.push(m)) =~= head + "  },\n"@ + match_text(m) + end);
    }
}

spec fn member_pieces(users: Seq<RoomUser>) -> Seq<Seq<char>> {
    Seq::new(users.len(), |i: int| member_text(users[i]))
}

proof fn lemma_members_text(users: Seq<RoomUser>)
    ensures
        members_text(users) == flat(marked(member_pieces(users), ",\n"@, "\n"@)),
{
    assert(marked(member_pieces(users), ",\n"@, "\n"@) =~= Seq::new(
        users.len(),
        |i: int| member_text(users[i]) + mark(i, users.len() as int, ",\n"@, "\n"@),
    ));
}

/// The list of a room's members tells of each of them, in their order.
pub proof fn law_members_are_listed_one_by_one(users: Seq<RoomUser>, user: RoomUser)
    ensures
        members_text(Seq::empty()) == Seq::<char>::empty(),
        members_text(seq![user]) == member_text(user) + "\n"@,
        users.len() > 0 ==> grows_by(
            members_text(users),
            members_text(users.push(user)),
            ",\n"@,
            member_text(user),
            "\n"@,
        ),
{
    let none = Seq::<RoomUser>::empty();
    lemma_members_text(none);
    assert(marked(member_pieces(none), ",\n"@, "\n"@) =~= Seq::empty());
    lemma_members_text(seq![user]);
    assert(member_pieces(seq![user]) =~= seq![member_text(user)]);
    lemma_marked_one(member_text(user), ",\n"@, "\n"@);
    if users.len() > 0 {
        lemma_members_text(users);
        lemma_members_text(users.push(user));
        assert(member_pieces(users.push(user)) =~= member_pieces(users).push(member_text(user)));
        let head = lemma_marked_grows(member_pieces(users), member_text(user), ",\n"@, "\n"@);
        assert(members_text(users) == head + "\n"@);
    }
}

spec fn score_pieces(result: GetScoreResultCache) -> Seq<Seq<char>> {
    Seq::new(result.scores@.len(), |i: int| score_text(result, i))
}

proof fn lemma_scores_text(result: GetScoreResultCache)
    ensures
        scores_text(result) == flat(marked(score_pieces(result), ",\n"@, "\n"@)),
{
    assert(marked(score_pieces(result), ",\n"@, "\n"@) =~= Seq::new(
        result.scores@.len(),
        |i: int| score_text(result, i) + mark(i, result.scores@.len() as int, ",\n"@, "\n"@),
    ));
}

/// Whether two results hold the same at a place: the score, and the comment and
/// the info blob that belong to it.
pub open spec fn same_at(a: GetScoreResultCache, b: GetScoreResultCache, i: int) -> bool {
    &&& a.scores@[i] == b.scores@[i]
    &&& match (a.comments, b.comments) {
        (Some(x), Some(y)) => x@[i]@ == y@[i]@,
        (None, None) => true,
        _ => false,
    }
    &&& match (a.infos, b.infos) {
        (Some(x), Some(y)) => x@[i]@ == y@[i]@,
        (None, None) => true,
        _ => false,
    }
}

/// The scores of a board are told one by one, each as it is told on its own.
/// `longer` holds one score more than `result` and the same as it in all places
/// before.
pub proof fn law_scores_are_listed_one_by_one(
    result: GetScoreResultCache,
    longer: GetScoreResultCache,
)
    requires
        longer.scores@.len() == result.scores@.len() + 1,
        forall|i: int| 0 <= i < result.scores@.len() ==> #[trigger] same_at(result, longer, i),
    ensures
        ({
            let n = result.scores@.len() as int;
            &&& n == 0 ==> scores_text(result) == Seq::<char>::empty() && scores_text(longer)
                == score_text(longer, 0) + "\n"@
            &&& n > 0 ==> grows_by(
                scores_text(result),
                scores_text(longer),
                ",\n"@,
                score_text(longer, n),
                "\n"@,
            )
        }),
{
    let n = result.scores@.len() as int;
    lemma_scores_text(result);
    lemma_scores_text(longer);
    assert forall|i: int| 0 <= i < n implies score_text(result, i) == score_text(longer, i) by {
        assert(same_at(result, longer, i));
    }
    assert(score_pieces(longer) =~= score_pieces(result).push(score_text(longer, n)));
    if n == 0 {
        assert(marked(score_pieces(result), ",\n"@, "\n"@) =~= Seq::empty());
        assert(score_pieces(longer) =~= seq![score_text(longer, 0)]);
        lemma_marked_one(score_text(longer, 0), ",\n"@, "\n"@);
    } else {
        let head = lemma_marked_grows(
            score_pieces(result),
            score_text(longer, n),
            ",\n"@,
            "\n"@,
        );
        assert(scores_text(result) == head + "\n"@);
    }
}

spec fn board_pieces(boards: Seq<ScoreBoard>, ranges: Seq<GetScoreResultCache>) -> Seq<Seq<char>> {
    Seq::new(
        boards.len(),
        |i: int| board_text(ranges[i], boards[i].board_id, boards[i].table_infos),
    )
}

proof fn lemma_boards_text(boards: Seq<ScoreBoard>, ranges: Seq<GetScoreResultCache>)
    requires
        boards.len() > 0,
    ensures
        boards_text(boards, ranges) == "[\n"@ + flat(
            marked(board_pieces(boards, ranges), ",\n"@, "\n"@),
        ) + "]"@,
{
    assert(marked(board_pieces(boards, ranges), ",\n"@, "\n"@) =~= Seq::new(
        boards.len(),
        |i: int|
            board_text(ranges[i], boards[i].board_id, boards[i].table_infos) + mark(
                i,
                boards.len() as int,
                ",\n"@,
                "\n"@,
            ),
    ));
}

/// The boards of a title are told one by one, each with its own scores: with one
/// board more at the end, its text stands behind the others, which stay as they
/// were, and it is the text that the board has on its own.
pub proof fn law_boards_are_listed_with_their_own_scores(
    boards: Seq<ScoreBoard>,
    ranges: Seq<GetScoreResultCache>,
    board: ScoreBoard,
    range: GetScoreResultCache,
)
    requires
        boards.len() == ranges.len(),
    ensures
        boards_text(Seq::empty(), ranges) == "[]"@,
        ({
            let piece = board_text(range, board.board_id, board.table_infos);
            &&& boards_text(seq![board], seq![range]) == "[\n"@ + piece + "\n"@ + "]"@
            &&& boards.len() > 0 ==> grows_by(
                boards_text(boards, ranges),
                boards_text(boards.push(board), ranges.push(range)),
                ",\n"@,
                piece,
                "\n"@ + "]"@,
            )
        }),
{
    let piece = board_text(range, board.board_id, board.table_infos);
    assert(boards_text(seq![board], seq![range]) == "[\n"@ + piece + "\n"@ + "]"@) by {
        lemma_one_board(board, range);
    }
    if boards.len() > 0 {
        let pieces = board_pieces(boards, ranges);
        lemma_boards_text(boards, ranges);
        lemma_boards_text(boards.push(board), ranges.push(range));
        lemma_board_pieces(boards, ranges, board, range);
        lemma_enclosed_grows("[\n"@, pieces, piece, ",\n"@, "\n"@, "]"@);
    }
}

proof fn lemma_one_board(board: ScoreBoard, range: GetScoreResultCache)
    ensures
        boards_text(seq![board], seq![range]) == "[\n"@ + board_text(
            range,
            board.board_id,
            board.table_infos,
        ) + "\n"@ + "]"@,
{
    let piece = board_text(range, board.board_id, board.table_infos);
    lemma_boards_text(seq![board], seq![range]);
    lemma_board_pieces(Seq::empty(), Seq::empty(), board, range);
    let none = board_pieces(Seq::empty(), Seq::empty());
    assert(none.push(piece) =~= seq![piece]);
    assert(Seq::<ScoreBoard>::empty().push(board) =~= seq![board]);
    assert(Seq::<GetScoreResultCache>::empty().push(range) =~= seq![range]);
    lemma_marked_one(piece, ",\n"@, "\n"@);
    lemma_add_add("[\n"@, piece, "\n"@);
}

proof fn lemma_add_add(a: Seq<char>, b: Seq<char>, c: Seq<char>)
    ensures
        a + (b + c) == a + b + c,
{
    assert(a + (b + c) =~= a + b + c);
}

proof fn lemma_board_pieces(
    boards: Seq<ScoreBoard>,
    ranges: Seq<GetScoreResultCache>,
    board: ScoreBoard,
    range: GetScoreResultCache,
)
    requires
        boards.len() == ranges.len(),
    ensures
        board_pieces(boards.push(board), ranges.push(range)) == board_pieces(boards, ranges).push(
            board_text(range, board.board_id, board.table_infos),
        ),
{
    let a = board_pieces(boards.push(board), ranges.push(range));
    let b = board_pieces(boards, ranges).push(
        board_text(range, board.board_id, board.table_infos),
    );
    assert(a.len() == b.len());
    assert forall|i: int| 0 <= i < a.len() implies a[i] == b[i] by {
        if i < boards.len() {
            assert(boards.push(board)[i] == boards[i] && ranges.push(range)[i] == ranges[i]);
        }
    }
    assert(a =~= b);
}

proof fn lemma_filter_push<A>(s: Seq<A>, x: A, keep: spec_fn(A) -> bool)
    ensures
        s.push(x).filter(keep) == if keep(x) {
            s.filter(keep).push(x)
        } else {
            s.filter(keep)
        },
{
    reveal(Seq::filter);
    assert(s.push(x).drop_last() =~= s);
}

proof fn lemma_filter_empty<A>(s: Seq<A>, keep: spec_fn(A) -> bool)
    ensures
        s.filter(keep).len() == 0 <==> forall|i: int| 0 <= i < s.len() ==> !keep(#[trigger] s[i]),
    decreases s.len(),
{
    reveal(Seq::filter);
    if s.len() > 0 {
        let front = s.drop_last();
        lemma_filter_empty(front, keep);
        if forall|i: int| 0 <= i < s.len() ==> !keep(#[trigger] s[i]) {
            assert forall|i: int| 0 <= i < front.len() implies !keep(#[trigger] front[i]) by {
                assert(front[i] == s[i]);
            }
            assert(!keep(s[s.len() - 1]));
        }
        if s.filter(keep).len() == 0 {
            assert forall|i: int| 0 <= i < s.len() implies !keep(#[trigger] s[i]) by {
                if i < front.len() {
                    assert(front[i] == s[i]);
                }
            }
        }
    }
}

proof fn lemma_rooms_of_push(rooms: Seq<Room>, com_id: Seq<u8>, room: Room)
    ensures
        rooms_of(rooms.push(room), com_id) == if room.com_id@ == com_id {
            rooms_of(rooms, com_id).push(room)
        } else {
            rooms_of(rooms, com_id)
        },
{
    reveal(Seq::filter);
    assert(rooms.push(room).drop_last() =~= rooms);
}

proof fn lemma_rooms_of_none(rooms: Seq<Room>, com_id: Seq<u8>)
    ensures
        rooms_of(rooms, com_id).len() == 0 <==> forall|i: int|
            0 <= i < rooms.len() ==> (#[trigger] rooms[i]).com_id@ != com_id,
    decreases rooms.len(),
{
    reveal(Seq::filter);
    if rooms.len() > 0 {
        let front = rooms.drop_last();
        lemma_rooms_of_none(front, com_id);
        lemma_rooms_of_push(front, com_id, rooms.last());
        assert(front.push(rooms.last()) =~= rooms);
        if forall|i: int| 0 <= i < rooms.len() ==> (#[trigger] rooms[i]).com_id@ != com_id {
            assert forall|i: int| 0 <= i < front.len() implies (#[trigger] front[i]).com_id@
                != com_id by {
                assert(front[i] == rooms[i]);
            }
            assert(rooms[rooms.len() - 1].com_id@ != com_id);
        }
        if rooms_of(rooms, com_id).len() == 0 {
            assert forall|i: int| 0 <= i < rooms.len() implies (#[trigger] rooms[i]).com_id@
                != com_id by {
                if i < front.len() {
                    assert(front[i] == rooms[i]);
                }
            }
        }
    }
}

/// The list of a title's rooms tells of the rooms of that title and of no other,
/// one by one and in their order.
pub proof fn law_rooms_are_listed_one_by_one(rooms: Seq<Room>, com_id: Seq<u8>, room: Room)
    ensures
        (forall|i: int| 0 <= i < rooms.len() ==> (#[trigger] rooms[i]).com_id@ != com_id)
            ==> rooms_text(rooms, com_id) == "[\n"@ + "\n]"@,
        room.com_id@ != com_id ==> rooms_text(rooms.push(room), com_id) == rooms_text(
            rooms,
            com_id,
        ),
        room.com_id@ == com_id && (forall|i: int|
            0 <= i < rooms.len() ==> (#[trigger] rooms[i]).com_id@ != com_id) ==> rooms_text(
            rooms.push(room),
            com_id,
        ) == "[\n"@ + room_text(room) + "\n]"@,
        room.com_id@ == com_id && (exists|i: int|
            0 <= i < rooms.len() && (#[trigger] rooms[i]).com_id@ == com_id) ==> grows_by(
            rooms_text(rooms, com_id),
            rooms_text(rooms.push(room), com_id),
            ",\n"@,
            room_text(room),
            "\n]"@,
        ),
{
    lemma_rooms_of_push(rooms, com_id, room);
    lemma_rooms_of_none(rooms, com_id);
    let of = rooms_of(rooms, com_id);
    if of.len() == 0 {
        assert(rooms_text(rooms, com_id) =~= "[\n"@ + "\n]"@);
    }
    if room.com_id@ == com_id {
        let texts = room_texts(of);
        assert(room_texts(of.push(room)).drop_last() =~= texts);
        assert(room_texts(of.push(room)).last() == room_text(room));
        if of.len() == 0 {
            assert(room_texts(of.push(room))[0] == room_text(room));
        } else {
            let head = "[\n"@ + joined(texts, ",\n"@);
            assert(rooms_text(rooms, com_id) == head + "\n]"@);
            assert(rooms_text(rooms.push(room), com_id) =~= head + ",\n"@ + room_text(room)
                + "\n]"@);
        }
    }
}

/// The hints of a title are told one by one, in their order.
pub proof fn law_hints_are_listed_one_by_one(hints: Seq<String>, hint: String)
    ensures
        hints_text(Seq::empty()) == Seq::<char>::empty(),
        hints_text(hints.push(hint)) == hints_text(hints) + (", \""@ + sanitized(hint@) + "\""@),
{
    let more = Seq::new(
        hints.push(hint).len(),
        |i: int| ", \""@ + sanitized(hints.push(hint)[i]@) + "\""@,
    );
    assert(more.drop_last() =~= Seq::new(
        hints.len(),
        |i: int| ", \""@ + sanitized(hints[i]@) + "\""@,
    ));
}

spec fn player_pieces(players: Seq<TrackedPlayer>, include_ips: bool) -> Seq<Seq<char>> {
    Seq::new(players.len(), |i: int| player_text(players[i], include_ips))
}

proof fn lemma_players_text(game: TrackedGame, include_ips: bool)
    ensures
        players_text(game, include_ips) == "        \""@ + game.com_id@ + "\": {\n"@ + flat(
            marked(player_pieces(game.players@, include_ips), ",\n"@, "\n"@),
        ) + "        }"@,
{
    let players = game.players@;
    assert(marked(player_pieces(players, include_ips), ",\n"@, "\n"@) =~= Seq::new(
        players.len(),
        |i: int|
            player_text(players[i], include_ips) + mark(i, players.len() as int, ",\n"@, "\n"@),
    ));
}

/// The players of a title are told one by one, in their order and under the id of
/// their title. `fuller` is the same title as `game` with one player more.
pub proof fn law_players_are_listed_one_by_one(
    game: TrackedGame,
    fuller: TrackedGame,
    player: TrackedPlayer,
    include_ips: bool,
)
    requires
        fuller.com_id@ == game.com_id@,
        fuller.players@ == game.players@.push(player),
    ensures
        game.players@.len() == 0 ==> players_text(fuller, include_ips) == "        \""@
            + game.com_id@ + "\": {\n"@ + player_text(player, include_ips) + "\n"@ + "        }"@,
        game.players@.len() > 0 ==> grows_by(
            players_text(game, include_ips),
            players_text(fuller, include_ips),
            ",\n"@,
            player_text(player, include_ips),
            "\n"@ + "        }"@,
        ),
{
    let piece = player_text(player, include_ips);
    let title = "        \""@ + game.com_id@ + "\": {\n"@;
    lemma_players_text(game, include_ips);
    lemma_players_text(fuller, include_ips);
    let pieces = player_pieces(game.players@, include_ips);
    assert(player_pieces(fuller.players@, include_ips) =~= pieces.push(piece));
    if game.players@.len() == 0 {
        assert(player_pieces(fuller.players@, include_ips) =~= seq![piece]);
        lemma_marked_one(piece, ",\n"@, "\n"@);
        assert(players_text(fuller, include_ips) =~= title + piece + "\n"@ + "        }"@);
    } else {
        let inner = lemma_marked_grows(pieces, piece, ",\n"@, "\n"@);
        let head = title + inner;
        let end = "\n"@ + "        }"@;
        assert(players_text(game, include_ips) =~= head + end);
        assert(players_text(fuller, include_ips) =~= head + ",\n"@ + piece + end);
    }
}

/// Whether a section of the usage summary goes from `text` to `longer` as `piece`
/// is added to it: it is opened under its name where it was left out before.
pub open spec fn section_grows(
    name: Seq<char>,
    was_empty: bool,
    text: Seq<char>,
    longer: Seq<char>,
    piece: Seq<char>,
) -> bool {
    if was_empty {
        text.len() == 0 && longer == ",\n    \""@ + name + "\": {\n"@ + piece + "\n"@ + "    }"@
    } else {
        grows_by(text, longer, ",\n"@, piece, "\n"@ + "    }"@)
    }
}

proof fn lemma_section_grows(name: Seq<char>, pieces: Seq<Seq<char>>, piece: Seq<char>)
    ensures
        section_grows(
            name,
            pieces.len() == 0,
            section_text(name, pieces),
            section_text(name, pieces.push(piece)),
            piece,
        ),
{
    let title = ",\n    \""@ + name + "\": {\n"@;
    let more = pieces.push(piece);
    assert(marked(more, ",\n"@, "\n"@) =~= Seq::new(
        more.len(),
        |i: int| more[i] + mark(i, more.len() as int, ",\n"@, "\n"@),
    ));
    assert(marked(pieces, ",\n"@, "\n"@) =~= Seq::new(
        pieces.len(),
        |i: int| pieces[i] + mark(i, pieces.len() as int, ",\n"@, "\n"@),
    ));
    if pieces.len() == 0 {
        assert(more =~= seq![piece]);
        lemma_marked_one(piece, ",\n"@, "\n"@);
        assert(section_text(name, more) =~= title + piece + "\n"@ + "    }"@);
    } else {
        let inner = lemma_marked_grows(pieces, piece, ",\n"@, "\n"@);
        let head = title + inner;
        let end = "\n"@ + "    }"@;
        assert(section_text(name, pieces) =~= head + end);
        assert(section_text(name, more) =~= head + ",\n"@ + piece + end);
    }
}

/// The titles that are being played are told one by one, in their order. A title
/// without users is left out.
pub proof fn law_titles_are_listed_one_by_one(games: Seq<TrackedGame>, game: TrackedGame)
    ensures
        psn_games_text(Seq::empty()) == Seq::<char>::empty(),
        game.num_users == 0 ==> psn_games_text(games.push(game)) == psn_games_text(games),
        game.num_users != 0 ==> section_grows(
            "psn_games"@,
            forall|i: int| 0 <= i < games.len() ==> (#[trigger] games[i]).num_users == 0,
            psn_games_text(games),
            psn_games_text(games.push(game)),
            psn_game_text(game),
        ),
{
    let keep = |g: TrackedGame| has_users(g.num_users);
    lemma_filter_push(games, game, keep);
    lemma_filter_empty(games, keep);
    lemma_filter_empty(Seq::<TrackedGame>::empty(), keep);
    assert((forall|i: int| 0 <= i < games.len() ==> (#[trigger] games[i]).num_users == 0) == (
    forall|i: int| 0 <= i < games.len() ==> !keep(#[trigger] games[i])));
    let told = games.filter(keep);
    let pieces = Seq::new(told.len(), |i: int| psn_game_text(told[i]));
    if game.num_users != 0 {
        lemma_section_grows("psn_games"@, pieces, psn_game_text(game));
        let more = told.push(game);
        assert(Seq::new(more.len(), |i: int| psn_game_text(more[i])) =~= pieces.push(
            psn_game_text(game),
        ));
    }
}

/// The titles that tickets were issued for are told one by one, in their order. A
/// title without users is left out.
pub proof fn law_ticket_titles_are_listed_one_by_one(games: Seq<TicketGame>, game: TicketGame)
    ensures
        ticket_games_text(Seq::empty()) == Seq::<char>::empty(),
        game.num_users == 0 ==> ticket_games_text(games.push(game)) == ticket_games_text(games),
        game.num_users != 0 ==> section_grows(
            "ticket_games"@,
            forall|i: int| 0 <= i < games.len() ==> (#[trigger] games[i]).num_users == 0,
            ticket_games_text(games),
            ticket_games_text(games.push(game)),
            ticket_game_text(game),
        ),
{
    let keep = |g: TicketGame| has_users(g.num_users);
    lemma_filter_push(games, game, keep);
    lemma_filter_empty(games, keep);
    lemma_filter_empty(Seq::<TicketGame>::empty(), keep);
    assert((forall|i: int| 0 <= i < games.len() ==> (#[trigger] games[i]).num_users == 0) == (
    forall|i: int| 0 <= i < games.len() ==> !keep(#[trigger] games[i])));
    let told = games.filter(keep);
    let pieces = Seq::new(told.len(), |i: int| ticket_game_text(told[i]));
    if game.num_users != 0 {
        lemma_section_grows("ticket_games"@, pieces, ticket_game_text(game));
        let more = told.push(game);
        assert(Seq::new(more.len(), |i: int| ticket_game_text(more[i])) =~= pieces.push(
            ticket_game_text(game),
        ));
    }
}

/// The titles that somebody plays are told one by one, each with its own players.
/// A title that nobody plays is left out.
pub proof fn law_played_titles_are_listed_one_by_one(
    games: Seq<TrackedGame>,
    game: TrackedGame,
    include_ips: bool,
)
    ensures
        players_id_text(Seq::empty(), include_ips) == Seq::<char>::empty(),
        game.players@.len() == 0 ==> players_id_text(games.push(game), include_ips)
            == players_id_text(games, include_ips),
        game.players@.len() > 0 ==> section_grows(
            "players_id"@,
            forall|i: int| 0 <= i < games.len() ==> (#[trigger] games[i]).players@.len() == 0,
            players_id_text(games, include_ips),
            players_id_text(games.push(game), include_ips),
            players_text(game, include_ips),
        ),
{
    let keep = |g: TrackedGame| has_players(g);
    lemma_filter_push(games, game, keep);
    lemma_filter_empty(games, keep);
    lemma_filter_empty(Seq::<TrackedGame>::empty(), keep);
    assert((forall|i: int| 0 <= i < games.len() ==> (#[trigger] games[i]).players@.len() == 0) == (
    forall|i: int| 0 <= i < games.len() ==> !keep(#[trigger] games[i])));
    let told = games.filter(keep);
    let pieces = Seq::new(told.len(), |i: int| players_text(told[i], include_ips));
    if game.players@.len() > 0 {
        lemma_section_grows("players_id"@, pieces, players_text(game, include_ips));
        let more = told.push(game);
        assert(Seq::new(more.len(), |i: int| players_text(more[i], include_ips)) =~= pieces.push(
            players_text(game, include_ips),
        ));
    }
}

} // verus!
