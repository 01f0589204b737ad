//! The usage summary: who is playing what.

use crate::stat_server::cache::{blank, CachedResponse, CachedView, JsonCache, JsonCacheView};
use crate::stat_server::http::{json, HttpResponse, OK};
use crate::stat_server::json::{
    flat, lemma_filter_next, lemma_filter_whole, lemma_flat_next, lemma_flat_whole, mark, text_views,
};
use crate::stat_server::server::StatServer;
use crate::stat_server::types::{StatQuery, StatStep, StatStepView};
use crate::text::{decimal, decimal_text, sanitize_for_json, sanitized};
use vstd::prelude::*;
use vstd::string::*;

verus! {

/// A player of a game, and the address they play from.
#[derive(Debug)]
pub struct TrackedPlayer {
    pub name: String,
    pub address: String,
}

/// A title that is being played over the network.
#[derive(Debug)]
pub struct TrackedGame {
    /// The communication id, as text.
    pub com_id: String,
    pub num_users: i64,
    pub name_hints: Vec<String>,
    pub players: Vec<TrackedPlayer>,
}

/// A title that tickets were issued for.
#[derive(Debug)]
pub struct TicketGame {
    pub name: String,
    pub num_users: i64,
}

/// Who is playing what, with the titles, hints and players in the order that
/// the tracker walks them.
#[derive(Debug)]
pub struct GameTracker {
    pub num_users: i64,
    pub psn_games: Vec<TrackedGame>,
    pub ticket_games: Vec<TicketGame>,
}

/// The hints of a title, as they follow its number of users.
pub open spec fn hints_text(hints: Seq<String>) -> Seq<char> {
    flat(Seq::new(hints.len(), |i: int| ", \""@ + sanitized(hints[i]@) + "\""@))
}

/// A title of the `psn_games` section.
pub open spec fn psn_game_text(game: TrackedGame) -> Seq<char> {
    "        \""@ + game.com_id@ + "\": ["@ + decimal(game.num_users as int) + hints_text(
        game.name_hints@,
    ) + "]"@
}

/// A title of the `ticket_games` section.
pub open spec fn ticket_game_text(game: TicketGame) -> Seq<char> {
    "        \""@ + game.name@ + "\": "@ + decimal(game.num_users as int)
}

/// A section of the usage summary: left out where it would be empty.
pub open spec fn section_text(name: Seq<char>, entries: Seq<Seq<char>>) -> Seq<char> {
    if entries.len() == 0 {
        Seq::empty()
    } else {
        ",\n    \""@ + name + "\": {\n"@ + flat(
            Seq::new(
                entries.len(),
                |i: int| entries[i] + mark(i, entries.len() as int, ",\n"@, "\n"@),
            ),
        ) + "    }"@
    }
}

/// Whether a title is reported with its number of users.
pub open spec fn has_users(num_users: i64) -> bool {
    num_users != 0
}

pub open spec fn psn_games_text(games: Seq<TrackedGame>) -> Seq<char> {
    let reported = games.filter(|g: TrackedGame| has_users(g.num_users));
    section_text("psn_games"@, Seq::new(reported.len(), |i: int| psn_game_text(reported[i])))
}

pub open spec fn ticket_games_text(games: Seq<TicketGame>) -> Seq<char> {
    let reported = games.filter(|g: TicketGame| has_users(g.num_users));
    section_text("ticket_games"@, Seq::new(reported.len(), |i: int| ticket_game_text(reported[i])))
}

/// A player: the name, and the address or a null in its place.
pub open spec fn player_text(player: TrackedPlayer, include_ips: bool) -> Seq<char> {
    if include_ips {
        "            \""@ + sanitized(player.name@) + "\": \""@ + player.address@ + "\""@
    } else {
        "            \""@ + sanitized(player.name@) + "\": null"@
    }
}

/// The players of a title.
pub open spec fn players_text(game: TrackedGame, include_ips: bool) -> Seq<char> {
    let players = game.players@;
    "        \""@ + game.com_id@ + "\": {\n"@ + flat(
        Seq::new(
            players.len(),
            |i: int|
                player_text(players[i], include_ips) + mark(
                    i,
                    players.len() as int,
                    ",\n"@,
                    "\n"@,
                ),
        ),
    ) + "        }"@
}

/// Whether somebody plays a title.
pub open spec fn has_players(game: TrackedGame) -> bool {
    game.players@.len() > 0
}

pub open spec fn players_id_text(games: Seq<TrackedGame>, include_ips: bool) -> Seq<char> {
    let played = games.filter(|g: TrackedGame| has_players(g));
    section_text(
        "players_id"@,
        Seq::new(played.len(), |i: int| players_text(played[i], include_ips)),
    )
}

/// The usage summary.
pub open spec fn usage_text(tracker: GameTracker, include_ips: bool) -> Seq<char> {
    "{\n    \"num_users\" : "@ + decimal(tracker.num_users as int) + psn_games_text(
        tracker.psn_games@,
    ) + ticket_games_text(tracker.ticket_games@) + players_id_text(
        tracker.psn_games@,
        include_ips,
    ) + "\n}"@
}

fn write_hints(hints: &Vec<String>) -> (text: String)
    ensures
        text@ == hints_text(hints@),
{
    let ghost all = Seq::new(hints@.len(), |i: int| ", \""@ + sanitized(hints@[i]@) + "\""@);
    let mut text: String = String::new();
    proof {
        lemma_flat_whole(all);
    }
    for i in 0..hints.len()
        invariant
            all == Seq::new(hints@.len(), |i: int| ", \""@ + sanitized(hints@[i]@) + "\""@),
            text@ == flat(all.take(i as int)),
    {
        let mut piece: String = ", \"".to_owned();
        piece.append(sanitize_for_json(hints[i].as_str()).as_str());
        piece.append("\"");
        text.append(piece.as_str());
        proof {
            lemma_flat_next(all, i as int);
        }
    }
    text
}

fn write_psn_game(game: &TrackedGame) -> (text: String)
    ensures
        text@ == psn_game_text(*game),
{
    let mut text: String = "        \"".to_owned();
    text.append(game.com_id.as_str());
    text.append("\": [");
    text.append(decimal_text(game.num_users as i128).as_str());
    text.append(write_hints(&game.name_hints).as_str());
    text.append("]");
    text
}

fn write_ticket_game(game: &TicketGame) -> (text: String)
    ensures
        text@ == ticket_game_text(*game),
{
    let mut text: String = "        \"".to_owned();
    text.append(game.name.as_str());
    text.append("\": ");
    text.append(decimal_text(game.num_users as i128).as_str());
    text
}

fn write_section(name: &str, entries: &Vec<String>) -> (text: String)
    ensures
        text@ == section_text(name@, text_views(entries@)),
{
    if entries.len() == 0 {
        return String::new();
    }
    let ghost views = text_views(entries@);
    let ghost all = Seq::new(
        views.len(),
        |i: int| views[i] + mark(i, views.len() as int, ",\n"@, "\n"@),
    );
    let mut list: String = String::new();
    proof {
        lemma_flat_whole(all);
    }
    let len: usize = entries.len();
    for i in 0..len
        invariant
            len == entries@.len(),
            views == text_views(entries@),
            all == Seq::new(
                views.len(),
                |i: int| views[i] + mark(i, views.len() as int, ",\n"@, "\n"@),
            ),
            list@ == flat(all.take(i as int)),
    {
        let ghost before = list@;
        list.append(entries[i].as_str());
        list.append(
            if i != len - 1 {
                ",\n"
            } else {
                "\n"
            },
        );
        proof {
            lemma_flat_next(all, i as int);
            assert(list@ =~= before + all[i as int]);
        }
    }
    let mut text: String = ",\n    \"".to_owned();
    text.append(name);
    text.append("\": {\n");
    text.append(list.as_str());
    text.append("    }");
    text
}

fn write_psn_games(games: &Vec<TrackedGame>) -> (text: String)
    ensures
        text@ == psn_games_text(games@),
{
    let ghost keep = |g: TrackedGame| has_users(g.num_users);
    let mut entries: Vec<String> = Vec::new();
    proof {
        lemma_filter_whole(games@, keep);
    }
    for i in 0..games.len()
        invariant
            keep == (|g: TrackedGame| has_users(g.num_users)),
            text_views(entries@) == Seq::new(
                games@.take(i as int).filter(keep).len(),
                |j: int| psn_game_text(games@.take(i as int).filter(keep)[j]),
            ),
    {
        let ghost before = text_views(entries@);
        proof {
            lemma_filter_next(games@, i as int, keep);
        }
        if games[i].num_users != 0 {
            entries.push(write_psn_game(&games[i]));
            assert(text_views(entries@) =~= before.push(psn_game_text(games@[i as int])));
        }
        assert(text_views(entries@) =~= Seq::new(
            games@.take(i + 1).filter(keep).len(),
            |j: int| psn_game_text(games@.take(i + 1).filter(keep)[j]),
        ));
    }
    write_section("psn_games", &entries)
}

fn write_ticket_games(games: &Vec<TicketGame>) -> (text: String)
    ensures
        text@ == ticket_games_text(games@),
{
    let ghost keep = |g: TicketGame| has_users(g.num_users);
    let mut entries: Vec<String> = Vec::new();
    proof {
        lemma_filter_whole(games@, keep);
    }
    for i in 0..games.len()
        invariant
            keep == (|g: TicketGame| has_users(g.num_users)),
            text_views(entries@) == Seq::new(
                games@.take(i as int).filter(keep).len(),
                |j: int| ticket_game_text(games@.take(i as int).filter(keep)[j]),
            ),
    {
        let ghost before = text_views(entries@);
        proof {
            lemma_filter_next(games@, i as int, keep);
        }
        if games[i].num_users != 0 {
            entries.push(write_ticket_game(&games[i]));
            assert(text_views(entries@) =~= before.push(ticket_game_text(games@[i as int])));
        }
        assert(text_views(entries@) =~= Seq::new(
            games@.take(i + 1).filter(keep).len(),
            |j: int| ticket_game_text(games@.take(i + 1).filter(keep)[j]),
        ));
    }
    write_section("ticket_games", &entries)
}

fn write_player(player: &TrackedPlayer, include_ips: bool) -> (text: String)
    ensures
        text@ == player_text(*player, include_ips),
{
    let mut text: String = "            \"".to_owned();
    text.append(sanitize_for_json(player.name.as_str()).as_str());
    if include_ips {
        text.append("\": \"");
        text.append(player.address.as_str());
        text.append("\"");
    } else {
        text.append("\": null");
    }
    text
}

fn write_players(game: &TrackedGame, include_ips: bool) -> (text: String)
    ensures
        text@ == players_text(*game, include_ips),
{
    let ghost players = game.players@;
    let ghost all = Seq::new(
        players.len(),
        |i: int|
            player_text(players[i], include_ips) + mark(i, players.len() as int, ",\n"@, "\n"@),
    );
    let mut list: String = String::new();
    proof {
        lemma_flat_whole(all);
    }
    let len: usize = game.players.len();
    for i in 0..len
        invariant
            players == game.players@,
            len == players.len(),
            all == Seq::new(
                players.len(),
                |i: int|
                    player_text(players[i], include_ips) + mark(
                        i,
                        players.len() as int,
                        ",\n"@,
                        "\n"@,
                    ),
            ),
            list@ == flat(all.take(i as int)),
    {
        let ghost before = list@;
        list.append(write_player(&game.players[i], include_ips).as_str());
        list.append(
            if i != len - 1 {
                ",\n"
            } else {
                "\n"
            },
        );
        proof {
            lemma_flat_next(all, i as int);
            assert(list@ =~= before + all[i as int]);
        }
    }
    let mut text: String = "        \"".to_owned();
    text.append(game.com_id.as_str());
    text.append("\": {\n");
    text.append(list.as_str());
    text.append("        }");
    text
}

fn write_players_id(games: &Vec<TrackedGame>, include_ips: bool) -> (text: String)
    ensures
        text@ == players_id_text(games@, include_ips),
{
    let ghost keep = |g: TrackedGame| has_players(g);
    let mut entries: Vec<String> = Vec::new();
    proof {
        lemma_filter_whole(games@, keep);
    }
    for i in 0..games.len()
        invariant
            keep == (|g: TrackedGame| has_players(g)),
            text_views(entries@) == Seq::new(
                games@.take(i as int).filter(keep).len(),
                |j: int| players_text(games@.take(i as int).filter(keep)[j], include_ips),
            ),
    {
        let ghost before = text_views(entries@);
        proof {
            lemma_filter_next(games@, i as int, keep);
        }
        if games[i].players.len() > 0 {
            entries.push(write_players(&games[i], include_ips));
            assert(text_views(entries@) =~= before.push(
                players_text(games@[i as int], include_ips),
            ));
        }
        assert(text_views(entries@) =~= Seq::new(
            games@.take(i + 1).filter(keep).len(),
            |j: int| players_text(games@.take(i + 1).filter(keep)[j], include_ips),
        ));
    }
    write_section("players_id", &entries)
}

impl StatServer {
    /// The usage summary.
    ///
    /// `include_ips` fills in each player's address, which the tracker holds
    /// alongside their name. That is not something the game shows anyone, and
    /// the summary is served to everybody, so it is off unless the caller
    /// presents the operator API key; the names are reported either way, with a
    /// null in place of each address.
    pub fn game_tracker_to_json(tracker: &GameTracker, include_ips: bool) -> (text: String)
        ensures
            text@ == usage_text(*tracker, include_ips),
    {
        let mut text: String = "{\n    \"num_users\" : ".to_owned();
        text.append(decimal_text(tracker.num_users as i128).as_str());
        text.append(write_psn_games(&tracker.psn_games).as_str());
        text.append(write_ticket_games(&tracker.ticket_games).as_str());
        text.append(write_players_id(&tracker.psn_games, include_ips).as_str());
        text.append("\n}");
        text
    }
}

/// How a request for the usage summary goes on.
///
/// The cache holds the public answer. An operator asking for addresses is rare
/// and must not put them where the next caller would be served them, so that
/// answer is built fresh and never kept.
pub open spec fn usage_step<'a>(
    cache_life: u32,
    kept: CachedView,
    include_ips: bool,
    now: u32,
    tracker: Option<&'a GameTracker>,
) -> StatStepView<'a> {
    if cache_life != 0 && !include_ips && !kept.is_stale(now, cache_life) {
        StatStepView::Respond(kept.response)
    } else {
        match tracker {
            None => StatStepView::Ask(StatQuery::GameTracker),
            Some(t) => StatStepView::Respond(json(OK, usage_text(*t, include_ips))),
        }
    }
}

/// The public answer that is kept after a request for the usage summary.
pub open spec fn usage_kept(
    cache_life: u32,
    kept: CachedView,
    include_ips: bool,
    now: u32,
    tracker: Option<&GameTracker>,
) -> CachedView {
    match tracker {
        Some(t) if cache_life != 0 && !include_ips && kept.is_stale(now, cache_life) => CachedView {
            timestamp: now,
            response: json(OK, usage_text(*t, false)),
        },
        _ => kept,
    }
}

impl StatServer {
    /// Answers a request for the usage summary, out of the cache where it can.
    pub fn handle_usage_req<'a>(
        cache_life: u32,
        json_cache: &mut JsonCache,
        include_ips: bool,
        now: u32,
        tracker: Option<&'a GameTracker>,
    ) -> (step: StatStep<'a>)
        ensures
            step@ == usage_step(cache_life, old(json_cache)@.usage, include_ips, now, tracker),
            final(json_cache)@ == (JsonCacheView {
                usage: usage_kept(
                    cache_life,
                    old(json_cache)@.usage,
                    include_ips,
                    now,
                    tracker,
                ),
                ..old(json_cache)@
            }),
    {
        let keeps: bool = cache_life != 0 && !include_ips;
        if keeps && !json_cache.usage_cache.is_stale(now, cache_life) {
            return StatStep::Respond(json_cache.usage_cache.cached_response.clone());
        }
        let tracker: &'a GameTracker = match tracker {
            None => return StatStep::Ask(StatQuery::GameTracker),
            Some(tracker) => tracker,
        };
        let body: String = StatServer::game_tracker_to_json(tracker, include_ips);
        let response: HttpResponse = StatServer::json_response(OK, body);
        if keeps {
            // Without the time the entry would be stale on every request and the
            // answer rebuilt each time, which is the whole cost the cache exists
            // to avoid.
            json_cache.usage_cache = CachedResponse {
                timestamp: now,
                cached_response: response.clone(),
            };
        }
        StatStep::Respond(response)
    }
}

/// Whether the answer that is kept is one that anybody may see: a blank one, or
/// a usage summary without addresses.
pub open spec fn is_public(kept: CachedView) -> bool {
    kept == blank() || exists|t: GameTracker|
        kept.response == json(OK, #[trigger] usage_text(t, false))
}

/// Whatever is asked for, the usage summary that is kept stays without
/// addresses, and so does what a caller is served who is no operator.
pub proof fn law_addresses_are_never_kept<'a>(
    cache_life: u32,
    kept: CachedView,
    include_ips: bool,
    now: u32,
    tracker: Option<&'a GameTracker>,
)
    requires
        is_public(kept),
    ensures
        is_public(usage_kept(cache_life, kept, include_ips, now, tracker)),
        !include_ips ==> match usage_step(cache_life, kept, include_ips, now, tracker) {
            StatStepView::Respond(response) => is_public(CachedView { timestamp: 0, response }),
            _ => true,
        },
{
    if let Some(t) = tracker {
        assert(usage_text(*t, false) == usage_text(*t, false));
    }
}

/// A summary that was built is served again, as it was, until its time is over.
pub proof fn law_usage_is_served_while_fresh<'a>(
    cache_life: u32,
    kept: CachedView,
    built: u32,
    now: u32,
    tracker: &'a GameTracker,
    later: Option<&'a GameTracker>,
)
    requires
        cache_life > 0,
        kept.is_stale(built, cache_life),
        now <= built + cache_life,
    ensures
        usage_step(
            cache_life,
            usage_kept(cache_life, kept, false, built, Some(tracker)),
            false,
            now,
            later,
        ) == StatStepView::<'a>::Respond(json(OK, usage_text(*tracker, false))),
{
}

/// Whether two titles are the same but for the addresses of their players.
pub open spec fn same_but_addresses(a: TrackedGame, b: TrackedGame) -> bool {
    &&& a.com_id@ == b.com_id@
    &&& a.num_users == b.num_users
    &&& a.name_hints@ == b.name_hints@
    &&& a.players@.len() == b.players@.len()
    &&& forall|i: int|
        0 <= i < a.players@.len() ==> (#[trigger] a.players@[i]).name@ == b.players@[i].name@
}

/// Whether two lists of titles are the same but for the addresses of players.
pub open spec fn all_same_but_addresses(a: Seq<TrackedGame>, b: Seq<TrackedGame>) -> bool {
    a.len() == b.len() && forall|i: int|
        0 <= i < a.len() ==> same_but_addresses(#[trigger] a[i], b[i])
}

proof fn lemma_filter_alike(
    a: Seq<TrackedGame>,
    b: Seq<TrackedGame>,
    keep: spec_fn(TrackedGame) -> bool,
)
    requires
        all_same_but_addresses(a, b),
        forall|x: TrackedGame, y: TrackedGame|
            same_but_addresses(x, y) ==> #[trigger] keep(x) == #[trigger] keep(y),
    ensures
        all_same_but_addresses(a.filter(keep), b.filter(keep)),
    decreases a.len(),
{
    reveal(Seq::filter);
    if a.len() > 0 {
        let n = a.len() - 1;
        assert(same_but_addresses(a[n], b[n]));
        assert forall|i: int| 0 <= i < n implies same_but_addresses(
            #[trigger] a.drop_last()[i],
            b.drop_last()[i],
        ) by {
            assert(a.drop_last()[i] == a[i]);
        }
        lemma_filter_alike(a.drop_last(), b.drop_last(), keep);
    }
}

proof fn lemma_players_alike(a: TrackedGame, b: TrackedGame)
    requires
        same_but_addresses(a, b),
    ensures
        players_text(a, false) == players_text(b, false),
{
    let n = a.players@.len();
    let of_a = Seq::new(
        n,
        |i: int| player_text(a.players@[i], false) + mark(i, n as int, ",\n"@, "\n"@),
    );
    let of_b = Seq::new(
        n,
        |i: int| player_text(b.players@[i], false) + mark(i, n as int, ",\n"@, "\n"@),
    );
    assert forall|i: int| 0 <= i < n implies of_a[i] == of_b[i] by {
        assert(a.players@[i].name@ == b.players@[i].name@);
    }
    assert(of_a =~= of_b);
}

/// The public usage summary tells nothing of addresses: it is the same whatever
/// they are.
pub proof fn law_public_usage_tells_no_address(a: GameTracker, b: GameTracker)
    requires
        a.num_users == b.num_users,
        a.ticket_games@ == b.ticket_games@,
        all_same_but_addresses(a.psn_games@, b.psn_games@),
    ensures
        usage_text(a, false) == usage_text(b, false),
{
    let with_users = |g: TrackedGame| has_users(g.num_users);
    let with_players = |g: TrackedGame| has_players(g);
    lemma_filter_alike(a.psn_games@, b.psn_games@, with_users);
    lemma_filter_alike(a.psn_games@, b.psn_games@, with_players);
    let ra = a.psn_games@.filter(with_users);
    let rb = b.psn_games@.filter(with_users);
    assert forall|i: int| 0 <= i < ra.len() implies psn_game_text(ra[i]) == psn_game_text(
        rb[i],
    ) by {
        assert(same_but_addresses(ra[i], rb[i]));
    }
    assert(Seq::new(ra.len(), |i: int| psn_game_text(ra[i])) =~= Seq::new(
        rb.len(),
        |i: int| psn_game_text(rb[i]),
    ));
    let pa = a.psn_games@.filter(with_players);
    let pb = b.psn_games@.filter(with_players);
    assert forall|i: int| 0 <= i < pa.len() implies players_text(pa[i], false) == players_text(
        pb[i],
        false,
    ) by {
        lemma_players_alike(pa[i], pb[i]);
    }
    assert(Seq::new(pa.len(), |i: int| players_text(pa[i], false)) =~= Seq::new(
        pb.len(),
        |i: int| players_text(pb[i], false),
    ));
}

} // verus!
