//! What the stat server asks of its host, and what it hands to it.

use crate::com_id::ComId;
use crate::stat_server::http::{HttpResponse, ResponseView};
use vstd::prelude::*;

verus! {

/// The most bytes that the body of a request may have.
pub const EXTERNAL_USER_API_MAX_BODY_SIZE: usize = 4096;

/// A request to check a user's credentials.
#[derive(Debug)]
pub struct ExternalUserVerifyRequest {
    pub username: String,
    pub password: String,
}

/// An account, as the database hands it out.
#[derive(Debug)]
pub struct UserInfo {
    pub user_id: i64,
    pub username: String,
    pub online_name: String,
    pub avatar_url: String,
    pub admin: bool,
    pub banned: bool,
}

/// The account that credentials belong to.
#[derive(Debug)]
pub struct ExternalUserVerifyResponse {
    pub user_id: i64,
    pub username: String,
    pub online_name: String,
    pub avatar_url: String,
    pub admin: bool,
    pub banned: bool,
}

/// A request to set the rank of one character.
#[derive(Debug)]
pub struct AdminSetRankRequest {
    pub npid: String,
    pub com_id: String,
    pub slot: i32,
    pub character: usize,
    pub rank: u8,
    pub rank_points: Option<u16>,
    /// Write even while the account is connected. The client holds the save in
    /// memory for the length of its session and writes it back on its next save,
    /// so an edit made now is discarded; only set this for a session known to be
    /// stale.
    pub force: bool,
}

/// The slot that a request means which names none.
pub fn default_slot() -> (slot: i32)
    ensures
        slot == 1,
{
    1
}

/// The rank of a character, as a save holds it.
#[derive(Clone, Copy, Debug, PartialEq, Eq, Structural)]
pub struct CharacterRank {
    pub character: usize,
    pub rank: u8,
    pub rank_points: u16,
}

/// Why a save could not be read or edited.
#[derive(Clone, Copy, Debug, PartialEq, Eq, Structural)]
pub enum EditError {
    /// The layout of the title's saves is not known.
    UnsupportedTitle,
    /// The title has no such character.
    NoSuchCharacter,
    /// The save is not laid out as the title's saves are.
    MalformedSave,
}

/// The rank of a character, in an answer.
#[derive(Clone, Copy, Debug, PartialEq, Eq, Structural)]
pub struct AdminCharacterRank {
    pub rank: u8,
    pub rank_points: u16,
}

/// What became of a request to set a rank.
#[derive(Debug)]
pub struct AdminSetRankResponse {
    pub npid: String,
    pub character: usize,
    pub previous: AdminCharacterRank,
    pub current: AdminCharacterRank,
    pub data_id: u64,
}

/// A running record of matches.
#[derive(Clone, Copy, Debug, PartialEq, Eq, Structural)]
pub struct PlayerRecord {
    pub wins: u32,
    pub losses: u32,
}

/// The ranks of an account's characters.
#[derive(Debug)]
pub struct PlayerRanksResponse {
    pub npid: String,
    pub online_name: String,
    pub com_id: String,
    pub slot: i32,
    pub data_id: u64,
    /// The account's running record as the title itself keeps it, for a title
    /// whose save layout is known. Left out otherwise.
    pub record: Option<PlayerRecord>,
    pub characters: Vec<CharacterRank>,
}

/// An account's place on a leaderboard.
#[derive(Debug)]
pub struct LeaderboardEntry {
    pub position: usize,
    pub npid: String,
    pub online_name: String,
    /// The rank of the account's highest ranked character, which is also what
    /// the client offers for matchmaking.
    pub best_rank: u8,
    pub best_rank_points: u16,
    pub best_character: usize,
    /// The record the title itself keeps, over the account's whole lifetime.
    pub record: PlayerRecord,
    /// What this server saw: matches played here whose result it recovered.
    /// Always the smaller pair of numbers, and zero for a player whose matches
    /// all predate the server recording them.
    pub server_record: PlayerRecord,
}

/// A leaderboard.
#[derive(Debug)]
pub struct LeaderboardResponse {
    pub com_id: String,
    pub slot: i32,
    /// How many accounts hold a readable save, which is what was ranked - not
    /// how many are in `entries`, which a limit cuts short.
    pub ranked_players: usize,
    /// Accounts holding a save this title's layout could not be read from.
    pub unreadable_saves: usize,
    pub entries: Vec<LeaderboardEntry>,
}

/// Something to be written as JSON.
#[derive(Debug)]
pub enum Document {
    VerifiedUser(ExternalUserVerifyResponse),
    SetRank(AdminSetRankResponse),
    Ranks(PlayerRanksResponse),
    Leaderboard(LeaderboardResponse),
}

/// What is in a [`Document`].
pub enum DocumentView {
    VerifiedUser {
        user_id: i64,
        username: Seq<char>,
        online_name: Seq<char>,
        avatar_url: Seq<char>,
        admin: bool,
        banned: bool,
    },
    SetRank {
        npid: Seq<char>,
        character: usize,
        previous: AdminCharacterRank,
        current: AdminCharacterRank,
        data_id: u64,
    },
    Ranks {
        npid: Seq<char>,
        online_name: Seq<char>,
        com_id: Seq<char>,
        slot: i32,
        data_id: u64,
        record: Option<PlayerRecord>,
        characters: Seq<CharacterRank>,
    },
    Leaderboard {
        com_id: Seq<char>,
        slot: i32,
        ranked_players: nat,
        unreadable_saves: nat,
        entries: Seq<LeaderboardEntry>,
    },
}

impl View for Document {
    type V = DocumentView;

    open spec fn view(&self) -> DocumentView {
        match *self {
            Document::VerifiedUser(user) => DocumentView::VerifiedUser {
                user_id: user.user_id,
                username: user.username@,
                online_name: user.online_name@,
                avatar_url: user.avatar_url@,
                admin: user.admin,
                banned: user.banned,
            },
            Document::SetRank(change) => DocumentView::SetRank {
                npid: change.npid@,
                character: change.character,
                previous: change.previous,
                current: change.current,
                data_id: change.data_id,
            },
            Document::Ranks(ranks) => DocumentView::Ranks {
                npid: ranks.npid@,
                online_name: ranks.online_name@,
                com_id: ranks.com_id@,
                slot: ranks.slot,
                data_id: ranks.data_id,
                record: ranks.record,
                characters: ranks.characters@,
            },
            Document::Leaderboard(board) => DocumentView::Leaderboard {
                com_id: board.com_id@,
                slot: board.slot,
                ranked_players: board.ranked_players as nat,
                unreadable_saves: board.unreadable_saves as nat,
                entries: board.entries@,
            },
        }
    }
}

/// What the host has to do or find out. A question to the database that cannot
/// be put to it at all is answered with [`crate::error::DbError::Internal`].
#[derive(Clone, Copy, Debug)]
pub enum StatQuery<'a> {
    /// Who is playing what.
    GameTracker,
    /// The names of the players of a title, if it is tracked.
    Players { com_id: ComId },
    /// The score boards of a title.
    ScoreBoards { com_id: ComId },
    /// How a score board is set up, if it is there.
    ScoreBoard { com_id: ComId, board_id: u32 },
    /// `count` scores of a board, from the one at rank `start` on.
    ScoreRange {
        com_id: ComId,
        board_id: u32,
        start: u32,
        count: u32,
        with_comments: bool,
        with_infos: bool,
    },
    /// The body of the request, if it is no longer than `max_size` bytes and
    /// holds an [`ExternalUserVerifyRequest`].
    ReadVerifyRequest { max_size: usize },
    /// The body of the request, if it is no longer than `max_size` bytes and
    /// holds an [`AdminSetRankRequest`].
    ReadSetRankRequest { max_size: usize },
    /// The account that a name and a password belong to.
    CheckUser { username: &'a String, password: &'a String },
    /// Whether a name is one that an account can have.
    IsValidUsername { npid: &'a String },
    /// The account with an npid.
    UserId { npid: &'a String },
    /// The online name of an account.
    OnlineName { user_id: i64 },
    /// What a slot points at: the id of the save, and the info blob.
    SlotData { com_id: ComId, user_id: i64, slot: i32 },
    /// Every account that has a save in a slot of a title.
    SlotOwners { com_id: ComId, slot: i32 },
    /// How many matches of a title each account won and lost here.
    MatchTallies { com_id: ComId },
    /// The last `limit` matches of a title.
    RecentMatches { com_id: ComId, limit: u32 },
    /// The last `limit` matches of an account.
    UserMatches { user_id: i64, limit: u32 },
    /// Read a save.
    ReadSave { data_id: u64 },
    /// The ranks that a save holds.
    ReadRanks { com_id: ComId, save: &'a Vec<u8> },
    /// The running record that a save holds.
    AccountRecord { com_id: ComId, save: &'a Vec<u8> },
    /// Read a save, the ranks and the running record it holds.
    ReadStanding { com_id: ComId, data_id: u64 },
    /// A save with the rank of one character changed.
    EditSave {
        com_id: ComId,
        save: &'a Vec<u8>,
        character: usize,
        rank: u8,
        rank_points: Option<u16>,
    },
    /// Write a new save. The answer is its id, or 0 where that failed.
    CreateSave { save: &'a Vec<u8> },
    /// The time.
    Timestamp,
    /// Point a slot at a save, whatever it points at now.
    SetSlotData {
        com_id: ComId,
        user_id: i64,
        slot: i32,
        data_id: u64,
        info: Option<&'a Vec<u8>>,
        author_id: i64,
        timestamp: u64,
    },
    /// Put a save into a slot's history.
    RecordHistory { com_id: ComId, user_id: i64, slot: i32, data_id: u64, timestamp: u64 },
}

/// Where a request stands.
#[derive(Debug)]
pub enum StatStep<'a> {
    /// The host has something to do or find out.
    Ask(StatQuery<'a>),
    /// The host has to write this as JSON.
    Encode(Document),
    /// The response to send.
    Respond(HttpResponse),
}

/// What is in a [`StatStep`].
pub enum StatStepView<'a> {
    Ask(StatQuery<'a>),
    Encode(DocumentView),
    Respond(ResponseView),
}

impl<'a> View for StatStep<'a> {
    type V = StatStepView<'a>;

    open spec fn view(&self) -> StatStepView<'a> {
        match *self {
            StatStep::Ask(query) => StatStepView::Ask(query),
            StatStep::Encode(document) => StatStepView::Encode(document@),
            StatStep::Respond(response) => StatStepView::Respond(response@),
        }
    }
}

/// All that a document holds is seen.
pub proof fn law_all_of_a_document_is_seen(document: Document)
    ensures
        match (document, document@) {
            (
                Document::VerifiedUser(user),
                DocumentView::VerifiedUser {
                    user_id,
                    username,
                    online_name,
                    avatar_url,
                    admin,
                    banned,
                },
            ) => {
                &&& user_id == user.user_id
                &&& username == user.username@
                &&& online_name == user.online_name@
                &&& avatar_url == user.avatar_url@
                &&& admin == user.admin
                &&& banned == user.banned
            },
            (
                Document::SetRank(change),
                DocumentView::SetRank { npid, character, previous, current, data_id },
            ) => {
                &&& npid == change.npid@
                &&& character == change.character
                &&& previous == change.previous
                &&& current == change.current
                &&& data_id == change.data_id
            },
            (
                Document::Ranks(ranks),
                DocumentView::Ranks { npid, online_name, com_id, slot, data_id, record, characters },
            ) => {
                &&& npid == ranks.npid@
                &&& online_name == ranks.online_name@
                &&& com_id == ranks.com_id@
                &&& slot == ranks.slot
                &&& data_id == ranks.data_id
                &&& record == ranks.record
                &&& characters == ranks.characters@
            },
            (
                Document::Leaderboard(board),
                DocumentView::Leaderboard {
                    com_id,
                    slot,
                    ranked_players,
                    unreadable_saves,
                    entries,
                },
            ) => {
                &&& com_id == board.com_id@
                &&& slot == board.slot
                &&& ranked_players == board.ranked_players
                &&& unreadable_saves == board.unreadable_saves
                &&& entries == board.entries@
            },
            _ => false,
        },
{
}

/// All that a request asks, has written or is answered with is seen.
pub proof fn law_all_of_a_request_is_seen(step: StatStep)
    ensures
        match (step, step@) {
            (StatStep::Ask(query), StatStepView::Ask(seen)) => seen == query,
            (StatStep::Encode(document), StatStepView::Encode(seen)) => seen == document@,
            (StatStep::Respond(response), StatStepView::Respond(seen)) => seen == response@,
            _ => false,
        },
{
}

} // verus!
