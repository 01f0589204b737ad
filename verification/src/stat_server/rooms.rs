//! The rooms of a title.

use crate::com_id::ComId;
use crate::stat_server::http::{json, HttpResponse, OK};
use crate::stat_server::json::{
    flat, joined, lemma_filter_next, lemma_filter_whole, lemma_flat_next, lemma_flat_whole, mark,
};
use crate::stat_server::server::StatServer;
use crate::text::{decimal, decimal_text, sanitize_for_json, sanitized, truth, truth_text};
use vstd::prelude::*;
use vstd::string::*;

verus! {

/// The flag of a member that owns the room.
pub const OWNER_FLAG: u32 = 0x8000_0000;

/// A member of a room.
#[derive(Debug)]
pub struct RoomUser {
    pub npid: String,
    pub online_name: String,
    pub flag_attr: u32,
}

/// A room, with its members in the order that the room lists them.
#[derive(Debug)]
pub struct Room {
    pub com_id: ComId,
    pub room_id: u64,
    pub world_id: u32,
    pub lobby_id: u64,
    pub max_slot: u16,
    pub flag_attr: u32,
    pub room_password: Option<[u8; 8]>,
    pub users: Vec<RoomUser>,
}

/// A member of a room, in one line.
pub open spec fn member_text(user: RoomUser) -> Seq<char> {
    "      { \"npid\": \""@ + sanitized(user.npid@) + "\", \"online_name\": \""@ + sanitized(
        user.online_name@,
    ) + "\", \"is_owner\": "@ + truth(user.flag_attr & OWNER_FLAG != 0) + " }"@
}

/// The members of a room.
pub open spec fn members_text(users: Seq<RoomUser>) -> Seq<char> {
    flat(
        Seq::new(
            users.len(),
            |i: int| member_text(users[i]) + mark(i, users.len() as int, ",\n"@, "\n"@),
        ),
    )
}

/// A room.
pub open spec fn room_text(room: Room) -> Seq<char> {
    "  {\n    \"room_id\": "@ + decimal(room.room_id as int) + ",\n    \"world_id\": "@ + decimal(
        room.world_id as int,
    ) + ",\n    \"lobby_id\": "@ + decimal(room.lobby_id as int) + ",\n    \"max_slot\": "@
        + decimal(room.max_slot as int) + ",\n    \"cur_member_num\": "@ + decimal(
        room.users@.len() as int,
    ) + ",\n    \"flag_attr\": "@ + decimal(room.flag_attr as int) + ",\n    \"has_password\": "@
        + truth(room.room_password is Some) + ",\n    \"members\": [\n"@ + members_text(
        room.users@,
    ) + "    ]\n  }"@
}

/// The rooms of a title, among all rooms.
pub open spec fn rooms_of(rooms: Seq<Room>, com_id: Seq<u8>) -> Seq<Room> {
    rooms.filter(|r: Room| r.com_id@ == com_id)
}

/// What is written of each of a list of rooms.
pub open spec fn room_texts(rooms: Seq<Room>) -> Seq<Seq<char>> {
    Seq::new(rooms.len(), |i: int| room_text(rooms[i]))
}

/// The list of a title's rooms.
pub open spec fn rooms_text(rooms: Seq<Room>, com_id: Seq<u8>) -> Seq<char> {
    "[\n"@ + joined(room_texts(rooms_of(rooms, com_id)), ",\n"@) + "\n]"@
}

fn write_member(user: &RoomUser) -> (text: String)
    ensures
        text@ == member_text(*user),
{
    let mut text: String = "      { \"npid\": \"".to_owned();
    text.append(sanitize_for_json(user.npid.as_str()).as_str());
    text.append("\", \"online_name\": \"");
    text.append(sanitize_for_json(user.online_name.as_str()).as_str());
    text.append("\", \"is_owner\": ");
    text.append(truth_text(user.flag_attr & OWNER_FLAG != 0));
    text.append(" }");
    text
}

fn write_members(users: &Vec<RoomUser>) -> (text: String)
    ensures
        text@ == members_text(users@),
{
    let ghost all = Seq::new(
        users@.len(),
        |i: int| member_text(users@[i]) + mark(i, users@.len() as int, ",\n"@, "\n"@),
    );
    let mut text: String = String::new();
    proof {
        lemma_flat_whole(all);
    }
    let len: usize = users.len();
    for i in 0..len
        invariant
            len == users@.len(),
            all == Seq::new(
                users@.len(),
                |i: int| member_text(users@[i]) + mark(i, users@.len() as int, ",\n"@, "\n"@),
            ),
            text@ == flat(all.take(i as int)),
    {
        let ghost before = text@;
        text.append(write_member(&users[i]).as_str());
        text.append(
            if i != len - 1 {
                ",\n"
            } else {
                "\n"
            },
        );
        proof {
            lemma_flat_next(all, i as int);
            assert(text@ =~= before + all[i as int]);
        }
    }
    text
}

fn write_room(room: &Room) -> (text: String)
    ensures
        text@ == room_text(*room),
{
    let mut text: String = "  {\n    \"room_id\": ".to_owned();
    text.append(decimal_text(room.room_id as i128).as_str());
    text.append(",\n    \"world_id\": ");
    text.append(decimal_text(room.world_id as i128).as_str());
    text.append(",\n    \"lobby_id\": ");
    text.append(decimal_text(room.lobby_id as i128).as_str());
    text.append(",\n    \"max_slot\": ");
    text.append(decimal_text(room.max_slot as i128).as_str());
    text.append(",\n    \"cur_member_num\": ");
    text.append(decimal_text(room.users.len() as i128).as_str());
    text.append(",\n    \"flag_attr\": ");
    text.append(decimal_text(room.flag_attr as i128).as_str());
    text.append(",\n    \"has_password\": ");
    text.append(truth_text(room.room_password.is_some()));
    text.append(",\n    \"members\": [\n");
    text.append(write_members(&room.users).as_str());
    text.append("    ]\n  }");
    text
}

impl StatServer {
    /// The list of a title's rooms, among all rooms in the order that the room
    /// manager walks them.
    pub fn rooms_to_json(rooms: &Vec<Room>, com_id: &ComId) -> (text: String)
        ensures
            text@ == rooms_text(rooms@, com_id@),
    {
        let ghost keep = |r: Room| r.com_id@ == com_id@;
        let mut list: String = String::new();
        let mut first_room: bool = true;
        proof {
            lemma_filter_whole(rooms@, keep);
        }
        for i in 0..rooms.len()
            invariant
                keep == (|r: Room| r.com_id@ == com_id@),
                list@ == joined(room_texts(rooms@.take(i as int).filter(keep)), ",\n"@),
                first_room <==> rooms@.take(i as int).filter(keep).len() == 0,
        {
            let ghost before = rooms@.take(i as int).filter(keep);
            let ghost list_before = list@;
            proof {
                lemma_filter_next(rooms@, i as int, keep);
            }
            if same_com_id(&rooms[i].com_id, com_id) {
                if !first_room {
                    list.append(",\n");
                }
                first_room = false;
                list.append(write_room(&rooms[i]).as_str());
                proof {
                    let after = room_texts(before.push(rooms@[i as int]));
                    assert(after.drop_last() =~= room_texts(before));
                    if before.len() == 0 {
                        assert(list@ =~= after[0]);
                    }
                }
            }
        }
        let mut text: String = "[\n".to_owned();
        text.append(list.as_str());
        text.append("\n]");
        text
    }

    /// Answers a request for the rooms of a title.
    pub fn handle_rooms_req(rooms: &Vec<Room>, com_id: &ComId) -> (response: HttpResponse)
        ensures
            response@ == json(OK, rooms_text(rooms@, com_id@)),
    {
        StatServer::json_response(OK, StatServer::rooms_to_json(rooms, com_id))
    }
}

fn same_com_id(a: &ComId, b: &ComId) -> (same: bool)
    ensures
        same == (a@ == b@),
{
    for i in 0..12
        invariant
            forall|j: int| 0 <= j < i ==> a@[j] == b@[j],
    {
        if a[i] != b[i] {
            return false;
        }
    }
    assert(a@ =~= b@);
    true
}

} // verus!
