//! Communication ids: the twelve bytes that name a title.

use vstd::prelude::*;
use vstd::utf8::*;

verus! {

/// Bytes in a communication id.
pub const COMMUNICATION_ID_SIZE: usize = 12;

/// The communication id of a title, such as `NPWR02973_00`.
pub type ComId = [u8; 12];

/// The communication id of Tekken Tag Tournament 2, `NPWR02973_00`.
pub open spec fn npwr02973_00() -> Seq<u8> {
    seq![78u8, 80, 87, 82, 48, 50, 57, 55, 51, 95, 48, 48]
}

/// Whether `com_id` names Tekken Tag Tournament 2.
pub fn is_npwr02973_00(com_id: &ComId) -> (same: bool)
    ensures
        same == (com_id@ == npwr02973_00()),
{
    let same: bool = com_id[0] == 78 && com_id[1] == 80 && com_id[2] == 87 && com_id[3] == 82
        && com_id[4] == 48 && com_id[5] == 50 && com_id[6] == 57 && com_id[7] == 55
        && com_id[8] == 51 && com_id[9] == 95 && com_id[10] == 48 && com_id[11] == 48;
    proof {
        if same {
            assert(com_id@ =~= npwr02973_00());
        }
    }
    same
}

/// The communication id that text spells: its bytes, when there are exactly
/// twelve of them.
pub open spec fn spelled_com_id(text: Seq<char>) -> Option<ComId> {
    let b = encode_utf8(text);
    if b.len() == COMMUNICATION_ID_SIZE {
        Some([b[0], b[1], b[2], b[3], b[4], b[5], b[6], b[7], b[8], b[9], b[10], b[11]])
    } else {
        None
    }
}

/// Reads a communication id out of text: its bytes, when there are exactly twelve of them.
pub fn com_id_from_str(text: &str) -> (com_id: Option<ComId>)
    ensures
        com_id == spelled_com_id(text@),
        com_id matches Some(id) ==> id@ == encode_utf8(text@),
{
    let bytes: &[u8] = text.as_bytes();
    if bytes.len() != COMMUNICATION_ID_SIZE {
        return None;
    }
    let id: ComId = [
        bytes[0], bytes[1], bytes[2], bytes[3], bytes[4], bytes[5], bytes[6], bytes[7], bytes[8],
        bytes[9], bytes[10], bytes[11],
    ];
    assert(id@ =~= encode_utf8(text@));
    Some(id)
}

} // verus!
