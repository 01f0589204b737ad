//! Match lists.

use crate::stat_server::json::{flat, lemma_flat_next, lemma_flat_whole, mark};
use crate::stat_server::server::StatServer;
use crate::text::{decimal, decimal_text, sanitize_for_json, sanitized};
use vstd::prelude::*;
use vstd::string::*;

verus! {

/// A match that was played, as the database records it.
#[derive(Debug)]
pub struct DbMatchRecord {
    pub match_id: i64,
    pub room_id: u64,
    pub timestamp: u64,
    pub npid_1: String,
    pub npid_2: String,
    /// Who won, where the result was recovered.
    pub winner_npid: Option<String>,
}

/// The winner of a match. A null means that the result was never recovered, not
/// a draw: nothing reports the result of a match directly, and the save it is
/// read from may never arrive.
pub open spec fn winner_text(winner: Option<String>) -> Seq<char> {
    match winner {
        Some(npid) => "\""@ + sanitized(npid@) + "\""@,
        None => "null"@,
    }
}

/// A match.
pub open spec fn match_text(m: DbMatchRecord) -> Seq<char> {
    "  {\n    \"match_id\": "@ + decimal(m.match_id as int) + ",\n    \"room_id\": "@ + decimal(
        m.room_id as int,
    ) + ",\n    \"timestamp\": "@ + decimal(m.timestamp as int) + ",\n    \"players\": [\""@
        + sanitized(m.npid_1@) + "\", \""@ + sanitized(m.npid_2@) + "\"],\n    \"winner\": "@
        + winner_text(m.winner_npid) + "\n"@
}

/// A list of matches.
pub open spec fn matches_text(matches: Seq<DbMatchRecord>) -> Seq<char> {
    "[\n"@ + flat(
        Seq::new(
            matches.len(),
            |i: int|
                match_text(matches[i]) + mark(i, matches.len() as int, "  },\n"@, "  }\n"@),
        ),
    ) + "]"@
}

fn write_winner(winner: &Option<String>) -> (text: String)
    ensures
        text@ == winner_text(*winner),
{
    match winner {
        Some(npid) => {
            let mut text: String = "\"".to_owned();
            text.append(sanitize_for_json(npid.as_str()).as_str());
            text.append("\"");
            text
        },
        None => "null".to_owned(),
    }
}

fn write_match(m: &DbMatchRecord) -> (text: String)
    ensures
        text@ == match_text(*m),
{
    let mut text: String = "  {\n    \"match_id\": ".to_owned();
    text.append(decimal_text(m.match_id as i128).as_str());
    text.append(",\n    \"room_id\": ");
    text.append(decimal_text(m.room_id as i128).as_str());
    text.append(",\n    \"timestamp\": ");
    text.append(decimal_text(m.timestamp as i128).as_str());
    text.append(",\n    \"players\": [\"");
    text.append(sanitize_for_json(m.npid_1.as_str()).as_str());
    text.append("\", \"");
    text.append(sanitize_for_json(m.npid_2.as_str()).as_str());
    text.append("\"],\n    \"winner\": ");
    text.append(write_winner(&m.winner_npid).as_str());
    text.append("\n");
    text
}

impl StatServer {
    /// A list of matches.
    pub fn matches_to_json(matches: &Vec<DbMatchRecord>) -> (text: String)
        ensures
            text@ == matches_text(matches@),
    {
        let ghost all = Seq::new(
            matches@.len(),
            |i: int|
                match_text(matches@[i]) + mark(i, matches@.len() as int, "  },\n"@, "  }\n"@),
        );
        let mut list: String = String::new();
        proof {
            lemma_flat_whole(all);
        }
        let len: usize = matches.len();
        for i in 0..len
            invariant
                len == matches@.len(),
                all == Seq::new(
                    matches@.len(),
                    |i: int|
                        match_text(matches@[i]) + mark(
                            i,
                            matches@.len() as int,
                            "  },\n"@,
                            "  }\n"@,
                        ),
                ),
                list@ == flat(all.take(i as int)),
        {
            let ghost before = list@;
            list.append(write_match(&matches[i]).as_str());
            list.append(
                if i != len - 1 {
                    "  },\n"
                } else {
                    "  }\n"
                },
            );
            proof {
                lemma_flat_next(all, i as int);
                assert(list@ =~= before + all[i as int]);
            }
        }
        let mut text: String = "[\n".to_owned();
        text.append(list.as_str());
        text.append("]");
        text
    }
}

} // verus!
