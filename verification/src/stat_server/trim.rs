//! Cutting a leaderboard down to what a request asked for.

use crate::stat_server::http::{json, HttpResponse, OK};
use crate::stat_server::server::StatServer;
use vstd::prelude::*;

verus! {

/// `serde_json::Value`: a JSON document in memory.
#[verifier::external_type_specification]
#[verifier::external_body]
pub struct ExJsonValue(serde_json::Value);

/// `serde_json::Error`: why a text is no JSON document, or a document could not
/// be written.
#[verifier::external_type_specification]
#[verifier::external_body]
pub struct ExJsonError(serde_json::Error);

/// The document that `serde_json::from_str` reads out of a text, where it is
/// one.
pub uninterp spec fn json_document(text: Seq<char>) -> Option<serde_json::Value>;

/// The text that `serde_json::to_string` writes for a document, where it can.
pub uninterp spec fn json_document_text(value: serde_json::Value) -> Option<Seq<char>>;

/// What a document that is an object holds under each of its keys. Empty for any
/// other document.
pub uninterp spec fn json_members(value: serde_json::Value) -> Map<Seq<char>, serde_json::Value>;

/// A document that is an object, with what it holds under one key replaced.
pub uninterp spec fn json_with_member(
    value: serde_json::Value,
    key: Seq<char>,
    member: serde_json::Value,
) -> serde_json::Value;

/// The items of a document that is an array.
pub uninterp spec fn json_items(value: serde_json::Value) -> Option<Seq<serde_json::Value>>;

/// The document that is an array of the given items.
pub uninterp spec fn json_array(items: Seq<serde_json::Value>) -> serde_json::Value;

/// `serde_json::from_str` to a `serde_json::Value`. The result depends on the
/// text alone.
#[verifier::external_body]
fn parse_document(text: &str) -> (parsed: Result<serde_json::Value, serde_json::Error>)
    ensures
        match parsed {
            Ok(value) => json_document(text@) == Some(value),
            Err(_) => json_document(text@) is None,
        },
{
    serde_json::from_str::<serde_json::Value>(text)
}

/// Whether a JSON text holds a number with a fraction or an exponent. `quoted`
/// tells whether the text starts inside of a string.
pub open spec fn has_fraction(text: Seq<char>, quoted: bool) -> bool
    decreases text.len(),
{
    if text.len() == 0 {
        false
    } else if quoted && text[0] == '\\' && text.len() >= 2 {
        has_fraction(text.skip(2), true)
    } else if quoted {
        has_fraction(text.skip(1), text[0] != '"')
    } else {
        text[0] == '.' || is_exponent(text) || has_fraction(text.skip(1), text[0] == '"')
    }
}

/// Whether a text starts with a digit and the mark of an exponent.
pub open spec fn is_exponent(text: Seq<char>) -> bool {
    text.len() >= 2 && '0' <= text[0] <= '9' && (text[1] == 'e' || text[1] == 'E')
}

/// `serde_json::to_string` of a `serde_json::Value`. The result depends on the
/// document alone.
///
/// A written text that `serde_json::from_str` takes gives the same document
/// again where its numbers are whole: those are written digit by digit and read
/// as the integers they were. Nothing is said of a text with fractions, as
/// reading one can be off in the last place, nor of one that is nested too deep
/// to be read.
#[verifier::external_body]
fn write_document(value: &serde_json::Value) -> (text: Result<String, serde_json::Error>)
    ensures
        match text {
            Ok(t) => {
                &&& json_document_text(*value) == Some(t@)
                &&& json_document(t@) is Some && !has_fraction(t@, false) ==> json_document(t@)
                    == Some(*value)
            },
            Err(_) => json_document_text(*value) is None,
        },
{
    serde_json::to_string(value)
}

/// `serde_json::Value::get_mut` with a string: a way into what an object holds
/// under the key, if it holds anything. What is under the other keys stays, and
/// the object as a whole where what is under the key is left as it was. Whatever
/// is put under the key afterwards takes the place of what was put there before.
#[verifier::external_body]
fn member_mut<'a>(value: &'a mut serde_json::Value, key: &str) -> (member: Option<
    &'a mut serde_json::Value,
>)
    ensures
        match member {
            Some(m) => {
                &&& json_members(*old(value)).contains_key(key@)
                &&& json_members(*old(value))[key@] == *m
                &&& *final(value) == json_with_member(*old(value), key@, *final(m))
                &&& json_members(*final(value)) == json_members(*old(value)).insert(
                    key@,
                    *final(m),
                )
                &&& *final(m) == *m ==> *final(value) == *old(value)
                &&& forall|other: serde_json::Value| #[trigger]
                    json_with_member(*final(value), key@, other) == json_with_member(
                        *old(value),
                        key@,
                        other,
                    )
            },
            None => !json_members(*old(value)).contains_key(key@) && *final(value) == *old(value),
        },
{
    value.get_mut(key)
}

/// `serde_json::Value::as_array_mut`: a way into the items of an array. Any
/// other document has none.
pub assume_specification[ serde_json::Value::as_array_mut ](
    value: &mut serde_json::Value,
) -> (items: Option<&mut Vec<serde_json::Value>>)
    ensures
        match items {
            Some(list) => {
                &&& json_items(*old(value)) == Some(list@)
                &&& *final(value) == json_array(final(list)@)
                &&& json_items(*final(value)) == Some(final(list)@)
            },
            None => json_items(*old(value)) is None && *final(value) == *old(value),
        },
;

/// The entries of a board, where it lists any.
pub open spec fn board_entries(board: serde_json::Value) -> Option<Seq<serde_json::Value>> {
    if json_members(board).contains_key("entries"@) {
        json_items(json_members(board)["entries"@])
    } else {
        None
    }
}

/// The first `limit` of a list of entries.
pub open spec fn first_entries(entries: Seq<serde_json::Value>, limit: u32) -> Seq<
    serde_json::Value,
> {
    if limit <= entries.len() {
        entries.subrange(0, limit as int)
    } else {
        entries
    }
}

/// A board with no more than its first `limit` entries. A document without
/// entries stays as it is.
pub open spec fn trimmed_board(board: serde_json::Value, limit: u32) -> serde_json::Value {
    match board_entries(board) {
        None => board,
        Some(entries) => json_with_member(
            board,
            "entries"@,
            json_array(first_entries(entries, limit)),
        ),
    }
}

/// What is sent for a board that `text` holds, cut down to `limit` entries. A
/// text that is no JSON document is sent as it is, and so is one whose board
/// cannot be written again.
pub open spec fn trimmed_text(text: Seq<char>, limit: u32) -> Seq<char> {
    match json_document(text) {
        None => text,
        Some(board) => match json_document_text(trimmed_board(board, limit)) {
            Some(written) => written,
            None => text,
        },
    }
}

/// The smaller of two limits.
pub open spec fn smaller(a: u32, b: u32) -> u32 {
    if a <= b {
        a
    } else {
        b
    }
}

/// Cutting a list down twice leaves what cutting it down once to the smaller of
/// the two limits does.
pub proof fn law_trimming_twice_is_trimming_once(entries: Seq<serde_json::Value>, a: u32, b: u32)
    ensures
        first_entries(first_entries(entries, a), b) == first_entries(entries, smaller(a, b)),
{
    assert(first_entries(first_entries(entries, a), b) =~= first_entries(entries, smaller(a, b)));
}

/// Of a list that is cut down the first entries stay, as many as the limit allows
/// and in their order.
pub proof fn law_trimming_keeps_the_first(entries: Seq<serde_json::Value>, limit: u32, i: int)
    ensures
        first_entries(entries, limit).len() == (if limit < entries.len() {
            limit as nat
        } else {
            entries.len()
        }),
        0 <= i < first_entries(entries, limit).len() ==> first_entries(entries, limit)[i]
            == entries[i],
{
}

/// Whether what is sent for a board, cut down to `a` entries, can be cut down
/// again to `b`: it can be read, its numbers are whole, and the board can be
/// written with the smaller number of entries. A text that is no JSON document
/// always can.
pub open spec fn can_be_trimmed_again(text: Seq<char>, a: u32, b: u32) -> bool {
    json_document(text) matches Some(board) ==> {
        &&& json_document_text(trimmed_board(board, a)) matches Some(written)
        &&& json_document(written) is Some
        &&& !has_fraction(written, false)
        &&& json_document_text(trimmed_board(board, smaller(a, b))) is Some
    }
}

impl StatServer {
    /// Cuts a board that has been read down to its first `limit` entries.
    /// `ranked_players` and all else stay as they are. Cutting the result down
    /// again gives what cutting the board down once to the smaller limit does.
    pub fn trim_board(board: serde_json::Value, limit: u32) -> (trimmed: serde_json::Value)
        ensures
            trimmed == trimmed_board(board, limit),
            board_entries(board) matches Some(entries) ==> board_entries(trimmed) == Some(
                first_entries(entries, limit),
            ),
            json_members(trimmed).remove("entries"@) == json_members(board).remove("entries"@),
            json_members(trimmed).contains_key("entries"@) == json_members(board).contains_key(
                "entries"@,
            ),
            json_members(board).contains_key("entries"@) ==> match json_items(
                json_members(board)["entries"@],
            ) {
                Some(listed) => json_items(json_members(trimmed)["entries"@]) matches Some(left) && {
                    &&& left.len() <= limit
                    &&& left.len() == limit || left.len() == listed.len()
                    &&& left.len() <= listed.len()
                    &&& forall|i: int| 0 <= i < left.len() ==> #[trigger] left[i] == listed[i]
                },
                None => trimmed == board,
            },
            forall|other: u32| #[trigger]
                trimmed_board(trimmed, other) == trimmed_board(board, smaller(limit, other)),
    {
        let mut trimmed: serde_json::Value = board;
        if let Some(entries) = member_mut(&mut trimmed, "entries") {
            if let Some(list) = entries.as_array_mut() {
                list.truncate(limit as usize);
            }
        }
        assert(json_members(trimmed).remove("entries"@) =~= json_members(board).remove(
            "entries"@,
        ));
        assert forall|other: u32| #[trigger]
            trimmed_board(trimmed, other) == trimmed_board(board, smaller(limit, other)) by {
            if let Some(entries) = board_entries(board) {
                law_trimming_twice_is_trimming_once(entries, limit, other);
            }
        }
        trimmed
    }

    /// Cuts a cached board down to the entries that a request asked for.
    ///
    /// The board is cached whole, so this reads it again rather than keeping a
    /// copy per limit. Cutting the body down again gives the body that cutting
    /// the board down once to the smaller limit does, where it can be read again.
    pub fn trim_leaderboard(text: String, limit: u32) -> (response: HttpResponse)
        ensures
            response@ == json(OK, trimmed_text(text@, limit)),
            json_document(text@) is None ==> response@ == json(OK, text@),
            forall|other: u32|
                can_be_trimmed_again(text@, limit, other) ==> #[trigger] trimmed_text(
                    response@.body,
                    other,
                ) == trimmed_text(text@, smaller(limit, other)),
    {
        let body: String = match parse_document(text.as_str()) {
            Ok(board) => match write_document(&StatServer::trim_board(board, limit)) {
                Ok(written) => written,
                Err(_) => text,
            },
            Err(_) => text,
        };
        StatServer::json_response(OK, body)
    }
}

/// What is sent of a board that can be read and written: the board with its first
/// entries. What cannot is sent as it is.
pub proof fn law_what_is_sent_of_a_board(text: Seq<char>, limit: u32)
    ensures
        match json_document(text) {
            Some(board) => {
                let written = json_document_text(trimmed_board(board, limit));
                &&& written is Some ==> Some(trimmed_text(text, limit)) == written
                &&& written is None ==> trimmed_text(text, limit) == text
            },
            None => trimmed_text(text, limit) == text,
        },
{
}

} // verus!
