//! Answers that are kept for a while rather than built for each request.

use crate::com_id::ComId;
use crate::stat_server::http::{bare, HttpResponse, ResponseView, OK};
use std::collections::HashMap;
use vstd::prelude::*;

verus! {

broadcast use vstd::std_specs::hash::group_hash_axioms;

/// An answer and the second it was built in.
#[derive(Debug)]
pub struct CachedResponse {
    pub timestamp: u32,
    pub cached_response: HttpResponse,
}

/// What is in a [`CachedResponse`].
pub struct CachedView {
    pub timestamp: u32,
    pub response: ResponseView,
}

impl View for CachedResponse {
    type V = CachedView;

    open spec fn view(&self) -> CachedView {
        CachedView { timestamp: self.timestamp, response: self.cached_response@ }
    }
}

/// An entry that nothing has been put into yet.
pub open spec fn blank() -> CachedView {
    CachedView { timestamp: 0, response: bare(OK, Seq::empty()) }
}

impl CachedView {
    /// Whether an entry is too old to be served.
    pub open spec fn is_stale(self, now: u32, cache_life: u32) -> bool {
        now > self.timestamp + cache_life
    }
}

impl CachedResponse {
    /// An entry that nothing has been put into yet.
    pub fn new() -> (entry: CachedResponse)
        ensures
            entry@ == blank(),
    {
        CachedResponse { timestamp: 0, cached_response: HttpResponse::new(String::new()) }
    }

    /// Whether the entry is too old to be served.
    pub fn is_stale(&self, now: u32, cache_life: u32) -> (stale: bool)
        ensures
            stale == self@.is_stale(now, cache_life),
    {
        now as u64 > self.timestamp as u64 + cache_life as u64
    }
}

/// The answers about scores that are kept, by table and by title.
#[derive(Debug)]
pub struct JsonScoreCache {
    pub table_cache: HashMap<u128, CachedResponse>,
    pub com_id_cache: HashMap<u128, CachedResponse>,
}

/// All answers that are kept.
#[derive(Debug)]
pub struct JsonCache {
    pub usage_cache: CachedResponse,
    pub score_cache: JsonScoreCache,
    /// Building a leaderboard reads every save of a title, so it is kept like
    /// the score tables rather than rebuilt per request.
    pub leaderboard_cache: HashMap<u128, CachedResponse>,
}

/// What is in a [`JsonCache`]. The entries about a title are found under
/// `title_key`, those about a table under `table_key` and those about a slot
/// under `slot_key`.
#[verifier::ext_equal]
pub struct JsonCacheView {
    pub usage: CachedView,
    pub tables: Map<u128, CachedView>,
    pub titles: Map<u128, CachedView>,
    pub leaderboards: Map<u128, CachedView>,
}

/// What is in each entry of a map.
pub open spec fn entry_views(entries: Map<u128, CachedResponse>) -> Map<u128, CachedView> {
    entries.map_values(|entry: CachedResponse| entry@)
}

impl View for JsonCache {
    type V = JsonCacheView;

    open spec fn view(&self) -> JsonCacheView {
        JsonCacheView {
            usage: self.usage_cache@,
            tables: entry_views(self.score_cache.table_cache@),
            titles: entry_views(self.score_cache.com_id_cache@),
            leaderboards: entry_views(self.leaderboard_cache@),
        }
    }
}

impl JsonScoreCache {
    /// A cache that nothing has been put into yet.
    pub fn new() -> (cache: JsonScoreCache)
        ensures
            cache.table_cache@ == Map::<u128, CachedResponse>::empty(),
            cache.com_id_cache@ == Map::<u128, CachedResponse>::empty(),
    {
        JsonScoreCache { table_cache: HashMap::new(), com_id_cache: HashMap::new() }
    }
}

impl JsonCache {
    /// A cache that nothing has been put into yet.
    pub fn new() -> (cache: JsonCache)
        ensures
            cache@ == (JsonCacheView {
                usage: blank(),
                tables: Map::empty(),
                titles: Map::empty(),
                leaderboards: Map::empty(),
            }),
    {
        let cache: JsonCache = JsonCache {
            usage_cache: CachedResponse::new(),
            score_cache: JsonScoreCache::new(),
            leaderboard_cache: HashMap::new(),
        };
        assert(entry_views(Map::<u128, CachedResponse>::empty()) =~= Map::<
            u128,
            CachedView,
        >::empty());
        cache
    }
}

/// Bytes read as one number, most significant first.
pub open spec fn bytes_value(bytes: Seq<u8>) -> nat
    decreases bytes.len(),
{
    if bytes.len() == 0 {
        0
    } else {
        bytes_value(bytes.drop_last()) * 256 + bytes.last() as nat
    }
}

/// The key that the answers about a title are kept under.
pub open spec fn title_key(com_id: Seq<u8>) -> nat {
    bytes_value(com_id)
}

/// The key that the answer about one table of a title is kept under.
pub open spec fn table_key(com_id: Seq<u8>, table_id: u32) -> nat {
    title_key(com_id) * 0x1_0000_0000 + table_id as nat
}

/// The key that the board of one slot of a title is kept under.
pub open spec fn slot_key(com_id: Seq<u8>, slot: i32) -> nat {
    title_key(com_id) * 0x1_0000_0000 + (slot + 0x8000_0000) as nat
}

spec fn pow256(n: nat) -> nat
    decreases n,
{
    if n == 0 {
        1
    } else {
        256 * pow256((n - 1) as nat)
    }
}

proof fn lemma_bytes_value_bound(bytes: Seq<u8>)
    ensures
        bytes_value(bytes) < pow256(bytes.len()),
    decreases bytes.len(),
{
    if bytes.len() > 0 {
        lemma_bytes_value_bound(bytes.drop_last());
    }
}

proof fn lemma_title_key_bound(com_id: Seq<u8>)
    requires
        com_id.len() == 12,
    ensures
        title_key(com_id) < 0x1_0000_0000_0000_0000_0000_0000,
{
    lemma_bytes_value_bound(com_id);
    reveal_with_fuel(pow256, 13);
}

fn pack_title(com_id: &ComId) -> (key: u128)
    ensures
        key == title_key(com_id@),
        key < 0x1_0000_0000_0000_0000_0000_0000,
{
    let mut key: u128 = 0;
    for i in 0..12
        invariant
            key == bytes_value(com_id@.take(i as int)),
    {
        proof {
            lemma_bytes_value_bound(com_id@.take(i + 1));
            reveal_with_fuel(pow256, 13);
            assert(com_id@.take(i + 1).drop_last() =~= com_id@.take(i as int));
        }
        key = key * 256 + com_id[i] as u128;
    }
    assert(com_id@.take(12) =~= com_id@);
    proof {
        lemma_title_key_bound(com_id@);
    }
    key
}

pub(crate) fn pack_table(com_id: &ComId, table_id: u32) -> (key: u128)
    ensures
        key == table_key(com_id@, table_id),
{
    pack_title(com_id) * 0x1_0000_0000 + table_id as u128
}

pub(crate) fn pack_slot(com_id: &ComId, slot: i32) -> (key: u128)
    ensures
        key == slot_key(com_id@, slot),
{
    let offset: i64 = slot as i64 + 0x8000_0000;
    pack_title(com_id) * 0x1_0000_0000 + offset as u128
}

pub(crate) fn pack_com_id(com_id: &ComId) -> (key: u128)
    ensures
        key == title_key(com_id@),
{
    pack_title(com_id)
}

proof fn lemma_bytes_value_injective(a: Seq<u8>, b: Seq<u8>)
    requires
        a.len() == b.len(),
        bytes_value(a) == bytes_value(b),
    ensures
        a == b,
    decreases a.len(),
{
    if a.len() > 0 {
        lemma_bytes_value_injective(a.drop_last(), b.drop_last());
        assert(a =~= a.drop_last().push(a.last()));
        assert(b =~= b.drop_last().push(b.last()));
    } else {
        assert(a =~= b);
    }
}

/// No two titles, tables or slots share an entry of the cache.
pub proof fn law_cache_keys_are_distinct(
    a: Seq<u8>,
    b: Seq<u8>,
    table_a: u32,
    table_b: u32,
    slot_a: i32,
    slot_b: i32,
)
    requires
        a.len() == b.len(),
    ensures
        title_key(a) == title_key(b) ==> a == b,
        table_key(a, table_a) == table_key(b, table_b) ==> a == b && table_a == table_b,
        slot_key(a, slot_a) == slot_key(b, slot_b) ==> a == b && slot_a == slot_b,
{
    if title_key(a) == title_key(b) {
        lemma_bytes_value_injective(a, b);
    }
}

/// The entry under a key, or a blank one where there is none.
pub open spec fn entry_or_blank(entries: Map<u128, CachedView>, key: u128) -> CachedView {
    if entries.contains_key(key) {
        entries[key]
    } else {
        blank()
    }
}

/// The answer to serve again: the one that is kept under a key, unless it is
/// stale or nothing is to be kept at all.
pub open spec fn kept_answer(
    entries: Map<u128, CachedView>,
    key: u128,
    cache_life: u32,
    now: u32,
) -> Option<ResponseView> {
    let entry = entry_or_blank(entries, key);
    if cache_life == 0 || entry.is_stale(now, cache_life) {
        None
    } else {
        Some(entry.response)
    }
}

/// The entries once a new answer has been built: it is kept, unless nothing is
/// to be kept at all.
pub open spec fn with_answer(
    entries: Map<u128, CachedView>,
    key: u128,
    cache_life: u32,
    now: u32,
    response: ResponseView,
) -> Map<u128, CachedView> {
    if cache_life == 0 {
        entries
    } else {
        entries.insert(key, CachedView { timestamp: now, response })
    }
}

pub(crate) fn find_answer(
    entries: &HashMap<u128, CachedResponse>,
    key: u128,
    cache_life: u32,
    now: u32,
) -> (found: Option<HttpResponse>)
    ensures
        match found {
            Some(response) => kept_answer(entry_views(entries@), key, cache_life, now) == Some(
                response@,
            ),
            None => kept_answer(entry_views(entries@), key, cache_life, now) is None,
        },
{
    if cache_life == 0 {
        return None;
    }
    match entries.get(&key) {
        Some(entry) => if entry.is_stale(now, cache_life) {
            None
        } else {
            Some(entry.cached_response.clone())
        },
        None => {
            let entry: CachedResponse = CachedResponse::new();
            if entry.is_stale(now, cache_life) {
                None
            } else {
                Some(entry.cached_response)
            }
        },
    }
}

pub(crate) fn keep_answer(
    entries: &mut HashMap<u128, CachedResponse>,
    key: u128,
    cache_life: u32,
    now: u32,
    response: &HttpResponse,
)
    ensures
        entry_views(final(entries)@) == with_answer(
            entry_views(old(entries)@),
            key,
            cache_life,
            now,
            response@,
        ),
{
    if cache_life != 0 {
        entries.insert(key, CachedResponse { timestamp: now, cached_response: response.clone() });
        assert(entry_views(entries@) =~= entry_views(old(entries)@).insert(
            key,
            CachedView { timestamp: now, response: response@ },
        ));
    }
}

/// An answer that was kept is served, as it was, until its time is over, and
/// not after. What is kept under other keys is not touched by it.
pub proof fn law_kept_answers_are_served_while_fresh(
    entries: Map<u128, CachedView>,
    key: u128,
    other: u128,
    cache_life: u32,
    built: u32,
    now: u32,
    response: ResponseView,
)
    requires
        cache_life > 0,
    ensures
        now <= built + cache_life ==> kept_answer(
            with_answer(entries, key, cache_life, built, response),
            key,
            cache_life,
            now,
        ) == Some(response),
        now > built + cache_life ==> kept_answer(
            with_answer(entries, key, cache_life, built, response),
            key,
            cache_life,
            now,
        ) is None,
        other != key ==> kept_answer(
            with_answer(entries, key, cache_life, built, response),
            other,
            cache_life,
            now,
        ) == kept_answer(entries, other, cache_life, now),
{
}

/// Without a cache life nothing is kept and nothing is served again.
pub proof fn law_nothing_is_kept_without_a_cache_life(
    entries: Map<u128, CachedView>,
    key: u128,
    now: u32,
    response: ResponseView,
)
    ensures
        kept_answer(entries, key, 0, now) is None,
        with_answer(entries, key, 0, now, response) == entries,
{
}

/// What was never kept is not served, once the clock has left the first seconds
/// behind. In those a blank answer stands for it.
pub proof fn law_nothing_is_served_that_was_not_kept(
    entries: Map<u128, CachedView>,
    key: u128,
    cache_life: u32,
    now: u32,
)
    requires
        !entries.contains_key(key),
    ensures
        match kept_answer(entries, key, cache_life, now) {
            Some(response) => {
                &&& 0 < cache_life
                &&& now <= cache_life
                &&& response.status == 200
                &&& !response.json
                &&& response.body.len() == 0
            },
            None => cache_life == 0 || now > cache_life,
        },
{
}

/// All that is kept is seen, under the key it is kept under.
pub proof fn law_all_that_is_kept_is_seen(cache: JsonCache, key: u128)
    ensures
        shows_entry(cache@.usage, cache.usage_cache),
        shows_entries(cache@.tables, cache.score_cache.table_cache@, key),
        shows_entries(cache@.titles, cache.score_cache.com_id_cache@, key),
        shows_entries(cache@.leaderboards, cache.leaderboard_cache@, key),
{
}

/// Whether all that an entry holds is seen.
pub open spec fn shows_entry(seen: CachedView, entry: CachedResponse) -> bool {
    seen.timestamp == entry.timestamp && seen.response == entry.cached_response@
}

/// Whether the entry under a key is seen under that key.
pub open spec fn shows_entries(
    seen: Map<u128, CachedView>,
    entries: Map<u128, CachedResponse>,
    key: u128,
) -> bool {
    &&& seen.contains_key(key) == entries.contains_key(key)
    &&& entries.contains_key(key) ==> shows_entry(seen[key], entries[key])
}

} // verus!
