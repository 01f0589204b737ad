//! Game specific handling of TUS save data for NPWR02973_00 (Tekken Tag
//! Tournament 2).
//!
//! The title keeps its whole online record in a single 3420 byte TUS slot:
//! a 112 byte header, 59 character records of 48 bytes each, and a tail. Each
//! character record holds a rank at `+0x00` and a rank progress value at
//! `+0x02`, and the record is sealed with a CRC at offset 0.
//!
//! A brand new account is given a starting rank, so that first time players
//! are not dropped into a rank band that nobody else occupies any more.

use crate::com_id::{is_npwr02973_00, npwr02973_00, ComId};
use vstd::prelude::*;

verus! {

/// Size of a well formed save. Anything else is passed through untouched.
pub const RECORD_SIZE: usize = 3420;

pub const CHAR_BASE: usize = 0x70;

pub const CHAR_STRIDE: usize = 0x30;

pub const CHAR_COUNT: usize = 59;

pub const CHAR_RANK: usize = 0x00;

pub const CHAR_RANK_POINTS: usize = 0x02;

/// Number of characters a save holds a rank for.
pub const CHARACTERS: usize = CHAR_COUNT;

/// Rank a fresh account starts every character at. 1st Dan.
pub const STARTING_RANK: u8 = 10;

/// Rank progress that goes with it. Observed resting value for this rank.
pub const STARTING_RANK_POINTS: u16 = 0;

/// The checksum covers the record from offset 4 to the end, followed by
/// `CHECKSUM_ZERO_PAD` zero bytes, as a raw CRC-32 with init and xorout both
/// zero.
pub const CHECKSUM_SKIP: usize = 4;

pub const CHECKSUM_ZERO_PAD: usize = 4760;

pub const CRC32_REFLECTED_POLY: u32 = 0xEDB8_8320;

/// The CRC register after shifting one bit out of it.
pub open spec fn crc_shift(crc: u32) -> u32 {
    if crc & 1 != 0 {
        (crc >> 1) ^ CRC32_REFLECTED_POLY
    } else {
        crc >> 1
    }
}

/// The CRC register after shifting `n` bits out of it.
pub open spec fn crc_shifts(crc: u32, n: nat) -> u32
    decreases n,
{
    if n == 0 {
        crc
    } else {
        crc_shift(crc_shifts(crc, (n - 1) as nat))
    }
}

/// The CRC register `crc` after taking in one more byte.
pub open spec fn crc_byte(crc: u32, byte: u8) -> u32 {
    crc_shifts(crc ^ (byte as u32), 8)
}

/// The raw CRC-32 of a message: the register starts at zero, takes the bytes
/// in order, and is given out as it stands.
pub open spec fn crc32(message: Seq<u8>) -> u32
    decreases message.len(),
{
    if message.len() == 0 {
        0
    } else {
        crc_byte(crc32(message.drop_last()), message.last())
    }
}

/// `n` zero bytes.
pub open spec fn zeros(n: nat) -> Seq<u8> {
    Seq::new(n, |i: int| 0u8)
}

/// What a save's checksum covers: everything behind the stored checksum, and
/// the padding.
pub open spec fn sealed_part(record: Seq<u8>) -> Seq<u8> {
    record.skip(CHECKSUM_SKIP as int) + zeros(CHECKSUM_ZERO_PAD as nat)
}

/// The checksum that the contents of `record` call for.
pub open spec fn record_checksum(record: Seq<u8>) -> u32 {
    crc32(sealed_part(record))
}

/// A number as four bytes, most significant first.
pub open spec fn be_bytes(value: u32) -> Seq<u8> {
    seq![(value >> 24) as u8, (value >> 16) as u8, (value >> 8) as u8, value as u8]
}

/// The checksum that `record` carries, in its first four bytes.
pub open spec fn carried_checksum(record: Seq<u8>) -> u32 {
    (((record[0] as u32) << 24) | ((record[1] as u32) << 16) | ((record[2] as u32) << 8) | (
    record[3] as u32))
}

fn crc_take_byte(crc: u32, byte: u8) -> (next: u32)
    ensures
        next == crc_byte(crc, byte),
{
    let mut next: u32 = crc ^ (byte as u32);
    for n in 0..8
        invariant
            next == crc_shifts(crc ^ (byte as u32), n as nat),
    {
        next = if next & 1 != 0 {
            (next >> 1) ^ CRC32_REFLECTED_POLY
        } else {
            next >> 1
        };
    }
    next
}

/// The raw CRC-32 of `data` followed by `zero_pad` zero bytes.
pub fn crc32_raw(data: &[u8], zero_pad: usize) -> (crc: u32)
    ensures
        crc == crc32(data@ + zeros(zero_pad as nat)),
{
    let mut crc: u32 = 0;
    let ghost message = data@ + zeros(zero_pad as nat);
    for i in 0..data.len()
        invariant
            message == data@ + zeros(zero_pad as nat),
            crc == crc32(message.take(i as int)),
    {
        assert(message.take(i + 1).drop_last() =~= message.take(i as int));
        crc = crc_take_byte(crc, data[i]);
    }
    for i in 0..zero_pad
        invariant
            message == data@ + zeros(zero_pad as nat),
            crc == crc32(message.take(data@.len() + i)),
    {
        assert(message.take(data@.len() + i + 1).drop_last() =~= message.take(data@.len() + i));
        crc = crc_take_byte(crc, 0);
    }
    assert(message.take(data@.len() + zero_pad) =~= message);
    crc
}

/// The checksum that the contents of a save call for.
pub fn checksum(record: &[u8]) -> (sum: u32)
    requires
        record@.len() >= CHECKSUM_SKIP,
    ensures
        sum == record_checksum(record@),
{
    let covered: &[u8] = vstd::slice::slice_subrange(record, CHECKSUM_SKIP, record.len());
    assert(covered@ =~= record@.skip(CHECKSUM_SKIP as int));
    crc32_raw(covered, CHECKSUM_ZERO_PAD)
}

/// The checksum that a save carries.
pub fn stored_checksum(record: &[u8]) -> (sum: u32)
    requires
        record@.len() >= CHECKSUM_SKIP,
    ensures
        sum == carried_checksum(record@),
{
    ((record[0] as u32) << 24) | ((record[1] as u32) << 16) | ((record[2] as u32) << 8) | (
    record[3] as u32)
}

/// Where the record of character `c` starts.
pub open spec fn char_start(c: int) -> int {
    CHAR_BASE + c * CHAR_STRIDE
}

/// The rank of character `c`.
pub open spec fn rank_of(record: Seq<u8>, c: int) -> u8 {
    record[char_start(c) + CHAR_RANK]
}

/// The two bytes of rank progress of character `c`, most significant first.
pub open spec fn rank_points_of(record: Seq<u8>, c: int) -> (u8, u8) {
    (
        record[char_start(c) + CHAR_RANK_POINTS],
        record[char_start(c) + CHAR_RANK_POINTS + 1],
    )
}

/// Whether `c` counts a character of a save.
pub open spec fn is_character(c: int) -> bool {
    0 <= c < CHAR_COUNT
}

/// Whether character `c` is still below the starting rank.
pub open spec fn below_start(record: Seq<u8>, c: int) -> bool {
    rank_of(record, c) < STARTING_RANK
}

/// Whether some character is still below the starting rank.
pub open spec fn any_below_start(record: Seq<u8>) -> bool {
    exists|c: int| is_character(c) && #[trigger] below_start(record, c)
}

/// Whether a save is of the known size and carries the checksum that its
/// contents call for.
pub open spec fn verifies(record: Seq<u8>) -> bool {
    &&& record.len() == RECORD_SIZE
    &&& record_checksum(record) == carried_checksum(record)
}

/// Byte `j` of a save after the first `count` characters have been brought up
/// to the starting rank.
pub open spec fn raised_byte(record: Seq<u8>, count: int, j: int) -> u8 {
    let c = (j - CHAR_BASE) / (CHAR_STRIDE as int);
    let offset = (j - CHAR_BASE) % (CHAR_STRIDE as int);
    if CHAR_BASE <= j && c < count && below_start(record, c) {
        if offset == CHAR_RANK {
            STARTING_RANK
        } else if offset == CHAR_RANK_POINTS {
            (STARTING_RANK_POINTS >> 8) as u8
        } else if offset == CHAR_RANK_POINTS + 1 {
            STARTING_RANK_POINTS as u8
        } else {
            record[j]
        }
    } else {
        record[j]
    }
}

/// A save with every character brought up to the starting rank, its stored
/// checksum left as it was.
pub open spec fn raised(record: Seq<u8>) -> Seq<u8> {
    Seq::new(record.len(), |j: int| raised_byte(record, CHAR_COUNT as int, j))
}

/// A save with the checksum that its contents call for put in place.
pub open spec fn sealed(record: Seq<u8>) -> Seq<u8> {
    be_bytes(record_checksum(record)) + record.skip(CHECKSUM_SKIP as int)
}

/// Gives every character in a brand new save a starting rank.
///
/// Returns the rewritten save, or `None` when nothing was changed: another
/// title, an unexpected size, a checksum that does not verify, or a save that
/// already sits at or above the starting rank.
///
/// The caller is responsible for only offering a save that is the account's
/// first one for this slot. Applying this to a save that already has progress
/// would raise ranks the player has since lost.
pub fn apply_starting_rank(com_id: &ComId, data: &[u8]) -> (rewritten: Option<Vec<u8>>)
    ensures
        rewritten is Some <==> com_id@ == npwr02973_00() && verifies(data@) && any_below_start(
            data@,
        ),
        rewritten matches Some(out) ==> out@ == sealed(raised(data@)),
{
    if !is_npwr02973_00(com_id) {
        return None;
    }
    if data.len() != RECORD_SIZE {
        return None;
    }
    // Refuse to touch a save that cannot be verified: if the checksum does not
    // match then this is not the known layout and rewriting it would corrupt it.

    if checksum(data) != stored_checksum(data) {
        return None;
    }
    let mut out: Vec<u8> = vstd::slice::slice_to_vec(data);
    let mut any_raised: bool = false;
    for i in 0..CHAR_COUNT
        invariant
            data@.len() == RECORD_SIZE,
            out@.len() == RECORD_SIZE,
            forall|j: int|
                0 <= j < RECORD_SIZE ==> #[trigger] out@[j] == raised_byte(data@, i as int, j),
            any_raised <==> exists|c: int| 0 <= c < i && #[trigger] below_start(data@, c),
    {
        let base: usize = CHAR_BASE + i * CHAR_STRIDE;
        let ghost before = out@;
        assert(out@[base + CHAR_RANK] == data@[base + CHAR_RANK]);
        if out[base + CHAR_RANK] < STARTING_RANK {
            assert(below_start(data@, i as int));
            out[base + CHAR_RANK] = STARTING_RANK;
            out[base + CHAR_RANK_POINTS] = (STARTING_RANK_POINTS >> 8) as u8;
            out[base + CHAR_RANK_POINTS + 1] = STARTING_RANK_POINTS as u8;
            any_raised = true;
        } else {
            assert(!below_start(data@, i as int));
        }
        assert forall|j: int| 0 <= j < RECORD_SIZE implies #[trigger] out@[j] == raised_byte(
            data@,
            i + 1,
            j,
        ) by {
            assert(before[j] == raised_byte(data@, i as int, j));
        }
    }
    if !any_raised {
        return None;
    }
    assert(out@ =~= raised(data@));
    let new_checksum: u32 = checksum(out.as_slice());
    out[0] = (new_checksum >> 24) as u8;
    out[1] = (new_checksum >> 16) as u8;
    out[2] = (new_checksum >> 8) as u8;
    out[3] = new_checksum as u8;
    assert(out@ =~= sealed(raised(data@)));
    Some(out)
}

proof fn lemma_be_bytes(value: u32, rest: Seq<u8>)
    ensures
        carried_checksum(be_bytes(value) + rest) == value,
{
    let record = be_bytes(value) + rest;
    assert(record[0] == (value >> 24) as u8 && record[1] == (value >> 16) as u8 && record[2] == (
    value >> 8) as u8 && record[3] == value as u8);
    assert(((((value >> 24) as u8) as u32) << 24) | ((((value >> 16) as u8) as u32) << 16) | ((((
    value >> 8) as u8) as u32) << 8) | ((value as u8) as u32) == value) by (bit_vector);
}

proof fn lemma_carried_checksum_injective(a: Seq<u8>, b: Seq<u8>)
    requires
        carried_checksum(a) == carried_checksum(b),
    ensures
        a[0] == b[0] && a[1] == b[1] && a[2] == b[2] && a[3] == b[3],
{
    let (a0, a1, a2, a3) = (a[0], a[1], a[2], a[3]);
    let (b0, b1, b2, b3) = (b[0], b[1], b[2], b[3]);
    assert(a0 == b0 && a1 == b1 && a2 == b2 && a3 == b3) by (bit_vector)
        requires
            ((a0 as u32) << 24) | ((a1 as u32) << 16) | ((a2 as u32) << 8) | (a3 as u32) == ((
            b0 as u32) << 24) | ((b1 as u32) << 16) | ((b2 as u32) << 8) | (b3 as u32),
    ;
}

proof fn lemma_crc_shifts_linear(a: u32, b: u32, n: nat)
    ensures
        crc_shifts(a ^ b, n) == crc_shifts(a, n) ^ crc_shifts(b, n),
    decreases n,
{
    if n > 0 {
        lemma_crc_shifts_linear(a, b, (n - 1) as nat);
        let x = crc_shifts(a, (n - 1) as nat);
        let y = crc_shifts(b, (n - 1) as nat);
        assert(crc_shift(x ^ y) == crc_shift(x) ^ crc_shift(y)) by (bit_vector);
    }
}

proof fn lemma_crc_shifts_injective(a: u32, b: u32, n: nat)
    requires
        crc_shifts(a, n) == crc_shifts(b, n),
    ensures
        a == b,
    decreases n,
{
    if n > 0 {
        let x = crc_shifts(a, (n - 1) as nat);
        let y = crc_shifts(b, (n - 1) as nat);
        assert(x == y) by (bit_vector)
            requires
                crc_shift(x) == crc_shift(y),
        ;
        lemma_crc_shifts_injective(a, b, (n - 1) as nat);
    }
}

/// The byte by byte exclusive or of two messages of one length.
pub open spec fn xor_bytes(a: Seq<u8>, b: Seq<u8>) -> Seq<u8> {
    Seq::new(a.len(), |i: int| a[i] ^ b[i])
}

/// With init and xorout both zero the CRC is linear: the CRC of the exclusive
/// or of two messages is the exclusive or of their CRCs.
pub proof fn law_crc_is_linear(a: Seq<u8>, b: Seq<u8>)
    requires
        a.len() == b.len(),
    ensures
        crc32(xor_bytes(a, b)) == crc32(a) ^ crc32(b),
    decreases a.len(),
{
    let both = xor_bytes(a, b);
    if a.len() == 0 {
        assert(0u32 ^ 0u32 == 0u32) by (bit_vector);
    } else {
        law_crc_is_linear(a.drop_last(), b.drop_last());
        assert(both.drop_last() =~= xor_bytes(a.drop_last(), b.drop_last()));
        let (ca, cb) = (crc32(a.drop_last()), crc32(b.drop_last()));
        let (ba, bb) = (a.last(), b.last());
        assert((ca ^ cb) ^ ((ba ^ bb) as u32) == (ca ^ (ba as u32)) ^ (cb ^ (bb as u32)))
            by (bit_vector);
        lemma_crc_shifts_linear(ca ^ (ba as u32), cb ^ (bb as u32), 8);
    }
}

/// A message of zeros has the CRC zero, however long it is.
pub proof fn law_crc_of_zeros(n: nat)
    ensures
        crc32(zeros(n)) == 0,
    decreases n,
{
    if n > 0 {
        law_crc_of_zeros((n - 1) as nat);
        assert(zeros(n).drop_last() =~= zeros((n - 1) as nat));
        assert(0u32 ^ (0u8 as u32) == 0u32) by (bit_vector);
        assert(crc_shift(0) == 0) by (bit_vector);
        reveal_with_fuel(crc_shifts, 9);
    }
}

/// Two messages that differ in exactly one byte have different CRCs.
pub proof fn law_crc_detects_one_changed_byte(a: Seq<u8>, b: Seq<u8>, i: int)
    requires
        a.len() == b.len(),
        0 <= i < a.len(),
        a[i] != b[i],
        forall|j: int| 0 <= j < a.len() && j != i ==> a[j] == b[j],
    ensures
        crc32(a) != crc32(b),
    decreases a.len(),
{
    let (ca, cb) = (crc32(a.drop_last()), crc32(b.drop_last()));
    let (ba, bb) = (a.last(), b.last());
    if i == a.len() - 1 {
        assert(a.drop_last() =~= b.drop_last());
    } else {
        law_crc_detects_one_changed_byte(a.drop_last(), b.drop_last(), i);
    }
    if crc32(a) == crc32(b) {
        lemma_crc_shifts_injective(ca ^ (ba as u32), cb ^ (bb as u32), 8);
        assert((ca == cb ==> ba == bb) && (ba == bb ==> ca == cb)) by (bit_vector)
            requires
                ca ^ (ba as u32) == cb ^ (bb as u32),
        ;
    }
}

/// A save that verifies stops verifying when any one of its bytes is changed,
/// in its contents or in its stored checksum.
pub proof fn law_damaged_save_is_refused(record: Seq<u8>, i: int, value: u8)
    requires
        verifies(record),
        0 <= i < record.len(),
        record[i] != value,
    ensures
        !verifies(record.update(i, value)),
{
    let damaged = record.update(i, value);
    if i < CHECKSUM_SKIP {
        assert(sealed_part(damaged) =~= sealed_part(record));
        if verifies(damaged) {
            lemma_carried_checksum_injective(record, damaged);
        }
    } else {
        law_crc_detects_one_changed_byte(
            sealed_part(record),
            sealed_part(damaged),
            i - CHECKSUM_SKIP,
        );
        assert(carried_checksum(damaged) == carried_checksum(record));
    }
}

/// Putting the checksum in place makes a save of the known size verify, and
/// leaves everything behind the checksum as it was.
pub proof fn law_sealing_verifies(record: Seq<u8>)
    requires
        record.len() == RECORD_SIZE,
    ensures
        verifies(sealed(record)),
        sealed(record).skip(CHECKSUM_SKIP as int) == record.skip(CHECKSUM_SKIP as int),
{
    let rest = record.skip(CHECKSUM_SKIP as int);
    lemma_be_bytes(record_checksum(record), rest);
    assert(sealed(record).skip(CHECKSUM_SKIP as int) =~= rest);
}

/// Both the rank and the rank progress of each character after the rewrite: a
/// character below the starting rank gets the starting values, and any other
/// keeps both. So no rank is ever lowered and none stays below the start.
pub proof fn law_ranks_are_only_raised(record: Seq<u8>, c: int)
    requires
        record.len() == RECORD_SIZE,
        is_character(c),
    ensures
        ({
            let out = sealed(raised(record));
            &&& below_start(record, c) ==> rank_of(out, c) == STARTING_RANK && rank_points_of(
                out,
                c,
            ) == ((STARTING_RANK_POINTS >> 8) as u8, STARTING_RANK_POINTS as u8)
            &&& !below_start(record, c) ==> rank_of(out, c) == rank_of(record, c)
                && rank_points_of(out, c) == rank_points_of(record, c)
            &&& rank_of(out, c) >= rank_of(record, c)
            &&& !below_start(out, c)
        }),
{
    let out = sealed(raised(record));
    let start = char_start(c);
    assert(out[start] == raised(record)[start]);
    assert(out[start + 2] == raised(record)[start + 2]);
    assert(out[start + 3] == raised(record)[start + 3]);
}

/// The rewrite leaves every byte alone but the stored checksum and the rank
/// and rank progress of the characters below the starting rank.
pub proof fn law_other_bytes_are_kept(record: Seq<u8>, j: int)
    requires
        record.len() == RECORD_SIZE,
        CHECKSUM_SKIP <= j < RECORD_SIZE,
        forall|c: int|
            is_character(c) && #[trigger] below_start(record, c) ==> j != char_start(c) + CHAR_RANK
                && j != char_start(c) + CHAR_RANK_POINTS && j != char_start(c) + CHAR_RANK_POINTS
                + 1,
    ensures
        sealed(raised(record))[j] == record[j],
{
    let out = sealed(raised(record));
    assert(out[j] == raised(record)[j]);
    let c = (j - CHAR_BASE) / (CHAR_STRIDE as int);
    if CHAR_BASE <= j && c < CHAR_COUNT && below_start(record, c) {
        assert(is_character(c));
    }
}

/// A rewritten save verifies and has nothing left to raise, so offering it
/// again changes nothing.
pub proof fn law_starting_rank_applies_once(record: Seq<u8>)
    requires
        record.len() == RECORD_SIZE,
    ensures
        verifies(sealed(raised(record))),
        !any_below_start(sealed(raised(record))),
{
    law_sealing_verifies(raised(record));
    assert forall|c: int| is_character(c) implies !#[trigger] below_start(
        sealed(raised(record)),
        c,
    ) by {
        law_ranks_are_only_raised(record, c);
    }
}

/// Where a save holds what, and what the rewrite makes of it. The ranks of the 59
/// characters stand 48 bytes apart from byte 112 on, each with two bytes of
/// progress two bytes behind it. A rank below ten becomes ten and its progress
/// nothing; every other byte from the fifth on stays.
pub proof fn law_what_a_rewritten_save_holds(record: Seq<u8>, c: int, j: int)
    requires
        record.len() == 3420,
        0 <= c < 59,
        4 <= j < 3420,
    ensures
        ({
            let out = sealed(raised(record));
            let at = 112 + 48 * c;
            &&& out.len() == 3420
            &&& record[at] < 10 ==> out[at] == 10 && out[at + 2] == 0 && out[at + 3] == 0
            &&& record[at] >= 10 ==> out[at] == record[at] && out[at + 2] == record[at + 2]
                && out[at + 3] == record[at + 3]
            &&& at < j < at + 48 && j != at + 2 && j != at + 3 ==> out[j] == record[j]
            &&& j < 112 || j >= 112 + 48 * 59 ==> out[j] == record[j]
        }),
{
    let out = sealed(raised(record));
    let at = 112 + 48 * c;
    assert(out[at] == raised(record)[at]);
    assert(out[at + 2] == raised(record)[at + 2]);
    assert(out[at + 3] == raised(record)[at + 3]);
    assert(out[j] == raised(record)[j]);
    assert((0u16 >> 8) as u8 == 0) by (bit_vector);
    assert(0u16 as u8 == 0u8) by (bit_vector);
}

/// Which saves are rewritten: those of 3420 bytes whose first four bytes are the
/// CRC of the others and of 4760 zero bytes behind them, most significant first,
/// and that hold a rank below ten.
pub proof fn law_which_saves_are_rewritten(record: Seq<u8>)
    ensures
        verifies(record) <==> {
            let sum = crc32(record.skip(4) + zeros(4760));
            &&& record.len() == 3420
            &&& record[0] as int * 0x100_0000 + record[1] as int * 0x1_0000 + record[2] as int
                * 0x100 + record[3] as int == sum
        },
        any_below_start(record) <==> exists|c: int|
            0 <= c < 59 && record[#[trigger] char_start(c)] < 10,
{
    let (a, b, c, d) = (record[0], record[1], record[2], record[3]);
    assert((((a as u32) << 24) | ((b as u32) << 16) | ((c as u32) << 8) | (d as u32)) == (a as u32)
        * 0x100_0000 + (b as u32) * 0x1_0000 + (c as u32) * 0x100 + (d as u32)) by (bit_vector);
    if any_below_start(record) {
        let c = choose|c: int| is_character(c) && #[trigger] below_start(record, c);
        assert(record[char_start(c)] < 10);
    }
    if exists|c: int| 0 <= c < 59 && record[#[trigger] char_start(c)] < 10 {
        let c = choose|c: int| 0 <= c < 59 && record[#[trigger] char_start(c)] < 10;
        assert(below_start(record, c));
    }
}

/// The CRC register is halved for each bit, with the polynomial added where the bit
/// that falls out is set, and takes in a byte by its eight bits.
pub proof fn law_how_the_crc_takes_in_a_byte(message: Seq<u8>, byte: u8, crc: u32)
    ensures
        crc % 2 == 0 ==> crc_shift(crc) == crc / 2,
        crc % 2 == 1 ==> crc_shift(crc) == (crc / 2) ^ 0xEDB8_8320,
        ({
            let s0 = crc32(message) ^ (byte as u32);
            let s4 = crc_shift(crc_shift(crc_shift(crc_shift(s0))));
            crc32(message.push(byte)) == crc_shift(crc_shift(crc_shift(crc_shift(s4))))
        }),
{
    assert(crc % 2 == 0 ==> crc & 1 == 0 && crc >> 1 == crc / 2) by (bit_vector);
    assert(crc % 2 == 1 ==> crc & 1 == 1 && crc >> 1 == crc / 2) by (bit_vector);
    assert(message.push(byte).drop_last() =~= message);
    reveal_with_fuel(crc_shifts, 9);
}

} // verus!
