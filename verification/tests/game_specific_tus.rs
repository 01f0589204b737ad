use rpcn::game_specific_tus::{
    apply_starting_rank, checksum, crc32_raw, stored_checksum, CHAR_BASE, CHAR_COUNT, CHAR_RANK,
    CHAR_RANK_POINTS, CHAR_STRIDE, RECORD_SIZE, STARTING_RANK,
};

const NPWR02973_00: [u8; 12] = *b"NPWR02973_00";

/// Builds a save whose checksum verifies, with every character at `rank`.
fn make_record(rank: u8) -> Vec<u8> {
    let mut record = vec![0u8; RECORD_SIZE];
    for i in 0..CHAR_COUNT {
        record[CHAR_BASE + i * CHAR_STRIDE + CHAR_RANK] = rank;
    }
    seal(&mut record);
    record
}

fn seal(record: &mut Vec<u8>) {
    let sum = checksum(record);
    record[0..4].copy_from_slice(&sum.to_be_bytes());
}

#[test]
fn checksum_round_trips() {
    let record = make_record(0);
    assert_eq!(checksum(&record), stored_checksum(&record));
}

/// Pins the algorithm down. These two values were taken from real saves off a
/// live server, where the formula reproduces 57,709 of 57,715 stored checksums;
/// the six it misses are copies of one save whose own stored value does not match
/// its contents.
#[test]
fn checksum_matches_known_values() {
    let zeroed = vec![0u8; RECORD_SIZE];
    assert_eq!(checksum(&zeroed), 0x0000_0000);

    let mut all_first_dan = vec![0u8; RECORD_SIZE];
    for i in 0..CHAR_COUNT {
        all_first_dan[CHAR_BASE + i * CHAR_STRIDE + CHAR_RANK] = STARTING_RANK;
    }
    assert_eq!(checksum(&all_first_dan), 0x9063_E708);
}

#[test]
fn raises_every_character_of_a_fresh_save() {
    let record = make_record(0);
    let out = apply_starting_rank(&NPWR02973_00, &record).expect("a fresh save is raised");
    assert_eq!(out.len(), RECORD_SIZE);
    for i in 0..CHAR_COUNT {
        assert_eq!(out[CHAR_BASE + i * CHAR_STRIDE + CHAR_RANK], STARTING_RANK);
    }
    assert_eq!(checksum(&out), stored_checksum(&out), "the rewritten save reseals");
}

#[test]
fn leaves_characters_already_at_or_above_the_starting_rank() {
    assert!(apply_starting_rank(&NPWR02973_00, &make_record(STARTING_RANK)).is_none());
    assert!(apply_starting_rank(&NPWR02973_00, &make_record(STARTING_RANK + 5)).is_none());
}

#[test]
fn raises_only_the_characters_below_the_starting_rank() {
    let mut record = make_record(0);
    let kept = CHAR_BASE + 3 * CHAR_STRIDE;
    record[kept + CHAR_RANK] = 25;
    record[kept + CHAR_RANK_POINTS..kept + CHAR_RANK_POINTS + 2].copy_from_slice(&1234u16.to_be_bytes());
    let sum = checksum(&record);
    record[0..4].copy_from_slice(&sum.to_be_bytes());

    let out = apply_starting_rank(&NPWR02973_00, &record).expect("the other characters are raised");
    assert_eq!(out[kept + CHAR_RANK], 25, "a higher rank is left alone");
    assert_eq!(u16::from_be_bytes([out[kept + CHAR_RANK_POINTS], out[kept + CHAR_RANK_POINTS + 1]]), 1234);
    assert_eq!(out[CHAR_BASE + CHAR_RANK], STARTING_RANK);
}

#[test]
fn ignores_other_titles() {
    assert!(apply_starting_rank(b"NPWR00482_00", &make_record(0)).is_none());
}

#[test]
fn ignores_an_unexpected_size() {
    assert!(apply_starting_rank(&NPWR02973_00, &vec![0u8; 16]).is_none());
}

#[test]
fn refuses_a_save_whose_checksum_does_not_verify() {
    let mut record = make_record(0);
    record[0] ^= 0xFF;
    assert!(apply_starting_rank(&NPWR02973_00, &record).is_none());
}

#[test]
fn a_raised_character_starts_without_points() {
    let mut record = make_record(0);
    let first = CHAR_BASE + CHAR_RANK_POINTS;
    record[first..first + 2].copy_from_slice(&77u16.to_be_bytes());
    seal(&mut record);
    let out = apply_starting_rank(&NPWR02973_00, &record).unwrap();
    assert_eq!(&out[first..first + 2], &[0, 0]);
}

#[test]
fn bytes_that_are_no_rank_are_kept() {
    let mut record = make_record(0);
    for i in 4..CHAR_BASE {
        record[i] = (i * 7) as u8;
    }
    let last = RECORD_SIZE - 1;
    record[last] = 0xA5;
    record[CHAR_BASE + CHAR_RANK + 1] = 3;
    seal(&mut record);
    let out = apply_starting_rank(&NPWR02973_00, &record).unwrap();
    assert_eq!(&out[4..CHAR_BASE], &record[4..CHAR_BASE]);
    assert_eq!(out[last], 0xA5);
    assert_eq!(out[CHAR_BASE + CHAR_RANK + 1], 3);
}

#[test]
fn the_starting_rank_applies_once() {
    let out = apply_starting_rank(&NPWR02973_00, &make_record(9)).unwrap();
    assert!(apply_starting_rank(&NPWR02973_00, &out).is_none());
}

#[test]
fn one_damaged_byte_is_noticed() {
    let sealed = make_record(3);
    for at in [0usize, 3, 4, 112, 2000, RECORD_SIZE - 1] {
        let mut damaged = sealed.clone();
        damaged[at] ^= 0x01;
        assert_ne!(checksum(&damaged), stored_checksum(&damaged));
        assert!(apply_starting_rank(&NPWR02973_00, &damaged).is_none());
    }
}

#[test]
fn the_crc_is_linear() {
    let a = [1u8, 2, 3, 0xFF];
    let b = [9u8, 0x80, 3, 0x0F];
    let both: Vec<u8> = a.iter().zip(b.iter()).map(|(x, y)| x ^ y).collect();
    assert_eq!(crc32_raw(&a, 5) ^ crc32_raw(&b, 5), crc32_raw(&both, 5));
    assert_eq!(crc32_raw(&[0u8; 20], 100), 0);
    assert_eq!(crc32_raw(&[], 0), 0);
}
