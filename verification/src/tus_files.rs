//! The files that hold TUS data: how they are numbered, named and swept up.

use crate::cmd_tus::types::Client;
use crate::error::DbError;
use crate::text::{
    decimal_text, digits, law_padding_keeps_the_number, law_padding_only_adds_zeros, number_value,
    padded_text, zero_padded,
};
use std::collections::HashSet;
use vstd::prelude::*;
use vstd::string::*;

verus! {

broadcast use vstd::std_specs::hash::group_hash_axioms;

pub const TUS_DATA_DIRECTORY: &'static str = "tus_data";

pub const TUS_FILE_EXTENSION: &'static str = "tdt";

/// Characters that an id takes up in a file's name.
pub const TUS_ID_WIDTH: usize = 20;

/// The part of the server that hands out TUS data ids.
#[derive(Debug)]
pub struct Server {
    /// The id that the next TUS data file gets.
    pub next_tus_data_id: u64,
}

/// A TUS data file that is about to be written.
#[derive(Debug)]
pub struct NewTusDataFile {
    pub id: u64,
    pub path: String,
}

/// Where the TUS data file with the given id is kept.
pub open spec fn tus_path(id: u64) -> Seq<char> {
    TUS_DATA_DIRECTORY@ + "/"@ + zero_padded(digits(id as nat), TUS_ID_WIDTH as nat) + "."@
        + TUS_FILE_EXTENSION@
}

impl Client {
    /// Where the TUS data file with the given id is kept.
    pub fn tus_id_to_path(id: u64) -> (path: String)
        ensures
            path@ == tus_path(id),
    {
        let mut path: String = TUS_DATA_DIRECTORY.to_owned();
        path.append("/");
        path.append(padded_text(id, TUS_ID_WIDTH).as_str());
        path.append(".");
        path.append(TUS_FILE_EXTENSION);
        path
    }

    /// Numbers and names a new TUS data file. Ids start over after the largest.
    pub fn create_tus_data_file(server: &mut Server) -> (file: NewTusDataFile)
        ensures
            file.id == old(server).next_tus_data_id,
            file.path@ == tus_path(file.id),
            final(server).next_tus_data_id == id_after(old(server).next_tus_data_id, 1),
    {
        let id: u64 = server.next_tus_data_id;
        server.next_tus_data_id = id.wrapping_add(1);
        NewTusDataFile { id, path: Client::tus_id_to_path(id) }
    }
}

/// The id that the next file gets after `count` files have been numbered from
/// `first` on.
pub open spec fn id_after(first: u64, count: nat) -> int {
    (first + count) % 0x1_0000_0000_0000_0000
}

/// No id is handed out twice until all have been.
pub proof fn law_ids_are_fresh(first: u64, a: nat, b: nat)
    requires
        a < b < a + 0x1_0000_0000_0000_0000,
    ensures
        id_after(first, a) != id_after(first, b),
        id_after(first, 0) == first,
        id_after(id_after(first, a) as u64, 1) == id_after(first, a + 1),
{
}

/// No two TUS data files share a path.
pub proof fn law_paths_are_distinct(a: u64, b: u64)
    requires
        tus_path(a) == tus_path(b),
    ensures
        a == b,
{
    let head = TUS_DATA_DIRECTORY@ + "/"@;
    let tail = "."@ + TUS_FILE_EXTENSION@;
    let na = zero_padded(digits(a as nat), TUS_ID_WIDTH as nat);
    let nb = zero_padded(digits(b as nat), TUS_ID_WIDTH as nat);
    assert(tus_path(a) =~= head + na + tail);
    assert(tus_path(b) =~= head + nb + tail);
    assert(na.len() == nb.len());
    assert(tus_path(a).skip(head.len() as int).take(na.len() as int) =~= na);
    assert(tus_path(b).skip(head.len() as int).take(nb.len() as int) =~= nb);
    law_padding_keeps_the_number(a as nat, TUS_ID_WIDTH as nat);
    law_padding_keeps_the_number(b as nat, TUS_ID_WIDTH as nat);
}

/// The ids that a directory lists and the database does not record, each once,
/// in the order that they are first listed in.
pub open spec fn unused_ids(dir: Seq<u64>, db: Set<u64>) -> Seq<u64>
    decreases dir.len(),
{
    if dir.len() == 0 {
        Seq::empty()
    } else {
        let before = unused_ids(dir.drop_last(), db);
        if db.contains(dir.last()) || before.contains(dir.last()) {
            before
        } else {
            before.push(dir.last())
        }
    }
}

impl Server {
    /// A server that has not looked at its data directory yet.
    pub fn new() -> (server: Server)
        ensures
            server.next_tus_data_id == 1,
    {
        Server { next_tus_data_id: 1 }
    }

    /// Takes up numbering where the data directory left off. `max` is what
    /// creating or listing the directory gave: the first id that is free, or why
    /// it failed.
    pub fn initialize_tus_data_handler(&mut self, max: Result<u64, String>) -> (res: Result<
        (),
        String,
    >)
        ensures
            match max {
                Ok(id) => res is Ok && final(self).next_tus_data_id == id,
                Err(e) => res == Err::<(), String>(e) && *final(self) == *old(self),
            },
    {
        match max {
            Ok(id) => {
                self.next_tus_data_id = id;
                Ok(())
            },
            Err(e) => Err(e),
        }
    }

    /// Which of the data files are no longer recorded in the database, in the
    /// order that the directory lists them. An id that is listed more than once
    /// is taken up once.
    ///
    /// `dir_ids` is what listing the directory gave and `db_ids` what the
    /// database gave; a directory that cannot be listed is reported first.
    pub fn clean_tus_data(
        dir_ids: Result<Vec<u64>, String>,
        db_ids: Result<HashSet<u64>, DbError>,
    ) -> (res: Result<TusCleanup, String>)
        ensures
            match (dir_ids, db_ids, res) {
                (Ok(dir), Ok(db), Ok(cleanup)) => cleanup.unused@ == unused_ids(dir@, db@)
                    && cleanup.unused@.no_duplicates() && cleanup.num_deleted == 0,
                (Ok(_), Err(_), Err(e)) => e@ == "Failure to get tus data ids from database"@,
                (Err(e), _, _) => res == Err::<TusCleanup, String>(e),
                _ => false,
            },
    {
        let dir: Vec<u64> = match dir_ids {
            Ok(ids) => ids,
            Err(e) => return Err(e),
        };
        let db: HashSet<u64> = match db_ids {
            Ok(ids) => ids,
            Err(_) => return Err("Failure to get tus data ids from database".to_owned()),
        };
        let mut unused: Vec<u64> = Vec::new();
        let mut listed: HashSet<u64> = HashSet::new();
        for i in 0..dir.len()
            invariant
                unused@ == unused_ids(dir@.take(i as int), db@),
                forall|id: u64| listed@.contains(id) <==> unused@.contains(id),
        {
            assert(dir@.take(i + 1).drop_last() =~= dir@.take(i as int));
            if !db.contains(&dir[i]) && !listed.contains(&dir[i]) {
                let ghost before = unused@;
                listed.insert(dir[i]);
                unused.push(dir[i]);
                proof {
                    lemma_push_contains(before, dir@[i as int]);
                }
            }
        }
        assert(dir@.take(dir@.len() as int) =~= dir@);
        proof {
            lemma_unused_ids(dir@, db@);
        }
        Ok(TusCleanup { unused, num_deleted: 0 })
    }
}

impl NewTusDataFile {
    /// The id that a save is recorded under: that of the file, or 0 when the
    /// file could not be created or written.
    pub fn finish(self, stored: bool) -> (id: u64)
        ensures
            id == (if stored {
                self.id
            } else {
                0
            }),
    {
        if stored {
            self.id
        } else {
            0
        }
    }
}

/// The sweep of the data files that nothing refers to.
#[derive(Debug)]
pub struct TusCleanup {
    /// The ids to remove.
    pub unused: Vec<u64>,
    /// How many of them are gone.
    pub num_deleted: usize,
}

impl TusCleanup {
    /// Whether no more files have been removed than there were to remove.
    pub open spec fn wf(self) -> bool {
        self.num_deleted <= self.unused@.len()
    }

    /// The file to remove next.
    pub fn next(&self) -> (path: Option<String>)
        ensures
            match path {
                Some(p) => self.num_deleted < self.unused@.len() && p@ == tus_path(
                    self.unused@[self.num_deleted as int],
                ),
                None => self.num_deleted >= self.unused@.len(),
            },
    {
        if self.num_deleted < self.unused.len() {
            Some(Client::tus_id_to_path(self.unused[self.num_deleted]))
        } else {
            None
        }
    }

    /// Takes note of how removing the file that `next` named went. A failure
    /// ends the sweep.
    pub fn removed(&mut self, result: Result<(), String>) -> (res: Result<(), String>)
        requires
            old(self).num_deleted < old(self).unused@.len(),
        ensures
            final(self).wf(),
            final(self).unused@ == old(self).unused@,
            match (result, res) {
                (Ok(_), Ok(_)) => final(self).num_deleted == old(self).num_deleted + 1,
                (Err(e), Err(text)) => final(self).num_deleted == old(self).num_deleted && text@
                    == "Failed to delete tus data file("@ + tus_path(
                    old(self).unused@[old(self).num_deleted as int],
                ) + "): "@ + e@,
                _ => false,
            },
    {
        let count: usize = self.unused.len();
        assert(self.num_deleted < count);
        match result {
            Ok(_) => {
                self.num_deleted = self.num_deleted + 1;
                Ok(())
            },
            Err(e) => {
                let mut text: String = "Failed to delete tus data file(".to_owned();
                text.append(Client::tus_id_to_path(self.unused[self.num_deleted]).as_str());
                text.append("): ");
                text.append(e.as_str());
                Err(text)
            },
        }
    }

    /// What to tell about a sweep that removed something.
    pub fn report(&self) -> (text: Option<String>)
        ensures
            match text {
                Some(t) => self.num_deleted != 0 && t@ == "Deleted "@ + digits(
                    self.num_deleted as nat,
                ) + " tus data files"@,
                None => self.num_deleted == 0,
            },
    {
        if self.num_deleted == 0 {
            return None;
        }
        let mut text: String = "Deleted ".to_owned();
        text.append(decimal_text(self.num_deleted as i128).as_str());
        text.append(" tus data files");
        Some(text)
    }
}

/// A sweep removes exactly the files that the directory holds and the database
/// does not record, and none of them twice.
pub proof fn law_cleanup_removes_what_is_unrecorded(dir: Seq<u64>, db: Set<u64>, id: u64)
    ensures
        unused_ids(dir, db).contains(id) <==> dir.contains(id) && !db.contains(id),
        unused_ids(dir, db).no_duplicates(),
{
    lemma_unused_ids(dir, db);
}

proof fn lemma_unused_ids(dir: Seq<u64>, db: Set<u64>)
    ensures
        forall|id: u64| #[trigger]
            unused_ids(dir, db).contains(id) <==> dir.contains(id) && !db.contains(id),
        unused_ids(dir, db).no_duplicates(),
    decreases dir.len(),
{
    if dir.len() > 0 {
        lemma_unused_ids(dir.drop_last(), db);
        lemma_push_contains(dir.drop_last(), dir.last());
        assert(dir =~= dir.drop_last().push(dir.last()));
        lemma_push_contains(unused_ids(dir.drop_last(), db), dir.last());
    }
}

proof fn lemma_push_contains(s: Seq<u64>, last: u64)
    ensures
        forall|id: u64| #[trigger]
            s.push(last).contains(id) <==> s.contains(id) || id == last,
{
    assert forall|id: u64| s.contains(id) || id == last implies #[trigger] s.push(last).contains(
        id,
    ) by {
        if id == last {
            assert(s.push(last)[s.len() as int] == id);
        } else {
            let i = choose|i: int| 0 <= i < s.len() && s[i] == id;
            assert(s.push(last)[i] == id);
        }
    }
}

/// A data file is kept in its directory under its id, written with twenty digits.
pub proof fn law_where_a_file_is_kept(id: u64)
    ensures
        tus_path(id).len() == "tus_data/"@.len() + 20 + ".tdt"@.len(),
        tus_path(id).take(9) == "tus_data/"@,
        tus_path(id).skip(29) == ".tdt"@,
        number_value(tus_path(id).subrange(9, 29)) == id,
{
    let number = zero_padded(digits(id as nat), 20);
    law_padding_keeps_the_number(id as nat, 20);
    law_padding_only_adds_zeros(digits(id as nat), 20, 0);
    lemma_digits_fit(id as nat, 20);
    reveal_strlit("tus_data");
    reveal_strlit("tus_data/");
    reveal_strlit("/");
    reveal_strlit(".");
    reveal_strlit("tdt");
    reveal_strlit(".tdt");
    assert(tus_path(id).take(9) =~= "tus_data/"@);
    assert(tus_path(id).skip(29) =~= ".tdt"@);
    assert(tus_path(id).subrange(9, 29) =~= number);
}

spec fn power_of_ten(n: nat) -> nat
    decreases n,
{
    if n == 0 {
        1
    } else {
        10 * power_of_ten((n - 1) as nat)
    }
}

proof fn lemma_digits_len(n: nat, width: nat)
    requires
        n < power_of_ten(width),
        width > 0,
    ensures
        digits(n).len() <= width,
    decreases width,
{
    if n >= 10 {
        lemma_digits_len(n / 10, (width - 1) as nat);
    }
}

proof fn lemma_digits_fit(n: nat, width: nat)
    requires
        n <= u64::MAX,
        width == 20,
    ensures
        digits(n).len() <= width,
{
    reveal_with_fuel(power_of_ten, 21);
    lemma_digits_len(n, width);
}

/// Each file gets the id behind the last one's, and zero comes behind the largest.
pub proof fn law_ids_count_up(id: u64)
    ensures
        id_after(id, 1) == if id == u64::MAX {
            0
        } else {
            id + 1
        },
{
}

/// What a directory lists further on is removed after what it lists before, and
/// takes nothing from it.
pub proof fn law_cleanup_goes_by_the_listing(dir: Seq<u64>, db: Set<u64>, id: u64)
    ensures
        ({
            let before = unused_ids(dir, db);
            let after = unused_ids(dir.push(id), db);
            &&& before.len() <= after.len() <= before.len() + 1
            &&& after.take(before.len() as int) == before
            &&& after.len() > before.len() ==> after.last() == id
        }),
{
    assert(dir.push(id).drop_last() =~= dir);
    let before = unused_ids(dir, db);
    assert(unused_ids(dir.push(id), db).take(before.len() as int) =~= before);
}

} // verus!
