//! Slots as they are read one after the other, and the names of their authors.

use crate::cmd_tus::types::{
    absent_status, absent_variable, present_status, present_variable, status_not_there,
    status_there, status_views, variable_not_there, variable_there, variable_views,
    DbTusDataStatus, DbTusVariable, TusDataStatus, TusDataStatusView, TusVariable,
    TusVariableView,
};
use crate::error::DbError;
use vstd::prelude::*;

verus! {

/// The authors of the variables that are there, in order.
pub open spec fn variable_authors(rows: Seq<Option<DbTusVariable>>) -> Seq<i64>
    decreases rows.len(),
{
    if rows.len() == 0 {
        Seq::empty()
    } else {
        match rows.last() {
            Some(row) => variable_authors(rows.drop_last()).push(row.author_id),
            None => variable_authors(rows.drop_last()),
        }
    }
}

/// The authors of the data that are there, in order.
pub open spec fn status_authors(rows: Seq<Option<(DbTusDataStatus, Vec<u8>)>>) -> Seq<i64>
    decreases rows.len(),
{
    if rows.len() == 0 {
        Seq::empty()
    } else {
        match rows.last() {
            Some(row) => status_authors(rows.drop_last()).push(row.0.author_id),
            None => status_authors(rows.drop_last()),
        }
    }
}

proof fn lemma_variable_authors_grow(rows: Seq<Option<DbTusVariable>>, i: int)
    requires
        0 <= i <= rows.len(),
    ensures
        variable_authors(rows.take(i)).len() <= variable_authors(rows).len(),
    decreases rows.len(),
{
    if i < rows.len() {
        lemma_variable_authors_grow(rows.drop_last(), i);
        assert(rows.drop_last().take(i) =~= rows.take(i));
    } else {
        assert(rows.take(i) =~= rows);
    }
}

pub(crate) proof fn lemma_variable_author_at(rows: Seq<Option<DbTusVariable>>, i: int)
    requires
        0 <= i < rows.len(),
        rows[i] is Some,
    ensures
        variable_authors(rows.take(i)).len() < variable_authors(rows).len(),
        variable_authors(rows)[variable_authors(rows.take(i)).len() as int] == rows[i]->0.author_id,
    decreases rows.len(),
{
    if i < rows.len() - 1 {
        lemma_variable_author_at(rows.drop_last(), i);
        assert(rows.drop_last().take(i) =~= rows.take(i));
    } else {
        assert(rows.take(i) =~= rows.drop_last());
    }
}

proof fn lemma_status_authors_grow(rows: Seq<Option<(DbTusDataStatus, Vec<u8>)>>, i: int)
    requires
        0 <= i <= rows.len(),
    ensures
        status_authors(rows.take(i)).len() <= status_authors(rows).len(),
    decreases rows.len(),
{
    if i < rows.len() {
        lemma_status_authors_grow(rows.drop_last(), i);
        assert(rows.drop_last().take(i) =~= rows.take(i));
    } else {
        assert(rows.take(i) =~= rows);
    }
}

pub(crate) proof fn lemma_status_author_at(
    rows: Seq<Option<(DbTusDataStatus, Vec<u8>)>>,
    i: int,
)
    requires
        0 <= i < rows.len(),
        rows[i] is Some,
    ensures
        status_authors(rows.take(i)).len() < status_authors(rows).len(),
        status_authors(rows)[status_authors(rows.take(i)).len() as int] == (rows[i]->0).0.author_id,
    decreases rows.len(),
{
    if i < rows.len() - 1 {
        lemma_status_author_at(rows.drop_last(), i);
        assert(rows.drop_last().take(i) =~= rows.take(i));
    } else {
        assert(rows.take(i) =~= rows.drop_last());
    }
}

/// The variables that have been read so far.
#[derive(Debug)]
pub struct VariableRows {
    /// What each slot holds.
    pub rows: Vec<Option<DbTusVariable>>,
    /// The authors of those that hold something.
    pub authors: Vec<i64>,
    /// Whether the database failed on the way.
    pub failed: bool,
}

impl VariableRows {
    pub open spec fn wf(self) -> bool {
        self.authors@ == variable_authors(self.rows@)
    }

    pub fn new() -> (rows: VariableRows)
        ensures
            rows.wf(),
            rows.rows@.len() == 0,
            !rows.failed,
    {
        VariableRows { rows: Vec::new(), authors: Vec::new(), failed: false }
    }

    /// Takes in what reading the next slot gave. An empty slot is no failure.
    pub fn answer(&mut self, reply: Result<DbTusVariable, DbError>)
        requires
            old(self).wf(),
        ensures
            final(self).wf(),
            match reply {
                Ok(row) => final(self).rows@ == old(self).rows@.push(Some(row))
                    && final(self).failed == old(self).failed,
                Err(DbError::Empty) => final(self).rows@ == old(self).rows@.push(None)
                    && final(self).failed == old(self).failed,
                Err(_) => final(self).rows@ == old(self).rows@ && final(self).failed,
            },
    {
        match reply {
            Ok(row) => {
                self.rows.push(Some(row));
                self.authors.push(row.author_id);
                assert(self.rows@.drop_last() =~= old(self).rows@);
            },
            Err(DbError::Empty) => {
                self.rows.push(None);
                assert(self.rows@.drop_last() =~= old(self).rows@);
            },
            Err(_) => {
                self.failed = true;
            },
        }
    }
}

/// The slot states that have been read so far.
#[derive(Debug)]
pub struct StatusRows {
    /// What each slot holds.
    pub rows: Vec<Option<(DbTusDataStatus, Vec<u8>)>>,
    /// The authors of those that hold something.
    pub authors: Vec<i64>,
}

impl StatusRows {
    pub open spec fn wf(self) -> bool {
        self.authors@ == status_authors(self.rows@)
    }

    pub fn new() -> (rows: StatusRows)
        ensures
            rows.wf(),
            rows.rows@.len() == 0,
    {
        StatusRows { rows: Vec::new(), authors: Vec::new() }
    }

    /// Takes in what reading the next slot gave. A slot that cannot be read
    /// counts as empty.
    pub fn answer(&mut self, reply: Result<(DbTusDataStatus, Vec<u8>), DbError>)
        requires
            old(self).wf(),
        ensures
            final(self).wf(),
            match reply {
                Ok(row) => final(self).rows@ == old(self).rows@.push(Some(row)),
                Err(_) => final(self).rows@ == old(self).rows@.push(None),
            },
    {
        match reply {
            Ok(row) => {
                self.authors.push(row.0.author_id);
                self.rows.push(Some(row));
            },
            Err(_) => {
                self.rows.push(None);
            },
        }
        assert(self.rows@.drop_last() =~= old(self).rows@);
    }
}

/// The names of authors that have been looked up so far.
#[derive(Debug)]
pub struct Names {
    pub names: Vec<String>,
    /// Whether the database failed on the way.
    pub failed: bool,
}

impl Names {
    pub fn new() -> (names: Names)
        ensures
            names.names@.len() == 0,
            !names.failed,
    {
        Names { names: Vec::new(), failed: false }
    }

    /// Takes in what looking up the next author gave.
    pub fn answer(&mut self, reply: Result<String, DbError>)
        ensures
            match reply {
                Ok(name) => final(self).names@ == old(self).names@.push(name)
                    && final(self).failed == old(self).failed,
                Err(_) => final(self).names@ == old(self).names@ && final(self).failed,
            },
    {
        match reply {
            Ok(name) => {
                self.names.push(name);
            },
            Err(_) => {
                self.failed = true;
            },
        }
    }
}

/// The variables of a reply: one for each slot in order, under the name of its
/// owner, with the name of its author where it holds something.
pub open spec fn variable_replies(
    owners: Seq<&String>,
    rows: Seq<Option<DbTusVariable>>,
    names: Seq<String>,
) -> Seq<TusVariableView> {
    Seq::new(
        rows.len(),
        |i: int|
            match rows[i] {
                Some(row) => present_variable(
                    owners[i]@,
                    row,
                    names[variable_authors(rows.take(i)).len() as int]@,
                ),
                None => absent_variable(owners[i]@),
            },
    )
}

/// The slot states of a reply: one for each slot in order, under the name of its
/// owner, with the name of its author where it holds something.
pub open spec fn status_replies(
    owners: Seq<&String>,
    rows: Seq<Option<(DbTusDataStatus, Vec<u8>)>>,
    names: Seq<String>,
) -> Seq<TusDataStatusView> {
    Seq::new(
        rows.len(),
        |i: int|
            match rows[i] {
                Some((row, info)) => present_status(
                    owners[i]@,
                    row,
                    info@,
                    names[status_authors(rows.take(i)).len() as int]@,
                ),
                None => absent_status(owners[i]@),
            },
    )
}

pub(crate) fn build_variables(
    owners: &Vec<&String>,
    rows: &Vec<Option<DbTusVariable>>,
    names: &Vec<String>,
) -> (vars: Vec<TusVariable>)
    requires
        owners@.len() == rows@.len(),
        names@.len() == variable_authors(rows@).len(),
    ensures
        variable_views(vars@) == variable_replies(owners@, rows@, names@),
{
    let mut vars: Vec<TusVariable> = Vec::with_capacity(rows.len());
    let mut named: usize = 0;
    let total: usize = names.len();
    for i in 0..rows.len()
        invariant
            owners@.len() == rows@.len(),
            total == names@.len(),
            names@.len() == variable_authors(rows@).len(),
            named == variable_authors(rows@.take(i as int)).len(),
            vars@.len() == i,
            forall|j: int|
                0 <= j < i ==> (#[trigger] vars@[j])@ == variable_replies(
                    owners@,
                    rows@,
                    names@,
                )[j],
    {
        proof {
            lemma_variable_authors_grow(rows@, i + 1);
            assert(rows@.take(i + 1).drop_last() =~= rows@.take(i as int));
        }
        match &rows[i] {
            Some(row) => {
                vars.push(variable_there(owners[i], row, &names[named]));
                named = named + 1;
            },
            None => {
                vars.push(variable_not_there(owners[i]));
            },
        }
    }
    assert(variable_views(vars@) =~= variable_replies(owners@, rows@, names@));
    vars
}

pub(crate) fn build_statuses(
    owners: &Vec<&String>,
    rows: &Vec<Option<(DbTusDataStatus, Vec<u8>)>>,
    names: &Vec<String>,
) -> (statuses: Vec<TusDataStatus>)
    requires
        owners@.len() == rows@.len(),
        names@.len() == status_authors(rows@).len(),
    ensures
        status_views(statuses@) == status_replies(owners@, rows@, names@),
{
    let mut statuses: Vec<TusDataStatus> = Vec::with_capacity(rows.len());
    let mut named: usize = 0;
    let total: usize = names.len();
    for i in 0..rows.len()
        invariant
            owners@.len() == rows@.len(),
            total == names@.len(),
            names@.len() == status_authors(rows@).len(),
            named == status_authors(rows@.take(i as int)).len(),
            statuses@.len() == i,
            forall|j: int|
                0 <= j < i ==> (#[trigger] statuses@[j])@ == status_replies(
                    owners@,
                    rows@,
                    names@,
                )[j],
    {
        proof {
            lemma_status_authors_grow(rows@, i + 1);
            assert(rows@.take(i + 1).drop_last() =~= rows@.take(i as int));
        }
        match &rows[i] {
            Some(row) => {
                statuses.push(status_there(owners[i], &row.0, &row.1, &names[named]));
                named = named + 1;
            },
            None => {
                statuses.push(status_not_there(owners[i]));
            },
        }
    }
    assert(status_views(statuses@) =~= status_replies(owners@, rows@, names@));
    statuses
}

/// The same owner for every one of `n` slots.
pub open spec fn one_owner(npid: &String, n: nat) -> Seq<&String> {
    Seq::new(n, |i: int| npid)
}

pub(crate) fn repeat_owner<'a>(npid: &'a String, n: usize) -> (owners: Vec<&'a String>)
    ensures
        owners@ == one_owner(npid, n as nat),
{
    let mut owners: Vec<&'a String> = Vec::with_capacity(n);
    for i in 0..n
        invariant
            owners@ == one_owner(npid, i as nat),
    {
        owners.push(npid);
        assert(owners@ =~= one_owner(npid, (i + 1) as nat));
    }
    owners
}

} // verus!
