//! What was set reads back: setting the variables of a user and reading them
//! afterwards, against a host that keeps what it is handed.

use crate::cmd_tus::laws::same_owner;
use crate::cmd_tus::rows::{lemma_variable_author_at, variable_authors};
use crate::cmd_tus::types::{
    named_user, present_variable, write_owner, Client, DbTusVariable, Owner, Query, ReplyView,
    StepView, TusGetMultiSlotVariableRequest, TusSetMultiSlotVariableRequest,
};
use crate::cmd_tus::variables::{
    get_multislot_variable, set_multislot_variable, GetMultislotAnswers, SetMultislotAnswers,
};
use crate::error::ErrorType;
use vstd::prelude::*;

verus! {

/// Whether `after` is `before` with an answer to `query` taken in.
pub open spec fn answers_setting(
    query: Query,
    before: SetMultislotAnswers,
    after: SetMultislotAnswers,
) -> bool {
    match query {
        Query::Connect => after.db is Some && after == (SetMultislotAnswers {
            db: after.db,
            ..before
        }),
        Query::UserId { .. } => after.owner is Some && after == (SetMultislotAnswers {
            owner: after.owner,
            ..before
        }),
        Query::SetVariable { .. } => after.written == before.written + 1 && after == (
        SetMultislotAnswers { written: after.written, ..before }),
        _ => false,
    }
}

/// Whether a request to set variables goes from `before` to `after`.
pub open spec fn goes_on_setting(
    client: Client,
    req: TusSetMultiSlotVariableRequest,
    before: SetMultislotAnswers,
    after: SetMultislotAnswers,
) -> bool {
    set_multislot_variable(client, &req, before) matches StepView::Ask(query) && answers_setting(
        query,
        before,
        after,
    )
}

/// The states that a request to set variables goes through: nothing is known at
/// first, and every question is answered.
pub open spec fn is_setting_run(
    client: Client,
    req: TusSetMultiSlotVariableRequest,
    run: Seq<SetMultislotAnswers>,
) -> bool {
    &&& run.len() > 0
    &&& run[0] == (SetMultislotAnswers { db: None, owner: None, written: 0 })
    &&& forall|i: int, j: int|
        0 <= i && j == i + 1 && j < run.len() ==> goes_on_setting(
            client,
            req,
            #[trigger] run[i],
            #[trigger] run[j],
        )
}

/// What a host that keeps what it is handed holds in a slot of an owner once the
/// first `asked` questions of a run have been answered. `stamps` gives the moment
/// that each of the request's slots was set at.
pub open spec fn kept_variable(
    client: Client,
    req: TusSetMultiSlotVariableRequest,
    run: Seq<SetMultislotAnswers>,
    stamps: Seq<u64>,
    asked: nat,
    owner: Owner,
    slot: i32,
) -> Option<DbTusVariable>
    decreases asked,
{
    if asked == 0 {
        None
    } else {
        let before = kept_variable(client, req, run, stamps, (asked - 1) as nat, owner, slot);
        let got = run[asked - 1];
        match set_multislot_variable(client, &req, got) {
            StepView::Ask(
                Query::SetVariable { owner: written, slot: into, value, author_id },
            ) if same_owner(written, owner) && into == slot => Some(
                DbTusVariable {
                    variable: value,
                    timestamp: stamps[got.written as int],
                    author_id,
                },
            ),
            _ => before,
        }
    }
}

/// Whether `after` is `before` with the answer to `query` taken in that a host
/// gives after `run`: it holds what it was handed, and `names` gives the npid of
/// each account.
pub open spec fn answers_reading(
    client: Client,
    req: TusSetMultiSlotVariableRequest,
    run: Seq<SetMultislotAnswers>,
    stamps: Seq<u64>,
    names: spec_fn(i64) -> Seq<char>,
    query: Query,
    before: GetMultislotAnswers,
    after: GetMultislotAnswers,
) -> bool {
    match query {
        Query::Connect => after == (GetMultislotAnswers {
            db: Some(Ok::<(), ErrorType>(())),
            ..before
        }),
        Query::UserId { .. } => after == (GetMultislotAnswers {
            owner: run.last().owner,
            ..before
        }),
        Query::GetVariable { owner, slot } => {
            &&& after == (GetMultislotAnswers { rows: after.rows, ..before })
            &&& after.rows.wf()
            &&& after.rows.failed == before.rows.failed
            &&& after.rows.rows@ == before.rows.rows@.push(
                kept_variable(client, req, run, stamps, (run.len() - 1) as nat, owner, slot),
            )
        },
        Query::Username { user_id } => {
            &&& after == (GetMultislotAnswers { names: after.names, ..before })
            &&& after.names.failed == before.names.failed
            &&& after.names.names@.len() == before.names.names@.len() + 1
            &&& after.names.names@.drop_last() == before.names.names@
            &&& after.names.names@.last()@ == names(user_id)
        },
        _ => false,
    }
}

/// Whether a request for variables goes from `before` to `after`, with what a
/// host answers after `run`.
pub open spec fn goes_on_reading(
    client: Client,
    req: TusSetMultiSlotVariableRequest,
    run: Seq<SetMultislotAnswers>,
    stamps: Seq<u64>,
    names: spec_fn(i64) -> Seq<char>,
    get: TusGetMultiSlotVariableRequest,
    before: GetMultislotAnswers,
    after: GetMultislotAnswers,
) -> bool {
    get_multislot_variable(&get, before) matches StepView::Ask(query) && answers_reading(
        client,
        req,
        run,
        stamps,
        names,
        query,
        before,
        after,
    )
}

/// The states that a request for variables goes through after `run`: nothing is
/// known at first, and every question is answered.
pub open spec fn is_reading_run(
    client: Client,
    req: TusSetMultiSlotVariableRequest,
    run: Seq<SetMultislotAnswers>,
    stamps: Seq<u64>,
    names: spec_fn(i64) -> Seq<char>,
    get: TusGetMultiSlotVariableRequest,
    reads: Seq<GetMultislotAnswers>,
) -> bool {
    &&& reads.len() > 0
    &&& reads[0].db is None
    &&& reads[0].owner is None
    &&& reads[0].rows.wf()
    &&& reads[0].rows.rows@.len() == 0
    &&& !reads[0].rows.failed
    &&& reads[0].names.names@.len() == 0
    &&& !reads[0].names.failed
    &&& forall|i: int, j: int|
        0 <= i && j == i + 1 && j < reads.len() ==> goes_on_reading(
            client,
            req,
            run,
            stamps,
            names,
            get,
            #[trigger] reads[i],
            #[trigger] reads[j],
        )
}

/// Whether the slot at `k` is the given one, and none after it is.
pub open spec fn is_last_of(slots: Seq<i32>, k: int, slot: i32) -> bool {
    &&& 0 <= k < slots.len()
    &&& slots[k] == slot
    &&& forall|l: int| k < l < slots.len() ==> #[trigger] slots[l] != slot
}

proof fn lemma_kept(
    client: Client,
    req: TusSetMultiSlotVariableRequest,
    run: Seq<SetMultislotAnswers>,
    stamps: Seq<u64>,
    i: int,
    owner: Owner,
    k: int,
)
    requires
        is_setting_run(client, req, run),
        0 <= i < run.len(),
        named_user(req.user) is Some,
        req.slot_id_array@.len() == req.variable_array@.len(),
        write_owner(client, &req.user->0, run[i].owner) matches Ok(o) ==> same_owner(o, owner),
    ensures
        run[i].written <= req.slot_id_array@.len(),
        is_last_of(
            req.slot_id_array@.take(run[i].written as int),
            k,
            req.slot_id_array@[k],
        ) ==> kept_variable(
            client,
            req,
            run,
            stamps,
            i as nat,
            owner,
            req.slot_id_array@[k],
        ) == Some(
            DbTusVariable {
                variable: req.variable_array@[k],
                timestamp: stamps[k],
                author_id: client.user_id,
            },
        ),
    decreases i,
{
    if i > 0 {
        let before = run[i - 1];
        let after = run[i];
        assert(goes_on_setting(client, req, before, after));
        lemma_kept(client, req, run, stamps, i - 1, owner, k);
        let slots = req.slot_id_array@;
        if after.written == before.written + 1 {
            let sofar = slots.take(before.written as int);
            let now = slots.take(after.written as int);
            if is_last_of(now, k, slots[k]) && k < before.written {
                assert(now[before.written as int] != slots[k]);
                assert forall|l: int| k < l < sofar.len() implies #[trigger] sofar[l]
                    != slots[k] by {
                    assert(now[l] != slots[k]);
                }
                assert(is_last_of(sofar, k, slots[k]));
            }
        }
    }
}

proof fn lemma_kept_for_the_same_owner(
    client: Client,
    req: TusSetMultiSlotVariableRequest,
    run: Seq<SetMultislotAnswers>,
    stamps: Seq<u64>,
    asked: nat,
    a: Owner,
    b: Owner,
    slot: i32,
)
    requires
        same_owner(a, b),
    ensures
        kept_variable(client, req, run, stamps, asked, a, slot) == kept_variable(
            client,
            req,
            run,
            stamps,
            asked,
            b,
            slot,
        ),
    decreases asked,
{
    if asked > 0 {
        lemma_kept_for_the_same_owner(client, req, run, stamps, (asked - 1) as nat, a, b, slot);
    }
}

/// Whether `got` holds what a host answers after `run` for the slots that have
/// been read and the authors that have been named so far.
spec fn has_read(
    client: Client,
    req: TusSetMultiSlotVariableRequest,
    run: Seq<SetMultislotAnswers>,
    stamps: Seq<u64>,
    names: spec_fn(i64) -> Seq<char>,
    get: TusGetMultiSlotVariableRequest,
    got: GetMultislotAnswers,
    owner: Owner,
) -> bool {
    &&& got.db is None || got.db == Some(Ok::<(), ErrorType>(()))
    &&& got.owner is None || got.owner == run.last().owner
    &&& got.rows.wf()
    &&& !got.rows.failed
    &&& got.rows.rows@.len() <= get.slot_id_array@.len()
    &&& forall|j: int|
        0 <= j < got.rows.rows@.len() ==> #[trigger] got.rows.rows@[j] == kept_variable(
            client,
            req,
            run,
            stamps,
            (run.len() - 1) as nat,
            owner,
            get.slot_id_array@[j],
        )
    &&& !got.names.failed
    &&& got.names.names@.len() > 0 ==> got.rows.rows@.len() == get.slot_id_array@.len()
    &&& got.names.names@.len() <= got.rows.authors@.len()
    &&& forall|m: int|
        0 <= m < got.names.names@.len() ==> (#[trigger] got.names.names@[m])@ == names(
            got.rows.authors@[m],
        )
}

proof fn lemma_reading(
    client: Client,
    req: TusSetMultiSlotVariableRequest,
    run: Seq<SetMultislotAnswers>,
    stamps: Seq<u64>,
    names: spec_fn(i64) -> Seq<char>,
    get: TusGetMultiSlotVariableRequest,
    reads: Seq<GetMultislotAnswers>,
    i: int,
    owner: Owner,
)
    requires
        run.len() > 0,
        is_reading_run(client, req, run, stamps, names, get, reads),
        0 <= i < reads.len(),
        req.user is Some,
        write_owner(client, &req.user->0, run.last().owner) matches Ok(o) && same_owner(o, owner),
        get.user matches Some(user) && user.npid@ == req.user->0.npid@ && user.vuser
            == req.user->0.vuser,
    ensures
        has_read(client, req, run, stamps, names, get, reads[i], owner),
    decreases i,
{
    if i > 0 {
        let before = reads[i - 1];
        let after = reads[i];
        lemma_reading(client, req, run, stamps, names, get, reads, i - 1, owner);
        assert(goes_on_reading(client, req, run, stamps, names, get, before, after));
        match get_multislot_variable(&get, before) {
            StepView::Ask(Query::GetVariable { owner: asked, slot }) => {
                assert(same_owner(asked, owner));
                lemma_kept_for_the_same_owner(
                    client,
                    req,
                    run,
                    stamps,
                    (run.len() - 1) as nat,
                    asked,
                    owner,
                    slot,
                );
                assert(after.names.names@.len() == 0);
            },
            StepView::Ask(Query::Username { user_id }) => {
                assert forall|m: int| 0 <= m < after.names.names@.len() implies (
                #[trigger] after.names.names@[m])@ == names(after.rows.authors@[m]) by {
                    if m < before.names.names@.len() {
                        assert(after.names.names@.drop_last()[m] == before.names.names@[m]);
                    }
                }
            },
            _ => {},
        }
    }
}

/// Variables that were set read back. Once a request to set variables has
/// succeeded, a request for slots of the same user, to a host that kept what it
/// was handed, is answered. Each slot that was set holds the value that was set
/// last, with the client as its author and the moment that it was set at.
pub proof fn law_set_variables_read_back(
    client: Client,
    req: TusSetMultiSlotVariableRequest,
    run: Seq<SetMultislotAnswers>,
    stamps: Seq<u64>,
    names: spec_fn(i64) -> Seq<char>,
    get: TusGetMultiSlotVariableRequest,
    reads: Seq<GetMultislotAnswers>,
)
    requires
        is_setting_run(client, req, run),
        set_multislot_variable(client, &req, run.last()) == StepView::Done(Ok(ErrorType::NoError)),
        get.user matches Some(user) && user.npid@ == req.user->0.npid@ && user.vuser
            == req.user->0.vuser,
        is_reading_run(client, req, run, stamps, names, get, reads),
        get_multislot_variable(&get, reads.last()) !is Ask,
    ensures
        get_multislot_variable(&get, reads.last()) matches StepView::Answer(
            ReplyView::Variables(vars),
        ) && {
            &&& vars.len() == get.slot_id_array@.len()
            &&& forall|j: int, k: int|
                0 <= j < vars.len() && #[trigger] is_last_of(
                    req.slot_id_array@,
                    k,
                    get.slot_id_array@[j],
                ) ==> vars[j] == present_variable(
                    req.user->0.npid@,
                    DbTusVariable {
                        variable: req.variable_array@[k],
                        timestamp: stamps[k],
                        author_id: client.user_id,
                    },
                    names(client.user_id),
                )
        },
{
    let owner = write_owner(client, &req.user->0, run.last().owner)->Ok_0;
    let got = reads.last();
    lemma_reading(client, req, run, stamps, names, get, reads, reads.len() - 1, owner);
    let rows = got.rows.rows@;
    let last = run.len() - 1;
    assert forall|j: int, k: int|
        0 <= j < rows.len() && #[trigger] is_last_of(
            req.slot_id_array@,
            k,
            get.slot_id_array@[j],
        ) implies ({
        &&& rows[j] == Some(
            DbTusVariable {
                variable: req.variable_array@[k],
                timestamp: stamps[k],
                author_id: client.user_id,
            },
        )
        &&& variable_authors(rows.take(j)).len() < got.rows.authors@.len()
        &&& got.rows.authors@[variable_authors(rows.take(j)).len() as int] == client.user_id
    }) by {
        lemma_kept(client, req, run, stamps, last, owner, k);
        assert(req.slot_id_array@.take(run.last().written as int) =~= req.slot_id_array@);
        lemma_variable_author_at(rows, j);
    }
}

} // verus!
