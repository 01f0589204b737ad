//! Whom a command is about, told by its request and the host's answers alone.

use crate::cmd_tus::types::{Client, Owner, Query, StepView, TusUser};
use crate::error::{DbError, ErrorType};
use vstd::prelude::*;

verus! {

/// Whether a request names somebody.
pub open spec fn names_somebody(user: Option<TusUser>) -> bool {
    user matches Some(u) && u.npid@.len() > 0
}

/// Whether there is a database connection.
pub open spec fn connected(db: Option<Result<(), ErrorType>>) -> bool {
    db matches Some(Ok(_))
}

/// Whether it is known whose slots a request is about: a virtual user needs no
/// looking up.
pub open spec fn is_known(user: TusUser, looked_up: Option<Result<i64, DbError>>) -> bool {
    user.vuser || (looked_up matches Some(Ok(_)))
}

/// Whether `owner` is whom a request is about: the virtual user of that name, or
/// the account that was found under it.
pub open spec fn is_about(
    owner: Owner,
    user: TusUser,
    looked_up: Option<Result<i64, DbError>>,
) -> bool {
    match owner {
        Owner::Virtual(name) => user.vuser && name@ == user.npid@,
        Owner::Account(id) => !user.vuser && looked_up == Some(Ok::<i64, DbError>(id)),
    }
}

/// Whether the client may change the slots of a user: those of a virtual user, or
/// its own.
pub open spec fn may_change(
    client: Client,
    user: TusUser,
    looked_up: Option<Result<i64, DbError>>,
) -> bool {
    user.vuser || looked_up == Some(Ok::<i64, DbError>(client.user_id))
}

/// Whether a step is a right one as far as the connection and the user of the
/// request go. `well_formed` tells whether there is nothing wrong with the
/// request itself. A step that none of the cases is about comes only once both
/// are known.
pub open spec fn starts_right(
    step: StepView,
    well_formed: bool,
    user: TusUser,
    db: Option<Result<(), ErrorType>>,
    looked_up: Option<Result<i64, DbError>>,
) -> bool {
    match step {
        StepView::Ask(Query::Connect) => well_formed && db is None,
        StepView::Ask(Query::UserId { npid }) => {
            &&& well_formed
            &&& connected(db)
            &&& !user.vuser
            &&& looked_up is None
            &&& npid@ == user.npid@
        },
        StepView::Done(Ok(ErrorType::NotFound)) => {
            &&& well_formed
            &&& connected(db)
            &&& !user.vuser
            &&& looked_up == Some(Err::<i64, DbError>(DbError::Empty))
        },
        StepView::Done(Err(e)) => {
            ||| !well_formed && e == ErrorType::Malformed
            ||| well_formed && db == Some(Err::<(), ErrorType>(e))
            ||| well_formed && connected(db) && !user.vuser && e == ErrorType::DbFail && (
            looked_up matches Some(Err(why)) && why != DbError::Empty)
            ||| well_formed && connected(db) && is_known(user, looked_up)
        },
        _ => well_formed && connected(db) && is_known(user, looked_up),
    }
}

/// Whether a step ends a command with an error although the connection and the
/// user of the request are known.
pub open spec fn fails_later(
    step: StepView,
    well_formed: bool,
    user: TusUser,
    db: Option<Result<(), ErrorType>>,
    looked_up: Option<Result<i64, DbError>>,
) -> bool {
    &&& well_formed
    &&& connected(db)
    &&& is_known(user, looked_up)
    &&& step matches StepView::Done(Err(_))
}

} // verus!
