//! What holds of every life of a session, whatever its owner and the server
//! do to it and in whatever order.

use vstd::prelude::*;
use crate::session::close_notifications;
use crate::session::closing_notifications;
use crate::session::destroy_notifications;
use crate::session::fresh;
use crate::session::registered_at;
use crate::session::release_notifications;
use crate::session::reopen_notifications;
use crate::session::step;
use crate::session::step_notifications;
use crate::session::CloseCallback;
use crate::session::ForeignOnReopenCallback;
use crate::session::Notification;
use crate::session::SessionOp;
use crate::session::SessionType;
use crate::session::SessionView;

verus! {

/// The session after the steps of `ops`, taken in order.
pub open spec fn run(session: SessionView, ops: Seq<SessionOp>) -> SessionView
    decreases ops.len(),
{
    if ops.len() == 0 {
        session
    } else {
        step(run(session, ops.drop_last()), ops.last())
    }
}

/// Everything that came due during the steps of `ops`, in order.
pub open spec fn trace(session: SessionView, ops: Seq<SessionOp>) -> Seq<Notification>
    decreases ops.len(),
{
    if ops.len() == 0 {
        Seq::empty()
    } else {
        trace(session, ops.drop_last()) + step_notifications(
            run(session, ops.drop_last()),
            ops.last(),
        )
    }
}

/// How often `item` occurs in `items`.
pub open spec fn count_of<T>(items: Seq<T>, item: T) -> nat
    decreases items.len(),
{
    if items.len() == 0 {
        0
    } else {
        count_of(items.drop_last(), item) + if items.last() == item {
            1nat
        } else {
            0nat
        }
    }
}

/// Whether a step closes the session.
pub open spec fn closes(op: SessionOp) -> bool {
    op is ForceClose || op is ServerClosed
}

/// How often the steps of `ops` registered `callback` with the session while
/// it was open.
pub open spec fn close_registrations(
    session: SessionView,
    ops: Seq<SessionOp>,
    callback: CloseCallback,
) -> nat
    decreases ops.len(),
{
    if ops.len() == 0 {
        0
    } else {
        close_registrations(session, ops.drop_last(), callback) + if ops.last()
            == SessionOp::OnClose(callback) && run(session, ops.drop_last()).open {
            1nat
        } else {
            0nat
        }
    }
}

/// How often the steps of `ops` registered `registration` with the session.
pub open spec fn reopen_registrations(
    ops: Seq<SessionOp>,
    registration: ForeignOnReopenCallback,
) -> nat
    decreases ops.len(),
{
    if ops.len() == 0 {
        0
    } else {
        reopen_registrations(ops.drop_last(), registration) + if ops.last() == SessionOp::OnReopen(
            registration,
        ) {
            1nat
        } else {
            0nat
        }
    }
}

proof fn lemma_count_of_pointwise<A, B>(left: Seq<A>, right: Seq<B>, a: A, b: B)
    requires
        left.len() == right.len(),
        forall|i: int| 0 <= i < left.len() ==> (left[i] == a <==> right[i] == b),
    ensures
        count_of(left, a) == count_of(right, b),
    decreases left.len(),
{
    if left.len() > 0 {
        lemma_count_of_pointwise(left.drop_last(), right.drop_last(), a, b);
    }
}

proof fn lemma_count_of_none<A>(items: Seq<A>, item: A)
    requires
        forall|i: int| 0 <= i < items.len() ==> items[i] != item,
    ensures
        count_of(items, item) == 0,
    decreases items.len(),
{
    if items.len() > 0 {
        lemma_count_of_none(items.drop_last(), item);
    }
}

proof fn lemma_count_of_push<A>(items: Seq<A>, last: A, item: A)
    ensures
        count_of(items.push(last), item) == count_of(items, item) + if last == item {
            1nat
        } else {
            0nat
        },
{
    assert(items.push(last).drop_last() =~= items);
}

proof fn lemma_count_of_add<A>(left: Seq<A>, right: Seq<A>, item: A)
    ensures
        count_of(left + right, item) == count_of(left, item) + count_of(right, item),
    decreases right.len(),
{
    if right.len() == 0 {
        assert(left + right =~= left);
    } else {
        lemma_count_of_add(left, right.drop_last(), item);
        assert((left + right).drop_last() =~= left + right.drop_last());
    }
}

proof fn lemma_count_of_update<A>(items: Seq<A>, place: int, new: A, item: A)
    requires
        0 <= place < items.len(),
    ensures
        count_of(items.update(place, new), item) + if items[place] == item {
            1nat
        } else {
            0nat
        } == count_of(items, item) + if new == item {
            1nat
        } else {
            0nat
        },
    decreases items.len(),
{
    if place == items.len() - 1 {
        assert(items.update(place, new).drop_last() =~= items.drop_last());
    } else {
        lemma_count_of_update(items.drop_last(), place, new, item);
        assert(items.update(place, new).drop_last() =~= items.drop_last().update(place, new));
    }
}

proof fn lemma_registered_at_in_range(
    registrations: Seq<ForeignOnReopenCallback>,
    identity: usize,
    from: int,
)
    requires
        0 <= from,
    ensures
        registered_at(registrations, identity, from) matches Some(place) ==> from <= place
            < registrations.len() && registrations[place].identity == identity,
    decreases registrations.len() - from,
{
    if from < registrations.len() && registrations[from].identity != identity {
        lemma_registered_at_in_range(registrations, identity, from + 1);
    }
}

/// How often a notification that `callback` closed is among those due when
/// the session closes.
proof fn lemma_closing_counts(session: SessionView, callback: CloseCallback)
    ensures
        count_of(closing_notifications(session), Notification::Closed(callback)) == if session.open {
            count_of(session.on_close, callback)
        } else {
            0
        },
{
    if session.open {
        lemma_count_of_pointwise(
            session.on_close,
            close_notifications(session.on_close),
            callback,
            Notification::Closed(callback),
        );
    }
}

proof fn lemma_one_count<A>(only: A, item: A)
    ensures
        count_of(seq![only], item) == if only == item {
            1nat
        } else {
            0nat
        },
{
    let one = seq![only];
    assert(one.len() == 1);
    assert(one.last() == only);
    assert(one.drop_last() =~= Seq::<A>::empty());
    assert(count_of(one.drop_last(), item) == 0);
}

/// A session that is closed holds no close callback that has yet to fire.
pub open spec fn settled(session: SessionView) -> bool {
    !session.open ==> session.on_close.len() == 0
}

proof fn lemma_run_settled(session: SessionView, ops: Seq<SessionOp>)
    requires
        settled(session),
    ensures
        settled(run(session, ops)),
    decreases ops.len(),
{
    if ops.len() > 0 {
        lemma_run_settled(session, ops.drop_last());
    }
}

proof fn lemma_close_balance(session: SessionView, ops: Seq<SessionOp>, callback: CloseCallback)
    requires
        settled(session),
    ensures
        count_of(trace(session, ops), Notification::Closed(callback)) + count_of(
            run(session, ops).on_close,
            callback,
        ) == count_of(session.on_close, callback) + close_registrations(session, ops, callback),
    decreases ops.len(),
{
    if ops.len() > 0 {
        let before = run(session, ops.drop_last());
        let due = step_notifications(before, ops.last());
        let closed = Notification::Closed(callback);
        lemma_close_balance(session, ops.drop_last(), callback);
        lemma_run_settled(session, ops.drop_last());
        lemma_count_of_add(trace(session, ops.drop_last()), due, closed);
        match ops.last() {
            SessionOp::OnClose(other) => {
                lemma_count_of_none(due, closed);
                if before.open {
                    lemma_count_of_push(before.on_close, other, callback);
                }
            },
            SessionOp::OnReopen(registration) => {
                lemma_registered_at_in_range(before.on_reopen, registration.identity, 0);
                lemma_count_of_none(due, closed);
            },
            SessionOp::ForceClose { teardown_failed } => {
                lemma_closing_counts(before, callback);
                lemma_count_of_none(Seq::<CloseCallback>::empty(), callback);
            },
            SessionOp::ServerClosed => {
                lemma_closing_counts(before, callback);
                lemma_count_of_none(Seq::<CloseCallback>::empty(), callback);
            },
            SessionOp::Reopen { recovered } => {
                lemma_count_of_none(due, closed);
            },
        }
    }
}

proof fn lemma_destroy_balance(
    session: SessionView,
    ops: Seq<SessionOp>,
    registration: ForeignOnReopenCallback,
)
    ensures
        count_of(trace(session, ops), Notification::Destroyed(registration)) + count_of(
            run(session, ops).on_reopen,
            registration,
        ) == count_of(session.on_reopen, registration) + reopen_registrations(ops, registration),
    decreases ops.len(),
{
    if ops.len() > 0 {
        let before = run(session, ops.drop_last());
        let due = step_notifications(before, ops.last());
        let destroyed = Notification::Destroyed(registration);
        lemma_destroy_balance(session, ops.drop_last(), registration);
        lemma_count_of_add(trace(session, ops.drop_last()), due, destroyed);
        match ops.last() {
            SessionOp::OnClose(callback) => {
                lemma_count_of_none(due, destroyed);
            },
            SessionOp::OnReopen(new) => {
                lemma_registered_at_in_range(before.on_reopen, new.identity, 0);
                match registered_at(before.on_reopen, new.identity, 0) {
                    Some(place) => {
                        lemma_one_count(Notification::Destroyed(before.on_reopen[place]), destroyed);
                        lemma_count_of_update(before.on_reopen, place, new, registration);
                    },
                    None => {
                        lemma_count_of_none(due, destroyed);
                        lemma_count_of_push(before.on_reopen, new, registration);
                    },
                }
            },
            SessionOp::ForceClose { teardown_failed } => {
                lemma_count_of_none(due, destroyed);
            },
            SessionOp::ServerClosed => {
                lemma_count_of_none(due, destroyed);
            },
            SessionOp::Reopen { recovered } => {
                lemma_count_of_none(due, destroyed);
            },
        }
    }
}

/// Close callbacks fire at most once, and exactly once by the time the
/// session is closed. Take a session from its opening through any steps: for
/// each callback, the notifications that it closed and the registrations that
/// still wait add up to the registrations that the session took. Once the
/// session is closed none waits, so each registration has been notified once;
/// and the release of the session, which closes it if nothing else has,
/// brings the count to exactly one for each registration in every case.
pub proof fn lemma_close_callbacks_fire_once(
    database_name: Seq<char>,
    session_type: SessionType,
    ops: Seq<SessionOp>,
    callback: CloseCallback,
)
    ensures
        ({
            let start = fresh(database_name, session_type);
            let end = run(start, ops);
            let fired = count_of(trace(start, ops), Notification::Closed(callback));
            let taken = close_registrations(start, ops, callback);
            &&& fired + count_of(end.on_close, callback) == taken
            &&& fired <= taken
            &&& !end.open ==> fired == taken
            &&& (exists|at: int| 0 <= at < ops.len() && closes(#[trigger] ops[at])) ==> fired
                == taken
            &&& count_of(
                trace(start, ops) + release_notifications(end),
                Notification::Closed(callback),
            ) == taken
        }),
{
    let start = fresh(database_name, session_type);
    let end = run(start, ops);
    let closed = Notification::Closed(callback);
    lemma_close_balance(start, ops, callback);
    lemma_run_settled(start, ops);
    lemma_count_of_none(start.on_close, callback);
    lemma_count_of_none(Seq::<CloseCallback>::empty(), callback);
    if !end.open {
        assert(end.on_close =~= Seq::<CloseCallback>::empty());
    }
    if exists|at: int| 0 <= at < ops.len() && closes(#[trigger] ops[at]) {
        let at = choose|at: int| 0 <= at < ops.len() && closes(#[trigger] ops[at]);
        lemma_close_is_final(start, ops, at);
    }
    lemma_count_of_add(trace(start, ops), release_notifications(end), closed);
    lemma_count_of_add(closing_notifications(end), destroy_notifications(end.on_reopen), closed);
    lemma_closing_counts(end, callback);
    lemma_count_of_none(destroy_notifications(end.on_reopen), closed);
}

/// The destructor of a reopen callback runs exactly once. Take a session from
/// its opening through any steps, reopenings among them: for each
/// registration, the notifications that it was discarded and the copies that
/// the session still holds add up to the times it was registered. So none is
/// discarded twice, one that was replaced has been discarded, and after the
/// release of the session every one has been discarded exactly once.
pub proof fn lemma_destructors_run_once(
    database_name: Seq<char>,
    session_type: SessionType,
    ops: Seq<SessionOp>,
    registration: ForeignOnReopenCallback,
)
    ensures
        ({
            let start = fresh(database_name, session_type);
            let end = run(start, ops);
            let destroyed = count_of(trace(start, ops), Notification::Destroyed(registration));
            let registered = reopen_registrations(ops, registration);
            &&& destroyed + count_of(end.on_reopen, registration) == registered
            &&& destroyed <= registered
            &&& count_of(
                trace(start, ops) + release_notifications(end),
                Notification::Destroyed(registration),
            ) == registered
        }),
{
    let start = fresh(database_name, session_type);
    let end = run(start, ops);
    let destroyed = Notification::Destroyed(registration);
    lemma_destroy_balance(start, ops, registration);
    lemma_count_of_none(start.on_reopen, registration);
    lemma_count_of_add(trace(start, ops), release_notifications(end), destroyed);
    lemma_count_of_add(closing_notifications(end), destroy_notifications(end.on_reopen), destroyed);
    lemma_count_of_none(closing_notifications(end), destroyed);
    lemma_count_of_pointwise(
        end.on_reopen,
        destroy_notifications(end.on_reopen),
        registration,
        destroyed,
    );
}

/// A closed session stays closed: no step opens it again, a reopening least
/// of all.
pub proof fn lemma_closed_stays_closed(session: SessionView, ops: Seq<SessionOp>)
    requires
        !session.open,
    ensures
        !run(session, ops).open,
    decreases ops.len(),
{
    if ops.len() > 0 {
        lemma_closed_stays_closed(session, ops.drop_last());
    }
}

/// After any step that closes it, a session is closed for good, whatever
/// comes before or after that step.
pub proof fn lemma_close_is_final(session: SessionView, ops: Seq<SessionOp>, at: int)
    requires
        0 <= at < ops.len(),
        closes(ops[at]),
    ensures
        !run(session, ops).open,
    decreases ops.len(),
{
    if at < ops.len() - 1 {
        lemma_close_is_final(session, ops.drop_last(), at);
    }
}

/// A session stays open as long as no step closes it: a lost connection,
/// recovered or not, leaves it open.
pub proof fn lemma_open_until_closed(session: SessionView, ops: Seq<SessionOp>)
    requires
        session.open,
        forall|i: int| 0 <= i < ops.len() ==> !closes(ops[i]),
    ensures
        run(session, ops).open,
    decreases ops.len(),
{
    if ops.len() > 0 {
        lemma_open_until_closed(session, ops.drop_last());
    }
}

/// Reopen callbacks fire only for a reopening that succeeded on an open
/// session, and then each registration is notified in the order of
/// registration.
pub proof fn lemma_reopen_notifies_all(session: SessionView, recovered: bool)
    ensures
        step(session, SessionOp::Reopen { recovered }) == session,
        step_notifications(session, SessionOp::Reopen { recovered }) == if session.open
            && recovered {
            reopen_notifications(session.on_reopen)
        } else {
            Seq::empty()
        },
{
}

/// Whether no two registrations have the same identity.
pub open spec fn distinct_identities(registrations: Seq<ForeignOnReopenCallback>) -> bool {
    forall|i: int, j: int|
        0 <= i < j < registrations.len() ==> registrations[i].identity
            != registrations[j].identity
}

proof fn lemma_not_registered(
    registrations: Seq<ForeignOnReopenCallback>,
    identity: usize,
    from: int,
)
    requires
        0 <= from,
        registered_at(registrations, identity, from) is None,
    ensures
        forall|i: int| from <= i < registrations.len() ==> registrations[i].identity != identity,
    decreases registrations.len() - from,
{
    if from < registrations.len() {
        lemma_not_registered(registrations, identity, from + 1);
    }
}

/// The reopen callbacks of a session are a set keyed by identity: whatever
/// is registered and in whatever order, no two of the registrations that a
/// session holds have the same identity.
pub proof fn lemma_one_registration_per_identity(
    database_name: Seq<char>,
    session_type: SessionType,
    ops: Seq<SessionOp>,
)
    ensures
        distinct_identities(run(fresh(database_name, session_type), ops).on_reopen),
    decreases ops.len(),
{
    let start = fresh(database_name, session_type);
    if ops.len() > 0 {
        lemma_one_registration_per_identity(database_name, session_type, ops.drop_last());
        let before = run(start, ops.drop_last());
        if let SessionOp::OnReopen(new) = ops.last() {
            lemma_registered_at_in_range(before.on_reopen, new.identity, 0);
            if registered_at(before.on_reopen, new.identity, 0) is None {
                lemma_not_registered(before.on_reopen, new.identity, 0);
            }
        }
    }
}

} // verus!
