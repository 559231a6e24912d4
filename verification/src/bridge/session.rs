//! Sessions by handle: what a caller on the other side of the boundary can
//! do with a session, and what the connection's monitor reports of one.

use vstd::prelude::*;
use crate::bridge::Handle;
use crate::bridge::HandleTable;
use crate::bridge::TableView;
use crate::session::after_close;
use crate::session::after_on_close;
use crate::session::after_on_reopen;
use crate::session::closing_notifications;
use crate::session::fresh;
use crate::session::on_reopen_notifications;
use crate::session::release_notifications;
use crate::session::reopening_notifications;
use crate::session::CloseCallback;
use crate::session::ForeignOnReopenCallback;
use crate::session::Notification;
use crate::session::Session;
use crate::session::SessionType;
use crate::session::SessionView;
use crate::session::TeardownFailure;

verus! {

/// Why no session could be opened.
#[derive(Clone, Copy, Debug, PartialEq, Eq, Structural)]
pub enum ResolutionFailure {
    /// No database has the given name.
    UnknownDatabase,
    /// The server did not establish the session.
    NotEstablished,
}

/// Whether the handle names an open session.
pub open spec fn open_in(table: TableView<SessionView>, handle: Handle) -> bool {
    table.live(handle) && table.resources[handle].open
}

/// Whether a table of sessions can have come from `before`: no handle was
/// taken back, no session that was released is held again, and no session
/// that was not open is open.
pub open spec fn sessions_follow(
    after: TableView<SessionView>,
    before: TableView<SessionView>,
) -> bool {
    &&& after.follows(before)
    &&& forall|handle: Handle|
        handle.index < before.issued && open_in(after, handle) ==> open_in(before, handle)
}

/// Opens a session on the database of the given name, once the database has
/// been found and the server has established the session, and hands out its
/// handle. Where either failed there is no session and no handle.
pub fn session_new(
    table: &mut HandleTable<Session>,
    database_name: String,
    session_type: SessionType,
    resolution: Result<(), ResolutionFailure>,
) -> (handle: Option<Handle>)
    ensures
        resolution is Err ==> handle is None && final(table)@ == old(table)@,
        resolution is Ok ==> handle == Some(Handle { index: old(table)@.issued as usize })
            && final(table)@ == old(table)@.with_new(fresh(database_name@, session_type)),
        sessions_follow(final(table)@, old(table)@),
{
    match resolution {
        Err(_) => None,
        Ok(_) => Some(table.acquire(Session::new(database_name, session_type))),
    }
}

/// Releases a session: closes it if it is open, discards its reopen
/// callbacks, and hands out what is due. The handle names nothing from then
/// on.
pub fn session_close(table: &mut HandleTable<Session>, handle: Handle) -> (notifications: Vec<
    Notification,
>)
    requires
        old(table).live(handle),
    ensures
        notifications@ == release_notifications(old(table)@.resources[handle]),
        final(table)@ == old(table)@.without(handle),
        final(table)@.released(handle),
        !open_in(final(table)@, handle),
        sessions_follow(final(table)@, old(table)@),
{
    table.release(handle).release()
}

/// The name of the database that a session works on, as a text of the
/// caller's own.
pub fn session_get_database_name(table: &HandleTable<Session>, handle: Handle) -> (name: String)
    requires
        table.live(handle),
    ensures
        name@ == table@.resources[handle].database_name,
{
    table.borrow(handle).database_name().clone()
}

/// Whether the handle names an open session. A handle whose session has
/// been released names none.
pub fn session_is_open(table: &HandleTable<Session>, handle: Handle) -> (open: bool)
    ensures
        open == open_in(table@, handle),
{
    table.is_live(handle) && table.borrow(handle).is_open()
}

/// Closes a session at its owner's demand, after the teardown on the server
/// has completed or failed, and hands out what is due together with the
/// failure, if there was one. The session is closed either way.
pub fn session_force_close(
    table: &mut HandleTable<Session>,
    handle: Handle,
    teardown: Result<(), TeardownFailure>,
) -> (outcome: (Vec<Notification>, Result<(), TeardownFailure>))
    requires
        old(table).live(handle),
    ensures
        outcome.0@ == closing_notifications(old(table)@.resources[handle]),
        outcome.1 == teardown,
        final(table)@ == old(table)@.with(handle, after_close(old(table)@.resources[handle])),
        !open_in(final(table)@, handle),
        sessions_follow(final(table)@, old(table)@),
{
    let session = table.borrow_mut(handle);
    let outcome = session.force_close(teardown);
    proof {
        table.lemma_changed(*old(table), handle, *session);
    }
    outcome
}

/// Closes a session because the server has closed it, and hands out what is
/// due.
pub fn session_server_closed(table: &mut HandleTable<Session>, handle: Handle) -> (notifications:
    Vec<Notification>)
    requires
        old(table).live(handle),
    ensures
        notifications@ == closing_notifications(old(table)@.resources[handle]),
        final(table)@ == old(table)@.with(handle, after_close(old(table)@.resources[handle])),
        !open_in(final(table)@, handle),
        sessions_follow(final(table)@, old(table)@),
{
    let session = table.borrow_mut(handle);
    let notifications = session.server_closed();
    proof {
        table.lemma_changed(*old(table), handle, *session);
    }
    notifications
}

/// Takes note that a session's connection was lost and that the attempt to
/// open it again succeeded or failed, and hands out what is due.
pub fn session_reopened(table: &HandleTable<Session>, handle: Handle, recovered: bool) -> (notifications:
    Vec<Notification>)
    requires
        table.live(handle),
    ensures
        notifications@ == reopening_notifications(table@.resources[handle], recovered),
{
    table.borrow(handle).reopened(recovered)
}

/// Registers a callback to invoke, with `callback_id`, when the session
/// closes.
pub fn session_on_close(
    table: &mut HandleTable<Session>,
    handle: Handle,
    callback_id: usize,
    callback: usize,
)
    requires
        old(table).live(handle),
    ensures
        final(table)@ == old(table)@.with(
            handle,
            after_on_close(
                old(table)@.resources[handle],
                CloseCallback { identity: callback_id, callback },
            ),
        ),
        sessions_follow(final(table)@, old(table)@),
{
    let session = table.borrow_mut(handle);
    session.on_close(CloseCallback { identity: callback_id, callback });
    proof {
        table.lemma_changed(*old(table), handle, *session);
    }
}

/// Registers a callback to invoke, with `callback_id`, whenever the session
/// has reopened, and the destructor to invoke once the registration is
/// discarded. Hands out the destructor of the registration that this one
/// replaces.
pub fn session_on_reopen(
    table: &mut HandleTable<Session>,
    handle: Handle,
    callback_id: usize,
    callback: usize,
    destroy: usize,
) -> (notifications: Vec<Notification>)
    requires
        old(table).live(handle),
    ensures
        notifications@ == on_reopen_notifications(
            old(table)@.resources[handle],
            ForeignOnReopenCallback { identity: callback_id, callback, destroy },
        ),
        final(table)@ == old(table)@.with(
            handle,
            after_on_reopen(
                old(table)@.resources[handle],
                ForeignOnReopenCallback { identity: callback_id, callback, destroy },
            ),
        ),
        sessions_follow(final(table)@, old(table)@),
{
    let session = table.borrow_mut(handle);
    let notifications = session.on_reopen(
        ForeignOnReopenCallback::new(callback_id, callback, destroy),
    );
    proof {
        table.lemma_changed(*old(table), handle, *session);
    }
    notifications
}

/// What is due when every session that was issued one of the first `count`
/// handles and is still held is released, in the order of issue.
pub open spec fn release_all_notifications(table: TableView<SessionView>, count: nat) -> Seq<
    Notification,
>
    decreases count,
{
    if count == 0 {
        Seq::empty()
    } else {
        let handle = Handle { index: (count - 1) as usize };
        release_all_notifications(table, (count - 1) as nat) + if table.live(handle) {
            release_notifications(table.resources[handle])
        } else {
            Seq::empty()
        }
    }
}

/// Releases every session that the table still holds, in the order of
/// issue, and hands out what is due: for the caller that goes away without
/// having released its sessions one by one.
pub fn session_release_all(table: &mut HandleTable<Session>) -> (notifications: Vec<Notification>)
    ensures
        notifications@ == release_all_notifications(old(table)@, old(table)@.issued),
        final(table)@.issued == old(table)@.issued,
        forall|handle: Handle| !final(table)@.live(handle),
        sessions_follow(final(table)@, old(table)@),
{
    let mut notifications: Vec<Notification> = Vec::new();
    let issued = table.issued();
    let mut at: usize = 0;
    while at < issued
        invariant
            at <= issued,
            issued == old(table)@.issued,
            table@.issued == issued,
            notifications@ == release_all_notifications(old(table)@, at as nat),
            forall|handle: Handle| handle.index < at ==> !(#[trigger] table@.live(handle)),
            forall|handle: Handle|
                handle.index >= at ==> #[trigger] table@.live(handle) == old(table)@.live(handle),
            forall|handle: Handle|
                handle.index >= at && #[trigger] table@.live(handle) ==> table@.resources[handle]
                    == old(table)@.resources[handle],
            sessions_follow(table@, old(table)@),
        decreases issued - at,
    {
        let handle = Handle { index: at };
        let ghost before = table@;
        if table.is_live(handle) {
            let mut due = session_close(table, handle);
            notifications.append(&mut due);
            proof {
                lemma_sessions_follow_carries_over(old(table)@, before, table@);
            }
        }
        proof {
            assert forall|other: Handle| other.index < at + 1 implies !(#[trigger] table@.live(
                other,
            )) by {
                if other.index == at {
                    assert(other == handle);
                } else {
                    assert(!before.live(other));
                }
            }
            assert forall|other: Handle| other.index >= at + 1 implies (#[trigger] table@.live(
                other,
            ) == old(table)@.live(other)) && (table@.live(other) ==> table@.resources[other]
                == old(table)@.resources[other]) by {
                assert(other != handle);
                assert(before.live(other) == old(table)@.live(other));
            }
        }
        at = at + 1;
    }
    notifications
}

/// Whatever is done to a table of sessions, and however often, a handle that
/// was released stays released and a session that was closed stays closed:
/// each operation leaves a table that follows the one it found, and
/// following carries over any number of operations.
pub proof fn lemma_sessions_follow_carries_over(
    first: TableView<SessionView>,
    second: TableView<SessionView>,
    third: TableView<SessionView>,
)
    requires
        sessions_follow(second, first),
        sessions_follow(third, second),
    ensures
        sessions_follow(third, first),
        sessions_follow(first, first),
{
    assert forall|handle: Handle| handle.index < first.issued && open_in(third, handle) implies open_in(
        first,
        handle,
    ) by {
        assert(open_in(second, handle));
    }
}

} // verus!
