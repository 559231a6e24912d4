//! The life of a session: open until it is closed, by its owner or by the
//! server, and never open again after that. The session decides which
//! callbacks are due at each step and hands them out as notifications; its
//! owner invokes them.

pub mod laws;

use vstd::prelude::*;

verus! {

/// What a session is for: reading and writing data, or changing the schema.
#[derive(Clone, Copy, Debug, PartialEq, Eq, Structural)]
pub enum SessionType {
    Data,
    Schema,
}

/// A callback to invoke when the session closes: the function's token and
/// the identity to invoke it with.
#[derive(Clone, Copy, Debug, PartialEq, Eq, Structural)]
pub struct CloseCallback {
    pub identity: usize,
    pub callback: usize,
}

/// A callback to invoke whenever the session has reopened, together with the
/// function that disposes of the caller's state once the registration is
/// discarded. Both are invoked with the identity.
#[derive(Clone, Copy, Debug, PartialEq, Eq, Structural)]
pub struct ForeignOnReopenCallback {
    pub identity: usize,
    pub callback: usize,
    pub destroy: usize,
}

impl ForeignOnReopenCallback {
    pub fn new(identity: usize, callback: usize, destroy: usize) -> (registration: Self)
        ensures
            registration == (ForeignOnReopenCallback { identity, callback, destroy }),
    {
        Self { identity, callback, destroy }
    }
}

/// Something that the owner of a session has to do on its behalf.
#[derive(Clone, Copy, Debug, PartialEq, Eq, Structural)]
pub enum Notification {
    /// Invoke the close callback.
    Closed(CloseCallback),
    /// Invoke the reopen callback.
    Reopened(ForeignOnReopenCallback),
    /// Invoke the destructor of the reopen callback, which is registered no
    /// longer.
    Destroyed(ForeignOnReopenCallback),
}

/// The teardown of a session on the server did not complete.
#[derive(Clone, Copy, Debug, PartialEq, Eq, Structural)]
pub struct TeardownFailure;

/// What a `Session` stands for.
pub struct SessionView {
    pub database_name: Seq<char>,
    pub session_type: SessionType,
    pub open: bool,
    /// The close callbacks that have not fired, in the order of registration.
    pub on_close: Seq<CloseCallback>,
    /// The reopen callbacks, in the order of first registration.
    pub on_reopen: Seq<ForeignOnReopenCallback>,
}

/// A session just opened: no callback is registered yet.
pub open spec fn fresh(database_name: Seq<char>, session_type: SessionType) -> SessionView {
    SessionView {
        database_name,
        session_type,
        open: true,
        on_close: Seq::empty(),
        on_reopen: Seq::empty(),
    }
}

/// One notification that it has closed for each close callback.
pub open spec fn close_notifications(callbacks: Seq<CloseCallback>) -> Seq<Notification> {
    Seq::new(callbacks.len(), |i: int| Notification::Closed(callbacks[i]))
}

/// One notification that it has reopened for each reopen callback.
pub open spec fn reopen_notifications(registrations: Seq<ForeignOnReopenCallback>) -> Seq<
    Notification,
> {
    Seq::new(registrations.len(), |i: int| Notification::Reopened(registrations[i]))
}

/// One notification that it is discarded for each reopen callback.
pub open spec fn destroy_notifications(registrations: Seq<ForeignOnReopenCallback>) -> Seq<
    Notification,
> {
    Seq::new(registrations.len(), |i: int| Notification::Destroyed(registrations[i]))
}

/// The place, at or after `from`, of the first registration with the given
/// identity.
pub open spec fn registered_at(
    registrations: Seq<ForeignOnReopenCallback>,
    identity: usize,
    from: int,
) -> Option<int>
    decreases registrations.len() - from,
{
    if from < 0 || from >= registrations.len() {
        None
    } else if registrations[from].identity == identity {
        Some(from)
    } else {
        registered_at(registrations, identity, from + 1)
    }
}

/// What can happen to a session while its owner holds it.
pub enum SessionOp {
    /// The owner registers a close callback.
    OnClose(CloseCallback),
    /// The owner registers a reopen callback.
    OnReopen(ForeignOnReopenCallback),
    /// The owner forces the session closed; the teardown on the server
    /// completed or failed.
    ForceClose { teardown_failed: bool },
    /// The server closed the session.
    ServerClosed,
    /// The connection was lost, and the attempt to open the session again
    /// succeeded or failed.
    Reopen { recovered: bool },
}

/// The session after a close callback is registered. A closed session takes
/// none: its close is over.
pub open spec fn after_on_close(session: SessionView, callback: CloseCallback) -> SessionView {
    if session.open {
        SessionView { on_close: session.on_close.push(callback), ..session }
    } else {
        session
    }
}

/// The session after a reopen callback is registered: it takes the place of
/// the registration with the same identity, or comes last where there is
/// none.
pub open spec fn after_on_reopen(
    session: SessionView,
    registration: ForeignOnReopenCallback,
) -> SessionView {
    match registered_at(session.on_reopen, registration.identity, 0) {
        Some(place) => SessionView {
            on_reopen: session.on_reopen.update(place, registration),
            ..session
        },
        None => SessionView { on_reopen: session.on_reopen.push(registration), ..session },
    }
}

/// What is due when a reopen callback is registered: the destructor of the
/// registration that it replaces.
pub open spec fn on_reopen_notifications(
    session: SessionView,
    registration: ForeignOnReopenCallback,
) -> Seq<Notification> {
    match registered_at(session.on_reopen, registration.identity, 0) {
        Some(place) => seq![Notification::Destroyed(session.on_reopen[place])],
        None => Seq::empty(),
    }
}

/// The session after a close: closed, with no close callback left to fire.
pub open spec fn after_close(session: SessionView) -> SessionView {
    SessionView { open: false, on_close: Seq::empty(), ..session }
}

/// What is due when a session closes: every close callback if it was open,
/// nothing if it was closed already.
pub open spec fn closing_notifications(session: SessionView) -> Seq<Notification> {
    if session.open {
        close_notifications(session.on_close)
    } else {
        Seq::empty()
    }
}

/// What is due after an attempt to reopen: every reopen callback if the
/// session is open and the attempt succeeded, nothing otherwise.
pub open spec fn reopening_notifications(session: SessionView, recovered: bool) -> Seq<
    Notification,
> {
    if session.open && recovered {
        reopen_notifications(session.on_reopen)
    } else {
        Seq::empty()
    }
}

/// What is due when the owner releases the session: every close callback if
/// it is still open, then the destructor of every reopen callback.
pub open spec fn release_notifications(session: SessionView) -> Seq<Notification> {
    closing_notifications(session) + destroy_notifications(session.on_reopen)
}

/// The session after one step.
pub open spec fn step(session: SessionView, op: SessionOp) -> SessionView {
    match op {
        SessionOp::OnClose(callback) => after_on_close(session, callback),
        SessionOp::OnReopen(registration) => after_on_reopen(session, registration),
        SessionOp::ForceClose { teardown_failed } => after_close(session),
        SessionOp::ServerClosed => after_close(session),
        SessionOp::Reopen { recovered } => session,
    }
}

/// What is due at one step.
pub open spec fn step_notifications(session: SessionView, op: SessionOp) -> Seq<Notification> {
    match op {
        SessionOp::OnClose(callback) => Seq::empty(),
        SessionOp::OnReopen(registration) => on_reopen_notifications(session, registration),
        SessionOp::ForceClose { teardown_failed } => closing_notifications(session),
        SessionOp::ServerClosed => closing_notifications(session),
        SessionOp::Reopen { recovered } => reopening_notifications(session, recovered),
    }
}

/// A session: the database it works on, its type, whether it is open, and
/// the callbacks registered with it.
#[derive(Debug, PartialEq, Eq)]
pub struct Session {
    database_name: String,
    session_type: SessionType,
    open: bool,
    on_close: Vec<CloseCallback>,
    on_reopen: Vec<ForeignOnReopenCallback>,
}

impl View for Session {
    type V = SessionView;

    closed spec fn view(&self) -> SessionView {
        SessionView {
            database_name: self.database_name@,
            session_type: self.session_type,
            open: self.open,
            on_close: self.on_close@,
            on_reopen: self.on_reopen@,
        }
    }
}

fn closed_of(callbacks: &Vec<CloseCallback>) -> (notifications: Vec<Notification>)
    ensures
        notifications@ == close_notifications(callbacks@),
{
    let mut notifications: Vec<Notification> = Vec::new();
    let mut at: usize = 0;
    while at < callbacks.len()
        invariant
            at <= callbacks.len(),
            notifications@ == close_notifications(callbacks@.take(at as int)),
        decreases callbacks.len() - at,
    {
        notifications.push(Notification::Closed(callbacks[at]));
        at = at + 1;
        assert(notifications@ =~= close_notifications(callbacks@.take(at as int)));
    }
    assert(callbacks@.take(at as int) =~= callbacks@);
    notifications
}

fn reopened_of(registrations: &Vec<ForeignOnReopenCallback>) -> (notifications: Vec<Notification>)
    ensures
        notifications@ == reopen_notifications(registrations@),
{
    let mut notifications: Vec<Notification> = Vec::new();
    let mut at: usize = 0;
    while at < registrations.len()
        invariant
            at <= registrations.len(),
            notifications@ == reopen_notifications(registrations@.take(at as int)),
        decreases registrations.len() - at,
    {
        notifications.push(Notification::Reopened(registrations[at]));
        at = at + 1;
        assert(notifications@ =~= reopen_notifications(registrations@.take(at as int)));
    }
    assert(registrations@.take(at as int) =~= registrations@);
    notifications
}

fn append_destroyed(
    notifications: &mut Vec<Notification>,
    registrations: &Vec<ForeignOnReopenCallback>,
)
    ensures
        final(notifications)@ == old(notifications)@ + destroy_notifications(registrations@),
{
    let mut at: usize = 0;
    while at < registrations.len()
        invariant
            at <= registrations.len(),
            notifications@ == old(notifications)@ + destroy_notifications(
                registrations@.take(at as int),
            ),
        decreases registrations.len() - at,
    {
        notifications.push(Notification::Destroyed(registrations[at]));
        at = at + 1;
        assert(notifications@ =~= old(notifications)@ + destroy_notifications(
            registrations@.take(at as int),
        ));
    }
    assert(registrations@.take(at as int) =~= registrations@);
}

impl Session {
    /// A session just opened on the database of the given name.
    pub fn new(database_name: String, session_type: SessionType) -> (session: Session)
        ensures
            session@ == fresh(database_name@, session_type),
    {
        Session {
            database_name,
            session_type,
            open: true,
            on_close: Vec::new(),
            on_reopen: Vec::new(),
        }
    }

    /// Whether the session is open.
    pub fn is_open(&self) -> (open: bool)
        ensures
            open == self@.open,
    {
        self.open
    }

    /// The name of the database that the session works on.
    pub fn database_name(&self) -> (name: &String)
        ensures
            name@ == self@.database_name,
    {
        &self.database_name
    }

    /// The type of the session.
    pub fn session_type(&self) -> (session_type: SessionType)
        ensures
            session_type == self@.session_type,
    {
        self.session_type
    }

    /// Registers a callback to invoke when the session closes.
    pub fn on_close(&mut self, callback: CloseCallback)
        ensures
            final(self)@ == after_on_close(old(self)@, callback),
            final(self)@ == step(old(self)@, SessionOp::OnClose(callback)),
    {
        if self.open {
            self.on_close.push(callback);
        }
    }

    /// Registers a callback to invoke whenever the session has reopened, and
    /// hands out the destructor of the registration that it replaces.
    pub fn on_reopen(&mut self, registration: ForeignOnReopenCallback) -> (notifications: Vec<
        Notification,
    >)
        ensures
            final(self)@ == after_on_reopen(old(self)@, registration),
            notifications@ == on_reopen_notifications(old(self)@, registration),
            final(self)@ == step(old(self)@, SessionOp::OnReopen(registration)),
            notifications@ == step_notifications(old(self)@, SessionOp::OnReopen(registration)),
    {
        let mut notifications: Vec<Notification> = Vec::new();
        let mut at: usize = 0;
        while at < self.on_reopen.len()
            invariant
                at <= self.on_reopen.len(),
                *self == *old(self),
                notifications@ == Seq::<Notification>::empty(),
                registered_at(self.on_reopen@, registration.identity, 0) == registered_at(
                    self.on_reopen@,
                    registration.identity,
                    at as int,
                ),
            decreases self.on_reopen.len() - at,
        {
            if self.on_reopen[at].identity == registration.identity {
                notifications.push(Notification::Destroyed(self.on_reopen[at]));
                self.on_reopen.set(at, registration);
                assert(notifications@ =~= on_reopen_notifications(old(self)@, registration));
                return notifications;
            }
            at = at + 1;
        }
        self.on_reopen.push(registration);
        notifications
    }

    /// Closes the session at its owner's demand, after the teardown on the
    /// server has completed or failed. The session is closed either way, and
    /// the failure is handed back; a session that was closed already is left
    /// as it is.
    pub fn force_close(&mut self, teardown: Result<(), TeardownFailure>) -> (outcome: (
        Vec<Notification>,
        Result<(), TeardownFailure>,
    ))
        ensures
            final(self)@ == after_close(old(self)@),
            outcome.0@ == closing_notifications(old(self)@),
            outcome.1 == teardown,
            !final(self)@.open,
            final(self)@ == step(
                old(self)@,
                SessionOp::ForceClose { teardown_failed: teardown is Err },
            ),
            outcome.0@ == step_notifications(
                old(self)@,
                SessionOp::ForceClose { teardown_failed: teardown is Err },
            ),
    {
        (self.close(), teardown)
    }

    /// Closes the session because the server has closed it.
    pub fn server_closed(&mut self) -> (notifications: Vec<Notification>)
        ensures
            final(self)@ == after_close(old(self)@),
            notifications@ == closing_notifications(old(self)@),
            !final(self)@.open,
            final(self)@ == step(old(self)@, SessionOp::ServerClosed),
            notifications@ == step_notifications(old(self)@, SessionOp::ServerClosed),
    {
        self.close()
    }

    /// Takes note that the connection was lost and that the attempt to open
    /// the session again succeeded or failed. The session stays as it is.
    pub fn reopened(&self, recovered: bool) -> (notifications: Vec<Notification>)
        ensures
            notifications@ == reopening_notifications(self@, recovered),
            self@ == step(self@, SessionOp::Reopen { recovered }),
            notifications@ == step_notifications(self@, SessionOp::Reopen { recovered }),
    {
        if self.open && recovered {
            reopened_of(&self.on_reopen)
        } else {
            Vec::new()
        }
    }

    /// Gives the session up: closes it if it is open, and discards every
    /// reopen callback.
    pub fn release(self) -> (notifications: Vec<Notification>)
        ensures
            notifications@ == release_notifications(self@),
    {
        let mut notifications = if self.open {
            closed_of(&self.on_close)
        } else {
            Vec::new()
        };
        append_destroyed(&mut notifications, &self.on_reopen);
        notifications
    }

    fn close(&mut self) -> (notifications: Vec<Notification>)
        ensures
            final(self)@ == after_close(old(self)@),
            notifications@ == closing_notifications(old(self)@),
    {
        let notifications = if self.open {
            closed_of(&self.on_close)
        } else {
            Vec::new()
        };
        self.open = false;
        self.on_close.clear();
        notifications
    }
}

} // verus!
