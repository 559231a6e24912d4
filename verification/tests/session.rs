use typedb_driver_core::bridge::session::session_close;
use typedb_driver_core::bridge::session::session_force_close;
use typedb_driver_core::bridge::session::session_get_database_name;
use typedb_driver_core::bridge::session::session_is_open;
use typedb_driver_core::bridge::session::session_new;
use typedb_driver_core::bridge::session::session_on_close;
use typedb_driver_core::bridge::session::session_on_reopen;
use typedb_driver_core::bridge::session::session_release_all;
use typedb_driver_core::bridge::session::session_reopened;
use typedb_driver_core::bridge::session::session_server_closed;
use typedb_driver_core::bridge::Handle;
use typedb_driver_core::bridge::session::ResolutionFailure;
use typedb_driver_core::bridge::HandleTable;
use typedb_driver_core::session::CloseCallback;
use typedb_driver_core::session::ForeignOnReopenCallback;
use typedb_driver_core::session::Notification;
use typedb_driver_core::session::Session;
use typedb_driver_core::session::SessionType;
use typedb_driver_core::session::TeardownFailure;

fn count(all: &[Notification], one: Notification) -> usize {
    all.iter().filter(|n| **n == one).count()
}

#[test]
fn new_session_is_open() {
    let session = Session::new(String::from("db"), SessionType::Schema);
    assert!(session.is_open());
    assert_eq!(session.database_name(), "db");
    assert_eq!(session.session_type(), SessionType::Schema);
    assert_eq!(session.reopened(true), Vec::new());
    assert_eq!(session.release(), Vec::new());
}

#[test]
fn close_callbacks_fire_once_over_all_closes() {
    let mut session = Session::new(String::from("db"), SessionType::Data);
    let first = CloseCallback { identity: 1, callback: 100 };
    let second = CloseCallback { identity: 2, callback: 200 };
    session.on_close(first);
    session.on_close(second);
    let mut seen = Vec::new();
    let (notifications, outcome) = session.force_close(Ok(()));
    assert_eq!(outcome, Ok(()));
    assert_eq!(notifications, vec![Notification::Closed(first), Notification::Closed(second)]);
    seen.extend(notifications);
    assert!(!session.is_open());
    let (notifications, _) = session.force_close(Ok(()));
    seen.extend(notifications);
    seen.extend(session.server_closed());
    seen.extend(session.release());
    assert_eq!(count(&seen, Notification::Closed(first)), 1);
    assert_eq!(count(&seen, Notification::Closed(second)), 1);
}

#[test]
fn release_of_an_open_session_fires_the_close_callbacks() {
    let mut session = Session::new(String::from("db"), SessionType::Data);
    let callback = CloseCallback { identity: 5, callback: 50 };
    session.on_close(callback);
    assert_eq!(session.release(), vec![Notification::Closed(callback)]);
}

#[test]
fn twice_registered_close_callback_fires_twice() {
    let mut session = Session::new(String::from("db"), SessionType::Data);
    let callback = CloseCallback { identity: 5, callback: 50 };
    session.on_close(callback);
    session.on_close(callback);
    assert_eq!(
        session.server_closed(),
        vec![Notification::Closed(callback), Notification::Closed(callback)]
    );
    assert_eq!(session.release(), Vec::new());
}

#[test]
fn failed_teardown_is_handed_back_and_the_session_is_closed() {
    let mut session = Session::new(String::from("db"), SessionType::Data);
    let callback = CloseCallback { identity: 5, callback: 50 };
    session.on_close(callback);
    let (notifications, outcome) = session.force_close(Err(TeardownFailure));
    assert_eq!(outcome, Err(TeardownFailure));
    assert_eq!(notifications, vec![Notification::Closed(callback)]);
    assert!(!session.is_open());
    assert_eq!(session.release(), Vec::new());
}

#[test]
fn closed_session_takes_no_close_callback() {
    let mut session = Session::new(String::from("db"), SessionType::Data);
    assert_eq!(session.server_closed(), Vec::new());
    session.on_close(CloseCallback { identity: 1, callback: 1 });
    assert_eq!(session.server_closed(), Vec::new());
    assert_eq!(session.release(), Vec::new());
}

#[test]
fn reopen_notifies_every_registration_and_leaves_the_session_open() {
    let mut session = Session::new(String::from("db"), SessionType::Data);
    let first = ForeignOnReopenCallback::new(1, 10, 11);
    let second = ForeignOnReopenCallback::new(2, 20, 21);
    assert_eq!(session.on_reopen(first), Vec::new());
    assert_eq!(session.on_reopen(second), Vec::new());
    assert_eq!(
        session.reopened(true),
        vec![Notification::Reopened(first), Notification::Reopened(second)]
    );
    assert!(session.is_open());
    assert_eq!(session.reopened(false), Vec::new());
    assert!(session.is_open());
}

#[test]
fn closed_session_never_reopens() {
    let mut session = Session::new(String::from("db"), SessionType::Data);
    let registration = ForeignOnReopenCallback::new(1, 10, 11);
    session.on_reopen(registration);
    session.server_closed();
    assert_eq!(session.reopened(true), Vec::new());
    assert!(!session.is_open());
    assert_eq!(session.release(), vec![Notification::Destroyed(registration)]);
}

#[test]
fn replaced_reopen_callback_is_destroyed_once() {
    let mut session = Session::new(String::from("db"), SessionType::Data);
    let old = ForeignOnReopenCallback::new(7, 10, 11);
    let new = ForeignOnReopenCallback::new(7, 30, 31);
    let other = ForeignOnReopenCallback::new(8, 40, 41);
    let mut seen = Vec::new();
    seen.extend(session.on_reopen(old));
    seen.extend(session.on_reopen(other));
    seen.extend(session.reopened(true));
    let replaced = session.on_reopen(new);
    assert_eq!(replaced, vec![Notification::Destroyed(old)]);
    seen.extend(replaced);
    assert_eq!(session.reopened(true), vec![Notification::Reopened(new), Notification::Reopened(other)]);
    seen.extend(session.release());
    assert_eq!(count(&seen, Notification::Destroyed(old)), 1);
    assert_eq!(count(&seen, Notification::Destroyed(new)), 1);
    assert_eq!(count(&seen, Notification::Destroyed(other)), 1);
}

#[test]
fn release_destroys_a_callback_that_never_fired() {
    let mut session = Session::new(String::from("db"), SessionType::Data);
    let registration = ForeignOnReopenCallback::new(1, 10, 11);
    session.on_reopen(registration);
    assert_eq!(session.release(), vec![Notification::Destroyed(registration)]);
}

#[test]
fn release_closes_first_and_destroys_after() {
    let mut session = Session::new(String::from("db"), SessionType::Data);
    let close = CloseCallback { identity: 1, callback: 2 };
    let reopen = ForeignOnReopenCallback::new(3, 4, 5);
    session.on_reopen(reopen);
    session.on_close(close);
    assert_eq!(session.release(), vec![Notification::Closed(close), Notification::Destroyed(reopen)]);
}

#[test]
fn handle_names_the_session_until_release() {
    let mut table: HandleTable<Session> = HandleTable::new();
    let handle = session_new(&mut table, String::from("db"), SessionType::Data, Ok(())).unwrap();
    assert!(table.is_live(handle));
    assert!(session_is_open(&table, handle));
    assert_eq!(session_get_database_name(&table, handle), "db");
    assert_eq!(table.borrow(handle).session_type(), SessionType::Data);
    assert_eq!(session_close(&mut table, handle), Vec::new());
    assert!(!table.is_live(handle));
    assert!(!session_is_open(&table, handle));
}

#[test]
fn failed_resolution_gives_no_handle() {
    let mut table: HandleTable<Session> = HandleTable::new();
    assert_eq!(
        session_new(&mut table, String::from("db"), SessionType::Data, Err(ResolutionFailure::UnknownDatabase)),
        None
    );
    assert_eq!(
        session_new(&mut table, String::from("db"), SessionType::Data, Err(ResolutionFailure::NotEstablished)),
        None
    );
    assert!(!table.is_live(Handle { index: 0 }));
    let handle = session_new(&mut table, String::from("db"), SessionType::Data, Ok(())).unwrap();
    assert_eq!(handle, Handle { index: 0 });
}

#[test]
fn released_handle_is_never_issued_again() {
    let mut table: HandleTable<Session> = HandleTable::new();
    let first = session_new(&mut table, String::from("a"), SessionType::Data, Ok(())).unwrap();
    session_close(&mut table, first);
    let second = session_new(&mut table, String::from("b"), SessionType::Schema, Ok(())).unwrap();
    assert_ne!(first, second);
    assert!(!table.is_live(first));
    assert!(!session_is_open(&table, first));
    assert!(session_is_open(&table, second));
    assert_eq!(session_get_database_name(&table, second), "b");
}

#[test]
fn is_open_is_false_after_every_close_and_stays_false() {
    let mut table: HandleTable<Session> = HandleTable::new();
    let forced = session_new(&mut table, String::from("a"), SessionType::Data, Ok(())).unwrap();
    let failed = session_new(&mut table, String::from("b"), SessionType::Data, Ok(())).unwrap();
    let server = session_new(&mut table, String::from("c"), SessionType::Data, Ok(())).unwrap();
    let kept = session_new(&mut table, String::from("d"), SessionType::Data, Ok(())).unwrap();
    assert_eq!(session_force_close(&mut table, forced, Ok(())), (Vec::new(), Ok(())));
    assert_eq!(session_force_close(&mut table, failed, Err(TeardownFailure)), (Vec::new(), Err(TeardownFailure)));
    assert_eq!(session_server_closed(&mut table, server), Vec::new());
    for handle in [forced, failed, server] {
        assert!(!session_is_open(&table, handle));
        assert_eq!(session_reopened(&table, handle, true), Vec::new());
        session_on_close(&mut table, handle, 1, 1);
        session_on_reopen(&mut table, handle, 1, 1, 1);
        assert!(!session_is_open(&table, handle));
    }
    assert!(session_is_open(&table, kept));
    assert_eq!(session_reopened(&table, kept, true), Vec::new());
    assert!(session_is_open(&table, kept));
}

#[test]
fn callbacks_registered_through_the_handle_fire_through_the_handle() {
    let mut table: HandleTable<Session> = HandleTable::new();
    let handle = session_new(&mut table, String::from("db"), SessionType::Data, Ok(())).unwrap();
    session_on_close(&mut table, handle, 9, 90);
    assert_eq!(session_on_reopen(&mut table, handle, 3, 30, 31), Vec::new());
    let reopen = ForeignOnReopenCallback::new(3, 30, 31);
    let replacement = ForeignOnReopenCallback::new(3, 32, 33);
    assert_eq!(session_reopened(&table, handle, true), vec![Notification::Reopened(reopen)]);
    assert_eq!(session_reopened(&table, handle, false), Vec::new());
    assert_eq!(
        session_on_reopen(&mut table, handle, 3, 32, 33),
        vec![Notification::Destroyed(reopen)]
    );
    let close = CloseCallback { identity: 9, callback: 90 };
    assert_eq!(
        session_close(&mut table, handle),
        vec![Notification::Closed(close), Notification::Destroyed(replacement)]
    );
}

#[test]
fn sessions_of_one_table_do_not_touch_each_other() {
    let mut table: HandleTable<Session> = HandleTable::new();
    let one = session_new(&mut table, String::from("one"), SessionType::Data, Ok(())).unwrap();
    let two = session_new(&mut table, String::from("two"), SessionType::Data, Ok(())).unwrap();
    session_on_close(&mut table, one, 1, 10);
    session_on_close(&mut table, two, 2, 20);
    assert_eq!(
        session_force_close(&mut table, one, Ok(())).0,
        vec![Notification::Closed(CloseCallback { identity: 1, callback: 10 })]
    );
    assert!(session_is_open(&table, two));
    assert_eq!(
        session_close(&mut table, two),
        vec![Notification::Closed(CloseCallback { identity: 2, callback: 20 })]
    );
    assert!(table.is_live(one));
}

#[test]
fn table_lends_and_releases_what_it_holds() {
    let mut table: HandleTable<Session> = HandleTable::new();
    assert!(!table.is_live(Handle { index: 0 }));
    let first = table.acquire(Session::new(String::from("a"), SessionType::Data));
    let second = table.acquire(Session::new(String::from("b"), SessionType::Schema));
    assert_eq!(first, Handle { index: 0 });
    assert_eq!(second, Handle { index: 1 });
    assert_eq!(table.borrow(second).database_name(), "b");
    table.borrow_mut(first).server_closed();
    assert!(!table.borrow(first).is_open());
    assert!(table.borrow(second).is_open());
    let released = table.release(first);
    assert_eq!(released.database_name(), "a");
    assert!(!released.is_open());
    assert!(!table.is_live(first));
    assert!(table.is_live(second));
    assert!(!table.is_live(Handle { index: 2 }));
    let third = table.acquire(Session::new(String::from("c"), SessionType::Data));
    assert_eq!(third, Handle { index: 2 });
}

#[test]
fn releasing_all_leaves_nothing_owed() {
    let mut table: HandleTable<Session> = HandleTable::new();
    let one = session_new(&mut table, String::from("one"), SessionType::Data, Ok(())).unwrap();
    let two = session_new(&mut table, String::from("two"), SessionType::Data, Ok(())).unwrap();
    let three = session_new(&mut table, String::from("three"), SessionType::Data, Ok(())).unwrap();
    session_on_close(&mut table, one, 1, 10);
    session_on_reopen(&mut table, one, 1, 11, 12);
    session_on_close(&mut table, two, 2, 20);
    session_on_reopen(&mut table, three, 3, 31, 32);
    session_server_closed(&mut table, three);
    assert_eq!(
        session_close(&mut table, two),
        vec![Notification::Closed(CloseCallback { identity: 2, callback: 20 })]
    );
    assert_eq!(table.issued(), 3);
    assert_eq!(
        session_release_all(&mut table),
        vec![
            Notification::Closed(CloseCallback { identity: 1, callback: 10 }),
            Notification::Destroyed(ForeignOnReopenCallback::new(1, 11, 12)),
            Notification::Destroyed(ForeignOnReopenCallback::new(3, 31, 32)),
        ]
    );
    for handle in [one, two, three] {
        assert!(!table.is_live(handle));
    }
    assert_eq!(table.issued(), 3);
    assert_eq!(session_release_all(&mut table), Vec::new());
}
