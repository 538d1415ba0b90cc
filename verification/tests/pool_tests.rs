use ssh_assistant::pool::Acquire;
use ssh_assistant::pool::Probe;
use ssh_assistant::pool::SessionSshPool;
use ssh_assistant::session::ManagedSession;

#[test]
fn capacity_two_serves_one_two_then_one_again() {
    let mut pool = SessionSshPool::new(ManagedSession::direct(0), 2);
    assert_eq!(pool.get_main_session().session, 0);

    let first = pool.get_background_session(&vec![]);
    assert_eq!(first, Acquire::Grow { pause_millis: 0 });
    assert!(pool.can_admit());
    let one = pool.admit_background(ManagedSession::direct(0));
    assert_eq!(one.session, 1);

    let second = pool.get_background_session(&vec![true]);
    assert_eq!(second, Acquire::Grow { pause_millis: 100 });
    let two = pool.admit_background(ManagedSession::direct(0));
    assert_eq!(two.session, 2);

    let third = pool.get_background_session(&vec![true, true]);
    assert_eq!(third, Acquire::Shared { slot: 0, session: one });
    let fourth = pool.get_background_session(&vec![true, true]);
    assert_eq!(fourth, Acquire::Shared { slot: 1, session: two });
    let fifth = pool.get_background_session(&vec![true, true]);
    assert_eq!(fifth, Acquire::Shared { slot: 0, session: one });
    assert!(!pool.can_admit());
}

#[test]
fn idle_session_is_preferred_over_growth() {
    let mut pool = SessionSshPool::new(ManagedSession::direct(0), 3);
    let a = pool.admit_background(ManagedSession::direct(0));
    let b = pool.admit_background(ManagedSession::direct(0));
    assert_eq!(pool.get_background_session(&vec![true, false]), Acquire::Idle { slot: 1, session: b });
    assert_eq!(pool.get_background_session(&vec![false, false]), Acquire::Idle { slot: 0, session: a });
    assert_eq!(pool.get_background_session(&vec![true, true]), Acquire::Grow { pause_millis: 100 });
}

#[test]
fn probe_counts_as_alive_only_when_answered() {
    assert!(SessionSshPool::is_session_alive(Probe::Answered));
    assert!(!SessionSshPool::is_session_alive(Probe::ChannelRefused));
    assert!(!SessionSshPool::is_session_alive(Probe::CommandRefused));
}
