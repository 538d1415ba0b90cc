use ssh_assistant::manager::adapt_shell_msg;
use ssh_assistant::manager::initial_shell;
use ssh_assistant::manager::Dispatch;
use ssh_assistant::manager::ShellPoll;
use ssh_assistant::manager::ShellRead;
use ssh_assistant::manager::ShellState;
use ssh_assistant::manager::SshCommand;
use ssh_assistant::manager::SshManager;
use ssh_assistant::manager::TickEnd;
use ssh_assistant::models::ShellMsg;
use ssh_assistant::session::ManagedSession;
use ssh_assistant::session::TeardownStep;
use ssh_assistant::pool::SessionSshPool;
use ssh_assistant::pool::Acquire;
use ssh_assistant::tunnel::JumpTunnel;
use ssh_assistant::tunnel::Polled;
use ssh_assistant::tunnel::Side;
use ssh_assistant::tunnel::TunnelNext;
use ssh_assistant::tunnel::TunnelPhase;

#[test]
fn shell_follows_its_state_machine() {
    let mut m = SshManager::new(0);
    assert_eq!(m.shell_state(), ShellState::Closed);
    assert!(matches!(m.handle_command(SshCommand::ShellWrite(vec![1])), Dispatch::Ignore));
    assert!(matches!(
        m.handle_command(SshCommand::ShellResize { rows: 1, cols: 2 }),
        Dispatch::Ignore
    ));
    match m.handle_command(initial_shell()) {
        Dispatch::OpenShell { close_previous, cols, rows } => {
            assert!(!close_previous);
            assert_eq!((cols, rows), (80, 24));
        }
        other => panic!("unexpected {:?}", other),
    }
    m.shell_opened(true);
    assert_eq!(m.shell_state(), ShellState::Open);
    match m.handle_command(SshCommand::ShellWrite(vec![1, 2])) {
        Dispatch::WriteShell(data) => assert_eq!(data, vec![1, 2]),
        other => panic!("unexpected {:?}", other),
    }
    match m.handle_command(SshCommand::ShellResize { rows: 40, cols: 120 }) {
        Dispatch::ResizeShell { cols, rows } => assert_eq!((cols, rows), (120, 40)),
        other => panic!("unexpected {:?}", other),
    }
    match m.handle_command(SshCommand::ShellOpen { cols: 10, rows: 5 }) {
        Dispatch::OpenShell { close_previous, .. } => assert!(close_previous),
        other => panic!("unexpected {:?}", other),
    }
    m.shell_opened(false);
    assert_eq!(m.shell_state(), ShellState::Closed);
    m.shell_opened(true);
    match m.handle_command(SshCommand::ShellClose) {
        Dispatch::CloseShell { close_channel } => assert!(close_channel),
        other => panic!("unexpected {:?}", other),
    }
    assert_eq!(m.shell_state(), ShellState::Closed);
    match m.handle_command(SshCommand::ShellClose) {
        Dispatch::CloseShell { close_channel } => assert!(!close_channel),
        other => panic!("unexpected {:?}", other),
    }
}

#[test]
fn polling_the_shell() {
    let mut m = SshManager::new(0);
    assert!(matches!(m.poll_shell(ShellRead::Data(vec![1])), (ShellPoll::Quiet, false)));
    let _ = m.handle_command(initial_shell());
    m.shell_opened(true);
    match m.poll_shell(ShellRead::Data(vec![7, 8])) {
        (ShellPoll::Forward(bytes), true) => assert_eq!(bytes, vec![7, 8]),
        other => panic!("unexpected {:?}", other),
    }
    assert!(matches!(m.poll_shell(ShellRead::WouldBlock), (ShellPoll::Quiet, false)));
    assert!(matches!(m.poll_shell(ShellRead::Eof), (ShellPoll::Exit, false)));
    assert_eq!(m.shell_state(), ShellState::Closed);
    m.shell_opened(true);
    assert!(matches!(m.poll_shell(ShellRead::Failed), (ShellPoll::Exit, false)));
    assert_eq!(m.shell_state(), ShellState::Closed);
}

#[test]
fn other_commands_go_to_workers() {
    let mut m = SshManager::new(0);
    match m.handle_command(SshCommand::Exec { command: "ls".to_string(), cancellable: true }) {
        Dispatch::Worker(SshCommand::Exec { command, cancellable }) => {
            assert_eq!(command, "ls");
            assert!(cancellable);
        }
        other => panic!("unexpected {:?}", other),
    }
    assert!(matches!(
        m.handle_command(SshCommand::SftpDelete { path: "/x".to_string(), is_dir: true }),
        Dispatch::Worker(SshCommand::SftpDelete { .. })
    ));
    assert_eq!(m.shell_state(), ShellState::Closed);
    assert!(!m.is_shutdown());
    assert!(matches!(m.handle_command(SshCommand::Shutdown), Dispatch::Stop));
    assert!(m.is_shutdown());
}

#[test]
fn batch_and_cadence() {
    let mut m = SshManager::new(1000);
    assert!(m.may_take(0));
    assert!(m.may_take(9));
    assert!(!m.may_take(10));
    assert_eq!(
        m.end_tick(1005, true),
        TickEnd { keepalive: false, heartbeat: false, sleep_millis: 0 }
    );
    assert_eq!(
        m.end_tick(11000, false),
        TickEnd { keepalive: false, heartbeat: false, sleep_millis: 10 }
    );
    assert_eq!(
        m.end_tick(11001, false),
        TickEnd { keepalive: true, heartbeat: false, sleep_millis: 10 }
    );
    assert_eq!(
        m.end_tick(21001, false),
        TickEnd { keepalive: false, heartbeat: false, sleep_millis: 10 }
    );
    assert_eq!(
        m.end_tick(61001, true),
        TickEnd { keepalive: true, heartbeat: true, sleep_millis: 0 }
    );
    let _ = m.handle_command(SshCommand::Shutdown);
    assert!(!m.may_take(0));
}

#[test]
fn terminal_messages_become_commands() {
    assert!(matches!(
        adapt_shell_msg(ShellMsg::Data(vec![1])),
        (SshCommand::ShellWrite(_), false)
    ));
    assert!(matches!(
        adapt_shell_msg(ShellMsg::Resize { rows: 3, cols: 4 }),
        (SshCommand::ShellResize { rows: 3, cols: 4 }, false)
    ));
    assert!(matches!(adapt_shell_msg(ShellMsg::Exit), (SshCommand::ShellClose, true)));
}

#[test]
fn teardown_order_of_a_tunnelled_session() {
    let mut s = ManagedSession::tunnelled(7, 3);
    let steps = s.teardown();
    assert_eq!(
        steps,
        vec![
            TeardownStep::SignalShutdown { thread_handle: 3 },
            TeardownStep::JoinThread { thread_handle: 3 },
            TeardownStep::DisconnectBastion { session: 7 },
            TeardownStep::DisconnectSession { session: 7 },
            TeardownStep::UnblockListener { session: 7 },
        ]
    );
    assert_eq!(s.forwarding_handle, None);
    let again = s.teardown();
    assert_eq!(
        again,
        vec![
            TeardownStep::DisconnectBastion { session: 7 },
            TeardownStep::DisconnectSession { session: 7 },
            TeardownStep::UnblockListener { session: 7 },
        ]
    );
    let mut d = ManagedSession::direct(1);
    assert_eq!(d.teardown(), vec![TeardownStep::DisconnectSession { session: 1 }]);
}

#[test]
fn close_all_then_fresh_session() {
    let mut pool = SessionSshPool::new(ManagedSession::tunnelled(0, 50), 2);
    let a = pool.admit_background(ManagedSession::direct(0));
    let b = pool.admit_background(ManagedSession::tunnelled(0, 51));
    let steps = pool.close_all();
    assert_eq!(steps.len(), 5 + 1 + 5);
    assert_eq!(steps[0], TeardownStep::SignalShutdown { thread_handle: 50 });
    assert_eq!(steps[5], TeardownStep::DisconnectSession { session: a.session });
    assert_eq!(steps[6], TeardownStep::SignalShutdown { thread_handle: 51 });
    assert!(pool.background_sessions().is_empty());
    assert_eq!(pool.get_background_session(&vec![]), Acquire::Grow { pause_millis: 0 });
    let fresh = pool.admit_background(ManagedSession::direct(0));
    assert_ne!(fresh.session, a.session);
    assert_ne!(fresh.session, b.session);
    assert_ne!(fresh.session, pool.get_main_session().session);
    assert_eq!(fresh.session, 3);
}

#[test]
fn cleanup_evicts_dead_sessions() {
    let mut pool = SessionSshPool::new(ManagedSession::direct(0), 3);
    let a = pool.admit_background(ManagedSession::direct(0));
    let b = pool.admit_background(ManagedSession::direct(0));
    let c = pool.admit_background(ManagedSession::direct(0));
    let cleanup = pool.cleanup_disconnected(&vec![true, false, true]);
    assert_eq!(cleanup.evicted, vec![b]);
    assert!(!cleanup.replenish);
    assert_eq!(pool.background_sessions(), vec![a, c]);
    let cleanup = pool.cleanup_disconnected(&vec![false, false]);
    assert_eq!(cleanup.evicted, vec![a, c]);
    assert!(cleanup.replenish);
    assert!(pool.can_admit());
}

#[test]
fn rebuild_replaces_sessions() {
    let mut pool = SessionSshPool::new(ManagedSession::direct(0), 2);
    let a = pool.admit_background(ManagedSession::direct(0));
    assert!(pool.heartbeat_check(ssh_assistant::pool::Probe::ChannelRefused));
    assert!(!pool.heartbeat_check(ssh_assistant::pool::Probe::Answered));
    assert!(pool.can_rebuild());
    let old = pool.rebuild_main(ManagedSession::direct(0));
    assert_eq!(old.session, 0);
    assert_eq!(pool.get_main_session().session, 2);
    let replaced = pool.rebuild_all(ManagedSession::direct(0));
    assert_eq!(replaced.len(), 2);
    assert_eq!(replaced[0].session, 2);
    assert_eq!(replaced[1], a);
    assert_eq!(pool.get_main_session().session, 3);
    assert!(pool.background_sessions().is_empty());
    assert_eq!(pool.max_background_sessions(), 2);
    assert!(pool.can_serve());
}

#[test]
fn tunnel_relays_until_eof() {
    let mut t = JumpTunnel::new();
    assert_eq!(t.on_accept(false, 0, Polled::WouldBlock), TunnelNext::Accept { pause_millis: 100 });
    assert_eq!(t.on_accept(false, 200, Polled::Ready { bytes: 0 }), TunnelNext::Open { pause_millis: 0 });
    assert_eq!(t.on_open(false, Polled::WouldBlock), TunnelNext::Open { pause_millis: 10 });
    assert_eq!(t.on_open(false, Polled::Ready { bytes: 0 }), TunnelNext::Round { pause_millis: 0 });
    assert_eq!(t.begin_round(false), TunnelNext::Read { side: Side::Local });
    assert_eq!(
        t.on_read(Side::Local, Polled::Ready { bytes: 5 }),
        TunnelNext::Write { from: Side::Local, bytes: 5 }
    );
    assert_eq!(t.on_written(Side::Local, true), TunnelNext::Read { side: Side::Remote });
    assert_eq!(t.on_read(Side::Remote, Polled::WouldBlock), TunnelNext::Round { pause_millis: 0 });
    assert_eq!(t.begin_round(false), TunnelNext::Read { side: Side::Local });
    assert_eq!(t.on_read(Side::Local, Polled::WouldBlock), TunnelNext::Read { side: Side::Remote });
    assert_eq!(t.on_read(Side::Remote, Polled::WouldBlock), TunnelNext::Round { pause_millis: 2 });
    assert_eq!(t.begin_round(false), TunnelNext::Read { side: Side::Local });
    assert_eq!(t.on_read(Side::Local, Polled::Ready { bytes: 0 }), TunnelNext::Stop);
    assert_eq!(t.phase, TunnelPhase::Stopped);
    assert_eq!(t.begin_round(false), TunnelNext::Stop);
}

#[test]
fn tunnel_stops_on_flag_timeout_and_failure() {
    let mut t = JumpTunnel::new();
    assert_eq!(t.on_accept(false, 10001, Polled::WouldBlock), TunnelNext::Stop);
    let mut t = JumpTunnel::new();
    assert_eq!(t.on_accept(true, 0, Polled::WouldBlock), TunnelNext::Stop);
    let mut t = JumpTunnel::new();
    assert_eq!(t.on_accept(false, 0, Polled::Failed), TunnelNext::Stop);
    let mut t = JumpTunnel::new();
    let _ = t.on_accept(false, 0, Polled::Ready { bytes: 0 });
    assert_eq!(t.on_open(true, Polled::WouldBlock), TunnelNext::Stop);
    let mut t = JumpTunnel::new();
    let _ = t.on_accept(false, 0, Polled::Ready { bytes: 0 });
    let _ = t.on_open(false, Polled::Ready { bytes: 0 });
    assert_eq!(t.begin_round(true), TunnelNext::Stop);
    let mut t = JumpTunnel::new();
    let _ = t.on_accept(false, 0, Polled::Ready { bytes: 0 });
    let _ = t.on_open(false, Polled::Ready { bytes: 0 });
    let _ = t.begin_round(false);
    let _ = t.on_read(Side::Local, Polled::Ready { bytes: 3 });
    assert_eq!(t.on_written(Side::Local, false), TunnelNext::Stop);
}
