use imap_engine::connection::{AuthMethod, ConnectOutcome, ConnectPlan, ConnectStep, Transport};
use imap_engine::idle::{
    idle_worker_step, FakeIdle, FakePoll, FakeWake, IdleError, IdleStep, IdleWake,
    KeepaliveOutcome, WorkerResult, WorkerStep, FAKE_IDLE_EAGER_SECS, FAKE_IDLE_LONG_SECS,
    FAKE_IDLE_SHORT_SECS, IDLE_KEEPALIVE_SECS,
};
use imap_engine::state::{CertificateChecks, Imap, LoginParam, Mailbox};

fn idle_engine(caps: &[&str]) -> Imap {
    let mut imap = Imap::new();
    let lp = LoginParam {
        addr: "me@example.org".to_string(),
        mail_server: "imap.example.org".to_string(),
        mail_user: "me".to_string(),
        mail_pw: "secret".to_string(),
        mail_port: 993,
        imap_certificate_checks: CertificateChecks::Automatic,
        server_flags: 0,
    };
    assert!(matches!(imap.connect(&lp), ConnectStep::Open(_)));
    assert!(imap.connect_opened(ConnectOutcome::LoggedIn).ok);
    let caps = caps.iter().map(|s| s.to_string()).collect();
    assert!(imap.connect_capabilities(Some(caps), true).ok);
    imap
}

fn idle_mailbox() -> Mailbox {
    Mailbox { exists: 0, recent: 0, uid_validity: None, uid_next: None }
}

#[test]
fn keepalive_is_23_minutes() {
    assert_eq!(IDLE_KEEPALIVE_SECS, 1380);
    assert_eq!(FAKE_IDLE_SHORT_SECS, 5);
    assert_eq!(FAKE_IDLE_LONG_SECS, 60);
    assert_eq!(FAKE_IDLE_EAGER_SECS, 180);
}

#[test]
fn fake_idle_interval_is_short_for_three_minutes() {
    let wait = FakeIdle::new();
    assert_eq!(wait.interval(0), 5);
    assert_eq!(wait.interval(1), 5);
    assert_eq!(wait.interval(179), 5);
    assert_eq!(wait.interval(180), 60);
    assert_eq!(wait.interval(181), 60);
    assert_eq!(wait.interval(u64::MAX), 60);
}

#[test]
fn fake_idle_interval_is_long_after_failed_reconnect() {
    let mut wait = FakeIdle::new();
    assert!(!wait.reconnected(false));
    assert!(wait.wait_long);
    assert_eq!(wait.interval(0), 60);
    assert_eq!(wait.interval(179), 60);
    assert_eq!(wait.interval(180), 60);
    let mut wait = FakeIdle::new();
    assert!(wait.reconnected(true));
    assert!(!wait.wait_long);
    assert_eq!(wait.interval(10), 5);
}

#[test]
fn fake_idle_ends_when_fetch_finds_mail() {
    let wait = FakeIdle::new();
    assert!(!wait.fetched(0));
    assert!(wait.fetched(1));
    assert!(wait.fetched(12));
}

#[test]
fn fake_idle_wake_ups() {
    let mut imap = Imap::new();
    assert_eq!(imap.fake_idle_woken(false), FakeWake::Wait);
    assert_eq!(imap.fake_idle_woken(true), FakeWake::Poll);
    imap.interrupt_idle();
    assert!(imap.watch);
    assert_eq!(imap.fake_idle_woken(true), FakeWake::Return);
    assert!(!imap.watch);
    imap.interrupt_idle();
    assert_eq!(imap.fake_idle_woken(false), FakeWake::Return);
    assert_eq!(imap.fake_idle_woken(false), FakeWake::Wait);
}

#[test]
fn fake_idle_polls() {
    let mut imap = Imap::new();
    assert_eq!(imap.fake_idle_poll(), FakePoll::Reconnect);
    let mut imap2 = idle_engine(&[]);
    assert_eq!(imap2.fake_idle_poll(), FakePoll::Sleep);
    imap2.set_watch_folder("INBOX".to_string());
    assert_eq!(imap2.fake_idle_poll(), FakePoll::Fetch);
    imap.set_watch_folder("INBOX".to_string());
    assert_eq!(imap.fake_idle_poll(), FakePoll::Reconnect);
}

#[test]
fn idle_without_capability_polls() {
    let mut imap = idle_engine(&["IMAP4rev1"]);
    imap.set_watch_folder("INBOX".to_string());
    assert_eq!(imap.idle(), IdleStep::FakeIdle);
    let mut fresh = Imap::new();
    assert_eq!(fresh.idle(), IdleStep::FakeIdle);
}

#[test]
fn idle_selects_watch_folder_and_spawns() {
    let mut imap = idle_engine(&["IDLE"]);
    imap.set_watch_folder("INBOX".to_string());
    assert_eq!(imap.idle(), IdleStep::Select { expunge_first: false });
    assert_eq!(imap.idle_selected(Some(idle_mailbox())), IdleStep::Spawn);
    assert_eq!(imap.config.selected_folder, Some("INBOX".to_string()));
    assert_eq!(imap.idle(), IdleStep::Spawn);
}

#[test]
fn idle_without_watch_folder_spawns() {
    let mut imap = idle_engine(&["IDLE"]);
    assert_eq!(imap.idle(), IdleStep::Spawn);
    assert_eq!(imap.idle_selected(None), IdleStep::Spawn);
}

#[test]
fn idle_polls_when_folder_cannot_be_selected() {
    let mut imap = idle_engine(&["IDLE"]);
    imap.set_watch_folder("INBOX".to_string());
    assert_eq!(imap.idle(), IdleStep::Select { expunge_first: false });
    assert_eq!(imap.idle_selected(None), IdleStep::FakeIdle);
    assert!(imap.should_reconnect());
}

#[test]
fn idle_reconnects_first_when_due() {
    let mut imap = idle_engine(&["IDLE"]);
    imap.set_watch_folder("INBOX".to_string());
    imap.should_reconnect = true;
    assert_eq!(
        imap.idle(),
        IdleStep::Setup(ConnectPlan {
            teardown: true,
            transport: Transport::Tls,
            auth: AuthMethod::Password,
        })
    );
    assert_eq!(imap.idle_after_setup(), IdleStep::FakeIdle);
    imap.setup_handle_finish(ConnectOutcome::LoggedIn);
    assert_eq!(imap.idle_after_setup(), IdleStep::Select { expunge_first: false });
}

#[test]
fn worker_steps() {
    assert_eq!(idle_worker_step(KeepaliveOutcome::Data), WorkerStep::Finish(WorkerResult::Data));
    assert_eq!(idle_worker_step(KeepaliveOutcome::Elapsed), WorkerStep::Again);
    assert_eq!(
        idle_worker_step(KeepaliveOutcome::StartFailed),
        WorkerStep::Finish(WorkerResult::Error(IdleError::Bad))
    );
    assert_eq!(
        idle_worker_step(KeepaliveOutcome::WaitFailed),
        WorkerStep::Finish(WorkerResult::Error(IdleError::Bad))
    );
}

#[test]
fn interrupt_ends_idle_without_data() {
    let mut imap = idle_engine(&["IDLE"]);
    assert_eq!(imap.idle_poll(None), IdleWake::Wait);
    assert_eq!(imap.idle_woken(None), IdleWake::Wait);
    imap.interrupt_idle();
    assert_eq!(imap.idle_woken(None), IdleWake::Interrupted);
    assert!(!imap.watch);
    assert!(imap.session_open);
    assert!(!imap.should_reconnect());
    assert_eq!(imap.idle_woken(None), IdleWake::Wait);
}

#[test]
fn idle_returns_on_data() {
    let mut imap = idle_engine(&["IDLE"]);
    imap.idle_worker_finished();
    assert!(imap.watch);
    assert_eq!(imap.idle_woken(Some(WorkerResult::Data)), IdleWake::Data);
    assert!(!imap.watch);
    assert!(imap.session_open);
    assert_eq!(imap.idle_poll(Some(WorkerResult::Data)), IdleWake::Data);
}

#[test]
fn idle_tears_down_on_broken_transport() {
    for error in [IdleError::Io, IdleError::ConnectionLost, IdleError::Bad] {
        let mut imap = idle_engine(&["IDLE"]);
        imap.idle_worker_finished();
        assert_eq!(
            imap.idle_woken(Some(WorkerResult::Error(error))),
            IdleWake::Reconnect { teardown: true }
        );
        assert!(!imap.session_open);
        assert!(imap.should_reconnect());
        assert!(!imap.watch);
        assert!(imap.is_connected());
    }
}

#[test]
fn idle_ignores_other_errors() {
    let mut imap = idle_engine(&["IDLE"]);
    imap.idle_worker_finished();
    assert_eq!(imap.idle_woken(Some(WorkerResult::Error(IdleError::Other))), IdleWake::Unknown);
    assert!(imap.session_open);
    assert!(!imap.should_reconnect());
    assert!(!imap.watch);
}
