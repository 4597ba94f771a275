use imap_engine::connection::{
    has_capability, oauth2_response, AuthMethod, ConnectOutcome, ConnectPlan, ConnectStep, Settled, SetupStep,
    Transport,
};
use imap_engine::select::SelectStep;
use imap_engine::state::{
    CertificateChecks, Imap, ImapConfig, ImapResult, LoginParam, Mailbox, DC_LP_AUTH_OAUTH2,
    DC_LP_IMAP_SOCKET_PLAIN, DC_LP_IMAP_SOCKET_SSL, DC_LP_IMAP_SOCKET_STARTTLS,
};

fn login_param(flags: u32) -> LoginParam {
    LoginParam {
        addr: "me@example.org".to_string(),
        mail_server: "imap.example.org".to_string(),
        mail_user: "me".to_string(),
        mail_pw: "secret".to_string(),
        mail_port: 993,
        imap_certificate_checks: CertificateChecks::Strict,
        server_flags: flags,
    }
}

fn capabilities(names: &[&str]) -> Vec<String> {
    names.iter().map(|s| s.to_string()).collect()
}

fn connected_engine() -> Imap {
    let mut imap = Imap::new();
    let step = imap.connect(&login_param(DC_LP_IMAP_SOCKET_SSL));
    assert!(matches!(step, ConnectStep::Open(_)));
    assert!(imap.connect_opened(ConnectOutcome::LoggedIn).ok);
    assert!(imap.connect_capabilities(Some(capabilities(&["IMAP4rev1", "IDLE"])), true).ok);
    imap
}

fn mailbox() -> Mailbox {
    Mailbox { exists: 3, recent: 0, uid_validity: Some(9), uid_next: Some(4) }
}

#[test]
fn new_engine_is_empty() {
    let imap = Imap::new();
    assert!(!imap.is_connected());
    assert!(!imap.should_reconnect());
    assert!(!imap.session_open);
    assert!(!imap.watch);
    assert_eq!(imap.config.imap_server, "");
    assert_eq!(imap.config.imap_port, 0);
    assert_eq!(imap.config.imap_delimiter, '.');
    assert_eq!(imap.config.selected_folder, None);
    assert_eq!(imap.config.watch_folder, None);
    assert!(!imap.config.can_idle);
    assert!(!imap.config.has_xlist);
    assert_eq!(imap.config.certificate_checks, CertificateChecks::Automatic);
}

#[test]
fn default_config_matches_new_engine() {
    let config = ImapConfig::default();
    assert_eq!(config.addr, "");
    assert_eq!(config.imap_user, "");
    assert_eq!(config.imap_pw, "");
    assert_eq!(config.server_flags, 0);
    assert!(!config.selected_folder_needs_expunge);
    assert_eq!(CertificateChecks::default(), CertificateChecks::Automatic);
}

#[test]
fn connect_rejects_missing_server_user_or_password() {
    for missing in 0..3 {
        let mut lp = login_param(0);
        match missing {
            0 => lp.mail_server = String::new(),
            1 => lp.mail_user = String::new(),
            _ => lp.mail_pw = String::new(),
        }
        let mut imap = Imap::new();
        assert_eq!(imap.connect(&lp), ConnectStep::Done(false));
        assert_eq!(imap.config.imap_server, "");
        assert_eq!(imap.config.imap_user, "");
    }
}

#[test]
fn connect_rejects_missing_password_even_when_connected() {
    let mut imap = connected_engine();
    let mut lp = login_param(0);
    lp.mail_pw = String::new();
    assert_eq!(imap.connect(&lp), ConnectStep::Done(false));
    assert!(imap.is_connected());
}

#[test]
fn connect_stores_parameters_and_plans_tls() {
    let mut imap = Imap::new();
    let step = imap.connect(&login_param(DC_LP_IMAP_SOCKET_SSL));
    assert_eq!(
        step,
        ConnectStep::Open(ConnectPlan {
            teardown: false,
            transport: Transport::Tls,
            auth: AuthMethod::Password,
        })
    );
    assert_eq!(imap.config.addr, "me@example.org");
    assert_eq!(imap.config.imap_server, "imap.example.org");
    assert_eq!(imap.config.imap_port, 993);
    assert_eq!(imap.config.imap_user, "me");
    assert_eq!(imap.config.imap_pw, "secret");
    assert_eq!(imap.config.certificate_checks, CertificateChecks::Strict);
    assert_eq!(imap.config.server_flags, DC_LP_IMAP_SOCKET_SSL);
    assert!(!imap.is_connected());
}

#[test]
fn connect_plans_follow_server_flags() {
    let cases = [
        (0, Transport::Tls, AuthMethod::Password),
        (DC_LP_IMAP_SOCKET_SSL, Transport::Tls, AuthMethod::Password),
        (DC_LP_IMAP_SOCKET_STARTTLS, Transport::StartTls, AuthMethod::Password),
        (DC_LP_IMAP_SOCKET_PLAIN, Transport::Plain, AuthMethod::Password),
        (
            DC_LP_IMAP_SOCKET_PLAIN | DC_LP_IMAP_SOCKET_STARTTLS,
            Transport::StartTls,
            AuthMethod::Password,
        ),
        (DC_LP_AUTH_OAUTH2, Transport::Tls, AuthMethod::OAuth2),
        (DC_LP_AUTH_OAUTH2 | DC_LP_IMAP_SOCKET_PLAIN, Transport::Plain, AuthMethod::OAuth2),
    ];
    for (flags, transport, auth) in cases {
        let mut imap = Imap::new();
        assert_eq!(
            imap.connect(&login_param(flags)),
            ConnectStep::Open(ConnectPlan { teardown: false, transport, auth })
        );
    }
}

#[test]
fn connect_twice_while_connected_opens_nothing() {
    let mut imap = connected_engine();
    assert!(imap.is_connected());
    let other = LoginParam { mail_server: "other.example.org".to_string(), ..login_param(0) };
    assert_eq!(imap.connect(&login_param(DC_LP_IMAP_SOCKET_SSL)), ConnectStep::Done(true));
    assert_eq!(imap.connect(&other), ConnectStep::Done(true));
    assert_eq!(imap.config.imap_server, "imap.example.org");
    assert!(imap.session_open);
    assert!(imap.is_connected());
}

#[test]
fn connect_detects_capabilities() {
    let mut imap = Imap::new();
    imap.connect(&login_param(0));
    imap.connect_opened(ConnectOutcome::LoggedIn);
    let settled = imap.connect_capabilities(Some(capabilities(&["XLIST", "IMAP4rev1"])), true);
    assert_eq!(settled, Settled { ok: true, teardown: false });
    assert!(imap.config.has_xlist);
    assert!(!imap.config.can_idle);
    assert!(imap.is_connected());

    let imap = connected_engine();
    assert!(imap.config.can_idle);
    assert!(!imap.config.has_xlist);
}

#[test]
fn capability_names_are_matched_exactly() {
    let caps = capabilities(&["IMAP4rev1", "IDLE", "XLIST"]);
    assert!(has_capability(&caps, "IDLE"));
    assert!(has_capability(&caps, "XLIST"));
    assert!(!has_capability(&caps, "idle"));
    assert!(!has_capability(&caps, "IDL"));
    assert!(!has_capability(&capabilities(&[]), "IDLE"));
}

#[test]
fn failed_connect_forgets_parameters() {
    for outcome in
        [ConnectOutcome::ConnectFailed, ConnectOutcome::NoToken, ConnectOutcome::LoginFailed]
    {
        let mut imap = Imap::new();
        imap.set_watch_folder("INBOX".to_string());
        imap.connect(&login_param(0));
        let settled = imap.connect_opened(outcome);
        assert_eq!(settled, Settled { ok: false, teardown: false });
        assert_eq!(imap.config.imap_server, "");
        assert_eq!(imap.config.imap_user, "");
        assert_eq!(imap.config.imap_pw, "");
        assert_eq!(imap.config.addr, "");
        assert_eq!(imap.config.imap_port, 0);
        assert_eq!(imap.config.watch_folder, None);
        assert!(!imap.is_connected());
        assert!(!imap.session_open);
    }
}

#[test]
fn connect_tears_down_without_capabilities_or_store() {
    let mut imap = Imap::new();
    imap.connect(&login_param(0));
    imap.connect_opened(ConnectOutcome::LoggedIn);
    let settled = imap.connect_capabilities(None, true);
    assert_eq!(settled, Settled { ok: false, teardown: true });
    assert!(!imap.is_connected());
    assert!(!imap.session_open);
    assert_eq!(imap.config.imap_server, "");

    let mut imap = Imap::new();
    imap.connect(&login_param(0));
    imap.connect_opened(ConnectOutcome::LoggedIn);
    let settled = imap.connect_capabilities(Some(capabilities(&["IDLE"])), false);
    assert_eq!(settled, Settled { ok: false, teardown: true });
    assert!(!imap.is_connected());
    assert!(!imap.config.can_idle);

    let mut imap = Imap::new();
    let settled = imap.connect_capabilities(Some(capabilities(&["IDLE"])), true);
    assert_eq!(settled, Settled { ok: false, teardown: false });
    assert!(!imap.is_connected());
}

#[test]
fn disconnect_is_idempotent() {
    let mut imap = connected_engine();
    imap.set_watch_folder("INBOX".to_string());
    assert_eq!(imap.select_folder("INBOX"), SelectStep::Select { expunge_first: false });
    assert!(imap.select_folder_finish("INBOX", Some(mailbox())));
    assert!(imap.disconnect());
    assert!(!imap.is_connected());
    assert!(!imap.session_open);
    assert_eq!(imap.config.selected_folder, None);
    assert!(imap.config.selected_mailbox.is_none());
    assert_eq!(imap.config.imap_server, "");
    assert_eq!(imap.config.watch_folder, None);
    assert!(!imap.config.can_idle);
    assert!(!imap.disconnect());
    assert!(!imap.is_connected());
}

#[test]
fn disconnect_does_nothing_when_not_connected() {
    let mut imap = Imap::new();
    imap.connect(&login_param(0));
    assert!(!imap.disconnect());
    assert_eq!(imap.config.imap_server, "imap.example.org");
}

#[test]
fn setup_without_server_is_unconfigured() {
    let mut imap = Imap::new();
    imap.should_reconnect = true;
    assert_eq!(imap.setup_handle_if_needed(), SetupStep::Unconfigured);
    assert!(imap.should_reconnect());
}

#[test]
fn setup_keeps_live_session() {
    let mut imap = connected_engine();
    assert_eq!(imap.setup_handle_if_needed(), SetupStep::Ready);
    assert!(imap.session_open);
    assert!(!imap.should_reconnect());
}

#[test]
fn setup_reconnects_when_asked() {
    let mut imap = connected_engine();
    imap.select_folder("INBOX");
    imap.select_folder_finish("INBOX", Some(mailbox()));
    imap.should_reconnect = true;
    let step = imap.setup_handle_if_needed();
    assert_eq!(
        step,
        SetupStep::Open(ConnectPlan {
            teardown: true,
            transport: Transport::Tls,
            auth: AuthMethod::Password,
        })
    );
    assert!(!imap.session_open);
    assert_eq!(imap.config.selected_folder, None);
    assert!(imap.should_reconnect());
    assert_eq!(
        imap.setup_handle_finish(ConnectOutcome::LoggedIn),
        Settled { ok: true, teardown: false }
    );
    assert!(imap.session_open);
    assert!(!imap.should_reconnect());
    assert_eq!(imap.setup_handle_if_needed(), SetupStep::Ready);
}

#[test]
fn setup_finish_outcomes() {
    let mut imap = connected_engine();
    imap.should_reconnect = true;
    imap.setup_handle_if_needed();
    assert_eq!(
        imap.setup_handle_finish(ConnectOutcome::ConnectFailed),
        Settled { ok: false, teardown: false }
    );
    assert!(imap.should_reconnect());
    assert_eq!(
        imap.setup_handle_finish(ConnectOutcome::NoToken),
        Settled { ok: false, teardown: false }
    );
    assert!(imap.should_reconnect());
    assert_eq!(
        imap.setup_handle_finish(ConnectOutcome::LoginFailed),
        Settled { ok: false, teardown: false }
    );
    assert!(!imap.should_reconnect());
    assert_eq!(imap.config.imap_server, "imap.example.org");
}

#[test]
fn unsetup_reports_open_session() {
    let mut imap = connected_engine();
    assert!(imap.unsetup_handle());
    assert!(!imap.unsetup_handle());
    assert!(imap.is_connected());
}

#[test]
fn set_watch_folder_is_stored() {
    let mut imap = Imap::new();
    imap.set_watch_folder("INBOX".to_string());
    assert_eq!(imap.config.watch_folder, Some("INBOX".to_string()));
    imap.set_watch_folder("DeltaChat".to_string());
    assert_eq!(imap.config.watch_folder, Some("DeltaChat".to_string()));
}

#[test]
fn select_without_session_clears_selection() {
    let mut imap = Imap::new();
    imap.config.selected_folder = Some("INBOX".to_string());
    imap.config.selected_folder_needs_expunge = true;
    assert_eq!(imap.select_folder("INBOX"), SelectStep::Done(false));
    assert_eq!(imap.config.selected_folder, None);
    assert!(!imap.config.selected_folder_needs_expunge);
}

#[test]
fn select_same_folder_sends_nothing() {
    let mut imap = connected_engine();
    assert_eq!(imap.select_folder("INBOX"), SelectStep::Select { expunge_first: false });
    assert!(imap.select_folder_finish("INBOX", Some(mailbox())));
    assert!(imap.is_selected("INBOX"));
    assert!(!imap.is_selected("inbox"));
    imap.config.selected_folder_needs_expunge = true;
    assert_eq!(imap.select_folder("INBOX"), SelectStep::Done(true));
    assert!(imap.config.selected_folder_needs_expunge);
}

#[test]
fn select_other_folder_expunges_pending() {
    let mut imap = connected_engine();
    imap.select_folder("INBOX");
    imap.select_folder_finish("INBOX", Some(mailbox()));
    imap.config.selected_folder_needs_expunge = true;
    assert!(imap.expunge_folder());
    assert_eq!(imap.select_folder("Sent"), SelectStep::Select { expunge_first: true });
    assert!(!imap.config.selected_folder_needs_expunge);
    assert!(imap.select_folder_finish("Sent", Some(mailbox())));
    assert_eq!(imap.config.selected_folder, Some("Sent".to_string()));
    assert_eq!(imap.config.selected_mailbox.map(|m| m.exists), Some(3));
}

#[test]
fn select_failure_asks_for_reconnect() {
    let mut imap = connected_engine();
    imap.select_folder("INBOX");
    imap.select_folder_finish("INBOX", Some(mailbox()));
    assert_eq!(imap.select_folder("Gone"), SelectStep::Select { expunge_first: false });
    assert!(!imap.select_folder_finish("Gone", None));
    assert_eq!(imap.config.selected_folder, None);
    assert!(imap.should_reconnect());
    assert!(!imap.expunge_folder());
}

#[test]
fn results_compare_by_variant() {
    assert_eq!(ImapResult::Success, ImapResult::Success);
    assert_ne!(ImapResult::Failed, ImapResult::RetryLater);
    assert_ne!(ImapResult::AlreadyDone, ImapResult::Success);
}

#[test]
fn results_have_names() {
    assert_eq!(ImapResult::Failed.name(), "Failed");
    assert_eq!(ImapResult::RetryLater.name(), "RetryLater");
    assert_eq!(ImapResult::AlreadyDone.name(), "AlreadyDone");
    assert_eq!(ImapResult::Success.name(), "Success");
}

#[test]
fn oauth2_response_holds_user_and_token() {
    assert_eq!(
        oauth2_response("me@example.org", "tok3n"),
        "user=me@example.org\x01auth=Bearer tok3n\x01\x01"
    );
    assert_eq!(oauth2_response("", ""), "user=\x01auth=Bearer \x01\x01");
    assert_eq!(oauth2_response("a", "b").len(), 22);
}
