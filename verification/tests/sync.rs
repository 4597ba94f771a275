use imap_engine::connection::{AuthMethod, ConnectOutcome, ConnectPlan, ConnectStep, Transport};
use imap_engine::state::{CertificateChecks, Imap, LoginParam, Mailbox};
use imap_engine::sync::{
    cursor_key, fetch_set, finish_batch, get_config_last_seen_uid, has_flag, is_considered,
    precheck_imf, prefetch_get_message_id, set_config_last_seen_uid, BatchSummary, BodyReply,
    EnvelopeOutcome, FetchStep, FetchedMessage, Flag, FolderStep, KnownMessage, NoMessageId,
    Precheck, Prefetch, SingleFetch, SingleStep, UidCursor, DC_IMAP_SEEN,
};

fn sync_engine() -> Imap {
    let mut imap = Imap::new();
    let lp = LoginParam {
        addr: "me@example.org".to_string(),
        mail_server: "imap.example.org".to_string(),
        mail_user: "me".to_string(),
        mail_pw: "secret".to_string(),
        mail_port: 993,
        imap_certificate_checks: CertificateChecks::Automatic,
        server_flags: 0,
    };
    assert!(matches!(imap.connect(&lp), ConnectStep::Open(_)));
    assert!(imap.connect_opened(ConnectOutcome::LoggedIn).ok);
    assert!(imap.connect_capabilities(Some(vec![]), true).ok);
    imap
}

fn cursor(uid_validity: u32, last_seen_uid: u32) -> UidCursor {
    UidCursor { uid_validity, last_seen_uid }
}

fn read(uid: u32) -> EnvelopeOutcome {
    EnvelopeOutcome { uid: Some(uid), read_ok: true }
}

fn failed(uid: u32) -> EnvelopeOutcome {
    EnvelopeOutcome { uid: Some(uid), read_ok: false }
}

fn known(folder: &str, uid: u32, msg_id: u32) -> KnownMessage {
    KnownMessage { server_folder: folder.to_string(), server_uid: uid, msg_id }
}

#[test]
fn cursor_key_names_the_folder() {
    assert_eq!(cursor_key("INBOX"), "imap.mailbox.INBOX");
    assert_eq!(cursor_key("INBOX.DeltaChat"), "imap.mailbox.INBOX.DeltaChat");
    assert_eq!(cursor_key(""), "imap.mailbox.");
}

#[test]
fn cursor_is_written_as_two_numbers() {
    assert_eq!(set_config_last_seen_uid(cursor(3, 7)), "3:7");
    assert_eq!(set_config_last_seen_uid(cursor(0, 0)), "0:0");
    assert_eq!(set_config_last_seen_uid(cursor(1573205023, 120)), "1573205023:120");
    assert_eq!(set_config_last_seen_uid(cursor(4294967295, 4294967295)), "4294967295:4294967295");
}

#[test]
fn cursor_is_read_back() {
    assert_eq!(get_config_last_seen_uid(Some("3:7")), cursor(3, 7));
    assert_eq!(get_config_last_seen_uid(Some("1573205023:120")), cursor(1573205023, 120));
    assert_eq!(get_config_last_seen_uid(Some("4294967295:4294967295")), cursor(4294967295, 4294967295));
    for (v, u) in [(0, 0), (1, 0), (0, 1), (10, 99), (123456, 654321)] {
        let entry = set_config_last_seen_uid(cursor(v, u));
        assert_eq!(get_config_last_seen_uid(Some(entry.as_str())), cursor(v, u));
    }
}

#[test]
fn missing_or_malformed_cursor_reads_as_zero() {
    assert_eq!(get_config_last_seen_uid(None), cursor(0, 0));
    assert_eq!(get_config_last_seen_uid(Some("")), cursor(0, 0));
    assert_eq!(get_config_last_seen_uid(Some(":")), cursor(0, 0));
    assert_eq!(get_config_last_seen_uid(Some("5")), cursor(5, 0));
    assert_eq!(get_config_last_seen_uid(Some("5:")), cursor(5, 0));
    assert_eq!(get_config_last_seen_uid(Some(":6")), cursor(0, 6));
    assert_eq!(get_config_last_seen_uid(Some("a:b")), cursor(0, 0));
    assert_eq!(get_config_last_seen_uid(Some("5:x")), cursor(5, 0));
    assert_eq!(get_config_last_seen_uid(Some("1:2:3")), cursor(1, 2));
    assert_eq!(get_config_last_seen_uid(Some("+5:+6")), cursor(5, 6));
    assert_eq!(get_config_last_seen_uid(Some("+:6")), cursor(0, 6));
    assert_eq!(get_config_last_seen_uid(Some("-5:6")), cursor(0, 6));
    assert_eq!(get_config_last_seen_uid(Some(" 5:6 ")), cursor(0, 0));
    assert_eq!(get_config_last_seen_uid(Some("007:08")), cursor(7, 8));
    assert_eq!(get_config_last_seen_uid(Some("4294967296:1")), cursor(0, 1));
    assert_eq!(get_config_last_seen_uid(Some("1:99999999999")), cursor(1, 0));
    assert_eq!(get_config_last_seen_uid(Some("\u{661}:2")), cursor(0, 2));
}

#[test]
fn fetch_set_starts_behind_the_cursor() {
    assert_eq!(fetch_set(cursor(1, 0)), "1:*");
    assert_eq!(fetch_set(cursor(1, 7)), "8:*");
    assert_eq!(fetch_set(cursor(1, 99)), "100:*");
    assert_eq!(fetch_set(cursor(1, 4294967295)), "4294967296:*");
}

#[test]
fn envelopes_at_or_below_cursor_are_passed_over() {
    let c = cursor(1, 10);
    assert!(!is_considered(c, None));
    assert!(!is_considered(c, Some(0)));
    assert!(!is_considered(c, Some(10)));
    assert!(is_considered(c, Some(11)));
    assert!(!is_considered(cursor(1, 0), Some(0)));
    assert!(is_considered(cursor(1, 0), Some(1)));
}

#[test]
fn clean_batch_advances_cursor() {
    let summary = finish_batch(cursor(4, 10), &vec![read(11), read(12), read(13)]);
    assert_eq!(
        summary,
        BatchSummary { read_cnt: 3, read_errors: 0, persist: Some(cursor(4, 13)) }
    );
    let summary = finish_batch(cursor(4, 0), &vec![read(1)]);
    assert_eq!(summary.persist, Some(cursor(4, 1)));
}

#[test]
fn read_error_keeps_cursor() {
    let summary = finish_batch(cursor(4, 10), &vec![read(11), failed(12), read(13)]);
    assert_eq!(summary, BatchSummary { read_cnt: 3, read_errors: 1, persist: None });
    let summary = finish_batch(cursor(4, 10), &vec![failed(11)]);
    assert_eq!(summary, BatchSummary { read_cnt: 1, read_errors: 1, persist: None });
    let summary = finish_batch(cursor(4, 10), &vec![failed(11), failed(12)]);
    assert_eq!(summary, BatchSummary { read_cnt: 2, read_errors: 2, persist: None });
}

#[test]
fn batch_without_new_mail_keeps_cursor() {
    assert_eq!(
        finish_batch(cursor(4, 10), &vec![]),
        BatchSummary { read_cnt: 0, read_errors: 0, persist: None }
    );
    let stale = vec![read(10), failed(9), EnvelopeOutcome { uid: None, read_ok: false }];
    assert_eq!(
        finish_batch(cursor(4, 10), &stale),
        BatchSummary { read_cnt: 0, read_errors: 0, persist: None }
    );
}

#[test]
fn batch_takes_largest_uid_in_any_order() {
    let summary = finish_batch(cursor(2, 5), &vec![read(9), read(6), read(3), read(8)]);
    assert_eq!(summary, BatchSummary { read_cnt: 3, read_errors: 0, persist: Some(cursor(2, 9)) });
}

#[test]
fn unknown_message_is_downloaded() {
    assert_eq!(
        precheck_imf(None, "INBOX", 7),
        Precheck { known: false, mark_seen: None, moved: false, update_location: false }
    );
}

#[test]
fn self_sent_message_is_marked_seen_once() {
    let prior = known("", 0, 42);
    assert_eq!(
        precheck_imf(Some(&prior), "INBOX", 7),
        Precheck { known: true, mark_seen: Some(42), moved: false, update_location: true }
    );
    assert_eq!(
        precheck_imf(Some(&prior), "", 0),
        Precheck { known: true, mark_seen: Some(42), moved: false, update_location: false }
    );
}

#[test]
fn moved_message_is_recorded() {
    let prior = known("INBOX", 7, 42);
    assert_eq!(
        precheck_imf(Some(&prior), "DeltaChat", 3),
        Precheck { known: true, mark_seen: None, moved: true, update_location: true }
    );
    assert_eq!(
        precheck_imf(Some(&prior), "DeltaChat", 7),
        Precheck { known: true, mark_seen: None, moved: true, update_location: true }
    );
    let unfiled = known("", 7, 42);
    assert_eq!(
        precheck_imf(Some(&unfiled), "INBOX", 7),
        Precheck { known: true, mark_seen: None, moved: true, update_location: true }
    );
}

#[test]
fn renumbered_message_updates_location_only() {
    let prior = known("INBOX", 7, 42);
    assert_eq!(
        precheck_imf(Some(&prior), "INBOX", 8),
        Precheck { known: true, mark_seen: None, moved: false, update_location: true }
    );
    assert_eq!(
        precheck_imf(Some(&prior), "INBOX", 7),
        Precheck { known: true, mark_seen: None, moved: false, update_location: false }
    );
    let zero = known("INBOX", 0, 42);
    assert_eq!(
        precheck_imf(Some(&zero), "INBOX", 0),
        Precheck { known: true, mark_seen: None, moved: false, update_location: false }
    );
}

#[test]
fn message_id_of_envelope() {
    let with = Prefetch { uid: Some(1), message_id: Some("abc@example.org".to_string()) };
    assert_eq!(prefetch_get_message_id(&with), Ok("abc@example.org".to_string()));
    let without = Prefetch { uid: Some(1), message_id: None };
    assert_eq!(prefetch_get_message_id(&without), Err(NoMessageId));
    assert_eq!(prefetch_get_message_id(&without).unwrap_or_default(), "");
}

#[test]
fn flags_are_found() {
    let flags = vec![Flag::Recent, Flag::Seen, Flag::Custom];
    assert!(has_flag(&flags, Flag::Seen));
    assert!(has_flag(&flags, Flag::Recent));
    assert!(!has_flag(&flags, Flag::Deleted));
    assert!(!has_flag(&vec![], Flag::Seen));
}

#[test]
fn single_message_is_not_asked_for_without_connection() {
    let imap = Imap::new();
    assert_eq!(imap.fetch_single_msg(), SingleStep::Done(false));
    let mut imap = sync_engine();
    assert_eq!(imap.fetch_single_msg(), SingleStep::Fetch);
    imap.unsetup_handle();
    assert_eq!(imap.fetch_single_msg(), SingleStep::Done(true));
}

#[test]
fn downloaded_message_is_ingested_with_flags() {
    let mut imap = sync_engine();
    let seen = BodyReply::Message(FetchedMessage { flags: vec![Flag::Seen], has_body: true });
    assert_eq!(
        imap.fetch_single_msg_fetched(&seen),
        SingleFetch { received: true, ingest: Some(DC_IMAP_SEEN) }
    );
    let unseen = BodyReply::Message(FetchedMessage { flags: vec![Flag::Recent], has_body: true });
    assert_eq!(
        imap.fetch_single_msg_fetched(&unseen),
        SingleFetch { received: true, ingest: Some(0) }
    );
    assert_eq!(DC_IMAP_SEEN, 1);
    assert!(!imap.should_reconnect());
}

#[test]
fn deleted_or_bodiless_message_is_not_ingested() {
    let mut imap = sync_engine();
    let deleted =
        BodyReply::Message(FetchedMessage { flags: vec![Flag::Seen, Flag::Deleted], has_body: true });
    assert_eq!(
        imap.fetch_single_msg_fetched(&deleted),
        SingleFetch { received: true, ingest: None }
    );
    let bodiless = BodyReply::Message(FetchedMessage { flags: vec![], has_body: false });
    assert_eq!(
        imap.fetch_single_msg_fetched(&bodiless),
        SingleFetch { received: true, ingest: None }
    );
    assert_eq!(
        imap.fetch_single_msg_fetched(&BodyReply::Empty),
        SingleFetch { received: true, ingest: None }
    );
    assert!(!imap.should_reconnect());
}

#[test]
fn failed_download_is_a_read_error() {
    let mut imap = sync_engine();
    assert_eq!(
        imap.fetch_single_msg_fetched(&BodyReply::Failed),
        SingleFetch { received: false, ingest: None }
    );
    assert!(imap.should_reconnect());
}

#[test]
fn fetch_needs_connection_store_and_watch_folder() {
    let mut imap = Imap::new();
    assert_eq!(imap.fetch(true), FetchStep::Done(false));
    let mut imap = sync_engine();
    assert_eq!(imap.fetch(false), FetchStep::Done(false));
    assert_eq!(imap.fetch(true), FetchStep::Done(false));
    imap.set_watch_folder("INBOX".to_string());
    assert_eq!(imap.fetch(true), FetchStep::Drain);
    assert_eq!(imap.fetch_after_setup(), FetchStep::Drain);
}

#[test]
fn fetch_drains_until_a_pass_is_empty() {
    let imap = sync_engine();
    assert_eq!(imap.fetch_drained(3), FetchStep::Drain);
    assert_eq!(imap.fetch_drained(1), FetchStep::Drain);
    assert_eq!(imap.fetch_drained(0), FetchStep::Done(true));
}

#[test]
fn fetch_reconnects_first_when_due() {
    let mut imap = sync_engine();
    imap.set_watch_folder("INBOX".to_string());
    imap.should_reconnect = true;
    assert_eq!(
        imap.fetch(true),
        FetchStep::Setup(ConnectPlan {
            teardown: true,
            transport: Transport::Tls,
            auth: AuthMethod::Password,
        })
    );
}

#[test]
fn folder_fetch_selects_first() {
    let mut offline = Imap::new();
    assert_eq!(offline.fetch_from_single_folder("INBOX"), FolderStep::Nothing);
    let mut imap = sync_engine();
    assert_eq!(
        imap.fetch_from_single_folder("INBOX"),
        FolderStep::Select { expunge_first: false }
    );
    assert_eq!(imap.fetch_folder_selected("INBOX", None), FolderStep::Nothing);
    assert_eq!(
        imap.fetch_from_single_folder("INBOX"),
        FolderStep::Select { expunge_first: false }
    );
    let mailbox = Mailbox { exists: 2, recent: 1, uid_validity: Some(4), uid_next: Some(14) };
    assert_eq!(imap.fetch_folder_selected("INBOX", Some(mailbox)), FolderStep::List);
    assert_eq!(imap.fetch_from_single_folder("INBOX"), FolderStep::List);
    imap.unsetup_handle();
    assert_eq!(imap.fetch_from_single_folder("INBOX"), FolderStep::Nothing);
}
