//! The state that every operation shares: the stored connection parameters,
//! the selected folder, and the flags that say whether a session is open.

use vstd::prelude::*;

verus! {

/// Outcome of an operation that changes a message on the server.
#[derive(Clone, Copy, Debug, PartialEq, Eq, Structural)]
pub enum ImapResult {
    /// Permanent failure: do not try again.
    Failed,
    /// Transient failure: try again later.
    RetryLater,
    /// Nothing had to be done.
    AlreadyDone,
    Success,
}

/// How strictly the server's certificate is checked.
#[derive(Clone, Copy, Debug, PartialEq, Eq, Structural)]
pub enum CertificateChecks {
    Automatic,
    Strict,
    AcceptInvalidHostnames,
    AcceptInvalidCertificates,
}

/// Server flag: authenticate with an OAuth2 bearer token.
pub const DC_LP_AUTH_OAUTH2: u32 = 0x2;

/// Server flag: connect in the clear, then upgrade with STARTTLS.
pub const DC_LP_IMAP_SOCKET_STARTTLS: u32 = 0x100;

/// Server flag: connect over TLS from the start.
pub const DC_LP_IMAP_SOCKET_SSL: u32 = 0x200;

/// Server flag: connect in the clear.
pub const DC_LP_IMAP_SOCKET_PLAIN: u32 = 0x400;

/// What the caller hands to `connect`.
#[derive(Clone, Debug)]
pub struct LoginParam {
    pub addr: String,
    pub mail_server: String,
    pub mail_user: String,
    pub mail_pw: String,
    pub mail_port: u16,
    pub imap_certificate_checks: CertificateChecks,
    pub server_flags: u32,
}

/// What the server reported of a folder when it was selected.
#[derive(Clone, Copy, Debug)]
pub struct Mailbox {
    pub exists: u32,
    pub recent: u32,
    pub uid_validity: Option<u32>,
    pub uid_next: Option<u32>,
}

/// Connection parameters and what is known of the selected folder.
#[derive(Clone, Debug)]
pub struct ImapConfig {
    pub addr: String,
    pub imap_server: String,
    pub imap_port: u16,
    pub imap_user: String,
    pub imap_pw: String,
    pub certificate_checks: CertificateChecks,
    pub server_flags: u32,
    pub selected_folder: Option<String>,
    pub selected_mailbox: Option<Mailbox>,
    pub selected_folder_needs_expunge: bool,
    pub can_idle: bool,
    pub has_xlist: bool,
    pub imap_delimiter: char,
    pub watch_folder: Option<String>,
}

/// The engine's state. The session and the transport under it are opened and
/// closed together, so one flag stands for both.
#[derive(Debug)]
pub struct Imap {
    pub config: ImapConfig,
    /// Set by the idle worker when it ends and by `interrupt_idle`; cleared
    /// by whoever was woken.
    pub watch: bool,
    pub session_open: bool,
    pub connected: bool,
    pub should_reconnect: bool,
}

/// Mathematical form of `ImapConfig`.
pub struct ConfigModel {
    pub addr: Seq<char>,
    pub imap_server: Seq<char>,
    pub imap_port: u16,
    pub imap_user: Seq<char>,
    pub imap_pw: Seq<char>,
    pub certificate_checks: CertificateChecks,
    pub server_flags: u32,
    pub selected_folder: Option<Seq<char>>,
    pub selected_mailbox: Option<Mailbox>,
    pub selected_folder_needs_expunge: bool,
    pub can_idle: bool,
    pub has_xlist: bool,
    pub imap_delimiter: char,
    pub watch_folder: Option<Seq<char>>,
}

/// Mathematical form of `Imap`.
pub struct ImapModel {
    pub config: ConfigModel,
    pub watch: bool,
    pub session_open: bool,
    pub connected: bool,
    pub should_reconnect: bool,
}

/// The characters of an optional text.
pub open spec fn opt_text(o: Option<String>) -> Option<Seq<char>> {
    match o {
        Some(s) => Some(s@),
        None => None,
    }
}

impl View for ImapConfig {
    type V = ConfigModel;

    open spec fn view(&self) -> ConfigModel {
        ConfigModel {
            addr: self.addr@,
            imap_server: self.imap_server@,
            imap_port: self.imap_port,
            imap_user: self.imap_user@,
            imap_pw: self.imap_pw@,
            certificate_checks: self.certificate_checks,
            server_flags: self.server_flags,
            selected_folder: opt_text(self.selected_folder),
            selected_mailbox: self.selected_mailbox,
            selected_folder_needs_expunge: self.selected_folder_needs_expunge,
            can_idle: self.can_idle,
            has_xlist: self.has_xlist,
            imap_delimiter: self.imap_delimiter,
            watch_folder: opt_text(self.watch_folder),
        }
    }
}

impl View for Imap {
    type V = ImapModel;

    open spec fn view(&self) -> ImapModel {
        ImapModel {
            config: self.config@,
            watch: self.watch,
            session_open: self.session_open,
            connected: self.connected,
            should_reconnect: self.should_reconnect,
        }
    }
}

impl ConfigModel {
    /// The configuration of a fresh engine.
    pub open spec fn initial() -> ConfigModel {
        ConfigModel {
            addr: Seq::empty(),
            imap_server: Seq::empty(),
            imap_port: 0,
            imap_user: Seq::empty(),
            imap_pw: Seq::empty(),
            certificate_checks: CertificateChecks::Automatic,
            server_flags: 0,
            selected_folder: None,
            selected_mailbox: None,
            selected_folder_needs_expunge: false,
            can_idle: false,
            has_xlist: false,
            imap_delimiter: '.',
            watch_folder: None,
        }
    }
}

impl ImapModel {
    /// The state of a fresh engine: nothing stored, nothing open.
    pub open spec fn initial() -> ImapModel {
        ImapModel {
            config: ConfigModel::initial(),
            watch: false,
            session_open: false,
            connected: false,
            should_reconnect: false,
        }
    }
}

/// The name of a result, as it is written in logs.
pub open spec fn result_name(result: ImapResult) -> Seq<char> {
    match result {
        ImapResult::Failed => "Failed"@,
        ImapResult::RetryLater => "RetryLater"@,
        ImapResult::AlreadyDone => "AlreadyDone"@,
        ImapResult::Success => "Success"@,
    }
}

impl ImapResult {
    /// The name of the result, as it is written in logs.
    pub fn name(&self) -> (r: &'static str)
        ensures
            r@ == result_name(*self),
    {
        match self {
            ImapResult::Failed => "Failed",
            ImapResult::RetryLater => "RetryLater",
            ImapResult::AlreadyDone => "AlreadyDone",
            ImapResult::Success => "Success",
        }
    }
}

impl Default for CertificateChecks {
    fn default() -> (r: CertificateChecks)
        ensures
            r == CertificateChecks::Automatic,
    {
        CertificateChecks::Automatic
    }
}

impl Default for ImapConfig {
    fn default() -> (r: ImapConfig)
        ensures
            r@ == ConfigModel::initial(),
    {
        ImapConfig {
            addr: String::new(),
            imap_server: String::new(),
            imap_port: 0,
            imap_user: String::new(),
            imap_pw: String::new(),
            certificate_checks: CertificateChecks::Automatic,
            server_flags: 0,
            selected_folder: None,
            selected_mailbox: None,
            selected_folder_needs_expunge: false,
            can_idle: false,
            has_xlist: false,
            imap_delimiter: '.',
            watch_folder: None,
        }
    }
}

impl Imap {
    /// A fresh engine: nothing stored, nothing open.
    pub fn new() -> (r: Imap)
        ensures
            r@ == ImapModel::initial(),
    {
        Imap {
            config: ImapConfig::default(),
            watch: false,
            session_open: false,
            connected: false,
            should_reconnect: false,
        }
    }

    /// Whether `connect` has succeeded and `disconnect` has not been called
    /// since.
    pub fn is_connected(&self) -> (r: bool)
        ensures
            r == self@.connected,
    {
        self.connected
    }

    /// Whether some operation found the transport broken, so that the next
    /// setup tears down and connects again.
    pub fn should_reconnect(&self) -> (r: bool)
        ensures
            r == self@.should_reconnect,
    {
        self.should_reconnect
    }

    /// Names the folder that `fetch` and `idle` watch.
    pub fn set_watch_folder(&mut self, watch_folder: String)
        ensures
            final(self)@ == (ImapModel {
                config: ConfigModel { watch_folder: Some(watch_folder@), ..old(self)@.config },
                ..old(self)@
            }),
    {
        self.config.watch_folder = Some(watch_folder);
    }
}

} // verus!
