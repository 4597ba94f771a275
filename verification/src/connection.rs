//! Connecting, tearing down and the lazy reconnect.
//!
//! Opening a transport, authenticating and asking for capabilities are the
//! caller's work. `connect` and `setup_handle_if_needed` say what to open
//! and how; `setup_handle_finish` and `connect_capabilities` take what came
//! of it.

use crate::state::{
    ConfigModel, Imap, ImapModel, LoginParam, DC_LP_AUTH_OAUTH2, DC_LP_IMAP_SOCKET_PLAIN,
    DC_LP_IMAP_SOCKET_STARTTLS,
};
use vstd::prelude::*;
use vstd::string::StringExecFns;

verus! {

/// How the transport is opened.
#[derive(Clone, Copy, Debug, PartialEq, Eq, Structural)]
pub enum Transport {
    /// TLS from the first byte.
    Tls,
    /// In the clear, then upgraded with STARTTLS.
    StartTls,
    /// In the clear.
    Plain,
}

/// How the user is authenticated.
#[derive(Clone, Copy, Debug, PartialEq, Eq, Structural)]
pub enum AuthMethod {
    /// XOAUTH2 with a bearer token obtained for the stored address.
    OAuth2,
    /// LOGIN with the stored user and password.
    Password,
}

/// What the caller has to do to open a session with the stored parameters.
#[derive(Clone, Copy, Debug, PartialEq, Eq, Structural)]
pub struct ConnectPlan {
    /// Shut down the transport and close the session held so far, first.
    pub teardown: bool,
    pub transport: Transport,
    pub auth: AuthMethod,
}

/// Answer of `setup_handle_if_needed`.
#[derive(Clone, Copy, Debug, PartialEq, Eq, Structural)]
pub enum SetupStep {
    /// No server is stored: nothing can be set up.
    Unconfigured,
    /// A live session exists: nothing to do.
    Ready,
    /// Open a session as the plan says, then call `setup_handle_finish`.
    Open(ConnectPlan),
}

/// Answer of `connect`.
#[derive(Clone, Copy, Debug, PartialEq, Eq, Structural)]
pub enum ConnectStep {
    /// Decided without any network action; holds what `connect` returns.
    Done(bool),
    /// Open a session as the plan says, then call `connect_opened`.
    Open(ConnectPlan),
}

/// What came of opening a session.
#[derive(Clone, Copy, Debug, PartialEq, Eq, Structural)]
pub enum ConnectOutcome {
    /// The transport could not be opened or secured.
    ConnectFailed,
    /// No OAuth2 token could be obtained.
    NoToken,
    /// The server refused the credentials.
    LoginFailed,
    /// A session is open.
    LoggedIn,
}

/// Whether a step succeeded, and whether the caller has to shut down the
/// transport and close the session that were held before it.
#[derive(Clone, Copy, Debug, PartialEq, Eq, Structural)]
pub struct Settled {
    pub ok: bool,
    pub teardown: bool,
}

/// The transport that a set of server flags asks for.
pub open spec fn transport_for(flags: u32) -> Transport {
    if (flags & (DC_LP_IMAP_SOCKET_STARTTLS | DC_LP_IMAP_SOCKET_PLAIN)) != 0 {
        if (flags & DC_LP_IMAP_SOCKET_STARTTLS) != 0 {
            Transport::StartTls
        } else {
            Transport::Plain
        }
    } else {
        Transport::Tls
    }
}

/// The authentication that a set of server flags asks for.
pub open spec fn auth_for(flags: u32) -> AuthMethod {
    if (flags & DC_LP_AUTH_OAUTH2) != 0 {
        AuthMethod::OAuth2
    } else {
        AuthMethod::Password
    }
}

/// Whether one of the capability names is exactly `name`.
pub open spec fn lists_capability(caps: Seq<String>, name: Seq<char>) -> bool {
    exists|i: int| 0 <= i < caps.len() && (#[trigger] caps[i])@ == name
}

/// Whether the parameters name a server, a user and a password.
pub open spec fn usable(lp: LoginParam) -> bool {
    lp.mail_server@.len() > 0 && lp.mail_user@.len() > 0 && lp.mail_pw@.len() > 0
}

impl ImapModel {
    /// Session closed, no folder selected.
    pub open spec fn unsetup(self) -> ImapModel {
        ImapModel {
            session_open: false,
            config: ConfigModel { selected_folder: None, selected_mailbox: None, ..self.config },
            ..self
        }
    }

    /// Stored parameters, capabilities and watch folder forgotten.
    pub open spec fn free_params(self) -> ImapModel {
        ImapModel {
            config: ConfigModel {
                addr: Seq::empty(),
                imap_server: Seq::empty(),
                imap_user: Seq::empty(),
                imap_pw: Seq::empty(),
                imap_port: 0,
                can_idle: false,
                has_xlist: false,
                watch_folder: None,
                ..self.config
            },
            ..self
        }
    }

    /// The parameters of `lp` stored.
    pub open spec fn store_params(self, lp: LoginParam) -> ImapModel {
        ImapModel {
            config: ConfigModel {
                addr: lp.addr@,
                imap_server: lp.mail_server@,
                imap_port: lp.mail_port,
                imap_user: lp.mail_user@,
                imap_pw: lp.mail_pw@,
                certificate_checks: lp.imap_certificate_checks,
                server_flags: lp.server_flags,
                ..self.config
            },
            ..self
        }
    }

    /// The lazy reconnect: tear down if a reconnect is due, keep a live
    /// session, else plan a new one.
    pub open spec fn setup(self) -> (ImapModel, SetupStep) {
        if self.config.imap_server.len() == 0 {
            (self, SetupStep::Unconfigured)
        } else {
            let torn = if self.should_reconnect {
                self.unsetup()
            } else {
                self
            };
            if torn.connected && torn.session_open {
                (ImapModel { should_reconnect: false, ..torn }, SetupStep::Ready)
            } else {
                (
                    torn,
                    SetupStep::Open(
                        ConnectPlan {
                            teardown: self.should_reconnect && self.session_open,
                            transport: transport_for(self.config.server_flags),
                            auth: auth_for(self.config.server_flags),
                        },
                    ),
                )
            }
        }
    }

    /// What the outcome of opening a session does to the state.
    pub open spec fn setup_finish(self, outcome: ConnectOutcome) -> (ImapModel, Settled) {
        match outcome {
            ConnectOutcome::ConnectFailed | ConnectOutcome::NoToken => (
                self,
                Settled { ok: false, teardown: false },
            ),
            ConnectOutcome::LoginFailed => (
                ImapModel { should_reconnect: false, ..self }.unsetup(),
                Settled { ok: false, teardown: self.session_open },
            ),
            ConnectOutcome::LoggedIn => (
                ImapModel { should_reconnect: false, session_open: true, ..self },
                Settled { ok: true, teardown: false },
            ),
        }
    }

    /// First step of connecting.
    pub open spec fn connect(self, lp: LoginParam) -> (ImapModel, ConnectStep) {
        if !usable(lp) {
            (self, ConnectStep::Done(false))
        } else if self.connected {
            (self, ConnectStep::Done(true))
        } else {
            let (next, step) = self.store_params(lp).setup();
            match step {
                SetupStep::Open(plan) => (next, ConnectStep::Open(plan)),
                SetupStep::Ready => (next, ConnectStep::Done(true)),
                SetupStep::Unconfigured => (next.free_params(), ConnectStep::Done(false)),
            }
        }
    }

    /// Second step of connecting: a failed setup forgets the parameters.
    pub open spec fn connect_opened(self, outcome: ConnectOutcome) -> (ImapModel, Settled) {
        let (next, settled) = self.setup_finish(outcome);
        if settled.ok {
            (next, settled)
        } else {
            (next.free_params(), settled)
        }
    }

    /// Last step of connecting: with a session, a capability list and an
    /// open store the engine is connected; else everything is torn down.
    pub open spec fn connect_capabilities(self, caps: Option<Vec<String>>, store_open: bool) -> (
        ImapModel,
        Settled,
    ) {
        if self.session_open && caps is Some && store_open {
            (
                ImapModel {
                    connected: true,
                    config: ConfigModel {
                        can_idle: lists_capability(caps->0@, "IDLE"@),
                        has_xlist: lists_capability(caps->0@, "XLIST"@),
                        ..self.config
                    },
                    ..self
                },
                Settled { ok: true, teardown: false },
            )
        } else {
            (self.unsetup().free_params(), Settled { ok: false, teardown: self.session_open })
        }
    }

    /// Disconnecting: nothing unless connected.
    pub open spec fn disconnect(self) -> (ImapModel, bool) {
        if self.connected {
            (ImapModel { connected: false, ..self.unsetup().free_params() }, self.session_open)
        } else {
            (self, false)
        }
    }
}

/// The answer to an XOAUTH2 challenge: user and bearer token, each closed by
/// the byte 1, and one more byte 1 at the end.
pub fn oauth2_response(user: &str, access_token: &str) -> (response: String)
    ensures
        response@ == "user="@ + user@ + "\x01auth=Bearer "@ + access_token@ + "\x01\x01"@,
{
    let mut response = String::from_str("user=");
    response.append(user);
    response.append("\x01auth=Bearer ");
    response.append(access_token);
    response.append("\x01\x01");
    response
}

/// Whether one of the capability names is exactly `name`.
pub fn has_capability(caps: &Vec<String>, name: &str) -> (r: bool)
    ensures
        r == lists_capability(caps@, name@),
{
    let mut i: usize = 0;
    while i < caps.len()
        invariant
            i <= caps.len(),
            forall|j: int| 0 <= j < i ==> (#[trigger] caps[j])@ != name@,
        decreases caps.len() - i,
    {
        if crate::text::same_text(caps[i].as_str(), name) {
            return true;
        }
        i += 1;
    }
    false
}

impl Imap {
    /// Forgets the session and the selected folder. Returns whether a session
    /// was open, which the caller then shuts down and closes.
    pub fn unsetup_handle(&mut self) -> (teardown: bool)
        ensures
            final(self)@ == old(self)@.unsetup(),
            teardown == old(self)@.session_open,
    {
        let teardown = self.session_open;
        self.session_open = false;
        self.config.selected_folder = None;
        self.config.selected_mailbox = None;
        teardown
    }

    /// Forgets the stored parameters, the capabilities and the watch folder.
    pub fn free_connect_params(&mut self)
        ensures
            final(self)@ == old(self)@.free_params(),
    {
        self.config.addr = String::new();
        self.config.imap_server = String::new();
        self.config.imap_user = String::new();
        self.config.imap_pw = String::new();
        self.config.imap_port = 0;
        self.config.can_idle = false;
        self.config.has_xlist = false;
        self.config.watch_folder = None;
    }

    /// The one place where a reconnect is decided. Without a stored server
    /// nothing happens. If a reconnect is due, the old session is torn down
    /// first. A connected engine with a live session is `Ready` and the
    /// reconnect request is cleared; otherwise the caller opens a session as
    /// the plan says.
    pub fn setup_handle_if_needed(&mut self) -> (step: SetupStep)
        ensures
            (final(self)@, step) == old(self)@.setup(),
    {
        if self.config.imap_server.as_str().is_empty() {
            return SetupStep::Unconfigured;
        }
        let mut teardown = false;
        if self.should_reconnect {
            teardown = self.unsetup_handle();
        }
        if self.connected && self.session_open {
            self.should_reconnect = false;
            return SetupStep::Ready;
        }
        let flags: u32 = self.config.server_flags;
        let transport = if (flags & (DC_LP_IMAP_SOCKET_STARTTLS | DC_LP_IMAP_SOCKET_PLAIN)) != 0 {
            if (flags & DC_LP_IMAP_SOCKET_STARTTLS) != 0 {
                Transport::StartTls
            } else {
                Transport::Plain
            }
        } else {
            Transport::Tls
        };
        let auth = if (flags & DC_LP_AUTH_OAUTH2) != 0 {
            AuthMethod::OAuth2
        } else {
            AuthMethod::Password
        };
        SetupStep::Open(ConnectPlan { teardown, transport, auth })
    }

    /// Takes what came of opening a session. A transport failure or a missing
    /// token leaves the state alone. A refused login clears the reconnect
    /// request and tears down. A login stores the session.
    pub fn setup_handle_finish(&mut self, outcome: ConnectOutcome) -> (settled: Settled)
        ensures
            (final(self)@, settled) == old(self)@.setup_finish(outcome),
    {
        match outcome {
            ConnectOutcome::ConnectFailed => Settled { ok: false, teardown: false },
            ConnectOutcome::NoToken => Settled { ok: false, teardown: false },
            ConnectOutcome::LoginFailed => {
                self.should_reconnect = false;
                let teardown = self.unsetup_handle();
                Settled { ok: false, teardown }
            },
            ConnectOutcome::LoggedIn => {
                self.should_reconnect = false;
                self.session_open = true;
                Settled { ok: true, teardown: false }
            },
        }
    }

    /// Starts connecting. Parameters without server, user or password are
    /// refused. A connected engine answers success at once and changes
    /// nothing. Otherwise the parameters are stored and the caller is told
    /// what to open.
    pub fn connect(&mut self, lp: &LoginParam) -> (step: ConnectStep)
        ensures
            (final(self)@, step) == old(self)@.connect(*lp),
            !usable(*lp) ==> step == ConnectStep::Done(false) && final(self)@ == old(self)@,
            usable(*lp) && old(self)@.connected ==> step == ConnectStep::Done(true)
                && final(self)@ == old(self)@,
            usable(*lp) && !old(self)@.connected ==> step is Open,
    {
        if lp.mail_server.as_str().is_empty() || lp.mail_user.as_str().is_empty()
            || lp.mail_pw.as_str().is_empty() {
            return ConnectStep::Done(false);
        }
        if self.connected {
            return ConnectStep::Done(true);
        }
        self.config.addr = lp.addr.clone();
        self.config.imap_server = lp.mail_server.clone();
        self.config.imap_port = lp.mail_port;
        self.config.imap_user = lp.mail_user.clone();
        self.config.imap_pw = lp.mail_pw.clone();
        self.config.certificate_checks = lp.imap_certificate_checks;
        self.config.server_flags = lp.server_flags;
        match self.setup_handle_if_needed() {
            SetupStep::Open(plan) => ConnectStep::Open(plan),
            SetupStep::Ready => ConnectStep::Done(true),
            SetupStep::Unconfigured => {
                self.free_connect_params();
                ConnectStep::Done(false)
            },
        }
    }

    /// Takes what came of opening the session that `connect` asked for. On
    /// failure the stored parameters are forgotten, so that the next
    /// `connect` starts clean. On success the caller asks for the server's
    /// capabilities and calls `connect_capabilities`.
    pub fn connect_opened(&mut self, outcome: ConnectOutcome) -> (settled: Settled)
        ensures
            (final(self)@, settled) == old(self)@.connect_opened(outcome),
            settled.ok <==> outcome == ConnectOutcome::LoggedIn,
    {
        let settled = self.setup_handle_finish(outcome);
        if !settled.ok {
            self.free_connect_params();
        }
        settled
    }

    /// Ends connecting. `caps` is the server's capability list, or `None` if
    /// asking for it failed; `store_open` says whether the local store can
    /// take messages. With a session, a list and an open store the engine is
    /// connected and remembers whether IDLE and XLIST are offered. Otherwise
    /// session and parameters are dropped.
    pub fn connect_capabilities(&mut self, caps: Option<Vec<String>>, store_open: bool) -> (settled:
        Settled)
        ensures
            (final(self)@, settled) == old(self)@.connect_capabilities(caps, store_open),
            settled.ok <==> old(self)@.session_open && caps is Some && store_open,
            settled.ok ==> final(self)@.connected,
    {
        if self.session_open && store_open {
            if let Some(list) = caps {
                self.config.can_idle = has_capability(&list, "IDLE");
                self.config.has_xlist = has_capability(&list, "XLIST");
                self.connected = true;
                return Settled { ok: true, teardown: false };
            }
        }
        let teardown = self.unsetup_handle();
        self.free_connect_params();
        Settled { ok: false, teardown }
    }

    /// Disconnects a connected engine: session, selected folder and stored
    /// parameters are dropped. Returns whether the caller has a session to
    /// shut down. On an engine that is not connected nothing happens.
    pub fn disconnect(&mut self) -> (teardown: bool)
        ensures
            (final(self)@, teardown) == old(self)@.disconnect(),
            !final(self)@.connected,
    {
        if self.connected {
            let teardown = self.unsetup_handle();
            self.free_connect_params();
            self.connected = false;
            teardown
        } else {
            false
        }
    }
}

/// A connected engine answers every `connect` with usable parameters by
/// success, with the state unchanged and nothing to open, however often it is
/// asked.
pub proof fn connect_is_idempotent_while_connected(s: ImapModel, first: LoginParam, second: LoginParam)
    requires
        s.connected,
        usable(first),
        usable(second),
    ensures
        s.connect(first) == (s, ConnectStep::Done(true)),
        s.connect(first).0.connect(second) == (s, ConnectStep::Done(true)),
{
}

/// Once the three steps of connecting have succeeded, the engine is
/// connected, and a further `connect` succeeds without opening anything.
pub proof fn connect_after_connect_opens_nothing(
    s: ImapModel,
    lp: LoginParam,
    caps: Vec<String>,
    again: LoginParam,
)
    requires
        !s.connected,
        usable(lp),
        usable(again),
    ensures
        s.connect(lp).1 is Open,
        ({
            let opened = s.connect(lp).0.connect_opened(ConnectOutcome::LoggedIn);
            let ready = opened.0.connect_capabilities(Some(caps), true);
            &&& opened.1.ok
            &&& ready.1.ok
            &&& ready.0.connected
            &&& ready.0.connect(again) == (ready.0, ConnectStep::Done(true))
        }),
{
}

/// A failed connect leaves no parameters behind and no session open.
pub proof fn failed_connect_starts_clean(s: ImapModel, lp: LoginParam, outcome: ConnectOutcome)
    requires
        !s.connected,
        usable(lp),
        outcome != ConnectOutcome::LoggedIn,
    ensures
        ({
            let failed = s.connect(lp).0.connect_opened(outcome);
            &&& !failed.1.ok
            &&& failed.0.config.imap_server.len() == 0
            &&& failed.0.config.imap_user.len() == 0
            &&& failed.0.config.imap_pw.len() == 0
            &&& !failed.0.connected
        }),
{
}

/// Disconnecting twice is the same as disconnecting once.
pub proof fn disconnect_is_idempotent(s: ImapModel)
    ensures
        s.disconnect().0.disconnect() == (s.disconnect().0, false),
{
}

} // verus!
