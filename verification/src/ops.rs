//! Operations on one message: mark as seen, move, delete; and emptying a
//! folder.
//!
//! Each operation on a message begins with the same preamble: a zero UID is
//! refused for good, a missing connection or a folder that cannot be
//! selected is a reason to try again later.

use crate::select::SelectStep;
use crate::state::{ConfigModel, Imap, ImapModel, ImapResult, Mailbox};
use crate::text::{same_text, to_decimal};
use vstd::prelude::*;
use vstd::string::StringExecFns;

verus! {

/// What to ask for of a message that is only looked at.
pub const PREFETCH_FLAGS: &'static str = "(UID ENVELOPE)";

/// What to ask for of a message that is downloaded.
pub const BODY_FLAGS: &'static str = "(FLAGS BODY.PEEK[])";

/// The UID set that holds every message of a folder.
pub const SELECT_ALL: &'static str = "1:*";

/// The flag that marks a message as read.
pub const FLAG_SEEN: &'static str = "\\Seen";

/// The flag that marks a message for the next expunge.
pub const FLAG_DELETED: &'static str = "\\Deleted";

/// Where an operation on a message stands.
#[derive(Clone, Copy, Debug, PartialEq, Eq, Structural)]
pub enum OpStep {
    /// The operation has ended with this result.
    Done(ImapResult),
    /// Not connected: connect to the inbox, then call `prepare_connected`.
    Connect,
    /// Send SELECT for the folder (after a CLOSE, with `expunge_first`), then
    /// call `prepare_selected`.
    Select { expunge_first: bool },
    /// Connected, folder selected: go on with the operation itself.
    Prepared,
}

/// What `add_flag_finalized` decides.
#[derive(Clone, Copy, Debug, PartialEq, Eq, Structural)]
pub enum FlagStep {
    /// Nothing to send; the flag counts as set.
    Skip,
    /// A reconnect is due: nothing is sent, and the flag may be tried again.
    Retry,
    /// Send the STORE once; whatever comes of it, the flag counts as set.
    Store,
}

/// End of an operation that sets a flag.
#[derive(Clone, Copy, Debug, PartialEq, Eq, Structural)]
pub struct Flagged {
    pub result: ImapResult,
    /// Whether the caller has to send the STORE for the message.
    pub store: bool,
}

/// Where a move stands after the server's answer to MOVE.
#[derive(Clone, Copy, Debug, PartialEq, Eq, Structural)]
pub enum MvStep {
    Done(ImapResult),
    /// MOVE failed: send COPY, then call `mv_copied`.
    Copy,
}

/// The server's answer when the envelope of one message was asked for.
#[derive(Clone, Debug)]
pub enum EnvelopeReply {
    /// The command failed.
    Failed,
    /// The server knows no message of that UID.
    Missing,
    /// The message exists; this is its message-id ("" if it has none that
    /// can be read).
    Found(String),
}

/// End of a deletion.
#[derive(Clone, Copy, Debug, PartialEq, Eq, Structural)]
pub struct Deleted {
    pub result: ImapResult,
    /// Whether the caller has to send the STORE that flags the message.
    pub store: bool,
    /// Whether the server's message-id differs from the expected one.
    pub mismatch: bool,
}

/// Where emptying a folder stands.
#[derive(Clone, Copy, Debug, PartialEq, Eq, Structural)]
pub enum EmptyStep {
    /// The folder cannot be emptied now.
    Abort,
    /// Send SELECT for the folder (after a CLOSE, with `expunge_first`), then
    /// call `empty_folder_selected`.
    Select { expunge_first: bool },
    /// Flag every message as deleted, then expunge.
    FlagAll,
}

/// Whether a flag counts as set after the step.
pub open spec fn finalized(step: FlagStep) -> bool {
    step != FlagStep::Retry
}

/// The preamble's answer to what selecting gave.
pub open spec fn after_select(step: SelectStep) -> OpStep {
    match step {
        SelectStep::Done(true) => OpStep::Prepared,
        SelectStep::Done(false) => OpStep::Done(ImapResult::RetryLater),
        SelectStep::Select { expunge_first } => OpStep::Select { expunge_first },
    }
}

impl ImapModel {
    /// The expunge-pending mark set.
    pub open spec fn needing_expunge(self) -> ImapModel {
        ImapModel {
            config: ConfigModel { selected_folder_needs_expunge: true, ..self.config },
            ..self
        }
    }

    /// The decision on setting a flag on one message.
    pub open spec fn flag_step(self, server_uid: u32) -> FlagStep {
        if server_uid == 0 {
            FlagStep::Skip
        } else if self.should_reconnect {
            FlagStep::Retry
        } else {
            FlagStep::Store
        }
    }

    /// First step of the preamble.
    pub open spec fn prepare(self, folder: Seq<char>, uid: u32) -> (ImapModel, OpStep) {
        if uid == 0 {
            (self, OpStep::Done(ImapResult::Failed))
        } else if !self.connected {
            (self, OpStep::Connect)
        } else {
            (self.select(folder).0, after_select(self.select(folder).1))
        }
    }

    /// The preamble after the caller's attempt to connect.
    pub open spec fn prepare_connected(self, folder: Seq<char>) -> (ImapModel, OpStep) {
        if !self.connected {
            (self, OpStep::Done(ImapResult::RetryLater))
        } else {
            (self.select(folder).0, after_select(self.select(folder).1))
        }
    }

    /// The preamble after the server's answer to SELECT.
    pub open spec fn prepare_selected(self, folder: Seq<char>, reply: Option<Mailbox>) -> (
        ImapModel,
        OpStep,
    ) {
        (
            self.selected(folder, reply).0,
            if reply is Some {
                OpStep::Prepared
            } else {
                OpStep::Done(ImapResult::RetryLater)
            },
        )
    }

    /// End of marking a message as seen.
    pub open spec fn seen(self, uid: u32) -> Flagged {
        match self.flag_step(uid) {
            FlagStep::Skip => Flagged { result: ImapResult::Success, store: false },
            FlagStep::Retry => Flagged { result: ImapResult::Failed, store: false },
            FlagStep::Store => Flagged { result: ImapResult::Success, store: true },
        }
    }

    /// First step of a move.
    pub open spec fn mv(self, folder: Seq<char>, uid: u32, dest_folder: Seq<char>) -> (
        ImapModel,
        OpStep,
    ) {
        if folder == dest_folder {
            (self, OpStep::Done(ImapResult::AlreadyDone))
        } else {
            self.prepare(folder, uid)
        }
    }

    /// End of a move that fell back to COPY.
    pub open spec fn mv_copied(self, uid: u32, copied: bool) -> (ImapModel, Flagged) {
        if !copied || self.flag_step(uid) == FlagStep::Retry {
            (self, Flagged { result: ImapResult::Failed, store: false })
        } else {
            (
                self.needing_expunge(),
                Flagged { result: ImapResult::Success, store: self.flag_step(uid) == FlagStep::Store },
            )
        }
    }

    /// End of a deletion, with the UID that is left to the caller.
    pub open spec fn deleted(self, message_id: Seq<char>, uid: u32, reply: EnvelopeReply) -> (
        ImapModel,
        Deleted,
        u32,
    ) {
        match reply {
            EnvelopeReply::Missing => (
                self,
                Deleted { result: ImapResult::Failed, store: false, mismatch: false },
                uid,
            ),
            EnvelopeReply::Failed => (
                self.needing_expunge(),
                Deleted { result: ImapResult::Success, store: false, mismatch: false },
                0,
            ),
            EnvelopeReply::Found(remote) => if self.flag_step(uid) == FlagStep::Retry {
                (
                    self,
                    Deleted { result: ImapResult::Failed, store: false, mismatch: remote@ != message_id },
                    0,
                )
            } else {
                (
                    self.needing_expunge(),
                    Deleted {
                        result: ImapResult::Success,
                        store: self.flag_step(uid) == FlagStep::Store,
                        mismatch: remote@ != message_id,
                    },
                    0,
                )
            },
        }
    }

    /// What emptying does once the folder is selected.
    pub open spec fn empty_selected(self) -> EmptyStep {
        if self.should_reconnect {
            EmptyStep::Abort
        } else {
            EmptyStep::FlagAll
        }
    }

    /// First step of emptying `folder`.
    pub open spec fn empty(self, folder: Seq<char>) -> (ImapModel, EmptyStep) {
        if folder.len() == 0 {
            (self, EmptyStep::Abort)
        } else {
            (
                self.select(folder).0,
                match self.select(folder).1 {
                    SelectStep::Done(false) => EmptyStep::Abort,
                    SelectStep::Done(true) => self.select(folder).0.empty_selected(),
                    SelectStep::Select { expunge_first } => EmptyStep::Select { expunge_first },
                },
            )
        }
    }

    /// Emptying after the server's answer to SELECT.
    pub open spec fn empty_after_select(self, folder: Seq<char>, reply: Option<Mailbox>) -> (
        ImapModel,
        EmptyStep,
    ) {
        (
            self.selected(folder, reply).0,
            if reply is Some {
                self.selected(folder, reply).0.empty_selected()
            } else {
                EmptyStep::Abort
            },
        )
    }
}

/// The UID set that holds the one message `uid`: its decimal notation.
pub fn uid_set(uid: u32) -> (set: String)
    ensures
        set@ == crate::text::decimal(uid as nat),
{
    to_decimal(uid as u64)
}

/// The STORE query that adds `flag`.
pub fn add_flag_query(flag: &str) -> (query: String)
    ensures
        query@ == "+FLAGS ("@ + flag@ + ")"@,
{
    let mut query = String::from_str("+FLAGS (");
    query.append(flag);
    query.append(")");
    query
}

impl Imap {
    fn after_select_folder(&mut self, folder: &str) -> (step: OpStep)
        ensures
            final(self)@ == old(self)@.select(folder@).0,
            step == after_select(old(self)@.select(folder@).1),
    {
        match self.select_folder(folder) {
            SelectStep::Done(true) => OpStep::Prepared,
            SelectStep::Done(false) => OpStep::Done(ImapResult::RetryLater),
            SelectStep::Select { expunge_first } => OpStep::Select { expunge_first },
        }
    }

    /// Starts the preamble of an operation on message `uid` of `folder`. A
    /// zero UID fails for good. An engine that is not connected sends the
    /// caller to connect. Otherwise the folder is selected.
    pub fn prepare_imap_operation_on_msg(&mut self, folder: &str, uid: u32) -> (step: OpStep)
        ensures
            (final(self)@, step) == old(self)@.prepare(folder@, uid),
            uid == 0 ==> step == OpStep::Done(ImapResult::Failed) && final(self)@ == old(self)@,
            step is Done ==> step != OpStep::Done(ImapResult::Success) && step != OpStep::Done(
                ImapResult::AlreadyDone,
            ),
    {
        if uid == 0 {
            OpStep::Done(ImapResult::Failed)
        } else if !self.connected {
            OpStep::Connect
        } else {
            self.after_select_folder(folder)
        }
    }

    /// Goes on with the preamble after the caller tried to connect: still
    /// not connected means to try again later.
    pub fn prepare_connected(&mut self, folder: &str) -> (step: OpStep)
        ensures
            (final(self)@, step) == old(self)@.prepare_connected(folder@),
            !old(self)@.connected ==> step == OpStep::Done(ImapResult::RetryLater),
            step != OpStep::Connect,
    {
        if !self.connected {
            OpStep::Done(ImapResult::RetryLater)
        } else {
            self.after_select_folder(folder)
        }
    }

    /// Ends the preamble with the server's answer to SELECT: a folder that
    /// cannot be selected means to try again later.
    pub fn prepare_selected(&mut self, folder: &str, reply: Option<Mailbox>) -> (step: OpStep)
        ensures
            (final(self)@, step) == old(self)@.prepare_selected(folder@, reply),
    {
        if self.select_folder_finish(folder, reply) {
            OpStep::Prepared
        } else {
            OpStep::Done(ImapResult::RetryLater)
        }
    }

    /// Decides on setting a flag on message `server_uid`. UID zero is no
    /// message: nothing is sent and nothing is tried again.
    pub fn add_flag_finalized(&self, server_uid: u32) -> (step: FlagStep)
        ensures
            step == self@.flag_step(server_uid),
    {
        if server_uid == 0 {
            FlagStep::Skip
        } else {
            self.add_flag_finalized_with_set()
        }
    }

    /// Decides on setting a flag on a set of messages: while a reconnect is
    /// due nothing is sent; otherwise the STORE is sent once and its outcome
    /// is final.
    pub fn add_flag_finalized_with_set(&self) -> (step: FlagStep)
        ensures
            step == (if self@.should_reconnect {
                FlagStep::Retry
            } else {
                FlagStep::Store
            }),
    {
        if self.should_reconnect {
            FlagStep::Retry
        } else {
            FlagStep::Store
        }
    }

    /// Starts marking message `uid` of `folder` as seen: the preamble.
    pub fn set_seen(&mut self, folder: &str, uid: u32) -> (step: OpStep)
        ensures
            (final(self)@, step) == old(self)@.prepare(folder@, uid),
    {
        self.prepare_imap_operation_on_msg(folder, uid)
    }

    /// Ends marking message `uid` as seen, once the preamble has passed.
    pub fn set_seen_prepared(&self, uid: u32) -> (end: Flagged)
        ensures
            end == self@.seen(uid),
    {
        match self.add_flag_finalized(uid) {
            FlagStep::Skip => Flagged { result: ImapResult::Success, store: false },
            FlagStep::Retry => Flagged { result: ImapResult::Failed, store: false },
            FlagStep::Store => Flagged { result: ImapResult::Success, store: true },
        }
    }

    /// Starts moving message `uid` from `folder` to `dest_folder`. A move
    /// into the folder where the message is has nothing to do: no command is
    /// asked for and nothing changes. Otherwise the preamble runs.
    pub fn mv(&mut self, folder: &str, uid: u32, dest_folder: &str) -> (step: OpStep)
        ensures
            (final(self)@, step) == old(self)@.mv(folder@, uid, dest_folder@),
            folder@ == dest_folder@ ==> step == OpStep::Done(ImapResult::AlreadyDone)
                && final(self)@ == old(self)@,
    {
        if same_text(folder, dest_folder) {
            return OpStep::Done(ImapResult::AlreadyDone);
        }
        self.prepare_imap_operation_on_msg(folder, uid)
    }

    /// Goes on with a move once the preamble has passed: the server gives no
    /// UID for the moved message, so the destination UID is zero. The caller
    /// then sends MOVE.
    pub fn mv_prepared(&self, dest_uid: &mut u32)
        ensures
            *final(dest_uid) == 0,
    {
        *dest_uid = 0;
    }

    /// Takes the server's answer to MOVE: success ends the move, failure
    /// falls back to COPY.
    pub fn mv_moved(&self, moved: bool) -> (step: MvStep)
        ensures
            step == (if moved {
                MvStep::Done(ImapResult::Success)
            } else {
                MvStep::Copy
            }),
    {
        if moved {
            MvStep::Done(ImapResult::Success)
        } else {
            MvStep::Copy
        }
    }

    /// Takes the server's answer to COPY. A failed copy fails the move. After
    /// a copy the message left behind is flagged as deleted and the folder is marked for
    /// an expunge at the next selection; if the flag cannot be set now, the
    /// move fails.
    pub fn mv_copied(&mut self, uid: u32, copied: bool) -> (end: Flagged)
        ensures
            (final(self)@, end) == old(self)@.mv_copied(uid, copied),
    {
        if !copied {
            return Flagged { result: ImapResult::Failed, store: false };
        }
        match self.add_flag_finalized(uid) {
            FlagStep::Retry => Flagged { result: ImapResult::Failed, store: false },
            FlagStep::Skip => {
                self.config.selected_folder_needs_expunge = true;
                Flagged { result: ImapResult::Success, store: false }
            },
            FlagStep::Store => {
                self.config.selected_folder_needs_expunge = true;
                Flagged { result: ImapResult::Success, store: true }
            },
        }
    }

    /// Starts deleting message `uid` of `folder`: the preamble. Once it has
    /// passed, the caller asks for the envelope of `uid` and calls
    /// `delete_msg_fetched`.
    pub fn delete_msg(&mut self, folder: &str, uid: u32) -> (step: OpStep)
        ensures
            (final(self)@, step) == old(self)@.prepare(folder@, uid),
    {
        self.prepare_imap_operation_on_msg(folder, uid)
    }

    /// Ends a deletion with the envelope that the server gave for `uid`. A
    /// message that is gone fails the deletion. A message-id other than the
    /// expected one is reported and the message is flagged all the same. If
    /// the envelope could not be had, nothing is flagged and the deletion
    /// counts as done. Where the deletion goes on, `uid` is zero afterwards.
    pub fn delete_msg_fetched(&mut self, message_id: &str, uid: &mut u32, reply: &EnvelopeReply) -> (end:
        Deleted)
        ensures
            (final(self)@, end, *final(uid)) == old(self)@.deleted(message_id@, *old(uid), *reply),
    {
        let target: u32 = *uid;
        match reply {
            EnvelopeReply::Missing => Deleted {
                result: ImapResult::Failed,
                store: false,
                mismatch: false,
            },
            EnvelopeReply::Failed => {
                *uid = 0;
                self.config.selected_folder_needs_expunge = true;
                Deleted { result: ImapResult::Success, store: false, mismatch: false }
            },
            EnvelopeReply::Found(remote) => {
                let mismatch = !same_text(remote.as_str(), message_id);
                *uid = 0;
                match self.add_flag_finalized(target) {
                    FlagStep::Retry => Deleted { result: ImapResult::Failed, store: false, mismatch },
                    FlagStep::Skip => {
                        self.config.selected_folder_needs_expunge = true;
                        Deleted { result: ImapResult::Success, store: false, mismatch }
                    },
                    FlagStep::Store => {
                        self.config.selected_folder_needs_expunge = true;
                        Deleted { result: ImapResult::Success, store: true, mismatch }
                    },
                }
            },
        }
    }

    /// Starts emptying `folder`. A folder without a name, or one that cannot
    /// be selected, is left alone.
    pub fn empty_folder(&mut self, folder: &str) -> (step: EmptyStep)
        ensures
            (final(self)@, step) == old(self)@.empty(folder@),
    {
        if folder.is_empty() {
            return EmptyStep::Abort;
        }
        match self.select_folder(folder) {
            SelectStep::Done(false) => EmptyStep::Abort,
            SelectStep::Done(true) => self.empty_folder_flag(),
            SelectStep::Select { expunge_first } => EmptyStep::Select { expunge_first },
        }
    }

    /// Goes on with emptying after the server's answer to SELECT.
    pub fn empty_folder_selected(&mut self, folder: &str, reply: Option<Mailbox>) -> (step:
        EmptyStep)
        ensures
            (final(self)@, step) == old(self)@.empty_after_select(folder@, reply),
    {
        if self.select_folder_finish(folder, reply) {
            self.empty_folder_flag()
        } else {
            EmptyStep::Abort
        }
    }

    fn empty_folder_flag(&self) -> (step: EmptyStep)
        ensures
            step == self@.empty_selected(),
    {
        match self.add_flag_finalized_with_set() {
            FlagStep::Retry => EmptyStep::Abort,
            _ => EmptyStep::FlagAll,
        }
    }
}

/// Whether the folder counts as emptied: `closed` is the outcome of the
/// CLOSE, or `None` where no folder was selected and none was sent.
pub fn folder_emptied(closed: Option<bool>) -> (emptied: bool)
    ensures
        emptied == (closed != Some(false)),
{
    match closed {
        Some(ok) => ok,
        None => true,
    }
}

/// A move into the folder where the message is ends at once as already done,
/// whatever the state and the UID, and leaves the state as it was.
pub proof fn mv_within_a_folder_is_already_done(s: ImapModel, folder: Seq<char>, uid: u32)
    ensures
        s.mv(folder, uid, folder) == (s, OpStep::Done(ImapResult::AlreadyDone)),
{
}

/// The preamble refuses a zero UID for good, before it looks at the
/// connection.
pub proof fn zero_uid_fails(s: ImapModel, folder: Seq<char>, dest_folder: Seq<char>)
    requires
        folder != dest_folder,
    ensures
        s.prepare(folder, 0) == (s, OpStep::Done(ImapResult::Failed)),
        s.mv(folder, 0, dest_folder) == (s, OpStep::Done(ImapResult::Failed)),
{
}

/// The preamble never ends an operation with success: it either refuses, asks
/// for more, or lets the operation go on.
pub proof fn preamble_never_succeeds(
    s: ImapModel,
    folder: Seq<char>,
    uid: u32,
    reply: Option<Mailbox>,
)
    ensures
        s.prepare(folder, uid).1 is Done ==> s.prepare(folder, uid).1 == OpStep::Done(
            ImapResult::Failed,
        ) || s.prepare(folder, uid).1 == OpStep::Done(ImapResult::RetryLater),
        s.prepare_connected(folder).1 is Done ==> s.prepare_connected(folder).1 == OpStep::Done(
            ImapResult::RetryLater,
        ),
        s.prepare_selected(folder, reply).1 is Done ==> s.prepare_selected(folder, reply).1
            == OpStep::Done(ImapResult::RetryLater),
{
}

/// A request to reconnect is not lost by any operation on folders or
/// messages, and while it stands no flag is stored.
pub proof fn reconnect_request_is_kept(
    s: ImapModel,
    folder: Seq<char>,
    uid: u32,
    reply: Option<Mailbox>,
    copied: bool,
    message_id: Seq<char>,
    envelope: EnvelopeReply,
)
    requires
        s.should_reconnect,
    ensures
        s.select(folder).0.should_reconnect,
        s.selected(folder, reply).0.should_reconnect,
        s.prepare(folder, uid).0.should_reconnect,
        s.prepare_connected(folder).0.should_reconnect,
        s.prepare_selected(folder, reply).0.should_reconnect,
        s.mv_copied(uid, copied).0.should_reconnect,
        s.deleted(message_id, uid, envelope).0.should_reconnect,
        s.empty(folder).0.should_reconnect,
        s.flag_step(uid) != FlagStep::Store,
        !s.seen(uid).store,
        !s.mv_copied(uid, copied).1.store,
        !s.deleted(message_id, uid, envelope).1.store,
        s.empty_selected() == EmptyStep::Abort,
{
}

/// A folder that cannot be selected asks for a reconnect and does nothing
/// else to the connection: the session stays as it was, and the engine stays
/// connected.
pub proof fn failed_select_only_asks_for_reconnect(s: ImapModel, folder: Seq<char>)
    ensures
        s.selected(folder, None).0.should_reconnect,
        s.selected(folder, None).0.session_open == s.session_open,
        s.selected(folder, None).0.connected == s.connected,
        s.selected(folder, None).0.config.selected_folder is None,
{
}

/// A deletion or a copied move that succeeds leaves the folder marked for an
/// expunge, which the next selection of another folder carries out.
pub proof fn deletions_are_expunged_at_the_next_selection(
    s: ImapModel,
    uid: u32,
    other: Seq<char>,
)
    requires
        s.session_open,
        s.config.selected_folder is Some,
        s.config.selected_folder != Some(other),
        !s.should_reconnect,
    ensures
        s.mv_copied(uid, true).1.result == ImapResult::Success,
        s.mv_copied(uid, true).0.select(other).1 == (SelectStep::Select { expunge_first: true }),
        !s.mv_copied(uid, true).0.select(other).0.config.selected_folder_needs_expunge,
{
}

} // verus!
