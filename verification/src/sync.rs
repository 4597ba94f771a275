//! Incremental fetch: the per-folder cursor, the check of an envelope
//! against what is known already, and the account of one batch.

use crate::connection::{ConnectPlan, SetupStep};
use crate::select::SelectStep;
use crate::state::{Imap, ImapModel, Mailbox};
use crate::text::{decimal, parse_decimal, parse_u32, same_text, to_decimal};
use vstd::prelude::*;
use vstd::string::{StrSliceExecFns, StringExecFns};

verus! {

/// Bit of the flags handed to ingestion: the server holds the message as
/// seen.
pub const DC_IMAP_SEEN: u32 = 0x1;

/// How far a folder has been read: the UIDVALIDITY under which UIDs were
/// counted, and the largest UID seen.
#[derive(Clone, Copy, Debug, PartialEq, Eq, Structural)]
pub struct UidCursor {
    pub uid_validity: u32,
    pub last_seen_uid: u32,
}

/// What is recorded of a message that is known by its message-id.
#[derive(Clone, Debug)]
pub struct KnownMessage {
    /// Folder in which the message was seen last ("" if never on the server).
    pub server_folder: String,
    /// UID under which it was seen last (0 if never on the server).
    pub server_uid: u32,
    /// Identifier of the message in the local store.
    pub msg_id: u32,
}

/// What follows from checking an envelope against what is known.
#[derive(Clone, Copy, Debug, PartialEq, Eq, Structural)]
pub struct Precheck {
    /// The message is known: its body is not downloaded.
    pub known: bool,
    /// The local message for which a mark-as-seen job is to be enqueued.
    pub mark_seen: Option<u32>,
    /// The message has moved to another folder: record that it stays there.
    pub moved: bool,
    /// Record the new folder and UID of the message.
    pub update_location: bool,
}

/// An envelope as the server lists it.
#[derive(Clone, Debug)]
pub struct Prefetch {
    pub uid: Option<u32>,
    /// The message-id read from the envelope, if it could be read.
    pub message_id: Option<String>,
}

/// The envelope holds no message-id that could be read.
#[derive(Clone, Copy, Debug, PartialEq, Eq, Structural)]
pub struct NoMessageId;

/// A flag that the server holds for a message.
#[derive(Clone, Copy, Debug, PartialEq, Eq, Structural)]
pub enum Flag {
    Seen,
    Answered,
    Flagged,
    Deleted,
    Draft,
    Recent,
    MayCreate,
    Custom,
}

/// A downloaded message.
#[derive(Clone, Debug)]
pub struct FetchedMessage {
    pub flags: Vec<Flag>,
    pub has_body: bool,
}

/// The server's answer when one message was asked for in full.
#[derive(Clone, Debug)]
pub enum BodyReply {
    /// The command failed.
    Failed,
    /// The server knows no message of that UID.
    Empty,
    Message(FetchedMessage),
}

/// Answer of `fetch_single_msg`.
#[derive(Clone, Copy, Debug, PartialEq, Eq, Structural)]
pub enum SingleStep {
    /// Decided without a command: whether the message counts as received.
    Done(bool),
    /// Ask for the message in full, then call `fetch_single_msg_fetched`.
    Fetch,
}

/// What a download led to.
#[derive(Clone, Copy, Debug, PartialEq, Eq, Structural)]
pub struct SingleFetch {
    /// The message counts as received; if not, it is a read error and the
    /// message is tried again later.
    pub received: bool,
    /// Hand the body to ingestion, with these flags.
    pub ingest: Option<u32>,
}

/// One envelope of a batch, after it was dealt with.
#[derive(Clone, Copy, Debug, PartialEq, Eq, Structural)]
pub struct EnvelopeOutcome {
    pub uid: Option<u32>,
    /// False if the message had to be downloaded and that failed.
    pub read_ok: bool,
}

/// The account of a batch.
#[derive(Clone, Copy, Debug, PartialEq, Eq, Structural)]
pub struct BatchSummary {
    /// Envelopes with a UID beyond the cursor.
    pub read_cnt: usize,
    /// Those among them whose download failed.
    pub read_errors: usize,
    /// The cursor to persist, if it advances.
    pub persist: Option<UidCursor>,
}

/// Answer of `fetch`.
#[derive(Clone, Copy, Debug, PartialEq, Eq, Structural)]
pub enum FetchStep {
    /// Nothing is fetched; holds what `fetch` returns.
    Done(bool),
    /// Open a session as the plan says, hand the outcome to
    /// `setup_handle_finish`, then call `fetch_after_setup`.
    Setup(ConnectPlan),
    /// Fetch from the watch folder, then call `fetch_drained` with the
    /// number of envelopes considered.
    Drain,
}

/// Answer of `fetch_from_single_folder`.
#[derive(Clone, Copy, Debug, PartialEq, Eq, Structural)]
pub enum FolderStep {
    /// Nothing can be fetched: the batch counts zero envelopes.
    Nothing,
    /// Send SELECT for the folder (after a CLOSE, with `expunge_first`), then
    /// call `fetch_folder_selected`.
    Select { expunge_first: bool },
    /// Read the cursor and list the envelopes beyond it.
    List,
}

/// Index of the first `:` of `s` at or after `from`, or the length of `s` if
/// there is none.
pub open spec fn field_end(s: Seq<char>, from: int) -> int
    decreases s.len() - from,
{
    if from < 0 || from >= s.len() {
        s.len() as int
    } else if s[from] == ':' {
        from
    } else {
        field_end(s, from + 1)
    }
}

/// The number that a field denotes, zero if it denotes none.
pub open spec fn number_or_zero(field: Seq<char>) -> u32 {
    match parse_decimal(field) {
        Some(n) => n,
        None => 0,
    }
}

/// The cursor that a stored entry denotes: two numbers with a `:` between
/// them. A field that is missing or is no number counts as zero; what follows
/// a second `:` is ignored.
pub open spec fn cursor_of_entry(entry: Seq<char>) -> UidCursor {
    let first = field_end(entry, 0);
    UidCursor {
        uid_validity: number_or_zero(entry.subrange(0, first)),
        last_seen_uid: if first < entry.len() {
            number_or_zero(entry.subrange(first + 1, field_end(entry, first + 1)))
        } else {
            0
        },
    }
}

/// The cursor that is stored for a folder: that of its entry, or zero twice
/// if there is none.
pub open spec fn stored_cursor(entry: Option<Seq<char>>) -> UidCursor {
    match entry {
        Some(text) => cursor_of_entry(text),
        None => UidCursor { uid_validity: 0, last_seen_uid: 0 },
    }
}

/// The entry that stores a cursor.
pub open spec fn entry_of_cursor(cursor: UidCursor) -> Seq<char> {
    decimal(cursor.uid_validity as nat) + seq![':'] + decimal(cursor.last_seen_uid as nat)
}

/// The UID of an envelope, zero if the server gave none.
pub open spec fn uid_of(uid: Option<u32>) -> u32 {
    match uid {
        Some(n) => n,
        None => 0,
    }
}

/// Whether an envelope lies beyond the cursor.
pub open spec fn considered(cursor: UidCursor, uid: Option<u32>) -> bool {
    uid_of(uid) > cursor.last_seen_uid
}

/// Number of envelopes beyond the cursor.
pub open spec fn considered_count(cursor: UidCursor, batch: Seq<EnvelopeOutcome>) -> nat
    decreases batch.len(),
{
    if batch.len() == 0 {
        0
    } else {
        considered_count(cursor, batch.drop_last()) + if considered(cursor, batch.last().uid) {
            1nat
        } else {
            0nat
        }
    }
}

/// Number of envelopes beyond the cursor whose download failed.
pub open spec fn error_count(cursor: UidCursor, batch: Seq<EnvelopeOutcome>) -> nat
    decreases batch.len(),
{
    if batch.len() == 0 {
        0
    } else {
        error_count(cursor, batch.drop_last()) + if considered(cursor, batch.last().uid)
            && !batch.last().read_ok {
            1nat
        } else {
            0nat
        }
    }
}

/// Largest UID among the envelopes beyond the cursor, zero if there is none.
pub open spec fn max_uid(cursor: UidCursor, batch: Seq<EnvelopeOutcome>) -> u32
    decreases batch.len(),
{
    if batch.len() == 0 {
        0
    } else {
        let before = max_uid(cursor, batch.drop_last());
        if considered(cursor, batch.last().uid) && uid_of(batch.last().uid) > before {
            uid_of(batch.last().uid)
        } else {
            before
        }
    }
}

/// The cursor to persist after a batch: the largest UID seen, under the same
/// UIDVALIDITY, if no download failed and anything was seen.
pub open spec fn advanced(cursor: UidCursor, batch: Seq<EnvelopeOutcome>) -> Option<UidCursor> {
    if error_count(cursor, batch) == 0 && max_uid(cursor, batch) > 0 {
        Some(UidCursor { uid_validity: cursor.uid_validity, last_seen_uid: max_uid(cursor, batch) })
    } else {
        None
    }
}

/// The cursor that is stored after a batch.
pub open spec fn cursor_after(cursor: UidCursor, batch: Seq<EnvelopeOutcome>) -> UidCursor {
    match advanced(cursor, batch) {
        Some(next) => next,
        None => cursor,
    }
}

/// What checking an envelope against the record of its message-id gives.
pub open spec fn precheck(prior: Option<KnownMessage>, server_folder: Seq<char>, server_uid: u32) -> Precheck {
    match prior {
        None => Precheck { known: false, mark_seen: None, moved: false, update_location: false },
        Some(rec) => {
            let unplaced = rec.server_folder@.len() == 0 && rec.server_uid == 0;
            Precheck {
                known: true,
                mark_seen: if unplaced {
                    Some(rec.msg_id)
                } else {
                    None
                },
                moved: !unplaced && rec.server_folder@ != server_folder,
                update_location: rec.server_folder@ != server_folder || rec.server_uid
                    != server_uid,
            }
        },
    }
}

/// What a downloaded message leads to.
pub open spec fn single_fetch(reply: BodyReply) -> SingleFetch {
    match reply {
        BodyReply::Failed => SingleFetch { received: false, ingest: None },
        BodyReply::Empty => SingleFetch { received: true, ingest: None },
        BodyReply::Message(msg) => SingleFetch {
            received: true,
            ingest: if !msg.flags@.contains(Flag::Deleted) && msg.has_body {
                Some(
                    if msg.flags@.contains(Flag::Seen) {
                        DC_IMAP_SEEN
                    } else {
                        0u32
                    },
                )
            } else {
                None
            },
        },
    }
}

impl ImapModel {
    /// What `fetch` does once the session is set up.
    pub open spec fn fetch_watch(self) -> FetchStep {
        if self.config.watch_folder is Some {
            FetchStep::Drain
        } else {
            FetchStep::Done(false)
        }
    }

    /// First step of a fetch.
    pub open spec fn fetch(self, store_open: bool) -> (ImapModel, FetchStep) {
        if !self.connected || !store_open {
            (self, FetchStep::Done(false))
        } else {
            (
                self.setup().0,
                match self.setup().1 {
                    SetupStep::Open(plan) => FetchStep::Setup(plan),
                    _ => self.setup().0.fetch_watch(),
                },
            )
        }
    }

    /// First step of fetching from one folder.
    pub open spec fn fetch_folder(self, folder: Seq<char>) -> (ImapModel, FolderStep) {
        if !self.connected {
            (self, FolderStep::Nothing)
        } else {
            (
                self.select(folder).0,
                match self.select(folder).1 {
                    SelectStep::Done(true) => FolderStep::List,
                    SelectStep::Done(false) => FolderStep::Nothing,
                    SelectStep::Select { expunge_first } => FolderStep::Select { expunge_first },
                },
            )
        }
    }

    /// Whether a single message is asked for.
    pub open spec fn single_step(self) -> SingleStep {
        if !self.connected {
            SingleStep::Done(false)
        } else if !self.session_open {
            SingleStep::Done(true)
        } else {
            SingleStep::Fetch
        }
    }
}

/// The key under which the cursor of `folder` is stored.
pub fn cursor_key(folder: &str) -> (key: String)
    ensures
        key@ == "imap.mailbox."@ + folder@,
{
    let mut key = String::from_str("imap.mailbox.");
    key.append(folder);
    key
}

/// The UID set that holds every message beyond the cursor: the next UID, a
/// colon and a star.
pub fn fetch_set(cursor: UidCursor) -> (set: String)
    ensures
        set@ == decimal(cursor.last_seen_uid as nat + 1) + ":*"@,
{
    let next: u64 = cursor.last_seen_uid as u64 + 1;
    let mut set = to_decimal(next);
    set.append(":*");
    set
}

/// Writes a cursor as it is stored: UIDVALIDITY, a colon, the last UID seen.
pub fn set_config_last_seen_uid(cursor: UidCursor) -> (entry: String)
    ensures
        entry@ == entry_of_cursor(cursor),
{
    let mut entry = to_decimal(cursor.uid_validity as u64);
    proof {
        reveal_strlit(":");
        assert(":"@ =~= seq![':']);
    }
    entry.append(":");
    let last = to_decimal(cursor.last_seen_uid as u64);
    entry.append(last.as_str());
    entry
}

fn scan_field(entry: &str, from: usize, len: usize) -> (end: usize)
    requires
        len == entry@.len(),
        from <= len,
    ensures
        end == field_end(entry@, from as int),
        from <= end <= len,
{
    let mut i: usize = from;
    while i < len
        invariant
            len == entry@.len(),
            from <= i <= len,
            field_end(entry@, i as int) == field_end(entry@, from as int),
        decreases len - i,
    {
        if entry.get_char(i) == ':' {
            return i;
        }
        i += 1;
    }
    i
}

fn field_number(entry: &str, from: usize, to: usize) -> (n: u32)
    requires
        from <= to <= entry@.len(),
    ensures
        n == number_or_zero(entry@.subrange(from as int, to as int)),
{
    match parse_u32(entry.substring_char(from, to)) {
        Some(n) => n,
        None => 0,
    }
}

/// Reads the cursor of a folder from its stored entry. Without an entry, and
/// for every field that is missing or is no number, the value is zero.
pub fn get_config_last_seen_uid(entry: Option<&str>) -> (cursor: UidCursor)
    ensures
        cursor == stored_cursor(
            match entry {
                Some(text) => Some(text@),
                None => None,
            },
        ),
{
    match entry {
        None => UidCursor { uid_validity: 0, last_seen_uid: 0 },
        Some(text) => {
            let len = text.unicode_len();
            let first = scan_field(text, 0, len);
            let uid_validity = field_number(text, 0, first);
            let last_seen_uid = if first < len {
                let second = scan_field(text, first + 1, len);
                field_number(text, first + 1, second)
            } else {
                0
            };
            UidCursor { uid_validity, last_seen_uid }
        },
    }
}

/// The message-id of a listed envelope, or an error if it holds none that
/// could be read.
pub fn prefetch_get_message_id(prefetch_msg: &Prefetch) -> (r: Result<String, NoMessageId>)
    ensures
        match prefetch_msg.message_id {
            Some(id) => r is Ok && r->Ok_0@ == id@,
            None => r is Err,
        },
{
    match &prefetch_msg.message_id {
        Some(id) => Ok(id.clone()),
        None => Err(NoMessageId),
    }
}

/// Whether an envelope with this UID lies beyond the cursor and is dealt
/// with. An envelope without a UID counts as UID zero and never is.
pub fn is_considered(cursor: UidCursor, uid: Option<u32>) -> (r: bool)
    ensures
        r == considered(cursor, uid),
{
    match uid {
        Some(n) => n > cursor.last_seen_uid,
        None => false,
    }
}

/// Checks an envelope against the record of its message-id. `prior` is that
/// record, if the message-id is known. An unknown message is downloaded. A
/// known one is not: if it was never placed on the server, it is a copy of a
/// message sent from here, and one mark-as-seen job is enqueued for it; if it
/// was in another folder, it has moved; and if folder or UID differ from the
/// record, the record is brought up to date.
pub fn precheck_imf(prior: Option<&KnownMessage>, server_folder: &str, server_uid: u32) -> (r:
    Precheck)
    ensures
        r == precheck(
            match prior {
                Some(rec) => Some(*rec),
                None => None,
            },
            server_folder@,
            server_uid,
        ),
        r.known == prior is Some,
        prior matches Some(rec) ==> (rec.server_folder@.len() == 0 && rec.server_uid == 0
            ==> r.known && r.mark_seen == Some(rec.msg_id) && !r.moved),
{
    match prior {
        None => Precheck { known: false, mark_seen: None, moved: false, update_location: false },
        Some(rec) => {
            let same_folder = same_text(rec.server_folder.as_str(), server_folder);
            let unplaced = rec.server_folder.as_str().is_empty() && rec.server_uid == 0;
            Precheck {
                known: true,
                mark_seen: if unplaced {
                    Some(rec.msg_id)
                } else {
                    None
                },
                moved: !unplaced && !same_folder,
                update_location: !same_folder || rec.server_uid != server_uid,
            }
        },
    }
}

/// Whether one of the flags is `flag`.
pub fn has_flag(flags: &Vec<Flag>, flag: Flag) -> (r: bool)
    ensures
        r == flags@.contains(flag),
{
    let mut i: usize = 0;
    while i < flags.len()
        invariant
            i <= flags.len(),
            forall|j: int| 0 <= j < i ==> flags[j] != flag,
        decreases flags.len() - i,
    {
        if flags[i] == flag {
            return true;
        }
        i += 1;
    }
    false
}

/// Draws the account of a batch: `batch` holds every listed envelope with
/// what came of it. Envelopes at or below the cursor are passed over. The
/// cursor advances to the largest UID seen only if no download failed, so
/// that a failed message is listed again next time.
pub fn finish_batch(cursor: UidCursor, batch: &Vec<EnvelopeOutcome>) -> (summary: BatchSummary)
    ensures
        summary.read_cnt == considered_count(cursor, batch@),
        summary.read_errors == error_count(cursor, batch@),
        summary.persist == advanced(cursor, batch@),
{
    let mut read_cnt: usize = 0;
    let mut read_errors: usize = 0;
    let mut new_last_seen_uid: u32 = 0;
    let mut i: usize = 0;
    while i < batch.len()
        invariant
            i <= batch.len(),
            read_cnt == considered_count(cursor, batch@.take(i as int)),
            read_errors == error_count(cursor, batch@.take(i as int)),
            new_last_seen_uid == max_uid(cursor, batch@.take(i as int)),
            read_errors <= read_cnt <= i,
        decreases batch.len() - i,
    {
        proof {
            assert(batch@.take(i + 1).drop_last() =~= batch@.take(i as int));
        }
        let cur_uid: u32 = match batch[i].uid {
            Some(n) => n,
            None => 0,
        };
        if cur_uid > cursor.last_seen_uid {
            read_cnt += 1;
            if !batch[i].read_ok {
                read_errors += 1;
            }
            if cur_uid > new_last_seen_uid {
                new_last_seen_uid = cur_uid;
            }
        }
        i += 1;
    }
    proof {
        assert(batch@.take(batch.len() as int) =~= batch@);
    }
    let persist = if read_errors == 0 && new_last_seen_uid > 0 {
        Some(UidCursor { uid_validity: cursor.uid_validity, last_seen_uid: new_last_seen_uid })
    } else {
        None
    };
    BatchSummary { read_cnt, read_errors, persist }
}

impl Imap {
    fn fetch_watch_folder(&self) -> (step: FetchStep)
        ensures
            step == self@.fetch_watch(),
    {
        if self.config.watch_folder.is_some() {
            FetchStep::Drain
        } else {
            FetchStep::Done(false)
        }
    }

    /// Starts a fetch. Nothing is fetched unless the engine is connected and
    /// the local store is open. The session is set up if needed; then the
    /// watch folder is drained, if there is one.
    pub fn fetch(&mut self, store_open: bool) -> (step: FetchStep)
        ensures
            (final(self)@, step) == old(self)@.fetch(store_open),
    {
        if !self.connected || !store_open {
            return FetchStep::Done(false);
        }
        match self.setup_handle_if_needed() {
            SetupStep::Open(plan) => FetchStep::Setup(plan),
            _ => self.fetch_watch_folder(),
        }
    }

    /// Goes on with a fetch after the session was set up, whatever came of
    /// that.
    pub fn fetch_after_setup(&self) -> (step: FetchStep)
        ensures
            step == self@.fetch_watch(),
    {
        self.fetch_watch_folder()
    }

    /// Takes the number of envelopes that one pass over the watch folder
    /// considered: the folder is read again until a pass considers none, as
    /// mail may arrive while a batch is read.
    pub fn fetch_drained(&self, read_cnt: usize) -> (step: FetchStep)
        ensures
            step == (if read_cnt == 0 {
                FetchStep::Done(true)
            } else {
                FetchStep::Drain
            }),
    {
        if read_cnt == 0 {
            FetchStep::Done(true)
        } else {
            FetchStep::Drain
        }
    }

    /// Starts fetching from `folder`: nothing without a connection or if the
    /// folder cannot be selected.
    pub fn fetch_from_single_folder(&mut self, folder: &str) -> (step: FolderStep)
        ensures
            (final(self)@, step) == old(self)@.fetch_folder(folder@),
    {
        if !self.connected {
            return FolderStep::Nothing;
        }
        match self.select_folder(folder) {
            SelectStep::Done(true) => FolderStep::List,
            SelectStep::Done(false) => FolderStep::Nothing,
            SelectStep::Select { expunge_first } => FolderStep::Select { expunge_first },
        }
    }

    /// Goes on with fetching from `folder` after the server's answer to
    /// SELECT.
    pub fn fetch_folder_selected(&mut self, folder: &str, reply: Option<Mailbox>) -> (step:
        FolderStep)
        ensures
            final(self)@ == old(self)@.selected(folder@, reply).0,
            step == (if reply is Some {
                FolderStep::List
            } else {
                FolderStep::Nothing
            }),
    {
        if self.select_folder_finish(folder, reply) {
            FolderStep::List
        } else {
            FolderStep::Nothing
        }
    }

    /// Decides whether a message is downloaded. Without a connection it is a
    /// read error; without a session it counts as received.
    pub fn fetch_single_msg(&self) -> (step: SingleStep)
        ensures
            step == self@.single_step(),
    {
        if !self.connected {
            SingleStep::Done(false)
        } else if !self.session_open {
            SingleStep::Done(true)
        } else {
            SingleStep::Fetch
        }
    }

    /// Takes the server's answer to a download. A failed command is a read
    /// error and asks for a reconnect. A message that exists no more counts
    /// as received. A message is handed to ingestion unless it is flagged as
    /// deleted or has no body; the flags say whether the server holds it as
    /// seen.
    pub fn fetch_single_msg_fetched(&mut self, reply: &BodyReply) -> (r: SingleFetch)
        ensures
            r == single_fetch(*reply),
            final(self)@ == (ImapModel {
                should_reconnect: old(self)@.should_reconnect || reply is Failed,
                ..old(self)@
            }),
    {
        match reply {
            BodyReply::Failed => {
                self.should_reconnect = true;
                SingleFetch { received: false, ingest: None }
            },
            BodyReply::Empty => SingleFetch { received: true, ingest: None },
            BodyReply::Message(msg) => {
                let is_deleted = has_flag(&msg.flags, Flag::Deleted);
                let is_seen = has_flag(&msg.flags, Flag::Seen);
                let flags: u32 = if is_seen {
                    DC_IMAP_SEEN
                } else {
                    0
                };
                if !is_deleted && msg.has_body {
                    SingleFetch { received: true, ingest: Some(flags) }
                } else {
                    SingleFetch { received: true, ingest: None }
                }
            },
        }
    }
}

/// Whether the batch lists exactly the UIDs that follow the cursor, in order.
pub open spec fn follows_cursor(cursor: UidCursor, batch: Seq<EnvelopeOutcome>) -> bool {
    forall|i: int|
        0 <= i < batch.len() ==> (#[trigger] batch[i]).uid == Some(
            (cursor.last_seen_uid + 1 + i) as u32,
        )
}

/// Whether some envelope beyond the cursor could not be downloaded.
pub open spec fn has_read_error(cursor: UidCursor, batch: Seq<EnvelopeOutcome>) -> bool {
    exists|i: int|
        0 <= i < batch.len() && considered(cursor, (#[trigger] batch[i]).uid) && !batch[i].read_ok
}

/// The largest UID of a batch is zero or lies beyond the cursor, and no
/// envelope beyond the cursor has a larger one.
pub proof fn max_uid_is_largest(cursor: UidCursor, batch: Seq<EnvelopeOutcome>)
    ensures
        max_uid(cursor, batch) == 0 || max_uid(cursor, batch) > cursor.last_seen_uid,
        forall|i: int|
            0 <= i < batch.len() && considered(cursor, (#[trigger] batch[i]).uid) ==> uid_of(
                batch[i].uid,
            ) <= max_uid(cursor, batch),
    decreases batch.len(),
{
    if batch.len() > 0 {
        let front = batch.drop_last();
        max_uid_is_largest(cursor, front);
        assert forall|i: int|
            0 <= i < batch.len() && considered(cursor, (#[trigger] batch[i]).uid) implies uid_of(
            batch[i].uid,
        ) <= max_uid(cursor, batch) by {
            if i < batch.len() - 1 {
                assert(front[i] == batch[i]);
            }
        }
    }
}

/// Read errors are counted exactly when there are any, and never outnumber
/// the envelopes considered.
pub proof fn error_count_is_zero_without_errors(cursor: UidCursor, batch: Seq<EnvelopeOutcome>)
    ensures
        (error_count(cursor, batch) > 0) == has_read_error(cursor, batch),
        error_count(cursor, batch) <= considered_count(cursor, batch) <= batch.len(),
    decreases batch.len(),
{
    if batch.len() > 0 {
        let front = batch.drop_last();
        let last = batch.len() - 1;
        error_count_is_zero_without_errors(cursor, front);
        if has_read_error(cursor, front) {
            let i = choose|i: int|
                0 <= i < front.len() && considered(cursor, (#[trigger] front[i]).uid)
                    && !front[i].read_ok;
            assert(batch[i] == front[i]);
        }
        if has_read_error(cursor, batch) {
            let i = choose|i: int|
                0 <= i < batch.len() && considered(cursor, (#[trigger] batch[i]).uid)
                    && !batch[i].read_ok;
            if i < last {
                assert(front[i] == batch[i]);
            }
        }
        if considered(cursor, batch.last().uid) && !batch.last().read_ok {
            assert(batch[last] == batch.last());
        }
    }
}

/// After a batch that lists the `k` UIDs following the cursor and reads all
/// of them, the cursor stands `k` further, under the same UIDVALIDITY.
pub proof fn cursor_advances_over_clean_batch(cursor: UidCursor, batch: Seq<EnvelopeOutcome>)
    requires
        batch.len() >= 1,
        cursor.last_seen_uid + batch.len() <= u32::MAX,
        follows_cursor(cursor, batch),
        forall|i: int| 0 <= i < batch.len() ==> (#[trigger] batch[i]).read_ok,
    ensures
        max_uid(cursor, batch) == cursor.last_seen_uid + batch.len(),
        considered_count(cursor, batch) == batch.len(),
        cursor_after(cursor, batch) == (UidCursor {
            uid_validity: cursor.uid_validity,
            last_seen_uid: (cursor.last_seen_uid + batch.len()) as u32,
        }),
    decreases batch.len(),
{
    let front = batch.drop_last();
    let last = batch.len() - 1;
    assert(batch[last] == batch.last());
    assert forall|i: int| 0 <= i < front.len() implies (#[trigger] front[i]).uid == Some(
        (cursor.last_seen_uid + 1 + i) as u32,
    ) && front[i].read_ok by {
        assert(front[i] == batch[i]);
    }
    error_count_is_zero_without_errors(cursor, batch);
    if front.len() >= 1 {
        cursor_advances_over_clean_batch(cursor, front);
    }
}

/// After a batch in which any download failed, the cursor stands where it
/// stood, whatever else the batch holds.
pub proof fn cursor_stays_after_read_error(cursor: UidCursor, batch: Seq<EnvelopeOutcome>)
    requires
        has_read_error(cursor, batch),
    ensures
        advanced(cursor, batch) is None,
        cursor_after(cursor, batch) == cursor,
{
    error_count_is_zero_without_errors(cursor, batch);
}

/// A batch never moves the cursor backwards and never changes its
/// UIDVALIDITY.
pub proof fn cursor_never_goes_back(cursor: UidCursor, batch: Seq<EnvelopeOutcome>)
    ensures
        cursor_after(cursor, batch).uid_validity == cursor.uid_validity,
        cursor_after(cursor, batch).last_seen_uid >= cursor.last_seen_uid,
{
    max_uid_is_largest(cursor, batch);
}

/// A message that is known but was never placed on the server leads to one
/// mark-as-seen job, for that message, and to no download.
pub proof fn unplaced_message_is_marked_seen(prior: KnownMessage, server_folder: Seq<char>, server_uid: u32)
    requires
        prior.server_folder@.len() == 0,
        prior.server_uid == 0,
    ensures
        precheck(Some(prior), server_folder, server_uid).known,
        precheck(Some(prior), server_folder, server_uid).mark_seen == Some(prior.msg_id),
        !precheck(Some(prior), server_folder, server_uid).moved,
{
}

/// A message that was placed on the server before never leads to a
/// mark-as-seen job; an unknown one leads to nothing but its download.
pub proof fn placed_message_is_not_marked_seen(prior: KnownMessage, server_folder: Seq<char>, server_uid: u32)
    requires
        prior.server_folder@.len() > 0 || prior.server_uid != 0,
    ensures
        precheck(Some(prior), server_folder, server_uid).mark_seen is None,
        precheck(Some(prior), server_folder, server_uid).known,
        precheck(None, server_folder, server_uid) == (Precheck {
            known: false,
            mark_seen: None,
            moved: false,
            update_location: false,
        }),
{
}

/// A field that holds no colon between `from` and `to` ends at `to`, where
/// the text ends or a colon stands.
pub proof fn field_ends_at_colon(s: Seq<char>, from: int, to: int)
    requires
        0 <= from <= to <= s.len(),
        forall|k: int| from <= k < to ==> s[k] != ':',
        to < s.len() ==> s[to] == ':',
    ensures
        field_end(s, from) == to,
    decreases to - from,
{
    if from < to {
        field_ends_at_colon(s, from + 1, to);
    }
}

/// A cursor that was written is read back as it was.
pub proof fn stored_cursor_is_read_back(cursor: UidCursor)
    ensures
        stored_cursor(Some(entry_of_cursor(cursor))) == cursor,
{
    let first = decimal(cursor.uid_validity as nat);
    let second = decimal(cursor.last_seen_uid as nat);
    let entry = entry_of_cursor(cursor);
    crate::text::decimal_is_digits(cursor.uid_validity as nat);
    crate::text::decimal_is_digits(cursor.last_seen_uid as nat);
    crate::text::parse_of_decimal(cursor.uid_validity);
    crate::text::parse_of_decimal(cursor.last_seen_uid);
    assert forall|k: int| 0 <= k < first.len() implies entry[k] != ':' by {
        assert(entry[k] == first[k]);
        assert(crate::text::is_digit(first[k]));
    }
    assert(entry[first.len() as int] == ':');
    field_ends_at_colon(entry, 0, first.len() as int);
    assert forall|k: int| first.len() + 1 <= k < entry.len() implies entry[k] != ':' by {
        assert(entry[k] == second[k - first.len() - 1]);
        assert(crate::text::is_digit(second[k - first.len() - 1]));
    }
    field_ends_at_colon(entry, first.len() as int + 1, entry.len() as int);
    assert(entry.subrange(0, first.len() as int) =~= first);
    assert(entry.subrange(first.len() as int + 1, entry.len() as int) =~= second);
}

/// Without a stored entry a folder is read from its first message on.
pub proof fn missing_entry_reads_as_zero()
    ensures
        stored_cursor(None) == (UidCursor { uid_validity: 0, last_seen_uid: 0 }),
{
}

} // verus!
