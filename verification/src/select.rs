//! Selecting a folder, and expunging the one that was selected before.

use crate::state::{ConfigModel, Imap, ImapModel, Mailbox};
use crate::text::same_text;
use vstd::prelude::*;

verus! {

/// Answer of `select_folder`.
#[derive(Clone, Copy, Debug, PartialEq, Eq, Structural)]
pub enum SelectStep {
    /// Decided without a command: `false` without a session, `true` when the
    /// folder is the selected one.
    Done(bool),
    /// Send SELECT for the folder and call `select_folder_finish`. With
    /// `expunge_first`, send CLOSE before, whatever comes of it: that
    /// expunges the folder selected so far.
    Select { expunge_first: bool },
}

impl ImapModel {
    /// First step of selecting `folder`.
    pub open spec fn select(self, folder: Seq<char>) -> (ImapModel, SelectStep) {
        if !self.session_open {
            (
                ImapModel {
                    config: ConfigModel {
                        selected_folder: None,
                        selected_folder_needs_expunge: false,
                        ..self.config
                    },
                    ..self
                },
                SelectStep::Done(false),
            )
        } else if self.config.selected_folder == Some(folder) {
            (self, SelectStep::Done(true))
        } else {
            (
                ImapModel {
                    config: ConfigModel { selected_folder_needs_expunge: false, ..self.config },
                    ..self
                },
                SelectStep::Select {
                    expunge_first: self.config.selected_folder_needs_expunge
                        && self.config.selected_folder is Some,
                },
            )
        }
    }

    /// Second step of selecting `folder`: the server's answer to SELECT.
    pub open spec fn selected(self, folder: Seq<char>, reply: Option<Mailbox>) -> (
        ImapModel,
        bool,
    ) {
        match reply {
            Some(mailbox) => (
                ImapModel {
                    config: ConfigModel {
                        selected_folder: Some(folder),
                        selected_mailbox: Some(mailbox),
                        ..self.config
                    },
                    ..self
                },
                true,
            ),
            None => (
                ImapModel {
                    should_reconnect: true,
                    config: ConfigModel { selected_folder: None, ..self.config },
                    ..self
                },
                false,
            ),
        }
    }
}

impl Imap {
    /// Whether `folder` is the folder selected now.
    pub fn is_selected(&self, folder: &str) -> (r: bool)
        ensures
            r == (self@.config.selected_folder == Some(folder@)),
    {
        match &self.config.selected_folder {
            Some(selected) => same_text(selected.as_str(), folder),
            None => false,
        }
    }

    /// Whether a CLOSE has to be sent to expunge: it has while a folder is
    /// selected.
    pub fn expunge_folder(&self) -> (close: bool)
        ensures
            close == (self@.config.selected_folder is Some),
    {
        self.config.selected_folder.is_some()
    }

    /// Starts selecting `folder`. Without a session nothing is selected and
    /// no expunge is pending any more. The selected folder is not selected
    /// again. Otherwise the pending expunge, if any, is handed to the caller
    /// together with the SELECT.
    pub fn select_folder(&mut self, folder: &str) -> (step: SelectStep)
        ensures
            (final(self)@, step) == old(self)@.select(folder@),
    {
        if !self.session_open {
            self.config.selected_folder = None;
            self.config.selected_folder_needs_expunge = false;
            return SelectStep::Done(false);
        }
        if self.is_selected(folder) {
            return SelectStep::Done(true);
        }
        let expunge_first = self.config.selected_folder_needs_expunge && self.expunge_folder();
        self.config.selected_folder_needs_expunge = false;
        SelectStep::Select { expunge_first }
    }

    /// Takes the server's answer to SELECT: the folder's data, or `None` if
    /// the command failed. A failure leaves no folder selected and asks for a
    /// reconnect.
    pub fn select_folder_finish(&mut self, folder: &str, reply: Option<Mailbox>) -> (ok: bool)
        ensures
            (final(self)@, ok) == old(self)@.selected(folder@, reply),
            ok == reply is Some,
    {
        match reply {
            Some(mailbox) => {
                self.config.selected_folder = Some(folder.to_owned());
                self.config.selected_mailbox = Some(mailbox);
                true
            },
            None => {
                self.config.selected_folder = None;
                self.should_reconnect = true;
                false
            },
        }
    }
}

/// Once a folder has been selected, selecting it again needs no command and
/// changes nothing.
pub proof fn selecting_the_selected_folder_is_free(
    s: ImapModel,
    folder: Seq<char>,
    mailbox: Mailbox,
)
    requires
        s.session_open,
    ensures
        ({
            let after = s.selected(folder, Some(mailbox)).0;
            after.select(folder) == (after, SelectStep::Done(true))
        }),
{
}

} // verus!
