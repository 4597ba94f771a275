//! What a folder is for, and the choice of the folders that take moved and
//! sent messages.

use crate::state::Imap;
use crate::text::{lowercase_of, push_char, same_text, to_lowercase};
use vstd::prelude::*;
use vstd::string::StringExecFns;

verus! {

/// Bit of the flags of `configure_folders`: create the folder for moved
/// messages if the server has none.
pub const DC_CREATE_MVBOX: libc::c_int = 1;

/// Name of the folder for moved messages.
pub const MVBOX_NAME: &'static str = "DeltaChat";

/// Key under which the version of the folder configuration is stored.
pub const KEY_FOLDERS_CONFIGURED: &'static str = "folders_configured";

/// Key under which the folder for moved messages is stored.
pub const KEY_MVBOX_FOLDER: &'static str = "configured_mvbox_folder";

/// Key under which the folder for sent messages is stored.
pub const KEY_SENTBOX_FOLDER: &'static str = "configured_sentbox_folder";

/// Version of the folder configuration that is stored once it is done.
pub const FOLDERS_CONFIGURED_VERSION: i32 = 3;

/// What a folder is for.
#[derive(Clone, Copy, Debug, PartialEq, Eq, Structural)]
pub enum FolderMeaning {
    Unknown,
    SentObjects,
    /// A folder with a role of its own (spam, trash, drafts): never the
    /// folder for sent messages.
    Other,
}

/// An attribute that the server lists with a folder.
#[derive(Clone, Debug)]
pub enum NameAttribute {
    NoInferiors,
    NoSelect,
    Marked,
    Unmarked,
    /// Any other attribute, such as the special-use tags.
    Custom(String),
}

/// A folder as the server lists it.
#[derive(Clone, Debug)]
pub struct Folder {
    pub attributes: Vec<NameAttribute>,
    pub name: String,
}

/// What `configure_folders` found.
#[derive(Clone, Debug)]
pub struct FolderPlan {
    /// The existing folder for moved messages.
    pub mvbox_folder: Option<String>,
    /// The folder for sent messages.
    pub sentbox_folder: Option<String>,
    /// No folder for moved messages exists and one is to be created.
    pub create_mvbox: bool,
}

/// One entry of the stored configuration.
#[derive(Clone, Debug)]
pub struct ConfigEntry {
    pub key: String,
    pub value: String,
}

/// Mathematical form of `ConfigEntry`: key and value.
pub open spec fn entry_text(entry: ConfigEntry) -> (Seq<char>, Seq<char>) {
    (entry.key@, entry.value@)
}

/// What is stored once the folders are configured: the version of the
/// configuration, then each folder that was found or created, under its key.
pub open spec fn stored_roles(mvbox: Option<Seq<char>>, sentbox: Option<Seq<char>>) -> Seq<
    (Seq<char>, Seq<char>),
> {
    seq![("folders_configured"@, "3"@)] + (match mvbox {
        Some(name) => seq![("configured_mvbox_folder"@, name)],
        None => Seq::empty(),
    }) + (match sentbox {
        Some(name) => seq![("configured_sentbox_folder"@, name)],
        None => Seq::empty(),
    })
}

/// What a lower-case folder name says: one of a few words for "sent" in some
/// languages, or nothing.
pub open spec fn meaning_of_lowercase(lower: Seq<char>) -> FolderMeaning {
    if lower == "sent"@ || lower == "sent objects"@ || lower == "gesendet"@ {
        FolderMeaning::SentObjects
    } else {
        FolderMeaning::Unknown
    }
}

/// What one attribute says.
pub open spec fn tag_meaning(attribute: NameAttribute) -> FolderMeaning {
    match attribute {
        NameAttribute::Custom(label) => if label@ == "\\Spam"@ || label@ == "\\Trash"@ || label@
            == "\\Drafts"@ || label@ == "\\Junk"@ {
            FolderMeaning::Other
        } else if label@ == "\\Sent"@ {
            FolderMeaning::SentObjects
        } else {
            FolderMeaning::Unknown
        },
        _ => FolderMeaning::Unknown,
    }
}

/// What the attributes say: the last one that says anything decides.
pub open spec fn attributes_meaning(attributes: Seq<NameAttribute>) -> FolderMeaning
    decreases attributes.len(),
{
    if attributes.len() == 0 {
        FolderMeaning::Unknown
    } else if tag_meaning(attributes.last()) != FolderMeaning::Unknown {
        tag_meaning(attributes.last())
    } else {
        attributes_meaning(attributes.drop_last())
    }
}

/// What a folder is for: what its attributes say, and where they say
/// nothing, what its name says without regard to case.
pub open spec fn folder_meaning(folder: Folder) -> FolderMeaning {
    if attributes_meaning(folder.attributes@) != FolderMeaning::Unknown {
        attributes_meaning(folder.attributes@)
    } else {
        meaning_of_lowercase(lowercase_of(folder.name@))
    }
}

/// The name of the folder for moved messages below the inbox.
pub open spec fn fallback_name(delimiter: char) -> Seq<char> {
    "INBOX"@.push(delimiter) + "DeltaChat"@
}

/// Whether a folder can take moved messages.
pub open spec fn is_mvbox(folder: Folder, delimiter: char) -> bool {
    folder.name@ == "DeltaChat"@ || folder.name@ == fallback_name(delimiter)
}

/// Index of the first folder at or after `from` that can take moved
/// messages, or the number of folders if there is none.
pub open spec fn first_mvbox(folders: Seq<Folder>, delimiter: char, from: int) -> int
    decreases folders.len() - from,
{
    if from < 0 || from >= folders.len() {
        folders.len() as int
    } else if is_mvbox(folders[from], delimiter) {
        from
    } else {
        first_mvbox(folders, delimiter, from + 1)
    }
}

/// Index of the first folder at or after `from` that is for sent messages,
/// or the number of folders if there is none.
pub open spec fn first_sentbox(folders: Seq<Folder>, from: int) -> int
    decreases folders.len() - from,
{
    if from < 0 || from >= folders.len() {
        folders.len() as int
    } else if folder_meaning(folders[from]) == FolderMeaning::SentObjects {
        from
    } else {
        first_sentbox(folders, from + 1)
    }
}

/// The name of the folder at `index`, if there is one.
pub open spec fn name_at(folders: Seq<Folder>, index: int) -> Option<Seq<char>> {
    if 0 <= index < folders.len() {
        Some(folders[index].name@)
    } else {
        None
    }
}

/// The name of the folder for moved messages after an attempt to create it:
/// the plain name if that was created, the name below the inbox if only that
/// was, none if neither.
pub open spec fn created_name(delimiter: char, plain_created: bool, nested_created: bool) -> Option<
    Seq<char>,
> {
    if plain_created {
        Some("DeltaChat"@)
    } else if nested_created {
        Some(fallback_name(delimiter))
    } else {
        None
    }
}

/// The first folder for moved messages at or after `from` does not lie
/// before `from` nor behind the end.
pub proof fn first_mvbox_in_range(folders: Seq<Folder>, delimiter: char, from: int)
    requires
        0 <= from <= folders.len(),
    ensures
        from <= first_mvbox(folders, delimiter, from) <= folders.len(),
    decreases folders.len() - from,
{
    if from < folders.len() && !is_mvbox(folders[from], delimiter) {
        first_mvbox_in_range(folders, delimiter, from + 1);
    }
}

/// The first folder for sent messages at or after `from` does not lie before
/// `from` nor behind the end.
pub proof fn first_sentbox_in_range(folders: Seq<Folder>, from: int)
    requires
        0 <= from <= folders.len(),
    ensures
        from <= first_sentbox(folders, from) <= folders.len(),
    decreases folders.len() - from,
{
    if from < folders.len() && folder_meaning(folders[from]) != FolderMeaning::SentObjects {
        first_sentbox_in_range(folders, from + 1);
    }
}

/// Says what a lower-case folder name means.
pub fn meaning_of_lowercase_name(lower: &str) -> (meaning: FolderMeaning)
    ensures
        meaning == meaning_of_lowercase(lower@),
{
    if same_text(lower, "sent") || same_text(lower, "sent objects") || same_text(
        lower,
        "gesendet",
    ) {
        FolderMeaning::SentObjects
    } else {
        FolderMeaning::Unknown
    }
}

/// Says what a folder is for by its name alone, without regard to case. The
/// list of names is short and not meant to be complete.
pub fn get_folder_meaning_by_name(folder_name: &Folder) -> (meaning: FolderMeaning)
    ensures
        meaning == meaning_of_lowercase(lowercase_of(folder_name.name@)),
        meaning != FolderMeaning::Other,
{
    let lower = to_lowercase(folder_name.name.as_str());
    meaning_of_lowercase_name(lower.as_str())
}

/// Says what one attribute means: a tag for spam, trash, drafts or junk
/// marks a folder with a role of its own, the tag for sent mail the folder
/// for sent messages.
pub fn tag_meaning_of(attribute: &NameAttribute) -> (meaning: FolderMeaning)
    ensures
        meaning == tag_meaning(*attribute),
{
    match attribute {
        NameAttribute::Custom(label) => {
            let label = label.as_str();
            if same_text(label, "\\Spam") || same_text(label, "\\Trash") || same_text(
                label,
                "\\Drafts",
            ) || same_text(label, "\\Junk") {
                FolderMeaning::Other
            } else if same_text(label, "\\Sent") {
                FolderMeaning::SentObjects
            } else {
                FolderMeaning::Unknown
            }
        },
        _ => FolderMeaning::Unknown,
    }
}

/// Says what a folder is for. The attributes that the server lists come
/// first; where there are none or none is recognised, the name decides.
pub fn get_folder_meaning(folder_name: &Folder) -> (meaning: FolderMeaning)
    ensures
        meaning == folder_meaning(*folder_name),
{
    let mut res = FolderMeaning::Unknown;
    let mut i: usize = 0;
    while i < folder_name.attributes.len()
        invariant
            i <= folder_name.attributes.len(),
            res == attributes_meaning(folder_name.attributes@.take(i as int)),
        decreases folder_name.attributes.len() - i,
    {
        proof {
            assert(folder_name.attributes@.take(i + 1).drop_last()
                =~= folder_name.attributes@.take(i as int));
        }
        match tag_meaning_of(&folder_name.attributes[i]) {
            FolderMeaning::Unknown => {},
            meaning => {
                res = meaning;
            },
        }
        i += 1;
    }
    proof {
        assert(folder_name.attributes@.take(folder_name.attributes.len() as int)
            =~= folder_name.attributes@);
    }
    match res {
        FolderMeaning::Unknown => get_folder_meaning_by_name(folder_name),
        _ => res,
    }
}

/// The name of the folder for moved messages below the inbox: `INBOX`, the
/// server's hierarchy delimiter, `DeltaChat`.
pub fn fallback_folder(delimiter: char) -> (name: String)
    ensures
        name@ == fallback_name(delimiter),
{
    let mut name = String::from_str("INBOX");
    push_char(&mut name, delimiter);
    name.append(MVBOX_NAME);
    name
}

/// Says which folder takes moved messages after the attempt to create one:
/// `plain_created` tells whether the plain name could be created,
/// `nested_created` whether the name below the inbox could, which is tried
/// only after the plain name failed.
pub fn created_mvbox(delimiter: char, plain_created: bool, nested_created: bool) -> (name: Option<
    String,
>)
    ensures
        crate::state::opt_text(name) == created_name(delimiter, plain_created, nested_created),
{
    if plain_created {
        Some(String::from_str(MVBOX_NAME))
    } else if nested_created {
        Some(fallback_folder(delimiter))
    } else {
        None
    }
}

/// Lists what is to be stored once the folders are configured: `mvbox` is the
/// folder for moved messages that was found or created, `sentbox` the folder
/// for sent messages that was found.
pub fn folders_to_store(mvbox: Option<&str>, sentbox: Option<&str>) -> (entries: Vec<ConfigEntry>)
    ensures
        entries@.map_values(|e: ConfigEntry| entry_text(e)) == stored_roles(
            match mvbox {
                Some(name) => Some(name@),
                None => None,
            },
            match sentbox {
                Some(name) => Some(name@),
                None => None,
            },
        ),
{
    let mut entries: Vec<ConfigEntry> = Vec::new();
    entries.push(
        ConfigEntry { key: String::from_str(KEY_FOLDERS_CONFIGURED), value: String::from_str("3") },
    );
    if let Some(name) = mvbox {
        entries.push(
            ConfigEntry { key: String::from_str(KEY_MVBOX_FOLDER), value: String::from_str(name) },
        );
    }
    if let Some(name) = sentbox {
        entries.push(
            ConfigEntry { key: String::from_str(KEY_SENTBOX_FOLDER), value: String::from_str(name) },
        );
    }
    proof {
        assert(entries@.map_values(|e: ConfigEntry| entry_text(e)) =~= stored_roles(
            match mvbox {
                Some(name) => Some(name@),
                None => None,
            },
            match sentbox {
                Some(name) => Some(name@),
                None => None,
            },
        ));
    }
    entries
}

impl Imap {
    /// Chooses the folders for moved and for sent messages among those that
    /// the server lists. Nothing is chosen while the engine is not
    /// connected. The folder for moved messages is the first that bears the
    /// plain name or the name below the inbox; the folder for sent messages
    /// is the first whose meaning says so. If no folder for moved messages
    /// exists and `flags` ask for it, one is to be created.
    pub fn configure_folders(&self, folders: &Vec<Folder>, flags: libc::c_int) -> (plan: Option<
        FolderPlan,
    >)
        ensures
            plan is Some == self@.connected,
            plan matches Some(found) ==> {
                &&& crate::state::opt_text(found.mvbox_folder) == name_at(
                    folders@,
                    first_mvbox(folders@, self@.config.imap_delimiter, 0),
                )
                &&& crate::state::opt_text(found.sentbox_folder) == name_at(
                    folders@,
                    first_sentbox(folders@, 0),
                )
                &&& found.create_mvbox == (found.mvbox_folder is None && (flags & DC_CREATE_MVBOX)
                    != 0)
            },
    {
        if !self.connected {
            return None;
        }
        let delimiter = self.config.imap_delimiter;
        let fallback = fallback_folder(delimiter);
        let mut mvbox_folder: Option<String> = None;
        let mut sentbox_folder: Option<String> = None;
        let mut i: usize = 0;
        proof {
            first_mvbox_in_range(folders@, delimiter, 0);
            first_sentbox_in_range(folders@, 0);
        }
        while i < folders.len()
            invariant
                i <= folders.len(),
                fallback@ == fallback_name(delimiter),
                match mvbox_folder {
                    Some(name) => name@ == folders@[first_mvbox(folders@, delimiter, 0)].name@
                        && first_mvbox(folders@, delimiter, 0) < i,
                    None => first_mvbox(folders@, delimiter, i as int) == first_mvbox(
                        folders@,
                        delimiter,
                        0,
                    ),
                },
                match sentbox_folder {
                    Some(name) => name@ == folders@[first_sentbox(folders@, 0)].name@
                        && first_sentbox(folders@, 0) < i,
                    None => first_sentbox(folders@, i as int) == first_sentbox(folders@, 0),
                },
                0 <= first_mvbox(folders@, delimiter, 0),
                0 <= first_sentbox(folders@, 0),
            decreases folders.len() - i,
        {
            proof {
                first_mvbox_in_range(folders@, delimiter, i as int);
                first_sentbox_in_range(folders@, i as int);
            }
            let folder = &folders[i];
            if mvbox_folder.is_none() && (same_text(folder.name.as_str(), MVBOX_NAME) || same_text(
                folder.name.as_str(),
                fallback.as_str(),
            )) {
                mvbox_folder = Some(folder.name.clone());
            }
            if sentbox_folder.is_none() {
                match get_folder_meaning(folder) {
                    FolderMeaning::SentObjects => {
                        sentbox_folder = Some(folder.name.clone());
                    },
                    _ => {},
                }
            }
            i += 1;
        }
        let create_mvbox = mvbox_folder.is_none() && (flags & DC_CREATE_MVBOX) != 0;
        Some(FolderPlan { mvbox_folder, sentbox_folder, create_mvbox })
    }
}

/// A folder that bears one of the tags for spam, trash, drafts or junk, and
/// no tag after it that says otherwise, is never taken for the folder of sent
/// messages, whatever its name.
pub proof fn tagged_folder_is_not_a_sentbox(folder: Folder)
    requires
        folder.attributes@.len() > 0,
        tag_meaning(folder.attributes@.last()) == FolderMeaning::Other,
    ensures
        folder_meaning(folder) == FolderMeaning::Other,
{
}

/// A folder whose last tag is the one for sent mail is the folder of sent
/// messages, whatever its name.
pub proof fn sent_tag_decides(folder: Folder)
    requires
        folder.attributes@.len() > 0,
        tag_meaning(folder.attributes@.last()) == FolderMeaning::SentObjects,
    ensures
        folder_meaning(folder) == FolderMeaning::SentObjects,
{
}

} // verus!
