//! The record that describes one node shown to the user.

use vstd::prelude::*;

verus! {

/// What sort of node an entry describes.
#[derive(Clone, Copy, Debug, PartialEq, Eq, Structural)]
pub enum EntryKind {
    File,
    Folder,
    Disk,
}

impl EntryKind {
    /// The lower-case word by which a kind is known outside the program.
    pub open spec fn spec_label(self) -> Seq<char> {
        match self {
            EntryKind::File => "file"@,
            EntryKind::Folder => "folder"@,
            EntryKind::Disk => "disk"@,
        }
    }

    /// The kind that is known by `word`, if any is.
    pub open spec fn spec_from_label(word: Seq<char>) -> Option<EntryKind> {
        if word == EntryKind::File.spec_label() {
            Some(EntryKind::File)
        } else if word == EntryKind::Folder.spec_label() {
            Some(EntryKind::Folder)
        } else if word == EntryKind::Disk.spec_label() {
            Some(EntryKind::Disk)
        } else {
            None
        }
    }

    /// The kind that is known by `word`; `None` for any other word.
    pub fn from_label(word: &str) -> (kind: Option<EntryKind>)
        ensures
            kind == EntryKind::spec_from_label(word@),
    {
        let word = String::from_str(word);
        if word == String::from_str("file") {
            Some(EntryKind::File)
        } else if word == String::from_str("folder") {
            Some(EntryKind::Folder)
        } else if word == String::from_str("disk") {
            Some(EntryKind::Disk)
        } else {
            None
        }
    }

    /// Each kind is known by a word of its own, so the word of a kind leads
    /// back to that kind.
    pub proof fn law_label_round_trip(kind: EntryKind)
        ensures
            EntryKind::spec_from_label(kind.spec_label()) == Some(kind),
    {
        reveal_strlit("file");
        reveal_strlit("folder");
        reveal_strlit("disk");
        assert("file"@.len() == 4 && "folder"@.len() == 6 && "disk"@.len() == 4);
        assert("file"@[0] == 'f' && "disk"@[0] == 'd');
    }

    /// The lower-case word by which a kind is known outside the program.
    pub fn label(self) -> (word: String)
        ensures
            word@ == self.spec_label(),
    {
        match self {
            EntryKind::File => String::from_str("file"),
            EntryKind::Folder => String::from_str("folder"),
            EntryKind::Disk => String::from_str("disk"),
        }
    }
}

/// A uniform descriptor of a file, a folder or a disk.
#[derive(Debug)]
pub struct FileEntry {
    pub id: String,
    pub name: String,
    pub path: String,
    pub extension: String,
    pub size: u64,
    pub modified: String,
    pub kind: EntryKind,
    pub tags: Vec<String>,
    pub children: Option<Vec<FileEntry>>,
}

/// The mathematical content of a `FileEntry`.
pub struct EntryModel {
    pub id: Seq<char>,
    pub name: Seq<char>,
    pub path: Seq<char>,
    pub extension: Seq<char>,
    pub size: nat,
    pub modified: Seq<char>,
    pub kind: EntryKind,
    pub tags: Seq<Seq<char>>,
    pub children: Option<Seq<EntryModel>>,
}

/// What an entry holds, with its children's contents in their place.
pub open spec fn entry_model(entry: FileEntry) -> EntryModel
    decreases entry,
{
    EntryModel {
        id: entry.id@,
        name: entry.name@,
        path: entry.path@,
        extension: entry.extension@,
        size: entry.size as nat,
        modified: entry.modified@,
        kind: entry.kind,
        tags: Seq::new(entry.tags@.len(), |i: int| entry.tags@[i]@),
        children: match entry.children {
            None => None,
            Some(list) => Some(
                Seq::new(
                    list@.len(),
                    |i: int|
                        if 0 <= i < list@.len() {
                            entry_model(list@[i])
                        } else {
                            arbitrary()
                        },
                ),
            ),
        },
    }
}

impl View for FileEntry {
    type V = EntryModel;

    open spec fn view(&self) -> EntryModel {
        entry_model(*self)
    }
}

impl EntryModel {
    /// The entry of a plain file.
    pub open spec fn file(
        name: Seq<char>,
        path: Seq<char>,
        extension: Seq<char>,
        size: nat,
        modified: Seq<char>,
    ) -> EntryModel {
        EntryModel {
            id: path,
            name,
            path,
            extension,
            size,
            modified,
            kind: EntryKind::File,
            tags: Seq::empty(),
            children: None,
        }
    }

    /// The entry of a folder, with its contents where they were listed.
    pub open spec fn folder(
        name: Seq<char>,
        path: Seq<char>,
        modified: Seq<char>,
        children: Option<Seq<EntryModel>>,
    ) -> EntryModel {
        EntryModel {
            id: path,
            name,
            path,
            extension: Seq::empty(),
            size: 0,
            modified,
            kind: EntryKind::Folder,
            tags: Seq::empty(),
            children,
        }
    }

    /// The entry of a disk.
    pub open spec fn disk(name: Seq<char>, path: Seq<char>, modified: Seq<char>) -> EntryModel {
        EntryModel {
            id: path,
            name,
            path,
            extension: Seq::empty(),
            size: 0,
            modified,
            kind: EntryKind::Disk,
            tags: Seq::empty(),
            children: None,
        }
    }

    /// What holds of every entry that a command hands out: its identifier
    /// is its path; a disk or a folder has no extension and no size; only a
    /// folder has children, and each of them is such an entry too.
    pub open spec fn wf(self) -> bool
        decreases self,
    {
        &&& self.id == self.path
        &&& self.kind != EntryKind::File ==> self.extension.len() == 0 && self.size == 0
        &&& self.kind != EntryKind::Folder ==> self.children is None
        &&& match self.children {
            None => true,
            Some(list) => forall|i: int| 0 <= i < list.len() ==> (#[trigger] list[i]).wf(),
        }
    }
}

/// The models of the entries of an optional list.
pub open spec fn optional_models(entries: Option<Vec<FileEntry>>) -> Option<Seq<EntryModel>> {
    match entries {
        None => None,
        Some(list) => Some(models(list@)),
    }
}

impl FileEntry {
    /// The entry of a plain file, without tags.
    pub fn file(name: String, path: String, extension: String, size: u64, modified: String) -> (entry:
        FileEntry)
        ensures
            entry@ == EntryModel::file(name@, path@, extension@, size as nat, modified@),
    {
        let entry = FileEntry {
            id: path.clone(),
            name,
            path,
            extension,
            size,
            modified,
            kind: EntryKind::File,
            tags: Vec::new(),
            children: None,
        };
        assert(entry@.tags =~= Seq::empty());
        entry
    }

    /// The entry of a folder, without tags; `children` is what the folder
    /// holds, where that was listed.
    pub fn folder(
        name: String,
        path: String,
        modified: String,
        children: Option<Vec<FileEntry>>,
    ) -> (entry: FileEntry)
        ensures
            entry@ == EntryModel::folder(name@, path@, modified@, optional_models(children)),
    {
        let entry = FileEntry {
            id: path.clone(),
            name,
            path,
            extension: String::new(),
            size: 0,
            modified,
            kind: EntryKind::Folder,
            tags: Vec::new(),
            children,
        };
        proof {
            assert(entry@.tags =~= Seq::empty());
            if entry.children is Some {
                assert(entry@.children->0 =~= models(entry.children->0@));
            }
        }
        entry
    }

    /// The entry of a disk, without tags.
    pub fn disk(name: String, path: String, modified: String) -> (entry: FileEntry)
        ensures
            entry@ == EntryModel::disk(name@, path@, modified@),
    {
        let entry = FileEntry {
            id: path.clone(),
            name,
            path,
            extension: String::new(),
            size: 0,
            modified,
            kind: EntryKind::Disk,
            tags: Vec::new(),
            children: None,
        };
        assert(entry@.tags =~= Seq::empty());
        entry
    }
}

/// The models of the entries of a list, in order.
pub open spec fn models(entries: Seq<FileEntry>) -> Seq<EntryModel> {
    Seq::new(entries.len(), |i: int| entries[i]@)
}

} // verus!
