//! Listing a directory from what was observed of it.
//!
//! The caller probes the disk once and hands over what it saw as a
//! `DirProbe`; the listing is a function of that snapshot alone. Entries
//! come out in the order in which the directory yielded its children, and
//! the first child that could not be read fails the whole listing.
//!
//! A node is a directory only where the node itself is one: a symbolic
//! link is listed as a file, whatever it points to, so a listing never
//! walks into a cycle of links.

use vstd::prelude::*;
use crate::entry::{EntryKind, EntryModel, FileEntry, models};
use crate::error::{CommandError, ErrorKind, ErrorModel};
use crate::name::{extension_of, spec_extension};
use crate::timestamp::{render_or_epoch, text_or_epoch, Timestamp};

verus! {

/// What the operating system reported of one readable child.
#[derive(Debug)]
pub struct NodeProbe {
    /// The base name of the child.
    pub name: String,
    /// The absolute path of the child.
    pub path: String,
    /// Whether the child itself is a directory.
    pub is_dir: bool,
    /// The length in bytes that was reported.
    pub size: u64,
    /// When the child was last modified, where the system could tell and
    /// the instant can be rendered.
    pub modified: Option<Timestamp>,
    /// What the child holds, where it is a directory that was looked into.
    pub contents: Option<DirProbe>,
}

/// One item that the enumeration of a directory yielded.
#[derive(Debug)]
pub enum ChildProbe {
    /// The enumeration failed at this item; carries the cause.
    EntryFailed(String),
    /// The item was found, its metadata could not be read; carries the cause.
    MetadataFailed(String),
    /// The item and its metadata were read.
    Node(NodeProbe),
}

/// What was observed at a path that was to be listed.
#[derive(Debug)]
pub enum DirProbe {
    /// Nothing exists at the path.
    Missing,
    /// Something exists there, its children could not be enumerated;
    /// carries the cause.
    Unreadable(String),
    /// The children, in the order in which they were yielded.
    Children(Vec<ChildProbe>),
}

/// The reply to a listing of `path`, given what was observed there.
pub open spec fn spec_list(path: Seq<char>, recursive: bool, probe: DirProbe) -> Result<
    Seq<EntryModel>,
    ErrorModel,
>
    decreases probe, 0nat,
{
    match probe {
        DirProbe::Missing => Err(ErrorModel::PathNotFound(path)),
        DirProbe::Unreadable(cause) => Err(ErrorModel::DirectoryRead(cause@)),
        DirProbe::Children(children) => spec_entries(children@, children@.len(), recursive),
    }
}

/// The entries of the first `upto` children: the error of the first child
/// among them that has one, else one entry for each, in order.
pub open spec fn spec_entries(children: Seq<ChildProbe>, upto: nat, recursive: bool) -> Result<
    Seq<EntryModel>,
    ErrorModel,
>
    decreases children, upto,
{
    if upto == 0 || upto > children.len() {
        Ok(Seq::empty())
    } else {
        match spec_entries(children, (upto - 1) as nat, recursive) {
            Err(error) => Err(error),
            Ok(before) => match spec_entry(children[upto - 1], recursive) {
                Err(error) => Err(error),
                Ok(entry) => Ok(before.push(entry)),
            },
        }
    }
}

/// The entry of one child, or why the child fails the listing.
///
/// A directory has no extension and no size. In a recursive listing it has
/// as children the listing of what it was seen to hold. An entry without a
/// modification time is stamped with the Unix epoch.
pub open spec fn spec_entry(child: ChildProbe, recursive: bool) -> Result<EntryModel, ErrorModel>
    decreases child, 0nat,
{
    match child {
        ChildProbe::EntryFailed(cause) => Err(ErrorModel::DirectoryRead(cause@)),
        ChildProbe::MetadataFailed(cause) => Err(ErrorModel::EntryMetadata(cause@)),
        ChildProbe::Node(node) => {
            let modified = text_or_epoch(node.modified);
            if !node.is_dir {
                Ok(
                    EntryModel::file(
                        node.name@,
                        node.path@,
                        spec_extension(node.name@),
                        node.size as nat,
                        modified,
                    ),
                )
            } else if recursive && node.contents is Some {
                match spec_list(node.path@, true, node.contents->0) {
                    Err(error) => Err(error),
                    Ok(inner) => Ok(
                        EntryModel::folder(node.name@, node.path@, modified, Some(inner)),
                    ),
                }
            } else {
                Ok(EntryModel::folder(node.name@, node.path@, modified, None))
            }
        },
    }
}

/// The mathematical content of a listing's reply.
pub open spec fn reply_model(reply: Result<Vec<FileEntry>, CommandError>) -> Result<
    Seq<EntryModel>,
    ErrorModel,
> {
    match reply {
        Ok(entries) => Ok(models(entries@)),
        Err(error) => Err(error@),
    }
}

/// Whether a listing wants to know what a child holds: only a recursive
/// listing does, and only of a directory.
pub fn looks_into(recursive: bool, is_dir: bool) -> (wanted: bool)
    ensures
        wanted == (recursive && is_dir),
{
    recursive && is_dir
}

/// The entry of one child of a listed directory.
pub fn entry_of(child: &ChildProbe, recursive: bool) -> (reply: Result<FileEntry, CommandError>)
    ensures
        match reply {
            Ok(entry) => spec_entry(*child, recursive) == Ok::<EntryModel, ErrorModel>(entry@),
            Err(error) => spec_entry(*child, recursive) == Err::<EntryModel, ErrorModel>(error@),
        },
    decreases child, 0nat,
{
    match child {
        ChildProbe::EntryFailed(cause) => Err(CommandError::DirectoryRead(cause.clone())),
        ChildProbe::MetadataFailed(cause) => Err(CommandError::EntryMetadata(cause.clone())),
        ChildProbe::Node(node) => {
            let modified = render_or_epoch(node.modified);
            if !node.is_dir {
                let extension = extension_of(node.name.as_str());
                Ok(
                    FileEntry::file(
                        node.name.clone(),
                        node.path.clone(),
                        extension,
                        node.size,
                        modified,
                    ),
                )
            } else {
                match &node.contents {
                    Some(contents) if recursive => {
                        match list_files(node.path.clone(), true, contents) {
                            Err(error) => Err(error),
                            Ok(inner) => Ok(
                                FileEntry::folder(
                                    node.name.clone(),
                                    node.path.clone(),
                                    modified,
                                    Some(inner),
                                ),
                            ),
                        }
                    },
                    _ => Ok(
                        FileEntry::folder(node.name.clone(), node.path.clone(), modified, None),
                    ),
                }
            }
        },
    }
}

/// Lists the directory at `path` from what was observed there.
///
/// Fails with `PathNotFound` where nothing exists at the path, with
/// `DirectoryRead` where the children could not be enumerated, and with the
/// error of the first child that could not be read. Otherwise the reply
/// holds one entry for each child, in order; with `recursive`, a directory
/// whose contents were observed carries their listing as its children.
pub fn list_files(path: String, recursive: bool, probe: &DirProbe) -> (reply: Result<
    Vec<FileEntry>,
    CommandError,
>)
    ensures
        reply_model(reply) == spec_list(path@, recursive, *probe),
        *probe is Missing ==> reply is Err && reply_model(reply) == Err::<
            Seq<EntryModel>,
            ErrorModel,
        >(ErrorModel::PathNotFound(path@)),
    decreases probe, 0nat,
{
    match probe {
        DirProbe::Missing => Err(CommandError::PathNotFound(path)),
        DirProbe::Unreadable(cause) => Err(CommandError::DirectoryRead(cause.clone())),
        DirProbe::Children(children) => {
            let mut entries: Vec<FileEntry> = Vec::new();
            let mut next: usize = 0;
            assert(models(entries@) =~= Seq::empty());
            while next < children.len()
                invariant
                    next <= children@.len(),
                    *probe == DirProbe::Children(*children),
                    spec_entries(children@, next as nat, recursive) == Ok::<
                        Seq<EntryModel>,
                        ErrorModel,
                    >(models(entries@)),
                decreases children@.len() - next,
            {
                match entry_of(&children[next], recursive) {
                    Err(error) => {
                        proof {
                            lemma_entries_error_stays(
                                children@,
                                (next + 1) as nat,
                                children@.len(),
                                recursive,
                            );
                        }
                        return Err(error);
                    },
                    Ok(entry) => {
                        let ghost before = models(entries@);
                        entries.push(entry);
                        assert(models(entries@) =~= before.push(entry@));
                    },
                }
                next = next + 1;
            }
            Ok(entries)
        },
    }
}

/// Once the first `upto` children fail a listing, so do the first `all`,
/// and with the same error.
pub proof fn lemma_entries_error_stays(
    children: Seq<ChildProbe>,
    upto: nat,
    all: nat,
    recursive: bool,
)
    requires
        upto <= all <= children.len(),
        spec_entries(children, upto, recursive) is Err,
    ensures
        spec_entries(children, all, recursive) == spec_entries(children, upto, recursive),
    decreases all,
{
    if upto < all {
        lemma_entries_error_stays(children, upto, (all - 1) as nat, recursive);
    }
}

/// A listing read child by child: it succeeds where every child yields an
/// entry, and then holds those entries in order; it fails with the error of
/// the first child that yields none.
pub proof fn lemma_entries_by_index(children: Seq<ChildProbe>, upto: nat, recursive: bool)
    requires
        upto <= children.len(),
    ensures
        match spec_entries(children, upto, recursive) {
            Ok(entries) => {
                &&& entries.len() == upto
                &&& forall|i: int|
                    0 <= i < upto ==> spec_entry(#[trigger] children[i], recursive) == Ok::<
                        EntryModel,
                        ErrorModel,
                    >(entries[i])
            },
            Err(error) => exists|first: int|
                {
                    &&& 0 <= first < upto
                    &&& spec_entry(#[trigger] children[first], recursive) == Err::<
                        EntryModel,
                        ErrorModel,
                    >(error)
                    &&& forall|j: int|
                        0 <= j < first ==> spec_entry(#[trigger] children[j], recursive) is Ok
                },
        },
    decreases upto,
{
    if upto > 0 {
        let shorter = (upto - 1) as nat;
        lemma_entries_by_index(children, shorter, recursive);
        match spec_entries(children, shorter, recursive) {
            Err(error) => {},
            Ok(before) => {
                match spec_entry(children[upto - 1], recursive) {
                    Err(error) => {
                        assert(spec_entry(children[upto - 1], recursive) == Err::<
                            EntryModel,
                            ErrorModel,
                        >(error));
                    },
                    Ok(entry) => {},
                }
            },
        }
    }
}

/// A flat listing of a directory whose children were all read holds
/// exactly one entry for each child, in order, under the child's name and
/// path, as a folder where the child is a directory and as a file where it
/// is not, with the size and extension of a file or none, and without
/// children.
pub proof fn law_flat_listing_mirrors_children(path: Seq<char>, probe: DirProbe)
    requires
        probe is Children,
        forall|i: int| 0 <= i < probe->Children_0@.len() ==> probe->Children_0@[i] is Node,
    ensures
        spec_list(path, false, probe) is Ok,
        ({
            let children = probe->Children_0@;
            let entries = spec_list(path, false, probe)->Ok_0;
            &&& entries.len() == children.len()
            &&& forall|i: int|
                #![trigger entries[i]]
                0 <= i < children.len() ==> {
                    let node = children[i]->Node_0;
                    &&& entries[i].name == node.name@
                    &&& entries[i].path == node.path@
                    &&& entries[i].kind == if node.is_dir {
                        EntryKind::Folder
                    } else {
                        EntryKind::File
                    }
                    &&& entries[i].extension == if node.is_dir {
                        Seq::<char>::empty()
                    } else {
                        spec_extension(node.name@)
                    }
                    &&& entries[i].size == if node.is_dir {
                        0
                    } else {
                        node.size as nat
                    }
                    &&& entries[i].modified == text_or_epoch(node.modified)
                    &&& entries[i].children is None
                }
        }),
{
    let children = probe->Children_0@;
    lemma_entries_by_index(children, children.len(), false);
    assert forall|i: int| 0 <= i < children.len() implies spec_entry(
        #[trigger] children[i],
        false,
    ) is Ok by {
        assert(children[i] is Node);
    }
}

/// Listing a path at which nothing exists fails as `NotFound`, flat or
/// recursive, and names the path.
pub proof fn law_missing_path_not_found(path: Seq<char>, recursive: bool)
    ensures
        spec_list(path, recursive, DirProbe::Missing) == Err::<Seq<EntryModel>, ErrorModel>(
            ErrorModel::PathNotFound(path),
        ),
        ErrorModel::PathNotFound(path).kind() == ErrorKind::NotFound,
{
}

/// No entry of a flat listing has children.
pub proof fn law_flat_listing_has_no_children(path: Seq<char>, probe: DirProbe)
    ensures
        spec_list(path, false, probe) matches Ok(entries) ==> forall|i: int|
            0 <= i < entries.len() ==> (#[trigger] entries[i]).children is None,
{
    if let DirProbe::Children(children) = probe {
        lemma_entries_by_index(children@, children@.len(), false);
        if let Ok(entries) = spec_list(path, false, probe) {
            assert forall|i: int| 0 <= i < entries.len() implies (
            #[trigger] entries[i]).children is None by {
                assert(spec_entry(children@[i], false) == Ok::<EntryModel, ErrorModel>(
                    entries[i],
                ));
            }
        }
    }
}

/// Whether the children that were read have pairwise distinct paths.
pub open spec fn distinct_paths(children: Seq<ChildProbe>) -> bool {
    forall|i: int, j: int|
        0 <= i < j < children.len() && (#[trigger] children[i]) is Node && (
        #[trigger] children[j]) is Node ==> children[i]->Node_0.path@ != children[j]->Node_0.path@
}

/// Identifiers are unique within one listing: where no two children share
/// a path, no two entries share an identifier.
pub proof fn law_identifiers_unique(path: Seq<char>, recursive: bool, probe: DirProbe)
    requires
        probe is Children,
        distinct_paths(probe->Children_0@),
        spec_list(path, recursive, probe) is Ok,
    ensures
        ({
            let entries = spec_list(path, recursive, probe)->Ok_0;
            forall|i: int, j: int|
                0 <= i < j < entries.len() ==> (#[trigger] entries[i]).id != (
                #[trigger] entries[j]).id
        }),
{
    let children = probe->Children_0@;
    let entries = spec_list(path, recursive, probe)->Ok_0;
    lemma_entries_by_index(children, children.len(), recursive);
    assert forall|i: int, j: int| 0 <= i < j < entries.len() implies (#[trigger] entries[i]).id
        != (#[trigger] entries[j]).id by {
        lemma_entry_keeps_path(children[i], recursive);
        lemma_entry_keeps_path(children[j], recursive);
    }
}

/// The entry of a child is that of a child that was read, and carries its
/// name, and its path as path and identifier.
pub proof fn lemma_entry_keeps_path(child: ChildProbe, recursive: bool)
    ensures
        spec_entry(child, recursive) matches Ok(entry) ==> {
            &&& child is Node
            &&& entry.name == child->Node_0.name@
            &&& entry.path == child->Node_0.path@
            &&& entry.id == child->Node_0.path@
        },
{
}

/// Every entry of a listing is well formed and carries no tag, and so are
/// the entries below it.
pub proof fn law_listing_well_formed(path: Seq<char>, recursive: bool, probe: DirProbe)
    ensures
        spec_list(path, recursive, probe) matches Ok(entries) ==> all_well_formed(entries),
    decreases probe, 0nat,
{
    if let DirProbe::Children(children) = probe {
        lemma_entries_well_formed(children@, children@.len(), recursive);
    }
}

/// Each of `entries` is well formed and carries no tag.
pub open spec fn all_well_formed(entries: Seq<EntryModel>) -> bool {
    forall|i: int|
        0 <= i < entries.len() ==> (#[trigger] entries[i]).wf() && entries[i].tags.len() == 0
}

/// The entries of the first `upto` children are well formed, tagless.
pub proof fn lemma_entries_well_formed(children: Seq<ChildProbe>, upto: nat, recursive: bool)
    ensures
        spec_entries(children, upto, recursive) matches Ok(entries) ==> all_well_formed(entries),
    decreases children, upto,
{
    if !(upto == 0 || upto > children.len()) {
        lemma_entries_well_formed(children, (upto - 1) as nat, recursive);
        lemma_entry_well_formed(children[upto - 1], recursive);
    }
}

/// The entry of one child is well formed, tagless.
pub proof fn lemma_entry_well_formed(child: ChildProbe, recursive: bool)
    ensures
        spec_entry(child, recursive) matches Ok(entry) ==> entry.wf() && entry.tags.len() == 0,
    decreases child, 0nat,
{
    if let ChildProbe::Node(node) = child {
        if node.is_dir && recursive && node.contents is Some {
            law_listing_well_formed(node.path@, true, node.contents->0);
        }
    }
}

} // verus!
