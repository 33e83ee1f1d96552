//! Renaming, deleting and creating, one decision at a time.
//!
//! A command that changes the disk never touches it here. It looks at what
//! the caller observed and either refuses, or hands back a pending step
//! that names the one operation to perform; the caller performs it and
//! reports how it went, and `finish` turns that report into the reply. A
//! refusal hands back no pending step, so nothing is left half done.

use vstd::prelude::*;
use crate::error::{CommandError, ErrorKind, ErrorModel};

verus! {

/// How a file-system operation went, with the cause where it failed.
pub open spec fn outcome_model(outcome: Result<(), String>) -> Result<(), Seq<char>> {
    match outcome {
        Ok(_) => Ok(()),
        Err(cause) => Err(cause@),
    }
}

/// The mathematical content of a reply that carries a path.
pub open spec fn path_reply_model(reply: Result<String, CommandError>) -> Result<
    Seq<char>,
    ErrorModel,
> {
    match reply {
        Ok(path) => Ok(path@),
        Err(error) => Err(error@),
    }
}

/// The mathematical content of a reply that carries nothing.
pub open spec fn unit_reply_model(reply: Result<(), CommandError>) -> Result<(), ErrorModel> {
    match reply {
        Ok(_) => Ok(()),
        Err(error) => Err(error@),
    }
}

/// The reply to creating a folder at `path`: refused where a node is
/// already there; else the path itself, or the cause for which the
/// creation failed.
pub open spec fn spec_create_folder(
    path: Seq<char>,
    exists: bool,
    outcome: Result<(), Seq<char>>,
) -> Result<Seq<char>, ErrorModel> {
    if exists {
        Err(ErrorModel::AlreadyExists)
    } else {
        match outcome {
            Ok(_) => Ok(path),
            Err(cause) => Err(ErrorModel::Io(cause)),
        }
    }
}

/// The reply to a rename whose sibling path is `target`: invalid where
/// there is no such path; refused where a node is already there; else the
/// new path, or the cause for which the rename failed.
pub open spec fn spec_rename(
    target: Option<Seq<char>>,
    target_exists: bool,
    outcome: Result<(), Seq<char>>,
) -> Result<Seq<char>, ErrorModel> {
    match target {
        None => Err(ErrorModel::InvalidPath),
        Some(new_path) => {
            if target_exists {
                Err(ErrorModel::DestinationExists)
            } else {
                match outcome {
                    Ok(_) => Ok(new_path),
                    Err(cause) => Err(ErrorModel::Io(cause)),
                }
            }
        },
    }
}

/// The reply to a deletion: nothing, or the cause for which the item could
/// not be moved to the trash.
pub open spec fn spec_delete(outcome: Result<(), Seq<char>>) -> Result<(), ErrorModel> {
    match outcome {
        Ok(_) => Ok(()),
        Err(cause) => Err(ErrorModel::Delete(cause)),
    }
}

/// A folder that is to be created, with every parent that is missing.
#[derive(Debug)]
pub struct PendingCreate {
    target: String,
}

/// A rename that waits to learn whether its new path is free.
#[derive(Debug)]
pub struct RenameProbe {
    source: String,
    target: String,
}

/// A rename that is to be performed.
#[derive(Debug)]
pub struct PendingRename {
    source: String,
    target: String,
}

/// An item that is to be moved to the trash.
#[derive(Debug)]
pub struct PendingDelete {
    target: String,
}

/// Starts the creation of a folder at `path`, given whether a node already
/// occupies that path.
pub fn create_folder(path: String, exists: bool) -> (reply: Result<PendingCreate, CommandError>)
    ensures
        exists ==> (reply matches Err(error) && error@ == ErrorModel::AlreadyExists),
        !exists ==> (reply matches Ok(pending) && pending.target_path() == path@),
{
    if exists {
        Err(CommandError::AlreadyExists)
    } else {
        Ok(PendingCreate { target: path })
    }
}

impl PendingCreate {
    /// The path of the folder to create.
    pub closed spec fn target_path(&self) -> Seq<char> {
        self.target@
    }

    /// The path of the folder to create.
    pub fn target(&self) -> (path: &str)
        ensures
            path@ == self.target_path(),
    {
        self.target.as_str()
    }

    /// The reply, given how the creation went.
    pub fn finish(self, outcome: Result<(), String>) -> (reply: Result<String, CommandError>)
        ensures
            path_reply_model(reply) == spec_create_folder(
                self.target_path(),
                false,
                outcome_model(outcome),
            ),
    {
        match outcome {
            Ok(_) => Ok(self.target),
            Err(cause) => Err(CommandError::Io(cause)),
        }
    }
}

/// The parent directory of `path`: the path without its last component, as
/// the platform for which the library is built reads paths; `None` where
/// the path ends in a root or a prefix, or is empty.
pub uninterp spec fn path_parent(path: Seq<char>) -> Option<Seq<char>>;

/// The path `name` adjoined to the directory `dir`, as the platform for
/// which the library is built joins paths.
pub uninterp spec fn path_join(dir: Seq<char>, name: Seq<char>) -> Seq<char>;

/// The path that a rename of `path` to `new_name` gives the node: its
/// parent directory joined with the new name; `None` where `path` has no
/// parent.
pub open spec fn spec_sibling(path: Seq<char>, new_name: Seq<char>) -> Option<Seq<char>> {
    match path_parent(path) {
        Some(dir) => Some(path_join(dir, new_name)),
        None => None,
    }
}

/// Calls `std::path::Path::parent` on the path that `path` spells.
///
/// Not proved: that what comes back depends on the characters of `path`
/// alone, which `path_parent` names, and that the empty path has no parent.
#[verifier::external_body]
fn parent_of(path: &str) -> (parent: Option<String>)
    ensures
        match parent {
            Some(dir) => path_parent(path@) == Some(dir@),
            None => path_parent(path@) is None,
        },
        path@.len() == 0 ==> parent is None,
{
    match std::path::Path::new(path).parent() {
        Some(dir) => Some(dir.to_string_lossy().into_owned()),
        None => None,
    }
}

/// Calls `std::path::Path::join` to adjoin `name` to the directory `dir`.
///
/// Not proved: that what comes back depends on the characters of the two
/// arguments alone, which `path_join` names.
#[verifier::external_body]
fn join_path(dir: &str, name: &str) -> (joined: String)
    ensures
        joined@ == path_join(dir@, name@),
{
    std::path::Path::new(dir).join(name).to_string_lossy().into_owned()
}

/// Starts the rename of the node at `path` to `new_name` within the same
/// directory.
///
/// The new path is the parent directory of `path` joined with `new_name`.
/// Fails with `InvalidPath` exactly where `path` has no parent, as the
/// empty path has none; nothing is probed or changed then.
pub fn rename_item(path: String, new_name: String) -> (reply: Result<RenameProbe, CommandError>)
    ensures
        spec_sibling(path@, new_name@) is None ==> (reply matches Err(error) && error@
            == ErrorModel::InvalidPath),
        spec_sibling(path@, new_name@) matches Some(new_path) ==> (reply matches Ok(probe)
            && probe.source_path() == path@ && probe.target_path() == new_path),
        path@.len() == 0 ==> reply is Err,
{
    let target = match parent_of(path.as_str()) {
        Some(dir) => Some(join_path(dir.as_str(), new_name.as_str())),
        None => None,
    };
    plan_rename(path, target)
}

/// Starts the rename of the node at `path`, given its new path; `None`
/// where `path` has no parent directory to hold one.
pub fn plan_rename(path: String, target: Option<String>) -> (reply: Result<
    RenameProbe,
    CommandError,
>)
    ensures
        target is None ==> (reply matches Err(error) && error@ == ErrorModel::InvalidPath),
        target matches Some(new_path) ==> (reply matches Ok(probe) && probe.source_path() == path@
            && probe.target_path() == new_path@),
{
    match target {
        None => Err(CommandError::InvalidPath),
        Some(new_path) => Ok(RenameProbe { source: path, target: new_path }),
    }
}

impl RenameProbe {
    /// The path of the node to rename.
    pub closed spec fn source_path(&self) -> Seq<char> {
        self.source@
    }

    /// The path that the node is to have.
    pub closed spec fn target_path(&self) -> Seq<char> {
        self.target@
    }

    /// The path of the node to rename.
    pub fn source(&self) -> (path: &str)
        ensures
            path@ == self.source_path(),
    {
        self.source.as_str()
    }

    /// The path to probe: the one that the node is to have.
    pub fn target(&self) -> (path: &str)
        ensures
            path@ == self.target_path(),
    {
        self.target.as_str()
    }

    /// Goes on with the rename, given whether a node already occupies the
    /// new path. Where one does, the rename is refused with
    /// `DestinationExists` and no step is left to perform.
    pub fn decide(self, target_exists: bool) -> (reply: Result<PendingRename, CommandError>)
        ensures
            target_exists ==> (reply matches Err(error) && error@ == ErrorModel::DestinationExists
                && error@.kind() == ErrorKind::AlreadyExists),
            !target_exists ==> (reply matches Ok(pending) && pending.source_path()
                == self.source_path() && pending.target_path() == self.target_path()),
    {
        if target_exists {
            Err(CommandError::DestinationExists)
        } else {
            Ok(PendingRename { source: self.source, target: self.target })
        }
    }
}

impl PendingRename {
    /// The path of the node to rename.
    pub closed spec fn source_path(&self) -> Seq<char> {
        self.source@
    }

    /// The path that the node is to have.
    pub closed spec fn target_path(&self) -> Seq<char> {
        self.target@
    }

    /// The path of the node to rename.
    pub fn source(&self) -> (path: &str)
        ensures
            path@ == self.source_path(),
    {
        self.source.as_str()
    }

    /// The path that the node is to have.
    pub fn target(&self) -> (path: &str)
        ensures
            path@ == self.target_path(),
    {
        self.target.as_str()
    }

    /// The reply, given how the rename went.
    pub fn finish(self, outcome: Result<(), String>) -> (reply: Result<String, CommandError>)
        ensures
            path_reply_model(reply) == spec_rename(
                Some(self.target_path()),
                false,
                outcome_model(outcome),
            ),
    {
        match outcome {
            Ok(_) => Ok(self.target),
            Err(cause) => Err(CommandError::Io(cause)),
        }
    }
}

/// Starts the deletion of the node at `path`: it is to be moved to the
/// trash, from where it can be restored.
pub fn delete_item(path: String) -> (pending: PendingDelete)
    ensures
        pending.target_path() == path@,
{
    PendingDelete { target: path }
}

impl PendingDelete {
    /// The path of the node to move to the trash.
    pub closed spec fn target_path(&self) -> Seq<char> {
        self.target@
    }

    /// The path of the node to move to the trash.
    pub fn target(&self) -> (path: &str)
        ensures
            path@ == self.target_path(),
    {
        self.target.as_str()
    }

    /// The reply, given how the move to the trash went.
    pub fn finish(self, outcome: Result<(), String>) -> (reply: Result<(), CommandError>)
        ensures
            unit_reply_model(reply) == spec_delete(outcome_model(outcome)),
    {
        match outcome {
            Ok(_) => Ok(()),
            Err(cause) => Err(CommandError::Delete(cause)),
        }
    }
}

/// Creating the same folder twice in a row succeeds, then is refused.
///
/// `occupied` holds the paths at which a node exists before the first
/// call. The first call finds `path` free and its folder is created; the
/// folder then occupies `path`, so the second call is refused as
/// `AlreadyExists`, however a second creation would have gone.
pub proof fn law_create_twice(
    path: Seq<char>,
    occupied: Set<Seq<char>>,
    second_outcome: Result<(), Seq<char>>,
)
    requires
        !occupied.contains(path),
    ensures
        spec_create_folder(path, occupied.contains(path), Ok(())) == Ok::<Seq<char>, ErrorModel>(
            path,
        ),
        spec_create_folder(path, occupied.insert(path).contains(path), second_outcome) == Err::<
            Seq<char>,
            ErrorModel,
        >(ErrorModel::AlreadyExists),
        ErrorModel::AlreadyExists.kind() == ErrorKind::AlreadyExists,
{
}

/// The reply to the rename of `path` to `new_name`, from start to end: it
/// is that of `spec_rename` on the sibling path. So a path without a
/// parent is invalid whatever the disk holds, an occupied sibling path is
/// refused, and a rename that went through replies the sibling path.
pub proof fn law_rename_replies(
    path: Seq<char>,
    new_name: Seq<char>,
    target_exists: bool,
    outcome: Result<(), Seq<char>>,
)
    ensures
        path_parent(path) is None ==> spec_rename(
            spec_sibling(path, new_name),
            target_exists,
            outcome,
        ) == Err::<Seq<char>, ErrorModel>(ErrorModel::InvalidPath),
        path_parent(path) matches Some(dir) ==> spec_rename(
            spec_sibling(path, new_name),
            target_exists,
            outcome,
        ) == (if target_exists {
            Err::<Seq<char>, ErrorModel>(ErrorModel::DestinationExists)
        } else {
            match outcome {
                Ok(_) => Ok(path_join(dir, new_name)),
                Err(cause) => Err(ErrorModel::Io(cause)),
            }
        }),
{
}

/// A rename onto a path that a node occupies is refused as an
/// `AlreadyExists` failure whatever a rename would have done: the reply
/// does not depend on the outcome of any operation.
pub proof fn law_rename_onto_existing(
    target: Seq<char>,
    outcome: Result<(), Seq<char>>,
    other: Result<(), Seq<char>>,
)
    ensures
        spec_rename(Some(target), true, outcome) == Err::<Seq<char>, ErrorModel>(
            ErrorModel::DestinationExists,
        ),
        spec_rename(Some(target), true, outcome) == spec_rename(Some(target), true, other),
        ErrorModel::DestinationExists.kind() == ErrorKind::AlreadyExists,
{
}

} // verus!
