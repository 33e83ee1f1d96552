//! The command core of a desktop file explorer.
//!
//! Every command is a pure function of what the file system was seen to
//! hold: the caller probes the disk, hands the observations over, and gets
//! back either the reply for the user interface or the one mutation to
//! perform next.

pub mod drives;
pub mod entry;
pub mod error;
pub mod listing;
pub mod mutate;
pub mod name;
pub mod text;
pub mod timestamp;

pub use crate::drives::{drive_candidates, list_drives};
pub use crate::entry::{EntryKind, EntryModel, FileEntry};
pub use crate::error::{CommandError, ErrorKind, ErrorModel};
pub use crate::listing::{list_files, looks_into, ChildProbe, DirProbe, NodeProbe};
pub use crate::mutate::{
    create_folder, delete_item, plan_rename, rename_item, PendingCreate, PendingDelete,
    PendingRename, RenameProbe,
};
pub use crate::name::extension_of;
pub use crate::timestamp::Timestamp;
