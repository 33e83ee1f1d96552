//! The disks that the explorer offers as roots.
//!
//! Disks are found by their drive letters. The primary disk, `C`, is
//! always offered and never probed; each later letter, `D` to `Z`, is
//! offered where its root was seen to exist.

use vstd::prelude::*;
use crate::entry::{EntryKind, EntryModel, FileEntry, models};
use crate::error::CommandError;
use crate::timestamp::{render_or_epoch, text_or_epoch, Timestamp};

verus! {

/// The letter of the primary disk.
pub const PRIMARY_LETTER: char = 'C';

/// The code of `D`, the first letter that is probed.
pub const FIRST_PROBED: u8 = 68;

/// How many letters are probed: `D` to `Z`.
pub const PROBED_LETTERS: u8 = 23;

/// The `index`-th probed letter, counting `D` as 0.
pub open spec fn probed_letter(index: int) -> char {
    ((FIRST_PROBED + index) as u8) as char
}

/// The root path of the disk with the given letter.
pub open spec fn spec_drive_root(letter: char) -> Seq<char> {
    Seq::<char>::empty().push(letter) + ":\\"@
}

/// The name under which the disk with the given letter is shown.
pub open spec fn spec_drive_name(letter: char) -> Seq<char> {
    "Local Disk ("@.push(letter) + ":)"@
}

/// The entry of the disk with the given letter, stamped `stamp`.
pub open spec fn spec_disk(letter: char, stamp: Seq<char>) -> EntryModel {
    EntryModel::disk(spec_drive_name(letter), spec_drive_root(letter), stamp)
}

/// Whether the `index`-th probed letter was seen to have a root.
pub open spec fn seen(present: Seq<bool>, index: int) -> bool {
    0 <= index < present.len() && index < PROBED_LETTERS && present[index]
}

/// The disks among the first `upto` probed letters, in alphabetical order.
pub open spec fn spec_probed_drives(present: Seq<bool>, upto: nat, stamp: Seq<char>) -> Seq<
    EntryModel,
>
    decreases upto,
{
    if upto == 0 {
        Seq::empty()
    } else {
        let before = spec_probed_drives(present, (upto - 1) as nat, stamp);
        if seen(present, upto - 1) {
            before.push(spec_disk(probed_letter(upto - 1), stamp))
        } else {
            before
        }
    }
}

/// The disks to offer: the primary one, then every probed one that exists.
pub open spec fn spec_drives(present: Seq<bool>, stamp: Seq<char>) -> Seq<EntryModel> {
    seq![spec_disk(PRIMARY_LETTER, stamp)] + spec_probed_drives(
        present,
        PROBED_LETTERS as nat,
        stamp,
    )
}

/// The root path of the disk with the given letter.
pub fn drive_root(letter: char) -> (root: String)
    ensures
        root@ == spec_drive_root(letter),
{
    let mut root = String::new();
    root.push(letter);
    root.append(":\\");
    root
}

/// The name under which the disk with the given letter is shown.
pub fn drive_name(letter: char) -> (name: String)
    ensures
        name@ == spec_drive_name(letter),
{
    let mut name = String::from_str("Local Disk (");
    name.push(letter);
    name.append(":)");
    name
}

/// The entry of the disk with the given letter, stamped `stamp`.
pub fn disk_entry(letter: char, stamp: String) -> (entry: FileEntry)
    ensures
        entry@ == spec_disk(letter, stamp@),
{
    FileEntry::disk(drive_name(letter), drive_root(letter), stamp)
}

/// The root paths to probe, `D:\` to `Z:\`, in alphabetical order.
pub fn drive_candidates() -> (roots: Vec<String>)
    ensures
        roots@.len() == PROBED_LETTERS,
        forall|i: int|
            0 <= i < PROBED_LETTERS ==> (#[trigger] roots@[i])@ == spec_drive_root(
                probed_letter(i),
            ),
{
    let mut roots: Vec<String> = Vec::new();
    let mut index: u8 = 0;
    while index < PROBED_LETTERS
        invariant
            index <= PROBED_LETTERS,
            roots@.len() == index,
            forall|i: int|
                0 <= i < index ==> (#[trigger] roots@[i])@ == spec_drive_root(probed_letter(i)),
        decreases PROBED_LETTERS - index,
    {
        roots.push(drive_root((FIRST_PROBED + index) as char));
        index = index + 1;
    }
    roots
}

/// Lists the disks, given which of the candidate roots were seen to exist
/// and the instant of the probe.
///
/// `present[i]` tells whether the `i`-th root of `drive_candidates` exists;
/// a root that `present` does not reach counts as absent. The reply never
/// fails: it holds the primary disk, then each probed disk that exists, all
/// stamped with `now`, or with the Unix epoch where the clock gave no
/// instant that can be rendered.
pub fn list_drives(present: &Vec<bool>, now: Option<Timestamp>) -> (reply: Result<
    Vec<FileEntry>,
    CommandError,
>)
    ensures
        reply matches Ok(drives) && models(drives@) == spec_drives(present@, text_or_epoch(now)),
{
    let ghost stamp = text_or_epoch(now);
    let mut drives: Vec<FileEntry> = Vec::new();
    drives.push(disk_entry(PRIMARY_LETTER, render_or_epoch(now)));
    assert(models(drives@) =~= seq![spec_disk(PRIMARY_LETTER, stamp)]);
    let mut index: u8 = 0;
    while index < PROBED_LETTERS
        invariant
            index <= PROBED_LETTERS,
            stamp == text_or_epoch(now),
            models(drives@) == seq![spec_disk(PRIMARY_LETTER, stamp)] + spec_probed_drives(
                present@,
                index as nat,
                stamp,
            ),
        decreases PROBED_LETTERS - index,
    {
        let ghost before = models(drives@);
        let place: usize = index as usize;
        if place < present.len() && present[place] {
            drives.push(disk_entry((FIRST_PROBED + index) as char, render_or_epoch(now)));
            assert(models(drives@) =~= before.push(spec_disk(probed_letter(index as int), stamp)));
        }
        index = index + 1;
        assert(models(drives@) =~= seq![spec_disk(PRIMARY_LETTER, stamp)] + spec_probed_drives(
            present@,
            index as nat,
            stamp,
        ));
    }
    Ok(drives)
}

/// The primary disk is always offered, and comes first.
pub proof fn law_primary_always_listed(present: Seq<bool>, stamp: Seq<char>)
    ensures
        spec_drives(present, stamp).len() >= 1,
        spec_drives(present, stamp)[0] == spec_disk(PRIMARY_LETTER, stamp),
{
}

/// Where none of the probed roots exists, the primary disk is the only
/// one offered.
pub proof fn law_only_primary(present: Seq<bool>, stamp: Seq<char>)
    requires
        forall|i: int| 0 <= i < PROBED_LETTERS ==> !seen(present, i),
    ensures
        spec_drives(present, stamp) == seq![spec_disk(PRIMARY_LETTER, stamp)],
{
    lemma_none_seen(present, PROBED_LETTERS as nat, stamp);
    assert(spec_drives(present, stamp) =~= seq![spec_disk(PRIMARY_LETTER, stamp)]);
}

/// Where none of the first `upto` probed roots exists, none is offered.
pub proof fn lemma_none_seen(present: Seq<bool>, upto: nat, stamp: Seq<char>)
    requires
        forall|i: int| 0 <= i < upto ==> !seen(present, i),
    ensures
        spec_probed_drives(present, upto, stamp).len() == 0,
    decreases upto,
{
    if upto > 0 {
        lemma_none_seen(present, (upto - 1) as nat, stamp);
    }
}

/// Whether `entry` is the disk of one of the first `upto` probed letters
/// whose root was seen.
pub open spec fn is_seen_disk(
    present: Seq<bool>,
    upto: nat,
    stamp: Seq<char>,
    entry: EntryModel,
) -> bool {
    exists|i: int|
        0 <= i < upto && seen(present, i) && entry == spec_disk(#[trigger] probed_letter(i), stamp)
}

/// The probed disks that are offered are exactly those whose roots were
/// seen: each offered one was seen, and each seen one is offered.
pub proof fn law_probed_offered_iff_seen(present: Seq<bool>, upto: nat, stamp: Seq<char>)
    ensures
        forall|k: int|
            0 <= k < spec_probed_drives(present, upto, stamp).len() ==> is_seen_disk(
                present,
                upto,
                stamp,
                #[trigger] spec_probed_drives(present, upto, stamp)[k],
            ),
        forall|i: int|
            0 <= i < upto && seen(present, i) ==> spec_probed_drives(
                present,
                upto,
                stamp,
            ).contains(spec_disk(#[trigger] probed_letter(i), stamp)),
    decreases upto,
{
    if upto > 0 {
        let shorter = (upto - 1) as nat;
        let before = spec_probed_drives(present, shorter, stamp);
        let all = spec_probed_drives(present, upto, stamp);
        law_probed_offered_iff_seen(present, shorter, stamp);
        assert forall|k: int| 0 <= k < all.len() implies is_seen_disk(
            present,
            upto,
            stamp,
            #[trigger] all[k],
        ) by {
            if k < before.len() {
                assert(all[k] == before[k]);
                assert(is_seen_disk(present, shorter, stamp, before[k]));
                let i = choose|i: int|
                    0 <= i < shorter && seen(present, i) && before[k] == spec_disk(
                        #[trigger] probed_letter(i),
                        stamp,
                    );
                assert(0 <= i < upto && seen(present, i) && all[k] == spec_disk(
                    probed_letter(i),
                    stamp,
                ));
            } else {
                assert(seen(present, upto - 1) && all[k] == spec_disk(
                    probed_letter(upto - 1),
                    stamp,
                ));
            }
        }
        assert forall|i: int| 0 <= i < upto && seen(present, i) implies all.contains(
            spec_disk(#[trigger] probed_letter(i), stamp),
        ) by {
            if i < shorter {
                let disk = spec_disk(probed_letter(i), stamp);
                assert(before.contains(disk));
                let k = choose|k: int| 0 <= k < before.len() && before[k] == disk;
                assert(all[k] == disk);
            } else {
                assert(all[all.len() - 1] == spec_disk(probed_letter(i), stamp));
            }
        }
    }
}

/// Every disk that is offered is well formed: a disk without extension,
/// size, tags or children, whose identifier is its root path.
pub proof fn law_drives_are_disks(present: Seq<bool>, stamp: Seq<char>)
    ensures
        forall|k: int|
            0 <= k < spec_drives(present, stamp).len() ==> {
                let drive = #[trigger] spec_drives(present, stamp)[k];
                &&& drive.kind == EntryKind::Disk
                &&& drive.wf()
                &&& drive.tags.len() == 0
                &&& drive.modified == stamp
            },
{
    let probed = spec_probed_drives(present, PROBED_LETTERS as nat, stamp);
    law_probed_offered_iff_seen(present, PROBED_LETTERS as nat, stamp);
    assert forall|k: int| 0 <= k < spec_drives(present, stamp).len() implies {
        let drive = #[trigger] spec_drives(present, stamp)[k];
        &&& drive.kind == EntryKind::Disk
        &&& drive.wf()
        &&& drive.tags.len() == 0
        &&& drive.modified == stamp
    } by {
        if k > 0 {
            assert(spec_drives(present, stamp)[k] == probed[k - 1]);
            assert(is_seen_disk(present, PROBED_LETTERS as nat, stamp, probed[k - 1]));
        }
    }
}

} // verus!
