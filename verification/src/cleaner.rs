//! Reclaiming stale uploads: which entries of the pending directory a sweep
//! removes, and which raw copy goes with each.
//!
//! A sweep reads the pending directory, asks `delete_old_pending_images`
//! which entries to remove, and for each removal that succeeded asks
//! `delete_corresponding_raw_image` for the raw copy to remove with it. An
//! entry that cannot be read or removed is skipped; it never ends the sweep.

use crate::constants::RETENTION_SECONDS;
use crate::outcome::Removal;
use crate::text::{find_last, last_index, starts_with, texts};
use vstd::prelude::*;
use vstd::string::*;

verus! {

/// One entry of the pending directory, as the caller read it.
#[derive(Clone, Debug)]
pub struct PendingEntry {
    /// The entry's file name.
    pub name: String,
    /// Whether the entry is a regular file.
    pub is_file: bool,
    /// When the entry was last modified, in seconds since the epoch, or
    /// `None` where that could not be read.
    pub modified: Option<u64>,
}

/// A hidden entry: its name begins with a dot.
pub open spec fn hidden(name: Seq<char>) -> bool {
    name.len() > 0 && name[0] == '.'
}

/// An entry last modified at `modified` has outlived the retention window
/// at the time `now`: it is more than the window older than now.
pub open spec fn expired(modified: u64, now: u64) -> bool {
    modified + RETENTION_SECONDS < now
}

/// The entries that a sweep removes: regular files that are not hidden,
/// whose age could be read and exceeds the retention window.
pub open spec fn reclaimable(entry: PendingEntry, now: u64) -> bool {
    entry.is_file && !hidden(entry.name@) && entry.modified is Some && expired(
        entry.modified->Some_0,
        now,
    )
}

/// Tells whether a file name is that of a hidden entry.
pub fn is_hidden(name: &str) -> (r: bool)
    ensures
        r == hidden(name@),
{
    name.unicode_len() > 0 && name.get_char(0) == '.'
}

/// Tells whether an entry last modified at `modified` is past the
/// retention window at `now`.
pub fn is_expired(modified: u64, now: u64) -> (r: bool)
    ensures
        r == expired(modified, now),
{
    now >= RETENTION_SECONDS && modified < now - RETENTION_SECONDS
}

/// Decides whether a sweep at the time `now` removes one entry of the
/// pending directory.
pub fn dir_entry_handler(entry: &PendingEntry, now: u64) -> (r: bool)
    ensures
        r == reclaimable(*entry, now),
{
    if !entry.is_file {
        return false;
    }
    if is_hidden(entry.name.as_str()) {
        return false;
    }
    match entry.modified {
        None => false,
        Some(modified) => is_expired(modified, now),
    }
}

/// Plans one sweep of the pending directory at the time `now`: the
/// positions, in the listing and in its order, of exactly the entries to
/// remove.
pub fn delete_old_pending_images(entries: &Vec<PendingEntry>, now: u64) -> (r: Vec<usize>)
    ensures
        forall|k: int| 0 <= k < r@.len() ==> (#[trigger] r@[k]) < entries@.len(),
        forall|a: int, b: int| 0 <= a < b < r@.len() ==> r@[a] < r@[b],
        forall|j: int|
            0 <= j < entries@.len() ==> (r@.contains(j as usize) <==> reclaimable(
                #[trigger] entries@[j],
                now,
            )),
{
    let mut out: Vec<usize> = Vec::new();
    let mut i: usize = 0;
    while i < entries.len()
        invariant
            i <= entries.len(),
            forall|k: int| 0 <= k < out@.len() ==> (#[trigger] out@[k]) < i,
            forall|a: int, b: int| 0 <= a < b < out@.len() ==> out@[a] < out@[b],
            forall|j: int|
                0 <= j < i ==> (out@.contains(j as usize) <==> reclaimable(
                    #[trigger] entries@[j],
                    now,
                )),
        decreases entries.len() - i,
    {
        let ghost before = out@;
        let take: bool = dir_entry_handler(&entries[i], now);
        if take {
            out.push(i);
        }
        proof {
            assert forall|j: int| 0 <= j < i + 1 implies (out@.contains(j as usize)
                <==> reclaimable(#[trigger] entries@[j], now)) by {
                if j < i {
                    if before.contains(j as usize) {
                        let k = choose|k: int| 0 <= k < before.len() && before[k] == j as usize;
                        assert(out@[k] == j as usize);
                    }
                    if out@.contains(j as usize) {
                        let k = choose|k: int| 0 <= k < out@.len() && out@[k] == j as usize;
                        assert(k < before.len());
                        assert(before[k] == j as usize);
                    }
                } else {
                    if take {
                        assert(out@[out@.len() - 1] == i);
                    } else {
                        if out@.contains(j as usize) {
                            let k = choose|k: int| 0 <= k < out@.len() && out@[k] == j as usize;
                            assert(out@[k] < i);
                        }
                    }
                }
            }
        }
        i += 1;
    }
    out
}

/// Whether the raw copy of a pending entry is removed too: only where the
/// entry itself was removed just now.
pub fn raw_copy_follows(removal: Removal) -> (r: bool)
    ensures
        r == (removal == Removal::Removed),
{
    match removal {
        Removal::Removed => true,
        _ => false,
    }
}

/// A file name without its extension: what stands before its last dot, or
/// `None` where the name has no dot.
pub open spec fn stem_of(name: Seq<char>) -> Option<Seq<char>> {
    if last_index(name, '.') < 0 {
        None
    } else {
        Some(name.subrange(0, last_index(name, '.')))
    }
}

/// Cuts the extension off a file name.
pub fn file_stem(name: &str) -> (r: Option<&str>)
    ensures
        match stem_of(name@) {
            Some(stem) => r is Some && r->Some_0@ == stem,
            None => r is None,
        },
{
    match find_last(name, '.') {
        None => None,
        Some(at) => Some(name.substring_char(0, at)),
    }
}

/// Whether `at` is the first position of `names` whose name begins with
/// `stem`.
pub open spec fn is_first_match(names: Seq<Seq<char>>, stem: Seq<char>, at: int) -> bool {
    0 <= at < names.len() && stem.is_prefix_of(names[at]) && forall|j: int|
        0 <= j < at ==> !stem.is_prefix_of(#[trigger] names[j])
}

/// Finds the first name of a listing that begins with `stem`.
pub fn first_with_prefix(names: &Vec<String>, stem: &str) -> (r: Option<usize>)
    ensures
        match r {
            Some(at) => is_first_match(texts(names@), stem@, at as int),
            None => forall|j: int|
                0 <= j < names@.len() ==> !stem@.is_prefix_of(#[trigger] texts(names@)[j]),
        },
{
    let mut i: usize = 0;
    while i < names.len()
        invariant
            i <= names.len(),
            forall|j: int| 0 <= j < i ==> !stem@.is_prefix_of(#[trigger] texts(names@)[j]),
        decreases names.len() - i,
    {
        if starts_with(names[i].as_str(), stem) {
            assert(texts(names@)[i as int] == names@[i as int]@);
            return Some(i);
        }
        assert(texts(names@)[i as int] == names@[i as int]@);
        i += 1;
    }
    None
}

/// Finds the raw copy that belongs to a removed pending entry: the first
/// name in the listing of the raw directory that begins with the entry's
/// name without its extension. A name without extension has no raw copy.
pub fn delete_corresponding_raw_image(filename: &str, raw_names: &Vec<String>) -> (r: Option<usize>)
    ensures
        match stem_of(filename@) {
            None => r is None,
            Some(stem) => match r {
                Some(at) => is_first_match(texts(raw_names@), stem, at as int),
                None => forall|j: int|
                    0 <= j < raw_names@.len() ==> !stem.is_prefix_of(
                        #[trigger] texts(raw_names@)[j],
                    ),
            },
        },
{
    match file_stem(filename) {
        None => None,
        Some(stem) => first_with_prefix(raw_names, stem),
    }
}

} // verus!
