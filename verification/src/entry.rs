//! Directory entries and the listing of a directory.

use crate::path::{join, joined_text};
use vstd::prelude::*;

verus! {

/// What kind of entry a name in a directory stands for.
#[derive(Clone, Copy, Debug, PartialEq, Eq, Structural)]
pub enum EntryKind {
    Directory,
    File,
}

/// One child of a directory, as a listing found it. A listing is a snapshot:
/// an entry has no identity beyond its path.
#[derive(Clone, Debug, PartialEq, Eq)]
pub struct DirectoryEntry {
    /// The last component of the path.
    pub name: String,
    /// The path of the entry.
    pub full_path: String,
    /// Directory or file.
    pub kind: EntryKind,
}

/// A directory entry as mathematical values.
pub struct EntryModel {
    pub name: Seq<char>,
    pub full_path: Seq<char>,
    pub kind: EntryKind,
}

impl View for DirectoryEntry {
    type V = EntryModel;

    open spec fn view(&self) -> EntryModel {
        EntryModel { name: self.name@, full_path: self.full_path@, kind: self.kind }
    }
}

/// What the metadata of a child says of its kind.
#[derive(Clone, Copy, Debug, PartialEq, Eq, Structural)]
pub struct EntryMeta {
    /// The child is a directory.
    pub is_dir: bool,
    /// The child is a regular file.
    pub is_file: bool,
}

/// What reading a directory yields for one child: its name, and its metadata
/// where that could be read.
#[derive(Clone, Debug, PartialEq, Eq)]
pub struct RawEntry {
    /// The name of the child.
    pub name: String,
    /// The metadata of the child, `None` where it could not be read.
    pub meta: Option<EntryMeta>,
}

/// The kind of a child: a directory where the metadata says so, else a file
/// where it says that, and none where it says neither or could not be read.
pub open spec fn kind_of(meta: Option<EntryMeta>) -> Option<EntryKind> {
    match meta {
        Some(m) => if m.is_dir {
            Some(EntryKind::Directory)
        } else if m.is_file {
            Some(EntryKind::File)
        } else {
            None
        },
        None => None,
    }
}

/// Resolves the kind of a child from its metadata.
pub fn resolve_kind(meta: Option<EntryMeta>) -> (kind: Option<EntryKind>)
    ensures
        kind == kind_of(meta),
{
    match meta {
        Some(m) => {
            if m.is_dir {
                Some(EntryKind::Directory)
            } else if m.is_file {
                Some(EntryKind::File)
            } else {
                None
            }
        },
        None => None,
    }
}

/// The entries of a sequence as mathematical values.
pub open spec fn entry_models(entries: Seq<DirectoryEntry>) -> Seq<EntryModel> {
    Seq::new(entries.len(), |i: int| entries[i]@)
}

/// The entry that a readable child of `dir` becomes.
pub open spec fn entry_of(dir: Seq<char>, name: Seq<char>, kind: EntryKind) -> EntryModel {
    EntryModel { name, full_path: joined_text(dir, name), kind }
}

/// The listing of `dir` for the children `raw`: those that have a kind, in
/// the order in which they were read.
pub open spec fn listed(dir: Seq<char>, raw: Seq<RawEntry>) -> Seq<EntryModel>
    decreases raw.len(),
{
    if raw.len() == 0 {
        Seq::empty()
    } else {
        let rest = listed(dir, raw.drop_last());
        match kind_of(raw.last().meta) {
            Some(kind) => rest.push(entry_of(dir, raw.last().name@, kind)),
            None => rest,
        }
    }
}

/// Lists `dir` from the children that reading it yielded. A child without a
/// kind is left out, silently; the others keep the order of the read.
pub fn list(dir: &str, raw: &Vec<RawEntry>) -> (entries: Vec<DirectoryEntry>)
    ensures
        entry_models(entries@) == listed(dir@, raw@),
{
    let mut entries: Vec<DirectoryEntry> = Vec::new();
    let mut i: usize = 0;
    while i < raw.len()
        invariant
            i <= raw.len(),
            entry_models(entries@) == listed(dir@, raw@.take(i as int)),
        decreases raw.len() - i,
    {
        let child = &raw[i];
        proof {
            assert(raw@.take(i + 1).drop_last() =~= raw@.take(i as int));
        }
        if let Some(kind) = resolve_kind(child.meta) {
            let ghost before = entries@;
            let entry = DirectoryEntry {
                name: child.name.clone(),
                full_path: join(dir, child.name.as_str()),
                kind,
            };
            entries.push(entry);
            assert(entry_models(entries@) =~= entry_models(before).push(
                entry_of(dir@, child.name@, kind),
            ));
        }
        i = i + 1;
    }
    assert(raw@.take(raw.len() as int) =~= raw@);
    entries
}

/// `entry` is what the child `child` of `dir` is listed as.
pub open spec fn stems_from(entry: EntryModel, dir: Seq<char>, child: RawEntry) -> bool {
    kind_of(child.meta) == Some(entry.kind) && entry == entry_of(dir, child.name@, entry.kind)
}

/// Every listed entry stems from a child that has its kind, the listing is
/// never longer than the read, and it is as long where every child has a
/// kind.
pub proof fn law_listed(dir: Seq<char>, raw: Seq<RawEntry>)
    ensures
        listed(dir, raw).len() <= raw.len(),
        forall|k: int|
            0 <= k < listed(dir, raw).len() ==> exists|i: int|
                0 <= i < raw.len() && stems_from(#[trigger] listed(dir, raw)[k], dir, raw[i]),
        (forall|i: int| 0 <= i < raw.len() ==> kind_of(raw[i].meta) is Some) ==> listed(
            dir,
            raw,
        ).len() == raw.len(),
    decreases raw.len(),
{
    if raw.len() > 0 {
        let init = raw.drop_last();
        law_listed(dir, init);
        let out = listed(dir, raw);
        assert forall|k: int| 0 <= k < out.len() implies exists|i: int|
            0 <= i < raw.len() && stems_from(#[trigger] out[k], dir, raw[i]) by {
            if k < listed(dir, init).len() {
                let i = choose|i: int|
                    0 <= i < init.len() && stems_from(listed(dir, init)[k], dir, init[i]);
                assert(stems_from(out[k], dir, raw[i]));
            } else {
                assert(stems_from(out[k], dir, raw[raw.len() - 1]));
            }
        }
        if forall|i: int| 0 <= i < raw.len() ==> kind_of(raw[i].meta) is Some {
            assert forall|i: int| 0 <= i < init.len() implies kind_of(init[i].meta) is Some by {
                assert(init[i] == raw[i]);
            }
        }
    }
}

} // verus!
