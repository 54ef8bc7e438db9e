//! The filesystem changes a gesture can ask for.
//!
//! Nothing is done to the disk here. Each operation looks at the entries of
//! the directory as last listed, refuses what would collide with one of them,
//! and otherwise says which change is to be made. The caller makes it and
//! reports how it went.

use crate::entry::{entry_models, law_listed, listed, DirectoryEntry, EntryKind, RawEntry};
use crate::error::FileOpError;
use crate::path::{join, joined_text, sibling_path, sibling_text};
use vstd::prelude::*;

verus! {

/// A change to be made to the filesystem.
#[derive(Clone, Debug, PartialEq, Eq)]
pub enum FsRequest {
    /// Create the directory `path`; its parent exists.
    CreateDir { path: String },
    /// Create the empty file `path`.
    CreateFile { path: String },
    /// Rename `from` to `to` in one step.
    Rename { from: String, to: String },
    /// Remove the directory `path` with all it holds.
    RemoveDirAll { path: String },
    /// Remove the file `path`.
    RemoveFile { path: String },
}

/// A requested change as mathematical values.
pub enum FsRequestModel {
    CreateDir { path: Seq<char> },
    CreateFile { path: Seq<char> },
    Rename { from: Seq<char>, to: Seq<char> },
    RemoveDirAll { path: Seq<char> },
    RemoveFile { path: Seq<char> },
}

impl View for FsRequest {
    type V = FsRequestModel;

    open spec fn view(&self) -> FsRequestModel {
        match self {
            FsRequest::CreateDir { path } => FsRequestModel::CreateDir { path: path@ },
            FsRequest::CreateFile { path } => FsRequestModel::CreateFile { path: path@ },
            FsRequest::Rename { from, to } => FsRequestModel::Rename { from: from@, to: to@ },
            FsRequest::RemoveDirAll { path } => FsRequestModel::RemoveDirAll { path: path@ },
            FsRequest::RemoveFile { path } => FsRequestModel::RemoveFile { path: path@ },
        }
    }
}

/// An operation's answer as mathematical values: the change to make, or the
/// refusal.
pub open spec fn answer_model(answer: Result<FsRequest, FileOpError>) -> Result<
    FsRequestModel,
    FileOpError,
> {
    match answer {
        Ok(request) => Ok(request@),
        Err(error) => Err(error),
    }
}

/// Some entry is called `name`.
pub open spec fn name_present(entries: Seq<DirectoryEntry>, name: Seq<char>) -> bool {
    exists|i: int| 0 <= i < entries.len() && (#[trigger] entries[i]).name@ == name
}

/// Some entry other than the one at `path` is called `name`.
pub open spec fn name_taken_beside(
    entries: Seq<DirectoryEntry>,
    name: Seq<char>,
    path: Seq<char>,
) -> bool {
    exists|i: int|
        0 <= i < entries.len() && (#[trigger] entries[i]).name@ == name && entries[i].full_path@
            != path
}

/// What creating a directory called `name` in `parent` comes to.
pub open spec fn create_directory_answer(
    parent: Seq<char>,
    name: Seq<char>,
    present: Seq<DirectoryEntry>,
) -> Result<FsRequestModel, FileOpError> {
    if name_present(present, name) {
        Err(FileOpError::AlreadyExists)
    } else {
        Ok(FsRequestModel::CreateDir { path: joined_text(parent, name) })
    }
}

/// What creating a file called `name` in `parent` comes to.
pub open spec fn create_file_answer(
    parent: Seq<char>,
    name: Seq<char>,
    present: Seq<DirectoryEntry>,
) -> Result<FsRequestModel, FileOpError> {
    if name_present(present, name) {
        Err(FileOpError::AlreadyExists)
    } else {
        Ok(FsRequestModel::CreateFile { path: joined_text(parent, name) })
    }
}

/// What renaming the entry at `old_path` to `new_name` comes to.
pub open spec fn rename_answer(
    old_path: Seq<char>,
    new_name: Seq<char>,
    present: Seq<DirectoryEntry>,
) -> Result<FsRequestModel, FileOpError> {
    if name_taken_beside(present, new_name, old_path) {
        Err(FileOpError::AlreadyExists)
    } else {
        Ok(FsRequestModel::Rename { from: old_path, to: sibling_text(old_path, new_name) })
    }
}

/// What deleting the entry at `path` comes to.
pub open spec fn delete_request(path: Seq<char>, kind: EntryKind) -> FsRequestModel {
    match kind {
        EntryKind::Directory => FsRequestModel::RemoveDirAll { path },
        EntryKind::File => FsRequestModel::RemoveFile { path },
    }
}

/// Whether some entry is called `name`.
pub fn has_name(entries: &Vec<DirectoryEntry>, name: &str) -> (found: bool)
    ensures
        found == name_present(entries@, name@),
{
    let wanted = String::from_str(name);
    let mut i: usize = 0;
    while i < entries.len()
        invariant
            i <= entries.len(),
            wanted@ == name@,
            forall|j: int| 0 <= j < i ==> (#[trigger] entries@[j]).name@ != name@,
        decreases entries.len() - i,
    {
        if entries[i].name == wanted {
            return true;
        }
        i = i + 1;
    }
    false
}

/// Whether some entry other than the one at `path` is called `name`.
pub fn has_name_beside(entries: &Vec<DirectoryEntry>, name: &str, path: &str) -> (found: bool)
    ensures
        found == name_taken_beside(entries@, name@, path@),
{
    let wanted = String::from_str(name);
    let own = String::from_str(path);
    let mut i: usize = 0;
    while i < entries.len()
        invariant
            i <= entries.len(),
            wanted@ == name@,
            own@ == path@,
            forall|j: int|
                0 <= j < i ==> !((#[trigger] entries@[j]).name@ == name@ && entries@[j].full_path@
                    != path@),
        decreases entries.len() - i,
    {
        if entries[i].name == wanted && entries[i].full_path != own {
            return true;
        }
        i = i + 1;
    }
    false
}

/// Asks for a new directory called `default_name` in `parent`, whose entries
/// as last listed are `present`. Where one of them has that name the answer
/// is `AlreadyExists` and no change is asked for.
pub fn create_directory(parent: &str, default_name: &str, present: &Vec<DirectoryEntry>) -> (answer:
    Result<FsRequest, FileOpError>)
    ensures
        answer_model(answer) == create_directory_answer(parent@, default_name@, present@),
{
    if has_name(present, default_name) {
        Err(FileOpError::AlreadyExists)
    } else {
        Ok(FsRequest::CreateDir { path: join(parent, default_name) })
    }
}

/// Asks for a new empty file called `default_name` in `parent`, whose entries
/// as last listed are `present`. Where one of them has that name the answer
/// is `AlreadyExists` and no change is asked for.
pub fn create_file(parent: &str, default_name: &str, present: &Vec<DirectoryEntry>) -> (answer:
    Result<FsRequest, FileOpError>)
    ensures
        answer_model(answer) == create_file_answer(parent@, default_name@, present@),
{
    if has_name(present, default_name) {
        Err(FileOpError::AlreadyExists)
    } else {
        Ok(FsRequest::CreateFile { path: join(parent, default_name) })
    }
}

/// Asks for the entry at `old_path` to be called `new_name`. `present` holds
/// the entries of its directory as last listed. Where another of them has
/// that name the answer is `AlreadyExists` and no change is asked for;
/// otherwise the entry is to move to the path of its sibling of that name.
pub fn rename(old_path: &str, new_name: &str, present: &Vec<DirectoryEntry>) -> (answer: Result<
    FsRequest,
    FileOpError,
>)
    ensures
        answer_model(answer) == rename_answer(old_path@, new_name@, present@),
{
    if has_name_beside(present, new_name, old_path) {
        Err(FileOpError::AlreadyExists)
    } else {
        Ok(
            FsRequest::Rename {
                from: String::from_str(old_path),
                to: sibling_path(old_path, new_name),
            },
        )
    }
}

/// Asks for the entry at `path` to be removed: a directory with all it
/// holds, a file alone.
pub fn delete(path: &str, kind: EntryKind) -> (request: FsRequest)
    ensures
        request@ == delete_request(path@, kind),
{
    match kind {
        EntryKind::Directory => FsRequest::RemoveDirAll { path: String::from_str(path) },
        EntryKind::File => FsRequest::RemoveFile { path: String::from_str(path) },
    }
}

/// A name that is present is never created again, as a directory or as a
/// file: the answer is `AlreadyExists`, and it carries no request, so nothing
/// is asked of the filesystem.
pub proof fn law_create_refuses_present_name(
    parent: Seq<char>,
    name: Seq<char>,
    present: Seq<DirectoryEntry>,
)
    requires
        name_present(present, name),
    ensures
        create_directory_answer(parent, name, present) == Err::<FsRequestModel, FileOpError>(
            FileOpError::AlreadyExists,
        ),
        create_file_answer(parent, name, present) == Err::<FsRequestModel, FileOpError>(
            FileOpError::AlreadyExists,
        ),
{
}

/// Renaming to the name of another entry of the directory is refused with
/// `AlreadyExists`; no request is made, so the entry keeps its old name.
pub proof fn law_rename_refuses_taken_name(
    old_path: Seq<char>,
    new_name: Seq<char>,
    present: Seq<DirectoryEntry>,
    other: int,
)
    requires
        0 <= other < present.len(),
        present[other].name@ == new_name,
        present[other].full_path@ != old_path,
    ensures
        rename_answer(old_path, new_name, present) == Err::<FsRequestModel, FileOpError>(
            FileOpError::AlreadyExists,
        ),
{
}

/// An entry of a listing can always be renamed to the name it has: among the
/// entries of one listing, an equal name means an equal path, so the entry
/// collides with none but itself.
pub proof fn law_rename_to_own_name(
    dir: Seq<char>,
    raw: Seq<RawEntry>,
    present: Seq<DirectoryEntry>,
    k: int,
)
    requires
        entry_models(present) == listed(dir, raw),
        0 <= k < present.len(),
    ensures
        rename_answer(present[k].full_path@, present[k].name@, present) is Ok,
{
    law_listed(dir, raw);
    assert forall|i: int| 0 <= i < present.len() implies (#[trigger] present[i]).full_path@
        == joined_text(dir, present[i].name@) by {
        assert(listed(dir, raw)[i].kind == present[i].kind);
    }
}

} // verus!
