//! Where the session is: the current directory, the mode, the known volumes.

use crate::error::FileOpError;
use crate::path::{parent_of, parent_text, push_char, text_of};
use crate::disk::disk_list::{disk_list, get_disk_list, VolumeId};
use vstd::prelude::*;

verus! {

/// What the main area shows.
#[derive(Clone, Copy, Debug, PartialEq, Eq, Structural)]
pub enum Mode {
    /// The entries of the current directory.
    Browsing,
    /// The known volumes, one of which is to be picked as the new root.
    DiskSelection,
}

/// What going up did.
#[derive(Clone, Copy, Debug, PartialEq, Eq, Structural)]
pub enum Ascent {
    /// The current directory is now the parent of the former one.
    ToParent,
    /// The current directory had no parent: volumes are now to be selected,
    /// and the caller owes the state a fresh enumeration of them.
    ToDiskSelection,
}

/// The navigation state of one session.
#[derive(Clone, Debug, PartialEq, Eq)]
pub struct NavigationState {
    /// The directory shown while browsing.
    pub current_path: String,
    /// Browsing or selecting a volume.
    pub mode: Mode,
    /// The volumes of the last enumeration, in ascending order.
    pub known_volumes: Vec<VolumeId>,
}

/// The navigation state as mathematical values.
pub struct NavModel {
    pub path: Seq<char>,
    pub mode: Mode,
    pub volumes: Seq<char>,
}

/// The text of the root directory of volume `id`: the letter, a colon, a backslash.
pub open spec fn volume_root_text(id: char) -> Seq<char> {
    seq![id, ':', '\\']
}

impl NavModel {
    /// The state after a directory has been entered.
    pub open spec fn entered(self, path: Seq<char>) -> NavModel {
        NavModel { path, mode: Mode::Browsing, volumes: self.volumes }
    }

    /// The state after going up, given what the parent lookup on the current
    /// path returned.
    pub open spec fn ascended(self, parent: Option<Seq<char>>) -> NavModel {
        match parent {
            Some(p) => NavModel { path: p, mode: Mode::Browsing, volumes: self.volumes },
            None => NavModel { path: self.path, mode: Mode::DiskSelection, volumes: self.volumes },
        }
    }

    /// The state after going up.
    pub open spec fn went_up(self) -> NavModel {
        self.ascended(parent_text(self.path))
    }

    /// The state after the volumes have been enumerated anew.
    pub open spec fn refreshed(self, volumes: Seq<char>) -> NavModel {
        NavModel { path: self.path, mode: self.mode, volumes }
    }

    /// The directory whose entries are on show: the current one while
    /// browsing, none while a volume is being selected.
    pub open spec fn listed_directory(self) -> Option<Seq<char>> {
        if self.mode == Mode::Browsing {
            Some(self.path)
        } else {
            None
        }
    }

    /// The state after volume `id` has been selected.
    pub open spec fn selected(self, id: char) -> NavModel {
        NavModel { path: volume_root_text(id), mode: Mode::Browsing, volumes: self.volumes }
    }
}

impl View for NavigationState {
    type V = NavModel;

    open spec fn view(&self) -> NavModel {
        NavModel { path: self.current_path@, mode: self.mode, volumes: self.known_volumes@ }
    }
}

/// The root directory of volume `id`.
pub fn volume_root(id: VolumeId) -> (root: String)
    ensures
        root@ == volume_root_text(id),
{
    let mut root = String::new();
    push_char(&mut root, id);
    push_char(&mut root, ':');
    push_char(&mut root, '\\');
    root
}

impl NavigationState {
    /// A session that browses `start` and knows `volumes`.
    pub fn new(start: String, volumes: Vec<VolumeId>) -> (state: Self)
        ensures
            state@ == (NavModel { path: start@, mode: Mode::Browsing, volumes: volumes@ }),
    {
        NavigationState { current_path: start, mode: Mode::Browsing, known_volumes: volumes }
    }

    /// Makes `path` the current directory and browses it. The path is not
    /// checked: one that cannot be read shows when it is listed.
    pub fn enter_directory(&mut self, path: String)
        ensures
            final(self)@ == old(self)@.entered(path@),
    {
        self.current_path = path;
        self.mode = Mode::Browsing;
    }

    /// Goes up, given the parent of the current directory as the path parser
    /// found it. With a parent the session browses it; without one it turns to
    /// selecting a volume and keeps its path.
    pub fn ascend(&mut self, parent: Option<String>) -> (ascent: Ascent)
        ensures
            final(self)@ == old(self)@.ascended(text_of(parent)),
            ascent == (if parent is Some {
                Ascent::ToParent
            } else {
                Ascent::ToDiskSelection
            }),
    {
        match parent {
            Some(p) => {
                self.current_path = p;
                self.mode = Mode::Browsing;
                Ascent::ToParent
            },
            None => {
                self.mode = Mode::DiskSelection;
                Ascent::ToDiskSelection
            },
        }
    }

    /// Goes up one directory. From a directory with a parent the session
    /// browses the parent. From one without, a volume root, it turns to
    /// selecting a volume; this is the only way into that mode.
    pub fn go_up(&mut self) -> (ascent: Ascent)
        ensures
            final(self)@ == old(self)@.went_up(),
            parent_text(old(self)@.path) matches Some(parent) ==> ascent == Ascent::ToParent
                && final(self)@.path == parent && final(self)@.mode == Mode::Browsing,
            parent_text(old(self)@.path) is None ==> ascent == Ascent::ToDiskSelection
                && final(self)@.path == old(self)@.path && final(self)@.mode
                == Mode::DiskSelection,
            final(self)@.volumes == old(self)@.volumes,
            old(self)@.path.len() == 0 ==> ascent == Ascent::ToDiskSelection,
    {
        let parent = parent_of(self.current_path.as_str());
        self.ascend(parent)
    }

    /// The directory to list for the main area. While a volume is being
    /// selected the volumes stand in for the entries and nothing is listed.
    pub fn listed_directory(&self) -> (dir: Option<String>)
        ensures
            text_of(dir) == self@.listed_directory(),
    {
        match self.mode {
            Mode::Browsing => Some(self.current_path.clone()),
            Mode::DiskSelection => None,
        }
    }

    /// Whether `id` is among the known volumes.
    pub fn knows_volume(&self, id: VolumeId) -> (known: bool)
        ensures
            known == self@.volumes.contains(id),
    {
        let mut i: usize = 0;
        while i < self.known_volumes.len()
            invariant
                i <= self.known_volumes.len(),
                forall|j: int| 0 <= j < i ==> self.known_volumes@[j] != id,
            decreases self.known_volumes.len() - i,
        {
            if self.known_volumes[i] == id {
                return true;
            }
            i = i + 1;
        }
        false
    }

    /// Makes the root of volume `id` the current directory and browses it.
    /// A volume that the last enumeration did not list is refused, and the
    /// state stays as it was.
    pub fn select_volume(&mut self, id: VolumeId) -> (outcome: Result<(), FileOpError>)
        ensures
            old(self)@.volumes.contains(id) ==> outcome is Ok && final(self)@ == old(
                self,
            )@.selected(id),
            !old(self)@.volumes.contains(id) ==> outcome == Err::<(), FileOpError>(
                FileOpError::InvalidVolume,
            ) && *final(self) == *old(self),
    {
        if self.knows_volume(id) {
            self.current_path = volume_root(id);
            self.mode = Mode::Browsing;
            Ok(())
        } else {
            Err(FileOpError::InvalidVolume)
        }
    }

    /// Replaces the known volumes by what the platform's drive query answered
    /// just now; `None` from a platform that has no such query.
    pub fn refresh_volumes(&mut self, drives_mask: Option<u32>)
        ensures
            final(self)@ == old(self)@.refreshed(disk_list(drives_mask)),
    {
        self.known_volumes = get_disk_list(drives_mask);
    }
}

/// Going up from a directory with a parent leads to that parent, browsing.
pub proof fn law_go_up_to_parent(state: NavModel, parent: Seq<char>)
    requires
        parent_text(state.path) == Some(parent),
    ensures
        state.went_up().path == parent,
        state.went_up().mode == Mode::Browsing,
        state.went_up().volumes == state.volumes,
{
}

/// Going up from a directory without a parent leads to volume selection, and
/// the enumeration that follows it is what the state then knows.
pub proof fn law_go_up_from_root(state: NavModel, drives_mask: Option<u32>)
    requires
        parent_text(state.path) is None,
    ensures
        state.went_up().mode == Mode::DiskSelection,
        state.went_up().path == state.path,
        state.went_up().refreshed(disk_list(drives_mask)).mode == Mode::DiskSelection,
        state.went_up().refreshed(disk_list(drives_mask)).volumes == disk_list(drives_mask),
{
}

/// Volume selection is entered by going up from a directory without a parent
/// and by nothing else.
pub proof fn law_disk_selection_only_by_go_up(
    state: NavModel,
    path: Seq<char>,
    id: char,
    volumes: Seq<char>,
)
    ensures
        state.entered(path).mode == Mode::Browsing,
        state.selected(id).mode == Mode::Browsing,
        state.refreshed(volumes).mode == state.mode,
        state.went_up().mode == Mode::DiskSelection <==> parent_text(state.path) is None,
{
}

/// Selecting a volume leads to its root, browsing.
pub proof fn law_select_volume(state: NavModel, id: char)
    ensures
        state.selected(id).mode == Mode::Browsing,
        state.selected(id).path == volume_root_text(id),
        state.selected(id).volumes == state.volumes,
{
}

} // verus!
