//! Which overlay is open: the context menu, and the one modal.

use crate::entry::DirectoryEntry;
use crate::error::FileOpError;
use crate::fileop::{answer_model, rename, rename_answer, FsRequest, FsRequestModel};
use crate::disk::disk_list::VolumeId;
use vstd::prelude::*;

verus! {

/// A pointer position. The two coordinates are carried through as the bit
/// patterns of the pointer's single-precision coordinates and never looked
/// into.
#[derive(Clone, Copy, Debug, PartialEq, Eq, Structural)]
pub struct Position {
    pub x_bits: u32,
    pub y_bits: u32,
}

/// What a context menu was opened on.
#[derive(Clone, Debug, PartialEq, Eq)]
pub enum MenuTarget {
    /// The empty part of the main area.
    MainArea,
    /// The entry at this path.
    Entry(String),
}

/// The context menu: closed, or open at a position on a target.
#[derive(Clone, Debug, PartialEq, Eq)]
pub enum ContextMenu {
    Closed,
    OpenAt(Position, MenuTarget),
}

/// The modal: closed, renaming the entry at a path that is now called a name,
/// or showing a volume.
#[derive(Clone, Debug, PartialEq, Eq)]
pub enum Modal {
    Closed,
    RenameOf(String, String),
    VolumeInfo(VolumeId),
}

/// The overlays of one session.
#[derive(Clone, Debug, PartialEq, Eq)]
pub struct InteractionState {
    /// The context menu.
    pub context_menu: ContextMenu,
    /// The one modal. Only an explicit close action closes it.
    pub modal: Modal,
    /// The name typed into an open rename modal; without one it means nothing.
    pub pending_rename_text: String,
}

/// A menu target as mathematical values.
pub enum MenuTargetModel {
    MainArea,
    Entry(Seq<char>),
}

/// A context menu as mathematical values.
pub enum ContextMenuModel {
    Closed,
    OpenAt(Position, MenuTargetModel),
}

/// A modal as mathematical values.
pub enum ModalModel {
    Closed,
    RenameOf(Seq<char>, Seq<char>),
    VolumeInfo(char),
}

/// The overlays as mathematical values.
pub struct InteractionModel {
    pub context_menu: ContextMenuModel,
    pub modal: ModalModel,
    pub rename_text: Seq<char>,
}

impl View for MenuTarget {
    type V = MenuTargetModel;

    open spec fn view(&self) -> MenuTargetModel {
        match self {
            MenuTarget::MainArea => MenuTargetModel::MainArea,
            MenuTarget::Entry(path) => MenuTargetModel::Entry(path@),
        }
    }
}

impl View for ContextMenu {
    type V = ContextMenuModel;

    open spec fn view(&self) -> ContextMenuModel {
        match self {
            ContextMenu::Closed => ContextMenuModel::Closed,
            ContextMenu::OpenAt(position, target) => ContextMenuModel::OpenAt(*position, target@),
        }
    }
}

impl View for Modal {
    type V = ModalModel;

    open spec fn view(&self) -> ModalModel {
        match self {
            Modal::Closed => ModalModel::Closed,
            Modal::RenameOf(path, name) => ModalModel::RenameOf(path@, name@),
            Modal::VolumeInfo(id) => ModalModel::VolumeInfo(*id),
        }
    }
}

impl View for InteractionState {
    type V = InteractionModel;

    open spec fn view(&self) -> InteractionModel {
        InteractionModel {
            context_menu: self.context_menu@,
            modal: self.modal@,
            rename_text: self.pending_rename_text@,
        }
    }
}

impl InteractionModel {
    /// Nothing open.
    pub open spec fn idle() -> InteractionModel {
        InteractionModel {
            context_menu: ContextMenuModel::Closed,
            modal: ModalModel::Closed,
            rename_text: Seq::empty(),
        }
    }

    /// After a context menu has been opened.
    pub open spec fn menu_opened(
        self,
        position: Position,
        target: MenuTargetModel,
    ) -> InteractionModel {
        InteractionModel {
            context_menu: ContextMenuModel::OpenAt(position, target),
            modal: self.modal,
            rename_text: self.rename_text,
        }
    }

    /// After the context menu has been closed. A primary click outside the
    /// overlays does exactly this: the modal stays.
    pub open spec fn menu_closed(self) -> InteractionModel {
        InteractionModel {
            context_menu: ContextMenuModel::Closed,
            modal: self.modal,
            rename_text: self.rename_text,
        }
    }

    /// After the rename modal has been opened on the entry at `path`, now
    /// called `name`.
    pub open spec fn rename_opened(self, path: Seq<char>, name: Seq<char>) -> InteractionModel {
        InteractionModel {
            context_menu: ContextMenuModel::Closed,
            modal: ModalModel::RenameOf(path, name),
            rename_text: name,
        }
    }

    /// After the volume modal has been opened on `id`.
    pub open spec fn volume_info_opened(self, id: char) -> InteractionModel {
        InteractionModel {
            context_menu: ContextMenuModel::Closed,
            modal: ModalModel::VolumeInfo(id),
            rename_text: self.rename_text,
        }
    }

    /// After `text` has been typed into the rename modal. Without an open
    /// rename modal there is nothing to type into.
    pub open spec fn rename_typed(self, text: Seq<char>) -> InteractionModel {
        if self.modal is RenameOf {
            InteractionModel {
                context_menu: self.context_menu,
                modal: self.modal,
                rename_text: text,
            }
        } else {
            self
        }
    }

    /// After the modal has been closed; the typed name is discarded.
    pub open spec fn modal_closed(self) -> InteractionModel {
        InteractionModel {
            context_menu: self.context_menu,
            modal: ModalModel::Closed,
            rename_text: Seq::empty(),
        }
    }

    /// What confirming the rename asks for: nothing without an open rename
    /// modal, else the answer to renaming its entry to the typed name.
    pub open spec fn rename_confirmed(self, present: Seq<DirectoryEntry>) -> Option<
        Result<FsRequestModel, FileOpError>,
    > {
        match self.modal {
            ModalModel::RenameOf(path, _) => Some(rename_answer(path, self.rename_text, present)),
            _ => None,
        }
    }

    /// After a confirmed rename has ended with `outcome`: success closes the
    /// rename modal, failure leaves everything as it is.
    pub open spec fn rename_settled(self, outcome: Result<(), FileOpError>) -> InteractionModel {
        if outcome is Ok && self.modal is RenameOf {
            self.modal_closed()
        } else {
            self
        }
    }
}

/// A confirmation's answer as mathematical values.
pub open spec fn confirmation_model(answer: Option<Result<FsRequest, FileOpError>>) -> Option<
    Result<FsRequestModel, FileOpError>,
> {
    match answer {
        Some(a) => Some(answer_model(a)),
        None => None,
    }
}

impl InteractionState {
    /// No menu, no modal.
    pub fn new() -> (state: Self)
        ensures
            state@ == InteractionModel::idle(),
    {
        InteractionState {
            context_menu: ContextMenu::Closed,
            modal: Modal::Closed,
            pending_rename_text: String::new(),
        }
    }

    /// Opens the context menu at `position` on `target`.
    pub fn open_context_menu(&mut self, position: Position, target: MenuTarget)
        ensures
            final(self)@ == old(self)@.menu_opened(position, target@),
    {
        self.context_menu = ContextMenu::OpenAt(position, target);
    }

    /// Closes the context menu, open or not.
    pub fn close_context_menu(&mut self)
        ensures
            final(self)@ == old(self)@.menu_closed(),
    {
        self.context_menu = ContextMenu::Closed;
    }

    /// Opens the rename modal on the entry at `entry_path`, now called
    /// `current_name`, with that name as the text to edit, and closes the
    /// context menu.
    pub fn open_rename(&mut self, entry_path: String, current_name: String)
        ensures
            final(self)@ == old(self)@.rename_opened(entry_path@, current_name@),
    {
        self.pending_rename_text = current_name.clone();
        self.modal = Modal::RenameOf(entry_path, current_name);
        self.context_menu = ContextMenu::Closed;
    }

    /// Opens the volume modal on `volume_id` and closes the context menu.
    pub fn open_volume_info(&mut self, volume_id: VolumeId)
        ensures
            final(self)@ == old(self)@.volume_info_opened(volume_id),
    {
        self.modal = Modal::VolumeInfo(volume_id);
        self.context_menu = ContextMenu::Closed;
    }

    /// Replaces the text of an open rename modal by `text`.
    pub fn edit_rename_text(&mut self, text: String)
        ensures
            final(self)@ == old(self)@.rename_typed(text@),
    {
        match self.modal {
            Modal::RenameOf(_, _) => {
                self.pending_rename_text = text;
            },
            _ => {},
        }
    }

    /// Confirms the rename: asks for the entry of the open rename modal to be
    /// called what has been typed, among the entries `present` of its
    /// directory. The state is not touched: the modal stays open until the
    /// outcome of the change is settled, so a refusal loses no input.
    pub fn confirm_rename(&self, present: &Vec<DirectoryEntry>) -> (answer: Option<
        Result<FsRequest, FileOpError>,
    >)
        ensures
            confirmation_model(answer) == self@.rename_confirmed(present@),
    {
        match &self.modal {
            Modal::RenameOf(path, _) => Some(
                rename(path.as_str(), self.pending_rename_text.as_str(), present),
            ),
            _ => None,
        }
    }

    /// Settles a confirmed rename with the outcome of the change. Success
    /// closes the rename modal; after a failure the modal is still open and
    /// the typed name is still there.
    pub fn settle_rename(&mut self, outcome: Result<(), FileOpError>)
        ensures
            final(self)@ == old(self)@.rename_settled(outcome),
            outcome is Err ==> *final(self) == *old(self),
    {
        if outcome.is_ok() {
            match self.modal {
                Modal::RenameOf(_, _) => {
                    self.close_modal();
                },
                _ => {},
            }
        }
    }

    /// Closes the modal, whichever it is, and discards the typed name.
    pub fn close_modal(&mut self)
        ensures
            final(self)@ == old(self)@.modal_closed(),
    {
        self.modal = Modal::Closed;
        self.pending_rename_text = String::new();
    }
}

/// Opening a modal closes the context menu, and the modal that is open
/// afterwards is the one that was asked for.
pub proof fn law_modal_closes_menu(
    state: InteractionModel,
    path: Seq<char>,
    name: Seq<char>,
    id: char,
)
    ensures
        state.rename_opened(path, name).context_menu == ContextMenuModel::Closed,
        state.rename_opened(path, name).modal == ModalModel::RenameOf(path, name),
        state.rename_opened(path, name).rename_text == name,
        state.volume_info_opened(id).context_menu == ContextMenuModel::Closed,
        state.volume_info_opened(id).modal == ModalModel::VolumeInfo(id),
{
}

/// A click outside closes the context menu and never the modal; closing the
/// menu twice is closing it once.
pub proof fn law_menu_dismissal(state: InteractionModel)
    ensures
        state.menu_closed().modal == state.modal,
        state.menu_closed().rename_text == state.rename_text,
        state.menu_closed().context_menu == ContextMenuModel::Closed,
        state.menu_closed().menu_closed() == state.menu_closed(),
{
}

/// A rename that fails, by refusal or on the disk, leaves the modal open and
/// the typed name as it was, so that confirming again asks the same.
pub proof fn law_failed_rename_keeps_modal(
    state: InteractionModel,
    present: Seq<DirectoryEntry>,
    error: FileOpError,
)
    requires
        state.modal is RenameOf,
    ensures
        state.rename_settled(Err(error)) == state,
        state.rename_settled(Err(error)).rename_confirmed(present) == state.rename_confirmed(
            present,
        ),
        state.rename_settled(Ok(())).modal == ModalModel::Closed,
{
}

} // verus!
