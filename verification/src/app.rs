//! One browser session: its state, the events that reach it, and what each
//! event does to the state and asks of the platform.

use crate::entry::{DirectoryEntry, EntryKind};
use crate::error::FileOpError;
use crate::fileop::{
    answer_model, create_directory, create_directory_answer, create_file, create_file_answer,
    delete, delete_request, name_taken_beside, FsRequest, FsRequestModel,
};
use crate::interaction::{InteractionModel, InteractionState, MenuTarget, Position};
use crate::launcher::{
    launch_answer, launch_outcome, launch_result, open_with_default_handler, LaunchCommand,
    LaunchModel,
};
use crate::nav::{Ascent, Mode, NavModel, NavigationState};
use crate::path::{parent_text, sibling_text};
use crate::disk::disk_list::{disk_list, get_disk_list, VolumeId};
use vstd::prelude::*;

verus! {

/// The state of the one session of the browser.
#[derive(Clone, Debug, PartialEq, Eq)]
pub struct FileExplorerApp {
    /// Where the session is.
    pub nav: NavigationState,
    /// Which overlay is open.
    pub interaction: InteractionState,
    /// The directory the program was started in, where its assets lie.
    pub program_root: String,
    /// The name of the operating system, as the platform spells it.
    pub os: String,
    /// The text in the search field. Nothing is filtered by it.
    pub search: String,
}

/// Something the user or the platform did.
#[derive(Debug, PartialEq, Eq)]
pub enum Event {
    /// The text of the search field was edited.
    SearchEdited(String),
    /// The back button was clicked.
    GoUp,
    /// The update button of the volume panel was clicked.
    RefreshVolumes,
    /// The platform answered the drive query; `None` where it has none.
    VolumesEnumerated(Option<u32>),
    /// A volume was activated.
    VolumeActivated(VolumeId),
    /// The information item of a volume's menu was chosen.
    VolumeInfoRequested(VolumeId),
    /// A secondary click on a target, with the pointer position where known.
    ContextMenuRequested(Option<Position>, MenuTarget),
    /// A primary click outside the overlays.
    PrimaryClick,
    /// The new-folder item was chosen; the text is the name to give.
    NewFolder(String),
    /// The new-file item was chosen; the text is the name to give.
    NewFile(String),
    /// An entry was activated.
    EntryActivated(DirectoryEntry),
    /// The rename item of an entry's menu was chosen.
    RenameRequested(DirectoryEntry),
    /// The delete item of an entry's menu was chosen.
    DeleteRequested(DirectoryEntry),
    /// The text of the rename modal was edited.
    RenameTextEdited(String),
    /// The rename button of the rename modal was clicked.
    RenameConfirmed,
    /// A requested change was made, or failed.
    ChangeFinished(FsRequest, Result<(), FileOpError>),
    /// A launch command was started, or could not be.
    LaunchFinished(bool),
    /// The close button of the modal was clicked.
    ModalCloseRequested,
}

/// What the session asks of its surroundings in answer to an event.
#[derive(Clone, Debug, PartialEq, Eq)]
pub enum Effect {
    /// Nothing.
    Nothing,
    /// Ask the platform for its drives and hand in `VolumesEnumerated`.
    EnumerateVolumes,
    /// Make this change and hand in `ChangeFinished`.
    Perform(FsRequest),
    /// Start this command and hand in `LaunchFinished`.
    Launch(LaunchCommand),
    /// Tell the user of this failure.
    Report(FileOpError),
}

/// The session as mathematical values.
pub struct SessionModel {
    pub nav: NavModel,
    pub interaction: InteractionModel,
    pub program_root: Seq<char>,
    pub os: Seq<char>,
    pub search: Seq<char>,
}

/// An effect as mathematical values.
pub enum EffectModel {
    Nothing,
    EnumerateVolumes,
    Perform(FsRequestModel),
    Launch(LaunchModel),
    Report(FileOpError),
}

impl View for FileExplorerApp {
    type V = SessionModel;

    open spec fn view(&self) -> SessionModel {
        SessionModel {
            nav: self.nav@,
            interaction: self.interaction@,
            program_root: self.program_root@,
            os: self.os@,
            search: self.search@,
        }
    }
}

impl View for Effect {
    type V = EffectModel;

    open spec fn view(&self) -> EffectModel {
        match self {
            Effect::Nothing => EffectModel::Nothing,
            Effect::EnumerateVolumes => EffectModel::EnumerateVolumes,
            Effect::Perform(request) => EffectModel::Perform(request@),
            Effect::Launch(command) => EffectModel::Launch(command@),
            Effect::Report(error) => EffectModel::Report(*error),
        }
    }
}

/// The effect that carries out an answer: the change, or the report of the
/// refusal.
pub open spec fn effect_of_answer(answer: Result<FsRequestModel, FileOpError>) -> EffectModel {
    match answer {
        Ok(request) => EffectModel::Perform(request),
        Err(error) => EffectModel::Report(error),
    }
}

/// The effect that follows an outcome: nothing after success, the report of
/// the failure otherwise.
pub open spec fn effect_of_outcome(outcome: Result<(), FileOpError>) -> EffectModel {
    match outcome {
        Ok(_) => EffectModel::Nothing,
        Err(error) => EffectModel::Report(error),
    }
}

impl SessionModel {
    /// The session with another navigation state.
    pub open spec fn with_nav(self, nav: NavModel) -> SessionModel {
        SessionModel {
            nav,
            interaction: self.interaction,
            program_root: self.program_root,
            os: self.os,
            search: self.search,
        }
    }

    /// The session with other overlays.
    pub open spec fn with_interaction(self, interaction: InteractionModel) -> SessionModel {
        SessionModel {
            nav: self.nav,
            interaction,
            program_root: self.program_root,
            os: self.os,
            search: self.search,
        }
    }

    /// The session with another search text.
    pub open spec fn with_search(self, search: Seq<char>) -> SessionModel {
        SessionModel {
            nav: self.nav,
            interaction: self.interaction,
            program_root: self.program_root,
            os: self.os,
            search,
        }
    }

    /// The session after the back button.
    pub open spec fn after_prev_folder(self) -> SessionModel {
        self.with_nav(self.nav.went_up())
    }

    /// What the back button asks for: a fresh enumeration where the current
    /// directory has no parent.
    pub open spec fn prev_folder_effect(self) -> EffectModel {
        if parent_text(self.nav.path) is None {
            EffectModel::EnumerateVolumes
        } else {
            EffectModel::Nothing
        }
    }

    /// What activating an entry asks for: a launch for a file where the
    /// operating system has a launcher.
    pub open spec fn open_file_effect(self, path: Seq<char>) -> EffectModel {
        match launch_answer(self.os, path) {
            Ok(command) => EffectModel::Launch(command),
            Err(error) => EffectModel::Report(error),
        }
    }

    /// The session after `event`, where `present` are the entries of the
    /// current directory as last listed.
    pub open spec fn step(self, event: Event, present: Seq<DirectoryEntry>) -> SessionModel {
        match event {
            Event::SearchEdited(text) => self.with_search(text@),
            Event::GoUp => self.after_prev_folder(),
            Event::RefreshVolumes => self,
            Event::VolumesEnumerated(mask) => self.with_nav(self.nav.refreshed(disk_list(mask))),
            Event::VolumeActivated(id) => if self.nav.volumes.contains(id) {
                self.with_nav(self.nav.selected(id))
            } else {
                self
            },
            Event::VolumeInfoRequested(id) => self.with_interaction(
                self.interaction.volume_info_opened(id),
            ),
            Event::ContextMenuRequested(pointer, target) => match pointer {
                Some(position) => self.with_interaction(
                    self.interaction.menu_opened(position, target@),
                ),
                None => self,
            },
            Event::PrimaryClick => self.with_interaction(self.interaction.menu_closed()),
            Event::NewFolder(_) => self,
            Event::NewFile(_) => self,
            Event::EntryActivated(entry) => match entry.kind {
                EntryKind::Directory => self.with_nav(self.nav.entered(entry.full_path@)),
                EntryKind::File => self,
            },
            Event::RenameRequested(entry) => self.with_interaction(
                self.interaction.rename_opened(entry.full_path@, entry.name@),
            ),
            Event::DeleteRequested(_) => self.with_interaction(self.interaction.menu_closed()),
            Event::RenameTextEdited(text) => self.with_interaction(
                self.interaction.rename_typed(text@),
            ),
            Event::RenameConfirmed => self,
            Event::ChangeFinished(request, outcome) => if request is Rename {
                self.with_interaction(self.interaction.rename_settled(outcome))
            } else {
                self
            },
            Event::LaunchFinished(_) => self,
            Event::ModalCloseRequested => self.with_interaction(self.interaction.modal_closed()),
        }
    }

    /// What the session asks for in answer to `event`.
    pub open spec fn effect(self, event: Event, present: Seq<DirectoryEntry>) -> EffectModel {
        match event {
            Event::GoUp => self.prev_folder_effect(),
            Event::RefreshVolumes => EffectModel::EnumerateVolumes,
            Event::VolumeActivated(id) => if self.nav.volumes.contains(id) {
                EffectModel::Nothing
            } else {
                EffectModel::Report(FileOpError::InvalidVolume)
            },
            Event::NewFolder(name) => effect_of_answer(
                create_directory_answer(self.nav.path, name@, present),
            ),
            Event::NewFile(name) => effect_of_answer(
                create_file_answer(self.nav.path, name@, present),
            ),
            Event::EntryActivated(entry) => match entry.kind {
                EntryKind::Directory => EffectModel::Nothing,
                EntryKind::File => self.open_file_effect(entry.full_path@),
            },
            Event::DeleteRequested(entry) => EffectModel::Perform(
                delete_request(entry.full_path@, entry.kind),
            ),
            Event::RenameConfirmed => match self.interaction.rename_confirmed(present) {
                Some(answer) => effect_of_answer(answer),
                None => EffectModel::Nothing,
            },
            Event::ChangeFinished(_, outcome) => effect_of_outcome(outcome),
            Event::LaunchFinished(started) => effect_of_outcome(launch_result(started)),
            _ => EffectModel::Nothing,
        }
    }
}

/// Turns an answer into the effect that carries it out.
pub fn answer_effect(answer: Result<FsRequest, FileOpError>) -> (effect: Effect)
    ensures
        effect@ == effect_of_answer(answer_model(answer)),
{
    match answer {
        Ok(request) => Effect::Perform(request),
        Err(error) => Effect::Report(error),
    }
}

/// Turns an outcome into the effect that follows it.
pub fn outcome_effect(outcome: Result<(), FileOpError>) -> (effect: Effect)
    ensures
        effect@ == effect_of_outcome(outcome),
{
    match outcome {
        Ok(_) => Effect::Nothing,
        Err(error) => Effect::Report(error),
    }
}

impl FileExplorerApp {
    /// A session started in `working_dir` on the operating system called
    /// `os`, with the volumes that the platform's drive query answered. It
    /// browses the working directory with nothing open.
    pub fn new(working_dir: String, os: String, drives_mask: Option<u32>) -> (app: Self)
        ensures
            app@ == (SessionModel {
                nav: NavModel {
                    path: working_dir@,
                    mode: Mode::Browsing,
                    volumes: disk_list(drives_mask),
                },
                interaction: InteractionModel::idle(),
                program_root: working_dir@,
                os: os@,
                search: Seq::empty(),
            }),
    {
        let program_root = working_dir.clone();
        FileExplorerApp {
            nav: NavigationState::new(working_dir, get_disk_list(drives_mask)),
            interaction: InteractionState::new(),
            program_root,
            os,
            search: String::new(),
        }
    }

    /// The command that opens the file `entry` with its default application,
    /// or the report that this operating system has none.
    pub fn open_file(&self, entry: &DirectoryEntry) -> (effect: Effect)
        ensures
            effect@ == self@.open_file_effect(entry.full_path@),
    {
        match open_with_default_handler(self.os.as_str(), entry.full_path.as_str()) {
            Ok(command) => Effect::Launch(command),
            Err(error) => Effect::Report(error),
        }
    }

    /// Enters the directory `entry`.
    pub fn open_folder(&mut self, entry: &DirectoryEntry)
        ensures
            final(self)@ == old(self)@.with_nav(old(self)@.nav.entered(entry.full_path@)),
    {
        self.nav.enter_directory(entry.full_path.clone());
    }

    /// Goes up one directory. From a directory without a parent the session
    /// turns to selecting a volume and asks for a fresh enumeration.
    pub fn prev_folder(&mut self) -> (effect: Effect)
        ensures
            final(self)@ == old(self)@.after_prev_folder(),
            effect@ == old(self)@.prev_folder_effect(),
    {
        match self.nav.go_up() {
            Ascent::ToParent => Effect::Nothing,
            Ascent::ToDiskSelection => Effect::EnumerateVolumes,
        }
    }

    /// Replaces the known volumes by what the platform's drive query answered.
    pub fn update_disk_list(&mut self, drives_mask: Option<u32>)
        ensures
            final(self)@ == old(self)@.with_nav(old(self)@.nav.refreshed(disk_list(drives_mask))),
    {
        self.nav.refresh_volumes(drives_mask);
    }

    /// Takes the end of a requested change as the platform reported it:
    /// `None` after success, the kind of the error otherwise. A failure of
    /// whatever kind leaves the session as it is and is reported; success
    /// counts as the event `ChangeFinished` with `Ok`.
    pub fn change_finished(
        &mut self,
        request: FsRequest,
        failure: Option<std::io::ErrorKind>,
        present: &Vec<DirectoryEntry>,
    ) -> (effect: Effect)
        ensures
            failure is None ==> final(self)@ == old(self)@.step(
                Event::ChangeFinished(request, Ok(())),
                present@,
            ) && effect@ == EffectModel::Nothing,
            failure is Some ==> final(self)@ == old(self)@ && (effect@ matches EffectModel::Report(
                error,
            ) && error.is_platform_failure()),
    {
        let outcome = match failure {
            None => Ok(()),
            Some(kind) => Err(FileOpError::of_io(kind)),
        };
        self.update(Event::ChangeFinished(request, outcome), present)
    }

    /// Takes one event: changes the state as the event demands and says what
    /// is to be done outside. `present` holds the entries of the current
    /// directory as last listed.
    pub fn update(&mut self, event: Event, present: &Vec<DirectoryEntry>) -> (effect: Effect)
        ensures
            final(self)@ == old(self)@.step(event, present@),
            effect@ == old(self)@.effect(event, present@),
    {
        match event {
            Event::SearchEdited(text) => {
                self.search = text;
                Effect::Nothing
            },
            Event::GoUp => self.prev_folder(),
            Event::RefreshVolumes => Effect::EnumerateVolumes,
            Event::VolumesEnumerated(mask) => {
                self.update_disk_list(mask);
                Effect::Nothing
            },
            Event::VolumeActivated(id) => match self.nav.select_volume(id) {
                Ok(_) => Effect::Nothing,
                Err(error) => Effect::Report(error),
            },
            Event::VolumeInfoRequested(id) => {
                self.interaction.open_volume_info(id);
                Effect::Nothing
            },
            Event::ContextMenuRequested(pointer, target) => {
                if let Some(position) = pointer {
                    self.interaction.open_context_menu(position, target);
                }
                Effect::Nothing
            },
            Event::PrimaryClick => {
                self.interaction.close_context_menu();
                Effect::Nothing
            },
            Event::NewFolder(name) => answer_effect(
                create_directory(self.nav.current_path.as_str(), name.as_str(), present),
            ),
            Event::NewFile(name) => answer_effect(
                create_file(self.nav.current_path.as_str(), name.as_str(), present),
            ),
            Event::EntryActivated(entry) => match entry.kind {
                EntryKind::Directory => {
                    self.open_folder(&entry);
                    Effect::Nothing
                },
                EntryKind::File => self.open_file(&entry),
            },
            Event::RenameRequested(entry) => {
                self.interaction.open_rename(entry.full_path, entry.name);
                Effect::Nothing
            },
            Event::DeleteRequested(entry) => {
                self.interaction.close_context_menu();
                Effect::Perform(delete(entry.full_path.as_str(), entry.kind))
            },
            Event::RenameTextEdited(text) => {
                self.interaction.edit_rename_text(text);
                Effect::Nothing
            },
            Event::RenameConfirmed => match self.interaction.confirm_rename(present) {
                Some(answer) => answer_effect(answer),
                None => Effect::Nothing,
            },
            Event::ChangeFinished(request, outcome) => {
                match request {
                    FsRequest::Rename { from: _, to: _ } => {
                        self.interaction.settle_rename(outcome);
                    },
                    _ => {},
                }
                outcome_effect(outcome)
            },
            Event::LaunchFinished(started) => outcome_effect(launch_outcome(started)),
            Event::ModalCloseRequested => {
                self.interaction.close_modal();
                Effect::Nothing
            },
        }
    }
}

/// Volume selection is entered from browsing by the back button on a
/// directory without a parent, and by no other event.
pub proof fn law_disk_selection_entered_by_go_up(
    session: SessionModel,
    event: Event,
    present: Seq<DirectoryEntry>,
)
    requires
        session.nav.mode == Mode::Browsing,
        session.step(event, present).nav.mode == Mode::DiskSelection,
    ensures
        event is GoUp,
        parent_text(session.nav.path) is None,
        session.effect(event, present) == EffectModel::EnumerateVolumes,
{
}

/// The back button on a directory without a parent, followed by the answer
/// to the enumeration it asked for, leaves the session selecting among
/// exactly the volumes of that answer.
pub proof fn law_go_up_from_root_refreshes(
    session: SessionModel,
    drives_mask: Option<u32>,
    present: Seq<DirectoryEntry>,
)
    requires
        parent_text(session.nav.path) is None,
    ensures
        session.effect(Event::GoUp, present) == EffectModel::EnumerateVolumes,
        session.step(Event::GoUp, present).step(
            Event::VolumesEnumerated(drives_mask),
            present,
        ).nav == (NavModel {
            path: session.nav.path,
            mode: Mode::DiskSelection,
            volumes: disk_list(drives_mask),
        }),
{
}

/// An open modal is closed by its close button or by a rename that
/// succeeded, and by nothing else: not by a click outside, not by a failure.
pub proof fn law_modal_closes_explicitly(
    session: SessionModel,
    event: Event,
    present: Seq<DirectoryEntry>,
)
    requires
        !(session.interaction.modal is Closed),
        session.step(event, present).interaction.modal is Closed,
    ensures
        event is ModalCloseRequested || (event matches Event::ChangeFinished(request, outcome)
            && request is Rename && outcome is Ok && session.interaction.modal is RenameOf),
{
}

/// A change that failed changes nothing in the session, whatever the change
/// was: the failure is reported, and an open rename modal keeps its text.
pub proof fn law_failed_change_keeps_session(
    session: SessionModel,
    request: FsRequest,
    error: FileOpError,
    present: Seq<DirectoryEntry>,
)
    ensures
        session.step(Event::ChangeFinished(request, Err(error)), present) == session,
        session.effect(Event::ChangeFinished(request, Err(error)), present) == EffectModel::Report(
            error,
        ),
{
}

/// A refused rename changes nothing either: confirming leaves the session as
/// it is, and where another entry has the typed name the answer is the
/// report of `AlreadyExists`.
pub proof fn law_refused_rename_keeps_session(
    session: SessionModel,
    present: Seq<DirectoryEntry>,
    other: int,
)
    requires
        session.interaction.modal is RenameOf,
        0 <= other < present.len(),
        present[other].name@ == session.interaction.rename_text,
        present[other].full_path@ != session.interaction.modal->RenameOf_0,
    ensures
        session.step(Event::RenameConfirmed, present) == session,
        session.effect(Event::RenameConfirmed, present) == EffectModel::Report(
            FileOpError::AlreadyExists,
        ),
{
}

/// The current directory changes by going up, by activating an entry and by
/// activating a volume, and by nothing else; the known volumes change only
/// when an enumeration is handed in.
pub proof fn law_navigation_changes_by_navigation(
    session: SessionModel,
    event: Event,
    present: Seq<DirectoryEntry>,
)
    ensures
        session.step(event, present).nav.path != session.nav.path ==> event is GoUp
            || event is EntryActivated || event is VolumeActivated,
        session.step(event, present).nav.volumes != session.nav.volumes
            ==> event is VolumesEnumerated,
        session.step(event, present).program_root == session.program_root,
        session.step(event, present).os == session.os,
{
}

/// A confirmed rename that no other entry stands in the way of asks for the
/// entry to move to its sibling of the typed name, and once that change has
/// been made the modal is closed.
pub proof fn law_confirmed_rename_closes_modal(
    session: SessionModel,
    present: Seq<DirectoryEntry>,
    request: FsRequest,
)
    requires
        session.interaction.modal is RenameOf,
        !name_taken_beside(
            present,
            session.interaction.rename_text,
            session.interaction.modal->RenameOf_0,
        ),
        request@ == (FsRequestModel::Rename {
            from: session.interaction.modal->RenameOf_0,
            to: sibling_text(
                session.interaction.modal->RenameOf_0,
                session.interaction.rename_text,
            ),
        }),
    ensures
        session.effect(Event::RenameConfirmed, present) == EffectModel::Perform(request@),
        session.step(Event::RenameConfirmed, present).step(
            Event::ChangeFinished(request, Ok(())),
            present,
        ).interaction.modal is Closed,
        session.step(Event::RenameConfirmed, present).step(
            Event::ChangeFinished(request, Ok(())),
            present,
        ).nav == session.nav,
{
}

} // verus!
