use file_explorer::app::{answer_effect, outcome_effect, Effect, Event, FileExplorerApp};
use file_explorer::entry::{DirectoryEntry, EntryKind};
use file_explorer::error::FileOpError;
use file_explorer::fileop::FsRequest;
use file_explorer::interaction::{ContextMenu, MenuTarget, Modal, Position};
use file_explorer::launcher::LaunchCommand;
use file_explorer::nav::Mode;

fn session(dir: &str) -> FileExplorerApp {
    FileExplorerApp::new(dir.to_string(), "linux".to_string(), Some(0b100))
}

fn file(dir: &str, name: &str) -> DirectoryEntry {
    DirectoryEntry {
        name: name.to_string(),
        full_path: format!("{}/{}", dir, name),
        kind: EntryKind::File,
    }
}

fn folder(dir: &str, name: &str) -> DirectoryEntry {
    DirectoryEntry {
        name: name.to_string(),
        full_path: format!("{}/{}", dir, name),
        kind: EntryKind::Directory,
    }
}

fn listing_of_a() -> Vec<DirectoryEntry> {
    vec![file("/a", "old.txt"), folder("/a", "docs")]
}

fn corner() -> Position {
    Position { x_bits: 0, y_bits: 0 }
}

#[test]
fn new_session_starts_browsing_the_working_directory() {
    let app = session("/home/user");
    assert_eq!(app.nav.current_path, "/home/user");
    assert_eq!(app.program_root, "/home/user");
    assert_eq!(app.nav.mode, Mode::Browsing);
    assert_eq!(app.nav.known_volumes, vec!['C']);
    assert_eq!(app.interaction.context_menu, ContextMenu::Closed);
    assert_eq!(app.interaction.modal, Modal::Closed);
    assert_eq!(app.search, "");
    assert_eq!(app.os, "linux");
}

#[test]
fn back_button_walks_up_to_disk_selection() {
    let mut app = session("/home/user");
    let none = Vec::new();
    assert_eq!(app.update(Event::GoUp, &none), Effect::Nothing);
    assert_eq!(app.nav.current_path, "/home");
    assert_eq!(app.update(Event::GoUp, &none), Effect::Nothing);
    assert_eq!(app.nav.current_path, "/");
    assert_eq!(app.nav.mode, Mode::Browsing);
    assert_eq!(app.update(Event::GoUp, &none), Effect::EnumerateVolumes);
    assert_eq!(app.nav.mode, Mode::DiskSelection);
    assert_eq!(app.update(Event::VolumesEnumerated(Some(0b1101)), &none), Effect::Nothing);
    assert_eq!(app.nav.known_volumes, vec!['A', 'C', 'D']);
    assert_eq!(app.nav.mode, Mode::DiskSelection);
}

#[test]
fn prev_folder_asks_for_volumes_only_at_a_root() {
    let mut app = session("/a");
    assert_eq!(app.prev_folder(), Effect::Nothing);
    assert_eq!(app.nav.current_path, "/");
    assert_eq!(app.prev_folder(), Effect::EnumerateVolumes);
    assert_eq!(app.nav.mode, Mode::DiskSelection);
}

#[test]
fn update_button_asks_for_volumes_and_changes_nothing() {
    let mut app = session("/a");
    let before = app.clone();
    assert_eq!(app.update(Event::RefreshVolumes, &Vec::new()), Effect::EnumerateVolumes);
    assert_eq!(app, before);
    app.update_disk_list(None);
    assert_eq!(app.nav.known_volumes, Vec::<char>::new());
}

#[test]
fn activating_a_known_volume_browses_its_root() {
    let mut app = session("/");
    let none = Vec::new();
    app.update(Event::GoUp, &none);
    assert_eq!(app.update(Event::VolumeActivated('C'), &none), Effect::Nothing);
    assert_eq!(app.nav.current_path, "C:\\");
    assert_eq!(app.nav.mode, Mode::Browsing);
}

#[test]
fn activating_an_unknown_volume_is_reported() {
    let mut app = session("/");
    let before = app.clone();
    assert_eq!(
        app.update(Event::VolumeActivated('Q'), &Vec::new()),
        Effect::Report(FileOpError::InvalidVolume)
    );
    assert_eq!(app, before);
}

#[test]
fn volume_info_opens_the_modal_and_closes_the_menu() {
    let mut app = session("/");
    let none = Vec::new();
    app.update(Event::ContextMenuRequested(Some(corner()), MenuTarget::MainArea), &none);
    assert_eq!(app.update(Event::VolumeInfoRequested('C'), &none), Effect::Nothing);
    assert_eq!(app.interaction.modal, Modal::VolumeInfo('C'));
    assert_eq!(app.interaction.context_menu, ContextMenu::Closed);
}

#[test]
fn secondary_click_without_pointer_opens_nothing() {
    let mut app = session("/a");
    let before = app.clone();
    assert_eq!(
        app.update(Event::ContextMenuRequested(None, MenuTarget::MainArea), &Vec::new()),
        Effect::Nothing
    );
    assert_eq!(app, before);
}

#[test]
fn primary_click_closes_the_menu_but_not_the_modal() {
    let mut app = session("/a");
    let present = listing_of_a();
    app.update(Event::RenameRequested(file("/a", "old.txt")), &present);
    app.update(Event::ContextMenuRequested(Some(corner()), MenuTarget::MainArea), &present);
    assert_eq!(
        app.interaction.context_menu,
        ContextMenu::OpenAt(corner(), MenuTarget::MainArea)
    );
    assert_eq!(app.update(Event::PrimaryClick, &present), Effect::Nothing);
    assert_eq!(app.interaction.context_menu, ContextMenu::Closed);
    assert_eq!(
        app.interaction.modal,
        Modal::RenameOf("/a/old.txt".to_string(), "old.txt".to_string())
    );
}

#[test]
fn new_folder_is_created_in_the_current_directory() {
    let mut app = session("/a");
    let before = app.clone();
    assert_eq!(
        app.update(Event::NewFolder("new folder".to_string()), &listing_of_a()),
        Effect::Perform(FsRequest::CreateDir { path: "/a/new folder".to_string() })
    );
    assert_eq!(app, before);
}

#[test]
fn new_folder_with_a_present_name_is_refused() {
    let mut app = session("/a");
    let before = app.clone();
    assert_eq!(
        app.update(Event::NewFolder("docs".to_string()), &listing_of_a()),
        Effect::Report(FileOpError::AlreadyExists)
    );
    assert_eq!(app, before);
}

#[test]
fn new_file_is_created_or_refused() {
    let mut app = session("/a");
    assert_eq!(
        app.update(Event::NewFile("new file".to_string()), &listing_of_a()),
        Effect::Perform(FsRequest::CreateFile { path: "/a/new file".to_string() })
    );
    assert_eq!(
        app.update(Event::NewFile("old.txt".to_string()), &listing_of_a()),
        Effect::Report(FileOpError::AlreadyExists)
    );
}

#[test]
fn activating_a_directory_enters_it() {
    let mut app = session("/a");
    assert_eq!(
        app.update(Event::EntryActivated(folder("/a", "docs")), &listing_of_a()),
        Effect::Nothing
    );
    assert_eq!(app.nav.current_path, "/a/docs");
    assert_eq!(app.nav.mode, Mode::Browsing);
}

#[test]
fn activating_a_file_launches_it() {
    let mut app = session("/a");
    let before = app.clone();
    assert_eq!(
        app.update(Event::EntryActivated(file("/a", "old.txt")), &listing_of_a()),
        Effect::Launch(LaunchCommand {
            program: "xdg-open".to_string(),
            args: vec!["/a/old.txt".to_string()],
        })
    );
    assert_eq!(app, before);
    assert_eq!(app.open_file(&file("/a", "old.txt")), {
        Effect::Launch(LaunchCommand {
            program: "xdg-open".to_string(),
            args: vec!["/a/old.txt".to_string()],
        })
    });
}

#[test]
fn activating_a_file_on_an_unsupported_system_is_reported() {
    let mut app = FileExplorerApp::new("/a".to_string(), "freebsd".to_string(), None);
    assert_eq!(
        app.update(Event::EntryActivated(file("/a", "old.txt")), &listing_of_a()),
        Effect::Report(FileOpError::UnsupportedPlatform)
    );
}

#[test]
fn open_folder_enters_the_entry() {
    let mut app = session("/a");
    app.nav.mode = Mode::DiskSelection;
    app.open_folder(&folder("/a", "docs"));
    assert_eq!(app.nav.current_path, "/a/docs");
    assert_eq!(app.nav.mode, Mode::Browsing);
}

#[test]
fn failed_launch_is_reported() {
    let mut app = session("/a");
    assert_eq!(app.update(Event::LaunchFinished(true), &Vec::new()), Effect::Nothing);
    assert_eq!(
        app.update(Event::LaunchFinished(false), &Vec::new()),
        Effect::Report(FileOpError::LaunchFailed)
    );
}

#[test]
fn rename_scenario_closes_the_modal_after_success() {
    let mut app = session("/a");
    let present = listing_of_a();
    app.interaction.open_rename("/a/old.txt".to_string(), "old.txt".to_string());
    app.update(Event::RenameTextEdited("new.txt".to_string()), &present);
    assert_eq!(app.interaction.pending_rename_text, "new.txt");
    let request =
        FsRequest::Rename { from: "/a/old.txt".to_string(), to: "/a/new.txt".to_string() };
    assert_eq!(app.update(Event::RenameConfirmed, &present), Effect::Perform(request.clone()));
    assert_eq!(app.update(Event::ChangeFinished(request, Ok(())), &present), Effect::Nothing);
    assert_eq!(app.interaction.modal, Modal::Closed);
}

#[test]
fn rename_that_fails_on_disk_keeps_the_modal() {
    let mut app = session("/a");
    let present = listing_of_a();
    app.update(Event::RenameRequested(file("/a", "old.txt")), &present);
    app.update(Event::RenameTextEdited("new.txt".to_string()), &present);
    let before = app.clone();
    let request =
        FsRequest::Rename { from: "/a/old.txt".to_string(), to: "/a/new.txt".to_string() };
    assert_eq!(
        app.update(Event::ChangeFinished(request, Err(FileOpError::PermissionDenied)), &present),
        Effect::Report(FileOpError::PermissionDenied)
    );
    assert_eq!(app, before);
    assert_eq!(app.interaction.pending_rename_text, "new.txt");
}

#[test]
fn rename_to_a_taken_name_is_reported_and_keeps_the_modal() {
    let mut app = session("/a");
    let present = listing_of_a();
    app.update(Event::RenameRequested(file("/a", "old.txt")), &present);
    app.update(Event::RenameTextEdited("docs".to_string()), &present);
    let before = app.clone();
    assert_eq!(
        app.update(Event::RenameConfirmed, &present),
        Effect::Report(FileOpError::AlreadyExists)
    );
    assert_eq!(app, before);
}

#[test]
fn rename_confirmed_without_modal_does_nothing() {
    let mut app = session("/a");
    let before = app.clone();
    assert_eq!(app.update(Event::RenameConfirmed, &listing_of_a()), Effect::Nothing);
    assert_eq!(app, before);
}

#[test]
fn delete_of_a_missing_file_reports_not_found_and_changes_nothing() {
    let mut app = session("/a");
    let present = listing_of_a();
    let effect = app.update(Event::DeleteRequested(file("/a", "missing")), &present);
    let request = FsRequest::RemoveFile { path: "/a/missing".to_string() };
    assert_eq!(effect, Effect::Perform(request.clone()));
    let before = app.clone();
    assert_eq!(
        app.change_finished(request.clone(), Some(std::io::ErrorKind::NotFound), &present),
        Effect::Report(FileOpError::NotFound)
    );
    assert_eq!(app, before);
    assert_eq!(
        app.update(Event::ChangeFinished(request, Err(FileOpError::NotFound)), &present),
        Effect::Report(FileOpError::NotFound)
    );
    assert_eq!(app, before);
}

#[test]
fn delete_of_a_directory_asks_for_recursive_removal_and_closes_the_menu() {
    let mut app = session("/a");
    let present = listing_of_a();
    app.update(
        Event::ContextMenuRequested(Some(corner()), MenuTarget::Entry("/a/docs".to_string())),
        &present,
    );
    assert_eq!(
        app.update(Event::DeleteRequested(folder("/a", "docs")), &present),
        Effect::Perform(FsRequest::RemoveDirAll { path: "/a/docs".to_string() })
    );
    assert_eq!(app.interaction.context_menu, ContextMenu::Closed);
}

#[test]
fn finished_change_other_than_rename_leaves_the_modal() {
    let mut app = session("/a");
    let present = listing_of_a();
    app.update(Event::RenameRequested(file("/a", "old.txt")), &present);
    let before = app.clone();
    let request = FsRequest::CreateDir { path: "/a/x".to_string() };
    assert_eq!(app.update(Event::ChangeFinished(request, Ok(())), &present), Effect::Nothing);
    assert_eq!(app, before);
}

#[test]
fn modal_close_button_closes_any_modal() {
    let mut app = session("/a");
    let none = Vec::new();
    app.update(Event::VolumeInfoRequested('C'), &none);
    assert_eq!(app.update(Event::ModalCloseRequested, &none), Effect::Nothing);
    assert_eq!(app.interaction.modal, Modal::Closed);
}

#[test]
fn search_text_is_kept_and_filters_nothing() {
    let mut app = session("/a");
    assert_eq!(app.update(Event::SearchEdited("old".to_string()), &listing_of_a()), Effect::Nothing);
    assert_eq!(app.search, "old");
    assert_eq!(app.nav.current_path, "/a");
}

#[test]
fn answer_effect_performs_or_reports() {
    assert_eq!(
        answer_effect(Ok(FsRequest::RemoveFile { path: "/x".to_string() })),
        Effect::Perform(FsRequest::RemoveFile { path: "/x".to_string() })
    );
    assert_eq!(
        answer_effect(Err(FileOpError::AlreadyExists)),
        Effect::Report(FileOpError::AlreadyExists)
    );
}

#[test]
fn finished_change_is_settled_by_the_platform_answer() {
    let mut app = session("/a");
    let present = listing_of_a();
    app.update(Event::RenameRequested(file("/a", "old.txt")), &present);
    app.update(Event::RenameTextEdited("new.txt".to_string()), &present);
    let request =
        FsRequest::Rename { from: "/a/old.txt".to_string(), to: "/a/new.txt".to_string() };
    let before = app.clone();
    assert_eq!(
        app.change_finished(request.clone(), Some(std::io::ErrorKind::PermissionDenied), &present),
        Effect::Report(FileOpError::PermissionDenied)
    );
    assert_eq!(app, before);
    assert_eq!(
        app.change_finished(request.clone(), Some(std::io::ErrorKind::TimedOut), &present),
        Effect::Report(FileOpError::IoError)
    );
    assert_eq!(app, before);
    assert_eq!(app.change_finished(request, None, &present), Effect::Nothing);
    assert_eq!(app.interaction.modal, Modal::Closed);
}

#[test]
fn outcome_effect_reports_failures_only() {
    assert_eq!(outcome_effect(Ok(())), Effect::Nothing);
    assert_eq!(
        outcome_effect(Err(FileOpError::DirectoryNotEmpty)),
        Effect::Report(FileOpError::DirectoryNotEmpty)
    );
}
