use places_applet::config::{Config, Favorite, FilesConfig, WellKnownDirs};
use places_applet::nav::{FsStatus, Location};
use places_applet::popup::{PopupLifecycle, PopupRequest, PopupState};
use places_applet::queries::{fs_status_from, trash_non_empty_from_answer};
use places_applet::window::{dispatch, Message, UpdateAction, Window};

fn win_dirs() -> WellKnownDirs {
    WellKnownDirs {
        home: Some("/home/bob".to_string()),
        documents: Some("/home/bob/Documents".to_string()),
        downloads: None,
        music: None,
        pictures: None,
        videos: None,
        desktop: None,
        public_share: None,
        templates: None,
    }
}

fn win_window() -> Window {
    let favorites = vec![Favorite::Home, Favorite::Path("/srv/www".to_string())];
    let fs = vec![FsStatus::Directory, FsStatus::Directory];
    Window::init(
        Config { show_icon: true },
        FilesConfig { favorites },
        &win_dirs(),
        &fs,
        false,
    )
}

#[test]
fn toggle_issues_fresh_unique_ids() {
    let mut popup = PopupLifecycle::new();
    let mut seen = Vec::new();
    for _ in 0..5 {
        match popup.toggle() {
            PopupRequest::Create { id, limits } => {
                assert!(!seen.contains(&id));
                seen.push(id);
                assert_eq!(popup.state, PopupState::Open(id));
                assert_eq!(limits.min_width, 100);
                assert_eq!(limits.max_width, 200);
                assert_eq!(limits.min_height, 200);
                assert_eq!(limits.max_height, 1080);
            }
            PopupRequest::Destroy { .. } => panic!("toggle from Closed must create"),
        }
        match popup.toggle() {
            PopupRequest::Destroy { id } => {
                assert_eq!(id, *seen.last().unwrap());
                assert_eq!(popup.state, PopupState::Closed);
            }
            PopupRequest::Create { .. } => panic!("toggle from Open must destroy"),
        }
    }
}

#[test]
fn external_close_of_live_id_closes() {
    let mut popup = PopupLifecycle::new();
    let id = match popup.toggle() {
        PopupRequest::Create { id, .. } => id,
        PopupRequest::Destroy { .. } => panic!("toggle from Closed must create"),
    };
    popup.external_close(id);
    assert_eq!(popup.state, PopupState::Closed);
}

#[test]
fn external_close_of_stale_id_is_ignored() {
    let mut popup = PopupLifecycle::new();
    let id = match popup.toggle() {
        PopupRequest::Create { id, .. } => id,
        PopupRequest::Destroy { .. } => panic!("toggle from Closed must create"),
    };
    popup.external_close(id.wrapping_add(17));
    assert_eq!(popup.state, PopupState::Open(id));
    popup.external_close(id);
    assert_eq!(popup.state, PopupState::Closed);
    // A duplicate close for an identity already gone changes nothing.
    popup.external_close(id);
    assert_eq!(popup.state, PopupState::Closed);
}

#[test]
fn display_config_change_does_not_rebuild() {
    let mut w = win_window();
    let before = w.nav_model.clone();
    let fs: Vec<FsStatus> = Vec::new();
    let action = w.update(Message::Config(Config { show_icon: false }), &win_dirs(), &fs, false);
    assert_eq!(action, UpdateAction::NoOp);
    assert_eq!(w.config, Config { show_icon: false });
    assert_eq!(w.nav_model, before);
}

#[test]
fn unchanged_favorites_notification_changes_nothing() {
    let mut w = win_window();
    let before = w.nav_model.clone();
    let same = FilesConfig {
        favorites: vec![Favorite::Home, Favorite::Path("/srv/www".to_string())],
    };
    let fs = vec![FsStatus::Missing, FsStatus::Missing];
    // Were these answers read, both favorites would vanish; they are not read.
    let action = w.update(Message::FilesConfig(same), &win_dirs(), &fs, true);
    assert_eq!(action, UpdateAction::NoOp);
    assert_eq!(w.nav_model, before);
}

#[test]
fn changed_favorites_notification_rebuilds() {
    let mut w = win_window();
    let new = FilesConfig { favorites: vec![Favorite::Documents] };
    let fs = vec![FsStatus::Directory];
    let action = w.update(Message::FilesConfig(new), &win_dirs(), &fs, false);
    assert_eq!(action, UpdateAction::NoOp);
    assert_eq!(w.nav_model.len(), 2);
    assert_eq!(w.nav_model[0].label, "Documents");
    assert_eq!(w.nav_model[1].label, "Trash");
}

#[test]
fn selecting_a_path_entry_launches_the_file_manager() {
    let mut w = win_window();
    let fs: Vec<FsStatus> = Vec::new();
    let action = w.update(Message::NavModelSelected(1), &win_dirs(), &fs, false);
    match action {
        UpdateAction::Launch(req) => {
            assert_eq!(req.program, "cosmic-files");
            assert_eq!(req.arg, "/srv/www");
        }
        other => panic!("expected a launch request, got {:?}", other),
    }
}

#[test]
fn selecting_the_trash_entry_launches_with_the_trash_flag() {
    let mut w = win_window();
    let fs: Vec<FsStatus> = Vec::new();
    let trash_index = w.nav_model.len() - 1;
    let action = w.update(Message::NavModelSelected(trash_index), &win_dirs(), &fs, false);
    match action {
        UpdateAction::Launch(req) => {
            assert_eq!(req.program, "cosmic-files");
            assert_eq!(req.arg, "--trash");
        }
        other => panic!("expected a launch request, got {:?}", other),
    }
}

#[test]
fn selecting_a_stale_handle_is_a_no_op() {
    let mut w = win_window();
    let fs: Vec<FsStatus> = Vec::new();
    let action = w.update(Message::NavModelSelected(99), &win_dirs(), &fs, false);
    assert_eq!(action, UpdateAction::NoOp);
}

#[test]
fn toggle_message_drives_the_popup() {
    let mut w = win_window();
    let fs: Vec<FsStatus> = Vec::new();
    let action = w.update(Message::TogglePopup, &win_dirs(), &fs, false);
    let id = match action {
        UpdateAction::Popup(PopupRequest::Create { id, .. }) => id,
        other => panic!("expected a create request, got {:?}", other),
    };
    assert_eq!(w.popup.state, PopupState::Open(id));
    let action = w.update(Window::on_close_requested(id), &win_dirs(), &fs, false);
    assert_eq!(action, UpdateAction::NoOp);
    assert_eq!(w.popup.state, PopupState::Closed);
}

#[test]
fn dispatch_arguments() {
    let trash = dispatch(&Location::Trash);
    assert_eq!(trash.program, "cosmic-files");
    assert_eq!(trash.arg, "--trash");
    let path = dispatch(&Location::Path("/mnt/disk".to_string()));
    assert_eq!(path.arg, "/mnt/disk");
}

#[test]
fn defaults_when_store_is_unavailable() {
    assert!(Config::default().show_icon);
    assert!(FilesConfig::default().favorites.is_empty());
    assert!(Window::config_or_default(None).show_icon);
    assert!(Window::files_config_or_default(None).favorites.is_empty());
    let loaded = Config { show_icon: false };
    assert_eq!(Window::config_or_default(Some(loaded)), loaded);
}

#[test]
fn notifications_adopt_best_effort_values() {
    // A notification that arrived with load errors still carries its document
    // into the dispatcher unchanged.
    let c = Config { show_icon: false };
    assert_eq!(Window::config_notification_message(c, true), Message::Config(c));
    assert_eq!(Window::config_notification_message(c, false), Message::Config(c));
    let f = FilesConfig { favorites: vec![Favorite::Home] };
    assert_eq!(
        Window::files_config_notification_message(f.clone(), true),
        Message::FilesConfig(f)
    );
}

#[test]
fn show_icon_in_panel_decision() {
    assert!(Window::show_icon_in_panel(&Config { show_icon: true }, false));
    assert!(Window::show_icon_in_panel(&Config { show_icon: false }, true));
    assert!(!Window::show_icon_in_panel(&Config { show_icon: false }, false));
}

#[test]
fn trash_state_from_answer() {
    assert!(trash_non_empty_from_answer(Some(false)));
    assert!(!trash_non_empty_from_answer(Some(true)));
    assert!(!trash_non_empty_from_answer(None));
}

#[test]
fn fs_status_from_answers() {
    assert_eq!(fs_status_from(true, true), FsStatus::Directory);
    assert_eq!(fs_status_from(true, false), FsStatus::Directory);
    assert_eq!(fs_status_from(false, true), FsStatus::File);
    assert_eq!(fs_status_from(false, false), FsStatus::Missing);
}

#[test]
fn query_statuses_answers_every_favorite() {
    let favorites = vec![
        Favorite::Home,
        Favorite::Videos,
        Favorite::Path("/definitely/not/there".to_string()),
    ];
    let dirs = places_applet::queries::query_well_known_dirs();
    let statuses = places_applet::queries::query_statuses(&favorites, &dirs);
    assert_eq!(statuses.len(), favorites.len());
    assert_eq!(statuses[2], FsStatus::Missing);
}
