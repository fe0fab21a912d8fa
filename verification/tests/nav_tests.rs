use places_applet::config::{Favorite, FilesConfig, WellKnownDirs};
use places_applet::icons::{folder_icon_symbolic, trash_icon_symbolic, IconId};
use places_applet::nav::{build_nav_model, resolve, FsStatus, Location};
use places_applet::pathname::basename;

fn sample_dirs() -> WellKnownDirs {
    WellKnownDirs {
        home: Some("/home/alice".to_string()),
        documents: Some("/home/alice/Documents".to_string()),
        downloads: Some("/home/alice/Downloads".to_string()),
        music: Some("/home/alice/Music".to_string()),
        pictures: Some("/home/alice/Pictures".to_string()),
        videos: None,
        desktop: Some("/home/alice/Desktop".to_string()),
        public_share: Some("/home/alice/Public".to_string()),
        templates: Some("/home/alice/Templates".to_string()),
    }
}

#[test]
fn build_len_and_trash_always_last() {
    let dirs = sample_dirs();
    let favorites = vec![
        Favorite::Home,
        Favorite::Path("/srv/data".to_string()),
        Favorite::Videos,
        Favorite::Path("/".to_string()),
    ];
    let fs = vec![FsStatus::Directory, FsStatus::Directory, FsStatus::Missing, FsStatus::Directory];
    let model = build_nav_model(&favorites, &dirs, &fs, false);
    assert!(model.len() <= favorites.len() + 1);
    let trash_count = model.iter().filter(|e| matches!(e.location, Location::Trash)).count();
    assert_eq!(trash_count, 1);
    assert!(matches!(model.last().unwrap().location, Location::Trash));
    assert_eq!(model.last().unwrap().label, "Trash");
}

#[test]
fn build_twice_same_inputs_same_output() {
    let dirs = sample_dirs();
    let favorites = vec![
        Favorite::Home,
        Favorite::Documents,
        Favorite::Path("/srv/music/jazz".to_string()),
    ];
    let fs = vec![FsStatus::Directory, FsStatus::Directory, FsStatus::File];
    let a = build_nav_model(&favorites, &dirs, &fs, true);
    let b = build_nav_model(&favorites, &dirs, &fs, true);
    assert_eq!(a, b);
}

#[test]
fn build_preserves_favorite_order() {
    let dirs = sample_dirs();
    let favorites = vec![
        Favorite::Path("/a/first".to_string()),
        Favorite::Videos, // unresolvable: no videos directory
        Favorite::Path("/b/second".to_string()),
        Favorite::Home,
    ];
    let fs = vec![FsStatus::Directory, FsStatus::Missing, FsStatus::File, FsStatus::Directory];
    let model = build_nav_model(&favorites, &dirs, &fs, false);
    let labels: Vec<&str> = model.iter().map(|e| e.label.as_str()).collect();
    assert_eq!(labels, vec!["first", "second", "Home", "Trash"]);
}

#[test]
fn home_path_and_home_tag_resolve_alike() {
    let dirs = sample_dirs();
    let by_tag = resolve(&Favorite::Home, &dirs, FsStatus::Directory).unwrap();
    let by_path =
        resolve(&Favorite::Path("/home/alice".to_string()), &dirs, FsStatus::Directory).unwrap();
    assert_eq!(by_tag.label, by_path.label);
    assert_eq!(by_tag.label, "Home");
    assert_eq!(by_tag.icon, by_path.icon);
    assert_eq!(by_tag.icon, IconId::UserHome);
    // Even a stale filesystem answer for the stored path changes nothing: the
    // favorite canonicalizes to the tag before the answer is read.
    let by_path_stale =
        resolve(&Favorite::Path("/home/alice".to_string()), &dirs, FsStatus::Missing).unwrap();
    assert_eq!(by_tag.label, by_path_stale.label);
    assert_eq!(by_tag.icon, by_path_stale.icon);
}

#[test]
fn missing_path_favorite_is_omitted() {
    let dirs = sample_dirs();
    let favorites = vec![Favorite::Home, Favorite::Path("/nonexistent".to_string())];
    let fs = vec![FsStatus::Directory, FsStatus::Missing];
    let model = build_nav_model(&favorites, &dirs, &fs, false);
    assert_eq!(model.len(), 2);
    assert_eq!(model[0].label, "Home");
    assert_eq!(model[0].location, Location::Path("/home/alice".to_string()));
    assert_eq!(model[1].label, "Trash");
    assert_eq!(model[1].location, Location::Trash);
}

#[test]
fn unresolvable_tag_is_omitted() {
    let dirs = sample_dirs();
    let favorites = vec![Favorite::Videos, Favorite::Music];
    let fs = vec![FsStatus::Missing, FsStatus::Directory];
    let model = build_nav_model(&favorites, &dirs, &fs, false);
    assert_eq!(model.len(), 2);
    assert_eq!(model[0].label, "Music");
    assert_eq!(model[1].label, "Trash");
}

#[test]
fn trash_icon_follows_trash_state() {
    let dirs = sample_dirs();
    let favorites: Vec<Favorite> = Vec::new();
    let fs: Vec<FsStatus> = Vec::new();
    let full = build_nav_model(&favorites, &dirs, &fs, true);
    assert_eq!(full[0].icon, IconId::TrashFull);
    let empty = build_nav_model(&favorites, &dirs, &fs, false);
    assert_eq!(empty[0].icon, IconId::TrashEmpty);
    assert_eq!(trash_icon_symbolic(true), IconId::TrashFull);
    assert_eq!(trash_icon_symbolic(false), IconId::TrashEmpty);
}

#[test]
fn file_favorite_gets_generic_file_icon() {
    let dirs = sample_dirs();
    let entry =
        resolve(&Favorite::Path("/srv/notes.txt".to_string()), &dirs, FsStatus::File).unwrap();
    assert_eq!(entry.label, "notes.txt");
    assert_eq!(entry.icon, IconId::TextGeneric);
}

#[test]
fn directory_favorite_gets_folder_or_semantic_icon() {
    let dirs = sample_dirs();
    let plain =
        resolve(&Favorite::Path("/srv/data".to_string()), &dirs, FsStatus::Directory).unwrap();
    assert_eq!(plain.icon, IconId::Folder);
    let semantic = resolve(&Favorite::Documents, &dirs, FsStatus::Directory).unwrap();
    assert_eq!(semantic.icon, IconId::FolderDocuments);
    assert_eq!(semantic.label, "Documents");
}

#[test]
fn folder_icon_table_lookup() {
    let dirs = sample_dirs();
    assert_eq!(folder_icon_symbolic(&dirs, &"/home/alice".to_string()), IconId::UserHome);
    assert_eq!(folder_icon_symbolic(&dirs, &"/home/alice/Desktop".to_string()), IconId::UserDesktop);
    assert_eq!(
        folder_icon_symbolic(&dirs, &"/home/alice/Downloads".to_string()),
        IconId::FolderDownload
    );
    assert_eq!(folder_icon_symbolic(&dirs, &"/elsewhere".to_string()), IconId::Folder);
}

#[test]
fn icon_names_are_symbolic() {
    assert_eq!(IconId::UserHome.icon_name(), "user-home-symbolic");
    assert_eq!(IconId::Folder.icon_name(), "folder-symbolic");
    assert_eq!(IconId::TextGeneric.icon_name(), "text-x-generic-symbolic");
    assert_eq!(IconId::TrashFull.icon_name(), "user-trash-full-symbolic");
    assert_eq!(IconId::TrashEmpty.icon_name(), "user-trash-symbolic");
    assert_eq!(IconId::FolderDocuments.icon_name(), "folder-documents-symbolic");
}

#[test]
fn basename_cases() {
    assert_eq!(basename(&"/home/alice".to_string()), Some("alice".to_string()));
    assert_eq!(basename(&"plain".to_string()), Some("plain".to_string()));
    assert_eq!(basename(&"/".to_string()), None);
    assert_eq!(basename(&"/ends/with/".to_string()), None);
    assert_eq!(basename(&"".to_string()), None);
    assert_eq!(basename(&"/a/b/c.txt".to_string()), Some("c.txt".to_string()));
}

#[test]
fn root_path_favorite_is_omitted() {
    let dirs = sample_dirs();
    assert!(resolve(&Favorite::Path("/".to_string()), &dirs, FsStatus::Directory).is_none());
}

#[test]
fn duplicates_are_kept() {
    let dirs = sample_dirs();
    let favorites = vec![Favorite::Home, Favorite::Home];
    let fs = vec![FsStatus::Directory, FsStatus::Directory];
    let model = build_nav_model(&favorites, &dirs, &fs, false);
    assert_eq!(model.len(), 3);
    assert_eq!(model[0].label, "Home");
    assert_eq!(model[1].label, "Home");
}

#[test]
fn from_path_canonicalizes_to_tag() {
    let dirs = sample_dirs();
    assert_eq!(Favorite::from_path("/home/alice".to_string(), &dirs), Favorite::Home);
    assert_eq!(Favorite::from_path("/home/alice/Documents".to_string(), &dirs), Favorite::Documents);
    assert_eq!(
        Favorite::from_path("/somewhere/else".to_string(), &dirs),
        Favorite::Path("/somewhere/else".to_string())
    );
}

#[test]
fn path_opt_follows_table() {
    let dirs = sample_dirs();
    assert_eq!(Favorite::Home.path_opt(&dirs), Some("/home/alice".to_string()));
    assert_eq!(Favorite::Videos.path_opt(&dirs), None);
    assert_eq!(
        Favorite::Path("/x/y".to_string()).path_opt(&dirs),
        Some("/x/y".to_string())
    );
}

#[test]
fn files_config_matches_compares_contents() {
    let a = FilesConfig { favorites: vec![Favorite::Home, Favorite::Path("/a".to_string())] };
    let b = FilesConfig { favorites: vec![Favorite::Home, Favorite::Path("/a".to_string())] };
    let c = FilesConfig { favorites: vec![Favorite::Home, Favorite::Path("/b".to_string())] };
    let d = FilesConfig { favorites: vec![Favorite::Home] };
    assert!(a.matches(&b));
    assert!(!a.matches(&c));
    assert!(!a.matches(&d));
}
