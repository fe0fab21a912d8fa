//! Semantic icon identifiers and the well-known-directory icon table: each
//! well-known path maps to a fixed identifier, with generic fallbacks for
//! ordinary folders and files and the two trash states.

use vstd::prelude::*;
use vstd::string::StringExecFns;

use crate::config::{WellKnownDirs, WellKnownDirsV};

verus! {

/// A semantic icon identifier; [`IconId::icon_name`] gives the symbolic icon
/// name the rendering layer loads by name.
#[derive(Clone, Copy, Debug, PartialEq, Eq, Structural)]
pub enum IconId {
    FolderDocuments,
    FolderDownload,
    FolderMusic,
    FolderPictures,
    FolderPublicShare,
    FolderTemplates,
    FolderVideos,
    UserDesktop,
    UserHome,
    Folder,
    TextGeneric,
    TrashFull,
    TrashEmpty,
}

/// The symbolic icon name of each identifier.
pub open spec fn spec_icon_name(icon: IconId) -> Seq<char> {
    match icon {
        IconId::FolderDocuments => "folder-documents-symbolic"@,
        IconId::FolderDownload => "folder-download-symbolic"@,
        IconId::FolderMusic => "folder-music-symbolic"@,
        IconId::FolderPictures => "folder-pictures-symbolic"@,
        IconId::FolderPublicShare => "folder-publicshare-symbolic"@,
        IconId::FolderTemplates => "folder-templates-symbolic"@,
        IconId::FolderVideos => "folder-videos-symbolic"@,
        IconId::UserDesktop => "user-desktop-symbolic"@,
        IconId::UserHome => "user-home-symbolic"@,
        IconId::Folder => "folder-symbolic"@,
        IconId::TextGeneric => "text-x-generic-symbolic"@,
        IconId::TrashFull => "user-trash-full-symbolic"@,
        IconId::TrashEmpty => "user-trash-symbolic"@,
    }
}

impl IconId {
    /// The symbolic icon name, as handed to the rendering layer.
    pub fn icon_name(&self) -> (r: String)
        ensures
            r@ == spec_icon_name(*self),
    {
        match self {
            IconId::FolderDocuments => String::from_str("folder-documents-symbolic"),
            IconId::FolderDownload => String::from_str("folder-download-symbolic"),
            IconId::FolderMusic => String::from_str("folder-music-symbolic"),
            IconId::FolderPictures => String::from_str("folder-pictures-symbolic"),
            IconId::FolderPublicShare => String::from_str("folder-publicshare-symbolic"),
            IconId::FolderTemplates => String::from_str("folder-templates-symbolic"),
            IconId::FolderVideos => String::from_str("folder-videos-symbolic"),
            IconId::UserDesktop => String::from_str("user-desktop-symbolic"),
            IconId::UserHome => String::from_str("user-home-symbolic"),
            IconId::Folder => String::from_str("folder-symbolic"),
            IconId::TextGeneric => String::from_str("text-x-generic-symbolic"),
            IconId::TrashFull => String::from_str("user-trash-full-symbolic"),
            IconId::TrashEmpty => String::from_str("user-trash-symbolic"),
        }
    }
}

/// The icon table's answer for a path: the identifier of the well-known
/// directory whose path it equals, if any. When several well-known directories
/// share one path, the identifier of the one listed first here wins.
pub open spec fn spec_dir_icon(dirs: WellKnownDirsV, p: Seq<char>) -> Option<IconId> {
    if dirs.home == Some(p) {
        Some(IconId::UserHome)
    } else if dirs.desktop == Some(p) {
        Some(IconId::UserDesktop)
    } else if dirs.videos == Some(p) {
        Some(IconId::FolderVideos)
    } else if dirs.templates == Some(p) {
        Some(IconId::FolderTemplates)
    } else if dirs.public_share == Some(p) {
        Some(IconId::FolderPublicShare)
    } else if dirs.pictures == Some(p) {
        Some(IconId::FolderPictures)
    } else if dirs.music == Some(p) {
        Some(IconId::FolderMusic)
    } else if dirs.downloads == Some(p) {
        Some(IconId::FolderDownload)
    } else if dirs.documents == Some(p) {
        Some(IconId::FolderDocuments)
    } else {
        None
    }
}

/// The icon for a directory: its well-known identifier, or the generic folder.
pub open spec fn spec_folder_icon(dirs: WellKnownDirsV, p: Seq<char>) -> IconId {
    match spec_dir_icon(dirs, p) {
        Some(icon) => icon,
        None => IconId::Folder,
    }
}

/// The icon used for a directory at the given path: the semantic identifier of
/// the well-known directory it equals, falling back to the generic folder.
pub fn folder_icon_symbolic(dirs: &WellKnownDirs, path: &String) -> (r: IconId)
    ensures
        r == spec_folder_icon(dirs@, path@),
{
    if let Some(d) = &dirs.home {
        if *d == *path {
            return IconId::UserHome;
        }
    }
    if let Some(d) = &dirs.desktop {
        if *d == *path {
            return IconId::UserDesktop;
        }
    }
    if let Some(d) = &dirs.videos {
        if *d == *path {
            return IconId::FolderVideos;
        }
    }
    if let Some(d) = &dirs.templates {
        if *d == *path {
            return IconId::FolderTemplates;
        }
    }
    if let Some(d) = &dirs.public_share {
        if *d == *path {
            return IconId::FolderPublicShare;
        }
    }
    if let Some(d) = &dirs.pictures {
        if *d == *path {
            return IconId::FolderPictures;
        }
    }
    if let Some(d) = &dirs.music {
        if *d == *path {
            return IconId::FolderMusic;
        }
    }
    if let Some(d) = &dirs.downloads {
        if *d == *path {
            return IconId::FolderDownload;
        }
    }
    if let Some(d) = &dirs.documents {
        if *d == *path {
            return IconId::FolderDocuments;
        }
    }
    IconId::Folder
}

/// The trash icon for the given trash state: full or empty.
pub open spec fn spec_trash_icon(trash_non_empty: bool) -> IconId {
    if trash_non_empty {
        IconId::TrashFull
    } else {
        IconId::TrashEmpty
    }
}

/// The icon used for the trash entry, by whether the trash holds anything.
pub fn trash_icon_symbolic(trash_non_empty: bool) -> (r: IconId)
    ensures
        r == spec_trash_icon(trash_non_empty),
{
    if trash_non_empty {
        IconId::TrashFull
    } else {
        IconId::TrashEmpty
    }
}

} // verus!
