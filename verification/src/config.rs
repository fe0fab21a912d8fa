//! Configuration documents the applet consumes: its own display preference and
//! the file manager's ordered favorites list, together with the table of
//! well-known directory paths that favorite resolution consults.

use vstd::prelude::*;

verus! {

/// Applet-level display preference, replaced wholesale on each change
/// notification from the configuration store.
#[derive(Clone, Copy, Debug, PartialEq, Eq, Structural)]
pub struct Config {
    /// Prefer an icon over a text label in the collapsed panel view.
    pub show_icon: bool,
}

impl Default for Config {
    /// The value used when the configuration store is unavailable.
    fn default() -> (r: Config)
        ensures
            r.show_icon,
    {
        Config { show_icon: true }
    }
}

/// One stored favorite: either a tag naming a well-known location or an
/// arbitrary filesystem path.
#[derive(Clone, Debug, PartialEq, Eq)]
pub enum Favorite {
    Home,
    Documents,
    Downloads,
    Music,
    Pictures,
    Videos,
    Path(String),
}

/// Mathematical model of a [`Favorite`]: the path payload as a character
/// sequence.
pub enum FavoriteV {
    Home,
    Documents,
    Downloads,
    Music,
    Pictures,
    Videos,
    Path(Seq<char>),
}

impl View for Favorite {
    type V = FavoriteV;

    open spec fn view(&self) -> FavoriteV {
        match self {
            Favorite::Home => FavoriteV::Home,
            Favorite::Documents => FavoriteV::Documents,
            Favorite::Downloads => FavoriteV::Downloads,
            Favorite::Music => FavoriteV::Music,
            Favorite::Pictures => FavoriteV::Pictures,
            Favorite::Videos => FavoriteV::Videos,
            Favorite::Path(p) => FavoriteV::Path(p@),
        }
    }
}

impl DeepView for Favorite {
    type V = FavoriteV;

    open spec fn deep_view(&self) -> FavoriteV {
        self.view()
    }
}

/// The file manager's favorites document: an ordered list, duplicates kept.
#[derive(Clone, Debug, PartialEq, Eq)]
pub struct FilesConfig {
    pub favorites: Vec<Favorite>,
}

impl View for FilesConfig {
    type V = Seq<FavoriteV>;

    open spec fn view(&self) -> Seq<FavoriteV> {
        self.favorites.deep_view()
    }
}

impl Default for FilesConfig {
    /// The value used when the favorites document is unavailable: no favorites.
    fn default() -> (r: FilesConfig)
        ensures
            r@ =~= Seq::<FavoriteV>::empty(),
    {
        FilesConfig { favorites: Vec::new() }
    }
}

/// Result of querying the platform for each well-known directory once at
/// startup; a `None` field means the platform reported no such directory.
/// Immutable after construction and passed by reference to everything that
/// resolves favorites or icons.
#[derive(Clone, Debug)]
pub struct WellKnownDirs {
    pub home: Option<String>,
    pub documents: Option<String>,
    pub downloads: Option<String>,
    pub music: Option<String>,
    pub pictures: Option<String>,
    pub videos: Option<String>,
    pub desktop: Option<String>,
    pub public_share: Option<String>,
    pub templates: Option<String>,
}

/// Mathematical model of [`WellKnownDirs`].
pub struct WellKnownDirsV {
    pub home: Option<Seq<char>>,
    pub documents: Option<Seq<char>>,
    pub downloads: Option<Seq<char>>,
    pub music: Option<Seq<char>>,
    pub pictures: Option<Seq<char>>,
    pub videos: Option<Seq<char>>,
    pub desktop: Option<Seq<char>>,
    pub public_share: Option<Seq<char>>,
    pub templates: Option<Seq<char>>,
}

impl View for WellKnownDirs {
    type V = WellKnownDirsV;

    open spec fn view(&self) -> WellKnownDirsV {
        WellKnownDirsV {
            home: self.home.deep_view(),
            documents: self.documents.deep_view(),
            downloads: self.downloads.deep_view(),
            music: self.music.deep_view(),
            pictures: self.pictures.deep_view(),
            videos: self.videos.deep_view(),
            desktop: self.desktop.deep_view(),
            public_share: self.public_share.deep_view(),
            templates: self.templates.deep_view(),
        }
    }
}

/// The path a favorite stands for: a tag's well-known directory, or the stored
/// path itself.
pub open spec fn spec_favorite_path(f: FavoriteV, dirs: WellKnownDirsV) -> Option<Seq<char>> {
    match f {
        FavoriteV::Home => dirs.home,
        FavoriteV::Documents => dirs.documents,
        FavoriteV::Downloads => dirs.downloads,
        FavoriteV::Music => dirs.music,
        FavoriteV::Pictures => dirs.pictures,
        FavoriteV::Videos => dirs.videos,
        FavoriteV::Path(p) => Some(p),
    }
}

/// Canonical form of a favorite: a stored path that equals a well-known
/// directory's path is replaced by that directory's tag, so that both spell
/// the same entry. Tags are checked in a fixed order and the first match wins;
/// a favorite that is already a tag is unchanged.
pub open spec fn spec_canonical(f: FavoriteV, dirs: WellKnownDirsV) -> FavoriteV {
    match f {
        FavoriteV::Path(p) => {
            if dirs.home == Some(p) {
                FavoriteV::Home
            } else if dirs.documents == Some(p) {
                FavoriteV::Documents
            } else if dirs.downloads == Some(p) {
                FavoriteV::Downloads
            } else if dirs.music == Some(p) {
                FavoriteV::Music
            } else if dirs.pictures == Some(p) {
                FavoriteV::Pictures
            } else if dirs.videos == Some(p) {
                FavoriteV::Videos
            } else {
                FavoriteV::Path(p)
            }
        },
        _ => f,
    }
}

impl Favorite {
    /// Turn a stored path into a favorite, canonicalizing it to a well-known
    /// tag when it equals that tag's directory.
    pub fn from_path(path: String, dirs: &WellKnownDirs) -> (r: Favorite)
        ensures
            r@ == spec_canonical(FavoriteV::Path(path@), dirs@),
    {
        if let Some(d) = &dirs.home {
            if *d == path {
                return Favorite::Home;
            }
        }
        if let Some(d) = &dirs.documents {
            if *d == path {
                return Favorite::Documents;
            }
        }
        if let Some(d) = &dirs.downloads {
            if *d == path {
                return Favorite::Downloads;
            }
        }
        if let Some(d) = &dirs.music {
            if *d == path {
                return Favorite::Music;
            }
        }
        if let Some(d) = &dirs.pictures {
            if *d == path {
                return Favorite::Pictures;
            }
        }
        if let Some(d) = &dirs.videos {
            if *d == path {
                return Favorite::Videos;
            }
        }
        Favorite::Path(path)
    }

    /// The concrete path this favorite stands for, if the well-known directory
    /// table has one for its tag.
    pub fn path_opt(&self, dirs: &WellKnownDirs) -> (r: Option<String>)
        ensures
            r.deep_view() == spec_favorite_path(self@, dirs@),
    {
        match self {
            Favorite::Home => dirs.home.clone(),
            Favorite::Documents => dirs.documents.clone(),
            Favorite::Downloads => dirs.downloads.clone(),
            Favorite::Music => dirs.music.clone(),
            Favorite::Pictures => dirs.pictures.clone(),
            Favorite::Videos => dirs.videos.clone(),
            Favorite::Path(p) => Some(p.clone()),
        }
    }

    /// Structural equality of two favorites, comparing stored paths by
    /// contents.
    pub fn matches(&self, other: &Favorite) -> (r: bool)
        ensures
            r == (self@ == other@),
    {
        match (self, other) {
            (Favorite::Home, Favorite::Home) => true,
            (Favorite::Documents, Favorite::Documents) => true,
            (Favorite::Downloads, Favorite::Downloads) => true,
            (Favorite::Music, Favorite::Music) => true,
            (Favorite::Pictures, Favorite::Pictures) => true,
            (Favorite::Videos, Favorite::Videos) => true,
            (Favorite::Path(a), Favorite::Path(b)) => *a == *b,
            _ => false,
        }
    }
}

impl FilesConfig {
    /// Structural equality of two favorites documents.
    pub fn matches(&self, other: &FilesConfig) -> (r: bool)
        ensures
            r == (self@ == other@),
    {
        if self.favorites.len() != other.favorites.len() {
            proof {
                assert(self@.len() != other@.len());
            }
            return false;
        }
        let n = self.favorites.len();
        let mut i: usize = 0;
        while i < n
            invariant
                n == self.favorites.len() == other.favorites.len(),
                i <= n,
                forall|k: int| 0 <= k < i ==> self@[k] == other@[k],
            decreases n - i,
        {
            if !self.favorites[i].matches(&other.favorites[i]) {
                proof {
                    assert(self@[i as int] != other@[i as int]);
                }
                return false;
            }
            i = i + 1;
        }
        proof {
            assert(self@ =~= other@);
        }
        true
    }
}

} // verus!
