//! The navigation model: an ordered list of entries derived from the favorites
//! document, each favorite resolved to a label, a semantic icon and a location,
//! with unresolvable favorites silently omitted and one trash entry always
//! appended last.

use vstd::prelude::*;
use vstd::string::StringExecFns;

use crate::config::{
    spec_canonical, spec_favorite_path, Favorite, FavoriteV, WellKnownDirs, WellKnownDirsV,
};
use crate::icons::{spec_folder_icon, spec_trash_icon, IconId};
use crate::pathname::{basename, spec_basename};

verus! {

/// What the filesystem reports for a favorite's resolved path at build time:
/// nothing there, a directory, or a non-directory file.
#[derive(Clone, Copy, Debug, PartialEq, Eq, Structural)]
pub enum FsStatus {
    Missing,
    Directory,
    File,
}

/// The location a navigation entry activates: the trash, or a concrete path.
#[derive(Clone, Debug, PartialEq, Eq)]
pub enum Location {
    Trash,
    Path(String),
}

/// Mathematical model of a [`Location`].
pub enum LocationV {
    Trash,
    Path(Seq<char>),
}

impl View for Location {
    type V = LocationV;

    open spec fn view(&self) -> LocationV {
        match self {
            Location::Trash => LocationV::Trash,
            Location::Path(p) => LocationV::Path(p@),
        }
    }
}

impl DeepView for Location {
    type V = LocationV;

    open spec fn deep_view(&self) -> LocationV {
        self.view()
    }
}

/// One renderable row of the navigation model.
#[derive(Clone, Debug, PartialEq, Eq)]
pub struct NavEntry {
    pub label: String,
    pub icon: IconId,
    pub location: Location,
}

/// Mathematical model of a [`NavEntry`].
pub struct NavEntryV {
    pub label: Seq<char>,
    pub icon: IconId,
    pub location: LocationV,
}

impl View for NavEntry {
    type V = NavEntryV;

    open spec fn view(&self) -> NavEntryV {
        NavEntryV { label: self.label@, icon: self.icon, location: self.location@ }
    }
}

impl DeepView for NavEntry {
    type V = NavEntryV;

    open spec fn deep_view(&self) -> NavEntryV {
        self.view()
    }
}

/// The fixed display label of a well-known tag.
pub open spec fn spec_tag_label(f: FavoriteV) -> Seq<char> {
    match f {
        FavoriteV::Home => "Home"@,
        FavoriteV::Documents => "Documents"@,
        FavoriteV::Downloads => "Downloads"@,
        FavoriteV::Music => "Music"@,
        FavoriteV::Pictures => "Pictures"@,
        FavoriteV::Videos => "Videos"@,
        FavoriteV::Path(p) => spec_basename(p),
    }
}

/// The entry a favorite resolves to, or `None` when it is omitted: a tag whose
/// well-known directory is unknown, a path favorite whose path is missing from
/// the filesystem, or one whose final path segment is empty. The favorite is
/// canonicalized first, so a stored path equal to a well-known directory's
/// path resolves exactly as that tag does; `st` is what the filesystem reports
/// for the resolved path and only a non-canonicalizable path favorite reads it.
pub open spec fn spec_resolve(
    f: FavoriteV,
    dirs: WellKnownDirsV,
    st: FsStatus,
) -> Option<NavEntryV> {
    let c = spec_canonical(f, dirs);
    match c {
        FavoriteV::Path(p) => {
            if st is Missing {
                None
            } else if spec_basename(p).len() == 0 {
                None
            } else {
                Some(
                    NavEntryV {
                        label: spec_basename(p),
                        icon: if st is Directory {
                            spec_folder_icon(dirs, p)
                        } else {
                            IconId::TextGeneric
                        },
                        location: LocationV::Path(p),
                    },
                )
            }
        },
        _ => match spec_favorite_path(c, dirs) {
            Some(p) => Some(
                NavEntryV {
                    label: spec_tag_label(c),
                    icon: spec_folder_icon(dirs, p),
                    location: LocationV::Path(p),
                },
            ),
            None => None,
        },
    }
}

/// The trash entry appended to every build.
pub open spec fn spec_trash_entry(trash_non_empty: bool) -> NavEntryV {
    NavEntryV {
        label: "Trash"@,
        icon: spec_trash_icon(trash_non_empty),
        location: LocationV::Trash,
    }
}

/// The favorite-derived part of the model: each favorite resolved in stored
/// order, omissions dropped.
pub open spec fn spec_entries(
    favs: Seq<FavoriteV>,
    dirs: WellKnownDirsV,
    fs: Seq<FsStatus>,
) -> Seq<NavEntryV>
    decreases favs.len(),
{
    if favs.len() == 0 {
        Seq::empty()
    } else {
        let head = match spec_resolve(favs[0], dirs, fs[0]) {
            Some(e) => seq![e],
            None => Seq::empty(),
        };
        head + spec_entries(favs.skip(1), dirs, fs.skip(1))
    }
}

/// The whole navigation model: the resolved favorites in order, then the trash
/// entry.
pub open spec fn spec_build(
    favs: Seq<FavoriteV>,
    dirs: WellKnownDirsV,
    fs: Seq<FsStatus>,
    trash_non_empty: bool,
) -> Seq<NavEntryV> {
    spec_entries(favs, dirs, fs) + seq![spec_trash_entry(trash_non_empty)]
}

/// The label of a tag favorite, as a `String`.
fn tag_label(favorite: &Favorite) -> (r: String)
    requires
        !(favorite@ is Path),
    ensures
        r@ == spec_tag_label(favorite@),
{
    match favorite {
        Favorite::Home => String::from_str("Home"),
        Favorite::Documents => String::from_str("Documents"),
        Favorite::Downloads => String::from_str("Downloads"),
        Favorite::Music => String::from_str("Music"),
        Favorite::Pictures => String::from_str("Pictures"),
        Favorite::Videos => String::from_str("Videos"),
        Favorite::Path(_) => String::new(),
    }
}

/// Resolve one favorite against the well-known directory table and the given
/// filesystem answer for its path.
pub fn resolve(favorite: &Favorite, dirs: &WellKnownDirs, st: FsStatus) -> (r: Option<NavEntry>)
    ensures
        r.deep_view() == spec_resolve(favorite@, dirs@, st),
{
    let canonical = match favorite {
        Favorite::Path(p) => Favorite::from_path(p.clone(), dirs),
        _ => favorite.clone_tag(),
    };
    match &canonical {
        Favorite::Path(p) => {
            if matches!(st, FsStatus::Missing) {
                return None;
            }
            match basename(p) {
                Some(label) => {
                    let icon = if matches!(st, FsStatus::Directory) {
                        crate::icons::folder_icon_symbolic(dirs, p)
                    } else {
                        IconId::TextGeneric
                    };
                    Some(NavEntry { label, icon, location: Location::Path(p.clone()) })
                },
                None => None,
            }
        },
        _ => {
            match canonical.path_opt(dirs) {
                Some(p) => {
                    let label = tag_label(&canonical);
                    let icon = crate::icons::folder_icon_symbolic(dirs, &p);
                    Some(NavEntry { label, icon, location: Location::Path(p) })
                },
                None => None,
            }
        },
    }
}

impl Favorite {
    /// A copy of a tag favorite.
    fn clone_tag(&self) -> (r: Favorite)
        requires
            !(self@ is Path),
        ensures
            r@ == self@,
    {
        match self {
            Favorite::Home => Favorite::Home,
            Favorite::Documents => Favorite::Documents,
            Favorite::Downloads => Favorite::Downloads,
            Favorite::Music => Favorite::Music,
            Favorite::Pictures => Favorite::Pictures,
            Favorite::Videos => Favorite::Videos,
            Favorite::Path(p) => Favorite::Path(p.clone()),
        }
    }
}

/// Splitting the favorites anywhere splits the resolved entries the same way.
pub proof fn lemma_entries_split(
    favs: Seq<FavoriteV>,
    dirs: WellKnownDirsV,
    fs: Seq<FsStatus>,
    i: int,
)
    requires
        fs.len() == favs.len(),
        0 <= i <= favs.len(),
    ensures
        spec_entries(favs, dirs, fs) == spec_entries(favs.take(i), dirs, fs.take(i))
            + spec_entries(favs.skip(i), dirs, fs.skip(i)),
    decreases i,
{
    if i == 0 {
        assert(favs.take(0) =~= Seq::<FavoriteV>::empty());
        assert(fs.take(0) =~= Seq::<FsStatus>::empty());
        assert(favs.skip(0) =~= favs);
        assert(fs.skip(0) =~= fs);
        assert(spec_entries(favs, dirs, fs) =~= spec_entries(favs.take(0), dirs, fs.take(0))
            + spec_entries(favs.skip(0), dirs, fs.skip(0)));
    } else {
        lemma_entries_split(favs.skip(1), dirs, fs.skip(1), i - 1);
        assert(favs.skip(1).take(i - 1) =~= favs.take(i).skip(1));
        assert(fs.skip(1).take(i - 1) =~= fs.take(i).skip(1));
        assert(favs.skip(1).skip(i - 1) =~= favs.skip(i));
        assert(fs.skip(1).skip(i - 1) =~= fs.skip(i));
        assert(favs.take(i)[0] == favs[0]);
        assert(fs.take(i)[0] == fs[0]);
        assert(spec_entries(favs, dirs, fs) =~= spec_entries(favs.take(i), dirs, fs.take(i))
            + spec_entries(favs.skip(i), dirs, fs.skip(i)));
    }
}

/// Extending the considered prefix by one favorite appends exactly that
/// favorite's resolution.
pub proof fn lemma_entries_snoc(
    favs: Seq<FavoriteV>,
    dirs: WellKnownDirsV,
    fs: Seq<FsStatus>,
    i: int,
)
    requires
        fs.len() == favs.len(),
        0 <= i < favs.len(),
    ensures
        spec_entries(favs.take(i + 1), dirs, fs.take(i + 1)) == spec_entries(
            favs.take(i),
            dirs,
            fs.take(i),
        ) + match spec_resolve(favs[i], dirs, fs[i]) {
            Some(e) => seq![e],
            None => Seq::<NavEntryV>::empty(),
        },
{
    lemma_entries_split(favs.take(i + 1), dirs, fs.take(i + 1), i);
    assert(favs.take(i + 1).take(i) =~= favs.take(i));
    assert(fs.take(i + 1).take(i) =~= fs.take(i));
    let tailf = favs.take(i + 1).skip(i);
    let tails = fs.take(i + 1).skip(i);
    assert(tailf =~= seq![favs[i]]);
    assert(tails =~= seq![fs[i]]);
    assert(tailf.skip(1) =~= Seq::<FavoriteV>::empty());
    assert(tails.skip(1) =~= Seq::<FsStatus>::empty());
    assert(spec_entries(tailf.skip(1), dirs, tails.skip(1)) =~= Seq::<NavEntryV>::empty());
    assert(spec_entries(tailf, dirs, tails) == match spec_resolve(tailf[0], dirs, tails[0]) {
        Some(e) => seq![e] + spec_entries(tailf.skip(1), dirs, tails.skip(1)),
        None => Seq::<NavEntryV>::empty() + spec_entries(tailf.skip(1), dirs, tails.skip(1)),
    });
    assert(spec_entries(tailf, dirs, tails) =~= match spec_resolve(favs[i], dirs, fs[i]) {
        Some(e) => seq![e],
        None => Seq::<NavEntryV>::empty(),
    });
}

/// The favorite-derived entries never outnumber the favorites, and each one
/// activates a path, never the trash.
pub proof fn lemma_entries_shape(favs: Seq<FavoriteV>, dirs: WellKnownDirsV, fs: Seq<FsStatus>)
    requires
        fs.len() == favs.len(),
    ensures
        spec_entries(favs, dirs, fs).len() <= favs.len(),
        forall|k: int|
            0 <= k < spec_entries(favs, dirs, fs).len() ==> spec_entries(
                favs,
                dirs,
                fs,
            )[k].location is Path,
    decreases favs.len(),
{
    if favs.len() > 0 {
        lemma_entries_shape(favs.skip(1), dirs, fs.skip(1));
    }
}

/// Whatever the favorites document and the external query answers, the built
/// model has at most one entry per favorite plus the trash entry, and exactly
/// one trash entry, which is last: every other entry activates a path.
pub proof fn lemma_build_shape(
    favs: Seq<FavoriteV>,
    dirs: WellKnownDirsV,
    fs: Seq<FsStatus>,
    trash_non_empty: bool,
)
    requires
        fs.len() == favs.len(),
    ensures
        spec_build(favs, dirs, fs, trash_non_empty).len() <= favs.len() + 1,
        spec_build(favs, dirs, fs, trash_non_empty).len() >= 1,
        spec_build(favs, dirs, fs, trash_non_empty).last() == spec_trash_entry(trash_non_empty),
        forall|k: int|
            0 <= k < spec_build(favs, dirs, fs, trash_non_empty).len() - 1 ==> spec_build(
                favs,
                dirs,
                fs,
                trash_non_empty,
            )[k].location is Path,
{
    lemma_entries_shape(favs, dirs, fs);
}

/// Two models built from equal favorites documents and equal external query
/// answers are structurally identical: the build is a pure function of its
/// inputs.
pub proof fn lemma_build_deterministic(
    e1: Seq<NavEntryV>,
    e2: Seq<NavEntryV>,
    favs: Seq<FavoriteV>,
    dirs: WellKnownDirsV,
    fs: Seq<FsStatus>,
    trash_non_empty: bool,
)
    requires
        e1 == spec_build(favs, dirs, fs, trash_non_empty),
        e2 == spec_build(favs, dirs, fs, trash_non_empty),
    ensures
        e1 == e2,
{
}

/// Where in the built model a resolvable favorite's entry stands: after the
/// entries of the resolvable favorites before it.
pub open spec fn spec_out_index(
    favs: Seq<FavoriteV>,
    dirs: WellKnownDirsV,
    fs: Seq<FsStatus>,
    i: int,
) -> int {
    spec_entries(favs.take(i), dirs, fs.take(i)).len() as int
}

/// A resolvable favorite's entry stands in the model at its output index.
pub proof fn lemma_entry_at(favs: Seq<FavoriteV>, dirs: WellKnownDirsV, fs: Seq<FsStatus>, i: int)
    requires
        fs.len() == favs.len(),
        0 <= i < favs.len(),
        spec_resolve(favs[i], dirs, fs[i]) is Some,
    ensures
        spec_out_index(favs, dirs, fs, i) < spec_entries(favs, dirs, fs).len(),
        spec_entries(favs, dirs, fs)[spec_out_index(favs, dirs, fs, i)] == spec_resolve(
            favs[i],
            dirs,
            fs[i],
        )->Some_0,
{
    lemma_entries_split(favs, dirs, fs, i);
    let tailf = favs.skip(i);
    let tails = fs.skip(i);
    assert(tailf[0] == favs[i]);
    assert(tails[0] == fs[i]);
    let e = spec_resolve(favs[i], dirs, fs[i])->Some_0;
    assert(spec_entries(tailf, dirs, tails) == seq![e] + spec_entries(
        tailf.skip(1),
        dirs,
        tails.skip(1),
    ));
    assert(spec_entries(tailf, dirs, tails)[0] == e);
}

/// Two distinct resolvable favorites keep their relative order: the entry of
/// the earlier one stands strictly before the entry of the later one, trash
/// entry aside.
pub proof fn lemma_order_preserved(
    favs: Seq<FavoriteV>,
    dirs: WellKnownDirsV,
    fs: Seq<FsStatus>,
    i: int,
    j: int,
)
    requires
        fs.len() == favs.len(),
        0 <= i < j < favs.len(),
        spec_resolve(favs[i], dirs, fs[i]) is Some,
        spec_resolve(favs[j], dirs, fs[j]) is Some,
    ensures
        spec_out_index(favs, dirs, fs, i) < spec_out_index(favs, dirs, fs, j),
        spec_entries(favs, dirs, fs)[spec_out_index(favs, dirs, fs, i)] == spec_resolve(
            favs[i],
            dirs,
            fs[i],
        )->Some_0,
        spec_entries(favs, dirs, fs)[spec_out_index(favs, dirs, fs, j)] == spec_resolve(
            favs[j],
            dirs,
            fs[j],
        )->Some_0,
{
    lemma_entry_at(favs, dirs, fs, i);
    lemma_entry_at(favs, dirs, fs, j);
    lemma_entries_split(favs.take(j), dirs, fs.take(j), i);
    assert(favs.take(j).take(i) =~= favs.take(i));
    assert(fs.take(j).take(i) =~= fs.take(i));
    let tailf = favs.take(j).skip(i);
    let tails = fs.take(j).skip(i);
    assert(tailf[0] == favs[i]);
    assert(tails[0] == fs[i]);
    let e = spec_resolve(favs[i], dirs, fs[i])->Some_0;
    assert(spec_entries(tailf, dirs, tails) == seq![e] + spec_entries(
        tailf.skip(1),
        dirs,
        tails.skip(1),
    ));
    assert(spec_entries(tailf, dirs, tails).len() >= 1);
}

/// A stored path that equals the Home directory's path resolves exactly as the
/// Home tag does — same label, icon and location — whatever the filesystem
/// reports for either.
pub proof fn lemma_home_path_canonicalizes(
    dirs: WellKnownDirsV,
    p: Seq<char>,
    st1: FsStatus,
    st2: FsStatus,
)
    requires
        dirs.home == Some(p),
    ensures
        spec_resolve(FavoriteV::Path(p), dirs, st1) == spec_resolve(FavoriteV::Home, dirs, st2),
{
}

/// Build the navigation model from the favorites document, the well-known
/// directory table, the filesystem's answer for each favorite's path, and the
/// trash state.
pub fn build_nav_model(
    favorites: &Vec<Favorite>,
    dirs: &WellKnownDirs,
    fs: &Vec<FsStatus>,
    trash_non_empty: bool,
) -> (r: Vec<NavEntry>)
    requires
        fs@.len() == favorites@.len(),
    ensures
        r.deep_view() == spec_build(favorites.deep_view(), dirs@, fs@, trash_non_empty),
{
    let ghost favs = favorites.deep_view();
    let mut out: Vec<NavEntry> = Vec::new();
    let n = favorites.len();
    let mut i: usize = 0;
    while i < n
        invariant
            n == favorites.len() == fs.len(),
            favs == favorites.deep_view(),
            i <= n,
            out.deep_view() == spec_entries(favs.take(i as int), dirs@, fs@.take(i as int)),
        decreases n - i,
    {
        proof {
            lemma_entries_snoc(favs, dirs@, fs@, i as int);
            assert(favs[i as int] == favorites[i as int].deep_view());
        }
        match resolve(&favorites[i], dirs, fs[i]) {
            Some(entry) => {
                out.push(entry);
                proof {
                    assert(out.deep_view() =~= spec_entries(
                        favs.take(i + 1),
                        dirs@,
                        fs@.take(i + 1),
                    ));
                }
            },
            None => {
                proof {
                    assert(out.deep_view() =~= spec_entries(
                        favs.take(i + 1),
                        dirs@,
                        fs@.take(i + 1),
                    ));
                }
            },
        }
        i = i + 1;
    }
    proof {
        assert(favs.take(n as int) =~= favs);
        assert(fs@.take(n as int) =~= fs@);
    }
    let trash_label = String::from_str("Trash");
    let trash_icon = crate::icons::trash_icon_symbolic(trash_non_empty);
    out.push(NavEntry { label: trash_label, icon: trash_icon, location: Location::Trash });
    proof {
        assert(out.deep_view() =~= spec_build(favs, dirs@, fs@, trash_non_empty));
    }
    out
}

} // verus!
