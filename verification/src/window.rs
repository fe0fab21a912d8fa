//! The applet's top-level state and its sequential message dispatcher: the two
//! configuration documents, the cached navigation model, and the popup
//! lifecycle, updated one message at a time; plus the translation of an
//! activated entry into a fire-and-forget file-manager launch request.

use vstd::prelude::*;
use vstd::string::StringExecFns;

use crate::config::{Config, FilesConfig, WellKnownDirs};
use crate::nav::{build_nav_model, spec_build, FsStatus, Location, LocationV, NavEntry};
use crate::popup::{PopupLifecycle, PopupRequest, PopupState};

verus! {

/// The applet's identifier with the configuration store.
pub const ID: &'static str = "dev.dominiccgeh.CosmicAppletPlacesStatusIndicator";

/// The name the file-manager process is launched under.
pub const FILES_ID: &'static str = "com.system76.CosmicFiles";

/// One discrete event handled by the sequential dispatcher.
#[derive(Clone, Debug, PartialEq, Eq)]
pub enum Message {
    /// The user pressed the panel button.
    TogglePopup,
    /// The rendering layer tore a popup surface down on its own.
    PopupClosed(u64),
    /// A favorites document change notification arrived.
    FilesConfig(FilesConfig),
    /// A display preference change notification arrived.
    Config(Config),
    /// The user activated the navigation entry at this position.
    NavModelSelected(usize),
}

/// A fire-and-forget request to launch the file manager with one argument.
#[derive(Clone, Debug, PartialEq, Eq)]
pub struct LaunchRequest {
    pub program: String,
    pub arg: String,
}

/// What the dispatcher asks its collaborators to do after one message.
#[derive(Clone, Debug, PartialEq, Eq)]
pub enum UpdateAction {
    /// Nothing outward.
    NoOp,
    /// Create or destroy a popup surface.
    Popup(PopupRequest),
    /// Spawn the file manager, never awaited.
    Launch(LaunchRequest),
}

/// The argument the file manager is launched with: a fixed flag for the trash,
/// the path itself otherwise.
pub open spec fn spec_launch_arg(loc: LocationV) -> Seq<char> {
    match loc {
        LocationV::Trash => "--trash"@,
        LocationV::Path(p) => p,
    }
}

/// Translate an activated entry's location into the launch request the
/// file-manager collaborator is handed.
pub fn dispatch(location: &Location) -> (r: LaunchRequest)
    ensures
        r.program@ == "cosmic-files"@,
        r.arg@ == spec_launch_arg(location@),
{
    let arg = match location {
        Location::Trash => String::from_str("--trash"),
        Location::Path(p) => p.clone(),
    };
    LaunchRequest { program: String::from_str("cosmic-files"), arg }
}

/// The applet's whole state.
pub struct Window {
    pub config: Config,
    pub files_config: FilesConfig,
    pub nav_model: Vec<NavEntry>,
    pub popup: PopupLifecycle,
}

impl Window {
    /// The collapsed panel view shows an icon when the preference asks for one
    /// or the panel is vertical (where a text label does not fit).
    pub fn show_icon_in_panel(config: &Config, vertical_panel: bool) -> (r: bool)
        ensures
            r == (config.show_icon || vertical_panel),
    {
        config.show_icon || vertical_panel
    }

    /// Initial state: the documents loaded at startup (or their defaults), the
    /// navigation model built from them, and no popup.
    pub fn init(
        config: Config,
        files_config: FilesConfig,
        dirs: &WellKnownDirs,
        fs: &Vec<FsStatus>,
        trash_non_empty: bool,
    ) -> (r: Window)
        requires
            fs@.len() == files_config@.len(),
        ensures
            r.config == config,
            r.files_config@ == files_config@,
            r.nav_model.deep_view() == spec_build(files_config@, dirs@, fs@, trash_non_empty),
            r.popup.wf(),
            r.popup.state == PopupState::Closed,
            r.popup.issued@ == Set::<u64>::empty(),
    {
        let nav_model = build_nav_model(&files_config.favorites, dirs, fs, trash_non_empty);
        Window { config, files_config, nav_model, popup: PopupLifecycle::new() }
    }

    /// The message the dispatcher is handed when the rendering layer reports a
    /// surface closed.
    pub fn on_close_requested(id: u64) -> (m: Message)
        ensures
            m matches Message::PopupClosed(i) && i == id,
    {
        Message::PopupClosed(id)
    }

    /// The display preference loaded at startup: the store's best-effort value
    /// even when some keys failed to load, the default only when the store is
    /// unavailable altogether. Startup never fails on a configuration error.
    pub fn config_or_default(loaded: Option<Config>) -> (r: Config)
        ensures
            match loaded {
                Some(c) => r == c,
                None => r.show_icon,
            },
    {
        match loaded {
            Some(c) => c,
            None => Config::default(),
        }
    }

    /// The favorites document loaded at startup, under the same policy as
    /// [`Window::config_or_default`]: the store's best-effort value, or no
    /// favorites when the store is unavailable.
    pub fn files_config_or_default(loaded: Option<FilesConfig>) -> (r: FilesConfig)
        ensures
            match loaded {
                Some(c) => r == c,
                None => r@ =~= Seq::<crate::config::FavoriteV>::empty(),
            },
    {
        match loaded {
            Some(c) => c,
            None => FilesConfig::default(),
        }
    }

    /// The message a display preference change notification becomes. The
    /// best-effort document is adopted whether or not some keys failed to
    /// load; the failure itself is the log's business, never a reason to keep
    /// the old value.
    pub fn config_notification_message(config: Config, had_errors: bool) -> (m: Message)
        ensures
            m == Message::Config(config),
    {
        let _ = had_errors;
        Message::Config(config)
    }

    /// The message a favorites change notification becomes, under the same
    /// policy as [`Window::config_notification_message`].
    pub fn files_config_notification_message(config: FilesConfig, had_errors: bool) -> (m: Message)
        ensures
            m matches Message::FilesConfig(c) && c@ == config@,
    {
        let _ = had_errors;
        Message::FilesConfig(config)
    }

    /// Rebuild the cached navigation model from the stored favorites document
    /// and the given external query answers; nothing else changes.
    pub fn update_nav_model(
        &mut self,
        dirs: &WellKnownDirs,
        fs: &Vec<FsStatus>,
        trash_non_empty: bool,
    )
        requires
            fs@.len() == old(self).files_config@.len(),
        ensures
            final(self).nav_model.deep_view() == spec_build(
                old(self).files_config@,
                dirs@,
                fs@,
                trash_non_empty,
            ),
            final(self).config == old(self).config,
            final(self).files_config == old(self).files_config,
            final(self).popup == old(self).popup,
    {
        self.nav_model = build_nav_model(&self.files_config.favorites, dirs, fs, trash_non_empty);
    }

    /// Handle one message. `dirs`, `fs` and `trash_non_empty` are the external
    /// query answers current at this dispatch; only a favorites change reads
    /// them, and `fs` must then answer for the incoming document's favorites.
    ///
    /// A display preference change alone never rebuilds the cached navigation
    /// model, and a favorites notification carrying an unchanged document
    /// changes nothing at all.
    pub fn update(
        &mut self,
        message: Message,
        dirs: &WellKnownDirs,
        fs: &Vec<FsStatus>,
        trash_non_empty: bool,
    ) -> (r: UpdateAction)
        requires
            old(self).popup.wf(),
            message is TogglePopup && old(self).popup.state is Closed ==> old(
                self,
            ).popup.next_id < u64::MAX,
            message matches Message::FilesConfig(c) ==> fs@.len() == c@.len(),
        ensures
            final(self).popup.wf(),
            match message {
                Message::TogglePopup => {
                    &&& final(self).config == old(self).config
                    &&& final(self).files_config == old(self).files_config
                    &&& final(self).nav_model == old(self).nav_model
                    &&& r matches UpdateAction::Popup(req) && PopupLifecycle::toggle_rel(
                        old(self).popup,
                        final(self).popup,
                        req,
                    )
                },
                Message::PopupClosed(id) => {
                    &&& final(self).config == old(self).config
                    &&& final(self).files_config == old(self).files_config
                    &&& final(self).nav_model == old(self).nav_model
                    &&& PopupLifecycle::external_close_rel(old(self).popup, final(self).popup, id)
                    &&& r is NoOp
                },
                Message::Config(c) => {
                    &&& final(self).config == c
                    &&& final(self).files_config == old(self).files_config
                    &&& final(self).nav_model == old(self).nav_model
                    &&& final(self).popup == old(self).popup
                    &&& r is NoOp
                },
                Message::FilesConfig(c) => {
                    &&& final(self).config == old(self).config
                    &&& final(self).popup == old(self).popup
                    &&& (c@ == old(self).files_config@ ==> {
                        &&& final(self).files_config == old(self).files_config
                        &&& final(self).nav_model == old(self).nav_model
                    })
                    &&& (c@ != old(self).files_config@ ==> {
                        &&& final(self).files_config@ == c@
                        &&& final(self).nav_model.deep_view() == spec_build(
                            c@,
                            dirs@,
                            fs@,
                            trash_non_empty,
                        )
                    })
                    &&& r is NoOp
                },
                Message::NavModelSelected(i) => {
                    &&& final(self).config == old(self).config
                    &&& final(self).files_config == old(self).files_config
                    &&& final(self).nav_model == old(self).nav_model
                    &&& final(self).popup == old(self).popup
                    &&& (i < old(self).nav_model.len() ==> {
                        &&& r matches UpdateAction::Launch(req)
                        &&& req.program@ == "cosmic-files"@
                        &&& req.arg@ == spec_launch_arg(old(self).nav_model[i as int]@.location)
                    })
                    &&& (i >= old(self).nav_model.len() ==> r is NoOp)
                },
            },
    {
        match message {
            Message::TogglePopup => {
                let req = self.popup.toggle();
                UpdateAction::Popup(req)
            },
            Message::PopupClosed(id) => {
                self.popup.external_close(id);
                UpdateAction::NoOp
            },
            Message::Config(c) => {
                if c != self.config {
                    self.config = c;
                }
                UpdateAction::NoOp
            },
            Message::FilesConfig(c) => {
                if !c.matches(&self.files_config) {
                    self.files_config = c;
                    self.update_nav_model(dirs, fs, trash_non_empty);
                }
                UpdateAction::NoOp
            },
            Message::NavModelSelected(i) => {
                if i < self.nav_model.len() {
                    UpdateAction::Launch(dispatch(&self.nav_model[i].location))
                } else {
                    UpdateAction::NoOp
                }
            },
        }
    }
}

} // verus!
