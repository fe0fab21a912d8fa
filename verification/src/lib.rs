//! Core logic of a "places" panel applet: a navigation model over the user's
//! favorite locations and the trash, kept in sync with externally changing
//! configuration, plus the lifecycle of the single popup surface and the
//! translation of an activated entry into a file-manager launch request.

pub mod config;
pub mod icons;
pub mod nav;
pub mod pathname;
pub mod popup;
pub mod queries;
pub mod window;

#[allow(unused_imports)]
use vstd::prelude::*;

verus! {

/// Schema version of the applet's own configuration document.
pub const CONFIG_VERSION: u64 = 1;

/// Schema version of the file manager's favorites document.
pub const FILES_CONFIG_VERSION: u64 = 1;

} // verus!
