//! Configuration model: what is persisted, the values of a fresh install, the
//! settings page's switches and folders, and the checks that guard account
//! identifiers, window positions, links and reports.
use vstd::prelude::*;

pub mod model;
pub mod geometry;
pub mod languages;
pub mod package;
pub mod profiles;
pub mod store;
pub mod system;

pub use model::{About, Account, AppConfig, DEFAULT_ICON, Folders, SystemDiagnostics, ThemeMode, Toggles, WindowGeometry, get_about, get_folders, get_toggles, set_toggle};
pub use geometry::{Rect, geometry_on_screen, overlap};
pub use languages::normalize_languages;
pub use package::package_suffix_from;
pub use profiles::{confined_profile_path, sanitize_accounts, valid_account_id};

verus! {
}
