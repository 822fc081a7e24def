//! The persisted configuration and the plain records the settings page reads.
use vstd::prelude::*;
use crate::text::{push_str, str_eq};

verus! {

/// Light, dark, or whatever the desktop says.
#[derive(Clone, Copy, PartialEq, Eq, Structural, Debug)]
pub enum ThemeMode {
    System,
    Light,
    Dark,
}

impl Default for ThemeMode {
    fn default() -> (r: Self)
        ensures
            r == ThemeMode::System,
    {
        ThemeMode::System
    }
}

/// Default application icon: the orange one.
pub const DEFAULT_ICON: &'static str = "whatsapp-logo-2449-orange";

/// One WhatsApp account.
///
/// The zoom is kept in hundredths (`100` is the page at its natural size).
#[derive(Debug)]
pub struct Account {
    pub id: String,
    pub name: String,
    pub zoom_percent: u32,
    /// Accent colour for the sidebar (e.g. `#1fa855`).
    pub color: Option<String>,
    /// Notifications silenced for this account?
    pub muted: bool,
}

impl Clone for Account {
    /// A field-by-field copy.
    fn clone(&self) -> (r: Self)
        ensures
            r == *self,
    {
        Account {
            id: self.id.clone(),
            name: self.name.clone(),
            zoom_percent: self.zoom_percent,
            color: match &self.color {
                Some(c) => Some(c.clone()),
                None => None,
            },
            muted: self.muted,
        }
    }
}

/// Position, size and state of the main window, in physical pixels.
#[derive(Clone, Copy)]
pub struct WindowGeometry {
    pub x: Option<i32>,
    pub y: Option<i32>,
    pub width: Option<u32>,
    pub height: Option<u32>,
    /// Kept apart from the size: maximising does not overwrite it.
    pub maximized: bool,
    /// What the window manager adds on its own to the size asked for.
    pub deco_w: u32,
    pub deco_h: u32,
}

impl Default for WindowGeometry {
    fn default() -> (r: Self)
        ensures
            r.x is None,
            r.y is None,
            r.width is None,
            r.height is None,
            !r.maximized,
            r.deco_w == 0,
            r.deco_h == 0,
    {
        WindowGeometry {
            x: None,
            y: None,
            width: None,
            height: None,
            maximized: false,
            deco_w: 0,
            deco_h: 0,
        }
    }
}

/// Everything that is persisted in `config.json`.
pub struct AppConfig {
    pub accounts: Vec<Account>,
    pub theme: ThemeMode,
    /// Name (without extension) of the chosen icon.
    pub icon: String,
    /// Empty: the desktop's download folder.
    pub download_dir: String,
    /// Empty: the system's temporary folder.
    pub temp_dir: String,
    /// Empty: the XDG state folder.
    pub log_dir: String,
    /// Closing the window keeps the app alive in the tray.
    pub close_to_tray: bool,
    pub notifications: bool,
    /// Hide message contents in notifications.
    pub notification_privacy: bool,
    pub autostart: bool,
    /// Keep the videos that fail to play, for diagnosis.
    pub save_failed_media: bool,
    pub window: WindowGeometry,
    pub spell_check: bool,
}

/// The values of a fresh install: no accounts, the desktop's theme, the
/// orange icon, system folders, tray on close, notifications and the spell
/// checker on, and nothing that starts with the computer or keeps anybody's
/// videos.
pub open spec fn is_fresh_install(r: AppConfig) -> bool {
    &&& r.accounts@.len() == 0
    &&& r.theme == ThemeMode::System
    &&& r.icon@ == DEFAULT_ICON@
    &&& r.download_dir@.len() == 0
    &&& r.temp_dir@.len() == 0
    &&& r.log_dir@.len() == 0
    &&& r.close_to_tray
    &&& r.notifications
    &&& !r.notification_privacy
    &&& !r.autostart
    &&& !r.save_failed_media
    &&& r.window.x is None && r.window.y is None
    &&& r.window.width is None && r.window.height is None
    &&& !r.window.maximized && r.window.deco_w == 0 && r.window.deco_h == 0
    &&& r.spell_check
}

impl Default for AppConfig {
    fn default() -> (r: Self)
        ensures
            is_fresh_install(r),
    {
        AppConfig {
            accounts: Vec::new(),
            theme: ThemeMode::default(),
            icon: String::from_str(DEFAULT_ICON),
            download_dir: String::new(),
            temp_dir: String::new(),
            log_dir: String::new(),
            close_to_tray: true,
            notifications: true,
            notification_privacy: false,
            autostart: false,
            save_failed_media: false,
            window: WindowGeometry::default(),
            spell_check: true,
        }
    }
}

/// The simple switches of the settings page.
pub struct Toggles {
    pub close_to_tray: bool,
    pub notifications: bool,
    pub notification_privacy: bool,
    pub autostart: bool,
    pub save_failed_media: bool,
    pub spell_check: bool,
}

/// The switches as they stand in `cfg`.
pub fn get_toggles(cfg: &AppConfig) -> (t: Toggles)
    ensures
        t.close_to_tray == cfg.close_to_tray,
        t.notifications == cfg.notifications,
        t.notification_privacy == cfg.notification_privacy,
        t.autostart == cfg.autostart,
        t.save_failed_media == cfg.save_failed_media,
        t.spell_check == cfg.spell_check,
{
    Toggles {
        close_to_tray: cfg.close_to_tray,
        notifications: cfg.notifications,
        notification_privacy: cfg.notification_privacy,
        autostart: cfg.autostart,
        save_failed_media: cfg.save_failed_media,
        spell_check: cfg.spell_check,
    }
}

/// `cfg` with one switch, named as the settings page names it, set to `on`;
/// `None` for a name that is no switch.
pub open spec fn with_toggle(cfg: AppConfig, name: Seq<char>, on: bool) -> Option<AppConfig> {
    if name == "closeToTray"@ {
        Some(AppConfig { close_to_tray: on, ..cfg })
    } else if name == "notifications"@ {
        Some(AppConfig { notifications: on, ..cfg })
    } else if name == "notificationPrivacy"@ {
        Some(AppConfig { notification_privacy: on, ..cfg })
    } else if name == "autostart"@ {
        Some(AppConfig { autostart: on, ..cfg })
    } else if name == "saveFailedMedia"@ {
        Some(AppConfig { save_failed_media: on, ..cfg })
    } else if name == "spellCheck"@ {
        Some(AppConfig { spell_check: on, ..cfg })
    } else {
        None
    }
}

/// Sets the switch `name`. An unknown name is refused and leaves the
/// configuration exactly as it was.
pub fn set_toggle(cfg: &mut AppConfig, name: &str, enabled: bool) -> (r: Result<(), String>)
    ensures
        with_toggle(*old(cfg), name@, enabled) matches Some(c) ==> r is Ok && *final(cfg) == c,
        with_toggle(*old(cfg), name@, enabled) is None ==> *final(cfg) == *old(cfg) && (r
            matches Err(e) && e@ == "Ajuste desconocido: "@ + name@),
{
    if str_eq(name, "closeToTray") {
        cfg.close_to_tray = enabled;
    } else if str_eq(name, "notifications") {
        cfg.notifications = enabled;
    } else if str_eq(name, "notificationPrivacy") {
        cfg.notification_privacy = enabled;
    } else if str_eq(name, "autostart") {
        cfg.autostart = enabled;
    } else if str_eq(name, "saveFailedMedia") {
        cfg.save_failed_media = enabled;
    } else if str_eq(name, "spellCheck") {
        cfg.spell_check = enabled;
    } else {
        let mut msg = String::from_str("Ajuste desconocido: ");
        push_str(&mut msg, name);
        return Err(msg);
    }
    Ok(())
}

/// The folders shown in the settings: each configured value next to the one
/// used when it is empty.
pub struct Folders {
    pub download_dir: String,
    pub download_default: String,
    pub temp_dir: String,
    pub temp_default: String,
    pub log_dir: String,
    pub log_default: String,
}

/// The folders of `cfg`, next to the system's defaults.
pub fn get_folders(
    cfg: &AppConfig,
    download_default: String,
    temp_default: String,
    log_default: String,
) -> (f: Folders)
    ensures
        f.download_dir@ == cfg.download_dir@,
        f.download_default == download_default,
        f.temp_dir@ == cfg.temp_dir@,
        f.temp_default == temp_default,
        f.log_dir@ == cfg.log_dir@,
        f.log_default == log_default,
{
    Folders {
        download_dir: cfg.download_dir.clone(),
        download_default,
        temp_dir: cfg.temp_dir.clone(),
        temp_default,
        log_dir: cfg.log_dir.clone(),
        log_default,
    }
}

/// Diagnosis of the system and its media components.
pub struct SystemDiagnostics {
    pub webkit_version: String,
    pub has_h264_decoder: bool,
    pub h264_decoder_name: String,
    pub has_aac_decoder: bool,
    pub gstreamer_cache_size: u64,
    pub profiles_size: u64,
    pub log_size: u64,
    pub os_info: String,
}

/// What the "About" box shows.
pub struct About {
    pub version: String,
    pub repository: String,
    pub releases: String,
    pub issues: String,
    pub license: String,
    /// End of the name of the package that suits this system.
    pub package_suffix: String,
    /// Architecture of this binary (`x86_64`, `aarch64`…).
    pub arch: String,
}

/// The "About" data for the repository `repo`: releases, issues and licence
/// are pages under it.
pub fn get_about(repo: &str, version: &str, package_suffix: &str, arch: &str) -> (a: About)
    ensures
        a.version@ == version@,
        a.repository@ == repo@,
        a.releases@ == repo@ + "/releases"@,
        a.issues@ == repo@ + "/issues"@,
        a.license@ == repo@ + "/blob/main/LICENSE"@,
        a.package_suffix@ == package_suffix@,
        a.arch@ == arch@,
{
    let mut releases = String::from_str(repo);
    push_str(&mut releases, "/releases");
    let mut issues = String::from_str(repo);
    push_str(&mut issues, "/issues");
    let mut license = String::from_str(repo);
    push_str(&mut license, "/blob/main/LICENSE");
    About {
        version: String::from_str(version),
        releases,
        issues,
        license,
        package_suffix: String::from_str(package_suffix),
        arch: String::from_str(arch),
        repository: String::from_str(repo),
    }
}

} // verus!
