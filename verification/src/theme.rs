//! Light, dark or the desktop's theme, for the window, the settings page and
//! WhatsApp Web itself.
use vstd::prelude::*;
use crate::config::{AppConfig, ThemeMode};
use crate::text::push_str;

verus! {

/// Is the effective theme dark? With `System` the window's answer decides
/// (`window_dark`), and no answer counts as light.
pub fn is_dark(mode: ThemeMode, window_dark: Option<bool>) -> (b: bool)
    ensures
        b == match mode {
            ThemeMode::Dark => true,
            ThemeMode::Light => false,
            ThemeMode::System => window_dark == Some(true),
        },
{
    match mode {
        ThemeMode::Dark => true,
        ThemeMode::Light => false,
        ThemeMode::System => match window_dark {
            Some(d) => d,
            None => false,
        },
    }
}

pub const THEME_JS_DARK: &'static str = "localStorage.setItem('theme', JSON.stringify('dark'));";

pub const THEME_JS_LIGHT: &'static str = "localStorage.setItem('theme', JSON.stringify('light'));";

pub const THEME_JS_SYSTEM: &'static str = "localStorage.removeItem('theme');";

/// The statement that sets WhatsApp Web's theme preference.
pub open spec fn theme_js(mode: ThemeMode) -> Seq<char> {
    match mode {
        ThemeMode::Dark => THEME_JS_DARK@,
        ThemeMode::Light => THEME_JS_LIGHT@,
        ThemeMode::System => THEME_JS_SYSTEM@,
    }
}

/// WhatsApp Web reads the `theme` key of its local storage when it starts:
/// set it for dark or light, remove it to follow the desktop.
pub fn whatsapp_theme_js(mode: ThemeMode) -> (s: &'static str)
    ensures
        s@ == theme_js(mode),
{
    match mode {
        ThemeMode::Dark => THEME_JS_DARK,
        ThemeMode::Light => THEME_JS_LIGHT,
        ThemeMode::System => THEME_JS_SYSTEM,
    }
}

/// The script that runs before WhatsApp Web loads: the preference, guarded
/// against a storage that does not exist yet.
pub fn whatsapp_init_script(mode: ThemeMode) -> (s: String)
    ensures
        s@ == "(function() { try { "@ + theme_js(mode)
            + " } catch (e) { /* sin storage aún */ } })();"@,
{
    let mut s = String::from_str("(function() { try { ");
    push_str(&mut s, whatsapp_theme_js(mode));
    push_str(&mut s, " } catch (e) { /* sin storage aún */ } })();");
    s
}

/// The script that changes the theme of an open WhatsApp view: the
/// preference, then a reload (the session lives on disk, nothing is lost).
pub fn theme_reload_script(mode: ThemeMode) -> (s: String)
    ensures
        s@ == "(function() { try { "@ + theme_js(mode) + " location.reload(); } catch (e) {} })();"@,
{
    let mut s = String::from_str("(function() { try { ");
    push_str(&mut s, whatsapp_theme_js(mode));
    push_str(&mut s, " location.reload(); } catch (e) {} })();");
    s
}

/// The theme in the configuration.
pub fn get_theme(cfg: &AppConfig) -> (t: ThemeMode)
    ensures
        t == cfg.theme,
{
    cfg.theme
}

/// Chooses the theme; nothing else changes.
pub fn set_theme(cfg: &mut AppConfig, theme: ThemeMode)
    ensures
        *final(cfg) == (AppConfig { theme, ..*old(cfg) }),
{
    cfg.theme = theme;
}

} // verus!
