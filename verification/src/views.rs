//! How a view is set up: where an account view points, the browser it says
//! it is, and the start-up scripts each view gets, each isolated so that one
//! failing cannot leave the view half-made or stop the next ones.
use vstd::prelude::*;
use crate::browser::{
    disguise_script, disguise_text, fix_large_mp4_blobs_script, fix_large_mp4_blobs_text,
    hide_native_app_promo_script, hide_webcodecs_script, HIDE_NATIVE_APP_PROMO, HIDE_WEBCODECS,
};
use crate::config::model::ThemeMode;
use crate::platform::Platform;
use crate::rail::{runtime_script, runtime_text};
use crate::json::json_quoted;
use crate::shell::{aislado, isolated_text, SETTINGS_VIEW};
use crate::text::{chars_of, slice_chars, string_of};
use crate::theme::{theme_js, whatsapp_init_script};
use crate::urls::{starts_with, starts_with_str};

verus! {

/// WhatsApp Web, what every account view opens.
pub const WHATSAPP_URL: &'static str = "https://web.whatsapp.com";

/// The user agent of the stable Chrome on Linux.
pub const CHROME_UA_LINUX: &'static str = "Mozilla/5.0 (X11; Linux x86_64) AppleWebKit/537.36 (KHTML, like Gecko) Chrome/131.0.0.0 Safari/537.36";

/// The user agent of the stable Chrome on Windows.
pub const CHROME_UA_WINDOWS: &'static str = "Mozilla/5.0 (Windows NT 10.0; Win64; x64) AppleWebKit/537.36 (KHTML, like Gecko) Chrome/131.0.0.0 Safari/537.36";

/// The user agent of the stable Chrome on macOS.
pub const CHROME_UA_MACOS: &'static str = "Mozilla/5.0 (Macintosh; Intel Mac OS X 10_15_7) AppleWebKit/537.36 (KHTML, like Gecko) Chrome/131.0.0.0 Safari/537.36";

/// The user agent of the stable Chrome of `platform`.
pub open spec fn chrome_ua_text(platform: Platform) -> Seq<char> {
    match platform {
        Platform::Linux => CHROME_UA_LINUX@,
        Platform::Windows => CHROME_UA_WINDOWS@,
        Platform::MacOs => CHROME_UA_MACOS@,
    }
}

/// WhatsApp Web turns away browsers it does not know: the views present
/// themselves as the stable Chrome of the platform they run on.
pub fn chrome_user_agent(platform: Platform) -> (s: &'static str)
    ensures
        s@ == chrome_ua_text(platform),
{
    match platform {
        Platform::Linux => CHROME_UA_LINUX,
        Platform::Windows => CHROME_UA_WINDOWS,
        Platform::MacOs => CHROME_UA_MACOS,
    }
}

/// What the labels of account views start with.
pub const ACCOUNT_LABEL_PREFIX: &'static str = "account-";

/// The start-up scripts of the view of account `account_id`, in order: the
/// browser disguise, WebCodecs hidden, the switch of the failed-media dump,
/// the video work-around, the native-app promotion hidden, the theme, the
/// sidebar, dropping files and copying images; the disguise and the video
/// work-around as `platform` has them.
pub open spec fn account_scripts_spec(
    platform: Platform,
    account_id: Seq<char>,
    mode: ThemeMode,
    dump_active: bool,
    filedrop: Seq<char>,
    clipboard: Seq<char>,
) -> Seq<Seq<char>> {
    seq![
        isolated_text(disguise_text(platform)),
        isolated_text(HIDE_WEBCODECS@),
        isolated_text("window.__wruspGuardarFallos = "@ + (if dump_active {
            "true"@
        } else {
            "false"@
        }) + ";"@),
        isolated_text(if platform == Platform::Linux {
            fix_large_mp4_blobs_text()
        } else {
            Seq::empty()
        }),
        isolated_text(HIDE_NATIVE_APP_PROMO@),
        isolated_text("(function() { try { "@ + theme_js(mode) + " } catch (e) { /* sin storage aún */ } })();"@),
        isolated_text(runtime_text(json_quoted(account_id))),
        isolated_text(filedrop),
        isolated_text(clipboard),
    ]
}

/// The start-up scripts of an account view.
pub fn account_view_scripts(
    platform: Platform,
    account_id: &str,
    mode: ThemeMode,
    dump_active: bool,
) -> (r: Vec<String>)
    ensures
        r@.map_values(|s: String| s@) == account_scripts_spec(
            platform,
            account_id@,
            mode,
            dump_active,
            crate::filedrop::script_text(),
            crate::clipboard::SCRIPT@,
        ),
{
    let mut r: Vec<String> = Vec::new();
    r.push(aislado(disguise_script(platform)));
    r.push(aislado(hide_webcodecs_script()));
    r.push(aislado(crate::diagnostico::init_script(dump_active)));
    r.push(aislado(fix_large_mp4_blobs_script(platform)));
    r.push(aislado(hide_native_app_promo_script()));
    r.push(aislado(whatsapp_init_script(mode)));
    r.push(aislado(runtime_script(account_id)));
    r.push(aislado(crate::filedrop::script()));
    r.push(aislado(String::from_str(crate::clipboard::SCRIPT)));
    assert(r@.map_values(|s: String| s@) =~= account_scripts_spec(
        platform,
        account_id@,
        mode,
        dump_active,
        crate::filedrop::script_text(),
        crate::clipboard::SCRIPT@,
    ));
    r
}

/// The start-up script of the settings view: the sidebar, for the view
/// `settings`.
pub fn settings_view_script() -> (s: String)
    ensures
        s@ == isolated_text(runtime_text(json_quoted(SETTINGS_VIEW@))),
{
    aislado(runtime_script(SETTINGS_VIEW))
}

/// The account a view belongs to, from its label: what follows `account-`,
/// or nothing.
pub fn account_of_label(label: &str) -> (id: String)
    ensures
        starts_with(label@, ACCOUNT_LABEL_PREFIX@) ==> id@ == label@.skip(
            ACCOUNT_LABEL_PREFIX@.len() as int,
        ),
        !starts_with(label@, ACCOUNT_LABEL_PREFIX@) ==> id@.len() == 0,
{
    if starts_with_str(label, ACCOUNT_LABEL_PREFIX) {
        let v = chars_of(label);
        let p = chars_of(ACCOUNT_LABEL_PREFIX);
        let rest = slice_chars(&v, p.len(), v.len());
        assert(rest@ =~= label@.skip(ACCOUNT_LABEL_PREFIX@.len() as int));
        string_of(&rest)
    } else {
        String::new()
    }
}

/// The name a download is offered under: the one the page suggested, or
/// `descarga`.
pub fn download_name(suggested: Option<&str>) -> (name: String)
    ensures
        name@ == match suggested {
            Some(n) => n@,
            None => "descarga"@,
        },
{
    match suggested {
        Some(n) => String::from_str(n),
        None => String::from_str("descarga"),
    }
}

} // verus!
