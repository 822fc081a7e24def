//! Keeping the configuration: what a start-up begins with, how a change is
//! committed, and where the files around `config.json` go.
use vstd::prelude::*;
use crate::config::model::{is_fresh_install, Account, AppConfig};
use crate::config::profiles::{sanitize_accounts, sanitized};

verus! {

/// Two configurations that hold the same settings.
pub open spec fn same_settings(a: AppConfig, b: AppConfig) -> bool {
    &&& a.accounts@ == b.accounts@
    &&& a.theme == b.theme
    &&& a.icon@ == b.icon@
    &&& a.download_dir@ == b.download_dir@
    &&& a.temp_dir@ == b.temp_dir@
    &&& a.log_dir@ == b.log_dir@
    &&& a.close_to_tray == b.close_to_tray
    &&& a.notifications == b.notifications
    &&& a.notification_privacy == b.notification_privacy
    &&& a.autostart == b.autostart
    &&& a.save_failed_media == b.save_failed_media
    &&& a.window == b.window
    &&& a.spell_check == b.spell_check
}

fn clone_accounts(v: &Vec<Account>) -> (r: Vec<Account>)
    ensures
        r@ == v@,
{
    let r = v.clone();
    assert(r@ =~= v@);
    r
}

/// A copy of the configuration.
pub fn copy_config(cfg: &AppConfig) -> (r: AppConfig)
    ensures
        same_settings(r, *cfg),
{
    AppConfig {
        accounts: clone_accounts(&cfg.accounts),
        theme: cfg.theme,
        icon: cfg.icon.clone(),
        download_dir: cfg.download_dir.clone(),
        temp_dir: cfg.temp_dir.clone(),
        log_dir: cfg.log_dir.clone(),
        close_to_tray: cfg.close_to_tray,
        notifications: cfg.notifications,
        notification_privacy: cfg.notification_privacy,
        autostart: cfg.autostart,
        save_failed_media: cfg.save_failed_media,
        window: cfg.window,
        spell_check: cfg.spell_check,
    }
}

/// Applies `change` to the configuration and persists the result with
/// `persist`. If the change or the write fails, the configuration goes back
/// to how it was: what the settings page takes as done and what is on disk
/// never drift apart. When it succeeds, what is kept is what was persisted,
/// and the answer is that of `change`; when it fails, the error is the one
/// `change` or `persist` gave.
pub fn mutate<R, F, S>(cfg: &mut AppConfig, change: F, persist: S) -> (r: Result<R, String>) where
    F: FnOnce(&mut AppConfig) -> Result<R, String>,
    S: FnOnce(&AppConfig) -> Result<(), String>,

    requires
        forall|x: &mut AppConfig| change.requires((x,)),
        forall|x: &AppConfig| persist.requires((x,)),
    ensures
        r is Err ==> same_settings(*final(cfg), *old(cfg)),
        r is Ok ==> exists|v: Result<(), String>| v is Ok && persist.ensures((&*final(cfg),), v),
        r matches Ok(o) ==> exists|x: &mut AppConfig|
            *x == *old(cfg) && *final(x) == *final(cfg) && #[trigger] change.ensures(
                (x,),
                Ok::<R, String>(o),
            ),
        r matches Err(e) ==> (exists|x: &mut AppConfig|
            *x == *old(cfg) && #[trigger] change.ensures((x,), Err::<R, String>(e))) || (exists|
            x: &mut AppConfig,
            o: R,
        |
            *x == *old(cfg) && #[trigger] change.ensures((x,), Ok::<R, String>(o))
                && persist.ensures((&*final(x),), Err::<(), String>(e))),
{
    let backup = copy_config(cfg);
    let out = match change(cfg) {
        Ok(out) => out,
        Err(e) => {
            *cfg = backup;
            return Err(e);
        },
    };
    let res = persist(cfg);
    match res {
        Ok(()) => Ok(out),
        Err(e) => {
            *cfg = backup;
            Err(e)
        },
    }
}

/// The configuration a start begins with: the values of a fresh install when
/// there is no readable file, and otherwise what was read, keeping only the
/// accounts whose id is a canonical UUID not used before.
pub fn load(read: Option<AppConfig>) -> (cfg: AppConfig)
    ensures
        read is None ==> is_fresh_install(cfg),
        read matches Some(c) ==> cfg.accounts@ == sanitized(c.accounts@) && cfg.theme == c.theme
            && cfg.icon == c.icon && cfg.download_dir == c.download_dir && cfg.temp_dir
            == c.temp_dir && cfg.log_dir == c.log_dir && cfg.close_to_tray == c.close_to_tray
            && cfg.notifications == c.notifications && cfg.notification_privacy
            == c.notification_privacy && cfg.autostart == c.autostart && cfg.save_failed_media
            == c.save_failed_media && cfg.window == c.window && cfg.spell_check == c.spell_check,
{
    match read {
        None => AppConfig::default(),
        Some(c) => {
            let mut c = c;
            sanitize_accounts(&mut c.accounts);
            c
        },
    }
}

/// What `Path::with_extension` gives for a path and an extension.
pub uninterp spec fn path_with_extension(p: Seq<char>, ext: Seq<char>) -> Seq<char>;

/// Calls `Path::with_extension`; its result is named `path_with_extension`.
/// The call panics on an extension that holds a path separator, so none is
/// accepted.
#[verifier::external_body]
fn with_extension(p: &str, ext: &str) -> (r: String)
    requires
        !ext@.contains('/'),
        !ext@.contains('\\'),
    ensures
        r@ == path_with_extension(p@, ext@),
{
    std::path::Path::new(p).with_extension(ext).to_string_lossy().into_owned()
}

/// Where an unreadable `config.json` is set aside (before making the name
/// unique): the only copy of the user's accounts, that the next save would
/// overwrite.
pub fn rescue_path(config: &str) -> (r: String)
    ensures
        r@ == path_with_extension(config@, "json.corrupto"@),
{
    proof {
        reveal_strlit("json.corrupto");
    }
    with_extension(config, "json.corrupto")
}

/// The temporary file a save writes and syncs before renaming it over
/// `config.json`, so that an interrupted write never leaves it truncated.
pub fn temporary_path(config: &str) -> (r: String)
    ensures
        r@ == path_with_extension(config@, "json.tmp"@),
{
    proof {
        reveal_strlit("json.tmp");
    }
    with_extension(config, "json.tmp")
}

} // verus!
