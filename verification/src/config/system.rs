//! What the application reads from, and leaves in, the desktop: the
//! autostart entry, the distribution's name, the video decoders found, the
//! folders the user picks, and the environment the engine starts with.
use vstd::prelude::*;
use crate::config::model::SystemDiagnostics;
use crate::config::languages::{languages_of, locale_pieces, normalize_languages};
use crate::config::package::{trim_quotes, unquote};
use crate::text::{push_str, slice_chars, split_chars, split_on, string_of, trim, trimmed, views, chars_of};
use crate::urls::{starts_with, starts_with_str};

verus! {

// ───────────────────────────── autostart ─────────────────────────────

/// The desktop entry that starts the application hidden with the session.
pub open spec fn desktop_entry(exe: Seq<char>) -> Seq<char> {
    "[Desktop Entry]\nType=Application\nName=Wrusp\nComment=Cliente no oficial de WhatsApp\nExec=\""@
        + exe + "\" --hidden\nIcon=wrusp\nTerminal=false\nCategories=Network;InstantMessaging;\n"@
}

/// What to do with the autostart file.
pub enum AutostartAction {
    /// Write this entry (creating the folder first).
    Write(String),
    /// Delete the file.
    Remove,
    /// Nothing to do.
    Nothing,
}

/// Turns starting with the session on or off. On, the entry points at the
/// running executable (`wrusp` when its path is unknown); off, the file goes
/// away if it is there.
pub fn set_autostart_enabled(enabled: bool, exe: Option<&str>, present: bool) -> (a:
    AutostartAction)
    ensures
        enabled ==> (a matches AutostartAction::Write(t) && t@ == desktop_entry(
            match exe {
                Some(e) => e@,
                None => "wrusp"@,
            },
        )),
        !enabled && present ==> a is Remove,
        !enabled && !present ==> a is Nothing,
{
    if enabled {
        let exe: &str = match exe {
            Some(e) => e,
            None => "wrusp",
        };
        let mut t = String::from_str(
            "[Desktop Entry]\nType=Application\nName=Wrusp\nComment=Cliente no oficial de WhatsApp\nExec=\"",
        );
        push_str(&mut t, exe);
        push_str(&mut t, "\" --hidden\nIcon=wrusp\nTerminal=false\nCategories=Network;InstantMessaging;\n");
        AutostartAction::Write(t)
    } else if present {
        AutostartAction::Remove
    } else {
        AutostartAction::Nothing
    }
}

// ───────────────────────────── the distribution ─────────────────────────────

/// The value of the first `PRETTY_NAME=` line, trimmed and without quotes.
pub open spec fn pretty_name_in(lines: Seq<Seq<char>>) -> Option<Seq<char>>
    decreases lines.len(),
{
    if lines.len() == 0 {
        None
    } else if starts_with(lines[0], "PRETTY_NAME="@) {
        Some(trim_quotes(trim(lines[0].skip(12))))
    } else {
        pretty_name_in(lines.skip(1))
    }
}

/// The name of the distribution from `/etc/os-release`, or `Linux`.
pub open spec fn system_name(os_release: Seq<char>) -> Seq<char> {
    match pretty_name_in(split_on(os_release, '\n')) {
        Some(n) => n,
        None => "Linux"@,
    }
}

/// The distribution's name, the first thing asked in a Linux issue.
pub fn sistema_operativo(os_release: &str) -> (s: String)
    ensures
        s@ == system_name(os_release@),
{
    let texto = chars_of(os_release);
    let lineas = split_chars(&texto, '\n');
    let ghost ls = views(lineas@);
    let mut i: usize = 0;
    proof {
        reveal_strlit("PRETTY_NAME=");
        assert(ls.skip(0) =~= ls);
    }
    while i < lineas.len()
        invariant
            i <= lineas.len(),
            ls == views(lineas@),
            ls == split_on(os_release@, '\n'),
            pretty_name_in(ls) == pretty_name_in(ls.skip(i as int)),
        decreases lineas.len() - i,
    {
        proof {
            assert(ls.skip(i as int)[0] == lineas@[i as int]@);
            assert(ls.skip(i as int).skip(1) =~= ls.skip(i + 1));
        }
        let linea = string_of(&lineas[i]);
        if starts_with_str(linea.as_str(), "PRETTY_NAME=") {
            proof {
                reveal_strlit("PRETTY_NAME=");
            }
            let resto = slice_chars(&lineas[i], 12, lineas[i].len());
            assert(resto@ =~= lineas@[i as int]@.skip(12));
            let t = trimmed(&resto);
            let v = unquote(&t);
            return string_of(&v);
        }
        i = i + 1;
    }
    proof {
        reveal_strlit("Linux");
    }
    String::from_str("Linux")
}

// ───────────────────────────── decoders ─────────────────────────────

pub const H264_FFMPEG: &'static str = "avdec_h264 (FFmpeg / libavcodec)";
pub const H264_OPENH264: &'static str = "openh264dec (Baseline)";
pub const H264_NONE: &'static str = "No detectado";

/// The H.264 decoder found: FFmpeg's when `gst-inspect-1.0 avdec_h264`
/// succeeds, otherwise OpenH264's when `openh264dec` does (only asked for
/// when the first is missing), otherwise none.
pub open spec fn h264_found(avdec: bool, openh264: bool) -> (bool, Seq<char>) {
    if avdec {
        (true, H264_FFMPEG@)
    } else if openh264 {
        (true, H264_OPENH264@)
    } else {
        (false, H264_NONE@)
    }
}

/// The system diagnostics from what was probed: the engine's version, which
/// decoders `gst-inspect-1.0` found, and the sizes on disk.
pub fn get_diagnostics(
    webkit_version: String,
    avdec_h264: bool,
    openh264: bool,
    avdec_aac: bool,
    gstreamer_cache_size: u64,
    profiles_size: u64,
    log_size: u64,
    os_info: String,
) -> (d: SystemDiagnostics)
    ensures
        d.webkit_version == webkit_version,
        (d.has_h264_decoder, d.h264_decoder_name@) == h264_found(avdec_h264, openh264),
        d.has_aac_decoder == avdec_aac,
        d.gstreamer_cache_size == gstreamer_cache_size,
        d.profiles_size == profiles_size,
        d.log_size == log_size,
        d.os_info == os_info,
{
    let (has_h264, name): (bool, &str) = if avdec_h264 {
        (true, H264_FFMPEG)
    } else if openh264 {
        (true, H264_OPENH264)
    } else {
        (false, H264_NONE)
    };
    SystemDiagnostics {
        webkit_version,
        has_h264_decoder: has_h264,
        h264_decoder_name: String::from_str(name),
        has_aac_decoder: avdec_aac,
        gstreamer_cache_size,
        profiles_size,
        log_size,
        os_info,
    }
}

/// The files of GStreamer's cache that clearing it removes: its registry,
/// so that plugins are scanned again on the next start.
pub fn is_registry_cache(file_name: &str) -> (b: bool)
    ensures
        b == starts_with(file_name@, "registry."@),
{
    starts_with_str(file_name, "registry.")
}

// ───────────────────────────── folders ─────────────────────────────

/// What `Path::is_absolute` answers for a path.
pub uninterp spec fn path_is_absolute(p: Seq<char>) -> bool;

/// Calls `Path::is_absolute`; its answer is named `path_is_absolute`.
#[verifier::external_body]
fn is_absolute(p: &str) -> (b: bool)
    ensures
        b == path_is_absolute(p@),
{
    std::path::Path::new(p).is_absolute()
}

/// The answer to a folder that is not an absolute path.
pub const NOT_ABSOLUTE: &'static str = "La ruta debe ser absoluta";

/// A folder chosen in the settings.
pub enum FolderChoice {
    /// Empty: the system's folder is used.
    System,
    /// A folder of the user's, still to be created and tried for writing.
    Custom,
}

/// The first check on a folder typed or picked in the settings: empty means
/// the system's, and anything else must be an absolute path.
pub fn validate_dir(path: &str) -> (r: Result<FolderChoice, String>)
    ensures
        path@.len() == 0 ==> r matches Ok(FolderChoice::System),
        path@.len() > 0 && !path_is_absolute(path@) ==> (r matches Err(e) && e@ == NOT_ABSOLUTE@),
        path@.len() > 0 && path_is_absolute(path@) ==> r matches Ok(FolderChoice::Custom),
{
    if path.is_empty() {
        return Ok(FolderChoice::System);
    }
    if !is_absolute(path) {
        return Err(String::from_str(NOT_ABSOLUTE));
    }
    Ok(FolderChoice::Custom)
}

/// The folder a folder picker printed: its output trimmed, or nothing when
/// it printed nothing.
pub fn folder_from_dialog(output: &str) -> (r: Option<String>)
    ensures
        trim(output@).len() == 0 ==> r is None,
        trim(output@).len() > 0 ==> (r matches Some(p) && p@ == trim(output@)),
{
    let v = chars_of(output);
    let t = trimmed(&v);
    if t.len() == 0 {
        None
    } else {
        Some(string_of(&t))
    }
}

/// The desktop's download folder: what `xdg-user-dir DOWNLOAD` printed
/// (trimmed), or else `Downloads` in the home folder, or else the temporary
/// folder.
pub fn system_download_dir(xdg_output: Option<&str>, home: Option<&str>, temp: &str) -> (r: String)
    ensures
        ({
            let from_xdg = match xdg_output {
                Some(o) => trim(o@),
                None => Seq::<char>::empty(),
            };
            r@ == if from_xdg.len() > 0 {
                from_xdg
            } else {
                match home {
                    Some(h) => crate::paths::path_joined(h@, "Downloads"@),
                    None => temp@,
                }
            }
        }),
{
    match xdg_output {
        Some(o) => match folder_from_dialog(o) {
            Some(p) => return p,
            None => {},
        },
        None => {},
    }
    match home {
        Some(h) => crate::paths::join_path(h, "Downloads"),
        None => String::from_str(temp),
    }
}

// ───────────────────────────── environment ─────────────────────────────

/// Records that the engine's processes get `variable`, unless the user
/// brought their own; the programs the application opens are spared those
/// recorded. Answers whether the variable must be set.
pub fn fijar_para_el_motor(registro: &mut Vec<String>, variable: &str, ya_definida: bool) -> (set:
    bool)
    ensures
        set == !ya_definida,
        set ==> final(registro)@.len() == old(registro)@.len() + 1 && final(registro)@.take(
            old(registro)@.len() as int,
        ) == old(registro)@ && final(registro)@.last()@ == variable@,
        !set ==> final(registro)@ == old(registro)@,
{
    if ya_definida {
        return false;
    }
    registro.push(String::from_str(variable));
    assert(registro@.take(old(registro)@.len() as int) =~= old(registro)@);
    true
}

/// The environment variables whose values the diagnostic report shows: the
/// ones that change how video is decoded, and nothing else of an
/// environment that holds, among much else, the user's name.
pub const MEDIA_VARIABLES: [&'static str; 6] = [
    "GST_PLUGIN_FEATURE_RANK",
    "WEBKIT_GST_DISABLE_GL_SINK",
    "WEBKIT_DISABLE_DMABUF_RENDERER",
    "WEBKIT_DISABLE_COMPOSITING_MODE",
    "GST_DEBUG",
    "WRUSP_GUARDAR_MEDIOS_FALLIDOS",
];

/// The locale variables the spell checker reads, in order of preference.
pub const LOCALE_VARIABLES: [&'static str; 4] = ["LANGUAGE", "LC_ALL", "LC_MESSAGES", "LANG"];

/// The spell checker's languages from the values of the locale variables
/// that are set: cleaned, without repeats, with English last.
pub fn spell_check_languages(values: &Vec<String>) -> (r: Vec<String>)
    ensures
        r@.map_values(|s: String| s@) == languages_of(
            locale_pieces(values@.map_values(|s: String| s@).push("en_US"@)),
        ),
{
    let mut crudos = values.clone();
    assert(crudos@ =~= values@);
    crudos.push(String::from_str("en_US"));
    assert(crudos@.map_values(|s: String| s@) =~= values@.map_values(|s: String| s@).push(
        "en_US"@,
    ));
    normalize_languages(crudos.as_slice())
}

} // verus!
