//! The environment the engine starts with, and what closing the window or
//! the last view means.
use vstd::prelude::*;

verus! {

/// Ranks of GStreamer's decoders: the hardware ones go down to zero, so
/// that the software ones win (the VA-API ones break on WhatsApp's videos).
pub const GST_RANK_VARIABLE: &'static str = "GST_PLUGIN_FEATURE_RANK";

pub const GST_RANK_VALUE: &'static str = "vah264dec:0,vah264lpdec:0,vaapih264dec:0,vaapidecodebin:0";

/// Frames through ordinary memory instead of the GL sink, whose textures
/// WhatsApp's player could not read.
pub const GL_SINK_VARIABLE: &'static str = "WEBKIT_GST_DISABLE_GL_SINK";

pub const GL_SINK_VALUE: &'static str = "1";

/// GStreamer kept quiet: a broken video made it print thousands of lines a
/// second.
pub const GST_DEBUG_VARIABLE: &'static str = "GST_DEBUG";

pub const GST_DEBUG_VALUE: &'static str = "0";

/// `vars` with `(name, value)` after them, unless `set` says the user set
/// that variable already.
pub open spec fn unless_set(
    vars: Seq<(Seq<char>, Seq<char>)>,
    set: bool,
    name: Seq<char>,
    value: Seq<char>,
) -> Seq<(Seq<char>, Seq<char>)> {
    if set {
        vars
    } else {
        vars.push((name, value))
    }
}

/// The variables the engine is started with, in order: GStreamer kept quiet,
/// the hardware decoders ranked down and the GL sink disabled, each one
/// unless the user set it already.
pub open spec fn engine_variables(rank_set: bool, gl_sink_set: bool, debug_set: bool) -> Seq<
    (Seq<char>, Seq<char>),
> {
    unless_set(
        unless_set(
            unless_set(Seq::empty(), debug_set, GST_DEBUG_VARIABLE@, GST_DEBUG_VALUE@),
            rank_set,
            GST_RANK_VARIABLE@,
            GST_RANK_VALUE@,
        ),
        gl_sink_set,
        GL_SINK_VARIABLE@,
        GL_SINK_VALUE@,
    )
}

/// The variables to set before the engine starts, with their values. A
/// variable the user already set is respected: they may want just the
/// opposite.
pub fn engine_environment(rank_set: bool, gl_sink_set: bool, debug_set: bool) -> (r: Vec<
    (&'static str, &'static str),
>)
    ensures
        r@.map_values(|p: (&'static str, &'static str)| (p.0@, p.1@)) == engine_variables(
            rank_set,
            gl_sink_set,
            debug_set,
        ),
{
    let mut r: Vec<(&'static str, &'static str)> = Vec::new();
    if !debug_set {
        r.push((GST_DEBUG_VARIABLE, GST_DEBUG_VALUE));
    }
    if !rank_set {
        r.push((GST_RANK_VARIABLE, GST_RANK_VALUE));
    }
    if !gl_sink_set {
        r.push((GL_SINK_VARIABLE, GL_SINK_VALUE));
    }
    assert(r@.map_values(|p: (&'static str, &'static str)| (p.0@, p.1@)) =~= engine_variables(
        rank_set,
        gl_sink_set,
        debug_set,
    ));
    r
}

/// Closing the window hides it and the application stays in the tray,
/// unless the user asked otherwise in the settings.
pub fn close_hides_window(close_to_tray: bool) -> (b: bool)
    ensures
        b == close_to_tray,
{
    close_to_tray
}

/// An exit with no code means the last visible window went away: the
/// application stays in the tray. "Quit" brings a code and ends it.
pub fn exit_prevented(code: Option<i32>, close_to_tray: bool) -> (b: bool)
    ensures
        b == (code is None && close_to_tray),
{
    code.is_none() && close_to_tray
}

} // verus!
