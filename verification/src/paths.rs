//! Paths built from configured folders: joining, the effective folders, the
//! confined profile folder of an account, and the download destination that
//! never overwrites an existing file.
use vstd::prelude::*;
use crate::text::{decimal, decimal_string, push_str, str_eq};

verus! {

/// What `Path::join` gives for a base and a part to put after it.
pub uninterp spec fn path_joined(base: Seq<char>, rel: Seq<char>) -> Seq<char>;

/// Calls `Path::join`, with the separator and the rules of the platform the
/// program runs on; its result, a function of the two parts alone on that
/// platform, is named `path_joined`. Both parts come from strings, so the
/// conversion back is lossless.
#[verifier::external_body]
pub(crate) fn join_path(base: &str, rel: &str) -> (s: String)
    ensures
        s@ == path_joined(base@, rel@),
{
    std::path::Path::new(base).join(rel).to_string_lossy().into_owned()
}

/// The folder in use: the configured one, or the default when it is empty.
pub fn effective_dir(configured: &str, default_dir: &str) -> (s: String)
    ensures
        s@ == (if configured@.len() == 0 {
            default_dir@
        } else {
            configured@
        }),
{
    if configured.is_empty() {
        String::from_str(default_dir)
    } else {
        String::from_str(configured)
    }
}

// ───────────────────────────── download destinations ─────────────────────

/// What `Path::parent` gives for a path.
pub uninterp spec fn path_parent(p: Seq<char>) -> Option<Seq<char>>;

/// What `Path::file_stem` gives for a path.
pub uninterp spec fn path_file_stem(p: Seq<char>) -> Option<Seq<char>>;

/// What `Path::extension` gives for a path.
pub uninterp spec fn path_extension(p: Seq<char>) -> Option<Seq<char>>;

/// What `Path::file_name` gives for a path.
pub uninterp spec fn path_file_name(p: Seq<char>) -> Option<Seq<char>>;

/// Calls `Path::parent`. Its result, a function of the path alone, is named
/// `path_parent`; the path comes from a `String`, so the conversion back is
/// lossless.
#[verifier::external_body]
fn parent_of(p: &str) -> (r: Option<String>)
    ensures
        r.deep_view() == path_parent(p@),
{
    match std::path::Path::new(p).parent() {
        Some(q) => Some(q.to_string_lossy().into_owned()),
        None => None,
    }
}

/// Calls `Path::file_stem`; its result is named `path_file_stem`.
#[verifier::external_body]
fn file_stem_of(p: &str) -> (r: Option<String>)
    ensures
        r.deep_view() == path_file_stem(p@),
{
    match std::path::Path::new(p).file_stem() {
        Some(q) => Some(q.to_string_lossy().into_owned()),
        None => None,
    }
}

/// Calls `Path::extension`; its result is named `path_extension`.
#[verifier::external_body]
pub(crate) fn extension_of(p: &str) -> (r: Option<String>)
    ensures
        r.deep_view() == path_extension(p@),
{
    match std::path::Path::new(p).extension() {
        Some(q) => Some(q.to_string_lossy().into_owned()),
        None => None,
    }
}

/// Calls `Path::file_name`; its result is named `path_file_name`.
#[verifier::external_body]
pub(crate) fn file_name_of(p: &str) -> (r: Option<String>)
    ensures
        r.deep_view() == path_file_name(p@),
{
    match std::path::Path::new(p).file_name() {
        Some(q) => Some(q.to_string_lossy().into_owned()),
        None => None,
    }
}

/// `foto.jpg` → `foto (tag).jpg`, in the same folder.
pub open spec fn tagged_path(path: Seq<char>, tag: Seq<char>) -> Seq<char> {
    let parent = match path_parent(path) {
        Some(p) => p,
        None => Seq::empty(),
    };
    let stem = match path_file_stem(path) {
        Some(s) => s,
        None => Seq::empty(),
    };
    let ext = match path_extension(path) {
        Some(e) => "."@ + e,
        None => Seq::empty(),
    };
    path_joined(parent, stem + " ("@ + tag + ")"@ + ext)
}

/// What trying to reserve a destination gave.
#[derive(PartialEq, Eq, Structural, Clone, Copy)]
pub enum Reserva {
    /// The file was created empty: the name is ours.
    Hecha,
    /// It exists already: try the next one.
    Ocupada,
    /// The file system does not let us reserve anything here: the real error
    /// will show when writing.
    Imposible,
}

/// Was `p` answered as taken by `reservar`?
pub open spec fn answered_taken<R: Fn(&String) -> Reserva>(reservar: R, p: Seq<char>) -> bool {
    exists|s: String| s@ == p && #[trigger] call_ensures(reservar, (&s,), Reserva::Ocupada)
}

/// Was `p` answered with something other than "taken" by `reservar`?
pub open spec fn answered_free<R: Fn(&String) -> Reserva>(reservar: R, p: Seq<char>) -> bool {
    exists|s: String, o: Reserva|
        s@ == p && o != Reserva::Ocupada && #[trigger] call_ensures(reservar, (&s,), o)
}

fn tagged(parent: &str, stem: &str, tag: &String, ext: &String) -> (s: String)
    ensures
        s@ == path_joined(parent@, stem@ + " ("@ + tag@ + ")"@ + ext@),
{
    let mut name = String::from_str(stem);
    push_str(&mut name, " (");
    push_str(&mut name, tag.as_str());
    push_str(&mut name, ")");
    push_str(&mut name, ext.as_str());
    join_path(parent, name.as_str())
}

/// Avoids overwriting a file already there: `foto.jpg` → `foto (2).jpg`.
///
/// The destination is not chosen by looking whether it exists but reserved,
/// by `reservar` creating it empty and exclusively, one atomic operation: two
/// downloads at once never get the same name. The path itself comes back
/// when it was free (or nothing can be reserved there); otherwise the first
/// of `foto (2)` … `foto (999)` that was; and when all of those are taken, a
/// name tagged with `reloj()`. A name answered as taken never comes back,
/// except that last one.
pub fn unique_path<R: Fn(&String) -> Reserva, C: Fn() -> u128>(
    path: String,
    reservar: R,
    reloj: C,
) -> (r: String)
    requires
        forall|p: &String| #[trigger] call_requires(reservar, (p,)),
        call_requires(reloj, ()),
    ensures
        (r@ == path@ && answered_free(reservar, path@)) || (answered_taken(reservar, path@) && exists|n: nat|
            2 <= n < 1000 && r@ == tagged_path(path@, decimal(n)) && answered_free(
                reservar,
                r@,
            ) && forall|m: nat|
                2 <= m < n ==> #[trigger] answered_taken(reservar, tagged_path(path@, decimal(m))))
            || (answered_taken(reservar, path@) && (forall|m: nat|
            2 <= m < 1000 ==> #[trigger] answered_taken(reservar, tagged_path(path@, decimal(m))))
            && exists|t: u128| #[trigger] call_ensures(reloj, (), t) && r@ == tagged_path(
            path@,
            decimal(t as nat),
        )),
{
    let stem = match file_stem_of(path.as_str()) {
        Some(s) => s,
        None => String::new(),
    };
    let ext = match extension_of(path.as_str()) {
        Some(e) => {
            let mut x = String::from_str(".");
            push_str(&mut x, e.as_str());
            x
        },
        None => String::new(),
    };
    let parent = match parent_of(path.as_str()) {
        Some(p) => p,
        None => String::new(),
    };
    proof {
        assert(stem@ == match path_file_stem(path@) {
            Some(s) => s,
            None => Seq::<char>::empty(),
        });
        assert(ext@ == match path_extension(path@) {
            Some(e) => "."@ + e,
            None => Seq::<char>::empty(),
        });
        assert(parent@ == match path_parent(path@) {
            Some(p) => p,
            None => Seq::<char>::empty(),
        });
    }
    let first = reservar(&path);
    if first != Reserva::Ocupada {
        proof {
            assert(call_ensures(reservar, (&path,), first));
        }
        return path;
    }
    proof {
        assert(call_ensures(reservar, (&path,), first));
    }
    let mut n: u64 = 2;
    while n < 1000
        invariant
            2 <= n <= 1000,
            forall|p: &String| #[trigger] call_requires(reservar, (p,)),
            answered_taken(reservar, path@),
            forall|m: nat|
                2 <= m < n ==> #[trigger] answered_taken(reservar, tagged_path(path@, decimal(m))),
            stem@ == match path_file_stem(path@) {
                Some(s) => s,
                None => Seq::<char>::empty(),
            },
            ext@ == match path_extension(path@) {
                Some(e) => "."@ + e,
                None => Seq::<char>::empty(),
            },
            parent@ == match path_parent(path@) {
                Some(p) => p,
                None => Seq::<char>::empty(),
            },
        decreases 1000 - n,
    {
        let tag = decimal_string(n as u128);
        let candidate = tagged(parent.as_str(), stem.as_str(), &tag, &ext);
        let outcome = reservar(&candidate);
        if outcome != Reserva::Ocupada {
            proof {
                assert(call_ensures(reservar, (&candidate,), outcome));
                assert(candidate@ == tagged_path(path@, decimal(n as nat)));
            }
            return candidate;
        }
        proof {
            assert(call_ensures(reservar, (&candidate,), outcome));
            assert(candidate@ == tagged_path(path@, decimal(n as nat)));
            assert(answered_taken(reservar, tagged_path(path@, decimal(n as nat))));
        }
        n = n + 1;
    }
    let nanos = reloj();
    let tag = decimal_string(nanos);
    let candidate = tagged(parent.as_str(), stem.as_str(), &tag, &ext);
    let _ = reservar(&candidate);
    candidate
}

} // verus!
