//! Which addresses may be followed, and where.
//!
//! An account view must not turn into a general browser (it holds the camera
//! and the microphone), the settings page may only open the project's own
//! pages, and links from chats leave for the desktop's browser only when they
//! are `http` or `https`. Every decision is taken on the address as the `url`
//! crate understands it, never on its text.
use vstd::prelude::*;
use crate::text::{chars_of, str_eq};

verus! {

/// An address as the `url` crate parsed it: its serialisation, scheme,
/// user name, password, host, port (the scheme's default when none is
/// written) and path.
pub struct UrlParts {
    pub serialization: String,
    pub scheme: String,
    pub username: String,
    pub password: Option<String>,
    pub host: Option<String>,
    pub port: Option<u16>,
    pub path: String,
}

/// The parts of a parsed address, as plain values.
pub type UrlModel = (
    Seq<char>,
    Seq<char>,
    Seq<char>,
    Option<Seq<char>>,
    Option<Seq<char>>,
    Option<u16>,
    Seq<char>,
);

impl UrlParts {
    pub open spec fn model(&self) -> UrlModel {
        (
            self.serialization@,
            self.scheme@,
            self.username@,
            self.password.deep_view(),
            self.host.deep_view(),
            self.port,
            self.path@,
        )
    }
}

/// What `url::Url::parse` makes of a text: `None` when it refuses it, and
/// otherwise the parts that `as_str`, `scheme`, `username`, `password`,
/// `host_str`, `port_or_known_default` and `path` read back.
pub uninterp spec fn url_parsed(s: Seq<char>) -> Option<
    (
        Seq<char>,
        Seq<char>,
        Seq<char>,
        Option<Seq<char>>,
        Option<Seq<char>>,
        Option<u16>,
        Seq<char>,
    ),
>;

/// Calls `url::Url::parse` and copies out the parts the checks read; the
/// result is named `url_parsed`.
#[verifier::external_body]
fn parse_with_url_crate(s: &str) -> (r: Option<UrlParts>)
    ensures
        r.is_some() == url_parsed(s@).is_some(),
        r matches Some(u) ==> url_parsed(s@) == Some(u.model()),
{
    match url::Url::parse(s) {
        Ok(u) => Some(UrlParts {
            serialization: u.as_str().to_string(),
            scheme: u.scheme().to_string(),
            username: u.username().to_string(),
            password: u.password().map(String::from),
            host: u.host_str().map(String::from),
            port: u.port_or_known_default(),
            path: u.path().to_string(),
        }),
        Err(_) => None,
    }
}

impl UrlParts {
    /// Parses an address the way `url::Url` does.
    pub fn parse(s: &str) -> (r: Option<UrlParts>)
        ensures
            r.is_some() == url_parsed(s@).is_some(),
            r matches Some(u) ==> url_parsed(s@) == Some(u.model()),
    {
        parse_with_url_crate(s)
    }
}

/// Does `s` end with `suffix`?
pub open spec fn ends_with(s: Seq<char>, suffix: Seq<char>) -> bool {
    s.len() >= suffix.len() && s.subrange(s.len() - suffix.len(), s.len() as int) == suffix
}

/// Does `s` start with `prefix`?
pub open spec fn starts_with(s: Seq<char>, prefix: Seq<char>) -> bool {
    s.len() >= prefix.len() && s.subrange(0, prefix.len() as int) == prefix
}

fn ends_with_str(s: &str, suffix: &str) -> (b: bool)
    ensures
        b == ends_with(s@, suffix@),
{
    let a = chars_of(s);
    let b = chars_of(suffix);
    if a.len() < b.len() {
        return false;
    }
    let off = a.len() - b.len();
    let mut i: usize = 0;
    while i < b.len()
        invariant
            a@ == s@,
            b@ == suffix@,
            off == a.len() - b.len(),
            i <= b.len(),
            forall|k: int| 0 <= k < i ==> a@[off + k] == b@[k],
        decreases b.len() - i,
    {
        if a[off + i] != b[i] {
            assert(s@.subrange(off as int, s@.len() as int)[i as int] != suffix@[i as int]);
            return false;
        }
        i = i + 1;
    }
    assert(s@.subrange(off as int, s@.len() as int) =~= suffix@);
    true
}

pub(crate) fn starts_with_str(s: &str, prefix: &str) -> (b: bool)
    ensures
        b == starts_with(s@, prefix@),
{
    let a = chars_of(s);
    let b = chars_of(prefix);
    if a.len() < b.len() {
        return false;
    }
    let mut i: usize = 0;
    while i < b.len()
        invariant
            a@ == s@,
            b@ == prefix@,
            b.len() <= a.len(),
            i <= b.len(),
            forall|k: int| 0 <= k < i ==> a@[k] == b@[k],
        decreases b.len() - i,
    {
        if a[i] != b[i] {
            assert(s@.subrange(0, prefix@.len() as int)[i as int] != prefix@[i as int]);
            return false;
        }
        i = i + 1;
    }
    assert(s@.subrange(0, prefix@.len() as int) =~= prefix@);
    true
}

/// The host, or nothing when the address has none.
pub open spec fn host_or_empty(u: UrlModel) -> Seq<char> {
    match u.4 {
        Some(h) => h,
        None => Seq::empty(),
    }
}

/// WhatsApp Web itself, or the infrastructure it loads in frames
/// (`*.whatsapp.net`: the PDF viewer, the cache maintenance), over `https`
/// on its usual port; and the empty page.
pub open spec fn whatsapp_page(u: UrlModel) -> bool {
    ||| u.0 == "about:blank"@
    ||| (u.1 == "https"@ && u.5 == Some(443u16) && (host_or_empty(u) == "web.whatsapp.com"@
        || ends_with(host_or_empty(u), ".whatsapp.net"@)))
}

/// Where an account view may go: WhatsApp's own pages, and the `blob:`
/// addresses those pages create (that is how a chat hands out a file to
/// download). A `blob:` is judged by the origin written inside it, which may
/// not itself be another `blob:`.
pub open spec fn navigation_allowed(u: UrlModel) -> bool {
    if u.0 == "about:blank"@ {
        true
    } else if u.1 == "blob"@ {
        match url_parsed(u.6) {
            Some(origin) => origin.1 != "blob"@ && whatsapp_page(origin),
            None => false,
        }
    } else {
        whatsapp_page(u)
    }
}

fn host_text(u: &UrlParts) -> (h: &str)
    ensures
        h@ == host_or_empty(u.model()),
{
    match &u.host {
        Some(h) => h.as_str(),
        None => {
            proof {
                reveal_strlit("");
            }
            ""
        },
    }
}

fn is_whatsapp_page(u: &UrlParts) -> (b: bool)
    ensures
        b == whatsapp_page(u.model()),
{
    if str_eq(u.serialization.as_str(), "about:blank") {
        return true;
    }
    if str_eq(u.scheme.as_str(), "https") && u.port == Some(443u16) {
        let host = host_text(u);
        if str_eq(host, "web.whatsapp.com") || ends_with_str(host, ".whatsapp.net") {
            return true;
        }
    }
    false
}

/// Limits the top-level navigations of an account view. WhatsApp's own
/// resources may still come from its CDNs; what is refused is turning a view
/// that holds the camera and the microphone into a general browser.
pub fn account_navigation_allowed(url: &UrlParts) -> (b: bool)
    ensures
        b == navigation_allowed(url.model()),
{
    if str_eq(url.serialization.as_str(), "about:blank") {
        return true;
    }
    if str_eq(url.scheme.as_str(), "blob") {
        return match UrlParts::parse(url.path.as_str()) {
            Some(origin) => !str_eq(origin.scheme.as_str(), "blob") && is_whatsapp_page(&origin),
            None => false,
        };
    }
    is_whatsapp_page(url)
}

/// The project's repository, where the settings page may send the user.
pub const REPOSITORY_PATH: &'static str = "/Aleixenandros/Wrusp";

/// May the settings page ask to open this address? Only pages of the
/// project's repository on `github.com`, over `https` on its usual port,
/// without credentials in the address. The parsed address is compared, not
/// its text: `…/Wrusp-falso` and `…/Wrusp.evil.com` are other places.
pub open spec fn external_allowed(s: Seq<char>) -> bool {
    match url_parsed(s) {
        None => false,
        Some(u) => {
            &&& u.1 == "https"@
            &&& u.5 == Some(443u16)
            &&& u.2.len() == 0
            &&& u.3 is None
            &&& u.4 == Some("github.com"@)
            &&& (u.6 == REPOSITORY_PATH@ || starts_with(u.6, REPOSITORY_PATH@ + "/"@))
        },
    }
}

/// Decides whether the settings page may open `url` in the browser.
pub fn external_url_allowed(url: &str) -> (b: bool)
    ensures
        b == external_allowed(url@),
{
    let u = match UrlParts::parse(url) {
        Some(u) => u,
        None => return false,
    };
    if !str_eq(u.scheme.as_str(), "https") || u.port != Some(443u16) {
        return false;
    }
    if !u.username.as_str().is_empty() || u.password.is_some() {
        return false;
    }
    let host_ok = match &u.host {
        Some(h) => str_eq(h.as_str(), "github.com"),
        None => false,
    };
    if !host_ok {
        return false;
    }
    let mut prefix = String::from_str(REPOSITORY_PATH);
    prefix.push('/');
    proof {
        assert(prefix@ == REPOSITORY_PATH@ + "/"@) by {
            reveal_strlit("/");
            assert(prefix@ =~= REPOSITORY_PATH@ + "/"@);
        }
    }
    str_eq(u.path.as_str(), REPOSITORY_PATH) || starts_with_str(u.path.as_str(), prefix.as_str())
}

/// The answer to the settings page when it asks for another address.
pub const NOT_ALLOWED: &'static str = "Dirección no permitida";

/// What opening an address from the settings page answers before the
/// browser is started: nothing when it is allowed, the refusal otherwise.
pub fn open_external(url: &str) -> (r: Result<(), String>)
    ensures
        external_allowed(url@) ==> r is Ok,
        !external_allowed(url@) ==> (r matches Err(e) && e@ == NOT_ALLOWED@),
{
    if external_url_allowed(url) {
        Ok(())
    } else {
        Err(String::from_str(NOT_ALLOWED))
    }
}

/// A link from a chat reaches the desktop only when it is `http` or `https`:
/// `file://` or `javascript:` from a remote page must never get there.
pub fn opens_in_browser(url: &UrlParts) -> (b: bool)
    ensures
        b == (url.scheme@ == "http"@ || url.scheme@ == "https"@),
{
    str_eq(url.scheme.as_str(), "http") || str_eq(url.scheme.as_str(), "https")
}

} // verus!
