//! What the engine is allowed in an account view: capturing media and
//! showing notifications, only for WhatsApp's own page.
use vstd::prelude::*;
use crate::text::str_eq;

verus! {

/// The only origin allowed to notify.
pub const NOTIFICATION_SCHEME: &'static str = "https";

pub const NOTIFICATION_HOST: &'static str = "web.whatsapp.com";

pub const NOTIFICATION_PORT: u16 = 443;

/// Does the engine's question about a permission get a "granted"? Only for
/// `notifications`, and only from WhatsApp's origin; other permissions are
/// left unanswered so that they follow their usual path.
pub fn notification_query_granted(name: &str, protocol: Option<&str>, host: Option<&str>) -> (b:
    bool)
    ensures
        b == (name@ == "notifications"@ && protocol.deep_view() == Some(NOTIFICATION_SCHEME@)
            && host.deep_view() == Some(NOTIFICATION_HOST@)),
{
    if !str_eq(name, "notifications") {
        return false;
    }
    let protocol_ok = match protocol {
        Some(p) => str_eq(p, NOTIFICATION_SCHEME),
        None => false,
    };
    let host_ok = match host {
        Some(h) => str_eq(h, NOTIFICATION_HOST),
        None => false,
    };
    protocol_ok && host_ok
}

/// A permission a page asks for.
#[derive(PartialEq, Eq, Structural, Clone, Copy, Debug)]
pub enum PermissionKind {
    /// Camera and microphone.
    UserMedia,
    Notification,
    /// Anything else (the location, for instance).
    Other,
}

/// Camera, microphone and notifications are what WhatsApp needs; anything
/// else is left for the engine to deny.
pub fn permission_allowed(kind: PermissionKind) -> (b: bool)
    ensures
        b == (kind != PermissionKind::Other),
{
    match kind {
        PermissionKind::UserMedia => true,
        PermissionKind::Notification => true,
        PermissionKind::Other => false,
    }
}

/// The identifier bytes `MediaSession`: the engine feature switched off. It
/// registers a media player on the desktop for every sound and video and
/// never removes it.
pub open spec fn is_media_session(id: Seq<u8>) -> bool {
    id == seq![77u8, 101, 100, 105, 97, 83, 101, 115, 115, 105, 111, 110]
}

/// An identifier given by the engine that names the media session.
pub open spec fn names_media_session(id: Option<Vec<u8>>) -> bool {
    match id {
        Some(w) => is_media_session(w@),
        None => false,
    }
}

fn bytes_eq_media_session(id: &Vec<u8>) -> (b: bool)
    ensures
        b == is_media_session(id@),
{
    let expected: [u8; 12] = [77u8, 101, 100, 105, 97, 83, 101, 115, 115, 105, 111, 110];
    if id.len() != 12 {
        return false;
    }
    let mut i: usize = 0;
    while i < 12
        invariant
            id@.len() == 12,
            i <= 12,
            expected@ == seq![77u8, 101, 100, 105, 97, 83, 101, 115, 115, 105, 111, 110],
            forall|k: int| 0 <= k < i ==> id@[k] == expected@[k],
        decreases 12 - i,
    {
        if id[i] != expected[i] {
            return false;
        }
        i = i + 1;
    }
    assert(id@ =~= expected@);
    true
}

/// Which of the engine's features (by their identifiers, `None` where the
/// engine gave none) is the media session: the first one so named.
pub fn media_session_feature(identifiers: &Vec<Option<Vec<u8>>>) -> (r: Option<usize>)
    ensures
        r matches Some(i) ==> i < identifiers@.len() && names_media_session(identifiers@[i as int])
            && forall|k: int| 0 <= k < i ==> !names_media_session(#[trigger] identifiers@[k]),
        r is None ==> forall|k: int|
            0 <= k < identifiers@.len() ==> !names_media_session(#[trigger] identifiers@[k]),
{
    let mut i: usize = 0;
    while i < identifiers.len()
        invariant
            i <= identifiers@.len(),
            forall|k: int| 0 <= k < i ==> !names_media_session(#[trigger] identifiers@[k]),
        decreases identifiers.len() - i,
    {
        match &identifiers[i] {
            Some(v) => {
                if bytes_eq_media_session(v) {
                    return Some(i);
                }
            },
            None => {},
        }
        i = i + 1;
    }
    None
}

/// Where to load the view again after the web process it asked to restart
/// is back: where it was going, unless it was going nowhere yet.
pub fn restart_target(uri: Option<&str>) -> (r: Option<String>)
    ensures
        r.deep_view() == match uri {
            Some(u) => if u@.len() > 0 {
                Some(u@)
            } else {
                None
            },
            None => None,
        },
{
    match uri {
        Some(u) => if u.is_empty() {
            None
        } else {
            Some(String::from_str(u))
        },
        None => None,
    }
}

} // verus!
