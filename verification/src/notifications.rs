//! Desktop notifications: what is asked of the notification server, and
//! which account each notification on screen belongs to, so that clicking it
//! opens that account.
//!
//! Every call goes through one connection that lives as long as the
//! application: GNOME ties a notification's source to the sender's D-Bus
//! name and drops it when that name goes away.
use vstd::prelude::*;
use std::collections::HashMap;

verus! {

broadcast use vstd::std_specs::hash::group_hash_axioms;

/// Name of the application for the notification server.
pub const APP_NAME: &'static str = "Wrusp";

/// Icon of the notifications.
pub const APP_ICON: &'static str = "wrusp";

/// The desktop file, named without its `.desktop` suffix as the
/// specification asks.
pub const DESKTOP_ENTRY: &'static str = "Wrusp";

pub const NOTIFICATIONS_BUS: &'static str = "org.freedesktop.Notifications";

pub const NOTIFICATIONS_PATH: &'static str = "/org/freedesktop/Notifications";

/// The kind of message, for the server's policies.
pub const CATEGORY: &'static str = "im.received";

/// The sound the server plays.
pub const SOUND_NAME: &'static str = "message-new-instant";

/// The action a click on the notification triggers, and its label.
pub const DEFAULT_ACTION: &'static str = "default";

pub const DEFAULT_ACTION_LABEL: &'static str = "Abrir";

/// The signals the listener subscribes to.
pub const MATCH_RULE: &'static str = "type='signal',interface='org.freedesktop.Notifications',member='ActionInvoked'";

/// The notifications on screen, by the id the server gave them, with the
/// account each one came from.
pub struct Shown {
    accounts: HashMap<u32, String>,
}

impl Shown {
    /// Account id of each notification on screen.
    pub closed spec fn view(&self) -> Map<u32, Seq<char>> {
        self.accounts@.map_values(|a: String| a@)
    }

    /// None yet.
    pub fn new() -> (s: Self)
        ensures
            s.view() == Map::<u32, Seq<char>>::empty(),
    {
        let s = Shown { accounts: HashMap::new() };
        assert(s.view() =~= Map::<u32, Seq<char>>::empty());
        s
    }

    /// The server showed notification `id` for the account `account_id`.
    pub fn sent(&mut self, id: u32, account_id: String)
        ensures
            final(self).view() == old(self).view().insert(id, account_id@),
    {
        let ghost a = account_id@;
        self.accounts.insert(id, account_id);
        assert(self.view() =~= old(self).view().insert(id, a));
    }

    /// Forgets notification `id`, answering the account it belonged to.
    pub fn take(&mut self, id: u32) -> (r: Option<String>)
        ensures
            final(self).view() == old(self).view().remove(id),
            old(self).view().contains_key(id) ==> (r matches Some(a) && a@ == old(self).view()[id]),
            !old(self).view().contains_key(id) ==> r is None,
    {
        let r = self.accounts.remove(&id);
        assert(self.view() =~= old(self).view().remove(id));
        r
    }
}

/// A signal of the notification server.
pub enum Signal {
    /// The user clicked notification `id`.
    ActionInvoked(u32),
    /// Notification `id` went away.
    NotificationClosed(u32),
    /// Anything else.
    Other,
}

/// Follows a signal of the server: a click answers the account to open and
/// forgets the notification, a closed notification is forgotten, and
/// anything else changes nothing.
pub fn on_signal(shown: &mut Shown, signal: Signal) -> (to_open: Option<String>)
    ensures
        match signal {
            Signal::ActionInvoked(id) => final(shown).view() == old(shown).view().remove(id) && (
            if old(shown).view().contains_key(id) {
                to_open matches Some(a) && a@ == old(shown).view()[id]
            } else {
                to_open is None
            }),
            Signal::NotificationClosed(id) => final(shown).view() == old(shown).view().remove(id)
                && to_open is None,
            Signal::Other => final(shown).view() == old(shown).view() && to_open is None,
        },
{
    match signal {
        Signal::ActionInvoked(id) => shown.take(id),
        Signal::NotificationClosed(id) => {
            let _ = shown.take(id);
            None
        },
        Signal::Other => None,
    }
}

/// A click opens the account its notification came from, once: the
/// notification is forgotten, so a second click on the same id opens
/// nothing, and no other notification is affected.
pub proof fn lemma_click_opens_its_account(shown: Map<u32, Seq<char>>, id: u32, account: Seq<char>, other: u32)
    requires
        other != id,
    ensures
        shown.insert(id, account).contains_key(id),
        shown.insert(id, account)[id] == account,
        !shown.insert(id, account).remove(id).contains_key(id),
        shown.insert(id, account).remove(id).contains_key(other) == shown.contains_key(other),
        shown.contains_key(other) ==> shown.insert(id, account).remove(id)[other] == shown[other],
{
}

} // verus!
