//! The single window and its stack of views: which view is shown, what each
//! account has unread, which commands a view may give, and when a message is
//! worth a desktop notification.
use vstd::prelude::*;
use crate::config::Account;
use crate::text::{
    before_first, lemma_before_first, chars_eq, chars_of, decimal, decimal_string, has_char, parse_u32, parse_u32_chars, push_chars,
    push_str, slice_chars, str_eq, string_of,
};

verus! {

pub const MAIN_WINDOW: &'static str = "main";

pub const SETTINGS_VIEW: &'static str = "settings";

/// The label of the view of an account.
pub open spec fn view_label_spec(account_id: Seq<char>) -> Seq<char> {
    "account-"@ + account_id
}

/// `account-<id>`: the label of the view of the account `id`.
pub fn view_label(account_id: &str) -> (s: String)
    ensures
        s@ == view_label_spec(account_id@),
{
    let mut s = String::from_str("account-");
    push_str(&mut s, account_id);
    s
}

/// The view visible right now: `settings` or the id of an account.
pub struct ActiveView(pub String);

/// The label of the view that should be visible: the settings page, or the
/// view of the active account.
pub fn active_view_label(active: &ActiveView) -> (s: String)
    ensures
        s@ == (if active.0@ == SETTINGS_VIEW@ {
            SETTINGS_VIEW@
        } else {
            view_label_spec(active.0@)
        }),
{
    if str_eq(active.0.as_str(), SETTINGS_VIEW) {
        String::from_str(SETTINGS_VIEW)
    } else {
        view_label(active.0.as_str())
    }
}

/// The count WhatsApp puts in front of its title, `(12) WhatsApp`; any other
/// title counts as nothing unread.
pub open spec fn title_count(title: Seq<char>) -> u32 {
    if title.len() > 0 && title[0] == '(' && has_char(title.skip(1), ')') {
        match parse_u32(before_first(title.skip(1), ')')) {
            Some(n) => n,
            None => 0,
        }
    } else {
        0
    }
}

/// Unread messages announced by a title, or zero.
pub fn unread_count_from_title(title: &str) -> (n: u32)
    ensures
        n == title_count(title@),
{
    let t = chars_of(title);
    if t.len() == 0 || t[0] != '(' {
        return 0;
    }
    let mut i: usize = 1;
    while i < t.len() && t[i] != ')'
        invariant
            1 <= i <= t.len(),
            forall|k: int| 1 <= k < i ==> t@[k] != ')',
        decreases t.len() - i,
    {
        i = i + 1;
    }
    let ghost rest = t@.skip(1);
    if i == t.len() {
        proof {
            assert forall|k: int| 0 <= k < rest.len() implies rest[k] != ')' by {
                assert(rest[k] == t@[k + 1]);
            }
        }
        return 0;
    }
    proof {
        assert(rest[i - 1] == ')');
        assert forall|k: int| 0 <= k < i - 1 implies rest[k] != ')' by {
            assert(rest[k] == t@[k + 1]);
        }
        lemma_before_first(rest, ')', i - 1);
        assert(t@.subrange(1, i as int) =~= rest.subrange(0, i - 1));
    }
    let number = slice_chars(&t, 1, i);
    match parse_u32_chars(&number) {
        Some(n) => n,
        None => 0,
    }
}

/// Whatever number WhatsApp writes in front of its title, however large,
/// is the count read: a title `(n)` followed by anything gives `n`.
pub proof fn lemma_title_count_reads_the_number(n: u32, rest: Seq<char>)
    ensures
        title_count(seq!['('] + crate::text::decimal(n as nat) + seq![')'] + rest) == n,
{
    let d = crate::text::decimal(n as nat);
    let t = seq!['('] + d + seq![')'] + rest;
    crate::text::lemma_decimal_digits(n as nat);
    crate::text::lemma_parse_u32_decimal(n);
    let r = t.skip(1);
    assert(r =~= d + seq![')'] + rest);
    assert(r[d.len() as int] == ')');
    assert forall|k: int| 0 <= k < d.len() implies r[k] != ')' by {
        assert(r[k] == d[k]);
        assert(crate::text::is_digit(d[k]));
    }
    lemma_before_first(r, ')', d.len() as int);
    assert(r.subrange(0, d.len() as int) =~= d);
    assert(has_char(r, ')'));
}

/// May the view `origin` update the unread count of the account `id`? Only
/// its own.
pub fn unread_order_authorized(origin: &str, id: &str) -> (b: bool)
    ensures
        b == (origin@ == view_label_spec(id@)),
{
    let label = view_label(id);
    str_eq(origin, label.as_str())
}

/// A notification is redundant only when the window has the focus and the
/// user is looking at the account that produced it.
pub fn notification_is_redundant(window_focused: bool, active_account: &str, account_id: &str) -> (b:
    bool)
    ensures
        b == (window_focused && active_account@ == account_id@),
{
    window_focused && str_eq(active_account, account_id)
}

/// The wrapper that keeps a failing start-up script from stopping the next.
pub open spec fn isolated_text(script: Seq<char>) -> Seq<char> {
    if script.len() == 0 {
        script
    } else {
        "try {\n"@ + script
            + "\n} catch (e) { console.error('wrusp: falló un script de arranque', e); }"@
    }
}

/// Isolates a start-up script so that its failure neither leaves the view
/// half done nor stops the scripts after it.
pub fn aislado(script: String) -> (s: String)
    ensures
        s@ == isolated_text(script@),
{
    if script.as_str().is_empty() {
        return script;
    }
    let mut s = String::from_str("try {\n");
    push_str(&mut s, script.as_str());
    push_str(&mut s, "\n} catch (e) { console.error('wrusp: falló un script de arranque', e); }");
    s
}

// ───────────────────────────── unread counts ─────────────────────────────

/// Unread messages per account id.
pub struct Unread {
    entries: Vec<(String, u32)>,
}

impl Unread {
    /// No id appears twice.
    #[verifier::type_invariant]
    spec fn wf(&self) -> bool {
        forall|i: int, j: int|
            0 <= i < j < self.entries@.len() ==> self.entries@[i].0@ != self.entries@[j].0@
    }

    /// The counts, by account id.
    pub closed spec fn view(&self) -> Map<Seq<char>, u32> {
        Map::new(
            |k: Seq<char>| exists|i: int| 0 <= i < self.entries@.len() && self.entries@[i].0@ == k,
            |k: Seq<char>|
                self.entries@[choose|i: int|
                    0 <= i < self.entries@.len() && self.entries@[i].0@ == k].1,
        )
    }

    /// Nothing counted yet.
    pub fn new() -> (u: Self)
        ensures
            u.view() == Map::<Seq<char>, u32>::empty(),
    {
        let u = Unread { entries: Vec::new() };
        assert(u.view() =~= Map::<Seq<char>, u32>::empty());
        u
    }

    fn find(&self, id: &str) -> (r: Option<usize>)
        requires
            self.wf(),
        ensures
            r is None ==> !self.view().contains_key(id@),
            r matches Some(i) ==> i < self.entries@.len() && self.entries@[i as int].0@ == id@
                && self.view().contains_key(id@) && self.view()[id@] == self.entries@[i as int].1,
    {
        let mut i: usize = 0;
        while i < self.entries.len()
            invariant
                self.wf(),
                i <= self.entries@.len(),
                forall|k: int| 0 <= k < i ==> self.entries@[k].0@ != id@,
            decreases self.entries.len() - i,
        {
            if str_eq(self.entries[i].0.as_str(), id) {
                proof {
                    let j = choose|j: int|
                        0 <= j < self.entries@.len() && self.entries@[j].0@ == id@;
                    if j != i {
                        if j < i {
                        } else {
                            assert(self.entries@[i as int].0@ != self.entries@[j].0@);
                        }
                    }
                }
                return Some(i);
            }
            i = i + 1;
        }
        None
    }

    /// The count of `id`, if one was recorded.
    pub fn get(&self, id: &str) -> (r: Option<u32>)
        ensures
            r == (if self.view().contains_key(id@) {
                Some(self.view()[id@])
            } else {
                None
            }),
    {
        proof {
            use_type_invariant(self);
        }
        match self.find(id) {
            Some(i) => Some(self.entries[i].1),
            None => None,
        }
    }

    /// Records `count` for `id`. Answers whether anything changed: setting
    /// the count it already has is a no-op.
    pub fn set(&mut self, id: &str, count: u32) -> (changed: bool)
        ensures
            final(self).view() == old(self).view().insert(id@, count),
            changed == !(old(self).view().contains_key(id@) && old(self).view()[id@] == count),
    {
        proof {
            use_type_invariant(&*self);
        }
        match self.find(id) {
            Some(i) => {
                if self.entries[i].1 == count {
                    assert(self.view().insert(id@, count) =~= self.view());
                    return false;
                }
                let ghost before = self.entries@;
                let key = self.entries[i].0.clone();
                let mut entries: Vec<(String, u32)> = Vec::new();
                std::mem::swap(&mut entries, &mut self.entries);
                entries.set(i, (key, count));
                proof {
                    assert(forall|k: int|
                        0 <= k < entries@.len() ==> entries@[k].0@ == before[k].0@);
                }
                self.entries = entries;
                proof {
                    assert(forall|k: int|
                        0 <= k < self.entries@.len() ==> self.entries@[k].0@ == before[k].0@);
                    assert forall|k: Seq<char>| #![auto]
                        self.view().contains_key(k) == old(self).view().insert(
                            id@,
                            count,
                        ).contains_key(k) by {
                        if self.view().contains_key(k) {
                            let j = choose|j: int|
                                0 <= j < self.entries@.len() && self.entries@[j].0@ == k;
                            assert(before[j].0@ == k);
                        }
                        if old(self).view().contains_key(k) {
                            let j = choose|j: int| 0 <= j < before.len() && before[j].0@ == k;
                            assert(self.entries@[j].0@ == k);
                        }
                    }
                    assert forall|k: Seq<char>| #[trigger]
                        self.view().contains_key(k) implies self.view()[k] == old(
                        self,
                    ).view().insert(id@, count)[k] by {
                        let j = choose|j: int|
                            0 <= j < self.entries@.len() && self.entries@[j].0@ == k;
                        if k == id@ {
                            if j != i {
                                if j < i {
                                    assert(before[j].0@ != before[i as int].0@);
                                } else {
                                    assert(before[i as int].0@ != before[j].0@);
                                }
                            }
                        } else {
                            let j0 = choose|j0: int| 0 <= j0 < before.len() && before[j0].0@ == k;
                            if j != j0 {
                                if j < j0 {
                                    assert(before[j].0@ != before[j0].0@);
                                } else {
                                    assert(before[j0].0@ != before[j].0@);
                                }
                            }
                        }
                    }
                    assert(self.view() =~= old(self).view().insert(id@, count));
                }
                true
            },
            None => {
                let ghost before = self.entries@;
                let key = String::from_str(id);
                let mut entries: Vec<(String, u32)> = Vec::new();
                std::mem::swap(&mut entries, &mut self.entries);
                entries.push((key, count));
                proof {
                    assert forall|k: int| 0 <= k < before.len() implies before[k].0@ != id@ by {
                        if before[k].0@ == id@ {
                            assert(old(self).view().contains_key(id@));
                        }
                    }
                    assert(entries@[before.len() as int].0@ == id@);
                }
                self.entries = entries;
                proof {
                    assert forall|k: Seq<char>| #![auto]
                        self.view().contains_key(k) == old(self).view().insert(
                            id@,
                            count,
                        ).contains_key(k) by {
                        if self.view().contains_key(k) && k != id@ {
                            let j = choose|j: int|
                                0 <= j < self.entries@.len() && self.entries@[j].0@ == k;
                            assert(j < before.len());
                            assert(before[j].0@ == k);
                        }
                        if k == id@ {
                            assert(self.entries@[before.len() as int].0@ == k);
                        }
                        if old(self).view().contains_key(k) {
                            let j = choose|j: int| 0 <= j < before.len() && before[j].0@ == k;
                            assert(self.entries@[j].0@ == k);
                        }
                    }
                    assert forall|k: Seq<char>| #[trigger]
                        self.view().contains_key(k) implies self.view()[k] == old(
                        self,
                    ).view().insert(id@, count)[k] by {
                        let j = choose|j: int|
                            0 <= j < self.entries@.len() && self.entries@[j].0@ == k;
                        if k == id@ {
                            assert(j == before.len());
                        } else {
                            let j0 = choose|j0: int| 0 <= j0 < before.len() && before[j0].0@ == k;
                            assert(self.entries@[j0] == before[j0]);
                            if j != j0 {
                                if j < j0 {
                                    assert(before[j].0@ != before[j0].0@);
                                } else if j < before.len() {
                                    assert(before[j0].0@ != before[j].0@);
                                }
                            }
                        }
                    }
                    assert(self.view() =~= old(self).view().insert(id@, count));
                }
                true
            },
        }
    }
}

/// The count of an account: what was recorded, or zero.
pub open spec fn count_of(unread: Map<Seq<char>, u32>, id: Seq<char>) -> nat {
    if unread.contains_key(id) {
        unread[id] as nat
    } else {
        0
    }
}

/// Unread messages over the accounts `ids`.
pub open spec fn unread_sum(ids: Seq<Seq<char>>, unread: Map<Seq<char>, u32>) -> nat
    decreases ids.len(),
{
    if ids.len() == 0 {
        0
    } else {
        unread_sum(ids.drop_last(), unread) + count_of(unread, ids.last())
    }
}

/// The ids of some accounts, in order.
pub open spec fn ids_of(accounts: Seq<Account>) -> Seq<Seq<char>> {
    accounts.map_values(|a: Account| a.id@)
}

/// Total of unread messages over all the accounts.
pub fn total_unread(accounts: &Vec<Account>, unread: &Unread) -> (n: u32)
    requires
        unread_sum(ids_of(accounts@), unread.view()) <= u32::MAX,
    ensures
        n == unread_sum(ids_of(accounts@), unread.view()),
{
    let mut total: u32 = 0;
    let mut i: usize = 0;
    while i < accounts.len()
        invariant
            i <= accounts@.len(),
            unread_sum(ids_of(accounts@), unread.view()) <= u32::MAX,
            total == unread_sum(ids_of(accounts@).take(i as int), unread.view()),
        decreases accounts.len() - i,
    {
        let n = match unread.get(accounts[i].id.as_str()) {
            Some(n) => n,
            None => 0,
        };
        proof {
            let ids = ids_of(accounts@);
            assert(ids.take(i + 1).drop_last() =~= ids.take(i as int));
            lemma_unread_sum_prefix(ids, i + 1, unread.view());
        }
        total = total + n;
        i = i + 1;
    }
    proof {
        assert(ids_of(accounts@).take(i as int) =~= ids_of(accounts@));
    }
    total
}

proof fn lemma_unread_sum_prefix(ids: Seq<Seq<char>>, i: int, unread: Map<Seq<char>, u32>)
    requires
        0 <= i <= ids.len(),
    ensures
        unread_sum(ids.take(i), unread) <= unread_sum(ids, unread),
    decreases ids.len() - i,
{
    if i < ids.len() {
        lemma_unread_sum_prefix(ids.drop_last(), i, unread);
        assert(ids.drop_last().take(i) =~= ids.take(i));
    } else {
        assert(ids.take(i) =~= ids);
    }
}

// ───────────────────────────── zoom ─────────────────────────────

/// Zoom limits, in hundredths, so that the view stays usable.
pub const ZOOM_MIN: u32 = 50;
pub const ZOOM_MAX: u32 = 250;
pub const ZOOM_STEP: u32 = 10;

/// One zoom step (`in`, `out`; anything else resets) from `current`.
pub open spec fn zoom_after_spec(current: u32, step: Seq<char>) -> u32 {
    if step == "in"@ {
        if current + ZOOM_STEP <= ZOOM_MAX {
            (current + ZOOM_STEP) as u32
        } else {
            ZOOM_MAX
        }
    } else if step == "out"@ {
        if current >= ZOOM_MIN + ZOOM_STEP {
            (current - ZOOM_STEP) as u32
        } else {
            ZOOM_MIN
        }
    } else {
        100
    }
}

/// The zoom of the active account after one step: ten hundredths in or out
/// within the limits, or back to the natural size.
pub fn zoom_after_step(current: u32, step: &str) -> (z: u32)
    ensures
        z == zoom_after_spec(current, step@),
{
    if str_eq(step, "in") {
        if current <= ZOOM_MAX - ZOOM_STEP {
            current + ZOOM_STEP
        } else {
            ZOOM_MAX
        }
    } else if str_eq(step, "out") {
        if current >= ZOOM_MIN + ZOOM_STEP {
            current - ZOOM_STEP
        } else {
            ZOOM_MIN
        }
    } else {
        100
    }
}

// ───────────────────────────── indicators ─────────────────────────────

/// The window title: `(n) Wrusp` while something is unread.
pub open spec fn window_title_text(total: nat) -> Seq<char> {
    if total > 0 {
        "("@ + decimal(total) + ") Wrusp"@
    } else {
        "Wrusp"@
    }
}

/// `name: n` for every account with something unread, in order.
pub open spec fn unread_details(accounts: Seq<Account>, unread: Map<Seq<char>, u32>) -> Seq<
    Seq<char>,
>
    decreases accounts.len(),
{
    if accounts.len() == 0 {
        Seq::empty()
    } else {
        let rest = unread_details(accounts.drop_last(), unread);
        let a = accounts.last();
        if count_of(unread, a.id@) > 0 {
            rest.push(a.name@ + ": "@ + decimal(count_of(unread, a.id@)))
        } else {
            rest
        }
    }
}

/// The pieces joined with `sep` between each two.
pub open spec fn joined(parts: Seq<Seq<char>>, sep: Seq<char>) -> Seq<char>
    decreases parts.len(),
{
    if parts.len() == 0 {
        Seq::empty()
    } else if parts.len() == 1 {
        parts[0]
    } else {
        joined(parts.drop_last(), sep) + sep + parts.last()
    }
}

/// The tray tooltip: the breakdown per account, or that nothing is new.
pub open spec fn tooltip_text(details: Seq<Seq<char>>) -> Seq<char> {
    if details.len() == 0 {
        "Wrusp — sin mensajes nuevos"@
    } else {
        "Wrusp — "@ + joined(details, " · "@)
    }
}

/// The window title and the tray tooltip for the unread counts: the total in
/// the title, the breakdown per account in the tooltip.
pub fn unread_indicators(accounts: &Vec<Account>, unread: &Unread) -> (r: (String, String))
    requires
        unread_sum(ids_of(accounts@), unread.view()) <= u32::MAX,
    ensures
        r.0@ == window_title_text(unread_sum(ids_of(accounts@), unread.view())),
        r.1@ == tooltip_text(unread_details(accounts@, unread.view())),
{
    let total = total_unread(accounts, unread);
    let title = if total > 0 {
        let mut t = String::from_str("(");
        let d = decimal_string(total as u128);
        push_str(&mut t, d.as_str());
        push_str(&mut t, ") Wrusp");
        t
    } else {
        String::from_str("Wrusp")
    };
    let mut detail: Vec<char> = Vec::new();
    let ghost mut parts: Seq<Seq<char>> = Seq::empty();
    let mut i: usize = 0;
    while i < accounts.len()
        invariant
            i <= accounts@.len(),
            parts == unread_details(accounts@.take(i as int), unread.view()),
            detail@ == joined(parts, " · "@),
            (parts.len() == 0) == (detail@.len() == 0),
            forall|k: int| 0 <= k < parts.len() ==> (#[trigger] parts[k]).len() > 0,
        decreases accounts.len() - i,
    {
        let a = &accounts[i];
        let n = match unread.get(a.id.as_str()) {
            Some(n) => n,
            None => 0,
        };
        proof {
            assert(accounts@.take(i + 1).drop_last() =~= accounts@.take(i as int));
            assert(accounts@.take(i + 1).last() == accounts@[i as int]);
        }
        if n > 0 {
            let mut linea = String::from_str(a.name.as_str());
            push_str(&mut linea, ": ");
            let d = decimal_string(n as u128);
            push_str(&mut linea, d.as_str());
            let piece = chars_of(linea.as_str());
            proof {
                crate::text::lemma_decimal_len(n as nat);
                assert(piece@.len() > 0);
            }
            let ghost old_parts = parts;
            if detail.len() > 0 {
                let sep = chars_of(" · ");
                let ghost before = detail@;
                let mut k: usize = 0;
                while k < sep.len()
                    invariant
                        k <= sep.len(),
                        detail@ == before + sep@.take(k as int),
                    decreases sep.len() - k,
                {
                    detail.push(sep[k]);
                    k = k + 1;
                    assert(detail@ =~= before + sep@.take(k as int));
                }
                assert(sep@.take(sep.len() as int) =~= sep@);
            }
            let ghost before = detail@;
            let mut k: usize = 0;
            while k < piece.len()
                invariant
                    k <= piece.len(),
                    detail@ == before + piece@.take(k as int),
                decreases piece.len() - k,
            {
                detail.push(piece[k]);
                k = k + 1;
                assert(detail@ =~= before + piece@.take(k as int));
            }
            proof {
                assert(piece@.take(piece.len() as int) =~= piece@);
                parts = parts.push(piece@);
                if old_parts.len() == 0 {
                    assert(detail@ =~= piece@);
                    assert(parts.drop_last() =~= old_parts);
                } else {
                    assert(parts.drop_last() =~= old_parts);
                }
                assert(parts[parts.len() - 1] == piece@);
            }
        }
        i = i + 1;
    }
    proof {
        assert(accounts@.take(i as int) =~= accounts@);
    }
    let tooltip = if detail.len() == 0 {
        String::from_str("Wrusp — sin mensajes nuevos")
    } else {
        let mut t = String::from_str("Wrusp — ");
        push_chars(&mut t, &detail);
        t
    };
    (title, tooltip)
}

// ───────────────────────────── notifications ─────────────────────────────

/// The first account with the id `id`, if any.
pub open spec fn first_account(accounts: Seq<Account>, id: Seq<char>) -> Option<int> {
    if exists|i: int| 0 <= i < accounts.len() && accounts[i].id@ == id {
        Some(
            choose|i: int|
                0 <= i < accounts.len() && accounts[i].id@ == id && forall|j: int|
                    0 <= j < i ==> accounts[j].id@ != id,
        )
    } else {
        None
    }
}

/// What to show for a message of `account_id`, as (title, body), or `None`
/// when nothing should be shown: notifications off, the account silenced, or
/// the user looking at that very account.
pub open spec fn notification_plan(
    cfg: crate::config::AppConfig,
    focused: bool,
    active: Seq<char>,
    account_id: Seq<char>,
    title: Seq<char>,
    body: Seq<char>,
) -> Option<(Seq<char>, Seq<char>)> {
    let accs = cfg.accounts@;
    let found = first_account(accs, account_id);
    if !cfg.notifications {
        None
    } else if found matches Some(i) && accs[i].muted {
        None
    } else if focused && active == account_id {
        None
    } else {
        let t = match found {
            Some(i) => if accs.len() > 1 {
                title + " · "@ + accs[i].name@
            } else {
                title
            },
            None => title,
        };
        let b = if cfg.notification_privacy {
            "Nuevo mensaje"@
        } else {
            body
        };
        Some((t, b))
    }
}

/// A message becomes a notification unless notifications are off, its
/// account is silenced, or the user is looking at that very account: the
/// focus of the window alone never drops the message of another account.
/// What is shown is the sender's title (followed by the account's name when
/// there are several accounts) and the body, or a fixed text in private mode.
pub proof fn lemma_notification_dropped_only_when_redundant(
    cfg: crate::config::AppConfig,
    focused: bool,
    active: Seq<char>,
    account_id: Seq<char>,
    title: Seq<char>,
    body: Seq<char>,
)
    ensures
        active != account_id ==> notification_plan(cfg, true, active, account_id, title, body)
            == notification_plan(cfg, false, active, account_id, title, body),
        notification_plan(cfg, focused, active, account_id, title, body) is None <==> (
        !cfg.notifications || (first_account(cfg.accounts@, account_id) matches Some(i)
            && cfg.accounts@[i].muted) || (focused && active == account_id)),
        notification_plan(cfg, focused, active, account_id, title, body) matches Some((t, b)) ==> (
        t.take(title.len() as int) == title && b == (if cfg.notification_privacy {
            "Nuevo mensaje"@
        } else {
            body
        })),
{
    let accs = cfg.accounts@;
    match notification_plan(cfg, focused, active, account_id, title, body) {
        Some((t, b)) => {
            match first_account(accs, account_id) {
                Some(i) => {
                    if accs.len() > 1 {
                        assert((title + " · "@ + accs[i].name@).take(title.len() as int) =~= title);
                    } else {
                        assert(title.take(title.len() as int) =~= title);
                    }
                },
                None => {
                    assert(title.take(title.len() as int) =~= title);
                },
            }
        },
        None => {},
    }
}

pub(crate) fn find_account(accounts: &Vec<Account>, id: &str) -> (r: Option<usize>)
    ensures
        r is None ==> first_account(accounts@, id@) is None,
        r matches Some(i) ==> first_account(accounts@, id@) == Some(i as int) && i
            < accounts@.len(),
{
    let mut i: usize = 0;
    while i < accounts.len()
        invariant
            i <= accounts@.len(),
            forall|k: int| 0 <= k < i ==> accounts@[k].id@ != id@,
        decreases accounts.len() - i,
    {
        if str_eq(accounts[i].id.as_str(), id) {
            proof {
                let w = choose|w: int|
                    0 <= w < accounts@.len() && accounts@[w].id@ == id@ && forall|j: int|
                        0 <= j < w ==> accounts@[j].id@ != id@;
                assert(accounts@[i as int].id@ == id@);
                if w < i {
                } else if w > i {
                    assert(accounts@[i as int].id@ != id@);
                }
            }
            return Some(i);
        }
        i = i + 1;
    }
    None
}

/// Decides whether a message of `account_id` becomes a desktop notification,
/// and with which title and body: the account's name is added when there are
/// several, and the text is hidden in private mode.
pub fn plan_notification(
    cfg: &crate::config::AppConfig,
    window_focused: bool,
    active: &str,
    account_id: &str,
    title: &str,
    body: &str,
) -> (r: Option<(String, String)>)
    ensures
        match r {
            Some((t, b)) => notification_plan(
                *cfg,
                window_focused,
                active@,
                account_id@,
                title@,
                body@,
            ) == Some((t@, b@)),
            None => notification_plan(
                *cfg,
                window_focused,
                active@,
                account_id@,
                title@,
                body@,
            ) is None,
        },
{
    if !cfg.notifications {
        return None;
    }
    let found = find_account(&cfg.accounts, account_id);
    match found {
        Some(i) => {
            if cfg.accounts[i].muted {
                return None;
            }
        },
        None => {},
    }
    if notification_is_redundant(window_focused, active, account_id) {
        return None;
    }
    let mut t = String::from_str(title);
    match found {
        Some(i) => {
            if cfg.accounts.len() > 1 {
                push_str(&mut t, " · ");
                push_str(&mut t, cfg.accounts[i].name.as_str());
            }
        },
        None => {},
    }
    let b = if cfg.notification_privacy {
        String::from_str("Nuevo mensaje")
    } else {
        String::from_str(body)
    };
    Some((t, b))
}

// ───────────────────────────── commands from the views ─────────────────────

/// What a `wrusp://<action>/<arg>` command from a view asks for.
pub enum Orden {
    /// Show the account with this id.
    Switch(String),
    /// Show the settings page.
    Settings,
    /// Show the settings page and focus the field to add an account.
    Add,
    /// Hide the window.
    Hide,
    /// Quit.
    Quit,
    /// One zoom step (`in`, `out`, `reset`).
    Zoom(String),
    /// A line the page wants in the log (may be empty: nothing to write).
    Log(String),
    /// Paste the clipboard into the visible view.
    Paste,
    /// Save the failed medium with this id, offered by the view.
    FailedMedia(String),
    /// The view reports the unread count of its own account.
    Unread(String, u32),
    /// A view tried to set the count of another account: refused.
    UnreadRefused(String),
    /// An `unread` command without `<id>/<n>`: nothing to do.
    Nothing,
    /// An action nobody knows.
    Unknown(String),
}

/// `s` without the `/`s at its start.
pub open spec fn without_leading_slashes(s: Seq<char>) -> Seq<char>
    decreases s.len(),
{
    if s.len() > 0 && s[0] == '/' {
        without_leading_slashes(s.skip(1))
    } else {
        s
    }
}

/// `char::is_control`: the general category Cc.
pub open spec fn is_control(c: char) -> bool {
    c <= '\u{1f}' || ('\u{7f}' <= c && c <= '\u{9f}')
}

/// `s` without its control characters.
pub open spec fn without_controls(s: Seq<char>) -> Seq<char>
    decreases s.len(),
{
    if s.len() == 0 {
        s
    } else if is_control(s.last()) {
        without_controls(s.drop_last())
    } else {
        without_controls(s.drop_last()).push(s.last())
    }
}

/// What gets logged of a page's message: its first 300 characters once the
/// control characters are gone.
pub open spec fn log_line(m: Seq<char>) -> Seq<char> {
    let c = without_controls(m);
    if c.len() > 300 {
        c.take(300)
    } else {
        c
    }
}

/// The command meant by `action` and `path` (the host and the path of the
/// `wrusp://` address), sent by the view `origin`; `message` is its `m`
/// parameter, if it has one.
pub open spec fn order_for(
    origin: Seq<char>,
    action: Seq<char>,
    path: Seq<char>,
    message: Option<Seq<char>>,
) -> OrderShape {
    let arg = without_leading_slashes(path);
    if action == "switch"@ {
        OrderShape::Switch(arg)
    } else if action == "settings"@ {
        OrderShape::Settings
    } else if action == "add"@ {
        OrderShape::Add
    } else if action == "hide"@ {
        OrderShape::Hide
    } else if action == "quit"@ {
        OrderShape::Quit
    } else if action == "zoom"@ {
        OrderShape::Zoom(arg)
    } else if action == "log"@ {
        OrderShape::Log(
            match message {
                Some(m) => log_line(m),
                None => Seq::empty(),
            },
        )
    } else if action == "pegar"@ {
        OrderShape::Paste
    } else if action == "medio-fallido"@ {
        OrderShape::FailedMedia(arg)
    } else if action == "unread"@ {
        match crate::text::split_once(arg, '/') {
            None => OrderShape::Nothing,
            Some((id, n)) => if origin == view_label_spec(id) {
                OrderShape::Unread(
                    id,
                    match parse_u32(n) {
                        Some(v) => v,
                        None => 0,
                    },
                )
            } else {
                OrderShape::UnreadRefused(id)
            },
        }
    } else {
        OrderShape::Unknown(action)
    }
}

/// The shape of an `Orden`, over character sequences.
pub enum OrderShape {
    Switch(Seq<char>),
    Settings,
    Add,
    Hide,
    Quit,
    Zoom(Seq<char>),
    Log(Seq<char>),
    Paste,
    FailedMedia(Seq<char>),
    Unread(Seq<char>, u32),
    UnreadRefused(Seq<char>),
    Nothing,
    Unknown(Seq<char>),
}

impl Orden {
    pub open spec fn shape(&self) -> OrderShape {
        match self {
            Orden::Switch(s) => OrderShape::Switch(s@),
            Orden::Settings => OrderShape::Settings,
            Orden::Add => OrderShape::Add,
            Orden::Hide => OrderShape::Hide,
            Orden::Quit => OrderShape::Quit,
            Orden::Zoom(s) => OrderShape::Zoom(s@),
            Orden::Log(s) => OrderShape::Log(s@),
            Orden::Paste => OrderShape::Paste,
            Orden::FailedMedia(s) => OrderShape::FailedMedia(s@),
            Orden::Unread(s, n) => OrderShape::Unread(s@, *n),
            Orden::UnreadRefused(s) => OrderShape::UnreadRefused(s@),
            Orden::Nothing => OrderShape::Nothing,
            Orden::Unknown(s) => OrderShape::Unknown(s@),
        }
    }
}

fn strip_slashes(p: &Vec<char>) -> (r: Vec<char>)
    ensures
        r@ == without_leading_slashes(p@),
{
    let mut i: usize = 0;
    assert(p@.skip(0) =~= p@);
    while i < p.len() && p[i] == '/'
        invariant
            i <= p.len(),
            without_leading_slashes(p@) == without_leading_slashes(p@.skip(i as int)),
        decreases p.len() - i,
    {
        proof {
            assert(p@.skip(i as int).skip(1) =~= p@.skip(i + 1));
        }
        i = i + 1;
    }
    proof {
        if i < p.len() {
            assert(p@.skip(i as int)[0] == p@[i as int]);
        }
    }
    let r = slice_chars(p, i, p.len());
    assert(r@ =~= p@.skip(i as int));
    r
}

fn sanitized_log(m: &str) -> (r: String)
    ensures
        r@ == log_line(m@),
{
    let v = chars_of(m);
    let mut kept: Vec<char> = Vec::new();
    let mut i: usize = 0;
    while i < v.len()
        invariant
            i <= v.len(),
            kept@ == without_controls(v@.take(i as int)),
        decreases v.len() - i,
    {
        let c = v[i];
        proof {
            assert(v@.take(i + 1).drop_last() =~= v@.take(i as int));
            assert(v@.take(i + 1).last() == c);
        }
        if !(c <= '\u{1f}' || ('\u{7f}' <= c && c <= '\u{9f}')) {
            kept.push(c);
        }
        i = i + 1;
    }
    proof {
        assert(v@.take(v.len() as int) =~= v@);
    }
    if kept.len() > 300 {
        let t = slice_chars(&kept, 0, 300);
        assert(t@ =~= kept@.take(300));
        string_of(&t)
    } else {
        string_of(&kept)
    }
}

/// Reads a command of a view. Only the view of an account may report that
/// account's unread count; any other claim comes back as `UnreadRefused`.
pub fn decide_order(origin: &str, action: &str, path: &str, message: Option<&str>) -> (o: Orden)
    ensures
        o.shape() == order_for(
            origin@,
            action@,
            path@,
            match message {
                Some(m) => Some(m@),
                None => None,
            },
        ),
{
    let pv = chars_of(path);
    let arg = strip_slashes(&pv);
    if str_eq(action, "switch") {
        Orden::Switch(string_of(&arg))
    } else if str_eq(action, "settings") {
        Orden::Settings
    } else if str_eq(action, "add") {
        Orden::Add
    } else if str_eq(action, "hide") {
        Orden::Hide
    } else if str_eq(action, "quit") {
        Orden::Quit
    } else if str_eq(action, "zoom") {
        Orden::Zoom(string_of(&arg))
    } else if str_eq(action, "log") {
        match message {
            Some(m) => Orden::Log(sanitized_log(m)),
            None => Orden::Log(String::new()),
        }
    } else if str_eq(action, "pegar") {
        Orden::Paste
    } else if str_eq(action, "medio-fallido") {
        Orden::FailedMedia(string_of(&arg))
    } else if str_eq(action, "unread") {
        match crate::text::before_first_exec(&arg, '/') {
            None => Orden::Nothing,
            Some(k) => {
                let id = slice_chars(&arg, 0, k);
                let n = slice_chars(&arg, k + 1, arg.len());
                proof {
                    assert(n@ =~= arg@.skip(id@.len() as int + 1));
                }
                let id_s = string_of(&id);
                if unread_order_authorized(origin, id_s.as_str()) {
                    let count = match parse_u32_chars(&n) {
                        Some(v) => v,
                        None => 0,
                    };
                    Orden::Unread(id_s, count)
                } else {
                    Orden::UnreadRefused(id_s)
                }
            },
        }
    } else {
        Orden::Unknown(String::from_str(action))
    }
}


// ───────────────────────────── command URIs ──────────────────────────────

/// What the `url` crate reads from a command URI: its host, its path and its
/// query pairs, percent-decoded, in order; none when the text does not parse.
pub uninterp spec fn command_parts(uri: Seq<char>) -> Option<
    (Option<Seq<char>>, Seq<char>, Seq<(Seq<char>, Seq<char>)>),
>;

/// Calls `url::Url::parse`, then `host_str`, `path` and `query_pairs` on
/// the URL; the result, a function of the text alone, is named
/// `command_parts`.
#[verifier::external_body]
fn parse_command(uri: &str) -> (r: Option<(Option<String>, String, Vec<(String, String)>)>)
    ensures
        r.deep_view() == command_parts(uri@),
{
    match url::Url::parse(uri) {
        Ok(u) => Some((
            u.host_str().map(|h| h.to_string()),
            u.path().to_string(),
            u.query_pairs().map(|(k, v)| (k.into_owned(), v.into_owned())).collect(),
        )),
        Err(_) => None,
    }
}

/// The value of the first query pair named `m`: the long text of a command.
pub open spec fn message_of(pairs: Seq<(Seq<char>, Seq<char>)>) -> Option<Seq<char>>
    decreases pairs.len(),
{
    if pairs.len() == 0 {
        None
    } else if pairs[0].0 == "m"@ {
        Some(pairs[0].1)
    } else {
        message_of(pairs.drop_first())
    }
}

/// What the order in the command URI `uri` of the view `origin` is: none
/// when the URI does not parse; otherwise the order its host (the action),
/// its path and its message `m` give.
pub open spec fn order_of_uri_spec(origin: Seq<char>, uri: Seq<char>) -> Option<OrderShape> {
    match command_parts(uri) {
        None => None,
        Some(p) => Some(
            order_for(
                origin,
                match p.0 {
                    Some(h) => h,
                    None => Seq::empty(),
                },
                p.1,
                message_of(p.2),
            ),
        ),
    }
}

fn find_message(pairs: &Vec<(String, String)>) -> (r: Option<&String>)
    ensures
        r.deep_view() == message_of(pairs.deep_view()),
{
    let mut i: usize = 0;
    proof {
        reveal_strlit("m");
        assert(pairs.deep_view().skip(0) =~= pairs.deep_view());
    }
    while i < pairs.len()
        invariant
            i <= pairs@.len(),
            pairs.deep_view().len() == pairs@.len(),
            message_of(pairs.deep_view()) == message_of(pairs.deep_view().skip(i as int)),
        decreases pairs.len() - i,
    {
        let ghost rest = pairs.deep_view().skip(i as int);
        proof {
            assert(rest[0] == (pairs@[i as int].0@, pairs@[i as int].1@));
            assert(rest.drop_first() =~= pairs.deep_view().skip(i + 1));
        }
        if str_eq(pairs[i].0.as_str(), "m") {
            return Some(&pairs[i].1);
        }
        i = i + 1;
    }
    proof {
        assert(pairs.deep_view().skip(i as int).len() == 0);
    }
    None
}

/// The order the view `origin` gives with the command URI `uri`: `wrusp://`,
/// the action as host, its argument as path, and a long text, such as a
/// log line, as the query value `m`.
pub fn order_of_uri(origin: &str, uri: &str) -> (o: Option<Orden>)
    ensures
        o is None <==> command_parts(uri@) is None,
        o matches Some(ord) ==> order_of_uri_spec(origin@, uri@) == Some(ord.shape()),
{
    let parsed = parse_command(uri);
    match parsed {
        None => {
            assert(command_parts(uri@) is None);
            None
        },
        Some(parts) => {
            proof {
                let p = command_parts(uri@)->0;
                assert(parts.0.deep_view() == p.0);
                assert(parts.1@ == p.1);
                assert(parts.2.deep_view() == p.2);
            }
            let host: &str = match &parts.0 {
                Some(h) => h.as_str(),
                None => "",
            };
            proof {
                reveal_strlit("");
            }
            let found = find_message(&parts.2);
            let message: Option<&str> = match found {
                Some(m) => Some(m.as_str()),
                None => None,
            };
            proof {
                let p = command_parts(uri@)->0;
                assert(host@ == match p.0 {
                    Some(h) => h,
                    None => Seq::<char>::empty(),
                });
                assert(match message {
                    Some(m) => Some(m@),
                    None => None,
                } == message_of(p.2));
            }
            let ord = decide_order(origin, host, parts.1.as_str(), message);
            Some(ord)
        },
    }
}

} // verus!
