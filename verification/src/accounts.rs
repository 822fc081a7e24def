//! Adding, renaming, recolouring, silencing, reordering and removing accounts.
//!
//! These operate on the list of accounts of the configuration; saving it,
//! rebuilding the tray menu and switching views is the caller's business.
use vstd::prelude::*;
use crate::config::model::Account;
use crate::config::profiles::{confined_profile_path, is_canonical_uuid};
use crate::paths::path_joined;
use crate::shell::{first_account, find_account, ids_of, zoom_after_spec, zoom_after_step, ActiveView};
use crate::text::{chars_of, str_eq, string_of, trim, trimmed};

verus! {

/// The answer to a name that is only white space.
pub const EMPTY_NAME: &'static str = "El nombre no puede estar vacío";

/// The answer to an id that names no account.
pub const NOT_FOUND: &'static str = "Cuenta no encontrada";

/// Calls `uuid::Uuid::new_v4()` and writes it with `to_string()`. The value
/// is random; its text is always the hyphenated lower-case form (the crate's
/// `Display` goes through `as_hyphenated` in lower case).
#[verifier::external_body]
fn new_account_id() -> (id: String)
    ensures
        is_canonical_uuid(id@),
{
    uuid::Uuid::new_v4().to_string()
}

/// `s` trimmed, as a new string.
fn trimmed_string(s: &str) -> (r: String)
    ensures
        r@ == trim(s@),
{
    let v = chars_of(s);
    let t = trimmed(&v);
    string_of(&t)
}

/// Creates an account named `name` (trimmed), at natural zoom, with no
/// colour and not silenced, under a fresh random id, and appends it. A name
/// that is only white space is refused and nothing changes.
pub fn add_account(accounts: &mut Vec<Account>, name: &str) -> (r: Result<Account, String>)
    ensures
        trim(name@).len() == 0 ==> (r matches Err(e) && e@ == EMPTY_NAME@ && final(accounts)@
            == old(accounts)@),
        trim(name@).len() > 0 ==> (r matches Ok(a) && a.name@ == trim(name@) && is_canonical_uuid(a.id@) && a.zoom_percent == 100 && a.color is None && !a.muted && final(accounts)@ == old(accounts)@.push(a)),
{
    let name = trimmed_string(name);
    if name.as_str().is_empty() {
        return Err(String::from_str(EMPTY_NAME));
    }
    let account = Account {
        id: new_account_id(),
        name,
        zoom_percent: 100,
        color: None,
        muted: false,
    };
    accounts.push(account.clone());
    Ok(account)
}

/// `b` is `a` with only the account at `i` changed, and that one keeps its id.
pub open spec fn changed_at(a: Seq<Account>, b: Seq<Account>, i: int) -> bool {
    &&& b.len() == a.len()
    &&& 0 <= i < a.len()
    &&& b[i].id@ == a[i].id@
    &&& forall|j: int| 0 <= j < a.len() && j != i ==> b[j] == a[j]
}

/// Gives the first account with the id `id` the name `name` (trimmed). A
/// blank name is refused before the account is looked up.
pub fn rename_account(accounts: &mut Vec<Account>, id: &str, name: &str) -> (r: Result<(), String>)
    ensures
        trim(name@).len() == 0 ==> (r matches Err(e) && e@ == EMPTY_NAME@),
        trim(name@).len() > 0 && first_account(old(accounts)@, id@) is None ==> (r matches Err(e)
            && e@ == NOT_FOUND@),
        r is Err ==> final(accounts)@ == old(accounts)@,
        trim(name@).len() > 0 ==> (first_account(old(accounts)@, id@) matches Some(i) ==> (r is Ok
            && changed_at(old(accounts)@, final(accounts)@, i) && final(accounts)@[i].name@ == trim(name@) && final(accounts)@[i].zoom_percent == old(accounts)@[i].zoom_percent && final(accounts)@[i].color == old(accounts)@[i].color && final(accounts)@[i].muted == old(accounts)@[i].muted)),
{
    let name = trimmed_string(name);
    if name.as_str().is_empty() {
        return Err(String::from_str(EMPTY_NAME));
    }
    match find_account(accounts, id) {
        None => Err(String::from_str(NOT_FOUND)),
        Some(i) => {
            let mut a = accounts[i].clone();
            a.name = name;
            accounts.set(i, a);
            Ok(())
        },
    }
}

/// The colour that is kept for what the settings page sends: trimmed, and
/// none at all when nothing is left.
pub open spec fn kept_color(color: Option<Seq<char>>) -> Option<Seq<char>> {
    match color {
        Some(c) => if trim(c).len() == 0 {
            None
        } else {
            Some(trim(c))
        },
        None => None,
    }
}

/// Sets the accent colour of the first account with the id `id`.
pub fn set_account_color(accounts: &mut Vec<Account>, id: &str, color: Option<&str>) -> (r: Result<
    (),
    String,
>)
    ensures
        first_account(old(accounts)@, id@) is None ==> (r matches Err(e) && e@ == NOT_FOUND@
            && final(accounts)@ == old(accounts)@),
        first_account(old(accounts)@, id@) matches Some(i) ==> (r is Ok && changed_at(
            old(accounts)@,
            final(accounts)@,
            i,
        ) && final(accounts)@[i].color.deep_view() == kept_color(color.deep_view())
            && final(accounts)@[i].name == old(accounts)@[i].name && final(accounts)@[i].zoom_percent
            == old(accounts)@[i].zoom_percent && final(accounts)@[i].muted == old(accounts)@[i].muted),
{
    let color: Option<String> = match color {
        Some(c) => {
            let t = trimmed_string(c);
            if t.as_str().is_empty() {
                None
            } else {
                Some(t)
            }
        },
        None => None,
    };
    match find_account(accounts, id) {
        None => Err(String::from_str(NOT_FOUND)),
        Some(i) => {
            let mut a = accounts[i].clone();
            a.color = color;
            accounts.set(i, a);
            Ok(())
        },
    }
}

/// Silences (or not) the notifications of the first account with the id `id`.
pub fn set_account_muted(accounts: &mut Vec<Account>, id: &str, muted: bool) -> (r: Result<
    (),
    String,
>)
    ensures
        first_account(old(accounts)@, id@) is None ==> (r matches Err(e) && e@ == NOT_FOUND@
            && final(accounts)@ == old(accounts)@),
        first_account(old(accounts)@, id@) matches Some(i) ==> (r is Ok && changed_at(
            old(accounts)@,
            final(accounts)@,
            i,
        ) && final(accounts)@[i].muted == muted && final(accounts)@[i].name == old(accounts)@[i].name && final(accounts)@[i].zoom_percent == old(accounts)@[i].zoom_percent
            && final(accounts)@[i].color == old(accounts)@[i].color),
{
    match find_account(accounts, id) {
        None => Err(String::from_str(NOT_FOUND)),
        Some(i) => {
            let mut a = accounts[i].clone();
            a.muted = muted;
            accounts.set(i, a);
            Ok(())
        },
    }
}

/// Takes the zoom of the first account with the id `id` one `step` (`in`,
/// `out`, or back to the natural size), and answers its new zoom; none, and
/// nothing changed, when no account has that id.
pub fn step_account_zoom(accounts: &mut Vec<Account>, id: &str, step: &str) -> (r: Option<u32>)
    ensures
        first_account(old(accounts)@, id@) is None ==> (r is None && final(accounts)@
            == old(accounts)@),
        first_account(old(accounts)@, id@) matches Some(i) ==> (r == Some(
            zoom_after_spec(old(accounts)@[i].zoom_percent, step@),
        ) && changed_at(old(accounts)@, final(accounts)@, i) && final(accounts)@[i].zoom_percent
            == zoom_after_spec(old(accounts)@[i].zoom_percent, step@) && final(accounts)@[i].name
            == old(accounts)@[i].name && final(accounts)@[i].color == old(accounts)@[i].color
            && final(accounts)@[i].muted == old(accounts)@[i].muted),
{
    match find_account(accounts, id) {
        None => None,
        Some(i) => {
            let mut a = accounts[i].clone();
            let z = zoom_after_step(a.zoom_percent, step);
            a.zoom_percent = z;
            accounts.set(i, a);
            Some(z)
        },
    }
}

/// The texts of some strings.
pub open spec fn texts(v: Seq<String>) -> Seq<Seq<char>> {
    v.map_values(|s: String| s@)
}

/// The accounts named by `ids`, in that order: for each id, the first
/// account that has it; ids that name none, and ids already placed, are
/// skipped.
pub open spec fn named_first(accs: Seq<Account>, ids: Seq<Seq<char>>) -> Seq<Account>
    decreases ids.len(),
{
    if ids.len() == 0 {
        Seq::empty()
    } else {
        let front = named_first(accs, ids.drop_last());
        match first_account(accs, ids.last()) {
            Some(i) => if ids_of(front).contains(ids.last()) {
                front
            } else {
                front.push(accs[i])
            },
            None => front,
        }
    }
}

/// The ids in the order of their first occurrence, each once.
pub open spec fn first_occurrences(ids: Seq<Seq<char>>) -> Seq<Seq<char>>
    decreases ids.len(),
{
    if ids.len() == 0 {
        Seq::empty()
    } else {
        let front = first_occurrences(ids.drop_last());
        if front.contains(ids.last()) {
            front
        } else {
            front.push(ids.last())
        }
    }
}

/// `front` followed by the accounts of `rest`, in their order, each one
/// unless an account with its id is already there.
pub open spec fn with_missing(front: Seq<Account>, rest: Seq<Account>) -> Seq<Account>
    decreases rest.len(),
{
    if rest.len() == 0 {
        front
    } else {
        let r = with_missing(front, rest.drop_last());
        if ids_of(r).contains(rest.last().id@) {
            r
        } else {
            r.push(rest.last())
        }
    }
}

/// The order the settings page asked for: the accounts it names first, then
/// every other account in its previous order.
pub open spec fn reordered(accs: Seq<Account>, ids: Seq<Seq<char>>) -> Seq<Account> {
    with_missing(named_first(accs, ids), accs)
}

fn contains_account_id(accs: &Vec<Account>, id: &str) -> (b: bool)
    ensures
        b == ids_of(accs@).contains(id@),
{
    let mut i: usize = 0;
    while i < accs.len()
        invariant
            i <= accs@.len(),
            forall|k: int| 0 <= k < i ==> accs@[k].id@ != id@,
        decreases accs.len() - i,
    {
        if str_eq(accs[i].id.as_str(), id) {
            assert(ids_of(accs@)[i as int] == id@);
            return true;
        }
        i = i + 1;
    }
    proof {
        assert forall|k: int| 0 <= k < ids_of(accs@).len() implies ids_of(accs@)[k] != id@ by {
            assert(ids_of(accs@)[k] == accs@[k].id@);
        }
    }
    false
}

/// Puts the accounts in the order the settings page sends: those it names
/// first, in its order, then the ones it left out, in their previous order.
#[verifier::rlimit(40)]
pub fn reorder_accounts(accounts: &mut Vec<Account>, ids: &Vec<String>)
    ensures
        final(accounts)@ == reordered(old(accounts)@, texts(ids@)),
{
    let ghost accs = accounts@;
    let ghost names = texts(ids@);
    let mut front: Vec<Account> = Vec::new();
    let mut k: usize = 0;
    while k < ids.len()
        invariant
            accounts@ == accs,
            names == texts(ids@),
            k <= ids@.len(),
            front@ == named_first(accs, names.take(k as int)),
        decreases ids.len() - k,
    {
        proof {
            assert(names.take(k + 1).drop_last() =~= names.take(k as int));
            assert(names.take(k + 1).last() == ids@[k as int]@);
        }
        match find_account(accounts, ids[k].as_str()) {
            Some(i) => {
                if !contains_account_id(&front, ids[k].as_str()) {
                    front.push(accounts[i].clone());
                }
            },
            None => {},
        }
        k = k + 1;
    }
    assert(names.take(ids@.len() as int) =~= names);
    let ghost start = front@;
    let mut j: usize = 0;
    while j < accounts.len()
        invariant
            accounts@ == accs,
            start == named_first(accs, names),
            j <= accs.len(),
            front@ == with_missing(start, accs.take(j as int)),
        decreases accounts.len() - j,
    {
        proof {
            assert(accs.take(j + 1).drop_last() =~= accs.take(j as int));
        }
        if !contains_account_id(&front, accounts[j].id.as_str()) {
            front.push(accounts[j].clone());
        }
        j = j + 1;
    }
    assert(accs.take(accs.len() as int) =~= accs);
    *accounts = front;
}

/// What `first_account` answers: the lowest index holding the id, or none
/// when no account holds it.
proof fn lemma_first_account(accs: Seq<Account>, id: Seq<char>)
    ensures
        first_account(accs, id) matches Some(i) ==> 0 <= i < accs.len() && accs[i].id@ == id
            && forall|j: int| 0 <= j < i ==> accs[j].id@ != id,
        first_account(accs, id) is None ==> forall|j: int|
            0 <= j < accs.len() ==> accs[j].id@ != id,
{
    if exists|i: int| 0 <= i < accs.len() && accs[i].id@ == id {
        let w = choose|i: int| 0 <= i < accs.len() && accs[i].id@ == id;
        lemma_lowest_exists(accs, id, w);
    }
}

proof fn lemma_lowest_exists(accs: Seq<Account>, id: Seq<char>, w: int)
    requires
        0 <= w < accs.len(),
        accs[w].id@ == id,
    ensures
        exists|m: int|
            0 <= m < accs.len() && accs[m].id@ == id && forall|j: int|
                0 <= j < m ==> accs[j].id@ != id,
    decreases w,
{
    if exists|j: int| 0 <= j < w && accs[j].id@ == id {
        let j = choose|j: int| 0 <= j < w && accs[j].id@ == id;
        lemma_lowest_exists(accs, id, j);
    } else {
        assert(forall|j: int| 0 <= j < w ==> accs[j].id@ != id);
    }
}

proof fn lemma_ids_push(s: Seq<Account>, a: Account)
    ensures
        ids_of(s.push(a)) == ids_of(s).push(a.id@),
{
    assert(ids_of(s.push(a)) =~= ids_of(s).push(a.id@));
}

/// The accounts picked by id come from the list, carry one of the ids asked
/// for, and no two share an id.
proof fn lemma_named_first(accs: Seq<Account>, ids: Seq<Seq<char>>)
    ensures
        forall|k: int|
            0 <= k < named_first(accs, ids).len() ==> accs.contains(
                #[trigger] named_first(accs, ids)[k],
            ),
        forall|k: int|
            0 <= k < named_first(accs, ids).len() ==> ids.contains(
                #[trigger] named_first(accs, ids)[k].id@,
            ),
        ids_of(named_first(accs, ids)).no_duplicates(),
    decreases ids.len(),
{
    if ids.len() > 0 {
        let prev = ids.drop_last();
        lemma_named_first(accs, prev);
        let f = named_first(accs, prev);
        assert forall|k: int| 0 <= k < f.len() implies ids.contains(#[trigger] f[k].id@) by {
            let m = choose|m: int| 0 <= m < prev.len() && prev[m] == f[k].id@;
            assert(ids[m] == f[k].id@);
        }
        lemma_first_account(accs, ids.last());
        match first_account(accs, ids.last()) {
            Some(i) => {
                if !ids_of(f).contains(ids.last()) {
                    let r = f.push(accs[i]);
                    assert(r[f.len() as int] == accs[i]);
                    assert(ids[ids.len() - 1] == ids.last());
                    lemma_ids_push(f, accs[i]);
                    assert forall|k: int| 0 <= k < f.len() implies #[trigger] ids_of(f)[k]
                        != ids.last() by {}
                }
            },
            None => {},
        }
    }
}

/// `with_missing` keeps ids unique, takes its accounts from `front` and
/// `rest`, and leaves no id of `rest` out.
proof fn lemma_with_missing(front: Seq<Account>, rest: Seq<Account>)
    requires
        ids_of(front).no_duplicates(),
    ensures
        ids_of(with_missing(front, rest)).no_duplicates(),
        forall|k: int|
            0 <= k < with_missing(front, rest).len() ==> front.contains(
                #[trigger] with_missing(front, rest)[k],
            ) || rest.contains(with_missing(front, rest)[k]),
        forall|k: int| 0 <= k < rest.len() ==> ids_of(with_missing(front, rest)).contains(#[trigger] rest[k].id@),
    decreases rest.len(),
{
    if rest.len() > 0 {
        let prev = rest.drop_last();
        lemma_with_missing(front, prev);
        let w = with_missing(front, prev);
        let x = rest.last();
        assert forall|k: int| 0 <= k < w.len() implies front.contains(#[trigger] w[k])
            || rest.contains(w[k]) by {
            if prev.contains(w[k]) {
                let m = choose|m: int| 0 <= m < prev.len() && prev[m] == w[k];
                assert(rest[m] == w[k]);
            }
        }
        if !ids_of(w).contains(x.id@) {
            let r = w.push(x);
            lemma_ids_push(w, x);
            assert(r[w.len() as int] == x);
            assert(rest[rest.len() - 1] == x);
            assert(ids_of(r)[w.len() as int] == x.id@);
            assert forall|k: int| 0 <= k < rest.len() implies ids_of(r).contains(
                #[trigger] rest[k].id@,
            ) by {
                if k < prev.len() {
                    assert(prev[k] == rest[k]);
                    let m = choose|m: int| 0 <= m < ids_of(w).len() && ids_of(w)[m] == prev[k].id@;
                    assert(ids_of(r)[m] == ids_of(w)[m]);
                }
            }
        } else {
            assert forall|k: int| 0 <= k < rest.len() implies ids_of(w).contains(
                #[trigger] rest[k].id@,
            ) by {
                if k < prev.len() {
                    assert(prev[k] == rest[k]);
                }
            }
        }
    }
}

/// Reordering neither loses, repeats nor invents an account: when no two
/// accounts share an id, the new list is a permutation of the old one,
/// whatever ids the settings page sends, repeated or unknown ones included.
pub proof fn lemma_reorder_is_permutation(accs: Seq<Account>, ids: Seq<Seq<char>>)
    requires
        ids_of(accs).no_duplicates(),
    ensures
        reordered(accs, ids).to_multiset() == accs.to_multiset(),
        reordered(accs, ids).len() == accs.len(),
{
    let f = named_first(accs, ids);
    let r = reordered(accs, ids);
    lemma_named_first(accs, ids);
    lemma_with_missing(f, accs);
    assert forall|k: int| 0 <= k < r.len() implies accs.contains(#[trigger] r[k]) by {
        if f.contains(r[k]) {
            let m = choose|m: int| 0 <= m < f.len() && f[m] == r[k];
            assert(accs.contains(f[m]));
        }
    }
    assert(r.no_duplicates()) by {
        assert forall|i: int, j: int| 0 <= i < r.len() && 0 <= j < r.len() && i != j implies r[i]
            != r[j] by {
            assert(ids_of(r)[i] == r[i].id@);
            assert(ids_of(r)[j] == r[j].id@);
        }
    }
    assert(accs.no_duplicates()) by {
        assert forall|i: int, j: int| 0 <= i < accs.len() && 0 <= j < accs.len() && i != j implies accs[i]
            != accs[j] by {
            assert(ids_of(accs)[i] == accs[i].id@);
            assert(ids_of(accs)[j] == accs[j].id@);
        }
    }
    assert forall|a: Account| accs.contains(a) implies r.contains(a) by {
        let i = choose|i: int| 0 <= i < accs.len() && accs[i] == a;
        assert(ids_of(r).contains(accs[i].id@));
        let m = choose|m: int| 0 <= m < ids_of(r).len() && ids_of(r)[m] == accs[i].id@;
        assert(ids_of(r)[m] == r[m].id@);
        assert(accs.contains(r[m]));
        let n = choose|n: int| 0 <= n < accs.len() && accs[n] == r[m];
        assert(ids_of(accs)[n] == accs[n].id@);
        assert(ids_of(accs)[i] == accs[i].id@);
    }
    r.lemma_multiset_has_no_duplicates();
    accs.lemma_multiset_has_no_duplicates();
    r.to_multiset_ensures();
    accs.to_multiset_ensures();
    assert(r.to_multiset() =~= accs.to_multiset()) by {
        assert forall|a: Account| r.to_multiset().count(a) == accs.to_multiset().count(a) by {
            if accs.contains(a) {
                assert(r.contains(a));
                assert(r.to_multiset().count(a) > 0);
                assert(accs.to_multiset().count(a) > 0);
                assert(r.to_multiset().contains(a));
                assert(accs.to_multiset().contains(a));
            } else {
                if r.contains(a) {
                    let k = choose|k: int| 0 <= k < r.len() && r[k] == a;
                    assert(accs.contains(r[k]));
                }
                assert(!(r.to_multiset().count(a) > 0));
                assert(!(accs.to_multiset().count(a) > 0));
            }
        }
    }
    assert(r.to_multiset().len() == accs.to_multiset().len());
}

/// The order asked for is the order obtained: when every id the settings
/// page sends names an account, those accounts come first, in the order in
/// which their ids first occur.
pub proof fn lemma_reorder_follows_request(accs: Seq<Account>, ids: Seq<Seq<char>>)
    requires
        forall|k: int| 0 <= k < ids.len() ==> ids_of(accs).contains(#[trigger] ids[k]),
    ensures
        first_occurrences(ids).len() <= reordered(accs, ids).len(),
        ids_of(reordered(accs, ids)).subrange(0, first_occurrences(ids).len() as int)
            == first_occurrences(ids),
{
    lemma_named_first_ids(accs, ids);
    let f = named_first(accs, ids);
    let r = reordered(accs, ids);
    let n = first_occurrences(ids).len() as int;
    lemma_with_missing_prefix(f, accs);
    assert(ids_of(r).subrange(0, n) =~= ids_of(f)) by {
        assert forall|k: int| 0 <= k < n implies ids_of(r)[k] == ids_of(f)[k] by {
            assert(r.subrange(0, f.len() as int)[k] == r[k]);
        }
    }
}

proof fn lemma_named_first_ids(accs: Seq<Account>, ids: Seq<Seq<char>>)
    requires
        forall|k: int| 0 <= k < ids.len() ==> ids_of(accs).contains(#[trigger] ids[k]),
    ensures
        ids_of(named_first(accs, ids)) == first_occurrences(ids),
    decreases ids.len(),
{
    if ids.len() > 0 {
        let prev = ids.drop_last();
        assert forall|k: int| 0 <= k < prev.len() implies ids_of(accs).contains(
            #[trigger] prev[k],
        ) by {
            assert(prev[k] == ids[k]);
        }
        lemma_named_first_ids(accs, prev);
        let x = ids.last();
        assert(ids_of(accs).contains(ids[ids.len() - 1]));
        let m = choose|m: int| 0 <= m < ids_of(accs).len() && ids_of(accs)[m] == x;
        assert(accs[m].id@ == x);
        lemma_first_account(accs, x);
        assert(first_account(accs, x) is Some);
        let i = first_account(accs, x)->0;
        let f = named_first(accs, prev);
        assert(ids.drop_last() == prev);
        if !ids_of(f).contains(x) {
            assert(named_first(accs, ids) == f.push(accs[i]));
            lemma_ids_push(f, accs[i]);
        }
    }
}

proof fn lemma_with_missing_prefix(front: Seq<Account>, rest: Seq<Account>)
    ensures
        with_missing(front, rest).len() >= front.len(),
        with_missing(front, rest).subrange(0, front.len() as int) == front,
    decreases rest.len(),
{
    if rest.len() > 0 {
        lemma_with_missing_prefix(front, rest.drop_last());
        let w = with_missing(front, rest.drop_last());
        assert(w.push(rest.last()).subrange(0, front.len() as int) =~= w.subrange(
            0,
            front.len() as int,
        ));
    }
}

/// The profile folder to delete with the account `id`: the same confined
/// folder under `root` that its view was given, and none for an id no
/// profile could have been made for, so that a removal never reaches
/// outside `root`.
pub fn profile_to_delete(root: &str, id: &str) -> (r: Option<String>)
    ensures
        is_canonical_uuid(id@) ==> (r matches Some(p) && p@ == path_joined(root@, id@)),
        !is_canonical_uuid(id@) ==> r is None,
{
    match confined_profile_path(root, id) {
        Ok(p) => Some(p),
        Err(_) => None,
    }
}

/// The accounts whose id is not `id`, in their order.
pub open spec fn without_id(accs: Seq<Account>, id: Seq<char>) -> Seq<Account>
    decreases accs.len(),
{
    if accs.len() == 0 {
        accs
    } else {
        let r = without_id(accs.drop_last(), id);
        if accs.last().id@ == id {
            r
        } else {
            r.push(accs.last())
        }
    }
}

/// Removing an account keeps every other account, in its order: what is
/// left is the old list filtered by id.
pub proof fn lemma_remove_keeps_the_rest_in_order(accs: Seq<Account>, id: Seq<char>)
    ensures
        without_id(accs, id) == accs.filter(|a: Account| a.id@ != id),
    decreases accs.len(),
{
    reveal(Seq::filter);
    if accs.len() > 0 {
        lemma_remove_keeps_the_rest_in_order(accs.drop_last(), id);
    }
}

/// Drops every account with the id `id`. Answers whether that account was
/// the one on screen, in which case the settings page is what is left to
/// show.
pub fn remove_account(accounts: &mut Vec<Account>, active: &ActiveView, id: &str) -> (was_active:
    bool)
    ensures
        final(accounts)@ == without_id(old(accounts)@, id@),
        was_active == (active.0@ == id@),
{
    let ghost accs = accounts@;
    let mut kept: Vec<Account> = Vec::new();
    let mut j: usize = 0;
    while j < accounts.len()
        invariant
            accounts@ == accs,
            j <= accs.len(),
            kept@ == without_id(accs.take(j as int), id@),
        decreases accounts.len() - j,
    {
        proof {
            assert(accs.take(j + 1).drop_last() =~= accs.take(j as int));
        }
        if !str_eq(accounts[j].id.as_str(), id) {
            kept.push(accounts[j].clone());
        }
        j = j + 1;
    }
    assert(accs.take(accs.len() as int) =~= accs);
    *accounts = kept;
    str_eq(active.0.as_str(), id)
}

} // verus!
