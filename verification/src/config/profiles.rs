//! Account identifiers: only canonical UUIDs, which name the profile folders
//! and therefore must never hold anything that leaves `profiles/`.
use vstd::prelude::*;
use crate::config::model::Account;
use crate::paths::{join_path, path_joined};
use crate::shell::ids_of;
use crate::text::{push_str, str_eq};

verus! {

pub open spec fn is_lower_hex(c: char) -> bool {
    ('0' <= c <= '9') || ('a' <= c <= 'f')
}

/// A UUID in its canonical form: 36 characters, lower-case hexadecimal, with
/// hyphens at positions 8, 13, 18 and 23 and nowhere else.
pub open spec fn is_canonical_uuid(s: Seq<char>) -> bool {
    &&& s.len() == 36
    &&& forall|i: int|
        0 <= i < 36 ==> if i == 8 || i == 13 || i == 18 || i == 23 {
            #[trigger] s[i] == '-'
        } else {
            is_lower_hex(s[i])
        }
}

/// What parsing a text as a UUID and writing it back hyphenated gives.
pub uninterp spec fn uuid_rewritten(s: Seq<char>) -> Option<Seq<char>>;

/// Calls `uuid::Uuid::try_parse` and, when it succeeds, writes the UUID back
/// with `as_hyphenated().to_string()`. The crate writes that form in lower
/// case with the four hyphens, and a text already in that form parses to the
/// UUID whose rewriting is the same text.
#[verifier::external_body]
fn uuid_rewrite(id: &str) -> (r: Option<String>)
    ensures
        r.deep_view() == uuid_rewritten(id@),
        r matches Some(c) ==> is_canonical_uuid(c@),
        is_canonical_uuid(id@) ==> r.deep_view() == Some(id@),
{
    match uuid::Uuid::try_parse(id) {
        Ok(u) => Some(u.as_hyphenated().to_string()),
        Err(_) => None,
    }
}

/// Is the id a UUID in its canonical form (lower case, with hyphens)? It is
/// the only form accounts get, and it holds no path separator.
pub fn valid_account_id(id: &str) -> (b: bool)
    ensures
        b == is_canonical_uuid(id@),
{
    match uuid_rewrite(id) {
        Some(c) => str_eq(c.as_str(), id),
        None => false,
    }
}

/// The accounts kept: those whose id is canonical and not used by an account
/// kept before.
pub open spec fn sanitized(accs: Seq<Account>) -> Seq<Account>
    decreases accs.len(),
{
    if accs.len() == 0 {
        accs
    } else {
        let kept = sanitized(accs.drop_last());
        let a = accs.last();
        if is_canonical_uuid(a.id@) && !ids_of(kept).contains(a.id@) {
            kept.push(a)
        } else {
            kept
        }
    }
}

/// The kept accounts all have canonical ids, each once.
pub proof fn lemma_sanitized_ids(accs: Seq<Account>)
    ensures
        forall|i: int|
            0 <= i < sanitized(accs).len() ==> is_canonical_uuid(#[trigger] sanitized(accs)[i].id@),
        forall|i: int, j: int|
            0 <= i < j < sanitized(accs).len() ==> sanitized(accs)[i].id@ != sanitized(accs)[j].id@,
    decreases accs.len(),
{
    if accs.len() > 0 {
        lemma_sanitized_ids(accs.drop_last());
        let kept = sanitized(accs.drop_last());
        let a = accs.last();
        if is_canonical_uuid(a.id@) && !ids_of(kept).contains(a.id@) {
            let r = kept.push(a);
            assert forall|i: int, j: int| 0 <= i < j < r.len() implies r[i].id@ != r[j].id@ by {
                if j == kept.len() {
                    assert(ids_of(kept)[i] == kept[i].id@);
                }
            }
        }
    }
}

fn contains_id(accs: &Vec<Account>, id: &str) -> (b: bool)
    ensures
        b == ids_of(accs@).contains(id@),
{
    let mut i: usize = 0;
    while i < accs.len()
        invariant
            i <= accs@.len(),
            forall|k: int| 0 <= k < i ==> accs@[k].id@ != id@,
        decreases accs.len() - i,
    {
        if str_eq(accs[i].id.as_str(), id) {
            assert(ids_of(accs@)[i as int] == id@);
            return true;
        }
        i = i + 1;
    }
    proof {
        assert forall|k: int| 0 <= k < ids_of(accs@).len() implies ids_of(accs@)[k]
            != id@ by {
            assert(ids_of(accs@)[k] == accs@[k].id@);
        }
    }
    false
}

/// Drops the accounts whose id is not a canonical UUID or repeats an earlier
/// one: an id with `../` or an absolute path could take the removal of an
/// account out of `profiles/`, and a repeated one would mix sessions.
pub fn sanitize_accounts(accounts: &mut Vec<Account>)
    ensures
        final(accounts)@ == sanitized(old(accounts)@),
{
    let mut rest: Vec<Account> = Vec::new();
    std::mem::swap(accounts, &mut rest);
    let ghost all = rest@;
    let mut kept: Vec<Account> = Vec::new();
    let ghost mut i: int = 0;
    while rest.len() > 0
        invariant
            0 <= i <= all.len(),
            rest@ == all.skip(i),
            kept@ == sanitized(all.take(i)),
        decreases rest.len(),
    {
        let a = rest.remove(0);
        proof {
            assert(all.take(i + 1).drop_last() =~= all.take(i));
            assert(all.take(i + 1).last() == a);
            assert(rest@ =~= all.skip(i + 1));
            i = i + 1;
        }
        if valid_account_id(a.id.as_str()) && !contains_id(&kept, a.id.as_str()) {
            kept.push(a);
        }
    }
    proof {
        assert(all.take(i) =~= all);
    }
    *accounts = kept;
}

/// What `format!("{s:?}")` writes for a string: it quoted and escaped.
pub uninterp spec fn debug_quoted(s: Seq<char>) -> Seq<char>;

/// Calls the `Debug` formatting of `str`; its result is named `debug_quoted`.
#[verifier::external_body]
fn debug_str(s: &str) -> (r: String)
    ensures
        r@ == debug_quoted(s@),
{
    format!("{s:?}")
}

/// The profile folder of an account: the id validated, then joined to the
/// root of the profiles. A canonical id holds no separator, so the result is
/// always a direct child of `root`.
pub fn confined_profile_path(root: &str, id: &str) -> (r: Result<String, String>)
    ensures
        is_canonical_uuid(id@) ==> (r matches Ok(p) && p@ == path_joined(root@, id@)),
        !is_canonical_uuid(id@) ==> (r matches Err(e) && e@ == "Identificador de cuenta no válido: "@
            + debug_quoted(id@)),
{
    if !valid_account_id(id) {
        let mut e = String::from_str("Identificador de cuenta no válido: ");
        let q = debug_str(id);
        push_str(&mut e, q.as_str());
        return Err(e);
    }
    Ok(join_path(root, id))
}

} // verus!
