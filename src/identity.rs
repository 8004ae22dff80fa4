use candid::Principal;
use vstd::prelude::*;

verus! {

/// `candid::Principal`, the identity of a user or an instance on the network.
/// Its contents stay opaque: the library only compares identities.
#[verifier::external_type_specification]
#[verifier::external_body]
pub struct ExPrincipal(candid::Principal);

/// Relies on the derived `Clone` of `candid::Principal`, a `Copy` type: the
/// clone is the same value.
pub assume_specification[ <candid::Principal as Clone>::clone ](p: &candid::Principal) -> (r:
    candid::Principal)
    ensures
        r == *p,
;

/// Relies on the derived `PartialEq` of `candid::Principal`: two principals
/// compare equal exactly when they hold the same length and bytes, that is,
/// when they are the same value.
#[verifier::external_body]
pub(crate) fn same_principal(a: &Principal, b: &Principal) -> (r: bool)
    ensures
        r == (*a == *b),
{
    a == b
}

/// `s` with `m` added, unless it is there already.
pub open spec fn with_member(s: Seq<Principal>, m: Principal) -> Seq<Principal> {
    if s.contains(m) {
        s
    } else {
        s.push(m)
    }
}

/// `s` with every occurrence of `m` removed.
pub open spec fn without_member(s: Seq<Principal>, m: Principal) -> Seq<Principal> {
    s.filter(other_than(m))
}

/// Holds of every identity but `m`.
pub open spec fn other_than(m: Principal) -> spec_fn(Principal) -> bool {
    |x: Principal| x != m
}

/// Whether `who` occurs in `list`.
pub fn contains_principal(list: &Vec<Principal>, who: &Principal) -> (r: bool)
    ensures
        r == list@.contains(*who),
{
    let mut i: usize = 0;
    while i < list.len()
        invariant
            i <= list@.len(),
            forall|j: int| 0 <= j < i ==> list@[j] != *who,
        decreases list@.len() - i,
    {
        if same_principal(&list[i], who) {
            return true;
        }
        i += 1;
    }
    false
}

/// Adding a member keeps a sequence free of duplicates.
pub proof fn lemma_with_member_distinct(s: Seq<Principal>, m: Principal)
    requires
        s.no_duplicates(),
    ensures
        with_member(s, m).no_duplicates(),
{
    if !s.contains(m) {
        let t = s.push(m);
        assert forall|i: int, j: int| 0 <= i < t.len() && 0 <= j < t.len() && i != j implies t[i]
            != t[j] by {
            if i == s.len() {
                assert(s[j] == t[j]);
            } else if j == s.len() {
                assert(s[i] == t[i]);
            }
        }
    }
}

/// Removing a member keeps only elements of the sequence other than it, and
/// keeps the sequence free of duplicates.
pub proof fn lemma_without_member(s: Seq<Principal>, m: Principal)
    ensures
        forall|x: Principal| #[trigger] without_member(s, m).contains(x) ==> s.contains(x) && x != m,
        s.no_duplicates() ==> without_member(s, m).no_duplicates(),
    decreases s.len(),
{
    reveal(Seq::filter);
    if s.len() > 0 {
        let d = s.drop_last();
        let x0 = s.last();
        lemma_without_member(d, m);
        let fd = without_member(d, m);
        assert(s.filter(other_than(m)) == if other_than(m)(x0) {
            fd.push(x0)
        } else {
            fd
        });
        assert forall|x: Principal| #[trigger] without_member(s, m).contains(x) implies s.contains(x)
            && x != m by {
            if x0 != m && x == x0 {
                assert(s[s.len() - 1] == x0);
            } else {
                if x0 != m {
                    let k = choose|k: int| 0 <= k < fd.push(x0).len() && fd.push(x0)[k] == x;
                    if k < fd.len() {
                        assert(fd[k] == x);
                    }
                }
                assert(fd.contains(x));
                let k = choose|k: int| 0 <= k < d.len() && d[k] == x;
                assert(s[k] == x);
            }
        }
        if s.no_duplicates() {
            assert(d.no_duplicates()) by {
                assert forall|i: int, j: int| 0 <= i < d.len() && 0 <= j < d.len() && i != j implies d[i]
                    != d[j] by {
                    assert(s[i] == d[i] && s[j] == d[j]);
                }
            }
            if x0 != m {
                assert(!fd.contains(x0)) by {
                    if fd.contains(x0) {
                        let k = choose|k: int| 0 <= k < d.len() && d[k] == x0;
                        assert(s[k] == x0 && s[s.len() - 1] == x0);
                    }
                }
                lemma_with_member_distinct(fd, x0);
            }
        }
    }
}

/// Adds `who` to `list` unless it is already there.
pub fn insert_principal(list: &mut Vec<Principal>, who: Principal)
    ensures
        final(list)@ == with_member(old(list)@, who),
        old(list)@.no_duplicates() ==> final(list)@.no_duplicates(),
{
    proof {
        if old(list)@.no_duplicates() {
            lemma_with_member_distinct(old(list)@, who);
        }
    }
    if !contains_principal(list, &who) {
        list.push(who);
    }
}

/// Removes every occurrence of `who` from `list`, keeping the order of the rest.
pub fn remove_principal(list: &mut Vec<Principal>, who: Principal)
    ensures
        final(list)@ == without_member(old(list)@, who),
        forall|x: Principal| #[trigger] final(list)@.contains(x) ==> old(list)@.contains(x) && x != who,
        old(list)@.no_duplicates() ==> final(list)@.no_duplicates(),
{
    proof {
        lemma_without_member(old(list)@, who);
    }
    let ghost pred = other_than(who);
    let mut kept: Vec<Principal> = Vec::new();
    let mut i: usize = 0;
    while i < list.len()
        invariant
            i <= list@.len(),
            pred == other_than(who),
            kept@ == list@.subrange(0, i as int).filter(pred),
        decreases list@.len() - i,
    {
        let x = list[i];
        proof {
            assert(list@.subrange(0, i as int + 1) =~= list@.subrange(0, i as int).push(x));
            list@.subrange(0, i as int).lemma_filter_push(x, pred);
        }
        if !same_principal(&x, &who) {
            kept.push(x);
        }
        i += 1;
    }
    proof {
        assert(list@.subrange(0, i as int) =~= list@);
    }
    *list = kept;
}

} // verus!
