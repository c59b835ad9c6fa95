//! The order strings are listed in: character by character, by code point, a shorter string
//! before any longer one it begins — the order `String`'s `Ord` gives, since UTF-8 keeps code
//! point order. Folder names are shown A→Z in it.

use vstd::prelude::*;
use crate::text::{chars_of, owned};

verus! {

/// `a` comes strictly before `b`.
pub open spec fn str_lt(a: Seq<char>, b: Seq<char>) -> bool
    decreases a.len(),
{
    if a.len() == 0 {
        b.len() > 0
    } else if b.len() == 0 {
        false
    } else if a[0] != b[0] {
        a[0] < b[0]
    } else {
        str_lt(a.drop_first(), b.drop_first())
    }
}

/// Every element comes strictly before the next: sorted, with nothing repeated.
pub open spec fn strictly_sorted(s: Seq<Seq<char>>) -> bool {
    forall|i: int, j: int| 0 <= i < j < s.len() ==> str_lt(#[trigger] s[i], #[trigger] s[j])
}

pub proof fn lemma_lt_irreflexive(a: Seq<char>)
    ensures
        !str_lt(a, a),
    decreases a.len(),
{
    if a.len() > 0 {
        lemma_lt_irreflexive(a.drop_first());
    }
}

pub proof fn lemma_lt_trichotomy(a: Seq<char>, b: Seq<char>)
    ensures
        str_lt(a, b) || str_lt(b, a) || a == b,
        !(str_lt(a, b) && str_lt(b, a)),
    decreases a.len(),
{
    if a.len() > 0 && b.len() > 0 {
        if a[0] == b[0] {
            lemma_lt_trichotomy(a.drop_first(), b.drop_first());
            if a.drop_first() == b.drop_first() {
                assert(a =~= seq![a[0]] + a.drop_first());
                assert(b =~= seq![b[0]] + b.drop_first());
            }
        } else {
            assert(a[0] < b[0] || b[0] < a[0]);
        }
    } else if a.len() == 0 && b.len() == 0 {
        assert(a =~= b);
    }
}

pub proof fn lemma_lt_transitive(a: Seq<char>, b: Seq<char>, c: Seq<char>)
    requires
        str_lt(a, b),
        str_lt(b, c),
    ensures
        str_lt(a, c),
    decreases a.len(),
{
    if a.len() > 0 && b.len() > 0 && c.len() > 0 {
        if a[0] == b[0] && b[0] == c[0] {
            lemma_lt_transitive(a.drop_first(), b.drop_first(), c.drop_first());
        }
    }
}

/// Whether `a` comes strictly before `b`.
pub fn less_than(a: &[char], b: &[char]) -> (r: bool)
    ensures
        r == str_lt(a@, b@),
{
    let mut i: usize = 0;
    assert(a@.subrange(0, a@.len() as int) =~= a@);
    assert(b@.subrange(0, b@.len() as int) =~= b@);
    while i < a.len() && i < b.len() && a[i] == b[i]
        invariant
            i <= a@.len(),
            i <= b@.len(),
            forall|k: int| 0 <= k < i ==> a@[k] == b@[k],
            str_lt(a@, b@) == str_lt(a@.subrange(i as int, a@.len() as int), b@.subrange(i as int, b@.len() as int)),
        decreases a.len() - i,
    {
        proof {
            let sa = a@.subrange(i as int, a@.len() as int);
            let sb = b@.subrange(i as int, b@.len() as int);
            assert(sa.drop_first() =~= a@.subrange(i + 1, a@.len() as int));
            assert(sb.drop_first() =~= b@.subrange(i + 1, b@.len() as int));
        }
        i += 1;
    }
    proof {
        assert(a@.subrange(0, a@.len() as int) =~= a@);
        assert(b@.subrange(0, b@.len() as int) =~= b@);
    }
    if i == a.len() {
        i < b.len()
    } else if i == b.len() {
        false
    } else {
        a[i] < b[i]
    }
}

fn string_lt(a: &String, b: &[char]) -> (r: bool)
    ensures
        r == str_lt(a@, b@),
{
    let av = chars_of(a.as_str());
    less_than(av.as_slice(), b)
}

/// Places `s` into a sorted list of distinct strings, unless it is already there.
pub fn insert_sorted_unique(list: &mut Vec<String>, s: &str)
    requires
        strictly_sorted(old(list)@.map_values(|x: String| x@)),
    ensures
        strictly_sorted(final(list)@.map_values(|x: String| x@)),
        final(list)@.map_values(|x: String| x@).to_set() == old(list)@.map_values(|x: String| x@).to_set().insert(s@),
{
    let ghost old_v = list@.map_values(|x: String| x@);
    let sv = chars_of(s);
    let mut i: usize = 0;
    while i < list.len() && string_lt(&list[i], sv.as_slice())
        invariant
            i <= list@.len(),
            list@.map_values(|x: String| x@) == old_v,
            strictly_sorted(old_v),
            sv@ == s@,
            forall|k: int| 0 <= k < i ==> str_lt(#[trigger] old_v[k], s@),
        decreases list.len() - i,
    {
        i += 1;
    }
    let ghost pos = i as int;
    if i < list.len() {
        let cur = chars_of(list[i].as_str());
        if crate::text::chars_eq(cur.as_slice(), sv.as_slice()) {
            proof {
                assert(old_v[pos] == s@);
                assert(old_v.to_set().insert(s@) =~= old_v.to_set()) by {
                    assert(old_v.contains(s@));
                }
            }
            return;
        }
        proof {
            lemma_lt_trichotomy(old_v[pos], s@);
        }
    }
    list.insert(i, owned(s));
    proof {
        let nv = list@.map_values(|x: String| x@);
        assert(nv =~= old_v.insert(pos, s@));
        assert forall|a: int, b: int| 0 <= a < b < nv.len() implies str_lt(#[trigger] nv[a], #[trigger] nv[b]) by {
            if b < pos {
                assert(nv[a] == old_v[a] && nv[b] == old_v[b]);
            } else if b == pos {
                assert(nv[a] == old_v[a]);
            } else if a == pos {
                assert(nv[b] == old_v[b - 1]);
                if b - 1 > pos {
                    assert(str_lt(old_v[pos], old_v[b - 1]));
                    lemma_lt_transitive(s@, old_v[pos], old_v[b - 1]);
                }
            } else if a < pos {
                assert(nv[a] == old_v[a] && nv[b] == old_v[b - 1]);
            } else {
                assert(nv[a] == old_v[a - 1] && nv[b] == old_v[b - 1]);
            }
        }
        assert forall|x: Seq<char>| #[trigger] nv.to_set().contains(x) == old_v.to_set().insert(s@).contains(x) by {
            if nv.contains(x) {
                let k = choose|k: int| 0 <= k < nv.len() && nv[k] == x;
                if k < pos {
                    assert(old_v[k] == x);
                } else if k > pos {
                    assert(old_v[k - 1] == x);
                }
            }
            if old_v.contains(x) {
                let k = choose|k: int| 0 <= k < old_v.len() && old_v[k] == x;
                if k < pos {
                    assert(nv[k] == x);
                } else {
                    assert(nv[k + 1] == x);
                }
            }
            if x == s@ {
                assert(nv[pos] == x);
            }
        }
        assert(nv.to_set() =~= old_v.to_set().insert(s@));
    }
}

} // verus!
