//! The safety copies kept beside the expansions file: what each one is called, and which ones go
//! once there are too many.

use vstd::prelude::*;
use crate::text::{owned, push_str, decimal, decimal_spec};

verus! {

/// How many backups are kept.
pub const BACKUPS_KEPT: usize = 20;

/// The name of the backup of `file_name` taken at `secs` seconds past the epoch.
pub fn backup_name(file_name: &str, secs: u64) -> (r: String)
    ensures
        r@ == file_name@ + "."@ + decimal_spec(secs as nat) + ".bak"@,
{
    let mut r = owned(file_name);
    push_str(&mut r, ".");
    let d = decimal(secs);
    push_str(&mut r, d.as_str());
    push_str(&mut r, ".bak");
    r
}

/// The name a settings file that will not parse is moved to, at `secs` seconds past the epoch: a
/// second bad file must not erase the first.
pub fn damaged_settings_name(secs: u64) -> (r: String)
    ensures
        r@ == "settings.json."@ + decimal_spec(secs as nat) + ".bad"@,
{
    let mut r = owned("settings.json.");
    let d = decimal(secs);
    push_str(&mut r, d.as_str());
    push_str(&mut r, ".bad");
    r
}

/// When a file was last written, if the system could say: unknown sorts before any known moment.
pub open spec fn key_le(a: Option<u128>, b: Option<u128>) -> bool {
    match (a, b) {
        (None, _) => true,
        (Some(_), None) => false,
        (Some(x), Some(y)) => x <= y,
    }
}

/// `x` placed into the sorted `s` after every file no newer than it, so that files written at the
/// same moment keep the order they came in.
pub open spec fn insert_stable(s: Seq<(Seq<char>, Option<u128>)>, x: (Seq<char>, Option<u128>)) -> Seq<(Seq<char>, Option<u128>)>
    decreases s.len(),
{
    if s.len() == 0 {
        seq![x]
    } else if key_le(s.last().1, x.1) {
        s.push(x)
    } else {
        insert_stable(s.drop_last(), x).push(s.last())
    }
}

/// The files oldest first, in a stable order: those written at the same moment keep the order
/// they were listed in.
pub open spec fn oldest_first(s: Seq<(Seq<char>, Option<u128>)>) -> Seq<(Seq<char>, Option<u128>)>
    decreases s.len(),
{
    if s.len() == 0 { s } else { insert_stable(oldest_first(s.drop_last()), s.last()) }
}

/// The backups to delete so that `keep` remain: the oldest ones, oldest first.
pub open spec fn prune_spec(files: Seq<(Seq<char>, Option<u128>)>, keep: nat) -> Seq<Seq<char>> {
    if files.len() > keep {
        oldest_first(files).take(files.len() - keep).map_values(|f: (Seq<char>, Option<u128>)| f.0)
    } else {
        Seq::empty()
    }
}

/// The files as plain values.
pub open spec fn files_view(files: Seq<(String, Option<u128>)>) -> Seq<(Seq<char>, Option<u128>)> {
    files.map_values(|f: (String, Option<u128>)| (f.0@, f.1))
}

fn le(a: Option<u128>, b: Option<u128>) -> (r: bool)
    ensures
        r == key_le(a, b),
{
    match (a, b) {
        (None, _) => true,
        (Some(_), None) => false,
        (Some(x), Some(y)) => x <= y,
    }
}

proof fn lemma_insert_at(s: Seq<(Seq<char>, Option<u128>)>, x: (Seq<char>, Option<u128>), j: int)
    requires
        0 <= j <= s.len(),
        forall|i: int| j <= i < s.len() ==> !key_le(#[trigger] s[i].1, x.1),
        j == 0 || key_le(s[j - 1].1, x.1),
    ensures
        insert_stable(s, x) == s.subrange(0, j).push(x) + s.subrange(j, s.len() as int),
    decreases s.len() - j,
{
    if s.len() == 0 {
        assert(s.subrange(0, j).push(x) + s.subrange(j, s.len() as int) =~= seq![x]);
    } else if j == s.len() {
        assert(s.subrange(0, j) =~= s);
        assert(s.subrange(0, j).push(x) + s.subrange(j, s.len() as int) =~= s.push(x));
    } else {
        let init = s.drop_last();
        assert forall|i: int| j <= i < init.len() implies !key_le(#[trigger] init[i].1, x.1) by {
            assert(init[i] == s[i]);
        }
        if j > 0 {
            assert(init[j - 1] == s[j - 1]);
        }
        lemma_insert_at(init, x, j);
        assert(!key_le(s.last().1, x.1)) by {
            assert(s[s.len() - 1] == s.last());
        }
        assert(init.subrange(0, j) =~= s.subrange(0, j));
        assert(init.subrange(0, j).push(x) + init.subrange(j, init.len() as int) + seq![s.last()]
            =~= s.subrange(0, j).push(x) + s.subrange(j, s.len() as int));
        assert((init.subrange(0, j).push(x) + init.subrange(j, init.len() as int)).push(s.last())
            =~= init.subrange(0, j).push(x) + init.subrange(j, init.len() as int) + seq![s.last()]);
    }
}

/// The backups to delete so that `keep` remain — the oldest ones, by when they were last written,
/// oldest first; those written at the same moment go in the order they were listed.
pub fn backups_to_prune(files: &Vec<(String, Option<u128>)>, keep: usize) -> (r: Vec<String>)
    ensures
        r@.map_values(|s: String| s@) == prune_spec(files_view(files@), keep as nat),
{
    let ghost fv = files_view(files@);
    let mut sorted: Vec<(String, Option<u128>)> = Vec::new();
    let mut i: usize = 0;
    while i < files.len()
        invariant
            i <= files@.len(),
            fv == files_view(files@),
            files_view(sorted@) == oldest_first(fv.subrange(0, i as int)),
        decreases files.len() - i,
    {
        let x = (owned(files[i].0.as_str()), files[i].1);
        let ghost s = files_view(sorted@);
        let mut j: usize = sorted.len();
        while j > 0 && !le(sorted[j - 1].1, x.1)
            invariant
                j <= sorted@.len(),
                s == files_view(sorted@),
                forall|k: int| j <= k < s.len() ==> !key_le(#[trigger] s[k].1, x.1),
            decreases j,
        {
            j -= 1;
        }
        proof {
            if j > 0 {
                assert(key_le(s[j - 1].1, x.1));
            }
            lemma_insert_at(s, (x.0@, x.1), j as int);
        }
        sorted.insert(j, x);
        proof {
            assert(files_view(sorted@) =~= s.subrange(0, j as int).push((x.0@, x.1)) + s.subrange(j as int, s.len() as int));
            let head = fv.subrange(0, i + 1);
            assert(head.drop_last() =~= fv.subrange(0, i as int));
            assert(head.last() == (x.0@, x.1));
        }
        i += 1;
    }
    assert(fv.subrange(0, fv.len() as int) =~= fv);
    let mut out: Vec<String> = Vec::new();
    if sorted.len() > keep {
        let n = sorted.len() - keep;
        let mut k: usize = 0;
        while k < n
            invariant
                k <= n <= sorted@.len(),
                out@.map_values(|s: String| s@) == files_view(sorted@).take(k as int).map_values(|f: (Seq<char>, Option<u128>)| f.0),
            decreases n - k,
        {
            let ghost before = out@.map_values(|s: String| s@);
            out.push(owned(sorted[k].0.as_str()));
            assert(out@.map_values(|s: String| s@) =~= before.push(sorted@[k as int].0@));
            assert(files_view(sorted@).take(k + 1).map_values(|f: (Seq<char>, Option<u128>)| f.0)
                =~= files_view(sorted@).take(k as int).map_values(|f: (Seq<char>, Option<u128>)| f.0).push(sorted@[k as int].0@));
            assert(out@.map_values(|s: String| s@) =~= files_view(sorted@).take(k + 1).map_values(|f: (Seq<char>, Option<u128>)| f.0));
            k += 1;
        }
        proof {
            lemma_sort_len(fv);
        }
    } else {
        proof {
            lemma_sort_len(fv);
        }
    }
    out
}

proof fn lemma_insert_len(s: Seq<(Seq<char>, Option<u128>)>, x: (Seq<char>, Option<u128>))
    ensures
        insert_stable(s, x).len() == s.len() + 1,
    decreases s.len(),
{
    if s.len() > 0 && !key_le(s.last().1, x.1) {
        lemma_insert_len(s.drop_last(), x);
    }
}

proof fn lemma_sort_len(s: Seq<(Seq<char>, Option<u128>)>)
    ensures
        oldest_first(s).len() == s.len(),
    decreases s.len(),
{
    if s.len() > 0 {
        lemma_sort_len(s.drop_last());
        lemma_insert_len(oldest_first(s.drop_last()), s.last());
    }
}

// ---------------------------------------------------------------------------------------------
// Laws
// ---------------------------------------------------------------------------------------------

/// Files in order of when they were written.
pub open spec fn in_age_order(s: Seq<(Seq<char>, Option<u128>)>) -> bool {
    forall|i: int, j: int| 0 <= i < j < s.len() ==> key_le(#[trigger] s[i].1, #[trigger] s[j].1)
}

proof fn lemma_key_total(a: Option<u128>, b: Option<u128>)
    ensures
        key_le(a, b) || key_le(b, a),
{
}

proof fn lemma_key_trans(a: Option<u128>, b: Option<u128>, c: Option<u128>)
    requires
        key_le(a, b),
        key_le(b, c),
    ensures
        key_le(a, c),
{
}

proof fn lemma_insert_sorted(s: Seq<(Seq<char>, Option<u128>)>, x: (Seq<char>, Option<u128>))
    requires
        in_age_order(s),
    ensures
        in_age_order(insert_stable(s, x)),
        forall|i: int| 0 <= i < insert_stable(s, x).len() ==>
            (#[trigger] insert_stable(s, x)[i] == x || s.contains(insert_stable(s, x)[i])),
    decreases s.len(),
{
    let r = insert_stable(s, x);
    if s.len() == 0 {
    } else if key_le(s.last().1, x.1) {
        assert forall|i: int, j: int| 0 <= i < j < r.len() implies key_le(#[trigger] r[i].1, #[trigger] r[j].1) by {
            if j == s.len() {
                assert(s[s.len() - 1] == s.last());
                if i < s.len() - 1 {
                    assert(key_le(s[i].1, s[s.len() - 1].1));
                    lemma_key_trans(s[i].1, s.last().1, x.1);
                }
            } else {
                assert(r[i] == s[i] && r[j] == s[j]);
            }
        }
        assert forall|i: int| 0 <= i < r.len() implies (#[trigger] r[i] == x || s.contains(r[i])) by {
            if i < s.len() {
                assert(r[i] == s[i]);
            }
        }
    } else {
        let init = s.drop_last();
        assert(in_age_order(init)) by {
            assert forall|i: int, j: int| 0 <= i < j < init.len() implies key_le(#[trigger] init[i].1, #[trigger] init[j].1) by {
                assert(init[i] == s[i] && init[j] == s[j]);
            }
        }
        lemma_insert_sorted(init, x);
        let m = insert_stable(init, x);
        lemma_key_total(s.last().1, x.1);
        assert forall|i: int, j: int| 0 <= i < j < r.len() implies key_le(#[trigger] r[i].1, #[trigger] r[j].1) by {
            if j == r.len() - 1 {
                assert(r[j] == s.last());
                assert(r[i] == m[i]);
                if m[i] == x {
                } else {
                    assert(init.contains(m[i]));
                    let k = choose|k: int| 0 <= k < init.len() && init[k] == m[i];
                    assert(s[k] == init[k]);
                    assert(key_le(s[k].1, s[s.len() - 1].1));
                    assert(s[s.len() - 1] == s.last());
                }
            } else {
                assert(r[i] == m[i] && r[j] == m[j]);
            }
        }
        assert forall|i: int| 0 <= i < r.len() implies (#[trigger] r[i] == x || s.contains(r[i])) by {
            if i == r.len() - 1 {
                assert(s[s.len() - 1] == s.last());
            } else {
                assert(r[i] == m[i]);
                if m[i] != x {
                    let k = choose|k: int| 0 <= k < init.len() && init[k] == m[i];
                    assert(s[k] == init[k]);
                }
            }
        }
    }
}

proof fn lemma_sort_sorted(s: Seq<(Seq<char>, Option<u128>)>)
    ensures
        in_age_order(oldest_first(s)),
    decreases s.len(),
{
    if s.len() > 0 {
        lemma_sort_sorted(s.drop_last());
        lemma_insert_sorted(oldest_first(s.drop_last()), s.last());
    }
}

/// Pruning always leaves exactly `keep` backups when there were more, and never deletes one that
/// is newer than one it keeps: the files are taken oldest first.
pub proof fn law_prune_takes_the_oldest(files: Seq<(Seq<char>, Option<u128>)>, keep: nat)
    ensures
        prune_spec(files, keep).len() == (if files.len() > keep { files.len() - keep } else { 0 }),
        in_age_order(oldest_first(files)),
        oldest_first(files).len() == files.len(),
{
    lemma_sort_len(files);
    lemma_sort_sorted(files);
}

} // verus!
