//! The app's own settings, and the folder grouping that lives in them.
//!
//! Folders are entirely this app's bookkeeping — never written into espanso's YAML — keyed by each
//! match's current trigger. Reading and writing `settings.json` happens outside this library.

use vstd::prelude::*;
use crate::i18n::{Lang, strings_spec, fill, fill_spec, args_view};
use crate::strings::Strings;
use crate::theme::ThemeMode;
use crate::order::{strictly_sorted, insert_sorted_unique};
use crate::text::{chars_of, chars_eq, str_eq, owned, trim, trim_spec};

verus! {

/// The prefixes the settings screen suggests.
pub const PREFIX_SUGGESTIONS: [&'static str; 5] = [":", "::", ";", "?", "//"];

/// Key/value pairs as character sequences.
pub type Pairs = Seq<(Seq<char>, Seq<char>)>;

/// The pairs of a list of owned pairs.
pub open spec fn pairs_view(entries: Seq<(String, String)>) -> Pairs {
    entries.map_values(|p: (String, String)| (p.0@, p.1@))
}

/// The map a list of pairs describes, later pairs winning.
pub open spec fn map_of(ps: Pairs) -> Map<Seq<char>, Seq<char>>
    decreases ps.len(),
{
    if ps.len() == 0 {
        Map::empty()
    } else {
        map_of(ps.drop_last()).insert(ps.last().0, ps.last().1)
    }
}

/// No key appears twice.
pub open spec fn keys_distinct(ps: Pairs) -> bool {
    forall|i: int, j: int| 0 <= i < j < ps.len() ==> #[trigger] ps[i].0 != #[trigger] ps[j].0
}

pub proof fn lemma_map_of_dom(ps: Pairs, k: Seq<char>)
    ensures
        map_of(ps).dom().contains(k) <==> exists|i: int| 0 <= i < ps.len() && #[trigger] ps[i].0 == k,
    decreases ps.len(),
{
    if ps.len() > 0 {
        let init = ps.drop_last();
        lemma_map_of_dom(init, k);
        if exists|i: int| 0 <= i < init.len() && #[trigger] init[i].0 == k {
            let i = choose|i: int| 0 <= i < init.len() && #[trigger] init[i].0 == k;
            assert(ps[i].0 == k);
        }
        if exists|i: int| 0 <= i < ps.len() && #[trigger] ps[i].0 == k {
            let i = choose|i: int| 0 <= i < ps.len() && #[trigger] ps[i].0 == k;
            if i < init.len() {
                assert(init[i].0 == k);
            }
        }
    }
}

pub proof fn lemma_distinct_init(ps: Pairs)
    requires
        keys_distinct(ps),
        ps.len() > 0,
    ensures
        keys_distinct(ps.drop_last()),
        !map_of(ps.drop_last()).dom().contains(ps.last().0),
{
    let init = ps.drop_last();
    assert forall|a: int, b: int| 0 <= a < b < init.len() implies #[trigger] init[a].0 != #[trigger] init[b].0 by {
        assert(init[a] == ps[a] && init[b] == ps[b]);
    }
    lemma_map_of_dom(init, ps.last().0);
    if exists|i: int| 0 <= i < init.len() && #[trigger] init[i].0 == ps.last().0 {
        let i = choose|i: int| 0 <= i < init.len() && #[trigger] init[i].0 == ps.last().0;
        assert(ps[i].0 != ps[ps.len() - 1].0);
    }
}

pub proof fn lemma_map_of_at(ps: Pairs, i: int)
    requires
        keys_distinct(ps),
        0 <= i < ps.len(),
    ensures
        map_of(ps).dom().contains(ps[i].0),
        map_of(ps)[ps[i].0] == ps[i].1,
    decreases ps.len(),
{
    let init = ps.drop_last();
    if i < ps.len() - 1 {
        lemma_distinct_init(ps);
        assert(init[i] == ps[i]);
        lemma_map_of_at(init, i);
        assert(ps[i].0 != ps.last().0);
    }
}

pub proof fn lemma_map_of_finite(ps: Pairs)
    ensures
        map_of(ps).dom().finite(),
    decreases ps.len(),
{
    if ps.len() > 0 {
        lemma_map_of_finite(ps.drop_last());
    }
}

pub proof fn lemma_map_of_len(ps: Pairs)
    requires
        keys_distinct(ps),
    ensures
        map_of(ps).dom().len() == ps.len(),
    decreases ps.len(),
{
    if ps.len() > 0 {
        lemma_distinct_init(ps);
        lemma_map_of_len(ps.drop_last());
        lemma_map_of_finite(ps.drop_last());
    }
}

/// Two distinct-key lists with the same pairs at every position but `i` describe maps that agree
/// away from their keys at `i`.
proof fn lemma_map_of_set(ps: Pairs, i: int, v: Seq<char>)
    requires
        keys_distinct(ps),
        0 <= i < ps.len(),
    ensures
        keys_distinct(ps.update(i, (ps[i].0, v))),
        map_of(ps.update(i, (ps[i].0, v))) == map_of(ps).insert(ps[i].0, v),
{
    let ne = ps.update(i, (ps[i].0, v));
    assert forall|a: int, b: int| 0 <= a < b < ne.len() implies #[trigger] ne[a].0 != #[trigger] ne[b].0 by {
        assert(ne[a].0 == ps[a].0 && ne[b].0 == ps[b].0);
    }
    assert forall|x: Seq<char>| #[trigger] map_of(ne).dom().contains(x) == map_of(ps).insert(ps[i].0, v).dom().contains(x) by {
        lemma_map_of_dom(ne, x);
        lemma_map_of_dom(ps, x);
        if exists|j: int| 0 <= j < ne.len() && #[trigger] ne[j].0 == x {
            let j = choose|j: int| 0 <= j < ne.len() && #[trigger] ne[j].0 == x;
            assert(ps[j].0 == x);
        }
        if exists|j: int| 0 <= j < ps.len() && #[trigger] ps[j].0 == x {
            let j = choose|j: int| 0 <= j < ps.len() && #[trigger] ps[j].0 == x;
            assert(ne[j].0 == x);
        }
    }
    assert forall|x: Seq<char>| #[trigger] map_of(ne).dom().contains(x) implies map_of(ne)[x] == map_of(ps).insert(ps[i].0, v)[x] by {
        lemma_map_of_dom(ne, x);
        let j = choose|j: int| 0 <= j < ne.len() && #[trigger] ne[j].0 == x;
        lemma_map_of_at(ne, j);
        if j != i {
            assert(ps[j] == ne[j]);
            lemma_map_of_at(ps, j);
        }
    }
    assert(map_of(ne) =~= map_of(ps).insert(ps[i].0, v));
}

proof fn lemma_map_of_remove(ps: Pairs, i: int)
    requires
        keys_distinct(ps),
        0 <= i < ps.len(),
    ensures
        keys_distinct(ps.remove(i)),
        map_of(ps.remove(i)) == map_of(ps).remove(ps[i].0),
{
    let ne = ps.remove(i);
    assert forall|a: int, b: int| 0 <= a < b < ne.len() implies #[trigger] ne[a].0 != #[trigger] ne[b].0 by {
        let oa = if a < i { a } else { a + 1 };
        let ob = if b < i { b } else { b + 1 };
        assert(ne[a] == ps[oa] && ne[b] == ps[ob]);
    }
    assert forall|x: Seq<char>| #[trigger] map_of(ne).dom().contains(x) == map_of(ps).remove(ps[i].0).dom().contains(x) by {
        lemma_map_of_dom(ne, x);
        lemma_map_of_dom(ps, x);
        if exists|j: int| 0 <= j < ne.len() && #[trigger] ne[j].0 == x {
            let j = choose|j: int| 0 <= j < ne.len() && #[trigger] ne[j].0 == x;
            let oj = if j < i { j } else { j + 1 };
            assert(ps[oj].0 == x);
            assert(x != ps[i].0);
        }
        if x != ps[i].0 && exists|j: int| 0 <= j < ps.len() && #[trigger] ps[j].0 == x {
            let j = choose|j: int| 0 <= j < ps.len() && #[trigger] ps[j].0 == x;
            let nj = if j < i { j } else { j - 1 };
            assert(ne[nj].0 == x);
        }
    }
    assert forall|x: Seq<char>| #[trigger] map_of(ne).dom().contains(x) implies map_of(ne)[x] == map_of(ps).remove(ps[i].0)[x] by {
        lemma_map_of_dom(ne, x);
        let j = choose|j: int| 0 <= j < ne.len() && #[trigger] ne[j].0 == x;
        lemma_map_of_at(ne, j);
        let oj = if j < i { j } else { j + 1 };
        assert(ps[oj] == ne[j]);
        lemma_map_of_at(ps, oj);
    }
    assert(map_of(ne) =~= map_of(ps).remove(ps[i].0));
}

/// Trigger → folder name, with no trigger filed twice.
pub struct FolderMap {
    entries: Vec<(String, String)>,
}

impl View for FolderMap {
    type V = Map<Seq<char>, Seq<char>>;

    closed spec fn view(&self) -> Map<Seq<char>, Seq<char>> {
        map_of(pairs_view(self.entries@))
    }
}

fn owned_pair(k: &str, v: &str) -> (r: (String, String))
    ensures
        r.0@ == k@,
        r.1@ == v@,
{
    (owned(k), owned(v))
}

/// Whether `live` holds a string with the text of `key`.
pub fn contains_string(live: &[String], key: &str) -> (r: bool)
    ensures
        r == live@.map_values(|s: String| s@).contains(key@),
{
    let ghost lv = live@.map_values(|s: String| s@);
    let mut i: usize = 0;
    while i < live.len()
        invariant
            i <= live@.len(),
            lv == live@.map_values(|s: String| s@),
            forall|k: int| 0 <= k < i ==> lv[k] != key@,
        decreases live.len() - i,
    {
        if str_eq(live[i].as_str(), key) {
            assert(lv[i as int] == key@);
            return true;
        }
        i += 1;
    }
    false
}

impl FolderMap {
    /// The map is well formed: no trigger is filed twice.
    pub closed spec fn wf(&self) -> bool {
        keys_distinct(pairs_view(self.entries@))
    }

    /// An empty map.
    pub fn new() -> (r: FolderMap)
        ensures
            r.wf(),
            r@ == Map::<Seq<char>, Seq<char>>::empty(),
    {
        let r = FolderMap { entries: Vec::new() };
        assert(pairs_view(r.entries@) =~= Seq::<(Seq<char>, Seq<char>)>::empty());
        r
    }

    /// How many triggers are filed.
    pub fn len(&self) -> (r: usize)
        requires
            self.wf(),
        ensures
            r == self@.dom().len(),
            self@.dom().finite(),
    {
        proof {
            lemma_map_of_len(pairs_view(self.entries@));
            lemma_map_of_finite(pairs_view(self.entries@));
        }
        self.entries.len()
    }

    fn index_of(&self, key: &str) -> (r: Option<usize>)
        requires
            self.wf(),
        ensures
            match r {
                Some(i) => i < self.entries@.len() && self.entries@[i as int].0@ == key@,
                None => !self@.dom().contains(key@),
            },
    {
        let ghost pv = pairs_view(self.entries@);
        let mut i: usize = 0;
        while i < self.entries.len()
            invariant
                i <= self.entries@.len(),
                pv == pairs_view(self.entries@),
                forall|j: int| 0 <= j < i ==> #[trigger] pv[j].0 != key@,
            decreases self.entries.len() - i,
        {
            if str_eq(self.entries[i].0.as_str(), key) {
                return Some(i);
            }
            i += 1;
        }
        proof {
            lemma_map_of_dom(pv, key@);
        }
        None
    }

    /// The folder `key` is filed under, if any.
    pub fn get(&self, key: &str) -> (r: Option<&str>)
        requires
            self.wf(),
        ensures
            match r {
                Some(v) => self@.dom().contains(key@) && self@[key@] == v@,
                None => !self@.dom().contains(key@),
            },
    {
        match self.index_of(key) {
            Some(i) => {
                proof {
                    lemma_map_of_at(pairs_view(self.entries@), i as int);
                }
                Some(self.entries[i].1.as_str())
            },
            None => None,
        }
    }

    /// Files `key` under `value`, replacing any folder it had.
    pub fn insert(&mut self, key: &str, value: &str)
        requires
            old(self).wf(),
        ensures
            final(self).wf(),
            final(self)@ == old(self)@.insert(key@, value@),
    {
        let ghost pv = pairs_view(self.entries@);
        match self.index_of(key) {
            Some(i) => {
                self.entries.set(i, owned_pair(key, value));
                proof {
                    lemma_map_of_set(pv, i as int, value@);
                    assert(pairs_view(self.entries@) =~= pv.update(i as int, (pv[i as int].0, value@)));
                }
            },
            None => {
                self.entries.push(owned_pair(key, value));
                proof {
                    let ne = pairs_view(self.entries@);
                    assert(ne =~= pv.push((key@, value@)));
                    assert(ne.drop_last() =~= pv);
                    assert forall|a: int, b: int| 0 <= a < b < ne.len() implies #[trigger] ne[a].0 != #[trigger] ne[b].0 by {
                        if b == ne.len() - 1 {
                            lemma_map_of_dom(pv, key@);
                            assert(pv[a].0 == ne[a].0);
                        } else {
                            assert(ne[a] == pv[a] && ne[b] == pv[b]);
                        }
                    }
                }
            },
        }
    }

    /// Unfiles `key`, handing back the folder it was under.
    pub fn remove(&mut self, key: &str) -> (r: Option<String>)
        requires
            old(self).wf(),
        ensures
            final(self).wf(),
            final(self)@ == old(self)@.remove(key@),
            match r {
                Some(v) => old(self)@.dom().contains(key@) && old(self)@[key@] == v@,
                None => !old(self)@.dom().contains(key@),
            },
    {
        let ghost pv = pairs_view(self.entries@);
        match self.index_of(key) {
            Some(i) => {
                proof {
                    lemma_map_of_at(pv, i as int);
                    lemma_map_of_remove(pv, i as int);
                }
                let (_, v) = self.entries.remove(i);
                assert(pairs_view(self.entries@) =~= pv.remove(i as int));
                Some(v)
            },
            None => {
                assert(old(self)@.remove(key@) =~= old(self)@);
                None
            },
        }
    }

    /// Keeps only the triggers in `live`, and says how many were dropped.
    pub fn retain_keys(&mut self, live: &[String]) -> (r: usize)
        requires
            old(self).wf(),
        ensures
            final(self).wf(),
            final(self)@ == old(self)@.restrict(live@.map_values(|s: String| s@).to_set()),
            r == old(self)@.dom().len() - final(self)@.dom().len(),
    {
        let ghost pv = pairs_view(self.entries@);
        let ghost live_set = live@.map_values(|s: String| s@).to_set();
        let mut kept: Vec<(String, String)> = Vec::new();
        let mut dropped: usize = 0;
        let mut i: usize = 0;
        assert(pv.take(0) =~= Seq::<(Seq<char>, Seq<char>)>::empty());
        assert(map_of(pairs_view(kept@)) =~= map_of(pv.take(0)).restrict(live_set));
        while i < self.entries.len()
            invariant
                i <= pv.len(),
                pv == pairs_view(self.entries@),
                live_set == live@.map_values(|s: String| s@).to_set(),
                keys_distinct(pv),
                keys_distinct(pairs_view(kept@)),
                map_of(pairs_view(kept@)) == map_of(pv.take(i as int)).restrict(live_set),
                kept@.len() + dropped == i,
            decreases self.entries.len() - i,
        {
            let ghost kv = pairs_view(kept@);
            let ghost k = pv[i as int].0;
            let ghost v = pv[i as int].1;
            assert(pv.take(i + 1).drop_last() =~= pv.take(i as int));
            assert(map_of(pv.take(i + 1)) == map_of(pv.take(i as int)).insert(k, v));
            assert(pv[i as int].0 == self.entries@[i as int].0@);
            let alive = contains_string(live, self.entries[i].0.as_str());
            assert(live_set.contains(k) == live@.map_values(|s: String| s@).contains(k));
            if alive {
                kept.push(owned_pair(self.entries[i].0.as_str(), self.entries[i].1.as_str()));
                proof {
                    let nk = pairs_view(kept@);
                    assert(nk =~= kv.push((k, v)));
                    assert(nk.drop_last() =~= kv);
                    // `k` cannot already be kept: everything kept came from before position `i`.
                    lemma_map_of_dom(pv.take(i as int), k);
                    if exists|j: int| 0 <= j < i && #[trigger] pv.take(i as int)[j].0 == k {
                        let j = choose|j: int| 0 <= j < i && #[trigger] pv.take(i as int)[j].0 == k;
                        assert(pv[j].0 == k);
                    }
                    lemma_map_of_dom(kv, k);
                    assert forall|a: int, b: int| 0 <= a < b < nk.len() implies #[trigger] nk[a].0 != #[trigger] nk[b].0 by {
                        if b == nk.len() - 1 {
                            assert(nk[a] == kv[a]);
                            assert(map_of(kv).dom().contains(kv[a].0)) by {
                                lemma_map_of_dom(kv, kv[a].0);
                            }
                        } else {
                            assert(nk[a] == kv[a] && nk[b] == kv[b]);
                        }
                    }
                    assert(map_of(nk) =~= map_of(pv.take(i + 1)).restrict(live_set));
                }
            } else {
                dropped += 1;
                assert(map_of(kv) =~= map_of(pv.take(i + 1)).restrict(live_set));
            }
            i += 1;
        }
        proof {
            assert(pv.take(pv.len() as int) =~= pv);
            lemma_map_of_len(pv);
            lemma_map_of_len(pairs_view(kept@));
        }
        self.entries = kept;
        dropped
    }

    /// Every folder name in use, sorted A→Z, each once.
    pub fn folder_names(&self) -> (r: Vec<String>)
        requires
            self.wf(),
        ensures
            strictly_sorted(r@.map_values(|s: String| s@)),
            r@.map_values(|s: String| s@).to_set() == self@.values(),
    {
        let ghost pv = pairs_view(self.entries@);
        let mut names: Vec<String> = Vec::new();
        let mut i: usize = 0;
        assert(names@.map_values(|s: String| s@).to_set() =~= Set::<Seq<char>>::empty());
        while i < self.entries.len()
            invariant
                i <= pv.len(),
                pv == pairs_view(self.entries@),
                keys_distinct(pv),
                strictly_sorted(names@.map_values(|s: String| s@)),
                names@.map_values(|s: String| s@).to_set() == Set::new(|x: Seq<char>| exists|j: int| 0 <= j < i && #[trigger] pv[j].1 == x),
            decreases self.entries.len() - i,
        {
            let ghost before = names@.map_values(|s: String| s@).to_set();
            insert_sorted_unique(&mut names, self.entries[i].1.as_str());
            proof {
                assert forall|x: Seq<char>| #[trigger] before.insert(pv[i as int].1).contains(x)
                    == (exists|j: int| 0 <= j < i + 1 && #[trigger] pv[j].1 == x) by {
                    if exists|j: int| 0 <= j < i + 1 && #[trigger] pv[j].1 == x {
                        let j = choose|j: int| 0 <= j < i + 1 && #[trigger] pv[j].1 == x;
                        if j < i {
                            assert(before.contains(x));
                        }
                    }
                }
                assert(before.insert(pv[i as int].1) =~= Set::new(|x: Seq<char>| exists|j: int| 0 <= j < i + 1 && #[trigger] pv[j].1 == x));
            }
            i += 1;
        }
        proof {
            let m = map_of(pv);
            assert forall|x: Seq<char>| #[trigger] m.values().contains(x) == (exists|j: int| 0 <= j < pv.len() && #[trigger] pv[j].1 == x) by {
                if m.values().contains(x) {
                    let k = choose|k: Seq<char>| #[trigger] m.dom().contains(k) && m[k] == x;
                    lemma_map_of_dom(pv, k);
                    let j = choose|j: int| 0 <= j < pv.len() && #[trigger] pv[j].0 == k;
                    lemma_map_of_at(pv, j);
                }
                if exists|j: int| 0 <= j < pv.len() && #[trigger] pv[j].1 == x {
                    let j = choose|j: int| 0 <= j < pv.len() && #[trigger] pv[j].1 == x;
                    lemma_map_of_at(pv, j);
                    assert(m.dom().contains(pv[j].0) && m[pv[j].0] == x);
                }
            }
            assert(names@.map_values(|s: String| s@).to_set() =~= m.values());
        }
        names
    }

    /// Renames folder `from` to `to` wherever it is used.
    pub fn rename_value(&mut self, from: &str, to: &str)
        requires
            old(self).wf(),
        ensures
            final(self).wf(),
            final(self)@.dom() == old(self)@.dom(),
            forall|k: Seq<char>| #[trigger] final(self)@.dom().contains(k) ==> final(self)@[k] == (if old(self)@[k] == from@ {
                to@
            } else {
                old(self)@[k]
            }),
    {
        let ghost pv = pairs_view(self.entries@);
        let mut i: usize = 0;
        while i < self.entries.len()
            invariant
                i <= pv.len(),
                self.entries@.len() == pv.len(),
                keys_distinct(pv),
                forall|j: int| 0 <= j < pv.len() ==> #[trigger] pairs_view(self.entries@)[j].0 == pv[j].0,
                forall|j: int| 0 <= j < i ==> #[trigger] pairs_view(self.entries@)[j].1 == (if pv[j].1 == from@ { to@ } else { pv[j].1 }),
                forall|j: int| i <= j < pv.len() ==> #[trigger] pairs_view(self.entries@)[j].1 == pv[j].1,
            decreases pv.len() - i,
        {
            let ghost before = pairs_view(self.entries@);
            let ghost old_vec = self.entries@;
            assert(before[i as int].1 == pv[i as int].1);
            assert(before[i as int].1 == self.entries@[i as int].1@);
            if str_eq(self.entries[i].1.as_str(), from) {
                let key = owned(self.entries[i].0.as_str());
                self.entries.set(i, (key, owned(to)));
                proof {
                    assert forall|j: int| 0 <= j < pv.len() implies #[trigger] pairs_view(self.entries@)[j]
                        == (if j == i { (before[j].0, to@) } else { before[j] }) by {
                        if j != i {
                            assert(self.entries@[j] == old_vec[j]);
                        }
                    }
                }
            }
            i += 1;
        }
        proof {
            let ne = pairs_view(self.entries@);
            assert forall|a: int, b: int| 0 <= a < b < ne.len() implies #[trigger] ne[a].0 != #[trigger] ne[b].0 by {
                assert(ne[a].0 == pv[a].0 && ne[b].0 == pv[b].0);
            }
            assert forall|x: Seq<char>| #[trigger] map_of(ne).dom().contains(x) == map_of(pv).dom().contains(x) by {
                lemma_map_of_dom(ne, x);
                lemma_map_of_dom(pv, x);
                if exists|j: int| 0 <= j < ne.len() && #[trigger] ne[j].0 == x {
                    let j = choose|j: int| 0 <= j < ne.len() && #[trigger] ne[j].0 == x;
                    assert(pv[j].0 == x);
                }
                if exists|j: int| 0 <= j < pv.len() && #[trigger] pv[j].0 == x {
                    let j = choose|j: int| 0 <= j < pv.len() && #[trigger] pv[j].0 == x;
                    assert(ne[j].0 == x);
                }
            }
            assert(map_of(ne).dom() =~= map_of(pv).dom());
            assert forall|k: Seq<char>| #[trigger] map_of(ne).dom().contains(k) implies map_of(ne)[k] == (if map_of(pv)[k] == from@ {
                to@
            } else {
                map_of(pv)[k]
            }) by {
                lemma_map_of_dom(ne, k);
                let j = choose|j: int| 0 <= j < ne.len() && #[trigger] ne[j].0 == k;
                lemma_map_of_at(ne, j);
                lemma_map_of_at(pv, j);
            }
        }
    }

    /// The filings as (trigger, folder) pairs, each trigger once.
    pub fn to_pairs(&self) -> (r: Vec<(String, String)>)
        requires
            self.wf(),
        ensures
            keys_distinct(pairs_view(r@)),
            map_of(pairs_view(r@)) == self@,
    {
        let mut out: Vec<(String, String)> = Vec::new();
        let mut i: usize = 0;
        while i < self.entries.len()
            invariant
                i <= self.entries@.len(),
                out@.len() == i,
                forall|j: int| 0 <= j < i ==> #[trigger] pairs_view(out@)[j] == pairs_view(self.entries@)[j],
            decreases self.entries.len() - i,
        {
            let ghost out0 = out@;
            out.push(owned_pair(self.entries[i].0.as_str(), self.entries[i].1.as_str()));
            proof {
                assert forall|j: int| 0 <= j < i + 1 implies #[trigger] pairs_view(out@)[j] == pairs_view(self.entries@)[j] by {
                    if j < i {
                        assert(out@[j] == out0[j]);
                        assert(pairs_view(out0)[j] == pairs_view(self.entries@)[j]);
                    }
                }
            }
            i += 1;
        }
        assert(pairs_view(out@) =~= pairs_view(self.entries@));
        out
    }
}

/// The app's own settings.
pub struct Settings {
    pub prefix: String,
    /// Optional folder grouping, keyed by each match's current trigger.
    pub folder_by_trigger: FolderMap,
    /// Renders the list as short single-line rows instead of two-line cards.
    pub compact_view: bool,
    /// Interface language. Independent of the expansions themselves, which are never translated.
    pub lang: Lang,
    /// Light/dark appearance, or follow Windows.
    pub theme_mode: ThemeMode,
    /// Whether the first-run screen has been seen.
    pub onboarding_done: bool,
}

/// The folder a form's choice files an expansion under: its trimmed name, or none when blank.
pub open spec fn filed_folder(folder: Option<Seq<char>>) -> Option<Seq<char>> {
    match folder {
        Some(f) => if trim_spec(f).len() == 0 { None } else { Some(trim_spec(f)) },
        None => None,
    }
}

/// The user's choices are those of a new installation: the `:` prefix, English, following
/// Windows' light or dark, and cards rather than compact rows.
pub open spec fn default_choices(s: Settings) -> bool {
    &&& s.prefix@ == ":"@
    &&& s.lang == Lang::En
    &&& s.theme_mode == ThemeMode::System
    &&& !s.compact_view
}

/// Two settings that differ at most in their folder assignments.
pub open spec fn same_but_folders(a: Settings, b: Settings) -> bool {
    &&& a.prefix == b.prefix
    &&& a.lang == b.lang
    &&& a.theme_mode == b.theme_mode
    &&& a.compact_view == b.compact_view
    &&& a.onboarding_done == b.onboarding_done
}

impl Settings {
    /// The settings are well formed.
    pub open spec fn wf(&self) -> bool {
        self.folder_by_trigger.wf()
    }

    /// The settings of a folder this app has never run in.
    pub fn defaults() -> (r: Settings)
        ensures
            r.wf(),
            default_choices(r),
            r.prefix@ == ":"@,
            r.folder_by_trigger@ == Map::<Seq<char>, Seq<char>>::empty(),
            !r.compact_view,
            r.lang == Lang::En,
            r.theme_mode == ThemeMode::System,
            !r.onboarding_done,
    {
        Settings {
            prefix: owned(":"),
            folder_by_trigger: FolderMap::new(),
            compact_view: false,
            lang: Lang::default_lang(),
            theme_mode: ThemeMode::default_mode(),
            onboarding_done: false,
        }
    }

    /// The string table of the interface language.
    pub fn t(&self) -> (r: &'static Strings)
        ensures
            *r == strings_spec(self.lang),
    {
        self.lang.strings()
    }

    /// The folder `trigger` is filed under, if any.
    pub fn folder_of(&self, trigger: &str) -> (r: Option<&str>)
        requires
            self.wf(),
        ensures
            match r {
                Some(f) => self.folder_by_trigger@.dom().contains(trigger@) && self.folder_by_trigger@[trigger@] == f@,
                None => !self.folder_by_trigger@.dom().contains(trigger@),
            },
    {
        self.folder_by_trigger.get(trigger)
    }

    /// Files `trigger` under `folder`, trimmed; a missing or blank folder unfiles it.
    pub fn set_folder(&mut self, trigger: &str, folder: Option<String>)
        requires
            old(self).wf(),
        ensures
            final(self).wf(),
            final(self).folder_by_trigger@ == (match filed_folder(match folder { Some(f) => Some(f@), None => None }) {
                Some(f) => old(self).folder_by_trigger@.insert(trigger@, f),
                None => old(self).folder_by_trigger@.remove(trigger@),
            }),
            final(self).prefix == old(self).prefix,
            final(self).lang == old(self).lang,
            final(self).theme_mode == old(self).theme_mode,
            final(self).compact_view == old(self).compact_view,
            final(self).onboarding_done == old(self).onboarding_done,
    {
        let kept = match folder {
            Some(f) => {
                let t = trim(f.as_str());
                if t.as_str().is_empty() {
                    None
                } else {
                    Some(t)
                }
            },
            None => None,
        };
        match kept {
            Some(f) => {
                self.folder_by_trigger.insert(trigger, f.as_str());
            },
            None => {
                self.folder_by_trigger.remove(trigger);
            },
        }
    }

    /// Keeps a folder assignment attached to its match when the trigger text itself changes
    /// (editing a trigger, or a bulk prefix rename).
    pub fn rename_trigger(&mut self, from: &str, to: &str)
        requires
            old(self).wf(),
        ensures
            final(self).wf(),
            from@ == to@ ==> final(self).folder_by_trigger@ == old(self).folder_by_trigger@,
            from@ != to@ ==> final(self).folder_by_trigger@ == (if old(self).folder_by_trigger@.dom().contains(from@) {
                old(self).folder_by_trigger@.remove(from@).insert(to@, old(self).folder_by_trigger@[from@])
            } else {
                old(self).folder_by_trigger@
            }),
            final(self).prefix == old(self).prefix,
            final(self).lang == old(self).lang,
            final(self).theme_mode == old(self).theme_mode,
            final(self).compact_view == old(self).compact_view,
            final(self).onboarding_done == old(self).onboarding_done,
    {
        if str_eq(from, to) {
            return;
        }
        match self.folder_by_trigger.remove(from) {
            Some(folder) => {
                self.folder_by_trigger.insert(to, folder.as_str());
            },
            None => {},
        }
    }

    /// Forgets the folder of a deleted expansion.
    pub fn remove_trigger(&mut self, trigger: &str)
        requires
            old(self).wf(),
        ensures
            final(self).wf(),
            final(self).folder_by_trigger@ == old(self).folder_by_trigger@.remove(trigger@),
            final(self).prefix == old(self).prefix,
            final(self).lang == old(self).lang,
            final(self).theme_mode == old(self).theme_mode,
            final(self).compact_view == old(self).compact_view,
            final(self).onboarding_done == old(self).onboarding_done,
    {
        self.folder_by_trigger.remove(trigger);
    }

    /// Drops every folder assignment whose trigger is not in `live`, and says how many went.
    ///
    /// Nothing keeps the map in step with a file edited by hand, and an assignment keyed to a
    /// trigger that no longer exists cannot be reached from anywhere — yet its folder would go on
    /// being offered in the edit form's picker and reserved against a rename.
    pub fn drop_folders_not_in(&mut self, live: &[String]) -> (r: usize)
        requires
            old(self).wf(),
        ensures
            final(self).wf(),
            final(self).folder_by_trigger@ == old(self).folder_by_trigger@.restrict(live@.map_values(|s: String| s@).to_set()),
            r == old(self).folder_by_trigger@.dom().len() - final(self).folder_by_trigger@.dom().len(),
            final(self).prefix == old(self).prefix,
            final(self).lang == old(self).lang,
            final(self).theme_mode == old(self).theme_mode,
            final(self).compact_view == old(self).compact_view,
            final(self).onboarding_done == old(self).onboarding_done,
    {
        self.folder_by_trigger.retain_keys(live)
    }

    /// Every folder name in use, A→Z, each once.
    pub fn all_folder_names(&self) -> (r: Vec<String>)
        requires
            self.wf(),
        ensures
            strictly_sorted(r@.map_values(|s: String| s@)),
            r@.map_values(|s: String| s@).to_set() == self.folder_by_trigger@.values(),
    {
        self.folder_by_trigger.folder_names()
    }
}

// ---------------------------------------------------------------------------------------------
// Reading the settings file
// ---------------------------------------------------------------------------------------------

/// Why the settings on disk were not the ones the app started with — kept until there is a window
/// to say it in.
pub enum SettingsIssue {
    /// The file is there but could not be read; it is left exactly where it is.
    Unreadable(String),
    /// The file is there and readable but is not settings any more. `kept_at` names where its
    /// contents were put, or is `None` if even that could not be done.
    Damaged { kept_at: Option<String> },
}

/// What reading the settings file came to.
pub enum SettingsRead {
    /// There is no file: a folder this app has never run in.
    Missing,
    /// The file held these settings.
    Parsed(Settings),
    /// The file did not parse; its contents were moved aside to the place named, if they could be.
    Unparseable { kept_at: Option<String> },
    /// The file could not be read at all.
    Unreadable(String),
}

/// The settings to start with, and what to tell the user about them.
///
/// Only a folder with no settings file at all is new, and gets the first-run screen: any file,
/// even a broken one or one written before that screen existed, means whoever is at the keyboard
/// has been past it. Every failure starts from the defaults — the right state to carry on with —
/// and says why, since the folder structure lives nowhere else.
pub fn settings_after_read(read: SettingsRead) -> (r: (Settings, Option<SettingsIssue>))
    requires
        read matches SettingsRead::Parsed(s) ==> s.wf(),
    ensures
        r.0.wf(),
        read is Missing ==> r.1 is None && !r.0.onboarding_done && r.0.folder_by_trigger@ == Map::<Seq<char>, Seq<char>>::empty()
            && default_choices(r.0),
        read matches SettingsRead::Parsed(s) ==> r.1 is None && r.0.onboarding_done
            && r.0.prefix == s.prefix && r.0.folder_by_trigger == s.folder_by_trigger && r.0.compact_view == s.compact_view
            && r.0.lang == s.lang && r.0.theme_mode == s.theme_mode,
        read matches SettingsRead::Unparseable { kept_at } ==> (r.1 matches Some(SettingsIssue::Damaged { kept_at: k }) && k == kept_at)
            && r.0.onboarding_done && r.0.folder_by_trigger@ == Map::<Seq<char>, Seq<char>>::empty()
            && default_choices(r.0),
        read matches SettingsRead::Unreadable(e) ==> (r.1 matches Some(SettingsIssue::Unreadable(x)) && x == e)
            && r.0.onboarding_done && r.0.folder_by_trigger@ == Map::<Seq<char>, Seq<char>>::empty()
            && default_choices(r.0),
{
    let (mut settings, issue) = match read {
        SettingsRead::Missing => return (Settings::defaults(), None),
        SettingsRead::Parsed(s) => (s, None),
        SettingsRead::Unparseable { kept_at } => (Settings::defaults(), Some(SettingsIssue::Damaged { kept_at })),
        SettingsRead::Unreadable(e) => (Settings::defaults(), Some(SettingsIssue::Unreadable(e))),
    };
    settings.onboarding_done = true;
    (settings, issue)
}

impl SettingsIssue {
    /// The warning shown once the window exists: each case says something different, because
    /// which one it was decides whether there is still a copy of the folders to go and fetch.
    pub fn message(&self, t: &Strings) -> (r: String)
        ensures
            r@ == (match self {
                SettingsIssue::Damaged { kept_at: Some(name) } => fill_spec(t.settings_damaged@, seq![("name"@, name@)]),
                SettingsIssue::Damaged { kept_at: None } => t.settings_damaged_lost@,
                SettingsIssue::Unreadable(err) => fill_spec(t.settings_unreadable@, seq![("err"@, err@)]),
            }),
    {
        match self {
            SettingsIssue::Damaged { kept_at: Some(name) } => {
                let args = [("name", name.as_str())];
                assert(args_view(args@) =~= seq![("name"@, name@)]);
                fill(t.settings_damaged, &args)
            },
            SettingsIssue::Damaged { kept_at: None } => owned(t.settings_damaged_lost),
            SettingsIssue::Unreadable(err) => {
                let args = [("err", err.as_str())];
                assert(args_view(args@) =~= seq![("err"@, err@)]);
                fill(t.settings_unreadable, &args)
            },
        }
    }
}

// ---------------------------------------------------------------------------------------------
// Laws
// ---------------------------------------------------------------------------------------------

/// An expansion keeps its folder through a rename of its trigger: afterwards the new trigger is
/// filed where the old one was, and the old trigger is filed nowhere.
pub proof fn law_rename_keeps_folder(before: Map<Seq<char>, Seq<char>>, old_t: Seq<char>, new_t: Seq<char>)
    requires
        old_t != new_t,
        before.dom().contains(old_t),
    ensures
        ({
            let after = before.remove(old_t).insert(new_t, before[old_t]);
            &&& after.dom().contains(new_t)
            &&& after[new_t] == before[old_t]
            &&& !after.dom().contains(old_t)
            &&& forall|k: Seq<char>| k != old_t && k != new_t ==> (#[trigger] after.dom().contains(k) == before.dom().contains(k))
        }),
{
}

/// After stale assignments are dropped, every folder name still offered belongs to a live
/// trigger, and a live trigger keeps its folder.
pub proof fn law_dropped_folders_are_unreachable(before: Map<Seq<char>, Seq<char>>, live: Set<Seq<char>>)
    ensures
        forall|f: Seq<char>| #[trigger] before.restrict(live).values().contains(f) ==> exists|k: Seq<char>| live.contains(k) && before.dom().contains(k) && before[k] == f,
        forall|k: Seq<char>| live.contains(k) && #[trigger] before.dom().contains(k) ==> before.restrict(live).dom().contains(k) && before.restrict(live)[k] == before[k],
{
    assert forall|f: Seq<char>| #[trigger] before.restrict(live).values().contains(f) implies exists|k: Seq<char>| live.contains(k) && before.dom().contains(k) && before[k] == f by {
        let k = choose|k: Seq<char>| #[trigger] before.restrict(live).dom().contains(k) && before.restrict(live)[k] == f;
        assert(live.contains(k) && before.dom().contains(k) && before[k] == f);
    }
}

} // verus!
