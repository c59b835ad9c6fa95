//! Sharing expansions between two copies of this app: what goes into an export, and how an import
//! is merged — only ever adding, never replacing.
//!
//! The file itself is read and written outside this library.

use vstd::prelude::*;
use crate::model::{MatchEntry, SimpleMatch, SimpleMatchV, VarEntry, VarEntryV, Param, Scalar, is_date_match, is_editable_spec, entry_trigger};
use crate::settings::Settings;
use crate::text::{owned, trim, trim_spec, chars_of};

verus! {

/// Bumped only if the shape changes in a way an older build could not read.
pub const FORMAT_VERSION: u32 = 1;

/// One exported expansion.
pub struct ExportEntry {
    pub trigger: String,
    pub replace: String,
    pub vars: Vec<VarEntry>,
    /// The folder it was filed under, recreated on import.
    pub folder: Option<String>,
}

/// The mathematical content of an [`ExportEntry`].
pub struct ExportEntryV {
    pub trigger: Seq<char>,
    pub replace: Seq<char>,
    pub vars: Seq<VarEntryV>,
    pub folder: Option<Seq<char>>,
}

impl View for ExportEntry {
    type V = ExportEntryV;

    open spec fn view(&self) -> ExportEntryV {
        ExportEntryV {
            trigger: self.trigger@,
            replace: self.replace@,
            vars: self.vars@.map_values(|v: VarEntry| v@),
            folder: match self.folder {
                Some(f) => Some(f@),
                None => None,
            },
        }
    }
}

/// An export document. `espanso_manager_export` doubles as the marker that a file is one of
/// ours at all.
pub struct Export {
    pub espanso_manager_export: u32,
    pub expansions: Vec<ExportEntry>,
}

/// What went wrong, in terms the caller can turn into a sentence.
pub enum TransferError {
    /// The file could not be read or written at all.
    Io(String),
    /// The file is not YAML, or not our shape.
    NotOurs,
    /// Valid, but there was nothing in it to import.
    Empty,
}

fn copy_scalar(s: &Scalar) -> (r: Scalar)
    ensures
        r@ == s@,
{
    match s {
        Scalar::Text(t) => Scalar::Text(owned(t.as_str())),
        Scalar::Other(t) => Scalar::Other(owned(t.as_str())),
    }
}

/// A copy of a variable.
pub fn copy_var(v: &VarEntry) -> (r: VarEntry)
    ensures
        r@ == v@,
{
    let mut params: Vec<Param> = Vec::new();
    let mut i: usize = 0;
    while i < v.params.len()
        invariant
            i <= v.params@.len(),
            params@.map_values(|p: Param| p@) == v.params@.subrange(0, i as int).map_values(|p: Param| p@),
        decreases v.params.len() - i,
    {
        params.push(Param { key: copy_scalar(&v.params[i].key), value: copy_scalar(&v.params[i].value) });
        assert(v.params@.subrange(0, i + 1).map_values(|p: Param| p@)
            =~= v.params@.subrange(0, i as int).map_values(|p: Param| p@).push(v.params@[i as int]@));
        assert(params@.map_values(|p: Param| p@) =~= v.params@.subrange(0, i + 1).map_values(|p: Param| p@));
        i += 1;
    }
    assert(v.params@.subrange(0, v.params@.len() as int) =~= v.params@);
    VarEntry { name: owned(v.name.as_str()), var_type: owned(v.var_type.as_str()), params }
}

/// A copy of a list of variables.
pub fn copy_vars(vs: &Vec<VarEntry>) -> (r: Vec<VarEntry>)
    ensures
        r@.map_values(|v: VarEntry| v@) == vs@.map_values(|v: VarEntry| v@),
{
    let mut out: Vec<VarEntry> = Vec::new();
    let mut i: usize = 0;
    while i < vs.len()
        invariant
            i <= vs@.len(),
            out@.map_values(|v: VarEntry| v@) == vs@.subrange(0, i as int).map_values(|v: VarEntry| v@),
        decreases vs.len() - i,
    {
        out.push(copy_var(&vs[i]));
        assert(vs@.subrange(0, i + 1).map_values(|v: VarEntry| v@)
            =~= vs@.subrange(0, i as int).map_values(|v: VarEntry| v@).push(vs@[i as int]@));
        assert(out@.map_values(|v: VarEntry| v@) =~= vs@.subrange(0, i + 1).map_values(|v: VarEntry| v@));
        i += 1;
    }
    assert(vs@.subrange(0, vs@.len() as int) =~= vs@);
    out
}

/// The export entries for `es`, given each trigger's folder: every expansion the list shows, and
/// nothing it hides.
pub open spec fn export_spec(es: Seq<MatchEntry>, folders: Map<Seq<char>, Seq<char>>) -> Seq<ExportEntryV>
    decreases es.len(),
{
    if es.len() == 0 {
        Seq::empty()
    } else {
        let rest = export_spec(es.drop_first(), folders);
        match es[0] {
            MatchEntry::Simple(m) => if is_editable_spec(es[0]) {
                seq![ExportEntryV {
                    trigger: m@.trigger,
                    replace: m@.replace,
                    vars: m@.vars,
                    folder: if folders.dom().contains(m@.trigger) { Some(folders[m@.trigger]) } else { None },
                }] + rest
            } else {
                rest
            },
            MatchEntry::Advanced(_) => rest,
        }
    }
}

/// Builds the export document from the expansions the app actually manages.
///
/// Only the ones the list shows are included: exporting something the user cannot see would mean
/// handing a colleague expansions neither of them has read, and a shell command is not a thing to
/// pass around by accident.
pub fn build_export(entries: &[MatchEntry], settings: &Settings) -> (r: Export)
    requires
        settings.wf(),
    ensures
        r.espanso_manager_export == FORMAT_VERSION,
        r.expansions@.map_values(|e: ExportEntry| e@) == export_spec(entries@, settings.folder_by_trigger@),
{
    let ghost folders = settings.folder_by_trigger@;
    let mut rows: Vec<ExportEntry> = Vec::new();
    let n = entries.len();
    let mut i: usize = n;
    // Built back to front, so each step puts one entry in front of what is already there.
    let mut rev: Vec<ExportEntry> = Vec::new();
    assert(entries@.subrange(n as int, n as int) =~= Seq::<MatchEntry>::empty());
    while i > 0
        invariant
            i <= n == entries@.len(),
            settings.wf(),
            folders == settings.folder_by_trigger@,
            rev@.map_values(|e: ExportEntry| e@).reverse() == export_spec(entries@.subrange(i as int, n as int), folders),
        decreases i,
    {
        i -= 1;
        let ghost before = rev@.map_values(|e: ExportEntry| e@);
        assert(entries@.subrange(i as int, n as int).drop_first() =~= entries@.subrange(i + 1, n as int));
        assert(entries@.subrange(i as int, n as int)[0] == entries@[i as int]);
        let e = &entries[i];
        if e.is_safely_editable() {
            match e {
                MatchEntry::Simple(m) => {
                    let folder = match settings.folder_of(m.trigger.as_str()) {
                        Some(f) => Some(owned(f)),
                        None => None,
                    };
                    let row = ExportEntry {
                        trigger: owned(m.trigger.as_str()),
                        replace: owned(m.replace.as_str()),
                        vars: copy_vars(&m.vars),
                        folder,
                    };
                    rev.push(row);
                    proof {
                        assert(rev@.map_values(|e: ExportEntry| e@) =~= before.push(row@));
                        assert(before.push(row@).reverse() =~= seq![row@] + before.reverse());
                    }
                },
                MatchEntry::Advanced(_) => {},
            }
        }
    }
    assert(entries@.subrange(0, n as int) =~= entries@);
    assert(rows@.map_values(|e: ExportEntry| e@) =~= Seq::<ExportEntryV>::empty());
    assert(Seq::<ExportEntryV>::empty() + rev@.map_values(|e: ExportEntry| e@).reverse()
        =~= rev@.map_values(|e: ExportEntry| e@).reverse());
    // Turn the reversed list round.
    while rev.len() > 0
        invariant
            rows@.map_values(|e: ExportEntry| e@) + rev@.map_values(|e: ExportEntry| e@).reverse()
                == export_spec(entries@, folders),
        decreases rev.len(),
    {
        let ghost before_rows = rows@.map_values(|e: ExportEntry| e@);
        let ghost before_rev = rev@.map_values(|e: ExportEntry| e@);
        let last = rev.pop().unwrap();
        proof {
            assert(before_rev =~= rev@.map_values(|e: ExportEntry| e@).push(last@));
            assert(before_rev.reverse() =~= seq![last@] + rev@.map_values(|e: ExportEntry| e@).reverse());
        }
        rows.push(last);
        assert(rows@.map_values(|e: ExportEntry| e@) =~= before_rows.push(last@));
    }
    assert(rows@.map_values(|e: ExportEntry| e@) + Seq::<ExportEntryV>::empty() =~= rows@.map_values(|e: ExportEntry| e@));
    Export { espanso_manager_export: FORMAT_VERSION, expansions: rows }
}

/// The checks an import file has to pass once it has been read: it has to carry our marker, and
/// it has to hold something.
pub fn check_import(export: Export) -> (r: Result<Export, TransferError>)
    ensures
        export.espanso_manager_export == 0 ==> r matches Err(TransferError::NotOurs),
        export.espanso_manager_export != 0 && export.expansions@.len() == 0 ==> r matches Err(TransferError::Empty),
        export.espanso_manager_export != 0 && export.expansions@.len() > 0 ==> (r matches Ok(e)
            && e.espanso_manager_export == export.espanso_manager_export
            && e.expansions@.map_values(|x: ExportEntry| x@) == export.expansions@.map_values(|x: ExportEntry| x@)),
{
    if export.espanso_manager_export == 0 {
        return Err(TransferError::NotOurs);
    }
    if export.expansions.len() == 0 {
        return Err(TransferError::Empty);
    }
    Ok(export)
}

/// The result of merging an import into what is already there.
pub struct Merged {
    pub added: Vec<MatchEntry>,
    /// Folder to file each added expansion under, paired by trigger.
    pub folders: Vec<(String, Option<String>)>,
    /// Entries left alone: a trigger already in use, a blank one, or one the app could not show.
    pub skipped: usize,
}

/// The match an imported entry would become: its trigger trimmed, no label.
pub open spec fn candidate(e: ExportEntryV) -> SimpleMatchV {
    SimpleMatchV { trigger: trim_spec(e.trigger), replace: e.replace, vars: e.vars, label: None }
}

/// Whether the app can show and edit a simple match.
pub open spec fn can_show(m: SimpleMatchV) -> bool {
    m.vars.len() == 0 || is_date_match(m)
}

/// What an import adds, in file order, given the triggers already `taken`: the added matches, the
/// folder of each, and how many entries were skipped. A trigger is claimed only once its entry is
/// accepted, so a rejected entry never shadows a good one further down.
pub open spec fn merge_spec(es: Seq<ExportEntryV>, taken: Set<Seq<char>>) -> (Seq<SimpleMatchV>, Seq<(Seq<char>, Option<Seq<char>>)>, nat)
    decreases es.len(),
{
    if es.len() == 0 {
        (Seq::empty(), Seq::empty(), 0)
    } else {
        let e = es[0];
        let c = candidate(e);
        if c.trigger.len() == 0 || taken.contains(c.trigger) || !can_show(c) {
            let r = merge_spec(es.drop_first(), taken);
            (r.0, r.1, r.2 + 1)
        } else {
            let r = merge_spec(es.drop_first(), taken.insert(c.trigger));
            (seq![c] + r.0, seq![(c.trigger, e.folder)] + r.1, r.2)
        }
    }
}

/// The triggers of a list of entries.
pub open spec fn triggers_of(es: Seq<MatchEntry>) -> Set<Seq<char>> {
    es.map_values(|e: MatchEntry| entry_trigger(e)).to_set()
}

/// Merges an import into the existing expansions, only ever adding.
///
/// A trigger already in use is skipped rather than overwritten or renamed: overwriting would
/// destroy something the user did not ask to lose, and renaming would invent triggers nobody
/// chose. Everything that arrives is held to the same standard as everything that leaves — an
/// entry the app could not show is skipped too, or it would fire from a row nobody can see.
pub fn merge(existing: &[MatchEntry], export: Export) -> (r: Merged)
    ensures
        ({
            let m = merge_spec(export.expansions@.map_values(|e: ExportEntry| e@), triggers_of(existing@));
            &&& r.added@.len() == m.0.len()
            &&& forall|i: int| 0 <= i < r.added@.len() ==> (#[trigger] r.added@[i] matches MatchEntry::Simple(s) && s@ == m.0[i])
            &&& folder_pairs(r.folders@) == m.1
            &&& r.skipped == m.2
        }),
{
    let ghost all = export.expansions@.map_values(|e: ExportEntry| e@);
    let mut taken: Vec<Vec<char>> = Vec::new();
    let mut k: usize = 0;
    while k < existing.len()
        invariant
            k <= existing@.len(),
            taken@.map_values(|v: Vec<char>| v@) == existing@.subrange(0, k as int).map_values(|e: MatchEntry| entry_trigger(e)),
        decreases existing.len() - k,
    {
        taken.push(chars_of(existing[k].trigger_str()));
        assert(existing@.subrange(0, k + 1).map_values(|e: MatchEntry| entry_trigger(e))
            =~= existing@.subrange(0, k as int).map_values(|e: MatchEntry| entry_trigger(e)).push(entry_trigger(existing@[k as int])));
        assert(taken@.map_values(|v: Vec<char>| v@) =~= existing@.subrange(0, k + 1).map_values(|e: MatchEntry| entry_trigger(e)));
        k += 1;
    }
    assert(existing@.subrange(0, existing@.len() as int) =~= existing@);

    let mut remaining = export.expansions;
    let total: usize = remaining.len();
    let mut added: Vec<MatchEntry> = Vec::new();
    let mut folders: Vec<(String, Option<String>)> = Vec::new();
    let mut skipped: usize = 0;
    let ghost mut done: nat = 0;
    let ghost whole = merge_spec(all, triggers_of(existing@));
    assert(remaining@.map_values(|e: ExportEntry| e@) =~= all.subrange(0, all.len() as int));
    assert(all.len() == total);
    while remaining.len() > 0
        invariant
            done <= all.len(),
            all.len() == total,
            skipped <= done,
            whole == merge_spec(all, triggers_of(existing@)),
            remaining@.map_values(|e: ExportEntry| e@) == all.subrange(done as int, all.len() as int),
            ({
                let rest = merge_spec(all.subrange(done as int, all.len() as int), taken@.map_values(|v: Vec<char>| v@).to_set());
                &&& added@.len() + rest.0.len() == whole.0.len()
                &&& forall|i: int| 0 <= i < added@.len() ==> (#[trigger] added@[i] matches MatchEntry::Simple(s) && s@ == whole.0[i])
                &&& forall|i: int| 0 <= i < rest.0.len() ==> #[trigger] rest.0[i] == whole.0[added@.len() + i]
                &&& folder_pairs(folders@) + rest.1 == whole.1
                &&& skipped + rest.2 == whole.2
            }),
        decreases remaining.len(),
    {
        let ghost seen = taken@.map_values(|v: Vec<char>| v@).to_set();
        let ghost here = all.subrange(done as int, all.len() as int);
        let ghost tail = all.subrange(done as int + 1, all.len() as int);
        let ghost before = merge_spec(here, seen);
        let entry = remaining.remove(0);
        proof {
            assert(here.drop_first() =~= tail);
            assert(here[0] == entry@);
            assert(remaining@.map_values(|e: ExportEntry| e@) =~= tail);
        }
        let ghost cv = candidate(entry@);
        let trigger = trim(entry.trigger.as_str());
        let tv = chars_of(trigger.as_str());
        let in_use = seen_in(&taken, tv.as_slice());
        let folder = entry.folder;
        let c = MatchEntry::Simple(SimpleMatch { trigger, replace: entry.replace, vars: entry.vars, label: None });
        assert(c matches MatchEntry::Simple(s) && s@ == cv);
        let accept = tv.len() > 0 && !in_use && c.is_safely_editable();
        if !accept {
            skipped = skipped + 1;
            proof {
                let after = merge_spec(tail, seen);
                assert(before == (after.0, after.1, after.2 + 1));
                done = done + 1;
            }
        } else {
            let ghost old_folders = folder_pairs(folders@);
            let ghost old_added = added@;
            let ghost after = merge_spec(tail, seen.insert(cv.trigger));
            assert(before == (seq![cv] + after.0, seq![(cv.trigger, folder_view(folder))] + after.1, after.2));
            let ghost old_taken = taken@;
            taken.push(tv);
            proof {
                assert(taken@.map_values(|v: Vec<char>| v@) =~= old_taken.map_values(|v: Vec<char>| v@).push(cv.trigger));
                lemma_push_to_set(old_taken.map_values(|v: Vec<char>| v@), cv.trigger);
            }
            let trigger_copy = owned(c.trigger_str());
            folders.push((trigger_copy, folder));
            added.push(c);
            proof {
                assert(folder_pairs(folders@) =~= old_folders.push((cv.trigger, folder_view(folder))));
                assert(whole.0[old_added.len() as int] == before.0[0]);
                assert forall|i: int| 0 <= i < added@.len() implies (#[trigger] added@[i] matches MatchEntry::Simple(s) && s@ == whole.0[i]) by {
                    if i < old_added.len() {
                        assert(added@[i] == old_added[i]);
                    }
                }
                assert forall|i: int| 0 <= i < after.0.len() implies #[trigger] after.0[i] == whole.0[added@.len() + i] by {
                    assert(after.0[i] == before.0[i + 1]);
                }
                assert(old_folders + before.1 =~= folder_pairs(folders@) + after.1);
                done = done + 1;
            }
        }
    }
    assert(all.subrange(done as int, all.len() as int).len() == 0);
    assert(folder_pairs(folders@) + Seq::empty() =~= folder_pairs(folders@));
    Merged { added, folders, skipped }
}

/// A folder as a plain value.
pub open spec fn folder_view(f: Option<String>) -> Option<Seq<char>> {
    match f {
        Some(s) => Some(s@),
        None => None,
    }
}

/// Trigger/folder pairs as plain values.
pub open spec fn folder_pairs(ps: Seq<(String, Option<String>)>) -> Seq<(Seq<char>, Option<Seq<char>>)> {
    ps.map_values(|p: (String, Option<String>)| (p.0@, folder_view(p.1)))
}

fn seen_in(seen: &Vec<Vec<char>>, t: &[char]) -> (r: bool)
    ensures
        r == seen@.map_values(|v: Vec<char>| v@).to_set().contains(t@),
{
    let ghost sv = seen@.map_values(|v: Vec<char>| v@);
    let mut i: usize = 0;
    while i < seen.len()
        invariant
            i <= seen@.len(),
            sv == seen@.map_values(|v: Vec<char>| v@),
            forall|k: int| 0 <= k < i ==> sv[k] != t@,
        decreases seen.len() - i,
    {
        if crate::text::chars_eq(seen[i].as_slice(), t) {
            assert(sv[i as int] == t@);
            return true;
        }
        i += 1;
    }
    false
}

pub proof fn lemma_push_to_set(s: Seq<Seq<char>>, x: Seq<char>)
    ensures
        s.push(x).to_set() == s.to_set().insert(x),
{
    assert forall|a: Seq<char>| #[trigger] s.push(x).to_set().contains(a) == s.to_set().insert(x).contains(a) by {
        if s.push(x).contains(a) {
            let i = choose|i: int| 0 <= i < s.push(x).len() && s.push(x)[i] == a;
            if i < s.len() {
                assert(s[i] == a);
            }
        }
        if s.contains(a) {
            let i = choose|i: int| 0 <= i < s.len() && s[i] == a;
            assert(s.push(x)[i] == a);
        }
        if a == x {
            assert(s.push(x)[s.len() as int] == x);
        }
    }
    assert(s.push(x).to_set() =~= s.to_set().insert(x));
}

/// A filename that says what the file is without the user having to type anything.
pub fn suggested_filename() -> (r: &'static str)
    ensures
        r@ == "expansiones-espansomanager.yml"@,
{
    "expansiones-espansomanager.yml"
}

// ---------------------------------------------------------------------------------------------
// Laws
// ---------------------------------------------------------------------------------------------

/// An import only ever adds: no added trigger was already taken, no two added triggers are the
/// same, every entry is either added or counted as skipped, and each added match can be shown.
pub proof fn law_import_only_adds(es: Seq<ExportEntryV>, taken: Set<Seq<char>>)
    ensures
        ({
            let m = merge_spec(es, taken);
            &&& m.0.len() + m.2 == es.len()
            &&& m.0.len() == m.1.len()
            &&& forall|i: int| 0 <= i < m.0.len() ==> !taken.contains(#[trigger] m.0[i].trigger)
            &&& forall|i: int, j: int| 0 <= i < j < m.0.len() ==> #[trigger] m.0[i].trigger != #[trigger] m.0[j].trigger
            &&& forall|i: int| 0 <= i < m.0.len() ==> can_show(#[trigger] m.0[i]) && m.0[i].trigger.len() > 0
            &&& forall|i: int| 0 <= i < m.0.len() ==> #[trigger] m.1[i].0 == m.0[i].trigger
        }),
    decreases es.len(),
{
    if es.len() > 0 {
        let c = candidate(es[0]);
        if c.trigger.len() == 0 || taken.contains(c.trigger) || !can_show(c) {
            law_import_only_adds(es.drop_first(), taken);
        } else {
            let t2 = taken.insert(c.trigger);
            law_import_only_adds(es.drop_first(), t2);
            let r = merge_spec(es.drop_first(), t2);
            let m = merge_spec(es, taken);
            assert forall|i: int| 0 <= i < m.0.len() implies !taken.contains(#[trigger] m.0[i].trigger) by {
                if i > 0 {
                    assert(m.0[i] == r.0[i - 1]);
                }
            }
            assert forall|i: int, j: int| 0 <= i < j < m.0.len() implies #[trigger] m.0[i].trigger != #[trigger] m.0[j].trigger by {
                assert(m.0[j] == r.0[j - 1]);
                if i > 0 {
                    assert(m.0[i] == r.0[i - 1]);
                } else {
                    assert(!t2.contains(r.0[j - 1].trigger));
                }
            }
            assert forall|i: int| 0 <= i < m.0.len() implies can_show(#[trigger] m.0[i]) && m.0[i].trigger.len() > 0 by {
                if i > 0 {
                    assert(m.0[i] == r.0[i - 1]);
                }
            }
            assert forall|i: int| 0 <= i < m.0.len() implies #[trigger] m.1[i].0 == m.0[i].trigger by {
                if i > 0 {
                    assert(m.0[i] == r.0[i - 1]);
                    assert(m.1[i] == r.1[i - 1]);
                }
            }
        }
    }
}


/// `x` is an export entry carrying exactly the trigger, replacement and variables of the entry
/// `e`, which is one the list shows.
pub open spec fn exported_as(e: MatchEntry, x: ExportEntryV) -> bool {
    &&& e is Simple
    &&& is_editable_spec(e)
    &&& x.trigger == e->Simple_0@.trigger
    &&& x.replace == e->Simple_0@.replace
    &&& x.vars == e->Simple_0@.vars
}

proof fn lemma_export_shift(es: Seq<MatchEntry>, folders: Map<Seq<char>, Seq<char>>)
    requires
        es.len() > 0,
    ensures
        ({
            let ex = export_spec(es, folders);
            let exr = export_spec(es.drop_first(), folders);
            let off: int = if es[0] is Simple && is_editable_spec(es[0]) { 1 } else { 0 };
            &&& ex.len() == exr.len() + off
            &&& forall|k: int| 0 <= k < exr.len() ==> #[trigger] ex[k + off] == exr[k]
            &&& off == 1 ==> exported_as(es[0], ex[0])
        }),
{
}

#[verifier::spinoff_prover]
proof fn lemma_export_has_each(es: Seq<MatchEntry>, folders: Map<Seq<char>, Seq<char>>)
    ensures
        forall|i: int| 0 <= i < es.len() && es[i] is Simple && is_editable_spec(#[trigger] es[i]) ==>
            exists|k: int| 0 <= k < export_spec(es, folders).len() && exported_as(es[i], #[trigger] export_spec(es, folders)[k]),
    decreases es.len(),
{
    if es.len() > 0 {
        let rest = es.drop_first();
        lemma_export_has_each(rest, folders);
        lemma_export_shift(es, folders);
        let ex = export_spec(es, folders);
        let exr = export_spec(rest, folders);
        let off: int = if es[0] is Simple && is_editable_spec(es[0]) { 1 } else { 0 };
        assert forall|i: int| 0 <= i < es.len() && es[i] is Simple && is_editable_spec(#[trigger] es[i]) implies
            exists|k: int| 0 <= k < ex.len() && exported_as(es[i], #[trigger] ex[k]) by {
            if i > 0 {
                assert(rest[i - 1] == es[i]);
                let k = choose|k: int| 0 <= k < exr.len() && exported_as(rest[i - 1], #[trigger] exr[k]);
                assert(ex[k + off] == exr[k]);
            }
        }
    }
}

#[verifier::spinoff_prover]
proof fn lemma_export_only_those(es: Seq<MatchEntry>, folders: Map<Seq<char>, Seq<char>>)
    ensures
        forall|k: int| #![trigger export_spec(es, folders)[k]] 0 <= k < export_spec(es, folders).len() ==>
            exists|i: int| 0 <= i < es.len() && exported_as(#[trigger] es[i], export_spec(es, folders)[k]),
    decreases es.len(),
{
    if es.len() > 0 {
        let rest = es.drop_first();
        lemma_export_only_those(rest, folders);
        lemma_export_shift(es, folders);
        let ex = export_spec(es, folders);
        let exr = export_spec(rest, folders);
        let off: int = if es[0] is Simple && is_editable_spec(es[0]) { 1 } else { 0 };
        assert forall|k: int| #![trigger ex[k]] 0 <= k < ex.len() implies
            exists|i: int| 0 <= i < es.len() && exported_as(#[trigger] es[i], ex[k]) by {
            if !(off == 1 && k == 0) {
                let kr = k - off;
                assert(ex[kr + off] == exr[kr]);
                let i = choose|i: int| 0 <= i < rest.len() && exported_as(#[trigger] rest[i], exr[kr]);
                assert(es[i + 1] == rest[i]);
            }
        }
    }
}

/// An export carries every expansion the list shows with exactly its trigger, its replacement and
/// its variables — a date expansion keeps its date variable, so it still works once imported —
/// and holds nothing else: every exported entry is one of those expansions.
pub proof fn law_export_carries_each_match(es: Seq<MatchEntry>, folders: Map<Seq<char>, Seq<char>>)
    ensures
        forall|i: int| 0 <= i < es.len() && es[i] is Simple && is_editable_spec(#[trigger] es[i]) ==>
            exists|k: int| 0 <= k < export_spec(es, folders).len() && exported_as(es[i], #[trigger] export_spec(es, folders)[k]),
        forall|k: int| #![trigger export_spec(es, folders)[k]] 0 <= k < export_spec(es, folders).len() ==>
            exists|i: int| 0 <= i < es.len() && exported_as(#[trigger] es[i], export_spec(es, folders)[k]),
{
    lemma_export_has_each(es, folders);
    lemma_export_only_those(es, folders);
}

} // verus!
