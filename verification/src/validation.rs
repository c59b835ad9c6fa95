//! What is checked before the expansions file is written, and how every load or save problem is
//! put into words for the user.
//!
//! The disk work itself — serialising, the self-check parse, the backup and the atomic rename —
//! happens outside this library; it comes back here as the plain text of whatever went wrong.

use vstd::prelude::*;
use crate::i18n::{fill, fill_spec, args_view};
use crate::strings::Strings;
use crate::model::{MatchEntry, SimpleMatch, entry_trigger};
use crate::text::{chars_of, chars_eq, trim, trim_spec, owned, push_str};

verus! {

/// A whole match file: the entries of `matches:`, plus the YAML text of every other top-level key
/// (`global_vars:`, `imports:`, ...), preserved exactly as read.
pub struct MatchFile {
    pub entries: Vec<MatchEntry>,
    pub extra_top_level: String,
}

/// A reason the expansions cannot be saved as they are.
pub enum ValidationIssue {
    EmptyTrigger,
    DuplicateTrigger(String),
}

/// The mathematical content of a [`ValidationIssue`].
pub enum IssueV {
    EmptyTrigger,
    DuplicateTrigger(Seq<char>),
}

impl View for ValidationIssue {
    type V = IssueV;

    open spec fn view(&self) -> IssueV {
        match self {
            ValidationIssue::EmptyTrigger => IssueV::EmptyTrigger,
            ValidationIssue::DuplicateTrigger(t) => IssueV::DuplicateTrigger(t@),
        }
    }
}

/// The problems with `es`, in file order, given the triggers `seen` already. Only simple matches
/// are checked: a blank trigger is one problem, and a trigger met for the second time is another.
/// Blank triggers are not remembered as seen.
pub open spec fn issues_from(es: Seq<MatchEntry>, seen: Set<Seq<char>>) -> Seq<IssueV>
    decreases es.len(),
{
    if es.len() == 0 {
        Seq::empty()
    } else {
        match es[0] {
            MatchEntry::Simple(m) => if trim_spec(m.trigger@).len() == 0 {
                seq![IssueV::EmptyTrigger] + issues_from(es.drop_first(), seen)
            } else if seen.contains(m.trigger@) {
                seq![IssueV::DuplicateTrigger(m.trigger@)] + issues_from(es.drop_first(), seen)
            } else {
                issues_from(es.drop_first(), seen.insert(m.trigger@))
            },
            MatchEntry::Advanced(_) => issues_from(es.drop_first(), seen),
        }
    }
}

/// The message for one problem.
pub open spec fn issue_message(i: IssueV, t: Strings) -> Seq<char> {
    match i {
        IssueV::EmptyTrigger => t.err_validation_empty@,
        IssueV::DuplicateTrigger(trigger) => fill_spec(t.err_validation_duplicate@, seq![("name"@, trigger)]),
    }
}

/// `parts` joined with `sep` between each two of them.
pub open spec fn join_spec(parts: Seq<Seq<char>>, sep: Seq<char>) -> Seq<char>
    decreases parts.len(),
{
    if parts.len() == 0 {
        Seq::empty()
    } else if parts.len() == 1 {
        parts[0]
    } else {
        join_spec(parts.drop_last(), sep) + sep + parts.last()
    }
}

/// Appends `part` to a growing join: a separator first, unless it is the first part.
pub fn push_joined(out: &mut String, part: &str, sep: &str, first: bool)
    ensures
        final(out)@ == (if first { old(out)@ + part@ } else { old(out)@ + sep@ + part@ }),
{
    if !first {
        push_str(out, sep);
    }
    push_str(out, part);
}

proof fn lemma_join_push(parts: Seq<Seq<char>>, sep: Seq<char>, p: Seq<char>)
    ensures
        join_spec(parts.push(p), sep) == (if parts.len() == 0 { p } else { join_spec(parts, sep) + sep + p }),
{
    assert(parts.push(p).drop_last() =~= parts);
}

/// Joins strings with a separator, as `[..].join(sep)` does.
pub fn join(parts: &Vec<String>, sep: &str) -> (r: String)
    ensures
        r@ == join_spec(parts@.map_values(|s: String| s@), sep@),
{
    let mut out = String::new();
    let mut i: usize = 0;
    while i < parts.len()
        invariant
            i <= parts@.len(),
            out@ == join_spec(parts@.subrange(0, i as int).map_values(|s: String| s@), sep@),
        decreases parts.len() - i,
    {
        let ghost before = parts@.subrange(0, i as int).map_values(|s: String| s@);
        push_joined(&mut out, parts[i].as_str(), sep, i == 0);
        proof {
            lemma_join_push(before, sep@, parts@[i as int]@);
            assert(parts@.subrange(0, i + 1).map_values(|s: String| s@) =~= before.push(parts@[i as int]@));
        }
        i += 1;
    }
    assert(parts@.subrange(0, parts@.len() as int) =~= parts@);
    out
}

impl ValidationIssue {
    /// The problem as a sentence.
    pub fn friendly_message(&self, t: &Strings) -> (r: String)
        ensures
            r@ == issue_message(self@, *t),
    {
        match self {
            ValidationIssue::EmptyTrigger => owned(t.err_validation_empty),
            ValidationIssue::DuplicateTrigger(trigger) => {
                let args = [("name", trigger.as_str())];
                let r = fill(t.err_validation_duplicate, &args);
                assert(args_view(args@) =~= seq![("name"@, trigger@)]);
                r
            },
        }
    }
}

proof fn lemma_push_to_set(s: Seq<Seq<char>>, x: Seq<char>)
    ensures
        s.push(x).to_set() == s.to_set().insert(x),
{
    assert forall|a: Seq<char>| s.push(x).contains(a) <==> (s.contains(a) || a == x) by {
        if s.push(x).contains(a) {
            let i = choose|i: int| 0 <= i < s.push(x).len() && s.push(x)[i] == a;
            if i < s.len() {
                assert(s[i] == a);
            }
        }
        if s.contains(a) {
            let i = choose|i: int| 0 <= i < s.len() && s[i] == a;
            assert(s.push(x)[i] == a);
        }
        if a == x {
            assert(s.push(x)[s.len() as int] == x);
        }
    }
    assert forall|a: Seq<char>| #[trigger] s.push(x).to_set().contains(a) == s.to_set().insert(x).contains(a) by {
        assert(s.push(x).to_set().contains(a) == s.push(x).contains(a));
        assert(s.to_set().contains(a) == s.contains(a));
    }
    assert(s.push(x).to_set() =~= s.to_set().insert(x));
}

fn seen_contains(seen: &Vec<Vec<char>>, t: &[char]) -> (r: bool)
    ensures
        r == seen@.map_values(|v: Vec<char>| v@).contains(t@),
{
    let ghost sv = seen@.map_values(|v: Vec<char>| v@);
    let mut i: usize = 0;
    while i < seen.len()
        invariant
            i <= seen@.len(),
            sv == seen@.map_values(|v: Vec<char>| v@),
            forall|k: int| 0 <= k < i ==> sv[k] != t@,
        decreases seen.len() - i,
    {
        if chars_eq(seen[i].as_slice(), t) {
            assert(sv[i as int] == t@);
            return true;
        }
        i += 1;
    }
    false
}

/// Everything that would make a save refuse: blank triggers and repeated ones. Advanced matches
/// are left alone — the form never touches them.
pub fn validate(mf: &MatchFile) -> (r: Vec<ValidationIssue>)
    ensures
        r@.map_values(|i: ValidationIssue| i@) == issues_from(mf.entries@, Set::empty()),
{
    let mut issues: Vec<ValidationIssue> = Vec::new();
    let mut seen: Vec<Vec<char>> = Vec::new();
    let es = &mf.entries;
    let mut i: usize = 0;
    assert(es@.subrange(0, es@.len() as int) =~= es@);
    assert(seen@.map_values(|v: Vec<char>| v@).to_set() =~= Set::<Seq<char>>::empty());
    assert(issues@.map_values(|x: ValidationIssue| x@) + issues_from(es@, Set::empty()) =~= issues_from(es@, Set::empty()));
    while i < es.len()
        invariant
            i <= es@.len(),
            es == &mf.entries,
            issues@.map_values(|x: ValidationIssue| x@) + issues_from(es@.subrange(i as int, es@.len() as int),
                seen@.map_values(|v: Vec<char>| v@).to_set())
                == issues_from(es@, Set::empty()),
        decreases es.len() - i,
    {
        let ghost rest = es@.subrange(i as int, es@.len() as int);
        let ghost seen_set = seen@.map_values(|v: Vec<char>| v@).to_set();
        let ghost before = issues@.map_values(|x: ValidationIssue| x@);
        let ghost seen0 = seen@;
        assert(rest.drop_first() =~= es@.subrange(i + 1, es@.len() as int));
        assert(rest[0] == es@[i as int]);
        match &es[i] {
            MatchEntry::Simple(m) => {
                let trimmed = trim(m.trigger.as_str());
                if trimmed.as_str().is_empty() {
                    assert(issues_from(rest, seen_set) == seq![IssueV::EmptyTrigger] + issues_from(es@.subrange(i + 1, es@.len() as int), seen_set));
                    issues.push(ValidationIssue::EmptyTrigger);
                    assert(issues@.map_values(|x: ValidationIssue| x@) =~= before.push(IssueV::EmptyTrigger));
                    assert(before.push(IssueV::EmptyTrigger) + issues_from(es@.subrange(i + 1, es@.len() as int), seen_set)
                        =~= before + (seq![IssueV::EmptyTrigger] + issues_from(es@.subrange(i + 1, es@.len() as int), seen_set)));
                } else {
                    let tv = chars_of(m.trigger.as_str());
                    let dup = seen_contains(&seen, tv.as_slice());
                    assert(seen@.map_values(|v: Vec<char>| v@).contains(tv@) == seen_set.contains(tv@));
                    if dup {
                        assert(issues_from(rest, seen_set) == seq![IssueV::DuplicateTrigger(m.trigger@)] + issues_from(es@.subrange(i + 1, es@.len() as int), seen_set));
                        issues.push(ValidationIssue::DuplicateTrigger(owned(m.trigger.as_str())));
                        let ghost d = IssueV::DuplicateTrigger(m.trigger@);
                        assert(issues@.map_values(|x: ValidationIssue| x@) =~= before.push(d));
                        assert(before.push(d) + issues_from(es@.subrange(i + 1, es@.len() as int), seen_set)
                            =~= before + (seq![d] + issues_from(es@.subrange(i + 1, es@.len() as int), seen_set)));
                    } else {
                        assert(issues_from(rest, seen_set) == issues_from(es@.subrange(i + 1, es@.len() as int), seen_set.insert(m.trigger@)));
                        seen.push(tv);
                        assert(seen@.map_values(|v: Vec<char>| v@) =~= seen0.map_values(|v: Vec<char>| v@).push(m.trigger@));
                        proof {
                            lemma_push_to_set(seen0.map_values(|v: Vec<char>| v@), m.trigger@);
                        }
                    }
                }
            },
            MatchEntry::Advanced(_) => {
                assert(issues_from(rest, seen_set) == issues_from(es@.subrange(i + 1, es@.len() as int), seen_set));
            },
        }
        assert(issues@.map_values(|x: ValidationIssue| x@) + issues_from(es@.subrange(i + 1, es@.len() as int),
                seen@.map_values(|v: Vec<char>| v@).to_set())
                == before + issues_from(rest, seen_set));
        i += 1;
    }
    assert(es@.subrange(es@.len() as int, es@.len() as int) =~= Seq::<MatchEntry>::empty());
    assert(issues@.map_values(|x: ValidationIssue| x@) + Seq::<IssueV>::empty() =~= issues@.map_values(|x: ValidationIssue| x@));
    issues
}

/// Why the expansions file could not be read: the file itself, or its contents.
pub enum LoadError {
    Io(String),
    Parse(String),
}

impl LoadError {
    /// The problem as a sentence, with the underlying error in it.
    pub fn friendly_message(&self, t: &Strings) -> (r: String)
        ensures
            r@ == (match self {
                LoadError::Io(e) => fill_spec(t.err_read_file@, seq![("err"@, e@)]),
                LoadError::Parse(e) => fill_spec(t.err_parse_yaml@, seq![("err"@, e@)]),
            }),
    {
        match self {
            LoadError::Io(e) => {
                let args = [("err", e.as_str())];
                let r = fill(t.err_read_file, &args);
                assert(args_view(args@) =~= seq![("err"@, e@)]);
                r
            },
            LoadError::Parse(e) => {
                let args = [("err", e.as_str())];
                let r = fill(t.err_parse_yaml, &args);
                assert(args_view(args@) =~= seq![("err"@, e@)]);
                r
            },
        }
    }
}

/// Why a save did not happen.
pub enum SaveError {
    Validation(Vec<ValidationIssue>),
    /// Our own output did not read back: a bug on our side, so the write is refused rather than
    /// risking the user's file.
    SelfCheckFailed(String),
    Io(String),
}

/// Every issue's message, in order.
pub open spec fn issue_messages(issues: Seq<ValidationIssue>, t: Strings) -> Seq<Seq<char>> {
    issues.map_values(|i: ValidationIssue| issue_message(i@, t))
}

impl SaveError {
    /// The problem as text: one line per validation issue, or the underlying error in a sentence.
    pub fn friendly_message(&self, t: &Strings) -> (r: String)
        ensures
            r@ == (match self {
                SaveError::Validation(issues) => join_spec(issue_messages(issues@, *t), seq!['\n']),
                SaveError::SelfCheckFailed(e) => fill_spec(t.err_self_check@, seq![("err"@, e@)]),
                SaveError::Io(e) => fill_spec(t.err_write_file@, seq![("err"@, e@)]),
            }),
    {
        match self {
            SaveError::Validation(issues) => {
                let mut out = String::new();
                let mut i: usize = 0;
                while i < issues.len()
                    invariant
                        i <= issues@.len(),
                        out@ == join_spec(issue_messages(issues@.subrange(0, i as int), *t), seq!['\n']),
                    decreases issues.len() - i,
                {
                    let msg = issues[i].friendly_message(t);
                    let ghost before = issue_messages(issues@.subrange(0, i as int), *t);
                    push_joined(&mut out, msg.as_str(), "\n", i == 0);
                    proof {
                        reveal_strlit("\n");
                        lemma_join_push(before, seq!['\n'], msg@);
                        assert(issue_messages(issues@.subrange(0, i + 1), *t) =~= before.push(msg@));
                    }
                    i += 1;
                }
                assert(issues@.subrange(0, issues@.len() as int) =~= issues@);
                out
            },
            SaveError::SelfCheckFailed(e) => {
                let args = [("err", e.as_str())];
                let r = fill(t.err_self_check, &args);
                assert(args_view(args@) =~= seq![("err"@, e@)]);
                r
            },
            SaveError::Io(e) => {
                let args = [("err", e.as_str())];
                let r = fill(t.err_write_file, &args);
                assert(args_view(args@) =~= seq![("err"@, e@)]);
                r
            },
        }
    }
}

/// What went wrong on the way to a save that still went through. Neither is a reason to throw
/// the user's edit away, but both have to be said: the backup is precisely what people reach for
/// when something has gone wrong.
pub struct SaveWarnings {
    /// The previous file could not be copied into `backups/` before being replaced.
    pub backup: Option<String>,
    /// The bytes were written but Windows would not confirm they reached the disk.
    pub flush: Option<String>,
}

/// The warnings' sentences, in the order they happened.
pub open spec fn warning_parts(w: SaveWarnings, t: Strings) -> Seq<Seq<char>> {
    let b = match w.backup {
        Some(e) => seq![fill_spec(t.save_backup_failed@, seq![("err"@, e@)])],
        None => Seq::empty(),
    };
    let f = match w.flush {
        Some(e) => seq![fill_spec(t.save_flush_failed@, seq![("err"@, e@)])],
        None => Seq::empty(),
    };
    b + f
}

impl SaveWarnings {
    /// No warnings.
    pub fn none() -> (r: SaveWarnings)
        ensures
            r.backup is None,
            r.flush is None,
    {
        SaveWarnings { backup: None, flush: None }
    }

    /// The warnings as one block of text, separated by a blank line, or `None` if there are none.
    pub fn message(&self, t: &Strings) -> (r: Option<String>)
        ensures
            warning_parts(*self, *t).len() == 0 ==> r is None,
            warning_parts(*self, *t).len() > 0 ==> r is Some && r->0@ == join_spec(warning_parts(*self, *t), "\n\n"@),
    {
        let mut out = String::new();
        let mut any = false;
        let ghost mut parts: Seq<Seq<char>> = Seq::empty();
        match &self.backup {
            Some(e) => {
                let args = [("err", e.as_str())];
                let msg = fill(t.save_backup_failed, &args);
                assert(args_view(args@) =~= seq![("err"@, e@)]);
                push_joined(&mut out, msg.as_str(), "\n\n", !any);
                proof {
                    lemma_join_push(parts, "\n\n"@, msg@);
                    parts = parts.push(msg@);
                }
                any = true;
            },
            None => {},
        }
        match &self.flush {
            Some(e) => {
                let args = [("err", e.as_str())];
                let msg = fill(t.save_flush_failed, &args);
                assert(args_view(args@) =~= seq![("err"@, e@)]);
                push_joined(&mut out, msg.as_str(), "\n\n", !any);
                proof {
                    lemma_join_push(parts, "\n\n"@, msg@);
                    parts = parts.push(msg@);
                }
                any = true;
            },
            None => {},
        }
        assert(parts =~= warning_parts(*self, *t));
        if any {
            Some(out)
        } else {
            None
        }
    }
}

} // verus!
