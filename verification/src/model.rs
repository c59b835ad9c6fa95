//! The shape of `base.yml`'s matches, and the promise printed at the top of it.
//!
//! That banner says EspansoManager preserves any match it cannot show in its interface, and this
//! module is where that is kept or broken. `MatchEntry::Advanced` carries anything the form cannot
//! represent — shell commands, regex triggers, per-app rules — as its original YAML text, untouched,
//! and `is_safely_editable` is what the interface asks before offering to edit a row.
//!
//! Reading and writing the YAML itself happens outside this library; what arrives here is already
//! split into the plain values the logic reads.

use vstd::prelude::*;
use crate::i18n::{fill, fill_spec, args_view};
use crate::strings::Strings;
use crate::datefmt::{Now, format_spec, shows_utc};
use crate::text::{trim, trim_spec, chars_of, push_char, str_eq, owned};

verus! {

// ---------------------------------------------------------------------------------------------
// Values
// ---------------------------------------------------------------------------------------------

/// A YAML scalar as the logic sees it: a string, or anything else kept as its YAML text.
pub enum Scalar {
    Text(String),
    Other(String),
}

/// The mathematical content of a [`Scalar`].
pub enum ScalarV {
    Text(Seq<char>),
    Other(Seq<char>),
}

impl View for Scalar {
    type V = ScalarV;

    open spec fn view(&self) -> ScalarV {
        match self {
            Scalar::Text(s) => ScalarV::Text(s@),
            Scalar::Other(s) => ScalarV::Other(s@),
        }
    }
}

/// One `key: value` entry of a variable's `params`, in file order.
pub struct Param {
    pub key: Scalar,
    pub value: Scalar,
}

impl View for Param {
    type V = (ScalarV, ScalarV);

    open spec fn view(&self) -> (ScalarV, ScalarV) {
        (self.key@, self.value@)
    }
}

/// A `vars:` entry inside a match, e.g. the "current date" variable.
pub struct VarEntry {
    pub name: String,
    pub var_type: String,
    pub params: Vec<Param>,
}

/// The mathematical content of a [`VarEntry`].
pub struct VarEntryV {
    pub name: Seq<char>,
    pub var_type: Seq<char>,
    pub params: Seq<(ScalarV, ScalarV)>,
}

impl View for VarEntry {
    type V = VarEntryV;

    open spec fn view(&self) -> VarEntryV {
        VarEntryV {
            name: self.name@,
            var_type: self.var_type@,
            params: self.params@.map_values(|p: Param| p@),
        }
    }
}

/// What a mapping lookup of `key` gives when only string values count: the value of the first
/// entry whose key is the string `key`, if that value is a string.
pub open spec fn param_str_spec(params: Seq<(ScalarV, ScalarV)>, key: Seq<char>) -> Option<Seq<char>>
    decreases params.len(),
{
    if params.len() == 0 {
        None
    } else if params[0].0 == ScalarV::Text(key) {
        match params[0].1 {
            ScalarV::Text(v) => Some(v),
            ScalarV::Other(_) => None,
        }
    } else {
        param_str_spec(params.drop_first(), key)
    }
}

/// The `Option<&str>` handed out, as a sequence.
pub open spec fn opt_view(o: Option<&str>) -> Option<Seq<char>> {
    match o {
        Some(s) => Some(s@),
        None => None,
    }
}

proof fn lemma_param_prefix(params: Seq<(ScalarV, ScalarV)>, key: Seq<char>, i: int)
    requires
        0 <= i <= params.len(),
        forall|k: int| 0 <= k < i ==> params[k].0 != ScalarV::Text(key),
    ensures
        param_str_spec(params, key) == param_str_spec(params.subrange(i, params.len() as int), key),
    decreases i,
{
    if i > 0 {
        assert(params.drop_first().subrange(i - 1, params.drop_first().len() as int)
            =~= params.subrange(i, params.len() as int));
        assert forall|k: int| 0 <= k < i - 1 implies params.drop_first()[k].0 != ScalarV::Text(key) by {
            assert(params.drop_first()[k] == params[k + 1]);
        }
        lemma_param_prefix(params.drop_first(), key, i - 1);
    } else {
        assert(params.subrange(0, params.len() as int) =~= params);
    }
}

fn scalar_is_text(s: &Scalar, key: &str) -> (r: bool)
    ensures
        r == (s@ == ScalarV::Text(key@)),
{
    match s {
        Scalar::Text(t) => str_eq(t.as_str(), key),
        Scalar::Other(_) => false,
    }
}

impl VarEntry {
    /// The string value of parameter `key`, if it is there and is a string.
    pub fn param_str(&self, key: &str) -> (r: Option<&str>)
        ensures
            opt_view(r) == param_str_spec(self@.params, key@),
    {
        let ghost ps = self@.params;
        let mut i: usize = 0;
        while i < self.params.len()
            invariant
                i <= self.params@.len(),
                ps == self@.params,
                forall|k: int| 0 <= k < i ==> ps[k].0 != ScalarV::Text(key@),
            decreases self.params.len() - i,
        {
            if scalar_is_text(&self.params[i].key, key) {
                proof {
                    lemma_param_prefix(ps, key@, i as int);
                    assert(ps.subrange(i as int, ps.len() as int)[0] == ps[i as int]);
                }
                return match &self.params[i].value {
                    Scalar::Text(v) => Some(v.as_str()),
                    Scalar::Other(_) => None,
                };
            }
            i += 1;
        }
        proof {
            lemma_param_prefix(ps, key@, i as int);
        }
        None
    }
}

// ---------------------------------------------------------------------------------------------
// Matches
// ---------------------------------------------------------------------------------------------

/// A match the GUI fully understands and can edit with a simple form.
pub struct SimpleMatch {
    pub trigger: String,
    pub replace: String,
    pub vars: Vec<VarEntry>,
    pub label: Option<String>,
}

/// The mathematical content of a [`SimpleMatch`].
pub struct SimpleMatchV {
    pub trigger: Seq<char>,
    pub replace: Seq<char>,
    pub vars: Seq<VarEntryV>,
    pub label: Option<Seq<char>>,
}

impl View for SimpleMatch {
    type V = SimpleMatchV;

    open spec fn view(&self) -> SimpleMatchV {
        SimpleMatchV {
            trigger: self.trigger@,
            replace: self.replace@,
            vars: self.vars@.map_values(|v: VarEntry| v@),
            label: match self.label {
                Some(l) => Some(l@),
                None => None,
            },
        }
    }
}

/// A match the form cannot represent, kept as the YAML text it was read as so that it is written
/// back unchanged. `trigger` is its `trigger:` string, or empty when it has none.
pub struct AdvancedMatch {
    pub trigger: String,
    pub yaml: String,
}

/// One entry of `matches:`.
pub enum MatchEntry {
    Simple(SimpleMatch),
    Advanced(AdvancedMatch),
}

/// The `{{name}}` reference that makes a variable the whole replacement.
pub open spec fn var_reference(name: Seq<char>) -> Seq<char> {
    seq!['{', '{'] + name + seq!['}', '}']
}

/// Whether a match is exactly an "insert the current date" expansion: a single `date` variable
/// referenced verbatim as the whole replacement.
pub open spec fn is_date_match(m: SimpleMatchV) -> bool {
    &&& m.vars.len() == 1
    &&& m.vars[0].var_type == "date"@
    &&& trim_spec(m.replace) == var_reference(m.vars[0].name)
}

/// The trigger of an entry, as used for bookkeeping.
pub open spec fn entry_trigger(e: MatchEntry) -> Seq<char> {
    match e {
        MatchEntry::Simple(m) => m.trigger@,
        MatchEntry::Advanced(a) => a.trigger@,
    }
}

/// Whether the simple form can rewrite this entry without losing anything.
pub open spec fn is_editable_spec(e: MatchEntry) -> bool {
    match e {
        MatchEntry::Simple(m) => m@.vars.len() == 0 || is_date_match(m@),
        MatchEntry::Advanced(_) => false,
    }
}

/// `c` with newlines turned into spaces, so a multi-line replacement fits on one row.
pub open spec fn one_line(s: Seq<char>) -> Seq<char> {
    s.map_values(|c: char| if c == '\n' { ' ' } else { c })
}

/// The string value of parameter `key` of a variable.
pub open spec fn var_param(v: VarEntryV, key: Seq<char>) -> Option<Seq<char>> {
    param_str_spec(v.params, key)
}

/// The format a date variable carries, or empty when it has none.
pub open spec fn date_format_of(v: VarEntryV) -> Seq<char> {
    match var_param(v, "format"@) {
        Some(f) => f,
        None => Seq::empty(),
    }
}

/// The worked example a date match shows in the list: its format rendered on the clock its time
/// zone names, in the language its `locale` names.
pub open spec fn date_example(v: VarEntryV, local: Now, utc: Now) -> Seq<char> {
    format_spec(
        date_format_of(v),
        if shows_utc(var_param(v, "tz"@)) { utc } else { local },
        crate::datefmt::lang_of_tag(var_param(v, "locale"@)),
    )
}

/// The one-line preview of an entry shown in the list.
pub open spec fn preview_spec(e: MatchEntry, t: Strings, local: Now, utc: Now) -> Seq<char> {
    match e {
        MatchEntry::Simple(m) => if is_date_match(m@) {
            fill_spec(t.preview_date@, seq![("example"@, date_example(m@.vars[0], local, utc))])
        } else if m@.vars.len() > 0 {
            t.preview_advanced_vars@
        } else {
            one_line(m@.replace)
        },
        MatchEntry::Advanced(_) => t.preview_advanced@,
    }
}

impl SimpleMatch {
    /// The date variable of a match created from a date preset: a single `date`-typed variable,
    /// referenced verbatim as the whole replacement. Used so that re-opening such a match shows
    /// the date picker instead of the raw-text editor.
    pub fn as_date_var(&self) -> (r: Option<&VarEntry>)
        ensures
            r is Some <==> is_date_match(self@),
            r is Some ==> r->0@ == self@.vars[0],
    {
        if self.vars.len() != 1 {
            return None;
        }
        let var = &self.vars[0];
        if !str_eq(var.var_type.as_str(), "date") {
            return None;
        }
        let trimmed = trim(self.replace.as_str());
        let mut reference = String::new();
        push_char(&mut reference, '{');
        push_char(&mut reference, '{');
        crate::text::push_str(&mut reference, var.name.as_str());
        push_char(&mut reference, '}');
        push_char(&mut reference, '}');
        assert(reference@ =~= var_reference(var.name@));
        if str_eq(trimmed.as_str(), reference.as_str()) {
            Some(var)
        } else {
            None
        }
    }
}

impl MatchEntry {
    /// The trigger used for bookkeeping (folder assignment, selection, lookups). Never
    /// translated, so switching languages cannot detach an expansion from its folder.
    pub fn trigger_str(&self) -> (r: &str)
        ensures
            r@ == entry_trigger(*self),
    {
        match self {
            MatchEntry::Simple(m) => m.trigger.as_str(),
            MatchEntry::Advanced(a) => a.trigger.as_str(),
        }
    }

    /// Owned form of [`MatchEntry::trigger_str`].
    pub fn trigger_label(&self) -> (r: String)
        ensures
            r@ == entry_trigger(*self),
    {
        owned(self.trigger_str())
    }

    /// Whether the simple form can safely rewrite this match's replacement and variables without
    /// losing anything: a plain text match or one of the date presets qualifies.
    pub fn is_safely_editable(&self) -> (r: bool)
        ensures
            r == is_editable_spec(*self),
    {
        match self {
            MatchEntry::Simple(m) => m.vars.len() == 0 || m.as_date_var().is_some(),
            MatchEntry::Advanced(_) => false,
        }
    }

    /// The one-line preview shown in the list: a worked example for a date, a note for matches
    /// with other variables or ones the form cannot show, and the replacement itself otherwise,
    /// with its newlines flattened. `local` and `utc` are the clocks a date example is read from.
    pub fn preview(&self, t: &Strings, local: Now, utc: Now) -> (r: String)
        ensures
            r@ == preview_spec(*self, *t, local, utc),
    {
        match self {
            MatchEntry::Simple(m) => {
                match m.as_date_var() {
                    Some(var) => {
                        let format = match var.param_str("format") {
                            Some(f) => f,
                            None => "",
                        };
                        let example = crate::datefmt::sample(
                            format,
                            var.param_str("tz"),
                            crate::datefmt::lang_from_locale_tag(var.param_str("locale")),
                            local,
                            utc,
                        );
                        proof {
                            reveal_strlit("");
                            assert(format@ == date_format_of(m@.vars[0]));
                            assert(example@ == date_example(m@.vars[0], local, utc));
                        }
                        let args = [("example", example.as_str())];
                        assert(args@.len() == 1);
                        assert(args@[0].1@ == example@);
                        let r = fill(t.preview_date, &args);
                        assert(args_view(args@) =~= seq![("example"@, date_example(m@.vars[0], local, utc))]);
                        r
                    },
                    None => {
                        if m.vars.len() > 0 {
                            owned(t.preview_advanced_vars)
                        } else {
                            flatten_lines(m.replace.as_str())
                        }
                    },
                }
            },
            MatchEntry::Advanced(_) => owned(t.preview_advanced),
        }
    }
}

/// `s` with every newline turned into a space.
pub fn flatten_lines(s: &str) -> (r: String)
    ensures
        r@ == one_line(s@),
{
    let v = chars_of(s);
    let mut out = String::new();
    let mut i: usize = 0;
    while i < v.len()
        invariant
            i <= v@.len(),
            v@ == s@,
            out@ == one_line(v@.subrange(0, i as int)),
        decreases v.len() - i,
    {
        let c = v[i];
        push_char(&mut out, if c == '\n' { ' ' } else { c });
        assert(one_line(v@.subrange(0, i + 1)) =~= one_line(v@.subrange(0, i as int)).push(
            if c == '\n' { ' ' } else { c },
        ));
        i += 1;
    }
    assert(v@.subrange(0, v@.len() as int) =~= v@);
    out
}

} // verus!
