//! The interface languages, and the one function that puts values into a translated sentence.
//!
//! Strings that embed a value use named placeholders (`{n}`, `{name}`, ...), never positional
//! ones, so a translator is free to reorder them to suit their grammar. [`fill`] substitutes them
//! in a single left-to-right pass: a value that has been put in is never looked at again, so a
//! folder the user named `{n}` stays `{n}` instead of turning into a count.

use vstd::prelude::*;
use crate::strings::{Strings, en_spec, es_spec, fil_spec, hi_spec, en_table, es_table, fil_table, hi_table};
use crate::text::{chars_of, push_char, push_str, chars_eq};

verus! {

/// An interface language.
#[derive(Debug, Clone, Copy, PartialEq, Eq, Structural)]
pub enum Lang {
    En,
    Es,
    Fil,
    Hi,
}

/// Every language, in the order the pickers list them.
pub const ALL_LANGS: [Lang; 4] = [Lang::En, Lang::Es, Lang::Fil, Lang::Hi];

/// The string table of `lang`.
pub open spec fn strings_spec(lang: Lang) -> Strings {
    match lang {
        Lang::En => en_spec(),
        Lang::Es => es_spec(),
        Lang::Fil => fil_spec(),
        Lang::Hi => hi_spec(),
    }
}

/// A language's own name for itself.
pub open spec fn native_name_of(lang: Lang) -> Seq<char> {
    match lang {
        Lang::En => "English"@,
        Lang::Es => "Español"@,
        Lang::Fil => "Filipino"@,
        Lang::Hi => "हिन्दी"@,
    }
}

/// A language's name in Latin script.
pub open spec fn latin_name_of(lang: Lang) -> Seq<char> {
    match lang {
        Lang::En => "English"@,
        Lang::Es => "Español"@,
        Lang::Fil => "Filipino"@,
        Lang::Hi => "Hindi"@,
    }
}

impl Lang {
    /// The language the application starts in.
    pub fn default_lang() -> (r: Lang)
        ensures
            r == Lang::En,
    {
        Lang::En
    }

    /// The language's own name for itself — what a speaker of it expects to see in a picker.
    pub fn native_name(self) -> (r: &'static str)
        ensures
            r@ == native_name_of(self),
    {
        match self {
            Lang::En => "English",
            Lang::Es => "Español",
            Lang::Fil => "Filipino",
            Lang::Hi => "हिन्दी",
        }
    }

    /// A plain-Latin name for the language, used wherever its own script cannot be drawn yet.
    pub fn latin_name(self) -> (r: &'static str)
        ensures
            r@ == latin_name_of(self),
    {
        match self {
            Lang::En => "English",
            Lang::Es => "Español",
            Lang::Fil => "Filipino",
            Lang::Hi => "Hindi",
        }
    }

    /// A representative character of the language's own script, for checking whether the loaded
    /// fonts can draw its name.
    pub fn script_sample(self) -> (c: char)
        ensures
            c == (if self == Lang::Hi { 'ह' } else { 'A' }),
    {
        match self {
            Lang::Hi => 'ह',
            _ => 'A',
        }
    }

    /// What the language picker shows: the native name when its script's glyphs are available,
    /// the Latin one otherwise, so a name never renders as a row of empty boxes.
    pub fn picker_label(self, has_glyph: bool) -> (r: &'static str)
        ensures
            r@ == (if has_glyph { native_name_of(self) } else { latin_name_of(self) }),
    {
        if has_glyph {
            self.native_name()
        } else {
            self.latin_name()
        }
    }

    /// The string table for this language.
    pub fn strings(self) -> (r: &'static Strings)
        ensures
            *r == strings_spec(self),
    {
        match self {
            Lang::En => en_table(),
            Lang::Es => es_table(),
            Lang::Fil => fil_table(),
            Lang::Hi => hi_table(),
        }
    }
}

// ---------------------------------------------------------------------------------------------
// Placeholder substitution
// ---------------------------------------------------------------------------------------------

/// The (key, value) pairs handed to [`fill`], as character sequences.
pub open spec fn args_view(args: Seq<(&str, &str)>) -> Seq<(Seq<char>, Seq<char>)> {
    args.map_values(|p: (&str, &str)| (p.0@, p.1@))
}

/// The value of the first argument whose key is `key`, if any.
pub open spec fn lookup(args: Seq<(Seq<char>, Seq<char>)>, key: Seq<char>) -> Option<Seq<char>>
    decreases args.len(),
{
    if args.len() == 0 {
        None
    } else if args[0].0 == key {
        Some(args[0].1)
    } else {
        lookup(args.drop_first(), key)
    }
}

/// Index of the first `c` in `s`, if there is one.
pub open spec fn first_index(s: Seq<char>, c: char) -> Option<int>
    decreases s.len(),
{
    if s.len() == 0 {
        None
    } else if s[0] == c {
        Some(0)
    } else {
        match first_index(s.drop_first(), c) {
            Some(i) => Some(i + 1),
            None => None,
        }
    }
}

/// What `{key}` becomes: its argument's value, or the placeholder itself when nobody supplied one.
pub open spec fn replacement(args: Seq<(Seq<char>, Seq<char>)>, key: Seq<char>) -> Seq<char> {
    match lookup(args, key) {
        Some(v) => v,
        None => seq!['{'] + key + seq!['}'],
    }
}

/// The template with every `{key}` replaced, read left to right.
///
/// A `{` starts a placeholder that runs to the first `}` after it; what follows that `}` is read
/// afresh. A `{` with no `}` anywhere after it is an ordinary character. Substituted values are
/// never read again.
pub open spec fn fill_spec(t: Seq<char>, args: Seq<(Seq<char>, Seq<char>)>) -> Seq<char>
    decreases t.len(),
{
    if t.len() == 0 {
        t
    } else if t[0] != '{' {
        seq![t[0]] + fill_spec(t.drop_first(), args)
    } else {
        let after = t.drop_first();
        match first_index(after, '}') {
            Some(close) => {
                proof {
                    lemma_first_index_bounds(after, '}');
                }
                replacement(args, after.subrange(0, close))
                    + fill_spec(after.subrange(close + 1, after.len() as int), args)
            },
            None => seq!['{'] + fill_spec(after, args),
        }
    }
}

pub proof fn lemma_first_index_bounds(s: Seq<char>, c: char)
    ensures
        match first_index(s, c) {
            Some(i) => 0 <= i < s.len() && s[i] == c && forall|k: int| 0 <= k < i ==> s[k] != c,
            None => forall|k: int| 0 <= k < s.len() ==> s[k] != c,
        },
    decreases s.len(),
{
    if s.len() > 0 && s[0] != c {
        lemma_first_index_bounds(s.drop_first(), c);
        match first_index(s.drop_first(), c) {
            Some(i) => {
                assert forall|k: int| 0 <= k < i + 1 implies s[k] != c by {
                    if k > 0 {
                        assert(s[k] == s.drop_first()[k - 1]);
                    }
                }
            },
            None => {
                assert forall|k: int| 0 <= k < s.len() implies s[k] != c by {
                    if k > 0 {
                        assert(s[k] == s.drop_first()[k - 1]);
                    }
                }
            },
        }
    }
}

pub proof fn lemma_first_index_is(s: Seq<char>, c: char, i: int)
    requires
        0 <= i < s.len(),
        s[i] == c,
        forall|k: int| 0 <= k < i ==> s[k] != c,
    ensures
        first_index(s, c) == Some(i),
    decreases s.len(),
{
    lemma_first_index_bounds(s, c);
    match first_index(s, c) {
        Some(j) => {
            if j < i {
                assert(s[j] != c);
            } else if j > i {
                assert(s[i] != c);
            }
        },
        None => {
            assert(s[i] != c);
        },
    }
}

proof fn lemma_lookup_prefix(args: Seq<(Seq<char>, Seq<char>)>, key: Seq<char>, i: int)
    requires
        0 <= i < args.len(),
        forall|k: int| 0 <= k < i ==> args[k].0 != key,
    ensures
        lookup(args, key) == lookup(args.subrange(i, args.len() as int), key),
    decreases i,
{
    if i > 0 {
        assert(args.drop_first().subrange(i - 1, args.drop_first().len() as int)
            =~= args.subrange(i, args.len() as int));
        assert(args[0].0 != key);
        assert forall|k: int| 0 <= k < i - 1 implies args.drop_first()[k].0 != key by {
            assert(args.drop_first()[k] == args[k + 1]);
        }
        lemma_lookup_prefix(args.drop_first(), key, i - 1);
    } else {
        assert(args.subrange(0, args.len() as int) =~= args);
    }
}

proof fn lemma_lookup_none(args: Seq<(Seq<char>, Seq<char>)>, key: Seq<char>)
    requires
        forall|k: int| 0 <= k < args.len() ==> args[k].0 != key,
    ensures
        lookup(args, key) == None::<Seq<char>>,
    decreases args.len(),
{
    if args.len() > 0 {
        lemma_lookup_none(args.drop_first(), key);
    }
}

/// The value `args` holds for the placeholder `v[from..to]`, if any, found the way [`lookup`]
/// finds it.
fn find_arg<'a>(args: &[(&'a str, &'a str)], v: &[char], from: usize, to: usize) -> (r: Option<&'a str>)
    requires
        from <= to <= v@.len(),
    ensures
        match lookup(args_view(args@), v@.subrange(from as int, to as int)) {
            Some(val) => r is Some && r->0@ == val,
            None => r is None,
        },
{
    let ghost key = v@.subrange(from as int, to as int);
    let ghost av = args_view(args@);
    let mut i: usize = 0;
    while i < args.len()
        invariant
            i <= args@.len(),
            key == v@.subrange(from as int, to as int),
            from <= to <= v@.len(),
            av == args_view(args@),
            forall|k: int| 0 <= k < i ==> av[k].0 != key,
        decreases args.len() - i,
    {
        let k = chars_of(args[i].0);
        if crate::text::range_eq(v, from, to, k.as_slice()) {
            proof {
                lemma_lookup_prefix(av, key, i as int);
                assert(av.subrange(i as int, av.len() as int)[0] == av[i as int]);
            }
            return Some(args[i].1);
        }
        i += 1;
    }
    proof {
        lemma_lookup_none(av, key);
    }
    None
}

/// Substitutes `{name}` placeholders in a translated string.
///
/// One left-to-right pass over the template. A key with no argument is left on screen as `{key}`
/// rather than dropped, so a placeholder a translator renamed shows up instead of vanishing; a `{`
/// with nothing closing it is just a brace.
pub fn fill(template: &str, args: &[(&str, &str)]) -> (r: String)
    ensures
        r@ == fill_spec(template@, args_view(args@)),
{
    let v = chars_of(template);
    let n = v.len();
    let ghost av = args_view(args@);
    let mut out = String::new();
    let mut i: usize = 0;
    assert(v@.subrange(0, n as int) =~= v@);
    assert(out@ + fill_spec(v@, av) =~= fill_spec(v@, av));
    while i < n
        invariant
            i <= n == v@.len(),
            v@ == template@,
            av == args_view(args@),
            out@ + fill_spec(v@.subrange(i as int, n as int), av) == fill_spec(v@, av),
        decreases n - i,
    {
        let ghost rest = v@.subrange(i as int, n as int);
        if v[i] != '{' {
            proof {
                assert(rest.drop_first() =~= v@.subrange(i + 1, n as int));
                assert(out@.push(v@[i as int]) + fill_spec(v@.subrange(i + 1, n as int), av)
                    =~= out@ + fill_spec(rest, av));
            }
            push_char(&mut out, v[i]);
            i += 1;
        } else {
            // Look for the `}` that closes this placeholder.
            let mut j: usize = i + 1;
            while j < n && v[j] != '}'
                invariant
                    i < j <= n == v@.len(),
                    forall|k: int| i < k < j ==> v@[k] != '}',
                decreases n - j,
            {
                j += 1;
            }
            let ghost after = rest.drop_first();
            assert(after =~= v@.subrange(i + 1, n as int));
            if j < n {
                proof {
                    lemma_first_index_is(after, '}', (j - i - 1) as int);
                    assert(after.subrange(0, (j - i - 1) as int) =~= v@.subrange(i + 1, j as int));
                    assert(after.subrange((j - i) as int, after.len() as int) =~= v@.subrange(j + 1, n as int));
                }
                let ghost out0 = out@;
                let ghost key = v@.subrange(i + 1, j as int);
                match find_arg(args, v.as_slice(), i + 1, j) {
                    Some(val) => {
                        push_str(&mut out, val);
                    },
                    None => {
                        push_char(&mut out, '{');
                        let ghost before = out@;
                        let mut k: usize = i + 1;
                        while k < j
                            invariant
                                i + 1 <= k <= j < n == v@.len(),
                                out@ == before + v@.subrange(i + 1, k as int),
                            decreases j - k,
                        {
                            push_char(&mut out, v[k]);
                            assert(v@.subrange(i + 1, k + 1) =~= v@.subrange(i + 1, k as int).push(v@[k as int]));
                            k += 1;
                        }
                        push_char(&mut out, '}');
                        assert(out@ =~= out0 + (seq!['{'] + key + seq!['}']));
                    },
                }
                proof {
                    assert(out@ == out0 + replacement(av, key));
                    assert(out@ + fill_spec(v@.subrange(j + 1, n as int), av)
                        =~= out0 + fill_spec(rest, av));
                }
                i = j + 1;
            } else {
                proof {
                    lemma_first_index_bounds(after, '}');
                    assert(forall|k: int| 0 <= k < after.len() ==> after[k] == v@[i + 1 + k]);
                    assert(first_index(after, '}') is None);
                    assert(out@.push('{') + fill_spec(v@.subrange(i + 1, n as int), av)
                        =~= out@ + fill_spec(rest, av));
                }
                push_char(&mut out, '{');
                i += 1;
            }
        }
    }
    proof {
        assert(v@.subrange(n as int, n as int) =~= Seq::<char>::empty());
        assert(v@.subrange(0, n as int) =~= v@);
    }
    out
}

// ---------------------------------------------------------------------------------------------
// Laws
// ---------------------------------------------------------------------------------------------

/// Two argument lists that answer every placeholder the same way fill every template the same
/// way — in particular, the order of arguments with distinct keys does not change the result.
pub proof fn law_fill_depends_only_on_lookup(
    t: Seq<char>,
    a: Seq<(Seq<char>, Seq<char>)>,
    b: Seq<(Seq<char>, Seq<char>)>,
)
    requires
        forall|key: Seq<char>| #[trigger] lookup(a, key) == lookup(b, key),
    ensures
        fill_spec(t, a) == fill_spec(t, b),
    decreases t.len(),
{
    if t.len() > 0 {
        if t[0] != '{' {
            law_fill_depends_only_on_lookup(t.drop_first(), a, b);
        } else {
            let after = t.drop_first();
            lemma_first_index_bounds(after, '}');
            match first_index(after, '}') {
                Some(close) => {
                    assert(lookup(a, after.subrange(0, close)) == lookup(b, after.subrange(0, close)));
                    law_fill_depends_only_on_lookup(after.subrange(close + 1, after.len() as int), a, b);
                },
                None => {
                    law_fill_depends_only_on_lookup(after, a, b);
                },
            }
        }
    }
}

/// A template with no `{` in it comes back exactly as it was, whatever the arguments.
pub proof fn law_fill_plain_text_unchanged(t: Seq<char>, args: Seq<(Seq<char>, Seq<char>)>)
    requires
        forall|k: int| 0 <= k < t.len() ==> t[k] != '{',
    ensures
        fill_spec(t, args) == t,
    decreases t.len(),
{
    if t.len() > 0 {
        assert(forall|k: int| 0 <= k < t.drop_first().len() ==> t.drop_first()[k] == t[k + 1]);
        law_fill_plain_text_unchanged(t.drop_first(), args);
        assert(seq![t[0]] + t.drop_first() =~= t);
    }
}

/// A substituted value is put in verbatim and never read again: filling `{key}` with a value that
/// is itself shaped like a placeholder gives that value back untouched.
pub proof fn law_fill_value_is_not_rescanned(
    key: Seq<char>,
    value: Seq<char>,
    args: Seq<(Seq<char>, Seq<char>)>,
)
    requires
        forall|k: int| 0 <= k < key.len() ==> key[k] != '}',
        lookup(args, key) == Some(value),
    ensures
        fill_spec(seq!['{'] + key + seq!['}'], args) == value,
{
    let t = seq!['{'] + key + seq!['}'];
    assert(t.len() > 0 && t[0] == '{');
    let after = t.drop_first();
    assert(after =~= key + seq!['}']);
    assert(after[key.len() as int] == '}');
    assert forall|k: int| 0 <= k < key.len() implies after[k] != '}' by {
        assert(after[k] == key[k]);
    }
    lemma_first_index_is(after, '}', key.len() as int);
    assert(after.subrange(0, key.len() as int) =~= key);
    assert(after.subrange(key.len() as int + 1, after.len() as int) =~= Seq::<char>::empty());
    assert(fill_spec(Seq::<char>::empty(), args) == Seq::<char>::empty());
    assert(replacement(args, key) == value);
    assert(value + Seq::<char>::empty() =~= value);
}

} // verus!
