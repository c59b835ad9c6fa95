//! The built-in "insert current date/time" presets offered to the user, so they never have to know
//! espanso's variable syntax exists, and the one place a `date` variable is assembled.

use vstd::prelude::*;
use crate::i18n::Lang;
use crate::strings::Strings;
use crate::datefmt::{Now, needs_locale, needs_locale_spec, locale_tag, locale_tag_spec, lang_of_tag, format_spec, shows_utc};
use crate::model::{VarEntry, VarEntryV, Param, Scalar, ScalarV, param_str_spec, opt_view};
use crate::text::{owned, str_eq, trim, trim_spec};

verus! {

/// A built-in date preset.
#[derive(Debug, Clone, Copy, PartialEq, Eq, Structural)]
pub enum DatePreset {
    IsoDateOnly,
    IsoDateTimeUtc,
    MonthDayYear,
    DayMonthYear,
}

/// Every preset, in the order the picker lists them.
pub const ALL_PRESETS: [DatePreset; 4] = [
    DatePreset::IsoDateOnly,
    DatePreset::IsoDateTimeUtc,
    DatePreset::MonthDayYear,
    DatePreset::DayMonthYear,
];

/// The strftime a preset writes.
pub open spec fn preset_format(p: DatePreset) -> Seq<char> {
    match p {
        DatePreset::IsoDateOnly => "%Y-%m-%d"@,
        DatePreset::IsoDateTimeUtc => "%Y-%m-%dT%H:%M:%SZ"@,
        DatePreset::MonthDayYear => "%B %-d, %Y"@,
        DatePreset::DayMonthYear => "%-d %B %Y"@,
    }
}

/// The time zone a preset writes, if any.
pub open spec fn preset_tz(p: DatePreset) -> Option<Seq<char>> {
    match p {
        DatePreset::IsoDateTimeUtc => Some("UTC"@),
        _ => None,
    }
}

/// The label a preset is offered under.
pub open spec fn preset_label(p: DatePreset, t: Strings) -> Seq<char> {
    match p {
        DatePreset::IsoDateOnly => t.preset_date_only@,
        DatePreset::IsoDateTimeUtc => t.preset_datetime_utc@,
        DatePreset::MonthDayYear => t.preset_month_day_year@,
        DatePreset::DayMonthYear => t.preset_day_month_year@,
    }
}

/// The parameters of a `date` variable: its format, then its time zone if it has one, then its
/// locale if the format spells anything out in words.
pub open spec fn date_params(format: Seq<char>, tz: Option<Seq<char>>, lang: Lang) -> Seq<(ScalarV, ScalarV)> {
    let with_format = seq![(ScalarV::Text("format"@), ScalarV::Text(format))];
    let with_tz = match tz {
        Some(z) => with_format.push((ScalarV::Text("tz"@), ScalarV::Text(z))),
        None => with_format,
    };
    if needs_locale_spec(format) {
        with_tz.push((ScalarV::Text("locale"@), ScalarV::Text(locale_tag_spec(lang))))
    } else {
        with_tz
    }
}

/// The `date` variable assembled from a name, a format, an optional time zone and a language.
pub open spec fn date_var_spec(name: Seq<char>, format: Seq<char>, tz: Option<Seq<char>>, lang: Lang) -> VarEntryV {
    VarEntryV { name, var_type: "date"@, params: date_params(format, tz, lang) }
}

/// The month language a stored date variable was created with; English when it names none.
pub open spec fn month_lang_spec(v: VarEntryV) -> Lang {
    lang_of_tag(param_str_spec(v.params, "locale"@))
}

/// Whether `v` is exactly what preset `p` writes, month language aside.
pub open spec fn matches_preset(v: VarEntryV, p: DatePreset) -> bool {
    param_str_spec(v.params, "format"@) == Some(preset_format(p))
        && param_str_spec(v.params, "tz"@) == preset_tz(p)
}

/// The first preset, in picker order, that a date variable matches exactly.
pub open spec fn detect_spec(v: VarEntryV) -> Option<DatePreset> {
    if v.var_type != "date"@ {
        None
    } else if matches_preset(v, DatePreset::IsoDateOnly) {
        Some(DatePreset::IsoDateOnly)
    } else if matches_preset(v, DatePreset::IsoDateTimeUtc) {
        Some(DatePreset::IsoDateTimeUtc)
    } else if matches_preset(v, DatePreset::MonthDayYear) {
        Some(DatePreset::MonthDayYear)
    } else if matches_preset(v, DatePreset::DayMonthYear) {
        Some(DatePreset::DayMonthYear)
    } else {
        None
    }
}

fn text_param(key: &str, value: &str) -> (p: Param)
    ensures
        p@ == (ScalarV::Text(key@), ScalarV::Text(value@)),
{
    Param { key: Scalar::Text(owned(key)), value: Scalar::Text(owned(value)) }
}

/// The one place a `date` variable is assembled, so every path writes the same shape.
///
/// `locale` is written only when the format spells something out in words: espanso falls back to
/// the machine's own locale when it is missing, so a written-out month would read differently on a
/// colleague's computer. For a purely numeric format there is nothing to pin.
fn build_date_var(var_name: &str, format: &str, tz: Option<&str>, month_lang: Lang) -> (v: VarEntry)
    ensures
        v@ == date_var_spec(var_name@, format@, opt_view(tz), month_lang),
{
    let mut params: Vec<Param> = Vec::new();
    params.push(text_param("format", format));
    match tz {
        Some(z) => {
            params.push(text_param("tz", z));
        },
        None => {},
    }
    if needs_locale(format) {
        params.push(text_param("locale", locale_tag(month_lang)));
    }
    let v = VarEntry { name: owned(var_name), var_type: owned("date"), params };
    assert(v@.params =~= date_params(format@, opt_view(tz), month_lang));
    v
}

impl DatePreset {
    /// The label the picker shows for this preset.
    pub fn label(self, t: &Strings) -> (r: &'static str)
        ensures
            r@ == preset_label(self, *t),
    {
        match self {
            DatePreset::IsoDateOnly => t.preset_date_only,
            DatePreset::IsoDateTimeUtc => t.preset_datetime_utc,
            DatePreset::MonthDayYear => t.preset_month_day_year,
            DatePreset::DayMonthYear => t.preset_day_month_year,
        }
    }

    /// The strftime this preset writes. `%-d` drops the leading zero, so the ninth reads
    /// "August 9": written-out dates are not zero-padded in any of the languages offered.
    pub fn format(self) -> (r: &'static str)
        ensures
            r@ == preset_format(self),
    {
        match self {
            DatePreset::IsoDateOnly => "%Y-%m-%d",
            DatePreset::IsoDateTimeUtc => "%Y-%m-%dT%H:%M:%SZ",
            DatePreset::MonthDayYear => "%B %-d, %Y",
            DatePreset::DayMonthYear => "%-d %B %Y",
        }
    }

    /// The time zone this preset writes, if any.
    pub fn tz(self) -> (r: Option<&'static str>)
        ensures
            opt_view(r) == preset_tz(self),
    {
        match self {
            DatePreset::IsoDateTimeUtc => Some("UTC"),
            _ => None,
        }
    }

    /// What this preset produces at the moment given by the two clocks, in `lang` — shown next to
    /// the option so the choice is made by looking at the result.
    pub fn sample(self, lang: Lang, local: Now, utc: Now) -> (r: String)
        ensures
            r@ == format_spec(preset_format(self), if shows_utc(preset_tz(self)) { utc } else { local }, lang),
    {
        crate::datefmt::sample(self.format(), self.tz(), lang, local, utc)
    }

    /// Which preset, if any, a date variable matches exactly, so that re-editing a match created
    /// from a preset shows that preset selected. The month language is deliberately not part of
    /// the comparison: it is a separate choice, recovered by [`month_lang_of`].
    pub fn detect(var: &VarEntry) -> (r: Option<DatePreset>)
        ensures
            r == detect_spec(var@),
    {
        if !str_eq(var.var_type.as_str(), "date") {
            return None;
        }
        let mut i: usize = 0;
        while i < 4
            invariant
                i <= 4,
                var@.var_type == "date"@,
                forall|k: int| 0 <= k < i ==> !matches_preset(var@, #[trigger] ALL_PRESETS@[k]),
            decreases 4 - i,
        {
            let p = ALL_PRESETS[i];
            let fmt_ok = match var.param_str("format") {
                Some(f) => str_eq(f, p.format()),
                None => false,
            };
            let tz_ok = match (var.param_str("tz"), p.tz()) {
                (Some(a), Some(b)) => str_eq(a, b),
                (None, None) => true,
                _ => false,
            };
            if fmt_ok && tz_ok {
                return Some(p);
            }
            i += 1;
        }
        None
    }

    /// The `date` variable this preset writes, named `var_name`, with its month language.
    pub fn build_var(self, var_name: &str, month_lang: Lang) -> (v: VarEntry)
        ensures
            v@ == date_var_spec(var_name@, preset_format(self), preset_tz(self), month_lang),
    {
        build_date_var(var_name, self.format(), self.tz(), month_lang)
    }
}

/// The month language a stored date variable was created with. Falls back to English, which is
/// both this app's default and what espanso itself does with a tag it does not recognise.
pub fn month_lang_of(var: &VarEntry) -> (r: Lang)
    ensures
        r == month_lang_spec(var@),
{
    crate::datefmt::lang_from_locale_tag(var.param_str("locale"))
}

/// A custom date variable from a user-chosen format and time zone; a blank time zone is left out.
pub fn build_custom_date_var(var_name: &str, format: &str, tz: Option<&str>, month_lang: Lang) -> (v: VarEntry)
    ensures
        v@ == date_var_spec(var_name@, format@, match tz {
            Some(z) => if trim_spec(z@).len() == 0 { None } else { Some(z@) },
            None => None,
        }, month_lang),
{
    let kept = match tz {
        Some(z) => {
            let trimmed = trim(z);
            if trimmed.as_str().is_empty() {
                None
            } else {
                Some(z)
            }
        },
        None => None,
    };
    build_date_var(var_name, format, kept, month_lang)
}

// ---------------------------------------------------------------------------------------------
// Laws
// ---------------------------------------------------------------------------------------------

proof fn lemma_param_keys_distinct()
    ensures
        "format"@ != "tz"@,
        "format"@ != "locale"@,
        "tz"@ != "locale"@,
{
    reveal_strlit("format");
    reveal_strlit("tz");
    reveal_strlit("locale");
    assert("format"@.len() != "tz"@.len());
    assert("format"@[0] != "locale"@[0]);
    assert("tz"@.len() != "locale"@.len());
}

/// What a freshly assembled date variable answers for each of its three parameters.
pub proof fn lemma_date_params_read_back(format: Seq<char>, tz: Option<Seq<char>>, lang: Lang)
    ensures
        param_str_spec(date_params(format, tz, lang), "format"@) == Some(format),
        param_str_spec(date_params(format, tz, lang), "tz"@) == tz,
        param_str_spec(date_params(format, tz, lang), "locale"@) == (if needs_locale_spec(format) {
            Some(locale_tag_spec(lang))
        } else {
            None::<Seq<char>>
        }),
{
    lemma_param_keys_distinct();
    let ps = date_params(format, tz, lang);
    let fk = ScalarV::Text("format"@);
    let tk = ScalarV::Text("tz"@);
    let lk = ScalarV::Text("locale"@);
    assert(fk != tk && fk != lk && tk != lk);
    assert(ps[0] == (fk, ScalarV::Text(format)));
    let rest = ps.drop_first();
    assert(param_str_spec(ps, "tz"@) == param_str_spec(rest, "tz"@));
    assert(param_str_spec(ps, "locale"@) == param_str_spec(rest, "locale"@));
    match tz {
        Some(z) => {
            assert(rest[0] == (tk, ScalarV::Text(z)));
            let rest2 = rest.drop_first();
            assert(param_str_spec(rest, "locale"@) == param_str_spec(rest2, "locale"@));
            if needs_locale_spec(format) {
                assert(rest2[0] == (lk, ScalarV::Text(locale_tag_spec(lang))));
            } else {
                assert(rest2.len() == 0);
            }
        },
        None => {
            if needs_locale_spec(format) {
                assert(rest[0] == (lk, ScalarV::Text(locale_tag_spec(lang))));
                let rest2 = rest.drop_first();
                assert(rest2.len() == 0);
                assert(param_str_spec(rest, "tz"@) == param_str_spec(rest2, "tz"@));
            } else {
                assert(rest.len() == 0);
            }
        },
    }
}

/// Re-opening a match created from a preset finds that same preset again, whatever its name and
/// month language.
pub proof fn law_detect_recovers_preset(p: DatePreset, name: Seq<char>, lang: Lang)
    ensures
        detect_spec(date_var_spec(name, preset_format(p), preset_tz(p), lang)) == Some(p),
{
    lemma_date_params_read_back(preset_format(p), preset_tz(p), lang);
    reveal_strlit("%Y-%m-%d");
    reveal_strlit("%Y-%m-%dT%H:%M:%SZ");
    reveal_strlit("%B %-d, %Y");
    reveal_strlit("%-d %B %Y");
    assert("%Y-%m-%d"@.len() == 8);
    assert("%Y-%m-%dT%H:%M:%SZ"@.len() == 18);
    assert("%B %-d, %Y"@.len() == 10);
    assert("%-d %B %Y"@.len() == 9);
}

/// The month language a date variable was built with is the one read back from it — whenever the
/// format spells something out in words; a numeric format records none and reads back as English.
pub proof fn law_month_lang_round_trip(name: Seq<char>, format: Seq<char>, tz: Option<Seq<char>>, lang: Lang)
    ensures
        month_lang_spec(date_var_spec(name, format, tz, lang)) == (if needs_locale_spec(format) {
            lang
        } else {
            Lang::En
        }),
{
    lemma_date_params_read_back(format, tz, lang);
    crate::datefmt::law_locale_tag_round_trip(lang);
}

} // verus!
