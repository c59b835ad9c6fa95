//! A miniature date formatter, used only to show the user a live example of what a date
//! expansion will produce.
//!
//! Espanso does the real formatting at typing time; this module exists so the edit form and the
//! list can show "August 29, 2026" instead of the `%B %-d, %Y` that produced it. The month and
//! weekday names mirror what espanso itself prints, letter for letter.
//!
//! Only the specifiers espanso's own presets use, plus the handful anyone is likely to reach for
//! in a custom format, are understood. Anything else is copied through exactly as written, so an
//! unknown code shows up as itself instead of being quietly guessed at.
//!
//! Reading the clock is not done here: the caller hands in the moment to show.

use vstd::prelude::*;
use crate::i18n::Lang;
use crate::text::{chars_of, push_char, push_str, push_decimal, decimal_spec, to_lowercase, lowercase_spec};

verus! {

// ---------------------------------------------------------------------------------------------
// Locale tags
// ---------------------------------------------------------------------------------------------

/// The BCP-47 tag espanso expects in a date variable's `locale` parameter.
pub open spec fn locale_tag_spec(lang: Lang) -> Seq<char> {
    match lang {
        Lang::En => "en-US"@,
        Lang::Es => "es-ES"@,
        Lang::Fil => "fil-PH"@,
        Lang::Hi => "hi-IN"@,
    }
}

/// The language a stored tag names; an unknown or missing tag means English.
pub open spec fn lang_of_tag(tag: Option<Seq<char>>) -> Lang {
    match tag {
        Some(t) => if t == "es-ES"@ {
            Lang::Es
        } else if t == "fil-PH"@ {
            Lang::Fil
        } else if t == "hi-IN"@ {
            Lang::Hi
        } else {
            Lang::En
        },
        None => Lang::En,
    }
}

/// The hyphenated tag written into an expansion's `locale` parameter. Espanso silently falls back
/// to English for the underscored form, so only this one is ever written.
pub fn locale_tag(lang: Lang) -> (r: &'static str)
    ensures
        r@ == locale_tag_spec(lang),
{
    match lang {
        Lang::En => "en-US",
        Lang::Es => "es-ES",
        Lang::Fil => "fil-PH",
        Lang::Hi => "hi-IN",
    }
}

/// Reverse of [`locale_tag`], for re-opening an expansion that was created earlier.
pub fn lang_from_locale_tag(tag: Option<&str>) -> (r: Lang)
    ensures
        r == lang_of_tag(match tag { Some(t) => Some(t@), None => None }),
{
    match tag {
        Some(t) => {
            if crate::text::str_eq(t, "es-ES") {
                Lang::Es
            } else if crate::text::str_eq(t, "fil-PH") {
                Lang::Fil
            } else if crate::text::str_eq(t, "hi-IN") {
                Lang::Hi
            } else {
                Lang::En
            }
        },
        None => Lang::En,
    }
}

/// Proof that the tag written for a language reads back as that language.
pub proof fn law_locale_tag_round_trip(lang: Lang)
    ensures
        lang_of_tag(Some(locale_tag_spec(lang))) == lang,
{
    reveal_strlit("en-US");
    reveal_strlit("es-ES");
    reveal_strlit("fil-PH");
    reveal_strlit("hi-IN");
    assert("en-US"@[1] != "es-ES"@[1]);
    assert("en-US"@.len() != "fil-PH"@.len());
    assert("en-US"@[0] != "hi-IN"@[0]);
    assert("es-ES"@.len() != "fil-PH"@.len());
    assert("es-ES"@[0] != "hi-IN"@[0]);
    assert("fil-PH"@.len() != "hi-IN"@.len());
}

// ---------------------------------------------------------------------------------------------
// Which formats depend on the language
// ---------------------------------------------------------------------------------------------

/// Specifier letters whose output depends on the language: written-out months and weekdays, the
/// meridiem, and the composites the locale defines whole.
pub open spec fn is_locale_letter(c: char) -> bool {
    c == 'B' || c == 'b' || c == 'h' || c == 'A' || c == 'a' || c == 'p' || c == 'P' || c == 'c'
        || c == 'v' || c == 'r' || c == 'x' || c == 'X'
}

/// A padding flag between `%` and the letter.
pub open spec fn is_pad_flag(c: char) -> bool {
    c == '-' || c == '_' || c == '0'
}

/// Whether a format, read left to right, contains a specifier whose output depends on the
/// language. After `%` an optional padding flag is stepped over; the character that follows is
/// the specifier, and it is consumed whatever it is, so `%%B` is a literal per-cent sign and `B`.
pub open spec fn needs_locale_spec(s: Seq<char>) -> bool
    decreases s.len(),
{
    if s.len() == 0 {
        false
    } else if s[0] != '%' {
        needs_locale_spec(s.drop_first())
    } else {
        let r = s.drop_first();
        if r.len() == 0 {
            false
        } else if is_pad_flag(r[0]) {
            let r2 = r.drop_first();
            if r2.len() == 0 {
                false
            } else if is_locale_letter(r2[0]) {
                true
            } else {
                needs_locale_spec(r2.drop_first())
            }
        } else if is_locale_letter(r[0]) {
            true
        } else {
            needs_locale_spec(r.drop_first())
        }
    }
}

fn locale_letter(c: char) -> (b: bool)
    ensures
        b == is_locale_letter(c),
{
    c == 'B' || c == 'b' || c == 'h' || c == 'A' || c == 'a' || c == 'p' || c == 'P' || c == 'c'
        || c == 'v' || c == 'r' || c == 'x' || c == 'X'
}

/// True if `format` contains anything whose spelling depends on the language, which is exactly
/// when the month-language choice is worth showing, and worth writing into the file.
pub fn needs_locale(format: &str) -> (r: bool)
    ensures
        r == needs_locale_spec(format@),
{
    let v = chars_of(format);
    let n = v.len();
    let mut i: usize = 0;
    assert(v@.subrange(0, n as int) =~= v@);
    while i < n
        invariant
            i <= n == v@.len(),
            v@ == format@,
            needs_locale_spec(v@) == needs_locale_spec(v@.subrange(i as int, n as int)),
        decreases n - i,
    {
        let ghost s = v@.subrange(i as int, n as int);
        if v[i] != '%' {
            assert(s.drop_first() =~= v@.subrange(i + 1, n as int));
            i += 1;
        } else {
            let ghost r = s.drop_first();
            assert(r =~= v@.subrange(i + 1, n as int));
            if i + 1 >= n {
                return false;
            }
            let mut j = i + 1;
            if v[j] == '-' || v[j] == '_' || v[j] == '0' {
                assert(r.drop_first() =~= v@.subrange(i + 2, n as int));
                j = j + 1;
                if j >= n {
                    return false;
                }
            }
            if locale_letter(v[j]) {
                return true;
            }
            assert(v@.subrange(j as int, n as int).drop_first() =~= v@.subrange(j + 1, n as int));
            i = j + 1;
        }
    }
    assert(v@.subrange(n as int, n as int) =~= Seq::<char>::empty());
    false
}

// ---------------------------------------------------------------------------------------------
// Name tables
// ---------------------------------------------------------------------------------------------

/// Month names, January first, in full or abbreviated.
pub open spec fn months_spec(lang: Lang, short: bool) -> Seq<Seq<char>> {
    match (lang, short) {
        (Lang::En, false) => seq!["January"@, "February"@, "March"@, "April"@, "May"@, "June"@,
            "July"@, "August"@, "September"@, "October"@, "November"@, "December"@],
        (Lang::Es, false) => seq!["enero"@, "febrero"@, "marzo"@, "abril"@, "mayo"@, "junio"@,
            "julio"@, "agosto"@, "septiembre"@, "octubre"@, "noviembre"@, "diciembre"@],
        (Lang::Fil, false) => seq!["Enero"@, "Pebrero"@, "Marso"@, "Abril"@, "Mayo"@, "Hunyo"@,
            "Hulyo"@, "Agosto"@, "Setyembre"@, "Oktubre"@, "Nobyembre"@, "Disyembre"@],
        (Lang::Hi, false) => seq!["जनवरी"@, "फ़रवरी"@, "मार्च"@, "अप्रैल"@, "मई"@, "जून"@,
            "जुलाई"@, "अगस्त"@, "सितंबर"@, "अक्तूबर"@, "नवंबर"@, "दिसंबर"@],
        (Lang::En, true) => seq!["Jan"@, "Feb"@, "Mar"@, "Apr"@, "May"@, "Jun"@, "Jul"@, "Aug"@,
            "Sep"@, "Oct"@, "Nov"@, "Dec"@],
        (Lang::Es, true) => seq!["ene"@, "feb"@, "mar"@, "abr"@, "may"@, "jun"@, "jul"@, "ago"@,
            "sep"@, "oct"@, "nov"@, "dic"@],
        (Lang::Fil, true) => seq!["Ene"@, "Peb"@, "Mar"@, "Abr"@, "May"@, "Hun"@, "Hul"@, "Ago"@,
            "Set"@, "Okt"@, "Nob"@, "Dis"@],
        (Lang::Hi, true) => seq!["जन॰"@, "फ़र॰"@, "मार्च"@, "अप्रैल"@, "मई"@, "जून"@, "जुल॰"@,
            "अग॰"@, "सित॰"@, "अक्तू॰"@, "नव॰"@, "दिस॰"@],
    }
}

/// Weekday names, Monday first, in full or abbreviated.
pub open spec fn days_spec(lang: Lang, short: bool) -> Seq<Seq<char>> {
    match (lang, short) {
        (Lang::En, false) => seq!["Monday"@, "Tuesday"@, "Wednesday"@, "Thursday"@, "Friday"@,
            "Saturday"@, "Sunday"@],
        (Lang::Es, false) => seq!["lunes"@, "martes"@, "miércoles"@, "jueves"@, "viernes"@,
            "sábado"@, "domingo"@],
        (Lang::Fil, false) => seq!["Lunes"@, "Martes"@, "Miyerkoles"@, "Huwebes"@, "Biyernes"@,
            "Sabado"@, "Linggo"@],
        (Lang::Hi, false) => seq!["सोमवार"@, "मंगलवार"@, "बुधवार"@, "गुरुवार"@, "शुक्रवार"@,
            "शनिवार"@, "रविवार"@],
        (Lang::En, true) => seq!["Mon"@, "Tue"@, "Wed"@, "Thu"@, "Fri"@, "Sat"@, "Sun"@],
        (Lang::Es, true) => seq!["lun"@, "mar"@, "mié"@, "jue"@, "vie"@, "sáb"@, "dom"@],
        (Lang::Fil, true) => seq!["Lun"@, "Mar"@, "Miy"@, "Huw"@, "Biy"@, "Sab"@, "Lin"@],
        (Lang::Hi, true) => seq!["सोम"@, "मंगल"@, "बुध"@, "गुरु"@, "शुक्र"@, "शनि"@, "रवि"@],
    }
}

/// The meridiem espanso prints for `%p`: AM/PM in English, nothing at all in Spanish, which tells
/// the time on a 24-hour clock.
pub open spec fn meridiem_spec(lang: Lang, is_pm: bool) -> Seq<char> {
    match lang {
        Lang::En => if is_pm { "PM"@ } else { "AM"@ },
        Lang::Es => ""@,
        Lang::Fil => if is_pm { "N.H."@ } else { "N.U."@ },
        Lang::Hi => if is_pm { "अपराह्न"@ } else { "पूर्वाह्न"@ },
    }
}

/// Devanagari has no case: lower-casing the Hindi meridiem, as `%P` does, leaves it as it is.
pub proof fn law_hindi_meridiem_has_no_case(is_pm: bool)
    ensures
        lowercase_spec(meridiem_spec(Lang::Hi, is_pm)) == meridiem_spec(Lang::Hi, is_pm),
{
    reveal_strlit("अपराह्न");
    reveal_strlit("पूर्वाह्न");
    let m = meridiem_spec(Lang::Hi, is_pm);
    assert(!crate::text::all_ascii(m)) by {
        assert((m[0] as u32) >= 128);
    }
    assert(crate::text::all_caseless(m));
}

/// The English name of the weekday Windows numbers `d`, counting from Sunday = 0.
pub open spec fn english_weekday(d: int, short: bool) -> Seq<char> {
    if short {
        if d == 0 { "Sun"@ } else if d == 1 { "Mon"@ } else if d == 2 { "Tue"@ } else if d == 3 { "Wed"@ }
        else if d == 4 { "Thu"@ } else if d == 5 { "Fri"@ } else { "Sat"@ }
    } else {
        if d == 0 { "Sunday"@ } else if d == 1 { "Monday"@ } else if d == 2 { "Tuesday"@ } else if d == 3 { "Wednesday"@ }
        else if d == 4 { "Thursday"@ } else if d == 5 { "Friday"@ } else { "Saturday"@ }
    }
}

/// `%A` and `%a` name the day the moment falls on: for the day Windows numbers `d` (Sunday = 0,
/// Saturday = 6), English writes that day's name, and Spanish writes "domingo" for Sunday and
/// "sábado" for Saturday.
pub proof fn law_weekday_names(now: Now)
    requires
        now.day_of_week < 7,
    ensures
        format_spec("%A"@, now, Lang::En) == english_weekday(now.day_of_week as int, false),
        format_spec("%a"@, now, Lang::En) == english_weekday(now.day_of_week as int, true),
        now.day_of_week == 0 ==> format_spec("%A"@, now, Lang::Es) == "domingo"@,
        now.day_of_week == 6 ==> format_spec("%A"@, now, Lang::Es) == "sábado"@,
{
    reveal_strlit("%A");
    reveal_strlit("%a");
    let sa = "%A"@;
    let sb = "%a"@;
    assert(sa.drop_first() =~= seq!['A']);
    assert(sb.drop_first() =~= seq!['a']);
    assert(seq!['A'].drop_first() =~= Seq::<char>::empty());
    assert(seq!['a'].drop_first() =~= Seq::<char>::empty());
    assert(format_spec(Seq::<char>::empty(), now, Lang::En) =~= Seq::<char>::empty());
    assert(format_spec(Seq::<char>::empty(), now, Lang::Es) =~= Seq::<char>::empty());
    let d = now.day_of_week as int;
    let wi = weekday_index_spec(now);
    assert(wi == (d + 6) % 7);
    assert(format_spec(sa, now, Lang::En) =~= days_spec(Lang::En, false)[wi]);
    assert(format_spec(sb, now, Lang::En) =~= days_spec(Lang::En, true)[wi]);
    assert(format_spec(sa, now, Lang::Es) =~= days_spec(Lang::Es, false)[wi]);
}

fn month_name(lang: Lang, short: bool, i: usize) -> (r: &'static str)
    requires
        i < 12,
    ensures
        r@ == months_spec(lang, short)[i as int],
{
    let table: [&'static str; 12] = match (lang, short) {
        (Lang::En, false) => ["January", "February", "March", "April", "May", "June", "July",
            "August", "September", "October", "November", "December"],
        (Lang::Es, false) => ["enero", "febrero", "marzo", "abril", "mayo", "junio", "julio",
            "agosto", "septiembre", "octubre", "noviembre", "diciembre"],
        (Lang::Fil, false) => ["Enero", "Pebrero", "Marso", "Abril", "Mayo", "Hunyo", "Hulyo",
            "Agosto", "Setyembre", "Oktubre", "Nobyembre", "Disyembre"],
        (Lang::Hi, false) => ["जनवरी", "फ़रवरी", "मार्च", "अप्रैल", "मई", "जून", "जुलाई",
            "अगस्त", "सितंबर", "अक्तूबर", "नवंबर", "दिसंबर"],
        (Lang::En, true) => ["Jan", "Feb", "Mar", "Apr", "May", "Jun", "Jul", "Aug", "Sep",
            "Oct", "Nov", "Dec"],
        (Lang::Es, true) => ["ene", "feb", "mar", "abr", "may", "jun", "jul", "ago", "sep",
            "oct", "nov", "dic"],
        (Lang::Fil, true) => ["Ene", "Peb", "Mar", "Abr", "May", "Hun", "Hul", "Ago", "Set",
            "Okt", "Nob", "Dis"],
        (Lang::Hi, true) => ["जन॰", "फ़र॰", "मार्च", "अप्रैल", "मई", "जून", "जुल॰", "अग॰",
            "सित॰", "अक्तू॰", "नव॰", "दिस॰"],
    };
    table[i]
}

fn day_name(lang: Lang, short: bool, i: usize) -> (r: &'static str)
    requires
        i < 7,
    ensures
        r@ == days_spec(lang, short)[i as int],
{
    let table: [&'static str; 7] = match (lang, short) {
        (Lang::En, false) => ["Monday", "Tuesday", "Wednesday", "Thursday", "Friday",
            "Saturday", "Sunday"],
        (Lang::Es, false) => ["lunes", "martes", "miércoles", "jueves", "viernes", "sábado",
            "domingo"],
        (Lang::Fil, false) => ["Lunes", "Martes", "Miyerkoles", "Huwebes", "Biyernes", "Sabado",
            "Linggo"],
        (Lang::Hi, false) => ["सोमवार", "मंगलवार", "बुधवार", "गुरुवार", "शुक्रवार", "शनिवार",
            "रविवार"],
        (Lang::En, true) => ["Mon", "Tue", "Wed", "Thu", "Fri", "Sat", "Sun"],
        (Lang::Es, true) => ["lun", "mar", "mié", "jue", "vie", "sáb", "dom"],
        (Lang::Fil, true) => ["Lun", "Mar", "Miy", "Huw", "Biy", "Sab", "Lin"],
        (Lang::Hi, true) => ["सोम", "मंगल", "बुध", "गुरु", "शुक्र", "शनि", "रवि"],
    };
    table[i]
}

/// The meridiem for one language, in the case `%p` uses.
fn meridiem(lang: Lang, is_pm: bool) -> (r: &'static str)
    ensures
        r@ == meridiem_spec(lang, is_pm),
{
    match lang {
        Lang::En => if is_pm { "PM" } else { "AM" },
        Lang::Es => "",
        Lang::Fil => if is_pm { "N.H." } else { "N.U." },
        Lang::Hi => if is_pm { "अपराह्न" } else { "पूर्वाह्न" },
    }
}

// ---------------------------------------------------------------------------------------------
// The moment being shown
// ---------------------------------------------------------------------------------------------

/// A moment in time, broken into the fields a format string can ask for.
#[derive(Clone, Copy)]
pub struct Now {
    pub year: u16,
    pub month: u16,
    pub day: u16,
    pub hour: u16,
    pub minute: u16,
    pub second: u16,
    /// Sunday = 0, as Windows reports it.
    pub day_of_week: u16,
}

/// Monday = 0, to index the weekday tables.
pub open spec fn weekday_index_spec(now: Now) -> int {
    (now.day_of_week + 6) % 7
}

/// January = 0, to index the month tables; out-of-range months are clamped into the year.
pub open spec fn month_index_spec(now: Now) -> int {
    if now.month < 1 {
        0
    } else if now.month > 12 {
        11
    } else {
        now.month - 1
    }
}

/// Whether `y` is a leap year of the Gregorian calendar.
pub open spec fn is_leap(y: int) -> bool {
    (y % 4 == 0 && y % 100 != 0) || y % 400 == 0
}

/// The number of days in year `y`.
pub open spec fn year_len(y: int) -> int {
    if is_leap(y) { 366 } else { 365 }
}

/// The number of days in month `m` (1 to 12) of year `y`.
pub open spec fn month_len(y: int, m: int) -> int {
    if m == 2 {
        if is_leap(y) { 29 } else { 28 }
    } else if m == 4 || m == 6 || m == 9 || m == 11 {
        30
    } else {
        31
    }
}

/// Days from 1 January 1970 to 1 January of year `y`.
pub open spec fn days_before_year(y: int) -> int
    decreases y - 1970,
{
    if y <= 1970 { 0 } else { days_before_year(y - 1) + year_len(y - 1) }
}

/// Days from 1 January of year `y` to the first of month `m`.
pub open spec fn days_before_month(y: int, m: int) -> int
    decreases m,
{
    if m <= 1 { 0 } else { days_before_month(y, m - 1) + month_len(y, m - 1) }
}

proof fn lemma_months_fill_year(y: int)
    ensures
        days_before_month(y, 12) + month_len(y, 12) == year_len(y),
{
    reveal_with_fuel(days_before_month, 13);
}

fn leap(y: u64) -> (r: bool)
    ensures
        r == is_leap(y as int),
{
    (y % 4 == 0 && y % 100 != 0) || y % 400 == 0
}

fn days_in_month(y: u64, m: u64) -> (r: u64)
    ensures
        r == month_len(y as int, m as int),
{
    if m == 2 {
        if leap(y) { 29 } else { 28 }
    } else if m == 4 || m == 6 || m == 9 || m == 11 {
        30
    } else {
        31
    }
}

impl Now {
    /// The moment `secs` seconds after 1970-01-01 00:00:00, on the Gregorian calendar: the date
    /// whose days since 1 January 1970 are `secs / 86400`, the time of day from what is left, and
    /// the weekday counted from that Thursday. The year has to fit the field.
    pub fn from_unix_secs(secs: u64) -> (r: Now)
        requires
            secs / 86_400 < 365 * 60_000,
        ensures
            ({
                let days = secs / 86_400;
                let rem = secs % 86_400;
                &&& r.year >= 1970
                &&& 1 <= r.month <= 12
                &&& 1 <= r.day <= month_len(r.year as int, r.month as int)
                &&& days_before_year(r.year as int) + days_before_month(r.year as int, r.month as int) + r.day - 1 == days
                &&& r.hour == rem / 3_600
                &&& r.minute == rem % 3_600 / 60
                &&& r.second == rem % 60
                &&& r.day_of_week == (days + 4) % 7
            }),
    {
        let days = secs / 86_400;
        let rem = secs % 86_400;
        let mut year: u64 = 1970;
        let mut left: u64 = days;
        loop
            invariant
                1970 <= year,
                left <= days,
                days < 365 * 60_000,
                days_before_year(year as int) + left == days,
                365 * (year - 1970) <= days - left,
            ensures
                1970 <= year,
                left <= days,
                days_before_year(year as int) + left == days,
                365 * (year - 1970) <= days - left,
                left < year_len(year as int),
            decreases left,
        {
            let len: u64 = if leap(year) { 366 } else { 365 };
            if left < len {
                break;
            }
            left = left - len;
            proof {
                assert(days_before_year(year + 1) == days_before_year(year as int) + year_len(year as int));
            }
            year = year + 1;
        }
        let ghost in_year = left;
        assert(left < year_len(year as int));
        let mut month: u64 = 1;
        while month < 12 && left >= days_in_month(year, month)
            invariant
                1 <= month <= 12,
                left <= in_year,
                in_year < year_len(year as int),
                days_before_month(year as int, month as int) + left == in_year,
            decreases 12 - month,
        {
            left = left - days_in_month(year, month);
            proof {
                assert(days_before_month(year as int, month + 1) == days_before_month(year as int, month as int) + month_len(year as int, month as int));
            }
            month = month + 1;
        }
        proof {
            if month == 12 {
                lemma_months_fill_year(year as int);
            }
        }
        assert(left < month_len(year as int, month as int));
        Now {
            year: year as u16,
            month: month as u16,
            day: (left + 1) as u16,
            hour: (rem / 3_600) as u16,
            minute: (rem % 3_600 / 60) as u16,
            second: (rem % 60) as u16,
            day_of_week: ((days + 4) % 7) as u16,
        }
    }

    /// Monday = 0.
    pub fn weekday_index(self) -> (r: usize)
        ensures
            r == weekday_index_spec(self),
            r < 7,
    {
        ((self.day_of_week as u32 + 6) % 7) as usize
    }

    /// January = 0.
    pub fn month_index(self) -> (r: usize)
        ensures
            r == month_index_spec(self),
            r < 12,
    {
        let m = if self.month < 1 {
            1
        } else if self.month > 12 {
            12
        } else {
            self.month
        };
        (m - 1) as usize
    }
}

/// How a number is padded, from the flag between `%` and the letter.
#[derive(Debug, Clone, Copy, PartialEq, Eq, Structural)]
pub enum Pad {
    Zero,
    Unpadded,
    Space,
}

/// A number in at least two places: `5` as `05` (zero), ` 5` (space) or `5` (none).
pub open spec fn pad2_spec(value: nat, pad: Pad) -> Seq<char> {
    match pad {
        Pad::Unpadded => decimal_spec(value),
        Pad::Space => if value < 10 { seq![' '] + decimal_spec(value) } else { decimal_spec(value) },
        Pad::Zero => if value < 10 { seq!['0'] + decimal_spec(value) } else { decimal_spec(value) },
    }
}

/// The hour on a 12-hour dial, where midnight and noon are both 12.
pub open spec fn dial_hour(hour: nat) -> nat {
    if hour % 12 == 0 { 12 } else { hour % 12 }
}

/// The padding flag as it was written between `%` and the letter, if one was.
pub open spec fn flag_text(flag: Option<char>) -> Seq<char> {
    match flag {
        Some(c) => seq![c],
        None => Seq::empty(),
    }
}

/// What one specifier letter produces, given the padding it asks for and the flag character that
/// was written before it, if any.
pub open spec fn piece_spec(spec: char, pad: Pad, flag: Option<char>, now: Now, lang: Lang) -> Seq<char> {
    if spec == 'Y' {
        decimal_spec(now.year as nat)
    } else if spec == 'y' {
        pad2_spec((now.year % 100) as nat, pad)
    } else if spec == 'm' {
        pad2_spec(now.month as nat, pad)
    } else if spec == 'd' {
        pad2_spec(now.day as nat, pad)
    } else if spec == 'e' {
        pad2_spec(now.day as nat, Pad::Space)
    } else if spec == 'H' {
        pad2_spec(now.hour as nat, pad)
    } else if spec == 'I' {
        pad2_spec(dial_hour(now.hour as nat), pad)
    } else if spec == 'M' {
        pad2_spec(now.minute as nat, pad)
    } else if spec == 'S' {
        pad2_spec(now.second as nat, pad)
    } else if spec == 'B' {
        months_spec(lang, false)[month_index_spec(now)]
    } else if spec == 'b' || spec == 'h' {
        months_spec(lang, true)[month_index_spec(now)]
    } else if spec == 'A' {
        days_spec(lang, false)[weekday_index_spec(now)]
    } else if spec == 'a' {
        days_spec(lang, true)[weekday_index_spec(now)]
    } else if spec == 'p' {
        meridiem_spec(lang, now.hour >= 12)
    } else if spec == 'P' {
        lowercase_spec(meridiem_spec(lang, now.hour >= 12))
    } else if spec == 'F' {
        decimal_spec(now.year as nat) + seq!['-'] + pad2_spec(now.month as nat, Pad::Zero) + seq!['-']
            + pad2_spec(now.day as nat, Pad::Zero)
    } else if spec == 'T' {
        pad2_spec(now.hour as nat, Pad::Zero) + seq![':'] + pad2_spec(now.minute as nat, Pad::Zero)
            + seq![':'] + pad2_spec(now.second as nat, Pad::Zero)
    } else if spec == '%' {
        seq!['%']
    } else {
        // Not a code that is modelled: put back exactly what was written, flag and all.
        seq!['%'] + flag_text(flag) + seq![spec]
    }
}

/// The padding flag at the start of what follows a `%`: the padding it asks for, the flag
/// character itself if there was one, and what is left after it.
pub open spec fn read_pad(r: Seq<char>) -> (Pad, Option<char>, Seq<char>) {
    if r.len() > 0 && r[0] == '-' {
        (Pad::Unpadded, Some(r[0]), r.drop_first())
    } else if r.len() > 0 && r[0] == '_' {
        (Pad::Space, Some(r[0]), r.drop_first())
    } else if r.len() > 0 && r[0] == '0' {
        (Pad::Zero, Some(r[0]), r.drop_first())
    } else {
        (Pad::Zero, None, r)
    }
}

/// `format` rendered for `now` in `lang`, read left to right: ordinary characters are copied,
/// each `%` with its optional padding flag and letter becomes that letter's piece, and a `%` (with
/// its flag, if one was written) that ends the text is printed as written.
pub open spec fn format_spec(s: Seq<char>, now: Now, lang: Lang) -> Seq<char>
    decreases s.len(),
{
    if s.len() == 0 {
        s
    } else if s[0] != '%' {
        seq![s[0]] + format_spec(s.drop_first(), now, lang)
    } else {
        let (pad, flag, r2) = read_pad(s.drop_first());
        if r2.len() == 0 {
            seq!['%'] + flag_text(flag)
        } else {
            piece_spec(r2[0], pad, flag, now, lang) + format_spec(r2.drop_first(), now, lang)
        }
    }
}

fn push_pad2(out: &mut String, value: u16, pad: Pad)
    ensures
        final(out)@ == old(out)@ + pad2_spec(value as nat, pad),
{
    match pad {
        Pad::Unpadded => {
            push_decimal(out, value as u64);
        },
        Pad::Space => {
            if value < 10 {
                push_char(out, ' ');
            }
            push_decimal(out, value as u64);
        },
        Pad::Zero => {
            if value < 10 {
                push_char(out, '0');
            }
            push_decimal(out, value as u64);
        },
    }
    proof {
        assert(old(out)@ + pad2_spec(value as nat, pad) =~= final(out)@) by {
            if value < 10 && pad != Pad::Unpadded {
                assert(old(out)@ + (seq![(if pad == Pad::Space { ' ' } else { '0' })] + decimal_spec(value as nat))
                    =~= old(out)@.push(if pad == Pad::Space { ' ' } else { '0' }) + decimal_spec(value as nat));
            }
        }
    }
}

fn push_piece(out: &mut String, spec: char, pad: Pad, flag: Option<char>, now: Now, lang: Lang)
    ensures
        final(out)@ == old(out)@ + piece_spec(spec, pad, flag, now, lang),
{
    let ghost start = out@;
    if spec == 'Y' {
        push_decimal(out, now.year as u64);
    } else if spec == 'y' {
        push_pad2(out, now.year % 100, pad);
    } else if spec == 'm' {
        push_pad2(out, now.month, pad);
    } else if spec == 'd' {
        push_pad2(out, now.day, pad);
    } else if spec == 'e' {
        push_pad2(out, now.day, Pad::Space);
    } else if spec == 'H' {
        push_pad2(out, now.hour, pad);
    } else if spec == 'I' {
        let on_the_dial = now.hour % 12;
        push_pad2(out, if on_the_dial == 0 { 12 } else { on_the_dial }, pad);
    } else if spec == 'M' {
        push_pad2(out, now.minute, pad);
    } else if spec == 'S' {
        push_pad2(out, now.second, pad);
    } else if spec == 'B' {
        push_str(out, month_name(lang, false, now.month_index()));
    } else if spec == 'b' || spec == 'h' {
        push_str(out, month_name(lang, true, now.month_index()));
    } else if spec == 'A' {
        push_str(out, day_name(lang, false, now.weekday_index()));
    } else if spec == 'a' {
        push_str(out, day_name(lang, true, now.weekday_index()));
    } else if spec == 'p' {
        push_str(out, meridiem(lang, now.hour >= 12));
    } else if spec == 'P' {
        let lower = to_lowercase(meridiem(lang, now.hour >= 12));
        push_str(out, lower.as_str());
    } else if spec == 'F' {
        push_decimal(out, now.year as u64);
        push_char(out, '-');
        push_pad2(out, now.month, Pad::Zero);
        push_char(out, '-');
        push_pad2(out, now.day, Pad::Zero);
        assert(out@ =~= start + piece_spec(spec, pad, flag, now, lang));
    } else if spec == 'T' {
        push_pad2(out, now.hour, Pad::Zero);
        push_char(out, ':');
        push_pad2(out, now.minute, Pad::Zero);
        push_char(out, ':');
        push_pad2(out, now.second, Pad::Zero);
        assert(out@ =~= start + piece_spec(spec, pad, flag, now, lang));
    } else if spec == '%' {
        push_char(out, '%');
        assert(out@ =~= start + piece_spec(spec, pad, flag, now, lang));
    } else {
        push_char(out, '%');
        match flag {
            Some(f) => push_char(out, f),
            None => {},
        }
        push_char(out, spec);
        assert(out@ =~= start + piece_spec(spec, pad, flag, now, lang));
    }
}

/// Renders `format` for the given moment, in the given language.
///
/// Unknown specifiers are copied through exactly as written, flag included (`%Q` stays `%Q`,
/// `%0Q` stays `%0Q`, a trailing `%-` stays `%-`) rather than dropped or guessed at.
pub fn format(fmt: &str, now: Now, lang: Lang) -> (r: String)
    ensures
        r@ == format_spec(fmt@, now, lang),
{
    let v = chars_of(fmt);
    let n = v.len();
    let mut out = String::new();
    let mut i: usize = 0;
    assert(v@.subrange(0, n as int) =~= v@);
    assert(out@ + format_spec(v@, now, lang) =~= format_spec(v@, now, lang));
    while i < n
        invariant
            i <= n == v@.len(),
            v@ == fmt@,
            out@ + format_spec(v@.subrange(i as int, n as int), now, lang) == format_spec(v@, now, lang),
        decreases n - i,
    {
        let ghost s = v@.subrange(i as int, n as int);
        let ghost out0 = out@;
        let c = v[i];
        if c != '%' {
            assert(s.drop_first() =~= v@.subrange(i + 1, n as int));
            push_char(&mut out, c);
            assert(out@ + format_spec(v@.subrange(i + 1, n as int), now, lang)
                =~= out0 + format_spec(s, now, lang));
            i += 1;
        } else {
            let mut j = i + 1;
            let mut pad = Pad::Zero;
            let mut flag: Option<char> = None;
            if j < n && v[j] == '-' {
                pad = Pad::Unpadded;
                flag = Some('-');
                j += 1;
            } else if j < n && v[j] == '_' {
                pad = Pad::Space;
                flag = Some('_');
                j += 1;
            } else if j < n && v[j] == '0' {
                flag = Some('0');
                j += 1;
            }
            assert(read_pad(s.drop_first()) == (pad, flag, v@.subrange(j as int, n as int))) by {
                assert(s.drop_first() =~= v@.subrange(i + 1, n as int));
                if i + 1 < n {
                    assert(v@.subrange(i + 1, n as int).drop_first() =~= v@.subrange(i + 2, n as int));
                }
            }
            if j >= n {
                push_char(&mut out, '%');
                match flag {
                    Some(f) => push_char(&mut out, f),
                    None => {},
                }
                assert(v@.subrange(j as int, n as int).len() == 0);
                assert(out@ + format_spec(v@.subrange(n as int, n as int), now, lang)
                    =~= out0 + format_spec(s, now, lang));
                i = n;
            } else {
                push_piece(&mut out, v[j], pad, flag, now, lang);
                assert(v@.subrange(j as int, n as int).drop_first() =~= v@.subrange(j + 1, n as int));
                assert(out@ + format_spec(v@.subrange(j + 1, n as int), now, lang)
                    =~= out0 + format_spec(s, now, lang));
                i = j + 1;
            }
        }
    }
    assert(v@.subrange(n as int, n as int) =~= Seq::<char>::empty());
    out
}

/// ASCII-case-insensitive equality, as `str::eq_ignore_ascii_case` defines it.
pub open spec fn eq_ignore_ascii_case_spec(a: Seq<char>, b: Seq<char>) -> bool {
    a.len() == b.len() && forall|i: int| 0 <= i < a.len()
        ==> crate::text::ascii_lower_char(#[trigger] a[i]) == crate::text::ascii_lower_char(b[i])
}

fn lower_ascii(c: char) -> (r: char)
    ensures
        r == crate::text::ascii_lower_char(c),
{
    if 'A' <= c && c <= 'Z' {
        let code = c as u32 + 32;
        assert(code <= 0x7F);
        char_from_ascii(code)
    } else {
        c
    }
}

fn char_from_ascii(code: u32) -> (c: char)
    requires
        code < 128,
    ensures
        c == code as char,
{
    let b = code as u8;
    let c = b as char;
    c
}

/// `str::eq_ignore_ascii_case`.
pub fn eq_ignore_ascii_case(a: &str, b: &str) -> (r: bool)
    ensures
        r == eq_ignore_ascii_case_spec(a@, b@),
{
    let va = chars_of(a);
    let vb = chars_of(b);
    if va.len() != vb.len() {
        return false;
    }
    let mut i: usize = 0;
    while i < va.len()
        invariant
            va@ == a@,
            vb@ == b@,
            va@.len() == vb@.len(),
            i <= va@.len(),
            forall|k: int| 0 <= k < i ==> crate::text::ascii_lower_char(#[trigger] va@[k])
                == crate::text::ascii_lower_char(vb@[k]),
        decreases va.len() - i,
    {
        if lower_ascii(va[i]) != lower_ascii(vb[i]) {
            return false;
        }
        i += 1;
    }
    true
}

/// Whether a date variable with this time zone is shown on the UTC clock.
pub open spec fn shows_utc(tz: Option<Seq<char>>) -> bool {
    match tz {
        Some(t) => eq_ignore_ascii_case_spec(t, "UTC"@),
        None => false,
    }
}

/// A date expansion's live example, the way it is configured: a format, an optional time zone
/// (only `UTC` is offered by the presets), and the language its names use. `local` and `utc` are
/// the two clocks read at the moment of showing; the one the time zone names is used.
pub fn sample(fmt: &str, tz: Option<&str>, lang: Lang, local: Now, utc: Now) -> (r: String)
    ensures
        r@ == format_spec(fmt@, if shows_utc(match tz { Some(t) => Some(t@), None => None }) {
            utc
        } else {
            local
        }, lang),
{
    let use_utc = match tz {
        Some(t) => eq_ignore_ascii_case(t, "UTC"),
        None => false,
    };
    let now = if use_utc { utc } else { local };
    format(fmt, now, lang)
}

} // verus!
