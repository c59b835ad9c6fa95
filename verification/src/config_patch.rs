//! Small, surgical edits to espanso's own `default.yml`.
//!
//! A few settings are ours to hold: espanso's tray icon is hidden so there are not two icons for
//! one program, its notifications are silenced, and the search shortcut is handed to whoever should
//! have it. Everything else in that file belongs to the user and must survive untouched.
//!
//! Hence the rules: a key counts only at column zero, because the same word indented is a value
//! inside somebody else's block; a commented-out key is not set; and the file keeps the line
//! endings it arrived with. The edit is made on the text, line by line, so every comment stays.
//!
//! Reading and writing the file happen outside this library: [`patch`] takes the text that was
//! read and answers with the text to write, or `None` when nothing needs to change — the caller
//! restarts espanso only then.

use vstd::prelude::*;
use crate::text::{is_prefix, contains_seq, trim_start_spec, trim_end_spec, char_is_whitespace,
    chars_of, string_of_range, owned, push_str, starts_with, range_eq, contains, is_whitespace,
    lemma_trim_start_skip, lemma_trim_end_take};
use crate::validation::{join, join_spec};

verus! {

// ---------------------------------------------------------------------------------------------
// Specifications
// ---------------------------------------------------------------------------------------------

/// A line without the `\r` that a CRLF ending leaves on it.
pub open spec fn strip_cr(l: Seq<char>) -> Seq<char> {
    if l.len() > 0 && l.last() == '\r' { l.drop_last() } else { l }
}

/// The lines of `s`, the line being read so far being `cur`: what `str::lines` gives. A line ends
/// at `\n`, with a `\r` just before it dropped too; the final line needs no ending, and an ending
/// at the very end starts no new line.
pub open spec fn lines_from(s: Seq<char>, cur: Seq<char>) -> Seq<Seq<char>>
    decreases s.len(),
{
    if s.len() == 0 {
        if cur.len() == 0 { Seq::empty() } else { seq![cur] }
    } else if s[0] == '\n' {
        seq![strip_cr(cur)] + lines_from(s.drop_first(), Seq::empty())
    } else {
        lines_from(s.drop_first(), cur.push(s[0]))
    }
}

/// `str::lines` of `s`.
pub open spec fn lines_spec(s: Seq<char>) -> Seq<Seq<char>> {
    lines_from(s, Seq::empty())
}

/// `line` sets `key`: it starts with the key at column zero and, past any spaces, a colon follows.
pub open spec fn key_line(line: Seq<char>, key: Seq<char>) -> bool {
    &&& is_prefix(key, line)
    &&& trim_start_spec(line.subrange(key.len() as int, line.len() as int)).len() > 0
    &&& trim_start_spec(line.subrange(key.len() as int, line.len() as int))[0] == ':'
}

/// The line that sets `key` to `value`.
pub open spec fn setting_line(key: Seq<char>, value: Seq<char>) -> Seq<char> {
    key + seq![':', ' '] + value
}

/// One line after a setting is enforced: a line that sets the key, to anything but the wanted
/// value (trailing spaces aside), is rewritten; every other line stays as it is.
pub open spec fn patch_line(line: Seq<char>, key: Seq<char>, value: Seq<char>) -> Seq<char> {
    if key_line(line, key) && trim_end_spec(line) != setting_line(key, value) {
        setting_line(key, value)
    } else {
        line
    }
}

/// Some line sets `key`.
pub open spec fn has_key_line(lines: Seq<Seq<char>>, key: Seq<char>) -> bool {
    exists|i: int| 0 <= i < lines.len() && #[trigger] key_line(lines[i], key)
}

/// The lines after enforcing one setting: rewritten where it stands, or — when no line sets it —
/// appended with its note, after a blank line unless the file was empty.
pub open spec fn apply_one(lines: Seq<Seq<char>>, key: Seq<char>, value: Seq<char>, comment: Seq<char>) -> Seq<Seq<char>> {
    if has_key_line(lines, key) {
        lines.map_values(|l: Seq<char>| patch_line(l, key, value))
    } else {
        (if lines.len() > 0 { lines.push(Seq::empty()) } else { lines }).push(comment).push(setting_line(key, value))
    }
}

/// Enforcing one setting changes something: it was missing, or some line sets it to another value.
pub open spec fn changes_one(lines: Seq<Seq<char>>, key: Seq<char>, value: Seq<char>) -> bool {
    !has_key_line(lines, key)
        || exists|i: int| 0 <= i < lines.len() && #[trigger] key_line(lines[i], key) && trim_end_spec(lines[i]) != setting_line(key, value)
}

/// The lines after enforcing each setting of `es` in turn: `(key, value, note)`.
pub open spec fn apply_all(lines: Seq<Seq<char>>, es: Seq<(Seq<char>, Seq<char>, Seq<char>)>) -> Seq<Seq<char>>
    decreases es.len(),
{
    if es.len() == 0 {
        lines
    } else {
        apply_all(apply_one(lines, es[0].0, es[0].1, es[0].2), es.drop_first())
    }
}

/// Enforcing the settings of `es` in turn changes something.
pub open spec fn changes_all(lines: Seq<Seq<char>>, es: Seq<(Seq<char>, Seq<char>, Seq<char>)>) -> bool
    decreases es.len(),
{
    es.len() > 0 && (changes_one(lines, es[0].0, es[0].1)
        || changes_all(apply_one(lines, es[0].0, es[0].1, es[0].2), es.drop_first()))
}

/// The line ending a file uses: CRLF as soon as it holds one, LF otherwise.
pub open spec fn newline_of(text: Seq<char>) -> Seq<char> {
    if contains_seq(text, seq!['\r', '\n']) { seq!['\r', '\n'] } else { seq!['\n'] }
}

/// The new text of the file, or `None` when every setting already holds.
pub open spec fn patch_spec(text: Seq<char>, es: Seq<(Seq<char>, Seq<char>, Seq<char>)>) -> Option<Seq<char>> {
    if changes_all(lines_spec(text), es) {
        Some(join_spec(apply_all(lines_spec(text), es), newline_of(text))
            + (if text.len() > 0 && text.last() == '\n' { newline_of(text) } else { Seq::empty() }))
    } else {
        None
    }
}

/// The settings as plain values.
pub open spec fn entries_view(es: Seq<(&str, &str, &str)>) -> Seq<(Seq<char>, Seq<char>, Seq<char>)> {
    es.map_values(|e: (&str, &str, &str)| (e.0@, e.1@, e.2@))
}

/// The settings espanso runs with while this app is there, each with the note left beside it.
pub open spec fn managed_spec() -> Seq<(Seq<char>, Seq<char>, Seq<char>)> {
    seq![
        ("show_icon"@, "false"@, "# Disabled by EspansoManager: avoids a second Espanso icon in the system tray, since EspansoManager already shows one."@),
        ("show_notifications"@, "false"@, "# Disabled by EspansoManager: the app reports what happened in its own window, so the Windows toasts would only repeat it."@),
    ]
}

/// The note left when espanso gets its icon back.
pub open spec fn restore_note() -> Seq<char> {
    "# Restored by EspansoManager: it could not show its own tray icon, so Espanso keeps its one."@
}

/// The note left beside the search shortcut.
pub open spec fn shortcut_note() -> Seq<char> {
    "# Set by EspansoManager: OFF while the app provides its own search window on the same shortcut,\n# and espanso's default when that shortcut could not be claimed."@
}

// ---------------------------------------------------------------------------------------------
// Lemmas
// ---------------------------------------------------------------------------------------------

proof fn lemma_patch_identity(lines: Seq<Seq<char>>, key: Seq<char>, value: Seq<char>)
    requires
        !has_key_line(lines, key),
    ensures
        lines.map_values(|l: Seq<char>| patch_line(l, key, value)) == lines,
{
    let m = lines.map_values(|l: Seq<char>| patch_line(l, key, value));
    assert forall|i: int| 0 <= i < lines.len() implies #[trigger] m[i] == lines[i] by {
        assert(!key_line(lines[i], key));
    }
    assert(m =~= lines);
}

// ---------------------------------------------------------------------------------------------
// Executable code
// ---------------------------------------------------------------------------------------------

/// The lines of `text`, as `str::lines` reads them.
pub fn split_lines(text: &str) -> (r: Vec<String>)
    ensures
        r@.map_values(|s: String| s@) == lines_spec(text@),
{
    let v = chars_of(text);
    let n = v.len();
    let mut out: Vec<String> = Vec::new();
    let mut start: usize = 0;
    let mut i: usize = 0;
    assert(v@.subrange(0, n as int) =~= v@);
    assert(v@.subrange(0, 0) =~= Seq::<char>::empty());
    assert(out@.map_values(|s: String| s@) + lines_spec(text@) =~= lines_spec(text@));
    while i < n
        invariant
            start <= i <= n == v@.len(),
            v@ == text@,
            out@.map_values(|s: String| s@) + lines_from(v@.subrange(i as int, n as int), v@.subrange(start as int, i as int))
                == lines_spec(text@),
        decreases n - i,
    {
        let ghost before = out@.map_values(|s: String| s@);
        let ghost rest = v@.subrange(i as int, n as int);
        let ghost cur = v@.subrange(start as int, i as int);
        assert(rest.drop_first() =~= v@.subrange(i + 1, n as int));
        if v[i] == '\n' {
            let end = if i > start && v[i - 1] == '\r' { i - 1 } else { i };
            let line = string_of_range(v.as_slice(), start, end);
            assert(line@ == strip_cr(cur)) by {
                if i > start && v@[i - 1] == '\r' {
                    assert(cur.drop_last() =~= v@.subrange(start as int, i - 1));
                }
            }
            out.push(line);
            assert(out@.map_values(|s: String| s@) =~= before.push(strip_cr(cur)));
            assert(before.push(strip_cr(cur)) + lines_from(rest.drop_first(), Seq::empty())
                =~= before + (seq![strip_cr(cur)] + lines_from(rest.drop_first(), Seq::empty())));
            start = i + 1;
            assert(v@.subrange(start as int, i + 1) =~= Seq::<char>::empty());
        } else {
            assert(cur.push(v@[i as int]) =~= v@.subrange(start as int, i + 1));
        }
        i += 1;
    }
    let ghost cur = v@.subrange(start as int, n as int);
    if start < n {
        let line = string_of_range(v.as_slice(), start, n);
        let ghost before = out@.map_values(|s: String| s@);
        out.push(line);
        assert(out@.map_values(|s: String| s@) =~= before + seq![cur]);
    } else {
        assert(out@.map_values(|s: String| s@) + Seq::<Seq<char>>::empty() =~= out@.map_values(|s: String| s@));
    }
    out
}

/// Whether `line` sets `key`.
pub fn is_key_line(line: &[char], key: &[char]) -> (r: bool)
    ensures
        r == key_line(line@, key@),
{
    if !starts_with(line, key) {
        return false;
    }
    let n = line.len();
    let mut j: usize = key.len();
    let ghost rest = line@.subrange(key@.len() as int, n as int);
    assert(line@.subrange(j as int, n as int) == rest);
    while j < n && is_whitespace(line[j])
        invariant
            key@.len() <= j <= n == line@.len(),
            rest == line@.subrange(key@.len() as int, n as int),
            trim_start_spec(rest) == trim_start_spec(line@.subrange(j as int, n as int)),
        decreases n - j,
    {
        proof {
            lemma_trim_start_skip(line@, j as int);
        }
        j += 1;
    }
    let ghost tail = line@.subrange(j as int, n as int);
    assert(trim_start_spec(tail) == tail) by {
        if tail.len() > 0 {
            assert(tail[0] == line@[j as int]);
        }
    }
    if j < n {
        assert(tail[0] == line@[j as int]);
        line[j] == ':'
    } else {
        false
    }
}

/// Whether `line`, without its trailing whitespace, spells `target`.
fn trimmed_end_is(line: &[char], target: &[char]) -> (r: bool)
    ensures
        r == (trim_end_spec(line@) == target@),
{
    let n = line.len();
    let mut hi: usize = n;
    assert(line@.subrange(0, n as int) =~= line@);
    while hi > 0 && is_whitespace(line[hi - 1])
        invariant
            hi <= n == line@.len(),
            trim_end_spec(line@) == trim_end_spec(line@.subrange(0, hi as int)),
        decreases hi,
    {
        proof {
            lemma_trim_end_take(line@, hi as int);
        }
        hi -= 1;
    }
    let ghost head = line@.subrange(0, hi as int);
    assert(trim_end_spec(head) == head) by {
        if head.len() > 0 {
            assert(head.last() == line@[hi - 1]);
        }
    }
    range_eq(line, 0, hi, target)
}

/// Enforces one setting on `lines`, answering whether anything changed.
fn apply_entry(lines: &mut Vec<String>, key: &str, value: &str, comment: &str) -> (changed: bool)
    ensures
        final(lines)@.map_values(|s: String| s@) == apply_one(old(lines)@.map_values(|s: String| s@), key@, value@, comment@),
        changed == changes_one(old(lines)@.map_values(|s: String| s@), key@, value@),
{
    let ghost l0 = lines@.map_values(|s: String| s@);
    let kv = chars_of(key);
    let mut wanted = owned(key);
    push_str(&mut wanted, ": ");
    push_str(&mut wanted, value);
    proof {
        reveal_strlit(": ");
        assert(wanted@ =~= setting_line(key@, value@));
    }
    let wv = chars_of(wanted.as_str());
    let mut found = false;
    let mut changed = false;
    let n = lines.len();
    let mut i: usize = 0;
    while i < n
        invariant
            i <= n == l0.len(),
            lines@.len() == n,
            kv@ == key@,
            wv@ == setting_line(key@, value@),
            wanted@ == setting_line(key@, value@),
            forall|j: int| 0 <= j < i ==> #[trigger] lines@[j]@ == patch_line(l0[j], key@, value@),
            forall|j: int| i <= j < n ==> #[trigger] lines@[j]@ == l0[j],
            found == exists|j: int| 0 <= j < i && #[trigger] key_line(l0[j], key@),
            changed == exists|j: int| 0 <= j < i && #[trigger] key_line(l0[j], key@) && trim_end_spec(l0[j]) != setting_line(key@, value@),
        decreases n - i,
    {
        let lv = chars_of(lines[i].as_str());
        assert(lv@ == l0[i as int]);
        if is_key_line(lv.as_slice(), kv.as_slice()) {
            found = true;
            if !trimmed_end_is(lv.as_slice(), wv.as_slice()) {
                lines.set(i, owned(wanted.as_str()));
                changed = true;
            }
        }
        assert(lines@[i as int]@ == patch_line(l0[i as int], key@, value@));
        i += 1;
    }
    assert(lines@.map_values(|s: String| s@) =~= l0.map_values(|l: Seq<char>| patch_line(l, key@, value@)));
    if !found {
        proof {
            lemma_patch_identity(l0, key@, value@);
        }
        if lines.len() > 0 {
            lines.push(String::new());
        }
        lines.push(owned(comment));
        lines.push(wanted);
        changed = true;
        assert(lines@.map_values(|s: String| s@) =~= apply_one(l0, key@, value@, comment@));
    }
    changed
}

/// Enforces each `(key, value, note)` setting on the text of espanso's config, in order: the text
/// to write back, or `None` when every setting already holds.
///
/// A key already present at column zero is rewritten in place; a missing one is appended with its
/// note. A commented-out or indented key does not count. The lines are joined with the line ending
/// the text already uses, and a final line ending is kept.
pub fn patch(text: &str, entries: &[(&str, &str, &str)]) -> (r: Option<String>)
    ensures
        r matches Some(s) ==> patch_spec(text@, entries_view(entries@)) == Some(s@),
        r is None ==> patch_spec(text@, entries_view(entries@)) is None,
{
    let ghost es = entries_view(entries@);
    let ghost l0 = lines_spec(text@);
    let mut lines = split_lines(text);
    let mut changed = false;
    let mut k: usize = 0;
    assert(es.subrange(0, es.len() as int) =~= es);
    while k < entries.len()
        invariant
            k <= entries@.len() == es.len(),
            es == entries_view(entries@),
            l0 == lines_spec(text@),
            apply_all(lines@.map_values(|s: String| s@), es.subrange(k as int, es.len() as int)) == apply_all(l0, es),
            (changed || changes_all(lines@.map_values(|s: String| s@), es.subrange(k as int, es.len() as int)))
                == changes_all(l0, es),
        decreases entries.len() - k,
    {
        let (key, value, comment) = entries[k];
        let ghost rest = es.subrange(k as int, es.len() as int);
        assert(rest.drop_first() =~= es.subrange(k + 1, es.len() as int));
        assert(rest[0] == (key@, value@, comment@));
        let c = apply_entry(&mut lines, key, value, comment);
        changed = changed || c;
        k += 1;
    }
    assert(es.subrange(k as int, es.len() as int).len() == 0);
    if !changed {
        return None;
    }
    let tv = chars_of(text);
    let crlf = contains(tv.as_slice(), &['\r', '\n']);
    let newline = if crlf { "\r\n" } else { "\n" };
    proof {
        reveal_strlit("\r\n");
        reveal_strlit("\n");
        assert(newline@ == newline_of(text@));
    }
    let mut out = join(&lines, newline);
    if tv.len() > 0 && tv[tv.len() - 1] == '\n' {
        push_str(&mut out, newline);
    } else {
        assert(out@ + Seq::<char>::empty() =~= out@);
    }
    Some(out)
}

/// Hides espanso's tray icon and silences its notifications, on the text of its config.
pub fn ensure_managed_settings(text: &str) -> (r: Option<String>)
    ensures
        r matches Some(s) ==> patch_spec(text@, managed_spec()) == Some(s@),
        r is None ==> patch_spec(text@, managed_spec()) is None,
{
    let entries = [
        ("show_icon", "false", "# Disabled by EspansoManager: avoids a second Espanso icon in the system tray, since EspansoManager already shows one."),
        ("show_notifications", "false", "# Disabled by EspansoManager: the app reports what happened in its own window, so the Windows toasts would only repeat it."),
    ];
    assert(entries_view(entries@) =~= managed_spec());
    patch(text, &entries)
}

/// Gives espanso its own tray icon back, for when this app could not show one: with no icon from
/// either program there would be nothing on screen to pause or stop the typing.
pub fn restore_espanso_icon(text: &str) -> (r: Option<String>)
    ensures
        r matches Some(s) ==> patch_spec(text@, seq![("show_icon"@, "true"@, restore_note())]) == Some(s@),
        r is None ==> patch_spec(text@, seq![("show_icon"@, "true"@, restore_note())]) is None,
{
    let entries = [
        ("show_icon", "true", "# Restored by EspansoManager: it could not show its own tray icon, so Espanso keeps its one."),
    ];
    assert(entries_view(entries@) =~= seq![("show_icon"@, "true"@, restore_note())]);
    patch(text, &entries)
}

/// Whether this app claims the search shortcut and draws its own search window. While it does not,
/// espanso keeps the shortcut and its own search bar.
pub const OWN_LAUNCHER: bool = false;

/// The `search_shortcut` value written on every start: `OFF` while this app owns the shortcut,
/// espanso's own `ALT+SPACE` otherwise, so the two search windows are never both on.
pub fn wanted_search_shortcut(own_launcher: bool) -> (r: &'static str)
    ensures
        r@ == (if own_launcher { "OFF"@ } else { "ALT+SPACE"@ }),
{
    if own_launcher { "OFF" } else { "ALT+SPACE" }
}

/// Hands the search shortcut to espanso (its default value) or takes it away (`OFF`).
pub fn set_search_shortcut(text: &str, value: &str) -> (r: Option<String>)
    ensures
        r matches Some(s) ==> patch_spec(text@, seq![("search_shortcut"@, value@, shortcut_note())]) == Some(s@),
        r is None ==> patch_spec(text@, seq![("search_shortcut"@, value@, shortcut_note())]) is None,
{
    let entries = [
        ("search_shortcut", value, "# Set by EspansoManager: OFF while the app provides its own search window on the same shortcut,\n# and espanso's default when that shortcut could not be claimed."),
    ];
    assert(entries_view(entries@) =~= seq![("search_shortcut"@, value@, shortcut_note())]);
    patch(text, &entries)
}

// ---------------------------------------------------------------------------------------------
// Laws
// ---------------------------------------------------------------------------------------------

/// The setting `(key, value)` holds in `lines`: some line sets it, and every line that sets it
/// sets it to `value`.
pub open spec fn holds(lines: Seq<Seq<char>>, key: Seq<char>, value: Seq<char>) -> bool {
    &&& has_key_line(lines, key)
    &&& forall|i: int| 0 <= i < lines.len() && #[trigger] key_line(lines[i], key)
            ==> trim_end_spec(lines[i]) == setting_line(key, value)
}

/// No character of `s` is a line feed.
pub open spec fn no_lf(s: Seq<char>) -> bool {
    forall|i: int| 0 <= i < s.len() ==> #[trigger] s[i] != '\n'
}

/// Every line feed of `s` comes right after a carriage return.
pub open spec fn crlf_only(s: Seq<char>) -> bool {
    forall|i: int| 0 <= i < s.len() && #[trigger] s[i] == '\n' ==> i > 0 && s[i - 1] == '\r'
}

proof fn lemma_common_prefix(a: Seq<char>, b: Seq<char>, s: Seq<char>)
    requires
        is_prefix(a, s),
        is_prefix(b, s),
    ensures
        is_prefix(a, b) || is_prefix(b, a),
{
    if a.len() <= b.len() {
        assert(b.subrange(0, a.len() as int) =~= s.subrange(0, a.len() as int));
    } else {
        assert(a.subrange(0, b.len() as int) =~= s.subrange(0, b.len() as int));
    }
}

proof fn lemma_setting_line_sets(key: Seq<char>, value: Seq<char>)
    ensures
        key_line(setting_line(key, value), key),
{
    let l = setting_line(key, value);
    assert(l.subrange(0, key.len() as int) =~= key);
    let rest = l.subrange(key.len() as int, l.len() as int);
    assert(rest =~= seq![':', ' '] + value);
    assert(rest[0] == ':');
    assert(trim_start_spec(rest) == rest);
}

proof fn lemma_empty_line_sets_nothing(key: Seq<char>)
    ensures
        !key_line(Seq::empty(), key),
{
    if key_line(Seq::empty(), key) {
        assert(Seq::<char>::empty().subrange(key.len() as int, 0) =~= Seq::<char>::empty());
    }
}

/// Enforcing a setting makes it hold.
proof fn lemma_apply_one_holds(lines: Seq<Seq<char>>, key: Seq<char>, value: Seq<char>, comment: Seq<char>)
    requires
        trim_end_spec(setting_line(key, value)) == setting_line(key, value),
        !key_line(comment, key),
    ensures
        holds(apply_one(lines, key, value, comment), key, value),
{
    let m = apply_one(lines, key, value, comment);
    lemma_setting_line_sets(key, value);
    if has_key_line(lines, key) {
        let i = choose|i: int| 0 <= i < lines.len() && #[trigger] key_line(lines[i], key);
        assert(key_line(m[i], key));
    } else {
        lemma_empty_line_sets_nothing(key);
        let base = if lines.len() > 0 { lines.push(Seq::empty()) } else { lines };
        assert(m[m.len() - 1] == setting_line(key, value));
        assert(key_line(m[m.len() - 1], key));
        assert forall|i: int| 0 <= i < m.len() && #[trigger] key_line(m[i], key)
            implies trim_end_spec(m[i]) == setting_line(key, value) by {
            if i < lines.len() {
                assert(m[i] == lines[i]);
            } else if i < base.len() {
                assert(m[i] == Seq::<char>::empty());
            } else if i == base.len() {
                assert(m[i] == comment);
            }
        }
    }
}

/// Enforcing one setting leaves another that holds still holding, when neither key begins the
/// other and the note cannot be read as the other key.
proof fn lemma_apply_one_keeps(lines: Seq<Seq<char>>, key: Seq<char>, value: Seq<char>,
    k2: Seq<char>, v2: Seq<char>, c2: Seq<char>)
    requires
        holds(lines, key, value),
        !is_prefix(key, k2),
        !is_prefix(k2, key),
        !key_line(c2, key),
    ensures
        holds(apply_one(lines, k2, v2, c2), key, value),
{
    let m = apply_one(lines, k2, v2, c2);
    let w2 = setting_line(k2, v2);
    assert(!key_line(w2, key)) by {
        assert(w2.subrange(0, k2.len() as int) =~= k2);
        if key_line(w2, key) {
            lemma_common_prefix(key, k2, w2);
        }
    }
    let i = choose|i: int| 0 <= i < lines.len() && #[trigger] key_line(lines[i], key);
    if has_key_line(lines, k2) {
        assert forall|j: int| 0 <= j < lines.len() && #[trigger] key_line(lines[j], key) implies m[j] == lines[j] by {
            if key_line(lines[j], k2) {
                lemma_common_prefix(key, k2, lines[j]);
            }
        }
        assert(key_line(m[i], key));
        assert forall|j: int| 0 <= j < m.len() && #[trigger] key_line(m[j], key)
            implies trim_end_spec(m[j]) == setting_line(key, value) by {
            if key_line(lines[j], k2) && trim_end_spec(lines[j]) != w2 {
                assert(m[j] == w2);
            }
        }
    } else {
        lemma_empty_line_sets_nothing(key);
        let base = if lines.len() > 0 { lines.push(Seq::empty()) } else { lines };
        assert(m[i] == lines[i]);
        assert forall|j: int| 0 <= j < m.len() && #[trigger] key_line(m[j], key)
            implies trim_end_spec(m[j]) == setting_line(key, value) by {
            if j < lines.len() {
                assert(m[j] == lines[j]);
            } else if j < base.len() {
                assert(m[j] == Seq::<char>::empty());
            } else if j == base.len() {
                assert(m[j] == c2);
            } else {
                assert(m[j] == w2);
            }
        }
    }
}

/// A setting that holds is not touched by enforcing it again.
proof fn lemma_apply_one_settled(lines: Seq<Seq<char>>, key: Seq<char>, value: Seq<char>, comment: Seq<char>)
    requires
        holds(lines, key, value),
    ensures
        !changes_one(lines, key, value),
        apply_one(lines, key, value, comment) == lines,
{
    let m = lines.map_values(|l: Seq<char>| patch_line(l, key, value));
    assert forall|i: int| 0 <= i < lines.len() implies #[trigger] m[i] == lines[i] by {
        if key_line(lines[i], key) {
            assert(trim_end_spec(lines[i]) == setting_line(key, value));
        }
    }
    assert(m =~= lines);
}

/// The conditions under which the settings of `es` do not get in each other's way: no key begins
/// another, no note reads as a key, and no wanted line ends in whitespace.
pub open spec fn independent(es: Seq<(Seq<char>, Seq<char>, Seq<char>)>) -> bool {
    &&& forall|i: int, j: int| 0 <= i < es.len() && 0 <= j < es.len() && i != j
            ==> !is_prefix(#[trigger] es[i].0, #[trigger] es[j].0)
    &&& forall|i: int, j: int| 0 <= i < es.len() && 0 <= j < es.len()
            ==> !key_line(#[trigger] es[i].2, #[trigger] es[j].0)
    &&& forall|i: int| 0 <= i < es.len()
            ==> trim_end_spec(setting_line(#[trigger] es[i].0, es[i].1)) == setting_line(es[i].0, es[i].1)
}

proof fn lemma_apply_all_keeps(lines: Seq<Seq<char>>, es: Seq<(Seq<char>, Seq<char>, Seq<char>)>, key: Seq<char>, value: Seq<char>)
    requires
        holds(lines, key, value),
        forall|j: int| 0 <= j < es.len() ==> !is_prefix(key, #[trigger] es[j].0) && !is_prefix(es[j].0, key),
        forall|j: int| 0 <= j < es.len() ==> !key_line(#[trigger] es[j].2, key),
    ensures
        holds(apply_all(lines, es), key, value),
    decreases es.len(),
{
    if es.len() > 0 {
        lemma_apply_one_keeps(lines, key, value, es[0].0, es[0].1, es[0].2);
        let rest = es.drop_first();
        assert forall|j: int| 0 <= j < rest.len() implies !is_prefix(key, #[trigger] rest[j].0) && !is_prefix(rest[j].0, key) by {
            assert(rest[j] == es[j + 1]);
        }
        assert forall|j: int| 0 <= j < rest.len() implies !key_line(#[trigger] rest[j].2, key) by {
            assert(rest[j] == es[j + 1]);
        }
        lemma_apply_all_keeps(apply_one(lines, es[0].0, es[0].1, es[0].2), rest, key, value);
    }
}

proof fn lemma_apply_all_holds(lines: Seq<Seq<char>>, es: Seq<(Seq<char>, Seq<char>, Seq<char>)>)
    requires
        independent(es),
    ensures
        forall|i: int| 0 <= i < es.len() ==> holds(apply_all(lines, es), #[trigger] es[i].0, es[i].1),
    decreases es.len(),
{
    if es.len() > 0 {
        let first = apply_one(lines, es[0].0, es[0].1, es[0].2);
        let rest = es.drop_first();
        assert(independent(rest)) by {
            assert forall|i: int, j: int| 0 <= i < rest.len() && 0 <= j < rest.len() && i != j
                implies !is_prefix(#[trigger] rest[i].0, #[trigger] rest[j].0) by {
                assert(rest[i] == es[i + 1] && rest[j] == es[j + 1]);
            }
            assert forall|i: int, j: int| 0 <= i < rest.len() && 0 <= j < rest.len()
                implies !key_line(#[trigger] rest[i].2, #[trigger] rest[j].0) by {
                assert(rest[i] == es[i + 1] && rest[j] == es[j + 1]);
            }
            assert forall|i: int| 0 <= i < rest.len()
                implies trim_end_spec(setting_line(#[trigger] rest[i].0, rest[i].1)) == setting_line(rest[i].0, rest[i].1) by {
                assert(rest[i] == es[i + 1]);
            }
        }
        lemma_apply_all_holds(first, rest);
        assert(es[0] == es[0]);
        lemma_apply_one_holds(lines, es[0].0, es[0].1, es[0].2);
        assert forall|j: int| 0 <= j < rest.len() implies !is_prefix(es[0].0, #[trigger] rest[j].0) && !is_prefix(rest[j].0, es[0].0) by {
            assert(rest[j] == es[j + 1]);
            assert(!is_prefix(es[0].0, es[j + 1].0));
            assert(!is_prefix(es[j + 1].0, es[0].0));
        }
        assert forall|j: int| 0 <= j < rest.len() implies !key_line(#[trigger] rest[j].2, es[0].0) by {
            assert(rest[j] == es[j + 1]);
            assert(!key_line(es[j + 1].2, es[0].0));
        }
        lemma_apply_all_keeps(first, rest, es[0].0, es[0].1);
        assert forall|i: int| 0 <= i < es.len() implies holds(apply_all(lines, es), #[trigger] es[i].0, es[i].1) by {
            if i > 0 {
                assert(es[i] == rest[i - 1]);
            }
        }
    }
}

proof fn lemma_settled_all(lines: Seq<Seq<char>>, es: Seq<(Seq<char>, Seq<char>, Seq<char>)>)
    requires
        forall|i: int| 0 <= i < es.len() ==> holds(lines, #[trigger] es[i].0, es[i].1),
    ensures
        !changes_all(lines, es),
        apply_all(lines, es) == lines,
    decreases es.len(),
{
    if es.len() > 0 {
        assert(holds(lines, es[0].0, es[0].1));
        lemma_apply_one_settled(lines, es[0].0, es[0].1, es[0].2);
        let rest = es.drop_first();
        assert forall|i: int| 0 <= i < rest.len() implies holds(lines, #[trigger] rest[i].0, rest[i].1) by {
            assert(rest[i] == es[i + 1]);
        }
        lemma_settled_all(lines, rest);
    }
}

/// Running the same edit a second time has nothing left to do, as long as the settings do not get
/// in each other's way: every setting holds after the first run, so the second changes no line.
pub proof fn law_second_run_changes_nothing(lines: Seq<Seq<char>>, es: Seq<(Seq<char>, Seq<char>, Seq<char>)>)
    requires
        independent(es),
    ensures
        forall|i: int| 0 <= i < es.len() ==> holds(apply_all(lines, es), #[trigger] es[i].0, es[i].1),
        !changes_all(apply_all(lines, es), es),
        apply_all(apply_all(lines, es), es) == apply_all(lines, es),
{
    lemma_apply_all_holds(lines, es);
    lemma_settled_all(apply_all(lines, es), es);
}

/// Every line that sets none of the keys is the user's and comes out exactly where it was; lines
/// are only ever rewritten in place or added at the end.
pub proof fn law_other_lines_survive(lines: Seq<Seq<char>>, es: Seq<(Seq<char>, Seq<char>, Seq<char>)>)
    ensures
        apply_all(lines, es).len() >= lines.len(),
        forall|i: int| 0 <= i < lines.len() && (forall|j: int| 0 <= j < es.len() ==> !key_line(lines[i], #[trigger] es[j].0))
            ==> #[trigger] apply_all(lines, es)[i] == lines[i],
    decreases es.len(),
{
    if es.len() > 0 {
        let first = apply_one(lines, es[0].0, es[0].1, es[0].2);
        let rest = es.drop_first();
        law_other_lines_survive(first, rest);
        assert forall|i: int| 0 <= i < lines.len() && (forall|j: int| 0 <= j < es.len() ==> !key_line(lines[i], #[trigger] es[j].0))
            implies #[trigger] apply_all(lines, es)[i] == lines[i] by {
            assert(!key_line(lines[i], es[0].0));
            assert(first[i] == lines[i]);
            assert forall|j: int| 0 <= j < rest.len() implies !key_line(first[i], #[trigger] rest[j].0) by {
                assert(rest[j] == es[j + 1]);
                assert(!key_line(lines[i], es[j + 1].0));
            }
        }
    }
}

proof fn lemma_lines_from_no_lf(s: Seq<char>, cur: Seq<char>)
    requires
        no_lf(cur),
    ensures
        forall|i: int| 0 <= i < lines_from(s, cur).len() ==> no_lf(#[trigger] lines_from(s, cur)[i]),
    decreases s.len(),
{
    if s.len() > 0 {
        if s[0] == '\n' {
            lemma_lines_from_no_lf(s.drop_first(), Seq::empty());
            let l = strip_cr(cur);
            assert(no_lf(l)) by {
                if cur.len() > 0 && cur.last() == '\r' {
                    assert forall|i: int| 0 <= i < l.len() implies #[trigger] l[i] != '\n' by {
                        assert(l[i] == cur[i]);
                    }
                }
            }
            let r = lines_from(s.drop_first(), Seq::empty());
            assert forall|i: int| 0 <= i < lines_from(s, cur).len() implies no_lf(#[trigger] lines_from(s, cur)[i]) by {
                if i > 0 {
                    assert(lines_from(s, cur)[i] == r[i - 1]);
                }
            }
        } else {
            let c2 = cur.push(s[0]);
            assert(no_lf(c2)) by {
                assert forall|i: int| 0 <= i < c2.len() implies #[trigger] c2[i] != '\n' by {
                    if i < cur.len() {
                        assert(c2[i] == cur[i]);
                    }
                }
            }
            lemma_lines_from_no_lf(s.drop_first(), c2);
            assert(lines_from(s, cur) == lines_from(s.drop_first(), c2));
        }
    } else {
        assert forall|i: int| 0 <= i < lines_from(s, cur).len() implies no_lf(#[trigger] lines_from(s, cur)[i]) by {
            assert(lines_from(s, cur)[i] == cur);
        }
    }
}

proof fn lemma_apply_all_no_lf(lines: Seq<Seq<char>>, es: Seq<(Seq<char>, Seq<char>, Seq<char>)>)
    requires
        forall|i: int| 0 <= i < lines.len() ==> no_lf(#[trigger] lines[i]),
        forall|j: int| 0 <= j < es.len() ==> no_lf(#[trigger] es[j].0) && no_lf(es[j].1) && no_lf(es[j].2),
    ensures
        forall|i: int| 0 <= i < apply_all(lines, es).len() ==> no_lf(#[trigger] apply_all(lines, es)[i]),
    decreases es.len(),
{
    if es.len() > 0 {
        let (k, v, c) = es[0];
        let w = setting_line(k, v);
        assert(no_lf(k) && no_lf(v) && no_lf(c));
        assert(no_lf(w)) by {
            assert forall|i: int| 0 <= i < w.len() implies #[trigger] w[i] != '\n' by {
                if i < k.len() {
                    assert(w[i] == k[i]);
                } else if i >= k.len() + 2 {
                    assert(w[i] == v[i - k.len() - 2]);
                }
            }
        }
        let first = apply_one(lines, k, v, c);
        assert forall|i: int| 0 <= i < first.len() implies no_lf(#[trigger] first[i]) by {
            if has_key_line(lines, k) {
                assert(first[i] == patch_line(lines[i], k, v));
            } else {
                let base = if lines.len() > 0 { lines.push(Seq::empty()) } else { lines };
                if i < lines.len() {
                    assert(first[i] == lines[i]);
                } else if i < base.len() {
                    assert(first[i] == Seq::<char>::empty());
                } else if i == base.len() {
                    assert(first[i] == c);
                } else {
                    assert(first[i] == w);
                }
            }
        }
        let rest = es.drop_first();
        assert forall|j: int| 0 <= j < rest.len() implies no_lf(#[trigger] rest[j].0) && no_lf(rest[j].1) && no_lf(rest[j].2) by {
            assert(rest[j] == es[j + 1]);
        }
        lemma_apply_all_no_lf(first, rest);
        assert(apply_all(lines, es) == apply_all(first, rest));
    } else {
        assert(apply_all(lines, es) == lines);
    }
}

proof fn lemma_join_crlf(parts: Seq<Seq<char>>)
    requires
        forall|i: int| 0 <= i < parts.len() ==> no_lf(#[trigger] parts[i]),
    ensures
        crlf_only(join_spec(parts, seq!['\r', '\n'])),
    decreases parts.len(),
{
    let sep = seq!['\r', '\n'];
    if parts.len() == 1 {
        assert(no_lf(parts[0]));
    } else if parts.len() > 1 {
        let init = parts.drop_last();
        assert forall|i: int| 0 <= i < init.len() implies no_lf(#[trigger] init[i]) by {
            assert(init[i] == parts[i]);
        }
        lemma_join_crlf(init);
        let a = join_spec(init, sep);
        let b = parts.last();
        assert(no_lf(b));
        let j = a + sep + b;
        assert forall|i: int| 0 <= i < j.len() && #[trigger] j[i] == '\n' implies i > 0 && j[i - 1] == '\r' by {
            if i < a.len() {
                assert(j[i] == a[i]);
                assert(j[i - 1] == a[i - 1]);
            } else if i == a.len() {
                assert(j[i] == '\r');
            } else if i == a.len() + 1 {
                assert(j[i - 1] == '\r');
            } else {
                assert(j[i] == b[i - a.len() - 2]);
            }
        }
    }
}

/// A file that arrived with CRLF line endings leaves with them, every new line included, as long
/// as the settings themselves hold no line break.
pub proof fn law_crlf_file_stays_crlf(text: Seq<char>, es: Seq<(Seq<char>, Seq<char>, Seq<char>)>)
    requires
        contains_seq(text, seq!['\r', '\n']),
        forall|j: int| 0 <= j < es.len() ==> no_lf(#[trigger] es[j].0) && no_lf(es[j].1) && no_lf(es[j].2),
    ensures
        patch_spec(text, es) matches Some(out) ==> crlf_only(out),
{
    let sep = seq!['\r', '\n'];
    lemma_lines_from_no_lf(text, Seq::empty());
    lemma_apply_all_no_lf(lines_spec(text), es);
    let ls = apply_all(lines_spec(text), es);
    lemma_join_crlf(ls);
    let a = join_spec(ls, sep);
    if text.len() > 0 && text.last() == '\n' {
        let j = a + sep;
        assert forall|i: int| 0 <= i < j.len() && #[trigger] j[i] == '\n' implies i > 0 && j[i - 1] == '\r' by {
            if i < a.len() {
                assert(j[i] == a[i]);
                assert(j[i - 1] == a[i - 1]);
            } else if i == a.len() {
                assert(j[i] == '\r');
            } else {
                assert(j[i - 1] == '\r');
            }
        }
    } else {
        assert(a + Seq::<char>::empty() =~= a);
    }
}

} // verus!
