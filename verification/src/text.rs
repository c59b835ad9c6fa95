//! Character-level text helpers shared by every module that reads or builds a string.
//!
//! Strings are reasoned about as sequences of `char`, which is how `@` views a `String` or a
//! `&str`. The handful of std operations whose full meaning is a Unicode table (whitespace,
//! alphanumeric, lowercase) are reached through the small trusted wrappers at the bottom of this
//! file; everything else is written and proved here.

use vstd::prelude::*;
use vstd::string::StringExecFns;

verus! {

// ---------------------------------------------------------------------------------------------
// Specifications
// ---------------------------------------------------------------------------------------------

/// `p` is a prefix of `s`.
pub open spec fn is_prefix(p: Seq<char>, s: Seq<char>) -> bool {
    p.len() <= s.len() && s.subrange(0, p.len() as int) == p
}

/// `needle` occurs somewhere inside `s`.
pub open spec fn contains_seq(s: Seq<char>, needle: Seq<char>) -> bool {
    exists|i: int| 0 <= i <= s.len() - needle.len() && #[trigger] s.subrange(i, i + needle.len()) == needle
}

/// The ASCII digit for `d`, which must be below ten.
pub open spec fn digit_char(d: nat) -> char {
    (d + 48) as char
}

/// The decimal spelling of `n`, most significant digit first, with no padding.
pub open spec fn decimal_spec(n: nat) -> Seq<char>
    decreases n,
{
    if n < 10 {
        seq![digit_char(n)]
    } else {
        decimal_spec(n / 10).push(digit_char(n % 10))
    }
}

/// ASCII letters and digits.
pub open spec fn is_ascii_alnum(c: char) -> bool {
    ('a' <= c && c <= 'z') || ('A' <= c && c <= 'Z') || ('0' <= c && c <= '9')
}

/// The ASCII whitespace characters that `char::is_whitespace` recognises.
pub open spec fn is_ascii_ws(c: char) -> bool {
    c == ' ' || c == '\t' || c == '\n' || c == '\r' || c == '\x0B' || c == '\x0C'
}

/// ASCII lowercase of one character; everything outside `A..=Z` is left alone.
pub open spec fn ascii_lower_char(c: char) -> char {
    if 'A' <= c && c <= 'Z' {
        ((c as u32) + 32) as char
    } else {
        c
    }
}

/// Every character of `s` is below 128.
pub open spec fn all_ascii(s: Seq<char>) -> bool {
    forall|i: int| 0 <= i < s.len() ==> (#[trigger] s[i] as u32) < 128
}

/// What `char::is_whitespace` answers for a character outside ASCII: the Unicode `White_Space`
/// property, which outside ASCII holds exactly these code points.
pub open spec fn unicode_whitespace(c: char) -> bool {
    let u = c as u32;
    ||| u == 0x85
    ||| u == 0xA0
    ||| u == 0x1680
    ||| (0x2000 <= u && u <= 0x200A)
    ||| u == 0x2028
    ||| u == 0x2029
    ||| u == 0x202F
    ||| u == 0x205F
    ||| u == 0x3000
}

/// What `char::is_alphanumeric` answers for a character outside ASCII that is not whitespace: the
/// Unicode `Alphabetic` property or a numeric general category (`Nd`, `Nl`, `No`).
pub uninterp spec fn unicode_alphanumeric(c: char) -> bool;

/// What `str::to_lowercase` returns for text that is not all ASCII: the Unicode lowercase mapping.
pub uninterp spec fn unicode_lowercase(s: Seq<char>) -> Seq<char>;

/// `char::is_whitespace`: the six ASCII whitespace characters within ASCII, the Unicode property
/// outside it.
pub open spec fn char_is_whitespace(c: char) -> bool {
    if (c as u32) < 128 { is_ascii_ws(c) } else { unicode_whitespace(c) }
}

/// `char::is_alphanumeric`: letters and digits within ASCII, the Unicode properties outside it —
/// which no whitespace character has.
pub open spec fn char_is_alphanumeric(c: char) -> bool {
    if (c as u32) < 128 {
        is_ascii_alnum(c)
    } else if unicode_whitespace(c) {
        false
    } else {
        unicode_alphanumeric(c)
    }
}

/// A character that has no case, so that lower-casing leaves it alone: ASCII other than `A..=Z`,
/// and the whole Devanagari block (U+0900 to U+097F), a script without case.
pub open spec fn caseless_char(c: char) -> bool {
    let u = c as u32;
    (u < 128 && !('A' <= c && c <= 'Z')) || (0x0900 <= u && u <= 0x097F)
}

/// Every character of `s` has no case.
pub open spec fn all_caseless(s: Seq<char>) -> bool {
    forall|i: int| 0 <= i < s.len() ==> caseless_char(#[trigger] s[i])
}

/// `str::to_lowercase`: the ASCII lowercase of all-ASCII text, the text itself when none of its
/// characters has case, the Unicode mapping otherwise.
pub open spec fn lowercase_spec(s: Seq<char>) -> Seq<char> {
    if all_ascii(s) {
        s.map_values(|c: char| ascii_lower_char(c))
    } else if all_caseless(s) {
        s
    } else {
        unicode_lowercase(s)
    }
}

/// `s` with its leading whitespace removed.
pub open spec fn trim_start_spec(s: Seq<char>) -> Seq<char>
    decreases s.len(),
{
    if s.len() > 0 && char_is_whitespace(s[0]) {
        trim_start_spec(s.drop_first())
    } else {
        s
    }
}

/// `s` with its trailing whitespace removed.
pub open spec fn trim_end_spec(s: Seq<char>) -> Seq<char>
    decreases s.len(),
{
    if s.len() > 0 && char_is_whitespace(s.last()) {
        trim_end_spec(s.drop_last())
    } else {
        s
    }
}

/// What `str::trim` leaves: `s` without whitespace at either end.
pub open spec fn trim_spec(s: Seq<char>) -> Seq<char> {
    trim_end_spec(trim_start_spec(s))
}

// ---------------------------------------------------------------------------------------------
// Lemmas
// ---------------------------------------------------------------------------------------------

pub proof fn lemma_trim_start_skip(s: Seq<char>, i: int)
    requires
        0 <= i < s.len(),
        char_is_whitespace(s[i]),
    ensures
        trim_start_spec(s.subrange(i, s.len() as int)) == trim_start_spec(s.subrange(i + 1, s.len() as int)),
{
    assert(s.subrange(i, s.len() as int).drop_first() =~= s.subrange(i + 1, s.len() as int));
}

pub proof fn lemma_trim_end_take(s: Seq<char>, j: int)
    requires
        0 < j <= s.len(),
        char_is_whitespace(s[j - 1]),
    ensures
        trim_end_spec(s.subrange(0, j)) == trim_end_spec(s.subrange(0, j - 1)),
{
    assert(s.subrange(0, j).drop_last() =~= s.subrange(0, j - 1));
}

/// No letter or digit is whitespace.
pub proof fn lemma_alnum_not_ws(c: char)
    ensures
        char_is_alphanumeric(c) ==> !char_is_whitespace(c),
{
}

/// Removing leading whitespace leaves a suffix that starts with something else.
pub proof fn lemma_trim_start_shape(s: Seq<char>)
    ensures
        trim_start_spec(s).len() <= s.len(),
        trim_start_spec(s) == s.subrange(s.len() - trim_start_spec(s).len(), s.len() as int),
        trim_start_spec(s).len() > 0 ==> !char_is_whitespace(trim_start_spec(s)[0]),
    decreases s.len(),
{
    if s.len() > 0 && char_is_whitespace(s[0]) {
        lemma_trim_start_shape(s.drop_first());
        let t = trim_start_spec(s.drop_first());
        assert(s.drop_first().subrange(s.drop_first().len() - t.len(), s.drop_first().len() as int)
            =~= s.subrange(s.len() - t.len(), s.len() as int));
    } else {
        assert(s.subrange(0, s.len() as int) =~= s);
    }
}

/// Removing trailing whitespace leaves a prefix that ends with something else.
pub proof fn lemma_trim_end_shape(s: Seq<char>)
    ensures
        trim_end_spec(s).len() <= s.len(),
        trim_end_spec(s) == s.subrange(0, trim_end_spec(s).len() as int),
        trim_end_spec(s).len() > 0 ==> !char_is_whitespace(trim_end_spec(s).last()),
    decreases s.len(),
{
    if s.len() > 0 && char_is_whitespace(s.last()) {
        lemma_trim_end_shape(s.drop_last());
        let t = trim_end_spec(s.drop_last());
        assert(s.drop_last().subrange(0, t.len() as int) =~= s.subrange(0, t.len() as int));
    } else {
        assert(s.subrange(0, s.len() as int) =~= s);
    }
}

/// Trimmed text has no whitespace at either end, so trimming it again changes nothing.
pub proof fn lemma_trim_idempotent(s: Seq<char>)
    ensures
        trim_spec(s).len() > 0 ==> !char_is_whitespace(trim_spec(s)[0]) && !char_is_whitespace(trim_spec(s).last()),
        trim_spec(trim_spec(s)) == trim_spec(s),
{
    let a = trim_start_spec(s);
    lemma_trim_start_shape(s);
    lemma_trim_end_shape(a);
    let b = trim_end_spec(a);
    if b.len() > 0 {
        assert(b[0] == a[0]);
    }
    lemma_trim_of_unspaced(b);
}

/// Whitespace-free text is its own trim.
pub proof fn lemma_trim_of_unspaced(s: Seq<char>)
    requires
        s.len() == 0 || (!char_is_whitespace(s[0]) && !char_is_whitespace(s.last())),
    ensures
        trim_spec(s) == s,
{
}

pub proof fn lemma_decimal_nonempty(n: nat)
    ensures
        decimal_spec(n).len() >= 1,
    decreases n,
{
    if n >= 10 {
        lemma_decimal_nonempty(n / 10);
    }
}

// ---------------------------------------------------------------------------------------------
// Executable helpers
// ---------------------------------------------------------------------------------------------

/// `String::push`: appends one character.
#[verifier::external_body]
pub(crate) fn push_char(s: &mut String, c: char)
    ensures
        final(s)@ == old(s)@.push(c),
{
    s.push(c);
}

/// Appends the text of `other` to `s`.
pub fn push_str(s: &mut String, other: &str)
    ensures
        final(s)@ == old(s)@ + other@,
{
    s.append(other);
}

/// The characters of `s`, in order.
pub fn chars_of(s: &str) -> (v: Vec<char>)
    ensures
        v@ == s@,
{
    let mut v: Vec<char> = Vec::new();
    for c in it: s.chars()
        invariant
            v@ == it.seq().take(it.index() as int),
    {
        v.push(c);
    }
    v
}

/// A string holding exactly the characters `v[from..to]`.
pub fn string_of_range(v: &[char], from: usize, to: usize) -> (s: String)
    requires
        from <= to <= v@.len(),
    ensures
        s@ == v@.subrange(from as int, to as int),
{
    let mut s = String::new();
    let mut i: usize = from;
    while i < to
        invariant
            from <= i <= to <= v@.len(),
            s@ == v@.subrange(from as int, i as int),
        decreases to - i,
    {
        push_char(&mut s, v[i]);
        assert(v@.subrange(from as int, i + 1) =~= v@.subrange(from as int, i as int).push(v@[i as int]));
        i += 1;
    }
    s
}


/// An owned copy of `s`.
pub fn owned(s: &str) -> (r: String)
    ensures
        r@ == s@,
{
    String::from_str(s)
}

/// Appends the decimal spelling of `n` to `out`.
pub fn push_decimal(out: &mut String, n: u64)
    ensures
        final(out)@ == old(out)@ + decimal_spec(n as nat),
    decreases n,
{
    if n >= 10 {
        push_decimal(out, n / 10);
    }
    let d = (n % 10) as u32;
    let c = char_from_digit(d);
    push_char(out, c);
    assert(old(out)@ + decimal_spec(n as nat) =~= (if n >= 10 {
        old(out)@ + decimal_spec((n / 10) as nat)
    } else {
        old(out)@
    }).push(digit_char((n % 10) as nat)));
}

/// The decimal spelling of `n`, as `n.to_string()` writes it.
pub fn decimal(n: u64) -> (s: String)
    ensures
        s@ == decimal_spec(n as nat),
{
    let mut s = String::new();
    push_decimal(&mut s, n);
    assert(Seq::<char>::empty() + decimal_spec(n as nat) =~= decimal_spec(n as nat));
    s
}

fn char_from_digit(d: u32) -> (c: char)
    requires
        d < 10,
    ensures
        c == digit_char(d as nat),
{
    if d == 0 { '0' }
    else if d == 1 { '1' }
    else if d == 2 { '2' }
    else if d == 3 { '3' }
    else if d == 4 { '4' }
    else if d == 5 { '5' }
    else if d == 6 { '6' }
    else if d == 7 { '7' }
    else if d == 8 { '8' }
    else { '9' }
}

/// Whether two character sequences are equal.
pub fn chars_eq(a: &[char], b: &[char]) -> (r: bool)
    ensures
        r == (a@ == b@),
{
    if a.len() != b.len() {
        return false;
    }
    let mut i: usize = 0;
    while i < a.len()
        invariant
            a@.len() == b@.len(),
            i <= a@.len(),
            forall|k: int| 0 <= k < i ==> a@[k] == b@[k],
        decreases a.len() - i,
    {
        if a[i] != b[i] {
            return false;
        }
        i += 1;
    }
    assert(a@ =~= b@);
    true
}

/// Whether `a[from..to]` spells `b`.
pub fn range_eq(a: &[char], from: usize, to: usize, b: &[char]) -> (r: bool)
    requires
        from <= to <= a@.len(),
    ensures
        r == (a@.subrange(from as int, to as int) == b@),
{
    if to - from != b.len() {
        return false;
    }
    let mut i: usize = 0;
    while i < b.len()
        invariant
            to - from == b@.len(),
            from <= to <= a@.len(),
            i <= b@.len(),
            forall|k: int| 0 <= k < i ==> a@[from + k] == b@[k],
        decreases b.len() - i,
    {
        if a[from + i] != b[i] {
            return false;
        }
        i += 1;
    }
    assert(a@.subrange(from as int, to as int) =~= b@);
    true
}

/// Whether two strings have the same text.
pub fn str_eq(a: &str, b: &str) -> (r: bool)
    ensures
        r == (a@ == b@),
{
    let va = chars_of(a);
    let vb = chars_of(b);
    chars_eq(va.as_slice(), vb.as_slice())
}

/// Whether `p` is a prefix of `s`.
pub fn starts_with(s: &[char], p: &[char]) -> (r: bool)
    ensures
        r == is_prefix(p@, s@),
{
    if p.len() > s.len() {
        return false;
    }
    range_eq(s, 0, p.len(), p)
}

/// Whether `needle` occurs anywhere in `s`.
pub fn contains(s: &[char], needle: &[char]) -> (r: bool)
    ensures
        r == contains_seq(s@, needle@),
{
    if needle.len() > s.len() {
        return false;
    }
    if needle.len() == 0 {
        assert(s@.subrange(0int, 0int + needle@.len()) =~= needle@);
        return true;
    }
    let mut i: usize = 0;
    while i <= s.len() - needle.len()
        invariant
            1 <= needle@.len() <= s@.len(),
            i <= s@.len() - needle@.len() + 1,
            forall|k: int| 0 <= k < i ==> #[trigger] s@.subrange(k, k + needle@.len()) != needle@,
        decreases s.len() - needle.len() + 1 - i,
    {
        if range_eq(s, i, i + needle.len(), needle) {
            return true;
        }
        i += 1;
    }
    false
}

/// `char::is_whitespace`: the six ASCII whitespace characters, and outside ASCII the code points
/// of the Unicode `White_Space` property.
pub fn is_whitespace(c: char) -> (b: bool)
    ensures
        (c as u32) < 128 ==> b == is_ascii_ws(c),
        (c as u32) >= 128 ==> b == unicode_whitespace(c),
{
    let u = c as u32;
    if u < 128 {
        c == ' ' || c == '\t' || c == '\n' || c == '\r' || c == '\x0B' || c == '\x0C'
    } else {
        u == 0x85 || u == 0xA0 || u == 0x1680 || (0x2000 <= u && u <= 0x200A) || u == 0x2028
            || u == 0x2029 || u == 0x202F || u == 0x205F || u == 0x3000
    }
}

/// `char::is_alphanumeric`.
///
/// Trusted: answers whether `c` has the Unicode `Alphabetic` property or a numeric general category
/// (`Nd`, `Nl`, `No`). For ASCII the documentation makes that exactly the letters and digits; no
/// `White_Space` character is alphabetic or numeric; for the rest of Unicode the answer is only
/// named.
#[verifier::external_body]
pub(crate) fn is_alphanumeric(c: char) -> (b: bool)
    ensures
        (c as u32) < 128 ==> b == is_ascii_alnum(c),
        (c as u32) >= 128 && unicode_whitespace(c) ==> !b,
        (c as u32) >= 128 && !unicode_whitespace(c) ==> b == unicode_alphanumeric(c),
{
    c.is_alphanumeric()
}

/// `str::to_lowercase`.
///
/// Trusted: returns the Unicode lowercase mapping of the whole string. For text made only of ASCII
/// characters the documentation makes it the character-by-character ASCII lowercase; characters
/// without case (the rest of ASCII, the Devanagari block) have no lowercase mapping and come back
/// unchanged; otherwise the result is only named.
#[verifier::external_body]
pub(crate) fn to_lowercase(s: &str) -> (r: String)
    ensures
        all_ascii(s@) ==> r@ == s@.map_values(|c: char| ascii_lower_char(c)),
        !all_ascii(s@) && all_caseless(s@) ==> r@ == s@,
        !all_ascii(s@) && !all_caseless(s@) ==> r@ == unicode_lowercase(s@),
{
    s.to_lowercase()
}

/// `str::trim`: `s` without whitespace at either end.
pub fn trim(s: &str) -> (r: String)
    ensures
        r@ == trim_spec(s@),
{
    let v = chars_of(s);
    let n = v.len();
    let mut lo: usize = 0;
    assert(v@.subrange(0, n as int) =~= v@);
    while lo < n && is_whitespace(v[lo])
        invariant
            lo <= n == v@.len(),
            trim_start_spec(v@) == trim_start_spec(v@.subrange(lo as int, n as int)),
        decreases n - lo,
    {
        proof {
            lemma_trim_start_skip(v@, lo as int);
        }
        lo += 1;
    }
    let ghost rest = v@.subrange(lo as int, n as int);
    assert(v@.subrange(0, n as int) =~= v@);
    assert(trim_start_spec(rest) == rest);
    let mut hi: usize = n;
    while hi > lo && is_whitespace(v[hi - 1])
        invariant
            lo <= hi <= n == v@.len(),
            rest == v@.subrange(lo as int, n as int),
            trim_end_spec(rest) == trim_end_spec(v@.subrange(lo as int, hi as int)),
        decreases hi,
    {
        proof {
            let w = v@.subrange(lo as int, hi as int);
            lemma_trim_end_take(w, (hi - lo) as int);
            assert(w.subrange(0, (hi - lo) as int) =~= w);
            assert(w.subrange(0, (hi - lo - 1) as int) =~= v@.subrange(lo as int, hi - 1));
        }
        hi -= 1;
    }
    string_of_range(v.as_slice(), lo, hi)
}

} // verus!
