//! Building a custom date format by arranging blocks, instead of by knowing strftime.
//!
//! The format string stays the single source of truth: the blocks are parsed out of it whenever
//! they are needed and written straight back into it when they change, so a hand-edited field and
//! the blocks can never drift apart. A format the blocks cannot express is not a failure — the
//! builder simply steps aside and the text field still works.

use vstd::prelude::*;
use crate::strings::Strings;
use crate::text::{chars_of, push_char, push_str, owned};

verus! {

/// One piece of a date format: a value filled in at expansion time, or a literal character
/// between two of them.
#[derive(Debug, Clone, Copy, PartialEq, Eq, Structural)]
pub enum Block {
    Year,
    MonthName,
    MonthNumber,
    Day,
    /// The hour on this machine's clock.
    Hour,
    /// The same instant expressed in UTC. Espanso applies a time zone to the whole variable, so
    /// choosing this puts the entire date into UTC — see [`timezone_for`].
    HourUtc,
    Minute,
    Separator(char),
}

/// The value blocks, in palette order — roughly largest unit to smallest.
pub const FIELDS: [Block; 7] = [
    Block::Year,
    Block::MonthName,
    Block::MonthNumber,
    Block::Day,
    Block::Hour,
    Block::HourUtc,
    Block::Minute,
];

/// The separators the palette offers; a colon is there so a time can be written. Unlike the
/// value blocks they are meant to be used over and over, so the palette never greys them out.
pub fn separators() -> (r: [Block; 6])
    ensures
        r@ == seq![
            Block::Separator('-'),
            Block::Separator('/'),
            Block::Separator(':'),
            Block::Separator(','),
            Block::Separator(' '),
            Block::Separator('_'),
        ],
{
    let r = [
        Block::Separator('-'),
        Block::Separator('/'),
        Block::Separator(':'),
        Block::Separator(','),
        Block::Separator(' '),
        Block::Separator('_'),
    ];
    assert(r@ =~= seq![
        Block::Separator('-'),
        Block::Separator('/'),
        Block::Separator(':'),
        Block::Separator(','),
        Block::Separator(' '),
        Block::Separator('_'),
    ]);
    r
}

/// A character the palette offers as a separator.
pub open spec fn is_separator_char(c: char) -> bool {
    c == '-' || c == '/' || c == ':' || c == ',' || c == ' ' || c == '_'
}

/// The strftime a block stands for. Numbers are all zero-padded, so a builder's output never
/// changes width with the day.
pub open spec fn token_spec(b: Block) -> Seq<char> {
    match b {
        Block::Year => "%Y"@,
        Block::MonthName => "%B"@,
        Block::MonthNumber => "%m"@,
        Block::Day => "%d"@,
        Block::Hour => "%H"@,
        Block::HourUtc => "%H"@,
        Block::Minute => "%M"@,
        Block::Separator(c) => seq![c],
    }
}

/// The format a row of blocks writes: their tokens, in order.
pub open spec fn to_format_spec(bs: Seq<Block>) -> Seq<char>
    decreases bs.len(),
{
    if bs.len() == 0 {
        Seq::empty()
    } else {
        token_spec(bs[0]) + to_format_spec(bs.drop_first())
    }
}

/// The block a specifier letter reads as, if the builder knows it. `%H` is local or UTC according
/// to the expansion's time zone, which the format string itself does not record.
pub open spec fn spec_block(c: char, tz_is_utc: bool) -> Option<Block> {
    if c == 'Y' {
        Some(Block::Year)
    } else if c == 'B' {
        Some(Block::MonthName)
    } else if c == 'm' {
        Some(Block::MonthNumber)
    } else if c == 'd' {
        Some(Block::Day)
    } else if c == 'H' {
        Some(if tz_is_utc { Block::HourUtc } else { Block::Hour })
    } else if c == 'M' {
        Some(Block::Minute)
    } else {
        None
    }
}

/// The blocks a format reads as, or `None` when it holds anything the builder cannot show.
pub open spec fn parse_spec(s: Seq<char>, tz_is_utc: bool) -> Option<Seq<Block>>
    decreases s.len(),
{
    if s.len() == 0 {
        Some(Seq::empty())
    } else if s[0] == '%' {
        if s.len() < 2 {
            None
        } else {
            match spec_block(s[1], tz_is_utc) {
                Some(b) => match parse_spec(s.subrange(2, s.len() as int), tz_is_utc) {
                    Some(rest) => Some(seq![b] + rest),
                    None => None,
                },
                None => None,
            }
        }
    } else if is_separator_char(s[0]) {
        match parse_spec(s.drop_first(), tz_is_utc) {
            Some(rest) => Some(seq![Block::Separator(s[0])] + rest),
            None => None,
        }
    } else {
        None
    }
}

/// Whether a row asks for the UTC clock.
pub open spec fn has_utc_hour(bs: Seq<Block>) -> bool {
    exists|i: int| 0 <= i < bs.len() && bs[i] == Block::HourUtc
}

/// The label a block is shown under.
pub open spec fn label_spec(b: Block, t: Strings) -> Seq<char> {
    match b {
        Block::Year => t.block_year@,
        Block::MonthName => t.block_month_name@,
        Block::MonthNumber => t.block_month_number@,
        Block::Day => t.block_day@,
        Block::Hour => t.block_hour@,
        Block::HourUtc => t.block_hour_utc@,
        Block::Minute => t.block_minute@,
        Block::Separator(c) => if c == ' ' { t.block_space@ } else { seq![c] },
    }
}

impl Block {
    /// The strftime this block stands for.
    pub fn token(self) -> (r: String)
        ensures
            r@ == token_spec(self),
    {
        match self {
            Block::Year => owned("%Y"),
            Block::MonthName => owned("%B"),
            Block::MonthNumber => owned("%m"),
            Block::Day => owned("%d"),
            Block::Hour | Block::HourUtc => owned("%H"),
            Block::Minute => owned("%M"),
            Block::Separator(c) => {
                let mut s = String::new();
                push_char(&mut s, c);
                assert(s@ =~= seq![c]);
                s
            },
        }
    }

    /// The name shown on the block. A space has nothing to show, so it is named instead.
    pub fn label(self, t: &Strings) -> (r: String)
        ensures
            r@ == label_spec(self, *t),
    {
        match self {
            Block::Year => owned(t.block_year),
            Block::MonthName => owned(t.block_month_name),
            Block::MonthNumber => owned(t.block_month_number),
            Block::Day => owned(t.block_day),
            Block::Hour => owned(t.block_hour),
            Block::HourUtc => owned(t.block_hour_utc),
            Block::Minute => owned(t.block_minute),
            Block::Separator(c) => {
                if c == ' ' {
                    owned(t.block_space)
                } else {
                    let mut s = String::new();
                    push_char(&mut s, c);
                    assert(s@ =~= seq![c]);
                    s
                }
            },
        }
    }

    /// Whether this is a literal separator rather than a value.
    pub fn is_separator(self) -> (r: bool)
        ensures
            r == (self matches Block::Separator(_)),
    {
        matches!(self, Block::Separator(_))
    }
}

/// Turns a row of blocks back into the strftime string that gets saved.
pub fn to_format(blocks: &[Block]) -> (r: String)
    ensures
        r@ == to_format_spec(blocks@),
{
    let mut out = String::new();
    let mut i: usize = 0;
    let n = blocks.len();
    assert(blocks@.subrange(0, n as int) =~= blocks@);
    while i < n
        invariant
            i <= n == blocks@.len(),
            out@ + to_format_spec(blocks@.subrange(i as int, n as int)) == to_format_spec(blocks@),
        decreases n - i,
    {
        let ghost out0 = out@;
        let tok = blocks[i].token();
        push_str(&mut out, tok.as_str());
        assert(blocks@.subrange(i as int, n as int).drop_first() =~= blocks@.subrange(i + 1, n as int));
        assert(out@ + to_format_spec(blocks@.subrange(i + 1, n as int))
            =~= out0 + to_format_spec(blocks@.subrange(i as int, n as int)));
        i += 1;
    }
    assert(out@ + to_format_spec(blocks@.subrange(n as int, n as int)) =~= out@);
    out
}

fn block_for(c: char, tz_is_utc: bool) -> (r: Option<Block>)
    ensures
        r == spec_block(c, tz_is_utc),
{
    if c == 'Y' {
        Some(Block::Year)
    } else if c == 'B' {
        Some(Block::MonthName)
    } else if c == 'm' {
        Some(Block::MonthNumber)
    } else if c == 'd' {
        Some(Block::Day)
    } else if c == 'H' {
        Some(if tz_is_utc { Block::HourUtc } else { Block::Hour })
    } else if c == 'M' {
        Some(Block::Minute)
    } else {
        None
    }
}

/// Reads a format string as blocks, or returns `None` if it contains anything the builder cannot
/// represent — in which case the caller shows the text field alone rather than a builder that
/// would quietly discard part of the format.
pub fn parse(format: &str, tz_is_utc: bool) -> (r: Option<Vec<Block>>)
    ensures
        match parse_spec(format@, tz_is_utc) {
            Some(bs) => r is Some && r->0@ == bs,
            None => r is None,
        },
{
    let v = chars_of(format);
    let n = v.len();
    let mut blocks: Vec<Block> = Vec::new();
    let mut i: usize = 0;
    assert(v@.subrange(0, n as int) =~= v@);
    while i < n
        invariant
            i <= n == v@.len(),
            v@ == format@,
            parse_spec(v@, tz_is_utc) == (match parse_spec(v@.subrange(i as int, n as int), tz_is_utc) {
                Some(rest) => Some(blocks@ + rest),
                None => None,
            }),
        decreases n - i,
    {
        let ghost s = v@.subrange(i as int, n as int);
        let ghost b0 = blocks@;
        let c = v[i];
        if c == '%' {
            if i + 1 >= n {
                return None;
            }
            match block_for(v[i + 1], tz_is_utc) {
                Some(b) => {
                    blocks.push(b);
                    assert(s.subrange(2, s.len() as int) =~= v@.subrange(i + 2, n as int));
                    proof {
                        match parse_spec(v@.subrange(i + 2, n as int), tz_is_utc) {
                            Some(rest) => {
                                assert(b0 + (seq![b] + rest) =~= blocks@ + rest);
                            },
                            None => {},
                        }
                    }
                    i += 2;
                },
                None => {
                    return None;
                },
            }
        } else if c == '-' || c == '/' || c == ':' || c == ',' || c == ' ' || c == '_' {
            blocks.push(Block::Separator(c));
            assert(s.drop_first() =~= v@.subrange(i + 1, n as int));
            proof {
                match parse_spec(v@.subrange(i + 1, n as int), tz_is_utc) {
                    Some(rest) => {
                        assert(b0 + (seq![Block::Separator(c)] + rest) =~= blocks@ + rest);
                    },
                    None => {},
                }
            }
            i += 1;
        } else {
            return None;
        }
    }
    assert(v@.subrange(n as int, n as int) =~= Seq::<char>::empty());
    assert(blocks@ + Seq::<Block>::empty() =~= blocks@);
    Some(blocks)
}

/// The time zone the assembled expansion should carry: `UTC` as soon as one block asks for the
/// UTC hour, since espanso applies one time zone to the whole variable.
pub fn timezone_for(blocks: &[Block]) -> (r: Option<&'static str>)
    ensures
        r is Some <==> has_utc_hour(blocks@),
        r is Some ==> r->0@ == "UTC"@,
{
    let mut i: usize = 0;
    while i < blocks.len()
        invariant
            i <= blocks@.len(),
            forall|k: int| 0 <= k < i ==> blocks@[k] != Block::HourUtc,
        decreases blocks.len() - i,
    {
        if blocks[i] == Block::HourUtc {
            return Some("UTC");
        }
        i += 1;
    }
    None
}

/// The row after dropping a new block into slot `at` (clamped to the end of the row).
pub open spec fn insert_spec(bs: Seq<Block>, at: int, b: Block) -> Seq<Block> {
    let at = if at > bs.len() { bs.len() as int } else { at };
    bs.insert(at, b)
}

/// Adds `block` at slot `at` of the row; a slot past the end means the end.
pub fn insert_block(blocks: &[Block], at: usize, block: Block) -> (r: Vec<Block>)
    ensures
        r@ == insert_spec(blocks@, at as int, block),
{
    let mut with: Vec<Block> = vstd::slice::slice_to_vec(blocks);
    let len = with.len();
    with.insert(if at < len { at } else { len }, block);
    with
}

/// The row after the block at `from` is picked up and dropped at slot `at`, where `at` counts the
/// slots of the row as it was before the block was lifted out of it.
pub open spec fn move_spec(bs: Seq<Block>, from: int, at: int) -> Seq<Block> {
    let lifted = bs.remove(from);
    let to = if at > from { at - 1 } else { at };
    let to = if to > lifted.len() { lifted.len() as int } else { to };
    lifted.insert(to, bs[from])
}

/// Reorders a row: the block at `from` goes to slot `at`. Lifting the block out shifts everything
/// after it down by one, so a target to its right comes back by one too — otherwise every move to
/// the right would land one slot late.
pub fn move_block(blocks: &[Block], from: usize, at: usize) -> (r: Vec<Block>)
    requires
        from < blocks@.len(),
    ensures
        r@ == move_spec(blocks@, from as int, at as int),
{
    let mut reordered: Vec<Block> = vstd::slice::slice_to_vec(blocks);
    let block = reordered.remove(from);
    let to = if at > from { at - 1 } else { at };
    let len = reordered.len();
    reordered.insert(if to < len { to } else { len }, block);
    reordered
}

/// The row after its block at `index` is taken out.
pub fn remove_block(blocks: &[Block], index: usize) -> (r: Vec<Block>)
    requires
        index < blocks@.len(),
    ensures
        r@ == blocks@.remove(index as int),
{
    let mut without: Vec<Block> = vstd::slice::slice_to_vec(blocks);
    without.remove(index);
    without
}

// ---------------------------------------------------------------------------------------------
// Laws
// ---------------------------------------------------------------------------------------------

/// A block as it reads back under a given time zone: the hour is local or UTC by the zone.
pub open spec fn in_zone(b: Block, tz_is_utc: bool) -> Block {
    match b {
        Block::Hour | Block::HourUtc => if tz_is_utc { Block::HourUtc } else { Block::Hour },
        _ => b,
    }
}

/// A block the palette offers: any value block, and the offered separators.
pub open spec fn is_offered(b: Block) -> bool {
    match b {
        Block::Separator(c) => is_separator_char(c),
        _ => true,
    }
}

/// Every separator in the row is one the palette offers.
pub open spec fn separators_offered(bs: Seq<Block>) -> bool {
    forall|i: int| 0 <= i < bs.len() ==> #[trigger] is_offered(bs[i])
}

/// A format the builder can read writes back to exactly the same text: the format string stays
/// the single source of truth.
pub proof fn law_parse_then_write_is_identity(s: Seq<char>, tz_is_utc: bool)
    requires
        parse_spec(s, tz_is_utc) is Some,
    ensures
        to_format_spec(parse_spec(s, tz_is_utc)->0) == s,
    decreases s.len(),
{
    reveal_strlit("%Y");
    reveal_strlit("%B");
    reveal_strlit("%m");
    reveal_strlit("%d");
    reveal_strlit("%H");
    reveal_strlit("%M");
    if s.len() > 0 {
        if s[0] == '%' {
            let rest = s.subrange(2, s.len() as int);
            law_parse_then_write_is_identity(rest, tz_is_utc);
            let b = spec_block(s[1], tz_is_utc)->0;
            let bs = seq![b] + parse_spec(rest, tz_is_utc)->0;
            assert(bs.drop_first() =~= parse_spec(rest, tz_is_utc)->0);
            assert(token_spec(b) =~= seq!['%', s[1]]);
            assert(s =~= seq!['%', s[1]] + rest);
        } else {
            let rest = s.drop_first();
            law_parse_then_write_is_identity(rest, tz_is_utc);
            let bs = seq![Block::Separator(s[0])] + parse_spec(rest, tz_is_utc)->0;
            assert(bs.drop_first() =~= parse_spec(rest, tz_is_utc)->0);
            assert(s =~= seq![s[0]] + rest);
        }
    }
}

/// A row written out reads back as the same row, with its hours taken as local or UTC by the
/// expansion's time zone — provided every separator in it is one the palette offers.
pub proof fn law_write_then_parse_round_trips(bs: Seq<Block>, tz_is_utc: bool)
    requires
        separators_offered(bs),
    ensures
        parse_spec(to_format_spec(bs), tz_is_utc) == Some(bs.map_values(|b: Block| in_zone(b, tz_is_utc))),
    decreases bs.len(),
{
    reveal_strlit("%Y");
    reveal_strlit("%B");
    reveal_strlit("%m");
    reveal_strlit("%d");
    reveal_strlit("%H");
    reveal_strlit("%M");
    if bs.len() == 0 {
        assert(bs.map_values(|b: Block| in_zone(b, tz_is_utc)) =~= Seq::<Block>::empty());
    } else {
        let tail = bs.drop_first();
        assert(separators_offered(tail)) by {
            assert forall|i: int| 0 <= i < tail.len() implies #[trigger] is_offered(tail[i]) by {
                assert(tail[i] == bs[i + 1]);
                assert(is_offered(bs[i + 1]));
            }
        }
        law_write_then_parse_round_trips(tail, tz_is_utc);
        let s = to_format_spec(bs);
        let b = bs[0];
        assert(is_offered(bs[0]));
        assert(bs.map_values(|b: Block| in_zone(b, tz_is_utc))
            =~= seq![in_zone(b, tz_is_utc)] + tail.map_values(|b: Block| in_zone(b, tz_is_utc)));
        match b {
            Block::Separator(c) => {
                assert(s.drop_first() =~= to_format_spec(tail));
            },
            _ => {
                assert(token_spec(b).len() == 2);
                assert(s.subrange(2, s.len() as int) =~= to_format_spec(tail));
            },
        }
    }
}


/// What a block shows in a preview: the year in full, the month's name in the chosen language,
/// month, day, hour and minute as two digits, and a separator as itself.
pub open spec fn block_shows(b: Block, now: crate::datefmt::Now, lang: crate::i18n::Lang) -> Seq<char> {
    match b {
        Block::Year => crate::text::decimal_spec(now.year as nat),
        Block::MonthName => crate::datefmt::months_spec(lang, false)[crate::datefmt::month_index_spec(now)],
        Block::MonthNumber => crate::datefmt::pad2_spec(now.month as nat, crate::datefmt::Pad::Zero),
        Block::Day => crate::datefmt::pad2_spec(now.day as nat, crate::datefmt::Pad::Zero),
        Block::Hour => crate::datefmt::pad2_spec(now.hour as nat, crate::datefmt::Pad::Zero),
        Block::HourUtc => crate::datefmt::pad2_spec(now.hour as nat, crate::datefmt::Pad::Zero),
        Block::Minute => crate::datefmt::pad2_spec(now.minute as nat, crate::datefmt::Pad::Zero),
        Block::Separator(c) => seq![c],
    }
}

/// Each block writes the strftime code of its own unit: formatting a block's token at any moment
/// gives exactly what the block stands for — the four-digit year for the year block, the month's
/// full name for the month-name block, the zero-padded number for the others, and the separator
/// character itself.
pub proof fn law_block_token_shows_its_unit(b: Block, now: crate::datefmt::Now, lang: crate::i18n::Lang)
    ensures
        crate::datefmt::format_spec(token_spec(b), now, lang) == block_shows(b, now, lang),
{
    reveal_strlit("%Y");
    reveal_strlit("%B");
    reveal_strlit("%m");
    reveal_strlit("%d");
    reveal_strlit("%H");
    reveal_strlit("%M");
    let e = Seq::<char>::empty();
    assert(crate::datefmt::format_spec(e, now, lang) =~= e);
    match b {
        Block::Separator(c) => {
            let t = seq![c];
            assert(t.drop_first() =~= e);
            if c == '%' {
                assert(crate::datefmt::read_pad(e) == (crate::datefmt::Pad::Zero, None::<char>, e));
                assert(crate::datefmt::flag_text(None) =~= e);
                assert(crate::datefmt::format_spec(t, now, lang) =~= seq!['%']);
            } else {
                assert(crate::datefmt::format_spec(t, now, lang) =~= seq![c] + e);
            }
        },
        _ => {
            let t = token_spec(b);
            let letter = t[1];
            assert(t.len() == 2 && t[0] == '%');
            assert(t.drop_first() =~= seq![letter]);
            assert(seq![letter].drop_first() =~= e);
            assert(crate::datefmt::read_pad(seq![letter]) == (crate::datefmt::Pad::Zero, None::<char>, seq![letter]));
            assert(crate::datefmt::format_spec(t, now, lang)
                =~= crate::datefmt::piece_spec(letter, crate::datefmt::Pad::Zero, None, now, lang) + e);
        },
    }
}
} // verus!
