//! The LRC timing model: parsing of timed-lyrics lines and the flattened
//! list of timing marks that the cursor walks.
//!
//! A lyrics file is a list of lines.  A line is empty, a tag line such as
//! `[offset:250]`, or a timed-text line: one or more `[mm:ss.cc]` marks,
//! each followed by the span of text it activates.  Times are kept in
//! microseconds; spans count characters of the line's joined text.

use vstd::prelude::*;
use vstd::string::*;

verus! {

/// One timing mark inside a single text line: a time and the half-open
/// character span `[line_char_from_index, line_char_to_index)` it activates.
#[derive(Debug, Clone, Copy, PartialEq, Eq, Structural)]
pub struct TimedLocation {
    /// Time offset in microseconds.
    pub time: u64,
    /// From this character in the line.
    pub line_char_from_index: i32,
    /// To this character in the line.
    pub line_char_to_index: i32,
}

/// One text line together with its timing marks.
#[derive(Debug)]
pub struct TimedText {
    pub text: String,
    pub timings: Vec<TimedLocation>,
}

/// Mathematical model of a [`TimedText`].
pub struct TimedTextModel {
    pub text: Seq<char>,
    pub timings: Seq<TimedLocation>,
}

impl View for TimedText {
    type V = TimedTextModel;

    open spec fn view(&self) -> TimedTextModel {
        TimedTextModel { text: self.text@, timings: self.timings@ }
    }
}

/// A tag read from a bracketed part of a line.
#[derive(Debug, PartialEq, Eq, Structural, Clone, Copy)]
pub enum Tag {
    /// A `mm:ss.cc` time, in microseconds.
    Time(u64),
    /// An `offset:` tag, in milliseconds.
    Offset(i64),
    Unknown,
}

/// What one line of an LRC file parses to.
#[derive(Debug)]
pub enum LrcLine {
    Empty,
    TimedText(TimedText),
    Tag(Tag),
}

/// Mathematical model of an [`LrcLine`].
pub enum LrcLineModel {
    Empty,
    TimedText(TimedTextModel),
    Tag(Tag),
}

impl View for LrcLine {
    type V = LrcLineModel;

    open spec fn view(&self) -> LrcLineModel {
        match self {
            LrcLine::Empty => LrcLineModel::Empty,
            LrcLine::TimedText(t) => LrcLineModel::TimedText(t@),
            LrcLine::Tag(g) => LrcLineModel::Tag(*g),
        }
    }
}

/// A parsed lyrics file: its timed text lines, in file order.
#[derive(Debug)]
pub struct LrcFile {
    pub timed_texts_lines: Vec<TimedText>,
}

impl DeepView for TimedText {
    type V = TimedTextModel;

    open spec fn deep_view(&self) -> TimedTextModel {
        self@
    }
}

impl View for LrcFile {
    type V = Seq<TimedTextModel>;

    open spec fn view(&self) -> Seq<TimedTextModel> {
        self.timed_texts_lines.deep_view()
    }
}

/// Index of the first occurrence of `c` in `s` at or after `from`;
/// `s.len()` if there is none.
pub open spec fn find_from(s: Seq<char>, from: int, c: char) -> int
    decreases s.len() - from,
{
    if from < 0 || from >= s.len() {
        s.len() as int
    } else if s[from] == c {
        from
    } else {
        find_from(s, from + 1, c)
    }
}

pub proof fn lemma_find_from_bounds(s: Seq<char>, from: int, c: char)
    requires
        0 <= from <= s.len(),
    ensures
        from <= find_from(s, from, c) <= s.len(),
        find_from(s, from, c) < s.len() ==> s[find_from(s, from, c)] == c,
        forall|j: int| from <= j < find_from(s, from, c) ==> s[j] != c,
    decreases s.len() - from,
{
    if from < s.len() && s[from] != c {
        lemma_find_from_bounds(s, from + 1, c);
    }
}

/// First occurrence of `c` in `s` at or after `from`, as executable code.
fn find_char_from(s: &str, from: usize, len: usize, c: char) -> (r: usize)
    requires
        from <= len,
        len == s@.len(),
    ensures
        r == find_from(s@, from as int, c),
        from <= r <= len,
{
    let mut i: usize = from;
    while i < len
        invariant
            from <= i <= len,
            len == s@.len(),
            find_from(s@, from as int, c) == find_from(s@, i as int, c),
        decreases len - i,
    {
        if s.get_char(i) == c {
            return i;
        }
        i += 1;
    }
    i
}

/// Is `c` an ASCII decimal digit?
pub open spec fn is_digit(c: char) -> bool {
    48 <= c as u32 <= 57
}

/// Value of the digit `c`; meaningful when `is_digit(c)`.
pub open spec fn digit_val(c: char) -> int {
    c as u32 - 48
}

/// The time a `mm:ss.cc` string denotes, in microseconds, or `None` if the
/// first eight characters are not of that shape (`:` may also stand in for
/// the `.`); anything after the eighth character is ignored.
pub open spec fn spec_parse_time(s: Seq<char>) -> Option<u64> {
    if s.len() >= 8 && is_digit(s[0]) && is_digit(s[1]) && s[2] == ':' && is_digit(s[3]) && is_digit(
        s[4],
    ) && (s[5] == '.' || s[5] == ':') && is_digit(s[6]) && is_digit(s[7]) {
        let minutes = digit_val(s[0]) * 10 + digit_val(s[1]);
        let seconds = digit_val(s[3]) * 10 + digit_val(s[4]);
        let centis = digit_val(s[6]) * 10 + digit_val(s[7]);
        Some(((((minutes * 60 + seconds) * 100) + centis) * 10000) as u64)
    } else {
        None
    }
}

/// Parses the leading `mm:ss.cc` time of `time_str` into microseconds.
pub fn duration_from_time_string(time_str: &str) -> (r: Result<u64, String>)
    ensures
        r matches Ok(t) ==> spec_parse_time(time_str@) == Some(t),
        r is Err <==> spec_parse_time(time_str@) is None,
{
    let len = time_str.unicode_len();
    if len < 8 {
        return Err(String::from_str("Bad time format: too short"));
    }
    let c0 = time_str.get_char(0);
    let c1 = time_str.get_char(1);
    let c2 = time_str.get_char(2);
    let c3 = time_str.get_char(3);
    let c4 = time_str.get_char(4);
    let c5 = time_str.get_char(5);
    let c6 = time_str.get_char(6);
    let c7 = time_str.get_char(7);
    let d0 = match char_digit(c0) {
        Some(d) => d,
        None => {
            return Err(String::from_str("Bad minutes format"));
        },
    };
    let d1 = match char_digit(c1) {
        Some(d) => d,
        None => {
            return Err(String::from_str("Bad minutes format"));
        },
    };
    if c2 != ':' {
        return Err(String::from_str("Bad seconds divider"));
    }
    let d3 = match char_digit(c3) {
        Some(d) => d,
        None => {
            return Err(String::from_str("Bad seconds format"));
        },
    };
    let d4 = match char_digit(c4) {
        Some(d) => d,
        None => {
            return Err(String::from_str("Bad seconds format"));
        },
    };
    if c5 != '.' && c5 != ':' {
        return Err(String::from_str("Bad milliseconds divider"));
    }
    let d6 = match char_digit(c6) {
        Some(d) => d,
        None => {
            return Err(String::from_str("Bad centiseconds format"));
        },
    };
    let d7 = match char_digit(c7) {
        Some(d) => d,
        None => {
            return Err(String::from_str("Bad centiseconds format"));
        },
    };
    let minutes: u64 = (d0 as u64) * 10 + (d1 as u64);
    let seconds: u64 = (d3 as u64) * 10 + (d4 as u64);
    let centis: u64 = (d6 as u64) * 10 + (d7 as u64);
    Ok((((minutes * 60 + seconds) * 100) + centis) * 10000)
}

/// The value of an ASCII digit, or `None` for any other character.
fn char_digit(c: char) -> (r: Option<u8>)
    ensures
        r is Some <==> is_digit(c),
        r matches Some(d) ==> d == digit_val(c),
{
    let u = c as u32;
    if 48 <= u && u <= 57 {
        Some((u - 48) as u8)
    } else {
        None
    }
}

pub open spec fn all_digits(s: Seq<char>) -> bool {
    forall|i: int| 0 <= i < s.len() ==> is_digit(#[trigger] s[i])
}

/// The number the digit string `s` denotes; meaningful when `all_digits(s)`.
pub open spec fn digits_val(s: Seq<char>) -> int
    decreases s.len(),
{
    if s.len() == 0 {
        0
    } else {
        digits_val(s.drop_last()) * 10 + digit_val(s.last())
    }
}

proof fn lemma_digits_val_nonneg(s: Seq<char>)
    requires
        all_digits(s),
    ensures
        digits_val(s) >= 0,
    decreases s.len(),
{
    if s.len() > 0 {
        assert(all_digits(s.drop_last()));
        lemma_digits_val_nonneg(s.drop_last());
    }
}

/// A longer digit string never denotes a smaller number.
proof fn lemma_digits_val_prefix(s: Seq<char>, i: int)
    requires
        all_digits(s),
        0 <= i <= s.len(),
    ensures
        digits_val(s.subrange(0, i)) <= digits_val(s),
    decreases s.len() - i,
{
    if i < s.len() {
        let a = s.subrange(0, i);
        let b = s.subrange(0, i + 1);
        assert(b.drop_last() =~= a);
        assert(all_digits(a));
        lemma_digits_val_nonneg(a);
        lemma_digits_val_prefix(s, i + 1);
    } else {
        assert(s.subrange(0, i) =~= s);
    }
}

/// The `i64` a string denotes: an optional sign, then one or more decimal
/// digits; `None` when malformed or out of range.
pub open spec fn spec_parse_i64(s: Seq<char>) -> Option<i64> {
    let neg = s.len() > 0 && s[0] == '-';
    let ds = if s.len() > 0 && (s[0] == '-' || s[0] == '+') {
        s.drop_first()
    } else {
        s
    };
    if ds.len() == 0 || !all_digits(ds) {
        None
    } else {
        let v = if neg {
            -digits_val(ds)
        } else {
            digits_val(ds)
        };
        if i64::MIN <= v <= i64::MAX {
            Some(v as i64)
        } else {
            None
        }
    }
}

fn parse_i64(s: &str) -> (r: Option<i64>)
    ensures
        r == spec_parse_i64(s@),
{
    let len = s.unicode_len();
    if len == 0 {
        return None;
    }
    let first = s.get_char(0);
    let neg = first == '-';
    let start: usize = if first == '-' || first == '+' {
        1
    } else {
        0
    };
    if len == start {
        return None;
    }
    let ghost ds = if s@[0] == '-' || s@[0] == '+' {
        s@.drop_first()
    } else {
        s@
    };
    proof {
        assert(ds =~= s@.subrange(start as int, len as int));
    }
    let limit: u64 = if neg {
        9223372036854775808
    } else {
        9223372036854775807
    };
    let mut mag: u64 = 0;
    let mut i: usize = start;
    while i < len
        invariant
            start <= i <= len,
            len == s@.len(),
            s@.len() > 0,
            start == 0 || start == 1,
            neg == (s@[0] == '-'),
            (start == 1) <==> (s@[0] == '-' || s@[0] == '+'),
            ds == (if s@[0] == '-' || s@[0] == '+' {
                s@.drop_first()
            } else {
                s@
            }),
            limit == (if neg {
                9223372036854775808u64
            } else {
                9223372036854775807u64
            }),
            ds == s@.subrange(start as int, len as int),
            all_digits(s@.subrange(start as int, i as int)),
            mag == digits_val(s@.subrange(start as int, i as int)),
            mag <= limit,
        decreases len - i,
    {
        let c = s.get_char(i);
        let ghost pre = s@.subrange(start as int, i as int);
        let ghost post = s@.subrange(start as int, i + 1);
        proof {
            assert(post.drop_last() =~= pre);
        }
        match char_digit(c) {
            None => {
                proof {
                    assert(ds[i - start] == s@[i as int]);
                    assert(!is_digit(ds[i - start]));
                    assert(!all_digits(ds));
                }
                return None;
            },
            Some(d) => {
                if mag > limit / 10 || (mag == limit / 10 && (d as u64) > limit % 10) {
                    proof {
                        assert(post.last() == c);
                        assert(digits_val(post) == mag * 10 + digit_val(c));
                        assert(mag * 10 + digit_val(c) > limit);
                        if all_digits(ds) {
                            lemma_digits_val_prefix(ds, i + 1 - start);
                            assert(ds.subrange(0, i + 1 - start) =~= post);
                            assert(digits_val(ds) >= digits_val(post));
                            assert(digits_val(ds) > limit);
                        }
                    }
                    return None;
                }
                mag = mag * 10 + d as u64;
            },
        }
        i += 1;
    }
    proof {
        assert(s@.subrange(start as int, len as int) =~= ds);
        lemma_digits_val_nonneg(ds);
    }
    if neg {
        if mag == 9223372036854775808 {
            Some(i64::MIN)
        } else {
            Some(-(mag as i64))
        }
    } else {
        Some(mag as i64)
    }
}

pub open spec fn offset_key() -> Seq<char> {
    seq!['o', 'f', 'f', 's', 'e', 't']
}

/// What a bracketed tag means: a time when it starts with a digit, an
/// `offset:` value in milliseconds, or an unknown tag; `Err` for an empty
/// tag, a bad time, a bad offset value, or `offset` with no value.
pub open spec fn spec_parse_tag(s: Seq<char>) -> Result<Tag, ()> {
    if s.len() == 0 {
        Err(())
    } else if is_digit(s[0]) {
        match spec_parse_time(s) {
            Some(t) => Ok(Tag::Time(t)),
            None => Err(()),
        }
    } else {
        let colon = find_from(s, 0, ':');
        if s.subrange(0, colon) != offset_key() {
            Ok(Tag::Unknown)
        } else if colon == s.len() {
            Err(())
        } else {
            let vend = find_from(s, colon + 1, ':');
            match spec_parse_i64(s.subrange(colon + 1, vend)) {
                Some(v) => Ok(Tag::Offset(v)),
                None => Err(()),
            }
        }
    }
}

fn str_eq(a: &str, b: &str) -> (r: bool)
    ensures
        r == (a@ == b@),
{
    String::from_str(a) == String::from_str(b)
}

/// Parses the content of one bracketed tag.
pub fn parse_tag(tag_content: &str) -> (r: Result<Tag, String>)
    ensures
        r matches Ok(t) ==> spec_parse_tag(tag_content@) == Ok::<Tag, ()>(t),
        r is Err <==> spec_parse_tag(tag_content@) is Err,
{
    let len = tag_content.unicode_len();
    if len == 0 {
        return Err(String::from_str("Tag content must not be empty"));
    }
    let c0 = tag_content.get_char(0);
    if char_digit(c0).is_some() {
        match duration_from_time_string(tag_content) {
            Ok(t) => Ok(Tag::Time(t)),
            Err(e) => Err(e),
        }
    } else {
        proof {
            lemma_find_from_bounds(tag_content@, 0, ':');
        }
        let colon = find_char_from(tag_content, 0, len, ':');
        let first = tag_content.substring_char(0, colon);
        proof {
            reveal_strlit("offset");
            assert("offset"@ =~= offset_key());
        }
        if !str_eq(first, "offset") {
            return Ok(Tag::Unknown);
        }
        if colon == len {
            return Err(String::from_str("Wrong offset tag format (missing ':')"));
        }
        proof {
            lemma_find_from_bounds(tag_content@, colon + 1, ':');
        }
        let vend = find_char_from(tag_content, colon + 1, len, ':');
        let val_str = tag_content.substring_char(colon + 1, vend);
        match parse_i64(val_str) {
            Some(v) => Ok(Tag::Offset(v)),
            None => Err(String::from_str("Bad offset format")),
        }
    }
}

/// One step of timed-text line parsing, starting right after a `[`.
///
/// The part reaches to the next `[` or the end of the line.  The tag is the
/// part up to its first `]`; the text activated by the tag reaches from
/// there to the following `]` or the end of the part, and `cur` is the
/// character offset of that text within the line's joined text.  A time tag adds a
/// timing mark and continues with the next part; any other well-formed tag
/// ends the line as a tag line.
pub open spec fn spec_parse_parts(
    s: Seq<char>,
    from: int,
    cur: int,
    text: Seq<char>,
    tims: Seq<TimedLocation>,
) -> Result<LrcLineModel, ()>
    decreases s.len() - from,
        via spec_parse_parts_decreases
{
    let seg_end = find_from(s, from, '[');
    let tag_close = find_from(s, from, ']');
    let tag_content = if tag_close < seg_end {
        s.subrange(from, tag_close)
    } else {
        s.subrange(from, seg_end)
    };
    let txt = if tag_close < seg_end {
        let te = find_from(s, tag_close + 1, ']');
        s.subrange(
            tag_close + 1,
            if te < seg_end {
                te
            } else {
                seg_end
            },
        )
    } else {
        Seq::<char>::empty()
    };
    match spec_parse_tag(tag_content) {
        Err(_) => Err(()),
        Ok(Tag::Time(t)) => {
            let b = txt.len() as int;
            if cur + b > i32::MAX as int {
                Err(())
            } else {
                let tims2 = tims.push(
                    TimedLocation {
                        time: t,
                        line_char_from_index: cur as i32,
                        line_char_to_index: (cur + b) as i32,
                    },
                );
                if seg_end >= s.len() {
                    Ok(LrcLineModel::TimedText(TimedTextModel { text: text + txt, timings: tims2 }))
                } else {
                    spec_parse_parts(s, seg_end + 1, cur + b, text + txt, tims2)
                }
            }
        },
        Ok(g) => Ok(LrcLineModel::Tag(g)),
    }
}

#[via_fn]
proof fn spec_parse_parts_decreases(
    s: Seq<char>,
    from: int,
    cur: int,
    text: Seq<char>,
    tims: Seq<TimedLocation>,
) {
    if 0 <= from <= s.len() {
        lemma_find_from_bounds(s, from, '[');
    }
}

/// What one line of an LRC file means: an empty line is empty, a line that
/// opens a bracket is parsed part by part, anything else is malformed.
pub open spec fn spec_parse_line(s: Seq<char>) -> Result<LrcLineModel, ()> {
    if s.len() == 0 {
        Ok(LrcLineModel::Empty)
    } else if s[0] == '[' {
        spec_parse_parts(s, 1, 0, Seq::empty(), Seq::empty())
    } else {
        Err(())
    }
}

/// Parses one line of an LRC file.
pub fn parse_lrc_line(line: String) -> (r: Result<LrcLine, String>)
    ensures
        r matches Ok(l) ==> spec_parse_line(line@) == Ok::<LrcLineModel, ()>(l@),
        r is Err <==> spec_parse_line(line@) is Err,
{
    let s = line.as_str();
    let len = s.unicode_len();
    if len == 0 {
        return Ok(LrcLine::Empty);
    }
    if s.get_char(0) != '[' {
        return Err(String::from_str("Invalid lrc file format"));
    }
    let mut from: usize = 1;
    let mut cur: usize = 0;
    let mut text = String::new();
    let mut tims: Vec<TimedLocation> = Vec::new();
    proof {
        assert(text@ =~= Seq::<char>::empty());
        assert(tims@ =~= Seq::<TimedLocation>::empty());
    }
    loop
        invariant
            1 <= from <= len,
            len == s@.len(),
            s@ == line@,
            cur <= i32::MAX,
            spec_parse_line(line@) == spec_parse_parts(s@, from as int, cur as int, text@, tims@),
        decreases len - from,
    {
        let seg_end = find_char_from(s, from, len, '[');
        let tag_close = find_char_from(s, from, len, ']');
        let tag_str: &str;
        let txt_lo: usize;
        let txt_hi: usize;
        if tag_close < seg_end {
            let te = find_char_from(s, tag_close + 1, len, ']');
            tag_str = s.substring_char(from, tag_close);
            txt_lo = tag_close + 1;
            txt_hi = if te < seg_end {
                te
            } else {
                seg_end
            };
        } else {
            tag_str = s.substring_char(from, seg_end);
            txt_lo = 0;
            txt_hi = 0;
        }
        let txt_str = s.substring_char(txt_lo, txt_hi);
        proof {
            if tag_close >= seg_end {
                assert(txt_str@ =~= Seq::<char>::empty());
            }
        }
        match parse_tag(tag_str) {
            Err(e) => {
                return Err(e);
            },
            Ok(Tag::Time(t)) => {
                let b = txt_str.unicode_len();
                if b > (i32::MAX as usize) - cur {
                    return Err(String::from_str("Line too long"));
                }
                let ghost text0 = text@;
                let ghost tims0 = tims@;
                let loc = TimedLocation {
                    time: t,
                    line_char_from_index: cur as i32,
                    line_char_to_index: (cur + b) as i32,
                };
                tims.push(loc);
                text.append(txt_str);
                proof {
                    assert(tims@ == tims0.push(loc));
                    assert(text@ == text0 + txt_str@);
                    assert(spec_parse_parts(s@, from as int, cur as int, text0, tims0) == (if seg_end
                        >= len {
                        Ok::<LrcLineModel, ()>(
                            LrcLineModel::TimedText(
                                TimedTextModel { text: text@, timings: tims@ },
                            ),
                        )
                    } else {
                        spec_parse_parts(s@, seg_end + 1, cur + b, text@, tims@)
                    }));
                }
                if seg_end >= len {
                    return Ok(LrcLine::TimedText(TimedText { text, timings: tims }));
                }
                cur = cur + b;
                from = seg_end + 1;
            },
            Ok(g) => {
                return Ok(LrcLine::Tag(g));
            },
        }
    }
}

/// Shifts a timing mark by `offset_ms` milliseconds, as the `offset:` tag
/// prescribes, at millisecond precision; `None` when the shifted time is
/// negative or no longer fits a microsecond count.
pub open spec fn spec_offset_timing(t: TimedLocation, offset_ms: i64) -> Option<TimedLocation> {
    let new_ms = t.time / 1000 + offset_ms;
    if new_ms < 0 || new_ms * 1000 > u64::MAX {
        None
    } else {
        Some(TimedLocation { time: (new_ms * 1000) as u64, ..t })
    }
}

/// Shifts every mark of a line, or `None` if any shift fails.
pub open spec fn spec_offset_timings(ts: Seq<TimedLocation>, offset_ms: i64) -> Option<
    Seq<TimedLocation>,
>
    decreases ts.len(),
{
    if ts.len() == 0 {
        Some(Seq::<TimedLocation>::empty())
    } else {
        match (spec_offset_timings(ts.drop_last(), offset_ms), spec_offset_timing(
            ts.last(),
            offset_ms,
        )) {
            (Some(init), Some(l)) => Some(init.push(l)),
            _ => None,
        }
    }
}

proof fn lemma_offset_timings_prefix_none(ts: Seq<TimedLocation>, offset_ms: i64, i: int)
    requires
        0 <= i <= ts.len(),
        spec_offset_timings(ts.subrange(0, i), offset_ms) is None,
    ensures
        spec_offset_timings(ts, offset_ms) is None,
    decreases ts.len() - i,
{
    if i == ts.len() {
        assert(ts.subrange(0, i) =~= ts);
    } else {
        let a = ts.subrange(0, i);
        let b = ts.subrange(0, i + 1);
        assert(b.drop_last() =~= a);
        lemma_offset_timings_prefix_none(ts, offset_ms, i + 1);
    }
}

fn offset_timings(ts: Vec<TimedLocation>, offset_ms: i64) -> (r: Result<Vec<TimedLocation>, String>)
    ensures
        r matches Ok(v) ==> spec_offset_timings(ts@, offset_ms) == Some(v@),
        r is Err <==> spec_offset_timings(ts@, offset_ms) is None,
{
    let mut out: Vec<TimedLocation> = Vec::new();
    let mut i: usize = 0;
    proof {
        assert(ts@.subrange(0, 0) =~= Seq::<TimedLocation>::empty());
    }
    while i < ts.len()
        invariant
            i <= ts@.len(),
            spec_offset_timings(ts@.subrange(0, i as int), offset_ms) == Some(out@),
        decreases ts@.len() - i,
    {
        let t = ts[i];
        let ghost pre = ts@.subrange(0, i as int);
        let ghost post = ts@.subrange(0, i + 1);
        proof {
            assert(post.drop_last() =~= pre);
            assert(post.last() == t);
        }
        let ms: i64 = (t.time / 1000) as i64;
        let new_ms: i64 = if offset_ms >= 0 {
            if offset_ms > i64::MAX - ms {
                proof {
                    lemma_offset_timings_prefix_none(ts@, offset_ms, i + 1);
                }
                return Err(String::from_str("Shifted timing out of range"));
            } else {
                ms + offset_ms
            }
        } else {
            ms + offset_ms
        };
        if new_ms < 0 || new_ms > 18446744073709551 {
            proof {
                lemma_offset_timings_prefix_none(ts@, offset_ms, i + 1);
            }
            return Err(String::from_str("Shifted timing out of range"));
        }
        let loc = TimedLocation {
            time: (new_ms as u64) * 1000,
            line_char_from_index: t.line_char_from_index,
            line_char_to_index: t.line_char_to_index,
        };
        out.push(loc);
        i += 1;
    }
    proof {
        assert(ts@.subrange(0, ts@.len() as int) =~= ts@);
    }
    Ok(out)
}

/// What a whole LRC file means, line by line: timed-text lines accumulate,
/// an `offset:` tag replaces the running offset for the lines after it, and
/// other well-formed tag lines and empty lines are skipped.
pub open spec fn spec_parse_file(
    lines: Seq<Seq<char>>,
    i: int,
    offset_ms: i64,
    acc: Seq<TimedTextModel>,
) -> Result<Seq<TimedTextModel>, ()>
    decreases lines.len() - i,
{
    if i < 0 || i >= lines.len() {
        Ok(acc)
    } else {
        match spec_parse_line(lines[i]) {
            Err(_) => Err(()),
            Ok(LrcLineModel::TimedText(t)) => {
                if offset_ms != 0 {
                    match spec_offset_timings(t.timings, offset_ms) {
                        None => Err(()),
                        Some(ts2) => spec_parse_file(
                            lines,
                            i + 1,
                            offset_ms,
                            acc.push(TimedTextModel { text: t.text, timings: ts2 }),
                        ),
                    }
                } else {
                    spec_parse_file(lines, i + 1, offset_ms, acc.push(t))
                }
            },
            Ok(LrcLineModel::Tag(Tag::Offset(v))) => spec_parse_file(lines, i + 1, v, acc),
            Ok(_) => spec_parse_file(lines, i + 1, offset_ms, acc),
        }
    }
}

/// Parses the lines of an LRC file into its timed text lines.
pub fn parse_lrc_file(lines: Vec<String>) -> (r: Result<LrcFile, String>)
    ensures
        r matches Ok(f) ==> spec_parse_file(lines.deep_view(), 0, 0, Seq::empty()) == Ok::<
            Seq<TimedTextModel>,
            (),
        >(f@),
        r is Err <==> spec_parse_file(lines.deep_view(), 0, 0, Seq::empty()) is Err,
{
    let mut timed: Vec<TimedText> = Vec::new();
    let mut offset_ms: i64 = 0;
    let mut i: usize = 0;
    proof {
        assert(timed.deep_view() =~= Seq::<TimedTextModel>::empty());
    }
    while i < lines.len()
        invariant
            i <= lines@.len(),
            spec_parse_file(lines.deep_view(), 0, 0, Seq::empty()) == spec_parse_file(
                lines.deep_view(),
                i as int,
                offset_ms,
                timed.deep_view(),
            ),
        decreases lines@.len() - i,
    {
        let line = lines[i].clone();
        proof {
            assert(line@ == lines.deep_view()[i as int]);
        }
        let ghost acc0 = timed.deep_view();
        match parse_lrc_line(line) {
            Err(e) => {
                return Err(e);
            },
            Ok(LrcLine::TimedText(t)) => {
                let ghost tm = t@;
                if offset_ms != 0 {
                    let TimedText { text, timings } = t;
                    match offset_timings(timings, offset_ms) {
                        Err(e) => {
                            return Err(e);
                        },
                        Ok(ts2) => {
                            let t2 = TimedText { text, timings: ts2 };
                            timed.push(t2);
                            proof {
                                assert(timed.deep_view() =~= acc0.push(
                                    TimedTextModel { text: tm.text, timings: ts2@ },
                                ));
                            }
                        },
                    }
                } else {
                    timed.push(t);
                    proof {
                        assert(timed.deep_view() =~= acc0.push(tm));
                    }
                }
            },
            Ok(LrcLine::Tag(g)) => {
                match g {
                    Tag::Offset(v) => {
                        offset_ms = v;
                    },
                    _ => {},
                }
            },
            Ok(LrcLine::Empty) => {},
        }
        i += 1;
    }
    Ok(LrcFile { timed_texts_lines: timed })
}

/// One flattened timing mark: a time, a line, and the character span it
/// activates within that line.
#[derive(Debug, Clone, Copy, PartialEq, Eq, Structural)]
pub struct LyricsTiming {
    /// Time offset in microseconds.
    pub time: u64,
    /// Index of the line.
    pub line_index: i32,
    /// From this character in the line.
    pub line_char_from_index: i32,
    /// To this character in the line.
    pub line_char_to_index: i32,
}

/// The loaded lyrics: the text lines and all timing marks in file order.
#[derive(Debug)]
pub struct Lyrics {
    pub lines: Vec<String>,
    pub timings: Vec<LyricsTiming>,
}

/// Mathematical model of [`Lyrics`].
pub struct LyricsModel {
    pub lines: Seq<Seq<char>>,
    pub timings: Seq<LyricsTiming>,
}

impl View for Lyrics {
    type V = LyricsModel;

    open spec fn view(&self) -> LyricsModel {
        LyricsModel { lines: self.lines.deep_view(), timings: self.timings@ }
    }
}

/// The synthetic mark standing for "before any timed line".
pub open spec fn zero_timing() -> LyricsTiming {
    LyricsTiming { time: 0, line_index: 0, line_char_from_index: 0, line_char_to_index: 0 }
}

/// The marks of one timed text line, tagged with the line's index.
pub open spec fn timings_of_line(t: TimedTextModel, li: int) -> Seq<LyricsTiming> {
    t.timings.map(
        |j: int, loc: TimedLocation|
            LyricsTiming {
                time: loc.time,
                line_index: li as i32,
                line_char_from_index: loc.line_char_from_index,
                line_char_to_index: loc.line_char_to_index,
            },
    )
}

/// All marks of the lines from `i` on, in file order.
pub open spec fn spec_flatten_timings(tls: Seq<TimedTextModel>, i: int) -> Seq<LyricsTiming>
    decreases tls.len() - i,
{
    if i < 0 || i >= tls.len() {
        Seq::<LyricsTiming>::empty()
    } else {
        timings_of_line(tls[i], i) + spec_flatten_timings(tls, i + 1)
    }
}

/// The texts of the timed lines, in order.
pub open spec fn texts_of(tls: Seq<TimedTextModel>) -> Seq<Seq<char>> {
    tls.map(|i: int, t: TimedTextModel| t.text)
}

/// The lyrics a parsed file yields: its texts as lines, and, when any timed
/// line exists, the synthetic zero mark followed by every mark in file
/// order.
pub open spec fn spec_lyrics(tls: Seq<TimedTextModel>) -> LyricsModel {
    LyricsModel {
        lines: texts_of(tls),
        timings: (if tls.len() > 0 {
            seq![zero_timing()]
        } else {
            Seq::<LyricsTiming>::empty()
        }) + spec_flatten_timings(tls, 0),
    }
}

impl Lyrics {
    /// Flattens a parsed file into lyrics lines and timing marks.
    pub fn new(lrc_file: LrcFile) -> (r: Lyrics)
        requires
            lrc_file@.len() <= i32::MAX,
        ensures
            r@ == spec_lyrics(lrc_file@),
    {
        let ghost tls = lrc_file@;
        let tt = lrc_file.timed_texts_lines;
        let mut lines: Vec<String> = Vec::new();
        let mut timings: Vec<LyricsTiming> = Vec::new();
        if tt.len() > 0 {
            timings.push(
                LyricsTiming {
                    time: 0,
                    line_index: 0,
                    line_char_from_index: 0,
                    line_char_to_index: 0,
                },
            );
        }
        proof {
            assert(timings@ =~= (if tls.len() > 0 {
                seq![zero_timing()]
            } else {
                Seq::<LyricsTiming>::empty()
            }));
            assert(lines.deep_view() =~= texts_of(tls).subrange(0, 0));
        }
        let mut li: usize = 0;
        while li < tt.len()
            invariant
                li <= tt@.len(),
                tls == tt.deep_view(),
                tt@.len() <= i32::MAX,
                lines@.len() == li as int,
                lines.deep_view() == texts_of(tls).subrange(0, li as int),
                spec_lyrics(tls).timings == timings@ + spec_flatten_timings(tls, li as int),
            decreases tt@.len() - li,
        {
            let ghost lines0 = lines.deep_view();
            lines.push(tt[li].text.clone());
            proof {
                assert(tls[li as int] == tt@[li as int].deep_view());
                assert(lines.deep_view()[li as int] == texts_of(tls)[li as int]);
                assert(lines.deep_view() =~= texts_of(tls).subrange(0, li + 1));
            }
            let ghost marks = timings_of_line(tls[li as int], li as int);
            let mut j: usize = 0;
            while j < tt[li].timings.len()
                invariant
                    li < tt@.len(),
                    tls == tt.deep_view(),
                    tt@.len() <= i32::MAX,
                    j <= tt@[li as int].timings@.len(),
                    marks == timings_of_line(tls[li as int], li as int),
                    marks.len() == tt@[li as int].timings@.len(),
                    spec_lyrics(tls).timings == timings@ + marks.skip(j as int)
                        + spec_flatten_timings(tls, li + 1),
                decreases tt@[li as int].timings@.len() - j,
            {
                let loc = tt[li].timings[j];
                timings.push(
                    LyricsTiming {
                        time: loc.time,
                        line_index: li as i32,
                        line_char_from_index: loc.line_char_from_index,
                        line_char_to_index: loc.line_char_to_index,
                    },
                );
                proof {
                    assert(marks[j as int] == LyricsTiming {
                        time: loc.time,
                        line_index: li as i32,
                        line_char_from_index: loc.line_char_from_index,
                        line_char_to_index: loc.line_char_to_index,
                    });
                    assert(marks.skip(j as int) =~= seq![marks[j as int]] + marks.skip(j + 1));
                }
                j += 1;
            }
            proof {
                assert(marks.skip(tt@[li as int].timings@.len() as int) =~= Seq::<
                    LyricsTiming,
                >::empty());
            }
            li += 1;
        }
        proof {
            assert(lines.deep_view() =~= texts_of(tls));
            assert(spec_flatten_timings(tls, tls.len() as int) =~= Seq::<LyricsTiming>::empty());
            assert(timings@ == spec_lyrics(tls).timings);
        }
        Lyrics { lines, timings }
    }
}

} // verus!
