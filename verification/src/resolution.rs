use vstd::prelude::*;

use crate::decimal::{digits_value, parse_digits, spec_int_error_text, IntErrorKind};
use crate::paths::owned;
use vstd::string::StringExecFns;
use crate::text::chars_of;
use vstd::string::StrSliceExecFns;

verus! {

/// Unicode white space (the `White_Space` property, Unicode 16).
pub open spec fn is_space(c: char) -> bool {
    let u = c as u32;
    ||| 0x9 <= u <= 0xd
    ||| 0x20 <= u <= 0x20
    ||| 0x85 <= u <= 0x85
    ||| 0xa0 <= u <= 0xa0
    ||| 0x1680 <= u <= 0x1680
    ||| 0x2000 <= u <= 0x200a
    ||| 0x2028 <= u <= 0x2029
    ||| 0x202f <= u <= 0x202f
    ||| 0x205f <= u <= 0x205f
    ||| 0x3000 <= u <= 0x3000
}

/// Unicode decimal digits (general category `Nd`, Unicode 16).
pub open spec fn is_decimal_digit(c: char) -> bool {
    let u = c as u32;
    ||| 0x30 <= u <= 0x39
    ||| 0x660 <= u <= 0x669
    ||| 0x6f0 <= u <= 0x6f9
    ||| 0x7c0 <= u <= 0x7c9
    ||| 0x966 <= u <= 0x96f
    ||| 0x9e6 <= u <= 0x9ef
    ||| 0xa66 <= u <= 0xa6f
    ||| 0xae6 <= u <= 0xaef
    ||| 0xb66 <= u <= 0xb6f
    ||| 0xbe6 <= u <= 0xbef
    ||| 0xc66 <= u <= 0xc6f
    ||| 0xce6 <= u <= 0xcef
    ||| 0xd66 <= u <= 0xd6f
    ||| 0xde6 <= u <= 0xdef
    ||| 0xe50 <= u <= 0xe59
    ||| 0xed0 <= u <= 0xed9
    ||| 0xf20 <= u <= 0xf29
    ||| 0x1040 <= u <= 0x1049
    ||| 0x1090 <= u <= 0x1099
    ||| 0x17e0 <= u <= 0x17e9
    ||| 0x1810 <= u <= 0x1819
    ||| 0x1946 <= u <= 0x194f
    ||| 0x19d0 <= u <= 0x19d9
    ||| 0x1a80 <= u <= 0x1a89
    ||| 0x1a90 <= u <= 0x1a99
    ||| 0x1b50 <= u <= 0x1b59
    ||| 0x1bb0 <= u <= 0x1bb9
    ||| 0x1c40 <= u <= 0x1c49
    ||| 0x1c50 <= u <= 0x1c59
    ||| 0xa620 <= u <= 0xa629
    ||| 0xa8d0 <= u <= 0xa8d9
    ||| 0xa900 <= u <= 0xa909
    ||| 0xa9d0 <= u <= 0xa9d9
    ||| 0xa9f0 <= u <= 0xa9f9
    ||| 0xaa50 <= u <= 0xaa59
    ||| 0xabf0 <= u <= 0xabf9
    ||| 0xff10 <= u <= 0xff19
    ||| 0x104a0 <= u <= 0x104a9
    ||| 0x10d30 <= u <= 0x10d39
    ||| 0x10d40 <= u <= 0x10d49
    ||| 0x11066 <= u <= 0x1106f
    ||| 0x110f0 <= u <= 0x110f9
    ||| 0x11136 <= u <= 0x1113f
    ||| 0x111d0 <= u <= 0x111d9
    ||| 0x112f0 <= u <= 0x112f9
    ||| 0x11450 <= u <= 0x11459
    ||| 0x114d0 <= u <= 0x114d9
    ||| 0x11650 <= u <= 0x11659
    ||| 0x116c0 <= u <= 0x116c9
    ||| 0x116d0 <= u <= 0x116e3
    ||| 0x11730 <= u <= 0x11739
    ||| 0x118e0 <= u <= 0x118e9
    ||| 0x11950 <= u <= 0x11959
    ||| 0x11bf0 <= u <= 0x11bf9
    ||| 0x11c50 <= u <= 0x11c59
    ||| 0x11d50 <= u <= 0x11d59
    ||| 0x11da0 <= u <= 0x11da9
    ||| 0x11f50 <= u <= 0x11f59
    ||| 0x16130 <= u <= 0x16139
    ||| 0x16a60 <= u <= 0x16a69
    ||| 0x16ac0 <= u <= 0x16ac9
    ||| 0x16b50 <= u <= 0x16b59
    ||| 0x16d70 <= u <= 0x16d79
    ||| 0x1ccf0 <= u <= 0x1ccf9
    ||| 0x1d7ce <= u <= 0x1d7ff
    ||| 0x1e140 <= u <= 0x1e149
    ||| 0x1e2f0 <= u <= 0x1e2f9
    ||| 0x1e4f0 <= u <= 0x1e4f9
    ||| 0x1e5f1 <= u <= 0x1e5fa
    ||| 0x1e950 <= u <= 0x1e959
    ||| 0x1fbf0 <= u <= 0x1fbf9
}

pub fn space(c: char) -> (res: bool)
    ensures
        res == is_space(c),
{
    let u = c as u32;
    (0x9 <= u && u <= 0xd) ||
        (0x20 <= u && u <= 0x20) ||
        (0x85 <= u && u <= 0x85) ||
        (0xa0 <= u && u <= 0xa0) ||
        (0x1680 <= u && u <= 0x1680) ||
        (0x2000 <= u && u <= 0x200a) ||
        (0x2028 <= u && u <= 0x2029) ||
        (0x202f <= u && u <= 0x202f) ||
        (0x205f <= u && u <= 0x205f) ||
        (0x3000 <= u && u <= 0x3000)
}

pub fn decimal_digit(c: char) -> (res: bool)
    ensures
        res == is_decimal_digit(c),
{
    let u = c as u32;
    (0x30 <= u && u <= 0x39) ||
        (0x660 <= u && u <= 0x669) ||
        (0x6f0 <= u && u <= 0x6f9) ||
        (0x7c0 <= u && u <= 0x7c9) ||
        (0x966 <= u && u <= 0x96f) ||
        (0x9e6 <= u && u <= 0x9ef) ||
        (0xa66 <= u && u <= 0xa6f) ||
        (0xae6 <= u && u <= 0xaef) ||
        (0xb66 <= u && u <= 0xb6f) ||
        (0xbe6 <= u && u <= 0xbef) ||
        (0xc66 <= u && u <= 0xc6f) ||
        (0xce6 <= u && u <= 0xcef) ||
        (0xd66 <= u && u <= 0xd6f) ||
        (0xde6 <= u && u <= 0xdef) ||
        (0xe50 <= u && u <= 0xe59) ||
        (0xed0 <= u && u <= 0xed9) ||
        (0xf20 <= u && u <= 0xf29) ||
        (0x1040 <= u && u <= 0x1049) ||
        (0x1090 <= u && u <= 0x1099) ||
        (0x17e0 <= u && u <= 0x17e9) ||
        (0x1810 <= u && u <= 0x1819) ||
        (0x1946 <= u && u <= 0x194f) ||
        (0x19d0 <= u && u <= 0x19d9) ||
        (0x1a80 <= u && u <= 0x1a89) ||
        (0x1a90 <= u && u <= 0x1a99) ||
        (0x1b50 <= u && u <= 0x1b59) ||
        (0x1bb0 <= u && u <= 0x1bb9) ||
        (0x1c40 <= u && u <= 0x1c49) ||
        (0x1c50 <= u && u <= 0x1c59) ||
        (0xa620 <= u && u <= 0xa629) ||
        (0xa8d0 <= u && u <= 0xa8d9) ||
        (0xa900 <= u && u <= 0xa909) ||
        (0xa9d0 <= u && u <= 0xa9d9) ||
        (0xa9f0 <= u && u <= 0xa9f9) ||
        (0xaa50 <= u && u <= 0xaa59) ||
        (0xabf0 <= u && u <= 0xabf9) ||
        (0xff10 <= u && u <= 0xff19) ||
        (0x104a0 <= u && u <= 0x104a9) ||
        (0x10d30 <= u && u <= 0x10d39) ||
        (0x10d40 <= u && u <= 0x10d49) ||
        (0x11066 <= u && u <= 0x1106f) ||
        (0x110f0 <= u && u <= 0x110f9) ||
        (0x11136 <= u && u <= 0x1113f) ||
        (0x111d0 <= u && u <= 0x111d9) ||
        (0x112f0 <= u && u <= 0x112f9) ||
        (0x11450 <= u && u <= 0x11459) ||
        (0x114d0 <= u && u <= 0x114d9) ||
        (0x11650 <= u && u <= 0x11659) ||
        (0x116c0 <= u && u <= 0x116c9) ||
        (0x116d0 <= u && u <= 0x116e3) ||
        (0x11730 <= u && u <= 0x11739) ||
        (0x118e0 <= u && u <= 0x118e9) ||
        (0x11950 <= u && u <= 0x11959) ||
        (0x11bf0 <= u && u <= 0x11bf9) ||
        (0x11c50 <= u && u <= 0x11c59) ||
        (0x11d50 <= u && u <= 0x11d59) ||
        (0x11da0 <= u && u <= 0x11da9) ||
        (0x11f50 <= u && u <= 0x11f59) ||
        (0x16130 <= u && u <= 0x16139) ||
        (0x16a60 <= u && u <= 0x16a69) ||
        (0x16ac0 <= u && u <= 0x16ac9) ||
        (0x16b50 <= u && u <= 0x16b59) ||
        (0x16d70 <= u && u <= 0x16d79) ||
        (0x1ccf0 <= u && u <= 0x1ccf9) ||
        (0x1d7ce <= u && u <= 0x1d7ff) ||
        (0x1e140 <= u && u <= 0x1e149) ||
        (0x1e2f0 <= u && u <= 0x1e2f9) ||
        (0x1e4f0 <= u && u <= 0x1e4f9) ||
        (0x1e5f1 <= u && u <= 0x1e5fa) ||
        (0x1e950 <= u && u <= 0x1e959) ||
        (0x1fbf0 <= u && u <= 0x1fbf9)
}

/// Where the run of white space starting at `i` ends.
pub open spec fn space_end(s: Seq<char>, i: int) -> int
    decreases s.len() - i,
{
    if 0 <= i < s.len() && is_space(s[i]) {
        space_end(s, i + 1)
    } else {
        i
    }
}

/// Where the run of decimal digits starting at `i` ends.
pub open spec fn digits_end(s: Seq<char>, i: int) -> int
    decreases s.len() - i,
{
    if 0 <= i < s.len() && is_decimal_digit(s[i]) {
        digits_end(s, i + 1)
    } else {
        i
    }
}

/// Where the line starting at `i` ends: at the next newline, or at the end
/// of the text.
pub open spec fn line_end(s: Seq<char>, i: int) -> int
    decreases s.len() - i,
{
    if 0 <= i < s.len() && s[i] != '\n' {
        line_end(s, i + 1)
    } else {
        i
    }
}

pub proof fn lemma_runs_bounded(s: Seq<char>, i: int)
    requires
        0 <= i <= s.len(),
    ensures
        i <= space_end(s, i) <= s.len(),
        i <= digits_end(s, i) <= s.len(),
        i <= line_end(s, i) <= s.len(),
        forall|j: int| i <= j < space_end(s, i) ==> is_space(#[trigger] s[j]),
        forall|j: int| i <= j < digits_end(s, i) ==> is_decimal_digit(#[trigger] s[j]),
        forall|j: int| i <= j < line_end(s, i) ==> #[trigger] s[j] != '\n',
        line_end(s, i) < s.len() ==> s[line_end(s, i)] == '\n',
    decreases s.len() - i,
{
    if i < s.len() {
        lemma_runs_bounded(s, i + 1);
    }
}

/// A line to skip: blank, or a comment starting with `#` after white space.
pub open spec fn is_ignorable_line(l: Seq<char>) -> bool {
    space_end(l, 0) == l.len() || l[space_end(l, 0)] == '#'
}

/// The positions of the width's and the height's digits in a resolution line
/// `<width> x <height>`, with white space allowed around each part and a
/// comment after `#` allowed at the end; none when the line is not of that
/// form.
pub open spec fn resolution_fields(l: Seq<char>) -> Option<(int, int, int, int)> {
    let a = space_end(l, 0);
    let b = digits_end(l, a);
    if b == a {
        None
    } else {
        let c = space_end(l, b);
        if c >= l.len() || l[c] != 'x' {
            None
        } else {
            let d = space_end(l, c + 1);
            let e = digits_end(l, d);
            if e == d {
                None
            } else {
                let f = space_end(l, e);
                if f < l.len() && l[f] != '#' {
                    None
                } else {
                    Some((a, b, d, e))
                }
            }
        }
    }
}

/// The first line at or after the line starting at `start` that is not to
/// be skipped, as its start and end.
pub open spec fn first_usable_line(s: Seq<char>, start: int) -> Option<(int, int)>
    decreases s.len() - start,
{
    if 0 <= start <= s.len() {
        let end = line_end(s, start);
        proof {
            lemma_runs_bounded(s, start);
        }
        if !is_ignorable_line(s.subrange(start, end)) {
            Some((start, end))
        } else if end < s.len() {
            first_usable_line(s, end + 1)
        } else {
            None
        }
    } else {
        None
    }
}

/// Why a resolution file was refused.
pub enum ResolutionFailure {
    /// The first line to read is not a resolution; it is given.
    Line(Seq<char>),
    /// A number does not fit.
    Int(IntErrorKind),
}

/// What a resolution file says: no resolution when every line is blank or a
/// comment; else the first such line must read `<width> x <height>`.
pub open spec fn spec_parse_resolution(s: Seq<char>) -> Result<Option<(u32, u32)>, ResolutionFailure> {
    match first_usable_line(s, 0) {
        None => Ok(None),
        Some((st, en)) => {
            let l = s.subrange(st, en);
            match resolution_fields(l) {
                None => Err(ResolutionFailure::Line(l)),
                Some((a, b, d, e)) => match (
                    digits_value(l.subrange(a, b), u32::MAX as nat),
                    digits_value(l.subrange(d, e), u32::MAX as nat),
                ) {
                    (Ok(w), Ok(h)) => Ok(Some((w as u32, h as u32))),
                    (Err(x), _) => Err(ResolutionFailure::Int(x)),
                    (_, Err(x)) => Err(ResolutionFailure::Int(x)),
                },
            }
        },
    }
}

/// Why a resolution file was refused.
#[derive(Clone, Debug)]
pub enum ResolutionError {
    /// The first line to read is not a resolution; it is given.
    CouldNotParseLine(String),
    /// A number does not fit in a `u32`.
    ParseInt(IntErrorKind),
}

/// The message of a refused resolution file (without the file's name).
pub open spec fn spec_resolution_message(f: ResolutionFailure) -> Seq<char> {
    match f {
        ResolutionFailure::Line(l) => "Could not parse line:\n'"@ + l + "'"@,
        ResolutionFailure::Int(k) => "Error parsing text to integer (u32): "@ + spec_int_error_text(k),
    }
}

impl ResolutionError {
    /// The message that tells why the file was refused.
    pub fn message(&self) -> (res: String)
        ensures
            res@ == spec_resolution_message(self.view()),
    {
        match self {
            ResolutionError::CouldNotParseLine(l) => {
                let mut s = owned("Could not parse line:\n'");
                s.append(l.as_str());
                s.append("'");
                s
            },
            ResolutionError::ParseInt(k) => {
                let mut s = owned("Error parsing text to integer (u32): ");
                s.append(k.description());
                s
            },
        }
    }

    pub open spec fn view(&self) -> ResolutionFailure {
        match self {
            ResolutionError::CouldNotParseLine(l) => ResolutionFailure::Line(l@),
            ResolutionError::ParseInt(k) => ResolutionFailure::Int(*k),
        }
    }
}

fn space_end_exec(v: &Vec<char>, i: usize) -> (res: usize)
    requires
        i <= v@.len(),
    ensures
        res == space_end(v@, i as int),
{
    proof {
        lemma_runs_bounded(v@, i as int);
    }
    let mut j = i;
    while j < v.len() && space(v[j])
        invariant
            i <= j <= v@.len(),
            space_end(v@, j as int) == space_end(v@, i as int),
        decreases v@.len() - j,
    {
        j = j + 1;
    }
    j
}

fn digits_end_exec(v: &Vec<char>, i: usize) -> (res: usize)
    requires
        i <= v@.len(),
    ensures
        res == digits_end(v@, i as int),
{
    let mut j = i;
    while j < v.len() && decimal_digit(v[j])
        invariant
            i <= j <= v@.len(),
            digits_end(v@, j as int) == digits_end(v@, i as int),
        decreases v@.len() - j,
    {
        j = j + 1;
    }
    j
}

fn line_end_exec(v: &Vec<char>, i: usize) -> (res: usize)
    requires
        i <= v@.len(),
    ensures
        res == line_end(v@, i as int),
{
    let mut j = i;
    while j < v.len() && v[j] != '\n'
        invariant
            i <= j <= v@.len(),
            line_end(v@, j as int) == line_end(v@, i as int),
        decreases v@.len() - j,
    {
        j = j + 1;
    }
    j
}

fn sub_chars(v: &Vec<char>, lo: usize, hi: usize) -> (res: Vec<char>)
    requires
        lo <= hi <= v@.len(),
    ensures
        res@ == v@.subrange(lo as int, hi as int),
{
    let mut r: Vec<char> = Vec::new();
    let mut i = lo;
    while i < hi
        invariant
            lo <= i <= hi <= v@.len(),
            r@ == v@.subrange(lo as int, i as int),
        decreases hi - i,
    {
        r.push(v[i]);
        proof {
            assert(v@.subrange(lo as int, i + 1) =~= v@.subrange(lo as int, i as int).push(v@[i as int]));
        }
        i = i + 1;
    }
    r
}

fn ignorable_line(l: &Vec<char>) -> (res: bool)
    ensures
        res == is_ignorable_line(l@),
{
    proof {
        lemma_runs_bounded(l@, 0);
    }
    let a = space_end_exec(l, 0);
    a == l.len() || l[a] == '#'
}

fn resolution_fields_exec(l: &Vec<char>) -> (res: Option<(usize, usize, usize, usize)>)
    ensures
        res matches Some(r) ==> resolution_fields(l@) == Some((r.0 as int, r.1 as int, r.2 as int, r.3 as int)),
        res is None ==> resolution_fields(l@) is None,
        res matches Some(r) ==> r.0 <= r.1 <= r.2 <= r.3 <= l@.len(),
{
    proof {
        lemma_runs_bounded(l@, 0);
    }
    let a = space_end_exec(l, 0);
    proof {
        lemma_runs_bounded(l@, a as int);
    }
    let b = digits_end_exec(l, a);
    if b == a {
        return None;
    }
    proof {
        lemma_runs_bounded(l@, b as int);
    }
    let c = space_end_exec(l, b);
    if c >= l.len() || l[c] != 'x' {
        return None;
    }
    proof {
        lemma_runs_bounded(l@, c + 1);
    }
    let d = space_end_exec(l, c + 1);
    proof {
        lemma_runs_bounded(l@, d as int);
    }
    let e = digits_end_exec(l, d);
    if e == d {
        return None;
    }
    proof {
        lemma_runs_bounded(l@, e as int);
    }
    let f = space_end_exec(l, e);
    if f < l.len() && l[f] != '#' {
        return None;
    }
    Some((a, b, d, e))
}

/// Reads a resolution file: lines are separated by `\n`; blank lines and
/// lines whose first non-blank character is `#` are skipped; the first other
/// line must read `<width> x <height>` (white space allowed around each part,
/// a `#` comment allowed at the end), with both numbers fitting in a `u32`.
/// A file of only skipped lines gives no resolution.
pub fn parse_resolution(text: &str) -> (res: Result<Option<(u32, u32)>, ResolutionError>)
    ensures
        res matches Ok(r) ==> spec_parse_resolution(text@) == Ok::<Option<(u32, u32)>, ResolutionFailure>(r),
        res matches Err(e) ==> spec_parse_resolution(text@) == Err::<Option<(u32, u32)>, ResolutionFailure>(e.view()),
{
    let chars = chars_of(text);
    let mut start: usize = 0;
    while start <= chars.len()
        invariant
            start <= chars@.len(),
            chars@ == text@,
            first_usable_line(chars@, 0) == first_usable_line(chars@, start as int),
        decreases chars@.len() - start,
    {
        proof {
            lemma_runs_bounded(chars@, start as int);
        }
        let end = line_end_exec(&chars, start);
        let line = sub_chars(&chars, start, end);
        if !ignorable_line(&line) {
            return match resolution_fields_exec(&line) {
                None => {
                    let piece = text.substring_char(start, end);
                    let l = piece.to_string();
                    proof {
                        vstd::string::to_string_from_display_ensures_for_str(piece, l);
                    }
                    Err(ResolutionError::CouldNotParseLine(l))
                },
                Some((a, b, d, e)) => {
                    let w = parse_digits(&line, a, b, 0xffff_ffff);
                    let h = parse_digits(&line, d, e, 0xffff_ffff);
                    match (w, h) {
                        (Ok(w), Ok(h)) => Ok(Some((w as u32, h as u32))),
                        (Err(x), _) => Err(ResolutionError::ParseInt(x)),
                        (_, Err(x)) => Err(ResolutionError::ParseInt(x)),
                    }
                },
            };
        }
        if end < chars.len() {
            start = end + 1;
        } else {
            return Ok(None);
        }
    }
    Ok(None)
}

} // verus!
