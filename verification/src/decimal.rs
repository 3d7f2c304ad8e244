use vstd::prelude::*;

verus! {

/// Why text is not an unsigned number: it is empty, holds a character that
/// is not a digit, or the number is too large.
#[derive(Clone, Copy, Debug, PartialEq, Eq, Structural)]
pub enum IntErrorKind {
    Empty,
    InvalidDigit,
    PosOverflow,
}

/// How Rust describes a problem reading a number.
pub open spec fn spec_int_error_text(k: IntErrorKind) -> Seq<char> {
    match k {
        IntErrorKind::Empty => "cannot parse integer from empty string"@,
        IntErrorKind::InvalidDigit => "invalid digit found in string"@,
        IntErrorKind::PosOverflow => "number too large to fit in target type"@,
    }
}

impl IntErrorKind {
    /// The description of the problem, as Rust words it.
    pub fn description(&self) -> (res: &'static str)
        ensures
            res@ == spec_int_error_text(*self),
    {
        match self {
            IntErrorKind::Empty => "cannot parse integer from empty string",
            IntErrorKind::InvalidDigit => "invalid digit found in string",
            IntErrorKind::PosOverflow => "number too large to fit in target type",
        }
    }
}

pub open spec fn is_ascii_digit(c: char) -> bool {
    '0' <= c <= '9'
}

pub open spec fn digit_value(c: char) -> nat {
    (c as int - '0' as int) as nat
}

/// The value of a run of characters read as decimal digits from the left,
/// or the first problem met: a character that is not an ASCII digit, or a
/// value above `max`.
pub open spec fn digits_value(s: Seq<char>, max: nat) -> Result<nat, IntErrorKind>
    decreases s.len(),
{
    if s.len() == 0 {
        Ok(0)
    } else {
        match digits_value(s.drop_last(), max) {
            Err(e) => Err(e),
            Ok(v) => if !is_ascii_digit(s.last()) {
                Err(IntErrorKind::InvalidDigit)
            } else if v * 10 + digit_value(s.last()) > max {
                Err(IntErrorKind::PosOverflow)
            } else {
                Ok(v * 10 + digit_value(s.last()))
            },
        }
    }
}

/// Text read as an unsigned number up to `max`, as Rust's `str::parse` reads
/// it: an optional leading `+` followed by decimal digits.
pub open spec fn spec_parse_unsigned(s: Seq<char>, max: nat) -> Result<nat, IntErrorKind> {
    if s.len() == 0 {
        Err(IntErrorKind::Empty)
    } else if s[0] == '+' {
        if s.len() == 1 {
            Err(IntErrorKind::InvalidDigit)
        } else {
            digits_value(s.skip(1), max)
        }
    } else {
        digits_value(s, max)
    }
}

pub proof fn lemma_digits_value_bounded(s: Seq<char>, max: nat)
    ensures
        digits_value(s, max) matches Ok(v) ==> v <= max,
    decreases s.len(),
{
    if s.len() > 0 {
        lemma_digits_value_bounded(s.drop_last(), max);
    }
}

/// A number read from text never exceeds the bound it was read with.
pub proof fn lemma_parse_unsigned_bounded(s: Seq<char>, max: nat)
    ensures
        spec_parse_unsigned(s, max) matches Ok(v) ==> v <= max,
{
    if s.len() > 0 {
        lemma_digits_value_bounded(s, max);
        lemma_digits_value_bounded(s.skip(1), max);
    }
}

proof fn lemma_overflow_test(acc: int, d: int, max: int)
    requires
        0 <= acc,
        0 <= d <= 9,
        d <= max,
    ensures
        (acc * 10 + d > max) == (acc > (max - d) / 10),
{
    assert((acc * 10 + d > max) == (acc > (max - d) / 10)) by (nonlinear_arith)
        requires
            0 <= acc,
            0 <= d <= 9,
            d <= max,
    ;
}

/// The decimal value of the characters `chars[start..end]` (digits only), up
/// to `max`.
pub fn parse_digits(chars: &Vec<char>, start: usize, end: usize, max: u64) -> (res: Result<u64, IntErrorKind>)
    requires
        start <= end <= chars@.len(),
    ensures
        res matches Ok(v) ==> digits_value(chars@.subrange(start as int, end as int), max as nat) == Ok::<nat, IntErrorKind>(v as nat),
        res matches Err(e) ==> digits_value(chars@.subrange(start as int, end as int), max as nat) == Err::<nat, IntErrorKind>(e),
{
    let mut acc: u64 = 0;
    let mut i: usize = start;
    while i < end
        invariant
            start <= i <= end <= chars@.len(),
            digits_value(chars@.subrange(start as int, i as int), max as nat) == Ok::<nat, IntErrorKind>(acc as nat),
        decreases end - i,
    {
        let c = chars[i];
        proof {
            assert(chars@.subrange(start as int, i + 1).drop_last() =~= chars@.subrange(start as int, i as int));
            lemma_digits_value_bounded(chars@.subrange(start as int, i as int), max as nat);
        }
        if !('0' <= c && c <= '9') {
            proof {
                lemma_rest_fails(chars@, start as int, i as int, end as int, max as nat, IntErrorKind::InvalidDigit);
            }
            return Err(IntErrorKind::InvalidDigit);
        }
        let d = (c as u32 - 48) as u64;
        assert(d as nat == digit_value(c));
        if d > max || acc > (max - d) / 10 {
            proof {
                if d <= max {
                    lemma_overflow_test(acc as int, d as int, max as int);
                }
                lemma_rest_fails(chars@, start as int, i as int, end as int, max as nat, IntErrorKind::PosOverflow);
            }
            return Err(IntErrorKind::PosOverflow);
        }
        proof {
            lemma_overflow_test(acc as int, d as int, max as int);
        }
        acc = acc * 10 + d;
        i = i + 1;
    }
    Ok(acc)
}

/// Once reading the digits fails at a position, reading more of them fails
/// the same way.
proof fn lemma_rest_fails(s: Seq<char>, start: int, i: int, end: int, max: nat, e: IntErrorKind)
    requires
        0 <= start <= i < end <= s.len(),
        digits_value(s.subrange(start, i + 1), max) == Err::<nat, IntErrorKind>(e),
    ensures
        digits_value(s.subrange(start, end), max) == Err::<nat, IntErrorKind>(e),
    decreases end - i,
{
    if end > i + 1 {
        lemma_rest_fails(s, start, i, end - 1, max, e);
        assert(s.subrange(start, end).drop_last() =~= s.subrange(start, end - 1));
    }
}

/// Text read as an unsigned number up to `max`, as Rust's `str::parse` reads
/// it.
pub fn parse_unsigned(chars: &Vec<char>, start: usize, end: usize, max: u64) -> (res: Result<u64, IntErrorKind>)
    requires
        start <= end <= chars@.len(),
    ensures
        res matches Ok(v) ==> spec_parse_unsigned(chars@.subrange(start as int, end as int), max as nat) == Ok::<nat, IntErrorKind>(v as nat),
        res matches Err(e) ==> spec_parse_unsigned(chars@.subrange(start as int, end as int), max as nat) == Err::<nat, IntErrorKind>(e),
{
    let ghost s = chars@.subrange(start as int, end as int);
    if start == end {
        return Err(IntErrorKind::Empty);
    }
    if chars[start] == '+' {
        if end - start == 1 {
            return Err(IntErrorKind::InvalidDigit);
        }
        proof {
            assert(s.skip(1) =~= chars@.subrange(start + 1, end as int));
        }
        parse_digits(chars, start + 1, end, max)
    } else {
        parse_digits(chars, start, end, max)
    }
}

} // verus!
