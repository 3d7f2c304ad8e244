use vstd::prelude::*;

use crate::decimal::{lemma_parse_unsigned_bounded, parse_unsigned, spec_parse_unsigned, IntErrorKind};
use crate::resolution::{is_space, lemma_runs_bounded, space, space_end};
use crate::text::chars_of;

verus! {

/// Where the comma-separated field starting at `i` ends.
pub open spec fn field_end(s: Seq<char>, i: int) -> int
    decreases s.len() - i,
{
    if 0 <= i < s.len() && s[i] != ',' {
        field_end(s, i + 1)
    } else {
        i
    }
}

/// Where the text up to `j` ends once trailing white space is dropped.
pub open spec fn trim_end_at(s: Seq<char>, j: int) -> int
    decreases j,
{
    if 0 < j <= s.len() && is_space(s[j - 1]) {
        trim_end_at(s, j - 1)
    } else {
        j
    }
}

/// Text without leading and trailing white space.
pub open spec fn trimmed(p: Seq<char>) -> Seq<char> {
    let a = space_end(p, 0);
    if a >= p.len() {
        Seq::empty()
    } else {
        p.subrange(a, trim_end_at(p, p.len() as int))
    }
}

pub proof fn lemma_field_end_bounded(s: Seq<char>, i: int)
    requires
        0 <= i <= s.len(),
    ensures
        i <= field_end(s, i) <= s.len(),
        field_end(s, i) < s.len() ==> s[field_end(s, i)] == ',',
    decreases s.len() - i,
{
    if i < s.len() {
        lemma_field_end_bounded(s, i + 1);
    }
}

pub proof fn lemma_trim_end_bounded(s: Seq<char>, j: int)
    requires
        0 <= j <= s.len(),
    ensures
        0 <= trim_end_at(s, j) <= j,
        trim_end_at(s, j) > 0 ==> !is_space(s[trim_end_at(s, j) - 1]),
    decreases j,
{
    if j > 0 {
        lemma_trim_end_bounded(s, j - 1);
    }
}

/// The comma-separated fields of the text from `start` on.
pub open spec fn comma_fields(s: Seq<char>, start: int) -> Seq<Seq<char>>
    decreases s.len() - start,
{
    if 0 <= start <= s.len() {
        let e = field_end(s, start);
        proof {
            lemma_field_end_bounded(s, start);
        }
        if e < s.len() {
            seq![s.subrange(start, e)].add(comma_fields(s, e + 1))
        } else {
            seq![s.subrange(start, e)]
        }
    } else {
        Seq::empty()
    }
}

/// Each comma-separated field, trimmed, read as a number up to `max`; the
/// numbers, or the first field that is not one with its problem.
pub open spec fn spec_number_list(fields: Seq<Seq<char>>, max: nat) -> Result<Seq<nat>, (int, IntErrorKind)>
    decreases fields.len(),
{
    if fields.len() == 0 {
        Ok(Seq::empty())
    } else {
        match spec_number_list(fields.drop_last(), max) {
            Err(e) => Err(e),
            Ok(v) => match spec_parse_unsigned(trimmed(fields.last()), max) {
                Err(k) => Err((fields.len() - 1, k)),
                Ok(n) => Ok(v.push(n)),
            },
        }
    }
}

/// A comma-separated list of numbers, as a level file writes the frames and
/// delays of an animation.
pub open spec fn spec_parse_number_list(s: Seq<char>, max: nat) -> Result<Seq<nat>, (int, IntErrorKind)> {
    spec_number_list(comma_fields(s, 0), max)
}

/// The numbers of a list, as naturals.
pub open spec fn nats_of_u64(v: Seq<u64>) -> Seq<nat> {
    v.map_values(|n: u64| n as nat)
}

/// The numbers of a list, as naturals.
pub open spec fn nats_of_usize(v: Seq<usize>) -> Seq<nat> {
    v.map_values(|n: usize| n as nat)
}

fn trimmed_range(v: &Vec<char>, lo: usize, hi: usize) -> (res: (usize, usize))
    requires
        lo <= hi <= v@.len(),
    ensures
        res.0 <= res.1 <= v@.len(),
        v@.subrange(res.0 as int, res.1 as int) == trimmed(v@.subrange(lo as int, hi as int)),
{
    let ghost p = v@.subrange(lo as int, hi as int);
    let mut a = lo;
    while a < hi && space(v[a])
        invariant
            lo <= a <= hi <= v@.len(),
            p == v@.subrange(lo as int, hi as int),
            space_end(p, (a - lo) as int) == space_end(p, 0),
        decreases hi - a,
    {
        assert(p[(a - lo) as int] == v@[a as int]);
        a = a + 1;
    }
    proof {
        lemma_runs_bounded(p, 0);
        assert(space_end(p, (a - lo) as int) == (a - lo) as int);
    }
    if a >= hi {
        proof {
            assert(v@.subrange(a as int, a as int) =~= trimmed(p));
        }
        return (a, a);
    }
    let mut b = hi;
    assert(p[(a - lo) as int] == v@[a as int]);
    assert(!is_space(v@[a as int]));
    while b > a + 1 && space(v[b - 1])
        invariant
            lo <= a < hi,
            a < b <= hi <= v@.len(),
            p == v@.subrange(lo as int, hi as int),
            !is_space(v@[a as int]),
            trim_end_at(p, (b - lo) as int) == trim_end_at(p, p.len() as int),
        decreases b,
    {
        assert(p[(b - 1 - lo) as int] == v@[b - 1]);
        b = b - 1;
    }
    proof {
        assert(p[(b - 1 - lo) as int] == v@[b - 1]);
        assert(trim_end_at(p, (b - lo) as int) == (b - lo) as int);
        assert(v@.subrange(a as int, b as int) =~= p.subrange((a - lo) as int, (b - lo) as int));
    }
    (a, b)
}

/// Once a prefix of the fields fails, the whole list fails the same way.
proof fn lemma_number_list_prefix_err(pre: Seq<Seq<char>>, rest: Seq<Seq<char>>, max: nat)
    requires
        spec_number_list(pre, max) is Err,
    ensures
        spec_number_list(pre.add(rest), max) == spec_number_list(pre, max),
    decreases rest.len(),
{
    if rest.len() == 0 {
        assert(pre.add(rest) =~= pre);
    } else {
        lemma_number_list_prefix_err(pre, rest.drop_last(), max);
        assert(pre.add(rest).drop_last() =~= pre.add(rest.drop_last()));
    }
}

/// Reads a comma-separated list of numbers up to `max` (each field trimmed
/// and read as Rust's `str::parse` reads it). On failure, gives the position
/// of the first bad field and its problem.
pub fn parse_number_list(text: &str, max: u64) -> (res: Result<Vec<u64>, (usize, IntErrorKind)>)
    ensures
        res matches Ok(v) ==> spec_parse_number_list(text@, max as nat) == Ok::<Seq<nat>, (int, IntErrorKind)>(nats_of_u64(v@)),
        res matches Err(e) ==> spec_parse_number_list(text@, max as nat) == Err::<Seq<nat>, (int, IntErrorKind)>((e.0 as int, e.1)),
{
    let chars = chars_of(text);
    let ghost s = chars@;
    let mut out: Vec<u64> = Vec::new();
    let mut start: usize = 0;
    let ghost mut done: Seq<Seq<char>> = Seq::empty();
    proof {
        assert(nats_of_u64(out@) =~= Seq::<nat>::empty());
        assert(comma_fields(s, 0) =~= done.add(comma_fields(s, 0)));
    }
    loop
        invariant
            chars@ == text@,
            s == chars@,
            start <= s.len(),
            comma_fields(s, 0) == done.add(comma_fields(s, start as int)),
            spec_number_list(done, max as nat) == Ok::<Seq<nat>, (int, IntErrorKind)>(nats_of_u64(out@)),
            done.len() == out@.len(),
            out@.len() <= start,
        decreases s.len() - start,
    {
        proof {
            lemma_field_end_bounded(s, start as int);
        }
        let mut e = start;
        while e < chars.len() && chars[e] != ','
            invariant
                start <= e <= s.len(),
                s == chars@,
                field_end(s, e as int) == field_end(s, start as int),
            decreases s.len() - e,
        {
            e = e + 1;
        }
        let (a, b) = trimmed_range(&chars, start, e);
        let parsed = parse_unsigned(&chars, a, b, max);
        let ghost field = s.subrange(start as int, e as int);
        let ghost rest = if e < s.len() { comma_fields(s, e + 1) } else { Seq::<Seq<char>>::empty() };
        proof {
            assert(comma_fields(s, start as int) =~= seq![field].add(rest));
            assert(done.push(field).drop_last() =~= done);
        }
        match parsed {
            Err(k) => {
                proof {
                    lemma_number_list_prefix_err(done.push(field), rest, max as nat);
                    assert(comma_fields(s, 0) =~= done.push(field).add(rest));
                }
                return Err((out.len(), k));
            },
            Ok(n) => {
                let ghost prev = out@;
                out.push(n);
                proof {
                    done = done.push(field);
                    assert(nats_of_u64(out@) =~= nats_of_u64(prev).push(n as nat));
                }
                if e >= chars.len() {
                    proof {
                        assert(comma_fields(s, 0) =~= done);
                    }
                    return Ok(out);
                }
                proof {
                    assert(comma_fields(s, 0) =~= done.add(comma_fields(s, (e + 1) as int)));
                }
                start = e + 1;
            },
        }
    }
}

/// Every number of a list read with a bound is within it.
pub proof fn lemma_number_list_bounded(fields: Seq<Seq<char>>, max: nat)
    ensures
        spec_number_list(fields, max) is Ok ==> forall|j: int|
            0 <= j < spec_number_list(fields, max)->Ok_0.len() ==> #[trigger] spec_number_list(fields, max)->Ok_0[j] <= max,
    decreases fields.len(),
{
    if fields.len() > 0 {
        lemma_number_list_bounded(fields.drop_last(), max);
        lemma_parse_unsigned_bounded(trimmed(fields.last()), max);
    }
}

/// The frames (sprite numbers) and delays (milliseconds) of a tile's
/// animation, given as the tile's `animation_sprite_ids` and
/// `animation_delays_ms` properties: a tile without both has no animation.
/// A tile with only one of them, or with a field that is not a number, is
/// refused by the level loader before this is called.
pub fn animation_from(sprite_ids: Option<&str>, delays_ms: Option<&str>) -> (res: Option<(Vec<usize>, Vec<u64>)>)
    requires
        sprite_ids is Some == delays_ms is Some,
        sprite_ids is Some ==> spec_parse_number_list(sprite_ids->0@, usize::MAX as nat) is Ok,
        delays_ms is Some ==> spec_parse_number_list(delays_ms->0@, u64::MAX as nat) is Ok,
    ensures
        sprite_ids is None ==> res is None,
        sprite_ids is Some ==> {
            let (frames, delays) = res->0;
            &&& res is Some
            &&& spec_parse_number_list(sprite_ids->0@, usize::MAX as nat)
                == Ok::<Seq<nat>, (int, IntErrorKind)>(nats_of_usize(frames@))
            &&& spec_parse_number_list(delays_ms->0@, u64::MAX as nat)
                == Ok::<Seq<nat>, (int, IntErrorKind)>(nats_of_u64(delays@))
        },
{
    match (sprite_ids, delays_ms) {
        (Some(ids_text), Some(delays_text)) => {
            let bound: u64 = usize::MAX as u64;
            assert(bound as nat == usize::MAX as nat);
            let ids = match parse_number_list(ids_text, bound) {
                Ok(v) => v,
                Err(_) => {
                    return None;
                },
            };
            let delays = match parse_number_list(delays_text, u64::MAX) {
                Ok(v) => v,
                Err(_) => {
                    return None;
                },
            };
            proof {
                lemma_number_list_bounded(comma_fields(ids_text@, 0), usize::MAX as nat);
                assert forall|j: int| 0 <= j < ids@.len() implies ids@[j] <= usize::MAX by {
                    let v = spec_number_list(comma_fields(ids_text@, 0), usize::MAX as nat)->Ok_0;
                    assert(v[j] == ids@[j] as nat);
                }
            }
            let mut sprite_numbers: Vec<usize> = Vec::new();
            let mut i: usize = 0;
            while i < ids.len()
                invariant
                    i <= ids@.len(),
                    sprite_numbers@.len() == i,
                    forall|j: int| 0 <= j < ids@.len() ==> ids@[j] <= usize::MAX,
                    forall|j: int| 0 <= j < i ==> sprite_numbers@[j] as nat == ids@[j] as nat,
                decreases ids@.len() - i,
            {
                sprite_numbers.push(ids[i] as usize);
                i = i + 1;
            }
            proof {
                assert(nats_of_usize(sprite_numbers@) =~= nats_of_u64(ids@));
            }
            Some((sprite_numbers, delays))
        },
        _ => None,
    }
}

} // verus!
