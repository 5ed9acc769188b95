//! Decimal numbers in text, read as `u64::from_str` reads them.
use vstd::prelude::*;

verus! {

pub open spec fn is_digit(c: char) -> bool {
    '0' <= c && c <= '9'
}

pub open spec fn digit_value(c: char) -> nat {
    ((c as u32) - 48) as nat
}

/// The value of a string of decimal digits.
pub open spec fn digits_value(s: Seq<char>) -> nat
    decreases s.len(),
{
    if s.len() == 0 {
        0
    } else {
        digits_value(s.drop_last()) * 10 + digit_value(s.last())
    }
}

pub open spec fn all_digits(s: Seq<char>) -> bool {
    forall|i: int| 0 <= i < s.len() ==> is_digit(#[trigger] s[i])
}

/// The digits of an unsigned number, after an optional leading `+`.
pub open spec fn unsigned_digits(s: Seq<char>) -> Seq<char> {
    if s.len() > 0 && s[0] == '+' {
        s.drop_first()
    } else {
        s
    }
}

/// What `u64::from_str` gives: an optional `+`, then at least one digit and
/// nothing else, of a value that fits.
pub open spec fn parse_u64_text(s: Seq<char>) -> Option<u64> {
    let d = unsigned_digits(s);
    if d.len() > 0 && all_digits(d) && digits_value(d) <= u64::MAX {
        Some(digits_value(d) as u64)
    } else {
        None
    }
}

proof fn lemma_digits_step(s: Seq<char>, a: int, i: int)
    requires
        0 <= a <= i < s.len(),
    ensures
        digits_value(s.subrange(a, i + 1)) == digits_value(s.subrange(a, i)) * 10 + digit_value(
            s[i],
        ),
{
    assert(s.subrange(a, i + 1).drop_last() =~= s.subrange(a, i));
}

proof fn lemma_grow_past_max(v: nat, d: nat)
    requires
        v > u64::MAX,
    ensures
        v * 10 + d > u64::MAX,
{
    assert(v * 10 + d > u64::MAX) by (nonlinear_arith)
        requires
            v > u64::MAX,
    ;
}

fn char_at_is_digit(c: char) -> (r: bool)
    ensures
        r == is_digit(c),
{
    '0' <= c && c <= '9'
}

/// Reads the characters `start..end` of `s` as `u64::from_str` would.
pub fn parse_u64_range(s: &str, start: usize, end: usize) -> (r: Option<u64>)
    requires
        start <= end <= s@.len(),
    ensures
        r == parse_u64_text(s@.subrange(start as int, end as int)),
{
    let ghost t = s@.subrange(start as int, end as int);
    let mut d0 = start;
    if start < end && s.get_char(start) == '+' {
        d0 = start + 1;
    }
    assert(unsigned_digits(t) =~= s@.subrange(d0 as int, end as int));
    if d0 == end {
        return None;
    }
    let mut acc: u64 = 0;
    let mut over = false;
    let mut i = d0;
    assert(s@.subrange(d0 as int, d0 as int) =~= Seq::<char>::empty());
    while i < end
        invariant
            start <= d0 <= i <= end,
            end <= s@.len(),
            unsigned_digits(s@.subrange(start as int, end as int)) == s@.subrange(
                d0 as int,
                end as int,
            ),
            all_digits(s@.subrange(d0 as int, i as int)),
            !over ==> acc == digits_value(s@.subrange(d0 as int, i as int)),
            over ==> digits_value(s@.subrange(d0 as int, i as int)) > u64::MAX,
        decreases end - i,
    {
        let c = s.get_char(i);
        if !char_at_is_digit(c) {
            assert(!all_digits(s@.subrange(d0 as int, end as int))) by {
                assert(s@.subrange(d0 as int, end as int)[i - d0] == c);
            }
            return None;
        }
        proof {
            lemma_digits_step(s@, d0 as int, i as int);
            if over {
                lemma_grow_past_max(digits_value(s@.subrange(d0 as int, i as int)), digit_value(c));
            }
        }
        if !over {
            let dig = (c as u32 - 48) as u64;
            match acc.checked_mul(10) {
                Some(m) => match m.checked_add(dig) {
                    Some(v) => {
                        acc = v;
                    },
                    None => {
                        over = true;
                    },
                },
                None => {
                    over = true;
                    proof {
                        assert(digits_value(s@.subrange(d0 as int, i as int)) * 10 > u64::MAX);
                    }
                },
            }
        }
        i = i + 1;
        assert(all_digits(s@.subrange(d0 as int, i as int))) by {
            assert forall|k: int| 0 <= k < i - d0 implies is_digit(
                #[trigger] s@.subrange(d0 as int, i as int)[k],
            ) by {
                if k < i - 1 - d0 {
                    assert(s@.subrange(d0 as int, i as int)[k] == s@.subrange(
                        d0 as int,
                        (i - 1) as int,
                    )[k]);
                }
            }
        }
    }
    if over {
        None
    } else {
        Some(acc)
    }
}

} // verus!
