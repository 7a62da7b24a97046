//! Numbers typed into the debugging windows' text fields.
use vstd::prelude::*;

verus! {

/// The characters of `s`, in order.
pub fn chars_of(s: &String) -> (r: Vec<char>)
    ensures
        r@ == s@,
{
    let mut it = s.as_str().chars();
    let mut out: Vec<char> = Vec::new();
    loop
        invariant_except_break
            out@ + vstd::std_specs::iter::IteratorSpec::remaining(&it) == s@,
            vstd::std_specs::iter::IteratorSpec::obeys_prophetic_iter_laws(&it),
                    vstd::std_specs::iter::IteratorSpec::decrease(&it) is Some,
        ensures
            out@ == s@,
        decreases vstd::std_specs::iter::IteratorSpec::decrease(&it)->0,
    {
        match it.next() {
            Some(c) => {
                out.push(c);
            },
            None => {
                assert(out@ + Seq::<char>::empty() == out@);
                break;
            },
        }
    }
    out
}

/// `s` without its leading "0x" prefixes, however many there are.
pub open spec fn strip_0x(s: Seq<char>) -> Seq<char>
    decreases s.len(),
{
    if s.len() >= 2 && s[0] == '0' && s[1] == 'x' {
        strip_0x(s.skip(2))
    } else {
        s
    }
}

/// The value of `c` as a digit in base 16 (`hex`) or 10.
pub open spec fn digit_value(c: char, hex: bool) -> Option<int> {
    if '0' <= c <= '9' {
        Some(c as int - '0' as int)
    } else if hex && 'a' <= c <= 'f' {
        Some(c as int - 'a' as int + 10)
    } else if hex && 'A' <= c <= 'F' {
        Some(c as int - 'A' as int + 10)
    } else {
        None
    }
}

/// The number that the digits `s` write in base 16 (`hex`) or 10; none when
/// some character is not a digit.
pub open spec fn digits_value(s: Seq<char>, hex: bool) -> Option<int>
    decreases s.len(),
{
    if s.len() == 0 {
        Some(0)
    } else {
        match (digits_value(s.drop_last(), hex), digit_value(s.last(), hex)) {
            (Some(v), Some(d)) => Some(v * (if hex {
                16int
            } else {
                10
            }) + d),
            _ => None,
        }
    }
}

/// What `u32::from_str_radix(s, 16)` gives: an optional `+` and then at
/// least one hexadecimal digit, writing a number that fits in 32 bits.
pub open spec fn hex_u32(s: Seq<char>) -> Option<u32> {
    let body = if s.len() > 0 && s[0] == '+' {
        s.drop_first()
    } else {
        s
    };
    if body.len() == 0 {
        None
    } else {
        match digits_value(body, true) {
            Some(v) => if v <= u32::MAX {
                Some(v as u32)
            } else {
                None
            },
            None => None,
        }
    }
}

/// What `s.parse::<i32>()` gives: an optional sign and then at least one
/// decimal digit, writing a number that fits in 32 bits with its sign.
pub open spec fn decimal_i32(s: Seq<char>) -> Option<i32> {
    let negative = s.len() > 0 && s[0] == '-';
    let body = if s.len() > 0 && (s[0] == '+' || s[0] == '-') {
        s.drop_first()
    } else {
        s
    };
    if body.len() == 0 {
        None
    } else {
        match digits_value(body, false) {
            Some(v) => if negative && v <= 0x8000_0000 {
                Some((-v) as i32)
            } else if !negative && v <= i32::MAX {
                Some(v as i32)
            } else {
                None
            },
            None => None,
        }
    }
}

proof fn lemma_digits_grow(v: int, d: int, hex: bool)
    requires
        v >= 0,
        d >= 0,
    ensures
        v * (if hex {
            16int
        } else {
            10
        }) + d >= v,
{
    if hex {
        assert(v * 16 + d >= v) by (nonlinear_arith)
            requires
                v >= 0,
                d >= 0,
        ;
    } else {
        assert(v * 10 + d >= v) by (nonlinear_arith)
            requires
                v >= 0,
                d >= 0,
        ;
    }
}

proof fn lemma_digits_nonnegative(s: Seq<char>, hex: bool)
    ensures
        digits_value(s, hex) matches Some(v) ==> v >= 0,
    decreases s.len(),
{
    if s.len() > 0 {
        lemma_digits_nonnegative(s.drop_last(), hex);
        if let Some(v) = digits_value(s.drop_last(), hex) {
            if let Some(d) = digit_value(s.last(), hex) {
                lemma_digits_grow(v, d, hex);
            }
        }
    }
}

/// The number that the digits `chars[start..]` write in base 16 (`hex`) or
/// 10, when they are all digits and it is at most `limit`.
fn digits_up_to(chars: &Vec<char>, start: usize, hex: bool, limit: u64) -> (r: Option<u64>)
    requires
        start <= chars@.len(),
        limit <= 0x1_0000_0000,
    ensures
        r == match digits_value(chars@.skip(start as int), hex) {
            Some(v) => if v <= limit {
                Some(v as u64)
            } else {
                None
            },
            None => None,
        },
{
    let radix: u64 = if hex {
        16
    } else {
        10
    };
    let mut value: u64 = 0;
    let mut fits = true;
    let mut i: usize = start;
    while i < chars.len()
        invariant
            start <= i <= chars@.len(),
            limit <= 0x1_0000_0000,
            radix == (if hex {
                16int
            } else {
                10
            }),
            fits ==> digits_value(chars@.subrange(start as int, i as int), hex) == Some(value as int)
                && value <= limit,
            !fits ==> match digits_value(chars@.subrange(start as int, i as int), hex) {
                Some(v) => v > limit,
                None => true,
            },
        decreases chars@.len() - i,
    {
        let c = chars[i];
        let ghost prefix = chars@.subrange(start as int, i as int);
        let ghost next = chars@.subrange(start as int, i + 1);
        assert(next.drop_last() == prefix);
        assert(next.last() == c);
        proof {
            lemma_digits_nonnegative(prefix, hex);
        }
        let d: Option<u64> = if '0' <= c && c <= '9' {
            Some((c as u32 - '0' as u32) as u64)
        } else if hex && 'a' <= c && c <= 'f' {
            Some((c as u32 - 'a' as u32 + 10) as u64)
        } else if hex && 'A' <= c && c <= 'F' {
            Some((c as u32 - 'A' as u32 + 10) as u64)
        } else {
            None
        };
        assert(d is Some ==> digit_value(c, hex) == Some(d->0 as int));
        assert(d is None ==> digit_value(c, hex) is None);
        match d {
            Some(d) => {
                if fits {
                    assert(value * radix + d <= 0x1_0000_0000 * 16 + 15) by (nonlinear_arith)
                        requires
                            value <= 0x1_0000_0000,
                            radix <= 16,
                            d < 16,
                    ;
                    let next_value = value * radix + d;
                    if next_value <= limit {
                        value = next_value;
                    } else {
                        fits = false;
                    }
                } else {
                    proof {
                        if let Some(v) = digits_value(prefix, hex) {
                            lemma_digits_grow(v, d as int, hex);
                        }
                    }
                }
            },
            None => {
                fits = false;
            },
        }
        i = i + 1;
    }
    assert(chars@.subrange(start as int, chars@.len() as int) == chars@.skip(start as int));
    if fits {
        Some(value)
    } else {
        None
    }
}

/// The number that a hexadecimal field holds, as `u32::from_str_radix` reads
/// it after its leading "0x" prefixes are taken off.
pub fn parse_hex_u32(text: &String) -> (r: Option<u32>)
    ensures
        r == hex_u32(strip_0x(text@)),
{
    let chars = chars_of(text);
    let mut start: usize = 0;
    assert(chars@.skip(0) == chars@);
    while start < chars.len() && chars.len() - start >= 2 && chars[start] == '0' && chars[start
        + 1] == 'x'
        invariant
            start <= chars@.len(),
            strip_0x(chars@.skip(start as int)) == strip_0x(text@),
            chars@ == text@,
        decreases chars@.len() - start,
    {
        proof {
            let s = chars@.skip(start as int);
            assert(s.skip(2) == chars@.skip(start + 2));
        }
        start = start + 2;
    }
    let ghost s = chars@.skip(start as int);
    assert(strip_0x(s) == s);
    let mut body_start = start;
    if start < chars.len() && chars[start] == '+' {
        body_start = start + 1;
        assert(s.drop_first() == chars@.skip(body_start as int));
    }
    if body_start == chars.len() {
        return None;
    }
    proof {
        lemma_digits_nonnegative(chars@.skip(body_start as int), true);
    }
    let r = digits_up_to(&chars, body_start, true, 0xFFFF_FFFF);
    match r {
        Some(v) => {
            assert(v <= 0xFFFF_FFFF);
            Some(v as u32)
        },
        None => None,
    }
}

/// The number that a decimal field holds, as `parse::<i32>` reads it.
pub fn parse_decimal_i32(text: &String) -> (r: Option<i32>)
    ensures
        r == decimal_i32(text@),
{
    let chars = chars_of(text);
    let negative = chars.len() > 0 && chars[0] == '-';
    let mut body_start: usize = 0;
    if chars.len() > 0 && (chars[0] == '+' || chars[0] == '-') {
        body_start = 1;
        assert(text@.drop_first() == chars@.skip(1));
    } else {
        assert(text@ == chars@.skip(0));
    }
    if body_start == chars.len() {
        return None;
    }
    let limit: u64 = if negative {
        0x8000_0000
    } else {
        0x7FFF_FFFF
    };
    proof {
        lemma_digits_nonnegative(chars@.skip(body_start as int), false);
    }
    let r = digits_up_to(&chars, body_start, false, limit);
    match r {
        Some(v) => {
            assert(v <= limit);
            if negative {
                Some((0 - v as i64) as i32)
            } else {
                Some(v as i32)
            }
        },
        None => None,
    }
}

} // verus!
