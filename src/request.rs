//! Reading what a visitor's request carries besides the signature.
use vstd::prelude::*;
use vstd::utf8::encode_utf8;

verus! {

pub open spec fn is_digit(b: u8) -> bool {
    0x30 <= b <= 0x39
}

/// The value of a string of decimal digits.
pub open spec fn digits_value(s: Seq<u8>) -> nat
    decreases s.len(),
{
    if s.len() == 0 {
        0
    } else {
        digits_value(s.drop_last()) * 10 + (s.last() - 0x30) as nat
    }
}

pub open spec fn all_digits(d: Seq<u8>) -> bool {
    forall|i: int| 0 <= i < d.len() ==> is_digit(#[trigger] d[i])
}

pub open spec fn is_negative(t: Seq<u8>) -> bool {
    t.len() > 0 && t[0] == 0x2d
}

/// The digits of a number's text, after its sign.
pub open spec fn magnitude_digits(t: Seq<u8>) -> Seq<u8> {
    if is_negative(t) {
        t.drop_first()
    } else {
        t
    }
}

/// The chat identifier a text names: decimal digits, optionally after a
/// minus sign, whose value fits in an `i64`.
pub open spec fn chat_id_of(t: Seq<u8>) -> Option<i64> {
    let neg = is_negative(t);
    let d = magnitude_digits(t);
    let v: int = if neg {
        -digits_value(d)
    } else {
        digits_value(d) as int
    };
    if d.len() == 0 || !all_digits(d) {
        None
    } else if i64::MIN <= v <= i64::MAX {
        Some(v as i64)
    } else {
        None
    }
}

/// Reads a chat identifier from its decimal text; none where the text is
/// not one.
pub fn parse_chat_id(text: &str) -> (r: Option<i64>)
    ensures
        r == chat_id_of(encode_utf8(text@)),
{
    let t = text.as_bytes();
    let neg = t.len() > 0 && t[0] == 0x2d;
    let start: usize = if neg {
        1
    } else {
        0
    };
    let ghost d = magnitude_digits(t@);
    assert(d =~= t@.subrange(start as int, t@.len() as int));
    if t.len() == start {
        return None;
    }
    let mut acc: u64 = 0;
    let mut over = false;
    let mut i: usize = start;
    while i < t.len()
        invariant
            start <= i <= t.len(),
            t@ == encode_utf8(text@),
            neg == is_negative(t@),
            d == magnitude_digits(t@),
            d =~= t@.subrange(start as int, t@.len() as int),
            forall|j: int| 0 <= j < i - start ==> is_digit(#[trigger] d[j]),
            over ==> digits_value(d.subrange(0, i - start)) > u64::MAX,
            !over ==> acc == digits_value(d.subrange(0, i - start)),
        decreases t.len() - i,
    {
        let b = t[i];
        if b < 0x30 || b > 0x39 {
            assert(!is_digit(d[i - start]));
            return None;
        }
        let ghost k = i - start;
        let ghost prev = digits_value(d.subrange(0, k));
        assert(d.subrange(0, k + 1).drop_last() =~= d.subrange(0, k));
        assert(digits_value(d.subrange(0, k + 1)) == prev * 10 + (b - 0x30) as nat);
        if !over {
            match acc.checked_mul(10) {
                Some(m) => match m.checked_add((b - 0x30) as u64) {
                    Some(v) => {
                        acc = v;
                    },
                    None => {
                        over = true;
                    },
                },
                None => {
                    over = true;
                    assert(prev * 10 + (b - 0x30) as nat > u64::MAX) by (nonlinear_arith)
                        requires
                            prev * 10 > u64::MAX,
                    ;
                },
            }
        } else {
            assert(prev * 10 + (b - 0x30) as nat > u64::MAX) by (nonlinear_arith)
                requires
                    prev > u64::MAX,
            ;
        }
        i = i + 1;
    }
    assert(d.subrange(0, d.len() as int) =~= d);
    if over {
        return None;
    }
    if neg {
        if acc <= 0x8000_0000_0000_0000u64 {
            Some((0i128 - acc as i128) as i64)
        } else {
            None
        }
    } else {
        if acc <= 0x7fff_ffff_ffff_ffffu64 {
            Some(acc as i64)
        } else {
            None
        }
    }
}

} // verus!
