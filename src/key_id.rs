use vstd::prelude::*;

verus! {

/// `b` is an ASCII decimal digit.
pub open spec fn is_digit(b: u8) -> bool {
    48 <= b <= 57
}

/// The number that the decimal digits `d` write, most significant first.
pub open spec fn decimal_value(d: Seq<u8>) -> nat
    decreases d.len(),
{
    if d.len() == 0 {
        0
    } else {
        decimal_value(d.drop_last()) * 10 + (d.last() - 48) as nat
    }
}

/// The digits of a key identifier text: what follows an optional leading `+`.
pub open spec fn unsigned_digits(text: Seq<u8>) -> Seq<u8> {
    if text.len() > 0 && text[0] == 43 {
        text.drop_first()
    } else {
        text
    }
}

/// The key identifier that `text` writes: one or more decimal digits, after an
/// optional `+`, whose value fits in 64 bits; `None` for any other text.
pub open spec fn key_id_value(text: Seq<u8>) -> Option<u64> {
    let d = unsigned_digits(text);
    if d.len() > 0 && (forall|i: int| 0 <= i < d.len() ==> is_digit(#[trigger] d[i]))
        && decimal_value(d) <= u64::MAX {
        Some(decimal_value(d) as u64)
    } else {
        None
    }
}

/// A longer run of digits never writes a smaller number.
proof fn lemma_decimal_value_prefix(d: Seq<u8>, i: int)
    requires
        0 <= i <= d.len(),
        forall|k: int| 0 <= k < d.len() ==> is_digit(#[trigger] d[k]),
    ensures
        decimal_value(d.subrange(0, i)) <= decimal_value(d),
    decreases d.len() - i,
{
    if i < d.len() {
        lemma_decimal_value_prefix(d, i + 1);
        let p = d.subrange(0, i + 1);
        assert(p.drop_last() =~= d.subrange(0, i));
        assert(p.last() == d[i]);
    } else {
        assert(d.subrange(0, i) =~= d);
    }
}

/// Reads a key identifier as `key_id_value` says: decimal digits after an
/// optional `+`, with a value that fits in 64 bits.
pub fn parse_key_id(text: &[u8]) -> (r: Option<u64>)
    ensures
        r == key_id_value(text@),
{
    let n = text.len();
    let mut start: usize = 0;
    if n > 0 && text[0] == 43 {
        start = 1;
    }
    let ghost d = unsigned_digits(text@);
    assert(d =~= text@.subrange(start as int, n as int));
    if start == n {
        return None;
    }
    let mut value: u64 = 0;
    let mut i: usize = start;
    while i < n
        invariant
            n == text@.len(),
            start <= i <= n,
            d =~= text@.subrange(start as int, n as int),
            d == unsigned_digits(text@),
            forall|k: int| 0 <= k < i - start ==> is_digit(#[trigger] d[k]),
            value as nat == decimal_value(d.subrange(0, i - start)),
        decreases n - i,
    {
        let b = text[i];
        if b < 48 || b > 57 {
            assert(!is_digit(d[i - start]));
            return None;
        }
        let digit = (b - 48) as u64;
        let ghost p = d.subrange(0, i + 1 - start);
        assert(p.drop_last() =~= d.subrange(0, i - start));
        assert(p.last() == b);
        if value > (u64::MAX - digit) / 10 {
            proof {
                assert(decimal_value(p) > u64::MAX) by (nonlinear_arith)
                    requires
                        value > (u64::MAX - digit) / 10,
                        decimal_value(p) == value * 10 + digit,
                        digit <= 9,
                ;
                if forall|k: int| 0 <= k < d.len() ==> is_digit(#[trigger] d[k]) {
                    lemma_decimal_value_prefix(d, i + 1 - start);
                }
            }
            return None;
        }
        assert(value * 10 + digit <= u64::MAX) by (nonlinear_arith)
            requires
                value <= (u64::MAX - digit) / 10,
                digit <= 9,
        ;
        value = value * 10 + digit;
        i = i + 1;
    }
    assert(d.subrange(0, n - start) =~= d);
    Some(value)
}

} // verus!
