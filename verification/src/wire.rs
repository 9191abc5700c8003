//! The wire format: how a control pair is written for the remote listener.
//!
//! A pair travels as a compact JSON object with the two integer fields
//! `channel` and `value`, in that order, with no whitespace, no length prefix
//! and no terminator: `{"channel":5,"value":10}`.
use crate::pair::ControlPair;
use vstd::prelude::*;
use vstd::string::*;

verus! {

/// The bytes of a text made of ASCII characters only.
pub open spec fn ascii(text: Seq<char>) -> Seq<u8> {
    Seq::new(text.len(), |i: int| text[i] as u8)
}

/// The ASCII byte of the decimal digit `d`.
pub open spec fn digit(d: int) -> u8
    recommends
        0 <= d <= 9,
{
    ('0' as int + d) as u8
}

/// The decimal digits of `n`, most significant first, without leading zeros.
pub open spec fn digits(n: nat) -> Seq<u8>
    decreases n,
{
    if n < 10 {
        seq![digit(n as int)]
    } else {
        digits(n / 10).push(digit((n % 10) as int))
    }
}

/// The way JSON writes the integer `n`: its decimal digits, after a minus
/// sign where `n` is negative.
pub open spec fn decimal(n: int) -> Seq<u8> {
    if n < 0 {
        seq!['-' as u8] + digits((-n) as nat)
    } else {
        digits(n as nat)
    }
}

/// The bytes that stand for `pair` on the wire.
pub open spec fn wire_format(pair: ControlPair) -> Seq<u8> {
    ascii("{\"channel\":"@) + decimal(pair.channel as int) + ascii(",\"value\":"@) + decimal(
        pair.value as int,
    ) + ascii("}"@)
}

/// Renders an integer as a JSON number by calling `serde_json::to_vec`.
///
/// Trusted, not proved: for an `i32` serde_json writes the decimal digits of
/// the number, most significant first and without leading zeros, after a `-`
/// where it is negative, and nothing else. Writing into a vector cannot fail,
/// so the error branch is never taken.
#[verifier::external_body]
fn json_integer(n: i32) -> (text: Vec<u8>)
    ensures
        text@ == decimal(n as int),
{
    serde_json::to_vec(&n).unwrap_or_default()
}

/// Appends the bytes of an ASCII text to `out`.
fn put_ascii(out: &mut Vec<u8>, text: &str)
    requires
        is_ascii(text),
    ensures
        final(out)@ == old(out)@ + ascii(text@),
{
    let bytes = text.as_bytes();
    proof {
        is_ascii_spec_bytes(text);
    }
    let mut i: usize = 0;
    while i < bytes.len()
        invariant
            i <= bytes.len(),
            bytes@ == ascii(text@),
            out@ == old(out)@ + bytes@.subrange(0, i as int),
        decreases bytes.len() - i,
    {
        out.push(bytes[i]);
        i += 1;
    }
    assert(bytes@.subrange(0, i as int) == bytes@);
}

/// Writes `pair` in the wire format.
pub fn encode(pair: ControlPair) -> (bytes: Vec<u8>)
    ensures
        bytes@ == wire_format(pair),
{
    proof {
        reveal_strlit("{\"channel\":");
        reveal_strlit(",\"value\":");
        reveal_strlit("}");
    }
    let mut bytes: Vec<u8> = Vec::new();
    put_ascii(&mut bytes, "{\"channel\":");
    let mut channel = json_integer(pair.channel);
    bytes.append(&mut channel);
    put_ascii(&mut bytes, ",\"value\":");
    let mut value = json_integer(pair.value);
    bytes.append(&mut value);
    put_ascii(&mut bytes, "}");
    bytes
}

/// Whether `byte` can occur in the decimal form of an integer.
pub open spec fn is_numeric(byte: u8) -> bool {
    byte == '-' as u8 || ('0' as u8 <= byte && byte <= '9' as u8)
}

/// The digits of a number are digits, one of them for a number below ten
/// and more for any other.
pub proof fn lemma_digits_shape(n: nat)
    ensures
        digits(n).len() >= 1,
        n < 10 <==> digits(n).len() == 1,
        forall|i: int|
            0 <= i < digits(n).len() ==> '0' as u8 <= #[trigger] digits(n)[i] <= '9' as u8,
    decreases n,
{
    if n >= 10 {
        lemma_digits_shape(n / 10);
    }
}

/// Numbers with the same digits are equal.
pub proof fn lemma_digits_injective(a: nat, b: nat)
    requires
        digits(a) == digits(b),
    ensures
        a == b,
    decreases a,
{
    lemma_digits_shape(a);
    lemma_digits_shape(b);
    if a >= 10 {
        assert(digits(a).drop_last() == digits(a / 10));
        assert(digits(b).drop_last() == digits(b / 10));
        assert(digits(a).last() == digit((a % 10) as int));
        assert(digits(b).last() == digit((b % 10) as int));
        lemma_digits_injective(a / 10, b / 10);
        assert(a % 10 == b % 10);
    } else {
        assert(digits(a)[0] == digit(a as int));
        assert(digits(b)[0] == digit(b as int));
    }
}

/// The decimal form of an integer is not empty and holds nothing but digits
/// and a minus sign.
pub proof fn lemma_decimal_shape(n: int)
    ensures
        decimal(n).len() >= 1,
        forall|i: int| 0 <= i < decimal(n).len() ==> is_numeric(#[trigger] decimal(n)[i]),
{
    if n < 0 {
        lemma_digits_shape((-n) as nat);
    } else {
        lemma_digits_shape(n as nat);
    }
}

/// Integers with the same decimal form are equal.
pub proof fn lemma_decimal_injective(a: int, b: int)
    requires
        decimal(a) == decimal(b),
    ensures
        a == b,
{
    let x = if a < 0 {
        (-a) as nat
    } else {
        a as nat
    };
    let y = if b < 0 {
        (-b) as nat
    } else {
        b as nat
    };
    lemma_digits_shape(x);
    lemma_digits_shape(y);
    assert(decimal(a)[0] == decimal(b)[0]);
    if a < 0 {
        assert(decimal(a)[0] == '-' as u8);
        assert(b < 0) by {
            if b >= 0 {
                assert(decimal(b)[0] == digits(y)[0]);
            }
        }
        assert(digits(x) =~= decimal(a).subrange(1, decimal(a).len() as int));
        assert(digits(y) =~= decimal(b).subrange(1, decimal(b).len() as int));
    } else {
        assert(decimal(a)[0] == digits(x)[0]);
        assert(b >= 0);
    }
    lemma_digits_injective(x, y);
}

/// Every byte of the wire format is an ASCII character, so the bytes are
/// valid UTF-8.
pub proof fn lemma_wire_format_is_ascii(pair: ControlPair, i: int)
    requires
        0 <= i < wire_format(pair).len(),
    ensures
        wire_format(pair)[i] < 128,
{
    reveal_strlit("{\"channel\":");
    reveal_strlit(",\"value\":");
    reveal_strlit("}");
    lemma_decimal_shape(pair.channel as int);
    lemma_decimal_shape(pair.value as int);
}

/// A valid pair takes between 23 and 27 bytes on the wire.
pub proof fn lemma_wire_format_len(pair: ControlPair)
    requires
        pair.is_valid(),
    ensures
        23 <= wire_format(pair).len() <= 27,
{
    reveal_strlit("{\"channel\":");
    reveal_strlit(",\"value\":");
    reveal_strlit("}");
    reveal_with_fuel(digits, 4);
}

/// No pair's bytes are the beginning of another pair's bytes. Messages that
/// follow each other without a separator can therefore be told apart in one
/// way only, and pairs that are written alike are the same pair.
pub proof fn lemma_wire_format_is_prefix_free(a: ControlPair, b: ControlPair)
    requires
        wire_format(a).is_prefix_of(wire_format(b)),
    ensures
        a == b,
{
    reveal_strlit("{\"channel\":");
    reveal_strlit(",\"value\":");
    reveal_strlit("}");
    let head = ascii("{\"channel\":"@);
    let middle = ascii(",\"value\":"@);
    let tail = ascii("}"@);
    let wa = wire_format(a);
    let wb = wire_format(b);
    let ca = decimal(a.channel as int);
    let cb = decimal(b.channel as int);
    let va = decimal(a.value as int);
    let vb = decimal(b.value as int);
    lemma_decimal_shape(a.channel as int);
    lemma_decimal_shape(b.channel as int);
    lemma_decimal_shape(a.value as int);
    lemma_decimal_shape(b.value as int);
    assert(forall|i: int| 0 <= i < wa.len() ==> wa[i] == wb[i]);
    assert(middle[0] == ',' as u8 && !is_numeric(middle[0]));
    assert(tail[0] == '}' as u8 && !is_numeric(tail[0]));

    assert(ca.len() == cb.len()) by {
        if ca.len() < cb.len() {
            let i = (head.len() + ca.len()) as int;
            assert(wa[i] == middle[0]);
            assert(wb[i] == cb[ca.len() as int]);
        } else if cb.len() < ca.len() {
            let i = (head.len() + cb.len()) as int;
            assert(wa[i] == ca[cb.len() as int]);
            assert(wb[i] == middle[0]);
        }
    }
    assert(ca =~= cb) by {
        assert forall|j: int| 0 <= j < ca.len() implies ca[j] == cb[j] by {
            assert(wa[head.len() + j] == ca[j]);
            assert(wb[head.len() + j] == cb[j]);
        }
    }
    lemma_decimal_injective(a.channel as int, b.channel as int);

    let start = (head.len() + ca.len() + middle.len()) as int;
    assert(va.len() == vb.len()) by {
        if va.len() < vb.len() {
            let i = start + va.len();
            assert(wa[i] == tail[0]);
            assert(wb[i] == vb[va.len() as int]);
        } else if vb.len() < va.len() {
            let i = start + vb.len();
            assert(wa[i] == va[vb.len() as int]);
            assert(wb[i] == tail[0]);
        }
    }
    assert(va =~= vb) by {
        assert forall|j: int| 0 <= j < va.len() implies va[j] == vb[j] by {
            assert(wa[start + j] == va[j]);
            assert(wb[start + j] == vb[j]);
        }
    }
    lemma_decimal_injective(a.value as int, b.value as int);
}

} // verus!
