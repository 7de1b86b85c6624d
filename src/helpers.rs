//! Canonical textual forms of byte strings and unsigned integers.

use vstd::prelude::*;

verus! {

/// The character of a digit value below sixteen, lowercase for `a`..`f`.
pub open spec fn digit_char(d: nat) -> char {
    if d == 0 { '0' }
    else if d == 1 { '1' }
    else if d == 2 { '2' }
    else if d == 3 { '3' }
    else if d == 4 { '4' }
    else if d == 5 { '5' }
    else if d == 6 { '6' }
    else if d == 7 { '7' }
    else if d == 8 { '8' }
    else if d == 9 { '9' }
    else if d == 10 { 'a' }
    else if d == 11 { 'b' }
    else if d == 12 { 'c' }
    else if d == 13 { 'd' }
    else if d == 14 { 'e' }
    else { 'f' }
}

/// Two lowercase hexadecimal digits per byte, most significant nibble first.
pub open spec fn lower_hex(b: Seq<u8>) -> Seq<char>
    decreases b.len(),
{
    if b.len() == 0 {
        Seq::empty()
    } else {
        let last = b.last();
        lower_hex(b.drop_last()) + seq![digit_char((last / 16) as nat), digit_char((last % 16) as nat)]
    }
}

/// The canonical text of a byte string: `0x` followed by its lowercase hex digits.
pub open spec fn hex_text(b: Seq<u8>) -> Seq<char> {
    seq!['0', 'x'] + lower_hex(b)
}

/// The decimal digits of `n`, without leading zeros (`0` for zero).
pub open spec fn decimal(n: nat) -> Seq<char>
    decreases n,
{
    if n < 10 {
        seq![digit_char(n)]
    } else {
        decimal(n / 10).push(digit_char(n % 10))
    }
}

/// The unsigned value of a big-endian byte string.
pub open spec fn be_value(b: Seq<u8>) -> nat
    decreases b.len(),
{
    if b.len() == 0 {
        0
    } else {
        be_value(b.drop_last()) * 256 + b.last() as nat
    }
}

/// Distinct digit values below sixteen have distinct characters.
pub proof fn lemma_digit_char_injective(a: nat, b: nat)
    requires
        a < 16,
        b < 16,
        digit_char(a) == digit_char(b),
    ensures
        a == b,
{
}

/// No digit character is a dash.
pub proof fn lemma_digit_char_not_dash(d: nat)
    ensures
        digit_char(d) != '-',
{
}

/// The hex text of a byte string has two characters per byte, and the
/// characters at `2 * i` and `2 * i + 1` are the two nibbles of byte `i`.
pub proof fn lemma_lower_hex_shape(b: Seq<u8>)
    ensures
        lower_hex(b).len() == 2 * b.len(),
        forall|i: int|
            0 <= i < b.len() ==> #[trigger] lower_hex(b)[2 * i] == digit_char((b[i] / 16) as nat)
                && lower_hex(b)[2 * i + 1] == digit_char((b[i] % 16) as nat),
    decreases b.len(),
{
    if b.len() > 0 {
        let p = b.drop_last();
        lemma_lower_hex_shape(p);
        assert forall|i: int| 0 <= i < b.len() implies #[trigger] lower_hex(b)[2 * i] == digit_char(
            (b[i] / 16) as nat,
        ) && lower_hex(b)[2 * i + 1] == digit_char((b[i] % 16) as nat) by {
            let tail = seq![digit_char((b.last() / 16) as nat), digit_char((b.last() % 16) as nat)];
            assert(lower_hex(b) == lower_hex(p) + tail);
            if i < p.len() {
                assert(p[i] == b[i]);
                assert(lower_hex(b)[2 * i] == lower_hex(p)[2 * i]);
                assert(lower_hex(b)[2 * i + 1] == lower_hex(p)[2 * i + 1]);
            } else {
                assert(lower_hex(b)[2 * i] == tail[0]);
                assert(lower_hex(b)[2 * i + 1] == tail[1]);
            }
        }
    }
}

/// No character of a hex text is a dash.
pub proof fn lemma_hex_text_no_dash(b: Seq<u8>)
    ensures
        !hex_text(b).contains('-'),
{
    lemma_lower_hex_shape(b);
    let h = hex_text(b);
    assert forall|k: int| 0 <= k < h.len() implies h[k] != '-' by {
        if k >= 2 {
            let j = k - 2;
            let i = j / 2;
            assert(h[k] == lower_hex(b)[j]);
            assert(j == 2 * i || j == 2 * i + 1);
            assert(lower_hex(b)[2 * i] == digit_char((b[i] / 16) as nat));
            lemma_digit_char_not_dash((b[i] / 16) as nat);
            lemma_digit_char_not_dash((b[i] % 16) as nat);
        }
    }
}

/// The text `format_hex` produces has length `2 + 2 * len(b)`, and distinct byte
/// strings never produce the same text.
pub proof fn lemma_hex_text_injective(a: Seq<u8>, b: Seq<u8>)
    ensures
        hex_text(a).len() == 2 + 2 * a.len(),
        hex_text(a) == hex_text(b) ==> a == b,
{
    lemma_lower_hex_shape(a);
    lemma_lower_hex_shape(b);
    if hex_text(a) == hex_text(b) {
        assert(lower_hex(a) == hex_text(a).subrange(2, hex_text(a).len() as int));
        assert(lower_hex(b) == hex_text(b).subrange(2, hex_text(b).len() as int));
        assert(a.len() == b.len());
        assert forall|i: int| 0 <= i < a.len() implies a[i] == b[i] by {
            assert(lower_hex(a)[2 * i] == lower_hex(b)[2 * i]);
            assert(lower_hex(a)[2 * i + 1] == lower_hex(b)[2 * i + 1]);
            lemma_digit_char_injective((a[i] / 16) as nat, (b[i] / 16) as nat);
            lemma_digit_char_injective((a[i] % 16) as nat, (b[i] % 16) as nat);
        }
        assert(a =~= b);
    }
}

/// Decimal text is never empty and holds no dash.
pub proof fn lemma_decimal_no_dash(n: nat)
    ensures
        decimal(n).len() >= 1,
        !decimal(n).contains('-'),
    decreases n,
{
    if n >= 10 {
        lemma_decimal_no_dash(n / 10);
        let d = decimal(n);
        assert forall|k: int| 0 <= k < d.len() implies d[k] != '-' by {
            if k < d.len() - 1 {
                assert(d[k] == decimal(n / 10)[k]);
            } else {
                lemma_digit_char_not_dash(n % 10);
            }
        }
    } else {
        lemma_digit_char_not_dash(n);
    }
}

/// Distinct numbers have distinct decimal text.
pub proof fn lemma_decimal_injective(a: nat, b: nat)
    requires
        decimal(a) == decimal(b),
    ensures
        a == b,
    decreases a + b,
{
    lemma_decimal_no_dash(a / 10);
    lemma_decimal_no_dash(b / 10);
    if a < 10 && b < 10 {
        assert(decimal(a) =~= seq![digit_char(a)]);
        assert(decimal(b) =~= seq![digit_char(b)]);
        assert(decimal(a)[0] == digit_char(a));
        assert(decimal(b)[0] == digit_char(b));
        lemma_digit_char_injective(a, b);
    } else if a < 10 {
        assert(decimal(b).len() >= 2);
    } else if b < 10 {
        assert(decimal(a).len() >= 2);
    } else {
        let da = decimal(a);
        assert(da.last() == decimal(b).last());
        lemma_digit_char_injective(a % 10, b % 10);
        assert(decimal(a / 10) =~= da.drop_last());
        assert(decimal(b / 10) =~= decimal(b).drop_last());
        lemma_decimal_injective(a / 10, b / 10);
    }
}

/// Relies on `substreams::Hex::to_string`: two lowercase hex digits per byte, in order.
#[verifier::external_body]
fn lower_hex_string(bytes: &[u8]) -> (r: String)
    ensures
        r@ == lower_hex(bytes@),
{
    substreams::Hex(bytes).to_string()
}

/// Relies on `substreams::scalar::BigInt::from_unsigned_bytes_be` and its `Display`:
/// the decimal text of the unsigned big-endian value.
#[verifier::external_body]
pub(crate) fn be_decimal_string(bytes: &[u8]) -> (r: String)
    ensures
        r@ == decimal(be_value(bytes@)),
{
    substreams::scalar::BigInt::from_unsigned_bytes_be(bytes).to_string()
}

fn digit_str(d: u64) -> (r: &'static str)
    requires
        d < 10,
    ensures
        r@ == seq![digit_char(d as nat)],
{
    proof {
        reveal_strlit("0");
        reveal_strlit("1");
        reveal_strlit("2");
        reveal_strlit("3");
        reveal_strlit("4");
        reveal_strlit("5");
        reveal_strlit("6");
        reveal_strlit("7");
        reveal_strlit("8");
        reveal_strlit("9");
    }
    let r = if d == 0 {
        "0"
    } else if d == 1 {
        "1"
    } else if d == 2 {
        "2"
    } else if d == 3 {
        "3"
    } else if d == 4 {
        "4"
    } else if d == 5 {
        "5"
    } else if d == 6 {
        "6"
    } else if d == 7 {
        "7"
    } else if d == 8 {
        "8"
    } else {
        "9"
    };
    proof {
        assert(r@ =~= seq![digit_char(d as nat)]);
    }
    r
}

/// The decimal text of an integer.
pub fn u64_decimal_string(n: u64) -> (r: String)
    ensures
        r@ == decimal(n as nat),
{
    let mut out = String::from_str(digit_str(n % 10));
    let mut rest: u64 = n / 10;
    proof {
        if n >= 10 {
            assert(decimal(n as nat) =~= decimal(rest as nat) + out@);
        } else {
            assert(decimal(n as nat) =~= out@);
        }
    }
    while rest > 0
        invariant
            decimal(n as nat) == (if rest == 0 {
                Seq::<char>::empty()
            } else {
                decimal(rest as nat)
            }) + out@,
        decreases rest,
    {
        let mut next = String::from_str(digit_str(rest % 10));
        next.append(out.as_str());
        proof {
            if rest >= 10 {
                assert(decimal(n as nat) =~= decimal((rest / 10) as nat) + next@);
            } else {
                assert(decimal(n as nat) =~= Seq::<char>::empty() + next@);
            }
        }
        out = next;
        rest = rest / 10;
    }
    proof {
        assert(decimal(n as nat) =~= out@);
    }
    out
}

/// The lowercase hexadecimal representation of `address`, prefixed with `0x`.
pub fn format_hex(address: &[u8]) -> (r: String)
    ensures
        r@ == hex_text(address@),
{
    let digits = lower_hex_string(address);
    let mut out = String::from_str("0x");
    proof {
        reveal_strlit("0x");
    }
    out.append(digits.as_str());
    out
}

/// The canonical hex text of each byte string, in order.
pub open spec fn hex_texts(items: Seq<Vec<u8>>) -> Seq<Seq<char>> {
    items.map_values(|b: Vec<u8>| hex_text(b@))
}

/// `format_hex` applied element-wise, keeping the input order.
pub fn format_hex_all(items: &Vec<Vec<u8>>) -> (r: Vec<String>)
    ensures
        r@.map_values(|s: String| s@) == hex_texts(items@),
{
    let mut out: Vec<String> = Vec::new();
    let mut i: usize = 0;
    while i < items.len()
        invariant
            i <= items.len(),
            out@.map_values(|s: String| s@) == hex_texts(items@.subrange(0, i as int)),
        decreases items.len() - i,
    {
        let text = format_hex(items[i].as_slice());
        let ghost before = out@;
        out.push(text);
        proof {
            assert(out@.map_values(|s: String| s@) =~= before.map_values(|s: String| s@).push(text@));
            assert(hex_texts(items@.subrange(0, i as int + 1)) =~= hex_texts(
                items@.subrange(0, i as int),
            ).push(hex_text(items@[i as int]@)));
        }
        i += 1;
    }
    proof {
        assert(items@.subrange(0, items.len() as int) =~= items@);
    }
    out
}

} // verus!
