//! Text encodings used by the canonical evidence material: lowercase hex,
//! decimal integers and `|`-joined field lists.

use vstd::prelude::*;
use vstd::string::*;
use vstd::utf8::*;

verus! {

/// The lowercase hex digit for a nibble value `n` (0..16).
pub open spec fn hex_digit(n: int) -> char {
    if n < 10 {
        (n + 48) as char
    } else {
        (n + 87) as char
    }
}

/// Lowercase hex encoding: two characters per byte, high nibble first.
pub open spec fn hex_lower(bytes: Seq<u8>) -> Seq<char> {
    Seq::new(
        2 * bytes.len(),
        |i: int|
            if i % 2 == 0 {
                hex_digit(bytes[i / 2] as int / 16)
            } else {
                hex_digit(bytes[i / 2] as int % 16)
            },
    )
}

/// The value of one hex digit byte (either case), or -1 when the byte is no hex digit.
pub open spec fn hex_value(b: u8) -> int {
    if 48 <= b <= 57 {
        b - 48
    } else if 65 <= b <= 70 {
        b - 55
    } else if 97 <= b <= 102 {
        b - 87
    } else {
        -1
    }
}

/// Hex decoding of a byte string: `None` for an odd length or for any byte
/// that is not a hex digit; otherwise one byte per pair, high nibble first.
pub open spec fn hex_decode_spec(text: Seq<u8>) -> Option<Seq<u8>> {
    if text.len() % 2 != 0 {
        None
    } else if exists|i: int| 0 <= i < text.len() && hex_value(#[trigger] text[i]) < 0 {
        None
    } else {
        Some(
            Seq::new(
                text.len() / 2,
                |i: int| (hex_value(text[2 * i]) * 16 + hex_value(text[2 * i + 1])) as u8,
            ),
        )
    }
}

pub proof fn lemma_hex_digit(n: int)
    requires
        0 <= n < 16,
    ensures
        '\0' <= hex_digit(n) <= '\u{7f}',
        hex_value(hex_digit(n) as u8) == n,
{
}


/// Every character of a lowercase hex encoding is ASCII, and the encoding is
/// twice as long as the bytes.
pub proof fn lemma_hex_lower_ascii(bytes: Seq<u8>)
    ensures
        hex_lower(bytes).len() == 2 * bytes.len(),
        is_ascii_chars(hex_lower(bytes)),
{
    let s = hex_lower(bytes);
    assert forall|i: int| 0 <= i < s.len() implies '\0' <= #[trigger] s[i] <= '\u{7f}' by {
        lemma_hex_digit(bytes[i / 2] as int / 16);
        lemma_hex_digit(bytes[i / 2] as int % 16);
    }
}

/// Decoding the UTF-8 bytes of a lowercase hex encoding gives the bytes back.
pub proof fn lemma_hex_roundtrip(bytes: Seq<u8>)
    ensures
        hex_decode_spec(encode_utf8(hex_lower(bytes))) == Some(bytes),
{
    let s = hex_lower(bytes);
    lemma_hex_lower_ascii(bytes);
    is_ascii_chars_encode_utf8(s);
    let t = encode_utf8(s);
    assert forall|i: int| 0 <= i < t.len() implies hex_value(#[trigger] t[i]) >= 0 by {
        assert(t[i] == s[i] as u8);
        lemma_hex_digit(bytes[i / 2] as int / 16);
        lemma_hex_digit(bytes[i / 2] as int % 16);
    }
    let d = Seq::new(
        t.len() / 2,
        |i: int| (hex_value(t[2 * i]) * 16 + hex_value(t[2 * i + 1])) as u8,
    );
    assert forall|j: int| 0 <= j < bytes.len() implies d[j] == bytes[j] by {
        assert(t[2 * j] == s[2 * j] as u8);
        assert(t[2 * j + 1] == s[2 * j + 1] as u8);
        assert((2 * j) / 2 == j);
        assert((2 * j + 1) / 2 == j);
        assert((2 * j) % 2 == 0);
        assert((2 * j + 1) % 2 == 1);
        lemma_hex_digit(bytes[j] as int / 16);
        lemma_hex_digit(bytes[j] as int % 16);
    }
    assert(d =~= bytes);
}

/// Decimal digits of a natural number, most significant first, no leading zeros.
pub open spec fn decimal_nat(n: nat) -> Seq<char>
    decreases n,
{
    if n < 10 {
        seq![(n + 48) as char]
    } else {
        decimal_nat(n / 10) + seq![((n % 10) + 48) as char]
    }
}

/// Decimal text of a signed integer: a leading `-` for negative values.
pub open spec fn decimal_int(n: int) -> Seq<char> {
    if n < 0 {
        seq!['-'] + decimal_nat((-n) as nat)
    } else {
        decimal_nat(n as nat)
    }
}

/// Fields joined with `|` between consecutive fields.
pub open spec fn join_bar(fields: Seq<Seq<char>>) -> Seq<char>
    decreases fields.len(),
{
    if fields.len() == 0 {
        Seq::empty()
    } else if fields.len() == 1 {
        fields[0]
    } else {
        join_bar(fields.drop_last()) + seq!['|'] + fields.last()
    }
}

/// `hex::encode`: lowercase hex of the bytes, as its documentation states
/// (two lowercase digits per byte, high nibble first).
#[verifier::external_body]
pub fn hex_encode(bytes: &[u8]) -> (res: String)
    ensures
        res@ == hex_lower(bytes@),
{
    hex::encode(bytes)
}

/// `hex::decode` on the UTF-8 bytes of `text`: `None` where the crate
/// returns an error (odd length, or a byte that is no hex digit of either
/// case), otherwise the decoded bytes.
#[verifier::external_body]
pub fn hex_decode(text: &str) -> (res: Option<Vec<u8>>)
    ensures
        match res {
            Some(v) => hex_decode_spec(text.spec_bytes()) == Some(v@),
            None => hex_decode_spec(text.spec_bytes()) is None,
        },
{
    hex::decode(text).ok()
}

/// The text of one decimal digit.
fn digit_text(d: u64) -> (res: &'static str)
    requires
        d < 10,
    ensures
        res@ == seq![(d + 48) as char],
{
    proof {
        reveal_strlit("0");
        reveal_strlit("1");
        reveal_strlit("2");
        reveal_strlit("3");
        reveal_strlit("4");
        reveal_strlit("5");
        reveal_strlit("6");
        reveal_strlit("7");
        reveal_strlit("8");
        reveal_strlit("9");
    }
    match d {
        0 => "0",
        1 => "1",
        2 => "2",
        3 => "3",
        4 => "4",
        5 => "5",
        6 => "6",
        7 => "7",
        8 => "8",
        _ => "9",
    }
}

/// Appends the decimal digits of `n` to `out`.
fn append_decimal(n: u64, out: &mut String)
    ensures
        final(out)@ == old(out)@ + decimal_nat(n as nat),
    decreases n,
{
    if n >= 10 {
        append_decimal(n / 10, out);
    }
    out.append(digit_text(n % 10));
    assert(out@ =~= old(out)@ + decimal_nat(n as nat)) by {
        if n >= 10 {
            assert(decimal_nat(n as nat) == decimal_nat((n / 10) as nat) + seq![((n % 10) + 48) as char]);
        }
    }
}

/// The decimal digits of `n`, as `u64::to_string` writes them.
pub fn u64_to_decimal(n: u64) -> (res: String)
    ensures
        res@ == decimal_nat(n as nat),
{
    let mut res = String::new();
    append_decimal(n, &mut res);
    assert(res@ =~= decimal_nat(n as nat));
    res
}

/// The decimal text of `n`, as `i64::to_string` writes it: a leading `-` for
/// negative values.
pub fn i64_to_decimal(n: i64) -> (res: String)
    ensures
        res@ == decimal_int(n as int),
{
    let mut res = String::new();
    if n < 0 {
        res.append("-");
        proof {
            reveal_strlit("-");
        }
        let magnitude: u64 = (0i128 - n as i128) as u64;
        append_decimal(magnitude, &mut res);
    } else {
        append_decimal(n as u64, &mut res);
    }
    assert(res@ =~= decimal_int(n as int));
    res
}

/// Joins the fields with `|`, as `[..].join("|")` does.
pub fn join_with_bar(fields: &Vec<String>) -> (res: String)
    ensures
        res@ == join_bar(fields.deep_view()),
{
    let ghost views = fields.deep_view();
    let mut res = String::new();
    let mut i: usize = 0;
    while i < fields.len()
        invariant
            i <= fields.len(),
            views == fields.deep_view(),
            res@ == join_bar(views.take(i as int)),
        decreases fields.len() - i,
    {
        let ghost before = res@;
        if i != 0 {
            let bar = "|";
            proof {
                reveal_strlit("|");
            }
            res.append(bar);
        }
        res.append(fields[i].as_str());
        proof {
            assert(views.take(i + 1).drop_last() =~= views.take(i as int));
            assert(views.take(i + 1).last() == fields[i as int]@);
            if i == 0 {
                assert(res@ =~= fields[0]@);
            } else {
                assert(res@ =~= before + seq!['|'] + fields[i as int]@);
            }
        }
        i = i + 1;
    }
    assert(views.take(fields.len() as int) =~= views);
    res
}


/// No character of the text is `|`.
pub open spec fn bar_free(text: Seq<char>) -> bool {
    forall|i: int| 0 <= i < text.len() ==> #[trigger] text[i] != '|'
}

pub proof fn lemma_hex_lower_bar_free(bytes: Seq<u8>)
    ensures
        bar_free(hex_lower(bytes)),
{
    let s = hex_lower(bytes);
    assert forall|i: int| 0 <= i < s.len() implies #[trigger] s[i] != '|' by {
        lemma_hex_digit(bytes[i / 2] as int / 16);
        lemma_hex_digit(bytes[i / 2] as int % 16);
    }
}

/// Different bytes have different hex encodings.
pub proof fn lemma_hex_lower_injective(a: Seq<u8>, b: Seq<u8>)
    requires
        hex_lower(a) == hex_lower(b),
    ensures
        a == b,
{
    lemma_hex_roundtrip(a);
    lemma_hex_roundtrip(b);
}

pub proof fn lemma_decimal_nat_shape(n: nat)
    ensures
        decimal_nat(n).len() >= 1,
        n < 10 ==> decimal_nat(n).len() == 1,
        n >= 10 ==> decimal_nat(n).len() >= 2,
        bar_free(decimal_nat(n)),
        forall|i: int| 0 <= i < decimal_nat(n).len() ==> #[trigger] decimal_nat(n)[i] != '-',
    decreases n,
{
    if n >= 10 {
        lemma_decimal_nat_shape(n / 10);
    }
}

/// Different natural numbers have different decimal texts.
pub proof fn lemma_decimal_nat_injective(n: nat, m: nat)
    requires
        decimal_nat(n) == decimal_nat(m),
    ensures
        n == m,
    decreases n,
{
    lemma_decimal_nat_shape(n);
    lemma_decimal_nat_shape(m);
    if n < 10 && m < 10 {
        assert(decimal_nat(n)[0] == decimal_nat(m)[0]);
        assert(decimal_nat(n)[0] as int == n + 48);
        assert(decimal_nat(m)[0] as int == m + 48);
    } else if n >= 10 && m >= 10 {
        let dn = decimal_nat(n);
        let dm = decimal_nat(m);
        assert(dn.last() == ((n % 10) + 48) as char);
        assert(dm.last() == ((m % 10) + 48) as char);
        assert(dn.last() as int == n % 10 + 48);
        assert(dm.last() as int == m % 10 + 48);
        assert(n % 10 == m % 10);
        assert(dn.drop_last() =~= decimal_nat(n / 10));
        assert(dm.drop_last() =~= decimal_nat(m / 10));
        lemma_decimal_nat_injective(n / 10, m / 10);
        assert(n == (n / 10) * 10 + n % 10);
        assert(m == (m / 10) * 10 + m % 10);
    } else {
        assert(decimal_nat(n).len() != decimal_nat(m).len());
    }
}

/// Different integers have different decimal texts.
pub proof fn lemma_decimal_int_injective(n: int, m: int)
    requires
        decimal_int(n) == decimal_int(m),
    ensures
        n == m,
{
    if n < 0 && m < 0 {
        assert(decimal_int(n).drop_first() =~= decimal_nat((-n) as nat));
        assert(decimal_int(m).drop_first() =~= decimal_nat((-m) as nat));
        lemma_decimal_nat_injective((-n) as nat, (-m) as nat);
    } else if n >= 0 && m >= 0 {
        lemma_decimal_nat_injective(n as nat, m as nat);
    } else if n < 0 {
        lemma_decimal_nat_shape(m as nat);
        assert(decimal_int(n)[0] == '-');
    } else {
        lemma_decimal_nat_shape(n as nat);
        assert(decimal_int(m)[0] == '-');
    }
}

pub proof fn lemma_decimal_int_bar_free(n: int)
    ensures
        bar_free(decimal_int(n)),
{
    if n < 0 {
        lemma_decimal_nat_shape((-n) as nat);
        let d = decimal_int(n);
        assert forall|i: int| 0 <= i < d.len() implies #[trigger] d[i] != '|' by {
            if i > 0 {
                assert(d[i] == decimal_nat((-n) as nat)[i - 1]);
            }
        }
    } else {
        lemma_decimal_nat_shape(n as nat);
    }
}

proof fn lemma_split_at_last_bar(x: Seq<char>, y: Seq<char>, x2: Seq<char>, y2: Seq<char>)
    requires
        x + seq!['|'] + y == x2 + seq!['|'] + y2,
        bar_free(y),
        bar_free(y2),
    ensures
        x == x2,
        y == y2,
{
    let bar = seq!['|'];
    assert(bar.len() == 1);
    let t = x + bar + y;
    let t2 = x2 + bar + y2;
    assert(t == t2);
    assert(t.len() == x.len() + 1 + y.len());
    assert(t2.len() == x2.len() + 1 + y2.len());
    if y.len() < y2.len() {
        let p = x.len() as int;
        assert(t.len() == t2.len());
        assert(x2.len() < x.len());
        assert(t[p] == '|');
        assert(t2[p] == y2[p - x2.len() - 1]);
    } else if y2.len() < y.len() {
        let p = x2.len() as int;
        assert(t.len() == t2.len());
        assert(x.len() < x2.len());
        assert(t2[p] == '|');
        assert(t[p] == y[p - x.len() - 1]);
    } else {
        assert(x =~= t.take(x.len() as int));
        assert(x2 =~= t2.take(x2.len() as int));
        assert(y =~= t.skip(x.len() as int + 1));
        assert(y2 =~= t2.skip(x2.len() as int + 1));
    }
}

/// Joining the same number of `|`-free fields with `|` loses nothing: equal
/// joins come from equal fields.
pub proof fn lemma_join_bar_injective(a: Seq<Seq<char>>, b: Seq<Seq<char>>)
    requires
        a.len() == b.len(),
        forall|i: int| 0 <= i < a.len() ==> bar_free(#[trigger] a[i]),
        forall|i: int| 0 <= i < b.len() ==> bar_free(#[trigger] b[i]),
        join_bar(a) == join_bar(b),
    ensures
        a == b,
    decreases a.len(),
{
    if a.len() == 1 {
        assert(a =~= b);
    } else if a.len() > 1 {
        assert(bar_free(a.last()));
        assert(bar_free(b.last()));
        lemma_split_at_last_bar(join_bar(a.drop_last()), a.last(), join_bar(b.drop_last()), b.last());
        lemma_join_bar_injective(a.drop_last(), b.drop_last());
        assert(a =~= a.drop_last().push(a.last()));
        assert(b =~= b.drop_last().push(b.last()));
    } else {
        assert(a =~= b);
    }
}

} // verus!
