//! Rendering of register identifiers, sizes and values for display.
use vstd::prelude::*;

verus! {

/// The lower-case hexadecimal digit of `d`.
pub open spec fn hex_char(d: nat) -> char {
    if d < 10 {
        ('0' as u8 + d) as char
    } else {
        ('a' as u8 + (d - 10)) as char
    }
}

/// The decimal digits of `n`, most significant first, without leading zeros.
pub open spec fn decimal_digits(n: nat) -> Seq<char>
    decreases n,
{
    if n < 10 {
        seq![hex_char(n)]
    } else {
        decimal_digits(n / 10) + seq![hex_char(n % 10)]
    }
}

/// The hexadecimal digits of `n`, most significant first, without leading zeros.
pub open spec fn hex_digits(n: nat) -> Seq<char>
    decreases n,
{
    if n < 16 {
        seq![hex_char(n)]
    } else {
        hex_digits(n / 16) + seq![hex_char(n % 16)]
    }
}

/// Appends one hexadecimal digit.
fn push_digit(out: &mut String, d: u64)
    requires
        d < 16,
    ensures
        final(out)@ == old(out)@ + seq![hex_char(d as nat)],
{
    proof {
        reveal_strlit("0");
        reveal_strlit("1");
        reveal_strlit("2");
        reveal_strlit("3");
        reveal_strlit("4");
        reveal_strlit("5");
        reveal_strlit("6");
        reveal_strlit("7");
        reveal_strlit("8");
        reveal_strlit("9");
        reveal_strlit("a");
        reveal_strlit("b");
        reveal_strlit("c");
        reveal_strlit("d");
        reveal_strlit("e");
        reveal_strlit("f");
    }
    let digit = match d {
        0 => "0",
        1 => "1",
        2 => "2",
        3 => "3",
        4 => "4",
        5 => "5",
        6 => "6",
        7 => "7",
        8 => "8",
        9 => "9",
        10 => "a",
        11 => "b",
        12 => "c",
        13 => "d",
        14 => "e",
        _ => "f",
    };
    out.append(digit);
}

/// Appends the decimal digits of `n`.
pub fn push_decimal(out: &mut String, n: u64)
    ensures
        final(out)@ == old(out)@ + decimal_digits(n as nat),
    decreases n,
{
    if n >= 10 {
        push_decimal(out, n / 10);
    }
    push_digit(out, n % 10);
}

/// Appends the hexadecimal digits of `n`.
pub fn push_hex(out: &mut String, n: u64)
    ensures
        final(out)@ == old(out)@ + hex_digits(n as nat),
    decreases n,
{
    if n >= 16 {
        push_hex(out, n / 16);
    }
    push_digit(out, n % 16);
}

/// Length of the shortest prefix of a little-endian value after which only
/// zero bytes follow: zero when every byte is zero.
pub open spec fn significant_len(value: Seq<u8>) -> nat
    decreases value.len(),
{
    if value.len() == 0 {
        0
    } else if value.last() != 0 {
        value.len()
    } else {
        significant_len(value.drop_last())
    }
}

/// The shortest prefix of a little-endian value that holds the same number,
/// kept at one byte when the value is zero.
pub open spec fn trimmed(value: Seq<u8>) -> Seq<u8> {
    if significant_len(value) == 0 {
        value.take(if value.len() == 0 { 0 } else { 1 })
    } else {
        value.take(significant_len(value) as int)
    }
}

/// The two hexadecimal digits of a byte.
pub open spec fn byte_pair(b: u8) -> Seq<char> {
    seq![hex_char(b as nat / 16), hex_char(b as nat % 16)]
}

/// Two digits for each byte of a little-endian value, most significant first.
pub open spec fn padded_hex(bytes: Seq<u8>) -> Seq<char>
    decreases bytes.len(),
{
    if bytes.len() == 0 {
        seq![]
    } else {
        byte_pair(bytes.last()) + padded_hex(bytes.drop_last())
    }
}

/// A little-endian value in hexadecimal, most significant byte first, with
/// no leading zero digit: `0x0` when the value is zero.
pub open spec fn value_hex(value: Seq<u8>) -> Seq<char> {
    let n = significant_len(value);
    seq!['0', 'x'] + if n == 0 {
        seq!['0']
    } else {
        hex_digits(value[n - 1] as nat) + padded_hex(value.take(n - 1))
    }
}

proof fn lemma_significant_len_bound(value: Seq<u8>)
    ensures
        significant_len(value) <= value.len(),
        significant_len(value) > 0 ==> value[significant_len(value) - 1] != 0,
        forall|i: int| significant_len(value) <= i < value.len() ==> value[i] == 0,
    decreases value.len(),
{
    if value.len() > 0 && value.last() == 0 {
        let rest = value.drop_last();
        lemma_significant_len_bound(rest);
        assert forall|i: int| significant_len(value) <= i < value.len() implies value[i] == 0 by {
            if i < rest.len() {
                assert(rest[i] == value[i]);
            }
        }
    }
}

proof fn lemma_significant_len_of_prefix(value: Seq<u8>, k: int)
    requires
        significant_len(value) <= k <= value.len(),
    ensures
        significant_len(value.take(k)) == significant_len(value),
    decreases value.len(),
{
    if k < value.len() {
        lemma_significant_len_bound(value);
        assert(value.drop_last().take(k) =~= value.take(k));
        lemma_significant_len_of_prefix(value.drop_last(), k);
    } else {
        assert(value.take(k) =~= value);
    }
}

/// Returns the number of bytes of the trimmed value.
pub fn trimmed_len(value: &[u8]) -> (r: usize)
    ensures
        r == trimmed(value@).len(),
        value@.take(r as int) == trimmed(value@),
{
    let mut n: usize = value.len();
    assert(value@.take(n as int) =~= value@);
    while n > 0 && value[n - 1] == 0
        invariant
            n <= value@.len(),
            significant_len(value@.take(n as int)) == significant_len(value@),
        decreases n,
    {
        assert(value@.take(n as int).drop_last() =~= value@.take(n - 1));
        n = n - 1;
    }
    proof {
        if n > 0 {
            assert(value@.take(n as int).last() == value@[n - 1]);
        }
        lemma_significant_len_bound(value@);
    }
    if n == 0 && value.len() > 0 {
        1
    } else {
        n
    }
}

/// Renders a little-endian value in hexadecimal, most significant byte
/// first and without leading zeros: `0x0` when every byte is zero.
pub fn format_value(value: &[u8]) -> (r: String)
    ensures
        r@ == value_hex(value@),
{
    let mut out = String::new();
    proof {
        reveal_strlit("0x");
        reveal_strlit("0");
    }
    out.append("0x");
    let mut n: usize = value.len();
    assert(value@.take(n as int) =~= value@);
    while n > 0 && value[n - 1] == 0
        invariant
            n <= value@.len(),
            significant_len(value@.take(n as int)) == significant_len(value@),
        decreases n,
    {
        assert(value@.take(n as int).drop_last() =~= value@.take(n - 1));
        n = n - 1;
    }
    proof {
        if n > 0 {
            assert(value@.take(n as int).last() == value@[n - 1]);
        }
    }
    if n == 0 {
        out.append("0");
        return out;
    }
    push_hex(&mut out, value[n - 1] as u64);
    let ghost head = out@;
    let mut j: usize = n - 1;
    while j > 0
        invariant
            j < n <= value@.len(),
            n == significant_len(value@),
            out@ + padded_hex(value@.take(j as int)) == head + padded_hex(value@.take(n - 1)),
        decreases j,
    {
        let b = value[j - 1];
        let hi: u64 = (b / 16) as u64;
        let lo: u64 = (b % 16) as u64;
        push_digit(&mut out, hi);
        push_digit(&mut out, lo);
        proof {
            assert(value@.take(j as int).drop_last() =~= value@.take(j - 1));
            assert(value@.take(j as int).last() == b);
            assert(out@ + padded_hex(value@.take(j - 1)) =~= head + padded_hex(
                value@.take(n - 1),
            ));
        }
        j = j - 1;
    }
    proof {
        assert(out@ =~= head + padded_hex(value@.take(n - 1)));
    }
    out
}

/// Trimming a trimmed value changes nothing, and both render alike.
pub proof fn lemma_trim_idempotent(value: Seq<u8>)
    ensures
        trimmed(trimmed(value)) == trimmed(value),
        value_hex(trimmed(value)) == value_hex(value),
{
    lemma_significant_len_bound(value);
    let n = significant_len(value);
    if n == 0 {
        let k: int = if value.len() == 0 { 0 } else { 1 };
        lemma_significant_len_of_prefix(value, k);
        assert(trimmed(value).take(k) =~= trimmed(value));
    } else {
        lemma_significant_len_of_prefix(value, n as int);
        assert(trimmed(value).take(n as int) =~= trimmed(value));
        assert(trimmed(value).take(n - 1) =~= value.take(n - 1));
    }
}

proof fn lemma_zero_significant_len(value: Seq<u8>)
    requires
        forall|i: int| 0 <= i < value.len() ==> value[i] == 0,
    ensures
        significant_len(value) == 0,
    decreases value.len(),
{
    if value.len() > 0 {
        let rest = value.drop_last();
        assert forall|i: int| 0 <= i < rest.len() implies rest[i] == 0 by {
            assert(rest[i] == value[i]);
        }
        lemma_zero_significant_len(rest);
    }
}

/// A value whose bytes are all zero, of any length, renders as `0x0`.
pub proof fn lemma_zero_value(value: Seq<u8>)
    requires
        forall|i: int| 0 <= i < value.len() ==> value[i] == 0,
    ensures
        value_hex(value) == seq!['0', 'x', '0'],
{
    lemma_zero_significant_len(value);
    assert(value_hex(value) =~= seq!['0', 'x', '0']);
}

} // verus!
