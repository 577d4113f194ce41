//! Base58, the text form of 32-byte keys.

use vstd::prelude::*;

verus! {

/// The digits of base58 in ascending order of value.
pub const BASE58_DIGITS: [char; 58] = [
    '1', '2', '3', '4', '5', '6', '7', '8', '9',
    'A', 'B', 'C', 'D', 'E', 'F', 'G', 'H', 'J', 'K', 'L', 'M', 'N', 'P', 'Q', 'R', 'S', 'T', 'U',
    'V', 'W', 'X', 'Y', 'Z',
    'a', 'b', 'c', 'd', 'e', 'f', 'g', 'h', 'i', 'j', 'k', 'm', 'n', 'o', 'p', 'q', 'r', 's', 't',
    'u', 'v', 'w', 'x', 'y', 'z',
];

/// The number that the first `count` of `bytes` spell, most significant byte first.
pub open spec fn big_endian(bytes: Seq<u8>, count: nat) -> nat
    recommends
        count <= bytes.len(),
    decreases count,
{
    if count == 0 {
        0
    } else {
        big_endian(bytes, (count - 1) as nat) * 256 + bytes[count - 1] as nat
    }
}

/// `n` in base58, without leading zeros; nothing for zero itself.
pub open spec fn base58_number(n: nat) -> Seq<char>
    decreases n,
{
    if n == 0 {
        Seq::empty()
    } else {
        base58_number(n / 58).push(BASE58_DIGITS@[(n % 58) as int])
    }
}

/// The base58 text of `bytes`: a `1` for each leading zero byte, then the number that the bytes
/// spell.
pub open spec fn base58(bytes: Seq<u8>) -> Seq<char>
    decreases bytes.len(),
{
    if bytes.len() > 0 && bytes[0] == 0 {
        seq!['1'] + base58(bytes.drop_first())
    } else {
        base58_number(big_endian(bytes, bytes.len()))
    }
}

/// The value of a base58 digit; 58 for any other character.
pub open spec fn digit_value(c: char) -> nat {
    if '1' <= c <= '9' {
        (c as int - '1' as int) as nat
    } else if 'A' <= c <= 'H' {
        (c as int - 'A' as int + 9) as nat
    } else if 'J' <= c <= 'N' {
        (c as int - 'J' as int + 17) as nat
    } else if 'P' <= c <= 'Z' {
        (c as int - 'P' as int + 22) as nat
    } else if 'a' <= c <= 'k' {
        (c as int - 'a' as int + 33) as nat
    } else if 'm' <= c <= 'z' {
        (c as int - 'm' as int + 44) as nat
    } else {
        58
    }
}

/// The first `count` characters of `text` are base58 digits.
pub open spec fn all_digits(text: Seq<char>, count: nat) -> bool
    recommends
        count <= text.len(),
    decreases count,
{
    count > 0 ==> digit_value(text[count - 1]) < 58 && all_digits(text, (count - 1) as nat)
}

/// The number that the first `count` digits of `text` spell.
pub open spec fn base58_value(text: Seq<char>, count: nat) -> nat
    recommends
        count <= text.len(),
        all_digits(text, count),
    decreases count,
{
    if count == 0 {
        0
    } else {
        base58_value(text, (count - 1) as nat) * 58 + digit_value(text[count - 1])
    }
}

/// A digit has the value of its position among the digits.
proof fn lemma_digit_value(c: char)
    requires
        digit_value(c) < 58,
    ensures
        BASE58_DIGITS@[digit_value(c) as int] == c,
{
}

/// A text of digits that does not start with the digit zero is the text of the number it spells.
proof fn lemma_number_of_value(text: Seq<char>, count: nat)
    requires
        0 < count <= text.len(),
        text[0] != '1',
        all_digits(text, count),
    ensures
        base58_value(text, count) > 0,
        base58_number(base58_value(text, count)) == text.take(count as int),
    decreases count,
{
    let c = text[count - 1];
    lemma_digit_value(c);
    let before = base58_value(text, (count - 1) as nat);
    let n = before * 58 + digit_value(c);
    assert(n / 58 == before && n % 58 == digit_value(c));
    assert(text.take(count as int) =~= text.take(count - 1).push(c));
    if count == 1 {
        assert(before == 0);
        assert(base58_number(0) =~= text.take(0));
    } else {
        lemma_number_of_value(text, (count - 1) as nat);
    }
}

/// A text of digits, with no zero in front, is the text of bytes that spell the same number and have
/// no zero in front either.
pub proof fn lemma_base58_text(bytes: Seq<u8>, text: Seq<char>)
    requires
        bytes.len() > 0,
        bytes[0] != 0,
        text.len() > 0,
        text[0] != '1',
        all_digits(text, text.len()),
        base58_value(text, text.len()) == big_endian(bytes, bytes.len()),
    ensures
        base58(bytes) == text,
{
    lemma_number_of_value(text, text.len());
    assert(text.take(text.len() as int) =~= text);
}

/// The value of a text depends on the characters that are counted only.
proof fn lemma_value_of_prefix(text: Seq<char>, c: char, count: nat)
    requires
        count <= text.len(),
    ensures
        base58_value(text.push(c), count) == base58_value(text, count),
    decreases count,
{
    if count > 0 {
        lemma_value_of_prefix(text, c, (count - 1) as nat);
    }
}

/// The digit at each position has that position for its value.
proof fn lemma_value_of_digit(d: nat)
    requires
        d < 58,
    ensures
        digit_value(BASE58_DIGITS@[d as int]) == d,
{
}

/// The text of a number spells the number, and no zero stands in front of it.
proof fn lemma_value_of_number(n: nat)
    ensures
        base58_value(base58_number(n), base58_number(n).len()) == n,
        n > 0 ==> base58_number(n).len() > 0 && base58_number(n)[0] != '1',
    decreases n,
{
    if n > 0 {
        let before = base58_number(n / 58);
        let c = BASE58_DIGITS@[(n % 58) as int];
        lemma_value_of_number(n / 58);
        lemma_value_of_digit(n % 58);
        lemma_value_of_prefix(before, c, before.len());
        if n / 58 == 0 {
            assert(before.len() == 0);
        }
    }
}

/// Bytes that spell the same number are the same.
proof fn lemma_big_endian_injective(a: Seq<u8>, b: Seq<u8>, count: nat)
    requires
        count <= a.len(),
        count <= b.len(),
        big_endian(a, count) == big_endian(b, count),
    ensures
        a.take(count as int) == b.take(count as int),
    decreases count,
{
    if count > 0 {
        let last = count - 1;
        assert(big_endian(a, count) % 256 == a[last] && big_endian(b, count) % 256 == b[last]);
        lemma_big_endian_injective(a, b, last as nat);
        assert(a.take(count as int) =~= a.take(last).push(a[last]));
        assert(b.take(count as int) =~= b.take(last).push(b[last]));
    }
}

/// Bytes with no zero in front spell no zero.
proof fn lemma_big_endian_positive(bytes: Seq<u8>, count: nat)
    requires
        0 < count <= bytes.len(),
        bytes[0] != 0,
    ensures
        big_endian(bytes, count) > 0,
    decreases count,
{
    if count > 1 {
        lemma_big_endian_positive(bytes, (count - 1) as nat);
    }
}

/// One more byte behind the others multiplies the number by 256 and adds the byte.
pub proof fn big_endian_grows_by_bytes(bytes: Seq<u8>, b: u8)
    ensures
        big_endian(bytes.push(b), bytes.len() + 1) == big_endian(bytes, bytes.len()) * 256 + b,
{
    lemma_big_endian_of_prefix(bytes, b, bytes.len());
}

/// The number depends on the bytes that are counted only.
proof fn lemma_big_endian_of_prefix(bytes: Seq<u8>, b: u8, count: nat)
    requires
        count <= bytes.len(),
    ensures
        big_endian(bytes.push(b), count) == big_endian(bytes, count),
    decreases count,
{
    if count > 0 {
        lemma_big_endian_of_prefix(bytes, b, (count - 1) as nat);
    }
}

/// One more digit behind the others multiplies the number by 58 and adds the digit.
pub proof fn base58_number_grows_by_digits(n: nat, d: nat)
    requires
        d < 58,
        n > 0 || d > 0,
    ensures
        base58_number(n * 58 + d) == base58_number(n).push(BASE58_DIGITS@[d as int]),
{
    let m = n * 58 + d;
    assert(m / 58 == n && m % 58 == d);
}

/// A zero byte in front of the others puts a `1` in front of the text.
pub proof fn leading_zero_is_a_one(bytes: Seq<u8>)
    ensures
        base58(seq![0u8] + bytes) == seq!['1'] + base58(bytes),
{
    assert((seq![0u8] + bytes).drop_first() =~= bytes);
}

/// Two byte strings of one length with the same base58 text are the same: a text names one key.
pub proof fn base58_is_injective(a: Seq<u8>, b: Seq<u8>)
    requires
        a.len() == b.len(),
        base58(a) == base58(b),
    ensures
        a == b,
    decreases a.len(),
{
    if a.len() > 0 {
        if a[0] == 0 && b[0] == 0 {
            let rest_a = base58(a.drop_first());
            let rest_b = base58(b.drop_first());
            assert(rest_a =~= (seq!['1'] + rest_a).drop_first());
            assert(rest_b =~= (seq!['1'] + rest_b).drop_first());
            base58_is_injective(a.drop_first(), b.drop_first());
            assert(a =~= seq![a[0]] + a.drop_first());
            assert(b =~= seq![b[0]] + b.drop_first());
        } else {
            lemma_value_of_number(big_endian(a, a.len()));
            lemma_value_of_number(big_endian(b, b.len()));
            if a[0] == 0 {
                lemma_big_endian_positive(b, b.len());
                assert(base58(a)[0] == '1');
            } else if b[0] == 0 {
                lemma_big_endian_positive(a, a.len());
                assert(base58(b)[0] == '1');
            } else {
                lemma_big_endian_injective(a, b, a.len());
                assert(a.take(a.len() as int) =~= a);
                assert(b.take(b.len() as int) =~= b);
            }
        }
    }
}

} // verus!
