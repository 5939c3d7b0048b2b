//! Bytes typed in as a line of text: hexadecimal numbers separated by white
//! space, each with or without `0x` in front.

use vstd::prelude::*;
use vstd::string::*;

verus! {

/// Whether a character is white space, as Unicode defines it.
pub open spec fn is_space(c: char) -> bool {
    let u = c as u32;
    (0x09 <= u <= 0x0D) || u == 0x20 || u == 0x85 || u == 0xA0 || u == 0x1680 || (0x2000 <= u
        <= 0x200A) || u == 0x2028 || u == 0x2029 || u == 0x202F || u == 0x205F || u == 0x3000
}

/// The value of a hexadecimal digit in either case, and nothing for any
/// other character.
pub open spec fn digit_value(c: char) -> Option<nat> {
    let u = c as u32;
    if 0x30 <= u <= 0x39 {
        Some((u - 0x30) as nat)
    } else if 0x61 <= u <= 0x66 {
        Some((u - 0x61 + 10) as nat)
    } else if 0x41 <= u <= 0x46 {
        Some((u - 0x41 + 10) as nat)
    } else {
        None
    }
}

/// Whether every character is a hexadecimal digit.
pub open spec fn all_digits(digits: Seq<char>) -> bool {
    forall|i: int| 0 <= i < digits.len() ==> digit_value(#[trigger] digits[i]) is Some
}

/// The number that the digits write, the first digit weighing most.
pub open spec fn digits_value(digits: Seq<char>) -> nat
    decreases digits.len(),
{
    if digits.len() == 0 {
        0
    } else {
        16 * digits_value(digits.drop_last()) + match digit_value(digits.last()) {
            Some(d) => d,
            None => 0,
        }
    }
}

/// Whether a token starts with `0x` or `0X`.
pub open spec fn has_hex_prefix(token: Seq<char>) -> bool {
    token.len() >= 2 && token[0] == '0' && (token[1] == 'x' || token[1] == 'X')
}

/// The digits of a token: what follows the prefix `0x`, where there is one,
/// and then a plus sign, where there is one.
pub open spec fn token_digits(token: Seq<char>) -> Seq<char> {
    let bare = if has_hex_prefix(token) {
        token.skip(2)
    } else {
        token
    };
    if bare.len() > 0 && bare[0] == '+' {
        bare.skip(1)
    } else {
        bare
    }
}

/// The byte that a token writes: it has at least one digit, only digits,
/// and its number fits a byte.
pub open spec fn token_byte(token: Seq<char>) -> Option<u8> {
    let digits = token_digits(token);
    if digits.len() > 0 && all_digits(digits) && digits_value(digits) <= 0xFF {
        Some(digits_value(digits) as u8)
    } else {
        None
    }
}

/// How many characters other than white space a text starts with.
pub open spec fn leading_token(s: Seq<char>) -> nat
    decreases s.len(),
{
    if s.len() > 0 && !is_space(s[0]) {
        1 + leading_token(s.drop_first())
    } else {
        0
    }
}

/// The tokens of a line: its longest runs of characters other than white
/// space, in their order.
pub open spec fn tokens(s: Seq<char>) -> Seq<Seq<char>>
    decreases s.len(),
    via tokens_decreases
{
    if s.len() == 0 {
        Seq::empty()
    } else if is_space(s[0]) {
        tokens(s.drop_first())
    } else {
        let n = leading_token(s) as int;
        seq![s.take(n)] + tokens(s.skip(n))
    }
}

#[via_fn]
proof fn tokens_decreases(s: Seq<char>) {
    lemma_leading_token_bound(s);
}

/// The bytes that a line writes: one for each token, and nothing at all
/// once a token writes no byte.
pub open spec fn line_bytes(s: Seq<char>) -> Option<Seq<u8>> {
    let toks = tokens(s);
    if forall|i: int| 0 <= i < toks.len() ==> token_byte(#[trigger] toks[i]) is Some {
        Some(Seq::new(toks.len(), |i: int| token_byte(toks[i]).unwrap()))
    } else {
        None
    }
}

/// The run that a text starts with ends before the first white space.
pub proof fn lemma_leading_token_bound(s: Seq<char>)
    ensures
        leading_token(s) <= s.len(),
        forall|i: int| 0 <= i < leading_token(s) ==> !is_space(#[trigger] s[i]),
        leading_token(s) < s.len() ==> is_space(s[leading_token(s) as int]),
    decreases s.len(),
{
    if s.len() > 0 && !is_space(s[0]) {
        lemma_leading_token_bound(s.drop_first());
        assert forall|i: int| 0 <= i < leading_token(s) implies !is_space(#[trigger] s[i]) by {
            if i > 0 {
                assert(s[i] == s.drop_first()[i - 1]);
            }
        }
    }
}

/// A text that holds no white space before position `m`, and ends or holds
/// white space there, starts with a run of `m` characters.
pub proof fn lemma_leading_token_is(s: Seq<char>, m: int)
    requires
        0 <= m <= s.len(),
        forall|i: int| 0 <= i < m ==> !is_space(#[trigger] s[i]),
        m < s.len() ==> is_space(s[m]),
    ensures
        leading_token(s) == m,
    decreases s.len(),
{
    if m > 0 {
        let rest = s.drop_first();
        assert forall|i: int| 0 <= i < m - 1 implies !is_space(#[trigger] rest[i]) by {}
        lemma_leading_token_is(rest, m - 1);
    }
}

/// The number that digits write is no smaller than the number that the
/// first of them write.
pub proof fn lemma_digits_value_grows(digits: Seq<char>, k: int)
    requires
        0 <= k <= digits.len(),
    ensures
        digits_value(digits.take(k)) <= digits_value(digits),
    decreases digits.len(),
{
    if k == digits.len() {
        assert(digits.take(k) =~= digits);
    } else {
        lemma_digits_value_grows(digits.drop_last(), k);
        assert(digits.drop_last().take(k) =~= digits.take(k));
    }
}

fn is_space_char(c: char) -> (b: bool)
    ensures
        b == is_space(c),
{
    let u: u32 = c as u32;
    (0x09 <= u && u <= 0x0D) || u == 0x20 || u == 0x85 || u == 0xA0 || u == 0x1680 || (0x2000 <= u
        && u <= 0x200A) || u == 0x2028 || u == 0x2029 || u == 0x202F || u == 0x205F || u
        == 0x3000
}

fn digit_of(c: char) -> (d: Option<u8>)
    ensures
        match d {
            Some(v) => digit_value(c) == Some(v as nat),
            None => digit_value(c) is None,
        },
{
    let u: u32 = c as u32;
    if 0x30 <= u && u <= 0x39 {
        Some((u - 0x30) as u8)
    } else if 0x61 <= u && u <= 0x66 {
        Some((u - 0x61 + 10) as u8)
    } else if 0x41 <= u && u <= 0x46 {
        Some((u - 0x41 + 10) as u8)
    } else {
        None
    }
}

fn collect_chars(line: &str) -> (chars: Vec<char>)
    ensures
        chars@ == line@,
{
    let mut chars: Vec<char> = Vec::new();
    for c in it: line.chars()
        invariant
            it.seq() == line@,
            chars@ == line@.take(it.index() as int),
    {
        chars.push(c);
    }
    chars
}

/// The byte that the token between two positions of a text writes.
fn parse_token(chars: &Vec<char>, start: usize, end: usize) -> (b: Option<u8>)
    requires
        start < end <= chars.len(),
    ensures
        b == token_byte(chars@.subrange(start as int, end as int)),
{
    let ghost token = chars@.subrange(start as int, end as int);
    let mut p: usize = start;
    if end - start >= 2 && chars[start] == '0' && (chars[start + 1] == 'x' || chars[start + 1]
        == 'X') {
        p = start + 2;
    }
    if p < end && chars[p] == '+' {
        p = p + 1;
    }
    let ghost digits = chars@.subrange(p as int, end as int);
    if p == end {
        return None;
    }
    let mut value: u32 = 0;
    let mut k: usize = p;
    while k < end
        invariant
            start <= p <= k <= end <= chars.len(),
            p < end,
            token == chars@.subrange(start as int, end as int),
            digits == chars@.subrange(p as int, end as int),
            digits == token_digits(token),
            all_digits(digits.take(k - p)),
            value == digits_value(digits.take(k - p)),
            value <= 0xFF,
        decreases end - k,
    {
        let ghost read = digits.take(k - p + 1);
        assert(read.drop_last() =~= digits.take(k - p));
        match digit_of(chars[k]) {
            None => {
                assert(digit_value(digits[k - p]) is None);
                return None;
            },
            Some(d) => {
                value = value * 16 + (d as u32);
                assert(all_digits(read)) by {
                    assert forall|i: int| 0 <= i < read.len() implies digit_value(
                        #[trigger] read[i],
                    ) is Some by {}
                }
                if value > 0xFF {
                    proof {
                        lemma_digits_value_grows(digits, k - p + 1);
                    }
                    return None;
                }
            },
        }
        k = k + 1;
    }
    assert(digits.take(k - p) =~= digits);
    Some(value as u8)
}

/// Reads the bytes that a line of text writes.
pub fn parse_hex_line(line: &str) -> (r: Option<Vec<u8>>)
    ensures
        match r {
            Some(bytes) => line_bytes(line@) == Some(bytes@),
            None => line_bytes(line@) is None,
        },
{
    let chars = collect_chars(line);
    let n: usize = chars.len();
    let mut out: Vec<u8> = Vec::new();
    let ghost mut done: Seq<Seq<char>> = Seq::empty();
    let mut i: usize = 0;
    assert(chars@.skip(0) =~= chars@);
    while i < n
        invariant
            i <= n == chars.len(),
            chars@ == line@,
            tokens(chars@) == done + tokens(chars@.skip(i as int)),
            out@.len() == done.len(),
            forall|j: int| 0 <= j < done.len() ==> token_byte(#[trigger] done[j]) == Some(out@[j]),
        decreases n - i,
    {
        let ghost rest = chars@.skip(i as int);
        if is_space_char(chars[i]) {
            assert(rest.drop_first() =~= chars@.skip(i + 1));
            i = i + 1;
        } else {
            let start: usize = i;
            let mut end: usize = i + 1;
            while end < n && !is_space_char(chars[end])
                invariant
                    start < end <= n == chars.len(),
                    forall|k: int| start <= k < end ==> !is_space(#[trigger] chars@[k]),
                decreases n - end,
            {
                end = end + 1;
            }
            let ghost token = chars@.subrange(start as int, end as int);
            proof {
                assert forall|k: int| 0 <= k < end - start implies !is_space(
                    #[trigger] rest[k],
                ) by {}
                lemma_leading_token_is(rest, end - start);
                assert(rest.take(end - start) =~= token);
                assert(rest.skip(end - start) =~= chars@.skip(end as int));
            }
            match parse_token(&chars, start, end) {
                None => {
                    assert(tokens(chars@)[done.len() as int] == token);
                    return None;
                },
                Some(b) => {
                    out.push(b);
                    proof {
                        done = done.push(token);
                    }
                    i = end;
                },
            }
        }
    }
    Some(out)
}

} // verus!
