//! Building text: fixed-width upper-case hexadecimal, decimal numbers, and
//! comparison of string slices.

use vstd::prelude::*;
use vstd::string::*;

verus! {

/// `String::push` appends exactly one character to the end of the string.
pub assume_specification[ String::push ](s: &mut String, c: char)
    ensures
        final(s)@ == old(s)@.push(c),
;

/// The upper-case hexadecimal digit of a value below sixteen; `F` for
/// every greater value.
pub open spec fn hex_digit_spec(v: int) -> char {
    if v == 0 {
        '0'
    } else if v == 1 {
        '1'
    } else if v == 2 {
        '2'
    } else if v == 3 {
        '3'
    } else if v == 4 {
        '4'
    } else if v == 5 {
        '5'
    } else if v == 6 {
        '6'
    } else if v == 7 {
        '7'
    } else if v == 8 {
        '8'
    } else if v == 9 {
        '9'
    } else if v == 10 {
        'A'
    } else if v == 11 {
        'B'
    } else if v == 12 {
        'C'
    } else if v == 13 {
        'D'
    } else if v == 14 {
        'E'
    } else {
        'F'
    }
}

/// Two upper-case hexadecimal digits for a byte.
pub open spec fn hex_u8_text(v: u8) -> Seq<char> {
    seq![hex_digit_spec(v as int / 16), hex_digit_spec(v as int % 16)]
}

/// Four upper-case hexadecimal digits for a 16-bit value.
pub open spec fn hex_u16_text(v: u16) -> Seq<char> {
    hex_u8_text((v / 256) as u8) + hex_u8_text((v % 256) as u8)
}

/// Eight upper-case hexadecimal digits for a 32-bit value.
pub open spec fn hex_u32_text(v: u32) -> Seq<char> {
    hex_u16_text((v / 65536) as u16) + hex_u16_text((v % 65536) as u16)
}

/// Whether a character is one of `0`-`9`, `A`-`F`.
pub open spec fn is_upper_hex(c: char) -> bool {
    ('0' <= c && c <= '9') || ('A' <= c && c <= 'F')
}

/// The value of an upper-case hexadecimal digit.
pub open spec fn hex_value(c: char) -> int {
    if '0' <= c && c <= '9' {
        c as int - '0' as int
    } else {
        c as int - 'A' as int + 10
    }
}

/// The upper-case hexadecimal digit of a value below sixteen; `F` for
/// every greater value.
pub fn hex_digit(v: u8) -> (c: char)
    ensures
        c == hex_digit_spec(v as int),
        is_upper_hex(c),
        v < 16 ==> hex_value(c) == v,
{
    match v {
        0 => '0',
        1 => '1',
        2 => '2',
        3 => '3',
        4 => '4',
        5 => '5',
        6 => '6',
        7 => '7',
        8 => '8',
        9 => '9',
        10 => 'A',
        11 => 'B',
        12 => 'C',
        13 => 'D',
        14 => 'E',
        _ => 'F',
    }
}

/// Appends a byte as two upper-case hexadecimal digits.
pub fn push_hex_u8(s: &mut String, v: u8)
    ensures
        final(s)@ == old(s)@ + hex_u8_text(v),
{
    s.push(hex_digit(v / 16));
    s.push(hex_digit(v % 16));
    assert(s@ =~= old(s)@ + hex_u8_text(v));
}

/// Appends a 16-bit value as four upper-case hexadecimal digits.
pub fn push_hex_u16(s: &mut String, v: u16)
    ensures
        final(s)@ == old(s)@ + hex_u16_text(v),
{
    push_hex_u8(s, (v / 256) as u8);
    push_hex_u8(s, (v % 256) as u8);
    assert(s@ =~= old(s)@ + hex_u16_text(v));
}

/// Appends a 32-bit value as eight upper-case hexadecimal digits.
pub fn push_hex_u32(s: &mut String, v: u32)
    ensures
        final(s)@ == old(s)@ + hex_u32_text(v),
{
    push_hex_u16(s, (v / 65536) as u16);
    push_hex_u16(s, (v % 65536) as u16);
    assert(s@ =~= old(s)@ + hex_u32_text(v));
}

/// The decimal digit of a value below ten.
pub open spec fn decimal_digit_spec(v: int) -> char {
    hex_digit_spec(v)
}

/// A natural number in decimal, without sign or leading zeros.
pub open spec fn decimal_text(n: nat) -> Seq<char>
    decreases n,
{
    if n < 10 {
        seq![decimal_digit_spec(n as int)]
    } else {
        decimal_text(n / 10).push(decimal_digit_spec(n as int % 10))
    }
}

/// A natural number in decimal, filled with zeros on the left up to `width`
/// characters; longer numbers are written in full.
pub open spec fn padded_decimal_text(n: nat, width: nat) -> Seq<char> {
    let digits = decimal_text(n);
    if digits.len() >= width {
        digits
    } else {
        Seq::new((width - digits.len()) as nat, |i: int| '0') + digits
    }
}

/// Ten to the power `k`.
pub open spec fn pow10(k: nat) -> nat
    decreases k,
{
    if k == 0 {
        1
    } else {
        10 * pow10((k - 1) as nat)
    }
}

/// A number below ten to the `k` has at most `k` decimal digits, and every
/// number has at least one.
pub proof fn lemma_decimal_text_len(n: nat, k: nat)
    requires
        k >= 1,
        n < pow10(k),
    ensures
        1 <= decimal_text(n).len() <= k,
    decreases k,
{
    reveal_with_fuel(pow10, 2);
    if n >= 10 {
        lemma_decimal_text_len(n / 10, (k - 1) as nat);
    }
}

/// Every 64-bit number has between one and twenty decimal digits.
pub proof fn lemma_decimal_text_len_u64(n: u64)
    ensures
        1 <= decimal_text(n as nat).len() <= 20,
{
    reveal_with_fuel(pow10, 21);
    lemma_decimal_text_len(n as nat, 20);
}

/// Appends a number of up to 128 bits in decimal.
pub fn push_decimal_wide(s: &mut String, n: u128)
    ensures
        final(s)@ == old(s)@ + decimal_text(n as nat),
    decreases n,
{
    if n >= 10 {
        push_decimal_wide(s, n / 10);
    }
    s.push(hex_digit((n % 10) as u8));
    assert(s@ =~= old(s)@ + decimal_text(n as nat));
}

/// Appends a number in decimal.
pub fn push_decimal(s: &mut String, n: u64)
    ensures
        final(s)@ == old(s)@ + decimal_text(n as nat),
{
    push_decimal_wide(s, n as u128);
}

/// Number of characters of a number written in decimal.
pub fn decimal_len(n: u64) -> (len: usize)
    ensures
        len == decimal_text(n as nat).len(),
        1 <= len <= 20,
    decreases n,
{
    if n >= 10 {
        let inner = decimal_len(n / 10);
        proof {
            lemma_decimal_text_len_u64(n);
        }
        inner + 1
    } else {
        1
    }
}

/// Appends a number in decimal, filled with zeros on the left up to a width.
pub fn push_decimal_padded(s: &mut String, n: u64, width: usize)
    ensures
        final(s)@ == old(s)@ + padded_decimal_text(n as nat, width as nat),
{
    let len = decimal_len(n);
    let mut filled: usize = len;
    while filled < width
        invariant
            len <= filled,
            filled <= width || filled == len,
            s@ == old(s)@ + Seq::new((filled - len) as nat, |i: int| '0'),
        decreases width - filled,
    {
        s.push('0');
        filled = filled + 1;
        assert(s@ =~= old(s)@ + Seq::new((filled - len) as nat, |i: int| '0'));
    }
    push_decimal(s, n);
    assert(s@ =~= old(s)@ + padded_decimal_text(n as nat, width as nat));
}

/// A number in decimal as a new string.
pub fn decimal_string(n: u64) -> (r: String)
    ensures
        r@ == decimal_text(n as nat),
{
    let mut s = String::new();
    push_decimal(&mut s, n);
    assert(s@ =~= decimal_text(n as nat));
    s
}

/// The upper-case form of a text by the rules of Unicode, as
/// `str::to_uppercase` computes it.
pub uninterp spec fn uppercase_text(s: Seq<char>) -> Seq<char>;

/// `str::to_uppercase`: the upper-case form of the whole slice, which
/// depends on its characters alone.
#[verifier::external_body]
pub(crate) fn to_uppercase(s: &str) -> (r: String)
    ensures
        r@ == uppercase_text(s@),
{
    s.to_uppercase()
}

/// A text without the white space at its beginning and at its end, as
/// `str::trim` computes it.
pub uninterp spec fn trimmed_text(s: Seq<char>) -> Seq<char>;

/// `str::trim`: the slice without leading and trailing white space, which
/// depends on its characters alone.
#[verifier::external_body]
pub(crate) fn trim<'a>(s: &'a str) -> (r: &'a str)
    ensures
        r@ == trimmed_text(s@),
{
    s.trim()
}

/// Where the first line feed of a text stands, or its length if it has
/// none.
pub open spec fn line_end(s: Seq<char>) -> int
    decreases s.len(),
{
    if s.len() == 0 || s[0] == '\n' {
        0
    } else {
        1 + line_end(s.drop_first())
    }
}

/// The first line of a text: what stands before the first line feed, or
/// all of it if there is none, without the carriage return that may stand
/// directly before that line feed. The empty text has no line.
pub open spec fn first_line_text(s: Seq<char>) -> Option<Seq<char>> {
    let end = line_end(s);
    if s.len() == 0 {
        None
    } else if 0 < end < s.len() && s[end - 1] == '\r' {
        Some(s.subrange(0, end - 1))
    } else {
        Some(s.subrange(0, end))
    }
}

/// The first position that holds a line feed, or the length, is where the
/// first line ends.
pub proof fn lemma_line_end_is(s: Seq<char>, end: int)
    requires
        0 <= end <= s.len(),
        forall|i: int| 0 <= i < end ==> s[i] != '\n',
        end < s.len() ==> s[end] == '\n',
    ensures
        line_end(s) == end,
    decreases s.len(),
{
    if s.len() > 0 && s[0] != '\n' {
        let rest = s.drop_first();
        assert forall|i: int| 0 <= i < end - 1 implies rest[i] != '\n' by {
            assert(rest[i] == s[i + 1]);
        }
        if end < s.len() {
            assert(rest[end - 1] == s[end]);
        }
        lemma_line_end_is(rest, end - 1);
    }
}

/// The first line of a text.
pub fn first_line<'a>(s: &'a str) -> (r: Option<&'a str>)
    ensures
        match r {
            Some(line) => first_line_text(s@) == Some(line@),
            None => first_line_text(s@) is None,
        },
{
    let len = s.unicode_len();
    if len == 0 {
        return None;
    }
    let mut end: usize = 0;
    while end < len && s.get_char(end) != '\n'
        invariant
            end <= len,
            len == s@.len(),
            forall|i: int| 0 <= i < end ==> s@[i] != '\n',
        decreases len - end,
    {
        end = end + 1;
    }
    proof {
        lemma_line_end_is(s@, end as int);
    }
    if 0 < end && end < len && s.get_char(end - 1) == '\r' {
        Some(s.substring_char(0, end - 1))
    } else {
        Some(s.substring_char(0, end))
    }
}

/// A whole number in decimal, with a minus sign if it is negative.
pub open spec fn signed_decimal_text(n: int) -> Seq<char> {
    if n < 0 {
        seq!['-'] + decimal_text((-n) as nat)
    } else {
        decimal_text(n as nat)
    }
}

/// Appends a whole number in decimal, with its sign if it is negative.
pub fn push_signed_decimal(s: &mut String, n: i64)
    ensures
        final(s)@ == old(s)@ + signed_decimal_text(n as int),
{
    if n < 0 {
        s.push('-');
        let magnitude: u64 = (-(n + 1)) as u64 + 1;
        push_decimal(s, magnitude);
        assert(s@ =~= old(s)@ + signed_decimal_text(n as int));
    } else {
        push_decimal(s, n as u64);
    }
}

/// The texts of string slices.
pub open spec fn str_texts(parts: Seq<&'static str>) -> Seq<Seq<char>> {
    parts.map_values(|s: &'static str| s@)
}

/// The parts in one text with the separator between each two neighbours.
pub open spec fn joined(parts: Seq<Seq<char>>, separator: Seq<char>) -> Seq<char>
    decreases parts.len(),
{
    if parts.len() == 0 {
        Seq::empty()
    } else if parts.len() == 1 {
        parts[0]
    } else {
        joined(parts.drop_last(), separator) + separator + parts.last()
    }
}

/// Joins the parts with the separator between each two neighbours.
pub fn join(parts: &Vec<&'static str>, separator: &str) -> (r: String)
    ensures
        r@ == joined(str_texts(parts@), separator@),
{
    let mut s = String::new();
    let ghost texts = str_texts(parts@);
    let mut i: usize = 0;
    assert(texts.take(0) =~= Seq::empty());
    while i < parts.len()
        invariant
            i <= parts.len(),
            texts == str_texts(parts@),
            s@ == joined(texts.take(i as int), separator@),
        decreases parts.len() - i,
    {
        let ghost before = s@;
        if i > 0 {
            s.append(separator);
        }
        s.append(parts[i]);
        proof {
            let upto = texts.take(i as int + 1);
            assert(upto.drop_last() =~= texts.take(i as int));
            assert(upto.last() == parts@[i as int]@);
            if i == 0 {
                assert(s@ =~= upto[0]);
            }
        }
        i = i + 1;
    }
    assert(texts.take(parts.len() as int) =~= texts);
    s
}

/// Whether two string slices hold the same characters.
pub fn same_text(a: &str, b: &str) -> (r: bool)
    ensures
        r == (a@ == b@),
{
    let n = a.unicode_len();
    if b.unicode_len() != n {
        return false;
    }
    let mut i: usize = 0;
    while i < n
        invariant
            i <= n,
            n == a@.len(),
            n == b@.len(),
            forall|k: int| 0 <= k < i ==> a@[k] == b@[k],
        decreases n - i,
    {
        if a.get_char(i) != b.get_char(i) {
            return false;
        }
        i = i + 1;
    }
    assert(a@ =~= b@);
    true
}

} // verus!
