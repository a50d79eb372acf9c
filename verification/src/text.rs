use vstd::prelude::*;
use vstd::string::StrSliceExecFns;
use vstd::utf8::{decode_utf8, valid_utf8};

verus! {

/// `String::push` appends one character.
pub assume_specification[ String::push ](s: &mut String, ch: char)
    ensures
        final(s)@ == old(s)@.push(ch),
;

/// What `String::from_utf8_lossy` makes of a byte sequence.
pub uninterp spec fn utf8_lossy(bytes: Seq<u8>) -> Seq<char>;

/// `std::str::from_utf8`: the bytes as a string slice when they are valid
/// UTF-8 (RFC 3629), nothing otherwise.
#[verifier::external_body]
pub(crate) fn str_from_utf8(bytes: &[u8]) -> (r: Option<&str>)
    ensures
        r is Some <==> valid_utf8(bytes@),
        r matches Some(s) ==> s@ == decode_utf8(bytes@),
{
    std::str::from_utf8(bytes).ok()
}

/// `String::from_utf8_lossy`, made an owned `String`. Its result is named
/// by `utf8_lossy`; on valid UTF-8 it is the decoded text. How invalid
/// sequences are replaced is left unsaid.
#[verifier::external_body]
pub(crate) fn string_from_utf8_lossy(bytes: &[u8]) -> (r: String)
    ensures
        r@ == utf8_lossy(bytes@),
        valid_utf8(bytes@) ==> r@ == decode_utf8(bytes@),
{
    String::from_utf8_lossy(bytes).into_owned()
}

/// The upper-case hexadecimal digit of `d` (0–15).
pub open spec fn hex_digit_spec(d: u8) -> char {
    if d == 0 { '0' } else if d == 1 { '1' } else if d == 2 { '2' } else if d == 3 { '3' }
    else if d == 4 { '4' } else if d == 5 { '5' } else if d == 6 { '6' } else if d == 7 { '7' }
    else if d == 8 { '8' } else if d == 9 { '9' } else if d == 10 { 'A' } else if d == 11 { 'B' }
    else if d == 12 { 'C' } else if d == 13 { 'D' } else if d == 14 { 'E' } else { 'F' }
}

/// The upper-case hexadecimal digit of `d` (0–15).
pub fn hex_digit(d: u8) -> (c: char)
    requires
        d < 16,
    ensures
        c == hex_digit_spec(d),
{
    match d {
        0 => '0',
        1 => '1',
        2 => '2',
        3 => '3',
        4 => '4',
        5 => '5',
        6 => '6',
        7 => '7',
        8 => '8',
        9 => '9',
        10 => 'A',
        11 => 'B',
        12 => 'C',
        13 => 'D',
        14 => 'E',
        _ => 'F',
    }
}

/// Decimal notation of `n`, without leading zeros.
pub open spec fn decimal_spec(n: nat) -> Seq<char>
    decreases n,
{
    if n < 10 {
        seq![hex_digit_spec(n as u8)]
    } else {
        decimal_spec(n / 10).push(hex_digit_spec((n % 10) as u8))
    }
}

/// Appends the decimal notation of `n` to `s`.
pub fn push_decimal(s: &mut String, n: u32)
    ensures
        final(s)@ == old(s)@ + decimal_spec(n as nat),
    decreases n,
{
    if n >= 10 {
        push_decimal(s, n / 10);
    }
    s.push(hex_digit((n % 10) as u8));
    assert(s@ =~= old(s)@ + decimal_spec(n as nat));
}

/// Upper-case hexadecimal notation of a byte, without leading zeros.
pub open spec fn hex_spec(v: u8) -> Seq<char> {
    if v < 16 {
        seq![hex_digit_spec(v)]
    } else {
        seq![hex_digit_spec(v / 16), hex_digit_spec(v % 16)]
    }
}

/// `s` without its trailing NUL characters.
pub open spec fn trim_nul_spec(s: Seq<char>) -> Seq<char>
    decreases s.len(),
{
    if s.len() > 0 && s.last() == '\0' {
        trim_nul_spec(s.drop_last())
    } else {
        s
    }
}

/// `s` without its trailing NUL characters.
pub fn trim_nul(s: &str) -> (r: String)
    ensures
        r@ == trim_nul_spec(s@),
{
    let mut n: usize = s.unicode_len();
    assert(s@.take(n as int) =~= s@);
    while n > 0 && s.get_char(n - 1) == '\0'
        invariant
            n <= s@.len(),
            trim_nul_spec(s@.take(n as int)) == trim_nul_spec(s@),
        decreases n,
    {
        assert(s@.take(n as int).drop_last() =~= s@.take(n - 1));
        n = n - 1;
    }
    let kept = s.substring_char(0, n);
    assert(s@.subrange(0, n as int) =~= s@.take(n as int));
    String::from_str(kept)
}

/// The number that a sequence of decimal digit characters denotes.
pub open spec fn decimal_value(s: Seq<char>) -> int
    decreases s.len(),
{
    if s.len() == 0 {
        0
    } else {
        decimal_value(s.drop_last()) * 10 + (s.last() as int - '0' as int)
    }
}

/// The number that a sequence of upper-case hexadecimal digit characters
/// denotes.
pub open spec fn hex_value(s: Seq<char>) -> int
    decreases s.len(),
{
    if s.len() == 0 {
        0
    } else {
        hex_value(s.drop_last()) * 16 + hex_char_value(s.last())
    }
}

/// The value of one upper-case hexadecimal digit character.
pub open spec fn hex_char_value(c: char) -> int {
    if '0' <= c <= '9' { c as int - '0' as int } else { c as int - 'A' as int + 10 }
}

/// Whether `c` is a decimal digit character.
pub open spec fn is_decimal_char(c: char) -> bool {
    '0' <= c <= '9'
}

/// Whether `c` is an upper-case hexadecimal digit character.
pub open spec fn is_hex_char(c: char) -> bool {
    ('0' <= c <= '9') || ('A' <= c <= 'F')
}

/// Digit `d` below 10 is the character `'0' + d`; digits 10 to 15 are
/// `'A'` to `'F'`.
pub proof fn lemma_hex_digit(d: u8)
    requires
        d < 16,
    ensures
        d < 10 ==> hex_digit_spec(d) as int == '0' as int + d,
        d >= 10 ==> hex_digit_spec(d) as int == 'A' as int + d - 10,
        is_hex_char(hex_digit_spec(d)),
        hex_char_value(hex_digit_spec(d)) == d,
        d < 10 ==> is_decimal_char(hex_digit_spec(d)),
{
}

/// The decimal notation of `n` consists of decimal digits, has no leading
/// zero (unless it is `"0"`), and read back as base-10 digits gives `n`.
pub proof fn lemma_decimal_notation(n: nat)
    ensures
        decimal_spec(n).len() >= 1,
        forall|i: int| 0 <= i < decimal_spec(n).len() ==> is_decimal_char(#[trigger] decimal_spec(n)[i]),
        decimal_value(decimal_spec(n)) == n,
        n > 0 ==> decimal_spec(n)[0] != '0',
    decreases n,
{
    let e = Seq::<char>::empty();
    if n < 10 {
        lemma_hex_digit(n as u8);
        assert(decimal_spec(n).drop_last() =~= e);
        assert(decimal_value(e) == 0);
        assert(decimal_value(decimal_spec(n)) == decimal_value(e) * 10 + (hex_digit_spec(n as u8) as int - '0' as int));
    } else {
        lemma_decimal_notation(n / 10);
        lemma_hex_digit((n % 10) as u8);
        assert(decimal_spec(n).drop_last() =~= decimal_spec(n / 10));
        assert(decimal_spec(n)[0] == decimal_spec(n / 10)[0]);
        assert(decimal_value(decimal_spec(n)) == decimal_value(decimal_spec(n / 10)) * 10 + (n % 10) as int);
        assert((n / 10) * 10 + n % 10 == n) by (nonlinear_arith);
    }
}

/// The hexadecimal notation of a byte consists of upper-case hexadecimal
/// digits, has no leading zero (unless it is `"0"`), and read back as
/// base-16 digits gives the byte.
pub proof fn lemma_hex_notation(v: u8)
    ensures
        1 <= hex_spec(v).len() <= 2,
        forall|i: int| 0 <= i < hex_spec(v).len() ==> is_hex_char(#[trigger] hex_spec(v)[i]),
        hex_value(hex_spec(v)) == v,
        v > 0 ==> hex_spec(v)[0] != '0',
{
    let e = Seq::<char>::empty();
    lemma_hex_digit(v % 16);
    assert(hex_value(e) == 0);
    if v >= 16 {
        lemma_hex_digit(v / 16);
        let hi = seq![hex_digit_spec(v / 16)];
        assert(hex_spec(v).drop_last() =~= hi);
        assert(hi.drop_last() =~= e);
        assert(hex_value(hi) == hex_value(e) * 16 + hex_char_value(hex_digit_spec(v / 16)));
        assert(hex_value(hex_spec(v)) == hex_value(hi) * 16 + hex_char_value(hex_digit_spec(v % 16)));
        assert((v / 16) as int * 16 + (v % 16) as int == v as int) by (nonlinear_arith);
    } else {
        assert(hex_spec(v).drop_last() =~= e);
        assert(hex_value(hex_spec(v)) == hex_value(e) * 16 + hex_char_value(hex_digit_spec(v)));
    }
}

/// Trimming removes only NUL characters, and only from the end: the input
/// is the result followed by NULs, and the result does not end in NUL.
pub proof fn lemma_trim_nul(s: Seq<char>)
    ensures
        trim_nul_spec(s).len() <= s.len(),
        s.take(trim_nul_spec(s).len() as int) == trim_nul_spec(s),
        forall|i: int| trim_nul_spec(s).len() <= i < s.len() ==> #[trigger] s[i] == '\0',
        trim_nul_spec(s).len() > 0 ==> trim_nul_spec(s).last() != '\0',
    decreases s.len(),
{
    if s.len() > 0 && s.last() == '\0' {
        lemma_trim_nul(s.drop_last());
        let r = trim_nul_spec(s);
        assert(s.take(r.len() as int) =~= s.drop_last().take(r.len() as int));
        assert forall|i: int| r.len() <= i < s.len() implies #[trigger] s[i] == '\0' by {
            if i < s.len() - 1 {
                assert(s[i] == s.drop_last()[i]);
            }
        }
    } else {
        assert(s.take(s.len() as int) =~= s);
    }
}

} // verus!
