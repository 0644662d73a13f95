//! Text that the bot builds: numerals, concatenation and letter case.

use vstd::prelude::*;
use vstd::string::*;
use vstd::utf8::*;

verus! {

/// The character that stands for the digit `d`, with upper-case letters from ten on.
pub open spec fn digit_char(d: nat) -> char {
    if d < 10 {
        (('0' as u32) + d) as char
    } else {
        (('A' as u32) + (d - 10)) as char
    }
}

/// The numeral of `n` in the given base, without leading zeros.
pub open spec fn numeral(n: nat, base: nat) -> Seq<char>
    decreases n,
{
    if base < 2 || n < base {
        seq![digit_char(n)]
    } else {
        proof {
            assert(n / base < n) by (nonlinear_arith)
                requires
                    2 <= base <= n,
            ;
        }
        numeral(n / base, base).push(digit_char(n % base))
    }
}

/// The decimal numeral of `n`.
pub open spec fn decimal(n: nat) -> Seq<char> {
    numeral(n, 10)
}

/// The upper-case hexadecimal numeral of `n`.
pub open spec fn hexadecimal(n: nat) -> Seq<char> {
    numeral(n, 16)
}

fn digit_text(d: u64) -> (r: &'static str)
    requires
        d < 16,
    ensures
        r@ == seq![digit_char(d as nat)],
{
    proof {
        reveal_strlit("0");
        reveal_strlit("1");
        reveal_strlit("2");
        reveal_strlit("3");
        reveal_strlit("4");
        reveal_strlit("5");
        reveal_strlit("6");
        reveal_strlit("7");
        reveal_strlit("8");
        reveal_strlit("9");
        reveal_strlit("A");
        reveal_strlit("B");
        reveal_strlit("C");
        reveal_strlit("D");
        reveal_strlit("E");
        reveal_strlit("F");
    }
    match d {
        0 => "0",
        1 => "1",
        2 => "2",
        3 => "3",
        4 => "4",
        5 => "5",
        6 => "6",
        7 => "7",
        8 => "8",
        9 => "9",
        10 => "A",
        11 => "B",
        12 => "C",
        13 => "D",
        14 => "E",
        _ => "F",
    }
}

/// Appends the numeral of `n` in the given base to `out`.
pub fn push_numeral(out: &mut String, n: u64, base: u64)
    requires
        2 <= base <= 16,
    ensures
        final(out)@ == old(out)@ + numeral(n as nat, base as nat),
    decreases n,
{
    if n < base {
        out.append(digit_text(n));
    } else {
        assert(n / base < n) by (nonlinear_arith)
            requires
                2 <= base <= n,
        ;
        push_numeral(out, n / base, base);
        out.append(digit_text(n % base));
    }
}

/// Appends the decimal numeral of `n` to `out`.
pub fn push_decimal(out: &mut String, n: u64)
    ensures
        final(out)@ == old(out)@ + decimal(n as nat),
{
    push_numeral(out, n, 10);
}

/// Whether two texts are the same.
pub fn same_text(a: &str, b: &str) -> (r: bool)
    ensures
        r == (a@ == b@),
{
    a.to_owned() == b.to_owned()
}

/// Whether `text` ends with `suffix`.
pub open spec fn ends_with(text: Seq<char>, suffix: Seq<char>) -> bool {
    suffix.len() <= text.len() && text.skip(text.len() - suffix.len()) == suffix
}

/// Whether `text` ends with `suffix`.
pub fn has_suffix(text: &str, suffix: &str) -> (r: bool)
    ensures
        r == ends_with(text@, suffix@),
{
    let n: usize = text.unicode_len();
    let k: usize = suffix.unicode_len();
    if k > n {
        return false;
    }
    let tail = text.substring_char(n - k, n);
    assert(tail@ == text@.skip(n - k));
    same_text(tail, suffix)
}

/// The lower-case form of one ASCII character; any other character is left as it is.
pub open spec fn ascii_lower(c: char) -> char {
    if 'A' <= c <= 'Z' {
        ((c as u32) + 32) as char
    } else {
        c
    }
}

/// The text that `str::to_lowercase` gives for `text`.
pub uninterp spec fn lowercase(text: Seq<char>) -> Seq<char>;

/// Calls `str::to_lowercase`.
///
/// The result is named as a function of the text alone. Of a text made of ASCII
/// characters it is stated in full: each of `A` to `Z` becomes its small letter and
/// nothing else changes.
#[verifier::external_body]
pub(crate) fn to_lowercase(text: &str) -> (r: String)
    ensures
        r@ == lowercase(text@),
        is_ascii_chars(text@) ==> r@ == text@.map_values(|c: char| ascii_lower(c)),
{
    text.to_lowercase()
}

/// Calls `String::from_utf8`: the bytes as text if they are well-formed UTF-8, nothing
/// otherwise.
#[verifier::external_body]
pub(crate) fn text_of_utf8(bytes: Vec<u8>) -> (r: Option<String>)
    ensures
        r is Some <==> valid_utf8(bytes@),
        r matches Some(s) ==> s@ == decode_utf8(bytes@),
{
    String::from_utf8(bytes).ok()
}

/// The number that a row of decimal digits stands for.
pub open spec fn digits_value(s: Seq<char>) -> nat
    decreases s.len(),
{
    if s.len() == 0 {
        0
    } else {
        10 * digits_value(s.drop_last()) + ((s.last() as u32) - ('0' as u32)) as nat
    }
}

/// Whether `s` is a non-empty row of decimal digits.
pub open spec fn is_digits(s: Seq<char>) -> bool {
    s.len() > 0 && forall|i: int| 0 <= i < s.len() ==> '0' <= #[trigger] s[i] <= '9'
}

/// The number that `s` writes: an optional plus sign followed by digits only.
pub open spec fn written_number(s: Seq<char>) -> Option<nat> {
    let digits = if s.len() > 0 && s[0] == '+' {
        s.drop_first()
    } else {
        s
    };
    if is_digits(digits) {
        Some(digits_value(digits))
    } else {
        None
    }
}

/// The text of the error that `str::parse::<usize>` gives for a text it rejects.
pub uninterp spec fn number_error(text: Seq<char>) -> Seq<char>;

/// Calls `str::parse::<usize>`.
///
/// It succeeds exactly on an optional plus sign followed by digits whose value fits, and
/// then gives that value. The wording of the error is named as a function of the text.
#[verifier::external_body]
pub(crate) fn parse_number(text: &str) -> (r: Result<usize, String>)
    ensures
        match r {
            Ok(n) => written_number(text@) == Some(n as nat),
            Err(e) => e@ == number_error(text@) && (written_number(text@) matches Some(v) ==> v
                > usize::MAX),
        },
{
    text.parse::<usize>().map_err(|e| e.to_string())
}

/// Every digit of a numeral is one of `0` to `9` and `A` to `F`, and a numeral is never empty.
pub proof fn numeral_digits(n: nat, base: nat)
    requires
        2 <= base <= 16,
    ensures
        numeral(n, base).len() > 0,
        forall|i: int|
            0 <= i < numeral(n, base).len() ==> {
                let c = #[trigger] numeral(n, base)[i];
                '0' <= c <= '9' || 'A' <= c <= 'F'
            },
    decreases n,
{
    if n >= base {
        assert(n / base < n) by (nonlinear_arith)
            requires
                2 <= base <= n,
        ;
        assert(n % base < base) by (nonlinear_arith)
            requires
                2 <= base,
        ;
        numeral_digits(n / base, base);
    }
}

/// How many numerals of at most `digits` hexadecimal digits there are.
spec fn hexadecimal_range(digits: nat) -> nat
    decreases digits,
{
    if digits == 0 {
        1
    } else {
        16 * hexadecimal_range((digits - 1) as nat)
    }
}

proof fn lemma_hexadecimal_len(n: nat, digits: nat)
    requires
        digits > 0,
        n < hexadecimal_range(digits),
    ensures
        hexadecimal(n).len() <= digits,
    decreases digits,
{
    if n >= 16 {
        assert(digits > 1) by {
            reveal_with_fuel(hexadecimal_range, 2);
        }
        lemma_hexadecimal_len(n / 16, (digits - 1) as nat);
    }
}

/// The hexadecimal numeral of a 64-bit number has at most sixteen digits.
pub proof fn hexadecimal_len(n: u64)
    ensures
        hexadecimal(n as nat).len() <= 16,
{
    assert(hexadecimal_range(16) == 0x1_0000_0000_0000_0000) by {
        reveal_with_fuel(hexadecimal_range, 17);
    }
    lemma_hexadecimal_len(n as nat, 16);
}

/// The digits stand for themselves: `0` to `9`, and from ten on `A` to `F`, in their order.
pub proof fn digits_stand_in_order(d: nat)
    requires
        d < 16,
    ensures
        d < 10 ==> digit_char(d) as int == 48 + d,
        d >= 10 ==> digit_char(d) as int == 65 + (d - 10),
{
}

/// A number below the base is a single digit, and any other number is written by writing what is
/// left of it without its last digit, and then that digit.
pub proof fn numeral_is_made_of_its_digits(n: nat, d: nat, base: nat)
    requires
        2 <= base <= 16,
        d < base,
    ensures
        numeral(d, base) == seq![digit_char(d)],
        n > 0 ==> numeral(n * base + d, base) == numeral(n, base).push(digit_char(d)),
{
    if n > 0 {
        assert(n * base + d >= base) by (nonlinear_arith)
            requires
                n > 0,
        ;
        vstd::arithmetic::div_mod::lemma_fundamental_div_mod_converse(
            (n * base + d) as int,
            base as int,
            n as int,
            d as int,
        );
    }
}

/// Decimal numerals are numerals to the base of ten, and hexadecimal ones to that of sixteen;
/// neither has leading zeros.
pub proof fn numerals_have_no_leading_zeros(n: nat, d: nat)
    ensures
        d < 10 ==> decimal(d) == seq![digit_char(d)],
        d < 16 ==> hexadecimal(d) == seq![digit_char(d)],
        n > 0 && d < 10 ==> decimal(n * 10 + d) == decimal(n).push(digit_char(d)),
        n > 0 && d < 16 ==> hexadecimal(n * 16 + d) == hexadecimal(n).push(digit_char(d)),
{
    if d < 10 {
        numeral_is_made_of_its_digits(n, d, 10);
    }
    if d < 16 {
        numeral_is_made_of_its_digits(n, d, 16);
    }
}

/// Different numbers have different numerals.
pub proof fn numeral_tells_numbers_apart(a: nat, b: nat, base: nat)
    requires
        2 <= base <= 16,
        numeral(a, base) == numeral(b, base),
    ensures
        a == b,
    decreases a,
{
    let x = numeral(a, base);
    let y = numeral(b, base);
    lemma_last_digit(a, base);
    lemma_last_digit(b, base);
    assert(a % base == b % base);
    if a >= base && b >= base {
        assert(a / base < a) by (nonlinear_arith)
            requires
                2 <= base <= a,
        ;
        assert(x.drop_last() =~= numeral(a / base, base));
        assert(y.drop_last() =~= numeral(b / base, base));
        numeral_tells_numbers_apart(a / base, b / base, base);
        vstd::arithmetic::div_mod::lemma_fundamental_div_mod(a as int, base as int);
        vstd::arithmetic::div_mod::lemma_fundamental_div_mod(b as int, base as int);
    } else if a < base && b < base {
        vstd::arithmetic::div_mod::lemma_small_mod(a, base);
        vstd::arithmetic::div_mod::lemma_small_mod(b, base);
    } else if a >= base {
        numeral_digits(a / base, base);
        assert(x.len() > 1 && y.len() == 1);
    } else {
        numeral_digits(b / base, base);
        assert(y.len() > 1 && x.len() == 1);
    }
}

proof fn lemma_last_digit(n: nat, base: nat)
    requires
        2 <= base <= 16,
    ensures
        numeral(n, base).len() > 0,
        n % base < base,
        numeral(n, base).last() == digit_char(n % base),
{
    numeral_digits(n, base);
    assert(n % base < base) by (nonlinear_arith)
        requires
            2 <= base,
    ;
    if n < base {
        vstd::arithmetic::div_mod::lemma_small_mod(n, base);
    }
}

/// Reading back the decimal numeral of a number gives that number: the positions shown in
/// a listing can be typed back as they are.
pub proof fn decimal_reads_back(n: nat)
    ensures
        written_number(decimal(n)) == Some(n),
{
    lemma_decimal_digits(n);
    assert(decimal(n)[0] != '+');
}

proof fn lemma_decimal_digits(n: nat)
    ensures
        is_digits(decimal(n)),
        digits_value(decimal(n)) == n,
    decreases n,
{
    if n < 10 {
        let s = decimal(n);
        assert(s.len() == 1);
        assert(s.drop_last() =~= Seq::empty());
        assert(digits_value(s.drop_last()) == 0);
    } else {
        lemma_decimal_digits(n / 10);
        let s = decimal(n);
        assert(s.drop_last() =~= decimal(n / 10));
    }
}

} // verus!
