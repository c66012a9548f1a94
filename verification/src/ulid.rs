//! ULID identifiers: 128-bit values that are unique for practical purposes,
//! time-ordered at generation, and shown as 26 Crockford base32 characters.
//! The string form round-trips: decoding an encoded value yields the value
//! back, which is proved below.

use vstd::arithmetic::div_mod::{
    lemma_div_denominator, lemma_div_is_ordered, lemma_fundamental_div_mod,
    lemma_multiply_divide_lt,
};
use vstd::prelude::*;

verus! {

/// The character standing for one base32 digit, following the Crockford
/// alphabet (digits, then the letters with `I`, `L`, `O` and `U` left out).
pub open spec fn crockford_char(d: int) -> char {
    if d == 0 {
        '0'
    } else if d == 1 {
        '1'
    } else if d == 2 {
        '2'
    } else if d == 3 {
        '3'
    } else if d == 4 {
        '4'
    } else if d == 5 {
        '5'
    } else if d == 6 {
        '6'
    } else if d == 7 {
        '7'
    } else if d == 8 {
        '8'
    } else if d == 9 {
        '9'
    } else if d == 10 {
        'A'
    } else if d == 11 {
        'B'
    } else if d == 12 {
        'C'
    } else if d == 13 {
        'D'
    } else if d == 14 {
        'E'
    } else if d == 15 {
        'F'
    } else if d == 16 {
        'G'
    } else if d == 17 {
        'H'
    } else if d == 18 {
        'J'
    } else if d == 19 {
        'K'
    } else if d == 20 {
        'M'
    } else if d == 21 {
        'N'
    } else if d == 22 {
        'P'
    } else if d == 23 {
        'Q'
    } else if d == 24 {
        'R'
    } else if d == 25 {
        'S'
    } else if d == 26 {
        'T'
    } else if d == 27 {
        'V'
    } else if d == 28 {
        'W'
    } else if d == 29 {
        'X'
    } else if d == 30 {
        'Y'
    } else {
        'Z'
    }
}

/// 32 raised to the `k`-th power (1 for `k <= 0`).
pub open spec fn pow32(k: int) -> int
    decreases k,
{
    if k <= 0 {
        1
    } else {
        32 * pow32(k - 1)
    }
}

/// Digit `i` of the 26-digit base32 expansion of `v`, leftmost digit first.
pub open spec fn ulid_digit(v: u128, i: int) -> int {
    (v as int / pow32(25 - i)) % 32
}

/// The 26-character Crockford base32 form of a 128-bit value.
pub open spec fn ulid_chars(v: u128) -> Seq<char> {
    Seq::new(26, |i: int| crockford_char(ulid_digit(v, i)))
}

pub proof fn lemma_pow32_pos(k: int)
    ensures
        pow32(k) >= 1,
    decreases k,
{
    if k > 0 {
        lemma_pow32_pos(k - 1);
    }
}

pub proof fn lemma_pow32_le(j: int, k: int)
    requires
        j <= k,
    ensures
        pow32(j) <= pow32(k),
    decreases k - j,
{
    if j < k {
        lemma_pow32_le(j, k - 1);
        lemma_pow32_pos(k - 1);
    }
}

/// `pow32(25)` is 2 to the 125th, which fits a `u128`.
pub proof fn lemma_pow32_25()
    ensures
        pow32(25) == 42535295865117307932921825928971026432int,
{
    assert(pow32(0) == 1);
    assert(pow32(1) == 32);
    assert(pow32(2) == 32 * pow32(1));
    assert(pow32(3) == 32 * pow32(2));
    assert(pow32(4) == 32 * pow32(3));
    assert(pow32(5) == 32 * pow32(4));
    assert(pow32(6) == 32 * pow32(5));
    assert(pow32(7) == 32 * pow32(6));
    assert(pow32(8) == 32 * pow32(7));
    assert(pow32(9) == 32 * pow32(8));
    assert(pow32(10) == 32 * pow32(9));
    assert(pow32(11) == 32 * pow32(10));
    assert(pow32(12) == 32 * pow32(11));
    assert(pow32(13) == 32 * pow32(12));
    assert(pow32(14) == 32 * pow32(13));
    assert(pow32(15) == 32 * pow32(14));
    assert(pow32(16) == 32 * pow32(15));
    assert(pow32(17) == 32 * pow32(16));
    assert(pow32(18) == 32 * pow32(17));
    assert(pow32(19) == 32 * pow32(18));
    assert(pow32(20) == 32 * pow32(19));
    assert(pow32(21) == 32 * pow32(20));
    assert(pow32(22) == 32 * pow32(21));
    assert(pow32(23) == 32 * pow32(22));
    assert(pow32(24) == 32 * pow32(23));
    assert(pow32(25) == 32 * pow32(24));
}

/// Relies on `rusty_ulid::Ulid::generate`: a fresh ULID from the clock and a
/// random number generator, handed over as its 128-bit value. Nothing can be
/// promised of the value itself.
#[verifier::external_body]
pub fn ulid_u128() -> u128 {
    rusty_ulid::Ulid::generate().into()
}

/// Relies on `String::push`: appends exactly one character.
#[verifier::external_body]
fn push_char(s: &mut String, c: char)
    ensures
        final(s)@ == old(s)@.push(c),
{
    s.push(c);
}

/// The character standing for digit `d`.
fn crockford_char_exec(d: u8) -> (c: char)
    requires
        d < 32,
    ensures
        c == crockford_char(d as int),
{
    match d {
        0 => '0',
        1 => '1',
        2 => '2',
        3 => '3',
        4 => '4',
        5 => '5',
        6 => '6',
        7 => '7',
        8 => '8',
        9 => '9',
        10 => 'A',
        11 => 'B',
        12 => 'C',
        13 => 'D',
        14 => 'E',
        15 => 'F',
        16 => 'G',
        17 => 'H',
        18 => 'J',
        19 => 'K',
        20 => 'M',
        21 => 'N',
        22 => 'P',
        23 => 'Q',
        24 => 'R',
        25 => 'S',
        26 => 'T',
        27 => 'V',
        28 => 'W',
        29 => 'X',
        30 => 'Y',
        _ => 'Z',
    }
}

/// 32 raised to the `k`-th power, computed in a `u128`.
fn pow32_exec(k: usize) -> (p: u128)
    requires
        k <= 25,
    ensures
        p as int == pow32(k as int),
{
    let mut p: u128 = 1;
    let mut j: usize = 0;
    while j < k
        invariant
            j <= k <= 25,
            p as int == pow32(j as int),
        decreases k - j,
    {
        proof {
            lemma_pow32_le(j as int + 1, 25);
            lemma_pow32_25();
        }
        p = p * 32;
        j = j + 1;
    }
    p
}

/// Encodes a 128-bit value as its 26-character Crockford base32 string.
pub fn ulid_u128_into_string(value: u128) -> (s: String)
    ensures
        s@ == ulid_chars(value),
{
    let mut s = String::new();
    let mut i: usize = 0;
    while i < 26
        invariant
            i <= 26,
            s@ =~= ulid_chars(value).take(i as int),
        decreases 26 - i,
    {
        let p = pow32_exec(25 - i);
        proof {
            lemma_pow32_pos(25 - i as int);
        }
        let d: u128 = (value / p) % 32;
        let c = crockford_char_exec(d as u8);
        push_char(&mut s, c);
        proof {
            assert(s@ =~= ulid_chars(value).take(i as int + 1));
        }
        i = i + 1;
    }
    proof {
        assert(ulid_chars(value).take(26) =~= ulid_chars(value));
    }
    s
}

/// Why a string cannot be decoded as a ULID.
#[derive(Debug, Clone, Copy, PartialEq, Eq, Structural)]
pub enum DecodingError {
    /// The string is not exactly 26 characters long.
    InvalidLength,
    /// The string holds a character outside the Crockford alphabet.
    InvalidChar(char),
    /// The string is 26 valid characters but encodes more than 128 bits.
    DataTypeOverflow,
}

/// The digit value of one Crockford character. Lower case is read like upper
/// case, and the usual aliases are admitted: `O` reads as 0, `I` and `L`
/// read as 1.
pub open spec fn crockford_digit(c: char) -> Option<int> {
    if c == '0' || c == 'O' || c == 'o' {
        Some(0)
    } else if c == '1' || c == 'I' || c == 'i' || c == 'L' || c == 'l' {
        Some(1)
    } else if c == '2' {
        Some(2)
    } else if c == '3' {
        Some(3)
    } else if c == '4' {
        Some(4)
    } else if c == '5' {
        Some(5)
    } else if c == '6' {
        Some(6)
    } else if c == '7' {
        Some(7)
    } else if c == '8' {
        Some(8)
    } else if c == '9' {
        Some(9)
    } else if c == 'A' || c == 'a' {
        Some(10)
    } else if c == 'B' || c == 'b' {
        Some(11)
    } else if c == 'C' || c == 'c' {
        Some(12)
    } else if c == 'D' || c == 'd' {
        Some(13)
    } else if c == 'E' || c == 'e' {
        Some(14)
    } else if c == 'F' || c == 'f' {
        Some(15)
    } else if c == 'G' || c == 'g' {
        Some(16)
    } else if c == 'H' || c == 'h' {
        Some(17)
    } else if c == 'J' || c == 'j' {
        Some(18)
    } else if c == 'K' || c == 'k' {
        Some(19)
    } else if c == 'M' || c == 'm' {
        Some(20)
    } else if c == 'N' || c == 'n' {
        Some(21)
    } else if c == 'P' || c == 'p' {
        Some(22)
    } else if c == 'Q' || c == 'q' {
        Some(23)
    } else if c == 'R' || c == 'r' {
        Some(24)
    } else if c == 'S' || c == 's' {
        Some(25)
    } else if c == 'T' || c == 't' {
        Some(26)
    } else if c == 'V' || c == 'v' {
        Some(27)
    } else if c == 'W' || c == 'w' {
        Some(28)
    } else if c == 'X' || c == 'x' {
        Some(29)
    } else if c == 'Y' || c == 'y' {
        Some(30)
    } else if c == 'Z' || c == 'z' {
        Some(31)
    } else {
        None
    }
}

/// The digit value of a Crockford character, 0 for one outside the alphabet.
pub open spec fn digit_val(c: char) -> int {
    match crockford_digit(c) {
        Some(d) => d,
        None => 0,
    }
}

/// The value read from a string of Crockford characters, leftmost digit
/// most significant.
pub open spec fn crockford_value(s: Seq<char>) -> int
    decreases s.len(),
{
    if s.len() == 0 {
        0
    } else {
        32 * crockford_value(s.drop_last()) + digit_val(s.last())
    }
}

/// A sequence of characters that decodes as a ULID: 26 Crockford characters
/// whose value fits 128 bits.
pub open spec fn valid_ulid_chars(s: Seq<char>) -> bool {
    &&& s.len() == 26
    &&& forall|i: int| 0 <= i < 26 ==> crockford_digit(#[trigger] s[i]) is Some
    &&& digit_val(s[0]) < 8
}

/// The digit value of one Crockford character.
fn crockford_digit_exec(c: char) -> (r: Option<u8>)
    ensures
        r is Some <==> crockford_digit(c) is Some,
        r matches Some(d) ==> crockford_digit(c) == Some(d as int),
{
    match c {
        '0' | 'O' | 'o' => Some(0),
        '1' | 'I' | 'i' | 'L' | 'l' => Some(1),
        '2' => Some(2),
        '3' => Some(3),
        '4' => Some(4),
        '5' => Some(5),
        '6' => Some(6),
        '7' => Some(7),
        '8' => Some(8),
        '9' => Some(9),
        'A' | 'a' => Some(10),
        'B' | 'b' => Some(11),
        'C' | 'c' => Some(12),
        'D' | 'd' => Some(13),
        'E' | 'e' => Some(14),
        'F' | 'f' => Some(15),
        'G' | 'g' => Some(16),
        'H' | 'h' => Some(17),
        'J' | 'j' => Some(18),
        'K' | 'k' => Some(19),
        'M' | 'm' => Some(20),
        'N' | 'n' => Some(21),
        'P' | 'p' => Some(22),
        'Q' | 'q' => Some(23),
        'R' | 'r' => Some(24),
        'S' | 's' => Some(25),
        'T' | 't' => Some(26),
        'V' | 'v' => Some(27),
        'W' | 'w' => Some(28),
        'X' | 'x' => Some(29),
        'Y' | 'y' => Some(30),
        'Z' | 'z' => Some(31),
        _ => None,
    }
}

/// Decodes a 26-character Crockford base32 string back into its 128-bit
/// value. The rejected inputs are pinned down exactly: a length other than
/// 26, a character outside the alphabet, or a first digit of 8 or more
/// (which would need a 129th bit).
pub fn ulid_u128_from_str(s: &str) -> (r: Result<u128, DecodingError>)
    ensures
        s@.len() != 26 ==> r == Err::<u128, DecodingError>(DecodingError::InvalidLength),
        s@.len() == 26 && crockford_digit(s@[0]) is None ==> r == Err::<u128, DecodingError>(
            DecodingError::InvalidChar(s@[0]),
        ),
        s@.len() == 26 && crockford_digit(s@[0]) is Some && digit_val(s@[0]) >= 8 ==> r == Err::<
            u128,
            DecodingError,
        >(DecodingError::DataTypeOverflow),
        s@.len() == 26 && crockford_digit(s@[0]) is Some && digit_val(s@[0]) < 8 && (exists|i: int|
            0 <= i < 26 && crockford_digit(#[trigger] s@[i]) is None) ==> (r matches Err(
            DecodingError::InvalidChar(c),
        ) && crockford_digit(c) is None && (exists|i: int| 0 <= i < 26 && s@[i] == c)),
        valid_ulid_chars(s@) ==> (r matches Ok(v) && v as int == crockford_value(s@)),
{
    let len = s.unicode_len();
    if len != 26 {
        return Err(DecodingError::InvalidLength);
    }
    let mut acc: u128 = 0;
    let mut i: usize = 0;
    while i < 26
        invariant
            i <= 26,
            s@.len() == 26,
            forall|j: int| 0 <= j < i ==> crockford_digit(#[trigger] s@[j]) is Some,
            i > 0 ==> digit_val(s@[0]) < 8,
            acc as int == crockford_value(s@.take(i as int)),
            i == 0 ==> acc == 0,
            i > 0 ==> (acc as int) < 8 * pow32(i as int - 1),
        decreases 26 - i,
    {
        let c = s.get_char(i);
        let d: u8 = match crockford_digit_exec(c) {
            Some(d) => d,
            None => {
                return Err(DecodingError::InvalidChar(c));
            },
        };
        if i == 0 && d >= 8 {
            return Err(DecodingError::DataTypeOverflow);
        }
        proof {
            if i > 0 {
                lemma_pow32_le(i as int, 25);
                lemma_pow32_25();
            }
        }
        acc = acc * 32 + (d as u128);
        proof {
            assert(s@.take(i as int + 1).drop_last() =~= s@.take(i as int));
            assert(s@.take(i as int + 1).last() == s@[i as int]);
        }
        i = i + 1;
    }
    proof {
        assert(s@.take(26) =~= s@);
    }
    Ok(acc)
}

/// Every Crockford character reads back as the digit it stands for.
proof fn lemma_crockford_digit_of_char(d: int)
    requires
        0 <= d < 32,
    ensures
        crockford_digit(crockford_char(d)) == Some(d),
{
}

/// Decoding the `k`-character prefix of the encoded form of `v` yields the
/// topmost `k` digits of `v`.
proof fn lemma_ulid_value_prefix(v: u128, k: int)
    requires
        0 <= k <= 26,
    ensures
        crockford_value(ulid_chars(v).take(k)) == (v as int) / pow32(26 - k),
    decreases k,
{
    let s = ulid_chars(v);
    if k == 0 {
        assert(s.take(0) =~= Seq::<char>::empty());
        lemma_pow32_25();
        assert(pow32(26) == 32 * pow32(25));
        assert((v as int) / pow32(26) == 0) by {
            lemma_multiply_divide_lt(v as int, pow32(26), 1);
        }
    } else {
        lemma_ulid_value_prefix(v, k - 1);
        assert(s.take(k).drop_last() =~= s.take(k - 1));
        assert(s.take(k).last() == s[k - 1]);
        let n = pow32(26 - k);
        lemma_pow32_pos(26 - k);
        let q = (v as int) / n;
        assert(pow32(27 - k) == 32 * pow32(26 - k));
        assert((q / 32) == (v as int) / pow32(27 - k)) by {
            lemma_div_denominator(v as int, n, 32);
        }
        assert(q == 32 * (q / 32) + q % 32) by {
            lemma_fundamental_div_mod(q, 32);
        }
        assert(ulid_digit(v, k - 1) == q % 32);
        assert(0 <= q % 32 < 32);
        lemma_crockford_digit_of_char(q % 32);
        assert(digit_val(s[k - 1]) == q % 32);
        assert(crockford_value(s.take(k)) == 32 * crockford_value(s.take(k - 1)) + digit_val(
            s[k - 1],
        ));
    }
}

/// Law (round trip): the 26-character form of any 128-bit value is a valid
/// ULID string, and decoding it yields the value back.
pub proof fn lemma_ulid_round_trip(v: u128)
    ensures
        valid_ulid_chars(ulid_chars(v)),
        crockford_value(ulid_chars(v)) == v as int,
{
    let s = ulid_chars(v);
    assert forall|i: int| 0 <= i < 26 implies crockford_digit(#[trigger] s[i]) is Some by {
        lemma_pow32_pos(25 - i);
        assert(0 <= ulid_digit(v, i) < 32);
        lemma_crockford_digit_of_char(ulid_digit(v, i));
    }
    lemma_pow32_25();
    assert((v as int) / pow32(25) < 8) by {
        lemma_multiply_divide_lt(v as int, pow32(25), 8);
    }
    assert(ulid_digit(v, 0) < 8);
    lemma_crockford_digit_of_char(ulid_digit(v, 0));
    assert(digit_val(s[0]) < 8);
    lemma_ulid_value_prefix(v, 26);
    assert(s.take(26) =~= s);
    assert(pow32(0) == 1);
}

/// Law (injective encoding): distinct values never share their 26-character
/// form, so comparing encoded identifiers never confuses two identifiers.
pub proof fn lemma_ulid_string_injective(a: u128, b: u128)
    requires
        ulid_chars(a) == ulid_chars(b),
    ensures
        a == b,
{
    lemma_ulid_round_trip(a);
    lemma_ulid_round_trip(b);
}

/// Strict lexicographic order between strings of equal length: at the first
/// position where they differ, the left one holds the character with the
/// smaller code (for ASCII, byte order).
pub open spec fn lex_lt(s1: Seq<char>, s2: Seq<char>) -> bool {
    exists|k: int|
        0 <= k < s1.len() && k < s2.len() && (forall|j: int| 0 <= j < k ==> s1[j] == s2[j]) && (
        #[trigger] s1[k] as u32) < (#[trigger] s2[k] as u32)
}

/// The Crockford alphabet is ordered: a larger digit is shown as a character
/// with a larger code.
proof fn lemma_crockford_char_ordered(d1: int, d2: int)
    requires
        0 <= d1 < d2 < 32,
    ensures
        (crockford_char(d1) as u32) < (crockford_char(d2) as u32),
{
}

/// From the first `i` digits agreeing, the encodings of `a < b` order
/// lexicographically: the first digit where they part is smaller on the
/// left, because the digits are read most significant first.
proof fn lemma_sortable_from(a: u128, b: u128, i: int)
    requires
        a < b,
        0 <= i <= 26,
        forall|j: int| 0 <= j < i ==> ulid_digit(a, j) == ulid_digit(b, j),
    ensures
        lex_lt(ulid_chars(a), ulid_chars(b)),
    decreases 26 - i,
{
    let sa = ulid_chars(a);
    let sb = ulid_chars(b);
    if i == 26 {
        assert(sa =~= sb);
        lemma_ulid_string_injective(a, b);
    } else if ulid_digit(a, i) == ulid_digit(b, i) {
        lemma_sortable_from(a, b, i + 1);
    } else {
        assert(sa.take(i) =~= sb.take(i));
        lemma_ulid_value_prefix(a, i);
        lemma_ulid_value_prefix(b, i);
        let n = pow32(25 - i);
        lemma_pow32_pos(25 - i);
        let qa = (a as int) / n;
        let qb = (b as int) / n;
        assert(pow32(26 - i) == 32 * pow32(25 - i));
        assert(qa / 32 == (a as int) / pow32(26 - i)) by {
            lemma_div_denominator(a as int, n, 32);
        }
        assert(qb / 32 == (b as int) / pow32(26 - i)) by {
            lemma_div_denominator(b as int, n, 32);
        }
        assert(qa == 32 * (qa / 32) + qa % 32) by {
            lemma_fundamental_div_mod(qa, 32);
        }
        assert(qb == 32 * (qb / 32) + qb % 32) by {
            lemma_fundamental_div_mod(qb, 32);
        }
        assert(qa <= qb) by {
            lemma_div_is_ordered(a as int, b as int, n);
        }
        assert(ulid_digit(a, i) < ulid_digit(b, i));
        lemma_crockford_char_ordered(ulid_digit(a, i), ulid_digit(b, i));
        assert(0 <= i < sa.len() && i < sb.len() && (forall|j: int|
            0 <= j < i ==> sa[j] == sb[j]) && (sa[i] as u32) < (sb[i] as u32));
    }
}

/// Law (lexicographic sortability): identifier strings sort exactly as the
/// identifiers' values do.
pub proof fn lemma_ulid_string_sortable(a: u128, b: u128)
    requires
        a < b,
    ensures
        lex_lt(ulid_chars(a), ulid_chars(b)),
{
    lemma_sortable_from(a, b, 0);
}

/// A universally unique, lexicographically sortable, 128-bit identifier.
#[derive(Debug, Clone, Copy, PartialEq, Eq, Structural, Hash, PartialOrd, Ord)]
pub struct ULID(pub u128);

impl ULID {
    /// Generates a fresh identifier.
    pub fn generate() -> ULID {
        ULID(ulid_u128())
    }

    /// The identifier's 128-bit value.
    pub fn value(&self) -> (v: u128)
        ensures
            v == self.0,
    {
        self.0
    }

    /// The identifier's 26-character Crockford base32 form.
    pub fn to_string(&self) -> (s: String)
        ensures
            s@ == ulid_chars(self.0),
    {
        ulid_u128_into_string(self.0)
    }

    /// Reads an identifier back from its 26-character form.
    pub fn parse(s: &str) -> (r: Result<ULID, DecodingError>)
        ensures
            valid_ulid_chars(s@) ==> (r matches Ok(u) && u.0 as int == crockford_value(s@)),
            !valid_ulid_chars(s@) ==> r is Err,
    {
        match ulid_u128_from_str(s) {
            Ok(v) => Ok(ULID(v)),
            Err(e) => Err(e),
        }
    }
}

} // verus!
