//! Whole numbers as they stand in a field of a source line, and as they are
//! written into a message.
use crate::text::{chars_of, push_char};
use vstd::prelude::*;

verus! {

/// The value of `c` as a digit in base `radix`, where it is one: `0` to `9`,
/// then the letters in either case from ten upwards.
pub open spec fn digit_of(c: char, radix: int) -> Option<int> {
    let n = c as u32 as int;
    let d = if 48 <= n <= 57 {
        n - 48
    } else if 97 <= n <= 122 {
        n - 87
    } else if 65 <= n <= 90 {
        n - 55
    } else {
        radix
    };
    if d < radix {
        Some(d)
    } else {
        None
    }
}

/// Whether every character of `s` is a digit in base `radix`.
pub open spec fn all_digits(s: Seq<char>, radix: int) -> bool {
    forall|i: int| 0 <= i < s.len() ==> (#[trigger] digit_of(s[i], radix)) is Some
}

/// The number that the digits `s` write in base `radix`, most significant
/// digit first.
pub open spec fn digits_value(s: Seq<char>, radix: int) -> int
    decreases s.len(),
{
    if s.len() == 0 {
        0
    } else {
        digits_value(s.drop_last(), radix) * radix + match digit_of(s.last(), radix) {
            Some(d) => d,
            None => 0,
        }
    }
}

/// The number written by `s` in base `radix`: an optional sign (`-` only
/// where `signed`), then at least one digit and nothing else.
pub open spec fn signed_value(s: Seq<char>, radix: int, signed: bool) -> Option<int> {
    if s.len() == 0 {
        None
    } else {
        let negative = signed && s[0] == '-';
        let body = if s[0] == '+' || negative {
            s.drop_first()
        } else {
            s
        };
        if body.len() == 0 || !all_digits(body, radix) {
            None
        } else if negative {
            Some(-digits_value(body, radix))
        } else {
            Some(digits_value(body, radix))
        }
    }
}

/// The number that a field writes: in base sixteen after the prefix `0x`, in
/// base ten otherwise.
pub open spec fn number_in(s: Seq<char>, signed: bool) -> Option<int> {
    if s.len() >= 2 && s[0] == '0' && s[1] == 'x' {
        signed_value(s.skip(2), 16, signed)
    } else {
        signed_value(s, 10, signed)
    }
}

/// `v` where it lies between `lo` and `hi`, both included.
pub open spec fn within(v: Option<int>, lo: int, hi: int) -> Option<int> {
    if v is Some && lo <= v->0 <= hi {
        v
    } else {
        None
    }
}

/// The largest magnitude that [`parse_number`] hands out: two to the power 64.
pub open spec fn widest() -> int {
    0x1_0000_0000_0000_0000
}

/// The digits of a number write at least what its leading digits write.
pub proof fn lemma_digits_value_grows(s: Seq<char>, k: int, radix: int)
    requires
        0 <= k <= s.len(),
        radix >= 1,
    ensures
        0 <= digits_value(s.take(k), radix) <= digits_value(s, radix),
    decreases s.len() - k,
{
    lemma_digits_value_nonnegative(s.take(k), radix);
    if k == s.len() {
        assert(s.take(k) == s);
    } else {
        let t = s.drop_last();
        lemma_digits_value_grows(t, k, radix);
        assert(t.take(k) == s.take(k));
        lemma_digits_value_nonnegative(t, radix);
        let x = digits_value(t, radix);
        assert(x * radix >= x) by (nonlinear_arith)
            requires
                x >= 0,
                radix >= 1,
        ;
    }
}

/// Digits write a number that is not negative.
pub proof fn lemma_digits_value_nonnegative(s: Seq<char>, radix: int)
    requires
        radix >= 1,
    ensures
        0 <= digits_value(s, radix),
    decreases s.len(),
{
    if s.len() > 0 {
        lemma_digits_value_nonnegative(s.drop_last(), radix);
    }
}

/// The value of one character as a digit in base ten or sixteen.
pub fn digit_value(c: char, radix: u32) -> (d: Option<u32>)
    requires
        radix == 10 || radix == 16,
    ensures
        d is Some == digit_of(c, radix as int) is Some,
        d is Some ==> d->0 == digit_of(c, radix as int)->0 && d->0 < radix,
{
    let n: u32 = c as u32;
    let d: u32 = if 48 <= n && n <= 57 {
        n - 48
    } else if 97 <= n && n <= 122 {
        n - 87
    } else if 65 <= n && n <= 90 {
        n - 55
    } else {
        radix
    };
    if d < radix {
        Some(d)
    } else {
        None
    }
}

/// Reads the digits of `v` from position `from` to the end.
fn parse_digits(v: &Vec<char>, from: usize, radix: u32) -> (r: Option<u128>)
    requires
        from <= v.len(),
        radix == 10 || radix == 16,
    ensures
        r is Some <==> from < v.len() && all_digits(v@.skip(from as int), radix as int)
            && digits_value(v@.skip(from as int), radix as int) <= widest(),
        r is Some ==> r->0 == digits_value(v@.skip(from as int), radix as int),
{
    if from == v.len() {
        return None;
    }
    let ghost body = v@.skip(from as int);
    let mut acc: u128 = 0;
    let mut i: usize = from;
    while i < v.len()
        invariant
            from <= i <= v.len(),
            radix == 10 || radix == 16,
            body == v@.skip(from as int),
            all_digits(body.take(i - from), radix as int),
            acc == digits_value(body.take(i - from), radix as int),
            acc <= widest(),
        decreases v.len() - i,
    {
        let c = v[i];
        proof {
            let before = body.take(i - from);
            let now = body.take(i - from + 1);
            assert(now.drop_last() == before);
            assert(now.last() == c);
        }
        match digit_value(c, radix) {
            None => {
                return None;
            },
            Some(d) => {
                assert(acc * radix <= widest() * 16) by (nonlinear_arith)
                    requires
                        0 <= acc <= widest(),
                        0 <= radix <= 16,
                ;
                let next: u128 = acc * (radix as u128) + (d as u128);
                proof {
                    let now = body.take(i - from + 1);
                }
                if next > 0x1_0000_0000_0000_0000 {
                    proof {
                        lemma_digits_value_grows(body, i - from + 1, radix as int);
                    }
                    return None;
                }
                acc = next;
            },
        }
        i += 1;
    }
    assert(body.take(i - from) == body);
    Some(acc)
}

/// Reads the number that a field writes, as far as its magnitude does not
/// exceed two to the power 64.
pub fn parse_number(s: &str, signed: bool) -> (r: Option<i128>)
    ensures
        match r {
            Some(v) => within(number_in(s@, signed), -widest(), widest()) == Some(v as int),
            None => within(number_in(s@, signed), -widest(), widest()) is None,
        },
{
    let v = chars_of(s);
    let n = v.len();
    let hex = n >= 2 && v[0] == '0' && v[1] == 'x';
    let radix: u32 = if hex {
        16
    } else {
        10
    };
    let start: usize = if hex {
        2
    } else {
        0
    };
    if start == n {
        return None;
    }
    let ghost field = v@.skip(start as int);
    let first = v[start];
    let negative = signed && first == '-';
    let from: usize = if first == '+' || negative {
        start + 1
    } else {
        start
    };
    proof {
        assert(v@.skip(0) == v@);
        if from == start + 1 {
            assert(field.drop_first() == v@.skip(from as int));
        }
    }
    match parse_digits(&v, from, radix) {
        None => None,
        Some(m) => {
            if negative {
                Some(-(m as i128))
            } else {
                Some(m as i128)
            }
        },
    }
}

/// The signed 64-bit number that a field writes.
pub open spec fn i64_in(s: Seq<char>) -> Option<int> {
    within(number_in(s, true), i64::MIN as int, i64::MAX as int)
}

/// The signed 32-bit number that a field writes.
pub open spec fn i32_in(s: Seq<char>) -> Option<int> {
    within(number_in(s, true), i32::MIN as int, i32::MAX as int)
}

/// The unsigned 64-bit number that a field writes.
pub open spec fn u64_in(s: Seq<char>) -> Option<int> {
    within(number_in(s, false), 0, u64::MAX as int)
}

/// Reads a signed 64-bit number.
pub fn parse_i64(s: &str) -> (r: Option<i64>)
    ensures
        match r {
            Some(v) => i64_in(s@) == Some(v as int),
            None => i64_in(s@) is None,
        },
{
    match parse_number(s, true) {
        Some(v) => {
            if -0x8000_0000_0000_0000 <= v && v <= 0x7fff_ffff_ffff_ffff {
                Some(v as i64)
            } else {
                None
            }
        },
        None => None,
    }
}

/// Reads a signed 32-bit number.
pub fn parse_i32(s: &str) -> (r: Option<i32>)
    ensures
        match r {
            Some(v) => i32_in(s@) == Some(v as int),
            None => i32_in(s@) is None,
        },
{
    match parse_number(s, true) {
        Some(v) => {
            if -0x8000_0000 <= v && v <= 0x7fff_ffff {
                Some(v as i32)
            } else {
                None
            }
        },
        None => None,
    }
}

/// Reads an unsigned 64-bit number.
pub fn parse_u64(s: &str) -> (r: Option<u64>)
    ensures
        match r {
            Some(v) => u64_in(s@) == Some(v as int),
            None => u64_in(s@) is None,
        },
{
    match parse_number(s, false) {
        Some(v) => {
            if 0 <= v && v <= 0xffff_ffff_ffff_ffff {
                Some(v as u64)
            } else {
                None
            }
        },
        None => None,
    }
}

/// The character that writes the digit `d`.
pub open spec fn digit_char(d: int) -> char {
    if d == 0 {
        '0'
    } else if d == 1 {
        '1'
    } else if d == 2 {
        '2'
    } else if d == 3 {
        '3'
    } else if d == 4 {
        '4'
    } else if d == 5 {
        '5'
    } else if d == 6 {
        '6'
    } else if d == 7 {
        '7'
    } else if d == 8 {
        '8'
    } else {
        '9'
    }
}

/// `n` written in base ten, without leading zeros.
pub open spec fn decimal(n: nat) -> Seq<char>
    decreases n,
{
    if n < 10 {
        seq![digit_char(n as int)]
    } else {
        decimal(n / 10).push(digit_char((n % 10) as int))
    }
}

fn digit_to_char(d: u64) -> (c: char)
    requires
        d < 10,
    ensures
        c == digit_char(d as int),
{
    if d == 0 {
        '0'
    } else if d == 1 {
        '1'
    } else if d == 2 {
        '2'
    } else if d == 3 {
        '3'
    } else if d == 4 {
        '4'
    } else if d == 5 {
        '5'
    } else if d == 6 {
        '6'
    } else if d == 7 {
        '7'
    } else if d == 8 {
        '8'
    } else {
        '9'
    }
}

/// Writes `n` in base ten.
pub fn decimal_string(n: u64) -> (s: String)
    ensures
        s@ == decimal(n as nat),
    decreases n,
{
    if n < 10 {
        let mut s = String::new();
        push_char(&mut s, digit_to_char(n));
        s
    } else {
        let mut s = decimal_string(n / 10);
        push_char(&mut s, digit_to_char(n % 10));
        s
    }
}

/// The unsigned 64-bit number that a text writes in base ten: an optional
/// `+`, then at least one digit and nothing else.
pub open spec fn plain_u64_in(s: Seq<char>) -> Option<int> {
    within(signed_value(s, 10, false), 0, u64::MAX as int)
}

/// Reads an unsigned 64-bit number in base ten.
pub fn parse_plain_u64(s: &str) -> (r: Option<u64>)
    ensures
        match r {
            Some(v) => plain_u64_in(s@) == Some(v as int),
            None => plain_u64_in(s@) is None,
        },
{
    let v = chars_of(s);
    if v.len() == 0 {
        return None;
    }
    let from: usize = if v[0] == '+' {
        1
    } else {
        0
    };
    proof {
        assert(v@.skip(0) == v@);
    }
    match parse_digits(&v, from, 10) {
        None => None,
        Some(m) => if m <= 0xffff_ffff_ffff_ffff {
            Some(m as u64)
        } else {
            None
        },
    }
}

/// Whether `c` is one of the ten digits.
pub open spec fn is_digit(c: char) -> bool {
    48 <= c as u32 <= 57
}

/// Where the run of digits that starts at place `i` of `s` ends.
pub open spec fn digits_end(s: Seq<char>, i: int) -> int
    decreases s.len() - i,
{
    if 0 <= i < s.len() && is_digit(s[i]) {
        digits_end(s, i + 1)
    } else {
        i
    }
}

/// The place after a sign at place `i` of `s`, or `i` where none stands
/// there.
pub open spec fn after_sign(s: Seq<char>, i: int) -> int {
    if 0 <= i < s.len() && (s[i] == '+' || s[i] == '-') {
        i + 1
    } else {
        i
    }
}

/// A letter of the ASCII alphabet in lower case; any other character as it
/// is.
pub open spec fn lowered(c: char) -> char {
    if 65 <= c as u32 <= 90 {
        ((c as u32) + 32) as char
    } else {
        c
    }
}

/// Whether `s` from place `i` to its end is the word `word`, in either
/// case.
pub open spec fn is_word(s: Seq<char>, i: int, word: Seq<char>) -> bool {
    &&& 0 <= i
    &&& s.len() - i == word.len()
    &&& forall|k: int| 0 <= k < word.len() ==> lowered(#[trigger] s[i + k]) == word[k]
}

/// Whether `s` from place `i` to its end writes a number with digits: at
/// least one digit before or after an optional decimal point, and then an
/// optional exponent, which is `e` in either case, an optional sign, and at
/// least one digit.
pub open spec fn is_plain_fraction(s: Seq<char>, i: int) -> bool {
    let a = digits_end(s, i);
    let dot = a < s.len() && s[a] == '.';
    let b = if dot {
        digits_end(s, a + 1)
    } else {
        a
    };
    let digits = if dot {
        (a - i) + (b - (a + 1))
    } else {
        a - i
    };
    &&& digits >= 1
    &&& b == s.len() || {
        let c = after_sign(s, b + 1);
        let d = digits_end(s, c);
        &&& b < s.len()
        &&& s[b] == 'e' || s[b] == 'E'
        &&& d > c
        &&& d == s.len()
    }
}

/// Whether `s` writes a decimal fraction: an optional sign, and then either
/// a number with digits or one of the words `inf`, `infinity` and `nan`.
pub open spec fn is_fraction(s: Seq<char>) -> bool {
    let i = after_sign(s, 0);
    ||| is_plain_fraction(s, i)
    ||| is_word(s, i, seq!['i', 'n', 'f'])
    ||| is_word(s, i, seq!['i', 'n', 'f', 'i', 'n', 'i', 't', 'y'])
    ||| is_word(s, i, seq!['n', 'a', 'n'])
}

/// Finds the end of a run of digits.
fn scan_digits(v: &Vec<char>, i: usize) -> (end: usize)
    requires
        i <= v.len(),
    ensures
        end == digits_end(v@, i as int),
        i <= end <= v.len(),
{
    let mut k: usize = i;
    while k < v.len() && 48 <= v[k] as u32 && v[k] as u32 <= 57
        invariant
            i <= k <= v.len(),
            digits_end(v@, i as int) == digits_end(v@, k as int),
        decreases v.len() - k,
    {
        k += 1;
    }
    k
}

/// Steps over a sign.
fn scan_sign(v: &Vec<char>, i: usize) -> (next: usize)
    requires
        i <= v.len(),
    ensures
        next == after_sign(v@, i as int),
        i <= next <= v.len(),
{
    if i < v.len() && (v[i] == '+' || v[i] == '-') {
        i + 1
    } else {
        i
    }
}

/// Tests a character against a lower-case letter, in either case.
fn is_letter(c: char, letter: char) -> (b: bool)
    ensures
        b == (lowered(c) == letter),
{
    let n: u32 = c as u32;
    if 65 <= n && n <= 90 {
        n + 32 == letter as u32
    } else {
        c == letter
    }
}

/// Tests the rest of a text against a word, in either case.
fn rest_is_word(v: &Vec<char>, i: usize, word: &Vec<char>) -> (b: bool)
    requires
        i <= v.len(),
    ensures
        b == is_word(v@, i as int, word@),
{
    if v.len() - i != word.len() {
        return false;
    }
    let mut k: usize = 0;
    while k < word.len()
        invariant
            k <= word.len(),
            i <= v.len(),
            v.len() - i == word.len(),
            forall|j: int| 0 <= j < k ==> lowered(#[trigger] v@[i + j]) == word@[j],
        decreases word.len() - k,
    {
        if !is_letter(v[i + k], word[k]) {
            return false;
        }
        k += 1;
    }
    true
}

/// Tests whether a text writes a decimal fraction.
pub fn is_fraction_text(s: &str) -> (b: bool)
    ensures
        b == is_fraction(s@),
{
    let v = chars_of(s);
    let i = scan_sign(&v, 0);
    let inf: Vec<char> = vec!['i', 'n', 'f'];
    let infinity: Vec<char> = vec!['i', 'n', 'f', 'i', 'n', 'i', 't', 'y'];
    let nan: Vec<char> = vec!['n', 'a', 'n'];
    if rest_is_word(&v, i, &inf) || rest_is_word(&v, i, &infinity) || rest_is_word(&v, i, &nan) {
        return true;
    }
    let a = scan_digits(&v, i);
    let dot = a < v.len() && v[a] == '.';
    let b = if dot {
        scan_digits(&v, a + 1)
    } else {
        a
    };
    let digits = if dot {
        (a - i) + (b - (a + 1))
    } else {
        a - i
    };
    if digits < 1 {
        return false;
    }
    if b == v.len() {
        return true;
    }
    if v[b] != 'e' && v[b] != 'E' {
        return false;
    }
    let c = scan_sign(&v, b + 1);
    let d = scan_digits(&v, c);
    d > c && d == v.len()
}

} // verus!
