use vstd::prelude::*;
use vstd::string::*;

verus! {

/// `s` without the double quotes at its front.
pub open spec fn trim_quotes_front(s: Seq<char>) -> Seq<char>
    decreases s.len(),
{
    if s.len() > 0 && s[0] == '"' {
        trim_quotes_front(s.drop_first())
    } else {
        s
    }
}

/// `s` without the double quotes at its back.
pub open spec fn trim_quotes_back(s: Seq<char>) -> Seq<char>
    decreases s.len(),
{
    if s.len() > 0 && s.last() == '"' {
        trim_quotes_back(s.drop_last())
    } else {
        s
    }
}

/// `s` without the double quotes that surround it, however many there are.
pub open spec fn trim_quotes(s: Seq<char>) -> Seq<char> {
    trim_quotes_back(trim_quotes_front(s))
}

/// Trimming the front takes away the quotes that stand there, and no more.
pub proof fn lemma_trim_front(s: Seq<char>, k: int)
    requires
        0 <= k <= s.len(),
        forall|i: int| 0 <= i < k ==> s[i] == '"',
        k == s.len() || s[k] != '"',
    ensures
        trim_quotes_front(s) == s.skip(k),
    decreases k,
{
    if k == 0 {
        assert(s.skip(0) =~= s);
    } else {
        let rest = s.drop_first();
        assert forall|i: int| 0 <= i < k - 1 implies rest[i] == '"' by {
            assert(rest[i] == s[i + 1]);
        }
        lemma_trim_front(rest, k - 1);
        assert(rest.skip(k - 1) =~= s.skip(k));
    }
}

/// Trimming the back takes away the quotes that stand there, and no more.
pub proof fn lemma_trim_back(s: Seq<char>, k: int)
    requires
        0 <= k <= s.len(),
        forall|i: int| k <= i < s.len() ==> s[i] == '"',
        k == 0 || s[k - 1] != '"',
    ensures
        trim_quotes_back(s) == s.take(k),
    decreases s.len() - k,
{
    if k == s.len() {
        assert(s.take(k) =~= s);
    } else {
        let rest = s.drop_last();
        lemma_trim_back(rest, k);
        assert(rest.take(k) =~= s.take(k));
    }
}

/// The text without the double quotes that surround it.
pub fn strip_quotes(s: &str) -> (r: String)
    ensures
        r@ == trim_quotes(s@),
{
    let n = s.unicode_len();
    let mut start: usize = 0;
    while start < n && s.get_char(start) == '"'
        invariant
            start <= n,
            n == s@.len(),
            forall|i: int| 0 <= i < start ==> s@[i] == '"',
        decreases n - start,
    {
        start += 1;
    }
    let mut end: usize = n;
    while end > start && s.get_char(end - 1) == '"'
        invariant
            start <= end <= n,
            n == s@.len(),
            forall|i: int| end <= i < n ==> s@[i] == '"',
        decreases end,
    {
        end -= 1;
    }
    proof {
        lemma_trim_front(s@, start as int);
        let front = s@.skip(start as int);
        assert forall|i: int| end - start <= i < front.len() implies front[i] == '"' by {
            assert(front[i] == s@[i + start]);
        }
        if end > start {
            assert(front[end - start - 1] == s@[end - 1]);
        }
        lemma_trim_back(front, end - start);
        assert(front.take(end - start) =~= s@.subrange(start as int, end as int));
    }
    s.substring_char(start, end).to_owned()
}

/// Whether the byte is a decimal digit.
pub open spec fn is_digit(b: u8) -> bool {
    48 <= b <= 57
}

/// Whether the byte is a plus or a minus sign.
pub open spec fn is_sign(b: u8) -> bool {
    b == 43 || b == 45
}

/// The first position at or after `i` that holds no decimal digit.
pub open spec fn digits_end(b: Seq<u8>, i: int) -> int
    decreases b.len() - i,
{
    if 0 <= i < b.len() && is_digit(b[i]) {
        digits_end(b, i + 1)
    } else {
        i
    }
}

/// Where the optional sign at `i` ends.
pub open spec fn sign_end(b: Seq<u8>, i: int) -> int {
    if 0 <= i < b.len() && is_sign(b[i]) {
        i + 1
    } else {
        i
    }
}

/// The lower-case form of an ASCII letter; any other byte is left as it is.
pub open spec fn lower(b: u8) -> u8 {
    if 65 <= b <= 90 {
        (b + 32) as u8
    } else {
        b
    }
}

/// Whether the bytes from `start` on spell `inf`, in any case.
pub open spec fn is_inf(b: Seq<u8>, start: int) -> bool {
    &&& 0 <= start
    &&& b.len() == start + 3
    &&& lower(b[start]) == 105
    &&& lower(b[start + 1]) == 110
    &&& lower(b[start + 2]) == 102
}

/// Whether the bytes from `start` on spell `infinity`, in any case.
pub open spec fn is_infinity(b: Seq<u8>, start: int) -> bool {
    &&& 0 <= start
    &&& b.len() == start + 8
    &&& lower(b[start]) == 105
    &&& lower(b[start + 1]) == 110
    &&& lower(b[start + 2]) == 102
    &&& lower(b[start + 3]) == 105
    &&& lower(b[start + 4]) == 110
    &&& lower(b[start + 5]) == 105
    &&& lower(b[start + 6]) == 116
    &&& lower(b[start + 7]) == 121
}

/// Whether the bytes from `start` on spell `nan`, in any case.
pub open spec fn is_nan(b: Seq<u8>, start: int) -> bool {
    &&& 0 <= start
    &&& b.len() == start + 3
    &&& lower(b[start]) == 110
    &&& lower(b[start + 1]) == 97
    &&& lower(b[start + 2]) == 110
}

/// Whether `b` denotes a double: an optional sign and then either one of the
/// words `inf`, `infinity` and `nan` in any case, or a decimal number.
pub open spec fn is_float_bytes(b: Seq<u8>) -> bool {
    let start = sign_end(b, 0);
    is_inf(b, start) || is_infinity(b, start) || is_nan(b, start) || is_decimal_bytes(b)
}

/// Whether `b` is a decimal number: an optional sign, digits with an optional
/// point among them (at least one digit in all), and an optional exponent made
/// of `e` or `E`, an optional sign and at least one digit.
pub open spec fn is_decimal_bytes(b: Seq<u8>) -> bool {
    let start = sign_end(b, 0);
    let int_end = digits_end(b, start);
    let has_point = int_end < b.len() && b[int_end] == 46;
    let frac_end = if has_point {
        digits_end(b, int_end + 1)
    } else {
        int_end
    };
    let digits = if has_point {
        frac_end - start - 1
    } else {
        frac_end - start
    };
    let has_exp = frac_end < b.len() && (b[frac_end] == 101 || b[frac_end] == 69);
    let exp_start = sign_end(b, frac_end + 1);
    let exp_end = digits_end(b, exp_start);
    &&& digits > 0
    &&& if has_exp {
        exp_end > exp_start && exp_end == b.len()
    } else {
        frac_end == b.len()
    }
}

/// The bytes of a text whose characters are all ASCII.
pub open spec fn ascii_bytes(s: Seq<char>) -> Seq<u8> {
    Seq::new(s.len(), |i: int| s[i] as u8)
}

/// Whether the text denotes a double (see [`is_float_bytes`]): these are the
/// texts that the standard library reads as one.
pub open spec fn is_float_text(s: Seq<char>) -> bool {
    vstd::utf8::is_ascii_chars(s) && is_float_bytes(ascii_bytes(s))
}

/// Skips the decimal digits that start at `i`.
fn skip_digits(b: &[u8], i: usize) -> (j: usize)
    requires
        i <= b@.len(),
    ensures
        j == digits_end(b@, i as int),
        i <= j <= b@.len(),
{
    let mut j: usize = i;
    while j < b.len() && b[j] >= 48 && b[j] <= 57
        invariant
            i <= j <= b@.len(),
            digits_end(b@, i as int) == digits_end(b@, j as int),
        decreases b@.len() - j,
    {
        j += 1;
    }
    j
}

/// Skips the sign at `i`, if there is one.
fn skip_sign(b: &[u8], i: usize) -> (j: usize)
    requires
        i <= b@.len(),
    ensures
        j == sign_end(b@, i as int),
        i <= j <= b@.len(),
{
    if i < b.len() && (b[i] == 43 || b[i] == 45) {
        i + 1
    } else {
        i
    }
}

/// The lower-case form of an ASCII letter.
fn to_lower(b: u8) -> (r: u8)
    ensures
        r == lower(b),
{
    if b >= 65 && b <= 90 {
        b + 32
    } else {
        b
    }
}

/// Whether the bytes from `start` on spell one of the words for a double
/// that is no number.
fn is_special(b: &[u8], start: usize) -> (r: bool)
    requires
        start <= b@.len(),
    ensures
        r == (is_inf(b@, start as int) || is_infinity(b@, start as int) || is_nan(b@, start as int)),
{
    let n = b.len() - start;
    if n == 3 {
        let c0 = to_lower(b[start]);
        let c1 = to_lower(b[start + 1]);
        let c2 = to_lower(b[start + 2]);
        (c0 == 105 && c1 == 110 && c2 == 102) || (c0 == 110 && c1 == 97 && c2 == 110)
    } else if n == 8 {
        to_lower(b[start]) == 105 && to_lower(b[start + 1]) == 110 && to_lower(b[start + 2]) == 102 && to_lower(
            b[start + 3],
        ) == 105 && to_lower(b[start + 4]) == 110 && to_lower(b[start + 5]) == 105 && to_lower(b[start + 6])
            == 116 && to_lower(b[start + 7]) == 121
    } else {
        false
    }
}

/// Decides whether a token denotes a double.
pub fn is_float_literal(s: &str) -> (r: bool)
    ensures
        r == is_float_text(s@),
{
    if !s.is_ascii() {
        return false;
    }
    proof {
        is_ascii_spec_bytes(s);
    }
    let b = s.as_bytes();
    assert(b@ =~= ascii_bytes(s@));
    let start = skip_sign(b, 0);
    if is_special(b, start) {
        return true;
    }
    let int_end = skip_digits(b, start);
    let has_point = int_end < b.len() && b[int_end] == 46;
    let frac_end = if has_point {
        skip_digits(b, int_end + 1)
    } else {
        int_end
    };
    let digits = if has_point {
        frac_end - start - 1
    } else {
        frac_end - start
    };
    if digits == 0 {
        return false;
    }
    if frac_end < b.len() && (b[frac_end] == 101 || b[frac_end] == 69) {
        let exp_start = skip_sign(b, frac_end + 1);
        let exp_end = skip_digits(b, exp_start);
        exp_end > exp_start && exp_end == b.len()
    } else {
        frac_end == b.len()
    }
}

/// The number that the decimal digits of `b` from place `lo` to place `hi`
/// denote.
pub open spec fn decimal_value(b: Seq<u8>, lo: int, hi: int) -> nat
    decreases hi - lo,
{
    if hi <= lo || hi > b.len() || lo < 0 {
        0
    } else {
        decimal_value(b, lo, hi - 1) * 10 + (b[hi - 1] - 48) as nat
    }
}

/// Whether every byte from place `lo` on is a decimal digit.
pub open spec fn all_digits(b: Seq<u8>, lo: int) -> bool {
    forall|i: int| lo <= i < b.len() ==> is_digit(#[trigger] b[i])
}

/// Where the digits of an unsigned number begin: behind a plus sign, if it
/// has one.
pub open spec fn plus_end(b: Seq<u8>) -> int {
    if b.len() > 0 && b[0] == 43 {
        1
    } else {
        0
    }
}

/// The number that a text denotes, if it is an optional plus sign and at least
/// one decimal digit and the number fits in 32 bits: these are the texts that
/// the standard library reads as an unsigned number of 32 bits.
pub open spec fn parse_u32_spec(s: Seq<char>) -> Option<u32> {
    let b = ascii_bytes(s);
    let lo = plus_end(b);
    if vstd::utf8::is_ascii_chars(s) && b.len() > lo && all_digits(b, lo) && decimal_value(b, lo, b.len() as int)
        <= u32::MAX {
        Some(decimal_value(b, lo, b.len() as int) as u32)
    } else {
        None
    }
}

/// The value of a prefix of digits is at most the value of a longer one.
pub proof fn lemma_decimal_value_grows(b: Seq<u8>, lo: int, n: int, m: int)
    requires
        0 <= lo <= n <= m <= b.len(),
        all_digits(b, lo),
    ensures
        decimal_value(b, lo, n) <= decimal_value(b, lo, m),
    decreases m - n,
{
    if n < m {
        lemma_decimal_value_grows(b, lo, n, m - 1);
        assert(is_digit(b[m - 1]));
    }
}

/// Reads an unsigned decimal number of at most 32 bits.
pub fn parse_u32(s: &str) -> (r: Option<u32>)
    ensures
        r == parse_u32_spec(s@),
{
    if !s.is_ascii() {
        return None;
    }
    proof {
        is_ascii_spec_bytes(s);
    }
    let b = s.as_bytes();
    assert(b@ =~= ascii_bytes(s@));
    let lo: usize = if b.len() > 0 && b[0] == 43 {
        1
    } else {
        0
    };
    if b.len() <= lo {
        return None;
    }
    let mut value: u32 = 0;
    let mut i: usize = lo;
    while i < b.len()
        invariant
            lo <= i <= b@.len(),
            lo == plus_end(b@),
            b@ == ascii_bytes(s@),
            vstd::utf8::is_ascii_chars(s@),
            forall|j: int| lo <= j < i ==> is_digit(#[trigger] b@[j]),
            value == decimal_value(b@, lo as int, i as int),
        decreases b@.len() - i,
    {
        if b[i] < 48 || b[i] > 57 {
            assert(!is_digit(b@[i as int]));
            return None;
        }
        let digit: u32 = (b[i] - 48) as u32;
        if value > 429496729 || (value == 429496729 && digit > 5) {
            proof {
                assert(decimal_value(b@, lo as int, i + 1) > u32::MAX);
                if all_digits(b@, lo as int) {
                    lemma_decimal_value_grows(b@, lo as int, i + 1, b@.len() as int);
                }
            }
            return None;
        }
        value = value * 10 + digit;
        i += 1;
    }
    assert(all_digits(b@, lo as int));
    Some(value)
}

} // verus!
