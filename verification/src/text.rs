//! Text building blocks shared by the other modules: decimal formatting,
//! UTF-8 decoding and string comparison.

use vstd::prelude::*;
use vstd::string::*;
use vstd::utf8::*;

verus! {

/// The ASCII digit for `d` (`0 <= d < 10`).
pub open spec fn digit_char(d: int) -> char {
    (48 + d) as char
}

/// The decimal digits of a natural number, most significant first, with no
/// leading zeros.
pub open spec fn digits(n: nat) -> Seq<char>
    decreases n,
{
    if n < 10 {
        seq![digit_char(n as int)]
    } else {
        digits(n / 10).push(digit_char((n % 10) as int))
    }
}

/// How `Display` writes an integer: an optional minus sign, then its digits.
pub open spec fn decimal(n: int) -> Seq<char> {
    if n < 0 {
        seq!['-'] + digits((-n) as nat)
    } else {
        digits(n as nat)
    }
}

/// `context`, a colon, a space and `detail`.
pub open spec fn context_text(context: Seq<char>, detail: Seq<char>) -> Seq<char> {
    context + ": "@ + detail
}

/// `String::push`: appends one character.
#[verifier::external_body]
pub(crate) fn push_char(s: &mut String, c: char)
    ensures
        final(s)@ == old(s)@.push(c),
{
    s.push(c);
}

/// `String::from_utf8`: succeeds exactly when the bytes are valid UTF-8, and
/// then the string holds the characters they encode.
#[verifier::external_body]
pub(crate) fn string_from_utf8(bytes: Vec<u8>) -> (res: Result<String, std::string::FromUtf8Error>)
    ensures
        res is Ok <==> valid_utf8(bytes@),
        res matches Ok(s) ==> s@ == decode_utf8(bytes@),
{
    String::from_utf8(bytes)
}

/// What `String::from_utf8_lossy` makes of a byte sequence.
pub uninterp spec fn lossy_utf8(bytes: Seq<u8>) -> Seq<char>;

/// `String::from_utf8_lossy`, owned: invalid sequences become U+FFFD. Only
/// that valid UTF-8 is decoded unchanged is stated; how invalid sequences are
/// replaced is left to the name `lossy_utf8`.
#[verifier::external_body]
pub(crate) fn utf8_lossy(bytes: &[u8]) -> (res: String)
    ensures
        res@ == lossy_utf8(bytes@),
        valid_utf8(bytes@) ==> res@ == decode_utf8(bytes@),
{
    String::from_utf8_lossy(bytes).into_owned()
}

/// What `str::to_uppercase` makes of a string (Unicode uppercase mapping).
pub uninterp spec fn upper_case(s: Seq<char>) -> Seq<char>;

/// `str::to_uppercase`. The Unicode case tables are not restated; the result
/// is the name `upper_case` of the input.
#[verifier::external_body]
pub(crate) fn to_uppercase(s: &str) -> (res: String)
    ensures
        res@ == upper_case(s@),
{
    s.to_uppercase()
}

/// A string holding exactly the characters of `s`.
pub fn owned(s: &str) -> (res: String)
    ensures
        res@ == s@,
{
    String::from_str(s)
}

/// Appends the digits of `m` to `s`.
fn push_digits(s: &mut String, m: u64)
    ensures
        final(s)@ == old(s)@ + digits(m as nat),
    decreases m,
{
    if m >= 10 {
        push_digits(s, m / 10);
    }
    let d: u8 = (m % 10) as u8;
    let c: char = (48u8 + d) as char;
    assert(c == digit_char((m % 10) as int));
    push_char(s, c);
    proof {
        if m < 10 {
            assert(m % 10 == m);
        }
    }
}

/// Formats an integer in decimal, as `to_string` does.
pub fn int_to_decimal(n: i64) -> (res: String)
    ensures
        res@ == decimal(n as int),
{
    let mut s = String::new();
    if n < 0 {
        push_char(&mut s, '-');
        let m: u64 = if n == i64::MIN {
            9223372036854775808u64
        } else {
            (-n) as u64
        };
        push_digits(&mut s, m);
    } else {
        push_digits(&mut s, n as u64);
    }
    s
}

/// `context` followed by `": "` and `detail`, the shape of every error text
/// that names the failed operation.
pub fn context_message(context: &str, detail: &str) -> (res: String)
    ensures
        res@ == context_text(context@, detail@),
{
    let mut s = String::from_str(context);
    let sep = ": ";
    s.append(sep);
    s.append(detail);
    s
}

/// Compares two strings character by character.
pub fn str_eq(a: &str, b: &str) -> (res: bool)
    ensures
        res == (a@ == b@),
{
    let n = a.unicode_len();
    let m = b.unicode_len();
    if n != m {
        return false;
    }
    let mut i: usize = 0;
    while i < n
        invariant
            n == a@.len(),
            m == b@.len(),
            n == m,
            i <= n,
            forall|j: int| 0 <= j < i ==> a@[j] == b@[j],
        decreases n - i,
    {
        if a.get_char(i) != b.get_char(i) {
            return false;
        }
        i += 1;
    }
    assert(a@ =~= b@);
    true
}

} // verus!

verus! {

/// The number a decimal digit stands for.
pub open spec fn digit_value(c: char) -> int {
    c as int - 48
}

/// The number a sequence of decimal digits stands for.
pub open spec fn digits_value(s: Seq<char>) -> int
    decreases s.len(),
{
    if s.len() == 0 {
        0
    } else {
        digits_value(s.drop_last()) * 10 + digit_value(s.last())
    }
}

/// Whether a character is an ASCII decimal digit.
pub open spec fn is_digit(c: char) -> bool {
    '0' <= c <= '9'
}

/// The decimal digits of `n` are ASCII digits, read back as `n`, and have no
/// leading zero (only `0` itself starts with `0`).
pub proof fn lemma_digits_read_back(n: nat)
    ensures
        digits(n).len() >= 1,
        forall|i: int| 0 <= i < digits(n).len() ==> is_digit(#[trigger] digits(n)[i]),
        digits_value(digits(n)) == n,
        n >= 1 ==> digits(n)[0] != '0',
    decreases n,
{
    if n >= 10 {
        let q = n / 10;
        let d = (n % 10) as int;
        lemma_digits_read_back(q);
        let s = digits(n);
        assert(s.drop_last() =~= digits(q));
        assert(digit_value(digit_char(d)) == d);
        assert(s[0] == digits(q)[0]);
        assert(s.last() == digit_char(d));
        assert(digits_value(s) == digits_value(digits(q)) * 10 + d);
        assert(q * 10 + d == n);
        assert forall|i: int| 0 <= i < s.len() implies is_digit(#[trigger] s[i]) by {
            if i < s.len() - 1 {
                assert(s[i] == digits(q)[i]);
            }
        }
    } else {
        let s = digits(n);
        assert(s.drop_last() =~= Seq::<char>::empty());
        assert(digit_value(digit_char(n as int)) == n);
        assert(digits_value(Seq::<char>::empty()) == 0);
        assert(digits_value(s) == digits_value(s.drop_last()) * 10 + digit_value(s.last()));
    }
}

/// How `Display` writes an integer: a negative number is a minus sign
/// followed by the digits of its magnitude, any other number its digits, and
/// the digits read back as the number.
pub proof fn lemma_decimal_read_back(n: int)
    ensures
        n < 0 ==> decimal(n)[0] == '-' && digits_value(decimal(n).drop_first()) == -n,
        n >= 0 ==> digits_value(decimal(n)) == n,
        forall|i: int| (if n < 0 { 1int } else { 0int }) <= i < decimal(n).len() ==> is_digit(
            #[trigger] decimal(n)[i],
        ),
{
    if n < 0 {
        lemma_digits_read_back((-n) as nat);
        assert(decimal(n).drop_first() =~= digits((-n) as nat));
        assert forall|i: int| 1 <= i < decimal(n).len() implies is_digit(#[trigger] decimal(n)[i]) by {
            assert(decimal(n)[i] == digits((-n) as nat)[i - 1]);
        }
    } else {
        lemma_digits_read_back(n as nat);
    }
}

/// A context message starts with the context, then `": "`, then ends with
/// the detail.
pub proof fn lemma_context_text(context: Seq<char>, detail: Seq<char>)
    ensures
        context_text(context, detail).len() == context.len() + 2 + detail.len(),
        context_text(context, detail).subrange(0, context.len() as int) == context,
        context_text(context, detail)[context.len() as int] == ':',
        context_text(context, detail)[(context.len() + 1) as int] == ' ',
        context_text(context, detail).subrange((context.len() + 2) as int, context_text(context, detail).len() as int)
            == detail,
{
    reveal_strlit(": ");
    let t = context_text(context, detail);
    assert(t.subrange(0, context.len() as int) =~= context);
    assert(t.subrange((context.len() + 2) as int, t.len() as int) =~= detail);
}

} // verus!
