use vstd::prelude::*;
use vstd::string::StrSliceExecFns;

verus! {

/// A type whose values can be read from the text that a backend holds.
pub trait FromEnvStr: Sized + View {
    /// The value that `text` reads as, if it reads as one.
    spec fn text_value(text: Seq<char>) -> Option<<Self as View>::V>;

    /// Reads `text` as a value of this type.
    fn from_env_str(text: &str) -> (value: Option<Self>)
        ensures
            crate::environment::opt_view(value) == Self::text_value(text@),
    ;
}

impl FromEnvStr for String {
    /// Every text reads as itself.
    open spec fn text_value(text: Seq<char>) -> Option<Seq<char>> {
        Some(text)
    }

    fn from_env_str(text: &str) -> (value: Option<String>) {
        Some(text.to_owned())
    }
}

/// An ASCII decimal digit.
pub open spec fn is_digit(c: char) -> bool {
    '0' <= c && c <= '9'
}

/// One or more ASCII decimal digits and nothing else.
pub open spec fn all_digits(text: Seq<char>) -> bool {
    text.len() > 0 && forall|i: int| 0 <= i < text.len() ==> #[trigger] is_digit(text[i])
}

/// The number that a run of decimal digits spells.
pub open spec fn digits_value(digits: Seq<char>) -> int
    decreases digits.len(),
{
    if digits.len() == 0 {
        0
    } else {
        10 * digits_value(digits.drop_last()) + (digits.last() as int - '0' as int)
    }
}

/// The number that text spells in the unsigned decimal form: an optional `+`,
/// then one or more ASCII digits, and nothing else.
pub open spec fn unsigned_decimal(text: Seq<char>) -> Option<int> {
    if text.len() > 0 && text[0] == '+' {
        if all_digits(text.drop_first()) {
            Some(digits_value(text.drop_first()))
        } else {
            None
        }
    } else if all_digits(text) {
        Some(digits_value(text))
    } else {
        None
    }
}

/// The number that text spells in the signed decimal form: an optional `+` or
/// `-`, then one or more ASCII digits, and nothing else.
pub open spec fn signed_decimal(text: Seq<char>) -> Option<int> {
    if text.len() > 0 && text[0] == '-' {
        if all_digits(text.drop_first()) {
            Some(-digits_value(text.drop_first()))
        } else {
            None
        }
    } else {
        unsigned_decimal(text)
    }
}

/// The number, when there is one and it lies in `[min, max]`.
pub open spec fn within(n: Option<int>, min: int, max: int) -> Option<int> {
    match n {
        Some(v) => if min <= v && v <= max {
            Some(v)
        } else {
            None
        },
        None => None,
    }
}

/// What text reads as a `bool`: exactly `true` or `false`.
pub open spec fn bool_text(text: Seq<char>) -> Option<bool> {
    if text == "true"@ {
        Some(true)
    } else if text == "false"@ {
        Some(false)
    } else {
        None
    }
}

impl FromEnvStr for bool {
    open spec fn text_value(text: Seq<char>) -> Option<bool> {
        bool_text(text)
    }

    /// As `<bool as FromStr>::from_str`, which accepts exactly `true` and
    /// `false`.
    fn from_env_str(text: &str) -> (value: Option<bool>) {
        let owned = text.to_owned();
        if owned == "true".to_owned() {
            Some(true)
        } else if owned == "false".to_owned() {
            Some(false)
        } else {
            None
        }
    }
}

/// What text reads as a `u8`: decimal text whose number fits the type.
pub open spec fn u8_text(text: Seq<char>) -> Option<u8> {
    match within(unsigned_decimal(text), 0 as int, u8::MAX as int) {
        Some(v) => Some(v as u8),
        None => None,
    }
}

/// Reads text with `<u8 as FromStr>::from_str`. std documents the accepted
/// text as an optional `+` followed by ASCII digits only, and fails on a number
/// out of the type's range.
#[verifier::external_body]
fn parse_u8(text: &str) -> (value: Option<u8>)
    ensures
        value == u8_text(text@),
{
    text.parse::<u8>().ok()
}

impl FromEnvStr for u8 {
    open spec fn text_value(text: Seq<char>) -> Option<u8> {
        u8_text(text)
    }

    fn from_env_str(text: &str) -> (value: Option<u8>) {
        parse_u8(text)
    }
}

/// What text reads as a `u16`: decimal text whose number fits the type.
pub open spec fn u16_text(text: Seq<char>) -> Option<u16> {
    match within(unsigned_decimal(text), 0 as int, u16::MAX as int) {
        Some(v) => Some(v as u16),
        None => None,
    }
}

/// Reads text with `<u16 as FromStr>::from_str`. std documents the accepted
/// text as an optional `+` followed by ASCII digits only, and fails on a number
/// out of the type's range.
#[verifier::external_body]
fn parse_u16(text: &str) -> (value: Option<u16>)
    ensures
        value == u16_text(text@),
{
    text.parse::<u16>().ok()
}

impl FromEnvStr for u16 {
    open spec fn text_value(text: Seq<char>) -> Option<u16> {
        u16_text(text)
    }

    fn from_env_str(text: &str) -> (value: Option<u16>) {
        parse_u16(text)
    }
}

/// What text reads as a `u32`: decimal text whose number fits the type.
pub open spec fn u32_text(text: Seq<char>) -> Option<u32> {
    match within(unsigned_decimal(text), 0 as int, u32::MAX as int) {
        Some(v) => Some(v as u32),
        None => None,
    }
}

/// Reads text with `<u32 as FromStr>::from_str`. std documents the accepted
/// text as an optional `+` followed by ASCII digits only, and fails on a number
/// out of the type's range.
#[verifier::external_body]
fn parse_u32(text: &str) -> (value: Option<u32>)
    ensures
        value == u32_text(text@),
{
    text.parse::<u32>().ok()
}

impl FromEnvStr for u32 {
    open spec fn text_value(text: Seq<char>) -> Option<u32> {
        u32_text(text)
    }

    fn from_env_str(text: &str) -> (value: Option<u32>) {
        parse_u32(text)
    }
}

/// What text reads as a `u64`: decimal text whose number fits the type.
pub open spec fn u64_text(text: Seq<char>) -> Option<u64> {
    match within(unsigned_decimal(text), 0 as int, u64::MAX as int) {
        Some(v) => Some(v as u64),
        None => None,
    }
}

/// Reads text with `<u64 as FromStr>::from_str`. std documents the accepted
/// text as an optional `+` followed by ASCII digits only, and fails on a number
/// out of the type's range.
#[verifier::external_body]
fn parse_u64(text: &str) -> (value: Option<u64>)
    ensures
        value == u64_text(text@),
{
    text.parse::<u64>().ok()
}

impl FromEnvStr for u64 {
    open spec fn text_value(text: Seq<char>) -> Option<u64> {
        u64_text(text)
    }

    fn from_env_str(text: &str) -> (value: Option<u64>) {
        parse_u64(text)
    }
}

/// What text reads as a `usize`: decimal text whose number fits the type.
pub open spec fn usize_text(text: Seq<char>) -> Option<usize> {
    match within(unsigned_decimal(text), 0 as int, usize::MAX as int) {
        Some(v) => Some(v as usize),
        None => None,
    }
}

/// Reads text with `<usize as FromStr>::from_str`. std documents the accepted
/// text as an optional `+` followed by ASCII digits only, and fails on a number
/// out of the type's range.
#[verifier::external_body]
fn parse_usize(text: &str) -> (value: Option<usize>)
    ensures
        value == usize_text(text@),
{
    text.parse::<usize>().ok()
}

impl FromEnvStr for usize {
    open spec fn text_value(text: Seq<char>) -> Option<usize> {
        usize_text(text)
    }

    fn from_env_str(text: &str) -> (value: Option<usize>) {
        parse_usize(text)
    }
}

/// What text reads as a `i32`: decimal text whose number fits the type.
pub open spec fn i32_text(text: Seq<char>) -> Option<i32> {
    match within(signed_decimal(text), i32::MIN as int, i32::MAX as int) {
        Some(v) => Some(v as i32),
        None => None,
    }
}

/// Reads text with `<i32 as FromStr>::from_str`. std documents the accepted
/// text as an optional `+` or `-` followed by ASCII digits only, and fails on a number
/// out of the type's range.
#[verifier::external_body]
fn parse_i32(text: &str) -> (value: Option<i32>)
    ensures
        value == i32_text(text@),
{
    text.parse::<i32>().ok()
}

impl FromEnvStr for i32 {
    open spec fn text_value(text: Seq<char>) -> Option<i32> {
        i32_text(text)
    }

    fn from_env_str(text: &str) -> (value: Option<i32>) {
        parse_i32(text)
    }
}

/// What text reads as a `i64`: decimal text whose number fits the type.
pub open spec fn i64_text(text: Seq<char>) -> Option<i64> {
    match within(signed_decimal(text), i64::MIN as int, i64::MAX as int) {
        Some(v) => Some(v as i64),
        None => None,
    }
}

/// Reads text with `<i64 as FromStr>::from_str`. std documents the accepted
/// text as an optional `+` or `-` followed by ASCII digits only, and fails on a number
/// out of the type's range.
#[verifier::external_body]
fn parse_i64(text: &str) -> (value: Option<i64>)
    ensures
        value == i64_text(text@),
{
    text.parse::<i64>().ok()
}

impl FromEnvStr for i64 {
    open spec fn text_value(text: Seq<char>) -> Option<i64> {
        i64_text(text)
    }

    fn from_env_str(text: &str) -> (value: Option<i64>) {
        parse_i64(text)
    }
}

/// What text reads as a `i8`: decimal text whose number fits the type.
pub open spec fn i8_text(text: Seq<char>) -> Option<i8> {
    match within(signed_decimal(text), i8::MIN as int, i8::MAX as int) {
        Some(v) => Some(v as i8),
        None => None,
    }
}

/// Reads text with `<i8 as FromStr>::from_str`. std documents the accepted
/// text as an optional `+` or `-` followed by ASCII digits only, and fails on a number
/// out of the type's range.
#[verifier::external_body]
fn parse_i8(text: &str) -> (value: Option<i8>)
    ensures
        value == i8_text(text@),
{
    text.parse::<i8>().ok()
}

impl FromEnvStr for i8 {
    open spec fn text_value(text: Seq<char>) -> Option<i8> {
        i8_text(text)
    }

    fn from_env_str(text: &str) -> (value: Option<i8>) {
        parse_i8(text)
    }
}

/// What text reads as a `i16`: decimal text whose number fits the type.
pub open spec fn i16_text(text: Seq<char>) -> Option<i16> {
    match within(signed_decimal(text), i16::MIN as int, i16::MAX as int) {
        Some(v) => Some(v as i16),
        None => None,
    }
}

/// Reads text with `<i16 as FromStr>::from_str`. std documents the accepted
/// text as an optional `+` or `-` followed by ASCII digits only, and fails on a number
/// out of the type's range.
#[verifier::external_body]
fn parse_i16(text: &str) -> (value: Option<i16>)
    ensures
        value == i16_text(text@),
{
    text.parse::<i16>().ok()
}

impl FromEnvStr for i16 {
    open spec fn text_value(text: Seq<char>) -> Option<i16> {
        i16_text(text)
    }

    fn from_env_str(text: &str) -> (value: Option<i16>) {
        parse_i16(text)
    }
}

/// What text reads as a `i128`: decimal text whose number fits the type.
pub open spec fn i128_text(text: Seq<char>) -> Option<i128> {
    match within(signed_decimal(text), i128::MIN as int, i128::MAX as int) {
        Some(v) => Some(v as i128),
        None => None,
    }
}

/// Reads text with `<i128 as FromStr>::from_str`. std documents the accepted
/// text as an optional `+` or `-` followed by ASCII digits only, and fails on a number
/// out of the type's range.
#[verifier::external_body]
fn parse_i128(text: &str) -> (value: Option<i128>)
    ensures
        value == i128_text(text@),
{
    text.parse::<i128>().ok()
}

impl FromEnvStr for i128 {
    open spec fn text_value(text: Seq<char>) -> Option<i128> {
        i128_text(text)
    }

    fn from_env_str(text: &str) -> (value: Option<i128>) {
        parse_i128(text)
    }
}

/// What text reads as a `u128`: decimal text whose number fits the type.
pub open spec fn u128_text(text: Seq<char>) -> Option<u128> {
    match within(unsigned_decimal(text), 0 as int, u128::MAX as int) {
        Some(v) => Some(v as u128),
        None => None,
    }
}

/// Reads text with `<u128 as FromStr>::from_str`. std documents the accepted
/// text as an optional `+` followed by ASCII digits only, and fails on a number
/// out of the type's range.
#[verifier::external_body]
fn parse_u128(text: &str) -> (value: Option<u128>)
    ensures
        value == u128_text(text@),
{
    text.parse::<u128>().ok()
}

impl FromEnvStr for u128 {
    open spec fn text_value(text: Seq<char>) -> Option<u128> {
        u128_text(text)
    }

    fn from_env_str(text: &str) -> (value: Option<u128>) {
        parse_u128(text)
    }
}

/// What text reads as a `isize`: decimal text whose number fits the type.
pub open spec fn isize_text(text: Seq<char>) -> Option<isize> {
    match within(signed_decimal(text), isize::MIN as int, isize::MAX as int) {
        Some(v) => Some(v as isize),
        None => None,
    }
}

/// Reads text with `<isize as FromStr>::from_str`. std documents the accepted
/// text as an optional `+` or `-` followed by ASCII digits only, and fails on a number
/// out of the type's range.
#[verifier::external_body]
fn parse_isize(text: &str) -> (value: Option<isize>)
    ensures
        value == isize_text(text@),
{
    text.parse::<isize>().ok()
}

impl FromEnvStr for isize {
    open spec fn text_value(text: Seq<char>) -> Option<isize> {
        isize_text(text)
    }

    fn from_env_str(text: &str) -> (value: Option<isize>) {
        parse_isize(text)
    }
}

/// What text reads as a `char`: text of exactly one character.
pub open spec fn char_text(text: Seq<char>) -> Option<char> {
    if text.len() == 1 {
        Some(text[0])
    } else {
        None
    }
}

impl FromEnvStr for char {
    open spec fn text_value(text: Seq<char>) -> Option<char> {
        char_text(text)
    }

    /// As `<char as FromStr>::from_str`, which accepts text of exactly one
    /// character.
    fn from_env_str(text: &str) -> (value: Option<char>) {
        if text.unicode_len() == 1 {
            Some(text.get_char(0))
        } else {
            None
        }
    }
}

/// The ASCII digit for a number below ten.
pub open spec fn digit_char(d: int) -> char {
    (d + 48) as char
}

/// The decimal digits of a natural number, without leading zeros.
pub open spec fn decimal_digits(n: nat) -> Seq<char>
    decreases n,
{
    if n < 10 {
        seq![digit_char(n as int)]
    } else {
        decimal_digits(n / 10).push(digit_char((n % 10) as int))
    }
}

/// The usual decimal text of an integer: its digits, after `-` when negative.
pub open spec fn decimal_text(n: int) -> Seq<char> {
    if n < 0 {
        seq!['-'] + decimal_digits((-n) as nat)
    } else {
        decimal_digits(n as nat)
    }
}

/// The digits of a natural number spell that number.
pub proof fn lemma_decimal_digits(n: nat)
    ensures
        all_digits(decimal_digits(n)),
        digits_value(decimal_digits(n)) == n,
    decreases n,
{
    if n < 10 {
        let s = decimal_digits(n);
        assert((n + 48) as char as int == n + 48);
        assert(s.drop_last() =~= Seq::<char>::empty());
        assert(digits_value(Seq::<char>::empty()) == 0);
        assert(is_digit(s[0]));
    } else {
        lemma_decimal_digits(n / 10);
        let front = decimal_digits(n / 10);
        let s = decimal_digits(n);
        let d = (n % 10) as int;
        assert((d + 48) as char as int == d + 48);
        assert(s.drop_last() =~= front);
        assert(s.last() == digit_char(d));
        assert(10 * (n / 10) + n % 10 == n);
        assert forall|i: int| 0 <= i < s.len() implies #[trigger] is_digit(s[i]) by {
            if i < front.len() {
                assert(s[i] == front[i]);
            }
        }
    }
}

/// Decimal text reads back as its number, in the signed form, and in the
/// unsigned form when the number is not negative.
pub proof fn lemma_decimal_text(n: int)
    ensures
        signed_decimal(decimal_text(n)) == Some(n),
        unsigned_decimal(decimal_text(n)) == (if n >= 0 {
            Some(n)
        } else {
            None::<int>
        }),
{
    if n < 0 {
        let digits = decimal_digits((-n) as nat);
        lemma_decimal_digits((-n) as nat);
        let t = decimal_text(n);
        assert(t.drop_first() =~= digits);
        assert(t[0] == '-');
        assert(!is_digit(t[0]));
    } else {
        lemma_decimal_digits(n as nat);
        let t = decimal_text(n);
        assert(is_digit(t[0]));
    }
}

/// Every integer type reads the usual decimal text of each number in its
/// range as that number, negative numbers included for the signed types, and
/// fails on the text of any number out of its range.
pub proof fn law_integer_text_round_trip(n: int)
    ensures
        0 <= n <= u8::MAX ==> <u8 as FromEnvStr>::text_value(decimal_text(n)) == Some(n as u8),
        !(0 <= n <= u8::MAX) ==> <u8 as FromEnvStr>::text_value(decimal_text(n)) is None,
        0 <= n <= u16::MAX ==> <u16 as FromEnvStr>::text_value(decimal_text(n)) == Some(n as u16),
        !(0 <= n <= u16::MAX) ==> <u16 as FromEnvStr>::text_value(decimal_text(n)) is None,
        0 <= n <= u32::MAX ==> <u32 as FromEnvStr>::text_value(decimal_text(n)) == Some(n as u32),
        !(0 <= n <= u32::MAX) ==> <u32 as FromEnvStr>::text_value(decimal_text(n)) is None,
        0 <= n <= u64::MAX ==> <u64 as FromEnvStr>::text_value(decimal_text(n)) == Some(n as u64),
        !(0 <= n <= u64::MAX) ==> <u64 as FromEnvStr>::text_value(decimal_text(n)) is None,
        0 <= n <= u128::MAX ==> <u128 as FromEnvStr>::text_value(decimal_text(n)) == Some(n as u128),
        !(0 <= n <= u128::MAX) ==> <u128 as FromEnvStr>::text_value(decimal_text(n)) is None,
        0 <= n <= usize::MAX ==> <usize as FromEnvStr>::text_value(decimal_text(n)) == Some(n as usize),
        !(0 <= n <= usize::MAX) ==> <usize as FromEnvStr>::text_value(decimal_text(n)) is None,
        i8::MIN <= n <= i8::MAX ==> <i8 as FromEnvStr>::text_value(decimal_text(n)) == Some(n as i8),
        !(i8::MIN <= n <= i8::MAX) ==> <i8 as FromEnvStr>::text_value(decimal_text(n)) is None,
        i16::MIN <= n <= i16::MAX ==> <i16 as FromEnvStr>::text_value(decimal_text(n)) == Some(n as i16),
        !(i16::MIN <= n <= i16::MAX) ==> <i16 as FromEnvStr>::text_value(decimal_text(n)) is None,
        i32::MIN <= n <= i32::MAX ==> <i32 as FromEnvStr>::text_value(decimal_text(n)) == Some(n as i32),
        !(i32::MIN <= n <= i32::MAX) ==> <i32 as FromEnvStr>::text_value(decimal_text(n)) is None,
        i64::MIN <= n <= i64::MAX ==> <i64 as FromEnvStr>::text_value(decimal_text(n)) == Some(n as i64),
        !(i64::MIN <= n <= i64::MAX) ==> <i64 as FromEnvStr>::text_value(decimal_text(n)) is None,
        i128::MIN <= n <= i128::MAX ==> <i128 as FromEnvStr>::text_value(decimal_text(n)) == Some(n as i128),
        !(i128::MIN <= n <= i128::MAX) ==> <i128 as FromEnvStr>::text_value(decimal_text(n)) is None,
        isize::MIN <= n <= isize::MAX ==> <isize as FromEnvStr>::text_value(decimal_text(n)) == Some(n as isize),
        !(isize::MIN <= n <= isize::MAX) ==> <isize as FromEnvStr>::text_value(decimal_text(n)) is None,
{
    lemma_decimal_text(n);
}

} // verus!
