use crate::env::{RawInput, RawInputView};
use crate::from_env::{str_outcome, EnvDisplay, EnvInput, FromEnv, FromEnvCtx, FromEnvResult, InvalidValueError};
use crate::issue::IssueKindView;
use vstd::prelude::*;
use vstd::string::*;

verus! {

/// Whether `c` is a decimal digit.
pub open spec fn is_digit(c: char) -> bool {
    '0' <= c && c <= '9'
}

/// The value of the decimal digit `c`.
pub open spec fn digit_value(c: char) -> int {
    c as int - '0' as int
}

/// The digit that stands for `d`, below ten.
pub open spec fn digit_char(d: int) -> char {
    ('0' as int + d) as char
}

/// The number that the decimal digits `s` spell.
pub open spec fn digits_value(s: Seq<char>) -> int
    decreases s.len(),
{
    if s.len() == 0 {
        0
    } else {
        digits_value(s.drop_last()) * 10 + digit_value(s.last())
    }
}

/// The text is a non-empty run of decimal digits.
pub open spec fn is_digit_run(s: Seq<char>) -> bool {
    s.len() > 0 && forall|i: int| 0 <= i < s.len() ==> is_digit(#[trigger] s[i])
}

/// The number that an unsigned integer's text names: an optional `+`
/// followed by decimal digits.
pub open spec fn spec_decimal_unsigned(s: Seq<char>) -> Option<int> {
    let d = if s.len() > 0 && s[0] == '+' {
        s.drop_first()
    } else {
        s
    };
    if is_digit_run(d) {
        Some(digits_value(d))
    } else {
        None
    }
}

/// The number that a signed integer's text names: an optional `+` or `-`
/// followed by decimal digits.
pub open spec fn spec_decimal_signed(s: Seq<char>) -> Option<int> {
    if s.len() > 0 && s[0] == '-' {
        if is_digit_run(s.drop_first()) {
            Some(-digits_value(s.drop_first()))
        } else {
            None
        }
    } else {
        spec_decimal_unsigned(s)
    }
}

/// The decimal digits of `n`, without leading zeros.
pub open spec fn nat_text(n: nat) -> Seq<char>
    decreases n,
{
    if n < 10 {
        seq![digit_char(n as int)]
    } else {
        nat_text(n / 10).push(digit_char((n % 10) as int))
    }
}

/// The decimal text of `i`, with a leading `-` when it is negative.
pub open spec fn int_text(i: int) -> Seq<char> {
    if i < 0 {
        seq!['-'] + nat_text((-i) as nat)
    } else {
        nat_text(i as nat)
    }
}

/// The text of a number is a run of digits that spells it.
pub proof fn lemma_nat_text_digits(n: nat)
    ensures
        is_digit_run(nat_text(n)),
        digits_value(nat_text(n)) == n,
        nat_text(n)[0] != '+' && nat_text(n)[0] != '-',
    decreases n,
{
    if n < 10 {
        assert(digit_char(n as int) as int == '0' as int + n);
        assert(nat_text(n).drop_last() =~= Seq::<char>::empty());
        assert(digits_value(nat_text(n)) == digits_value(Seq::<char>::empty()) * 10 + digit_value(nat_text(n).last()));
        assert(digits_value(nat_text(n)) == n);
    } else {
        lemma_nat_text_digits(n / 10);
        let t = nat_text(n);
        assert(t.drop_last() == nat_text(n / 10));
        assert(t.last() == digit_char((n % 10) as int));
        assert(digit_char((n % 10) as int) as int == '0' as int + n % 10);
        assert(n == (n / 10) * 10 + n % 10);
        assert(digits_value(t) == digits_value(t.drop_last()) * 10 + digit_value(t.last()));
        assert(digits_value(t) == n);
        assert forall|i: int| 0 <= i < t.len() implies is_digit(#[trigger] t[i]) by {
            if i < t.len() - 1 {
                assert(t[i] == nat_text(n / 10)[i]);
            }
        }
    }
}

/// An integer's text parses back to the integer.
pub proof fn lemma_int_text_parses(i: int)
    ensures
        spec_decimal_signed(int_text(i)) == Some(i),
        i >= 0 ==> spec_decimal_unsigned(int_text(i)) == Some(i),
{
    if i < 0 {
        lemma_nat_text_digits((-i) as nat);
        assert((seq!['-'] + nat_text((-i) as nat)).drop_first() == nat_text((-i) as nat));
    } else {
        lemma_nat_text_digits(i as nat);
    }
}

fn digit_str(d: u128) -> (r: &'static str)
    requires
        d < 10,
    ensures
        r@ == seq![digit_char(d as int)],
{
    proof {
        reveal_strlit("0");
        reveal_strlit("1");
        reveal_strlit("2");
        reveal_strlit("3");
        reveal_strlit("4");
        reveal_strlit("5");
        reveal_strlit("6");
        reveal_strlit("7");
        reveal_strlit("8");
        reveal_strlit("9");
    }
    if d == 0 {
        "0"
    } else if d == 1 {
        "1"
    } else if d == 2 {
        "2"
    } else if d == 3 {
        "3"
    } else if d == 4 {
        "4"
    } else if d == 5 {
        "5"
    } else if d == 6 {
        "6"
    } else if d == 7 {
        "7"
    } else if d == 8 {
        "8"
    } else {
        "9"
    }
}

/// The decimal text of `n`.
pub fn u128_text(n: u128) -> (r: String)
    ensures
        r@ == nat_text(n as nat),
    decreases n,
{
    if n < 10 {
        String::from_str(digit_str(n))
    } else {
        let mut s = u128_text(n / 10);
        s.append(digit_str(n % 10));
        s
    }
}

/// The decimal text of `n`, with a leading `-` when it is negative.
pub fn i128_text(n: i128) -> (r: String)
    ensures
        r@ == int_text(n as int),
{
    if n < 0 {
        let magnitude: u128 = ((-(n + 1)) as u128) + 1;
        let mut s = String::from_str("-");
        proof {
            reveal_strlit("-");
        }
        let digits = u128_text(magnitude);
        s.append(digits.as_str());
        s
    } else {
        u128_text(n as u128)
    }
}


/// The text of the error that `<u8 as FromStr>::from_str` gives on `s`.
pub uninterp spec fn u8_from_str_error(s: Seq<char>) -> Seq<char>;

/// The `u8` that a text names, or the text of the error.
pub open spec fn spec_parse_u8(s: Seq<char>) -> Result<u8, Seq<char>> {
    match spec_decimal_unsigned(s) {
        Some(n) => if 0 <= n && n <= u8::MAX {
            Ok(n as u8)
        } else {
            Err(u8_from_str_error(s))
        },
        None => Err(u8_from_str_error(s)),
    }
}

/// Calls `<u8 as FromStr>::from_str`. As its documentation says, the text
/// must be an optional `+` followed by decimal digits, naming a value within the
/// type's range; the text of the error is named, not stated.
#[verifier::external_body]
fn u8_from_str(s: &str) -> (r: Result<u8, String>)
    ensures
        match r {
            Ok(v) => spec_parse_u8(s@) == Ok::<u8, Seq<char>>(v),
            Err(m) => spec_parse_u8(s@) is Err && m@ == u8_from_str_error(s@),
        },
{
    match <u8 as core::str::FromStr>::from_str(s) {
        Ok(v) => Ok(v),
        Err(e) => Err(e.to_string()),
    }
}

impl EnvDisplay for u8 {
    open spec fn spec_text(&self) -> Seq<char> {
        int_text(*self as int)
    }

    fn display(&self) -> (s: String) {
        u128_text(*self as u128)
    }
}

/// A `u8`'s text parses back to it.
pub proof fn law_u8_roundtrip(secret: bool, v: u8)
    ensures
        <u8 as FromEnv>::spec_from_env(EnvInput { secret, input: Ok(v.spec_text()) }) == Ok::<
            u8,
            IssueKindView,
        >(v),
{
    lemma_int_text_parses(v as int);
    assert(spec_parse_u8(v.spec_text()) == Ok::<u8, Seq<char>>(v));
}

impl FromEnv for u8 {
    open spec fn spec_from_env(input: EnvInput) -> Result<u8, IssueKindView> {
        str_outcome(input, |s: Seq<char>| spec_parse_u8(s))
    }

    fn parse(ctx: FromEnvCtx) -> (r: FromEnvResult<u8>) {
        let parser = |val: String| -> (r: Result<u8, InvalidValueError>)
            ensures
                match spec_parse_u8(val@) {
                    Ok(v) => r == Ok::<u8, InvalidValueError>(v),
                    Err(m) => r matches Err(e) && e.value@ == RawInputView::String(val@)
                        && e.msg@ == m,
                },
        {
            match u8_from_str(val.as_str()) {
                Ok(v) => Ok(v),
                Err(msg) => Err(InvalidValueError { value: RawInput::String(val), msg }),
            }
        };
        ctx.parse_from_str(parser)
    }
}

/// The text of the error that `<u16 as FromStr>::from_str` gives on `s`.
pub uninterp spec fn u16_from_str_error(s: Seq<char>) -> Seq<char>;

/// The `u16` that a text names, or the text of the error.
pub open spec fn spec_parse_u16(s: Seq<char>) -> Result<u16, Seq<char>> {
    match spec_decimal_unsigned(s) {
        Some(n) => if 0 <= n && n <= u16::MAX {
            Ok(n as u16)
        } else {
            Err(u16_from_str_error(s))
        },
        None => Err(u16_from_str_error(s)),
    }
}

/// Calls `<u16 as FromStr>::from_str`. As its documentation says, the text
/// must be an optional `+` followed by decimal digits, naming a value within the
/// type's range; the text of the error is named, not stated.
#[verifier::external_body]
fn u16_from_str(s: &str) -> (r: Result<u16, String>)
    ensures
        match r {
            Ok(v) => spec_parse_u16(s@) == Ok::<u16, Seq<char>>(v),
            Err(m) => spec_parse_u16(s@) is Err && m@ == u16_from_str_error(s@),
        },
{
    match <u16 as core::str::FromStr>::from_str(s) {
        Ok(v) => Ok(v),
        Err(e) => Err(e.to_string()),
    }
}

impl EnvDisplay for u16 {
    open spec fn spec_text(&self) -> Seq<char> {
        int_text(*self as int)
    }

    fn display(&self) -> (s: String) {
        u128_text(*self as u128)
    }
}

/// A `u16`'s text parses back to it.
pub proof fn law_u16_roundtrip(secret: bool, v: u16)
    ensures
        <u16 as FromEnv>::spec_from_env(EnvInput { secret, input: Ok(v.spec_text()) }) == Ok::<
            u16,
            IssueKindView,
        >(v),
{
    lemma_int_text_parses(v as int);
    assert(spec_parse_u16(v.spec_text()) == Ok::<u16, Seq<char>>(v));
}

impl FromEnv for u16 {
    open spec fn spec_from_env(input: EnvInput) -> Result<u16, IssueKindView> {
        str_outcome(input, |s: Seq<char>| spec_parse_u16(s))
    }

    fn parse(ctx: FromEnvCtx) -> (r: FromEnvResult<u16>) {
        let parser = |val: String| -> (r: Result<u16, InvalidValueError>)
            ensures
                match spec_parse_u16(val@) {
                    Ok(v) => r == Ok::<u16, InvalidValueError>(v),
                    Err(m) => r matches Err(e) && e.value@ == RawInputView::String(val@)
                        && e.msg@ == m,
                },
        {
            match u16_from_str(val.as_str()) {
                Ok(v) => Ok(v),
                Err(msg) => Err(InvalidValueError { value: RawInput::String(val), msg }),
            }
        };
        ctx.parse_from_str(parser)
    }
}

/// The text of the error that `<u32 as FromStr>::from_str` gives on `s`.
pub uninterp spec fn u32_from_str_error(s: Seq<char>) -> Seq<char>;

/// The `u32` that a text names, or the text of the error.
pub open spec fn spec_parse_u32(s: Seq<char>) -> Result<u32, Seq<char>> {
    match spec_decimal_unsigned(s) {
        Some(n) => if 0 <= n && n <= u32::MAX {
            Ok(n as u32)
        } else {
            Err(u32_from_str_error(s))
        },
        None => Err(u32_from_str_error(s)),
    }
}

/// Calls `<u32 as FromStr>::from_str`. As its documentation says, the text
/// must be an optional `+` followed by decimal digits, naming a value within the
/// type's range; the text of the error is named, not stated.
#[verifier::external_body]
fn u32_from_str(s: &str) -> (r: Result<u32, String>)
    ensures
        match r {
            Ok(v) => spec_parse_u32(s@) == Ok::<u32, Seq<char>>(v),
            Err(m) => spec_parse_u32(s@) is Err && m@ == u32_from_str_error(s@),
        },
{
    match <u32 as core::str::FromStr>::from_str(s) {
        Ok(v) => Ok(v),
        Err(e) => Err(e.to_string()),
    }
}

impl EnvDisplay for u32 {
    open spec fn spec_text(&self) -> Seq<char> {
        int_text(*self as int)
    }

    fn display(&self) -> (s: String) {
        u128_text(*self as u128)
    }
}

/// A `u32`'s text parses back to it.
pub proof fn law_u32_roundtrip(secret: bool, v: u32)
    ensures
        <u32 as FromEnv>::spec_from_env(EnvInput { secret, input: Ok(v.spec_text()) }) == Ok::<
            u32,
            IssueKindView,
        >(v),
{
    lemma_int_text_parses(v as int);
    assert(spec_parse_u32(v.spec_text()) == Ok::<u32, Seq<char>>(v));
}

impl FromEnv for u32 {
    open spec fn spec_from_env(input: EnvInput) -> Result<u32, IssueKindView> {
        str_outcome(input, |s: Seq<char>| spec_parse_u32(s))
    }

    fn parse(ctx: FromEnvCtx) -> (r: FromEnvResult<u32>) {
        let parser = |val: String| -> (r: Result<u32, InvalidValueError>)
            ensures
                match spec_parse_u32(val@) {
                    Ok(v) => r == Ok::<u32, InvalidValueError>(v),
                    Err(m) => r matches Err(e) && e.value@ == RawInputView::String(val@)
                        && e.msg@ == m,
                },
        {
            match u32_from_str(val.as_str()) {
                Ok(v) => Ok(v),
                Err(msg) => Err(InvalidValueError { value: RawInput::String(val), msg }),
            }
        };
        ctx.parse_from_str(parser)
    }
}

/// The text of the error that `<u64 as FromStr>::from_str` gives on `s`.
pub uninterp spec fn u64_from_str_error(s: Seq<char>) -> Seq<char>;

/// The `u64` that a text names, or the text of the error.
pub open spec fn spec_parse_u64(s: Seq<char>) -> Result<u64, Seq<char>> {
    match spec_decimal_unsigned(s) {
        Some(n) => if 0 <= n && n <= u64::MAX {
            Ok(n as u64)
        } else {
            Err(u64_from_str_error(s))
        },
        None => Err(u64_from_str_error(s)),
    }
}

/// Calls `<u64 as FromStr>::from_str`. As its documentation says, the text
/// must be an optional `+` followed by decimal digits, naming a value within the
/// type's range; the text of the error is named, not stated.
#[verifier::external_body]
fn u64_from_str(s: &str) -> (r: Result<u64, String>)
    ensures
        match r {
            Ok(v) => spec_parse_u64(s@) == Ok::<u64, Seq<char>>(v),
            Err(m) => spec_parse_u64(s@) is Err && m@ == u64_from_str_error(s@),
        },
{
    match <u64 as core::str::FromStr>::from_str(s) {
        Ok(v) => Ok(v),
        Err(e) => Err(e.to_string()),
    }
}

impl EnvDisplay for u64 {
    open spec fn spec_text(&self) -> Seq<char> {
        int_text(*self as int)
    }

    fn display(&self) -> (s: String) {
        u128_text(*self as u128)
    }
}

/// A `u64`'s text parses back to it.
pub proof fn law_u64_roundtrip(secret: bool, v: u64)
    ensures
        <u64 as FromEnv>::spec_from_env(EnvInput { secret, input: Ok(v.spec_text()) }) == Ok::<
            u64,
            IssueKindView,
        >(v),
{
    lemma_int_text_parses(v as int);
    assert(spec_parse_u64(v.spec_text()) == Ok::<u64, Seq<char>>(v));
}

impl FromEnv for u64 {
    open spec fn spec_from_env(input: EnvInput) -> Result<u64, IssueKindView> {
        str_outcome(input, |s: Seq<char>| spec_parse_u64(s))
    }

    fn parse(ctx: FromEnvCtx) -> (r: FromEnvResult<u64>) {
        let parser = |val: String| -> (r: Result<u64, InvalidValueError>)
            ensures
                match spec_parse_u64(val@) {
                    Ok(v) => r == Ok::<u64, InvalidValueError>(v),
                    Err(m) => r matches Err(e) && e.value@ == RawInputView::String(val@)
                        && e.msg@ == m,
                },
        {
            match u64_from_str(val.as_str()) {
                Ok(v) => Ok(v),
                Err(msg) => Err(InvalidValueError { value: RawInput::String(val), msg }),
            }
        };
        ctx.parse_from_str(parser)
    }
}

/// The text of the error that `<u128 as FromStr>::from_str` gives on `s`.
pub uninterp spec fn u128_from_str_error(s: Seq<char>) -> Seq<char>;

/// The `u128` that a text names, or the text of the error.
pub open spec fn spec_parse_u128(s: Seq<char>) -> Result<u128, Seq<char>> {
    match spec_decimal_unsigned(s) {
        Some(n) => if 0 <= n && n <= u128::MAX {
            Ok(n as u128)
        } else {
            Err(u128_from_str_error(s))
        },
        None => Err(u128_from_str_error(s)),
    }
}

/// Calls `<u128 as FromStr>::from_str`. As its documentation says, the text
/// must be an optional `+` followed by decimal digits, naming a value within the
/// type's range; the text of the error is named, not stated.
#[verifier::external_body]
fn u128_from_str(s: &str) -> (r: Result<u128, String>)
    ensures
        match r {
            Ok(v) => spec_parse_u128(s@) == Ok::<u128, Seq<char>>(v),
            Err(m) => spec_parse_u128(s@) is Err && m@ == u128_from_str_error(s@),
        },
{
    match <u128 as core::str::FromStr>::from_str(s) {
        Ok(v) => Ok(v),
        Err(e) => Err(e.to_string()),
    }
}

impl EnvDisplay for u128 {
    open spec fn spec_text(&self) -> Seq<char> {
        int_text(*self as int)
    }

    fn display(&self) -> (s: String) {
        u128_text(*self as u128)
    }
}

/// A `u128`'s text parses back to it.
pub proof fn law_u128_roundtrip(secret: bool, v: u128)
    ensures
        <u128 as FromEnv>::spec_from_env(EnvInput { secret, input: Ok(v.spec_text()) }) == Ok::<
            u128,
            IssueKindView,
        >(v),
{
    lemma_int_text_parses(v as int);
    assert(spec_parse_u128(v.spec_text()) == Ok::<u128, Seq<char>>(v));
}

impl FromEnv for u128 {
    open spec fn spec_from_env(input: EnvInput) -> Result<u128, IssueKindView> {
        str_outcome(input, |s: Seq<char>| spec_parse_u128(s))
    }

    fn parse(ctx: FromEnvCtx) -> (r: FromEnvResult<u128>) {
        let parser = |val: String| -> (r: Result<u128, InvalidValueError>)
            ensures
                match spec_parse_u128(val@) {
                    Ok(v) => r == Ok::<u128, InvalidValueError>(v),
                    Err(m) => r matches Err(e) && e.value@ == RawInputView::String(val@)
                        && e.msg@ == m,
                },
        {
            match u128_from_str(val.as_str()) {
                Ok(v) => Ok(v),
                Err(msg) => Err(InvalidValueError { value: RawInput::String(val), msg }),
            }
        };
        ctx.parse_from_str(parser)
    }
}

/// The text of the error that `<usize as FromStr>::from_str` gives on `s`.
pub uninterp spec fn usize_from_str_error(s: Seq<char>) -> Seq<char>;

/// The `usize` that a text names, or the text of the error.
pub open spec fn spec_parse_usize(s: Seq<char>) -> Result<usize, Seq<char>> {
    match spec_decimal_unsigned(s) {
        Some(n) => if 0 <= n && n <= usize::MAX {
            Ok(n as usize)
        } else {
            Err(usize_from_str_error(s))
        },
        None => Err(usize_from_str_error(s)),
    }
}

/// Calls `<usize as FromStr>::from_str`. As its documentation says, the text
/// must be an optional `+` followed by decimal digits, naming a value within the
/// type's range; the text of the error is named, not stated.
#[verifier::external_body]
fn usize_from_str(s: &str) -> (r: Result<usize, String>)
    ensures
        match r {
            Ok(v) => spec_parse_usize(s@) == Ok::<usize, Seq<char>>(v),
            Err(m) => spec_parse_usize(s@) is Err && m@ == usize_from_str_error(s@),
        },
{
    match <usize as core::str::FromStr>::from_str(s) {
        Ok(v) => Ok(v),
        Err(e) => Err(e.to_string()),
    }
}

impl EnvDisplay for usize {
    open spec fn spec_text(&self) -> Seq<char> {
        int_text(*self as int)
    }

    fn display(&self) -> (s: String) {
        u128_text(*self as u128)
    }
}

/// A `usize`'s text parses back to it.
pub proof fn law_usize_roundtrip(secret: bool, v: usize)
    ensures
        <usize as FromEnv>::spec_from_env(EnvInput { secret, input: Ok(v.spec_text()) }) == Ok::<
            usize,
            IssueKindView,
        >(v),
{
    lemma_int_text_parses(v as int);
    assert(spec_parse_usize(v.spec_text()) == Ok::<usize, Seq<char>>(v));
}

impl FromEnv for usize {
    open spec fn spec_from_env(input: EnvInput) -> Result<usize, IssueKindView> {
        str_outcome(input, |s: Seq<char>| spec_parse_usize(s))
    }

    fn parse(ctx: FromEnvCtx) -> (r: FromEnvResult<usize>) {
        let parser = |val: String| -> (r: Result<usize, InvalidValueError>)
            ensures
                match spec_parse_usize(val@) {
                    Ok(v) => r == Ok::<usize, InvalidValueError>(v),
                    Err(m) => r matches Err(e) && e.value@ == RawInputView::String(val@)
                        && e.msg@ == m,
                },
        {
            match usize_from_str(val.as_str()) {
                Ok(v) => Ok(v),
                Err(msg) => Err(InvalidValueError { value: RawInput::String(val), msg }),
            }
        };
        ctx.parse_from_str(parser)
    }
}

/// The text of the error that `<i8 as FromStr>::from_str` gives on `s`.
pub uninterp spec fn i8_from_str_error(s: Seq<char>) -> Seq<char>;

/// The `i8` that a text names, or the text of the error.
pub open spec fn spec_parse_i8(s: Seq<char>) -> Result<i8, Seq<char>> {
    match spec_decimal_signed(s) {
        Some(n) => if i8::MIN <= n && n <= i8::MAX {
            Ok(n as i8)
        } else {
            Err(i8_from_str_error(s))
        },
        None => Err(i8_from_str_error(s)),
    }
}

/// Calls `<i8 as FromStr>::from_str`. As its documentation says, the text
/// must be an optional `+` or `-` followed by decimal digits, naming a value within the
/// type's range; the text of the error is named, not stated.
#[verifier::external_body]
fn i8_from_str(s: &str) -> (r: Result<i8, String>)
    ensures
        match r {
            Ok(v) => spec_parse_i8(s@) == Ok::<i8, Seq<char>>(v),
            Err(m) => spec_parse_i8(s@) is Err && m@ == i8_from_str_error(s@),
        },
{
    match <i8 as core::str::FromStr>::from_str(s) {
        Ok(v) => Ok(v),
        Err(e) => Err(e.to_string()),
    }
}

impl EnvDisplay for i8 {
    open spec fn spec_text(&self) -> Seq<char> {
        int_text(*self as int)
    }

    fn display(&self) -> (s: String) {
        i128_text(*self as i128)
    }
}

/// A `i8`'s text parses back to it.
pub proof fn law_i8_roundtrip(secret: bool, v: i8)
    ensures
        <i8 as FromEnv>::spec_from_env(EnvInput { secret, input: Ok(v.spec_text()) }) == Ok::<
            i8,
            IssueKindView,
        >(v),
{
    lemma_int_text_parses(v as int);
    assert(spec_parse_i8(v.spec_text()) == Ok::<i8, Seq<char>>(v));
}

impl FromEnv for i8 {
    open spec fn spec_from_env(input: EnvInput) -> Result<i8, IssueKindView> {
        str_outcome(input, |s: Seq<char>| spec_parse_i8(s))
    }

    fn parse(ctx: FromEnvCtx) -> (r: FromEnvResult<i8>) {
        let parser = |val: String| -> (r: Result<i8, InvalidValueError>)
            ensures
                match spec_parse_i8(val@) {
                    Ok(v) => r == Ok::<i8, InvalidValueError>(v),
                    Err(m) => r matches Err(e) && e.value@ == RawInputView::String(val@)
                        && e.msg@ == m,
                },
        {
            match i8_from_str(val.as_str()) {
                Ok(v) => Ok(v),
                Err(msg) => Err(InvalidValueError { value: RawInput::String(val), msg }),
            }
        };
        ctx.parse_from_str(parser)
    }
}

/// The text of the error that `<i16 as FromStr>::from_str` gives on `s`.
pub uninterp spec fn i16_from_str_error(s: Seq<char>) -> Seq<char>;

/// The `i16` that a text names, or the text of the error.
pub open spec fn spec_parse_i16(s: Seq<char>) -> Result<i16, Seq<char>> {
    match spec_decimal_signed(s) {
        Some(n) => if i16::MIN <= n && n <= i16::MAX {
            Ok(n as i16)
        } else {
            Err(i16_from_str_error(s))
        },
        None => Err(i16_from_str_error(s)),
    }
}

/// Calls `<i16 as FromStr>::from_str`. As its documentation says, the text
/// must be an optional `+` or `-` followed by decimal digits, naming a value within the
/// type's range; the text of the error is named, not stated.
#[verifier::external_body]
fn i16_from_str(s: &str) -> (r: Result<i16, String>)
    ensures
        match r {
            Ok(v) => spec_parse_i16(s@) == Ok::<i16, Seq<char>>(v),
            Err(m) => spec_parse_i16(s@) is Err && m@ == i16_from_str_error(s@),
        },
{
    match <i16 as core::str::FromStr>::from_str(s) {
        Ok(v) => Ok(v),
        Err(e) => Err(e.to_string()),
    }
}

impl EnvDisplay for i16 {
    open spec fn spec_text(&self) -> Seq<char> {
        int_text(*self as int)
    }

    fn display(&self) -> (s: String) {
        i128_text(*self as i128)
    }
}

/// A `i16`'s text parses back to it.
pub proof fn law_i16_roundtrip(secret: bool, v: i16)
    ensures
        <i16 as FromEnv>::spec_from_env(EnvInput { secret, input: Ok(v.spec_text()) }) == Ok::<
            i16,
            IssueKindView,
        >(v),
{
    lemma_int_text_parses(v as int);
    assert(spec_parse_i16(v.spec_text()) == Ok::<i16, Seq<char>>(v));
}

impl FromEnv for i16 {
    open spec fn spec_from_env(input: EnvInput) -> Result<i16, IssueKindView> {
        str_outcome(input, |s: Seq<char>| spec_parse_i16(s))
    }

    fn parse(ctx: FromEnvCtx) -> (r: FromEnvResult<i16>) {
        let parser = |val: String| -> (r: Result<i16, InvalidValueError>)
            ensures
                match spec_parse_i16(val@) {
                    Ok(v) => r == Ok::<i16, InvalidValueError>(v),
                    Err(m) => r matches Err(e) && e.value@ == RawInputView::String(val@)
                        && e.msg@ == m,
                },
        {
            match i16_from_str(val.as_str()) {
                Ok(v) => Ok(v),
                Err(msg) => Err(InvalidValueError { value: RawInput::String(val), msg }),
            }
        };
        ctx.parse_from_str(parser)
    }
}

/// The text of the error that `<i32 as FromStr>::from_str` gives on `s`.
pub uninterp spec fn i32_from_str_error(s: Seq<char>) -> Seq<char>;

/// The `i32` that a text names, or the text of the error.
pub open spec fn spec_parse_i32(s: Seq<char>) -> Result<i32, Seq<char>> {
    match spec_decimal_signed(s) {
        Some(n) => if i32::MIN <= n && n <= i32::MAX {
            Ok(n as i32)
        } else {
            Err(i32_from_str_error(s))
        },
        None => Err(i32_from_str_error(s)),
    }
}

/// Calls `<i32 as FromStr>::from_str`. As its documentation says, the text
/// must be an optional `+` or `-` followed by decimal digits, naming a value within the
/// type's range; the text of the error is named, not stated.
#[verifier::external_body]
fn i32_from_str(s: &str) -> (r: Result<i32, String>)
    ensures
        match r {
            Ok(v) => spec_parse_i32(s@) == Ok::<i32, Seq<char>>(v),
            Err(m) => spec_parse_i32(s@) is Err && m@ == i32_from_str_error(s@),
        },
{
    match <i32 as core::str::FromStr>::from_str(s) {
        Ok(v) => Ok(v),
        Err(e) => Err(e.to_string()),
    }
}

impl EnvDisplay for i32 {
    open spec fn spec_text(&self) -> Seq<char> {
        int_text(*self as int)
    }

    fn display(&self) -> (s: String) {
        i128_text(*self as i128)
    }
}

/// A `i32`'s text parses back to it.
pub proof fn law_i32_roundtrip(secret: bool, v: i32)
    ensures
        <i32 as FromEnv>::spec_from_env(EnvInput { secret, input: Ok(v.spec_text()) }) == Ok::<
            i32,
            IssueKindView,
        >(v),
{
    lemma_int_text_parses(v as int);
    assert(spec_parse_i32(v.spec_text()) == Ok::<i32, Seq<char>>(v));
}

impl FromEnv for i32 {
    open spec fn spec_from_env(input: EnvInput) -> Result<i32, IssueKindView> {
        str_outcome(input, |s: Seq<char>| spec_parse_i32(s))
    }

    fn parse(ctx: FromEnvCtx) -> (r: FromEnvResult<i32>) {
        let parser = |val: String| -> (r: Result<i32, InvalidValueError>)
            ensures
                match spec_parse_i32(val@) {
                    Ok(v) => r == Ok::<i32, InvalidValueError>(v),
                    Err(m) => r matches Err(e) && e.value@ == RawInputView::String(val@)
                        && e.msg@ == m,
                },
        {
            match i32_from_str(val.as_str()) {
                Ok(v) => Ok(v),
                Err(msg) => Err(InvalidValueError { value: RawInput::String(val), msg }),
            }
        };
        ctx.parse_from_str(parser)
    }
}

/// The text of the error that `<i64 as FromStr>::from_str` gives on `s`.
pub uninterp spec fn i64_from_str_error(s: Seq<char>) -> Seq<char>;

/// The `i64` that a text names, or the text of the error.
pub open spec fn spec_parse_i64(s: Seq<char>) -> Result<i64, Seq<char>> {
    match spec_decimal_signed(s) {
        Some(n) => if i64::MIN <= n && n <= i64::MAX {
            Ok(n as i64)
        } else {
            Err(i64_from_str_error(s))
        },
        None => Err(i64_from_str_error(s)),
    }
}

/// Calls `<i64 as FromStr>::from_str`. As its documentation says, the text
/// must be an optional `+` or `-` followed by decimal digits, naming a value within the
/// type's range; the text of the error is named, not stated.
#[verifier::external_body]
fn i64_from_str(s: &str) -> (r: Result<i64, String>)
    ensures
        match r {
            Ok(v) => spec_parse_i64(s@) == Ok::<i64, Seq<char>>(v),
            Err(m) => spec_parse_i64(s@) is Err && m@ == i64_from_str_error(s@),
        },
{
    match <i64 as core::str::FromStr>::from_str(s) {
        Ok(v) => Ok(v),
        Err(e) => Err(e.to_string()),
    }
}

impl EnvDisplay for i64 {
    open spec fn spec_text(&self) -> Seq<char> {
        int_text(*self as int)
    }

    fn display(&self) -> (s: String) {
        i128_text(*self as i128)
    }
}

/// A `i64`'s text parses back to it.
pub proof fn law_i64_roundtrip(secret: bool, v: i64)
    ensures
        <i64 as FromEnv>::spec_from_env(EnvInput { secret, input: Ok(v.spec_text()) }) == Ok::<
            i64,
            IssueKindView,
        >(v),
{
    lemma_int_text_parses(v as int);
    assert(spec_parse_i64(v.spec_text()) == Ok::<i64, Seq<char>>(v));
}

impl FromEnv for i64 {
    open spec fn spec_from_env(input: EnvInput) -> Result<i64, IssueKindView> {
        str_outcome(input, |s: Seq<char>| spec_parse_i64(s))
    }

    fn parse(ctx: FromEnvCtx) -> (r: FromEnvResult<i64>) {
        let parser = |val: String| -> (r: Result<i64, InvalidValueError>)
            ensures
                match spec_parse_i64(val@) {
                    Ok(v) => r == Ok::<i64, InvalidValueError>(v),
                    Err(m) => r matches Err(e) && e.value@ == RawInputView::String(val@)
                        && e.msg@ == m,
                },
        {
            match i64_from_str(val.as_str()) {
                Ok(v) => Ok(v),
                Err(msg) => Err(InvalidValueError { value: RawInput::String(val), msg }),
            }
        };
        ctx.parse_from_str(parser)
    }
}

/// The text of the error that `<i128 as FromStr>::from_str` gives on `s`.
pub uninterp spec fn i128_from_str_error(s: Seq<char>) -> Seq<char>;

/// The `i128` that a text names, or the text of the error.
pub open spec fn spec_parse_i128(s: Seq<char>) -> Result<i128, Seq<char>> {
    match spec_decimal_signed(s) {
        Some(n) => if i128::MIN <= n && n <= i128::MAX {
            Ok(n as i128)
        } else {
            Err(i128_from_str_error(s))
        },
        None => Err(i128_from_str_error(s)),
    }
}

/// Calls `<i128 as FromStr>::from_str`. As its documentation says, the text
/// must be an optional `+` or `-` followed by decimal digits, naming a value within the
/// type's range; the text of the error is named, not stated.
#[verifier::external_body]
fn i128_from_str(s: &str) -> (r: Result<i128, String>)
    ensures
        match r {
            Ok(v) => spec_parse_i128(s@) == Ok::<i128, Seq<char>>(v),
            Err(m) => spec_parse_i128(s@) is Err && m@ == i128_from_str_error(s@),
        },
{
    match <i128 as core::str::FromStr>::from_str(s) {
        Ok(v) => Ok(v),
        Err(e) => Err(e.to_string()),
    }
}

impl EnvDisplay for i128 {
    open spec fn spec_text(&self) -> Seq<char> {
        int_text(*self as int)
    }

    fn display(&self) -> (s: String) {
        i128_text(*self as i128)
    }
}

/// A `i128`'s text parses back to it.
pub proof fn law_i128_roundtrip(secret: bool, v: i128)
    ensures
        <i128 as FromEnv>::spec_from_env(EnvInput { secret, input: Ok(v.spec_text()) }) == Ok::<
            i128,
            IssueKindView,
        >(v),
{
    lemma_int_text_parses(v as int);
    assert(spec_parse_i128(v.spec_text()) == Ok::<i128, Seq<char>>(v));
}

impl FromEnv for i128 {
    open spec fn spec_from_env(input: EnvInput) -> Result<i128, IssueKindView> {
        str_outcome(input, |s: Seq<char>| spec_parse_i128(s))
    }

    fn parse(ctx: FromEnvCtx) -> (r: FromEnvResult<i128>) {
        let parser = |val: String| -> (r: Result<i128, InvalidValueError>)
            ensures
                match spec_parse_i128(val@) {
                    Ok(v) => r == Ok::<i128, InvalidValueError>(v),
                    Err(m) => r matches Err(e) && e.value@ == RawInputView::String(val@)
                        && e.msg@ == m,
                },
        {
            match i128_from_str(val.as_str()) {
                Ok(v) => Ok(v),
                Err(msg) => Err(InvalidValueError { value: RawInput::String(val), msg }),
            }
        };
        ctx.parse_from_str(parser)
    }
}

/// The text of the error that `<isize as FromStr>::from_str` gives on `s`.
pub uninterp spec fn isize_from_str_error(s: Seq<char>) -> Seq<char>;

/// The `isize` that a text names, or the text of the error.
pub open spec fn spec_parse_isize(s: Seq<char>) -> Result<isize, Seq<char>> {
    match spec_decimal_signed(s) {
        Some(n) => if isize::MIN <= n && n <= isize::MAX {
            Ok(n as isize)
        } else {
            Err(isize_from_str_error(s))
        },
        None => Err(isize_from_str_error(s)),
    }
}

/// Calls `<isize as FromStr>::from_str`. As its documentation says, the text
/// must be an optional `+` or `-` followed by decimal digits, naming a value within the
/// type's range; the text of the error is named, not stated.
#[verifier::external_body]
fn isize_from_str(s: &str) -> (r: Result<isize, String>)
    ensures
        match r {
            Ok(v) => spec_parse_isize(s@) == Ok::<isize, Seq<char>>(v),
            Err(m) => spec_parse_isize(s@) is Err && m@ == isize_from_str_error(s@),
        },
{
    match <isize as core::str::FromStr>::from_str(s) {
        Ok(v) => Ok(v),
        Err(e) => Err(e.to_string()),
    }
}

impl EnvDisplay for isize {
    open spec fn spec_text(&self) -> Seq<char> {
        int_text(*self as int)
    }

    fn display(&self) -> (s: String) {
        i128_text(*self as i128)
    }
}

/// A `isize`'s text parses back to it.
pub proof fn law_isize_roundtrip(secret: bool, v: isize)
    ensures
        <isize as FromEnv>::spec_from_env(EnvInput { secret, input: Ok(v.spec_text()) }) == Ok::<
            isize,
            IssueKindView,
        >(v),
{
    lemma_int_text_parses(v as int);
    assert(spec_parse_isize(v.spec_text()) == Ok::<isize, Seq<char>>(v));
}

impl FromEnv for isize {
    open spec fn spec_from_env(input: EnvInput) -> Result<isize, IssueKindView> {
        str_outcome(input, |s: Seq<char>| spec_parse_isize(s))
    }

    fn parse(ctx: FromEnvCtx) -> (r: FromEnvResult<isize>) {
        let parser = |val: String| -> (r: Result<isize, InvalidValueError>)
            ensures
                match spec_parse_isize(val@) {
                    Ok(v) => r == Ok::<isize, InvalidValueError>(v),
                    Err(m) => r matches Err(e) && e.value@ == RawInputView::String(val@)
                        && e.msg@ == m,
                },
        {
            match isize_from_str(val.as_str()) {
                Ok(v) => Ok(v),
                Err(msg) => Err(InvalidValueError { value: RawInput::String(val), msg }),
            }
        };
        ctx.parse_from_str(parser)
    }
}

} // verus!
