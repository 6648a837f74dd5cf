use crate::env::{RawInput, RawInputView};
use crate::from_env::{str_outcome, EnvDisplay, EnvInput, FromEnv, FromEnvCtx, FromEnvResult, InvalidValueError};
use crate::ints::{i128_text, int_text, lemma_int_text_parses, spec_decimal_signed, spec_decimal_unsigned, u128_text};
use crate::issue::IssueKindView;
use vstd::prelude::*;
use vstd::string::*;

verus! {

/// A `u8` that is not zero.
pub struct NonZeroU8 {
    value: u8,
}

impl View for NonZeroU8 {
    type V = u8;

    closed spec fn view(&self) -> u8 {
        self.value
    }
}

impl NonZeroU8 {
    #[verifier::type_invariant]
    closed spec fn non_zero(self) -> bool {
        self.value != 0
    }

    /// The value, if it is not zero.
    pub fn new(value: u8) -> (r: Option<Self>)
        ensures
            r is Some <==> value != 0,
            r matches Some(n) ==> n@ == value,
    {
        if value == 0 {
            None
        } else {
            Some(NonZeroU8 { value })
        }
    }

    /// The value, which is not zero.
    pub fn get(&self) -> (r: u8)
        ensures
            r == self@,
            r != 0,
    {
        proof {
            use_type_invariant(self);
        }
        self.value
    }
}

/// The text of the error that `<core::num::NonZeroU8 as FromStr>::from_str` gives on `s`.
pub uninterp spec fn non_zero_u8_from_str_error(s: Seq<char>) -> Seq<char>;

/// The non-zero `u8` that a text names, or the text of the error.
pub open spec fn spec_parse_non_zero_u8(s: Seq<char>) -> Result<u8, Seq<char>> {
    match spec_decimal_unsigned(s) {
        Some(n) => if 0 <= n && n <= u8::MAX && n != 0 {
            Ok(n as u8)
        } else {
            Err(non_zero_u8_from_str_error(s))
        },
        None => Err(non_zero_u8_from_str_error(s)),
    }
}

/// Calls `<core::num::NonZeroU8 as FromStr>::from_str` and gives the value it holds. As its
/// documentation says, the text must be an optional `+` followed by decimal digits, naming a
/// value within the range of `u8` that is not zero; the text of the error
/// is named, not stated.
#[verifier::external_body]
fn non_zero_u8_from_str(s: &str) -> (r: Result<u8, String>)
    ensures
        match r {
            Ok(v) => spec_parse_non_zero_u8(s@) == Ok::<u8, Seq<char>>(v),
            Err(m) => spec_parse_non_zero_u8(s@) is Err && m@ == non_zero_u8_from_str_error(s@),
        },
{
    match <core::num::NonZeroU8 as core::str::FromStr>::from_str(s) {
        Ok(v) => Ok(v.get()),
        Err(e) => Err(e.to_string()),
    }
}

impl EnvDisplay for NonZeroU8 {
    closed spec fn spec_text(&self) -> Seq<char> {
        int_text(self.value as int)
    }

    fn display(&self) -> (s: String) {
        u128_text(self.value as u128)
    }
}

impl FromEnv for NonZeroU8 {
    open spec fn spec_from_env(input: EnvInput) -> Result<u8, IssueKindView> {
        str_outcome(input, |s: Seq<char>| spec_parse_non_zero_u8(s))
    }

    fn parse(ctx: FromEnvCtx) -> (r: FromEnvResult<NonZeroU8>) {
        let parser = |val: String| -> (r: Result<NonZeroU8, InvalidValueError>)
            ensures
                match spec_parse_non_zero_u8(val@) {
                    Ok(v) => r matches Ok(n) && n@ == v,
                    Err(m) => r matches Err(e) && e.value@ == RawInputView::String(val@)
                        && e.msg@ == m,
                },
        {
            match non_zero_u8_from_str(val.as_str()) {
                Ok(v) => Ok(NonZeroU8 { value: v }),
                Err(msg) => Err(InvalidValueError { value: RawInput::String(val), msg }),
            }
        };
        ctx.parse_from_str(parser)
    }
}

/// A non-zero `u8` is shown by its decimal text.
pub proof fn lemma_non_zero_u8_text(v: NonZeroU8)
    ensures
        v.spec_text() == int_text(v@ as int),
{
}

/// The decimal text of a non-zero `u8` parses back to it.
pub proof fn law_non_zero_u8_roundtrip(secret: bool, n: u8)
    requires
        n != 0,
    ensures
        <NonZeroU8 as FromEnv>::spec_from_env(EnvInput { secret, input: Ok(int_text(n as int)) }) == Ok::<
            u8,
            IssueKindView,
        >(n),
{
    lemma_int_text_parses(n as int);
    assert(spec_parse_non_zero_u8(int_text(n as int)) == Ok::<u8, Seq<char>>(n));
}

/// A `u16` that is not zero.
pub struct NonZeroU16 {
    value: u16,
}

impl View for NonZeroU16 {
    type V = u16;

    closed spec fn view(&self) -> u16 {
        self.value
    }
}

impl NonZeroU16 {
    #[verifier::type_invariant]
    closed spec fn non_zero(self) -> bool {
        self.value != 0
    }

    /// The value, if it is not zero.
    pub fn new(value: u16) -> (r: Option<Self>)
        ensures
            r is Some <==> value != 0,
            r matches Some(n) ==> n@ == value,
    {
        if value == 0 {
            None
        } else {
            Some(NonZeroU16 { value })
        }
    }

    /// The value, which is not zero.
    pub fn get(&self) -> (r: u16)
        ensures
            r == self@,
            r != 0,
    {
        proof {
            use_type_invariant(self);
        }
        self.value
    }
}

/// The text of the error that `<core::num::NonZeroU16 as FromStr>::from_str` gives on `s`.
pub uninterp spec fn non_zero_u16_from_str_error(s: Seq<char>) -> Seq<char>;

/// The non-zero `u16` that a text names, or the text of the error.
pub open spec fn spec_parse_non_zero_u16(s: Seq<char>) -> Result<u16, Seq<char>> {
    match spec_decimal_unsigned(s) {
        Some(n) => if 0 <= n && n <= u16::MAX && n != 0 {
            Ok(n as u16)
        } else {
            Err(non_zero_u16_from_str_error(s))
        },
        None => Err(non_zero_u16_from_str_error(s)),
    }
}

/// Calls `<core::num::NonZeroU16 as FromStr>::from_str` and gives the value it holds. As its
/// documentation says, the text must be an optional `+` followed by decimal digits, naming a
/// value within the range of `u16` that is not zero; the text of the error
/// is named, not stated.
#[verifier::external_body]
fn non_zero_u16_from_str(s: &str) -> (r: Result<u16, String>)
    ensures
        match r {
            Ok(v) => spec_parse_non_zero_u16(s@) == Ok::<u16, Seq<char>>(v),
            Err(m) => spec_parse_non_zero_u16(s@) is Err && m@ == non_zero_u16_from_str_error(s@),
        },
{
    match <core::num::NonZeroU16 as core::str::FromStr>::from_str(s) {
        Ok(v) => Ok(v.get()),
        Err(e) => Err(e.to_string()),
    }
}

impl EnvDisplay for NonZeroU16 {
    closed spec fn spec_text(&self) -> Seq<char> {
        int_text(self.value as int)
    }

    fn display(&self) -> (s: String) {
        u128_text(self.value as u128)
    }
}

impl FromEnv for NonZeroU16 {
    open spec fn spec_from_env(input: EnvInput) -> Result<u16, IssueKindView> {
        str_outcome(input, |s: Seq<char>| spec_parse_non_zero_u16(s))
    }

    fn parse(ctx: FromEnvCtx) -> (r: FromEnvResult<NonZeroU16>) {
        let parser = |val: String| -> (r: Result<NonZeroU16, InvalidValueError>)
            ensures
                match spec_parse_non_zero_u16(val@) {
                    Ok(v) => r matches Ok(n) && n@ == v,
                    Err(m) => r matches Err(e) && e.value@ == RawInputView::String(val@)
                        && e.msg@ == m,
                },
        {
            match non_zero_u16_from_str(val.as_str()) {
                Ok(v) => Ok(NonZeroU16 { value: v }),
                Err(msg) => Err(InvalidValueError { value: RawInput::String(val), msg }),
            }
        };
        ctx.parse_from_str(parser)
    }
}

/// A non-zero `u16` is shown by its decimal text.
pub proof fn lemma_non_zero_u16_text(v: NonZeroU16)
    ensures
        v.spec_text() == int_text(v@ as int),
{
}

/// The decimal text of a non-zero `u16` parses back to it.
pub proof fn law_non_zero_u16_roundtrip(secret: bool, n: u16)
    requires
        n != 0,
    ensures
        <NonZeroU16 as FromEnv>::spec_from_env(EnvInput { secret, input: Ok(int_text(n as int)) }) == Ok::<
            u16,
            IssueKindView,
        >(n),
{
    lemma_int_text_parses(n as int);
    assert(spec_parse_non_zero_u16(int_text(n as int)) == Ok::<u16, Seq<char>>(n));
}

/// A `u32` that is not zero.
pub struct NonZeroU32 {
    value: u32,
}

impl View for NonZeroU32 {
    type V = u32;

    closed spec fn view(&self) -> u32 {
        self.value
    }
}

impl NonZeroU32 {
    #[verifier::type_invariant]
    closed spec fn non_zero(self) -> bool {
        self.value != 0
    }

    /// The value, if it is not zero.
    pub fn new(value: u32) -> (r: Option<Self>)
        ensures
            r is Some <==> value != 0,
            r matches Some(n) ==> n@ == value,
    {
        if value == 0 {
            None
        } else {
            Some(NonZeroU32 { value })
        }
    }

    /// The value, which is not zero.
    pub fn get(&self) -> (r: u32)
        ensures
            r == self@,
            r != 0,
    {
        proof {
            use_type_invariant(self);
        }
        self.value
    }
}

/// The text of the error that `<core::num::NonZeroU32 as FromStr>::from_str` gives on `s`.
pub uninterp spec fn non_zero_u32_from_str_error(s: Seq<char>) -> Seq<char>;

/// The non-zero `u32` that a text names, or the text of the error.
pub open spec fn spec_parse_non_zero_u32(s: Seq<char>) -> Result<u32, Seq<char>> {
    match spec_decimal_unsigned(s) {
        Some(n) => if 0 <= n && n <= u32::MAX && n != 0 {
            Ok(n as u32)
        } else {
            Err(non_zero_u32_from_str_error(s))
        },
        None => Err(non_zero_u32_from_str_error(s)),
    }
}

/// Calls `<core::num::NonZeroU32 as FromStr>::from_str` and gives the value it holds. As its
/// documentation says, the text must be an optional `+` followed by decimal digits, naming a
/// value within the range of `u32` that is not zero; the text of the error
/// is named, not stated.
#[verifier::external_body]
fn non_zero_u32_from_str(s: &str) -> (r: Result<u32, String>)
    ensures
        match r {
            Ok(v) => spec_parse_non_zero_u32(s@) == Ok::<u32, Seq<char>>(v),
            Err(m) => spec_parse_non_zero_u32(s@) is Err && m@ == non_zero_u32_from_str_error(s@),
        },
{
    match <core::num::NonZeroU32 as core::str::FromStr>::from_str(s) {
        Ok(v) => Ok(v.get()),
        Err(e) => Err(e.to_string()),
    }
}

impl EnvDisplay for NonZeroU32 {
    closed spec fn spec_text(&self) -> Seq<char> {
        int_text(self.value as int)
    }

    fn display(&self) -> (s: String) {
        u128_text(self.value as u128)
    }
}

impl FromEnv for NonZeroU32 {
    open spec fn spec_from_env(input: EnvInput) -> Result<u32, IssueKindView> {
        str_outcome(input, |s: Seq<char>| spec_parse_non_zero_u32(s))
    }

    fn parse(ctx: FromEnvCtx) -> (r: FromEnvResult<NonZeroU32>) {
        let parser = |val: String| -> (r: Result<NonZeroU32, InvalidValueError>)
            ensures
                match spec_parse_non_zero_u32(val@) {
                    Ok(v) => r matches Ok(n) && n@ == v,
                    Err(m) => r matches Err(e) && e.value@ == RawInputView::String(val@)
                        && e.msg@ == m,
                },
        {
            match non_zero_u32_from_str(val.as_str()) {
                Ok(v) => Ok(NonZeroU32 { value: v }),
                Err(msg) => Err(InvalidValueError { value: RawInput::String(val), msg }),
            }
        };
        ctx.parse_from_str(parser)
    }
}

/// A non-zero `u32` is shown by its decimal text.
pub proof fn lemma_non_zero_u32_text(v: NonZeroU32)
    ensures
        v.spec_text() == int_text(v@ as int),
{
}

/// The decimal text of a non-zero `u32` parses back to it.
pub proof fn law_non_zero_u32_roundtrip(secret: bool, n: u32)
    requires
        n != 0,
    ensures
        <NonZeroU32 as FromEnv>::spec_from_env(EnvInput { secret, input: Ok(int_text(n as int)) }) == Ok::<
            u32,
            IssueKindView,
        >(n),
{
    lemma_int_text_parses(n as int);
    assert(spec_parse_non_zero_u32(int_text(n as int)) == Ok::<u32, Seq<char>>(n));
}

/// A `u64` that is not zero.
pub struct NonZeroU64 {
    value: u64,
}

impl View for NonZeroU64 {
    type V = u64;

    closed spec fn view(&self) -> u64 {
        self.value
    }
}

impl NonZeroU64 {
    #[verifier::type_invariant]
    closed spec fn non_zero(self) -> bool {
        self.value != 0
    }

    /// The value, if it is not zero.
    pub fn new(value: u64) -> (r: Option<Self>)
        ensures
            r is Some <==> value != 0,
            r matches Some(n) ==> n@ == value,
    {
        if value == 0 {
            None
        } else {
            Some(NonZeroU64 { value })
        }
    }

    /// The value, which is not zero.
    pub fn get(&self) -> (r: u64)
        ensures
            r == self@,
            r != 0,
    {
        proof {
            use_type_invariant(self);
        }
        self.value
    }
}

/// The text of the error that `<core::num::NonZeroU64 as FromStr>::from_str` gives on `s`.
pub uninterp spec fn non_zero_u64_from_str_error(s: Seq<char>) -> Seq<char>;

/// The non-zero `u64` that a text names, or the text of the error.
pub open spec fn spec_parse_non_zero_u64(s: Seq<char>) -> Result<u64, Seq<char>> {
    match spec_decimal_unsigned(s) {
        Some(n) => if 0 <= n && n <= u64::MAX && n != 0 {
            Ok(n as u64)
        } else {
            Err(non_zero_u64_from_str_error(s))
        },
        None => Err(non_zero_u64_from_str_error(s)),
    }
}

/// Calls `<core::num::NonZeroU64 as FromStr>::from_str` and gives the value it holds. As its
/// documentation says, the text must be an optional `+` followed by decimal digits, naming a
/// value within the range of `u64` that is not zero; the text of the error
/// is named, not stated.
#[verifier::external_body]
fn non_zero_u64_from_str(s: &str) -> (r: Result<u64, String>)
    ensures
        match r {
            Ok(v) => spec_parse_non_zero_u64(s@) == Ok::<u64, Seq<char>>(v),
            Err(m) => spec_parse_non_zero_u64(s@) is Err && m@ == non_zero_u64_from_str_error(s@),
        },
{
    match <core::num::NonZeroU64 as core::str::FromStr>::from_str(s) {
        Ok(v) => Ok(v.get()),
        Err(e) => Err(e.to_string()),
    }
}

impl EnvDisplay for NonZeroU64 {
    closed spec fn spec_text(&self) -> Seq<char> {
        int_text(self.value as int)
    }

    fn display(&self) -> (s: String) {
        u128_text(self.value as u128)
    }
}

impl FromEnv for NonZeroU64 {
    open spec fn spec_from_env(input: EnvInput) -> Result<u64, IssueKindView> {
        str_outcome(input, |s: Seq<char>| spec_parse_non_zero_u64(s))
    }

    fn parse(ctx: FromEnvCtx) -> (r: FromEnvResult<NonZeroU64>) {
        let parser = |val: String| -> (r: Result<NonZeroU64, InvalidValueError>)
            ensures
                match spec_parse_non_zero_u64(val@) {
                    Ok(v) => r matches Ok(n) && n@ == v,
                    Err(m) => r matches Err(e) && e.value@ == RawInputView::String(val@)
                        && e.msg@ == m,
                },
        {
            match non_zero_u64_from_str(val.as_str()) {
                Ok(v) => Ok(NonZeroU64 { value: v }),
                Err(msg) => Err(InvalidValueError { value: RawInput::String(val), msg }),
            }
        };
        ctx.parse_from_str(parser)
    }
}

/// A non-zero `u64` is shown by its decimal text.
pub proof fn lemma_non_zero_u64_text(v: NonZeroU64)
    ensures
        v.spec_text() == int_text(v@ as int),
{
}

/// The decimal text of a non-zero `u64` parses back to it.
pub proof fn law_non_zero_u64_roundtrip(secret: bool, n: u64)
    requires
        n != 0,
    ensures
        <NonZeroU64 as FromEnv>::spec_from_env(EnvInput { secret, input: Ok(int_text(n as int)) }) == Ok::<
            u64,
            IssueKindView,
        >(n),
{
    lemma_int_text_parses(n as int);
    assert(spec_parse_non_zero_u64(int_text(n as int)) == Ok::<u64, Seq<char>>(n));
}

/// A `u128` that is not zero.
pub struct NonZeroU128 {
    value: u128,
}

impl View for NonZeroU128 {
    type V = u128;

    closed spec fn view(&self) -> u128 {
        self.value
    }
}

impl NonZeroU128 {
    #[verifier::type_invariant]
    closed spec fn non_zero(self) -> bool {
        self.value != 0
    }

    /// The value, if it is not zero.
    pub fn new(value: u128) -> (r: Option<Self>)
        ensures
            r is Some <==> value != 0,
            r matches Some(n) ==> n@ == value,
    {
        if value == 0 {
            None
        } else {
            Some(NonZeroU128 { value })
        }
    }

    /// The value, which is not zero.
    pub fn get(&self) -> (r: u128)
        ensures
            r == self@,
            r != 0,
    {
        proof {
            use_type_invariant(self);
        }
        self.value
    }
}

/// The text of the error that `<core::num::NonZeroU128 as FromStr>::from_str` gives on `s`.
pub uninterp spec fn non_zero_u128_from_str_error(s: Seq<char>) -> Seq<char>;

/// The non-zero `u128` that a text names, or the text of the error.
pub open spec fn spec_parse_non_zero_u128(s: Seq<char>) -> Result<u128, Seq<char>> {
    match spec_decimal_unsigned(s) {
        Some(n) => if 0 <= n && n <= u128::MAX && n != 0 {
            Ok(n as u128)
        } else {
            Err(non_zero_u128_from_str_error(s))
        },
        None => Err(non_zero_u128_from_str_error(s)),
    }
}

/// Calls `<core::num::NonZeroU128 as FromStr>::from_str` and gives the value it holds. As its
/// documentation says, the text must be an optional `+` followed by decimal digits, naming a
/// value within the range of `u128` that is not zero; the text of the error
/// is named, not stated.
#[verifier::external_body]
fn non_zero_u128_from_str(s: &str) -> (r: Result<u128, String>)
    ensures
        match r {
            Ok(v) => spec_parse_non_zero_u128(s@) == Ok::<u128, Seq<char>>(v),
            Err(m) => spec_parse_non_zero_u128(s@) is Err && m@ == non_zero_u128_from_str_error(s@),
        },
{
    match <core::num::NonZeroU128 as core::str::FromStr>::from_str(s) {
        Ok(v) => Ok(v.get()),
        Err(e) => Err(e.to_string()),
    }
}

impl EnvDisplay for NonZeroU128 {
    closed spec fn spec_text(&self) -> Seq<char> {
        int_text(self.value as int)
    }

    fn display(&self) -> (s: String) {
        u128_text(self.value as u128)
    }
}

impl FromEnv for NonZeroU128 {
    open spec fn spec_from_env(input: EnvInput) -> Result<u128, IssueKindView> {
        str_outcome(input, |s: Seq<char>| spec_parse_non_zero_u128(s))
    }

    fn parse(ctx: FromEnvCtx) -> (r: FromEnvResult<NonZeroU128>) {
        let parser = |val: String| -> (r: Result<NonZeroU128, InvalidValueError>)
            ensures
                match spec_parse_non_zero_u128(val@) {
                    Ok(v) => r matches Ok(n) && n@ == v,
                    Err(m) => r matches Err(e) && e.value@ == RawInputView::String(val@)
                        && e.msg@ == m,
                },
        {
            match non_zero_u128_from_str(val.as_str()) {
                Ok(v) => Ok(NonZeroU128 { value: v }),
                Err(msg) => Err(InvalidValueError { value: RawInput::String(val), msg }),
            }
        };
        ctx.parse_from_str(parser)
    }
}

/// A non-zero `u128` is shown by its decimal text.
pub proof fn lemma_non_zero_u128_text(v: NonZeroU128)
    ensures
        v.spec_text() == int_text(v@ as int),
{
}

/// The decimal text of a non-zero `u128` parses back to it.
pub proof fn law_non_zero_u128_roundtrip(secret: bool, n: u128)
    requires
        n != 0,
    ensures
        <NonZeroU128 as FromEnv>::spec_from_env(EnvInput { secret, input: Ok(int_text(n as int)) }) == Ok::<
            u128,
            IssueKindView,
        >(n),
{
    lemma_int_text_parses(n as int);
    assert(spec_parse_non_zero_u128(int_text(n as int)) == Ok::<u128, Seq<char>>(n));
}

/// A `usize` that is not zero.
pub struct NonZeroUsize {
    value: usize,
}

impl View for NonZeroUsize {
    type V = usize;

    closed spec fn view(&self) -> usize {
        self.value
    }
}

impl NonZeroUsize {
    #[verifier::type_invariant]
    closed spec fn non_zero(self) -> bool {
        self.value != 0
    }

    /// The value, if it is not zero.
    pub fn new(value: usize) -> (r: Option<Self>)
        ensures
            r is Some <==> value != 0,
            r matches Some(n) ==> n@ == value,
    {
        if value == 0 {
            None
        } else {
            Some(NonZeroUsize { value })
        }
    }

    /// The value, which is not zero.
    pub fn get(&self) -> (r: usize)
        ensures
            r == self@,
            r != 0,
    {
        proof {
            use_type_invariant(self);
        }
        self.value
    }
}

/// The text of the error that `<core::num::NonZeroUsize as FromStr>::from_str` gives on `s`.
pub uninterp spec fn non_zero_usize_from_str_error(s: Seq<char>) -> Seq<char>;

/// The non-zero `usize` that a text names, or the text of the error.
pub open spec fn spec_parse_non_zero_usize(s: Seq<char>) -> Result<usize, Seq<char>> {
    match spec_decimal_unsigned(s) {
        Some(n) => if 0 <= n && n <= usize::MAX && n != 0 {
            Ok(n as usize)
        } else {
            Err(non_zero_usize_from_str_error(s))
        },
        None => Err(non_zero_usize_from_str_error(s)),
    }
}

/// Calls `<core::num::NonZeroUsize as FromStr>::from_str` and gives the value it holds. As its
/// documentation says, the text must be an optional `+` followed by decimal digits, naming a
/// value within the range of `usize` that is not zero; the text of the error
/// is named, not stated.
#[verifier::external_body]
fn non_zero_usize_from_str(s: &str) -> (r: Result<usize, String>)
    ensures
        match r {
            Ok(v) => spec_parse_non_zero_usize(s@) == Ok::<usize, Seq<char>>(v),
            Err(m) => spec_parse_non_zero_usize(s@) is Err && m@ == non_zero_usize_from_str_error(s@),
        },
{
    match <core::num::NonZeroUsize as core::str::FromStr>::from_str(s) {
        Ok(v) => Ok(v.get()),
        Err(e) => Err(e.to_string()),
    }
}

impl EnvDisplay for NonZeroUsize {
    closed spec fn spec_text(&self) -> Seq<char> {
        int_text(self.value as int)
    }

    fn display(&self) -> (s: String) {
        u128_text(self.value as u128)
    }
}

impl FromEnv for NonZeroUsize {
    open spec fn spec_from_env(input: EnvInput) -> Result<usize, IssueKindView> {
        str_outcome(input, |s: Seq<char>| spec_parse_non_zero_usize(s))
    }

    fn parse(ctx: FromEnvCtx) -> (r: FromEnvResult<NonZeroUsize>) {
        let parser = |val: String| -> (r: Result<NonZeroUsize, InvalidValueError>)
            ensures
                match spec_parse_non_zero_usize(val@) {
                    Ok(v) => r matches Ok(n) && n@ == v,
                    Err(m) => r matches Err(e) && e.value@ == RawInputView::String(val@)
                        && e.msg@ == m,
                },
        {
            match non_zero_usize_from_str(val.as_str()) {
                Ok(v) => Ok(NonZeroUsize { value: v }),
                Err(msg) => Err(InvalidValueError { value: RawInput::String(val), msg }),
            }
        };
        ctx.parse_from_str(parser)
    }
}

/// A non-zero `usize` is shown by its decimal text.
pub proof fn lemma_non_zero_usize_text(v: NonZeroUsize)
    ensures
        v.spec_text() == int_text(v@ as int),
{
}

/// The decimal text of a non-zero `usize` parses back to it.
pub proof fn law_non_zero_usize_roundtrip(secret: bool, n: usize)
    requires
        n != 0,
    ensures
        <NonZeroUsize as FromEnv>::spec_from_env(EnvInput { secret, input: Ok(int_text(n as int)) }) == Ok::<
            usize,
            IssueKindView,
        >(n),
{
    lemma_int_text_parses(n as int);
    assert(spec_parse_non_zero_usize(int_text(n as int)) == Ok::<usize, Seq<char>>(n));
}

/// A `i8` that is not zero.
pub struct NonZeroI8 {
    value: i8,
}

impl View for NonZeroI8 {
    type V = i8;

    closed spec fn view(&self) -> i8 {
        self.value
    }
}

impl NonZeroI8 {
    #[verifier::type_invariant]
    closed spec fn non_zero(self) -> bool {
        self.value != 0
    }

    /// The value, if it is not zero.
    pub fn new(value: i8) -> (r: Option<Self>)
        ensures
            r is Some <==> value != 0,
            r matches Some(n) ==> n@ == value,
    {
        if value == 0 {
            None
        } else {
            Some(NonZeroI8 { value })
        }
    }

    /// The value, which is not zero.
    pub fn get(&self) -> (r: i8)
        ensures
            r == self@,
            r != 0,
    {
        proof {
            use_type_invariant(self);
        }
        self.value
    }
}

/// The text of the error that `<core::num::NonZeroI8 as FromStr>::from_str` gives on `s`.
pub uninterp spec fn non_zero_i8_from_str_error(s: Seq<char>) -> Seq<char>;

/// The non-zero `i8` that a text names, or the text of the error.
pub open spec fn spec_parse_non_zero_i8(s: Seq<char>) -> Result<i8, Seq<char>> {
    match spec_decimal_signed(s) {
        Some(n) => if i8::MIN <= n && n <= i8::MAX && n != 0 {
            Ok(n as i8)
        } else {
            Err(non_zero_i8_from_str_error(s))
        },
        None => Err(non_zero_i8_from_str_error(s)),
    }
}

/// Calls `<core::num::NonZeroI8 as FromStr>::from_str` and gives the value it holds. As its
/// documentation says, the text must be an optional `+` or `-` followed by decimal digits, naming a
/// value within the range of `i8` that is not zero; the text of the error
/// is named, not stated.
#[verifier::external_body]
fn non_zero_i8_from_str(s: &str) -> (r: Result<i8, String>)
    ensures
        match r {
            Ok(v) => spec_parse_non_zero_i8(s@) == Ok::<i8, Seq<char>>(v),
            Err(m) => spec_parse_non_zero_i8(s@) is Err && m@ == non_zero_i8_from_str_error(s@),
        },
{
    match <core::num::NonZeroI8 as core::str::FromStr>::from_str(s) {
        Ok(v) => Ok(v.get()),
        Err(e) => Err(e.to_string()),
    }
}

impl EnvDisplay for NonZeroI8 {
    closed spec fn spec_text(&self) -> Seq<char> {
        int_text(self.value as int)
    }

    fn display(&self) -> (s: String) {
        i128_text(self.value as i128)
    }
}

impl FromEnv for NonZeroI8 {
    open spec fn spec_from_env(input: EnvInput) -> Result<i8, IssueKindView> {
        str_outcome(input, |s: Seq<char>| spec_parse_non_zero_i8(s))
    }

    fn parse(ctx: FromEnvCtx) -> (r: FromEnvResult<NonZeroI8>) {
        let parser = |val: String| -> (r: Result<NonZeroI8, InvalidValueError>)
            ensures
                match spec_parse_non_zero_i8(val@) {
                    Ok(v) => r matches Ok(n) && n@ == v,
                    Err(m) => r matches Err(e) && e.value@ == RawInputView::String(val@)
                        && e.msg@ == m,
                },
        {
            match non_zero_i8_from_str(val.as_str()) {
                Ok(v) => Ok(NonZeroI8 { value: v }),
                Err(msg) => Err(InvalidValueError { value: RawInput::String(val), msg }),
            }
        };
        ctx.parse_from_str(parser)
    }
}

/// A non-zero `i8` is shown by its decimal text.
pub proof fn lemma_non_zero_i8_text(v: NonZeroI8)
    ensures
        v.spec_text() == int_text(v@ as int),
{
}

/// The decimal text of a non-zero `i8` parses back to it.
pub proof fn law_non_zero_i8_roundtrip(secret: bool, n: i8)
    requires
        n != 0,
    ensures
        <NonZeroI8 as FromEnv>::spec_from_env(EnvInput { secret, input: Ok(int_text(n as int)) }) == Ok::<
            i8,
            IssueKindView,
        >(n),
{
    lemma_int_text_parses(n as int);
    assert(spec_parse_non_zero_i8(int_text(n as int)) == Ok::<i8, Seq<char>>(n));
}

/// A `i16` that is not zero.
pub struct NonZeroI16 {
    value: i16,
}

impl View for NonZeroI16 {
    type V = i16;

    closed spec fn view(&self) -> i16 {
        self.value
    }
}

impl NonZeroI16 {
    #[verifier::type_invariant]
    closed spec fn non_zero(self) -> bool {
        self.value != 0
    }

    /// The value, if it is not zero.
    pub fn new(value: i16) -> (r: Option<Self>)
        ensures
            r is Some <==> value != 0,
            r matches Some(n) ==> n@ == value,
    {
        if value == 0 {
            None
        } else {
            Some(NonZeroI16 { value })
        }
    }

    /// The value, which is not zero.
    pub fn get(&self) -> (r: i16)
        ensures
            r == self@,
            r != 0,
    {
        proof {
            use_type_invariant(self);
        }
        self.value
    }
}

/// The text of the error that `<core::num::NonZeroI16 as FromStr>::from_str` gives on `s`.
pub uninterp spec fn non_zero_i16_from_str_error(s: Seq<char>) -> Seq<char>;

/// The non-zero `i16` that a text names, or the text of the error.
pub open spec fn spec_parse_non_zero_i16(s: Seq<char>) -> Result<i16, Seq<char>> {
    match spec_decimal_signed(s) {
        Some(n) => if i16::MIN <= n && n <= i16::MAX && n != 0 {
            Ok(n as i16)
        } else {
            Err(non_zero_i16_from_str_error(s))
        },
        None => Err(non_zero_i16_from_str_error(s)),
    }
}

/// Calls `<core::num::NonZeroI16 as FromStr>::from_str` and gives the value it holds. As its
/// documentation says, the text must be an optional `+` or `-` followed by decimal digits, naming a
/// value within the range of `i16` that is not zero; the text of the error
/// is named, not stated.
#[verifier::external_body]
fn non_zero_i16_from_str(s: &str) -> (r: Result<i16, String>)
    ensures
        match r {
            Ok(v) => spec_parse_non_zero_i16(s@) == Ok::<i16, Seq<char>>(v),
            Err(m) => spec_parse_non_zero_i16(s@) is Err && m@ == non_zero_i16_from_str_error(s@),
        },
{
    match <core::num::NonZeroI16 as core::str::FromStr>::from_str(s) {
        Ok(v) => Ok(v.get()),
        Err(e) => Err(e.to_string()),
    }
}

impl EnvDisplay for NonZeroI16 {
    closed spec fn spec_text(&self) -> Seq<char> {
        int_text(self.value as int)
    }

    fn display(&self) -> (s: String) {
        i128_text(self.value as i128)
    }
}

impl FromEnv for NonZeroI16 {
    open spec fn spec_from_env(input: EnvInput) -> Result<i16, IssueKindView> {
        str_outcome(input, |s: Seq<char>| spec_parse_non_zero_i16(s))
    }

    fn parse(ctx: FromEnvCtx) -> (r: FromEnvResult<NonZeroI16>) {
        let parser = |val: String| -> (r: Result<NonZeroI16, InvalidValueError>)
            ensures
                match spec_parse_non_zero_i16(val@) {
                    Ok(v) => r matches Ok(n) && n@ == v,
                    Err(m) => r matches Err(e) && e.value@ == RawInputView::String(val@)
                        && e.msg@ == m,
                },
        {
            match non_zero_i16_from_str(val.as_str()) {
                Ok(v) => Ok(NonZeroI16 { value: v }),
                Err(msg) => Err(InvalidValueError { value: RawInput::String(val), msg }),
            }
        };
        ctx.parse_from_str(parser)
    }
}

/// A non-zero `i16` is shown by its decimal text.
pub proof fn lemma_non_zero_i16_text(v: NonZeroI16)
    ensures
        v.spec_text() == int_text(v@ as int),
{
}

/// The decimal text of a non-zero `i16` parses back to it.
pub proof fn law_non_zero_i16_roundtrip(secret: bool, n: i16)
    requires
        n != 0,
    ensures
        <NonZeroI16 as FromEnv>::spec_from_env(EnvInput { secret, input: Ok(int_text(n as int)) }) == Ok::<
            i16,
            IssueKindView,
        >(n),
{
    lemma_int_text_parses(n as int);
    assert(spec_parse_non_zero_i16(int_text(n as int)) == Ok::<i16, Seq<char>>(n));
}

/// A `i32` that is not zero.
pub struct NonZeroI32 {
    value: i32,
}

impl View for NonZeroI32 {
    type V = i32;

    closed spec fn view(&self) -> i32 {
        self.value
    }
}

impl NonZeroI32 {
    #[verifier::type_invariant]
    closed spec fn non_zero(self) -> bool {
        self.value != 0
    }

    /// The value, if it is not zero.
    pub fn new(value: i32) -> (r: Option<Self>)
        ensures
            r is Some <==> value != 0,
            r matches Some(n) ==> n@ == value,
    {
        if value == 0 {
            None
        } else {
            Some(NonZeroI32 { value })
        }
    }

    /// The value, which is not zero.
    pub fn get(&self) -> (r: i32)
        ensures
            r == self@,
            r != 0,
    {
        proof {
            use_type_invariant(self);
        }
        self.value
    }
}

/// The text of the error that `<core::num::NonZeroI32 as FromStr>::from_str` gives on `s`.
pub uninterp spec fn non_zero_i32_from_str_error(s: Seq<char>) -> Seq<char>;

/// The non-zero `i32` that a text names, or the text of the error.
pub open spec fn spec_parse_non_zero_i32(s: Seq<char>) -> Result<i32, Seq<char>> {
    match spec_decimal_signed(s) {
        Some(n) => if i32::MIN <= n && n <= i32::MAX && n != 0 {
            Ok(n as i32)
        } else {
            Err(non_zero_i32_from_str_error(s))
        },
        None => Err(non_zero_i32_from_str_error(s)),
    }
}

/// Calls `<core::num::NonZeroI32 as FromStr>::from_str` and gives the value it holds. As its
/// documentation says, the text must be an optional `+` or `-` followed by decimal digits, naming a
/// value within the range of `i32` that is not zero; the text of the error
/// is named, not stated.
#[verifier::external_body]
fn non_zero_i32_from_str(s: &str) -> (r: Result<i32, String>)
    ensures
        match r {
            Ok(v) => spec_parse_non_zero_i32(s@) == Ok::<i32, Seq<char>>(v),
            Err(m) => spec_parse_non_zero_i32(s@) is Err && m@ == non_zero_i32_from_str_error(s@),
        },
{
    match <core::num::NonZeroI32 as core::str::FromStr>::from_str(s) {
        Ok(v) => Ok(v.get()),
        Err(e) => Err(e.to_string()),
    }
}

impl EnvDisplay for NonZeroI32 {
    closed spec fn spec_text(&self) -> Seq<char> {
        int_text(self.value as int)
    }

    fn display(&self) -> (s: String) {
        i128_text(self.value as i128)
    }
}

impl FromEnv for NonZeroI32 {
    open spec fn spec_from_env(input: EnvInput) -> Result<i32, IssueKindView> {
        str_outcome(input, |s: Seq<char>| spec_parse_non_zero_i32(s))
    }

    fn parse(ctx: FromEnvCtx) -> (r: FromEnvResult<NonZeroI32>) {
        let parser = |val: String| -> (r: Result<NonZeroI32, InvalidValueError>)
            ensures
                match spec_parse_non_zero_i32(val@) {
                    Ok(v) => r matches Ok(n) && n@ == v,
                    Err(m) => r matches Err(e) && e.value@ == RawInputView::String(val@)
                        && e.msg@ == m,
                },
        {
            match non_zero_i32_from_str(val.as_str()) {
                Ok(v) => Ok(NonZeroI32 { value: v }),
                Err(msg) => Err(InvalidValueError { value: RawInput::String(val), msg }),
            }
        };
        ctx.parse_from_str(parser)
    }
}

/// A non-zero `i32` is shown by its decimal text.
pub proof fn lemma_non_zero_i32_text(v: NonZeroI32)
    ensures
        v.spec_text() == int_text(v@ as int),
{
}

/// The decimal text of a non-zero `i32` parses back to it.
pub proof fn law_non_zero_i32_roundtrip(secret: bool, n: i32)
    requires
        n != 0,
    ensures
        <NonZeroI32 as FromEnv>::spec_from_env(EnvInput { secret, input: Ok(int_text(n as int)) }) == Ok::<
            i32,
            IssueKindView,
        >(n),
{
    lemma_int_text_parses(n as int);
    assert(spec_parse_non_zero_i32(int_text(n as int)) == Ok::<i32, Seq<char>>(n));
}

/// A `i64` that is not zero.
pub struct NonZeroI64 {
    value: i64,
}

impl View for NonZeroI64 {
    type V = i64;

    closed spec fn view(&self) -> i64 {
        self.value
    }
}

impl NonZeroI64 {
    #[verifier::type_invariant]
    closed spec fn non_zero(self) -> bool {
        self.value != 0
    }

    /// The value, if it is not zero.
    pub fn new(value: i64) -> (r: Option<Self>)
        ensures
            r is Some <==> value != 0,
            r matches Some(n) ==> n@ == value,
    {
        if value == 0 {
            None
        } else {
            Some(NonZeroI64 { value })
        }
    }

    /// The value, which is not zero.
    pub fn get(&self) -> (r: i64)
        ensures
            r == self@,
            r != 0,
    {
        proof {
            use_type_invariant(self);
        }
        self.value
    }
}

/// The text of the error that `<core::num::NonZeroI64 as FromStr>::from_str` gives on `s`.
pub uninterp spec fn non_zero_i64_from_str_error(s: Seq<char>) -> Seq<char>;

/// The non-zero `i64` that a text names, or the text of the error.
pub open spec fn spec_parse_non_zero_i64(s: Seq<char>) -> Result<i64, Seq<char>> {
    match spec_decimal_signed(s) {
        Some(n) => if i64::MIN <= n && n <= i64::MAX && n != 0 {
            Ok(n as i64)
        } else {
            Err(non_zero_i64_from_str_error(s))
        },
        None => Err(non_zero_i64_from_str_error(s)),
    }
}

/// Calls `<core::num::NonZeroI64 as FromStr>::from_str` and gives the value it holds. As its
/// documentation says, the text must be an optional `+` or `-` followed by decimal digits, naming a
/// value within the range of `i64` that is not zero; the text of the error
/// is named, not stated.
#[verifier::external_body]
fn non_zero_i64_from_str(s: &str) -> (r: Result<i64, String>)
    ensures
        match r {
            Ok(v) => spec_parse_non_zero_i64(s@) == Ok::<i64, Seq<char>>(v),
            Err(m) => spec_parse_non_zero_i64(s@) is Err && m@ == non_zero_i64_from_str_error(s@),
        },
{
    match <core::num::NonZeroI64 as core::str::FromStr>::from_str(s) {
        Ok(v) => Ok(v.get()),
        Err(e) => Err(e.to_string()),
    }
}

impl EnvDisplay for NonZeroI64 {
    closed spec fn spec_text(&self) -> Seq<char> {
        int_text(self.value as int)
    }

    fn display(&self) -> (s: String) {
        i128_text(self.value as i128)
    }
}

impl FromEnv for NonZeroI64 {
    open spec fn spec_from_env(input: EnvInput) -> Result<i64, IssueKindView> {
        str_outcome(input, |s: Seq<char>| spec_parse_non_zero_i64(s))
    }

    fn parse(ctx: FromEnvCtx) -> (r: FromEnvResult<NonZeroI64>) {
        let parser = |val: String| -> (r: Result<NonZeroI64, InvalidValueError>)
            ensures
                match spec_parse_non_zero_i64(val@) {
                    Ok(v) => r matches Ok(n) && n@ == v,
                    Err(m) => r matches Err(e) && e.value@ == RawInputView::String(val@)
                        && e.msg@ == m,
                },
        {
            match non_zero_i64_from_str(val.as_str()) {
                Ok(v) => Ok(NonZeroI64 { value: v }),
                Err(msg) => Err(InvalidValueError { value: RawInput::String(val), msg }),
            }
        };
        ctx.parse_from_str(parser)
    }
}

/// A non-zero `i64` is shown by its decimal text.
pub proof fn lemma_non_zero_i64_text(v: NonZeroI64)
    ensures
        v.spec_text() == int_text(v@ as int),
{
}

/// The decimal text of a non-zero `i64` parses back to it.
pub proof fn law_non_zero_i64_roundtrip(secret: bool, n: i64)
    requires
        n != 0,
    ensures
        <NonZeroI64 as FromEnv>::spec_from_env(EnvInput { secret, input: Ok(int_text(n as int)) }) == Ok::<
            i64,
            IssueKindView,
        >(n),
{
    lemma_int_text_parses(n as int);
    assert(spec_parse_non_zero_i64(int_text(n as int)) == Ok::<i64, Seq<char>>(n));
}

/// A `i128` that is not zero.
pub struct NonZeroI128 {
    value: i128,
}

impl View for NonZeroI128 {
    type V = i128;

    closed spec fn view(&self) -> i128 {
        self.value
    }
}

impl NonZeroI128 {
    #[verifier::type_invariant]
    closed spec fn non_zero(self) -> bool {
        self.value != 0
    }

    /// The value, if it is not zero.
    pub fn new(value: i128) -> (r: Option<Self>)
        ensures
            r is Some <==> value != 0,
            r matches Some(n) ==> n@ == value,
    {
        if value == 0 {
            None
        } else {
            Some(NonZeroI128 { value })
        }
    }

    /// The value, which is not zero.
    pub fn get(&self) -> (r: i128)
        ensures
            r == self@,
            r != 0,
    {
        proof {
            use_type_invariant(self);
        }
        self.value
    }
}

/// The text of the error that `<core::num::NonZeroI128 as FromStr>::from_str` gives on `s`.
pub uninterp spec fn non_zero_i128_from_str_error(s: Seq<char>) -> Seq<char>;

/// The non-zero `i128` that a text names, or the text of the error.
pub open spec fn spec_parse_non_zero_i128(s: Seq<char>) -> Result<i128, Seq<char>> {
    match spec_decimal_signed(s) {
        Some(n) => if i128::MIN <= n && n <= i128::MAX && n != 0 {
            Ok(n as i128)
        } else {
            Err(non_zero_i128_from_str_error(s))
        },
        None => Err(non_zero_i128_from_str_error(s)),
    }
}

/// Calls `<core::num::NonZeroI128 as FromStr>::from_str` and gives the value it holds. As its
/// documentation says, the text must be an optional `+` or `-` followed by decimal digits, naming a
/// value within the range of `i128` that is not zero; the text of the error
/// is named, not stated.
#[verifier::external_body]
fn non_zero_i128_from_str(s: &str) -> (r: Result<i128, String>)
    ensures
        match r {
            Ok(v) => spec_parse_non_zero_i128(s@) == Ok::<i128, Seq<char>>(v),
            Err(m) => spec_parse_non_zero_i128(s@) is Err && m@ == non_zero_i128_from_str_error(s@),
        },
{
    match <core::num::NonZeroI128 as core::str::FromStr>::from_str(s) {
        Ok(v) => Ok(v.get()),
        Err(e) => Err(e.to_string()),
    }
}

impl EnvDisplay for NonZeroI128 {
    closed spec fn spec_text(&self) -> Seq<char> {
        int_text(self.value as int)
    }

    fn display(&self) -> (s: String) {
        i128_text(self.value as i128)
    }
}

impl FromEnv for NonZeroI128 {
    open spec fn spec_from_env(input: EnvInput) -> Result<i128, IssueKindView> {
        str_outcome(input, |s: Seq<char>| spec_parse_non_zero_i128(s))
    }

    fn parse(ctx: FromEnvCtx) -> (r: FromEnvResult<NonZeroI128>) {
        let parser = |val: String| -> (r: Result<NonZeroI128, InvalidValueError>)
            ensures
                match spec_parse_non_zero_i128(val@) {
                    Ok(v) => r matches Ok(n) && n@ == v,
                    Err(m) => r matches Err(e) && e.value@ == RawInputView::String(val@)
                        && e.msg@ == m,
                },
        {
            match non_zero_i128_from_str(val.as_str()) {
                Ok(v) => Ok(NonZeroI128 { value: v }),
                Err(msg) => Err(InvalidValueError { value: RawInput::String(val), msg }),
            }
        };
        ctx.parse_from_str(parser)
    }
}

/// A non-zero `i128` is shown by its decimal text.
pub proof fn lemma_non_zero_i128_text(v: NonZeroI128)
    ensures
        v.spec_text() == int_text(v@ as int),
{
}

/// The decimal text of a non-zero `i128` parses back to it.
pub proof fn law_non_zero_i128_roundtrip(secret: bool, n: i128)
    requires
        n != 0,
    ensures
        <NonZeroI128 as FromEnv>::spec_from_env(EnvInput { secret, input: Ok(int_text(n as int)) }) == Ok::<
            i128,
            IssueKindView,
        >(n),
{
    lemma_int_text_parses(n as int);
    assert(spec_parse_non_zero_i128(int_text(n as int)) == Ok::<i128, Seq<char>>(n));
}

/// A `isize` that is not zero.
pub struct NonZeroIsize {
    value: isize,
}

impl View for NonZeroIsize {
    type V = isize;

    closed spec fn view(&self) -> isize {
        self.value
    }
}

impl NonZeroIsize {
    #[verifier::type_invariant]
    closed spec fn non_zero(self) -> bool {
        self.value != 0
    }

    /// The value, if it is not zero.
    pub fn new(value: isize) -> (r: Option<Self>)
        ensures
            r is Some <==> value != 0,
            r matches Some(n) ==> n@ == value,
    {
        if value == 0 {
            None
        } else {
            Some(NonZeroIsize { value })
        }
    }

    /// The value, which is not zero.
    pub fn get(&self) -> (r: isize)
        ensures
            r == self@,
            r != 0,
    {
        proof {
            use_type_invariant(self);
        }
        self.value
    }
}

/// The text of the error that `<core::num::NonZeroIsize as FromStr>::from_str` gives on `s`.
pub uninterp spec fn non_zero_isize_from_str_error(s: Seq<char>) -> Seq<char>;

/// The non-zero `isize` that a text names, or the text of the error.
pub open spec fn spec_parse_non_zero_isize(s: Seq<char>) -> Result<isize, Seq<char>> {
    match spec_decimal_signed(s) {
        Some(n) => if isize::MIN <= n && n <= isize::MAX && n != 0 {
            Ok(n as isize)
        } else {
            Err(non_zero_isize_from_str_error(s))
        },
        None => Err(non_zero_isize_from_str_error(s)),
    }
}

/// Calls `<core::num::NonZeroIsize as FromStr>::from_str` and gives the value it holds. As its
/// documentation says, the text must be an optional `+` or `-` followed by decimal digits, naming a
/// value within the range of `isize` that is not zero; the text of the error
/// is named, not stated.
#[verifier::external_body]
fn non_zero_isize_from_str(s: &str) -> (r: Result<isize, String>)
    ensures
        match r {
            Ok(v) => spec_parse_non_zero_isize(s@) == Ok::<isize, Seq<char>>(v),
            Err(m) => spec_parse_non_zero_isize(s@) is Err && m@ == non_zero_isize_from_str_error(s@),
        },
{
    match <core::num::NonZeroIsize as core::str::FromStr>::from_str(s) {
        Ok(v) => Ok(v.get()),
        Err(e) => Err(e.to_string()),
    }
}

impl EnvDisplay for NonZeroIsize {
    closed spec fn spec_text(&self) -> Seq<char> {
        int_text(self.value as int)
    }

    fn display(&self) -> (s: String) {
        i128_text(self.value as i128)
    }
}

impl FromEnv for NonZeroIsize {
    open spec fn spec_from_env(input: EnvInput) -> Result<isize, IssueKindView> {
        str_outcome(input, |s: Seq<char>| spec_parse_non_zero_isize(s))
    }

    fn parse(ctx: FromEnvCtx) -> (r: FromEnvResult<NonZeroIsize>) {
        let parser = |val: String| -> (r: Result<NonZeroIsize, InvalidValueError>)
            ensures
                match spec_parse_non_zero_isize(val@) {
                    Ok(v) => r matches Ok(n) && n@ == v,
                    Err(m) => r matches Err(e) && e.value@ == RawInputView::String(val@)
                        && e.msg@ == m,
                },
        {
            match non_zero_isize_from_str(val.as_str()) {
                Ok(v) => Ok(NonZeroIsize { value: v }),
                Err(msg) => Err(InvalidValueError { value: RawInput::String(val), msg }),
            }
        };
        ctx.parse_from_str(parser)
    }
}

/// A non-zero `isize` is shown by its decimal text.
pub proof fn lemma_non_zero_isize_text(v: NonZeroIsize)
    ensures
        v.spec_text() == int_text(v@ as int),
{
}

/// The decimal text of a non-zero `isize` parses back to it.
pub proof fn law_non_zero_isize_roundtrip(secret: bool, n: isize)
    requires
        n != 0,
    ensures
        <NonZeroIsize as FromEnv>::spec_from_env(EnvInput { secret, input: Ok(int_text(n as int)) }) == Ok::<
            isize,
            IssueKindView,
        >(n),
{
    lemma_int_text_parses(n as int);
    assert(spec_parse_non_zero_isize(int_text(n as int)) == Ok::<isize, Seq<char>>(n));
}

} // verus!
