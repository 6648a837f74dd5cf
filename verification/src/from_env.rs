use crate::env::{Environment, RawInput, RawInputView, VarError, VarErrorView};
use crate::issue::{IssueKindView, ParseIssueKind};
use vstd::prelude::*;
use vstd::string::*;

verus! {

/// A value that can be shown in an issue report.
pub trait EnvDisplay {
    /// The text by which the value is shown.
    spec fn spec_text(&self) -> Seq<char>;

    fn display(&self) -> (s: String)
        ensures
            s@ == self.spec_text(),
    ;
}

impl EnvDisplay for bool {
    open spec fn spec_text(&self) -> Seq<char> {
        if *self {
            "true"@
        } else {
            "false"@
        }
    }

    fn display(&self) -> (s: String) {
        if *self {
            String::from_str("true")
        } else {
            String::from_str("false")
        }
    }
}

impl EnvDisplay for String {
    open spec fn spec_text(&self) -> Seq<char> {
        self@
    }

    fn display(&self) -> (s: String) {
        self.clone()
    }
}

impl<'b> EnvDisplay for &'b str {
    open spec fn spec_text(&self) -> Seq<char> {
        (*self)@
    }

    fn display(&self) -> (s: String) {
        String::from_str(*self)
    }
}

/// A wrapper structure that displays anything that implements [`EnvDisplay`].
pub struct DisplayWrapper<'a, T: EnvDisplay>(pub &'a T);

impl<'a, T: EnvDisplay> EnvDisplay for DisplayWrapper<'a, T> {
    open spec fn spec_text(&self) -> Seq<char> {
        self.0.spec_text()
    }

    fn display(&self) -> (s: String) {
        self.0.display()
    }
}

} // verus!

verus! {

/// The input handed to a value parser, over mathematical strings.
pub struct EnvInput {
    pub secret: bool,
    pub input: Result<Seq<char>, VarErrorView>,
}

/// The text by which a raw value is shown in a report: never the value
/// itself when it is secret.
pub open spec fn shown_value(raw: RawInputView, secret: bool) -> Seq<char> {
    if secret {
        "<REDACTED>"@
    } else {
        match raw {
            RawInputView::String(s) => s,
            RawInputView::OsString(o) => o.debug,
        }
    }
}

/// The raw value that a parser is handed, from what reading the variable gave.
pub open spec fn raw_of(input: Result<Seq<char>, VarErrorView>) -> RawInputView {
    match input {
        Ok(s) => RawInputView::String(s),
        Err(VarErrorView::NotUnicode(o)) => RawInputView::OsString(o),
        Err(VarErrorView::NotPresent) => RawInputView::String(Seq::empty()),
    }
}

/// The outcome of parsing a value from its text with `f`, which gives the
/// value or the message saying why the text is invalid.
pub open spec fn str_outcome<V>(input: EnvInput, f: spec_fn(Seq<char>) -> Result<V, Seq<char>>) -> Result<
    V,
    IssueKindView,
> {
    match input.input {
        Err(VarErrorView::NotPresent) => Err(IssueKindView::NotFound),
        Err(VarErrorView::NotUnicode(o)) => Err(
            IssueKindView::InvalidValue {
                value: shown_value(RawInputView::OsString(o), input.secret),
                msg: "not valid unicode"@,
            },
        ),
        Ok(s) => match f(s) {
            Ok(v) => Ok(v),
            Err(m) => Err(
                IssueKindView::InvalidValue {
                    value: shown_value(RawInputView::String(s), input.secret),
                    msg: m,
                },
            ),
        },
    }
}

/// The outcome of a parse, over views.
pub open spec fn outcome<T: View>(r: Result<T, ParseIssueKind>) -> Result<T::V, IssueKindView> {
    match r {
        Ok(v) => Ok(v@),
        Err(k) => Err(k@),
    }
}

/// Why a raw value is not a valid value: the value and a message.
pub struct InvalidValueError {
    pub value: RawInput,
    pub msg: String,
}

impl InvalidValueError {
    pub fn new<M: EnvDisplay>(value: RawInput, msg: M) -> (r: Self)
        ensures
            r.value@ == value@,
            r.msg@ == msg.spec_text(),
    {
        InvalidValueError { value, msg: msg.display() }
    }
}

/// What parsing a value from the environment gave.
pub struct FromEnvResult<T>(pub Result<T, ParseIssueKind>);

/// The reading of one variable, handed to the parser of its value.
pub struct FromEnvCtx {
    secret: bool,
    input: Result<String, VarError>,
}

impl View for FromEnvCtx {
    type V = EnvInput;

    closed spec fn view(&self) -> EnvInput {
        EnvInput {
            secret: self.secret,
            input: match self.input {
                Ok(s) => Ok(s@),
                Err(e) => Err(e@),
            },
        }
    }
}

impl FromEnvCtx {
    /// Reads `key` from `env`; a secret value is never shown in a report.
    pub fn new(env: &Environment, key: &str, secret: bool) -> (r: Self)
        ensures
            r@ == (EnvInput { secret, input: env.spec_var(key@) }),
    {
        FromEnvCtx { secret, input: env.var(key) }
    }

    /// Parses the value as a `T`.
    pub fn parse<T: FromEnv>(self) -> (r: Result<T, ParseIssueKind>)
        ensures
            outcome(r) == T::spec_from_env(self@),
    {
        T::parse(self).0
    }

    /// Parses a unicode value with `parser`; a value that is not unicode is invalid.
    pub fn parse_from_str<P, T>(self, parser: P) -> (r: FromEnvResult<T>) where
        P: Fn(String) -> Result<T, InvalidValueError>,

        requires
            forall|s: String| parser.requires((s,)),
        ensures
            match self@.input {
                Err(VarErrorView::NotPresent) => r.0 matches Err(k) && k@ == IssueKindView::NotFound,
                Err(VarErrorView::NotUnicode(o)) => r.0 matches Err(k) && k@ == (
                IssueKindView::InvalidValue {
                    value: shown_value(RawInputView::OsString(o), self@.secret),
                    msg: "not valid unicode"@,
                }),
                Ok(text) => exists|s: String, pr: Result<T, InvalidValueError>|
                    s@ == text && #[trigger] parser.ensures((s,), pr) && match pr {
                        Ok(v) => r.0 == Ok::<T, ParseIssueKind>(v),
                        Err(e) => r.0 matches Err(k) && k@ == (IssueKindView::InvalidValue {
                            value: shown_value(e.value@, self@.secret),
                            msg: e.msg@,
                        }),
                    },
            },
    {
        let secret = self.secret;
        match self.input {
            Ok(val) => {
                let pr = parser(val);
                match pr {
                    Ok(v) => FromEnvResult(Ok(v)),
                    Err(err) => FromEnvResult(
                        Err(
                            ParseIssueKind::InvalidValue {
                                value: Self::safe_value_str(err.value, secret),
                                msg: err.msg,
                            },
                        ),
                    ),
                }
            },
            Err(VarError::NotUnicode(val)) => FromEnvResult(
                Err(
                    ParseIssueKind::InvalidValue {
                        value: Self::safe_value_str(RawInput::OsString(val), secret),
                        msg: String::from_str("not valid unicode"),
                    },
                ),
            ),
            Err(VarError::NotPresent) => FromEnvResult(Err(ParseIssueKind::NotFound)),
        }
    }

    /// Parses the raw value, unicode or not, with `parser`.
    pub fn parse_from_raw<P, T>(self, parser: P) -> (r: FromEnvResult<T>) where
        P: Fn(RawInput) -> Result<T, InvalidValueError>,

        requires
            forall|raw: RawInput| parser.requires((raw,)),
        ensures
            match self@.input {
                Err(VarErrorView::NotPresent) => r.0 matches Err(k) && k@ == IssueKindView::NotFound,
                _ => exists|raw: RawInput, pr: Result<T, InvalidValueError>|
                    raw@ == raw_of(self@.input) && #[trigger] parser.ensures((raw,), pr) && match pr {
                        Ok(v) => r.0 == Ok::<T, ParseIssueKind>(v),
                        Err(e) => r.0 matches Err(k) && k@ == (IssueKindView::InvalidValue {
                            value: shown_value(e.value@, self@.secret),
                            msg: e.msg@,
                        }),
                    },
            },
    {
        let secret = self.secret;
        let input = match self.input {
            Ok(val) => RawInput::String(val),
            Err(VarError::NotUnicode(val)) => RawInput::OsString(val),
            Err(VarError::NotPresent) => {
                return FromEnvResult(Err(ParseIssueKind::NotFound));
            },
        };
        match parser(input) {
            Ok(v) => FromEnvResult(Ok(v)),
            Err(err) => FromEnvResult(
                Err(
                    ParseIssueKind::InvalidValue {
                        value: Self::safe_value_str(err.value, secret),
                        msg: err.msg,
                    },
                ),
            ),
        }
    }

    fn safe_value_str(value: RawInput, secret: bool) -> (r: String)
        ensures
            r@ == shown_value(value@, secret),
    {
        if secret {
            return String::from_str("<REDACTED>");
        }
        match value {
            RawInput::String(val) => val,
            RawInput::OsString(val) => val.debug,
        }
    }
}

/// A value that can be parsed from the environment.
pub trait FromEnv: EnvDisplay + View + Sized {
    /// What parsing gives, from what reading the variable gave.
    spec fn spec_from_env(input: EnvInput) -> Result<Self::V, IssueKindView>;

    fn parse(ctx: FromEnvCtx) -> (r: FromEnvResult<Self>)
        ensures
            outcome(r.0) == Self::spec_from_env(ctx@),
    ;
}

/// The boolean that a text names, or why it names none.
pub open spec fn spec_parse_bool(s: Seq<char>) -> Result<bool, Seq<char>> {
    if s == "true"@ || s == "TRUE"@ || s == "yes"@ || s == "YES"@ || s == "1"@ {
        Ok(true)
    } else if s == "false"@ || s == "FALSE"@ || s == "no"@ || s == "NO"@ || s == "0"@ {
        Ok(false)
    } else {
        Err("not a valid boolean"@)
    }
}

fn str_is(a: &String, b: &str) -> (r: bool)
    ensures
        r == (a@ == b@),
{
    *a == String::from_str(b)
}

fn bool_from_text(val: String) -> (r: Result<bool, InvalidValueError>)
    ensures
        match spec_parse_bool(val@) {
            Ok(b) => r == Ok::<bool, InvalidValueError>(b),
            Err(m) => r matches Err(e) && e.value@ == RawInputView::String(val@) && e.msg@ == m,
        },
{
    if str_is(&val, "true") || str_is(&val, "TRUE") || str_is(&val, "yes") || str_is(&val, "YES")
        || str_is(&val, "1") {
        Ok(true)
    } else if str_is(&val, "false") || str_is(&val, "FALSE") || str_is(&val, "no") || str_is(
        &val,
        "NO",
    ) || str_is(&val, "0") {
        Ok(false)
    } else {
        Err(InvalidValueError::new(RawInput::String(val), "not a valid boolean"))
    }
}

impl FromEnv for bool {
    open spec fn spec_from_env(input: EnvInput) -> Result<bool, IssueKindView> {
        str_outcome(input, |s: Seq<char>| spec_parse_bool(s))
    }

    fn parse(ctx: FromEnvCtx) -> (r: FromEnvResult<bool>) {
        let parser = |val: String| -> (r: Result<bool, InvalidValueError>)
            ensures
                match spec_parse_bool(val@) {
                    Ok(b) => r == Ok::<bool, InvalidValueError>(b),
                    Err(m) => r matches Err(e) && e.value@ == RawInputView::String(val@)
                        && e.msg@ == m,
                },
        {
            bool_from_text(val)
        };
        ctx.parse_from_str(parser)
    }
}

impl FromEnv for String {
    open spec fn spec_from_env(input: EnvInput) -> Result<Seq<char>, IssueKindView> {
        str_outcome(input, |s: Seq<char>| Ok::<Seq<char>, Seq<char>>(s))
    }

    fn parse(ctx: FromEnvCtx) -> (r: FromEnvResult<String>) {
        let parser = |val: String| -> (r: Result<String, InvalidValueError>)
            ensures
                r matches Ok(v) && v@ == val@,
        {
            Ok(val)
        };
        ctx.parse_from_str(parser)
    }
}

} // verus!

verus! {

/// The position of the first of `values` that is `s`, if any.
pub open spec fn index_of_first(values: Seq<Seq<char>>, s: Seq<char>) -> Option<int>
    decreases values.len(),
{
    if values.len() == 0 {
        None
    } else {
        match index_of_first(values.drop_last(), s) {
            Some(j) => Some(j),
            None => if values.last() == s {
                Some(values.len() - 1)
            } else {
                None
            },
        }
    }
}

/// The texts of a list of string slices.
pub open spec fn texts(values: Seq<&str>) -> Seq<Seq<char>> {
    values.map_values(|v: &str| v@)
}

/// The variant of an enum named `enum_name` that a text selects: the
/// position of its value among `values`, or why it selects none.
pub open spec fn spec_discriminant(values: Seq<Seq<char>>, enum_name: Seq<char>, s: Seq<char>) -> Result<
    int,
    Seq<char>,
> {
    match index_of_first(values, s) {
        Some(j) => Ok(j),
        None => Err("not a valid discriminant for "@ + enum_name),
    }
}

/// What parsing a variable as a discriminant gives.
pub open spec fn discriminant_outcome(
    input: EnvInput,
    values: Seq<Seq<char>>,
    enum_name: Seq<char>,
) -> Result<int, IssueKindView> {
    str_outcome(input, |s: Seq<char>| spec_discriminant(values, enum_name, s))
}

fn find_value(values: &[&str], val: &String) -> (r: Option<usize>)
    ensures
        match r {
            Some(j) => index_of_first(texts(values@), val@) == Some(j as int),
            None => index_of_first(texts(values@), val@) is None,
        },
{
    let n = values.len();
    let mut i: usize = 0;
    while i < n
        invariant
            n == values@.len(),
            i <= n,
            index_of_first(texts(values@).take(i as int), val@) is None,
        decreases n - i,
    {
        let ghost vs = texts(values@);
        assert(vs.take(i + 1).drop_last() =~= vs.take(i as int));
        if String::from_str(values[i]) == *val {
            assert(index_of_first(vs.take(i + 1), val@) == Some(i as int));
            let mut j = i + 1;
            while j < n
                invariant
                    n == values@.len(),
                    i < j <= n,
                    vs == texts(values@),
                    index_of_first(vs.take(j as int), val@) == Some(i as int),
                decreases n - j,
            {
                assert(vs.take(j + 1).drop_last() =~= vs.take(j as int));
                j = j + 1;
            }
            assert(vs.take(n as int) =~= vs);
            return Some(i);
        }
        i = i + 1;
    }
    assert(texts(values@).take(n as int) =~= texts(values@));
    None
}

impl FromEnvCtx {
    /// Parses the value as the discriminant of an enum named `enum_name`:
    /// the position of the value among `values`.
    pub fn parse_discriminant(self, values: &[&str], enum_name: &str) -> (r: Result<usize, ParseIssueKind>)
        ensures
            match r {
                Ok(j) => discriminant_outcome(self@, texts(values@), enum_name@) == Ok::<
                    int,
                    IssueKindView,
                >(j as int),
                Err(k) => discriminant_outcome(self@, texts(values@), enum_name@) == Err::<
                    int,
                    IssueKindView,
                >(k@),
            },
    {
        let parser = |val: String| -> (r: Result<usize, InvalidValueError>)
            ensures
                match spec_discriminant(texts(values@), enum_name@, val@) {
                    Ok(j) => r matches Ok(i) && i as int == j,
                    Err(m) => r matches Err(e) && e.value@ == RawInputView::String(val@) && e.msg@
                        == m,
                },
        {
            match find_value(values, &val) {
                Some(j) => Ok(j),
                None => {
                    let mut msg = String::from_str("not a valid discriminant for ");
                    msg.append(enum_name);
                    Err(InvalidValueError { value: RawInput::String(val), msg })
                },
            }
        };
        self.parse_from_str(parser).0
    }
}

} // verus!

verus! {

/// The `Debug` rendering of a text taken as a path, as `<Path as Debug>::fmt`
/// writes it.
pub uninterp spec fn spec_debug_text(s: Seq<char>) -> Seq<char>;

/// Calls `<Path as Debug>::fmt` on the text taken as a path, whose result is
/// named, not stated: the text in double quotes, with its special characters
/// escaped as an operating-system string escapes them.
#[verifier::external_body]
fn debug_text(s: &str) -> (r: String)
    ensures
        r@ == spec_debug_text(s@),
{
    format!("{:?}", std::path::Path::new(s))
}

/// A raw value is shown as operating-system strings and paths are: by its
/// `Debug` rendering.
impl EnvDisplay for RawInput {
    open spec fn spec_text(&self) -> Seq<char> {
        match self {
            RawInput::String(s) => spec_debug_text(s@),
            RawInput::OsString(o) => o.debug@,
        }
    }

    fn display(&self) -> (s: String) {
        match self {
            RawInput::String(s) => debug_text(s.as_str()),
            RawInput::OsString(o) => o.debug.clone(),
        }
    }
}

/// The raw value of a variable, unicode or not: what operating-system
/// strings and paths are loaded from.
impl FromEnv for RawInput {
    open spec fn spec_from_env(input: EnvInput) -> Result<RawInputView, IssueKindView> {
        match input.input {
            Err(VarErrorView::NotPresent) => Err(IssueKindView::NotFound),
            _ => Ok(raw_of(input.input)),
        }
    }

    fn parse(ctx: FromEnvCtx) -> (r: FromEnvResult<RawInput>) {
        let parser = |raw: RawInput| -> (r: Result<RawInput, InvalidValueError>)
            ensures
                r matches Ok(v) && v@ == raw@,
        {
            Ok(raw)
        };
        ctx.parse_from_raw(parser)
    }
}

} // verus!
