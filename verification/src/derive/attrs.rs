use super::{error_at, text_eq, result_view, ErrorView, MacroError, Syntax};
use vstd::prelude::*;
use vstd::string::*;

verus! {

/// A `default = <expr>` argument.
pub struct DefaultAttr<S: Syntax> {
    pub span: S::Span,
    pub expr: S::Expr,
}

/// A `validator = <expr>` argument.
pub struct ValidatorAttr<S: Syntax> {
    pub span: S::Span,
    pub expr: S::Expr,
}

/// A `required_if("KEY")` argument.
pub struct RequiredIfAttr<S: Syntax> {
    pub span: S::Span,
    pub key: S::LitStr,
}

/// The `env` arguments of a field.
pub struct Attrs<S: Syntax> {
    pub nested: bool,
    pub default: Option<DefaultAttr<S>>,
    pub validator: Option<ValidatorAttr<S>>,
    pub required_if: Option<RequiredIfAttr<S>>,
}

} // verus!

verus! {

/// A field argument, once its value has been read.
pub enum FieldArg<S: Syntax> {
    Nested,
    Default(DefaultAttr<S>),
    Validator(ValidatorAttr<S>),
    RequiredIf(RequiredIfAttr<S>),
}

/// The name of a field argument, which says how its value is written:
/// `nested` stands alone, `default` and `validator` take `= <expr>`, and
/// `required_if` takes a parenthesized string.
#[derive(PartialEq, Eq, Structural)]
pub enum FieldArgName {
    Nested,
    Default,
    Validator,
    RequiredIf,
}

/// The argument that `name` names, if any.
pub open spec fn spec_field_arg_name(name: Seq<char>) -> Option<FieldArgName> {
    if name == "nested"@ {
        Some(FieldArgName::Nested)
    } else if name == "default"@ {
        Some(FieldArgName::Default)
    } else if name == "validator"@ {
        Some(FieldArgName::Validator)
    } else if name == "required_if"@ {
        Some(FieldArgName::RequiredIf)
    } else {
        None
    }
}

/// The first conflict between the arguments `a` already holds and those of
/// `b`, if any: the position of the repeated argument, and the message.
pub open spec fn merge_conflict<S: Syntax>(a: Attrs<S>, b: Attrs<S>) -> Option<ErrorView<S>> {
    if a.default is Some && b.default is Some {
        Some(error_at(b.default.unwrap().span, "duplicate `default` attribute"@))
    } else if a.validator is Some && b.validator is Some {
        Some(error_at(b.validator.unwrap().span, "duplicate `validator` attribute"@))
    } else if a.required_if is Some && b.required_if is Some {
        Some(error_at(b.required_if.unwrap().span, "duplicate `required_if` attribute"@))
    } else {
        None
    }
}

/// The arguments of `a` and `b` together.
pub open spec fn merged<S: Syntax>(a: Attrs<S>, b: Attrs<S>) -> Attrs<S> {
    Attrs {
        nested: a.nested || b.nested,
        default: if b.default is Some {
            b.default
        } else {
            a.default
        },
        validator: if b.validator is Some {
            b.validator
        } else {
            a.validator
        },
        required_if: if b.required_if is Some {
            b.required_if
        } else {
            a.required_if
        },
    }
}

/// The arguments of all the `env` attributes of a field, read in order:
/// the first attribute that could not be read, or the first argument given
/// twice, is the error.
pub open spec fn fold_attrs<S: Syntax>(acc: Attrs<S>, s: Seq<Result<Attrs<S>, ErrorView<S>>>) -> Result<
    Attrs<S>,
    ErrorView<S>,
>
    decreases s.len(),
{
    if s.len() == 0 {
        Ok(acc)
    } else {
        match s[0] {
            Err(e) => Err(e),
            Ok(a) => match merge_conflict(acc, a) {
                Some(e) => Err(e),
                None => fold_attrs(merged(acc, a), s.drop_first()),
            },
        }
    }
}

/// The arguments of no attribute.
pub open spec fn empty_attrs<S: Syntax>() -> Attrs<S> {
    Attrs { nested: false, default: None, validator: None, required_if: None }
}

impl<S: Syntax> Attrs<S> {
    pub fn empty() -> (r: Self)
        ensures
            r == empty_attrs::<S>(),
    {
        Attrs { nested: false, default: None, validator: None, required_if: None }
    }

    /// Which argument `name` names; an unrecognized one is an error at `span`.
    pub fn arg_name(name: &str, span: S::Span) -> (r: Result<FieldArgName, MacroError<S>>)
        ensures
            match spec_field_arg_name(name@) {
                Some(n) => r == Ok::<FieldArgName, MacroError<S>>(n),
                None => r matches Err(e) && e@ == error_at::<S>(span, "unrecognized argument"@),
            },
    {
        if text_eq(name, "nested") {
            Ok(FieldArgName::Nested)
        } else if text_eq(name, "default") {
            Ok(FieldArgName::Default)
        } else if text_eq(name, "validator") {
            Ok(FieldArgName::Validator)
        } else if text_eq(name, "required_if") {
            Ok(FieldArgName::RequiredIf)
        } else {
            Err(MacroError { span, message: String::from_str("unrecognized argument") })
        }
    }

    /// Adds an argument read from an attribute; an argument given twice is an error.
    pub fn add_arg(&mut self, arg: FieldArg<S>) -> (r: Result<(), MacroError<S>>)
        ensures
            match arg {
                FieldArg::Nested => r is Ok && *final(self) == Attrs { nested: true, ..*old(self) },
                FieldArg::Default(d) => result_view(r) == (match merge_conflict(
                    *old(self),
                    Attrs { default: Some(d), ..empty_attrs::<S>() },
                ) {
                    Some(e) => Err(e),
                    None => Ok(()),
                }) && (r is Ok ==> *final(self) == Attrs { default: Some(d), ..*old(self) }),
                FieldArg::Validator(v) => result_view(r) == (match merge_conflict(
                    *old(self),
                    Attrs { validator: Some(v), ..empty_attrs::<S>() },
                ) {
                    Some(e) => Err(e),
                    None => Ok(()),
                }) && (r is Ok ==> *final(self) == Attrs { validator: Some(v), ..*old(self) }),
                FieldArg::RequiredIf(q) => result_view(r) == (match merge_conflict(
                    *old(self),
                    Attrs { required_if: Some(q), ..empty_attrs::<S>() },
                ) {
                    Some(e) => Err(e),
                    None => Ok(()),
                }) && (r is Ok ==> *final(self) == Attrs { required_if: Some(q), ..*old(self) }),
            },
    {
        match arg {
            FieldArg::Nested => {
                self.nested = true;
                Ok(())
            },
            FieldArg::Default(d) => self.merge_default(d),
            FieldArg::Validator(v) => self.merge_validator(v),
            FieldArg::RequiredIf(q) => self.merge_required_if(q),
        }
    }

    fn merge_default(&mut self, val: DefaultAttr<S>) -> (r: Result<(), MacroError<S>>)
        ensures
            match r {
                Ok(_) => old(self).default is None && *final(self) == Attrs {
                    default: Some(val),
                    ..*old(self)
                },
                Err(e) => old(self).default is Some && e@ == error_at::<S>(
                    val.span,
                    "duplicate `default` attribute"@,
                ) && *final(self) == *old(self),
            },
    {
        if self.default.is_some() {
            return Err(
                MacroError { span: val.span, message: String::from_str("duplicate `default` attribute") },
            );
        }
        self.default = Some(val);
        Ok(())
    }

    fn merge_validator(&mut self, val: ValidatorAttr<S>) -> (r: Result<(), MacroError<S>>)
        ensures
            match r {
                Ok(_) => old(self).validator is None && *final(self) == Attrs {
                    validator: Some(val),
                    ..*old(self)
                },
                Err(e) => old(self).validator is Some && e@ == error_at::<S>(
                    val.span,
                    "duplicate `validator` attribute"@,
                ) && *final(self) == *old(self),
            },
    {
        if self.validator.is_some() {
            return Err(
                MacroError {
                    span: val.span,
                    message: String::from_str("duplicate `validator` attribute"),
                },
            );
        }
        self.validator = Some(val);
        Ok(())
    }

    fn merge_required_if(&mut self, val: RequiredIfAttr<S>) -> (r: Result<(), MacroError<S>>)
        ensures
            match r {
                Ok(_) => old(self).required_if is None && *final(self) == Attrs {
                    required_if: Some(val),
                    ..*old(self)
                },
                Err(e) => old(self).required_if is Some && e@ == error_at::<S>(
                    val.span,
                    "duplicate `required_if` attribute"@,
                ) && *final(self) == *old(self),
            },
    {
        if self.required_if.is_some() {
            return Err(
                MacroError {
                    span: val.span,
                    message: String::from_str("duplicate `required_if` attribute"),
                },
            );
        }
        self.required_if = Some(val);
        Ok(())
    }

    /// Merges the arguments of another attribute into these.
    pub fn merge_all(self, other: Self) -> (r: Result<Self, MacroError<S>>)
        ensures
            result_view(r) == (match merge_conflict(self, other) {
                Some(e) => Err(e),
                None => Ok(merged(self, other)),
            }),
    {
        let mut this = self;
        let Attrs { nested, default, validator, required_if } = other;
        this.nested = this.nested || nested;
        if let Some(val) = default {
            this.merge_default(val)?;
        }
        if let Some(val) = validator {
            this.merge_validator(val)?;
        }
        if let Some(val) = required_if {
            this.merge_required_if(val)?;
        }
        Ok(this)
    }

    /// The arguments of all the `env` attributes of a field, each as it was
    /// read from its attribute, merged in order.
    pub fn parse_all(parsed: Vec<Result<Self, MacroError<S>>>) -> (r: Result<Self, MacroError<S>>)
        ensures
            result_view(r) == fold_attrs(
                empty_attrs::<S>(),
                parsed@.map_values(|p: Result<Self, MacroError<S>>| result_view(p)),
            ),
    {
        let ghost all = parsed@.map_values(|p: Result<Self, MacroError<S>>| result_view(p));
        let mut rest = parsed;
        let mut acc = Self::empty();
        while rest.len() > 0
            invariant
                all == parsed@.map_values(|p: Result<Self, MacroError<S>>| result_view(p)),
                fold_attrs(empty_attrs::<S>(), all) == fold_attrs(
                    acc,
                    rest@.map_values(|p: Result<Self, MacroError<S>>| result_view(p)),
                ),
            decreases rest.len(),
        {
            let ghost before = rest@.map_values(|p: Result<Self, MacroError<S>>| result_view(p));
            let first = rest.remove(0);
            assert(before.drop_first() =~= rest@.map_values(
                |p: Result<Self, MacroError<S>>| result_view(p),
            ));
            assert(before[0] == result_view(first));
            assert(before.len() > 0);
            match first {
                Err(e) => {
                    return Err(e);
                },
                Ok(a) => {
                    acc = acc.merge_all(a)?;
                },
            }
        }
        Ok(acc)
    }
}

/// Merging two attributes of a field that do not conflict keeps every
/// argument that either of them gave, and makes up none.
pub proof fn law_merge_keeps_arguments<S: Syntax>(a: Attrs<S>, b: Attrs<S>)
    requires
        merge_conflict(a, b) is None,
    ensures
        merged(a, b).nested == (a.nested || b.nested),
        a.default is Some ==> merged(a, b).default == a.default,
        b.default is Some ==> merged(a, b).default == b.default,
        a.default is None && b.default is None ==> merged(a, b).default is None,
        a.validator is Some ==> merged(a, b).validator == a.validator,
        b.validator is Some ==> merged(a, b).validator == b.validator,
        a.validator is None && b.validator is None ==> merged(a, b).validator is None,
        a.required_if is Some ==> merged(a, b).required_if == a.required_if,
        b.required_if is Some ==> merged(a, b).required_if == b.required_if,
        a.required_if is None && b.required_if is None ==> merged(a, b).required_if is None,
{
}

/// Reading the `env` attributes of a field in order loses no argument: a
/// field marked `nested`, or given a `default`, a `validator` or a
/// `required_if`, in any of its attributes has it in the result, and the
/// result has no argument that no attribute gave.
pub proof fn law_field_attrs_keep_arguments<S: Syntax>(
    acc: Attrs<S>,
    s: Seq<Result<Attrs<S>, ErrorView<S>>>,
)
    requires
        fold_attrs(acc, s) is Ok,
    ensures
        ({
            let r = fold_attrs(acc, s)->Ok_0;
            &&& r.nested == (acc.nested || exists|i: int|
                0 <= i < s.len() && (#[trigger] s[i]) is Ok && s[i]->Ok_0.nested)
            &&& acc.default is Some ==> r.default == acc.default
            &&& forall|i: int|
                0 <= i < s.len() && (#[trigger] s[i]) is Ok && s[i]->Ok_0.default is Some
                    ==> r.default == s[i]->Ok_0.default
            &&& r.default is Some ==> acc.default is Some || exists|i: int|
                0 <= i < s.len() && (#[trigger] s[i]) is Ok && s[i]->Ok_0.default is Some
            &&& acc.validator is Some ==> r.validator == acc.validator
            &&& forall|i: int|
                0 <= i < s.len() && (#[trigger] s[i]) is Ok && s[i]->Ok_0.validator is Some
                    ==> r.validator == s[i]->Ok_0.validator
            &&& r.validator is Some ==> acc.validator is Some || exists|i: int|
                0 <= i < s.len() && (#[trigger] s[i]) is Ok && s[i]->Ok_0.validator is Some
            &&& acc.required_if is Some ==> r.required_if == acc.required_if
            &&& forall|i: int|
                0 <= i < s.len() && (#[trigger] s[i]) is Ok && s[i]->Ok_0.required_if is Some
                    ==> r.required_if == s[i]->Ok_0.required_if
            &&& r.required_if is Some ==> acc.required_if is Some || exists|i: int|
                0 <= i < s.len() && (#[trigger] s[i]) is Ok && s[i]->Ok_0.required_if is Some
        }),
    decreases s.len(),
{
    if s.len() > 0 {
        let r = fold_attrs(acc, s)->Ok_0;
        let a = s[0]->Ok_0;
        let next = merged(acc, a);
        let t = s.drop_first();
        law_field_attrs_keep_arguments(next, t);
        if a.nested {
            assert(s[0] is Ok && s[0]->Ok_0.nested);
        }
        if exists|i: int| 0 <= i < t.len() && (#[trigger] t[i]) is Ok && t[i]->Ok_0.nested {
            let i = choose|i: int| 0 <= i < t.len() && (#[trigger] t[i]) is Ok && t[i]->Ok_0.nested;
            assert(s[i + 1] == t[i]);
        }
        if exists|i: int| 0 <= i < s.len() && (#[trigger] s[i]) is Ok && s[i]->Ok_0.nested {
            let i = choose|i: int| 0 <= i < s.len() && (#[trigger] s[i]) is Ok && s[i]->Ok_0.nested;
            if i > 0 {
                assert(s[i] == t[i - 1]);
            }
        }
        assert forall|i: int|
            0 <= i < s.len() && (#[trigger] s[i]) is Ok && s[i]->Ok_0.default is Some implies r.default
            == s[i]->Ok_0.default by {
            if i > 0 {
                assert(s[i] == t[i - 1]);
            }
        }
        if r.default is Some && acc.default is None && a.default is None {
            let i = choose|i: int| 0 <= i < t.len() && (#[trigger] t[i]) is Ok && t[i]->Ok_0.default is Some;
            assert(s[i + 1] == t[i]);
        }
        assert forall|i: int|
            0 <= i < s.len() && (#[trigger] s[i]) is Ok && s[i]->Ok_0.validator is Some implies r.validator
            == s[i]->Ok_0.validator by {
            if i > 0 {
                assert(s[i] == t[i - 1]);
            }
        }
        if r.validator is Some && acc.validator is None && a.validator is None {
            let i = choose|i: int| 0 <= i < t.len() && (#[trigger] t[i]) is Ok && t[i]->Ok_0.validator is Some;
            assert(s[i + 1] == t[i]);
        }
        assert forall|i: int|
            0 <= i < s.len() && (#[trigger] s[i]) is Ok && s[i]->Ok_0.required_if is Some implies r.required_if
            == s[i]->Ok_0.required_if by {
            if i > 0 {
                assert(s[i] == t[i - 1]);
            }
        }
        if r.required_if is Some && acc.required_if is None && a.required_if is None {
            let i = choose|i: int| 0 <= i < t.len() && (#[trigger] t[i]) is Ok && t[i]->Ok_0.required_if is Some;
            assert(s[i + 1] == t[i]);
        }
    }
}

} // verus!
