use super::attrs::{fold_attrs, law_field_attrs_keep_arguments, Attrs, empty_attrs};
use super::{error_at, result_view, ErrorView, MacroError, Syntax};
use vstd::prelude::*;
use vstd::string::*;

verus! {

/// What to do when a key is missing or invalid.
pub enum DneStrategy<S: Syntax> {
    /// The key must exist and be valid.
    Require,
    /// The key is allowed to be missing or invalid.
    Optional,
    /// The key will be replaced with a default value if missing or invalid.
    Default(S::Expr),
}

/// How a field is loaded from one key of the environment.
pub struct KeyValueFieldOptions<S: Syntax> {
    /// What to do when the key is missing or invalid.
    pub dne_strategy: DneStrategy<S>,
    /// What constitutes a valid value beyond being able to parse it: an
    /// expression for a closure of the form `fn(&T) -> Result<(), E>`.
    pub validator: Option<S::Expr>,
}

/// The condition under which a nested structure is loaded.
pub struct Condition<S: Syntax> {
    /// The condition key.
    pub key: S::LitStr,
}

/// How a field is loaded as a nested structure.
pub struct NestedFieldOptions<S: Syntax> {
    /// The condition to be met for the nested object to be parsed.
    ///
    /// If set, the field must be optional; otherwise, it must be required.
    pub condition: Option<Condition<S>>,
}

/// How a field gets its data.
pub enum FieldOptions<S: Syntax> {
    /// How to load a key from the environment.
    KeyValue(KeyValueFieldOptions<S>),
    /// How to load a nested environment structure.
    Nested(NestedFieldOptions<S>),
}

/// The call on the parse context that loads a field.
pub enum ParseCall<'s, S: Syntax> {
    Parse { key: String, optional: bool },
    ParseValidated { key: String, validator: &'s S::Expr, optional: bool },
    ParseWithDefault { key: String, default: &'s S::Expr },
    ParseValidatedWithDefault { key: String, validator: &'s S::Expr, default: &'s S::Expr },
    ParseNested,
    ParseNestedIf { key: &'s S::LitStr },
}

/// What a [`ParseCall`] says.
pub enum CallView<S: Syntax> {
    Parse { key: Seq<char>, optional: bool },
    ParseValidated { key: Seq<char>, validator: S::Expr, optional: bool },
    ParseWithDefault { key: Seq<char>, default: S::Expr },
    ParseValidatedWithDefault { key: Seq<char>, validator: S::Expr, default: S::Expr },
    ParseNested,
    ParseNestedIf { key: S::LitStr },
}

impl<'s, S: Syntax> View for ParseCall<'s, S> {
    type V = CallView<S>;

    open spec fn view(&self) -> CallView<S> {
        match self {
            ParseCall::Parse { key, optional } => CallView::Parse { key: key@, optional: *optional },
            ParseCall::ParseValidated { key, validator, optional } => CallView::ParseValidated {
                key: key@,
                validator: **validator,
                optional: *optional,
            },
            ParseCall::ParseWithDefault { key, default } => CallView::ParseWithDefault {
                key: key@,
                default: **default,
            },
            ParseCall::ParseValidatedWithDefault { key, validator, default } =>
                CallView::ParseValidatedWithDefault {
                key: key@,
                validator: **validator,
                default: **default,
            },
            ParseCall::ParseNested => CallView::ParseNested,
            ParseCall::ParseNestedIf { key } => CallView::ParseNestedIf { key: **key },
        }
    }
}

impl<S: Syntax> CallView<S> {
    /// The call gives an `Option` of the value: every call but those with a default.
    pub open spec fn yields_option(self) -> bool {
        !(self is ParseWithDefault || self is ParseValidatedWithDefault)
    }

    /// The key the call reads, for a call that reads one key.
    pub open spec fn read_key(self) -> Option<Seq<char>> {
        match self {
            CallView::Parse { key, .. } => Some(key),
            CallView::ParseValidated { key, .. } => Some(key),
            CallView::ParseWithDefault { key, .. } => Some(key),
            CallView::ParseValidatedWithDefault { key, .. } => Some(key),
            _ => None,
        }
    }

    /// The validator the call passes, if any.
    pub open spec fn passed_validator(self) -> Option<S::Expr> {
        match self {
            CallView::ParseValidated { validator, .. } => Some(validator),
            CallView::ParseValidatedWithDefault { validator, .. } => Some(validator),
            _ => None,
        }
    }

    /// The default the call passes, if any.
    pub open spec fn passed_default(self) -> Option<S::Expr> {
        match self {
            CallView::ParseWithDefault { default, .. } => Some(default),
            CallView::ParseValidatedWithDefault { default, .. } => Some(default),
            _ => None,
        }
    }

    /// The call lets the key be missing or invalid without an error.
    pub open spec fn passes_optional(self) -> bool {
        match self {
            CallView::Parse { optional, .. } => optional,
            CallView::ParseValidated { optional, .. } => optional,
            _ => false,
        }
    }
}

/// The uppercase of a text, as `str::to_uppercase` computes it.
pub uninterp spec fn spec_to_uppercase(s: Seq<char>) -> Seq<char>;

/// Calls `str::to_uppercase`, whose result is named, not stated: the
/// uppercase of each character by the Unicode property `Uppercase`.
#[verifier::external_body]
fn to_uppercase(s: &str) -> (r: String)
    ensures
        r@ == spec_to_uppercase(s@),
{
    s.to_uppercase()
}

/// The options of a key-value field with arguments `attrs`.
pub open spec fn spec_key_value_options<S: Syntax>(attrs: Attrs<S>, is_optional: bool) -> Result<
    KeyValueFieldOptions<S>,
    ErrorView<S>,
> {
    if attrs.required_if is Some {
        Err(
            error_at(
                attrs.required_if.unwrap().span,
                "invalid attribute `required_if` on key value field"@,
            ),
        )
    } else if attrs.default is Some && is_optional {
        Err(error_at(attrs.default.unwrap().span, "default value not allowed with optional values"@))
    } else {
        Ok(
            KeyValueFieldOptions {
                dne_strategy: match attrs.default {
                    Some(d) => DneStrategy::Default(d.expr),
                    None => if is_optional {
                        DneStrategy::Optional
                    } else {
                        DneStrategy::Require
                    },
                },
                validator: match attrs.validator {
                    Some(v) => Some(v.expr),
                    None => None,
                },
            },
        )
    }
}

/// The call that loads a key-value field named `name`.
pub open spec fn spec_key_value_call<S: Syntax>(o: KeyValueFieldOptions<S>, name: Seq<char>) -> CallView<S> {
    let key = spec_to_uppercase(name);
    match o.dne_strategy {
        DneStrategy::Require => match o.validator {
            Some(v) => CallView::ParseValidated { key, validator: v, optional: false },
            None => CallView::Parse { key, optional: false },
        },
        DneStrategy::Optional => match o.validator {
            Some(v) => CallView::ParseValidated { key, validator: v, optional: true },
            None => CallView::Parse { key, optional: true },
        },
        DneStrategy::Default(d) => match o.validator {
            Some(v) => CallView::ParseValidatedWithDefault { key, validator: v, default: d },
            None => CallView::ParseWithDefault { key, default: d },
        },
    }
}

impl<S: Syntax> KeyValueFieldOptions<S> {
    pub fn from_attrs(attrs: Attrs<S>, is_optional: bool) -> (r: Result<Self, MacroError<S>>)
        ensures
            result_view(r) == spec_key_value_options(attrs, is_optional),
    {
        Self::assert_only_kv_attrs(&attrs)?;
        let Attrs { nested: _, default, validator, required_if: _ } = attrs;
        let dne_strategy = match default {
            Some(attr) => {
                if is_optional {
                    return Err(
                        MacroError {
                            span: attr.span,
                            message: String::from_str(
                                "default value not allowed with optional values",
                            ),
                        },
                    );
                }
                DneStrategy::Default(attr.expr)
            },
            None => if is_optional {
                DneStrategy::Optional
            } else {
                DneStrategy::Require
            },
        };
        let validator = match validator {
            Some(v) => Some(v.expr),
            None => None,
        };
        Ok(KeyValueFieldOptions { dne_strategy, validator })
    }

    fn assert_only_kv_attrs(attrs: &Attrs<S>) -> (r: Result<(), MacroError<S>>)
        ensures
            match attrs.required_if {
                Some(q) => r matches Err(e) && e@ == error_at::<S>(
                    q.span,
                    "invalid attribute `required_if` on key value field"@,
                ),
                None => r is Ok,
            },
    {
        if let Some(attr) = &attrs.required_if {
            return Err(
                MacroError {
                    span: attr.span,
                    message: String::from_str("invalid attribute `required_if` on key value field"),
                },
            );
        }
        Ok(())
    }

    /// The call that loads the field named `field_name`, whose key is the
    /// name in uppercase.
    pub fn get_parse_call(&self, field_name: &str) -> (r: ParseCall<'_, S>)
        ensures
            r@ == spec_key_value_call(*self, field_name@),
    {
        let key = to_uppercase(field_name);
        match &self.dne_strategy {
            DneStrategy::Require => self.non_default_parse_call(key, false),
            DneStrategy::Optional => self.non_default_parse_call(key, true),
            DneStrategy::Default(default) => match &self.validator {
                Some(validator) => ParseCall::ParseValidatedWithDefault { key, validator, default },
                None => ParseCall::ParseWithDefault { key, default },
            },
        }
    }

    fn non_default_parse_call(&self, key: String, optional: bool) -> (r: ParseCall<'_, S>)
        ensures
            r@ == match self.validator {
                Some(v) => CallView::ParseValidated { key: key@, validator: v, optional },
                None => CallView::<S>::Parse { key: key@, optional },
            },
    {
        match &self.validator {
            Some(validator) => ParseCall::ParseValidated { key, validator, optional },
            None => ParseCall::Parse { key, optional },
        }
    }

    pub open spec fn spec_needs_unwrap(&self) -> bool {
        self.dne_strategy is Require
    }

    pub open spec fn spec_is_optional(&self) -> bool {
        self.dne_strategy is Optional
    }

    /// The loaded value must be unwrapped: the key is required.
    pub fn needs_unwrap(&self) -> (r: bool)
        ensures
            r == self.spec_needs_unwrap(),
    {
        match self.dne_strategy {
            DneStrategy::Require => true,
            _ => false,
        }
    }

    /// The loaded value is optional.
    pub fn is_optional(&self) -> (r: bool)
        ensures
            r == self.spec_is_optional(),
    {
        match self.dne_strategy {
            DneStrategy::Optional => true,
            _ => false,
        }
    }
}

/// The options of a nested field with arguments `attrs`, whose name is at `span`.
pub open spec fn spec_nested_options<S: Syntax>(attrs: Attrs<S>, span: S::Span, is_optional: bool) -> Result<
    NestedFieldOptions<S>,
    ErrorView<S>,
> {
    if attrs.default is Some {
        Err(error_at(attrs.default.unwrap().span, "invalid attribute `default` on nested field"@))
    } else if attrs.validator is Some {
        Err(error_at(attrs.validator.unwrap().span, "invalid attribute `validator` on nested field"@))
    } else {
        match attrs.required_if {
            None => if is_optional {
                Err(error_at(span, "attribute `required_if` is required for optional nested fields"@))
            } else {
                Ok(NestedFieldOptions { condition: None })
            },
            Some(q) => if !is_optional {
                Err(
                    error_at(
                        q.span,
                        "attribute `required_if` can only be applied to optional nested fields"@,
                    ),
                )
            } else {
                Ok(NestedFieldOptions { condition: Some(Condition { key: q.key }) })
            },
        }
    }
}

/// The call that loads a nested field.
pub open spec fn spec_nested_call<S: Syntax>(o: NestedFieldOptions<S>) -> CallView<S> {
    match o.condition {
        Some(c) => CallView::ParseNestedIf { key: c.key },
        None => CallView::ParseNested,
    }
}

impl<S: Syntax> NestedFieldOptions<S> {
    pub fn from_attrs(attrs: Attrs<S>, span: S::Span, is_optional: bool) -> (r: Result<
        Self,
        MacroError<S>,
    >)
        ensures
            result_view(r) == spec_nested_options(attrs, span, is_optional),
    {
        Self::assert_only_nested_attrs(&attrs)?;
        let condition = match attrs.required_if {
            None => {
                if is_optional {
                    return Err(
                        MacroError {
                            span,
                            message: String::from_str(
                                "attribute `required_if` is required for optional nested fields",
                            ),
                        },
                    );
                }
                None
            },
            Some(attr) => {
                if !is_optional {
                    return Err(
                        MacroError {
                            span: attr.span,
                            message: String::from_str(
                                "attribute `required_if` can only be applied to optional nested fields",
                            ),
                        },
                    );
                }
                Some(Condition { key: attr.key })
            },
        };
        Ok(NestedFieldOptions { condition })
    }

    fn assert_only_nested_attrs(attrs: &Attrs<S>) -> (r: Result<(), MacroError<S>>)
        ensures
            if attrs.default is Some {
                r matches Err(e) && e@ == error_at::<S>(
                    attrs.default.unwrap().span,
                    "invalid attribute `default` on nested field"@,
                )
            } else if attrs.validator is Some {
                r matches Err(e) && e@ == error_at::<S>(
                    attrs.validator.unwrap().span,
                    "invalid attribute `validator` on nested field"@,
                )
            } else {
                r is Ok
            },
    {
        if let Some(attr) = &attrs.default {
            return Err(
                MacroError {
                    span: attr.span,
                    message: String::from_str("invalid attribute `default` on nested field"),
                },
            );
        }
        if let Some(attr) = &attrs.validator {
            return Err(
                MacroError {
                    span: attr.span,
                    message: String::from_str("invalid attribute `validator` on nested field"),
                },
            );
        }
        Ok(())
    }

    /// The call that loads the field.
    pub fn get_parse_call(&self) -> (r: ParseCall<'_, S>)
        ensures
            r@ == spec_nested_call(*self),
    {
        match &self.condition {
            Some(cond) => ParseCall::ParseNestedIf { key: &cond.key },
            None => ParseCall::ParseNested,
        }
    }

    pub open spec fn spec_needs_unwrap(&self) -> bool {
        self.condition is None
    }

    pub open spec fn spec_is_optional(&self) -> bool {
        self.condition is Some
    }

    /// The loaded value must be unwrapped: the structure is required.
    pub fn needs_unwrap(&self) -> (r: bool)
        ensures
            r == self.spec_needs_unwrap(),
    {
        self.condition.is_none()
    }

    /// The loaded value is optional.
    pub fn is_optional(&self) -> (r: bool)
        ensures
            r == self.spec_is_optional(),
    {
        self.condition.is_some()
    }
}

/// The options of a field whose `env` attributes were read as `parsed`.
pub open spec fn spec_field_options<S: Syntax>(
    parsed: Seq<Result<Attrs<S>, ErrorView<S>>>,
    span: S::Span,
    is_optional: bool,
) -> Result<FieldOptions<S>, ErrorView<S>> {
    match fold_attrs(empty_attrs::<S>(), parsed) {
        Err(e) => Err(e),
        Ok(attrs) => if attrs.nested {
            match spec_nested_options(attrs, span, is_optional) {
                Ok(o) => Ok(FieldOptions::Nested(o)),
                Err(e) => Err(e),
            }
        } else {
            match spec_key_value_options(attrs, is_optional) {
                Ok(o) => Ok(FieldOptions::KeyValue(o)),
                Err(e) => Err(e),
            }
        },
    }
}

/// The views of attributes as they were read.
pub open spec fn parsed_view<S: Syntax>(v: Seq<Result<Attrs<S>, MacroError<S>>>) -> Seq<
    Result<Attrs<S>, ErrorView<S>>,
> {
    v.map_values(|p: Result<Attrs<S>, MacroError<S>>| result_view(p))
}

impl<S: Syntax> FieldOptions<S> {
    /// The options of a field from its `env` attributes, each as it was
    /// read; `span` is where the field's name stands.
    pub fn parse(field_attrs: Vec<Result<Attrs<S>, MacroError<S>>>, span: S::Span, is_optional: bool) -> (r:
        Result<Self, MacroError<S>>)
        ensures
            result_view(r) == spec_field_options(parsed_view(field_attrs@), span, is_optional),
            r matches Ok(o) ==> o.spec_is_optional() == is_optional && (o.spec_needs_unwrap() <==> (
            !is_optional && o.spec_call().yields_option())) && (is_optional ==> o.spec_call().yields_option()),
    {
        let attrs = Attrs::parse_all(field_attrs)?;
        if attrs.nested {
            Ok(FieldOptions::Nested(NestedFieldOptions::from_attrs(attrs, span, is_optional)?))
        } else {
            Ok(FieldOptions::KeyValue(KeyValueFieldOptions::from_attrs(attrs, is_optional)?))
        }
    }

    /// The call that loads the field, whatever its name.
    pub open spec fn spec_call(&self) -> CallView<S> {
        match self {
            FieldOptions::KeyValue(o) => spec_key_value_call(*o, Seq::empty()),
            FieldOptions::Nested(o) => spec_nested_call(*o),
        }
    }

    /// The call that loads the field named `field_name`.
    pub open spec fn spec_named_call(&self, field_name: Seq<char>) -> CallView<S> {
        match self {
            FieldOptions::KeyValue(o) => spec_key_value_call(*o, field_name),
            FieldOptions::Nested(o) => spec_nested_call(*o),
        }
    }

    pub fn get_parse_call(&self, field_name: &str) -> (r: ParseCall<'_, S>)
        ensures
            r@ == self.spec_named_call(field_name@),
            r@.yields_option() == self.spec_call().yields_option(),
    {
        match self {
            FieldOptions::KeyValue(opts) => opts.get_parse_call(field_name),
            FieldOptions::Nested(opts) => opts.get_parse_call(),
        }
    }

    pub open spec fn spec_needs_unwrap(&self) -> bool {
        match self {
            FieldOptions::KeyValue(o) => o.spec_needs_unwrap(),
            FieldOptions::Nested(o) => o.spec_needs_unwrap(),
        }
    }

    pub open spec fn spec_is_optional(&self) -> bool {
        match self {
            FieldOptions::KeyValue(o) => o.spec_is_optional(),
            FieldOptions::Nested(o) => o.spec_is_optional(),
        }
    }

    pub fn needs_unwrap(&self) -> (r: bool)
        ensures
            r == self.spec_needs_unwrap(),
    {
        match self {
            FieldOptions::KeyValue(opts) => opts.needs_unwrap(),
            FieldOptions::Nested(opts) => opts.needs_unwrap(),
        }
    }

    pub fn is_optional(&self) -> (r: bool)
        ensures
            r == self.spec_is_optional(),
    {
        match self {
            FieldOptions::KeyValue(opts) => opts.is_optional(),
            FieldOptions::Nested(opts) => opts.is_optional(),
        }
    }
}

/// The call that loads a key-value field reads the field's name in
/// uppercase, always passes the field's validator and its default, and lets
/// the key be missing exactly when the field is optional.
pub proof fn law_key_value_call_carries_options<S: Syntax>(o: KeyValueFieldOptions<S>, name: Seq<char>)
    ensures
        spec_key_value_call(o, name).read_key() == Some(spec_to_uppercase(name)),
        spec_key_value_call(o, name).passed_validator() == o.validator,
        spec_key_value_call(o, name).passed_default() == (match o.dne_strategy {
            DneStrategy::Default(d) => Some(d),
            _ => None,
        }),
        spec_key_value_call(o, name).passes_optional() == (o.dne_strategy is Optional),
{
}

/// From the arguments of a key-value field to its call: the validator and
/// the default given in the arguments are the ones the call passes, and
/// the key may be missing exactly when the field's type is an `Option`.
pub proof fn law_key_value_arguments_reach_call<S: Syntax>(
    attrs: Attrs<S>,
    is_optional: bool,
    name: Seq<char>,
)
    requires
        spec_key_value_options(attrs, is_optional) is Ok,
    ensures
        ({
            let c = spec_key_value_call(spec_key_value_options(attrs, is_optional)->Ok_0, name);
            &&& c.passed_validator() == (match attrs.validator {
                Some(v) => Some(v.expr),
                None => None,
            })
            &&& c.passed_default() == (match attrs.default {
                Some(d) => Some(d.expr),
                None => None,
            })
            &&& c.passes_optional() == is_optional
        }),
{
}

/// The arguments of a key-value field are refused exactly when they hold a
/// `required_if`, or a `default` on a field whose type is an `Option`.
pub proof fn law_key_value_refusals<S: Syntax>(attrs: Attrs<S>, is_optional: bool)
    ensures
        (spec_key_value_options(attrs, is_optional) is Err) <==> (attrs.required_if is Some || (
        attrs.default is Some && is_optional)),
{
}

/// The arguments of a nested field are accepted exactly when they hold no
/// `default` and no `validator`, and a `required_if` is given exactly when
/// the field's type is an `Option`; the nested load is then conditional
/// exactly on that key.
pub proof fn law_nested_options_and_call<S: Syntax>(attrs: Attrs<S>, span: S::Span, is_optional: bool)
    ensures
        (spec_nested_options(attrs, span, is_optional) is Ok) <==> (attrs.default is None
            && attrs.validator is None && (attrs.required_if is Some) == is_optional),
        spec_nested_options(attrs, span, is_optional) is Ok ==> spec_nested_call(
            spec_nested_options(attrs, span, is_optional)->Ok_0,
        ) == (match attrs.required_if {
            Some(q) => CallView::<S>::ParseNestedIf { key: q.key },
            None => CallView::<S>::ParseNested,
        }),
{
}

/// A validator given in any `env` attribute of a field is the one its load
/// call passes, whichever attribute gave it.
pub proof fn law_field_validator_reaches_call<S: Syntax>(
    parsed: Seq<Result<Attrs<S>, ErrorView<S>>>,
    span: S::Span,
    is_optional: bool,
    name: Seq<char>,
    i: int,
)
    requires
        spec_field_options(parsed, span, is_optional) is Ok,
        0 <= i < parsed.len(),
        parsed[i] is Ok,
        parsed[i]->Ok_0.validator is Some,
    ensures
        spec_field_options(parsed, span, is_optional)->Ok_0.spec_named_call(name).passed_validator()
            == Some(parsed[i]->Ok_0.validator.unwrap().expr),
{
    law_field_attrs_keep_arguments(empty_attrs::<S>(), parsed);
}

} // verus!
