use super::field::{parse_fields, spec_fields, Field, RawField, TypeInfo};
use super::{error_at, text_eq, result_view, ErrorView, MacroError, Syntax};
use vstd::prelude::*;
use vstd::string::*;

verus! {

/// A `default` argument of a variant: its identifier and where it stands.
pub struct VariantDefault<S: Syntax> {
    pub ident: S::Ident,
    pub span: S::Span,
}

/// A `value = "..."` argument of a variant: the literal, the text it holds,
/// where the argument stands and where its literal stands.
pub struct Value<S: Syntax> {
    pub span: S::Span,
    pub lit_span: S::Span,
    pub value: S::LitStr,
    pub text: String,
}

/// The `env` arguments of a variant.
pub struct Attrs<S: Syntax> {
    /// If `Some`, the variant is marked as default.
    pub default: Option<VariantDefault<S>>,
    pub value: Option<Value<S>>,
}

/// A variant argument, once its value has been read.
pub enum VariantArg<S: Syntax> {
    Default(VariantDefault<S>),
    Value(Value<S>),
}

/// The name of a variant argument: `default` stands alone, `value` takes
/// `= "<text>"`.
#[derive(PartialEq, Eq, Structural)]
pub enum VariantArgName {
    Default,
    Value,
}

pub open spec fn spec_variant_arg_name(name: Seq<char>) -> Option<VariantArgName> {
    if name == "default"@ {
        Some(VariantArgName::Default)
    } else if name == "value"@ {
        Some(VariantArgName::Value)
    } else {
        None
    }
}

/// The first conflict between the arguments of `a` and those of `b`.
pub open spec fn variant_conflict<S: Syntax>(a: Attrs<S>, b: Attrs<S>) -> Option<ErrorView<S>> {
    if a.default is Some && b.default is Some {
        Some(error_at(b.default.unwrap().span, "duplicate `default` attribute"@))
    } else if a.value is Some && b.value is Some {
        Some(error_at(b.value.unwrap().span, "duplicate `value` attribute"@))
    } else {
        None
    }
}

pub open spec fn variant_merged<S: Syntax>(a: Attrs<S>, b: Attrs<S>) -> Attrs<S> {
    Attrs {
        default: if b.default is Some {
            b.default
        } else {
            a.default
        },
        value: if b.value is Some {
            b.value
        } else {
            a.value
        },
    }
}

/// The arguments of all the `env` attributes of a variant, merged in order.
pub open spec fn fold_variant_attrs<S: Syntax>(
    acc: Attrs<S>,
    s: Seq<Result<Attrs<S>, ErrorView<S>>>,
) -> Result<Attrs<S>, ErrorView<S>>
    decreases s.len(),
{
    if s.len() == 0 {
        Ok(acc)
    } else {
        match s[0] {
            Err(e) => Err(e),
            Ok(a) => match variant_conflict(acc, a) {
                Some(e) => Err(e),
                None => fold_variant_attrs(variant_merged(acc, a), s.drop_first()),
            },
        }
    }
}

pub open spec fn empty_variant_attrs<S: Syntax>() -> Attrs<S> {
    Attrs { default: None, value: None }
}

pub open spec fn variant_parsed_view<S: Syntax>(v: Seq<Result<Attrs<S>, MacroError<S>>>) -> Seq<
    Result<Attrs<S>, ErrorView<S>>,
> {
    v.map_values(|p: Result<Attrs<S>, MacroError<S>>| result_view(p))
}

impl<S: Syntax> Attrs<S> {
    pub fn empty() -> (r: Self)
        ensures
            r == empty_variant_attrs::<S>(),
    {
        Attrs { default: None, value: None }
    }

    /// Which argument `name` names; an unrecognized one is an error at `span`.
    pub fn arg_name(name: &str, span: S::Span) -> (r: Result<VariantArgName, MacroError<S>>)
        ensures
            match spec_variant_arg_name(name@) {
                Some(n) => r == Ok::<VariantArgName, MacroError<S>>(n),
                None => r matches Err(e) && e@ == error_at::<S>(span, "unrecognized argument"@),
            },
    {
        if text_eq(name, "default") {
            Ok(VariantArgName::Default)
        } else if text_eq(name, "value") {
            Ok(VariantArgName::Value)
        } else {
            Err(MacroError { span, message: String::from_str("unrecognized argument") })
        }
    }

    /// Adds an argument read from an attribute; an argument given twice is an error.
    pub fn add_arg(&mut self, arg: VariantArg<S>) -> (r: Result<(), MacroError<S>>)
        ensures
            match arg {
                VariantArg::Default(d) => result_view(r) == (match variant_conflict(
                    *old(self),
                    Attrs { default: Some(d), value: None },
                ) {
                    Some(e) => Err(e),
                    None => Ok(()),
                }) && (r is Ok ==> *final(self) == Attrs { default: Some(d), ..*old(self) }),
                VariantArg::Value(v) => result_view(r) == (match variant_conflict(
                    *old(self),
                    Attrs { default: None, value: Some(v) },
                ) {
                    Some(e) => Err(e),
                    None => Ok(()),
                }) && (r is Ok ==> *final(self) == Attrs { value: Some(v), ..*old(self) }),
            },
    {
        match arg {
            VariantArg::Default(d) => self.merge_default(d),
            VariantArg::Value(v) => self.merge_value(v),
        }
    }

    fn merge_default(&mut self, val: VariantDefault<S>) -> (r: Result<(), MacroError<S>>)
        ensures
            match r {
                Ok(_) => old(self).default is None && *final(self) == Attrs {
                    default: Some(val),
                    ..*old(self)
                },
                Err(e) => old(self).default is Some && e@ == error_at::<S>(
                    val.span,
                    "duplicate `default` attribute"@,
                ) && *final(self) == *old(self),
            },
    {
        if self.default.is_some() {
            return Err(
                MacroError { span: val.span, message: String::from_str("duplicate `default` attribute") },
            );
        }
        self.default = Some(val);
        Ok(())
    }

    fn merge_value(&mut self, val: Value<S>) -> (r: Result<(), MacroError<S>>)
        ensures
            match r {
                Ok(_) => old(self).value is None && *final(self) == Attrs {
                    value: Some(val),
                    ..*old(self)
                },
                Err(e) => old(self).value is Some && e@ == error_at::<S>(
                    val.span,
                    "duplicate `value` attribute"@,
                ) && *final(self) == *old(self),
            },
    {
        if self.value.is_some() {
            return Err(
                MacroError { span: val.span, message: String::from_str("duplicate `value` attribute") },
            );
        }
        self.value = Some(val);
        Ok(())
    }

    /// Merges the arguments of another attribute into these.
    pub fn merge(self, other: Self) -> (r: Result<Self, MacroError<S>>)
        ensures
            result_view(r) == (match variant_conflict(self, other) {
                Some(e) => Err(e),
                None => Ok(variant_merged(self, other)),
            }),
    {
        let mut this = self;
        let Attrs { default, value } = other;
        if let Some(val) = default {
            this.merge_default(val)?;
        }
        if let Some(val) = value {
            this.merge_value(val)?;
        }
        Ok(this)
    }

    /// The arguments of all the `env` attributes of a variant, each as it
    /// was read from its attribute, merged in order.
    pub fn parse_all(parsed: Vec<Result<Self, MacroError<S>>>) -> (r: Result<Self, MacroError<S>>)
        ensures
            result_view(r) == fold_variant_attrs(
                empty_variant_attrs::<S>(),
                variant_parsed_view(parsed@),
            ),
    {
        let ghost all = variant_parsed_view(parsed@);
        let mut rest = parsed;
        let mut acc = Self::empty();
        while rest.len() > 0
            invariant
                all == variant_parsed_view(parsed@),
                fold_variant_attrs(empty_variant_attrs::<S>(), all) == fold_variant_attrs(
                    acc,
                    variant_parsed_view(rest@),
                ),
            decreases rest.len(),
        {
            let ghost before = variant_parsed_view(rest@);
            let first = rest.remove(0);
            assert(before.drop_first() =~= variant_parsed_view(rest@));
            assert(before[0] == result_view(first));
            match first {
                Err(e) => {
                    return Err(e);
                },
                Ok(a) => {
                    acc = acc.merge(a)?;
                },
            }
        }
        Ok(acc)
    }
}

/// What a variant holds.
pub enum VariantContent<S: Syntax> {
    Unit,
    Nested(S::Type),
    InlineStruct(Vec<Field<S>>),
}

/// The type a type description describes.
pub open spec fn type_of<S: Syntax>(t: TypeInfo<S>) -> S::Type {
    match t {
        TypeInfo::Path { ty, .. } => ty,
        TypeInfo::Other(ty) => ty,
    }
}

fn into_type<S: Syntax>(t: TypeInfo<S>) -> (r: S::Type)
    ensures
        r == type_of(t),
{
    match t {
        TypeInfo::Path { ty, .. } => ty,
        TypeInfo::Other(ty) => ty,
    }
}

/// The error of the content of a variant with declared fields `fields`, if any.
pub open spec fn spec_content_error<S: Syntax>(fields: Seq<RawField<S>>) -> Option<ErrorView<S>> {
    if fields.len() == 0 || (fields.len() == 1 && fields[0].name is None) {
        None
    } else {
        match spec_fields(fields) {
            Err(e) => Some(e),
            Ok(_) => None,
        }
    }
}

/// `c` is the content that the declared fields `fields` describe.
pub open spec fn content_from<S: Syntax>(fields: Seq<RawField<S>>, c: VariantContent<S>) -> bool {
    if fields.len() == 0 {
        c is Unit
    } else if fields.len() == 1 && fields[0].name is None {
        c == VariantContent::<S>::Nested(type_of(fields[0].ty))
    } else {
        c matches VariantContent::InlineStruct(fs) && spec_fields(fields) == Ok::<
            Seq<Field<S>>,
            ErrorView<S>,
        >(fs@)
    }
}

impl<S: Syntax> VariantContent<S> {
    /// No fields make a unit variant; one unnamed field a nested structure;
    /// any other fields an inline structure.
    pub fn parse(fields: Vec<RawField<S>>) -> (r: Result<Self, MacroError<S>>)
        ensures
            match spec_content_error(fields@) {
                Some(e) => r matches Err(x) && x@ == e,
                None => r matches Ok(c) && content_from(fields@, c),
            },
    {
        if fields.len() == 0 {
            return Ok(VariantContent::Unit);
        }
        if fields.len() == 1 && fields[0].name.is_none() {
            let mut fields = fields;
            let first = fields.remove(0);
            return Ok(VariantContent::Nested(into_type(first.ty)));
        }
        Ok(VariantContent::InlineStruct(parse_fields(fields)?))
    }
}

/// A variant as it was declared.
pub struct RawVariant<S: Syntax> {
    pub name: S::Ident,
    pub name_span: S::Span,
    pub attrs: Vec<Result<Attrs<S>, MacroError<S>>>,
    pub fields: Vec<RawField<S>>,
}

/// A variant of an environment enum: the variable's value that selects it.
pub struct Variant<S: Syntax> {
    pub name: S::Ident,
    pub value: Value<S>,
    pub default: Option<VariantDefault<S>>,
    pub content: VariantContent<S>,
}

/// The error of a variant declaration, if any.
pub open spec fn spec_variant_error<S: Syntax>(raw: RawVariant<S>) -> Option<ErrorView<S>> {
    match fold_variant_attrs(empty_variant_attrs::<S>(), variant_parsed_view(raw.attrs@)) {
        Err(e) => Some(e),
        Ok(a) => match a.value {
            None => Some(error_at(raw.name_span, "missing required `value` attribute"@)),
            Some(_) => spec_content_error(raw.fields@),
        },
    }
}

/// `v` is the variant that the declaration `raw` describes.
pub open spec fn variant_from<S: Syntax>(raw: RawVariant<S>, v: Variant<S>) -> bool {
    match fold_variant_attrs(empty_variant_attrs::<S>(), variant_parsed_view(raw.attrs@)) {
        Err(_) => false,
        Ok(a) => a.value == Some(v.value) && v.name == raw.name && v.default == a.default
            && content_from(raw.fields@, v.content),
    }
}

impl<S: Syntax> Variant<S> {
    pub fn parse(variant: RawVariant<S>) -> (r: Result<Self, MacroError<S>>)
        ensures
            match spec_variant_error(variant) {
                Some(e) => r matches Err(x) && x@ == e,
                None => r matches Ok(v) && variant_from(variant, v),
            },
    {
        let RawVariant { name, name_span, attrs, fields } = variant;
        let attrs = Attrs::parse_all(attrs)?;
        let Attrs { default, value } = attrs;
        let value = match value {
            Some(value) => value,
            None => {
                return Err(
                    MacroError {
                        span: name_span,
                        message: String::from_str("missing required `value` attribute"),
                    },
                );
            },
        };
        let content = VariantContent::parse(fields)?;
        Ok(Variant { name, value, default, content })
    }
}

/// The variant `j` is marked default, and so is one before it.
pub open spec fn dup_default<S: Syntax>(vs: Seq<Variant<S>>, j: int) -> bool {
    vs[j].default is Some && exists|k: int| 0 <= k < j && (#[trigger] vs[k]).default is Some
}

/// The variant `j` has the value of one before it.
pub open spec fn dup_value<S: Syntax>(vs: Seq<Variant<S>>, j: int) -> bool {
    exists|k: int| 0 <= k < j && (#[trigger] vs[k]).value.text@ == vs[j].value.text@
}

pub open spec fn variant_ok<S: Syntax>(vs: Seq<Variant<S>>, j: int) -> bool {
    !dup_default(vs, j) && !dup_value(vs, j)
}

/// The error reported at the first variant `j` that is not ok.
pub open spec fn variant_error<S: Syntax>(vs: Seq<Variant<S>>, j: int) -> ErrorView<S> {
    if dup_default(vs, j) {
        error_at(vs[j].default.unwrap().span, "there can only be one default variant"@)
    } else {
        error_at(vs[j].value.lit_span, "duplicate variant value"@)
    }
}

fn contains_text(values: &Vec<String>, text: &String) -> (r: bool)
    ensures
        r == exists|k: int| 0 <= k < values@.len() && (#[trigger] values@[k])@ == text@,
{
    let n = values.len();
    for i in 0..n
        invariant
            n == values@.len(),
            forall|k: int| 0 <= k < i ==> (#[trigger] values@[k])@ != text@,
    {
        if values[i] == *text {
            return true;
        }
    }
    false
}

/// Checks that at most one variant is the default and that no two have the
/// same value; gives the position of the default variant, if any.
pub fn validate_variants_extract_default<S: Syntax>(variants: &Vec<Variant<S>>) -> (r: Result<
    Option<usize>,
    MacroError<S>,
>)
    ensures
        match r {
            Ok(d) => (forall|j: int| 0 <= j < variants@.len() ==> variant_ok(variants@, j)) && match d {
                Some(k) => k < variants@.len() && variants@[k as int].default is Some,
                None => forall|j: int| 0 <= j < variants@.len() ==> (#[trigger] variants@[j]).default is None,
            },
            Err(e) => exists|j: int|
                0 <= j < variants@.len() && (forall|k: int| 0 <= k < j ==> variant_ok(variants@, k))
                    && !variant_ok(variants@, j) && e@ == variant_error(variants@, j),
        },
{
    let ghost vs = variants@;
    let mut enum_default: Option<usize> = None;
    let mut values: Vec<String> = Vec::new();
    let n = variants.len();
    for i in 0..n
        invariant
            n == vs.len(),
            vs == variants@,
            values@.len() == i,
            forall|k: int| 0 <= k < i ==> (#[trigger] values@[k])@ == vs[k].value.text@,
            forall|k: int| 0 <= k < i ==> variant_ok(vs, k),
            match enum_default {
                Some(d) => d < i && vs[d as int].default is Some,
                None => forall|k: int| 0 <= k < i ==> (#[trigger] vs[k]).default is None,
            },
    {
        let variant = &variants[i];
        if let Some(default) = &variant.default {
            if enum_default.is_some() {
                let ghost d = enum_default.unwrap() as int;
                assert(vs[d].default is Some);
                assert(dup_default(vs, i as int));
                let e = MacroError {
                    span: default.span,
                    message: String::from_str("there can only be one default variant"),
                };
                assert(e@ == variant_error(vs, i as int));
                assert(!variant_ok(vs, i as int));
                return Err(e);
            }
        }
        assert(!dup_default(vs, i as int));
        if variant.default.is_some() {
            enum_default = Some(i);
        }
        if contains_text(&values, &variant.value.text) {
            let ghost k = choose|k: int| 0 <= k < values@.len() && (#[trigger] values@[k])@ == variant.value.text@;
            assert(vs[k].value.text@ == vs[i as int].value.text@);
            assert(dup_value(vs, i as int));
            let e = MacroError {
                span: variant.value.lit_span,
                message: String::from_str("duplicate variant value"),
            };
            assert(e@ == variant_error(vs, i as int));
            assert(!variant_ok(vs, i as int));
            return Err(e);
        }
        assert(!dup_value(vs, i as int)) by {
            if dup_value(vs, i as int) {
                let k = choose|k: int| 0 <= k < i && (#[trigger] vs[k]).value.text@ == vs[i as int].value.text@;
                assert(values@[k]@ == variant.value.text@);
            }
        }
        values.push(variant.value.text.clone());
    }
    Ok(enum_default)
}

} // verus!

verus! {

/// The values of variants.
pub open spec fn variant_values<S: Syntax>(vs: Seq<Variant<S>>) -> Seq<Seq<char>> {
    vs.map_values(|v: Variant<S>| v.value.text@)
}

/// Variants that pass validation have distinct values, and at most one of
/// them is the default.
pub proof fn law_valid_variants_are_distinct<S: Syntax>(vs: Seq<Variant<S>>)
    requires
        forall|j: int| 0 <= j < vs.len() ==> variant_ok(vs, j),
    ensures
        forall|a: int, b: int|
            0 <= a < b < vs.len() ==> variant_values(vs)[a] != variant_values(vs)[b],
        forall|a: int, b: int|
            0 <= a < b < vs.len() ==> !((#[trigger] vs[a]).default is Some && (#[trigger] vs[b]).default is Some),
{
    assert forall|a: int, b: int| 0 <= a < b < vs.len() implies variant_values(vs)[a] != variant_values(
        vs,
    )[b] by {
        assert(variant_ok(vs, b));
        if vs[a].value.text@ == vs[b].value.text@ {
            assert(dup_value(vs, b));
        }
    }
    assert forall|a: int, b: int| 0 <= a < b < vs.len() implies !((#[trigger] vs[a]).default is Some
        && (#[trigger] vs[b]).default is Some) by {
        assert(variant_ok(vs, b));
    }
}

/// Merging two attributes of a variant that do not conflict keeps every
/// argument that either of them gave, and makes up none.
pub proof fn law_variant_merge_keeps_arguments<S: Syntax>(a: Attrs<S>, b: Attrs<S>)
    requires
        variant_conflict(a, b) is None,
    ensures
        a.default is Some ==> variant_merged(a, b).default == a.default,
        b.default is Some ==> variant_merged(a, b).default == b.default,
        a.default is None && b.default is None ==> variant_merged(a, b).default is None,
        a.value is Some ==> variant_merged(a, b).value == a.value,
        b.value is Some ==> variant_merged(a, b).value == b.value,
        a.value is None && b.value is None ==> variant_merged(a, b).value is None,
{
}

/// Reading the `env` attributes of a variant in order loses no argument: a
/// variant marked `default`, or given a `value`, in any of its attributes
/// has it in the result, and the result has no argument that no attribute
/// gave.
pub proof fn law_variant_attrs_keep_arguments<S: Syntax>(
    acc: Attrs<S>,
    s: Seq<Result<Attrs<S>, ErrorView<S>>>,
)
    requires
        fold_variant_attrs(acc, s) is Ok,
    ensures
        ({
            let r = fold_variant_attrs(acc, s)->Ok_0;
            &&& acc.default is Some ==> r.default == acc.default
            &&& forall|i: int|
                0 <= i < s.len() && (#[trigger] s[i]) is Ok && s[i]->Ok_0.default is Some
                    ==> r.default == s[i]->Ok_0.default
            &&& r.default is Some ==> acc.default is Some || exists|i: int|
                0 <= i < s.len() && (#[trigger] s[i]) is Ok && s[i]->Ok_0.default is Some
            &&& acc.value is Some ==> r.value == acc.value
            &&& forall|i: int|
                0 <= i < s.len() && (#[trigger] s[i]) is Ok && s[i]->Ok_0.value is Some
                    ==> r.value == s[i]->Ok_0.value
            &&& r.value is Some ==> acc.value is Some || exists|i: int|
                0 <= i < s.len() && (#[trigger] s[i]) is Ok && s[i]->Ok_0.value is Some
        }),
    decreases s.len(),
{
    if s.len() > 0 {
        let r = fold_variant_attrs(acc, s)->Ok_0;
        let a = s[0]->Ok_0;
        let next = variant_merged(acc, a);
        let t = s.drop_first();
        law_variant_attrs_keep_arguments(next, t);
        assert forall|i: int|
            0 <= i < s.len() && (#[trigger] s[i]) is Ok && s[i]->Ok_0.default is Some implies r.default
            == s[i]->Ok_0.default by {
            if i > 0 {
                assert(s[i] == t[i - 1]);
            }
        }
        assert forall|i: int|
            0 <= i < s.len() && (#[trigger] s[i]) is Ok && s[i]->Ok_0.value is Some implies r.value
            == s[i]->Ok_0.value by {
            if i > 0 {
                assert(s[i] == t[i - 1]);
            }
        }
        if r.default is Some && acc.default is None && a.default is None {
            let i = choose|i: int| 0 <= i < t.len() && (#[trigger] t[i]) is Ok && t[i]->Ok_0.default is Some;
            assert(s[i + 1] == t[i]);
        }
        if r.value is Some && acc.value is None && a.value is None {
            let i = choose|i: int| 0 <= i < t.len() && (#[trigger] t[i]) is Ok && t[i]->Ok_0.value is Some;
            assert(s[i + 1] == t[i]);
        }
    }
}

} // verus!
