use super::field::{parse_fields, spec_fields, Field, RawField};
use super::variant::{
    empty_variant_attrs, law_valid_variants_are_distinct, law_variant_attrs_keep_arguments,
    spec_variant_error, validate_variants_extract_default, variant_error, variant_from,
    variant_ok, variant_parsed_view, RawVariant, Variant,
};
use super::{error_at, text_eq, result_view, ErrorView, MacroError, Syntax};
use vstd::prelude::*;
use vstd::string::*;

verus! {

/// A `key = "..."` argument of an enum: the literal and where it stands.
pub struct KeyLit<S: Syntax> {
    pub lit: S::LitStr,
    pub span: S::Span,
}

/// Checks the name of an enum argument: only `key` is recognized.
pub fn key_arg<S: Syntax>(name: &str, span: S::Span) -> (r: Result<(), MacroError<S>>)
    ensures
        if name@ == "key"@ {
            r is Ok
        } else {
            r matches Err(e) && e@ == error_at::<S>(span, "unrecognized argument"@)
        },
{
    if text_eq(name, "key") {
        Ok(())
    } else {
        Err(MacroError { span, message: String::from_str("unrecognized argument") })
    }
}

/// Adds a `key` argument read in one attribute, whose name stands at
/// `ident_span`; a second one is an error there.
pub fn add_key<S: Syntax>(key: &mut Option<KeyLit<S>>, ident_span: S::Span, val: KeyLit<S>) -> (r:
    Result<(), MacroError<S>>)
    ensures
        match r {
            Ok(_) => *old(key) is None && *final(key) == Some(val),
            Err(e) => *old(key) is Some && e@ == error_at::<S>(ident_span, "duplicate `key` attribute"@)
                && *final(key) == *old(key),
        },
{
    if key.is_some() {
        return Err(MacroError { span: ident_span, message: String::from_str("duplicate `key` attribute") });
    }
    *key = Some(val);
    Ok(())
}

/// The key of an enum from its `env` attributes, each as it was read, in
/// order; the enum's name stands at `name_span`.
pub open spec fn fold_key<S: Syntax>(
    acc: Option<KeyLit<S>>,
    s: Seq<Result<Option<KeyLit<S>>, ErrorView<S>>>,
    name_span: S::Span,
) -> Result<KeyLit<S>, ErrorView<S>>
    decreases s.len(),
{
    if s.len() == 0 {
        match acc {
            Some(k) => Ok(k),
            None => Err(error_at(name_span, "missing required `key` attribute"@)),
        }
    } else {
        match s[0] {
            Err(e) => Err(e),
            Ok(None) => fold_key(acc, s.drop_first(), name_span),
            Ok(Some(res)) => if acc is Some {
                Err(error_at(res.span, "duplicate `key` attribute"@))
            } else {
                fold_key(Some(res), s.drop_first(), name_span)
            },
        }
    }
}

pub open spec fn key_parsed_view<S: Syntax>(v: Seq<Result<Option<KeyLit<S>>, MacroError<S>>>) -> Seq<
    Result<Option<KeyLit<S>>, ErrorView<S>>,
> {
    v.map_values(|p: Result<Option<KeyLit<S>>, MacroError<S>>| result_view(p))
}

/// The single `key` of an enum, from the keys its `env` attributes gave.
pub fn get_key_attr<S: Syntax>(
    name_span: S::Span,
    attrs: Vec<Result<Option<KeyLit<S>>, MacroError<S>>>,
) -> (r: Result<KeyLit<S>, MacroError<S>>)
    ensures
        result_view(r) == fold_key(None, key_parsed_view(attrs@), name_span),
{
    let ghost all = key_parsed_view(attrs@);
    let mut rest = attrs;
    let mut key: Option<KeyLit<S>> = None;
    while rest.len() > 0
        invariant
            all == key_parsed_view(attrs@),
            fold_key(None, all, name_span) == fold_key(key, key_parsed_view(rest@), name_span),
        decreases rest.len(),
    {
        let ghost before = key_parsed_view(rest@);
        let first = rest.remove(0);
        assert(before.drop_first() =~= key_parsed_view(rest@));
        assert(before[0] == result_view(first));
        match first {
            Err(e) => {
                return Err(e);
            },
            Ok(None) => {},
            Ok(Some(res)) => {
                if key.is_some() {
                    return Err(
                        MacroError {
                            span: res.span,
                            message: String::from_str("duplicate `key` attribute"),
                        },
                    );
                }
                key = Some(res);
            },
        }
    }
    match key {
        Some(k) => Ok(k),
        None => Err(
            MacroError { span: name_span, message: String::from_str("missing required `key` attribute") },
        ),
    }
}

/// The variants that declarations describe: the first that describes none
/// is the error.
pub fn parse_variants<S: Syntax>(raws: Vec<RawVariant<S>>) -> (r: Result<Vec<Variant<S>>, MacroError<S>>)
    ensures
        match r {
            Ok(vs) => vs@.len() == raws@.len() && (forall|j: int|
                0 <= j < raws@.len() ==> spec_variant_error(#[trigger] raws@[j]) is None) && (forall|
                j: int,
            | 0 <= j < raws@.len() ==> variant_from(raws@[j], #[trigger] vs@[j])),
            Err(e) => exists|j: int|
                0 <= j < raws@.len() && (forall|k: int|
                    0 <= k < j ==> spec_variant_error(#[trigger] raws@[k]) is None)
                    && spec_variant_error(raws@[j]) == Some(e@),
        },
{
    let mut rest = raws;
    let mut variants: Vec<Variant<S>> = Vec::new();
    assert(rest@ =~= raws@.subrange(0, raws@.len() as int));
    while rest.len() > 0
        invariant
            variants@.len() <= raws@.len(),
            rest@ == raws@.subrange(variants@.len() as int, raws@.len() as int),
            forall|j: int|
                0 <= j < variants@.len() ==> spec_variant_error(#[trigger] raws@[j]) is None,
            forall|j: int| 0 <= j < variants@.len() ==> variant_from(raws@[j], #[trigger] variants@[j]),
        decreases rest.len(),
    {
        let ghost i = variants@.len() as int;
        let first = rest.remove(0);
        assert(first == raws@[i]);
        let v = match Variant::parse(first) {
            Ok(v) => v,
            Err(e) => {
                assert(spec_variant_error(raws@[i]) == Some(e@));
                return Err(e);
            },
        };
        variants.push(v);
        assert(rest@ =~= raws@.subrange(i + 1, raws@.len() as int));
        assert(variant_from(raws@[i], variants@[i]));
    }
    Ok(variants)
}

/// An enum loaded from the variable `key`, whose value selects the variant.
pub struct EnvEnum<S: Syntax> {
    pub name: S::Ident,
    pub key: KeyLit<S>,
    /// The position of the variant taken when the variable is missing or invalid.
    pub default: Option<usize>,
    pub variants: Vec<Variant<S>>,
}

/// `r` is what parsing an enum named `name`, at `name_span`, with the key
/// attributes `key_attrs` and the variant declarations `variants` gives:
/// the key first, then each variant in order, then their validation.
pub open spec fn enum_outcome<S: Syntax>(
    name: S::Ident,
    name_span: S::Span,
    key_attrs: Seq<Result<Option<KeyLit<S>>, MacroError<S>>>,
    variants: Seq<RawVariant<S>>,
    r: Result<EnvEnum<S>, MacroError<S>>,
) -> bool {
    match fold_key(None, key_parsed_view(key_attrs), name_span) {
        Err(e) => r matches Err(x) && x@ == e,
        Ok(k) => match r {
            Ok(en) => {
                &&& en.key == k
                &&& en.name == name
                &&& en.variants@.len() == variants.len()
                &&& forall|j: int|
                    0 <= j < variants.len() ==> variant_from(
                        variants[j],
                        #[trigger] en.variants@[j],
                    )
                &&& forall|j: int| 0 <= j < en.variants@.len() ==> variant_ok(en.variants@, j)
                &&& match en.default {
                    Some(d) => d < en.variants@.len() && en.variants@[d as int].default is Some,
                    None => forall|j: int|
                        0 <= j < en.variants@.len() ==> (#[trigger] en.variants@[j]).default is None,
                }
            },
            Err(x) => (exists|j: int|
                0 <= j < variants.len() && (forall|i: int|
                    0 <= i < j ==> spec_variant_error(#[trigger] variants[i]) is None)
                    && spec_variant_error(variants[j]) == Some(x@)) || (exists|
                vs: Seq<Variant<S>>,
                j: int,
            |
                vs.len() == variants.len() && (forall|i: int|
                    0 <= i < vs.len() ==> variant_from(variants[i], #[trigger] vs[i])) && 0
                    <= j < vs.len() && (forall|i: int| 0 <= i < j ==> variant_ok(vs, i))
                    && !variant_ok(vs, j) && x@ == variant_error(vs, j)),
        },
    }
}

impl<S: Syntax> EnvEnum<S> {
    /// The enum from its key attributes and its variants: its key must be
    /// given once, at most one variant may be the default, and no two
    /// variants may have the same value.
    pub fn parse(
        name: S::Ident,
        name_span: S::Span,
        key_attrs: Vec<Result<Option<KeyLit<S>>, MacroError<S>>>,
        variants: Vec<RawVariant<S>>,
    ) -> (r: Result<Self, MacroError<S>>)
        ensures
            enum_outcome(name, name_span, key_attrs@, variants@, r),
    {
        let key = get_key_attr(name_span, key_attrs)?;
        let variants = parse_variants(variants)?;
        let default = validate_variants_extract_default(&variants)?;
        Ok(EnvEnum { name, key, default, variants })
    }
}

/// A struct loaded field by field.
pub struct EnvStruct<S: Syntax> {
    pub name: S::Ident,
    pub fields: Vec<Field<S>>,
}

impl<S: Syntax> EnvStruct<S> {
    pub fn parse(name: S::Ident, fields: Vec<RawField<S>>) -> (r: Result<Self, MacroError<S>>)
        ensures
            match r {
                Ok(st) => st.name == name && spec_fields(fields@) == Ok::<
                    Seq<Field<S>>,
                    ErrorView<S>,
                >(st.fields@),
                Err(e) => spec_fields(fields@) == Err::<Seq<Field<S>>, ErrorView<S>>(e@),
            },
    {
        let fields = parse_fields(fields)?;
        Ok(EnvStruct { name, fields })
    }
}

/// The body of a type the derive is applied to.
pub enum InputData<S: Syntax> {
    Struct(Vec<RawField<S>>),
    Enum { key_attrs: Vec<Result<Option<KeyLit<S>>, MacroError<S>>>, variants: Vec<RawVariant<S>> },
    Union,
}

/// What the derive expands.
pub enum Expansion<S: Syntax> {
    Struct(EnvStruct<S>),
    Enum(EnvEnum<S>),
}

/// The derive applies to structs and enums, never to unions.
pub fn expand_input<S: Syntax>(name: S::Ident, name_span: S::Span, data: InputData<S>) -> (r: Result<
    Expansion<S>,
    MacroError<S>,
>)
    ensures
        data is Union ==> (r matches Err(e) && e@ == error_at::<S>(
            name_span,
            "EnvStructure does not support unions"@,
        )),
        match data {
            InputData::Struct(fields) => match r {
                Ok(Expansion::Struct(st)) => st.name == name && spec_fields(fields@) == Ok::<
                    Seq<Field<S>>,
                    ErrorView<S>,
                >(st.fields@),
                Err(e) => spec_fields(fields@) == Err::<Seq<Field<S>>, ErrorView<S>>(e@),
                _ => false,
            },
            InputData::Enum { key_attrs, variants } => match r {
                Ok(Expansion::Enum(en)) => enum_outcome(
                    name,
                    name_span,
                    key_attrs@,
                    variants@,
                    Ok::<EnvEnum<S>, MacroError<S>>(en),
                ),
                Err(e) => enum_outcome(
                    name,
                    name_span,
                    key_attrs@,
                    variants@,
                    Err::<EnvEnum<S>, MacroError<S>>(e),
                ),
                _ => false,
            },
            InputData::Union => true,
        },
{
    match data {
        InputData::Struct(fields) => Ok(Expansion::Struct(EnvStruct::parse(name, fields)?)),
        InputData::Enum { key_attrs, variants } => Ok(
            Expansion::Enum(EnvEnum::parse(name, name_span, key_attrs, variants)?),
        ),
        InputData::Union => Err(
            MacroError { span: name_span, message: String::from_str("EnvStructure does not support unions") },
        ),
    }
}

/// A variant marked `default` in any of its `env` attributes is the
/// default variant of the enum, whichever attribute marked it.
pub proof fn law_marked_variant_is_enum_default<S: Syntax>(
    name: S::Ident,
    name_span: S::Span,
    key_attrs: Seq<Result<Option<KeyLit<S>>, MacroError<S>>>,
    variants: Seq<RawVariant<S>>,
    en: EnvEnum<S>,
    j: int,
    i: int,
)
    requires
        enum_outcome(name, name_span, key_attrs, variants, Ok(en)),
        0 <= j < variants.len(),
        0 <= i < variants[j].attrs@.len(),
        variants[j].attrs@[i] is Ok,
        variants[j].attrs@[i]->Ok_0.default is Some,
    ensures
        en.default == Some(j as usize),
{
    let s = variant_parsed_view(variants[j].attrs@);
    assert(s[i] == result_view(variants[j].attrs@[i]));
    assert(variant_from(variants[j], en.variants@[j]));
    law_variant_attrs_keep_arguments(empty_variant_attrs::<S>(), s);
    assert(en.variants@[j].default is Some);
    law_valid_variants_are_distinct(en.variants@);
    if en.default is Some {
        let d = en.default.unwrap() as int;
        if d != j {
            if d < j {
                assert(!(en.variants@[d].default is Some && en.variants@[j].default is Some));
            } else {
                assert(!(en.variants@[j].default is Some && en.variants@[d].default is Some));
            }
        }
    }
}

} // verus!
