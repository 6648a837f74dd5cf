use super::attrs::Attrs;
use super::options::{parsed_view, spec_field_options, FieldOptions, ParseCall};
use super::{error_at, result_view, ErrorView, MacroError, Syntax};
use vstd::prelude::*;
use vstd::string::*;

verus! {

/// A generic argument of a path segment.
pub enum GenericArgInfo<S: Syntax> {
    Type(S::Type),
    Other,
}

/// The arguments of a path segment, with the first of angle-bracketed ones.
pub enum PathArgsInfo<S: Syntax> {
    NoArguments,
    AngleBracketed(Option<GenericArgInfo<S>>),
    Parenthesized,
}

/// The last segment of a type's path.
pub struct SegmentInfo<S: Syntax> {
    pub ident: String,
    pub arguments: PathArgsInfo<S>,
}

/// A field's declared type, with what tells an `Option` apart.
pub enum TypeInfo<S: Syntax> {
    Path { ty: S::Type, last: Option<SegmentInfo<S>> },
    Other(S::Type),
}

/// The type without its `Option`, and whether it was optional.
pub open spec fn spec_extract_optional_type<S: Syntax>(t: TypeInfo<S>) -> (S::Type, bool) {
    match t {
        TypeInfo::Path { ty, last } => match last {
            Some(seg) => if seg.ident@ == "Option"@ {
                match seg.arguments {
                    PathArgsInfo::AngleBracketed(Some(GenericArgInfo::Type(inner))) => (inner, true),
                    _ => (ty, false),
                }
            } else {
                (ty, false)
            },
            None => (ty, false),
        },
        TypeInfo::Other(ty) => (ty, false),
    }
}

/// Checks if a type is optional and returns the type stripped of the option.
///
/// The boolean indicates whether the type is optional (`true` means optional).
pub fn extract_optional_type<S: Syntax>(ty: TypeInfo<S>) -> (r: (S::Type, bool))
    ensures
        r == spec_extract_optional_type(ty),
{
    match ty {
        TypeInfo::Path { ty, last } => match last {
            Some(seg) => {
                if seg.ident == String::from_str("Option") {
                    match seg.arguments {
                        PathArgsInfo::AngleBracketed(Some(GenericArgInfo::Type(inner))) => (
                            inner,
                            true,
                        ),
                        _ => (ty, false),
                    }
                } else {
                    (ty, false)
                }
            },
            None => (ty, false),
        },
        TypeInfo::Other(ty) => (ty, false),
    }
}

/// A field's name: the identifier, its text and where it stands.
pub struct FieldName<S: Syntax> {
    pub ident: S::Ident,
    pub text: String,
    pub span: S::Span,
}

/// A field as it was declared: its name if it has one, its type, its
/// `env` attributes as they were read, and where it stands.
pub struct RawField<S: Syntax> {
    pub name: Option<FieldName<S>>,
    pub ty: TypeInfo<S>,
    pub attrs: Vec<Result<Attrs<S>, MacroError<S>>>,
    pub span: S::Span,
}

/// Data describing how a field should load from its environment.
pub struct Field<S: Syntax> {
    /// The name of the field.
    pub name: FieldName<S>,
    /// The non-optional datatype of the field.
    pub concrete_type: S::Type,
    /// How to get the field's data.
    pub options: FieldOptions<S>,
}

/// The field that a declaration describes, or why it describes none.
pub open spec fn spec_field<S: Syntax>(raw: RawField<S>) -> Result<Field<S>, ErrorView<S>> {
    match raw.name {
        None => Err(error_at(raw.span, "field must have a name"@)),
        Some(n) => {
            let (ty, optional) = spec_extract_optional_type(raw.ty);
            match spec_field_options(parsed_view(raw.attrs@), n.span, optional) {
                Ok(o) => Ok(Field { name: n, concrete_type: ty, options: o }),
                Err(e) => Err(e),
            }
        },
    }
}

/// The fields that declarations describe: the first that describes none is
/// the error.
pub open spec fn spec_fields<S: Syntax>(raws: Seq<RawField<S>>) -> Result<Seq<Field<S>>, ErrorView<S>>
    decreases raws.len(),
{
    if raws.len() == 0 {
        Ok(Seq::empty())
    } else {
        match spec_field(raws[0]) {
            Err(e) => Err(e),
            Ok(f) => match spec_fields(raws.drop_first()) {
                Err(e) => Err(e),
                Ok(fs) => Ok(seq![f] + fs),
            },
        }
    }
}

impl<S: Syntax> Field<S> {
    /// Parses the field from its declaration.
    pub fn parse(field: RawField<S>) -> (r: Result<Self, MacroError<S>>)
        ensures
            result_view(r) == spec_field(field),
            r matches Ok(f) ==> f.options.spec_is_optional() == spec_extract_optional_type(
                field.ty,
            ).1 && (f.options.spec_needs_unwrap() <==> (!f.options.spec_is_optional()
                && f.options.spec_call().yields_option())) && (f.options.spec_is_optional()
                ==> f.options.spec_call().yields_option()),
    {
        let RawField { name, ty, attrs, span } = field;
        let name = match name {
            Some(name) => name,
            None => {
                return Err(MacroError { span, message: String::from_str("field must have a name") });
            },
        };
        let (concrete_type, is_optional) = extract_optional_type(ty);
        let options = FieldOptions::parse(attrs, name.span, is_optional)?;
        Ok(Field { name, concrete_type, options })
    }

    /// The call that loads the field.
    pub fn get_parse_call(&self) -> (r: ParseCall<'_, S>)
        ensures
            r@ == self.options.spec_named_call(self.name.text@),
    {
        self.options.get_parse_call(self.name.text.as_str())
    }

    /// The loaded value must be unwrapped when the struct is built.
    pub fn needs_unwrap(&self) -> (r: bool)
        ensures
            r == self.options.spec_needs_unwrap(),
    {
        self.options.needs_unwrap()
    }

    /// The field holds an `Option`.
    pub fn is_optional(&self) -> (r: bool)
        ensures
            r == self.options.spec_is_optional(),
    {
        self.options.is_optional()
    }
}

/// Parses the fields of a declaration in order; the first that is
/// malformed is the error.
pub fn parse_fields<S: Syntax>(raws: Vec<RawField<S>>) -> (r: Result<Vec<Field<S>>, MacroError<S>>)
    ensures
        match r {
            Ok(fs) => spec_fields(raws@) == Ok::<Seq<Field<S>>, ErrorView<S>>(fs@),
            Err(e) => spec_fields(raws@) == Err::<Seq<Field<S>>, ErrorView<S>>(e@),
        },
{
    let mut rest = raws;
    let mut fields: Vec<Field<S>> = Vec::new();
    while rest.len() > 0
        invariant
            spec_fields(raws@) == match spec_fields(rest@) {
                Ok(fs) => Ok(fields@ + fs),
                Err(e) => Err::<Seq<Field<S>>, ErrorView<S>>(e),
            },
        decreases rest.len(),
    {
        let ghost before = rest@;
        let first = rest.remove(0);
        assert(before.drop_first() =~= rest@);
        let f = Field::parse(first)?;
        proof {
            match spec_fields(rest@) {
                Ok(fs) => {
                    assert(fields@ + (seq![f] + fs) =~= fields@.push(f) + fs);
                },
                Err(_) => {},
            }
        }
        fields.push(f);
    }
    assert(fields@ + Seq::<Field<S>>::empty() =~= fields@);
    Ok(fields)
}

} // verus!
