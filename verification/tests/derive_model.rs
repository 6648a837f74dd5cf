use env_structure::derive::attrs::{
    Attrs, DefaultAttr, FieldArg, FieldArgName, RequiredIfAttr, ValidatorAttr,
};
use env_structure::derive::field::{
    extract_optional_type, parse_fields, Field, FieldName, GenericArgInfo, PathArgsInfo, RawField,
    SegmentInfo, TypeInfo,
};
use env_structure::derive::item::{add_key, expand_input, get_key_attr, key_arg, EnvEnum, EnvStruct, Expansion, InputData, KeyLit};
use env_structure::derive::options::{
    DneStrategy, FieldOptions, KeyValueFieldOptions, NestedFieldOptions, ParseCall,
};
use env_structure::derive::variant::{
    validate_variants_extract_default, Attrs as VariantAttrs, RawVariant, Value, Variant, VariantArg,
    VariantArgName, VariantContent, VariantDefault,
};
use env_structure::derive::{MacroError, Syntax};

/// Syntax made of plain values: positions are numbers, the rest is text.
struct Plain;

impl Syntax for Plain {
    type Span = u32;
    type Expr = String;
    type LitStr = String;
    type Ident = String;
    type Type = String;
}

type A = Attrs<Plain>;

fn default_attr(span: u32, expr: &str) -> A {
    Attrs { nested: false, default: Some(DefaultAttr { span, expr: expr.to_string() }), validator: None, required_if: None }
}

fn validator_attr(span: u32, expr: &str) -> A {
    Attrs { nested: false, default: None, validator: Some(ValidatorAttr { span, expr: expr.to_string() }), required_if: None }
}

fn required_if_attr(span: u32, key: &str) -> A {
    Attrs { nested: false, default: None, validator: None, required_if: Some(RequiredIfAttr { span, key: key.to_string() }) }
}

fn nested_attr() -> A {
    Attrs { nested: true, default: None, validator: None, required_if: None }
}

fn err_of<T>(r: Result<T, MacroError<Plain>>) -> (u32, String) {
    match r {
        Err(e) => (e.span, e.message),
        Ok(_) => panic!("expected an error"),
    }
}

fn plain_type(name: &str) -> TypeInfo<Plain> {
    TypeInfo::Path {
        ty: name.to_string(),
        last: Some(SegmentInfo { ident: name.to_string(), arguments: PathArgsInfo::NoArguments }),
    }
}

fn option_type(inner: &str) -> TypeInfo<Plain> {
    TypeInfo::Path {
        ty: format!("Option<{}>", inner),
        last: Some(SegmentInfo {
            ident: "Option".to_string(),
            arguments: PathArgsInfo::AngleBracketed(Some(GenericArgInfo::Type(inner.to_string()))),
        }),
    }
}

fn named(name: &str, span: u32, ty: TypeInfo<Plain>, attrs: Vec<Result<A, MacroError<Plain>>>) -> RawField<Plain> {
    RawField {
        name: Some(FieldName { ident: name.to_string(), text: name.to_string(), span }),
        ty,
        attrs,
        span,
    }
}

#[test]
fn field_argument_names() {
    assert!(A::arg_name("nested", 0).ok() == Some(FieldArgName::Nested));
    assert!(A::arg_name("default", 0).ok() == Some(FieldArgName::Default));
    assert!(A::arg_name("validator", 0).ok() == Some(FieldArgName::Validator));
    assert!(A::arg_name("required_if", 0).ok() == Some(FieldArgName::RequiredIf));
    assert_eq!(err_of(A::arg_name("bogus", 9)), (9, "unrecognized argument".to_string()));
}

#[test]
fn duplicate_argument_in_one_attribute() {
    let mut a = A::empty();
    assert!(a.add_arg(FieldArg::Nested).is_ok());
    assert!(a.nested);
    assert!(a.add_arg(FieldArg::Default(DefaultAttr { span: 1, expr: "1".to_string() })).is_ok());
    let r = a.add_arg(FieldArg::Default(DefaultAttr { span: 2, expr: "2".to_string() }));
    assert_eq!(err_of(r), (2, "duplicate `default` attribute".to_string()));
    assert!(a.add_arg(FieldArg::Validator(ValidatorAttr { span: 3, expr: "v".to_string() })).is_ok());
    let r = a.add_arg(FieldArg::Validator(ValidatorAttr { span: 4, expr: "w".to_string() }));
    assert_eq!(err_of(r), (4, "duplicate `validator` attribute".to_string()));
    assert!(a.add_arg(FieldArg::RequiredIf(RequiredIfAttr { span: 5, key: "K".to_string() })).is_ok());
    let r = a.add_arg(FieldArg::RequiredIf(RequiredIfAttr { span: 6, key: "L".to_string() }));
    assert_eq!(err_of(r), (6, "duplicate `required_if` attribute".to_string()));
}

#[test]
fn attributes_merge_across_attributes() {
    let merged = A::parse_all(vec![Ok(default_attr(1, "5")), Ok(nested_attr()), Ok(validator_attr(2, "check"))]);
    let merged = match merged {
        Ok(a) => a,
        Err(_) => panic!("expected the attributes to merge"),
    };
    assert!(merged.nested);
    assert_eq!(merged.default.unwrap().expr, "5");
    assert_eq!(merged.validator.unwrap().expr, "check");
    assert!(merged.required_if.is_none());
}

#[test]
fn duplicate_across_attributes() {
    let r = A::parse_all(vec![Ok(default_attr(1, "5")), Ok(default_attr(7, "6"))]);
    assert_eq!(err_of(r), (7, "duplicate `default` attribute".to_string()));
    let r = A::parse_all(vec![Ok(required_if_attr(1, "A")), Ok(required_if_attr(8, "B"))]);
    assert_eq!(err_of(r), (8, "duplicate `required_if` attribute".to_string()));
}

#[test]
fn first_unreadable_attribute_is_the_error() {
    let bad = Err(MacroError { span: 4, message: "expected `=`".to_string() });
    let r = A::parse_all(vec![Ok(default_attr(1, "5")), bad, Ok(default_attr(9, "6"))]);
    assert_eq!(err_of(r), (4, "expected `=`".to_string()));
}

#[test]
fn key_value_strategies() {
    let o = KeyValueFieldOptions::from_attrs(A::empty(), false).ok().unwrap();
    assert!(matches!(o.dne_strategy, DneStrategy::Require));
    assert!(o.needs_unwrap() && !o.is_optional());
    let o = KeyValueFieldOptions::from_attrs(A::empty(), true).ok().unwrap();
    assert!(matches!(o.dne_strategy, DneStrategy::Optional));
    assert!(!o.needs_unwrap() && o.is_optional());
    let o = KeyValueFieldOptions::from_attrs(default_attr(1, "3"), false).ok().unwrap();
    assert!(matches!(o.dne_strategy, DneStrategy::Default(ref e) if e == "3"));
    assert!(!o.needs_unwrap() && !o.is_optional());
}

#[test]
fn key_value_rejections() {
    let r = KeyValueFieldOptions::from_attrs(default_attr(3, "1"), true);
    assert_eq!(err_of(r), (3, "default value not allowed with optional values".to_string()));
    let r = KeyValueFieldOptions::from_attrs(required_if_attr(5, "K"), false);
    assert_eq!(err_of(r), (5, "invalid attribute `required_if` on key value field".to_string()));
}

#[test]
fn key_value_parse_calls() {
    let o = KeyValueFieldOptions::from_attrs(A::empty(), false).ok().unwrap();
    assert!(matches!(o.get_parse_call("gcp_project_id"), ParseCall::Parse { ref key, optional: false } if key == "GCP_PROJECT_ID"));
    let o = KeyValueFieldOptions::from_attrs(validator_attr(1, "v"), true).ok().unwrap();
    assert!(matches!(o.get_parse_call("secret_number"), ParseCall::ParseValidated { ref key, validator, optional: true } if key == "SECRET_NUMBER" && validator == "v"));
    let o = KeyValueFieldOptions::from_attrs(default_attr(1, "\"(default)\""), false).ok().unwrap();
    assert!(matches!(o.get_parse_call("firestore_database_name"), ParseCall::ParseWithDefault { ref key, default } if key == "FIRESTORE_DATABASE_NAME" && default == "\"(default)\""));
    let mut a = default_attr(1, "0.5");
    a.validator = Some(ValidatorAttr { span: 2, expr: "validate".to_string() });
    let o = KeyValueFieldOptions::from_attrs(a, false).ok().unwrap();
    assert!(matches!(o.get_parse_call("fraction"), ParseCall::ParseValidatedWithDefault { ref key, validator, default } if key == "FRACTION" && validator == "validate" && default == "0.5"));
}

#[test]
fn nested_options() {
    let o = NestedFieldOptions::<Plain>::from_attrs(A::empty(), 0, false).ok().unwrap();
    assert!(o.needs_unwrap() && !o.is_optional());
    assert!(matches!(o.get_parse_call(), ParseCall::ParseNested));
    let o = NestedFieldOptions::from_attrs(required_if_attr(1, "USE_EMULATOR"), 0, true).ok().unwrap();
    assert!(!o.needs_unwrap() && o.is_optional());
    assert!(matches!(o.get_parse_call(), ParseCall::ParseNestedIf { key } if key == "USE_EMULATOR"));
}

#[test]
fn nested_rejections() {
    let r = NestedFieldOptions::from_attrs(A::empty(), 11, true);
    assert_eq!(err_of(r), (11, "attribute `required_if` is required for optional nested fields".to_string()));
    let r = NestedFieldOptions::from_attrs(required_if_attr(4, "K"), 11, false);
    assert_eq!(err_of(r), (4, "attribute `required_if` can only be applied to optional nested fields".to_string()));
    let r = NestedFieldOptions::from_attrs(default_attr(2, "x"), 11, false);
    assert_eq!(err_of(r), (2, "invalid attribute `default` on nested field".to_string()));
    let r = NestedFieldOptions::from_attrs(validator_attr(3, "x"), 11, false);
    assert_eq!(err_of(r), (3, "invalid attribute `validator` on nested field".to_string()));
}

#[test]
fn field_options_choose_nested_or_key_value() {
    let o = FieldOptions::parse(vec![Ok(nested_attr()), Ok(required_if_attr(2, "USE"))], 0, true).ok().unwrap();
    assert!(matches!(o, FieldOptions::Nested(_)));
    assert!(o.is_optional() && !o.needs_unwrap());
    let o = FieldOptions::<Plain>::parse(vec![], 0, false).ok().unwrap();
    assert!(matches!(o, FieldOptions::KeyValue(_)));
    assert!(!o.is_optional() && o.needs_unwrap());
}

#[test]
fn optional_types_are_recognized() {
    assert_eq!(extract_optional_type(option_type("String")), ("String".to_string(), true));
    assert_eq!(extract_optional_type(plain_type("String")), ("String".to_string(), false));
    let odd = TypeInfo::<Plain>::Path {
        ty: "Option".to_string(),
        last: Some(SegmentInfo { ident: "Option".to_string(), arguments: PathArgsInfo::NoArguments }),
    };
    assert_eq!(extract_optional_type(odd), ("Option".to_string(), false));
    let lifetime_arg = TypeInfo::<Plain>::Path {
        ty: "Option<'a>".to_string(),
        last: Some(SegmentInfo {
            ident: "Option".to_string(),
            arguments: PathArgsInfo::AngleBracketed(Some(GenericArgInfo::Other)),
        }),
    };
    assert_eq!(extract_optional_type(lifetime_arg), ("Option<'a>".to_string(), false));
    assert_eq!(extract_optional_type(TypeInfo::<Plain>::Other("(u8, u8)".to_string())), ("(u8, u8)".to_string(), false));
}

#[test]
fn fields_parse() {
    let f = Field::parse(named("secret_phrase", 3, option_type("String"), vec![])).ok().unwrap();
    assert_eq!(f.concrete_type, "String");
    assert!(f.is_optional() && !f.needs_unwrap());
    assert!(matches!(f.get_parse_call(), ParseCall::Parse { ref key, optional: true } if key == "SECRET_PHRASE"));
    let unnamed = RawField::<Plain> { name: None, ty: plain_type("u8"), attrs: vec![], span: 8 };
    assert_eq!(err_of(Field::parse(unnamed)), (8, "field must have a name".to_string()));
}

#[test]
fn first_malformed_field_is_the_error() {
    let fields = vec![
        named("a", 1, plain_type("u8"), vec![]),
        named("b", 2, option_type("u8"), vec![Ok(default_attr(20, "1"))]),
        named("c", 3, option_type("u8"), vec![Ok(default_attr(30, "1"))]),
    ];
    assert_eq!(err_of(parse_fields(fields)), (20, "default value not allowed with optional values".to_string()));
}

#[test]
fn struct_parses() {
    let fields = vec![
        named("gcp_project_id", 1, plain_type("String"), vec![]),
        named("emulator_env", 2, option_type("EmulatorEnv"), vec![Ok(nested_attr()), Ok(required_if_attr(3, "USE_EMULATOR"))]),
    ];
    let st = EnvStruct::parse("Env".to_string(), fields).ok().unwrap();
    assert_eq!(st.name, "Env");
    assert_eq!(st.fields.len(), 2);
    assert!(st.fields[0].needs_unwrap());
    assert!(st.fields[1].is_optional());
}

#[test]
fn union_is_refused() {
    let r = expand_input::<Plain>("U".to_string(), 5, InputData::Union);
    assert_eq!(err_of(r), (5, "EnvStructure does not support unions".to_string()));
}

#[test]
fn key_attribute() {
    assert!(key_arg::<Plain>("key", 0).is_ok());
    assert_eq!(err_of(key_arg::<Plain>("value", 4)), (4, "unrecognized argument".to_string()));
    let mut key = None;
    assert!(add_key::<Plain>(&mut key, 1, KeyLit { lit: "A".to_string(), span: 2 }).is_ok());
    assert_eq!(err_of(add_key::<Plain>(&mut key, 3, KeyLit { lit: "B".to_string(), span: 4 })), (3, "duplicate `key` attribute".to_string()));
    let k = get_key_attr::<Plain>(0, vec![Ok(None), Ok(Some(KeyLit { lit: "MODE".to_string(), span: 1 }))]).ok().unwrap();
    assert_eq!(k.lit, "MODE");
    let r = get_key_attr::<Plain>(0, vec![Ok(Some(KeyLit { lit: "A".to_string(), span: 1 })), Ok(Some(KeyLit { lit: "B".to_string(), span: 2 }))]);
    assert_eq!(err_of(r), (2, "duplicate `key` attribute".to_string()));
    assert_eq!(err_of(get_key_attr::<Plain>(7, vec![Ok(None)])), (7, "missing required `key` attribute".to_string()));
}

fn variant_attrs(default_span: Option<u32>, value: Option<(&str, u32)>) -> VariantAttrs<Plain> {
    VariantAttrs {
        default: default_span.map(|span| VariantDefault { ident: "default".to_string(), span }),
        value: value.map(|(text, span)| Value { span, lit_span: span + 5, value: format!("{:?}", text), text: text.to_string() }),
    }
}

fn raw_variant(name: &str, span: u32, attrs: VariantAttrs<Plain>, fields: Vec<RawField<Plain>>) -> RawVariant<Plain> {
    RawVariant { name: name.to_string(), name_span: span, attrs: vec![Ok(attrs)], fields }
}

#[test]
fn variant_argument_names() {
    assert!(VariantAttrs::<Plain>::arg_name("default", 0).ok() == Some(VariantArgName::Default));
    assert!(VariantAttrs::<Plain>::arg_name("value", 0).ok() == Some(VariantArgName::Value));
    assert_eq!(err_of(VariantAttrs::<Plain>::arg_name("key", 3)), (3, "unrecognized argument".to_string()));
    let mut a = VariantAttrs::<Plain>::empty();
    assert!(a.add_arg(VariantArg::Default(VariantDefault { ident: "default".to_string(), span: 1 })).is_ok());
    let r = a.add_arg(VariantArg::Default(VariantDefault { ident: "default".to_string(), span: 2 }));
    assert_eq!(err_of(r), (2, "duplicate `default` attribute".to_string()));
    let r = VariantAttrs::parse_all(vec![Ok(variant_attrs(None, Some(("A", 1)))), Ok(variant_attrs(None, Some(("B", 5))))]);
    assert_eq!(err_of(r), (5, "duplicate `value` attribute".to_string()));
}

#[test]
fn variant_contents() {
    let unit = VariantContent::<Plain>::parse(vec![]).ok().unwrap();
    assert!(matches!(unit, VariantContent::Unit));
    let nested = RawField::<Plain> { name: None, ty: plain_type("EmulatedFirebaseEnv"), attrs: vec![], span: 0 };
    let c = VariantContent::parse(vec![nested]).ok().unwrap();
    assert!(matches!(c, VariantContent::Nested(ref t) if t == "EmulatedFirebaseEnv"));
    let inline = named("firebase_credentials_path", 0, plain_type("PathBuf"), vec![]);
    let c = VariantContent::parse(vec![inline]).ok().unwrap();
    assert!(matches!(c, VariantContent::InlineStruct(ref fs) if fs.len() == 1));
}

#[test]
fn variant_requires_value() {
    let r = Variant::parse(raw_variant("InBetween", 6, variant_attrs(None, None), vec![]));
    assert_eq!(err_of(r), (6, "missing required `value` attribute".to_string()));
}

fn parsed_variants() -> Vec<Variant<Plain>> {
    vec![
        Variant::parse(raw_variant("InBetween", 1, variant_attrs(None, Some(("IN_BETWEEN", 10))), vec![])).ok().unwrap(),
        Variant::parse(raw_variant("Actual", 2, variant_attrs(Some(21), Some(("ACTUAL", 20))), vec![])).ok().unwrap(),
        Variant::parse(raw_variant("Emulated", 3, variant_attrs(None, Some(("EMULATOR", 30))), vec![])).ok().unwrap(),
    ]
}

#[test]
fn variants_validate() {
    let vs = parsed_variants();
    assert_eq!(validate_variants_extract_default(&vs).ok().unwrap(), Some(1));
    let mut vs = parsed_variants();
    vs[0].default = None;
    vs[1].default = None;
    assert_eq!(validate_variants_extract_default(&vs).ok().unwrap(), None);
}

#[test]
fn two_defaults_refused() {
    let mut vs = parsed_variants();
    vs[2].default = Some(VariantDefault { ident: "default".to_string(), span: 31 });
    assert_eq!(err_of(validate_variants_extract_default(&vs)), (31, "there can only be one default variant".to_string()));
}

#[test]
fn duplicate_values_refused() {
    let mut vs = parsed_variants();
    vs[2].value.text = "IN_BETWEEN".to_string();
    assert_eq!(err_of(validate_variants_extract_default(&vs)), (35, "duplicate variant value".to_string()));
}

#[test]
fn enum_parses() {
    let raws = vec![
        raw_variant("InBetween", 1, variant_attrs(None, Some(("IN_BETWEEN", 10))), vec![]),
        raw_variant("Actual", 2, variant_attrs(Some(21), Some(("ACTUAL", 20))), vec![named("firebase_credentials_path", 22, plain_type("PathBuf"), vec![])]),
    ];
    let key = vec![Ok(Some(KeyLit { lit: "\"FIREBASE_MODE\"".to_string(), span: 0 }))];
    let e = EnvEnum::parse("FirebaseMode".to_string(), 0, key, raws).ok().unwrap();
    assert_eq!(e.default, Some(1));
    assert_eq!(e.variants.len(), 2);
    let r = expand_input::<Plain>("FirebaseMode".to_string(), 9, InputData::Enum { key_attrs: vec![], variants: vec![] });
    assert_eq!(err_of(r), (9, "missing required `key` attribute".to_string()));
    let r = expand_input::<Plain>("Env".to_string(), 9, InputData::Struct(vec![]));
    assert!(matches!(r, Ok(Expansion::Struct(_))));
}
