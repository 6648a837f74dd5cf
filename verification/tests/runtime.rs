use env_structure::nonzero::{NonZeroI32, NonZeroU8, NonZeroUsize};
use env_structure::{
    load_and_trace, DisplayWrapper, EnvDisplay, EnvStructure, Environment, FromEnvCtx, ParseCtx,
    ParseIssue, ParseIssueKind, RawInput, RawOsString, TraceLevel, TraceLog, VarError,
};

fn env_of(pairs: &[(&str, &str)]) -> Environment {
    let mut env = Environment::new();
    for (k, v) in pairs {
        env.set_str(k, v);
    }
    env
}

fn non_unicode(bytes: &[u8], debug: &str) -> RawInput {
    RawInput::OsString(RawOsString { bytes: bytes.to_vec(), debug: debug.to_string() })
}

fn texts(issues: &Vec<ParseIssue>) -> Vec<String> {
    issues.iter().map(|i| i.to_text()).collect()
}

#[test]
fn environment_later_value_overrides() {
    let env = env_of(&[("A", "1"), ("B", "2"), ("A", "3")]);
    assert!(matches!(env.var("A"), Ok(s) if s == "3"));
    assert!(matches!(env.var("B"), Ok(s) if s == "2"));
    assert!(matches!(env.var("C"), Err(VarError::NotPresent)));
}

#[test]
fn environment_non_unicode_value() {
    let mut env = Environment::new();
    env.set("P".to_string(), non_unicode(&[0x66, 0xff], "\"f\\xFF\""));
    match env.var("P") {
        Err(VarError::NotUnicode(o)) => {
            assert_eq!(o.bytes, vec![0x66, 0xff]);
            assert_eq!(o.debug, "\"f\\xFF\"");
        }
        _ => panic!("expected a non-unicode value"),
    }
}

#[test]
fn bool_values_accepted() {
    let env = env_of(&[
        ("T1", "true"), ("T2", "TRUE"), ("T3", "yes"), ("T4", "YES"), ("T5", "1"),
        ("F1", "false"), ("F2", "FALSE"), ("F3", "no"), ("F4", "NO"), ("F5", "0"),
    ]);
    let mut ctx = ParseCtx::new(&env);
    for k in ["T1", "T2", "T3", "T4", "T5"] {
        assert_eq!(ctx.parse::<bool>(k, false), Some(true));
    }
    for k in ["F1", "F2", "F3", "F4", "F5"] {
        assert_eq!(ctx.parse::<bool>(k, false), Some(false));
    }
    assert!(!ctx.has_errors());
}

#[test]
fn bool_invalid_value_is_error() {
    let env = env_of(&[("FLAG", "True")]);
    let mut ctx = ParseCtx::new(&env);
    assert_eq!(ctx.parse::<bool>("FLAG", false), None);
    assert!(ctx.has_errors());
    assert_eq!(texts(ctx.errors()), vec!["FLAG=True; not a valid boolean".to_string()]);
}

#[test]
fn missing_required_value_is_error() {
    let env = Environment::new();
    let mut ctx = ParseCtx::new(&env);
    assert_eq!(ctx.parse::<String>("HOST", false), None);
    assert_eq!(texts(ctx.errors()), vec!["HOST not found in environment".to_string()]);
    assert!(ctx.warnings().is_empty());
    assert!(ctx.infos().is_empty());
}

#[test]
fn missing_optional_value_is_silent() {
    let env = Environment::new();
    let mut ctx = ParseCtx::new(&env);
    assert_eq!(ctx.parse::<String>("HOST", true), None);
    assert!(!ctx.has_errors());
    assert!(ctx.warnings().is_empty());
    assert!(ctx.infos().is_empty());
}

#[test]
fn invalid_optional_value_is_silent() {
    let env = env_of(&[("PORT", "http")]);
    let mut ctx = ParseCtx::new(&env);
    assert_eq!(ctx.parse::<u16>("PORT", true), None);
    assert!(!ctx.has_errors());
    assert!(ctx.warnings().is_empty() && ctx.infos().is_empty());
    assert_eq!(ctx.parse::<u16>("PORT", false), None);
    assert_eq!(texts(ctx.errors()), vec!["PORT=http; invalid digit found in string".to_string()]);
}

#[test]
fn refused_optional_value_is_silent() {
    let env = env_of(&[("N", "11")]);
    let mut ctx = ParseCtx::new(&env);
    assert_eq!(ctx.parse_validated::<u32, _, _>("N", at_most_ten, true), None);
    assert!(!ctx.has_errors());
    assert!(ctx.warnings().is_empty() && ctx.infos().is_empty());
}

#[test]
fn integers_parse() {
    let env = env_of(&[
        ("A", "42"), ("B", "+7"), ("C", "-12"), ("D", "255"), ("E", "256"), ("F", "-1"),
        ("G", "-9223372036854775808"), ("H", "340282366920938463463374607431768211455"),
    ]);
    let mut ctx = ParseCtx::new(&env);
    assert_eq!(ctx.parse::<u32>("A", false), Some(42));
    assert_eq!(ctx.parse::<u8>("B", false), Some(7));
    assert_eq!(ctx.parse::<i32>("C", false), Some(-12));
    assert_eq!(ctx.parse::<u8>("D", false), Some(255));
    assert!(!ctx.has_errors());
    assert_eq!(ctx.parse::<u8>("E", false), None);
    assert_eq!(ctx.parse::<u64>("F", false), None);
    assert_eq!(ctx.parse::<i64>("G", false), Some(i64::MIN));
    assert_eq!(ctx.parse::<u128>("H", false), Some(u128::MAX));
    assert_eq!(
        texts(ctx.errors()),
        vec![
            "E=256; number too large to fit in target type".to_string(),
            "F=-1; invalid digit found in string".to_string(),
        ]
    );
}

#[test]
fn integers_of_every_width() {
    let env = env_of(&[("N", "-100"), ("P", "100")]);
    let mut ctx = ParseCtx::new(&env);
    assert_eq!(ctx.parse::<i8>("N", false), Some(-100));
    assert_eq!(ctx.parse::<i16>("N", false), Some(-100));
    assert_eq!(ctx.parse::<i128>("N", false), Some(-100));
    assert_eq!(ctx.parse::<isize>("N", false), Some(-100));
    assert_eq!(ctx.parse::<u16>("P", false), Some(100));
    assert_eq!(ctx.parse::<u64>("P", false), Some(100));
    assert_eq!(ctx.parse::<usize>("P", false), Some(100));
    assert!(!ctx.has_errors());
}

#[test]
fn integer_display_texts() {
    assert_eq!(0u8.display(), "0");
    assert_eq!(255u8.display(), "255");
    assert_eq!((-128i8).display(), "-128");
    assert_eq!(i128::MIN.display(), "-170141183460469231731687303715884105728");
    assert_eq!(u128::MAX.display(), "340282366920938463463374607431768211455");
    assert_eq!(1234567890u64.display(), "1234567890");
    assert_eq!(true.display(), "true");
    assert_eq!(false.display(), "false");
}

#[test]
fn integer_display_parses_back() {
    let values: Vec<i64> = vec![0, 1, -1, 9, 10, -10, 12345, i64::MAX, i64::MIN];
    for v in values {
        let mut env = Environment::new();
        env.set_str("V", &v.display());
        let mut ctx = ParseCtx::new(&env);
        assert_eq!(ctx.parse::<i64>("V", false), Some(v));
    }
}

#[test]
fn default_for_missing_value_is_info() {
    let env = Environment::new();
    let mut ctx = ParseCtx::new(&env);
    let v: u32 = ctx.parse_with_default("RETRIES", || 3);
    assert_eq!(v, 3);
    assert!(!ctx.has_errors());
    assert!(ctx.warnings().is_empty());
    assert_eq!(texts(ctx.infos()), vec!["RETRIES not found in environment: 3".to_string()]);
}

#[test]
fn default_for_invalid_value_is_warning() {
    let env = env_of(&[("RETRIES", "many")]);
    let mut ctx = ParseCtx::new(&env);
    let v: u32 = ctx.parse_with_default("RETRIES", || 3);
    assert_eq!(v, 3);
    assert!(!ctx.has_errors());
    assert!(ctx.infos().is_empty());
    assert_eq!(
        texts(ctx.warnings()),
        vec!["RETRIES=many; invalid digit found in string: 3".to_string()]
    );
}

#[test]
fn present_value_ignores_default() {
    let env = env_of(&[("NAME", "db")]);
    let mut ctx = ParseCtx::new(&env);
    let v: String = ctx.parse_with_default("NAME", || "(default)".to_string());
    assert_eq!(v, "db");
    assert!(ctx.infos().is_empty() && ctx.warnings().is_empty() && !ctx.has_errors());
}

fn at_most_ten(v: &u32) -> Result<(), &'static str> {
    if *v > 10 {
        return Err("must be less than 10");
    }
    Ok(())
}

#[test]
fn validated_value() {
    let env = env_of(&[("OK", "4"), ("BAD", "11")]);
    let mut ctx = ParseCtx::new(&env);
    assert_eq!(ctx.parse_validated::<u32, _, _>("OK", at_most_ten, false), Some(4));
    assert!(!ctx.has_errors());
    assert_eq!(ctx.parse_validated::<u32, _, _>("BAD", at_most_ten, false), None);
    assert_eq!(texts(ctx.errors()), vec!["BAD=11; must be less than 10".to_string()]);
    assert_eq!(ctx.parse_validated::<u32, _, _>("MISSING", at_most_ten, true), None);
    assert_eq!(ctx.errors().len(), 1);
}

#[test]
fn validated_with_default_replaces_invalid_value() {
    let env = env_of(&[("BAD", "11")]);
    let mut ctx = ParseCtx::new(&env);
    let v: u32 = ctx.parse_validated_with_default("BAD", at_most_ten, || 5);
    assert_eq!(v, 5);
    assert!(!ctx.has_errors());
    assert_eq!(
        texts(ctx.warnings()),
        vec!["BAD=11; must be less than 10: defaulting to '5".to_string()]
    );
}

#[test]
fn validated_with_default_missing_value_is_info() {
    let env = Environment::new();
    let mut ctx = ParseCtx::new(&env);
    let v: u32 = ctx.parse_validated_with_default("N", at_most_ten, || 2);
    assert_eq!(v, 2);
    assert_eq!(texts(ctx.infos()), vec!["N not found in environment: defaulting to '2".to_string()]);
}

#[test]
fn invalid_default_is_error() {
    let env = Environment::new();
    let mut ctx = ParseCtx::new(&env);
    let v: u32 = ctx.parse_validated_with_default("N", at_most_ten, || 50);
    assert_eq!(v, 50);
    assert_eq!(
        texts(ctx.errors()),
        vec!["N not found in environment: default value '50' is invalid: must be less than 10".to_string()]
    );
}

#[test]
fn report_and_default_directly() {
    let env = Environment::new();
    let mut ctx = ParseCtx::new(&env);
    let issue = ParseIssue::invalid_value("X", "abc".to_string(), "bad".to_string());
    let v: u32 = ctx.report_and_default(issue, at_most_ten, || 1);
    assert_eq!(v, 1);
    assert_eq!(texts(ctx.warnings()), vec!["X=abc; bad: defaulting to '1".to_string()]);
}

#[test]
fn merge_concatenates_reports() {
    let env = Environment::new();
    let mut a = ParseCtx::new(&env);
    let mut b = ParseCtx::new(&env);
    assert_eq!(a.parse::<u8>("A", false), None);
    assert_eq!(b.parse::<u8>("B", false), None);
    let _: u8 = b.parse_with_default("C", || 1);
    a.merge(b);
    assert_eq!(
        texts(a.errors()),
        vec!["A not found in environment".to_string(), "B not found in environment".to_string()]
    );
    assert_eq!(texts(a.infos()), vec!["C not found in environment: 1".to_string()]);
}

struct Emulator {
    host: String,
    port: u16,
}

impl EnvStructure for Emulator {
    fn parse(ctx: &mut ParseCtx) -> Option<Self> {
        let host = ctx.parse::<String>("EMULATOR_HOST", false);
        let port = ctx.parse_with_default::<u16, _>("EMULATOR_PORT", || 8080);
        if ctx.has_errors() {
            return None;
        }
        Some(Emulator { host: host.unwrap(), port })
    }
}

#[test]
fn nested_structure_reports_into_parent() {
    let env = env_of(&[("EMULATOR_HOST", "localhost")]);
    let mut ctx = ParseCtx::new(&env);
    let e: Option<Emulator> = ctx.parse_nested();
    let e = e.unwrap();
    assert_eq!(e.host, "localhost");
    assert_eq!(e.port, 8080);
    assert_eq!(texts(ctx.infos()), vec!["EMULATOR_PORT not found in environment: 8080".to_string()]);
}

#[test]
fn nested_if_condition_false_skips() {
    let env = env_of(&[("USE_EMULATOR", "no")]);
    let mut ctx = ParseCtx::new(&env);
    let e: Option<Emulator> = ctx.parse_nested_if("USE_EMULATOR");
    assert!(e.is_none());
    assert!(!ctx.has_errors());
    assert!(ctx.infos().is_empty());
}

#[test]
fn nested_if_missing_condition_is_false() {
    let env = Environment::new();
    let mut ctx = ParseCtx::new(&env);
    let e: Option<Emulator> = ctx.parse_nested_if("USE_EMULATOR");
    assert!(e.is_none());
    assert!(!ctx.has_errors());
    assert_eq!(texts(ctx.infos()), vec!["USE_EMULATOR not found in environment: false".to_string()]);
}

#[test]
fn nested_if_condition_true_loads() {
    let env = env_of(&[("USE_EMULATOR", "1")]);
    let mut ctx = ParseCtx::new(&env);
    let e: Option<Emulator> = ctx.parse_nested_if("USE_EMULATOR");
    assert!(e.is_none());
    assert_eq!(texts(ctx.errors()), vec!["EMULATOR_HOST not found in environment".to_string()]);
}

#[test]
fn discriminant_selects_variant() {
    let env = env_of(&[("MODE", "EMULATOR"), ("BAD", "other")]);
    let values = ["IN_BETWEEN", "ACTUAL", "EMULATOR"];
    let mut ctx = ParseCtx::new(&env);
    assert_eq!(ctx.parse_discriminant("MODE", &values, "FirebaseMode", false), Some(2));
    assert_eq!(ctx.parse_discriminant("BAD", &values, "FirebaseMode", false), None);
    assert_eq!(
        texts(ctx.errors()),
        vec!["BAD=other; not a valid discriminant for FirebaseMode".to_string()]
    );
}

#[test]
fn discriminant_default() {
    let env = env_of(&[("BAD", "other")]);
    let values = ["IN_BETWEEN", "ACTUAL", "EMULATOR"];
    let mut ctx = ParseCtx::new(&env);
    assert_eq!(ctx.parse_discriminant_with_default("MODE", &values, "FirebaseMode", 1), 1);
    assert_eq!(ctx.parse_discriminant_with_default("BAD", &values, "FirebaseMode", 1), 1);
    assert_eq!(texts(ctx.infos()), vec!["MODE not found in environment: ACTUAL".to_string()]);
    assert_eq!(
        texts(ctx.warnings()),
        vec!["BAD=other; not a valid discriminant for FirebaseMode: ACTUAL".to_string()]
    );
}

#[test]
fn secret_value_is_redacted() {
    let env = env_of(&[("TOKEN", "hunter2")]);
    let r = FromEnvCtx::new(&env, "TOKEN", true).parse::<u32>();
    match r {
        Err(ParseIssueKind::InvalidValue { value, msg }) => {
            assert_eq!(value, "<REDACTED>");
            assert_eq!(msg, "invalid digit found in string");
        }
        _ => panic!("expected an invalid value"),
    }
}

#[test]
fn non_unicode_value_is_invalid() {
    let mut env = Environment::new();
    env.set("P".to_string(), non_unicode(&[0xff], "\"\\xFF\""));
    let mut ctx = ParseCtx::new(&env);
    assert_eq!(ctx.parse::<String>("P", false), None);
    assert_eq!(texts(ctx.errors()), vec!["P=\"\\xFF\"; not valid unicode".to_string()]);
}

#[test]
fn raw_value_accepts_non_unicode() {
    let mut env = Environment::new();
    env.set("P".to_string(), non_unicode(&[0xff], "\"\\xFF\""));
    env.set_str("Q", "/tmp");
    let mut ctx = ParseCtx::new(&env);
    match ctx.parse::<RawInput>("P", false) {
        Some(RawInput::OsString(o)) => assert_eq!(o.bytes, vec![0xff]),
        _ => panic!("expected the raw value"),
    }
    match ctx.parse::<RawInput>("Q", false) {
        Some(RawInput::String(s)) => assert_eq!(s, "/tmp"),
        _ => panic!("expected the raw value"),
    }
    assert!(!ctx.has_errors());
}

#[test]
fn issue_kind_from_var_error() {
    assert!(ParseIssueKind::from_var_error(VarError::NotPresent).is_not_found());
    let os = RawOsString { bytes: vec![0xff], debug: "\"\\xFF\"".to_string() };
    match ParseIssueKind::from_var_error(VarError::NotUnicode(os)) {
        ParseIssueKind::InvalidValue { value, msg } => {
            assert_eq!(value, "\"\\xFF\"");
            assert_eq!(msg, "not valid unicode");
        }
        ParseIssueKind::NotFound => panic!("expected an invalid value"),
    }
}

#[test]
fn issue_texts() {
    assert_eq!(
        ParseIssue::new("K", ParseIssueKind::NotFound).to_text(),
        "K not found in environment"
    );
    let kind = ParseIssueKind::invalid_value(DisplayWrapper(&7u8), "too small");
    assert!(!kind.is_not_found());
    let issue = ParseIssue::new("K", kind).with_recovery("using 8".to_string());
    assert_eq!(issue.to_text(), "K=7; too small: using 8");
}

struct Config {
    host: String,
}

impl EnvStructure for Config {
    fn parse(ctx: &mut ParseCtx) -> Option<Self> {
        let host = ctx.parse::<String>("HOST", false);
        let _verbose: bool = ctx.parse_with_default("VERBOSE", || false);
        if ctx.has_errors() {
            return None;
        }
        Some(Config { host: host.unwrap() })
    }
}

#[test]
fn load_succeeds_and_traces_infos() {
    let env = env_of(&[("HOST", "example.org")]);
    let mut log = TraceLog::new();
    let cfg: Config = match load_and_trace(&env, &mut log) {
        Ok(c) => c,
        Err(_) => panic!("expected the load to succeed"),
    };
    assert_eq!(cfg.host, "example.org");
    assert_eq!(log.entries.len(), 1);
    assert!(log.entries[0].level == TraceLevel::Info);
    assert_eq!(log.entries[0].text, "VERBOSE not found in environment: false");
}

#[test]
fn load_fails_on_error_and_traces_in_order() {
    let env = env_of(&[("VERBOSE", "maybe")]);
    let mut log = TraceLog::new();
    let r: Result<Config, _> = load_and_trace(&env, &mut log);
    let err = match r {
        Err(e) => e,
        Ok(_) => panic!("expected the load to fail"),
    };
    assert_eq!(err.to_text(), "failed to load environment");
    assert_eq!(log.entries.len(), 2);
    assert!(log.entries[0].level == TraceLevel::Warn);
    assert_eq!(log.entries[0].text, "VERBOSE=maybe; not a valid boolean: false");
    assert!(log.entries[1].level == TraceLevel::Error);
    assert_eq!(log.entries[1].text, "HOST not found in environment");
}

#[test]
fn bool_display_parses_back() {
    for b in [true, false] {
        let mut env = Environment::new();
        env.set_str("B", &b.display());
        let mut ctx = ParseCtx::new(&env);
        assert_eq!(ctx.parse::<bool>("B", false), Some(b));
    }
}

#[test]
fn every_integer_width_parses_its_display_back() {
    let mut env = Environment::new();
    env.set_str("U8", &u8::MAX.display());
    env.set_str("U16", &u16::MAX.display());
    env.set_str("U32", &u32::MAX.display());
    env.set_str("USIZE", &usize::MAX.display());
    env.set_str("I8", &i8::MIN.display());
    env.set_str("I16", &i16::MIN.display());
    env.set_str("I32", &i32::MIN.display());
    env.set_str("I128", &i128::MAX.display());
    env.set_str("ISIZE", &isize::MIN.display());
    let mut ctx = ParseCtx::new(&env);
    assert_eq!(ctx.parse::<u8>("U8", false), Some(u8::MAX));
    assert_eq!(ctx.parse::<u16>("U16", false), Some(u16::MAX));
    assert_eq!(ctx.parse::<u32>("U32", false), Some(u32::MAX));
    assert_eq!(ctx.parse::<usize>("USIZE", false), Some(usize::MAX));
    assert_eq!(ctx.parse::<i8>("I8", false), Some(i8::MIN));
    assert_eq!(ctx.parse::<i16>("I16", false), Some(i16::MIN));
    assert_eq!(ctx.parse::<i32>("I32", false), Some(i32::MIN));
    assert_eq!(ctx.parse::<i128>("I128", false), Some(i128::MAX));
    assert_eq!(ctx.parse::<isize>("ISIZE", false), Some(isize::MIN));
    assert!(!ctx.has_errors());
}

#[test]
fn raw_value_is_shown_by_its_debug_text() {
    assert_eq!(RawInput::String("/tmp/a b".to_string()).display(), "\"/tmp/a b\"");
    assert_eq!(RawInput::String("say \"hi\"".to_string()).display(), "\"say \\\"hi\\\"\"");
    assert_eq!(non_unicode(&[0xff], "\"\\xFF\"").display(), "\"\\xFF\"");
    assert_eq!(RawInput::String("it's".to_string()).display(), "\"it's\"");
    for text in ["it's", "a\tb", "q\"uote", "/x/y"] {
        let shown = RawInput::String(text.to_string()).display();
        assert_eq!(shown, format!("{:?}", std::path::PathBuf::from(text)));
    }
}

#[test]
fn raw_default_is_shown_in_recovery() {
    let env = Environment::new();
    let mut ctx = ParseCtx::new(&env);
    let v: RawInput = ctx.parse_with_default("PATH_DIR", || RawInput::String("/etc".to_string()));
    assert!(matches!(v, RawInput::String(ref s) if s == "/etc"));
    assert_eq!(texts(ctx.infos()), vec!["PATH_DIR not found in environment: \"/etc\"".to_string()]);
}

#[test]
fn reports_only_grow() {
    let env = env_of(&[("BAD", "x")]);
    let mut ctx = ParseCtx::new(&env);
    assert_eq!(ctx.parse::<u8>("MISSING", false), None);
    let before = texts(ctx.errors());
    let _: u8 = ctx.parse_with_default("BAD", || 1);
    assert_eq!(ctx.parse::<u8>("BAD", false), None);
    let after = texts(ctx.errors());
    assert_eq!(&after[..before.len()], &before[..]);
    assert_eq!(after.len(), 2);
    assert_eq!(ctx.warnings().len(), 1);
}

#[test]
fn finish_load_traces_and_decides() {
    let env = env_of(&[("BAD", "x")]);
    let mut ctx = ParseCtx::new(&env);
    let _: u8 = ctx.parse_with_default("MISSING", || 1);
    let _: u8 = ctx.parse_with_default("BAD", || 2);
    let mut log = TraceLog::new();
    match env_structure::finish_load(Some(5u8), &ctx, &mut log) {
        Ok(v) => assert_eq!(v, 5),
        Err(_) => panic!("expected the load to succeed"),
    }
    assert_eq!(log.entries.len(), 2);
    assert!(log.entries[0].level == TraceLevel::Info);
    assert!(log.entries[1].level == TraceLevel::Warn);
    let mut log = TraceLog::new();
    assert!(env_structure::finish_load(None::<u8>, &ctx, &mut log).is_err());
    assert_eq!(ctx.parse::<u8>("MISSING", false), None);
    let mut log = TraceLog::new();
    assert!(env_structure::finish_load(Some(5u8), &ctx, &mut log).is_err());
    assert_eq!(log.entries.len(), 3);
    assert!(log.entries[2].level == TraceLevel::Error);
}

#[test]
fn non_zero_values() {
    let env = env_of(&[("A", "5"), ("Z", "0"), ("N", "-7"), ("BIG", "300"), ("U", "+12")]);
    let mut ctx = ParseCtx::new(&env);
    assert_eq!(ctx.parse::<NonZeroU8>("A", false).map(|v| v.get()), Some(5));
    assert_eq!(ctx.parse::<NonZeroI32>("N", false).map(|v| v.get()), Some(-7));
    assert_eq!(ctx.parse::<NonZeroUsize>("U", false).map(|v| v.get()), Some(12));
    assert!(!ctx.has_errors());
    assert!(ctx.parse::<NonZeroU8>("Z", false).is_none());
    assert!(ctx.parse::<NonZeroU8>("BIG", false).is_none());
    assert_eq!(
        texts(ctx.errors()),
        vec![
            format!("Z=0; {}", "0".parse::<std::num::NonZeroU8>().unwrap_err()),
            format!("BIG=300; {}", "300".parse::<std::num::NonZeroU8>().unwrap_err()),
        ]
    );
    assert!(NonZeroU8::new(0).is_none());
    let v = NonZeroI32::new(-42).unwrap();
    assert_eq!(v.display(), "-42");
    let mut env = Environment::new();
    env.set_str("V", &v.display());
    let mut ctx = ParseCtx::new(&env);
    assert_eq!(ctx.parse::<NonZeroI32>("V", false).map(|x| x.get()), Some(-42));
}
