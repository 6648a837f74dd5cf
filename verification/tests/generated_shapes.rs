//! Implementations written in the shape the `EnvStructure` derive gives
//! them, for the configuration types of the derive's own examples.

use env_structure::{load_and_trace, EnvStructure, Environment, ParseCtx, RawInput, TraceLog};

struct Env {
    gcp_project_id: String,
    firestore_database_name: String,
    secret_phrase: Option<String>,
    secret_number: Option<u32>,
    emulator_env: Option<EmulatorEnv>,
}

struct EmulatorEnv {
    firestore_emulator_host: String,
    firebase_auth_emulator_host: String,
}

fn validate_secret_number(val: &u32) -> Result<(), &'static str> {
    if *val > 10 {
        return Err("must be less than 10");
    }
    Ok(())
}

impl EnvStructure for Env {
    fn parse(ctx: &mut ParseCtx) -> Option<Self> {
        let gcp_project_id = ctx.parse("GCP_PROJECT_ID", false);
        let firestore_database_name = ctx.parse_with_default("FIRESTORE_DATABASE_NAME", || ("(default)").into());
        let secret_phrase = ctx.parse("SECRET_PHRASE", true);
        let secret_number = ctx.parse_validated("SECRET_NUMBER", validate_secret_number, true);
        let emulator_env = ctx.parse_nested_if("USE_EMULATOR");
        if ctx.has_errors() {
            return None;
        }
        Some(Self {
            gcp_project_id: gcp_project_id.unwrap(),
            firestore_database_name,
            secret_phrase,
            secret_number,
            emulator_env,
        })
    }
}

impl EnvStructure for EmulatorEnv {
    fn parse(ctx: &mut ParseCtx) -> Option<Self> {
        let firestore_emulator_host = ctx.parse("FIRESTORE_EMULATOR_HOST", false);
        let firebase_auth_emulator_host = ctx.parse("FIREBASE_AUTH_EMULATOR_HOST", false);
        if ctx.has_errors() {
            return None;
        }
        Some(Self {
            firestore_emulator_host: firestore_emulator_host.unwrap(),
            firebase_auth_emulator_host: firebase_auth_emulator_host.unwrap(),
        })
    }
}

enum FirebaseMode {
    InBetween,
    Actual { firebase_credentials_path: RawInput },
    Emulated(EmulatorEnv),
}

impl EnvStructure for FirebaseMode {
    fn parse(ctx: &mut ParseCtx) -> Option<Self> {
        let key = ctx.parse_discriminant_with_default(
            "FIREBASE_MODE",
            &["IN_BETWEEN", "ACTUAL", "EMULATOR"],
            "FirebaseMode",
            1usize,
        );
        match key {
            0usize => Some(Self::InBetween),
            1usize => {
                struct __Inner {
                    firebase_credentials_path: RawInput,
                }
                impl EnvStructure for __Inner {
                    fn parse(ctx: &mut ParseCtx) -> Option<Self> {
                        let firebase_credentials_path = ctx.parse("FIREBASE_CREDENTIALS_PATH", false);
                        if ctx.has_errors() {
                            return None;
                        }
                        Some(Self { firebase_credentials_path: firebase_credentials_path.unwrap() })
                    }
                }
                ctx.parse_nested().map(|x: __Inner| Self::Actual {
                    firebase_credentials_path: x.firebase_credentials_path,
                })
            }
            2usize => ctx.parse_nested().map(Self::Emulated),
            _ => None,
        }
    }
}

fn env_of(pairs: &[(&str, &str)]) -> Environment {
    let mut env = Environment::new();
    for (k, v) in pairs {
        env.set_str(k, v);
    }
    env
}

#[test]
fn struct_with_every_kind_of_field() {
    let env = env_of(&[
        ("GCP_PROJECT_ID", "demo"),
        ("SECRET_NUMBER", "7"),
        ("USE_EMULATOR", "true"),
        ("FIRESTORE_EMULATOR_HOST", "localhost:8080"),
        ("FIREBASE_AUTH_EMULATOR_HOST", "localhost:9099"),
    ]);
    let mut log = TraceLog::new();
    let cfg: Env = match load_and_trace(&env, &mut log) {
        Ok(c) => c,
        Err(_) => panic!("expected the load to succeed"),
    };
    assert_eq!(cfg.gcp_project_id, "demo");
    assert_eq!(cfg.firestore_database_name, "(default)");
    assert_eq!(cfg.secret_phrase, None);
    assert_eq!(cfg.secret_number, Some(7));
    let emulator = cfg.emulator_env.unwrap();
    assert_eq!(emulator.firestore_emulator_host, "localhost:8080");
    assert_eq!(emulator.firebase_auth_emulator_host, "localhost:9099");
    let lines: Vec<&str> = log.entries.iter().map(|e| e.text.as_str()).collect();
    assert_eq!(lines, vec!["FIRESTORE_DATABASE_NAME not found in environment: (default)"]);
}

#[test]
fn struct_with_invalid_and_missing_values_fails() {
    let env = env_of(&[("SECRET_NUMBER", "11"), ("USE_EMULATOR", "yes")]);
    let mut log = TraceLog::new();
    let r: Result<Env, _> = load_and_trace(&env, &mut log);
    assert!(r.is_err());
    let lines: Vec<&str> = log.entries.iter().map(|e| e.text.as_str()).collect();
    assert_eq!(
        lines,
        vec![
            "FIRESTORE_DATABASE_NAME not found in environment: (default)",
            "GCP_PROJECT_ID not found in environment",
            "FIRESTORE_EMULATOR_HOST not found in environment",
            "FIREBASE_AUTH_EMULATOR_HOST not found in environment",
        ]
    );
}

#[test]
fn enum_selected_by_its_variable() {
    let env = env_of(&[
        ("FIREBASE_MODE", "EMULATOR"),
        ("FIRESTORE_EMULATOR_HOST", "a"),
        ("FIREBASE_AUTH_EMULATOR_HOST", "b"),
    ]);
    let mut log = TraceLog::new();
    match load_and_trace::<FirebaseMode>(&env, &mut log) {
        Ok(FirebaseMode::Emulated(e)) => {
            assert_eq!(e.firestore_emulator_host, "a");
            assert_eq!(e.firebase_auth_emulator_host, "b");
        }
        _ => panic!("expected the emulated mode"),
    }
    assert!(log.entries.is_empty());
}

#[test]
fn enum_default_variant_when_missing() {
    let env = env_of(&[("FIREBASE_CREDENTIALS_PATH", "/creds.json")]);
    let mut log = TraceLog::new();
    match load_and_trace::<FirebaseMode>(&env, &mut log) {
        Ok(FirebaseMode::Actual { firebase_credentials_path: RawInput::String(p) }) => {
            assert_eq!(p, "/creds.json")
        }
        _ => panic!("expected the actual mode"),
    }
    let lines: Vec<&str> = log.entries.iter().map(|e| e.text.as_str()).collect();
    assert_eq!(lines, vec!["FIREBASE_MODE not found in environment: ACTUAL"]);
}

#[test]
fn enum_unit_variant() {
    let env = env_of(&[("FIREBASE_MODE", "IN_BETWEEN")]);
    let mut log = TraceLog::new();
    assert!(matches!(load_and_trace::<FirebaseMode>(&env, &mut log), Ok(FirebaseMode::InBetween)));
}
