use include_absolute_path::environment::Environment;
use include_absolute_path::error::ResolveError;
use include_absolute_path::resolve::{conclude, place, prepare, LookupOutcome};
use std::path::Path;

fn look_up(raw: &str) -> LookupOutcome {
    match Path::new(raw).canonicalize() {
        Ok(found) => match found.to_str() {
            Some(text) => LookupOutcome::Found(text.to_string()),
            None => LookupOutcome::NotText { display: found.display().to_string() },
        },
        Err(error) => LookupOutcome::Failed { os_error: error.to_string(), cwd: String::from("/") },
    }
}

fn resolve(path: &str, caller: &str, env: &Environment) -> Result<String, ResolveError> {
    let raw = prepare(path, caller, env)?;
    let outcome = look_up(&raw);
    conclude(&raw, outcome)
}

#[test]
fn test_absolute_include_absolute_path() {
    let path = resolve("/home", "/proj/src/main.rs", &Environment::new()).unwrap();
    assert!(path.ends_with("/home"));
}

#[test]
fn absolute_path_ignores_the_caller() {
    let env = Environment::new();
    assert_eq!(prepare("/etc/hosts", "/proj/src/main.rs", &env), Ok(String::from("/etc/hosts")));
    assert_eq!(prepare("/etc/hosts", "/", &env), Ok(String::from("/etc/hosts")));
    assert_eq!(prepare("/etc/hosts", "elsewhere/lib.rs", &env), Ok(String::from("/etc/hosts")));
}

#[test]
fn absolute_path_resolves_to_the_same_entry() {
    let resolved = resolve("/", "/proj/src/main.rs", &Environment::new()).unwrap();
    let again = Path::new(&resolved).canonicalize().unwrap();
    assert_eq!(again, Path::new("/").canonicalize().unwrap());
    assert_eq!(resolved, "/");
}

#[test]
fn relative_path_is_joined_onto_the_callers_directory() {
    let env = Environment::new();
    assert_eq!(
        prepare("../config.toml", "/proj/src/main.ext", &env),
        Ok(String::from("/proj/src/../config.toml"))
    );
    assert_eq!(
        prepare("data/fixture.bin", "/proj/src/main.ext", &env),
        Ok(String::from("/proj/src/data/fixture.bin"))
    );
}

#[test]
fn scenario_relative_config_file() {
    let env = Environment::new();
    let raw = prepare("../config.toml", "/proj/src/main.ext", &env).unwrap();
    assert_eq!(raw, "/proj/src/../config.toml");
    let result = conclude(&raw, LookupOutcome::Found(String::from("/proj/config.toml")));
    assert_eq!(result, Ok(String::from("/proj/config.toml")));
}

#[test]
fn scenario_home_variable() {
    let mut env = Environment::new();
    env.set("HOME", "/home/alice");
    let raw = prepare("$HOME", "/proj/src/main.ext", &env).unwrap();
    assert_eq!(raw, "/home/alice");
    let result = conclude(&raw, LookupOutcome::Found(String::from("/home/alice")));
    assert_eq!(result, Ok(String::from("/home/alice")));
}

#[test]
fn variable_with_subpath() {
    let mut env = Environment::new();
    env.set("HOME", "/home/alice");
    assert_eq!(prepare("$HOME/../", "/proj/src/main.ext", &env), Ok(String::from("/home/alice/../")));
    assert_eq!(
        prepare("${HOME}/.config/app.conf", "/proj/src/main.ext", &env),
        Ok(String::from("/home/alice/.config/app.conf"))
    );
}

#[test]
fn scenario_excessive_traversal_is_rejected_before_lookup() {
    let env = Environment::new();
    assert_eq!(
        prepare("../../../../etc/passwd", "/proj/src/main.ext", &env),
        Err(ResolveError::SuspiciousPath {
            path: String::from("../../../../etc/passwd"),
            up_count: 4,
            total_count: 6,
        })
    );
}

#[test]
fn screen_runs_on_the_expanded_path_and_names_the_path_spec() {
    let mut env = Environment::new();
    env.set("UP", "../../../..");
    assert_eq!(
        prepare("$UP/etc", "/proj/src/main.ext", &env),
        Err(ResolveError::SuspiciousPath {
            path: String::from("$UP/etc"),
            up_count: 4,
            total_count: 5,
        })
    );
}

#[test]
fn absolute_path_is_screened_like_a_relative_one() {
    let env = Environment::new();
    assert_eq!(
        prepare("/a/../../../../b", "/proj/src/main.ext", &env),
        Err(ResolveError::SuspiciousPath {
            path: String::from("/a/../../../../b"),
            up_count: 4,
            total_count: 7,
        })
    );
}

#[test]
fn missing_variable_fails_before_the_screen() {
    let env = Environment::new();
    assert_eq!(
        prepare("$NOWHERE/../../../../x", "/proj/src/main.ext", &env),
        Err(ResolveError::EnvExpansion {
            var_name: String::from("NOWHERE"),
            path: String::from("$NOWHERE/../../../../x"),
        })
    );
}

#[test]
fn caller_without_parent_fails_for_a_relative_path() {
    let env = Environment::new();
    assert_eq!(
        prepare("config.toml", "/", &env),
        Err(ResolveError::NoParentDirectory { caller: String::from("/") })
    );
    assert_eq!(
        prepare("config.toml", "", &env),
        Err(ResolveError::NoParentDirectory { caller: String::new() })
    );
}

#[test]
fn place_screens_then_anchors() {
    assert_eq!(place("$X", "a/b", "/proj/src/main.ext"), Ok(String::from("/proj/src/a/b")));
    assert_eq!(
        place("$X", "..", "/proj/src/main.ext"),
        Err(ResolveError::SuspiciousPath { path: String::from("$X"), up_count: 1, total_count: 1 })
    );
}

#[test]
fn missing_path_fails_with_canonicalization_error() {
    let env = Environment::new();
    let absolute = resolve("/no/such/entry/anywhere", "/proj/src/main.ext", &env);
    match absolute {
        Err(ResolveError::Canonicalization { raw_path, os_error, cwd }) => {
            assert_eq!(raw_path, "/no/such/entry/anywhere");
            assert!(!os_error.is_empty());
            assert_eq!(cwd, "/");
        }
        other => panic!("unexpected result: {:?}", other),
    }
    let relative = resolve("no_such_entry.txt", "/proj/src/main.ext", &env);
    match relative {
        Err(ResolveError::Canonicalization { raw_path, .. }) => {
            assert_eq!(raw_path, "/proj/src/no_such_entry.txt");
        }
        other => panic!("unexpected result: {:?}", other),
    }
}

#[test]
fn conclude_maps_each_outcome() {
    assert_eq!(
        conclude("/a/b", LookupOutcome::Found(String::from("/c"))),
        Ok(String::from("/c"))
    );
    assert_eq!(
        conclude("/a/b", LookupOutcome::NotText { display: String::from("/a/\u{fffd}") }),
        Err(ResolveError::NonUtf8Path { display: String::from("/a/\u{fffd}") })
    );
    assert_eq!(
        conclude(
            "/a/b",
            LookupOutcome::Failed {
                os_error: String::from("No such file or directory (os error 2)"),
                cwd: String::from("/work"),
            }
        ),
        Err(ResolveError::Canonicalization {
            raw_path: String::from("/a/b"),
            os_error: String::from("No such file or directory (os error 2)"),
            cwd: String::from("/work"),
        })
    );
}

#[test]
fn messages_carry_the_context() {
    let missing = ResolveError::EnvExpansion {
        var_name: String::from("HOME"),
        path: String::from("$HOME/x"),
    };
    assert_eq!(
        missing.message(),
        "Failed to expand environment variable 'HOME' in path '$HOME/x'. \
         Make sure the environment variable exists and is valid."
    );
    let suspicious = ResolveError::SuspiciousPath {
        path: String::from("../../../.."),
        up_count: 4,
        total_count: 4,
    };
    assert_eq!(
        suspicious.message(),
        "Path '../../../..' contains suspicious traversal patterns. \
         For security reasons, paths with excessive '..' segments are not allowed."
    );
    let rootless = ResolveError::NoParentDirectory { caller: String::from("/") };
    assert_eq!(
        rootless.message(),
        "Failed to get parent directory of the source file '/'. \
         The file appears to be in the root directory."
    );
    let absent = ResolveError::Canonicalization {
        raw_path: String::from("/a/b"),
        os_error: String::from("No such file or directory (os error 2)"),
        cwd: String::from("/work"),
    };
    assert_eq!(
        absent.message(),
        "Failed to resolve path '/a/b': No such file or directory (os error 2). \
         Make sure the file or directory exists and is accessible. \
         Current working directory: /work"
    );
    let garbled = ResolveError::NonUtf8Path { display: String::from("/a/\u{fffd}") };
    assert_eq!(
        garbled.message(),
        "Path '/a/\u{fffd}' contains invalid UTF-8 characters. \
         This is common on systems with non-UTF-8 file paths. \
         Consider using ASCII-only paths."
    );
}

#[test]
fn plain_reference_to_a_missing_variable_fails() {
    let env = Environment::new();
    assert_eq!(
        prepare("$HOME", "/proj/src/main.ext", &env),
        Err(ResolveError::EnvExpansion {
            var_name: String::from("HOME"),
            path: String::from("$HOME"),
        })
    );
}
