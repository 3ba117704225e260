use include_absolute_path::environment::{classify_expansion, expand_env, Environment};
use include_absolute_path::error::ResolveError;

#[test]
fn path_without_dollar_is_unchanged() {
    let mut env = Environment::new();
    env.set("HOME", "/home/alice");
    assert_eq!(expand_env("src/../config.toml", &env), Ok(String::from("src/../config.toml")));
    assert_eq!(expand_env("", &env), Ok(String::new()));
    assert_eq!(expand_env("HOME/{HOME}", &env), Ok(String::from("HOME/{HOME}")));
}

#[test]
fn variable_is_replaced_by_its_value() {
    let mut env = Environment::new();
    env.set("VAR", "value");
    assert_eq!(expand_env("$VAR", &env), Ok(String::from("value")));
    assert_eq!(expand_env("a/$VAR/b", &env), Ok(String::from("a/value/b")));
    assert_eq!(expand_env("a/${VAR}s/b", &env), Ok(String::from("a/values/b")));
    assert_eq!(expand_env("$VAR$VAR", &env), Ok(String::from("valuevalue")));
}

#[test]
fn unset_variable_fails_and_nothing_is_substituted() {
    let mut env = Environment::new();
    env.set("VAR", "value");
    assert_eq!(
        expand_env("$MISSING/file", &env),
        Err(ResolveError::EnvExpansion {
            var_name: String::from("MISSING"),
            path: String::from("$MISSING/file"),
        })
    );
    assert_eq!(
        expand_env("$VAR/${MISSING}", &env),
        Err(ResolveError::EnvExpansion {
            var_name: String::from("MISSING"),
            path: String::from("$VAR/${MISSING}"),
        })
    );
    assert_eq!(
        expand_env("$VARS", &env),
        Err(ResolveError::EnvExpansion {
            var_name: String::from("VARS"),
            path: String::from("$VARS"),
        })
    );
}

#[test]
fn dollar_that_starts_no_variable_is_literal() {
    let env = Environment::new();
    assert_eq!(expand_env("a$/b", &env), Ok(String::from("a$/b")));
    assert_eq!(expand_env("cost$", &env), Ok(String::from("cost$")));
    assert_eq!(expand_env("a$$b", &env), Ok(String::from("a$b")));
    assert_eq!(expand_env("${open", &env), Ok(String::from("${open")));
}

#[test]
fn set_then_get() {
    let mut env = Environment::new();
    assert_eq!(env.get("HOME"), None);
    env.set("HOME", "/home/alice");
    env.set("USER", "alice");
    assert_eq!(env.get("HOME"), Some(String::from("/home/alice")));
    assert_eq!(env.get("USER"), Some(String::from("alice")));
    assert_eq!(env.get("home"), None);
    env.set("HOME", "/home/bob");
    assert_eq!(env.get("HOME"), Some(String::from("/home/bob")));
    assert_eq!(env.get("USER"), Some(String::from("alice")));
}

#[test]
fn empty_value_is_a_value() {
    let mut env = Environment::new();
    env.set("EMPTY", "");
    assert_eq!(expand_env("a/$EMPTY/b", &env), Ok(String::from("a//b")));
}

#[test]
fn classify_expansion_keeps_text_and_names_the_variable() {
    assert_eq!(classify_expansion("$A", Ok(String::from("x"))), Ok(String::from("x")));
    assert_eq!(
        classify_expansion("$A/b", Err(String::from("A"))),
        Err(ResolveError::EnvExpansion { var_name: String::from("A"), path: String::from("$A/b") })
    );
}
