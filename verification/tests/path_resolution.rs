use logfwd::resolver::resolve;
use logfwd::resolver::ResolveError;

#[test]
fn resolve_valid_key_exact_path() {
    let a = resolve("alpha", "1000").unwrap();
    assert_eq!(a.path, "/run/user/1000/seungjin-logger/alpha");
    assert_eq!(a.key, "alpha");
    assert_eq!(a.uid, "1000");
}

#[test]
fn resolve_nested_key_stays_under_namespace() {
    let a = resolve("logs/app", "501").unwrap();
    assert_eq!(a.path, "/run/user/501/seungjin-logger/logs/app");
}

#[test]
fn resolve_strips_single_leading_separator() {
    let a = resolve("/alpha", "1000").unwrap();
    assert_eq!(a.key, "alpha");
    assert_eq!(a.path, "/run/user/1000/seungjin-logger/alpha");
}

#[test]
fn resolve_rejects_key_ending_in_separator() {
    let r = resolve("alpha/", "1000");
    assert_eq!(r.unwrap_err(), ResolveError::KeyDenotesDirectory);
}

#[test]
fn resolve_rejects_bare_separator() {
    let r = resolve("/", "1000");
    assert_eq!(r.unwrap_err(), ResolveError::KeyDenotesDirectory);
}

#[test]
fn resolve_accepts_empty_key() {
    let a = resolve("", "1000").unwrap();
    assert_eq!(a.path, "/run/user/1000/seungjin-logger/");
}

#[test]
fn resolve_idempotent_across_repeated_calls() {
    let a = resolve("beta", "42").unwrap();
    let b = resolve("beta", "42").unwrap();
    assert_eq!(a.uid, b.uid);
    assert_eq!(a.key, b.key);
    assert_eq!(a.path, b.path);
}

#[test]
fn resolve_error_has_descriptive_message() {
    let r = resolve("alpha/", "1000");
    let e = r.unwrap_err();
    assert_eq!(e.message(), "channel key must name a file, not a directory");
}
