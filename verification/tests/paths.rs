use rsjs::paths::{ensure_js_extension, normalize_virtual_path, resolve_relative, JsFile, JsLoader, JsResolver};

#[test]
fn normalize_resolves_dots_and_keeps_protocol() {
    let (p, n) = normalize_virtual_path("res://a/./b/../c");
    assert_eq!(p, Some("res".to_string()));
    assert_eq!(n, "a/c");
}

#[test]
fn normalize_drops_empty_components() {
    let (p, n) = normalize_virtual_path("a//b/");
    assert_eq!(p, None);
    assert_eq!(n, "a/b");
}

#[test]
fn normalize_parent_of_root_is_ignored() {
    let (p, n) = normalize_virtual_path("../../x/./y");
    assert_eq!(p, None);
    assert_eq!(n, "x/y");
}

#[test]
fn normalize_splits_at_last_protocol_separator() {
    let (p, n) = normalize_virtual_path("http://h://p/q");
    assert_eq!(p, Some("http://h".to_string()));
    assert_eq!(n, "p/q");
}

#[test]
fn normalize_empty_protocol_is_none() {
    let (p, n) = normalize_virtual_path("://a/b");
    assert_eq!(p, None);
    assert_eq!(n, "a/b");
}

#[test]
fn normalize_empty_path() {
    let (p, n) = normalize_virtual_path("");
    assert_eq!(p, None);
    assert_eq!(n, "");
}

#[test]
fn normalize_is_idempotent_on_example() {
    let (p, n) = normalize_virtual_path("res://a/../b/./c//d");
    let again = format!("{}://{}", p.clone().unwrap(), n);
    let (p2, n2) = normalize_virtual_path(&again);
    assert_eq!(p2, p);
    assert_eq!(n2, n);
}

#[test]
fn js_extension_added_once() {
    assert_eq!(ensure_js_extension("lib/util"), "lib/util.js");
    assert_eq!(ensure_js_extension("lib/util.js"), "lib/util.js");
    assert_eq!(ensure_js_extension(&ensure_js_extension("a.ts")), "a.ts.js");
    assert_eq!(ensure_js_extension(""), ".js");
}

#[test]
fn resolve_relative_sibling() {
    let r = resolve_relative("res://scripts/main.js", "res://scripts/main.js", "./util");
    assert_eq!(r.ok().unwrap(), "res://scripts/util.js");
}

#[test]
fn resolve_relative_parent() {
    let r = resolve_relative("res://s/sub/main.js", "res://s/sub/main.js", "../lib/x.js");
    assert_eq!(r.ok().unwrap(), "res://s/lib/x.js");
}

#[test]
fn resolve_relative_from_protocol_root() {
    let r = resolve_relative("res://main.js", "res://main.js", "./x");
    assert_eq!(r.ok().unwrap(), "res://x.js");
}

#[test]
fn resolve_relative_uses_base_path() {
    let r = resolve_relative("uid://abc", "res://game/player.js", "./weapon");
    assert_eq!(r.ok().unwrap(), "res://game/weapon.js");
}

#[test]
fn resolve_relative_without_directory_fails() {
    match resolve_relative("main.js", "main.js", "./x") {
        Err(e) => {
            assert_eq!(e.base, "main.js");
            assert_eq!(e.name, "./x");
            assert_eq!(e.message, "Can't resolve path for ./x in main.js");
        }
        Ok(_) => panic!("expected an error"),
    }
}

#[test]
fn resolver_keeps_bare_names() {
    let mut r = JsResolver;
    assert_eq!(r.resolve("res://main.js", "bifrostjs").ok().unwrap(), "bifrostjs");
}

#[test]
fn resolver_resolves_relative_names() {
    let mut r = JsResolver;
    assert_eq!(r.resolve("res://a/b.js", "./c").ok().unwrap(), "res://a/c.js");
    assert!(r.resolve("b.js", "./c").is_err());
}

#[test]
fn loader_passes_file_through() {
    let mut l = JsLoader;
    let f = JsFile { source: "export default 1".to_string(), path: "res://m.js".to_string() };
    let r = l.load("res://m.js", Some(f)).ok().unwrap();
    assert_eq!(r.source, "export default 1");
    assert_eq!(r.path, "res://m.js");
}

#[test]
fn loader_reports_missing_file() {
    let mut l = JsLoader;
    match l.load("res://gone.js", None) {
        Err(e) => {
            assert_eq!(e.name, "JsLoader");
            assert_eq!(e.message, "Failed to load load res://gone.js");
        }
        Ok(_) => panic!("expected an error"),
    }
}

#[test]
fn resolution_depends_only_on_directory() {
    let a = resolve_relative("res://a/x.js", "res://a/x.js", "../lib/./z").ok().unwrap();
    let b = resolve_relative("res://a/other.ts", "res://a/other.ts", "../lib/./z").ok().unwrap();
    assert_eq!(a, b);
    assert_eq!(a, "res://lib/z.js");
}
