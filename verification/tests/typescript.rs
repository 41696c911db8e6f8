use rsjs::paths::JsFile;
use rsjs::typescript::{
    load_ts, strip_types_fast, strip_types_fast_default, syntax_error_message, RewriteExtensions,
    TypeScriptOptions,
};

#[test]
fn strips_type_annotations() {
    let out = strip_types_fast_default("let x: number = 1;").unwrap();
    assert_eq!(out, "let x = 1;\n");
}

#[test]
fn strips_interfaces() {
    let out = strip_types_fast_default("interface P { x: number }\nexport const a = 2;").unwrap();
    assert!(!out.contains("interface"));
    assert!(out.contains("export const a = 2;"));
}

#[test]
fn syntax_errors_are_reported() {
    let err = strip_types_fast_default("let = ;").unwrap_err();
    assert!(err.starts_with("TS Syntax Errors: ["));
    assert!(err.ends_with("]"));
}

#[test]
fn strip_with_options_matches_default() {
    let a = strip_types_fast("const f = (v: string): number => v.length;", Default::default()).unwrap();
    let b = strip_types_fast_default("const f = (v: string): number => v.length;").unwrap();
    assert_eq!(a, b);
    assert!(!a.contains("string"));
}

#[test]
fn syntax_error_message_lists_errors() {
    assert_eq!(syntax_error_message(&vec![]), "TS Syntax Errors: []");
    assert_eq!(
        syntax_error_message(&vec!["a".to_string(), "b".to_string()]),
        "TS Syntax Errors: [a, b]"
    );
}

#[test]
fn load_ts_keeps_path_and_strips_source() {
    let f = JsFile { source: "let y: string = 'a';".to_string(), path: "res://t.ts".to_string() };
    let r = load_ts(Ok(f)).ok().unwrap();
    assert_eq!(r.path, "res://t.ts");
    assert_eq!(r.source, "let y = \"a\";\n");
}

#[test]
fn load_ts_passes_read_errors_on() {
    let r = load_ts(Err("no file".to_string()));
    assert_eq!(r.err().unwrap(), "no file");
}

#[test]
fn load_ts_reports_syntax_errors() {
    let f = JsFile { source: "function (".to_string(), path: "res://bad.ts".to_string() };
    let e = load_ts(Ok(f)).err().unwrap();
    assert!(e.starts_with("TS Syntax Errors: ["));
}

#[test]
fn default_options_match_the_transform_defaults() {
    let o = TypeScriptOptions::default();
    assert_eq!(o.jsx_pragma, "React.createElement");
    assert_eq!(o.jsx_pragma_frag, "React.Fragment");
    assert!(!o.only_remove_type_imports);
    assert!(o.allow_namespaces);
    assert!(o.allow_declare_fields);
    assert!(!o.remove_class_fields_without_initializer);
    assert!(!o.optimize_const_enums);
    assert!(!o.optimize_enums);
    assert_eq!(o.rewrite_import_extensions, None);
}

#[test]
fn import_extensions_follow_the_options() {
    let src = "import x from \"./a.ts\";\nconsole.log(x);";
    let kept = strip_types_fast(src, TypeScriptOptions::default()).unwrap();
    assert!(kept.contains("\"./a.ts\""));
    let mut o = TypeScriptOptions::default();
    o.rewrite_import_extensions = Some(RewriteExtensions::Remove);
    let removed = strip_types_fast(src, o).unwrap();
    assert!(removed.contains("\"./a\""));
    let mut o = TypeScriptOptions::default();
    o.rewrite_import_extensions = Some(RewriteExtensions::Rewrite);
    let rewritten = strip_types_fast(src, o).unwrap();
    assert!(rewritten.contains("\"./a.js\""));
}

#[test]
fn only_type_imports_removed_when_asked() {
    let src = "import { T } from \"./t\";\nlet v: T = 1;";
    let elided = strip_types_fast(src, TypeScriptOptions::default()).unwrap();
    assert!(!elided.contains("import"));
    let mut o = TypeScriptOptions::default();
    o.only_remove_type_imports = true;
    let kept = strip_types_fast(src, o).unwrap();
    assert!(kept.contains("import"));
}

#[test]
fn options_syntax_errors_do_not_depend_on_options() {
    let mut o = TypeScriptOptions::default();
    o.optimize_enums = true;
    let a = strip_types_fast("let = ;", o).unwrap_err();
    let b = strip_types_fast_default("let = ;").unwrap_err();
    assert_eq!(a, b);
}
