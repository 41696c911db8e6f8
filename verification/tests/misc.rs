use rsjs::color::{to_hex_rgba, to_rgba32};
use rsjs::engine::{imported_resource_path, js_int, key_bindings, recognized_extensions, JsInt};
use rsjs::errors::{error_report, JsFailure, Thrown};

#[test]
fn rgba32_packing() {
    assert_eq!(to_rgba32(255, 0, 0, 255), 0xFF00_00FF);
    assert_eq!(to_rgba32(0x12, 0x34, 0x56, 0x78), 0x7856_3412);
    assert_eq!(to_rgba32(0, 0, 0, 0), 0);
    let v = to_rgba32(1, 2, 3, 4);
    assert_eq!((v & 0xff, (v >> 8) & 0xff, (v >> 16) & 0xff, v >> 24), (1, 2, 3, 4));
}

#[test]
fn hex_formatting() {
    assert_eq!(to_hex_rgba(255, 128, 0, 255), "#ff8000ff");
    assert_eq!(to_hex_rgba(0, 0, 0, 0), "#00000000");
    assert_eq!(to_hex_rgba(0x0a, 0xb1, 0x2c, 0xd3), "#0ab12cd3");
}

#[test]
fn exception_report() {
    let f = JsFailure::Thrown(Thrown::Exception {
        message: Some("bad".to_string()),
        stack: Some("at f".to_string()),
    });
    assert_eq!(error_report(&f), vec!["JS Exception: bad".to_string(), "JS stack trace:\nat f".to_string()]);
    let f = JsFailure::Thrown(Thrown::Exception { message: None, stack: None });
    assert_eq!(error_report(&f), vec!["JS Exception: Unknown Error".to_string()]);
}

#[test]
fn other_reports() {
    assert_eq!(
        error_report(&JsFailure::Thrown(Thrown::Text(Some("oops".to_string())))),
        vec!["JS threw Error: oops".to_string()]
    );
    assert!(error_report(&JsFailure::Thrown(Thrown::Text(None))).is_empty());
    assert_eq!(error_report(&JsFailure::Thrown(Thrown::Other)), vec!["JS threw unknown object".to_string()]);
    assert_eq!(
        error_report(&JsFailure::Runtime("Allocation".to_string())),
        vec!["JS runtime Error: Allocation".to_string()]
    );
}

#[test]
fn engine_keys() {
    let k = key_bindings();
    let k: Vec<(&str, i32)> = k.iter().map(|(n, c)| (n.as_str(), *c)).collect();
    assert_eq!(k, vec![("W", 87), ("A", 65), ("S", 83), ("D", 68)]);
}

#[test]
fn integers_for_js() {
    assert!(js_int(5) == JsInt::Int(5));
    assert!(js_int(-2147483648) == JsInt::Int(i32::MIN));
    assert!(js_int(2147483647) == JsInt::Int(i32::MAX));
    assert!(js_int(2147483648) == JsInt::Float(2147483648));
    assert!(js_int(-2147483649) == JsInt::Float(-2147483649));
}

#[test]
fn importer_settings() {
    assert_eq!(recognized_extensions(), vec!["js".to_string(), "ts".to_string()]);
    assert_eq!(imported_resource_path("res://.godot/imported/a"), "res://.godot/imported/a.res");
}
