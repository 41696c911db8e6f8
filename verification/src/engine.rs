use vstd::prelude::*;

verus! {

/// The key names and key codes that the `Keys` object of the engine module
/// offers to scripts: W, A, S and D.
pub open spec fn key_table() -> Seq<(Seq<char>, i32)> {
    seq![("W"@, 87i32), ("A"@, 65i32), ("S"@, 83i32), ("D"@, 68i32)]
}

/// The entries of the engine module's `Keys` object, in the order they are set.
pub fn key_bindings() -> (keys: Vec<(String, i32)>)
    ensures
        keys@.map_values(|k: (String, i32)| (k.0@, k.1)) == key_table(),
{
    let mut keys: Vec<(String, i32)> = Vec::new();
    keys.push((String::from_str("W"), 87));
    keys.push((String::from_str("A"), 65));
    keys.push((String::from_str("S"), 83));
    keys.push((String::from_str("D"), 68));
    assert(keys@.map_values(|k: (String, i32)| (k.0@, k.1)) =~= key_table());
    keys
}

/// How an integer is handed to JavaScript: as a 32-bit integer when it fits,
/// otherwise as a floating-point number of the same value.
#[derive(PartialEq, Eq, Structural)]
pub enum JsInt {
    Int(i32),
    Float(i64),
}

/// The JavaScript form of a Godot integer.
pub open spec fn js_int_of(v: i64) -> JsInt {
    if i32::MIN <= v <= i32::MAX {
        JsInt::Int(v as i32)
    } else {
        JsInt::Float(v)
    }
}

/// Chooses the JavaScript form of a Godot integer: a 32-bit integer when the
/// value fits in one, a floating-point number otherwise.
pub fn js_int(v: i64) -> (r: JsInt)
    ensures
        r == js_int_of(v),
{
    if i32::MIN as i64 <= v && v <= i32::MAX as i64 {
        JsInt::Int(v as i32)
    } else {
        JsInt::Float(v)
    }
}

/// The file extensions that the script importer handles.
pub open spec fn importer_extensions() -> Seq<Seq<char>> {
    seq!["js"@, "ts"@]
}

/// The file extensions that the script importer recognizes: `js` and `ts`.
pub fn recognized_extensions() -> (r: Vec<String>)
    ensures
        r@.map_values(|s: String| s@) == importer_extensions(),
{
    let mut r: Vec<String> = Vec::new();
    r.push(String::from_str("js"));
    r.push(String::from_str("ts"));
    assert(r@.map_values(|s: String| s@) =~= importer_extensions());
    r
}

/// Where the importer saves the resource for an imported script: the save
/// path with the `.res` extension.
pub fn imported_resource_path(save_path: &str) -> (r: String)
    ensures
        r@ == save_path@ + ".res"@,
{
    let mut r = String::from_str(save_path);
    r.append(".res");
    r
}

} // verus!
