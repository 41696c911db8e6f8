use vstd::prelude::*;

use oxc_allocator::Allocator;
use oxc_codegen::Codegen;
use oxc_parser::Parser;
use oxc_semantic::SemanticBuilder;
use oxc_span::SourceType;
use oxc_transformer::{RewriteExtensionsMode, TransformOptions, Transformer};
use std::path::Path;

use crate::paths::JsFile;

verus! {

/// How relative import and export specifiers that end in a TypeScript
/// extension are treated.
#[derive(Clone, Copy, Debug, PartialEq, Eq, Structural)]
pub enum RewriteExtensions {
    /// `.ts`/`.tsx` become `.js`, `.mts` becomes `.mjs`, `.cts` becomes `.cjs`.
    Rewrite,
    /// The TypeScript extension is dropped.
    Remove,
}

/// The options of the TypeScript transform.
#[derive(Clone, Debug)]
pub struct TypeScriptOptions {
    /// The function that JSX elements compile to; its first `.`-separated
    /// segment is kept as a value import.
    pub jsx_pragma: String,
    /// The function that JSX fragments compile to; its first `.`-separated
    /// segment is kept as a value import.
    pub jsx_pragma_frag: String,
    /// Only `import type` declarations are removed.
    pub only_remove_type_imports: bool,
    /// Namespaces are compiled.
    pub allow_namespaces: bool,
    /// Type-only class fields are removed only when marked `declare`.
    pub allow_declare_fields: bool,
    /// Class fields without an initializer are removed.
    pub remove_class_fields_without_initializer: bool,
    /// Const enums are inlined at their uses and their declarations removed.
    pub optimize_const_enums: bool,
    /// Members of regular enums with known values are inlined at their uses.
    pub optimize_enums: bool,
    /// What happens to TypeScript extensions in import and export specifiers;
    /// `None` leaves them as written.
    pub rewrite_import_extensions: Option<RewriteExtensions>,
}

/// The options of the TypeScript transform as plain values.
pub struct TsOptionsView {
    pub jsx_pragma: Seq<char>,
    pub jsx_pragma_frag: Seq<char>,
    pub only_remove_type_imports: bool,
    pub allow_namespaces: bool,
    pub allow_declare_fields: bool,
    pub remove_class_fields_without_initializer: bool,
    pub optimize_const_enums: bool,
    pub optimize_enums: bool,
    pub rewrite_import_extensions: Option<RewriteExtensions>,
}

impl View for TypeScriptOptions {
    type V = TsOptionsView;

    open spec fn view(&self) -> TsOptionsView {
        TsOptionsView {
            jsx_pragma: self.jsx_pragma@,
            jsx_pragma_frag: self.jsx_pragma_frag@,
            only_remove_type_imports: self.only_remove_type_imports,
            allow_namespaces: self.allow_namespaces,
            allow_declare_fields: self.allow_declare_fields,
            remove_class_fields_without_initializer: self.remove_class_fields_without_initializer,
            optimize_const_enums: self.optimize_const_enums,
            optimize_enums: self.optimize_enums,
            rewrite_import_extensions: self.rewrite_import_extensions,
        }
    }
}

/// The default options: pragmas `React.createElement` and `React.Fragment`,
/// namespaces and `declare` fields allowed, every other switch off, and
/// import extensions left as written.
pub open spec fn default_ts_options_view() -> TsOptionsView {
    TsOptionsView {
        jsx_pragma: "React.createElement"@,
        jsx_pragma_frag: "React.Fragment"@,
        only_remove_type_imports: false,
        allow_namespaces: true,
        allow_declare_fields: true,
        remove_class_fields_without_initializer: false,
        optimize_const_enums: false,
        optimize_enums: false,
        rewrite_import_extensions: None,
    }
}

impl Default for TypeScriptOptions {
    fn default() -> (o: Self)
        ensures
            o@ == default_ts_options_view(),
    {
        TypeScriptOptions {
            jsx_pragma: String::from_str("React.createElement"),
            jsx_pragma_frag: String::from_str("React.Fragment"),
            only_remove_type_imports: false,
            allow_namespaces: true,
            allow_declare_fields: true,
            remove_class_fields_without_initializer: false,
            optimize_const_enums: false,
            optimize_enums: false,
            rewrite_import_extensions: None,
        }
    }
}

/// The syntax errors that oxc's parser reports for a TypeScript source, each
/// in its `Debug` form, in the order reported.
pub uninterp spec fn ts_parse_errors(ts_code: Seq<char>) -> Seq<Seq<char>>;

/// The JavaScript that oxc emits for a TypeScript source after stripping its
/// types with the given TypeScript options.
pub uninterp spec fn ts_emitted_with(ts_code: Seq<char>, opts: TsOptionsView) -> Seq<char>;

/// The text forms of a list of strings.
pub open spec fn string_texts(v: Seq<String>) -> Seq<Seq<char>> {
    v.map_values(|s: String| s@)
}

/// Parses `ts_code` as TypeScript with oxc (`Parser::parse`) and returns the
/// `Debug` form of each syntax error it reports, in order. The contract
/// names this list `ts_parse_errors(ts_code)`.
#[verifier::external_body]
fn parse_errors(ts_code: &str) -> (r: Vec<String>)
    ensures
        string_texts(r@) == ts_parse_errors(ts_code@),
{
    let allocator = Allocator::default();
    let parsed = Parser::new(&allocator, ts_code, SourceType::ts()).parse();
    parsed.errors.iter().map(|e| format!("{:?}", e)).collect()
}

/// Runs oxc over a TypeScript source that parses without errors: the parser
/// (`Parser::parse`), semantic analysis (`SemanticBuilder::build`), the
/// TypeScript transform (`Transformer::build_with_scoping`, module path
/// `mod.ts`, every other transform option at its default) with the given
/// TypeScript options, each field handed over as it is, and code generation
/// (`Codegen::build`). The contract names the generated code
/// `ts_emitted_with(ts_code, options)`: all of these passes are deterministic
/// functions of the source and the options. The pragma handling takes the
/// first `.`-separated segment of a pragma that contains a `.`, which always
/// exists. That none of the transformer's internal `unwrap`s fires on a
/// source that parses cleanly is not stated here: it is left to oxc.
#[verifier::external_body]
fn emit_with_options(
    ts_code: &str,
    jsx_pragma: String,
    jsx_pragma_frag: String,
    only_remove_type_imports: bool,
    allow_namespaces: bool,
    allow_declare_fields: bool,
    remove_class_fields_without_initializer: bool,
    optimize_const_enums: bool,
    optimize_enums: bool,
    rewrite: Option<RewriteExtensions>,
) -> (r: String)
    requires
        ts_parse_errors(ts_code@).len() == 0,
    ensures
        r@ == ts_emitted_with(
            ts_code@,
            (TsOptionsView {
                jsx_pragma: jsx_pragma@,
                jsx_pragma_frag: jsx_pragma_frag@,
                only_remove_type_imports,
                allow_namespaces,
                allow_declare_fields,
                remove_class_fields_without_initializer,
                optimize_const_enums,
                optimize_enums,
                rewrite_import_extensions: rewrite,
            }),
        ),
{
    let allocator = Allocator::default();
    let mut program = Parser::new(&allocator, ts_code, SourceType::ts()).parse().program;
    let scoping = SemanticBuilder::new().build(&program).semantic.into_scoping();
    let rewrite_import_extensions = rewrite.map(|m| match m {
        RewriteExtensions::Rewrite => RewriteExtensionsMode::Rewrite,
        RewriteExtensions::Remove => RewriteExtensionsMode::Remove,
    });
    let typescript = oxc_transformer::TypeScriptOptions { jsx_pragma: jsx_pragma.into(), jsx_pragma_frag: jsx_pragma_frag.into(),
        only_remove_type_imports, allow_namespaces, allow_declare_fields, remove_class_fields_without_initializer,
        optimize_const_enums, optimize_enums, rewrite_import_extensions };
    let options = TransformOptions { typescript, ..Default::default() };
    Transformer::new(&allocator, Path::new("mod.ts"), &options).build_with_scoping(scoping, &mut program);
    Codegen::new().build(&program).code
}

/// The items joined with `, `, as a list's `Debug` form shows them.
pub open spec fn comma_list(items: Seq<Seq<char>>) -> Seq<char>
    decreases items.len(),
{
    if items.len() == 0 {
        Seq::empty()
    } else if items.len() == 1 {
        items[0]
    } else {
        comma_list(items.drop_last()) + ", "@ + items.last()
    }
}

/// The error text for a source with syntax errors: `TS Syntax Errors: [e1, e2, ...]`.
pub open spec fn syntax_error_text(errors: Seq<Seq<char>>) -> Seq<char> {
    "TS Syntax Errors: ["@ + comma_list(errors) + "]"@
}

/// The result of stripping types from `ts_code` with the options `opts`:
/// the syntax error text when oxc reports errors, else the emitted code.
pub open spec fn stripped_with(ts_code: Seq<char>, opts: TsOptionsView) -> Result<Seq<char>, Seq<char>> {
    if ts_parse_errors(ts_code).len() > 0 {
        Err(syntax_error_text(ts_parse_errors(ts_code)))
    } else {
        Ok(ts_emitted_with(ts_code, opts))
    }
}

/// The result of stripping types from `ts_code` with the default options.
pub open spec fn stripped(ts_code: Seq<char>) -> Result<Seq<char>, Seq<char>> {
    stripped_with(ts_code, default_ts_options_view())
}

/// The text of a `Result<String, String>`.
pub open spec fn result_text(r: Result<String, String>) -> Result<Seq<char>, Seq<char>> {
    match r {
        Ok(s) => Ok(s@),
        Err(e) => Err(e@),
    }
}

/// Builds the error text reported for the given syntax errors (each in its
/// `Debug` form): `TS Syntax Errors: [` followed by the errors separated by
/// `, ` and a closing `]`.
pub fn syntax_error_message(errors: &Vec<String>) -> (m: String)
    ensures
        m@ == syntax_error_text(string_texts(errors@)),
{
    let mut m = String::from_str("TS Syntax Errors: [");
    let mut i: usize = 0;
    let ghost items = string_texts(errors@);
    while i < errors.len()
        invariant
            i <= errors.len(),
            items == string_texts(errors@),
            m@ == "TS Syntax Errors: ["@ + comma_list(items.take(i as int)),
        decreases errors.len() - i,
    {
        assert(items.take(i + 1).drop_last() =~= items.take(i as int));
        if i > 0 {
            m.append(", ");
        }
        m.append(errors[i].as_str());
        proof {
            if i == 0 {
                assert(comma_list(items.take(1)) == items[0]);
            }
        }
        assert(m@ =~= "TS Syntax Errors: ["@ + comma_list(items.take(i + 1)));
        i = i + 1;
    }
    assert(items.take(errors.len() as int) =~= items);
    m.append("]");
    m
}

/// Strips TypeScript types from `ts_code` with the given transform options.
/// Fails with the syntax error text when oxc's parser reports errors;
/// otherwise returns the code that oxc emits with those options.
pub fn strip_types_fast(ts_code: &str, ts_options: TypeScriptOptions) -> (r: Result<String, String>)
    ensures
        result_text(r) == stripped_with(ts_code@, ts_options@),
        ts_parse_errors(ts_code@).len() == 0 ==> r is Ok && r->Ok_0@ == ts_emitted_with(
            ts_code@,
            ts_options@,
        ),
        ts_parse_errors(ts_code@).len() > 0 ==> r is Err && r->Err_0@ == syntax_error_text(
            ts_parse_errors(ts_code@),
        ),
{
    let errors = parse_errors(ts_code);
    if errors.len() > 0 {
        return Err(syntax_error_message(&errors));
    }
    let code = emit_with_options(
        ts_code,
        ts_options.jsx_pragma,
        ts_options.jsx_pragma_frag,
        ts_options.only_remove_type_imports,
        ts_options.allow_namespaces,
        ts_options.allow_declare_fields,
        ts_options.remove_class_fields_without_initializer,
        ts_options.optimize_const_enums,
        ts_options.optimize_enums,
        ts_options.rewrite_import_extensions,
    );
    Ok(code)
}

/// Strips TypeScript types from `ts_code` with the default transform options.
pub fn strip_types_fast_default(ts_code: &str) -> (r: Result<String, String>)
    ensures
        result_text(r) == stripped(ts_code@),
{
    strip_types_fast(ts_code, TypeScriptOptions::default())
}

/// A source that parses cleanly becomes exactly the code that oxc emits
/// with the options given, every option as it was given; a source with
/// syntax errors gives the error text, whatever the options.
pub proof fn law_strip_uses_the_given_options(ts_code: Seq<char>, opts: TsOptionsView, other: TsOptionsView)
    ensures
        ts_parse_errors(ts_code).len() == 0 ==> stripped_with(ts_code, opts) == Ok::<Seq<char>, Seq<char>>(
            ts_emitted_with(ts_code, opts),
        ),
        ts_parse_errors(ts_code).len() > 0 ==> stripped_with(ts_code, opts) == Err::<Seq<char>, Seq<char>>(
            syntax_error_text(ts_parse_errors(ts_code)),
        ),
        ts_parse_errors(ts_code).len() > 0 ==> stripped_with(ts_code, opts) == stripped_with(ts_code, other),
{
}

/// Stripping with the default function gives exactly what the general
/// function gives with the default options.
pub proof fn law_default_strip_is_general_with_defaults(ts_code: Seq<char>)
    ensures
        stripped(ts_code) == stripped_with(ts_code, default_ts_options_view()),
{
}

/// The text of a script after its TypeScript has been stripped, with its
/// path unchanged.
pub open spec fn transpiled_file(f: JsFile) -> Result<(Seq<char>, Seq<char>), Seq<char>> {
    match stripped(f.source@) {
        Ok(js) => Ok((js, f.path@)),
        Err(e) => Err(e),
    }
}

/// Turns a script read from disk (or the error that reading it gave) into
/// JavaScript: reading errors are passed on, TypeScript is stripped from the
/// source with the default options, and the path is kept.
pub fn load_ts(read: Result<JsFile, String>) -> (r: Result<JsFile, String>)
    ensures
        match read {
            Err(e) => r is Err && r->Err_0 == e,
            Ok(f) => match transpiled_file(f) {
                Ok((js, path)) => r is Ok && r->Ok_0.source@ == js && r->Ok_0.path@ == path,
                Err(msg) => r is Err && r->Err_0@ == msg,
            },
        },
{
    let file = match read {
        Ok(f) => f,
        Err(e) => return Err(e),
    };
    let source = match strip_types_fast_default(file.source.as_str()) {
        Ok(s) => s,
        Err(e) => return Err(e),
    };
    Ok(JsFile { source, path: file.path })
}

} // verus!
