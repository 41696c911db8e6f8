use vstd::prelude::*;

verus! {

/// What a script threw, as far as the error report looks at it.
pub enum Thrown {
    /// An `Error` object, with its message and stack when they are readable.
    Exception { message: Option<String>, stack: Option<String> },
    /// A thrown string, `None` when its text could not be read.
    Text(Option<String>),
    /// Any other thrown value.
    Other,
}

/// A failed JavaScript operation.
pub enum JsFailure {
    /// The script threw a value.
    Thrown(Thrown),
    /// The engine itself failed; the text is the error's `Debug` form.
    Runtime(String),
}

/// The optional text of an optional string.
pub open spec fn opt_text(o: Option<String>) -> Option<Seq<char>> {
    match o {
        Some(s) => Some(s@),
        None => None,
    }
}

/// The lines reported for a failure, in order.
pub open spec fn report_lines(f: JsFailure) -> Seq<Seq<char>> {
    match f {
        JsFailure::Thrown(Thrown::Exception { message, stack }) => {
            let first = "JS Exception: "@ + match opt_text(message) {
                Some(m) => m,
                None => "Unknown Error"@,
            };
            match opt_text(stack) {
                Some(s) => seq![first, "JS stack trace:\n"@ + s],
                None => seq![first],
            }
        },
        JsFailure::Thrown(Thrown::Text(t)) => match opt_text(t) {
            Some(t) => seq!["JS threw Error: "@ + t],
            None => Seq::empty(),
        },
        JsFailure::Thrown(Thrown::Other) => seq!["JS threw unknown object"@],
        JsFailure::Runtime(d) => seq!["JS runtime Error: "@ + d@],
    }
}

fn line(prefix: &str, text: &str) -> (r: String)
    ensures
        r@ == prefix@ + text@,
{
    let mut r = String::from_str(prefix);
    r.append(text);
    r
}

/// The error lines reported to Godot for a failed JavaScript operation: an
/// exception's message (`Unknown Error` when it has none) and, when it has
/// one, its stack trace; a thrown string's text; a note for any other thrown
/// value; or the engine error's text.
pub fn error_report(f: &JsFailure) -> (lines: Vec<String>)
    ensures
        lines@.map_values(|s: String| s@) == report_lines(*f),
{
    let mut lines: Vec<String> = Vec::new();
    match f {
        JsFailure::Thrown(Thrown::Exception { message, stack }) => {
            let first = match message {
                Some(m) => line("JS Exception: ", m.as_str()),
                None => line("JS Exception: ", "Unknown Error"),
            };
            lines.push(first);
            match stack {
                Some(s) => lines.push(line("JS stack trace:\n", s.as_str())),
                None => {},
            }
        },
        JsFailure::Thrown(Thrown::Text(t)) => {
            match t {
                Some(t) => lines.push(line("JS threw Error: ", t.as_str())),
                None => {},
            }
        },
        JsFailure::Thrown(Thrown::Other) => {
            lines.push(String::from_str("JS threw unknown object"));
        },
        JsFailure::Runtime(d) => {
            lines.push(line("JS runtime Error: ", d.as_str()));
        },
    }
    assert(lines@.map_values(|s: String| s@) =~= report_lines(*f));
    lines
}

} // verus!
