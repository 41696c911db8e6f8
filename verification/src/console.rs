use vstd::prelude::*;

verus! {

/// The message that a console call prints for its arguments: their text
/// forms separated by single spaces.
pub open spec fn console_message(args: Seq<Seq<char>>) -> Seq<char>
    decreases args.len(),
{
    if args.len() == 0 {
        Seq::empty()
    } else if args.len() == 1 {
        args[0]
    } else {
        console_message(args.drop_last()) + seq![' '] + args.last()
    }
}

/// The text forms of a list of strings.
pub open spec fn texts(args: Seq<String>) -> Seq<Seq<char>> {
    args.map_values(|a: String| a@)
}

/// The stack shown by `console.error`: the `stack` property of the first
/// argument when that is present and non-empty, else the captured trace.
pub open spec fn error_stack(js_stack: Option<Seq<char>>, captured: Seq<char>) -> Seq<char> {
    match js_stack {
        Some(s) => if s.len() > 0 { s } else { captured },
        None => captured,
    }
}

fn message_of(args: &Vec<String>) -> (m: String)
    ensures
        m@ == console_message(texts(args@)),
{
    let mut m = String::new();
    let mut i: usize = 0;
    while i < args.len()
        invariant
            i <= args.len(),
            m@ == console_message(texts(args@).take(i as int)),
        decreases args.len() - i,
    {
        assert(texts(args@).take(i + 1).drop_last() =~= texts(args@).take(i as int));
        if i > 0 {
            proof {
                reveal_strlit(" ");
            }
            m.append(" ");
        }
        m.append(args[i].as_str());
        i = i + 1;
    }
    assert(texts(args@).take(args.len() as int) =~= texts(args@));
    m
}

/// The line that `console.log` prints for its arguments (given as text).
pub fn log(args: &Vec<String>) -> (line: String)
    ensures
        line@ == console_message(texts(args@)),
{
    message_of(args)
}

/// The text that `console.trace` prints: the message, a line break, and the
/// captured stack trace.
pub fn trace(args: &Vec<String>, stack_trace: &str) -> (out: String)
    ensures
        out@ == console_message(texts(args@)) + seq!['\n'] + stack_trace@,
{
    let mut out = message_of(args);
    proof {
        reveal_strlit("\n");
    }
    out.append("\n");
    out.append(stack_trace);
    out
}

/// The text that `console.error` reports: `Error: `, the message, a line
/// break and the stack (see `error_stack`).
pub fn error(args: &Vec<String>, js_stack: Option<String>, captured_trace: &str) -> (out: String)
    ensures
        out@ == "Error: "@ + console_message(texts(args@)) + seq!['\n'] + error_stack(
            match js_stack {
                Some(s) => Some(s@),
                None => None,
            },
            captured_trace@,
        ),
{
    let message = message_of(args);
    let mut out = String::from_str("Error: ");
    out.append(message.as_str());
    proof {
        reveal_strlit("\n");
    }
    out.append("\n");
    match js_stack {
        Some(s) => {
            if !s.as_str().is_empty() {
                out.append(s.as_str());
            } else {
                out.append(captured_trace);
            }
        },
        None => out.append(captured_trace),
    }
    out
}

} // verus!
