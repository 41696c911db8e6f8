use vstd::prelude::*;

use crate::text::{chars_to_string, str_chars};

verus! {

/// The file extension that module names are completed with.
pub open spec fn js_suffix() -> Seq<char> {
    seq!['.', 'j', 's']
}

/// `s` ends with `suffix`.
pub open spec fn ends_with(s: Seq<char>, suffix: Seq<char>) -> bool {
    suffix.len() <= s.len() && s.subrange(s.len() - suffix.len(), s.len() as int) == suffix
}

/// A module name with the `.js` extension added unless it already ends with it.
pub open spec fn with_js_extension(name: Seq<char>) -> Seq<char> {
    if ends_with(name, js_suffix()) {
        name
    } else {
        name + js_suffix()
    }
}

fn chars_end_with_js(v: &Vec<char>) -> (b: bool)
    ensures
        b == ends_with(v@, js_suffix()),
{
    let n = v.len();
    if n < 3 {
        return false;
    }
    let r = v[n - 3] == '.' && v[n - 2] == 'j' && v[n - 1] == 's';
    assert(r == (v@.subrange(n - 3, n as int) =~= js_suffix()));
    r
}

/// Returns `name` with `.js` appended, unless it already ends with `.js`.
pub fn ensure_js_extension(name: &str) -> (r: String)
    ensures
        r@ == with_js_extension(name@),
{
    let mut v = str_chars(name);
    if !chars_end_with_js(&v) {
        v.push('.');
        v.push('j');
        v.push('s');
        assert(v@ =~= name@ + js_suffix());
    }
    chars_to_string(&v)
}


/// `s` holds the protocol separator `://` starting at index `i`.
pub open spec fn sep_at(s: Seq<char>, i: int) -> bool {
    0 <= i && i + 3 <= s.len() && s[i] == ':' && s[i + 1] == '/' && s[i + 2] == '/'
}

/// The largest index `j <= i` at which `://` starts, or -1 when there is none.
pub open spec fn last_sep_from(s: Seq<char>, i: int) -> int
    decreases i + 1,
{
    if i < 0 {
        -1
    } else if sep_at(s, i) {
        i
    } else {
        last_sep_from(s, i - 1)
    }
}

/// Index of the last `://` in `s`, or -1.
pub open spec fn last_sep(s: Seq<char>) -> int {
    last_sep_from(s, s.len() - 3)
}

/// The protocol part of a virtual path: what precedes its last `://` (empty without one).
pub open spec fn protocol_of(s: Seq<char>) -> Seq<char> {
    if last_sep(s) >= 0 {
        s.take(last_sep(s))
    } else {
        Seq::empty()
    }
}

/// The path part of a virtual path: what follows its last `://` (all of it without one).
pub open spec fn path_part_of(s: Seq<char>) -> Seq<char> {
    if last_sep(s) >= 0 {
        s.skip(last_sep(s) + 3)
    } else {
        s
    }
}

pub open spec fn dot() -> Seq<char> {
    seq!['.']
}

pub open spec fn dot_dot() -> Seq<char> {
    seq!['.', '.']
}

/// Applies one path component to a stack of directory names: empty and `.`
/// components are dropped, `..` removes the last name (if any), any other
/// component is pushed.
pub open spec fn apply_component(stack: Seq<Seq<char>>, seg: Seq<char>) -> Seq<Seq<char>> {
    if seg.len() == 0 || seg == dot() {
        stack
    } else if seg == dot_dot() {
        if stack.len() > 0 {
            stack.drop_last()
        } else {
            stack
        }
    } else {
        stack.push(seg)
    }
}

/// Scanning `s` left to right: the names kept so far and the component being read.
pub open spec fn scan_components(s: Seq<char>) -> (Seq<Seq<char>>, Seq<char>)
    decreases s.len(),
{
    if s.len() == 0 {
        (Seq::empty(), Seq::empty())
    } else {
        let (stack, cur) = scan_components(s.drop_last());
        if s.last() == '/' {
            (apply_component(stack, cur), Seq::empty())
        } else {
            (stack, cur.push(s.last()))
        }
    }
}

/// The names of a `/`-separated path once `.`, `..` and empty components are resolved.
pub open spec fn normalized_components(s: Seq<char>) -> Seq<Seq<char>> {
    apply_component(scan_components(s).0, scan_components(s).1)
}

/// The names joined with `/`.
pub open spec fn join_slash(names: Seq<Seq<char>>) -> Seq<char>
    decreases names.len(),
{
    if names.len() == 0 {
        Seq::empty()
    } else if names.len() == 1 {
        names[0]
    } else {
        join_slash(names.drop_last()) + seq!['/'] + names.last()
    }
}

/// The normalized form of a virtual path: its protocol (when non-empty) and
/// its path part with `.`, `..` and empty components resolved.
pub open spec fn normalized_path(s: Seq<char>) -> (Option<Seq<char>>, Seq<char>) {
    (
        if protocol_of(s).len() > 0 { Some(protocol_of(s)) } else { None },
        join_slash(normalized_components(path_part_of(s))),
    )
}

fn find_last_sep(v: &Vec<char>) -> (r: Option<usize>)
    ensures
        match r {
            Some(i) => last_sep(v@) == i as int && i + 3 <= v.len(),
            None => last_sep(v@) == -1,
        },
{
    if v.len() < 3 {
        return None;
    }
    let mut i: usize = v.len() - 3;
    loop
        invariant
            i + 3 <= v.len(),
            last_sep(v@) == last_sep_from(v@, i as int),
        decreases i,
    {
        if v[i] == ':' && v[i + 1] == '/' && v[i + 2] == '/' {
            return Some(i);
        }
        if i == 0 {
            assert(last_sep_from(v@, -1) == -1);
            return None;
        }
        i = i - 1;
    }
}

fn push_component(stack: &mut Vec<Vec<char>>, seg: Vec<char>)
    ensures
        final(stack)@.map_values(|x: Vec<char>| x@) == apply_component(
            old(stack)@.map_values(|x: Vec<char>| x@),
            seg@,
        ),
{
    let ghost before = stack@.map_values(|x: Vec<char>| x@);
    if seg.len() == 0 {
        return;
    }
    if seg.len() == 1 && seg[0] == '.' {
        assert(seg@ =~= dot());
        return;
    }
    if seg.len() == 2 && seg[0] == '.' && seg[1] == '.' {
        assert(seg@ =~= dot_dot());
        if stack.len() > 0 {
            stack.pop();
            assert(stack@.map_values(|x: Vec<char>| x@) =~= before.drop_last());
        }
        return;
    }
    assert(seg@ != dot()) by {
        if seg@ == dot() {
            assert(seg@.len() == 1 && seg@[0] == '.');
        }
    }
    assert(seg@ != dot_dot()) by {
        if seg@ == dot_dot() {
            assert(seg@.len() == 2 && seg@[0] == '.' && seg@[1] == '.');
        }
    }
    let ghost s = seg@;
    stack.push(seg);
    assert(stack@.map_values(|x: Vec<char>| x@) =~= before.push(s));
}

fn join_components(stack: &Vec<Vec<char>>) -> (r: Vec<char>)
    ensures
        r@ == join_slash(stack@.map_values(|x: Vec<char>| x@)),
{
    let ghost names = stack@.map_values(|x: Vec<char>| x@);
    let mut out: Vec<char> = Vec::new();
    let mut i: usize = 0;
    while i < stack.len()
        invariant
            i <= stack.len(),
            names == stack@.map_values(|x: Vec<char>| x@),
            out@ == join_slash(names.take(i as int)),
        decreases stack.len() - i,
    {
        let seg = &stack[i];
        if i > 0 {
            out.push('/');
        }
        let mut j: usize = 0;
        let ghost base = out@;
        while j < seg.len()
            invariant
                j <= seg.len(),
                out@ == base + seg@.take(j as int),
            decreases seg.len() - j,
        {
            out.push(seg[j]);
            assert(base + seg@.take(j + 1) =~= (base + seg@.take(j as int)).push(seg@[j as int]));
            j = j + 1;
        }
        assert(seg@.take(seg.len() as int) =~= seg@);
        assert(names.take(i + 1).drop_last() =~= names.take(i as int));
        assert(names[i as int] == seg@);
        if i == 0 {
            assert(out@ =~= join_slash(names.take(1)));
        } else {
            assert(out@ =~= join_slash(names.take(i as int)) + seq!['/'] + names[i as int]);
        }
        i = i + 1;
    }
    assert(names.take(stack.len() as int) =~= names);
    out
}

fn normalize_chars(v: &Vec<char>) -> (r: Vec<char>)
    ensures
        r@ == join_slash(normalized_components(v@)),
{
    let mut stack: Vec<Vec<char>> = Vec::new();
    let mut cur: Vec<char> = Vec::new();
    let mut i: usize = 0;
    assert(stack@.map_values(|x: Vec<char>| x@) =~= Seq::<Seq<char>>::empty());
    while i < v.len()
        invariant
            i <= v.len(),
            (stack@.map_values(|x: Vec<char>| x@), cur@) == scan_components(v@.take(i as int)),
        decreases v.len() - i,
    {
        assert(v@.take(i + 1).drop_last() =~= v@.take(i as int));
        let c = v[i];
        if c == '/' {
            let seg = cur;
            cur = Vec::new();
            push_component(&mut stack, seg);
            assert(cur@ =~= Seq::<char>::empty());
        } else {
            cur.push(c);
        }
        i = i + 1;
    }
    assert(v@.take(v.len() as int) =~= v@);
    push_component(&mut stack, cur);
    join_components(&stack)
}

fn chars_range(v: &Vec<char>, from: usize, to: usize) -> (r: Vec<char>)
    requires
        from <= to <= v.len(),
    ensures
        r@ == v@.subrange(from as int, to as int),
{
    let mut r: Vec<char> = Vec::new();
    let mut i = from;
    while i < to
        invariant
            from <= i <= to <= v.len(),
            r@ == v@.subrange(from as int, i as int),
        decreases to - i,
    {
        r.push(v[i]);
        assert(v@.subrange(from as int, i + 1) =~= v@.subrange(from as int, i as int).push(v@[i as int]));
        i = i + 1;
    }
    r
}

fn normalize_parts(v: &Vec<char>) -> (r: (Vec<char>, Vec<char>))
    ensures
        r.0@ == protocol_of(v@),
        r.1@ == join_slash(normalized_components(path_part_of(v@))),
{
    match find_last_sep(v) {
        Some(i) => {
            let proto = chars_range(v, 0, i);
            let rest = chars_range(v, i + 3, v.len());
            assert(proto@ =~= v@.take(i as int));
            assert(rest@ =~= v@.skip(i + 3));
            (proto, normalize_chars(&rest))
        },
        None => (Vec::new(), normalize_chars(v)),
    }
}

/// Splits a virtual path such as `res://a/./b/../c` into its protocol (the
/// text before the last `://`, `None` when that is empty) and its path with
/// `.`, `..` and empty components resolved, joined with `/`.
pub fn normalize_virtual_path(path: &str) -> (r: (Option<String>, String))
    ensures
        (
            match r.0 {
                Some(p) => Some(p@),
                None => None,
            },
            r.1@,
        ) == normalized_path(path@),
{
    let v = str_chars(path);
    let (proto, rest) = normalize_parts(&v);
    let p = if proto.len() > 0 {
        Some(chars_to_string(&proto))
    } else {
        None
    };
    (p, chars_to_string(&rest))
}


/// Index of the last `/` in `s` before index `i` (exclusive), or -1.
pub open spec fn last_slash_before(s: Seq<char>, i: int) -> int
    decreases i,
{
    if i <= 0 {
        -1
    } else if s[i - 1] == '/' {
        i - 1
    } else {
        last_slash_before(s, i - 1)
    }
}

/// Index of the last `/` in `s`, or -1.
pub open spec fn last_slash(s: Seq<char>) -> int {
    last_slash_before(s, s.len() as int)
}

/// The `://`-terminated protocol prefix to put back in front of a normalized path.
pub open spec fn protocol_prefix(p: Option<Seq<char>>) -> Seq<char> {
    match p {
        Some(p) => p + seq![':', '/', '/'],
        None => Seq::empty(),
    }
}

/// The module that a relative name (one starting with `.`) denotes when it is
/// imported from the module at `base_path`: the directory of `base_path`
/// (everything before its last `/`) joined with the name, normalized, with the
/// protocol kept and `.js` ensured. `None` when `base_path` has no `/`.
pub open spec fn relative_module(base_path: Seq<char>, name: Seq<char>) -> Option<Seq<char>> {
    if last_slash(base_path) < 0 {
        None
    } else {
        let joined = base_path.take(last_slash(base_path)) + seq!['/'] + name;
        let np = normalized_path(joined);
        Some(with_js_extension(protocol_prefix(np.0) + np.1))
    }
}

/// The text of the error raised when a relative module cannot be resolved.
pub open spec fn resolve_error_text(base: Seq<char>, name: Seq<char>) -> Seq<char> {
    "Can't resolve path for "@ + name + " in "@ + base
}

/// A module name that could not be resolved against its importing module.
pub struct ResolveError {
    pub base: String,
    pub name: String,
    pub message: String,
}

fn find_last_slash(v: &Vec<char>) -> (r: Option<usize>)
    ensures
        match r {
            Some(i) => last_slash(v@) == i as int && i < v.len(),
            None => last_slash(v@) == -1,
        },
{
    let mut i: usize = v.len();
    while i > 0
        invariant
            i <= v.len(),
            last_slash(v@) == last_slash_before(v@, i as int),
        decreases i,
    {
        if v[i - 1] == '/' {
            return Some(i - 1);
        }
        i = i - 1;
    }
    None
}

fn append_chars(out: &mut Vec<char>, src: &Vec<char>)
    ensures
        final(out)@ == old(out)@ + src@,
{
    let mut j: usize = 0;
    let ghost base = out@;
    while j < src.len()
        invariant
            j <= src.len(),
            out@ == base + src@.take(j as int),
        decreases src.len() - j,
    {
        out.push(src[j]);
        assert(base + src@.take(j + 1) =~= (base + src@.take(j as int)).push(src@[j as int]));
        j = j + 1;
    }
    assert(src@.take(src.len() as int) =~= src@);
}

/// Resolves a relative module `name` imported from the module `base`, where
/// `base_path` is the path that `base` stands for (the same text unless `base`
/// is a `uid:` reference). Fails when `base_path` has no `/`; the error names
/// `base` and `name`.
pub fn resolve_relative(base: &str, base_path: &str, name: &str) -> (r: Result<String, ResolveError>)
    ensures
        match relative_module(base_path@, name@) {
            Some(m) => r is Ok && r->Ok_0@ == m,
            None => r is Err && r->Err_0.base@ == base@ && r->Err_0.name@ == name@
                && r->Err_0.message@ == resolve_error_text(base@, name@),
        },
{
    let bp = str_chars(base_path);
    match find_last_slash(&bp) {
        None => {
            let mut message = String::from_str("Can't resolve path for ");
            message.append(name);
            message.append(" in ");
            message.append(base);
            Err(ResolveError {
                base: String::from_str(base),
                name: String::from_str(name),
                message,
            })
        },
        Some(k) => {
            let mut joined = chars_range(&bp, 0, k);
            joined.push('/');
            let nv = str_chars(name);
            append_chars(&mut joined, &nv);
            assert(joined@ =~= base_path@.take(k as int) + seq!['/'] + name@);
            let (proto, rest) = normalize_parts(&joined);
            let mut full: Vec<char> = Vec::new();
            if proto.len() > 0 {
                append_chars(&mut full, &proto);
                full.push(':');
                full.push('/');
                full.push('/');
            }
            append_chars(&mut full, &rest);
            assert(full@ =~= protocol_prefix(normalized_path(joined@).0) + normalized_path(joined@).1);
            if !chars_end_with_js(&full) {
                full.push('.');
                full.push('j');
                full.push('s');
            }
            assert(full@ =~= relative_module(base_path@, name@).unwrap());
            Ok(chars_to_string(&full))
        },
    }
}


/// `s` starts with `prefix`.
pub open spec fn starts_with(s: Seq<char>, prefix: Seq<char>) -> bool {
    prefix.len() <= s.len() && s.take(prefix.len() as int) == prefix
}

/// The path that the Godot resource reference `path_or_uid` stands for
/// (`ResourceUID::ensure_path`: "Returns a path, converting `path_or_uid` if
/// necessary"). Text that is not a `uid://` reference needs no converting and
/// comes back as it is; a `uid://` reference comes back as a path, never as
/// `uid://` text (an unknown one as the empty text, with an error printed).
/// Which path a known reference gives depends on the project's resource
/// database, so that is not claimed.
#[verifier::external_body]
fn ensure_resource_path(path_or_uid: &str) -> (r: String)
    ensures
        !starts_with(path_or_uid@, "uid://"@) ==> r@ == path_or_uid@,
        starts_with(path_or_uid@, "uid://"@) ==> !starts_with(r@, "uid://"@),
{
    godot::classes::ResourceUid::ensure_path(path_or_uid).to_string()
}

/// Resolves module names for `import` statements.
pub struct JsResolver;

impl JsResolver {
    /// Resolves `name` imported from the module `base`: names that do not
    /// start with `.` are returned as they are; relative names are resolved
    /// against the directory of `base` (see `resolve_relative`), where a
    /// `uid:` reference in `base` is first turned into its path by Godot.
    pub fn resolve(&mut self, base: &str, name: &str) -> (r: Result<String, ResolveError>)
        ensures
            !starts_with(name@, dot()) ==> r is Ok && r->Ok_0@ == name@,
            starts_with(name@, dot()) && !starts_with(base@, "uid:"@) ==> match relative_module(
                base@,
                name@,
            ) {
                Some(m) => r is Ok && r->Ok_0@ == m,
                None => r is Err && r->Err_0.base@ == base@ && r->Err_0.name@ == name@
                    && r->Err_0.message@ == resolve_error_text(base@, name@),
            },
            starts_with(name@, dot()) && starts_with(base@, "uid:"@) ==> exists|p: Seq<char>|
                match #[trigger] relative_module(p, name@) {
                    Some(m) => r is Ok && r->Ok_0@ == m,
                    None => r is Err && r->Err_0.base@ == base@ && r->Err_0.name@ == name@
                        && r->Err_0.message@ == resolve_error_text(base@, name@),
                },
            starts_with(name@, dot()) && starts_with(base@, "uid:"@) && !starts_with(
                base@,
                "uid://"@,
            ) ==> match relative_module(base@, name@) {
                Some(m) => r is Ok && r->Ok_0@ == m,
                None => r is Err && r->Err_0.base@ == base@ && r->Err_0.name@ == name@
                    && r->Err_0.message@ == resolve_error_text(base@, name@),
            },
            starts_with(name@, dot()) && starts_with(base@, "uid://"@) ==> exists|p: Seq<char>|
                !starts_with(p, "uid://"@) && match #[trigger] relative_module(p, name@) {
                    Some(m) => r is Ok && r->Ok_0@ == m,
                    None => r is Err && r->Err_0.base@ == base@ && r->Err_0.name@ == name@
                        && r->Err_0.message@ == resolve_error_text(base@, name@),
                },
    {
        let nv = str_chars(name);
        if !(nv.len() > 0 && nv[0] == '.') {
            assert(!starts_with(name@, dot())) by {
                if starts_with(name@, dot()) {
                    assert(name@.take(1)[0] == '.');
                }
            }
            return Ok(String::from_str(name));
        }
        assert(name@.take(1) =~= dot());
        let bv = str_chars(base);
        let is_uid = bv.len() >= 4 && bv[0] == 'u' && bv[1] == 'i' && bv[2] == 'd' && bv[3] == ':';
        proof {
            reveal_strlit("uid:");
            reveal_strlit("uid://");
            if starts_with(base@, "uid://"@) {
                assert(base@.take(4) =~= base@.take(6).take(4));
                assert("uid://"@.take(4) =~= "uid:"@);
            }
            if is_uid {
                assert(base@.take(4) =~= "uid:"@);
            } else if starts_with(base@, "uid:"@) {
                assert(base@.take(4)[0] == 'u');
                assert(base@.take(4)[1] == 'i');
                assert(base@.take(4)[2] == 'd');
                assert(base@.take(4)[3] == ':');
            }
        }
        if is_uid {
            let path = ensure_resource_path(base);
            let r = resolve_relative(base, path.as_str(), name);
            assert(match relative_module(path@, name@) {
                Some(m) => r is Ok && r->Ok_0@ == m,
                None => r is Err && r->Err_0.base@ == base@ && r->Err_0.name@ == name@
                    && r->Err_0.message@ == resolve_error_text(base@, name@),
            });
            r
        } else {
            resolve_relative(base, base, name)
        }
    }
}

/// A script: its source text and the path it was read from.
pub struct JsFile {
    pub source: String,
    pub path: String,
}

/// A module that could not be loaded.
pub struct LoadError {
    pub name: String,
    pub message: String,
}

/// The text of the error raised when the module `name` cannot be read.
pub open spec fn load_error_text(name: Seq<char>) -> Seq<char> {
    "Failed to load load "@ + name
}

/// Loads module sources for the JavaScript runtime.
pub struct JsLoader;

impl JsLoader {
    /// Decides what loading the module `name` yields, given what reading its
    /// file gave (`None` when it could not be read): the file itself, or a
    /// loading error reported under the name `JsLoader`.
    pub fn load(&mut self, name: &str, read: Option<JsFile>) -> (r: Result<JsFile, LoadError>)
        ensures
            match read {
                Some(f) => r is Ok && r->Ok_0 == f,
                None => r is Err && r->Err_0.name@ == "JsLoader"@ && r->Err_0.message@
                    == load_error_text(name@),
            },
    {
        match read {
            Some(f) => Ok(f),
            None => {
                let mut message = String::from_str("Failed to load load ");
                message.append(name);
                Err(LoadError { name: String::from_str("JsLoader"), message })
            },
        }
    }
}

} // verus!
