use vstd::prelude::*;

use crate::paths::{
    apply_component, dot, dot_dot, ends_with, join_slash, js_suffix, last_sep, last_sep_from,
    last_slash, last_slash_before, normalized_components, normalized_path, path_part_of, protocol_of, protocol_prefix,
    relative_module, scan_components, sep_at, with_js_extension,
};

verus! {

/// A path component that survives normalization: non-empty, neither `.`
/// nor `..`, and free of `/`.
pub open spec fn clean_name(x: Seq<char>) -> bool {
    x.len() > 0 && x != dot() && x != dot_dot() && !x.contains('/')
}

/// Every name in the list is clean.
pub open spec fn all_clean(names: Seq<Seq<char>>) -> bool {
    forall|i: int| 0 <= i < names.len() ==> #[trigger] clean_name(names[i])
}

proof fn lemma_apply_keeps_clean(stack: Seq<Seq<char>>, seg: Seq<char>)
    requires
        all_clean(stack),
        !seg.contains('/'),
    ensures
        all_clean(apply_component(stack, seg)),
{
    let r = apply_component(stack, seg);
    if seg.len() == 0 || seg == dot() {
    } else if seg == dot_dot() {
        if stack.len() > 0 {
            assert forall|i: int| 0 <= i < r.len() implies #[trigger] clean_name(r[i]) by {
                assert(r[i] == stack[i]);
            }
        }
    } else {
        assert forall|i: int| 0 <= i < r.len() implies #[trigger] clean_name(r[i]) by {
            if i < stack.len() {
                assert(r[i] == stack[i]);
            }
        }
    }
}

proof fn lemma_scan_clean(s: Seq<char>)
    ensures
        all_clean(scan_components(s).0),
        !scan_components(s).1.contains('/'),
    decreases s.len(),
{
    if s.len() > 0 {
        lemma_scan_clean(s.drop_last());
        let (stack, cur) = scan_components(s.drop_last());
        if s.last() == '/' {
            lemma_apply_keeps_clean(stack, cur);
            assert(!Seq::<char>::empty().contains('/'));
        } else {
            assert forall|j: int| 0 <= j < cur.push(s.last()).len() implies cur.push(
                s.last(),
            )[j] != '/' by {
                if j < cur.len() {
                    assert(cur.push(s.last())[j] == cur[j]);
                    assert(!cur.contains('/'));
                    if cur[j] == '/' {
                        assert(cur.contains('/'));
                    }
                }
            }
        }
    }
}

/// Normalization only keeps clean names.
pub proof fn lemma_normalized_clean(s: Seq<char>)
    ensures
        all_clean(normalized_components(s)),
{
    lemma_scan_clean(s);
    lemma_apply_keeps_clean(scan_components(s).0, scan_components(s).1);
}

proof fn lemma_scan_append_plain(p: Seq<char>, x: Seq<char>)
    requires
        !x.contains('/'),
    ensures
        scan_components(p + x) == (scan_components(p).0, scan_components(p).1 + x),
    decreases x.len(),
{
    if x.len() == 0 {
        assert(p + x =~= p);
        assert(scan_components(p).1 + x =~= scan_components(p).1);
    } else {
        let y = x.drop_last();
        assert(!y.contains('/')) by {
            if y.contains('/') {
                let j = choose|j: int| 0 <= j < y.len() && y[j] == '/';
                assert(x[j] == '/');
            }
        }
        lemma_scan_append_plain(p, y);
        assert((p + x).drop_last() =~= p + y);
        assert((p + x).last() == x.last());
        assert(x.last() != '/') by {
            if x.last() == '/' {
                assert(x.contains('/'));
            }
        }
        assert((scan_components(p).1 + y).push(x.last()) =~= scan_components(p).1 + x);
    }
}

/// Splitting the `/`-joined clean names gives the names back.
pub proof fn lemma_components_of_join(names: Seq<Seq<char>>)
    requires
        all_clean(names),
    ensures
        normalized_components(join_slash(names)) == names,
    decreases names.len(),
{
    if names.len() == 0 {
        assert(scan_components(Seq::<char>::empty()) == (
            Seq::<Seq<char>>::empty(),
            Seq::<char>::empty(),
        ));
        assert(normalized_components(join_slash(names)) =~= names);
    } else if names.len() == 1 {
        let x = names[0];
        assert(clean_name(x));
        lemma_scan_append_plain(Seq::<char>::empty(), x);
        assert(Seq::<char>::empty() + x =~= x);
        assert(scan_components(Seq::<char>::empty()) == (
            Seq::<Seq<char>>::empty(),
            Seq::<char>::empty(),
        ));
        assert(Seq::<char>::empty() + x =~= x);
        assert(normalized_components(join_slash(names)) =~= names);
    } else {
        let init = names.drop_last();
        let x = names.last();
        assert(clean_name(x)) by {
            assert(clean_name(names[names.len() - 1]));
        }
        assert(all_clean(init)) by {
            assert forall|i: int| 0 <= i < init.len() implies #[trigger] clean_name(init[i]) by {
                assert(init[i] == names[i]);
                assert(clean_name(names[i]));
            }
        }
        lemma_components_of_join(init);
        let j = join_slash(init);
        let p = j.push('/');
        assert(join_slash(names) =~= p + x);
        lemma_scan_append_plain(p, x);
        assert(p.drop_last() =~= j);
        assert(scan_components(p) == (
            apply_component(scan_components(j).0, scan_components(j).1),
            Seq::<char>::empty(),
        ));
        assert(Seq::<char>::empty() + x =~= x);
        assert(apply_component(init, x) == init.push(x));
        assert(init.push(x) =~= names);
    }
}

/// Normalizing the path part twice gives what normalizing it once gives.
pub proof fn law_components_idempotent(s: Seq<char>)
    ensures
        normalized_components(join_slash(normalized_components(s))) == normalized_components(s),
{
    lemma_normalized_clean(s);
    lemma_components_of_join(normalized_components(s));
}

proof fn lemma_join_chars(names: Seq<Seq<char>>)
    requires
        all_clean(names),
    ensures
        forall|i: int|
            0 <= i < join_slash(names).len() - 1 ==> !(#[trigger] join_slash(names)[i] == '/'
                && join_slash(names)[i + 1] == '/'),
        names.len() > 0 ==> join_slash(names).len() > 0 && join_slash(names)[0] != '/'
            && join_slash(names).last() != '/',
    decreases names.len(),
{
    if names.len() == 0 {
    } else if names.len() == 1 {
        let x = names[0];
        assert(clean_name(x));
        assert(x[0] != '/') by {
            if x[0] == '/' {
                assert(x.contains('/'));
            }
        }
        assert(x.last() != '/') by {
            if x.last() == '/' {
                assert(x[x.len() - 1] == '/');
                assert(x.contains('/'));
            }
        }
        assert forall|i: int| 0 <= i < x.len() - 1 implies !(#[trigger] x[i] == '/' && x[i + 1]
            == '/') by {
            if x[i] == '/' {
                assert(x.contains('/'));
            }
        }
    } else {
        let init = names.drop_last();
        let x = names.last();
        assert(clean_name(x)) by {
            assert(clean_name(names[names.len() - 1]));
        }
        assert(all_clean(init)) by {
            assert forall|i: int| 0 <= i < init.len() implies #[trigger] clean_name(init[i]) by {
                assert(init[i] == names[i]);
                assert(clean_name(names[i]));
            }
        }
        lemma_join_chars(init);
        let j = join_slash(init);
        let t = join_slash(names);
        assert(t == j + seq!['/'] + x);
        assert(x[0] != '/') by {
            if x[0] == '/' {
                assert(x.contains('/'));
            }
        }
        assert(x.last() != '/') by {
            if x.last() == '/' {
                assert(x[x.len() - 1] == '/');
                assert(x.contains('/'));
            }
        }
        assert forall|i: int| 0 <= i < t.len() - 1 implies !(#[trigger] t[i] == '/' && t[i + 1]
            == '/') by {
            if i < j.len() - 1 {
                assert(t[i] == j[i] && t[i + 1] == j[i + 1]);
            } else if i == j.len() - 1 {
                assert(t[i] == j.last());
            } else if i == j.len() {
                assert(t[i + 1] == x[0]);
            } else {
                assert(t[i] == x[i - j.len() - 1]);
                if t[i] == '/' {
                    assert(x.contains('/'));
                }
            }
        }
        assert(t[0] == j[0]);
        assert(t.last() == x.last());
    }
}

proof fn lemma_no_sep_below(t: Seq<char>, i: int)
    requires
        forall|k: int| 0 <= k < t.len() - 1 ==> !(#[trigger] t[k] == '/' && t[k + 1] == '/'),
    ensures
        last_sep_from(t, i) == -1,
    decreases i + 1,
{
    if i >= 0 {
        if sep_at(t, i) {
            assert(t[i + 1] == '/' && t[i + 2] == '/');
            assert(false);
        }
        lemma_no_sep_below(t, i - 1);
    }
}

proof fn lemma_last_sep_is(t: Seq<char>, k: int, i: int)
    requires
        sep_at(t, k),
        k <= i,
        forall|m: int| k < m <= i ==> !#[trigger] sep_at(t, m),
    ensures
        last_sep_from(t, i) == k,
    decreases i - k,
{
    if i > k {
        lemma_last_sep_is(t, k, i - 1);
    }
}

/// Normalizing a normalized virtual path (its protocol, when it has one,
/// put back in front with `://`) changes nothing.
pub proof fn law_normalize_idempotent(s: Seq<char>)
    ensures
        normalized_path(protocol_prefix(normalized_path(s).0) + normalized_path(s).1)
            == normalized_path(s),
{
    let np = normalized_path(s);
    let names = normalized_components(path_part_of(s));
    let n = np.1;
    lemma_normalized_clean(path_part_of(s));
    law_components_idempotent(path_part_of(s));
    lemma_join_chars(names);
    let t = protocol_prefix(np.0) + n;
    match np.0 {
        None => {
            assert(t =~= n);
            lemma_no_sep_below(t, t.len() - 3);
            assert(protocol_of(t) =~= Seq::<char>::empty());
            assert(path_part_of(t) == t);
        },
        Some(p) => {
            assert(p.len() > 0);
            let k = p.len() as int;
            assert(t =~= p + seq![':', '/', '/'] + n);
            assert(sep_at(t, k));
            if t.len() - 3 > k {
                assert forall|m: int| k < m <= t.len() - 3 implies !#[trigger] sep_at(t, m) by {
                    if sep_at(t, m) {
                        if m == k + 1 || m == k + 2 {
                            assert(t[m] == '/');
                        } else {
                            assert(t[m + 1] == n[m + 1 - k - 3]);
                            assert(t[m + 2] == n[m + 2 - k - 3]);
                            assert(false);
                        }
                    }
                }
            }
            lemma_last_sep_is(t, k, t.len() - 3);
            assert(last_sep(t) == k);
            assert(t.take(k) =~= p);
            assert(t.skip(k + 3) =~= n);
        },
    }
}

/// A name completed with `.js` ends with `.js`, and completing it again
/// changes nothing.
pub proof fn law_js_extension(name: Seq<char>)
    ensures
        ends_with(with_js_extension(name), js_suffix()),
        with_js_extension(with_js_extension(name)) == with_js_extension(name),
{
    if !ends_with(name, js_suffix()) {
        let r = name + js_suffix();
        assert(r.subrange(r.len() - 3, r.len() as int) =~= js_suffix());
    }
}

/// A relative module always resolves to a `.js` module.
pub proof fn law_relative_module_is_js(base_path: Seq<char>, name: Seq<char>)
    ensures
        relative_module(base_path, name) matches Some(m) ==> ends_with(m, js_suffix()),
{
    if last_slash(base_path) >= 0 {
        let joined = base_path.take(last_slash(base_path)) + seq!['/'] + name;
        let np = normalized_path(joined);
        law_js_extension(protocol_prefix(np.0) + np.1);
    }
}


proof fn lemma_last_slash_after_dir(d: Seq<char>, f: Seq<char>, i: int)
    requires
        !f.contains('/'),
        d.len() + 1 <= i <= d.len() + 1 + f.len(),
    ensures
        last_slash_before(d + seq!['/'] + f, i) == d.len(),
    decreases i,
{
    let s = d + seq!['/'] + f;
    if i > d.len() + 1 {
        assert(s[i - 1] == f[i - 1 - d.len() - 1]);
        if s[i - 1] == '/' {
            assert(f.contains('/'));
        }
        lemma_last_slash_after_dir(d, f, i - 1);
    } else {
        assert(s[i - 1] == '/');
    }
}

/// A relative import resolves the same from every module of one directory:
/// only the importing module's directory matters, not its file name.
pub proof fn law_resolution_depends_on_directory(d: Seq<char>, f1: Seq<char>, f2: Seq<char>, name: Seq<char>)
    requires
        !f1.contains('/'),
        !f2.contains('/'),
    ensures
        relative_module(d + seq!['/'] + f1, name) == relative_module(d + seq!['/'] + f2, name),
        relative_module(d + seq!['/'] + f1, name) is Some,
{
    let b1 = d + seq!['/'] + f1;
    let b2 = d + seq!['/'] + f2;
    lemma_last_slash_after_dir(d, f1, b1.len() as int);
    lemma_last_slash_after_dir(d, f2, b2.len() as int);
    assert(b1.take(d.len() as int) =~= d);
    assert(b2.take(d.len() as int) =~= d);
}

} // verus!
