//! Merging a command template with positional and named arguments before
//! execution: `{}` takes the next positional value, `{name}` the value bound
//! to that name, and `{{` / `}}` stand for literal braces.
use vstd::prelude::*;

verus! {

/// The first position at or after `i` where `c` occurs in `t`, if any.
pub open spec fn find_from(t: Seq<char>, i: int, c: char) -> Option<int>
    decreases t.len() - i,
{
    if i < 0 || i >= t.len() {
        None
    } else if t[i] == c {
        Some(i)
    } else {
        find_from(t, i + 1, c)
    }
}

/// A position returned by `find_from` lies in the scanned range and holds the
/// sought character, and no earlier scanned position does.
pub proof fn lemma_find_from(t: Seq<char>, i: int, c: char)
    requires
        0 <= i,
    ensures
        match find_from(t, i, c) {
            Some(j) => i <= j < t.len() && t[j] == c && (forall|k: int| i <= k < j ==> t[k] != c),
            None => forall|k: int| i <= k < t.len() ==> t[k] != c,
        },
    decreases t.len() - i,
{
    if i < 0 || i >= t.len() {
    } else if t[i] == c {
    } else {
        lemma_find_from(t, i + 1, c);
    }
}

/// The value bound to `key` in an association list, taking the first binding
/// when a name is bound twice.
pub open spec fn lookup_named(named: Seq<(Seq<char>, Seq<char>)>, key: Seq<char>) -> Option<
    Seq<char>,
>
    decreases named.len(),
{
    if named.len() == 0 {
        None
    } else if named[0].0 == key {
        Some(named[0].1)
    } else {
        lookup_named(named.drop_first(), key)
    }
}

/// The views of a sequence of owned strings.
pub open spec fn seq_views(v: Seq<String>) -> Seq<Seq<char>> {
    v.map_values(|s: String| s@)
}

/// The views of a sequence of owned string pairs.
pub open spec fn pair_views(v: Seq<(String, String)>) -> Seq<(Seq<char>, Seq<char>)> {
    v.map_values(|p: (String, String)| (p.0@, p.1@))
}

/// The formatted text from position `i` of the template on, with `np`
/// positional values already consumed; `None` when the template is malformed
/// (an unclosed or stray brace) or a placeholder has no value.
pub open spec fn spec_format_from(
    t: Seq<char>,
    i: int,
    pos: Seq<Seq<char>>,
    np: int,
    named: Seq<(Seq<char>, Seq<char>)>,
) -> Option<Seq<char>>
    decreases t.len() - i,
{
    if i < 0 || i >= t.len() {
        Some(Seq::<char>::empty())
    } else if t[i] == '{' {
        if i + 1 < t.len() && t[i + 1] == '{' {
            match spec_format_from(t, i + 2, pos, np, named) {
                Some(rest) => Some(seq!['{'] + rest),
                None => None,
            }
        } else {
            match find_from(t, i + 1, '}') {
                None => None,
                Some(j) => {
                    proof {
                        lemma_find_from(t, i + 1, '}');
                    }
                    let name = t.subrange(i + 1, j);
                    if name.len() == 0 {
                        if 0 <= np < pos.len() {
                            match spec_format_from(t, j + 1, pos, np + 1, named) {
                                Some(rest) => Some(pos[np] + rest),
                                None => None,
                            }
                        } else {
                            None
                        }
                    } else {
                        match lookup_named(named, name) {
                            Some(v) => match spec_format_from(t, j + 1, pos, np, named) {
                                Some(rest) => Some(v + rest),
                                None => None,
                            },
                            None => None,
                        }
                    }
                },
            }
        }
    } else if t[i] == '}' {
        if i + 1 < t.len() && t[i + 1] == '}' {
            match spec_format_from(t, i + 2, pos, np, named) {
                Some(rest) => Some(seq!['}'] + rest),
                None => None,
            }
        } else {
            None
        }
    } else {
        match spec_format_from(t, i + 1, pos, np, named) {
            Some(rest) => Some(seq![t[i]] + rest),
            None => None,
        }
    }
}

/// The fully formatted text of a template, or `None` when it is malformed or
/// a placeholder has no value.
pub open spec fn spec_format(
    t: Seq<char>,
    pos: Seq<Seq<char>>,
    named: Seq<(Seq<char>, Seq<char>)>,
) -> Option<Seq<char>> {
    spec_format_from(t, 0, pos, 0, named)
}

/// Relies on String::push: appends the one character at the end of the
/// string.
#[verifier::external_body]
fn push_char(s: &mut String, c: char)
    ensures
        final(s)@ == old(s)@ + seq![c],
{
    s.push(c);
}

/// Finds the first occurrence of `c` in `s` at or after position `from`.
fn find_char(s: &str, from: usize, c: char) -> (r: Option<usize>)
    requires
        from <= s@.len(),
    ensures
        match r {
            Some(j) => find_from(s@, from as int, c) == Some(j as int),
            None => find_from(s@, from as int, c) is None,
        },
{
    let n = s.unicode_len();
    let mut i: usize = from;
    while i < n
        invariant
            from <= i <= n,
            n == s@.len(),
            find_from(s@, from as int, c) == find_from(s@, i as int, c),
        decreases n - i,
    {
        if s.get_char(i) == c {
            return Some(i);
        }
        i = i + 1;
    }
    None
}

/// Finds the value bound to `key` among the named arguments, cloning the
/// first binding with that name.
fn lookup_value(named: &Vec<(String, String)>, key: &String) -> (r: Option<String>)
    ensures
        match r {
            Some(v) => lookup_named(pair_views(named@), key@) == Some(v@),
            None => lookup_named(pair_views(named@), key@) is None,
        },
{
    let ghost m = pair_views(named@);
    proof {
        assert(m.skip(0) =~= m);
    }
    let mut k: usize = 0;
    while k < named.len()
        invariant
            k <= named.len(),
            m == pair_views(named@),
            m.len() == named@.len(),
            lookup_named(m, key@) == lookup_named(m.skip(k as int), key@),
        decreases named.len() - k,
    {
        proof {
            assert(m.skip(k as int)[0] == m[k as int]);
            assert(m[k as int] == (named@[k as int].0@, named@[k as int].1@));
        }
        if named[k].0 == *key {
            return Some(named[k].1.clone());
        }
        proof {
            assert(m.skip(k as int).drop_first() =~= m.skip(k as int + 1));
        }
        k = k + 1;
    }
    proof {
        assert(m.skip(k as int).len() == 0);
    }
    None
}

/// Merges a command template with its arguments: each `{}` is replaced by the
/// next positional value in order, each `{name}` by the value bound to that
/// name, and `{{` / `}}` by literal braces. Returns `None`, formatting
/// nothing, when the template is malformed (an unclosed `{` or a stray `}`)
/// or a placeholder has no value: a `{}` beyond the positional values, or a
/// `{name}` bound by none of the named arguments.
pub fn format_command(
    template: &str,
    positional: &Vec<String>,
    named: &Vec<(String, String)>,
) -> (r: Option<String>)
    ensures
        match r {
            Some(out) => spec_format(template@, seq_views(positional@), pair_views(named@))
                == Some(out@),
            None => spec_format(template@, seq_views(positional@), pair_views(named@)) is None,
        },
{
    let ghost t = template@;
    let ghost tpos = seq_views(positional@);
    let ghost tnamed = pair_views(named@);
    let n = template.unicode_len();
    let mut out = String::new();
    let mut i: usize = 0;
    let mut np: usize = 0;
    while i < n
        invariant
            i <= n,
            np <= positional@.len(),
            n == t.len(),
            t == template@,
            tpos == seq_views(positional@),
            tnamed == pair_views(named@),
            tpos.len() == positional@.len(),
            spec_format_from(t, 0, tpos, 0, tnamed) == (match spec_format_from(
                t,
                i as int,
                tpos,
                np as int,
                tnamed,
            ) {
                Some(rest) => Some(out@ + rest),
                None => None::<Seq<char>>,
            }),
        decreases n - i,
    {
        let c = template.get_char(i);
        if c == '{' {
            if i + 1 < n && template.get_char(i + 1) == '{' {
                let ghost out0 = out@;
                push_char(&mut out, '{');
                proof {
                    let fnext = spec_format_from(t, i as int + 2, tpos, np as int, tnamed);
                    if fnext is Some {
                        assert(out0 + (seq!['{'] + fnext.unwrap()) =~= out@ + fnext.unwrap());
                    }
                }
                i = i + 2;
            } else {
                match find_char(template, i + 1, '}') {
                    None => {
                        proof {
                            assert(spec_format_from(t, i as int, tpos, np as int, tnamed) is None);
                        }
                        return None;
                    },
                    Some(j) => {
                        proof {
                            lemma_find_from(t, i as int + 1, '}');
                        }
                        let name = template.substring_char(i + 1, j);
                        if name.is_empty() {
                            proof {
                                assert(t.subrange(i as int + 1, j as int).len() == 0);
                            }
                            if np < positional.len() {
                                let ghost out0 = out@;
                                out.append(positional[np].as_str());
                                proof {
                                    assert(tpos[np as int] == positional@[np as int]@);
                                    let fnext = spec_format_from(
                                        t,
                                        j as int + 1,
                                        tpos,
                                        np as int + 1,
                                        tnamed,
                                    );
                                    if fnext is Some {
                                        assert(out0 + (tpos[np as int] + fnext.unwrap()) =~= out@
                                            + fnext.unwrap());
                                    }
                                }
                                np = np + 1;
                                i = j + 1;
                            } else {
                                proof {
                                    assert(spec_format_from(
                                        t,
                                        i as int,
                                        tpos,
                                        np as int,
                                        tnamed,
                                    ) is None);
                                }
                                return None;
                            }
                        } else {
                            let key = String::from_str(name);
                            match lookup_value(named, &key) {
                                Some(v) => {
                                    let ghost out0 = out@;
                                    out.append(v.as_str());
                                    proof {
                                        let fnext = spec_format_from(
                                            t,
                                            j as int + 1,
                                            tpos,
                                            np as int,
                                            tnamed,
                                        );
                                        if fnext is Some {
                                            assert(out0 + (v@ + fnext.unwrap()) =~= out@
                                                + fnext.unwrap());
                                        }
                                    }
                                    i = j + 1;
                                },
                                None => {
                                    proof {
                                        assert(spec_format_from(
                                            t,
                                            i as int,
                                            tpos,
                                            np as int,
                                            tnamed,
                                        ) is None);
                                    }
                                    return None;
                                },
                            }
                        }
                    },
                }
            }
        } else if c == '}' {
            if i + 1 < n && template.get_char(i + 1) == '}' {
                let ghost out0 = out@;
                push_char(&mut out, '}');
                proof {
                    let fnext = spec_format_from(t, i as int + 2, tpos, np as int, tnamed);
                    if fnext is Some {
                        assert(out0 + (seq!['}'] + fnext.unwrap()) =~= out@ + fnext.unwrap());
                    }
                }
                i = i + 2;
            } else {
                proof {
                    assert(spec_format_from(t, i as int, tpos, np as int, tnamed) is None);
                }
                return None;
            }
        } else {
            let ghost out0 = out@;
            push_char(&mut out, c);
            proof {
                let fnext = spec_format_from(t, i as int + 1, tpos, np as int, tnamed);
                if fnext is Some {
                    assert(out0 + (seq![t[i as int]] + fnext.unwrap()) =~= out@ + fnext.unwrap());
                }
            }
            i = i + 1;
        }
    }
    proof {
        assert(out@ + Seq::<char>::empty() =~= out@);
    }
    Some(out)
}

} // verus!
