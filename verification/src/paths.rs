use vstd::prelude::*;

verus! {

/// How the cache path is built from the cache directory and the artifact
/// filename, mirroring the platform's path join: an absolute filename wins,
/// otherwise a single separator is inserted unless one is already there.
pub open spec fn spec_cache_path(dir: Seq<char>, file: Seq<char>) -> Seq<char> {
    if file.len() > 0 && file[0] == '/' {
        file
    } else if dir.len() == 0 {
        file
    } else if dir.last() == '/' {
        dir + file
    } else {
        dir + seq!['/'] + file
    }
}

/// Computes the path of the cached archive: `cache_dir / filename`.
pub fn cache_path(cache_dir: &str, filename: &str) -> (r: String)
    ensures
        r@ == spec_cache_path(cache_dir@, filename@),
{
    proof {
        reveal_strlit("/");
    }
    let flen = filename.unicode_len();
    if flen > 0 && filename.get_char(0) == '/' {
        return String::from_str(filename);
    }
    let dlen = cache_dir.unicode_len();
    if dlen == 0 {
        return String::from_str(filename);
    }
    if cache_dir.get_char(dlen - 1) == '/' {
        let r = String::from_str(cache_dir).concat(filename);
        assert(r@ =~= spec_cache_path(cache_dir@, filename@));
        r
    } else {
        let mut r = String::from_str(cache_dir);
        r.append("/");
        let r = r.concat(filename);
        assert(r@ =~= spec_cache_path(cache_dir@, filename@));
        r
    }
}

/// The components of a stored entry name, split at `/` separators. The
/// result always holds at least one (possibly empty) component.
pub open spec fn spec_split_slashes(s: Seq<char>) -> Seq<Seq<char>>
    decreases s.len(),
{
    if s.len() == 0 {
        seq![Seq::<char>::empty()]
    } else if s.last() == '/' {
        spec_split_slashes(s.drop_last()).push(Seq::<char>::empty())
    } else {
        let r = spec_split_slashes(s.drop_last());
        r.update(r.len() - 1, r.last().push(s.last()))
    }
}

pub proof fn lemma_split_nonempty(s: Seq<char>)
    ensures
        spec_split_slashes(s).len() >= 1,
    decreases s.len(),
{
    if s.len() > 0 {
        lemma_split_nonempty(s.drop_last());
    }
}

/// One step of path normalization: empty and current-directory components
/// vanish, a parent-directory component cancels the component before it and
/// is rejected when there is none (it would escape the root), anything else
/// is kept.
pub open spec fn spec_normalize_step(acc: Seq<Seq<char>>, c: Seq<char>) -> Option<Seq<Seq<char>>> {
    if c.len() == 0 || c == seq!['.'] {
        Some(acc)
    } else if c == seq!['.', '.'] {
        if acc.len() == 0 {
            None
        } else {
            Some(acc.drop_last())
        }
    } else {
        Some(acc.push(c))
    }
}

pub open spec fn spec_normalize(parts: Seq<Seq<char>>) -> Option<Seq<Seq<char>>>
    decreases parts.len(),
{
    if parts.len() == 0 {
        Some(Seq::<Seq<char>>::empty())
    } else {
        match spec_normalize(parts.drop_last()) {
            None => None,
            Some(acc) => spec_normalize_step(acc, parts.last()),
        }
    }
}

/// Resolving a stored entry name to a path relative to the destination root:
/// rejected (`None`) when the name holds a NUL character or a backslash (an
/// ambiguous encoding: a separator on some platforms), is absolute, or its
/// parent-directory steps would escape the root; otherwise the normalized
/// components.
pub open spec fn spec_sanitize(name: Seq<char>) -> Option<Seq<Seq<char>>> {
    if name.contains('\0') || name.contains('\\') || (name.len() > 0 && name[0] == '/') {
        None
    } else {
        spec_normalize(spec_split_slashes(name))
    }
}

/// A plain path component: nonempty, not a current- or parent-directory
/// step, and free of separators (on any platform) and NUL.
pub open spec fn is_normal_component(c: Seq<char>) -> bool {
    &&& c.len() > 0
    &&& c != seq!['.']
    &&& c != seq!['.', '.']
    &&& !c.contains('/')
    &&& !c.contains('\\')
    &&& !c.contains('\0')
}

/// A path that stays under the root it is joined to: plain components only.
pub open spec fn path_is_safe(p: Seq<Seq<char>>) -> bool {
    forall|i: int| 0 <= i < p.len() ==> is_normal_component(#[trigger] p[i])
}

/// A component free of every separator and of NUL.
pub open spec fn component_clean(c: Seq<char>) -> bool {
    !c.contains('/') && !c.contains('\\') && !c.contains('\0')
}

proof fn lemma_split_components_clean(s: Seq<char>)
    requires
        !s.contains('\0'),
        !s.contains('\\'),
    ensures
        forall|i: int|
            0 <= i < spec_split_slashes(s).len() ==> component_clean(
                #[trigger] spec_split_slashes(s)[i],
            ),
    decreases s.len(),
{
    if s.len() == 0 {
    } else {
        assert(!s.drop_last().contains('\0') && !s.drop_last().contains('\\')) by {
            if s.drop_last().contains('\0') {
                let j = choose|j: int| 0 <= j < s.drop_last().len() && s.drop_last()[j] == '\0';
                assert(s[j] == '\0');
            }
            if s.drop_last().contains('\\') {
                let j = choose|j: int| 0 <= j < s.drop_last().len() && s.drop_last()[j] == '\\';
                assert(s[j] == '\\');
            }
        }
        lemma_split_components_clean(s.drop_last());
        let r = spec_split_slashes(s.drop_last());
        let c = s.last();
        assert(c != '\0' && c != '\\') by {
            if c == '\0' || c == '\\' {
                assert(s[s.len() - 1] == c);
            }
        }
        if c == '/' {
            assert(forall|i: int|
                0 <= i < spec_split_slashes(s).len() ==> component_clean(
                    #[trigger] spec_split_slashes(s)[i],
                )) by {
                assert(component_clean(Seq::<char>::empty()));
            }
        } else {
            lemma_split_nonempty(s.drop_last());
            let grown = r.last().push(c);
            assert(component_clean(grown)) by {
                if grown.contains('/') {
                    let j = choose|j: int| 0 <= j < grown.len() && grown[j] == '/';
                    if j < r.last().len() {
                        assert(r.last()[j] == '/');
                        assert(r[r.len() - 1].contains('/'));
                    }
                }
                if grown.contains('\\') {
                    let j = choose|j: int| 0 <= j < grown.len() && grown[j] == '\\';
                    if j < r.last().len() {
                        assert(r.last()[j] == '\\');
                        assert(r[r.len() - 1].contains('\\'));
                    }
                }
                if grown.contains('\0') {
                    let j = choose|j: int| 0 <= j < grown.len() && grown[j] == '\0';
                    if j < r.last().len() {
                        assert(r.last()[j] == '\0');
                        assert(r[r.len() - 1].contains('\0'));
                    }
                }
            }
        }
    }
}

proof fn lemma_normalize_safe(parts: Seq<Seq<char>>)
    requires
        forall|i: int| 0 <= i < parts.len() ==> component_clean(#[trigger] parts[i]),
        spec_normalize(parts) is Some,
    ensures
        path_is_safe(spec_normalize(parts).unwrap()),
    decreases parts.len(),
{
    if parts.len() == 0 {
    } else {
        lemma_normalize_safe(parts.drop_last());
        let acc = spec_normalize(parts.drop_last()).unwrap();
        let c = parts.last();
        if c.len() == 0 || c == seq!['.'] {
        } else if c == seq!['.', '.'] {
        } else {
            assert(parts[parts.len() - 1] == c);
            assert(is_normal_component(c));
            let r = acc.push(c);
            assert(forall|i: int| 0 <= i < r.len() ==> is_normal_component(#[trigger] r[i]));
        }
    }
}

/// Path-traversal defense: every path that sanitizing accepts consists of
/// plain components only, so joining it under the destination root can never
/// name a location outside that root.
pub proof fn lemma_sanitize_safe(name: Seq<char>)
    ensures
        spec_sanitize(name) matches Some(p) ==> path_is_safe(p),
{
    if spec_sanitize(name) is Some {
        lemma_split_components_clean(name);
        lemma_normalize_safe(spec_split_slashes(name));
    }
}

proof fn lemma_none_persists(s: Seq<char>, i: int)
    requires
        0 <= i <= s.len(),
        spec_normalize(spec_split_slashes(s.take(i)).drop_last()) is None,
    ensures
        spec_normalize(spec_split_slashes(s)) is None,
    decreases s.len() - i,
{
    if i == s.len() {
        assert(s.take(i) =~= s);
        lemma_split_nonempty(s);
    } else {
        let p_cur = spec_split_slashes(s.take(i));
        let p_next = spec_split_slashes(s.take(i + 1));
        assert(s.take(i + 1).drop_last() =~= s.take(i));
        assert(s.take(i + 1).last() == s[i]);
        lemma_split_nonempty(s.take(i));
        if s[i] == '/' {
            assert(p_next =~= p_cur.push(Seq::<char>::empty()));
            assert(p_next.drop_last() =~= p_cur);
        } else {
            assert(p_next =~= p_cur.update(p_cur.len() - 1, p_cur.last().push(s[i])));
            assert(p_next.drop_last() =~= p_cur.drop_last());
        }
        lemma_none_persists(s, i + 1);
    }
}

/// The views of a sequence of owned strings.
pub open spec fn views_of(v: Seq<String>) -> Seq<Seq<char>> {
    v.map_values(|s: String| s@)
}

/// The view of an optional component vector, as `spec_sanitize` speaks of it.
pub open spec fn option_views(r: Option<Vec<String>>) -> Option<Seq<Seq<char>>> {
    match r {
        Some(v) => Some(views_of(v@)),
        None => None,
    }
}

proof fn lemma_views_push(v: Seq<String>, x: String)
    ensures
        views_of(v.push(x)) == views_of(v).push(x@),
{
    assert(views_of(v.push(x)) =~= views_of(v).push(x@));
}

proof fn lemma_views_drop_last(v: Seq<String>)
    requires
        v.len() > 0,
    ensures
        views_of(v.drop_last()) == views_of(v).drop_last(),
{
    assert(views_of(v.drop_last()) =~= views_of(v).drop_last());
}

/// Resolves a stored entry name to a safe relative path under the
/// destination root, or `None` when no safe resolution exists; such an entry
/// is silently skipped by extraction.
pub fn sanitize_entry_path(name: &str) -> (r: Option<Vec<String>>)
    ensures
        option_views(r) == spec_sanitize(name@),
{
    let n = name.unicode_len();
    if n > 0 && name.get_char(0) == '/' {
        return None;
    }
    let mut acc: Vec<String> = Vec::new();
    let mut start: usize = 0;
    let mut i: usize = 0;
    while i < n
        invariant
            n == name@.len(),
            start <= i <= n,
            !(name@.take(i as int).contains('\0')),
            !(name@.take(i as int).contains('\\')),
            n > 0 ==> name@[0] != '/',
            spec_normalize(spec_split_slashes(name@.take(i as int)).drop_last()) == Some(
                views_of(acc@),
            ),
            spec_split_slashes(name@.take(i as int)).last() == name@.subrange(
                start as int,
                i as int,
            ),
        decreases n - i,
    {
        let ghost parts = spec_split_slashes(name@.take(i as int));
        let ghost comp = name@.subrange(start as int, i as int);
        proof {
            lemma_split_nonempty(name@.take(i as int));
        }
        let c = name.get_char(i);
        if c == '\0' {
            proof {
                assert(name@.contains('\0')) by {
                    assert(name@[i as int] == '\0');
                }
            }
            return None;
        }
        if c == '\\' {
            proof {
                assert(name@.contains('\\')) by {
                    assert(name@[i as int] == '\\');
                }
            }
            return None;
        }
        proof {
            assert(!name@.take(i as int + 1).contains('\0')) by {
                if name@.take(i as int + 1).contains('\0') {
                    let j = choose|j: int|
                        0 <= j < i + 1 && #[trigger] name@.take(i as int + 1)[j] == '\0';
                    if j < i {
                        assert(name@.take(i as int)[j] == '\0');
                    }
                }
            }
            assert(!name@.take(i as int + 1).contains('\\')) by {
                if name@.take(i as int + 1).contains('\\') {
                    let j = choose|j: int|
                        0 <= j < i + 1 && #[trigger] name@.take(i as int + 1)[j] == '\\';
                    if j < i {
                        assert(name@.take(i as int)[j] == '\\');
                    }
                }
            }
            assert(name@.take(i as int + 1).drop_last() =~= name@.take(i as int));
            assert(name@.take(i as int + 1).last() == name@[i as int]);
        }
        if c == '/' {
            proof {
                assert(spec_split_slashes(name@.take(i as int + 1)) =~= parts.push(
                    Seq::<char>::empty(),
                ));
                assert(spec_split_slashes(name@.take(i as int + 1)).drop_last() =~= parts);
                assert(spec_split_slashes(name@.take(i as int + 1)).last() =~= name@.subrange(
                    i as int + 1,
                    i as int + 1,
                ));
            }
            // Close the component name[start..i] and fold it into acc.
            let clen = i - start;
            if clen == 0 {
                proof {
                    assert(comp =~= Seq::<char>::empty());
                }
            } else if clen == 1 && name.get_char(start) == '.' {
                proof {
                    assert(comp =~= seq!['.']);
                }
            } else if clen == 2 && name.get_char(start) == '.' && name.get_char(start + 1)
                == '.' {
                proof {
                    assert(comp =~= seq!['.', '.']);
                }
                if acc.len() == 0 {
                    proof {
                        assert(spec_normalize(parts) is None);
                        lemma_none_persists(name@, i as int + 1);
                    }
                    return None;
                }
                proof {
                    lemma_views_drop_last(acc@);
                }
                acc.pop();
            } else {
                proof {
                    assert(comp.len() >= 1);
                    if comp == seq!['.'] {
                        assert(comp[0] == '.');
                        assert(name@[start as int] == '.');
                    }
                    if comp == seq!['.', '.'] {
                        assert(comp[0] == '.' && comp[1] == '.');
                        assert(name@[start as int] == '.' && name@[start as int + 1] == '.');
                    }
                }
                let comp_str = name.substring_char(start, i);
                let owned = String::from_str(comp_str);
                proof {
                    lemma_views_push(acc@, owned);
                }
                acc.push(owned);
            }
            start = i + 1;
        } else {
            proof {
                assert(spec_split_slashes(name@.take(i as int + 1)) =~= parts.update(
                    parts.len() - 1,
                    parts.last().push(c),
                ));
                assert(spec_split_slashes(name@.take(i as int + 1)).drop_last() =~= parts
                    .drop_last());
                assert(spec_split_slashes(name@.take(i as int + 1)).last() =~= name@.subrange(
                    start as int,
                    i as int + 1,
                ));
            }
        }
        i = i + 1;
    }
    // Close the final component: the full name has now been scanned.
    proof {
        assert(name@.take(n as int) =~= name@);
        lemma_split_nonempty(name@);
    }
    let ghost parts = spec_split_slashes(name@);
    let ghost comp = name@.subrange(start as int, n as int);
    let clen = n - start;
    if clen == 0 {
        proof {
            assert(comp =~= Seq::<char>::empty());
        }
        Some(acc)
    } else if clen == 1 && name.get_char(start) == '.' {
        proof {
            assert(comp =~= seq!['.']);
        }
        Some(acc)
    } else if clen == 2 && name.get_char(start) == '.' && name.get_char(start + 1) == '.' {
        proof {
            assert(comp =~= seq!['.', '.']);
        }
        if acc.len() == 0 {
            return None;
        }
        proof {
            lemma_views_drop_last(acc@);
        }
        acc.pop();
        Some(acc)
    } else {
        proof {
            assert(comp.len() >= 1);
            if comp == seq!['.'] {
                assert(comp[0] == '.');
                assert(name@[start as int] == '.');
            }
            if comp == seq!['.', '.'] {
                assert(comp[0] == '.' && comp[1] == '.');
                assert(name@[start as int] == '.' && name@[start as int + 1] == '.');
            }
        }
        let comp_str = name.substring_char(start, n);
        let owned = String::from_str(comp_str);
        proof {
            lemma_views_push(acc@, owned);
        }
        acc.push(owned);
        Some(acc)
    }
}

} // verus!
