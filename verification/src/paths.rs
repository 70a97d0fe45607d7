//! Path strings and file names: normalization into components, joining a
//! directory with a file name, and inserting a suffix before a file name's
//! extension.

use vstd::prelude::*;

verus! {

// ===== specification =====

/// The single-character path component that stands for "the current
/// directory".
pub open spec fn dot() -> Seq<char> {
    seq!['.']
}

pub open spec fn is_absolute(s: Seq<char>) -> bool {
    s.len() > 0 && s[0] == '/'
}

/// The non-empty components of `s`, split on `/`; `cur` holds the run of
/// characters already read but not yet closed by a separator.
pub open spec fn split_components(s: Seq<char>, cur: Seq<char>) -> Seq<Seq<char>>
    decreases s.len(),
{
    if s.len() == 0 {
        if cur.len() == 0 {
            Seq::empty()
        } else {
            seq![cur]
        }
    } else if s[0] == '/' {
        if cur.len() == 0 {
            split_components(s.subrange(1, s.len() as int), Seq::empty())
        } else {
            seq![cur] + split_components(s.subrange(1, s.len() as int), Seq::empty())
        }
    } else {
        split_components(s.subrange(1, s.len() as int), cur.push(s[0]))
    }
}

/// The maximal non-empty separator-free runs of `s`, in order.
pub open spec fn raw_components(s: Seq<char>) -> Seq<Seq<char>> {
    split_components(s, Seq::empty())
}

/// `cs` with every `.` component removed.
pub open spec fn drop_dots(cs: Seq<Seq<char>>) -> Seq<Seq<char>>
    decreases cs.len(),
{
    if cs.len() == 0 {
        Seq::empty()
    } else if cs[0] == dot() {
        drop_dots(cs.subrange(1, cs.len() as int))
    } else {
        seq![cs[0]] + drop_dots(cs.subrange(1, cs.len() as int))
    }
}

/// The components a normalized path keeps: a `.` that opens a relative path
/// survives; every other `.` disappears; empty runs never appear.
pub open spec fn kept_components(s: Seq<char>) -> Seq<Seq<char>> {
    let cs = raw_components(s);
    if !is_absolute(s) && cs.len() > 0 && cs[0] == dot() {
        seq![dot()] + drop_dots(cs.subrange(1, cs.len() as int))
    } else {
        drop_dots(cs)
    }
}

/// Components joined with a single separator.
pub open spec fn join_components(cs: Seq<Seq<char>>) -> Seq<char>
    decreases cs.len(),
{
    if cs.len() == 0 {
        Seq::empty()
    } else if cs.len() == 1 {
        cs[0]
    } else {
        cs[0] + seq!['/'] + join_components(cs.subrange(1, cs.len() as int))
    }
}

/// What normalizing a path string means: keep the meaningful components and
/// rejoin them, with a leading separator exactly when the path was absolute.
pub open spec fn normalize_spec(s: Seq<char>) -> Seq<char> {
    if is_absolute(s) {
        seq!['/'] + join_components(kept_components(s))
    } else {
        join_components(kept_components(s))
    }
}

/// What joining a directory path with a file name means: the name alone when
/// it is absolute or the directory is empty, else the two separated by
/// exactly one separator.
pub open spec fn join_spec(dir: Seq<char>, name: Seq<char>) -> Seq<char> {
    if name.len() > 0 && name[0] == '/' {
        name
    } else if dir.len() == 0 {
        name
    } else if dir[dir.len() - 1] == '/' {
        dir + name
    } else {
        dir + seq!['/'] + name
    }
}

/// The index of the dot that separates a file name from its extension: the
/// last `.` at a position past the first character, or -1 when there is none
/// (a name whose only `.` opens it, like a hidden file, has no extension).
pub open spec fn last_dot(n: Seq<char>) -> int
    decreases n.len(),
{
    if n.len() <= 1 {
        -1
    } else if n[n.len() - 1] == '.' {
        n.len() - 1
    } else {
        last_dot(n.subrange(0, n.len() - 1))
    }
}

/// What inserting a suffix before a file name's extension means: `_` and the
/// suffix go between stem and extension; a name without an extension takes
/// them at its end; an empty name stays empty.
pub open spec fn with_suffix_spec(n: Seq<char>, suffix: Seq<char>) -> Seq<char> {
    if n.len() == 0 {
        n
    } else if last_dot(n) == -1 {
        n + seq!['_'] + suffix
    } else {
        n.subrange(0, last_dot(n)) + seq!['_'] + suffix + seq!['.'] + n.subrange(
            last_dot(n) + 1,
            n.len() as int,
        )
    }
}

/// The views of a vector of strings.
pub open spec fn views(q: Seq<String>) -> Seq<Seq<char>> {
    q.map_values(|x: String| x@)
}

// ===== executable code =====

/// Whether a string is exactly the `.` component.
fn is_dot(s: &String) -> (r: bool)
    ensures
        r == (s@ == dot()),
{
    if s.as_str().unicode_len() == 1 {
        let c = s.as_str().get_char(0);
        proof {
            if c == '.' {
                assert(s@ =~= dot());
            }
        }
        c == '.'
    } else {
        false
    }
}

/// The non-empty separator-free runs of `s`, in order.
fn path_components(s: &str) -> (r: Vec<String>)
    ensures
        views(r@) == raw_components(s@),
{
    let n = s.unicode_len();
    let mut out: Vec<String> = Vec::new();
    let mut start: usize = 0;
    let mut i: usize = 0;
    proof {
        assert(s@.subrange(0, n as int) =~= s@);
        assert(s@.subrange(0, 0) =~= Seq::<char>::empty());
        assert(views(out@) =~= Seq::<Seq<char>>::empty());
    }
    while i < n
        invariant
            n == s@.len(),
            start <= i <= n,
            forall|j: int| start <= j < i ==> s@[j] != '/',
            raw_components(s@) == views(out@) + split_components(
                s@.subrange(i as int, n as int),
                s@.subrange(start as int, i as int),
            ),
        decreases n - i,
    {
        let ghost rem = s@.subrange(i as int, n as int);
        let ghost cur = s@.subrange(start as int, i as int);
        let c = s.get_char(i);
        proof {
            assert(rem[0] == s@[i as int]);
        }
        if c == '/' {
            proof {
                assert(rem.subrange(1, rem.len() as int) =~= s@.subrange(i + 1, n as int));
            }
            if start < i {
                let piece = s.substring_char(start, i).to_owned();
                proof {
                    assert(views(out@.push(piece)) =~= views(out@).push(cur));
                    assert(views(out@) + (seq![cur] + split_components(
                        s@.subrange(i + 1, n as int),
                        Seq::empty(),
                    )) =~= views(out@).push(cur) + split_components(
                        s@.subrange(i + 1, n as int),
                        Seq::empty(),
                    ));
                }
                out.push(piece);
            }
            i = i + 1;
            start = i;
            proof {
                assert(s@.subrange(start as int, i as int) =~= Seq::<char>::empty());
            }
        } else {
            i = i + 1;
            proof {
                assert(rem.subrange(1, rem.len() as int) =~= s@.subrange(i as int, n as int));
                assert(s@.subrange(start as int, i as int) =~= cur.push(s@[i - 1]));
            }
        }
    }
    proof {
        assert(s@.subrange(i as int, n as int) =~= Seq::<char>::empty());
    }
    if start < n {
        let piece = s.substring_char(start, n).to_owned();
        proof {
            let ghost cur = s@.subrange(start as int, n as int);
            assert(views(out@.push(piece)) =~= views(out@).push(cur));
            assert(views(out@) + seq![cur] =~= views(out@).push(cur));
        }
        out.push(piece);
    }
    out
}

/// `parts[from..]` with every `.` component removed.
fn drop_dots_from(parts: &Vec<String>, from: usize) -> (r: Vec<String>)
    requires
        from <= parts@.len(),
    ensures
        views(r@) == drop_dots(views(parts@).subrange(from as int, parts@.len() as int)),
    decreases parts@.len() - from,
{
    let ghost tail = views(parts@).subrange(from as int, parts@.len() as int);
    if from == parts.len() {
        proof {
            assert(tail =~= Seq::<Seq<char>>::empty());
        }
        Vec::new()
    } else {
        proof {
            assert(tail[0] == parts@[from as int]@);
            assert(tail.subrange(1, tail.len() as int) =~= views(parts@).subrange(
                from + 1,
                parts@.len() as int,
            ));
        }
        let mut rest = drop_dots_from(parts, from + 1);
        if is_dot(&parts[from]) {
            rest
        } else {
            let ghost before = rest@;
            rest.insert(0, parts[from].clone());
            proof {
                assert(views(rest@) =~= seq![parts@[from as int]@] + views(before));
            }
            rest
        }
    }
}

/// `parts[from..]` joined with a single separator.
fn join_from(parts: &Vec<String>, from: usize) -> (r: String)
    requires
        from <= parts@.len(),
    ensures
        r@ == join_components(views(parts@).subrange(from as int, parts@.len() as int)),
    decreases parts@.len() - from,
{
    let ghost tail = views(parts@).subrange(from as int, parts@.len() as int);
    if from == parts.len() {
        proof {
            assert(tail =~= Seq::<Seq<char>>::empty());
        }
        String::new()
    } else if from + 1 == parts.len() {
        proof {
            assert(tail.len() == 1);
            assert(tail[0] == parts@[from as int]@);
        }
        parts[from].clone()
    } else {
        proof {
            reveal_strlit("/");
            assert(tail[0] == parts@[from as int]@);
            assert(tail.subrange(1, tail.len() as int) =~= views(parts@).subrange(
                from + 1,
                parts@.len() as int,
            ));
            assert("/"@ =~= seq!['/']);
        }
        let rest = join_from(parts, from + 1);
        parts[from].clone().concat("/").concat(rest.as_str())
    }
}

/// Rebuilds a path from its meaningful components: repeated separators
/// collapse, interior `.` components vanish, and a trailing separator is
/// dropped.
pub fn normalizePath(s: &str) -> (r: String)
    ensures
        r@ == normalize_spec(s@),
{
    let n = s.unicode_len();
    let abs = n > 0 && s.get_char(0) == '/';
    let comps = path_components(s);
    let kept: Vec<String> = if !abs && comps.len() > 0 && is_dot(&comps[0]) {
        let mut k = drop_dots_from(&comps, 1);
        let ghost before = k@;
        k.insert(0, comps[0].clone());
        proof {
            assert(views(k@) =~= seq![dot()] + views(before));
        }
        k
    } else {
        proof {
            assert(views(comps@).subrange(0, comps@.len() as int) =~= views(comps@));
        }
        drop_dots_from(&comps, 0)
    };
    proof {
        assert(views(kept@) == kept_components(s@));
    }
    let joined = join_from(&kept, 0);
    proof {
        assert(views(kept@).subrange(0, kept@.len() as int) =~= views(kept@));
    }
    if abs {
        proof {
            reveal_strlit("/");
            assert("/"@ =~= seq!['/']);
        }
        String::from_str("/").concat(joined.as_str())
    } else {
        joined
    }
}

proof fn lemma_last_dot_at(s: Seq<char>, k: int)
    requires
        1 <= k < s.len(),
        s[k] == '.',
        forall|j: int| k < j < s.len() ==> s[j] != '.',
    ensures
        last_dot(s) == k,
    decreases s.len(),
{
    if k < s.len() - 1 {
        let t = s.subrange(0, s.len() - 1);
        lemma_last_dot_at(t, k);
    }
}

proof fn lemma_last_dot_none(s: Seq<char>)
    requires
        forall|j: int| 1 <= j < s.len() ==> s[j] != '.',
    ensures
        last_dot(s) == -1,
    decreases s.len(),
{
    if s.len() > 1 {
        lemma_last_dot_none(s.subrange(0, s.len() - 1));
    }
}

/// Inserts `_` and the given suffix before the file name's extension, or at
/// the end of a name that has none; an empty name comes back unchanged.
pub fn withSuffix(name: &str, suffix: &str) -> (r: String)
    ensures
        r@ == with_suffix_spec(name@, suffix@),
{
    proof {
        reveal_strlit("_");
        reveal_strlit(".");
        assert("_"@ =~= seq!['_']);
        assert("."@ =~= seq!['.']);
    }
    let n = name.unicode_len();
    if n == 0 {
        return name.to_owned();
    }
    let mut i = n;
    let mut d: usize = 0;
    let mut found = false;
    while i > 1 && !found
        invariant
            n == name@.len(),
            1 <= i <= n,
            !found ==> forall|j: int| i <= j < n ==> name@[j] != '.',
            found ==> 1 <= d < n && name@[d as int] == '.' && (forall|j: int|
                d < j < n ==> name@[j] != '.'),
        decreases i,
    {
        i = i - 1;
        if name.get_char(i) == '.' {
            found = true;
            d = i;
        }
    }
    if found {
        proof {
            lemma_last_dot_at(name@, d as int);
        }
        let stem = name.substring_char(0, d);
        let ext = name.substring_char(d + 1, n);
        stem.to_owned().concat("_").concat(suffix).concat(".").concat(ext)
    } else {
        proof {
            lemma_last_dot_none(name@);
        }
        name.to_owned().concat("_").concat(suffix)
    }
}

/// Joins a directory path and a file name with exactly one separator, the
/// way a path join treats a relative right-hand side.
pub fn joinPath(dir: &str, name: &str) -> (r: String)
    ensures
        r@ == join_spec(dir@, name@),
{
    proof {
        reveal_strlit("/");
        assert("/"@ =~= seq!['/']);
    }
    let name_len = name.unicode_len();
    let dir_len = dir.unicode_len();
    if name_len > 0 && name.get_char(0) == '/' {
        name.to_owned()
    } else if dir_len == 0 {
        name.to_owned()
    } else if dir.get_char(dir_len - 1) == '/' {
        dir.to_owned().concat(name)
    } else {
        dir.to_owned().concat("/").concat(name)
    }
}

} // verus!
