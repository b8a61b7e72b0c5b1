use vstd::prelude::*;
use vstd::string::{StrSliceExecFns, StringExecFns};

verus! {

/// Index of the last occurrence of `c` in `s`, or `-1` when `c` is absent.
pub open spec fn find_last(s: Seq<char>, c: char) -> int
    decreases s.len(),
{
    if s.len() == 0 {
        -1
    } else if s.last() == c {
        s.len() - 1
    } else {
        find_last(s.drop_last(), c)
    }
}

proof fn lemma_find_last_none(s: Seq<char>, c: char)
    requires
        forall|i: int| 0 <= i < s.len() ==> s[i] != c,
    ensures
        find_last(s, c) == -1,
    decreases s.len(),
{
    if s.len() > 0 {
        lemma_find_last_none(s.drop_last(), c);
    }
}

proof fn lemma_find_last_is(s: Seq<char>, c: char, m: int)
    requires
        0 <= m < s.len(),
        s[m] == c,
        forall|j: int| m < j < s.len() ==> s[j] != c,
    ensures
        find_last(s, c) == m,
    decreases s.len(),
{
    if m < s.len() - 1 {
        lemma_find_last_is(s.drop_last(), c, m);
    }
}

/// Everything after the last separator: the file name of a path. The
/// library's path model is a plain string with `/` separators.
pub open spec fn spec_file_name(p: Seq<char>) -> Seq<char> {
    p.subrange(find_last(p, '/') + 1, p.len() as int)
}

/// Index in a file name of the dot that starts the extension, or `-1`:
/// the last dot, unless it stands first in the name (a hidden file has no
/// extension).
pub open spec fn ext_dot(name: Seq<char>) -> int {
    let d = find_last(name, '.');
    if d <= 0 {
        -1
    } else {
        d
    }
}

/// The extension of a path's file name, without its dot.
pub open spec fn spec_extension(p: Seq<char>) -> Option<Seq<char>> {
    let name = spec_file_name(p);
    let d = ext_dot(name);
    if d == -1 {
        None
    } else {
        Some(name.subrange(d + 1, name.len() as int))
    }
}

/// The path with its file name's extension replaced by `e` (or, when the
/// name has none, with a dot and `e` appended).
pub open spec fn spec_set_extension(p: Seq<char>, e: Seq<char>) -> Seq<char> {
    let ns = find_last(p, '/') + 1;
    let name = p.subrange(ns, p.len() as int);
    let d = ext_dot(name);
    let stem_end = if d == -1 {
        p.len() as int
    } else {
        ns + d
    };
    p.subrange(0, stem_end) + seq!['.'] + e
}

/// A directory path extended by a file name, with exactly one separator
/// between them.
pub open spec fn spec_join(dir: Seq<char>, name: Seq<char>) -> Seq<char> {
    if dir.len() == 0 {
        name
    } else if dir.last() == '/' {
        dir + name
    } else {
        dir + seq!['/'] + name
    }
}

/// Scans for the last occurrence of `c`.
fn rfind_char(s: &str, c: char) -> (r: Option<usize>)
    ensures
        s@.len() <= usize::MAX,
        match r {
            Some(i) => i < s@.len() && find_last(s@, c) == i,
            None => find_last(s@, c) == -1,
        },
{
    let n = s.unicode_len();
    let mut i: usize = n;
    while i > 0
        invariant
            i <= n,
            n == s@.len(),
            forall|j: int| i <= j < n ==> s@[j] != c,
        decreases i,
    {
        i = i - 1;
        if s.get_char(i) == c {
            proof {
                lemma_find_last_is(s@, c, i as int);
            }
            return Some(i);
        }
    }
    proof {
        lemma_find_last_none(s@, c);
    }
    None
}

/// Index where the file name of `p` starts: one past the last separator.
fn name_start(p: &str) -> (ns: usize)
    ensures
        ns == find_last(p@, '/') + 1,
        ns <= p@.len(),
{
    match rfind_char(p, '/') {
        Some(i) => i + 1,
        None => 0,
    }
}

/// Scans the file name (which starts at `ns`) for the dot that begins its
/// extension.
fn last_dot_after(p: &str, ns: usize) -> (r: Option<usize>)
    requires
        ns == find_last(p@, '/') + 1,
        ns <= p@.len(),
    ensures
        match r {
            Some(k) => ns < k < p@.len() && ext_dot(spec_file_name(p@)) == k - ns,
            None => ext_dot(spec_file_name(p@)) == -1,
        },
{
    let ghost name = spec_file_name(p@);
    let n = p.unicode_len();
    if ns == n {
        return None;
    }
    let mut i: usize = n;
    while i > ns + 1
        invariant
            ns < n,
            ns + 1 <= i <= n,
            n == p@.len(),
            name == spec_file_name(p@),
            name == p@.subrange(ns as int, n as int),
            forall|j: int| i <= j < n ==> p@[j] != '.',
        decreases i,
    {
        i = i - 1;
        if p.get_char(i) == '.' {
            proof {
                assert(name[i - ns] == p@[i as int]);
                assert forall|j: int| i - ns < j < name.len() implies name[j] != '.' by {
                    assert(name[j] == p@[ns + j]);
                }
                lemma_find_last_is(name, '.', i - ns);
            }
            return Some(i);
        }
    }
    proof {
        assert forall|j: int| 1 <= j < name.len() implies name[j] != '.' by {
            assert(name[j] == p@[ns + j]);
        }
        if name.len() > 0 && name[0] == '.' {
            lemma_find_last_is(name, '.', 0);
        } else {
            lemma_find_last_none(name, '.');
        }
    }
    None
}

/// The file name of a path: everything after the last `/`.
pub fn file_name(p: &str) -> (r: String)
    ensures
        r@ == spec_file_name(p@),
{
    let ns = name_start(p);
    let n = p.unicode_len();
    let name = p.substring_char(ns, n);
    String::from_str(name)
}

/// The extension of a path's file name, without its dot.
pub fn extension(p: &str) -> (r: Option<String>)
    ensures
        match r {
            Some(e) => spec_extension(p@) == Some(e@),
            None => spec_extension(p@) is None,
        },
{
    let ns = name_start(p);
    let n = p.unicode_len();
    match last_dot_after(p, ns) {
        Some(k) => {
            let e = p.substring_char(k + 1, n);
            proof {
                let name = spec_file_name(p@);
                assert(e@ =~= name.subrange(k - ns + 1, name.len() as int));
            }
            Some(String::from_str(e))
        },
        None => None,
    }
}

/// Replaces the extension of the path's file name with `e`, or appends a
/// dot and `e` when the name has none.
pub fn set_extension(p: &str, e: &str) -> (r: String)
    ensures
        r@ == spec_set_extension(p@, e@),
{
    let ns = name_start(p);
    let n = p.unicode_len();
    let stem_end = match last_dot_after(p, ns) {
        Some(k) => k,
        None => n,
    };
    let mut r = String::from_str(p.substring_char(0, stem_end));
    r.append(".");
    r.append(e);
    proof {
        reveal_strlit(".");
        assert("."@ =~= seq!['.']);
        assert(r@ =~= spec_set_extension(p@, e@));
    }
    r
}

/// Joins a directory path and a file name with exactly one separator.
pub fn join(dir: &str, name: &str) -> (r: String)
    ensures
        r@ == spec_join(dir@, name@),
{
    let n = dir.unicode_len();
    if n == 0 {
        return String::from_str(name);
    }
    let mut r = String::from_str(dir);
    if dir.get_char(n - 1) != '/' {
        r.append("/");
        proof {
            reveal_strlit("/");
            assert("/"@ =~= seq!['/']);
        }
    }
    r.append(name);
    proof {
        assert(r@ =~= spec_join(dir@, name@));
    }
    r
}

/// Where a folder resize puts one file: under the output directory, by the
/// file's own name — or in place when no output directory was given.
pub fn resize_dest(file: &str, outdir: Option<&str>) -> (r: Option<String>)
    ensures
        match (outdir, r) {
            (Some(d), Some(o)) => o@ == spec_join(d@, spec_file_name(file@)),
            (None, None) => true,
            _ => false,
        },
{
    match outdir {
        Some(d) => {
            let name = file_name(file);
            Some(join(d, name.as_str()))
        },
        None => None,
    }
}

/// Where a folder conversion puts one file: the file's name with the
/// target extension, under the output directory when one was given, else
/// beside the original.
pub fn convert_dest(file: &str, outdir: Option<&str>, ext: &str) -> (r: String)
    ensures
        r@ == match outdir {
            Some(d) => spec_join(d@, spec_file_name(spec_set_extension(file@, ext@))),
            None => spec_set_extension(file@, ext@),
        },
{
    let renamed = set_extension(file, ext);
    match outdir {
        Some(d) => {
            let name = file_name(renamed.as_str());
            join(d, name.as_str())
        },
        None => renamed,
    }
}

/// Where a single-file conversion writes: the explicit output path when one
/// was given, else the input with the target extension.
pub fn convert_dest_single(input: &str, output: Option<&str>, ext: &str) -> (r: String)
    ensures
        r@ == match output {
            Some(o) => o@,
            None => spec_set_extension(input@, ext@),
        },
{
    match output {
        Some(o) => String::from_str(o),
        None => set_extension(input, ext),
    }
}

} // verus!
