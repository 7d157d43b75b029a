//! Slash-separated path strings.
//!
//! Paths in this crate are plain strings whose components are separated by
//! `/`. The helpers here give them the little structure the pipeline
//! needs: joining, the base name (the part after the last separator), the
//! extension of the base name, and stripping a directory prefix.

use vstd::prelude::*;
use vstd::string::StrSliceExecFns;
use vstd::string::StringExecFns;

verus! {

/// Joining two paths with a single separator between them.
pub open spec fn path_concat(a: Seq<char>, b: Seq<char>) -> Seq<char> {
    a + seq!['/'] + b
}

/// The longest suffix that holds no separator. Empty when the path is
/// empty or ends with a separator.
pub open spec fn suffix_after_slash(p: Seq<char>) -> Seq<char>
    decreases p.len(),
{
    if p.len() == 0 {
        Seq::empty()
    } else if p.last() == '/' {
        Seq::empty()
    } else {
        suffix_after_slash(p.drop_last()).push(p.last())
    }
}

/// The base name of a path: the part after the last separator, or the
/// whole path when it has none; absent when that part is empty.
pub open spec fn spec_file_name(p: Seq<char>) -> Option<Seq<char>> {
    if suffix_after_slash(p).len() == 0 {
        None
    } else {
        Some(suffix_after_slash(p))
    }
}

/// The part after the first dot of a character run, if it has one.
pub open spec fn after_first_dot(s: Seq<char>) -> Option<Seq<char>>
    decreases s.len(),
{
    if s.len() == 0 {
        None
    } else if s[0] == '.' {
        Some(s.subrange(1, s.len() as int))
    } else {
        after_first_dot(s.drop_first())
    }
}

/// The extension chain of a base name: everything after the first dot
/// that does not lead the name. Multi-part extensions stay whole, so
/// the chain of a doubly-suffixed byproduct is both parts; a name
/// without such a dot has none.
pub open spec fn ext_of_name(name: Seq<char>) -> Option<Seq<char>> {
    if name.len() == 0 {
        None
    } else {
        after_first_dot(name.drop_first())
    }
}

/// The extension chain of a path's base name.
pub open spec fn spec_extension(p: Seq<char>) -> Option<Seq<char>> {
    ext_of_name(suffix_after_slash(p))
}

/// The path lies directly or transitively under the directory: it starts
/// with the directory followed by a separator.
pub open spec fn spec_under_dir(p: Seq<char>, dir: Seq<char>) -> bool {
    p.len() >= dir.len() + 1 && p.subrange(0, dir.len() as int + 1) == dir + seq!['/']
}

/// The suffix after the last separator is exactly the run of
/// non-separator characters that closes the path.
proof fn lemma_suffix_after_slash(p: Seq<char>, i: int)
    requires
        0 <= i <= p.len(),
        forall|j: int| i <= j < p.len() ==> p[j] != '/',
        i == 0 || p[i - 1] == '/',
    ensures
        suffix_after_slash(p) == p.subrange(i, p.len() as int),
    decreases p.len(),
{
    if i == p.len() {
        assert(suffix_after_slash(p) =~= p.subrange(i, p.len() as int));
    } else {
        assert(p.last() != '/');
        lemma_suffix_after_slash(p.drop_last(), i);
        assert(suffix_after_slash(p) =~= p.subrange(i, p.len() as int));
    }
}

/// A run with no dot has nothing after a first dot.
proof fn lemma_after_no_dot(s: Seq<char>)
    requires
        forall|j: int| 0 <= j < s.len() ==> s[j] != '.',
    ensures
        after_first_dot(s) is None,
    decreases s.len(),
{
    if s.len() > 0 {
        lemma_after_no_dot(s.drop_first());
    }
}

/// What follows the first dot is the part after the earliest dot.
proof fn lemma_after_first_dot(s: Seq<char>, d: int)
    requires
        0 <= d < s.len(),
        s[d] == '.',
        forall|j: int| 0 <= j < d ==> s[j] != '.',
    ensures
        after_first_dot(s) == Some(s.subrange(d + 1, s.len() as int)),
    decreases s.len(),
{
    if d == 0 {
    } else {
        lemma_after_first_dot(s.drop_first(), d - 1);
        assert(s.drop_first().subrange(d, s.len() - 1) =~= s.subrange(d + 1, s.len() as int));
    }
}

/// Join two paths with a separator.
pub fn path_join(a: &str, b: &str) -> (r: String)
    ensures
        r@ == path_concat(a@, b@),
{
    let mut r = a.to_owned();
    r.append("/");
    r.append(b);
    proof {
        reveal_strlit("/");
        assert(r@ =~= path_concat(a@, b@));
    }
    r
}

/// The base name of a path, if it has one.
pub fn file_name(p: &str) -> (r: Option<String>)
    ensures
        match r {
            Some(s) => spec_file_name(p@) == Some(s@),
            None => spec_file_name(p@) is None,
        },
{
    let n = p.unicode_len();
    let mut i = n;
    while i > 0
        invariant_except_break
            i <= n,
            n == p@.len(),
            forall|j: int| i <= j < n ==> p@[j] != '/',
        ensures
            i <= n,
            n == p@.len(),
            forall|j: int| i <= j < n ==> p@[j] != '/',
            i == 0 || p@[i - 1] == '/',
        decreases i,
    {
        if p.get_char(i - 1) == '/' {
            break ;
        }
        i = i - 1;
    }
    proof {
        lemma_suffix_after_slash(p@, i as int);
    }
    if i == n {
        None
    } else {
        Some(p.substring_char(i, n).to_owned())
    }
}

/// The extension chain of a path's base name, if it has one.
pub fn extension(p: &str) -> (r: Option<String>)
    ensures
        match r {
            Some(s) => spec_extension(p@) == Some(s@),
            None => spec_extension(p@) is None,
        },
{
    let name_opt = file_name(p);
    let name = match name_opt {
        Some(name) => name,
        None => {
            return None;
        },
    };
    let s = name.as_str();
    let m = s.unicode_len();
    let mut i: usize = 1;
    while i < m
        invariant_except_break
            1 <= i <= m,
            m == s@.len(),
            m >= 1,
            forall|j: int| 1 <= j < i ==> s@[j] != '.',
        ensures
            1 <= i <= m,
            m == s@.len(),
            m >= 1,
            forall|j: int| 1 <= j < i ==> s@[j] != '.',
            i < m ==> s@[i as int] == '.',
        decreases m - i,
    {
        if s.get_char(i) == '.' {
            break ;
        }
        i = i + 1;
    }
    if i == m {
        proof {
            assert forall|j: int| 0 <= j < s@.drop_first().len() implies s@.drop_first()[j]
                != '.' by {
                assert(s@.drop_first()[j] == s@[j + 1]);
            }
            lemma_after_no_dot(s@.drop_first());
        }
        None
    } else {
        proof {
            assert(s@.drop_first()[i - 1] == '.');
            assert forall|j: int| 0 <= j < i - 1 implies s@.drop_first()[j] != '.' by {
                assert(s@.drop_first()[j] == s@[j + 1]);
            }
            lemma_after_first_dot(s@.drop_first(), i - 1);
            assert(s@.drop_first().subrange(i as int, s@.len() - 1) =~= s@.subrange(
                i + 1,
                s@.len() as int,
            ));
        }
        Some(s.substring_char(i + 1, m).to_owned())
    }
}

/// The path relative to a directory it lies under, or nothing when it
/// does not lie under it.
pub fn strip_dir_prefix(p: &str, dir: &str) -> (r: Option<String>)
    ensures
        match r {
            Some(s) => spec_under_dir(p@, dir@) && s@ == p@.subrange(
                dir@.len() as int + 1,
                p@.len() as int,
            ),
            None => !spec_under_dir(p@, dir@),
        },
{
    let np = p.unicode_len();
    let nd = dir.unicode_len();
    if np == 0 || np - 1 < nd {
        return None;
    }
    let mut i: usize = 0;
    while i < nd
        invariant
            0 <= i <= nd,
            nd < np == p@.len(),
            nd == dir@.len(),
            forall|j: int| 0 <= j < i ==> p@[j] == dir@[j],
        decreases nd - i,
    {
        if p.get_char(i) != dir.get_char(i) {
            proof {
                assert(p@.subrange(0, dir@.len() as int + 1)[i as int] != (dir@ + seq!['/'])[i as int]);
            }
            return None;
        }
        i = i + 1;
    }
    if p.get_char(nd) != '/' {
        proof {
            assert(p@.subrange(0, dir@.len() as int + 1)[nd as int] != (dir@ + seq!['/'])[nd as int]);
        }
        return None;
    }
    proof {
        assert(p@.subrange(0, dir@.len() as int + 1) =~= dir@ + seq!['/']);
    }
    Some(p.substring_char(nd + 1, np).to_owned())
}

/// Two relative paths joined under the same directory are equal only
/// when the relative parts are.
pub proof fn lemma_path_concat_cancel(dir: Seq<char>, a: Seq<char>, b: Seq<char>)
    requires
        path_concat(dir, a) == path_concat(dir, b),
    ensures
        a == b,
{
    assert(a =~= path_concat(dir, a).subrange(
        dir.len() as int + 1,
        path_concat(dir, a).len() as int,
    ));
    assert(b =~= path_concat(dir, b).subrange(
        dir.len() as int + 1,
        path_concat(dir, b).len() as int,
    ));
}

} // verus!
