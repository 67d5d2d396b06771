//! Paths as text: joining a component onto a base, and naming a path's last component.
//! `/` separates components; `.` names the directory itself and `..` its parent.

use vstd::prelude::*;
use crate::text::{chars_of, string_of};

verus! {

/// `base` extended by `part`. An absolute `part` replaces `base`; otherwise one separator
/// stands between the two unless `base` is empty or already ends with one.
pub open spec fn joined(base: Seq<char>, part: Seq<char>) -> Seq<char> {
    if part.len() > 0 && part[0] == '/' {
        part
    } else if base.len() == 0 || base.last() == '/' {
        base + part
    } else {
        base + seq!['/'] + part
    }
}

/// Where the last run of characters other than `/` begins in `path`.
pub open spec fn tail_start(path: Seq<char>) -> int
    decreases path.len(),
{
    if path.len() == 0 || path.last() == '/' {
        path.len() as int
    } else {
        tail_start(path.drop_last())
    }
}

/// The final component of `path`: trailing separators and trailing `.` components are
/// passed over; a path that is empty, is the root, or ends in `..` has none.
pub open spec fn last_component(path: Seq<char>) -> Option<Seq<char>>
    decreases path.len(),
{
    if path.len() == 0 {
        None
    } else if path.last() == '/' {
        last_component(path.drop_last())
    } else {
        let start = tail_start(path);
        let name = path.skip(start);
        if name == seq!['.'] {
            if 0 < start < path.len() {
                last_component(path.take(start))
            } else {
                None
            }
        } else if name == seq!['.', '.'] {
            None
        } else {
            Some(name)
        }
    }
}

/// Whether `path` names the root directory: it begins with a separator and holds nothing
/// but separators and `.` components.
pub open spec fn names_root(path: Seq<char>) -> bool {
    &&& path.len() > 0
    &&& path[0] == '/'
    &&& forall|i: int|
        0 < i < path.len() ==> #[trigger] path[i] == '/' || (path[i] == '.' && path[i - 1] == '/'
            && (i + 1 == path.len() || path[i + 1] == '/'))
}

/// A name that is one ordinary path component: not empty, without a separator, and
/// neither `.` nor `..`.
pub open spec fn plain_name(name: Seq<char>) -> bool {
    &&& name.len() > 0
    &&& !name.contains('/')
    &&& name != seq!['.']
    &&& name != seq!['.', '.']
}

/// A position after which `path` has no separator, and which is the start of `path` or
/// follows a separator, is where the tail begins.
pub proof fn lemma_tail_start_is(path: Seq<char>, start: int)
    requires
        0 <= start <= path.len(),
        start > 0 ==> path[start - 1] == '/',
        forall|j: int| start <= j < path.len() ==> path[j] != '/',
    ensures
        tail_start(path) == start,
    decreases path.len(),
{
    if path.len() == 0 {
    } else if path.last() == '/' {
    } else {
        lemma_tail_start_is(path.drop_last(), start);
    }
}

/// Joining a plain name onto any base gives a path whose last component is that name.
pub proof fn lemma_last_component_of_joined(base: Seq<char>, name: Seq<char>)
    requires
        plain_name(name),
    ensures
        last_component(joined(base, name)) == Some(name),
{
    let path = joined(base, name);
    let start = path.len() - name.len();
    assert(name[0] != '/');
    assert(path.skip(start) =~= name);
    assert forall|j: int| start <= j < path.len() implies path[j] != '/' by {
        assert(path[j] == name[j - start]);
    }
    if start > 0 {
        assert(path[start - 1] == '/');
    }
    lemma_tail_start_is(path, start);
    assert(path.last() == name.last());
}

/// Joins `part` onto `base`.
pub fn join_path(base: &str, part: &str) -> (path: String)
    ensures
        path@ == joined(base@, part@),
{
    let b = chars_of(base);
    let p = chars_of(part);
    let mut out: Vec<char> = Vec::new();
    let absolute = p.len() > 0 && p[0] == '/';
    if !absolute {
        let mut i: usize = 0;
        while i < b.len()
            invariant
                i <= b.len(),
                out@ == b@.take(i as int),
            decreases b.len() - i,
        {
            out.push(b[i]);
            assert(b@.take(i as int).push(b@[i as int]) =~= b@.take(i as int + 1));
            i += 1;
        }
        assert(b@.take(b.len() as int) =~= b@);
        if b.len() > 0 && b[b.len() - 1] != '/' {
            out.push('/');
        }
    }
    let ghost stem = out@;
    let mut k: usize = 0;
    while k < p.len()
        invariant
            k <= p.len(),
            out@ == stem + p@.take(k as int),
        decreases p.len() - k,
    {
        out.push(p[k]);
        assert(p@.take(k as int).push(p@[k as int]) =~= p@.take(k as int + 1));
        k += 1;
    }
    assert(p@.take(p.len() as int) =~= p@);
    assert(out@ =~= joined(base@, part@));
    string_of(&out)
}

/// Whether `path` names the root directory.
pub fn is_root(path: &str) -> (root: bool)
    ensures
        root == names_root(path@),
{
    let c = chars_of(path);
    if c.len() == 0 || c[0] != '/' {
        return false;
    }
    let mut i: usize = 1;
    while i < c.len()
        invariant
            1 <= i <= c.len(),
            c@ == path@,
            c@[0] == '/',
            forall|j: int|
                0 < j < i ==> #[trigger] c@[j] == '/' || (c@[j] == '.' && c@[j - 1] == '/' && (j
                    + 1 == c@.len() || c@[j + 1] == '/')),
        decreases c.len() - i,
    {
        let here = c[i];
        let plain_dot = here == '.' && c[i - 1] == '/' && (i + 1 == c.len() || c[i + 1] == '/');
        if here != '/' && !plain_dot {
            return false;
        }
        i += 1;
    }
    true
}

/// The final component of `path`, if it has one.
pub fn file_name(path: &str) -> (name: Option<String>)
    ensures
        match last_component(path@) {
            Some(want) => name matches Some(got) && got@ == want,
            None => name is None,
        },
{
    let c = chars_of(path);
    let mut end: usize = c.len();
    assert(c@.take(end as int) =~= path@);
    loop
        invariant
            end <= c.len(),
            c@ == path@,
            last_component(c@.take(end as int)) == last_component(path@),
        decreases end,
    {
        if end == 0 {
            return None;
        }
        let ghost here = c@.take(end as int);
        if c[end - 1] == '/' {
            assert(here.drop_last() =~= c@.take(end - 1));
            end -= 1;
            continue;
        }
        let mut start: usize = end - 1;
        while start > 0 && c[start - 1] != '/'
            invariant
                start < end <= c.len(),
                forall|j: int| start <= j < end ==> c@[j] != '/',
            decreases start,
        {
            start -= 1;
        }
        proof {
            lemma_tail_start_is(here, start as int);
        }
        let len: usize = end - start;
        let ghost name = here.skip(start as int);
        assert(name.len() == len);
        assert(forall|j: int| 0 <= j < len ==> name[j] == c@[start + j]);
        if len == 1 && c[start] == '.' {
            assert(name =~= seq!['.']);
            if start == 0 {
                return None;
            }
            assert(here.take(start as int) =~= c@.take(start as int));
            end = start;
            continue;
        }
        if len == 2 && c[start] == '.' && c[start + 1] == '.' {
            assert(name =~= seq!['.', '.']);
            return None;
        }
        assert(name != seq!['.']) by {
            if name == seq!['.'] {
                assert(name.len() == 1 && name[0] == '.');
            }
        }
        assert(name != seq!['.', '.']) by {
            if name == seq!['.', '.'] {
                assert(name.len() == 2 && name[0] == '.' && name[1] == '.');
            }
        }
        let mut out: Vec<char> = Vec::new();
        let mut k: usize = start;
        while k < end
            invariant
                start <= k <= end <= c.len(),
                out@ == c@.subrange(start as int, k as int),
            decreases end - k,
        {
            out.push(c[k]);
            assert(c@.subrange(start as int, k as int).push(c@[k as int]) =~= c@.subrange(
                start as int,
                k as int + 1,
            ));
            k += 1;
        }
        assert(out@ =~= name);
        return Some(string_of(&out));
    }
}

} // verus!
