//! How an archive path is recognised, how it names its extracted directory,
//! and how an entry's relative path is placed inside that directory.

use vstd::prelude::*;
use crate::text::{chars_of, string_of};

verus! {

/// The archive extension, with its dot.
pub open spec fn zip_suffix() -> Seq<char> {
    seq!['.', 'z', 'i', 'p']
}

/// A path whose final component has the extension `zip`: it ends in `.zip`,
/// and the part of the component before `.zip` is not empty.
pub open spec fn is_archive_path_spec(p: Seq<char>) -> bool {
    &&& p.len() > 4
    &&& p.subrange(p.len() - 4, p.len() as int) == zip_suffix()
    &&& p[p.len() - 5] != '/'
}

/// The extracted directory of an archive: its path without the extension.
pub open spec fn extracted_dir_spec(p: Seq<char>) -> Seq<char> {
    p.subrange(0, p.len() - 4)
}

/// The path of `rel` under `dir`.
pub open spec fn join_spec(dir: Seq<char>, rel: Seq<char>) -> Seq<char> {
    dir + seq!['/'] + rel
}

/// A `..` component of `rel` starts at position `k`.
pub open spec fn parent_component_at(rel: Seq<char>, k: int) -> bool {
    &&& 0 <= k && k + 2 <= rel.len()
    &&& rel[k] == '.' && rel[k + 1] == '.'
    &&& k == 0 || rel[k - 1] == '/'
    &&& k + 2 == rel.len() || rel[k + 2] == '/'
}

/// `rel` is relative and names no parent-directory component: it cannot leave
/// the directory it is joined to.
pub open spec fn confined(rel: Seq<char>) -> bool {
    &&& (rel.len() > 0 ==> rel[0] != '/')
    &&& forall|k: int| !#[trigger] parent_component_at(rel, k)
}

/// `p` lies inside `dir`: it is `dir`, a slash, and a confined relative path.
pub open spec fn within(dir: Seq<char>, p: Seq<char>) -> bool {
    &&& p.len() > dir.len()
    &&& p.subrange(0, dir.len() + 1 as int) == dir + seq!['/']
    &&& confined(p.subrange(dir.len() + 1 as int, p.len() as int))
}

/// Whether `path` names an archive (its final component has the extension `zip`).
pub fn is_archive_path(path: &str) -> (r: bool)
    ensures
        r == is_archive_path_spec(path@),
{
    let v = chars_of(path);
    let n = v.len();
    if n <= 4 {
        return false;
    }
    let ok = v[n - 4] == '.' && v[n - 3] == 'z' && v[n - 2] == 'i' && v[n - 1] == 'p'
        && v[n - 5] != '/';
    proof {
        let p = path@;
        if ok {
            assert(p.subrange(p.len() - 4, p.len() as int) =~= zip_suffix());
        } else if p.subrange(p.len() - 4, p.len() as int) == zip_suffix() {
            assert(p.subrange(p.len() - 4, p.len() as int)[0] == p[p.len() - 4]);
            assert(p.subrange(p.len() - 4, p.len() as int)[1] == p[p.len() - 3]);
            assert(p.subrange(p.len() - 4, p.len() as int)[2] == p[p.len() - 2]);
            assert(p.subrange(p.len() - 4, p.len() as int)[3] == p[p.len() - 1]);
        }
    }
    ok
}

/// The extracted directory of an archive: the same parent, the same stem, no extension.
pub fn extracted_dir(path: &str) -> (r: String)
    requires
        is_archive_path_spec(path@),
    ensures
        r@ == extracted_dir_spec(path@),
{
    let v = chars_of(path);
    let n = v.len() - 4;
    let mut out: Vec<char> = Vec::new();
    let mut i: usize = 0;
    while i < n
        invariant
            v@ == path@,
            n == v.len() - 4,
            0 <= i <= n,
            out@ == v@.subrange(0, i as int),
        decreases n - i,
    {
        out.push(v[i]);
        i = i + 1;
        proof {
            assert(out@ =~= v@.subrange(0, i as int));
        }
    }
    string_of(&out)
}

/// The path of the relative path `rel` under the directory `dir`.
pub fn join_under(dir: &str, rel: &str) -> (r: String)
    ensures
        r@ == join_spec(dir@, rel@),
{
    let mut out = chars_of(dir);
    let tail = chars_of(rel);
    let ghost head = out@ + seq!['/'];
    out.push('/');
    let mut i: usize = 0;
    while i < tail.len()
        invariant
            tail@ == rel@,
            head == dir@ + seq!['/'],
            0 <= i <= tail.len(),
            out@ == head + tail@.subrange(0, i as int),
        decreases tail.len() - i,
    {
        out.push(tail[i]);
        i = i + 1;
        proof {
            assert(out@ =~= head + tail@.subrange(0, i as int));
        }
    }
    proof {
        assert(tail@.subrange(0, tail@.len() as int) =~= tail@);
    }
    string_of(&out)
}

/// Whether `rel` is confined: relative, with no `..` component.
pub fn is_confined(rel: &str) -> (r: bool)
    ensures
        r == confined(rel@),
{
    let v = chars_of(rel);
    let n = v.len();
    if n > 0 && v[0] == '/' {
        return false;
    }
    let mut k: usize = 0;
    while k < n
        invariant
            v@ == rel@,
            n == v.len(),
            0 <= k <= n,
            forall|j: int| 0 <= j < k ==> !#[trigger] parent_component_at(rel@, j),
        decreases n - k,
    {
        if n - k >= 2 && v[k] == '.' && v[k + 1] == '.' && (k == 0 || v[k - 1] == '/') && (n - k
            == 2 || v[k + 2] == '/') {
            assert(parent_component_at(rel@, k as int));
            return false;
        }
        k = k + 1;
    }
    assert forall|j: int| !#[trigger] parent_component_at(rel@, j) by {
        if 0 <= j < n {
        }
    }
    true
}

/// A confined relative path joined to a directory lies inside it.
pub proof fn lemma_join_within(dir: Seq<char>, rel: Seq<char>)
    requires
        confined(rel),
    ensures
        within(dir, join_spec(dir, rel)),
{
    let p = join_spec(dir, rel);
    assert(p.subrange(0, dir.len() + 1 as int) =~= dir + seq!['/']);
    assert(p.subrange(dir.len() + 1 as int, p.len() as int) =~= rel);
}

} // verus!
