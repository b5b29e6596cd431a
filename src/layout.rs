use vstd::prelude::*;

use crate::text::{join, underscored};

verus! {

/// `d` lies strictly below the directory `a`.
pub open spec fn under(d: Seq<char>, a: Seq<char>) -> bool {
    d.len() > a.len() && d.subrange(0, a.len() as int + 1) == a.push('/')
}

/// `s` holds no path separator.
pub open spec fn no_slash(s: Seq<char>) -> bool {
    !s.contains('/')
}

/// A project name that names one path component.
pub open spec fn valid_name(n: Seq<char>) -> bool {
    n.len() > 0 && no_slash(n)
}

/// The directory part of a path: all before its last separator.
pub open spec fn parent(k: Seq<char>) -> Seq<char>
    decreases k.len(),
{
    if k.len() == 0 {
        k
    } else if k.last() == '/' {
        k.drop_last()
    } else {
        parent(k.drop_last())
    }
}

/// The root comes first, and every directory is the root or lies below it.
pub open spec fn dirs_sound(dirs: Seq<Seq<char>>, root: Seq<char>) -> bool {
    &&& dirs.len() > 0
    &&& dirs[0] == root
    &&& forall|i: int| 0 <= i < dirs.len() ==> dirs[i] == root || under(dirs[i], root)
}

/// Every output file lies below the root, and its directory is listed.
pub open spec fn files_placed(files: Map<Seq<char>, Seq<char>>, dirs: Seq<Seq<char>>, root: Seq<char>) -> bool {
    forall|k: Seq<char>| #[trigger]
        files.dom().contains(k) ==> under(k, root) && dirs.contains(parent(k))
}

/// A project layout whose files can all be written under the root.
pub open spec fn layout_sound(files: Map<Seq<char>, Seq<char>>, dirs: Seq<Seq<char>>, root: Seq<char>) -> bool {
    dirs_sound(dirs, root) && files_placed(files, dirs, root)
}

pub proof fn lemma_under_join(a: Seq<char>, x: Seq<char>)
    ensures
        under(join(a, x), a),
{
    assert(join(a, x).subrange(0, a.len() as int + 1) =~= a.push('/'));
}

pub proof fn lemma_under_trans(d: Seq<char>, b: Seq<char>, a: Seq<char>)
    requires
        under(d, b),
        under(b, a),
    ensures
        under(d, a),
{
    assert forall|i: int| 0 <= i < a.len() + 1 implies d[i] == a.push('/')[i] by {
        assert(d.subrange(0, b.len() as int + 1)[i] == d[i]);
        assert(b.subrange(0, a.len() as int + 1)[i] == b[i]);
        assert(b.push('/')[i] == b[i]);
    }
    assert(d.subrange(0, a.len() as int + 1) =~= a.push('/'));
}

/// Below the root, or the root itself.
pub open spec fn at_or_under(d: Seq<char>, root: Seq<char>) -> bool {
    d == root || under(d, root)
}

pub proof fn lemma_join_at_or_under(p: Seq<char>, x: Seq<char>, root: Seq<char>)
    requires
        at_or_under(p, root),
    ensures
        under(join(p, x), root),
{
    lemma_under_join(p, x);
    if p != root {
        lemma_under_trans(join(p, x), p, root);
    }
}

pub proof fn lemma_parent_join(p: Seq<char>, f: Seq<char>)
    requires
        no_slash(f),
    ensures
        parent(join(p, f)) == p,
    decreases f.len(),
{
    let k = join(p, f);
    if f.len() == 0 {
        assert(k.drop_last() =~= p);
    } else {
        assert(k.last() == f.last());
        assert(k.drop_last() =~= join(p, f.drop_last()));
        assert(no_slash(f.drop_last())) by {
            if f.drop_last().contains('/') {
                let i = choose|i: int| 0 <= i < f.drop_last().len() && f.drop_last()[i] == '/';
                assert(f[i] == '/');
            }
        }
        assert(f.last() != '/') by {
            assert(f[f.len() - 1] == f.last());
        }
        lemma_parent_join(p, f.drop_last());
    }
}

pub proof fn lemma_no_slash_concat(a: Seq<char>, b: Seq<char>)
    requires
        no_slash(a),
        no_slash(b),
    ensures
        no_slash(a + b),
{
    if (a + b).contains('/') {
        let i = choose|i: int| 0 <= i < (a + b).len() && (a + b)[i] == '/';
        if i < a.len() {
            assert(a[i] == '/');
        } else {
            assert(b[i - a.len()] == '/');
        }
    }
}

pub proof fn lemma_no_slash_underscored(n: Seq<char>)
    requires
        no_slash(n),
    ensures
        no_slash(underscored(n)),
{
    if underscored(n).contains('/') {
        let i = choose|i: int| 0 <= i < underscored(n).len() && underscored(n)[i] == '/';
        assert(n[i] == '/');
    }
}

/// A file `f` in the directory `p`, where `p` lies at or below the root and
/// is listed as `dirs[i]`, is placed.
pub proof fn lemma_file_placed(root: Seq<char>, p: Seq<char>, f: Seq<char>, dirs: Seq<Seq<char>>, i: int)
    requires
        at_or_under(p, root),
        no_slash(f),
        0 <= i < dirs.len(),
        dirs[i] == p,
    ensures
        under(join(p, f), root),
        dirs.contains(parent(join(p, f))),
{
    lemma_join_at_or_under(p, f, root);
    lemma_parent_join(p, f);
}

} // verus!
