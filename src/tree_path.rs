//! Materialised tree paths: a comment's path is the dot-separated chain of
//! labels from the root of its post's comment tree down to the comment.

use vstd::prelude::*;

verus! {

/// The path `path` lies in the subtree rooted at `ancestor`: either it is
/// that path itself, or it continues it with a dot and further labels.
pub open spec fn in_subtree(path: Seq<char>, ancestor: Seq<char>) -> bool {
    path == ancestor || (path.len() > ancestor.len() && path.subrange(0, ancestor.len() as int)
        == ancestor && path[ancestor.len() as int] == '.')
}

/// A single label: non-empty and free of the separator.
pub open spec fn is_label(l: Seq<char>) -> bool {
    l.len() > 0 && forall|i: int| 0 <= i < l.len() ==> l[i] != '.'
}

/// The path of the child labelled `label` of the item at `parent`.
pub open spec fn child_path(parent: Seq<char>, label: Seq<char>) -> Seq<char> {
    parent + seq!['.'] + label
}

/// Whether the item at `path` is the item at `ancestor` or one of its
/// descendants.
pub fn contains_subtree(ancestor: &str, path: &str) -> (r: bool)
    ensures
        r == in_subtree(path@, ancestor@),
{
    let alen = ancestor.unicode_len();
    let plen = path.unicode_len();
    if plen < alen {
        return false;
    }
    let mut i: usize = 0;
    while i < alen
        invariant
            alen == ancestor@.len(),
            plen == path@.len(),
            alen <= plen,
            i <= alen,
            forall|j: int| 0 <= j < i ==> path@[j] == ancestor@[j],
        decreases alen - i,
    {
        if path.get_char(i) != ancestor.get_char(i) {
            proof {
                assert(path@.subrange(0, alen as int)[i as int] != ancestor@[i as int]);
            }
            return false;
        }
        i = i + 1;
    }
    proof {
        assert(path@.subrange(0, alen as int) =~= ancestor@);
    }
    if plen == alen {
        proof {
            assert(path@ =~= ancestor@);
        }
        true
    } else {
        path.get_char(alen) == '.'
    }
}

/// Every child of an item lies in that item's subtree.
pub proof fn lemma_child_in_subtree(parent: Seq<char>, label: Seq<char>)
    requires
        is_label(label),
    ensures
        in_subtree(child_path(parent, label), parent),
{
    let c = child_path(parent, label);
    assert(c.subrange(0, parent.len() as int) =~= parent);
    assert(c[parent.len() as int] == '.');
}

/// Subtrees nest: what lies under a descendant of `a` lies under `a`.
pub proof fn lemma_subtree_transitive(p: Seq<char>, q: Seq<char>, a: Seq<char>)
    requires
        in_subtree(p, q),
        in_subtree(q, a),
    ensures
        in_subtree(p, a),
{
    if p != q && q != a {
        assert(p.subrange(0, a.len() as int) =~= q.subrange(0, a.len() as int));
        assert(p[a.len() as int] == p.subrange(0, q.len() as int)[a.len() as int]);
    }
}

/// Everything below the child `label` of `parent` lies outside the subtree of
/// any other child `other` of the same parent.
pub proof fn lemma_sibling_subtrees_disjoint(
    parent: Seq<char>,
    label: Seq<char>,
    other: Seq<char>,
    path: Seq<char>,
)
    requires
        is_label(label),
        is_label(other),
        label != other,
        in_subtree(path, child_path(parent, label)),
    ensures
        !in_subtree(path, child_path(parent, other)),
{
    let a = child_path(parent, label);
    let b = child_path(parent, other);
    let n: int = parent.len() as int + 1;
    assert forall|j: int| 0 <= j < a.len() implies path[j] == a[j] by {
        if path != a {
            assert(path.subrange(0, a.len() as int)[j] == path[j]);
        }
    }
    if in_subtree(path, b) {
        assert forall|j: int| 0 <= j < b.len() implies path[j] == b[j] by {
            if path != b {
                assert(path.subrange(0, b.len() as int)[j] == path[j]);
            }
        }
        if label.len() == other.len() {
            assert forall|j: int| 0 <= j < label.len() implies label[j] == other[j] by {
                assert(a[n + j] == label[j]);
                assert(b[n + j] == other[j]);
            }
            assert(label =~= other);
        } else if label.len() < other.len() {
            // where `label` ends, `path` holds a dot or ends, `other` goes on
            let k: int = n + label.len();
            assert(b[k] == other[label.len() as int]);
            if path == a {
                assert(path.len() == k);
            } else {
                assert(path[k] == '.');
            }
        } else {
            let k: int = n + other.len();
            assert(a[k] == label[other.len() as int]);
            if path == b {
                assert(path.len() == k);
            } else {
                assert(path[k] == '.');
            }
        }
    }
}

} // verus!
