//! Sorting discovered files.  Files are ordered lexicographically by path
//! (ties broken by file name, then extension, so that the order is total),
//! which is the only thing that establishes the correspondence between
//! ripped files and metadata entries.

use vstd::prelude::*;
use vstd::relations::sorted_by;
use vstd::relations::total_ordering;
use vstd::seq_lib::group_to_multiset_ensures;
use vstd::multiset::group_multiset_axioms;
use crate::models::FileNameAndExt;
use crate::models::FileNameAndExtModel;
use crate::strutil::lemma_seq_char_le_antisym;
use crate::strutil::lemma_seq_char_le_connected;
use crate::strutil::lemma_seq_char_le_refl;
use crate::strutil::lemma_seq_char_le_trans;
use crate::strutil::seq_char_le;
use crate::strutil::str_eq;
use crate::strutil::str_le;

verus! {

/// The order discovered files are sorted by: lexicographic on the path,
/// with file name and extension as tie breakers.
pub open spec fn fne_le(a: FileNameAndExtModel, b: FileNameAndExtModel) -> bool {
    if a.path != b.path {
        seq_char_le(a.path, b.path)
    } else if a.file_name != b.file_name {
        seq_char_le(a.file_name, b.file_name)
    } else {
        seq_char_le(a.ext, b.ext)
    }
}

/// [`fne_le`] as a relation value, for use with vstd's ordering library.
pub open spec fn fne_leq() -> spec_fn(FileNameAndExtModel, FileNameAndExtModel) -> bool {
    |a: FileNameAndExtModel, b: FileNameAndExtModel| fne_le(a, b)
}

/// The file order is reflexive.
pub proof fn lemma_fne_refl(a: FileNameAndExtModel)
    ensures
        fne_le(a, a),
{
    lemma_seq_char_le_refl(a.ext);
}

/// The file order is antisymmetric.
pub proof fn lemma_fne_antisym(a: FileNameAndExtModel, b: FileNameAndExtModel)
    requires
        fne_le(a, b),
        fne_le(b, a),
    ensures
        a == b,
{
    if a.path != b.path {
        lemma_seq_char_le_antisym(a.path, b.path);
    } else if a.file_name != b.file_name {
        lemma_seq_char_le_antisym(a.file_name, b.file_name);
    } else {
        lemma_seq_char_le_antisym(a.ext, b.ext);
        assert(a =~= b);
    }
}

/// Any two files are comparable in the file order.
pub proof fn lemma_fne_connected(a: FileNameAndExtModel, b: FileNameAndExtModel)
    ensures
        fne_le(a, b) || fne_le(b, a),
{
    if a.path != b.path {
        lemma_seq_char_le_connected(a.path, b.path);
    } else if a.file_name != b.file_name {
        lemma_seq_char_le_connected(a.file_name, b.file_name);
    } else {
        lemma_seq_char_le_connected(a.ext, b.ext);
    }
}

/// The file order is a total ordering.
pub proof fn lemma_fne_total_ordering()
    ensures
        total_ordering(fne_leq()),
{
    let leq = fne_leq();
    assert forall|a: FileNameAndExtModel| #[trigger] leq(a, a) by {
        lemma_fne_refl(a);
    }
    assert forall|a: FileNameAndExtModel, b: FileNameAndExtModel|
        #[trigger] leq(a, b) && #[trigger] leq(b, a) implies a == b by {
        lemma_fne_antisym(a, b);
    }
    assert forall|a: FileNameAndExtModel, b: FileNameAndExtModel, c: FileNameAndExtModel|
        #[trigger] leq(a, b) && #[trigger] leq(b, c) implies leq(a, c) by {
        lemma_fne_le_trans(a, b, c);
    }
    assert forall|a: FileNameAndExtModel, b: FileNameAndExtModel|
        #[trigger] leq(a, b) || #[trigger] leq(b, a) by {
        lemma_fne_connected(a, b);
    }
}

proof fn lemma_fne_le_trans(a: FileNameAndExtModel, b: FileNameAndExtModel, c: FileNameAndExtModel)
    requires
        fne_le(a, b),
        fne_le(b, c),
    ensures
        fne_le(a, c),
{
    if a.path != b.path && b.path != c.path {
        lemma_seq_char_le_trans(a.path, b.path, c.path);
        if a.path == c.path {
            lemma_seq_char_le_antisym(a.path, b.path);
        }
    } else if a.path == b.path && b.path == c.path {
        if a.file_name != b.file_name && b.file_name != c.file_name {
            lemma_seq_char_le_trans(a.file_name, b.file_name, c.file_name);
            if a.file_name == c.file_name {
                lemma_seq_char_le_antisym(a.file_name, b.file_name);
            }
        } else if a.file_name == b.file_name && b.file_name == c.file_name {
            lemma_seq_char_le_trans(a.ext, b.ext, c.ext);
        }
    }
}

/// Executable comparison realising [`fne_le`].
pub fn fne_le_exec(a: &FileNameAndExt, b: &FileNameAndExt) -> (r: bool)
    ensures
        r == fne_le(a@, b@),
{
    if !str_eq(a.path.as_str(), b.path.as_str()) {
        str_le(a.path.as_str(), b.path.as_str())
    } else if !str_eq(a.file_name.as_str(), b.file_name.as_str()) {
        str_le(a.file_name.as_str(), b.file_name.as_str())
    } else {
        str_le(a.ext.as_str(), b.ext.as_str())
    }
}

/// Inserts `x` into a vector already sorted by the file order, keeping it
/// sorted.
fn insert_sorted(out: &mut Vec<FileNameAndExt>, x: FileNameAndExt)
    requires
        sorted_by(old(out).deep_view(), fne_leq()),
    ensures
        sorted_by(final(out).deep_view(), fne_leq()),
        final(out).deep_view().to_multiset() == old(out).deep_view().to_multiset().insert(
            x.deep_view(),
        ),
{
    broadcast use group_to_multiset_ensures;
    broadcast use group_multiset_axioms;

    let ghost leq = fne_leq();
    let mut idx: usize = 0;
    let mut scanning = true;
    while scanning
        invariant
            idx <= out.len(),
            sorted_by(out.deep_view(), fne_leq()),
            forall|k: int| 0 <= k < idx ==> fne_le(#[trigger] out.deep_view()[k], x.deep_view()),
            !scanning ==> (idx == out.len() || !fne_le(out.deep_view()[idx as int], x.deep_view())),
        decreases out.len() - idx + (if scanning { 1int } else { 0int }),
    {
        if idx >= out.len() {
            scanning = false;
        } else {
            if fne_le_exec(&out[idx], &x) {
                idx = idx + 1;
            } else {
                scanning = false;
            }
        }
    }
    let ghost pre = out.deep_view();
    out.insert(idx, x);
    proof {
        let post = out.deep_view();
        assert(post =~= pre.insert(idx as int, x.deep_view()));
        lemma_fne_total_ordering();
        assert forall|i: int, j: int| 0 <= i < j < post.len() implies #[trigger] leq(
            post[i],
            post[j],
        ) by {
            let xv = x.deep_view();
            if j < idx {
                assert(post[i] == pre[i] && post[j] == pre[j]);
            } else if j == idx {
                assert(post[j] == xv);
                assert(fne_le(pre[i], xv));
            } else {
                // j > idx: post[j] == pre[j - 1]
                if i < idx {
                    if j - 1 == idx {
                        lemma_fne_connected(pre[idx as int], xv);
                        lemma_fne_le_trans(pre[i], xv, pre[j - 1]);
                    } else {
                        assert(leq(pre[i], pre[j - 1]));
                    }
                } else if i == idx {
                    assert(post[i] == xv);
                    assert(!fne_le(pre[idx as int], xv));
                    lemma_fne_connected(pre[idx as int], xv);
                    assert(fne_le(xv, pre[idx as int]));
                    if j - 1 > idx {
                        assert(leq(pre[idx as int], pre[j - 1]));
                        lemma_fne_le_trans(xv, pre[idx as int], pre[j - 1]);
                    }
                } else {
                    assert(leq(pre[i - 1], pre[j - 1]));
                }
            }
        }
        assert(sorted_by(post, fne_leq()));
        // Multiset bookkeeping: removing the inserted element gives back the
        // old sequence.
        assert(post.remove(idx as int) =~= pre);
        assert(post[idx as int] == x.deep_view());
        assert(post.remove(idx as int).to_multiset() =~= post.to_multiset().remove(
            post[idx as int],
        ));
        assert(post.to_multiset().contains(post[idx as int]));
        assert(post.to_multiset() =~= pre.to_multiset().insert(x.deep_view()));
    }
}

/// The sorted arrangement of a file sequence, as a mathematical function.
pub open spec fn sorted_files(files: Seq<FileNameAndExtModel>) -> Seq<FileNameAndExtModel> {
    files.sort_by(fne_leq())
}

/// Sorts discovered files by the file order.  The result is the unique
/// sorted arrangement of the input.
pub fn sort_files(files: Vec<FileNameAndExt>) -> (r: Vec<FileNameAndExt>)
    ensures
        sorted_by(r.deep_view(), fne_leq()),
        r.deep_view().to_multiset() == files.deep_view().to_multiset(),
        r.deep_view() == sorted_files(files.deep_view()),
{
    broadcast use group_to_multiset_ensures;
    broadcast use group_multiset_axioms;

    let ghost all = files.deep_view();
    let mut input = files;
    let mut out: Vec<FileNameAndExt> = Vec::new();
    proof {
        assert(out.deep_view() =~= Seq::<FileNameAndExtModel>::empty());
        assert(out.deep_view().to_multiset().add(input.deep_view().to_multiset())
            =~= all.to_multiset());
    }
    while input.len() > 0
        invariant
            sorted_by(out.deep_view(), fne_leq()),
            out.deep_view().to_multiset().add(input.deep_view().to_multiset())
                == all.to_multiset(),
        decreases input.len(),
    {
        let ghost in_pre = input.deep_view();
        let ghost out_pre = out.deep_view();
        let x = match input.pop() {
            Some(x) => x,
            None => {
                proof {
                    assert(false);
                }
                unreached()
            },
        };
        proof {
            assert(input.deep_view() =~= in_pre.drop_last());
            assert(x.deep_view() == in_pre.last());
            assert(in_pre =~= in_pre.drop_last().push(in_pre.last()));
            vstd::seq_lib::to_multiset_build(input.deep_view(), x.deep_view());
            assert(in_pre == input.deep_view().push(x.deep_view()));
            assert(in_pre.to_multiset() =~= input.deep_view().to_multiset().insert(
                x.deep_view(),
            ));
        }
        insert_sorted(&mut out, x);
        proof {
            assert(out.deep_view().to_multiset() =~= out_pre.to_multiset().insert(x.deep_view()));
            assert(out.deep_view().to_multiset().add(input.deep_view().to_multiset())
                =~= all.to_multiset());
        }
    }
    proof {
        assert(input.deep_view() =~= Seq::<FileNameAndExtModel>::empty());
        assert(out.deep_view().to_multiset() =~= all.to_multiset());
        lemma_fne_total_ordering();
        all.lemma_sort_by_ensures(fne_leq());
        vstd::seq_lib::lemma_sorted_unique(out.deep_view(), sorted_files(all), fne_leq());
    }
    out
}

} // verus!
