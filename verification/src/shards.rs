//! The shards of a split artifact: which entries of a listing they are, and
//! the order in which they are fetched.

use crate::manifest::{file_views, GgufFile, GgufFileView, GGUF_SUFFIX};
use crate::text::{chars_of, ends_with, has_suffix};
use vstd::prelude::*;

verus! {

/// Whether `a` stands before `b` in the order of a dictionary: at the first
/// place where they differ `a` holds the smaller character, or `a` ends
/// there and `b` goes on.
pub open spec fn text_lt(a: Seq<char>, b: Seq<char>) -> bool
    decreases a.len(),
{
    if b.len() == 0 {
        false
    } else if a.len() == 0 {
        true
    } else if a[0] != b[0] {
        a[0] < b[0]
    } else {
        text_lt(a.drop_first(), b.drop_first())
    }
}

/// Of two texts at most one stands before the other.
pub proof fn lemma_text_lt_asymmetric(a: Seq<char>, b: Seq<char>)
    requires
        text_lt(a, b),
    ensures
        !text_lt(b, a),
    decreases a.len(),
{
    if a.len() != 0 && b.len() != 0 && a[0] == b[0] {
        lemma_text_lt_asymmetric(a.drop_first(), b.drop_first());
    }
}

/// A text that stands before another stands before or behind any third, or
/// the third behind the other: the order leaves no two texts unrelated
/// across a third.
pub proof fn lemma_text_lt_between(a: Seq<char>, b: Seq<char>, c: Seq<char>)
    requires
        text_lt(a, b),
    ensures
        text_lt(a, c) || text_lt(c, b),
    decreases a.len(),
{
    if c.len() != 0 && a.len() != 0 && a[0] == c[0] && a[0] == b[0] {
        lemma_text_lt_between(a.drop_first(), b.drop_first(), c.drop_first());
    }
}

/// The order is transitive.
pub proof fn lemma_text_lt_transitive(a: Seq<char>, b: Seq<char>, c: Seq<char>)
    requires
        text_lt(a, b),
        text_lt(b, c),
    ensures
        text_lt(a, c),
    decreases a.len(),
{
    if a.len() != 0 && a[0] == b[0] && b[0] == c[0] {
        lemma_text_lt_transitive(a.drop_first(), b.drop_first(), c.drop_first());
    }
}

/// Two texts of which neither stands before the other are the same text.
pub proof fn lemma_text_lt_total(a: Seq<char>, b: Seq<char>)
    requires
        !text_lt(a, b),
        !text_lt(b, a),
    ensures
        a == b,
    decreases a.len(),
{
    if a.len() == 0 || b.len() == 0 {
        assert(a.len() == 0 && b.len() == 0);
        assert(a =~= b);
    } else {
        assert(a[0] == b[0]);
        let x = a.drop_first();
        let y = b.drop_first();
        lemma_text_lt_total(x, y);
        assert(a.len() == b.len());
        assert forall|i: int| 0 <= i < a.len() implies a[i] == b[i] by {
            if i > 0 {
                assert(a[i] == x[i - 1]);
                assert(b[i] == y[i - 1]);
            }
        }
        assert(a =~= b);
    }
}

/// Whether `a` stands before `b` in the order of a dictionary.
pub fn less_text(a: &str, b: &str) -> (r: bool)
    ensures
        r == text_lt(a@, b@),
{
    let x = chars_of(a);
    let y = chars_of(b);
    let mut i: usize = 0;
    proof {
        assert(x@.skip(0) =~= x@);
        assert(y@.skip(0) =~= y@);
    }
    while i < x.len() && i < y.len()
        invariant
            i <= x.len(),
            i <= y.len(),
            x@ == a@,
            y@ == b@,
            text_lt(a@, b@) == text_lt(x@.skip(i as int), y@.skip(i as int)),
        decreases x.len() - i,
    {
        proof {
            assert(x@.skip(i as int)[0] == x@[i as int]);
            assert(y@.skip(i as int)[0] == y@[i as int]);
            assert(x@.skip(i as int).drop_first() =~= x@.skip(i + 1));
            assert(y@.skip(i as int).drop_first() =~= y@.skip(i + 1));
        }
        if x[i] != y[i] {
            return x[i] < y[i];
        }
        i += 1;
    }
    i < y.len()
}

/// Whether the names of `s` ascend: no file stands before one that comes
/// earlier in `s`.
pub open spec fn names_ascend(s: Seq<GgufFileView>) -> bool {
    forall|i: int, j: int|
        0 <= i < j < s.len() ==> !text_lt(#[trigger] s[j].filename, #[trigger] s[i].filename)
}

/// `s` with `x` put behind the last file whose name does not stand behind
/// the name of `x`.
pub open spec fn insert_by_name(s: Seq<GgufFileView>, x: GgufFileView) -> Seq<GgufFileView>
    decreases s.len(),
{
    if s.len() == 0 {
        seq![x]
    } else if text_lt(x.filename, s.last().filename) {
        insert_by_name(s.drop_last(), x).push(s.last())
    } else {
        s.push(x)
    }
}

/// The files of `s` in ascending order of name; files of one name keep the
/// order that they have in `s`.
pub open spec fn sorted_by_name(s: Seq<GgufFileView>) -> Seq<GgufFileView>
    decreases s.len(),
{
    if s.len() == 0 {
        s
    } else {
        insert_by_name(sorted_by_name(s.drop_last()), s.last())
    }
}

/// Whether a listed entry is an artifact file: its path ends in `.gguf`.
pub open spec fn is_shard_entry(f: GgufFileView) -> bool {
    ends_with(f.filename, GGUF_SUFFIX@)
}

/// The entries of a listing that are artifact files, in the order of the
/// listing.
pub open spec fn shard_entries(entries: Seq<GgufFileView>) -> Seq<GgufFileView> {
    entries.filter(|f: GgufFileView| is_shard_entry(f))
}

/// The shards that a listing names: its artifact files in ascending order of
/// name.
pub open spec fn shards_spec(entries: Seq<GgufFileView>) -> Seq<GgufFileView> {
    sorted_by_name(shard_entries(entries))
}

/// Inserting by name puts one file in and takes none out, and keeps
/// ascending names ascending.
pub proof fn lemma_insert_by_name(s: Seq<GgufFileView>, x: GgufFileView)
    ensures
        insert_by_name(s, x).to_multiset() == s.to_multiset().insert(x),
        insert_by_name(s, x).len() == s.len() + 1,
        names_ascend(s) ==> names_ascend(insert_by_name(s, x)),
    decreases s.len(),
{
    broadcast use vstd::seq_lib::to_multiset_build;

    let r = insert_by_name(s, x);
    if s.len() == 0 {
        assert(seq![x] =~= Seq::<GgufFileView>::empty().push(x));
        assert(s =~= Seq::<GgufFileView>::empty());
    } else if text_lt(x.filename, s.last().filename) {
        let front = s.drop_last();
        let inner = insert_by_name(front, x);
        lemma_insert_by_name(front, x);
        assert(s =~= front.push(s.last()));
        assert(r.to_multiset() =~= s.to_multiset().insert(x));
        if names_ascend(s) {
            assert(names_ascend(front)) by {
                assert forall|i: int, j: int| 0 <= i < j < front.len() implies !text_lt(
                    #[trigger] front[j].filename,
                    #[trigger] front[i].filename,
                ) by {
                    assert(front[i] == s[i] && front[j] == s[j]);
                }
            }
            assert forall|i: int, j: int| 0 <= i < j < r.len() implies !text_lt(
                #[trigger] r[j].filename,
                #[trigger] r[i].filename,
            ) by {
                if j < inner.len() {
                    assert(r[i] == inner[i] && r[j] == inner[j]);
                } else {
                    assert(r[j] == s.last());
                    assert(r[i] == inner[i]);
                    assert(inner.to_multiset().count(inner[i]) > 0) by {
                        broadcast use vstd::seq_lib::to_multiset_contains;

                        assert(inner.contains(inner[i]));
                    }
                    if inner[i] == x {
                        lemma_text_lt_asymmetric(x.filename, s.last().filename);
                    } else {
                        assert(front.to_multiset().count(inner[i]) > 0);
                        assert(front.contains(inner[i])) by {
                            broadcast use vstd::seq_lib::to_multiset_contains;

                        }
                        let k = choose|k: int| 0 <= k < front.len() && front[k] == inner[i];
                        assert(s[k] == front[k]);
                        assert(s[s.len() - 1] == s.last());
                    }
                }
            }
        }
    } else {
        if names_ascend(s) {
            assert forall|i: int, j: int| 0 <= i < j < r.len() implies !text_lt(
                #[trigger] r[j].filename,
                #[trigger] r[i].filename,
            ) by {
                if j < s.len() {
                    assert(r[i] == s[i] && r[j] == s[j]);
                } else {
                    assert(r[j] == x && r[i] == s[i]);
                    if text_lt(x.filename, s[i].filename) {
                        lemma_text_lt_between(x.filename, s[i].filename, s.last().filename);
                        assert(s[s.len() - 1] == s.last());
                    }
                }
            }
        }
    }
}

/// Sorting by name keeps every file, as often as it occurs, and the names of
/// the result ascend.
pub proof fn lemma_sorted_by_name(s: Seq<GgufFileView>)
    ensures
        sorted_by_name(s).to_multiset() == s.to_multiset(),
        sorted_by_name(s).len() == s.len(),
        names_ascend(sorted_by_name(s)),
    decreases s.len(),
{
    broadcast use vstd::seq_lib::to_multiset_build;

    if s.len() != 0 {
        lemma_sorted_by_name(s.drop_last());
        lemma_insert_by_name(sorted_by_name(s.drop_last()), s.last());
        assert(s =~= s.drop_last().push(s.last()));
    }
}

/// The artifact files of `entries` in ascending order of name.
pub fn sort_shards(entries: &Vec<GgufFile>) -> (shards: Vec<GgufFile>)
    ensures
        file_views(shards@) == shards_spec(file_views(entries@)),
        names_ascend(file_views(shards@)),
        file_views(shards@).to_multiset() == shard_entries(file_views(entries@)).to_multiset(),
{
    let suffix = chars_of(GGUF_SUFFIX);
    let mut shards: Vec<GgufFile> = Vec::new();
    let mut i: usize = 0;
    let ghost all = file_views(entries@);
    proof {
        reveal(Seq::filter);
        assert(all.take(0) =~= Seq::<GgufFileView>::empty());
        assert(file_views(shards@) =~= Seq::<GgufFileView>::empty());
    }
    while i < entries.len()
        invariant
            i <= entries.len(),
            suffix@ == GGUF_SUFFIX@,
            all == file_views(entries@),
            file_views(shards@) == shards_spec(all.take(i as int)),
        decreases entries.len() - i,
    {
        let entry = &entries[i];
        let name = chars_of(entry.filename.as_str());
        proof {
            let pre = all.take(i as int);
            let cur = all.take(i + 1);
            assert(cur.drop_last() =~= pre);
            assert(cur.last() == entry@);
            assert(shard_entries(cur) == if is_shard_entry(entry@) {
                shard_entries(pre).push(entry@)
            } else {
                shard_entries(pre)
            }) by {
                reveal(Seq::filter);
            }
            assert(shard_entries(pre).push(entry@).drop_last() =~= shard_entries(pre));
        }
        if has_suffix(&name, &suffix) {
            insert_shard(&mut shards, entry.duplicate());
        }
        i += 1;
    }
    proof {
        assert(all.take(i as int) =~= all);
        lemma_sorted_by_name(shard_entries(all));
    }
    shards
}

/// Puts `file` into `shards` behind the last file whose name does not stand
/// behind its own.
fn insert_shard(shards: &mut Vec<GgufFile>, file: GgufFile)
    ensures
        file_views(final(shards)@) == insert_by_name(file_views(old(shards)@), file@),
{
    let ghost before = file_views(shards@);
    let mut p: usize = shards.len();
    proof {
        assert(before.take(p as int) =~= before);
        assert(before.skip(p as int) =~= Seq::<GgufFileView>::empty());
        assert(insert_by_name(before, file@) =~= insert_by_name(before.take(p as int), file@)
            + before.skip(p as int));
    }
    while p > 0 && less_text(file.filename.as_str(), shards[p - 1].filename.as_str())
        invariant
            p <= shards.len(),
            shards@ == old(shards)@,
            before == file_views(shards@),
            insert_by_name(before, file@) == insert_by_name(before.take(p as int), file@)
                + before.skip(p as int),
        decreases p,
    {
        proof {
            let head = before.take(p as int);
            assert(head.last() == shards@[p - 1]@);
            assert(head.drop_last() =~= before.take(p - 1));
            assert(insert_by_name(head, file@) == insert_by_name(before.take(p - 1), file@).push(
                head.last(),
            ));
            assert(insert_by_name(before.take(p - 1), file@).push(head.last()) + before.skip(
                p as int,
            ) =~= insert_by_name(before.take(p - 1), file@) + before.skip(p - 1));
        }
        p -= 1;
    }
    proof {
        let head = before.take(p as int);
        if p > 0 {
            assert(head.last() == shards@[p - 1]@);
        }
        assert(insert_by_name(head, file@) =~= head.push(file@));
        assert(head.push(file@) + before.skip(p as int) =~= before.insert(p as int, file@));
        assert(file_views(shards@.insert(p as int, file)) =~= before.insert(p as int, file@));
    }
    shards.insert(p, file);
}

} // verus!
