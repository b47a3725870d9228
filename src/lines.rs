//! Line-oriented text: joining lines with `'\n'` and splitting text back
//! into lines.
use vstd::prelude::*;

verus! {

/// The text made of `ls`, separated by single newlines (no trailing newline).
pub open spec fn join_lines(ls: Seq<Seq<char>>) -> Seq<char>
    decreases ls.len(),
{
    if ls.len() == 0 {
        Seq::empty()
    } else if ls.len() == 1 {
        ls[0]
    } else {
        join_lines(ls.drop_last()) + seq!['\n'] + ls.last()
    }
}

/// The lines of `s`: the maximal runs of characters between newlines.
/// Text with `n` newlines has `n + 1` lines; the empty text has one empty line.
pub open spec fn split_lines(s: Seq<char>) -> Seq<Seq<char>>
    decreases s.len(),
{
    if s.len() == 0 {
        seq![Seq::empty()]
    } else {
        let prev = split_lines(s.drop_last());
        if s.last() == '\n' {
            prev.push(Seq::empty())
        } else {
            prev.update(prev.len() - 1, prev.last().push(s.last()))
        }
    }
}

/// `s` holds no newline.
pub open spec fn is_single_line(s: Seq<char>) -> bool {
    forall|i: int| 0 <= i < s.len() ==> s[i] != '\n'
}

pub proof fn lemma_split_nonempty(s: Seq<char>)
    ensures
        split_lines(s).len() >= 1,
    decreases s.len(),
{
    if s.len() > 0 {
        lemma_split_nonempty(s.drop_last());
    }
}

/// Appending text without a newline extends the last line only.
pub proof fn lemma_split_append_single(p: Seq<char>, q: Seq<char>)
    requires
        is_single_line(q),
    ensures
        split_lines(p + q) == split_lines(p).update(
            split_lines(p).len() - 1,
            split_lines(p).last() + q,
        ),
    decreases q.len(),
{
    lemma_split_nonempty(p);
    let sp = split_lines(p);
    if q.len() == 0 {
        assert(p + q =~= p);
        assert(sp.last() + q =~= sp.last());
        assert(sp.update(sp.len() - 1, sp.last() + q) =~= sp);
    } else {
        let q0 = q.drop_last();
        assert(is_single_line(q0));
        lemma_split_append_single(p, q0);
        assert((p + q).drop_last() =~= p + q0);
        assert((p + q).last() == q.last());
        assert(sp.last() + q0 + seq![q.last()] =~= sp.last() + q);
        assert((sp.last() + q0).push(q.last()) =~= sp.last() + q);
        let prev = split_lines(p + q0);
        assert(prev.last() == sp.last() + q0);
        assert(split_lines(p + q) =~= sp.update(sp.len() - 1, sp.last() + q));
    }
}

/// A newline followed by text without a newline adds that text as a new
/// last line.
pub proof fn lemma_split_append_line(p: Seq<char>, q: Seq<char>)
    requires
        is_single_line(q),
    ensures
        split_lines(p + seq!['\n'] + q) == split_lines(p).push(q),
{
    let pn = p + seq!['\n'];
    assert(pn.drop_last() =~= p);
    assert(split_lines(pn) == split_lines(p).push(Seq::empty()));
    lemma_split_append_single(pn, q);
    assert(Seq::<char>::empty() + q =~= q);
    assert(split_lines(p).push(Seq::empty()).update(split_lines(p).len() as int, q)
        =~= split_lines(p).push(q));
}

/// Splitting the join of single lines gives the lines back.
pub proof fn lemma_split_join(ls: Seq<Seq<char>>)
    requires
        ls.len() >= 1,
        forall|i: int| 0 <= i < ls.len() ==> is_single_line(#[trigger] ls[i]),
    ensures
        split_lines(join_lines(ls)) == ls,
    decreases ls.len(),
{
    if ls.len() == 1 {
        lemma_split_append_single(Seq::empty(), ls[0]);
        assert(Seq::<char>::empty() + ls[0] =~= ls[0]);
        assert(Seq::<char>::empty() + ls[0] =~= ls[0]);
        assert(split_lines(Seq::empty()).update(0, ls[0]) =~= ls);
    } else {
        let init = ls.drop_last();
        assert forall|i: int| 0 <= i < init.len() implies is_single_line(#[trigger] init[i]) by {
            assert(init[i] == ls[i]);
        }
        lemma_split_join(init);
        assert(is_single_line(ls[ls.len() - 1]));
        lemma_split_append_line(join_lines(init), ls.last());
        assert(init.push(ls.last()) =~= ls);
    }
}

} // verus!
