use vstd::prelude::*;

verus! {

/// Rust's `str::split` on a single character, as a sequence of pieces:
/// an empty text gives one empty piece, and every separator starts a new piece.
pub open spec fn split_on(s: Seq<char>, sep: char) -> Seq<Seq<char>>
    decreases s.len(),
{
    if s.len() == 0 {
        seq![Seq::<char>::empty()]
    } else {
        let rest = split_on(s.drop_last(), sep);
        if s.last() == sep {
            rest.push(Seq::<char>::empty())
        } else {
            rest.update(rest.len() - 1, rest.last().push(s.last()))
        }
    }
}

/// `split_on` always yields at least one piece.
pub proof fn lemma_split_on_nonempty(s: Seq<char>, sep: char)
    ensures
        split_on(s, sep).len() >= 1,
    decreases s.len(),
{
    if s.len() > 0 {
        lemma_split_on_nonempty(s.drop_last(), sep);
    }
}

/// The characters of `s`, in order.
pub fn chars_of(s: &str) -> (r: Vec<char>)
    ensures
        r@ == s@,
{
    let mut r: Vec<char> = Vec::new();
    for c in it: s.chars()
        invariant
            r@ == it.seq().subrange(0, it.index() as int),
    {
        r.push(c);
    }
    r
}

/// Whether `cs[from..to]` is exactly `lit`.
pub fn range_eq(cs: &Vec<char>, from: usize, to: usize, lit: &Vec<char>) -> (r: bool)
    requires
        from <= to <= cs.len(),
    ensures
        r == (cs@.subrange(from as int, to as int) == lit@),
{
    if to - from != lit.len() {
        return false;
    }
    let mut i: usize = 0;
    while i < lit.len()
        invariant
            from <= to <= cs.len(),
            to - from == lit.len(),
            i <= lit.len(),
            forall|j: int| 0 <= j < i ==> cs@[from + j] == lit@[j],
        decreases lit.len() - i,
    {
        if cs[from + i] != lit[i] {
            assert(cs@.subrange(from as int, to as int)[i as int] != lit@[i as int]);
            return false;
        }
        i = i + 1;
    }
    assert(cs@.subrange(from as int, to as int) =~= lit@);
    true
}

/// The pieces of `cs` between occurrences of `sep`, as index ranges.
pub fn split_ranges(cs: &Vec<char>, sep: char) -> (r: Vec<(usize, usize)>)
    ensures
        r@.len() == split_on(cs@, sep).len(),
        forall|k: int| #![trigger r@[k]]
            0 <= k < r@.len() ==> {
                &&& r@[k].0 <= r@[k].1 <= cs@.len()
                &&& cs@.subrange(r@[k].0 as int, r@[k].1 as int) == split_on(cs@, sep)[k]
            },
{
    let mut r: Vec<(usize, usize)> = Vec::new();
    let mut start: usize = 0;
    let mut i: usize = 0;
    proof {
        assert(cs@.subrange(0, 0) =~= Seq::<char>::empty());
    }
    while i < cs.len()
        invariant
            start <= i <= cs.len(),
            split_on(cs@.subrange(0, i as int), sep).len() == r@.len() + 1,
            split_on(cs@.subrange(0, i as int), sep).last() == cs@.subrange(start as int, i as int),
            forall|k: int| #![trigger r@[k]]
                0 <= k < r@.len() ==> {
                    &&& r@[k].0 <= r@[k].1 <= i
                    &&& cs@.subrange(r@[k].0 as int, r@[k].1 as int) == split_on(
                        cs@.subrange(0, i as int),
                        sep,
                    )[k]
                },
        decreases cs.len() - i,
    {
        let ghost pre = cs@.subrange(0, i as int);
        let ghost post = cs@.subrange(0, i + 1);
        assert(post.drop_last() =~= pre);
        assert(post.last() == cs@[i as int]);
        proof {
            lemma_split_on_nonempty(pre, sep);
        }
        let ghost old_r = r@;
        if cs[i] == sep {
            assert(split_on(post, sep) == split_on(pre, sep).push(Seq::<char>::empty()));
            r.push((start, i));
            start = i + 1;
            assert(cs@.subrange(start as int, i + 1) =~= Seq::<char>::empty());
            assert forall|k: int| #![trigger r@[k]] 0 <= k < r@.len() implies {
                &&& r@[k].0 <= r@[k].1 <= i + 1
                &&& cs@.subrange(r@[k].0 as int, r@[k].1 as int) == split_on(post, sep)[k]
            } by {
                if k < old_r.len() {
                    assert(r@[k] == old_r[k]);
                } else {
                    assert(split_on(post, sep)[k] == split_on(pre, sep).last());
                }
            }
        } else {
            assert(split_on(post, sep) == split_on(pre, sep).update(
                split_on(pre, sep).len() - 1,
                split_on(pre, sep).last().push(cs@[i as int]),
            ));
            assert(cs@.subrange(start as int, i + 1) =~= cs@.subrange(start as int, i as int).push(
                cs@[i as int],
            ));
            assert forall|k: int| #![trigger r@[k]] 0 <= k < r@.len() implies {
                &&& r@[k].0 <= r@[k].1 <= i + 1
                &&& cs@.subrange(r@[k].0 as int, r@[k].1 as int) == split_on(post, sep)[k]
            } by {
                assert(split_on(post, sep)[k] == split_on(pre, sep)[k]);
            }
        }
        i = i + 1;
    }
    let ghost old_r = r@;
    assert(cs@.subrange(0, cs@.len() as int) =~= cs@);
    assert(split_on(cs@.subrange(0, i as int), sep) == split_on(cs@, sep));
    r.push((start, i));
    assert forall|k: int| #![trigger r@[k]] 0 <= k < r@.len() implies {
        &&& r@[k].0 <= r@[k].1 <= cs@.len()
        &&& cs@.subrange(r@[k].0 as int, r@[k].1 as int) == split_on(cs@, sep)[k]
    } by {
        if k < old_r.len() {
            assert(r@[k] == old_r[k]);
        }
    }
    r
}

} // verus!
