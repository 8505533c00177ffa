use vstd::prelude::*;

use crate::text::chars_of;

verus! {

/// Lexicographic order on texts, character by character; a prefix comes first.
pub open spec fn text_le(a: Seq<char>, b: Seq<char>) -> bool
    decreases a.len(),
{
    if a.len() == 0 {
        true
    } else if b.len() == 0 {
        false
    } else if a[0] != b[0] {
        a[0] < b[0]
    } else {
        text_le(a.drop_first(), b.drop_first())
    }
}

/// Any two texts are ordered one way or the other.
pub proof fn lemma_text_le_total(a: Seq<char>, b: Seq<char>)
    ensures
        text_le(a, b) || text_le(b, a),
    decreases a.len(),
{
    if a.len() > 0 && b.len() > 0 {
        if a[0] == b[0] {
            lemma_text_le_total(a.drop_first(), b.drop_first());
        }
    }
}

/// The order is transitive.
pub proof fn lemma_text_le_transitive(a: Seq<char>, b: Seq<char>, c: Seq<char>)
    requires
        text_le(a, b),
        text_le(b, c),
    ensures
        text_le(a, c),
    decreases a.len(),
{
    if a.len() > 0 && b.len() > 0 && c.len() > 0 && a[0] == b[0] && b[0] == c[0] {
        lemma_text_le_transitive(a.drop_first(), b.drop_first(), c.drop_first());
    }
}

/// Texts ordered both ways are equal.
pub proof fn lemma_text_le_antisymmetric(a: Seq<char>, b: Seq<char>)
    requires
        text_le(a, b),
        text_le(b, a),
    ensures
        a == b,
    decreases a.len(),
{
    if a.len() > 0 && b.len() > 0 {
        lemma_text_le_antisymmetric(a.drop_first(), b.drop_first());
        assert(a =~= seq![a[0]] + a.drop_first());
        assert(b =~= seq![b[0]] + b.drop_first());
    }
}

/// The views of a list of texts.
pub open spec fn texts_view(v: Seq<String>) -> Seq<Seq<char>> {
    v.map_values(|s: String| s@)
}

/// A list of texts in ascending order.
pub open spec fn sorted_texts(s: Seq<Seq<char>>) -> bool {
    forall|i: int, j: int| 0 <= i < j < s.len() ==> text_le(#[trigger] s[i], #[trigger] s[j])
}

/// Whether `a` comes no later than `b`.
pub fn text_le_exec(a: &String, b: &String) -> (r: bool)
    ensures
        r == text_le(a@, b@),
{
    let ca = chars_of(a.as_str());
    let cb = chars_of(b.as_str());
    let mut i: usize = 0;
    assert(ca@.skip(0) =~= ca@);
    assert(cb@.skip(0) =~= cb@);
    while i < ca.len() && i < cb.len() && ca[i] == cb[i]
        invariant
            ca@ == a@,
            cb@ == b@,
            i <= ca.len(),
            i <= cb.len(),
            text_le(a@, b@) == text_le(ca@.skip(i as int), cb@.skip(i as int)),
        decreases ca.len() - i,
    {
        assert(ca@.skip(i as int).drop_first() =~= ca@.skip(i + 1));
        assert(cb@.skip(i as int).drop_first() =~= cb@.skip(i + 1));
        i = i + 1;
    }
    if i == ca.len() {
        true
    } else if i == cb.len() {
        false
    } else {
        assert(ca@.skip(i as int)[0] == ca@[i as int]);
        assert(cb@.skip(i as int)[0] == cb@[i as int]);
        ca[i] < cb[i]
    }
}

/// The texts of `v` in ascending order.
pub fn sort_texts(v: Vec<String>) -> (r: Vec<String>)
    ensures
        sorted_texts(texts_view(r@)),
        texts_view(r@).to_multiset() == texts_view(v@).to_multiset(),
{
    let mut r: Vec<String> = Vec::new();
    let mut k: usize = 0;
    proof {
        assert(texts_view(r@) =~= texts_view(v@).take(0));
    }
    while k < v.len()
        invariant
            k <= v.len(),
            sorted_texts(texts_view(r@)),
            texts_view(r@).to_multiset() == texts_view(v@).take(k as int).to_multiset(),
        decreases v.len() - k,
    {
        let x = v[k].clone();
        let mut p: usize = 0;
        while p < r.len() && text_le_exec(&r[p], &x)
            invariant
                p <= r.len(),
                x@ == v@[k as int]@,
                forall|i: int| 0 <= i < p ==> text_le(#[trigger] texts_view(r@)[i], x@),
            decreases r.len() - p,
        {
            p = p + 1;
        }
        let ghost old_r = texts_view(r@);
        proof {
            if p < r.len() {
                lemma_text_le_total(old_r[p as int], x@);
                assert forall|j: int| p <= j < old_r.len() implies text_le(x@, old_r[j]) by {
                    if j > p {
                        lemma_text_le_transitive(x@, old_r[p as int], old_r[j]);
                    }
                }
            }
        }
        r.insert(p, x);
        proof {
            let nr = texts_view(r@);
            assert(nr =~= old_r.insert(p as int, x@));
            assert forall|i: int, j: int| 0 <= i < j < nr.len() implies text_le(
                #[trigger] nr[i],
                #[trigger] nr[j],
            ) by {
                if j < p {
                    assert(nr[i] == old_r[i] && nr[j] == old_r[j]);
                } else if j == p {
                    assert(nr[i] == old_r[i]);
                } else if i < p {
                    assert(nr[i] == old_r[i] && nr[j] == old_r[j - 1]);
                    assert(text_le(old_r[i], x@));
                    assert(text_le(x@, old_r[j - 1]));
                    lemma_text_le_transitive(old_r[i], x@, old_r[j - 1]);
                } else if i == p {
                    assert(nr[j] == old_r[j - 1]);
                } else {
                    assert(nr[i] == old_r[i - 1] && nr[j] == old_r[j - 1]);
                }
            }
            assert(texts_view(v@).take(k + 1) =~= texts_view(v@).take(k as int).push(x@));
            broadcast use vstd::seq_lib::group_to_multiset_ensures;
            assert(nr.remove(p as int) =~= old_r);
            assert(nr[p as int] == x@);
            assert(nr.to_multiset().remove(x@) =~= old_r.to_multiset());
            assert(nr.contains(x@));
            assert(nr.to_multiset() =~= old_r.to_multiset().insert(x@));
        }
        k = k + 1;
    }
    assert(texts_view(v@).take(v.len() as int) =~= texts_view(v@));
    r
}


/// Two sorted lists with the same texts are the same list: the order in which a folder
/// lists its images does not change the navigator's list.
pub proof fn lemma_sorted_unique(a: Seq<Seq<char>>, b: Seq<Seq<char>>)
    requires
        sorted_texts(a),
        sorted_texts(b),
        a.to_multiset() == b.to_multiset(),
    ensures
        a == b,
    decreases a.len(),
{
    broadcast use vstd::seq_lib::group_to_multiset_ensures;

    if a.len() == 0 {
        assert(b.to_multiset().len() == 0);
        assert(b.len() == 0);
        assert(a =~= b);
    } else {
        assert(a.contains(a[0]));
        assert(b.to_multiset().count(a[0]) > 0);
        assert(b.contains(a[0]));
        assert(b.len() > 0);
        assert(a.to_multiset().count(b[0]) > 0);
        assert(a.contains(b[0]));
        let i = choose|i: int| 0 <= i < b.len() && b[i] == a[0];
        let j = choose|j: int| 0 <= j < a.len() && a[j] == b[0];
        assert(text_le(b[0], a[0])) by {
            if i > 0 {
                assert(text_le(b[0], b[i]));
            } else {
                lemma_text_le_total(b[0], a[0]);
            }
        }
        assert(text_le(a[0], b[0])) by {
            if j > 0 {
                assert(text_le(a[0], a[j]));
            } else {
                lemma_text_le_total(a[0], b[0]);
            }
        }
        lemma_text_le_antisymmetric(a[0], b[0]);
        let a1 = a.remove(0);
        let b1 = b.remove(0);
        assert(a1 =~= a.drop_first());
        assert(b1 =~= b.drop_first());
        assert(a1.to_multiset() =~= b1.to_multiset());
        assert(sorted_texts(a1)) by {
            assert forall|p: int, q: int| 0 <= p < q < a1.len() implies text_le(
                #[trigger] a1[p],
                #[trigger] a1[q],
            ) by {
                assert(a1[p] == a[p + 1] && a1[q] == a[q + 1]);
            }
        }
        assert(sorted_texts(b1)) by {
            assert forall|p: int, q: int| 0 <= p < q < b1.len() implies text_le(
                #[trigger] b1[p],
                #[trigger] b1[q],
            ) by {
                assert(b1[p] == b[p + 1] && b1[q] == b[q + 1]);
            }
        }
        lemma_sorted_unique(a1, b1);
        assert(a =~= seq![a[0]] + a1);
        assert(b =~= seq![b[0]] + b1);
    }
}

/// Moving to the next image and then to the previous one comes back to the same position.
pub proof fn lemma_next_then_prev(position: int, len: int)
    requires
        0 <= position < len,
    ensures
        (((position + 1) % len) + len - 1) % len == position,
{
    if position + 1 < len {
        assert((position + 1) % len == position + 1) by {
            vstd::arithmetic::div_mod::lemma_small_mod((position + 1) as nat, len as nat);
        }
        assert((position + len) % len == position) by {
            vstd::arithmetic::div_mod::lemma_mod_add_multiples_vanish(position, len);
            vstd::arithmetic::div_mod::lemma_small_mod(position as nat, len as nat);
        }
    } else {
        assert((position + 1) % len == 0) by {
            vstd::arithmetic::div_mod::lemma_mod_self_0(len);
        }
        assert((len - 1) % len == len - 1) by {
            vstd::arithmetic::div_mod::lemma_small_mod((len - 1) as nat, len as nat);
        }
    }
}

/// Moving to the previous image and then to the next one comes back to the same position.
pub proof fn lemma_prev_then_next(position: int, len: int)
    requires
        0 <= position < len,
    ensures
        ((((position + len - 1) % len) + 1) % len) == position,
{
    if position > 0 {
        assert((position + len - 1) % len == position - 1) by {
            vstd::arithmetic::div_mod::lemma_mod_add_multiples_vanish(position - 1, len);
            vstd::arithmetic::div_mod::lemma_small_mod((position - 1) as nat, len as nat);
        }
        assert(position % len == position) by {
            vstd::arithmetic::div_mod::lemma_small_mod(position as nat, len as nat);
        }
    } else {
        assert((len - 1) % len == len - 1) by {
            vstd::arithmetic::div_mod::lemma_small_mod((len - 1) as nat, len as nat);
        }
        assert(len % len == 0) by {
            vstd::arithmetic::div_mod::lemma_mod_self_0(len);
        }
    }
}

/// The middle of the preview window is the shown image.
pub proof fn lemma_preview_center(position: int, len: int)
    requires
        0 <= position < len,
    ensures
        (position + 2 - 2) % len == position,
{
    vstd::arithmetic::div_mod::lemma_small_mod(position as nat, len as nat);
}

proof fn lemma_mod_of_offset(x: int, n: int, q: int, r: int)
    requires
        n > 0,
        0 <= r < n,
        x == q * n + r,
    ensures
        x % n == r,
{
    vstd::arithmetic::div_mod::lemma_fundamental_div_mod_converse(x, n, q, r);
}

/// The list of images of the current folder and which one is shown.
pub struct Navigator {
    list: Vec<String>,
    index: usize,
}

impl Navigator {
    /// The index stays within the list, or is zero for an empty list.
    #[verifier::type_invariant]
    spec fn inv(self) -> bool {
        self.index < self.list.len() || (self.list.len() == 0 && self.index == 0)
    }

    /// The image paths, in order.
    pub closed spec fn items(self) -> Seq<Seq<char>> {
        texts_view(self.list@)
    }

    /// The position of the shown image.
    pub closed spec fn position(self) -> nat {
        self.index as nat
    }

    /// An empty navigator.
    pub fn new() -> (r: Self)
        ensures
            r.items().len() == 0,
            r.position() == 0,
    {
        Self { list: Vec::new(), index: 0 }
    }

    /// The position of the shown image.
    pub fn get_index(&self) -> (r: usize)
        ensures
            r == self.position(),
            r < self.items().len() || (self.items().len() == 0 && r == 0),
    {
        proof {
            use_type_invariant(self);
        }
        self.index
    }

    /// Opens the folder of an image: `images` are the folder's images, which are sorted;
    /// the shown image is `path` where it is among them, the first one otherwise.
    pub fn f_image(&mut self, images: Vec<String>, path: &String)
        ensures
            sorted_texts(final(self).items()),
            final(self).items().to_multiset() == texts_view(images@).to_multiset(),
            final(self).items().contains(path@) ==> final(self).items()[final(self).position() as int]
                == path@ && forall|i: int|
                0 <= i < final(self).position() ==> final(self).items()[i] != path@,
            !final(self).items().contains(path@) ==> final(self).position() == 0,
    {
        let v = sort_texts(images);
        let mut p: usize = 0;
        while p < v.len() && v[p] != *path
            invariant
                p <= v.len(),
                forall|i: int| 0 <= i < p ==> texts_view(v@)[i] != path@,
            decreases v.len() - p,
        {
            p = p + 1;
        }
        let ghost vs = texts_view(v@);
        if p == v.len() {
            p = 0;
            assert(!vs.contains(path@));
        } else {
            assert(vs[p as int] == path@);
        }
        *self = Self { list: v, index: p };
    }

    /// Opens a folder whose images are `images`: they are sorted and the first is shown.
    pub fn f_folder(&mut self, images: Vec<String>)
        ensures
            sorted_texts(final(self).items()),
            final(self).items().to_multiset() == texts_view(images@).to_multiset(),
            final(self).position() == 0,
    {
        let v = sort_texts(images);
        *self = Self { list: v, index: 0 };
    }

    /// Shows the next image, wrapping to the first after the last; nothing without images.
    pub fn next(&mut self) -> (r: Option<String>)
        ensures
            final(self).items() == old(self).items(),
            old(self).items().len() == 0 ==> r is None && final(self).position() == old(
                self,
            ).position(),
            old(self).items().len() > 0 ==> {
                &&& final(self).position() == (old(self).position() + 1) % old(self).items().len()
                &&& (r matches Some(p) && p@ == final(self).items()[final(self).position() as int])
            },
    {
        proof {
            use_type_invariant(&*self);
        }
        if self.list.len() == 0 {
            return None;
        }
        self.index = (self.index + 1) % self.list.len();
        self.current()
    }

    /// Shows the previous image, wrapping to the last before the first; nothing without
    /// images.
    pub fn prev(&mut self) -> (r: Option<String>)
        ensures
            final(self).items() == old(self).items(),
            old(self).items().len() == 0 ==> r is None && final(self).position() == old(
                self,
            ).position(),
            old(self).items().len() > 0 ==> {
                &&& final(self).position() == (old(self).position() + old(self).items().len() - 1)
                    % (old(self).items().len() as int)
                &&& (r matches Some(p) && p@ == final(self).items()[final(self).position() as int])
            },
    {
        proof {
            use_type_invariant(&*self);
        }
        if self.list.len() == 0 {
            return None;
        }
        proof {
            let n = self.list@.len() as int;
            let i = self.index as int;
            if i == 0 {
                assert((i + n - 1) % n == n - 1) by (nonlinear_arith)
                    requires
                        i == 0,
                        n > 0,
                ;
            } else {
                assert((i + n - 1) % n == i - 1) by (nonlinear_arith)
                    requires
                        0 < i < n,
                ;
            }
        }
        self.index = if self.index == 0 {
            self.list.len() - 1
        } else {
            self.index - 1
        };
        self.current()
    }

    /// The shown image, if there are images.
    pub fn current(&self) -> (r: Option<String>)
        ensures
            self.items().len() == 0 ==> r is None,
            self.items().len() > 0 ==> (r matches Some(p) && p@ == self.items()[self.position() as int]),
    {
        proof {
            use_type_invariant(self);
        }
        if self.index < self.list.len() {
            Some(self.list[self.index].clone())
        } else {
            None
        }
    }

    /// The shown image and the two on either side of it, wrapping around the list, as
    /// positions with their paths; nothing without images.
    pub fn get_preview_window(&self) -> (r: Vec<(usize, String)>)
        ensures
            self.items().len() == 0 ==> r@.len() == 0,
            self.items().len() > 0 ==> {
                &&& r@.len() == 5
                &&& forall|k: int|
                    #![trigger r@[k]]
                    0 <= k < 5 ==> {
                        &&& r@[k].0 == (self.position() + k - 2) % (self.items().len() as int)
                        &&& r@[k].1@ == self.items()[r@[k].0 as int]
                    }
            },
    {
        proof {
            use_type_invariant(self);
        }
        let mut result: Vec<(usize, String)> = Vec::new();
        if self.list.len() == 0 {
            return result;
        }
        let len = self.list.len();
        let index = self.index;
        let mut k: usize = 0;
        while k < 5
            invariant
                len == self.list.len(),
                len > 0,
                index == self.index,
                index < len,
                k <= 5,
                result@.len() == k,
                forall|j: int|
                    #![trigger result@[j]]
                    0 <= j < k ==> {
                        &&& result@[j].0 == (index + j - 2) % (len as int)
                        &&& result@[j].1@ == self.list@[result@[j].0 as int]@
                    },
            decreases 5 - k,
        {
            let idx: usize = if k < 2 {
                let back = (2 - k) % len;
                let idx = if index >= back {
                    index - back
                } else {
                    len - (back - index)
                };
                proof {
                    let n = len as int;
                    let q = (2 - k as int) / n;
                    vstd::arithmetic::div_mod::lemma_fundamental_div_mod(2 - k as int, n);
                    assert((-q) * n == -(n * q)) by (nonlinear_arith);
                    assert((-q - 1) * n == -(n * q) - n) by (nonlinear_arith);
                    if index >= back {
                        lemma_mod_of_offset(index + k - 2, n, -q, idx as int);
                    } else {
                        lemma_mod_of_offset(index + k - 2, n, -q - 1, idx as int);
                    }
                }
                idx
            } else {
                let fwd = (k - 2) % len;
                let idx = if index < len - fwd {
                    index + fwd
                } else {
                    fwd - (len - index)
                };
                proof {
                    let n = len as int;
                    let q = (k as int - 2) / n;
                    vstd::arithmetic::div_mod::lemma_fundamental_div_mod(k as int - 2, n);
                    assert(q * n == n * q) by (nonlinear_arith);
                    assert((q + 1) * n == n * q + n) by (nonlinear_arith);
                    if index < len - fwd {
                        lemma_mod_of_offset(index + k - 2, n, q, idx as int);
                    } else {
                        lemma_mod_of_offset(index + k - 2, n, q + 1, idx as int);
                    }
                }
                idx
            };
            result.push((idx, self.list[idx].clone()));
            k = k + 1;
        }
        result
    }

    /// Shows the image at `index` when there is one there; otherwise nothing changes.
    pub fn set_index(&mut self, index: usize) -> (r: Option<String>)
        ensures
            final(self).items() == old(self).items(),
            index < old(self).items().len() ==> {
                &&& final(self).position() == index
                &&& (r matches Some(p) && p@ == old(self).items()[index as int])
            },
            index >= old(self).items().len() ==> r is None && final(self).position() == old(
                self,
            ).position(),
    {
        if index < self.list.len() {
            self.index = index;
            self.current()
        } else {
            None
        }
    }
}

} // verus!
