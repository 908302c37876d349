//! The index of distinct letterblocks: each block of a tag string, with the
//! rendering that was last seen for it.

use vstd::prelude::*;
use crate::segment::{split_words, words};

verus! {

/// Whether two sequences of code points are equal.
pub fn chars_eq(a: &Vec<char>, b: &Vec<char>) -> (r: bool)
    ensures
        r == (a@ == b@),
{
    if a.len() != b.len() {
        return false;
    }
    let mut i: usize = 0;
    while i < a.len()
        invariant
            a.len() == b.len(),
            0 <= i <= a.len(),
            forall|j: int| 0 <= j < i ==> a@[j] == b@[j],
        decreases a.len() - i,
    {
        if a[i] != b[i] {
            return false;
        }
        i += 1;
    }
    assert(a@ =~= b@);
    true
}

/// The pairs of blocks at the same position of two block sequences, as far
/// as both go.
pub open spec fn zip_blocks(a: Seq<Seq<char>>, b: Seq<Seq<char>>) -> Seq<(Seq<char>, Seq<char>)> {
    Seq::new(if a.len() < b.len() { a.len() } else { b.len() }, |i: int| (a[i], b[i]))
}

/// The letterblock pairs of a tag string and its rendering.
pub open spec fn block_pairs(tags: Seq<char>, arabic: Seq<char>) -> Seq<(Seq<char>, Seq<char>)> {
    zip_blocks(words(tags), words(arabic))
}

/// `m` with the pairs of `ps` inserted in order; a later pair replaces an
/// earlier one with the same block.
pub open spec fn insert_pairs(
    m: Map<Seq<char>, Seq<char>>,
    ps: Seq<(Seq<char>, Seq<char>)>,
) -> Map<Seq<char>, Seq<char>>
    decreases ps.len(),
{
    if ps.len() == 0 {
        m
    } else {
        insert_pairs(m, ps.drop_last()).insert(ps.last().0, ps.last().1)
    }
}

/// The letterblock pairs of a run of tokens, each given by its tag string
/// and its rendering, in order.
pub open spec fn token_pairs(toks: Seq<(Seq<char>, Seq<char>)>) -> Seq<(Seq<char>, Seq<char>)>
    decreases toks.len(),
{
    if toks.len() == 0 {
        Seq::empty()
    } else {
        token_pairs(toks.drop_last()) + block_pairs(toks.last().0, toks.last().1)
    }
}

/// The index built from empty by a run of tokens, in order.
pub open spec fn index_of(toks: Seq<(Seq<char>, Seq<char>)>) -> Map<Seq<char>, Seq<char>> {
    insert_pairs(Map::empty(), token_pairs(toks))
}

/// Inserting two runs of pairs one after the other is inserting their
/// concatenation.
pub proof fn lemma_insert_pairs_append(
    m: Map<Seq<char>, Seq<char>>,
    p: Seq<(Seq<char>, Seq<char>)>,
    q: Seq<(Seq<char>, Seq<char>)>,
)
    ensures
        insert_pairs(insert_pairs(m, p), q) == insert_pairs(m, p + q),
    decreases q.len(),
{
    if q.len() == 0 {
        assert(p + q =~= p);
    } else {
        lemma_insert_pairs_append(m, p, q.drop_last());
        assert((p + q).drop_last() =~= p + q.drop_last());
        assert((p + q).last() == q.last());
    }
}

/// Adding one more token's pairs to the index of a run of tokens gives the
/// index of the longer run.
pub proof fn lemma_index_extends(toks: Seq<(Seq<char>, Seq<char>)>, t: (Seq<char>, Seq<char>))
    ensures
        insert_pairs(index_of(toks), block_pairs(t.0, t.1)) == index_of(toks.push(t)),
{
    lemma_insert_pairs_append(Map::empty(), token_pairs(toks), block_pairs(t.0, t.1));
    assert(toks.push(t).drop_last() =~= toks);
}

/// After inserting `ps`, a block is a key exactly when it was one before
/// or some pair holds it, and its value is that of the last pair that
/// holds it, or its old value when none does.
pub proof fn lemma_insert_pairs_content(
    m: Map<Seq<char>, Seq<char>>,
    ps: Seq<(Seq<char>, Seq<char>)>,
    k: Seq<char>,
)
    ensures
        insert_pairs(m, ps).contains_key(k) <==> (m.contains_key(k) || exists|i: int|
            0 <= i < ps.len() && (#[trigger] ps[i]).0 == k),
        forall|i: int|
            0 <= i < ps.len() && (#[trigger] ps[i]).0 == k && (forall|j: int| i < j < ps.len() ==> ps[j].0 != k)
                ==> insert_pairs(m, ps)[k] == ps[i].1,
        (forall|i: int| 0 <= i < ps.len() ==> (#[trigger] ps[i]).0 != k) ==> (insert_pairs(m, ps).contains_key(k)
            == m.contains_key(k) && (m.contains_key(k) ==> insert_pairs(m, ps)[k] == m[k])),
    decreases ps.len(),
{
    if ps.len() > 0 {
        let q = ps.drop_last();
        lemma_insert_pairs_content(m, q, k);
        assert forall|i: int| 0 <= i < q.len() implies #[trigger] q[i] == ps[i] by {}
        let r = insert_pairs(m, ps);
        if ps.last().0 != k {
            if exists|i: int| 0 <= i < ps.len() && (#[trigger] ps[i]).0 == k {
                let i = choose|i: int| 0 <= i < ps.len() && (#[trigger] ps[i]).0 == k;
                assert(q[i].0 == k);
            }
            assert forall|i: int|
                0 <= i < ps.len() && (#[trigger] ps[i]).0 == k && (forall|j: int| i < j < ps.len() ==> ps[j].0 != k)
                    implies r[k] == ps[i].1 by {
                assert(i < q.len());
                assert(q[i] == ps[i]);
                assert forall|j: int| i < j < q.len() implies q[j].0 != k by {
                    assert(q[j] == ps[j]);
                }
            }
        } else {
            assert(ps[ps.len() - 1].0 == k);
            assert forall|i: int|
                0 <= i < ps.len() && (#[trigger] ps[i]).0 == k && (forall|j: int| i < j < ps.len() ==> ps[j].0 != k)
                    implies r[k] == ps[i].1 by {
                if i < ps.len() - 1 {
                    assert(ps[ps.len() - 1].0 != k);
                }
            }
        }
    }
}

/// A block occurs among the pairs of a run of tokens exactly when it is a
/// block of one of their tag strings, for tokens whose tag string and
/// rendering have as many blocks.
pub proof fn lemma_token_pairs_blocks(toks: Seq<(Seq<char>, Seq<char>)>, k: Seq<char>)
    requires
        forall|t: int| 0 <= t < toks.len() ==> words((#[trigger] toks[t]).0).len() == words(toks[t].1).len(),
    ensures
        (exists|i: int| 0 <= i < token_pairs(toks).len() && (#[trigger] token_pairs(toks)[i]).0 == k) <==> (exists|
            t: int,
            j: int,
        | 0 <= t < toks.len() && 0 <= j < words(toks[t].0).len() && #[trigger] words(toks[t].0)[j] == k),
    decreases toks.len(),
{
    if toks.len() > 0 {
        let front = toks.drop_last();
        let last = toks.last();
        let n = toks.len() - 1;
        assert forall|t: int| 0 <= t < front.len() implies words((#[trigger] front[t]).0).len() == words(
            front[t].1,
        ).len() by {
            assert(front[t] == toks[t]);
        }
        lemma_token_pairs_blocks(front, k);
        let p = token_pairs(front);
        let b = block_pairs(last.0, last.1);
        assert(words(toks[n].0).len() == words(toks[n].1).len());
        assert(token_pairs(toks) == p + b);
        if exists|i: int| 0 <= i < token_pairs(toks).len() && (#[trigger] token_pairs(toks)[i]).0 == k {
            let i = choose|i: int| 0 <= i < token_pairs(toks).len() && (#[trigger] token_pairs(toks)[i]).0 == k;
            if i < p.len() {
                assert(p[i] == token_pairs(toks)[i]);
                let (t, j) = choose|t: int, j: int|
                    0 <= t < front.len() && 0 <= j < words(front[t].0).len() && #[trigger] words(front[t].0)[j] == k;
                assert(toks[t] == front[t]);
                assert(words(toks[t].0)[j] == k);
            } else {
                assert(b[i - p.len()] == token_pairs(toks)[i]);
                assert(words(toks[n].0)[i - p.len()] == k);
            }
        }
        if exists|t: int, j: int|
            0 <= t < toks.len() && 0 <= j < words(toks[t].0).len() && #[trigger] words(toks[t].0)[j] == k {
            let (t, j) = choose|t: int, j: int|
                0 <= t < toks.len() && 0 <= j < words(toks[t].0).len() && #[trigger] words(toks[t].0)[j] == k;
            if t < n {
                assert(front[t] == toks[t]);
                assert(words(front[t].0)[j] == k);
                let i = choose|i: int| 0 <= i < p.len() && (#[trigger] p[i]).0 == k;
                assert(token_pairs(toks)[i] == p[i]);
            } else {
                assert(token_pairs(toks)[p.len() + j] == b[j]);
            }
        }
    }
}

/// The index of a run of tokens holds exactly the letterblocks of those
/// tokens, each once, and maps each to the rendering paired with its last
/// occurrence.
pub proof fn lemma_index_content(toks: Seq<(Seq<char>, Seq<char>)>, k: Seq<char>)
    ensures
        index_of(toks).contains_key(k) <==> exists|i: int|
            0 <= i < token_pairs(toks).len() && (#[trigger] token_pairs(toks)[i]).0 == k,
        forall|i: int|
            0 <= i < token_pairs(toks).len() && (#[trigger] token_pairs(toks)[i]).0 == k && (forall|j: int|
                i < j < token_pairs(toks).len() ==> token_pairs(toks)[j].0 != k) ==> index_of(toks)[k]
                == token_pairs(toks)[i].1,
{
    lemma_insert_pairs_content(Map::empty(), token_pairs(toks), k);
}

/// Distinct tag letterblocks, each with its rendered counterpart.
///
/// The pairs are kept in a vector with a map as their view: vstd gives
/// `HashMap` a key model only for integer and boolean keys, not for the
/// `Vec<char>` blocks used here, so nothing could be proved of a `HashMap`
/// keyed by them.
pub struct LetterblockIndex {
    blocks: Vec<(Vec<char>, Vec<char>)>,
    map: Ghost<Map<Seq<char>, Seq<char>>>,
}

impl View for LetterblockIndex {
    type V = Map<Seq<char>, Seq<char>>;

    closed spec fn view(&self) -> Map<Seq<char>, Seq<char>> {
        self.map@
    }
}

impl LetterblockIndex {
    /// The stored pairs hold exactly the map, each block once.
    pub closed spec fn wf(&self) -> bool {
        &&& forall|i: int|
            0 <= i < self.blocks@.len() ==> #[trigger] self.map@.contains_key(self.blocks@[i].0@)
                && self.map@[self.blocks@[i].0@] == self.blocks@[i].1@
        &&& forall|k: Seq<char>|
            #[trigger] self.map@.contains_key(k) ==> exists|i: int|
                0 <= i < self.blocks@.len() && self.blocks@[i].0@ == k
        &&& forall|i: int, j: int|
            0 <= i < self.blocks@.len() && 0 <= j < self.blocks@.len() && i != j
                ==> self.blocks@[i].0@ != self.blocks@[j].0@
    }

    /// An empty index.
    pub fn new() -> (r: Self)
        ensures
            r.wf(),
            r@ == Map::<Seq<char>, Seq<char>>::empty(),
    {
        LetterblockIndex { blocks: Vec::new(), map: Ghost(Map::empty()) }
    }

    /// Where `block` is stored, if it is.
    fn position(&self, block: &Vec<char>) -> (r: Option<usize>)
        requires
            self.wf(),
        ensures
            match r {
                Some(i) => i < self.blocks@.len() && self.blocks@[i as int].0@ == block@,
                None => !self@.contains_key(block@),
            },
    {
        let mut i: usize = 0;
        while i < self.blocks.len()
            invariant
                self.wf(),
                0 <= i <= self.blocks@.len(),
                forall|j: int| 0 <= j < i ==> self.blocks@[j].0@ != block@,
            decreases self.blocks.len() - i,
        {
            if chars_eq(&self.blocks[i].0, block) {
                return Some(i);
            }
            i += 1;
        }
        None
    }

    /// Records `rendered` as the rendering of `block`, replacing an earlier one.
    pub fn insert(&mut self, block: Vec<char>, rendered: Vec<char>)
        requires
            old(self).wf(),
        ensures
            final(self).wf(),
            final(self)@ == old(self)@.insert(block@, rendered@),
    {
        let ghost k = block@;
        let ghost v = rendered@;
        let ghost m = self.map@;
        let ghost mut p: int = 0;
        match self.position(&block) {
            Some(i) => {
                self.blocks.set(i, (block, rendered));
                proof {
                    p = i as int;
                }
            },
            None => {
                proof {
                    p = self.blocks@.len() as int;
                }
                self.blocks.push((block, rendered));
            },
        }
        assert(self.blocks@[p].0@ == k);
        self.map = Ghost(m.insert(k, v));
        assert forall|key: Seq<char>| #[trigger] self.map@.contains_key(key) implies exists|i: int|
            0 <= i < self.blocks@.len() && self.blocks@[i].0@ == key by {
            if key != k {
                let i = choose|i: int| 0 <= i < old(self).blocks@.len() && old(self).blocks@[i].0@ == key;
                assert(self.blocks@[i].0@ == key);
            } else {
                assert(self.blocks@[p].0@ == key);
            }
        }
    }

    /// The rendering recorded for `block`, if any.
    pub fn get(&self, block: &Vec<char>) -> (r: Option<Vec<char>>)
        requires
            self.wf(),
        ensures
            match r {
                Some(v) => self@.contains_key(block@) && self@[block@] == v@,
                None => !self@.contains_key(block@),
            },
    {
        match self.position(block) {
            Some(i) => {
                let v = self.blocks[i].1.clone();
                assert(v@ =~= self.blocks@[i as int].1@);
                assert(self.map@.contains_key(self.blocks@[i as int].0@));
                Some(v)
            },
            None => None,
        }
    }
    /// Records each letterblock of a tag string with the block at the same
    /// position of its rendering, in order.
    pub fn add_token(&mut self, tags: &Vec<char>, arabic: &Vec<char>)
        requires
            old(self).wf(),
        ensures
            final(self).wf(),
            final(self)@ == insert_pairs(old(self)@, block_pairs(tags@, arabic@)),
    {
        let a = split_words(tags);
        let b = split_words(arabic);
        let ghost sa = a.deep_view();
        let ghost sb = b.deep_view();
        let ghost ps = zip_blocks(sa, sb);
        let ghost start = self@;
        assert(ps.take(0) =~= Seq::<(Seq<char>, Seq<char>)>::empty());
        let mut i: usize = 0;
        while i < a.len() && i < b.len()
            invariant
                self.wf(),
                a.deep_view() == sa,
                b.deep_view() == sb,
                ps == zip_blocks(sa, sb),
                i <= a.len(),
                i <= b.len(),
                self@ == insert_pairs(start, ps.take(i as int)),
            decreases a.len() - i,
        {
            let k = a[i].clone();
            let v = b[i].clone();
            assert(k@ =~= sa[i as int]);
            assert(v@ =~= sb[i as int]);
            assert(ps.take(i + 1).drop_last() =~= ps.take(i as int));
            assert(ps.take(i + 1).last() == (sa[i as int], sb[i as int]));
            self.insert(k, v);
            i += 1;
        }
        assert(ps.take(i as int) =~= ps);
    }

    /// The recorded pairs, each block once, in no particular order.
    pub fn entries(&self) -> (r: Vec<(Vec<char>, Vec<char>)>)
        requires
            self.wf(),
        ensures
            forall|i: int|
                0 <= i < r@.len() ==> self@.contains_key(#[trigger] r@[i].0@) && self@[r@[i].0@] == r@[i].1@,
            forall|k: Seq<char>|
                #[trigger] self@.contains_key(k) ==> exists|i: int| 0 <= i < r@.len() && r@[i].0@ == k,
            forall|i: int, j: int| 0 <= i < r@.len() && 0 <= j < r@.len() && i != j ==> r@[i].0@ != r@[j].0@,
    {
        let mut out: Vec<(Vec<char>, Vec<char>)> = Vec::new();
        let mut i: usize = 0;
        while i < self.blocks.len()
            invariant
                self.wf(),
                0 <= i <= self.blocks@.len(),
                out@.len() == i,
                forall|j: int| 0 <= j < i ==> #[trigger] out@[j].0@ == self.blocks@[j].0@ && out@[j].1@ == self.blocks@[j].1@,
            decreases self.blocks.len() - i,
        {
            let k = self.blocks[i].0.clone();
            let v = self.blocks[i].1.clone();
            assert(k@ =~= self.blocks@[i as int].0@);
            assert(v@ =~= self.blocks@[i as int].1@);
            out.push((k, v));
            i += 1;
        }
        assert forall|key: Seq<char>| #[trigger] self@.contains_key(key) implies exists|i: int|
            0 <= i < out@.len() && out@[i].0@ == key by {
            let i = choose|i: int| 0 <= i < self.blocks@.len() && self.blocks@[i].0@ == key;
            assert(out@[i].0@ == key);
        }
        assert forall|i: int| 0 <= i < out@.len() implies self@.contains_key(#[trigger] out@[i].0@)
            && self@[out@[i].0@] == out@[i].1@ by {
            assert(out@[i].0@ == self.blocks@[i].0@);
            assert(self.map@.contains_key(self.blocks@[i].0@));
        }
        assert forall|i: int, j: int| 0 <= i < out@.len() && 0 <= j < out@.len() && i != j implies out@[i].0@
            != out@[j].0@ by {
            assert(out@[i].0@ == self.blocks@[i].0@);
            assert(out@[j].0@ == self.blocks@[j].0@);
        }
        out
    }
}

} // verus!
