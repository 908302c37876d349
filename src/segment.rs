//! Splitting a line into tokens, and removing diacritics from a token.

use vstd::prelude::*;
use crate::inventory::{Arachars, CharClass, class_of, in_class, in_inventory, is_diacritic_char, lemma_class_of_listed};

verus! {

/// Whether `c` has the Unicode `White_Space` property.
pub open spec fn is_white(c: char) -> bool {
    let u = c as u32;
    (0x09 <= u <= 0x0D) || u == 0x20 || u == 0x85 || u == 0xA0 || u == 0x1680 || (0x2000 <= u
        <= 0x200A) || u == 0x2028 || u == 0x2029 || u == 0x202F || u == 0x205F || u == 0x3000
}

/// Whether `c` has the Unicode `White_Space` property.
pub fn is_whitespace(c: char) -> (r: bool)
    ensures
        r == is_white(c),
{
    let u = c as u32;
    (0x09 <= u && u <= 0x0D) || u == 0x20 || u == 0x85 || u == 0xA0 || u == 0x1680 || (0x2000 <= u
        && u <= 0x200A) || u == 0x2028 || u == 0x2029 || u == 0x202F || u == 0x205F || u == 0x3000
}

/// The words of `s` read so far: the finished ones, and the one in progress.
pub open spec fn split_state(s: Seq<char>) -> (Seq<Seq<char>>, Seq<char>)
    decreases s.len(),
{
    if s.len() == 0 {
        (Seq::empty(), Seq::empty())
    } else {
        let (done, cur) = split_state(s.drop_last());
        if is_white(s.last()) {
            if cur.len() > 0 {
                (done.push(cur), Seq::empty())
            } else {
                (done, cur)
            }
        } else {
            (done, cur.push(s.last()))
        }
    }
}

/// The maximal runs of non-whitespace code points of `s`, in order.
pub open spec fn words(s: Seq<char>) -> Seq<Seq<char>> {
    let (done, cur) = split_state(s);
    if cur.len() > 0 {
        done.push(cur)
    } else {
        done
    }
}

/// Splits `s` at runs of whitespace, dropping empty pieces.
pub fn split_words(s: &Vec<char>) -> (r: Vec<Vec<char>>)
    ensures
        r.deep_view() == words(s@),
{
    let mut done: Vec<Vec<char>> = Vec::new();
    let mut cur: Vec<char> = Vec::new();
    let mut i: usize = 0;
    while i < s.len()
        invariant
            0 <= i <= s.len(),
            (done.deep_view(), cur@) == split_state(s@.subrange(0, i as int)),
        decreases s.len() - i,
    {
        let c = s[i];
        proof {
            let next = s@.subrange(0, i + 1);
            assert(next.drop_last() =~= s@.subrange(0, i as int));
            assert(next.last() == c);
        }
        if is_whitespace(c) {
            if cur.len() > 0 {
                let ghost d = done.deep_view();
                let ghost w = cur@;
                assert(cur.deep_view() =~= w);
                done.push(cur);
                assert(done.deep_view() =~= d.push(w));
                cur = Vec::new();
            }
        } else {
            cur.push(c);
        }
        i += 1;
    }
    assert(s@.subrange(0, s.len() as int) =~= s@);
    if cur.len() > 0 {
        let ghost d = done.deep_view();
        let ghost w = cur@;
        assert(cur.deep_view() =~= w);
        done.push(cur);
        assert(done.deep_view() =~= d.push(w));
    }
    done
}

/// What the segmenter makes of `c`: itself when it is a letter, a diacritic
/// or a space, else a space.
pub open spec fn neutral_char(c: char) -> char {
    if in_inventory(c) || c == ' ' {
        c
    } else {
        ' '
    }
}

/// A line with every code point outside the inventory turned into a space.
pub open spec fn neutralize(s: Seq<char>) -> Seq<char> {
    s.map_values(|c: char| neutral_char(c))
}

/// The tokens of a line: what is left between runs of whitespace once every
/// code point outside the inventory has become a space.
pub open spec fn tokens(s: Seq<char>) -> Seq<Seq<char>> {
    words(neutralize(s))
}

/// Splits a line into tokens: code points that are neither letters of the
/// inventory, diacritics nor spaces separate tokens, as whitespace does.
pub fn segment(inv: &Arachars, line: &Vec<char>) -> (r: Vec<Vec<char>>)
    requires
        inv.wf(),
    ensures
        r.deep_view() == tokens(line@),
{
    let mut clean: Vec<char> = Vec::new();
    let mut i: usize = 0;
    while i < line.len()
        invariant
            inv.wf(),
            0 <= i <= line.len(),
            clean@ == neutralize(line@.subrange(0, i as int)),
        decreases line.len() - i,
    {
        let c = line[i];
        if inv.contains(c) || c == ' ' {
            clean.push(c);
        } else {
            clean.push(' ');
        }
        assert(clean@ =~= neutralize(line@.subrange(0, i + 1)));
        i += 1;
    }
    assert(line@.subrange(0, line.len() as int) =~= line@);
    split_words(&clean)
}

/// A token with its diacritics removed.
pub open spec fn strip(t: Seq<char>) -> Seq<char> {
    t.filter(|c: char| !is_diacritic_char(c))
}

/// Removes every diacritic from `tok`.
pub fn strip_diacritics(inv: &Arachars, tok: &Vec<char>) -> (r: Vec<char>)
    requires
        inv.wf(),
    ensures
        r@ == strip(tok@),
{
    let mut out: Vec<char> = Vec::new();
    let mut i: usize = 0;
    while i < tok.len()
        invariant
            inv.wf(),
            0 <= i <= tok.len(),
            out@ == strip(tok@.subrange(0, i as int)),
        decreases tok.len() - i,
    {
        let c = tok[i];
        proof {
            reveal(Seq::filter);
            let next = tok@.subrange(0, i + 1);
            assert(next.drop_last() =~= tok@.subrange(0, i as int));
        }
        if !inv.is_diacritic(c) {
            out.push(c);
        }
        i += 1;
    }
    assert(tok@.subrange(0, tok.len() as int) =~= tok@);
    out
}

/// Removing diacritics from a sequence that holds none leaves it unchanged.
proof fn lemma_strip_free(t: Seq<char>)
    requires
        forall|i: int| 0 <= i < t.len() ==> !is_diacritic_char(#[trigger] t[i]),
    ensures
        strip(t) == t,
    decreases t.len(),
{
    reveal(Seq::filter);
    if t.len() > 0 {
        lemma_strip_free(t.drop_last());
        assert(strip(t) =~= t.drop_last().push(t.last()));
        assert(t.drop_last().push(t.last()) =~= t);
    } else {
        assert(strip(t) =~= t);
    }
}

/// Removing diacritics twice gives what removing them once gives.
pub proof fn lemma_strip_idempotent(t: Seq<char>)
    ensures
        strip(strip(t)) == strip(t),
{
    let s = strip(t);
    assert forall|i: int| 0 <= i < s.len() implies !is_diacritic_char(#[trigger] s[i]) by {
        t.lemma_filter_pred(|c: char| !is_diacritic_char(c), i);
    }
    lemma_strip_free(s);
}

/// No letter of the inventory and no diacritic is whitespace.
proof fn lemma_inventory_not_white(c: char)
    requires
        in_inventory(c),
    ensures
        !is_white(c),
{
    if class_of(c) is Some {
        lemma_class_of_listed(c);
        assert(forall|k: CharClass| #[trigger] in_class(c, k) ==> !is_white(c));
    }
}

/// Reading a run of non-whitespace extends the word in progress.
proof fn lemma_split_append(p: Seq<char>, w: Seq<char>)
    requires
        forall|i: int| 0 <= i < w.len() ==> !is_white(#[trigger] w[i]),
    ensures
        split_state(p + w) == (split_state(p).0, split_state(p).1 + w),
    decreases w.len(),
{
    if w.len() == 0 {
        assert(p + w =~= p);
        assert(split_state(p).1 + w =~= split_state(p).1);
    } else {
        let w0 = w.drop_last();
        lemma_split_append(p, w0);
        assert((p + w).drop_last() =~= p + w0);
        assert((p + w).last() == w.last());
        assert(!is_white(w[w.len() - 1]));
        assert((split_state(p).1 + w0).push(w.last()) =~= split_state(p).1 + w);
    }
}

/// A code point that is neither a letter, a diacritic nor a space, standing
/// between two runs of letters and diacritics, splits them into two tokens.
pub proof fn lemma_outside_char_splits(u: Seq<char>, c: char, v: Seq<char>)
    requires
        u.len() > 0,
        v.len() > 0,
        forall|i: int| 0 <= i < u.len() ==> in_inventory(#[trigger] u[i]),
        forall|i: int| 0 <= i < v.len() ==> in_inventory(#[trigger] v[i]),
        !in_inventory(c),
        c != ' ',
    ensures
        tokens(u + seq![c] + v) == seq![u, v],
{
    let n = neutralize(u + seq![c] + v);
    let m = u + seq![' '] + v;
    assert(n =~= m);
    assert forall|i: int| 0 <= i < u.len() implies !is_white(#[trigger] u[i]) by {
        lemma_inventory_not_white(u[i]);
    }
    assert forall|i: int| 0 <= i < v.len() implies !is_white(#[trigger] v[i]) by {
        lemma_inventory_not_white(v[i]);
    }
    let e = Seq::<char>::empty();
    lemma_split_append(e, u);
    assert(e + u =~= u);
    let us = u + seq![' '];
    assert(us.drop_last() =~= u);
    assert(split_state(us) == (seq![u], e));
    lemma_split_append(us, v);
    assert(m =~= us + v);
    assert(e + v =~= v);
    assert(words(m) =~= seq![u, v]);
}

} // verus!
