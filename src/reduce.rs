//! The reduction of a cleaned token to its rasm: a string of class tags in
//! which non-joining letters end a letterblock, and its rendering in
//! Arabic letters.

use vstd::prelude::*;
use crate::inventory::{Arachars, CharClass, NUM_CLASSES, class_at, class_of};
use crate::segment::{is_white, split_state, words};

verus! {

/// The rule for a class at the end of a token: the classes whose final
/// shape stays distinct keep their own tag.
pub open spec fn final_tag(k: CharClass) -> Option<char> {
    match k {
            CharClass::Q => Some('Q'),
            CharClass::N => Some('N'),
            CharClass::Y => Some('Y'),
            CharClass::A => None,
            CharClass::B => None,
            CharClass::G => None,
            CharClass::R => None,
            CharClass::D => None,
            CharClass::T => None,
            CharClass::C => None,
            CharClass::S => None,
            CharClass::F => None,
            CharClass::E => None,
            CharClass::W => None,
            CharClass::H => None,
            CharClass::M => None,
            CharClass::L => None,
            CharClass::K => None,
    }
}

/// The rule for a class anywhere else: the tag it becomes, and whether a
/// separator follows it because the letter does not join the next one.
/// Classes N, Y and B share one undotted shape and become `B`; A, R, D and
/// W, the non-joining letters, each apply to the letters of their own class;
/// a letter of class Q that is not final has the shape of the dotless feh
/// and becomes `F`.
pub open spec fn general_rule(k: CharClass) -> (char, bool) {
    match k {
            CharClass::Q => ('F', false),
            CharClass::N => ('B', false),
            CharClass::Y => ('B', false),
            CharClass::A => ('A', true),
            CharClass::B => ('B', false),
            CharClass::G => ('G', false),
            CharClass::R => ('R', true),
            CharClass::D => ('D', true),
            CharClass::T => ('T', false),
            CharClass::C => ('C', false),
            CharClass::S => ('S', false),
            CharClass::F => ('F', false),
            CharClass::E => ('E', false),
            CharClass::W => ('W', true),
            CharClass::H => ('H', false),
            CharClass::M => ('M', false),
            CharClass::L => ('L', false),
            CharClass::K => ('K', false),
    }
}

/// The Arabic letter that represents a class when a tag string is rendered.
pub open spec fn abjad_letter(k: CharClass) -> char {
    match k {
            CharClass::Q => '\u{066F}',
            CharClass::N => '\u{06BA}',
            CharClass::Y => '\u{06CC}',
            CharClass::A => '\u{0627}',
            CharClass::B => '\u{066E}',
            CharClass::G => '\u{062D}',
            CharClass::R => '\u{0631}',
            CharClass::D => '\u{062F}',
            CharClass::T => '\u{0637}',
            CharClass::C => '\u{0635}',
            CharClass::S => '\u{0633}',
            CharClass::F => '\u{06A1}',
            CharClass::E => '\u{0639}',
            CharClass::W => '\u{0648}',
            CharClass::H => '\u{0647}',
            CharClass::M => '\u{0645}',
            CharClass::L => '\u{0644}',
            CharClass::K => '\u{06A9}',
    }
}

/// The class whose tag is `t`.
pub open spec fn tag_class(t: char) -> Option<CharClass> {
    match t {
        'Q' => Some(CharClass::Q),
        'N' => Some(CharClass::N),
        'Y' => Some(CharClass::Y),
        'A' => Some(CharClass::A),
        'B' => Some(CharClass::B),
        'G' => Some(CharClass::G),
        'R' => Some(CharClass::R),
        'D' => Some(CharClass::D),
        'T' => Some(CharClass::T),
        'C' => Some(CharClass::C),
        'S' => Some(CharClass::S),
        'F' => Some(CharClass::F),
        'E' => Some(CharClass::E),
        'W' => Some(CharClass::W),
        'H' => Some(CharClass::H),
        'M' => Some(CharClass::M),
        'L' => Some(CharClass::L),
        'K' => Some(CharClass::K),
        _ => None,
    }
}

/// The class whose tag is `t`.
pub fn class_of_tag(t: char) -> (r: Option<CharClass>)
    ensures
        r == tag_class(t),
{
    match t {
        'Q' => Some(CharClass::Q),
        'N' => Some(CharClass::N),
        'Y' => Some(CharClass::Y),
        'A' => Some(CharClass::A),
        'B' => Some(CharClass::B),
        'G' => Some(CharClass::G),
        'R' => Some(CharClass::R),
        'D' => Some(CharClass::D),
        'T' => Some(CharClass::T),
        'C' => Some(CharClass::C),
        'S' => Some(CharClass::S),
        'F' => Some(CharClass::F),
        'E' => Some(CharClass::E),
        'W' => Some(CharClass::W),
        'H' => Some(CharClass::H),
        'M' => Some(CharClass::M),
        'L' => Some(CharClass::L),
        'K' => Some(CharClass::K),
        _ => None,
    }
}

/// The position of a class in the listing of the inventory.
pub fn class_index(k: CharClass) -> (r: usize)
    ensures
        r < NUM_CLASSES,
        class_at(r as int) == k,
{
    match k {
        CharClass::Q => 0,
        CharClass::N => 1,
        CharClass::Y => 2,
        CharClass::A => 3,
        CharClass::B => 4,
        CharClass::G => 5,
        CharClass::R => 6,
        CharClass::D => 7,
        CharClass::T => 8,
        CharClass::C => 9,
        CharClass::S => 10,
        CharClass::F => 11,
        CharClass::E => 12,
        CharClass::W => 13,
        CharClass::H => 14,
        CharClass::M => 15,
        CharClass::L => 16,
        CharClass::K => 17,
    }
}

/// The rule tables, one entry per class in the order of the inventory.
pub struct Mappings {
    pub end: Vec<Option<char>>,
    pub gen: Vec<(char, bool)>,
    pub ara: Vec<char>,
}

impl Mappings {
    /// Each table holds, at the position of each class, that class's rule.
    pub open spec fn wf(&self) -> bool {
        &&& self.end@.len() == NUM_CLASSES
        &&& self.gen@.len() == NUM_CLASSES
        &&& self.ara@.len() == NUM_CLASSES
        &&& forall|i: int| 0 <= i < NUM_CLASSES ==> #[trigger] self.end@[i] == final_tag(class_at(i))
        &&& forall|i: int| 0 <= i < NUM_CLASSES ==> #[trigger] self.gen@[i] == general_rule(class_at(i))
        &&& forall|i: int| 0 <= i < NUM_CLASSES ==> #[trigger] self.ara@[i] == abjad_letter(class_at(i))
    }

    /// The final rule of class `k`.
    pub fn final_tag(&self, k: CharClass) -> (r: Option<char>)
        requires
            self.wf(),
        ensures
            r == final_tag(k),
    {
        self.end[class_index(k)]
    }

    /// The general rule of class `k`.
    pub fn general_rule(&self, k: CharClass) -> (r: (char, bool))
        requires
            self.wf(),
        ensures
            r == general_rule(k),
    {
        self.gen[class_index(k)]
    }

    /// The Arabic letter that represents class `k`.
    pub fn abjad_letter(&self, k: CharClass) -> (r: char)
        requires
            self.wf(),
        ensures
            r == abjad_letter(k),
    {
        self.ara[class_index(k)]
    }
}

/// Builds the rule tables.
pub fn load_rasm_mappings() -> (r: Mappings)
    ensures
        r.wf(),
{
    let r = Mappings {
        end: vec![Some('Q'), Some('N'), Some('Y'), None, None, None, None, None, None, None, None, None, None, None, None, None, None, None],
        gen: vec![
            ('F', false),
            ('B', false),
            ('B', false),
            ('A', true),
            ('B', false),
            ('G', false),
            ('R', true),
            ('D', true),
            ('T', false),
            ('C', false),
            ('S', false),
            ('F', false),
            ('E', false),
            ('W', true),
            ('H', false),
            ('M', false),
            ('L', false),
            ('K', false),
        ],
        ara: vec!['\u{066F}', '\u{06BA}', '\u{06CC}', '\u{0627}', '\u{066E}', '\u{062D}', '\u{0631}', '\u{062F}', '\u{0637}', '\u{0635}', '\u{0633}', '\u{06A1}', '\u{0639}', '\u{0648}', '\u{0647}', '\u{0645}', '\u{0644}', '\u{06A9}'],
    };
    assert forall|i: int| 0 <= i < NUM_CLASSES implies #[trigger] r.end@[i] == final_tag(class_at(i))
        && r.gen@[i] == general_rule(class_at(i)) && r.ara@[i] == abjad_letter(class_at(i)) by {
        if i == 0 {
            assert(r.end@[0] == final_tag(CharClass::Q));
            assert(r.gen@[0] == general_rule(CharClass::Q));
            assert(r.ara@[0] == abjad_letter(CharClass::Q));
        } else if i == 1 {
            assert(r.end@[1] == final_tag(CharClass::N));
            assert(r.gen@[1] == general_rule(CharClass::N));
            assert(r.ara@[1] == abjad_letter(CharClass::N));
        } else if i == 2 {
            assert(r.end@[2] == final_tag(CharClass::Y));
            assert(r.gen@[2] == general_rule(CharClass::Y));
            assert(r.ara@[2] == abjad_letter(CharClass::Y));
        } else if i == 3 {
            assert(r.end@[3] == final_tag(CharClass::A));
            assert(r.gen@[3] == general_rule(CharClass::A));
            assert(r.ara@[3] == abjad_letter(CharClass::A));
        } else if i == 4 {
            assert(r.end@[4] == final_tag(CharClass::B));
            assert(r.gen@[4] == general_rule(CharClass::B));
            assert(r.ara@[4] == abjad_letter(CharClass::B));
        } else if i == 5 {
            assert(r.end@[5] == final_tag(CharClass::G));
            assert(r.gen@[5] == general_rule(CharClass::G));
            assert(r.ara@[5] == abjad_letter(CharClass::G));
        } else if i == 6 {
            assert(r.end@[6] == final_tag(CharClass::R));
            assert(r.gen@[6] == general_rule(CharClass::R));
            assert(r.ara@[6] == abjad_letter(CharClass::R));
        } else if i == 7 {
            assert(r.end@[7] == final_tag(CharClass::D));
            assert(r.gen@[7] == general_rule(CharClass::D));
            assert(r.ara@[7] == abjad_letter(CharClass::D));
        } else if i == 8 {
            assert(r.end@[8] == final_tag(CharClass::T));
            assert(r.gen@[8] == general_rule(CharClass::T));
            assert(r.ara@[8] == abjad_letter(CharClass::T));
        } else if i == 9 {
            assert(r.end@[9] == final_tag(CharClass::C));
            assert(r.gen@[9] == general_rule(CharClass::C));
            assert(r.ara@[9] == abjad_letter(CharClass::C));
        } else if i == 10 {
            assert(r.end@[10] == final_tag(CharClass::S));
            assert(r.gen@[10] == general_rule(CharClass::S));
            assert(r.ara@[10] == abjad_letter(CharClass::S));
        } else if i == 11 {
            assert(r.end@[11] == final_tag(CharClass::F));
            assert(r.gen@[11] == general_rule(CharClass::F));
            assert(r.ara@[11] == abjad_letter(CharClass::F));
        } else if i == 12 {
            assert(r.end@[12] == final_tag(CharClass::E));
            assert(r.gen@[12] == general_rule(CharClass::E));
            assert(r.ara@[12] == abjad_letter(CharClass::E));
        } else if i == 13 {
            assert(r.end@[13] == final_tag(CharClass::W));
            assert(r.gen@[13] == general_rule(CharClass::W));
            assert(r.ara@[13] == abjad_letter(CharClass::W));
        } else if i == 14 {
            assert(r.end@[14] == final_tag(CharClass::H));
            assert(r.gen@[14] == general_rule(CharClass::H));
            assert(r.ara@[14] == abjad_letter(CharClass::H));
        } else if i == 15 {
            assert(r.end@[15] == final_tag(CharClass::M));
            assert(r.gen@[15] == general_rule(CharClass::M));
            assert(r.ara@[15] == abjad_letter(CharClass::M));
        } else if i == 16 {
            assert(r.end@[16] == final_tag(CharClass::L));
            assert(r.gen@[16] == general_rule(CharClass::L));
            assert(r.ara@[16] == abjad_letter(CharClass::L));
        } else if i == 17 {
            assert(r.end@[17] == final_tag(CharClass::K));
            assert(r.gen@[17] == general_rule(CharClass::K));
            assert(r.ara@[17] == abjad_letter(CharClass::K));
        }
    }
    r
}

/// What the final rule makes of `c`, if one applies.
pub open spec fn final_rule_of(c: char) -> Option<char> {
    match class_of(c) {
        Some(k) => final_tag(k),
        None => None,
    }
}

/// What the general rules make of `c`; a code point of no class stays as
/// it is.
pub open spec fn general_char(c: char) -> Seq<char> {
    match class_of(c) {
        Some(k) => {
            let (t, sep) = general_rule(k);
            if sep {
                seq![t, ' ']
            } else {
                seq![t]
            }
        },
        None => seq![c],
    }
}

/// The general rules applied to every code point of `s`.
pub open spec fn general_pass(s: Seq<char>) -> Seq<char>
    decreases s.len(),
{
    if s.len() == 0 {
        Seq::empty()
    } else {
        general_pass(s.drop_last()) + general_char(s.last())
    }
}

/// The tag string of a cleaned token: the final rule on its last code point
/// when one applies, the general rules on every other code point.
pub open spec fn reduce(t: Seq<char>) -> Seq<char> {
    if t.len() > 0 && final_rule_of(t.last()) is Some {
        general_pass(t.drop_last()).push(final_rule_of(t.last())->0)
    } else {
        general_pass(t)
    }
}

/// What the renderer makes of `c`: the letter of the class that `c` tags,
/// or `c` itself.
pub open spec fn render_char(c: char) -> char {
    match tag_class(c) {
        Some(k) => abjad_letter(k),
        None => c,
    }
}

/// A tag string rendered in Arabic letters.
pub open spec fn render(s: Seq<char>) -> Seq<char> {
    s.map_values(|c: char| render_char(c))
}

/// Applies the general rules to `tok[0..n]`, appending the result to `out`.
fn general_pass_into(inv: &Arachars, m: &Mappings, tok: &Vec<char>, n: usize, out: &mut Vec<char>)
    requires
        inv.wf(),
        m.wf(),
        n <= tok.len(),
    ensures
        final(out)@ == old(out)@ + general_pass(tok@.subrange(0, n as int)),
{
    let ghost start = old(out)@;
    let mut i: usize = 0;
    while i < n
        invariant
            inv.wf(),
            m.wf(),
            0 <= i <= n <= tok.len(),
            out@ == start + general_pass(tok@.subrange(0, i as int)),
        decreases n - i,
    {
        let c = tok[i];
        proof {
            let next = tok@.subrange(0, i + 1);
            assert(next.drop_last() =~= tok@.subrange(0, i as int));
            assert(next.last() == c);
        }
        let ghost before = out@;
        match inv.classify(c) {
            Some(k) => {
                let (t, sep) = m.general_rule(k);
                out.push(t);
                if sep {
                    out.push(' ');
                }
            },
            None => {
                out.push(c);
            },
        }
        assert(out@ =~= before + general_char(c));
        i += 1;
    }
}

/// The tag string of a cleaned token.
pub fn reduce_token(inv: &Arachars, m: &Mappings, tok: &Vec<char>) -> (r: Vec<char>)
    requires
        inv.wf(),
        m.wf(),
    ensures
        r@ == reduce(tok@),
{
    let mut out: Vec<char> = Vec::new();
    let n = tok.len();
    if n > 0 {
        let last = tok[n - 1];
        let fin = match inv.classify(last) {
            Some(k) => m.final_tag(k),
            None => None,
        };
        if let Some(t) = fin {
            general_pass_into(inv, m, tok, n - 1, &mut out);
            out.push(t);
            assert(tok@.subrange(0, n - 1) =~= tok@.drop_last());
            assert(out@ =~= reduce(tok@));
            return out;
        }
    }
    general_pass_into(inv, m, tok, n, &mut out);
    assert(tok@.subrange(0, n as int) =~= tok@);
    assert(out@ =~= reduce(tok@));
    out
}

/// Renders a tag string in Arabic letters; code points that are no tag are
/// kept as they are.
pub fn render_tags(m: &Mappings, tags: &Vec<char>) -> (r: Vec<char>)
    requires
        m.wf(),
    ensures
        r@ == render(tags@),
{
    let mut out: Vec<char> = Vec::new();
    let mut i: usize = 0;
    while i < tags.len()
        invariant
            m.wf(),
            0 <= i <= tags.len(),
            out@ =~= render(tags@.subrange(0, i as int)),
        decreases tags.len() - i,
    {
        let c = tags[i];
        let r = match class_of_tag(c) {
            Some(k) => m.abjad_letter(k),
            None => c,
        };
        out.push(r);
        assert(out@ =~= render(tags@.subrange(0, i + 1)));
        i += 1;
    }
    assert(tags@.subrange(0, tags.len() as int) =~= tags@);
    out
}


/// Every general rule yields a class tag.
proof fn lemma_general_rule_tag(k: CharClass)
    ensures
        tag_class(general_rule(k).0) is Some,
        final_tag(k) is Some ==> tag_class(final_tag(k)->0) is Some,
{
}

/// The general rules turn letters of the inventory into class tags and
/// separators only.
proof fn lemma_general_pass_alphabet(s: Seq<char>)
    requires
        forall|i: int| 0 <= i < s.len() ==> class_of(#[trigger] s[i]) is Some,
    ensures
        forall|i: int|
            0 <= i < general_pass(s).len() ==> tag_class(#[trigger] general_pass(s)[i]) is Some
                || general_pass(s)[i] == ' ',
    decreases s.len(),
{
    if s.len() > 0 {
        let f = s.drop_last();
        assert forall|i: int| 0 <= i < f.len() implies class_of(#[trigger] f[i]) is Some by {
            assert(f[i] == s[i]);
        }
        lemma_general_pass_alphabet(f);
        assert(class_of(s[s.len() - 1]) is Some);
        lemma_general_rule_tag(class_of(s.last())->0);
        let g = general_pass(s);
        let h = general_pass(f);
        assert forall|i: int| 0 <= i < g.len() implies tag_class(#[trigger] g[i]) is Some || g[i] == ' ' by {
            if i < h.len() {
                assert(g[i] == h[i]);
            } else {
                assert(g[i] == general_char(s.last())[i - h.len()]);
            }
        }
    }
}

/// The tag string of a token made of letters of the inventory holds only
/// class tags and separators.
pub proof fn lemma_reduce_alphabet(t: Seq<char>)
    requires
        forall|i: int| 0 <= i < t.len() ==> class_of(#[trigger] t[i]) is Some,
    ensures
        forall|i: int|
            0 <= i < reduce(t).len() ==> tag_class(#[trigger] reduce(t)[i]) is Some || reduce(t)[i] == ' ',
{
    if t.len() > 0 {
        let f = t.drop_last();
        assert forall|i: int| 0 <= i < f.len() implies class_of(#[trigger] f[i]) is Some by {
            assert(f[i] == t[i]);
        }
        lemma_general_pass_alphabet(f);
        assert(class_of(t[t.len() - 1]) is Some);
        lemma_general_rule_tag(class_of(t.last())->0);
        if final_rule_of(t.last()) is Some {
            let r = reduce(t);
            let h = general_pass(f);
            assert forall|i: int| 0 <= i < r.len() implies tag_class(#[trigger] r[i]) is Some || r[i] == ' ' by {
                if i < h.len() {
                    assert(r[i] == h[i]);
                }
            }
        } else {
            lemma_general_pass_alphabet(t);
        }
    } else {
        lemma_general_pass_alphabet(t);
    }
}

/// A token whose last letter belongs to class Q, N or Y keeps that class's
/// own tag at the end of its tag string, never the shared tag `B`.
pub proof fn lemma_final_precedence(t: Seq<char>)
    requires
        t.len() > 0,
        class_of(t.last()) == Some(CharClass::Q) || class_of(t.last()) == Some(CharClass::N)
            || class_of(t.last()) == Some(CharClass::Y),
    ensures
        reduce(t).len() > 0,
        reduce(t).last() == class_of(t.last())->0.spec_tag(),
        reduce(t).last() != 'B',
{
}

/// Rendering turns whitespace into whitespace and nothing else into it.
proof fn lemma_render_char_white(c: char)
    ensures
        is_white(render_char(c)) == is_white(c),
{
}

/// Two sequences that have whitespace at the same positions are split alike.
proof fn lemma_split_lengths(a: Seq<char>, b: Seq<char>)
    requires
        a.len() == b.len(),
        forall|i: int| 0 <= i < a.len() ==> is_white(#[trigger] a[i]) == is_white(b[i]),
    ensures
        split_state(a).0.len() == split_state(b).0.len(),
        split_state(a).1.len() == split_state(b).1.len(),
    decreases a.len(),
{
    if a.len() > 0 {
        assert(is_white(a[a.len() - 1]) == is_white(b[b.len() - 1]));
        lemma_split_lengths(a.drop_last(), b.drop_last());
    }
}

/// A tag string and its rendering split into the same number of
/// whitespace-delimited blocks.
pub proof fn lemma_blocks_align(s: Seq<char>)
    ensures
        words(render(s)).len() == words(s).len(),
{
    let r = render(s);
    assert forall|i: int| 0 <= i < s.len() implies is_white(#[trigger] s[i]) == is_white(r[i]) by {
        lemma_render_char_white(s[i]);
    }
    lemma_split_lengths(s, r);
}

} // verus!
