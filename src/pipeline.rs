//! The whole conversion of one line of text: ligatures are expanded, the
//! line is split into tokens, and each token is cleaned, reduced and
//! rendered.

use vstd::prelude::*;
use crate::inventory::Arachars;
use crate::ligature::{expand, expand_ligatures};
use crate::reduce::{Mappings, lemma_blocks_align, reduce, reduce_token, render, render_tags};
use crate::segment::{segment, strip, strip_diacritics, tokens, words};

verus! {

/// What the conversion yields for one token.
pub struct TokenReport {
    /// The token without its diacritics.
    pub cleaned: Vec<char>,
    /// The tag string of the cleaned token.
    pub tags: Vec<char>,
    /// The tag string rendered in Arabic letters.
    pub arabic: Vec<char>,
}

impl View for TokenReport {
    type V = (Seq<char>, Seq<char>, Seq<char>);

    open spec fn view(&self) -> (Seq<char>, Seq<char>, Seq<char>) {
        (self.cleaned@, self.tags@, self.arabic@)
    }
}

/// The three strings that the conversion yields for a token.
pub open spec fn token_report(t: Seq<char>) -> (Seq<char>, Seq<char>, Seq<char>) {
    let c = strip(t);
    (c, reduce(c), render(reduce(c)))
}

/// The reports for every token of a line, in order.
pub open spec fn line_reports(line: Seq<char>) -> Seq<(Seq<char>, Seq<char>, Seq<char>)> {
    tokens(expand(line)).map_values(|t: Seq<char>| token_report(t))
}

/// Cleans, reduces and renders one token.
pub fn process_token(inv: &Arachars, m: &Mappings, tok: &Vec<char>) -> (r: TokenReport)
    requires
        inv.wf(),
        m.wf(),
    ensures
        r@ == token_report(tok@),
{
    let cleaned = strip_diacritics(inv, tok);
    let tags = reduce_token(inv, m, &cleaned);
    let arabic = render_tags(m, &tags);
    TokenReport { cleaned, tags, arabic }
}

/// Converts one line of text: one report per token, in order. A token made
/// of diacritics alone gives three empty strings.
pub fn process_line(inv: &Arachars, m: &Mappings, line: &Vec<char>) -> (r: Vec<TokenReport>)
    requires
        inv.wf(),
        m.wf(),
    ensures
        r@.len() == line_reports(line@).len(),
        forall|i: int| 0 <= i < r@.len() ==> #[trigger] r@[i]@ == line_reports(line@)[i],
{
    let expanded = expand_ligatures(line);
    let toks = segment(inv, &expanded);
    let ghost spec_toks = tokens(expand(line@));
    assert(toks.deep_view() == spec_toks);
    let mut out: Vec<TokenReport> = Vec::new();
    let mut i: usize = 0;
    while i < toks.len()
        invariant
            inv.wf(),
            m.wf(),
            0 <= i <= toks.len(),
            toks.deep_view() == spec_toks,
            out@.len() == i,
            forall|j: int| 0 <= j < i ==> #[trigger] out@[j]@ == token_report(spec_toks[j]),
        decreases toks.len() - i,
    {
        assert(toks.deep_view()[i as int] == toks@[i as int]@);
        let rep = process_token(inv, m, &toks[i]);
        out.push(rep);
        i += 1;
    }
    out
}

/// The tag string and the Arabic rendering reported for a token split into
/// the same number of letterblocks.
pub proof fn lemma_report_blocks_align(t: Seq<char>)
    ensures
        words(token_report(t).2).len() == words(token_report(t).1).len(),
{
    lemma_blocks_align(reduce(strip(t)));
}

} // verus!
