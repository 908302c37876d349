use rasm::index::LetterblockIndex;
use rasm::inventory::{load_arabic_inventory, CharClass};
use rasm::ligature::{expand_ligatures, ligature};
use rasm::pipeline::{process_line, process_token, TokenReport};
use rasm::reduce::{load_rasm_mappings, reduce_token, render_tags};
use rasm::segment::{segment, split_words, strip_diacritics};

fn chars(s: &str) -> Vec<char> {
    s.chars().collect()
}

fn text(v: &[char]) -> String {
    v.iter().collect()
}

fn report(tok: &str) -> (String, String, String) {
    let inv = load_arabic_inventory();
    let m = load_rasm_mappings();
    let r: TokenReport = process_token(&inv, &m, &chars(tok));
    (text(&r.cleaned), text(&r.tags), text(&r.arabic))
}

fn tokens_of(line: &str) -> Vec<String> {
    let inv = load_arabic_inventory();
    segment(&inv, &expand_ligatures(&chars(line))).iter().map(|t| text(t)).collect()
}

#[test]
fn divine_name_reduces_to_a_llh() {
    let (c, t, a) = report("الله");
    assert_eq!(c, "الله");
    assert_eq!(t, "A LLH");
    assert_eq!(a, "ا لله");
}

#[test]
fn allah_glyph_expands_before_processing() {
    assert_eq!(text(&expand_ligatures(&chars("ﷲ"))), "الله");
    let inv = load_arabic_inventory();
    let m = load_rasm_mappings();
    let reps = process_line(&inv, &m, &chars("ﷲ"));
    assert_eq!(reps.len(), 1);
    assert_eq!(text(&reps[0].cleaned), "الله");
    assert_eq!(text(&reps[0].tags), "A LLH");
    assert_eq!(text(&reps[0].arabic), "ا لله");
}

#[test]
fn final_yeh_keeps_tag_y() {
    assert_eq!(report("علي").1, "ELY");
    assert_eq!(report("علی").1, "ELY");
    assert_eq!(report("فتى").1, "FBY");
    assert_eq!(report("عﻰ").1, "EY");
    // not final: the shared tag B
    assert_eq!(report("بيت").1, "BBB");
}

#[test]
fn final_noon_and_qaf_keep_their_tags() {
    assert_eq!(report("من").1, "MN");
    assert_eq!(report("نم").1, "BM");
    assert_eq!(report("حق").1, "GQ");
    assert_eq!(report("حق").2, "حٯ");
}

#[test]
fn digit_splits_a_token() {
    assert_eq!(tokens_of("بسم1الله"), vec!["بسم".to_string(), "الله".to_string()]);
}

#[test]
fn latin_letter_splits_a_token() {
    assert_eq!(tokens_of("ٱلaaرَّحِيمِ"), vec!["ٱل".to_string(), "رَّحِيمِ".to_string()]);
}

#[test]
fn uniq_collapses_equal_letterblocks() {
    let inv = load_arabic_inventory();
    let m = load_rasm_mappings();
    let mut idx = LetterblockIndex::new();
    for tok in ["بيت", "نبت"] {
        let r = process_token(&inv, &m, &chars(tok));
        assert_eq!(text(&r.tags), "BBB");
        idx.add_token(&r.tags, &r.arabic);
    }
    let e = idx.entries();
    assert_eq!(e.len(), 1);
    assert_eq!(text(&e[0].0), "BBB");
    assert_eq!(text(&e[0].1), "ٮٮٮ");
}

#[test]
fn uniq_keeps_distinct_letterblocks() {
    let inv = load_arabic_inventory();
    let m = load_rasm_mappings();
    let mut idx = LetterblockIndex::new();
    let r = process_token(&inv, &m, &chars("الرحمن"));
    assert_eq!(text(&r.tags), "A LR GMN");
    idx.add_token(&r.tags, &r.arabic);
    let r = process_token(&inv, &m, &chars("الله"));
    idx.add_token(&r.tags, &r.arabic);
    let mut keys: Vec<String> = idx.entries().iter().map(|p| text(&p.0)).collect();
    keys.sort();
    assert_eq!(keys, vec!["A", "GMN", "LLH", "LR"]);
    assert_eq!(idx.get(&chars("LR")).map(|v| text(&v)), Some("لر".to_string()));
    assert_eq!(idx.get(&chars("X")), None);
}

#[test]
fn index_last_write_wins() {
    let mut idx = LetterblockIndex::new();
    idx.insert(chars("BB"), chars("x"));
    idx.insert(chars("BB"), chars("y"));
    assert_eq!(idx.entries().len(), 1);
    assert_eq!(idx.get(&chars("BB")).map(|v| text(&v)), Some("y".to_string()));
}

#[test]
fn classes_are_disjoint_on_samples() {
    let inv = load_arabic_inventory();
    assert_eq!(inv.classify('ا'), Some(CharClass::A));
    assert_eq!(inv.classify('ق'), Some(CharClass::Q));
    assert_eq!(inv.classify('ﻗ'), Some(CharClass::F));
    assert_eq!(inv.classify('ی'), Some(CharClass::Y));
    assert_eq!(inv.classify('ٮ'), Some(CharClass::B));
    assert_eq!(inv.classify('x'), None);
    assert!(!inv.is_diacritic('ا'));
    assert!(inv.is_diacritic('\u{064E}'));
    assert!(inv.is_diacritic('\u{0640}'));
    assert!(inv.is_diacritic('\u{200D}'));
    assert!(inv.is_diacritic('\u{06E6}'));
    assert_eq!(inv.classify('\u{06E6}'), None);
    assert_eq!(inv.classify('\u{064E}'), None);
    assert_eq!(report("ب\u{06E6}ت").1, "BB");
}

#[test]
fn stripping_is_idempotent() {
    let inv = load_arabic_inventory();
    let t = chars("بِسۡمِ");
    let once = strip_diacritics(&inv, &t);
    assert_eq!(text(&once), "بسم");
    assert_eq!(strip_diacritics(&inv, &once), once);
}

#[test]
fn diacritics_are_removed_before_reduction() {
    assert_eq!(report("بِسۡمِ"), ("بسم".to_string(), "BSM".to_string(), "ٮسم".to_string()));
    assert_eq!(report("ـــكتاب").1, "KBA B");
}

#[test]
fn diacritics_only_token_gives_empty_strings() {
    let inv = load_arabic_inventory();
    let m = load_rasm_mappings();
    let reps = process_line(&inv, &m, &chars("\u{064E}\u{0650} ب"));
    assert_eq!(reps.len(), 2);
    assert_eq!(text(&reps[0].cleaned), "");
    assert_eq!(text(&reps[0].tags), "");
    assert_eq!(text(&reps[0].arabic), "");
    assert_eq!(text(&reps[1].tags), "B");
}

#[test]
fn non_joining_letters_end_letterblocks() {
    assert_eq!(report("ورد").1, "W R D ");
    assert_eq!(report("ورد").2, "و ر د ");
    assert_eq!(report("طول").1, "TW L");
    assert_eq!(report("طول").2, "طو ل");
}

#[test]
fn non_final_qaf_and_feh_become_dotless_feh() {
    assert_eq!(report("قلب").1, "FLB");
    assert_eq!(report("قلب").2, "ڡلٮ");
    assert_eq!(report("فقه").1, "FFH");
    assert_eq!(report("ﻗﻔ").1, "FF");
}

#[test]
fn jeem_meem_hah_ligature_expands() {
    assert_eq!(text(&expand_ligatures(&chars("\u{FD58}"))), "جمح");
    assert_eq!(tokens_of("ب\u{FD58}ب"), vec!["بجمحب".to_string()]);
}

#[test]
fn blocks_of_tags_and_rendering_align() {
    let inv = load_arabic_inventory();
    let m = load_rasm_mappings();
    for tok in ["الرحمن", "الله", "ورد", "بسم", "ﻻ", "وسلم"] {
        let toks = segment(&inv, &expand_ligatures(&chars(tok)));
        for t in toks {
            let c = strip_diacritics(&inv, &t);
            let tags = reduce_token(&inv, &m, &c);
            let ara = render_tags(&m, &tags);
            assert_eq!(split_words(&tags).len(), split_words(&ara).len());
        }
    }
}

#[test]
fn every_ligature_expands_alone() {
    assert_eq!(text(&expand_ligatures(&chars("ﻻ"))), "لا");
    assert_eq!(text(&expand_ligatures(&chars("ﷺ"))), "صلى الله عليه وسلم");
    assert_eq!(text(&expand_ligatures(&chars("﷽"))), "بسم الله الرحمن الرحيم");
    assert_eq!(text(&expand_ligatures(&chars("ﯪ"))), "ئا");
    for cp in 0xFB50u32..=0xFEFF {
        if let Some(c) = char::from_u32(cp) {
            if let Some(e) = ligature(c) {
                assert_eq!(expand_ligatures(&vec![c]), e);
            }
        }
    }
}

#[test]
fn other_code_points_pass_through_expansion() {
    assert_eq!(text(&expand_ligatures(&chars("ab بت"))), "ab بت");
    assert_eq!(text(&expand_ligatures(&chars(""))), "");
    assert_eq!(text(&expand_ligatures(&chars("xﻻy"))), "xلاy");
}

#[test]
fn whitespace_of_all_kinds_separates_tokens() {
    assert_eq!(tokens_of("  بت\tمن\u{00A0}لا  "), vec!["بت".to_string(), "من".to_string(), "لا".to_string()]);
    assert!(tokens_of("").is_empty());
    assert!(tokens_of("123 abc").is_empty());
}

#[test]
fn a_whole_line() {
    let inv = load_arabic_inventory();
    let m = load_rasm_mappings();
    let reps = process_line(&inv, &m, &chars("بِسۡمِ ﷲ ٱلرَّحۡمَٰنِ"));
    let tags: Vec<String> = reps.iter().map(|r| text(&r.tags)).collect();
    assert_eq!(tags, vec!["BSM", "A LLH", "A LR GMN"]);
}

#[test]
fn tag_strings_hold_only_tags_and_separators() {
    let inv = load_arabic_inventory();
    let m = load_rasm_mappings();
    let line = "بِسۡمِ ﷲ ٱلرَّحۡمَٰنِ قلب فقه ﷺ طول ﻻ ورد ﶲ";
    for r in process_line(&inv, &m, &chars(line)) {
        for c in r.tags.iter() {
            assert!("QNYABGRDTCSFEWHMLK ".contains(*c), "unexpected {:?}", c);
        }
    }
}
