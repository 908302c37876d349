//! Expansion of precomposed ligatures and compatibility glyphs into the
//! base letters that they stand for.

use vstd::prelude::*;

verus! {

/// The expansion of a ligature or compatibility glyph, or `None` when `c`
/// is no key of the ligature table.
pub open spec fn ligature_of(c: char) -> Option<Seq<char>> {
    match c {
        '\u{FBEA}' => Some(seq!['\u{0626}', '\u{0627}']),
        '\u{FBEB}' => Some(seq!['\u{0626}', '\u{0627}']),
        '\u{FBEC}' => Some(seq!['\u{0626}', '\u{06D5}']),
        '\u{FBED}' => Some(seq!['\u{0626}', '\u{06D5}']),
        '\u{FBEE}' => Some(seq!['\u{0626}', '\u{0648}']),
        '\u{FBEF}' => Some(seq!['\u{0626}', '\u{0648}']),
        '\u{FBF0}' => Some(seq!['\u{0626}', '\u{06C7}']),
        '\u{FBF1}' => Some(seq!['\u{0626}', '\u{06C7}']),
        '\u{FBF2}' => Some(seq!['\u{0626}', '\u{06C6}']),
        '\u{FBF3}' => Some(seq!['\u{0626}', '\u{06C6}']),
        '\u{FBF4}' => Some(seq!['\u{0626}', '\u{06C8}']),
        '\u{FBF5}' => Some(seq!['\u{0626}', '\u{06C8}']),
        '\u{FBF6}' => Some(seq!['\u{0626}', '\u{06D0}']),
        '\u{FBF7}' => Some(seq!['\u{0626}', '\u{06D0}']),
        '\u{FBF8}' => Some(seq!['\u{0626}', '\u{06D0}']),
        '\u{FBF9}' => Some(seq!['\u{0626}', '\u{0649}']),
        '\u{FBFA}' => Some(seq!['\u{0626}', '\u{0649}']),
        '\u{FBFB}' => Some(seq!['\u{0626}', '\u{0649}']),
        '\u{FC03}' => Some(seq!['\u{0626}', '\u{0649}']),
        '\u{FC68}' => Some(seq!['\u{0626}', '\u{0649}']),
        '\u{FC00}' => Some(seq!['\u{0626}', '\u{062C}']),
        '\u{FC97}' => Some(seq!['\u{0626}', '\u{062C}']),
        '\u{FC01}' => Some(seq!['\u{0626}', '\u{062D}']),
        '\u{FC98}' => Some(seq!['\u{0626}', '\u{062D}']),
        '\u{FC02}' => Some(seq!['\u{0626}', '\u{0645}']),
        '\u{FC66}' => Some(seq!['\u{0626}', '\u{0645}']),
        '\u{FC9A}' => Some(seq!['\u{0626}', '\u{0645}']),
        '\u{FCDF}' => Some(seq!['\u{0626}', '\u{0645}']),
        '\u{FC04}' => Some(seq!['\u{0626}', '\u{064A}']),
        '\u{FC69}' => Some(seq!['\u{0626}', '\u{064A}']),
        '\u{FC05}' => Some(seq!['\u{0628}', '\u{062C}']),
        '\u{FC9C}' => Some(seq!['\u{0628}', '\u{062C}']),
        '\u{FC06}' => Some(seq!['\u{0628}', '\u{062D}']),
        '\u{FC9D}' => Some(seq!['\u{0628}', '\u{062D}']),
        '\u{FC07}' => Some(seq!['\u{0628}', '\u{062E}']),
        '\u{FC9E}' => Some(seq!['\u{0628}', '\u{062E}']),
        '\u{FC08}' => Some(seq!['\u{0628}', '\u{0645}']),
        '\u{FC6C}' => Some(seq!['\u{0628}', '\u{0645}']),
        '\u{FC9F}' => Some(seq!['\u{0628}', '\u{0645}']),
        '\u{FCE1}' => Some(seq!['\u{0628}', '\u{0645}']),
        '\u{FC09}' => Some(seq!['\u{0628}', '\u{0649}']),
        '\u{FC6E}' => Some(seq!['\u{0628}', '\u{0649}']),
        '\u{FC0A}' => Some(seq!['\u{0628}', '\u{064A}']),
        '\u{FC6F}' => Some(seq!['\u{0628}', '\u{064A}']),
        '\u{FC0B}' => Some(seq!['\u{062A}', '\u{062C}']),
        '\u{FCA1}' => Some(seq!['\u{062A}', '\u{062C}']),
        '\u{FC0C}' => Some(seq!['\u{062A}', '\u{062D}']),
        '\u{FCA2}' => Some(seq!['\u{062A}', '\u{062D}']),
        '\u{FC0D}' => Some(seq!['\u{062A}', '\u{062E}']),
        '\u{FCA3}' => Some(seq!['\u{062A}', '\u{062E}']),
        '\u{FC0E}' => Some(seq!['\u{062A}', '\u{0645}']),
        '\u{FC72}' => Some(seq!['\u{062A}', '\u{0645}']),
        '\u{FCA4}' => Some(seq!['\u{062A}', '\u{0645}']),
        '\u{FCE3}' => Some(seq!['\u{062A}', '\u{0645}']),
        '\u{FC0F}' => Some(seq!['\u{062A}', '\u{0649}']),
        '\u{FC74}' => Some(seq!['\u{062A}', '\u{0649}']),
        '\u{FC10}' => Some(seq!['\u{062A}', '\u{064A}']),
        '\u{FC75}' => Some(seq!['\u{062A}', '\u{064A}']),
        '\u{FC11}' => Some(seq!['\u{062B}', '\u{062C}']),
        '\u{FC12}' => Some(seq!['\u{062B}', '\u{0645}']),
        '\u{FC78}' => Some(seq!['\u{062B}', '\u{0645}']),
        '\u{FCA6}' => Some(seq!['\u{062B}', '\u{0645}']),
        '\u{FCE5}' => Some(seq!['\u{062B}', '\u{0645}']),
        '\u{FC13}' => Some(seq!['\u{062B}', '\u{0649}']),
        '\u{FC7A}' => Some(seq!['\u{062B}', '\u{0649}']),
        '\u{FC14}' => Some(seq!['\u{062B}', '\u{064A}']),
        '\u{FC7B}' => Some(seq!['\u{062B}', '\u{064A}']),
        '\u{FC15}' => Some(seq!['\u{062C}', '\u{062D}']),
        '\u{FCA7}' => Some(seq!['\u{062C}', '\u{062D}']),
        '\u{FC16}' => Some(seq!['\u{062C}', '\u{0645}']),
        '\u{FCA8}' => Some(seq!['\u{062C}', '\u{0645}']),
        '\u{FC17}' => Some(seq!['\u{062D}', '\u{062C}']),
        '\u{FCA9}' => Some(seq!['\u{062D}', '\u{062C}']),
        '\u{FC18}' => Some(seq!['\u{062D}', '\u{0645}']),
        '\u{FCAA}' => Some(seq!['\u{062D}', '\u{0645}']),
        '\u{FC19}' => Some(seq!['\u{062E}', '\u{062C}']),
        '\u{FCAB}' => Some(seq!['\u{062E}', '\u{062C}']),
        '\u{FC1A}' => Some(seq!['\u{062E}', '\u{062D}']),
        '\u{FC1B}' => Some(seq!['\u{062E}', '\u{0645}']),
        '\u{FCAC}' => Some(seq!['\u{062E}', '\u{0645}']),
        '\u{FC1C}' => Some(seq!['\u{0633}', '\u{062C}']),
        '\u{FCAD}' => Some(seq!['\u{0633}', '\u{062C}']),
        '\u{FD34}' => Some(seq!['\u{0633}', '\u{062C}']),
        '\u{FC1D}' => Some(seq!['\u{0633}', '\u{062D}']),
        '\u{FCAE}' => Some(seq!['\u{0633}', '\u{062D}']),
        '\u{FD35}' => Some(seq!['\u{0633}', '\u{062D}']),
        '\u{FC1E}' => Some(seq!['\u{0633}', '\u{062E}']),
        '\u{FCAF}' => Some(seq!['\u{0633}', '\u{062E}']),
        '\u{FD36}' => Some(seq!['\u{0633}', '\u{062E}']),
        '\u{FC1F}' => Some(seq!['\u{0633}', '\u{0645}']),
        '\u{FCB0}' => Some(seq!['\u{0633}', '\u{0645}']),
        '\u{FCE7}' => Some(seq!['\u{0633}', '\u{0645}']),
        '\u{FC20}' => Some(seq!['\u{0635}', '\u{062D}']),
        '\u{FCB1}' => Some(seq!['\u{0635}', '\u{062D}']),
        '\u{FC21}' => Some(seq!['\u{0635}', '\u{0645}']),
        '\u{FCB3}' => Some(seq!['\u{0635}', '\u{0645}']),
        '\u{FC22}' => Some(seq!['\u{0636}', '\u{062C}']),
        '\u{FCB4}' => Some(seq!['\u{0636}', '\u{062C}']),
        '\u{FC23}' => Some(seq!['\u{0636}', '\u{062D}']),
        '\u{FCB5}' => Some(seq!['\u{0636}', '\u{062D}']),
        '\u{FC24}' => Some(seq!['\u{0636}', '\u{062E}']),
        '\u{FCB6}' => Some(seq!['\u{0636}', '\u{062E}']),
        '\u{FC25}' => Some(seq!['\u{0636}', '\u{0645}']),
        '\u{FCB7}' => Some(seq!['\u{0636}', '\u{0645}']),
        '\u{FC26}' => Some(seq!['\u{0637}', '\u{062D}']),
        '\u{FCB8}' => Some(seq!['\u{0637}', '\u{062D}']),
        '\u{FC27}' => Some(seq!['\u{0637}', '\u{0645}']),
        '\u{FD33}' => Some(seq!['\u{0637}', '\u{0645}']),
        '\u{FD3A}' => Some(seq!['\u{0637}', '\u{0645}']),
        '\u{FC28}' => Some(seq!['\u{0638}', '\u{0645}']),
        '\u{FCB9}' => Some(seq!['\u{0638}', '\u{0645}']),
        '\u{FD3B}' => Some(seq!['\u{0638}', '\u{0645}']),
        '\u{FC29}' => Some(seq!['\u{0639}', '\u{062C}']),
        '\u{FCBA}' => Some(seq!['\u{0639}', '\u{062C}']),
        '\u{FC2A}' => Some(seq!['\u{0639}', '\u{0645}']),
        '\u{FCBB}' => Some(seq!['\u{0639}', '\u{0645}']),
        '\u{FC2B}' => Some(seq!['\u{063A}', '\u{062C}']),
        '\u{FCBC}' => Some(seq!['\u{063A}', '\u{062C}']),
        '\u{FC2C}' => Some(seq!['\u{063A}', '\u{0645}']),
        '\u{FCBD}' => Some(seq!['\u{063A}', '\u{0645}']),
        '\u{FC2D}' => Some(seq!['\u{0641}', '\u{062C}']),
        '\u{FCBE}' => Some(seq!['\u{0641}', '\u{062C}']),
        '\u{FC2E}' => Some(seq!['\u{0641}', '\u{062D}']),
        '\u{FCBF}' => Some(seq!['\u{0641}', '\u{062D}']),
        '\u{FC2F}' => Some(seq!['\u{0641}', '\u{062E}']),
        '\u{FCC0}' => Some(seq!['\u{0641}', '\u{062E}']),
        '\u{FC30}' => Some(seq!['\u{0641}', '\u{0645}']),
        '\u{FCC1}' => Some(seq!['\u{0641}', '\u{0645}']),
        '\u{FC31}' => Some(seq!['\u{0641}', '\u{0649}']),
        '\u{FC7C}' => Some(seq!['\u{0641}', '\u{0649}']),
        '\u{FC32}' => Some(seq!['\u{0641}', '\u{064A}']),
        '\u{FC7D}' => Some(seq!['\u{0641}', '\u{064A}']),
        '\u{FC33}' => Some(seq!['\u{0642}', '\u{062D}']),
        '\u{FCC2}' => Some(seq!['\u{0642}', '\u{062D}']),
        '\u{FC34}' => Some(seq!['\u{0642}', '\u{0645}']),
        '\u{FCC3}' => Some(seq!['\u{0642}', '\u{0645}']),
        '\u{FC35}' => Some(seq!['\u{0642}', '\u{0649}']),
        '\u{FC7E}' => Some(seq!['\u{0642}', '\u{0649}']),
        '\u{FC36}' => Some(seq!['\u{0642}', '\u{064A}']),
        '\u{FC7F}' => Some(seq!['\u{0642}', '\u{064A}']),
        '\u{FC37}' => Some(seq!['\u{0643}', '\u{0627}']),
        '\u{FC80}' => Some(seq!['\u{0643}', '\u{0627}']),
        '\u{FC38}' => Some(seq!['\u{0643}', '\u{062C}']),
        '\u{FCC4}' => Some(seq!['\u{0643}', '\u{062C}']),
        '\u{FC39}' => Some(seq!['\u{0643}', '\u{062D}']),
        '\u{FCC5}' => Some(seq!['\u{0643}', '\u{062D}']),
        '\u{FC3A}' => Some(seq!['\u{0643}', '\u{062E}']),
        '\u{FCC6}' => Some(seq!['\u{0643}', '\u{062E}']),
        '\u{FC3B}' => Some(seq!['\u{0643}', '\u{0644}']),
        '\u{FC81}' => Some(seq!['\u{0643}', '\u{0644}']),
        '\u{FCC7}' => Some(seq!['\u{0643}', '\u{0644}']),
        '\u{FCEB}' => Some(seq!['\u{0643}', '\u{0644}']),
        '\u{FC3C}' => Some(seq!['\u{0643}', '\u{0645}']),
        '\u{FC82}' => Some(seq!['\u{0643}', '\u{0645}']),
        '\u{FCC8}' => Some(seq!['\u{0643}', '\u{0645}']),
        '\u{FCEC}' => Some(seq!['\u{0643}', '\u{0645}']),
        '\u{FC3D}' => Some(seq!['\u{0643}', '\u{0649}']),
        '\u{FC83}' => Some(seq!['\u{0643}', '\u{0649}']),
        '\u{FC3E}' => Some(seq!['\u{0643}', '\u{064A}']),
        '\u{FC84}' => Some(seq!['\u{0643}', '\u{064A}']),
        '\u{FC3F}' => Some(seq!['\u{0644}', '\u{062C}']),
        '\u{FCC9}' => Some(seq!['\u{0644}', '\u{062C}']),
        '\u{FC40}' => Some(seq!['\u{0644}', '\u{062D}']),
        '\u{FCCA}' => Some(seq!['\u{0644}', '\u{062D}']),
        '\u{FC41}' => Some(seq!['\u{0644}', '\u{062E}']),
        '\u{FCCB}' => Some(seq!['\u{0644}', '\u{062E}']),
        '\u{FC42}' => Some(seq!['\u{0644}', '\u{0645}']),
        '\u{FC85}' => Some(seq!['\u{0644}', '\u{0645}']),
        '\u{FCCC}' => Some(seq!['\u{0644}', '\u{0645}']),
        '\u{FCED}' => Some(seq!['\u{0644}', '\u{0645}']),
        '\u{FC43}' => Some(seq!['\u{0644}', '\u{0649}']),
        '\u{FC86}' => Some(seq!['\u{0644}', '\u{0649}']),
        '\u{FC44}' => Some(seq!['\u{0644}', '\u{064A}']),
        '\u{FC87}' => Some(seq!['\u{0644}', '\u{064A}']),
        '\u{FC45}' => Some(seq!['\u{0645}', '\u{062C}']),
        '\u{FCCE}' => Some(seq!['\u{0645}', '\u{062C}']),
        '\u{FC46}' => Some(seq!['\u{0645}', '\u{062D}']),
        '\u{FCCF}' => Some(seq!['\u{0645}', '\u{062D}']),
        '\u{FC47}' => Some(seq!['\u{0645}', '\u{062E}']),
        '\u{FCD0}' => Some(seq!['\u{0645}', '\u{062E}']),
        '\u{FC48}' => Some(seq!['\u{0645}', '\u{0645}']),
        '\u{FC89}' => Some(seq!['\u{0645}', '\u{0645}']),
        '\u{FCD1}' => Some(seq!['\u{0645}', '\u{0645}']),
        '\u{FC49}' => Some(seq!['\u{0645}', '\u{0649}']),
        '\u{FC4A}' => Some(seq!['\u{0645}', '\u{064A}']),
        '\u{FC4B}' => Some(seq!['\u{0646}', '\u{062C}']),
        '\u{FCD2}' => Some(seq!['\u{0646}', '\u{062C}']),
        '\u{FC4C}' => Some(seq!['\u{0646}', '\u{062D}']),
        '\u{FCD3}' => Some(seq!['\u{0646}', '\u{062D}']),
        '\u{FC4D}' => Some(seq!['\u{0646}', '\u{062E}']),
        '\u{FCD4}' => Some(seq!['\u{0646}', '\u{062E}']),
        '\u{FC4E}' => Some(seq!['\u{0646}', '\u{0645}']),
        '\u{FC8C}' => Some(seq!['\u{0646}', '\u{0645}']),
        '\u{FCD5}' => Some(seq!['\u{0646}', '\u{0645}']),
        '\u{FCEE}' => Some(seq!['\u{0646}', '\u{0645}']),
        '\u{FC4F}' => Some(seq!['\u{0646}', '\u{0649}']),
        '\u{FC8E}' => Some(seq!['\u{0646}', '\u{0649}']),
        '\u{FC50}' => Some(seq!['\u{0646}', '\u{064A}']),
        '\u{FC8F}' => Some(seq!['\u{0646}', '\u{064A}']),
        '\u{FC51}' => Some(seq!['\u{0647}', '\u{062C}']),
        '\u{FCD7}' => Some(seq!['\u{0647}', '\u{062C}']),
        '\u{FC52}' => Some(seq!['\u{0647}', '\u{0645}']),
        '\u{FCD8}' => Some(seq!['\u{0647}', '\u{0645}']),
        '\u{FC53}' => Some(seq!['\u{0647}', '\u{0649}']),
        '\u{FC54}' => Some(seq!['\u{0647}', '\u{064A}']),
        '\u{FC55}' => Some(seq!['\u{064A}', '\u{062C}']),
        '\u{FCDA}' => Some(seq!['\u{064A}', '\u{062C}']),
        '\u{FC56}' => Some(seq!['\u{064A}', '\u{062D}']),
        '\u{FCDB}' => Some(seq!['\u{064A}', '\u{062D}']),
        '\u{FC57}' => Some(seq!['\u{064A}', '\u{062E}']),
        '\u{FCDC}' => Some(seq!['\u{064A}', '\u{062E}']),
        '\u{FC58}' => Some(seq!['\u{064A}', '\u{0645}']),
        '\u{FC93}' => Some(seq!['\u{064A}', '\u{0645}']),
        '\u{FCDD}' => Some(seq!['\u{064A}', '\u{0645}']),
        '\u{FCF0}' => Some(seq!['\u{064A}', '\u{0645}']),
        '\u{FC59}' => Some(seq!['\u{064A}', '\u{0649}']),
        '\u{FC95}' => Some(seq!['\u{064A}', '\u{0649}']),
        '\u{FC5A}' => Some(seq!['\u{064A}', '\u{064A}']),
        '\u{FC96}' => Some(seq!['\u{064A}', '\u{064A}']),
        '\u{FC5B}' => Some(seq!['\u{0630}']),
        '\u{FC5C}' => Some(seq!['\u{0631}']),
        '\u{FC5D}' => Some(seq!['\u{0649}']),
        '\u{FC90}' => Some(seq!['\u{0649}']),
        '\u{FC64}' => Some(seq!['\u{0626}', '\u{0631}']),
        '\u{FC65}' => Some(seq!['\u{0626}', '\u{0632}']),
        '\u{FC67}' => Some(seq!['\u{0626}', '\u{0646}']),
        '\u{FC6A}' => Some(seq!['\u{0628}', '\u{0631}']),
        '\u{FC6B}' => Some(seq!['\u{0628}', '\u{0632}']),
        '\u{FC6D}' => Some(seq!['\u{0628}', '\u{0646}']),
        '\u{FC70}' => Some(seq!['\u{062A}', '\u{0631}']),
        '\u{FC71}' => Some(seq!['\u{062A}', '\u{0632}']),
        '\u{FC73}' => Some(seq!['\u{062A}', '\u{0646}']),
        '\u{FC76}' => Some(seq!['\u{062B}', '\u{0631}']),
        '\u{FC77}' => Some(seq!['\u{062B}', '\u{0632}']),
        '\u{FC79}' => Some(seq!['\u{062B}', '\u{0646}']),
        '\u{FC88}' => Some(seq!['\u{0645}', '\u{0627}']),
        '\u{FC8A}' => Some(seq!['\u{0646}', '\u{0631}']),
        '\u{FC8B}' => Some(seq!['\u{0646}', '\u{0632}']),
        '\u{FC8D}' => Some(seq!['\u{0646}', '\u{0646}']),
        '\u{FC91}' => Some(seq!['\u{064A}', '\u{0631}']),
        '\u{FC92}' => Some(seq!['\u{064A}', '\u{0632}']),
        '\u{FC94}' => Some(seq!['\u{064A}', '\u{0646}']),
        '\u{FC99}' => Some(seq!['\u{0626}', '\u{062E}']),
        '\u{FC9B}' => Some(seq!['\u{0626}', '\u{0647}']),
        '\u{FCE0}' => Some(seq!['\u{0626}', '\u{0647}']),
        '\u{FCA0}' => Some(seq!['\u{0628}', '\u{0647}']),
        '\u{FCE2}' => Some(seq!['\u{0628}', '\u{0647}']),
        '\u{FCA5}' => Some(seq!['\u{062A}', '\u{0647}']),
        '\u{FCE4}' => Some(seq!['\u{062A}', '\u{0647}']),
        '\u{FCB2}' => Some(seq!['\u{0635}', '\u{062E}']),
        '\u{FCCD}' => Some(seq!['\u{0644}', '\u{0647}']),
        '\u{FCD6}' => Some(seq!['\u{0646}', '\u{0647}']),
        '\u{FCEF}' => Some(seq!['\u{0646}', '\u{0647}']),
        '\u{FCD9}' => Some(seq!['\u{0647}']),
        '\u{FCDE}' => Some(seq!['\u{064A}', '\u{0647}']),
        '\u{FCF1}' => Some(seq!['\u{064A}', '\u{0647}']),
        '\u{FCE6}' => Some(seq!['\u{062B}', '\u{0647}']),
        '\u{FCE8}' => Some(seq!['\u{0633}', '\u{0647}']),
        '\u{FD31}' => Some(seq!['\u{0633}', '\u{0647}']),
        '\u{FCE9}' => Some(seq!['\u{0634}', '\u{0645}']),
        '\u{FD0C}' => Some(seq!['\u{0634}', '\u{0645}']),
        '\u{FD28}' => Some(seq!['\u{0634}', '\u{0645}']),
        '\u{FD30}' => Some(seq!['\u{0634}', '\u{0645}']),
        '\u{FCEA}' => Some(seq!['\u{0634}', '\u{0647}']),
        '\u{FD32}' => Some(seq!['\u{0634}', '\u{0647}']),
        '\u{FCF5}' => Some(seq!['\u{0637}', '\u{0649}']),
        '\u{FD11}' => Some(seq!['\u{0637}', '\u{0649}']),
        '\u{FCF6}' => Some(seq!['\u{0637}', '\u{064A}']),
        '\u{FD12}' => Some(seq!['\u{0637}', '\u{064A}']),
        '\u{FCF7}' => Some(seq!['\u{0639}', '\u{0649}']),
        '\u{FD13}' => Some(seq!['\u{0639}', '\u{0649}']),
        '\u{FCF8}' => Some(seq!['\u{0639}', '\u{064A}']),
        '\u{FD14}' => Some(seq!['\u{0639}', '\u{064A}']),
        '\u{FCF9}' => Some(seq!['\u{063A}', '\u{0649}']),
        '\u{FD15}' => Some(seq!['\u{063A}', '\u{0649}']),
        '\u{FCFA}' => Some(seq!['\u{063A}', '\u{064A}']),
        '\u{FD16}' => Some(seq!['\u{063A}', '\u{064A}']),
        '\u{FCFB}' => Some(seq!['\u{0633}', '\u{0649}']),
        '\u{FD17}' => Some(seq!['\u{0633}', '\u{0649}']),
        '\u{FCFC}' => Some(seq!['\u{0633}', '\u{064A}']),
        '\u{FD18}' => Some(seq!['\u{0633}', '\u{064A}']),
        '\u{FCFD}' => Some(seq!['\u{0634}', '\u{0649}']),
        '\u{FD19}' => Some(seq!['\u{0634}', '\u{0649}']),
        '\u{FCFE}' => Some(seq!['\u{0634}', '\u{064A}']),
        '\u{FD1A}' => Some(seq!['\u{0634}', '\u{064A}']),
        '\u{FCFF}' => Some(seq!['\u{062D}', '\u{0649}']),
        '\u{FD1B}' => Some(seq!['\u{062D}', '\u{0649}']),
        '\u{FD00}' => Some(seq!['\u{062D}', '\u{064A}']),
        '\u{FD1C}' => Some(seq!['\u{062D}', '\u{064A}']),
        '\u{FD01}' => Some(seq!['\u{062C}', '\u{0649}']),
        '\u{FD1D}' => Some(seq!['\u{062C}', '\u{0649}']),
        '\u{FD02}' => Some(seq!['\u{062C}', '\u{064A}']),
        '\u{FD1E}' => Some(seq!['\u{062C}', '\u{064A}']),
        '\u{FD03}' => Some(seq!['\u{062E}', '\u{0649}']),
        '\u{FD1F}' => Some(seq!['\u{062E}', '\u{0649}']),
        '\u{FD04}' => Some(seq!['\u{062E}', '\u{064A}']),
        '\u{FD20}' => Some(seq!['\u{062E}', '\u{064A}']),
        '\u{FD05}' => Some(seq!['\u{0635}', '\u{0649}']),
        '\u{FD21}' => Some(seq!['\u{0635}', '\u{0649}']),
        '\u{FD06}' => Some(seq!['\u{0635}', '\u{064A}']),
        '\u{FD22}' => Some(seq!['\u{0635}', '\u{064A}']),
        '\u{FD07}' => Some(seq!['\u{0636}', '\u{0649}']),
        '\u{FD23}' => Some(seq!['\u{0636}', '\u{0649}']),
        '\u{FD08}' => Some(seq!['\u{0636}', '\u{064A}']),
        '\u{FD24}' => Some(seq!['\u{0636}', '\u{064A}']),
        '\u{FD09}' => Some(seq!['\u{0634}', '\u{062C}']),
        '\u{FD25}' => Some(seq!['\u{0634}', '\u{062C}']),
        '\u{FD2D}' => Some(seq!['\u{0634}', '\u{062C}']),
        '\u{FD37}' => Some(seq!['\u{0634}', '\u{062C}']),
        '\u{FD0A}' => Some(seq!['\u{0634}', '\u{062D}']),
        '\u{FD26}' => Some(seq!['\u{0634}', '\u{062D}']),
        '\u{FD2E}' => Some(seq!['\u{0634}', '\u{062D}']),
        '\u{FD38}' => Some(seq!['\u{0634}', '\u{062D}']),
        '\u{FD0B}' => Some(seq!['\u{0634}', '\u{062E}']),
        '\u{FD27}' => Some(seq!['\u{0634}', '\u{062E}']),
        '\u{FD2F}' => Some(seq!['\u{0634}', '\u{062E}']),
        '\u{FD39}' => Some(seq!['\u{0634}', '\u{062E}']),
        '\u{FD0D}' => Some(seq!['\u{0634}', '\u{0631}']),
        '\u{FD29}' => Some(seq!['\u{0634}', '\u{0631}']),
        '\u{FD0E}' => Some(seq!['\u{0633}', '\u{0631}']),
        '\u{FD2A}' => Some(seq!['\u{0633}', '\u{0631}']),
        '\u{FD0F}' => Some(seq!['\u{0635}', '\u{0631}']),
        '\u{FD2B}' => Some(seq!['\u{0635}', '\u{0631}']),
        '\u{FD10}' => Some(seq!['\u{0636}', '\u{0631}']),
        '\u{FD2C}' => Some(seq!['\u{0636}', '\u{0631}']),
        '\u{FD50}' => Some(seq!['\u{062A}', '\u{062C}', '\u{0645}']),
        '\u{FD51}' => Some(seq!['\u{062A}', '\u{062D}', '\u{062C}']),
        '\u{FD52}' => Some(seq!['\u{062A}', '\u{062D}', '\u{062C}']),
        '\u{FD53}' => Some(seq!['\u{062A}', '\u{062D}', '\u{0645}']),
        '\u{FD54}' => Some(seq!['\u{062A}', '\u{062E}', '\u{0645}']),
        '\u{FD55}' => Some(seq!['\u{062A}', '\u{0645}', '\u{062C}']),
        '\u{FD56}' => Some(seq!['\u{062A}', '\u{0645}', '\u{062D}']),
        '\u{FD57}' => Some(seq!['\u{062A}', '\u{0645}', '\u{062E}']),
        '\u{FD58}' => Some(seq!['\u{062C}', '\u{0645}', '\u{062D}']),
        '\u{FD59}' => Some(seq!['\u{062C}', '\u{0645}', '\u{062D}']),
        '\u{FD5A}' => Some(seq!['\u{062D}', '\u{0645}', '\u{064A}']),
        '\u{FD5B}' => Some(seq!['\u{062D}', '\u{0645}', '\u{0649}']),
        '\u{FD5C}' => Some(seq!['\u{0633}', '\u{062D}', '\u{062C}']),
        '\u{FD5D}' => Some(seq!['\u{0633}', '\u{062C}', '\u{062D}']),
        '\u{FD5E}' => Some(seq!['\u{0633}', '\u{062C}', '\u{0649}']),
        '\u{FD5F}' => Some(seq!['\u{0633}', '\u{0645}', '\u{062D}']),
        '\u{FD60}' => Some(seq!['\u{0633}', '\u{0645}', '\u{062D}']),
        '\u{FD61}' => Some(seq!['\u{0633}', '\u{0645}', '\u{062C}']),
        '\u{FD62}' => Some(seq!['\u{0633}', '\u{0645}', '\u{0645}']),
        '\u{FD63}' => Some(seq!['\u{0633}', '\u{0645}', '\u{0645}']),
        '\u{FD64}' => Some(seq!['\u{0635}', '\u{062D}', '\u{062D}']),
        '\u{FD65}' => Some(seq!['\u{0635}', '\u{062D}', '\u{062D}']),
        '\u{FD66}' => Some(seq!['\u{0635}', '\u{0645}', '\u{0645}']),
        '\u{FDC5}' => Some(seq!['\u{0635}', '\u{0645}', '\u{0645}']),
        '\u{FD67}' => Some(seq!['\u{0634}', '\u{062D}', '\u{0645}']),
        '\u{FD68}' => Some(seq!['\u{0634}', '\u{062D}', '\u{0645}']),
        '\u{FD69}' => Some(seq!['\u{0634}', '\u{062C}', '\u{064A}']),
        '\u{FD6A}' => Some(seq!['\u{0634}', '\u{0645}', '\u{062E}']),
        '\u{FD6B}' => Some(seq!['\u{0634}', '\u{0645}', '\u{062E}']),
        '\u{FD6C}' => Some(seq!['\u{0634}', '\u{0645}', '\u{0645}']),
        '\u{FD6D}' => Some(seq!['\u{0634}', '\u{0645}', '\u{0645}']),
        '\u{FD6E}' => Some(seq!['\u{0636}', '\u{062D}', '\u{0649}']),
        '\u{FD6F}' => Some(seq!['\u{0636}', '\u{062E}', '\u{0645}']),
        '\u{FD70}' => Some(seq!['\u{0636}', '\u{062E}', '\u{0645}']),
        '\u{FD71}' => Some(seq!['\u{0637}', '\u{0645}', '\u{062D}']),
        '\u{FD72}' => Some(seq!['\u{0637}', '\u{0645}', '\u{062D}']),
        '\u{FD73}' => Some(seq!['\u{0637}', '\u{0645}', '\u{0645}']),
        '\u{FD74}' => Some(seq!['\u{0637}', '\u{0645}', '\u{064A}']),
        '\u{FD75}' => Some(seq!['\u{0639}', '\u{062C}', '\u{0645}']),
        '\u{FDC4}' => Some(seq!['\u{0639}', '\u{062C}', '\u{0645}']),
        '\u{FD76}' => Some(seq!['\u{0639}', '\u{0645}', '\u{0645}']),
        '\u{FD77}' => Some(seq!['\u{0639}', '\u{0645}', '\u{0645}']),
        '\u{FD78}' => Some(seq!['\u{0639}', '\u{0645}', '\u{0649}']),
        '\u{FD79}' => Some(seq!['\u{063A}', '\u{0645}', '\u{0645}']),
        '\u{FD7A}' => Some(seq!['\u{063A}', '\u{0645}', '\u{064A}']),
        '\u{FD7B}' => Some(seq!['\u{063A}', '\u{0645}', '\u{0649}']),
        '\u{FD7C}' => Some(seq!['\u{0641}', '\u{062E}', '\u{0645}']),
        '\u{FD7D}' => Some(seq!['\u{0641}', '\u{062E}', '\u{0645}']),
        '\u{FD7E}' => Some(seq!['\u{0642}', '\u{0645}', '\u{062D}']),
        '\u{FDB4}' => Some(seq!['\u{0642}', '\u{0645}', '\u{062D}']),
        '\u{FD7F}' => Some(seq!['\u{0642}', '\u{0645}', '\u{0645}']),
        '\u{FD80}' => Some(seq!['\u{0644}', '\u{062D}', '\u{0645}']),
        '\u{FDB5}' => Some(seq!['\u{0644}', '\u{062D}', '\u{0645}']),
        '\u{FD81}' => Some(seq!['\u{0644}', '\u{062D}', '\u{064A}']),
        '\u{FD82}' => Some(seq!['\u{0644}', '\u{062D}', '\u{0649}']),
        '\u{FD83}' => Some(seq!['\u{0644}', '\u{062C}', '\u{062C}']),
        '\u{FD84}' => Some(seq!['\u{0644}', '\u{062C}', '\u{062C}']),
        '\u{FD85}' => Some(seq!['\u{0644}', '\u{062E}', '\u{0645}']),
        '\u{FD86}' => Some(seq!['\u{0644}', '\u{062E}', '\u{0645}']),
        '\u{FD87}' => Some(seq!['\u{0644}', '\u{0645}', '\u{062D}']),
        '\u{FD88}' => Some(seq!['\u{0644}', '\u{0645}', '\u{062D}']),
        '\u{FD89}' => Some(seq!['\u{0645}', '\u{062D}', '\u{062C}']),
        '\u{FD8A}' => Some(seq!['\u{0645}', '\u{062D}', '\u{0645}']),
        '\u{FD8B}' => Some(seq!['\u{0645}', '\u{062D}', '\u{064A}']),
        '\u{FD8C}' => Some(seq!['\u{0645}', '\u{062C}', '\u{062D}']),
        '\u{FD8D}' => Some(seq!['\u{0645}', '\u{062C}', '\u{0645}']),
        '\u{FD8E}' => Some(seq!['\u{0645}', '\u{062E}', '\u{062C}']),
        '\u{FD8F}' => Some(seq!['\u{0645}', '\u{062E}', '\u{0645}']),
        '\u{FD92}' => Some(seq!['\u{0645}', '\u{062C}', '\u{062E}']),
        '\u{FD93}' => Some(seq!['\u{0647}', '\u{0645}', '\u{062C}']),
        '\u{FD94}' => Some(seq!['\u{0647}', '\u{0645}', '\u{0645}']),
        '\u{FD95}' => Some(seq!['\u{0646}', '\u{062D}', '\u{0645}']),
        '\u{FD96}' => Some(seq!['\u{0646}', '\u{062D}', '\u{0649}']),
        '\u{FD97}' => Some(seq!['\u{0646}', '\u{062C}', '\u{0645}']),
        '\u{FD98}' => Some(seq!['\u{0646}', '\u{062C}', '\u{0645}']),
        '\u{FD99}' => Some(seq!['\u{0646}', '\u{062C}', '\u{0649}']),
        '\u{FD9A}' => Some(seq!['\u{0646}', '\u{0645}', '\u{064A}']),
        '\u{FD9B}' => Some(seq!['\u{0646}', '\u{0645}', '\u{0649}']),
        '\u{FD9C}' => Some(seq!['\u{064A}', '\u{0645}', '\u{0645}']),
        '\u{FD9D}' => Some(seq!['\u{064A}', '\u{0645}', '\u{0645}']),
        '\u{FD9E}' => Some(seq!['\u{0628}', '\u{062E}', '\u{064A}']),
        '\u{FD9F}' => Some(seq!['\u{062A}', '\u{062C}', '\u{064A}']),
        '\u{FDA0}' => Some(seq!['\u{062A}', '\u{062C}', '\u{0649}']),
        '\u{FDA1}' => Some(seq!['\u{062A}', '\u{062E}', '\u{064A}']),
        '\u{FDA2}' => Some(seq!['\u{062A}', '\u{062E}', '\u{0649}']),
        '\u{FDA3}' => Some(seq!['\u{062A}', '\u{0645}', '\u{064A}']),
        '\u{FDA4}' => Some(seq!['\u{062A}', '\u{0645}', '\u{0649}']),
        '\u{FDA5}' => Some(seq!['\u{062C}', '\u{0645}', '\u{064A}']),
        '\u{FDA6}' => Some(seq!['\u{062C}', '\u{062D}', '\u{0649}']),
        '\u{FDA7}' => Some(seq!['\u{062C}', '\u{0645}', '\u{0649}']),
        '\u{FDA8}' => Some(seq!['\u{0633}', '\u{062E}', '\u{0649}']),
        '\u{FDA9}' => Some(seq!['\u{0635}', '\u{062D}', '\u{064A}']),
        '\u{FDAA}' => Some(seq!['\u{0634}', '\u{062D}', '\u{064A}']),
        '\u{FDAB}' => Some(seq!['\u{0636}', '\u{062D}', '\u{064A}']),
        '\u{FDAC}' => Some(seq!['\u{0644}', '\u{062C}', '\u{064A}']),
        '\u{FDAD}' => Some(seq!['\u{0644}', '\u{0645}', '\u{064A}']),
        '\u{FDAE}' => Some(seq!['\u{064A}', '\u{062D}', '\u{064A}']),
        '\u{FDAF}' => Some(seq!['\u{064A}', '\u{062C}', '\u{064A}']),
        '\u{FDB0}' => Some(seq!['\u{064A}', '\u{0645}', '\u{064A}']),
        '\u{FDB1}' => Some(seq!['\u{0645}', '\u{0645}', '\u{064A}']),
        '\u{FDB2}' => Some(seq!['\u{0642}', '\u{0645}', '\u{064A}']),
        '\u{FDB3}' => Some(seq!['\u{0646}', '\u{062D}', '\u{064A}']),
        '\u{FDB6}' => Some(seq!['\u{0639}', '\u{0645}', '\u{064A}']),
        '\u{FDB7}' => Some(seq!['\u{0643}', '\u{0645}', '\u{064A}']),
        '\u{FDB8}' => Some(seq!['\u{0646}', '\u{062C}', '\u{062D}']),
        '\u{FDBD}' => Some(seq!['\u{0646}', '\u{062C}', '\u{062D}']),
        '\u{FDB9}' => Some(seq!['\u{0645}', '\u{062E}', '\u{064A}']),
        '\u{FDBA}' => Some(seq!['\u{0644}', '\u{062C}', '\u{0645}']),
        '\u{FDBC}' => Some(seq!['\u{0644}', '\u{062C}', '\u{0645}']),
        '\u{FDBB}' => Some(seq!['\u{0643}', '\u{0645}', '\u{0645}']),
        '\u{FDC3}' => Some(seq!['\u{0643}', '\u{0645}', '\u{0645}']),
        '\u{FDBE}' => Some(seq!['\u{062C}', '\u{062D}', '\u{064A}']),
        '\u{FDBF}' => Some(seq!['\u{062D}', '\u{062C}', '\u{064A}']),
        '\u{FDC0}' => Some(seq!['\u{0645}', '\u{062C}', '\u{064A}']),
        '\u{FDC1}' => Some(seq!['\u{0641}', '\u{0645}', '\u{064A}']),
        '\u{FDC2}' => Some(seq!['\u{0628}', '\u{062D}', '\u{064A}']),
        '\u{FDC6}' => Some(seq!['\u{0633}', '\u{062E}', '\u{064A}']),
        '\u{FDC7}' => Some(seq!['\u{0646}', '\u{062C}', '\u{064A}']),
        '\u{FEF5}' => Some(seq!['\u{0644}', '\u{0622}']),
        '\u{FEF6}' => Some(seq!['\u{0644}', '\u{0622}']),
        '\u{FEF7}' => Some(seq!['\u{0644}', '\u{0623}']),
        '\u{FEF8}' => Some(seq!['\u{0644}', '\u{0623}']),
        '\u{FEF9}' => Some(seq!['\u{0644}', '\u{0625}']),
        '\u{FEFA}' => Some(seq!['\u{0644}', '\u{0625}']),
        '\u{FEFB}' => Some(seq!['\u{0644}', '\u{0627}']),
        '\u{FEFC}' => Some(seq!['\u{0644}', '\u{0627}']),
        '\u{FDFA}' => Some(seq!['\u{0635}', '\u{0644}', '\u{0649}', ' ', '\u{0627}', '\u{0644}', '\u{0644}', '\u{0647}', ' ', '\u{0639}', '\u{0644}', '\u{064A}', '\u{0647}', ' ', '\u{0648}', '\u{0633}', '\u{0644}', '\u{0645}']),
        '\u{FDFD}' => Some(seq!['\u{0628}', '\u{0633}', '\u{0645}', ' ', '\u{0627}', '\u{0644}', '\u{0644}', '\u{0647}', ' ', '\u{0627}', '\u{0644}', '\u{0631}', '\u{062D}', '\u{0645}', '\u{0646}', ' ', '\u{0627}', '\u{0644}', '\u{0631}', '\u{062D}', '\u{064A}', '\u{0645}']),
        '\u{FDF2}' => Some(seq!['\u{0627}', '\u{0644}', '\u{0644}', '\u{0647}']),
        '\u{FDF3}' => Some(seq!['\u{0623}', '\u{0643}', '\u{0628}', '\u{0631}']),
        '\u{FDF4}' => Some(seq!['\u{0645}', '\u{062D}', '\u{0645}', '\u{062F}']),
        '\u{FDF6}' => Some(seq!['\u{0631}', '\u{0633}', '\u{0648}', '\u{0644}']),
        '\u{FDF7}' => Some(seq!['\u{0639}', '\u{0644}', '\u{064A}', '\u{0647}']),
        '\u{FDF8}' => Some(seq!['\u{0648}', '\u{0633}', '\u{0644}', '\u{0645}']),
        '\u{FDF9}' => Some(seq!['\u{0635}', '\u{0644}', '\u{0649}']),
        '\u{FDFC}' => Some(seq!['\u{0631}', '\u{06CC}', '\u{0627}', '\u{0644}']),
        '\u{FDFB}' => Some(seq!['\u{062C}', '\u{0644}', ' ', '\u{062C}', '\u{0644}', '\u{0627}', '\u{0644}', '\u{0647}']),
        '\u{FDF1}' => Some(seq!['\u{0642}', '\u{0644}', '\u{06D2}']),
        '\u{FDF0}' => Some(seq!['\u{0635}', '\u{0644}', '\u{06D2}']),
        '\u{FDF5}' => Some(seq!['\u{0635}', '\u{0644}', '\u{0639}', '\u{0645}']),
        _ => None,
    }
}

/// Looks up the expansion of `c` in the ligature table.
pub fn ligature(c: char) -> (r: Option<Vec<char>>)
    ensures
        match r {
            Some(v) => ligature_of(c) == Some(v@),
            None => ligature_of(c) is None,
        },
{
    match c {
        '\u{FBEA}' => Some(vec!['\u{0626}', '\u{0627}']),
        '\u{FBEB}' => Some(vec!['\u{0626}', '\u{0627}']),
        '\u{FBEC}' => Some(vec!['\u{0626}', '\u{06D5}']),
        '\u{FBED}' => Some(vec!['\u{0626}', '\u{06D5}']),
        '\u{FBEE}' => Some(vec!['\u{0626}', '\u{0648}']),
        '\u{FBEF}' => Some(vec!['\u{0626}', '\u{0648}']),
        '\u{FBF0}' => Some(vec!['\u{0626}', '\u{06C7}']),
        '\u{FBF1}' => Some(vec!['\u{0626}', '\u{06C7}']),
        '\u{FBF2}' => Some(vec!['\u{0626}', '\u{06C6}']),
        '\u{FBF3}' => Some(vec!['\u{0626}', '\u{06C6}']),
        '\u{FBF4}' => Some(vec!['\u{0626}', '\u{06C8}']),
        '\u{FBF5}' => Some(vec!['\u{0626}', '\u{06C8}']),
        '\u{FBF6}' => Some(vec!['\u{0626}', '\u{06D0}']),
        '\u{FBF7}' => Some(vec!['\u{0626}', '\u{06D0}']),
        '\u{FBF8}' => Some(vec!['\u{0626}', '\u{06D0}']),
        '\u{FBF9}' => Some(vec!['\u{0626}', '\u{0649}']),
        '\u{FBFA}' => Some(vec!['\u{0626}', '\u{0649}']),
        '\u{FBFB}' => Some(vec!['\u{0626}', '\u{0649}']),
        '\u{FC03}' => Some(vec!['\u{0626}', '\u{0649}']),
        '\u{FC68}' => Some(vec!['\u{0626}', '\u{0649}']),
        '\u{FC00}' => Some(vec!['\u{0626}', '\u{062C}']),
        '\u{FC97}' => Some(vec!['\u{0626}', '\u{062C}']),
        '\u{FC01}' => Some(vec!['\u{0626}', '\u{062D}']),
        '\u{FC98}' => Some(vec!['\u{0626}', '\u{062D}']),
        '\u{FC02}' => Some(vec!['\u{0626}', '\u{0645}']),
        '\u{FC66}' => Some(vec!['\u{0626}', '\u{0645}']),
        '\u{FC9A}' => Some(vec!['\u{0626}', '\u{0645}']),
        '\u{FCDF}' => Some(vec!['\u{0626}', '\u{0645}']),
        '\u{FC04}' => Some(vec!['\u{0626}', '\u{064A}']),
        '\u{FC69}' => Some(vec!['\u{0626}', '\u{064A}']),
        '\u{FC05}' => Some(vec!['\u{0628}', '\u{062C}']),
        '\u{FC9C}' => Some(vec!['\u{0628}', '\u{062C}']),
        '\u{FC06}' => Some(vec!['\u{0628}', '\u{062D}']),
        '\u{FC9D}' => Some(vec!['\u{0628}', '\u{062D}']),
        '\u{FC07}' => Some(vec!['\u{0628}', '\u{062E}']),
        '\u{FC9E}' => Some(vec!['\u{0628}', '\u{062E}']),
        '\u{FC08}' => Some(vec!['\u{0628}', '\u{0645}']),
        '\u{FC6C}' => Some(vec!['\u{0628}', '\u{0645}']),
        '\u{FC9F}' => Some(vec!['\u{0628}', '\u{0645}']),
        '\u{FCE1}' => Some(vec!['\u{0628}', '\u{0645}']),
        '\u{FC09}' => Some(vec!['\u{0628}', '\u{0649}']),
        '\u{FC6E}' => Some(vec!['\u{0628}', '\u{0649}']),
        '\u{FC0A}' => Some(vec!['\u{0628}', '\u{064A}']),
        '\u{FC6F}' => Some(vec!['\u{0628}', '\u{064A}']),
        '\u{FC0B}' => Some(vec!['\u{062A}', '\u{062C}']),
        '\u{FCA1}' => Some(vec!['\u{062A}', '\u{062C}']),
        '\u{FC0C}' => Some(vec!['\u{062A}', '\u{062D}']),
        '\u{FCA2}' => Some(vec!['\u{062A}', '\u{062D}']),
        '\u{FC0D}' => Some(vec!['\u{062A}', '\u{062E}']),
        '\u{FCA3}' => Some(vec!['\u{062A}', '\u{062E}']),
        '\u{FC0E}' => Some(vec!['\u{062A}', '\u{0645}']),
        '\u{FC72}' => Some(vec!['\u{062A}', '\u{0645}']),
        '\u{FCA4}' => Some(vec!['\u{062A}', '\u{0645}']),
        '\u{FCE3}' => Some(vec!['\u{062A}', '\u{0645}']),
        '\u{FC0F}' => Some(vec!['\u{062A}', '\u{0649}']),
        '\u{FC74}' => Some(vec!['\u{062A}', '\u{0649}']),
        '\u{FC10}' => Some(vec!['\u{062A}', '\u{064A}']),
        '\u{FC75}' => Some(vec!['\u{062A}', '\u{064A}']),
        '\u{FC11}' => Some(vec!['\u{062B}', '\u{062C}']),
        '\u{FC12}' => Some(vec!['\u{062B}', '\u{0645}']),
        '\u{FC78}' => Some(vec!['\u{062B}', '\u{0645}']),
        '\u{FCA6}' => Some(vec!['\u{062B}', '\u{0645}']),
        '\u{FCE5}' => Some(vec!['\u{062B}', '\u{0645}']),
        '\u{FC13}' => Some(vec!['\u{062B}', '\u{0649}']),
        '\u{FC7A}' => Some(vec!['\u{062B}', '\u{0649}']),
        '\u{FC14}' => Some(vec!['\u{062B}', '\u{064A}']),
        '\u{FC7B}' => Some(vec!['\u{062B}', '\u{064A}']),
        '\u{FC15}' => Some(vec!['\u{062C}', '\u{062D}']),
        '\u{FCA7}' => Some(vec!['\u{062C}', '\u{062D}']),
        '\u{FC16}' => Some(vec!['\u{062C}', '\u{0645}']),
        '\u{FCA8}' => Some(vec!['\u{062C}', '\u{0645}']),
        '\u{FC17}' => Some(vec!['\u{062D}', '\u{062C}']),
        '\u{FCA9}' => Some(vec!['\u{062D}', '\u{062C}']),
        '\u{FC18}' => Some(vec!['\u{062D}', '\u{0645}']),
        '\u{FCAA}' => Some(vec!['\u{062D}', '\u{0645}']),
        '\u{FC19}' => Some(vec!['\u{062E}', '\u{062C}']),
        '\u{FCAB}' => Some(vec!['\u{062E}', '\u{062C}']),
        '\u{FC1A}' => Some(vec!['\u{062E}', '\u{062D}']),
        '\u{FC1B}' => Some(vec!['\u{062E}', '\u{0645}']),
        '\u{FCAC}' => Some(vec!['\u{062E}', '\u{0645}']),
        '\u{FC1C}' => Some(vec!['\u{0633}', '\u{062C}']),
        '\u{FCAD}' => Some(vec!['\u{0633}', '\u{062C}']),
        '\u{FD34}' => Some(vec!['\u{0633}', '\u{062C}']),
        '\u{FC1D}' => Some(vec!['\u{0633}', '\u{062D}']),
        '\u{FCAE}' => Some(vec!['\u{0633}', '\u{062D}']),
        '\u{FD35}' => Some(vec!['\u{0633}', '\u{062D}']),
        '\u{FC1E}' => Some(vec!['\u{0633}', '\u{062E}']),
        '\u{FCAF}' => Some(vec!['\u{0633}', '\u{062E}']),
        '\u{FD36}' => Some(vec!['\u{0633}', '\u{062E}']),
        '\u{FC1F}' => Some(vec!['\u{0633}', '\u{0645}']),
        '\u{FCB0}' => Some(vec!['\u{0633}', '\u{0645}']),
        '\u{FCE7}' => Some(vec!['\u{0633}', '\u{0645}']),
        '\u{FC20}' => Some(vec!['\u{0635}', '\u{062D}']),
        '\u{FCB1}' => Some(vec!['\u{0635}', '\u{062D}']),
        '\u{FC21}' => Some(vec!['\u{0635}', '\u{0645}']),
        '\u{FCB3}' => Some(vec!['\u{0635}', '\u{0645}']),
        '\u{FC22}' => Some(vec!['\u{0636}', '\u{062C}']),
        '\u{FCB4}' => Some(vec!['\u{0636}', '\u{062C}']),
        '\u{FC23}' => Some(vec!['\u{0636}', '\u{062D}']),
        '\u{FCB5}' => Some(vec!['\u{0636}', '\u{062D}']),
        '\u{FC24}' => Some(vec!['\u{0636}', '\u{062E}']),
        '\u{FCB6}' => Some(vec!['\u{0636}', '\u{062E}']),
        '\u{FC25}' => Some(vec!['\u{0636}', '\u{0645}']),
        '\u{FCB7}' => Some(vec!['\u{0636}', '\u{0645}']),
        '\u{FC26}' => Some(vec!['\u{0637}', '\u{062D}']),
        '\u{FCB8}' => Some(vec!['\u{0637}', '\u{062D}']),
        '\u{FC27}' => Some(vec!['\u{0637}', '\u{0645}']),
        '\u{FD33}' => Some(vec!['\u{0637}', '\u{0645}']),
        '\u{FD3A}' => Some(vec!['\u{0637}', '\u{0645}']),
        '\u{FC28}' => Some(vec!['\u{0638}', '\u{0645}']),
        '\u{FCB9}' => Some(vec!['\u{0638}', '\u{0645}']),
        '\u{FD3B}' => Some(vec!['\u{0638}', '\u{0645}']),
        '\u{FC29}' => Some(vec!['\u{0639}', '\u{062C}']),
        '\u{FCBA}' => Some(vec!['\u{0639}', '\u{062C}']),
        '\u{FC2A}' => Some(vec!['\u{0639}', '\u{0645}']),
        '\u{FCBB}' => Some(vec!['\u{0639}', '\u{0645}']),
        '\u{FC2B}' => Some(vec!['\u{063A}', '\u{062C}']),
        '\u{FCBC}' => Some(vec!['\u{063A}', '\u{062C}']),
        '\u{FC2C}' => Some(vec!['\u{063A}', '\u{0645}']),
        '\u{FCBD}' => Some(vec!['\u{063A}', '\u{0645}']),
        '\u{FC2D}' => Some(vec!['\u{0641}', '\u{062C}']),
        '\u{FCBE}' => Some(vec!['\u{0641}', '\u{062C}']),
        '\u{FC2E}' => Some(vec!['\u{0641}', '\u{062D}']),
        '\u{FCBF}' => Some(vec!['\u{0641}', '\u{062D}']),
        '\u{FC2F}' => Some(vec!['\u{0641}', '\u{062E}']),
        '\u{FCC0}' => Some(vec!['\u{0641}', '\u{062E}']),
        '\u{FC30}' => Some(vec!['\u{0641}', '\u{0645}']),
        '\u{FCC1}' => Some(vec!['\u{0641}', '\u{0645}']),
        '\u{FC31}' => Some(vec!['\u{0641}', '\u{0649}']),
        '\u{FC7C}' => Some(vec!['\u{0641}', '\u{0649}']),
        '\u{FC32}' => Some(vec!['\u{0641}', '\u{064A}']),
        '\u{FC7D}' => Some(vec!['\u{0641}', '\u{064A}']),
        '\u{FC33}' => Some(vec!['\u{0642}', '\u{062D}']),
        '\u{FCC2}' => Some(vec!['\u{0642}', '\u{062D}']),
        '\u{FC34}' => Some(vec!['\u{0642}', '\u{0645}']),
        '\u{FCC3}' => Some(vec!['\u{0642}', '\u{0645}']),
        '\u{FC35}' => Some(vec!['\u{0642}', '\u{0649}']),
        '\u{FC7E}' => Some(vec!['\u{0642}', '\u{0649}']),
        '\u{FC36}' => Some(vec!['\u{0642}', '\u{064A}']),
        '\u{FC7F}' => Some(vec!['\u{0642}', '\u{064A}']),
        '\u{FC37}' => Some(vec!['\u{0643}', '\u{0627}']),
        '\u{FC80}' => Some(vec!['\u{0643}', '\u{0627}']),
        '\u{FC38}' => Some(vec!['\u{0643}', '\u{062C}']),
        '\u{FCC4}' => Some(vec!['\u{0643}', '\u{062C}']),
        '\u{FC39}' => Some(vec!['\u{0643}', '\u{062D}']),
        '\u{FCC5}' => Some(vec!['\u{0643}', '\u{062D}']),
        '\u{FC3A}' => Some(vec!['\u{0643}', '\u{062E}']),
        '\u{FCC6}' => Some(vec!['\u{0643}', '\u{062E}']),
        '\u{FC3B}' => Some(vec!['\u{0643}', '\u{0644}']),
        '\u{FC81}' => Some(vec!['\u{0643}', '\u{0644}']),
        '\u{FCC7}' => Some(vec!['\u{0643}', '\u{0644}']),
        '\u{FCEB}' => Some(vec!['\u{0643}', '\u{0644}']),
        '\u{FC3C}' => Some(vec!['\u{0643}', '\u{0645}']),
        '\u{FC82}' => Some(vec!['\u{0643}', '\u{0645}']),
        '\u{FCC8}' => Some(vec!['\u{0643}', '\u{0645}']),
        '\u{FCEC}' => Some(vec!['\u{0643}', '\u{0645}']),
        '\u{FC3D}' => Some(vec!['\u{0643}', '\u{0649}']),
        '\u{FC83}' => Some(vec!['\u{0643}', '\u{0649}']),
        '\u{FC3E}' => Some(vec!['\u{0643}', '\u{064A}']),
        '\u{FC84}' => Some(vec!['\u{0643}', '\u{064A}']),
        '\u{FC3F}' => Some(vec!['\u{0644}', '\u{062C}']),
        '\u{FCC9}' => Some(vec!['\u{0644}', '\u{062C}']),
        '\u{FC40}' => Some(vec!['\u{0644}', '\u{062D}']),
        '\u{FCCA}' => Some(vec!['\u{0644}', '\u{062D}']),
        '\u{FC41}' => Some(vec!['\u{0644}', '\u{062E}']),
        '\u{FCCB}' => Some(vec!['\u{0644}', '\u{062E}']),
        '\u{FC42}' => Some(vec!['\u{0644}', '\u{0645}']),
        '\u{FC85}' => Some(vec!['\u{0644}', '\u{0645}']),
        '\u{FCCC}' => Some(vec!['\u{0644}', '\u{0645}']),
        '\u{FCED}' => Some(vec!['\u{0644}', '\u{0645}']),
        '\u{FC43}' => Some(vec!['\u{0644}', '\u{0649}']),
        '\u{FC86}' => Some(vec!['\u{0644}', '\u{0649}']),
        '\u{FC44}' => Some(vec!['\u{0644}', '\u{064A}']),
        '\u{FC87}' => Some(vec!['\u{0644}', '\u{064A}']),
        '\u{FC45}' => Some(vec!['\u{0645}', '\u{062C}']),
        '\u{FCCE}' => Some(vec!['\u{0645}', '\u{062C}']),
        '\u{FC46}' => Some(vec!['\u{0645}', '\u{062D}']),
        '\u{FCCF}' => Some(vec!['\u{0645}', '\u{062D}']),
        '\u{FC47}' => Some(vec!['\u{0645}', '\u{062E}']),
        '\u{FCD0}' => Some(vec!['\u{0645}', '\u{062E}']),
        '\u{FC48}' => Some(vec!['\u{0645}', '\u{0645}']),
        '\u{FC89}' => Some(vec!['\u{0645}', '\u{0645}']),
        '\u{FCD1}' => Some(vec!['\u{0645}', '\u{0645}']),
        '\u{FC49}' => Some(vec!['\u{0645}', '\u{0649}']),
        '\u{FC4A}' => Some(vec!['\u{0645}', '\u{064A}']),
        '\u{FC4B}' => Some(vec!['\u{0646}', '\u{062C}']),
        '\u{FCD2}' => Some(vec!['\u{0646}', '\u{062C}']),
        '\u{FC4C}' => Some(vec!['\u{0646}', '\u{062D}']),
        '\u{FCD3}' => Some(vec!['\u{0646}', '\u{062D}']),
        '\u{FC4D}' => Some(vec!['\u{0646}', '\u{062E}']),
        '\u{FCD4}' => Some(vec!['\u{0646}', '\u{062E}']),
        '\u{FC4E}' => Some(vec!['\u{0646}', '\u{0645}']),
        '\u{FC8C}' => Some(vec!['\u{0646}', '\u{0645}']),
        '\u{FCD5}' => Some(vec!['\u{0646}', '\u{0645}']),
        '\u{FCEE}' => Some(vec!['\u{0646}', '\u{0645}']),
        '\u{FC4F}' => Some(vec!['\u{0646}', '\u{0649}']),
        '\u{FC8E}' => Some(vec!['\u{0646}', '\u{0649}']),
        '\u{FC50}' => Some(vec!['\u{0646}', '\u{064A}']),
        '\u{FC8F}' => Some(vec!['\u{0646}', '\u{064A}']),
        '\u{FC51}' => Some(vec!['\u{0647}', '\u{062C}']),
        '\u{FCD7}' => Some(vec!['\u{0647}', '\u{062C}']),
        '\u{FC52}' => Some(vec!['\u{0647}', '\u{0645}']),
        '\u{FCD8}' => Some(vec!['\u{0647}', '\u{0645}']),
        '\u{FC53}' => Some(vec!['\u{0647}', '\u{0649}']),
        '\u{FC54}' => Some(vec!['\u{0647}', '\u{064A}']),
        '\u{FC55}' => Some(vec!['\u{064A}', '\u{062C}']),
        '\u{FCDA}' => Some(vec!['\u{064A}', '\u{062C}']),
        '\u{FC56}' => Some(vec!['\u{064A}', '\u{062D}']),
        '\u{FCDB}' => Some(vec!['\u{064A}', '\u{062D}']),
        '\u{FC57}' => Some(vec!['\u{064A}', '\u{062E}']),
        '\u{FCDC}' => Some(vec!['\u{064A}', '\u{062E}']),
        '\u{FC58}' => Some(vec!['\u{064A}', '\u{0645}']),
        '\u{FC93}' => Some(vec!['\u{064A}', '\u{0645}']),
        '\u{FCDD}' => Some(vec!['\u{064A}', '\u{0645}']),
        '\u{FCF0}' => Some(vec!['\u{064A}', '\u{0645}']),
        '\u{FC59}' => Some(vec!['\u{064A}', '\u{0649}']),
        '\u{FC95}' => Some(vec!['\u{064A}', '\u{0649}']),
        '\u{FC5A}' => Some(vec!['\u{064A}', '\u{064A}']),
        '\u{FC96}' => Some(vec!['\u{064A}', '\u{064A}']),
        '\u{FC5B}' => Some(vec!['\u{0630}']),
        '\u{FC5C}' => Some(vec!['\u{0631}']),
        '\u{FC5D}' => Some(vec!['\u{0649}']),
        '\u{FC90}' => Some(vec!['\u{0649}']),
        '\u{FC64}' => Some(vec!['\u{0626}', '\u{0631}']),
        '\u{FC65}' => Some(vec!['\u{0626}', '\u{0632}']),
        '\u{FC67}' => Some(vec!['\u{0626}', '\u{0646}']),
        '\u{FC6A}' => Some(vec!['\u{0628}', '\u{0631}']),
        '\u{FC6B}' => Some(vec!['\u{0628}', '\u{0632}']),
        '\u{FC6D}' => Some(vec!['\u{0628}', '\u{0646}']),
        '\u{FC70}' => Some(vec!['\u{062A}', '\u{0631}']),
        '\u{FC71}' => Some(vec!['\u{062A}', '\u{0632}']),
        '\u{FC73}' => Some(vec!['\u{062A}', '\u{0646}']),
        '\u{FC76}' => Some(vec!['\u{062B}', '\u{0631}']),
        '\u{FC77}' => Some(vec!['\u{062B}', '\u{0632}']),
        '\u{FC79}' => Some(vec!['\u{062B}', '\u{0646}']),
        '\u{FC88}' => Some(vec!['\u{0645}', '\u{0627}']),
        '\u{FC8A}' => Some(vec!['\u{0646}', '\u{0631}']),
        '\u{FC8B}' => Some(vec!['\u{0646}', '\u{0632}']),
        '\u{FC8D}' => Some(vec!['\u{0646}', '\u{0646}']),
        '\u{FC91}' => Some(vec!['\u{064A}', '\u{0631}']),
        '\u{FC92}' => Some(vec!['\u{064A}', '\u{0632}']),
        '\u{FC94}' => Some(vec!['\u{064A}', '\u{0646}']),
        '\u{FC99}' => Some(vec!['\u{0626}', '\u{062E}']),
        '\u{FC9B}' => Some(vec!['\u{0626}', '\u{0647}']),
        '\u{FCE0}' => Some(vec!['\u{0626}', '\u{0647}']),
        '\u{FCA0}' => Some(vec!['\u{0628}', '\u{0647}']),
        '\u{FCE2}' => Some(vec!['\u{0628}', '\u{0647}']),
        '\u{FCA5}' => Some(vec!['\u{062A}', '\u{0647}']),
        '\u{FCE4}' => Some(vec!['\u{062A}', '\u{0647}']),
        '\u{FCB2}' => Some(vec!['\u{0635}', '\u{062E}']),
        '\u{FCCD}' => Some(vec!['\u{0644}', '\u{0647}']),
        '\u{FCD6}' => Some(vec!['\u{0646}', '\u{0647}']),
        '\u{FCEF}' => Some(vec!['\u{0646}', '\u{0647}']),
        '\u{FCD9}' => Some(vec!['\u{0647}']),
        '\u{FCDE}' => Some(vec!['\u{064A}', '\u{0647}']),
        '\u{FCF1}' => Some(vec!['\u{064A}', '\u{0647}']),
        '\u{FCE6}' => Some(vec!['\u{062B}', '\u{0647}']),
        '\u{FCE8}' => Some(vec!['\u{0633}', '\u{0647}']),
        '\u{FD31}' => Some(vec!['\u{0633}', '\u{0647}']),
        '\u{FCE9}' => Some(vec!['\u{0634}', '\u{0645}']),
        '\u{FD0C}' => Some(vec!['\u{0634}', '\u{0645}']),
        '\u{FD28}' => Some(vec!['\u{0634}', '\u{0645}']),
        '\u{FD30}' => Some(vec!['\u{0634}', '\u{0645}']),
        '\u{FCEA}' => Some(vec!['\u{0634}', '\u{0647}']),
        '\u{FD32}' => Some(vec!['\u{0634}', '\u{0647}']),
        '\u{FCF5}' => Some(vec!['\u{0637}', '\u{0649}']),
        '\u{FD11}' => Some(vec!['\u{0637}', '\u{0649}']),
        '\u{FCF6}' => Some(vec!['\u{0637}', '\u{064A}']),
        '\u{FD12}' => Some(vec!['\u{0637}', '\u{064A}']),
        '\u{FCF7}' => Some(vec!['\u{0639}', '\u{0649}']),
        '\u{FD13}' => Some(vec!['\u{0639}', '\u{0649}']),
        '\u{FCF8}' => Some(vec!['\u{0639}', '\u{064A}']),
        '\u{FD14}' => Some(vec!['\u{0639}', '\u{064A}']),
        '\u{FCF9}' => Some(vec!['\u{063A}', '\u{0649}']),
        '\u{FD15}' => Some(vec!['\u{063A}', '\u{0649}']),
        '\u{FCFA}' => Some(vec!['\u{063A}', '\u{064A}']),
        '\u{FD16}' => Some(vec!['\u{063A}', '\u{064A}']),
        '\u{FCFB}' => Some(vec!['\u{0633}', '\u{0649}']),
        '\u{FD17}' => Some(vec!['\u{0633}', '\u{0649}']),
        '\u{FCFC}' => Some(vec!['\u{0633}', '\u{064A}']),
        '\u{FD18}' => Some(vec!['\u{0633}', '\u{064A}']),
        '\u{FCFD}' => Some(vec!['\u{0634}', '\u{0649}']),
        '\u{FD19}' => Some(vec!['\u{0634}', '\u{0649}']),
        '\u{FCFE}' => Some(vec!['\u{0634}', '\u{064A}']),
        '\u{FD1A}' => Some(vec!['\u{0634}', '\u{064A}']),
        '\u{FCFF}' => Some(vec!['\u{062D}', '\u{0649}']),
        '\u{FD1B}' => Some(vec!['\u{062D}', '\u{0649}']),
        '\u{FD00}' => Some(vec!['\u{062D}', '\u{064A}']),
        '\u{FD1C}' => Some(vec!['\u{062D}', '\u{064A}']),
        '\u{FD01}' => Some(vec!['\u{062C}', '\u{0649}']),
        '\u{FD1D}' => Some(vec!['\u{062C}', '\u{0649}']),
        '\u{FD02}' => Some(vec!['\u{062C}', '\u{064A}']),
        '\u{FD1E}' => Some(vec!['\u{062C}', '\u{064A}']),
        '\u{FD03}' => Some(vec!['\u{062E}', '\u{0649}']),
        '\u{FD1F}' => Some(vec!['\u{062E}', '\u{0649}']),
        '\u{FD04}' => Some(vec!['\u{062E}', '\u{064A}']),
        '\u{FD20}' => Some(vec!['\u{062E}', '\u{064A}']),
        '\u{FD05}' => Some(vec!['\u{0635}', '\u{0649}']),
        '\u{FD21}' => Some(vec!['\u{0635}', '\u{0649}']),
        '\u{FD06}' => Some(vec!['\u{0635}', '\u{064A}']),
        '\u{FD22}' => Some(vec!['\u{0635}', '\u{064A}']),
        '\u{FD07}' => Some(vec!['\u{0636}', '\u{0649}']),
        '\u{FD23}' => Some(vec!['\u{0636}', '\u{0649}']),
        '\u{FD08}' => Some(vec!['\u{0636}', '\u{064A}']),
        '\u{FD24}' => Some(vec!['\u{0636}', '\u{064A}']),
        '\u{FD09}' => Some(vec!['\u{0634}', '\u{062C}']),
        '\u{FD25}' => Some(vec!['\u{0634}', '\u{062C}']),
        '\u{FD2D}' => Some(vec!['\u{0634}', '\u{062C}']),
        '\u{FD37}' => Some(vec!['\u{0634}', '\u{062C}']),
        '\u{FD0A}' => Some(vec!['\u{0634}', '\u{062D}']),
        '\u{FD26}' => Some(vec!['\u{0634}', '\u{062D}']),
        '\u{FD2E}' => Some(vec!['\u{0634}', '\u{062D}']),
        '\u{FD38}' => Some(vec!['\u{0634}', '\u{062D}']),
        '\u{FD0B}' => Some(vec!['\u{0634}', '\u{062E}']),
        '\u{FD27}' => Some(vec!['\u{0634}', '\u{062E}']),
        '\u{FD2F}' => Some(vec!['\u{0634}', '\u{062E}']),
        '\u{FD39}' => Some(vec!['\u{0634}', '\u{062E}']),
        '\u{FD0D}' => Some(vec!['\u{0634}', '\u{0631}']),
        '\u{FD29}' => Some(vec!['\u{0634}', '\u{0631}']),
        '\u{FD0E}' => Some(vec!['\u{0633}', '\u{0631}']),
        '\u{FD2A}' => Some(vec!['\u{0633}', '\u{0631}']),
        '\u{FD0F}' => Some(vec!['\u{0635}', '\u{0631}']),
        '\u{FD2B}' => Some(vec!['\u{0635}', '\u{0631}']),
        '\u{FD10}' => Some(vec!['\u{0636}', '\u{0631}']),
        '\u{FD2C}' => Some(vec!['\u{0636}', '\u{0631}']),
        '\u{FD50}' => Some(vec!['\u{062A}', '\u{062C}', '\u{0645}']),
        '\u{FD51}' => Some(vec!['\u{062A}', '\u{062D}', '\u{062C}']),
        '\u{FD52}' => Some(vec!['\u{062A}', '\u{062D}', '\u{062C}']),
        '\u{FD53}' => Some(vec!['\u{062A}', '\u{062D}', '\u{0645}']),
        '\u{FD54}' => Some(vec!['\u{062A}', '\u{062E}', '\u{0645}']),
        '\u{FD55}' => Some(vec!['\u{062A}', '\u{0645}', '\u{062C}']),
        '\u{FD56}' => Some(vec!['\u{062A}', '\u{0645}', '\u{062D}']),
        '\u{FD57}' => Some(vec!['\u{062A}', '\u{0645}', '\u{062E}']),
        '\u{FD58}' => Some(vec!['\u{062C}', '\u{0645}', '\u{062D}']),
        '\u{FD59}' => Some(vec!['\u{062C}', '\u{0645}', '\u{062D}']),
        '\u{FD5A}' => Some(vec!['\u{062D}', '\u{0645}', '\u{064A}']),
        '\u{FD5B}' => Some(vec!['\u{062D}', '\u{0645}', '\u{0649}']),
        '\u{FD5C}' => Some(vec!['\u{0633}', '\u{062D}', '\u{062C}']),
        '\u{FD5D}' => Some(vec!['\u{0633}', '\u{062C}', '\u{062D}']),
        '\u{FD5E}' => Some(vec!['\u{0633}', '\u{062C}', '\u{0649}']),
        '\u{FD5F}' => Some(vec!['\u{0633}', '\u{0645}', '\u{062D}']),
        '\u{FD60}' => Some(vec!['\u{0633}', '\u{0645}', '\u{062D}']),
        '\u{FD61}' => Some(vec!['\u{0633}', '\u{0645}', '\u{062C}']),
        '\u{FD62}' => Some(vec!['\u{0633}', '\u{0645}', '\u{0645}']),
        '\u{FD63}' => Some(vec!['\u{0633}', '\u{0645}', '\u{0645}']),
        '\u{FD64}' => Some(vec!['\u{0635}', '\u{062D}', '\u{062D}']),
        '\u{FD65}' => Some(vec!['\u{0635}', '\u{062D}', '\u{062D}']),
        '\u{FD66}' => Some(vec!['\u{0635}', '\u{0645}', '\u{0645}']),
        '\u{FDC5}' => Some(vec!['\u{0635}', '\u{0645}', '\u{0645}']),
        '\u{FD67}' => Some(vec!['\u{0634}', '\u{062D}', '\u{0645}']),
        '\u{FD68}' => Some(vec!['\u{0634}', '\u{062D}', '\u{0645}']),
        '\u{FD69}' => Some(vec!['\u{0634}', '\u{062C}', '\u{064A}']),
        '\u{FD6A}' => Some(vec!['\u{0634}', '\u{0645}', '\u{062E}']),
        '\u{FD6B}' => Some(vec!['\u{0634}', '\u{0645}', '\u{062E}']),
        '\u{FD6C}' => Some(vec!['\u{0634}', '\u{0645}', '\u{0645}']),
        '\u{FD6D}' => Some(vec!['\u{0634}', '\u{0645}', '\u{0645}']),
        '\u{FD6E}' => Some(vec!['\u{0636}', '\u{062D}', '\u{0649}']),
        '\u{FD6F}' => Some(vec!['\u{0636}', '\u{062E}', '\u{0645}']),
        '\u{FD70}' => Some(vec!['\u{0636}', '\u{062E}', '\u{0645}']),
        '\u{FD71}' => Some(vec!['\u{0637}', '\u{0645}', '\u{062D}']),
        '\u{FD72}' => Some(vec!['\u{0637}', '\u{0645}', '\u{062D}']),
        '\u{FD73}' => Some(vec!['\u{0637}', '\u{0645}', '\u{0645}']),
        '\u{FD74}' => Some(vec!['\u{0637}', '\u{0645}', '\u{064A}']),
        '\u{FD75}' => Some(vec!['\u{0639}', '\u{062C}', '\u{0645}']),
        '\u{FDC4}' => Some(vec!['\u{0639}', '\u{062C}', '\u{0645}']),
        '\u{FD76}' => Some(vec!['\u{0639}', '\u{0645}', '\u{0645}']),
        '\u{FD77}' => Some(vec!['\u{0639}', '\u{0645}', '\u{0645}']),
        '\u{FD78}' => Some(vec!['\u{0639}', '\u{0645}', '\u{0649}']),
        '\u{FD79}' => Some(vec!['\u{063A}', '\u{0645}', '\u{0645}']),
        '\u{FD7A}' => Some(vec!['\u{063A}', '\u{0645}', '\u{064A}']),
        '\u{FD7B}' => Some(vec!['\u{063A}', '\u{0645}', '\u{0649}']),
        '\u{FD7C}' => Some(vec!['\u{0641}', '\u{062E}', '\u{0645}']),
        '\u{FD7D}' => Some(vec!['\u{0641}', '\u{062E}', '\u{0645}']),
        '\u{FD7E}' => Some(vec!['\u{0642}', '\u{0645}', '\u{062D}']),
        '\u{FDB4}' => Some(vec!['\u{0642}', '\u{0645}', '\u{062D}']),
        '\u{FD7F}' => Some(vec!['\u{0642}', '\u{0645}', '\u{0645}']),
        '\u{FD80}' => Some(vec!['\u{0644}', '\u{062D}', '\u{0645}']),
        '\u{FDB5}' => Some(vec!['\u{0644}', '\u{062D}', '\u{0645}']),
        '\u{FD81}' => Some(vec!['\u{0644}', '\u{062D}', '\u{064A}']),
        '\u{FD82}' => Some(vec!['\u{0644}', '\u{062D}', '\u{0649}']),
        '\u{FD83}' => Some(vec!['\u{0644}', '\u{062C}', '\u{062C}']),
        '\u{FD84}' => Some(vec!['\u{0644}', '\u{062C}', '\u{062C}']),
        '\u{FD85}' => Some(vec!['\u{0644}', '\u{062E}', '\u{0645}']),
        '\u{FD86}' => Some(vec!['\u{0644}', '\u{062E}', '\u{0645}']),
        '\u{FD87}' => Some(vec!['\u{0644}', '\u{0645}', '\u{062D}']),
        '\u{FD88}' => Some(vec!['\u{0644}', '\u{0645}', '\u{062D}']),
        '\u{FD89}' => Some(vec!['\u{0645}', '\u{062D}', '\u{062C}']),
        '\u{FD8A}' => Some(vec!['\u{0645}', '\u{062D}', '\u{0645}']),
        '\u{FD8B}' => Some(vec!['\u{0645}', '\u{062D}', '\u{064A}']),
        '\u{FD8C}' => Some(vec!['\u{0645}', '\u{062C}', '\u{062D}']),
        '\u{FD8D}' => Some(vec!['\u{0645}', '\u{062C}', '\u{0645}']),
        '\u{FD8E}' => Some(vec!['\u{0645}', '\u{062E}', '\u{062C}']),
        '\u{FD8F}' => Some(vec!['\u{0645}', '\u{062E}', '\u{0645}']),
        '\u{FD92}' => Some(vec!['\u{0645}', '\u{062C}', '\u{062E}']),
        '\u{FD93}' => Some(vec!['\u{0647}', '\u{0645}', '\u{062C}']),
        '\u{FD94}' => Some(vec!['\u{0647}', '\u{0645}', '\u{0645}']),
        '\u{FD95}' => Some(vec!['\u{0646}', '\u{062D}', '\u{0645}']),
        '\u{FD96}' => Some(vec!['\u{0646}', '\u{062D}', '\u{0649}']),
        '\u{FD97}' => Some(vec!['\u{0646}', '\u{062C}', '\u{0645}']),
        '\u{FD98}' => Some(vec!['\u{0646}', '\u{062C}', '\u{0645}']),
        '\u{FD99}' => Some(vec!['\u{0646}', '\u{062C}', '\u{0649}']),
        '\u{FD9A}' => Some(vec!['\u{0646}', '\u{0645}', '\u{064A}']),
        '\u{FD9B}' => Some(vec!['\u{0646}', '\u{0645}', '\u{0649}']),
        '\u{FD9C}' => Some(vec!['\u{064A}', '\u{0645}', '\u{0645}']),
        '\u{FD9D}' => Some(vec!['\u{064A}', '\u{0645}', '\u{0645}']),
        '\u{FD9E}' => Some(vec!['\u{0628}', '\u{062E}', '\u{064A}']),
        '\u{FD9F}' => Some(vec!['\u{062A}', '\u{062C}', '\u{064A}']),
        '\u{FDA0}' => Some(vec!['\u{062A}', '\u{062C}', '\u{0649}']),
        '\u{FDA1}' => Some(vec!['\u{062A}', '\u{062E}', '\u{064A}']),
        '\u{FDA2}' => Some(vec!['\u{062A}', '\u{062E}', '\u{0649}']),
        '\u{FDA3}' => Some(vec!['\u{062A}', '\u{0645}', '\u{064A}']),
        '\u{FDA4}' => Some(vec!['\u{062A}', '\u{0645}', '\u{0649}']),
        '\u{FDA5}' => Some(vec!['\u{062C}', '\u{0645}', '\u{064A}']),
        '\u{FDA6}' => Some(vec!['\u{062C}', '\u{062D}', '\u{0649}']),
        '\u{FDA7}' => Some(vec!['\u{062C}', '\u{0645}', '\u{0649}']),
        '\u{FDA8}' => Some(vec!['\u{0633}', '\u{062E}', '\u{0649}']),
        '\u{FDA9}' => Some(vec!['\u{0635}', '\u{062D}', '\u{064A}']),
        '\u{FDAA}' => Some(vec!['\u{0634}', '\u{062D}', '\u{064A}']),
        '\u{FDAB}' => Some(vec!['\u{0636}', '\u{062D}', '\u{064A}']),
        '\u{FDAC}' => Some(vec!['\u{0644}', '\u{062C}', '\u{064A}']),
        '\u{FDAD}' => Some(vec!['\u{0644}', '\u{0645}', '\u{064A}']),
        '\u{FDAE}' => Some(vec!['\u{064A}', '\u{062D}', '\u{064A}']),
        '\u{FDAF}' => Some(vec!['\u{064A}', '\u{062C}', '\u{064A}']),
        '\u{FDB0}' => Some(vec!['\u{064A}', '\u{0645}', '\u{064A}']),
        '\u{FDB1}' => Some(vec!['\u{0645}', '\u{0645}', '\u{064A}']),
        '\u{FDB2}' => Some(vec!['\u{0642}', '\u{0645}', '\u{064A}']),
        '\u{FDB3}' => Some(vec!['\u{0646}', '\u{062D}', '\u{064A}']),
        '\u{FDB6}' => Some(vec!['\u{0639}', '\u{0645}', '\u{064A}']),
        '\u{FDB7}' => Some(vec!['\u{0643}', '\u{0645}', '\u{064A}']),
        '\u{FDB8}' => Some(vec!['\u{0646}', '\u{062C}', '\u{062D}']),
        '\u{FDBD}' => Some(vec!['\u{0646}', '\u{062C}', '\u{062D}']),
        '\u{FDB9}' => Some(vec!['\u{0645}', '\u{062E}', '\u{064A}']),
        '\u{FDBA}' => Some(vec!['\u{0644}', '\u{062C}', '\u{0645}']),
        '\u{FDBC}' => Some(vec!['\u{0644}', '\u{062C}', '\u{0645}']),
        '\u{FDBB}' => Some(vec!['\u{0643}', '\u{0645}', '\u{0645}']),
        '\u{FDC3}' => Some(vec!['\u{0643}', '\u{0645}', '\u{0645}']),
        '\u{FDBE}' => Some(vec!['\u{062C}', '\u{062D}', '\u{064A}']),
        '\u{FDBF}' => Some(vec!['\u{062D}', '\u{062C}', '\u{064A}']),
        '\u{FDC0}' => Some(vec!['\u{0645}', '\u{062C}', '\u{064A}']),
        '\u{FDC1}' => Some(vec!['\u{0641}', '\u{0645}', '\u{064A}']),
        '\u{FDC2}' => Some(vec!['\u{0628}', '\u{062D}', '\u{064A}']),
        '\u{FDC6}' => Some(vec!['\u{0633}', '\u{062E}', '\u{064A}']),
        '\u{FDC7}' => Some(vec!['\u{0646}', '\u{062C}', '\u{064A}']),
        '\u{FEF5}' => Some(vec!['\u{0644}', '\u{0622}']),
        '\u{FEF6}' => Some(vec!['\u{0644}', '\u{0622}']),
        '\u{FEF7}' => Some(vec!['\u{0644}', '\u{0623}']),
        '\u{FEF8}' => Some(vec!['\u{0644}', '\u{0623}']),
        '\u{FEF9}' => Some(vec!['\u{0644}', '\u{0625}']),
        '\u{FEFA}' => Some(vec!['\u{0644}', '\u{0625}']),
        '\u{FEFB}' => Some(vec!['\u{0644}', '\u{0627}']),
        '\u{FEFC}' => Some(vec!['\u{0644}', '\u{0627}']),
        '\u{FDFA}' => Some(vec!['\u{0635}', '\u{0644}', '\u{0649}', ' ', '\u{0627}', '\u{0644}', '\u{0644}', '\u{0647}', ' ', '\u{0639}', '\u{0644}', '\u{064A}', '\u{0647}', ' ', '\u{0648}', '\u{0633}', '\u{0644}', '\u{0645}']),
        '\u{FDFD}' => Some(vec!['\u{0628}', '\u{0633}', '\u{0645}', ' ', '\u{0627}', '\u{0644}', '\u{0644}', '\u{0647}', ' ', '\u{0627}', '\u{0644}', '\u{0631}', '\u{062D}', '\u{0645}', '\u{0646}', ' ', '\u{0627}', '\u{0644}', '\u{0631}', '\u{062D}', '\u{064A}', '\u{0645}']),
        '\u{FDF2}' => Some(vec!['\u{0627}', '\u{0644}', '\u{0644}', '\u{0647}']),
        '\u{FDF3}' => Some(vec!['\u{0623}', '\u{0643}', '\u{0628}', '\u{0631}']),
        '\u{FDF4}' => Some(vec!['\u{0645}', '\u{062D}', '\u{0645}', '\u{062F}']),
        '\u{FDF6}' => Some(vec!['\u{0631}', '\u{0633}', '\u{0648}', '\u{0644}']),
        '\u{FDF7}' => Some(vec!['\u{0639}', '\u{0644}', '\u{064A}', '\u{0647}']),
        '\u{FDF8}' => Some(vec!['\u{0648}', '\u{0633}', '\u{0644}', '\u{0645}']),
        '\u{FDF9}' => Some(vec!['\u{0635}', '\u{0644}', '\u{0649}']),
        '\u{FDFC}' => Some(vec!['\u{0631}', '\u{06CC}', '\u{0627}', '\u{0644}']),
        '\u{FDFB}' => Some(vec!['\u{062C}', '\u{0644}', ' ', '\u{062C}', '\u{0644}', '\u{0627}', '\u{0644}', '\u{0647}']),
        '\u{FDF1}' => Some(vec!['\u{0642}', '\u{0644}', '\u{06D2}']),
        '\u{FDF0}' => Some(vec!['\u{0635}', '\u{0644}', '\u{06D2}']),
        '\u{FDF5}' => Some(vec!['\u{0635}', '\u{0644}', '\u{0639}', '\u{0645}']),
        _ => None,
    }
}

/// What a single code point becomes: its expansion, or itself.
pub open spec fn expand_char(c: char) -> Seq<char> {
    match ligature_of(c) {
        Some(e) => e,
        None => seq![c],
    }
}

/// A line with every ligature replaced by its expansion.
pub open spec fn expand(s: Seq<char>) -> Seq<char>
    decreases s.len(),
{
    if s.len() == 0 {
        Seq::empty()
    } else {
        expand(s.drop_last()) + expand_char(s.last())
    }
}

/// Replaces every ligature of `line` by its expansion; other code points
/// are kept as they are.
pub fn expand_ligatures(line: &Vec<char>) -> (r: Vec<char>)
    ensures
        r@ == expand(line@),
{
    let mut out: Vec<char> = Vec::new();
    let mut i: usize = 0;
    while i < line.len()
        invariant
            0 <= i <= line.len(),
            out@ == expand(line@.subrange(0, i as int)),
        decreases line.len() - i,
    {
        let c = line[i];
        proof {
            let next = line@.subrange(0, i + 1);
            assert(next.drop_last() =~= line@.subrange(0, i as int));
            assert(next.last() == c);
        }
        match ligature(c) {
            Some(e) => {
                let mut j: usize = 0;
                let ghost before = out@;
                while j < e.len()
                    invariant
                        0 <= j <= e.len(),
                        out@ == before + e@.subrange(0, j as int),
                    decreases e.len() - j,
                {
                    out.push(e[j]);
                    proof {
                        assert(e@.subrange(0, j + 1) =~= e@.subrange(0, j as int).push(e@[j as int]));
                    }
                    j += 1;
                }
                assert(e@.subrange(0, e.len() as int) =~= e@);
            },
            None => {
                out.push(c);
            },
        }
        i += 1;
    }
    assert(line@.subrange(0, line.len() as int) =~= line@);
    out
}

/// A line that holds a single key of the ligature table expands to exactly
/// that key's expansion.
pub proof fn lemma_sole_ligature_expands(c: char)
    requires
        ligature_of(c) is Some,
    ensures
        expand(seq![c]) == ligature_of(c)->0,
{
    let s = seq![c];
    assert(s.drop_last() =~= Seq::<char>::empty());
    assert(expand(s.drop_last()) =~= Seq::<char>::empty());
    assert(expand(s) =~= ligature_of(c)->0);
}

} // verus!
