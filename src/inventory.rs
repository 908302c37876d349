//! The inventory of Arabic-script code points: eighteen classes of letter
//! shapes that coincide once dots are removed, and a set of diacritics.

use vstd::prelude::*;

verus! {

/// A class of letters whose undotted shapes are indistinguishable.
#[derive(Clone, Copy, Debug, PartialEq, Eq, Structural)]
pub enum CharClass {
    Q,
    N,
    Y,
    A,
    B,
    G,
    R,
    D,
    T,
    C,
    S,
    F,
    E,
    W,
    H,
    M,
    L,
    K,
}

/// Number of letter classes.
pub const NUM_CLASSES: usize = 18;

/// The classes in the order in which the inventory lists them.
pub open spec fn class_at(i: int) -> CharClass {
    if i == 0 {
        CharClass::Q
    } else if i == 1 {
        CharClass::N
    } else if i == 2 {
        CharClass::Y
    } else if i == 3 {
        CharClass::A
    } else if i == 4 {
        CharClass::B
    } else if i == 5 {
        CharClass::G
    } else if i == 6 {
        CharClass::R
    } else if i == 7 {
        CharClass::D
    } else if i == 8 {
        CharClass::T
    } else if i == 9 {
        CharClass::C
    } else if i == 10 {
        CharClass::S
    } else if i == 11 {
        CharClass::F
    } else if i == 12 {
        CharClass::E
    } else if i == 13 {
        CharClass::W
    } else if i == 14 {
        CharClass::H
    } else if i == 15 {
        CharClass::M
    } else if i == 16 {
        CharClass::L
    } else {
        CharClass::K
    }
}

/// Executable counterpart of `class_at`.
pub fn class_at_index(i: usize) -> (r: CharClass)
    requires
        i < NUM_CLASSES,
    ensures
        r == class_at(i as int),
{
        if i == 0 {
            CharClass::Q
        } else if i == 1 {
            CharClass::N
        } else if i == 2 {
            CharClass::Y
        } else if i == 3 {
            CharClass::A
        } else if i == 4 {
            CharClass::B
        } else if i == 5 {
            CharClass::G
        } else if i == 6 {
            CharClass::R
        } else if i == 7 {
            CharClass::D
        } else if i == 8 {
            CharClass::T
        } else if i == 9 {
            CharClass::C
        } else if i == 10 {
            CharClass::S
        } else if i == 11 {
            CharClass::F
        } else if i == 12 {
            CharClass::E
        } else if i == 13 {
            CharClass::W
        } else if i == 14 {
            CharClass::H
        } else if i == 15 {
            CharClass::M
        } else if i == 16 {
            CharClass::L
        } else {
            CharClass::K
        }
}

impl CharClass {
    /// The Latin letter that names the class.
    pub open spec fn spec_tag(self) -> char {
        match self {
            CharClass::Q => 'Q',
            CharClass::N => 'N',
            CharClass::Y => 'Y',
            CharClass::A => 'A',
            CharClass::B => 'B',
            CharClass::G => 'G',
            CharClass::R => 'R',
            CharClass::D => 'D',
            CharClass::T => 'T',
            CharClass::C => 'C',
            CharClass::S => 'S',
            CharClass::F => 'F',
            CharClass::E => 'E',
            CharClass::W => 'W',
            CharClass::H => 'H',
            CharClass::M => 'M',
            CharClass::L => 'L',
            CharClass::K => 'K',
        }
    }

    /// The Latin letter that names the class.
    #[verifier::when_used_as_spec(spec_tag)]
    pub fn tag(self) -> (r: char)
        ensures
            r == self.spec_tag(),
    {
        match self {
                CharClass::Q => 'Q',
                CharClass::N => 'N',
                CharClass::Y => 'Y',
                CharClass::A => 'A',
                CharClass::B => 'B',
                CharClass::G => 'G',
                CharClass::R => 'R',
                CharClass::D => 'D',
                CharClass::T => 'T',
                CharClass::C => 'C',
                CharClass::S => 'S',
                CharClass::F => 'F',
                CharClass::E => 'E',
                CharClass::W => 'W',
                CharClass::H => 'H',
                CharClass::M => 'M',
                CharClass::L => 'L',
                CharClass::K => 'K',
        }
    }
}

/// The code points of each class, as the inventory lists them.
pub open spec fn class_chars(k: CharClass) -> Seq<char> {
    match k {
        CharClass::Q => seq![
            '\u{066F}', '\u{08A5}', '\u{06A7}', '\u{0642}', '\u{06A8}', '\u{FED5}', '\u{FED6}', '\u{0641}',
            '\u{FED1}', '\u{FED2}',
        ],
        CharClass::N => seq![
            '\u{06BA}', '\u{0646}', '\u{06BB}', '\u{06BC}', '\u{06B9}', '\u{0767}', '\u{0768}', '\u{0769}',
            '\u{06BD}', '\u{FEE5}', '\u{FEE6}',
        ],
        CharClass::Y => seq![
            '\u{0649}', '\u{06CC}', '\u{06CD}', '\u{0777}', '\u{064A}', '\u{06D0}', '\u{06D1}', '\u{0620}',
            '\u{0626}', '\u{063D}', '\u{06CE}', '\u{0775}', '\u{0776}', '\u{08A8}', '\u{08A9}', '\u{063E}',
            '\u{063F}', '\u{06D2}', '\u{06D3}', '\u{077A}', '\u{077B}', '\u{FEEF}', '\u{FEF0}', '\u{FBAE}',
            '\u{FBAF}', '\u{06CC}', '\u{FBFC}', '\u{FBFD}', '\u{FEF2}', '\u{FBB0}', '\u{FBB1}', '\u{FE89}',
            '\u{FE8A}',
        ],
        CharClass::A => seq![
            '\u{0671}', '\u{0623}', '\u{0625}', '\u{0622}', '\u{0627}', '\u{0673}', '\u{0672}', '\u{0773}',
            '\u{0774}', '\u{0675}', '\u{FE83}', '\u{FE84}', '\u{FE87}', '\u{FE88}', '\u{FE81}', '\u{FE82}',
            '\u{FE8D}', '\u{FE8E}', '\u{FB50}', '\u{FB51}', '\u{FD3C}',
        ],
        CharClass::B => seq![
            '\u{08AC}', '\u{066E}', '\u{0628}', '\u{0755}', '\u{08A0}', '\u{067B}', '\u{0750}', '\u{067E}',
            '\u{0680}', '\u{0752}', '\u{0679}', '\u{0756}', '\u{0754}', '\u{062A}', '\u{067A}', '\u{067C}',
            '\u{0753}', '\u{062B}', '\u{067D}', '\u{067F}', '\u{0751}', '\u{FEE7}', '\u{FEE8}', '\u{FBFE}',
            '\u{FBFF}', '\u{FEF3}', '\u{FEF4}', '\u{FE8B}', '\u{FE8C}', '\u{FE8F}', '\u{FE90}',
            '\u{FE91}', '\u{FE92}', '\u{FB56}', '\u{FB57}', '\u{FB58}', '\u{FB59}', '\u{FE95}', '\u{FE96}',
            '\u{FE97}', '\u{FE98}', '\u{FE99}', '\u{FE9A}', '\u{FE9B}', '\u{FE9C}', '\u{066E}',
        ],
        CharClass::G => seq![
            '\u{062E}', '\u{062D}', '\u{062C}', '\u{0686}', '\u{076E}', '\u{077C}', '\u{0683}', '\u{0684}',
            '\u{0686}', '\u{0687}', '\u{0758}', '\u{076F}', '\u{0681}', '\u{0772}', '\u{06BF}', '\u{0682}',
            '\u{0757}', '\u{08A2}', '\u{0685}', '\u{FE9D}', '\u{FE9E}', '\u{FE9F}', '\u{FEA0}', '\u{FEA1}',
            '\u{FEA2}', '\u{FEA3}', '\u{FEA4}', '\u{FEA5}', '\u{FEA6}', '\u{FEA7}', '\u{FEA8}', '\u{FB7A}',
            '\u{FB7B}', '\u{FB7C}', '\u{FB7D}',
        ],
        CharClass::R => seq![
            '\u{0631}', '\u{0632}', '\u{0693}', '\u{075B}', '\u{08AA}', '\u{0694}', '\u{0695}', '\u{0691}',
            '\u{0692}', '\u{06EF}', '\u{076C}', '\u{0696}', '\u{0697}', '\u{076B}', '\u{0698}', '\u{0699}',
            '\u{0771}', '\u{FEAD}', '\u{FEAE}', '\u{FEAF}', '\u{FEB0}', '\u{FB8A}', '\u{FB8B}',
        ],
        CharClass::D => seq![
            '\u{062F}', '\u{0630}', '\u{0688}', '\u{0689}', '\u{068A}', '\u{075A}', '\u{068D}', '\u{0688}',
            '\u{06EE}', '\u{068B}', '\u{0759}', '\u{068C}', '\u{068E}', '\u{068F}', '\u{0690}', '\u{FEA9}',
            '\u{FEAA}', '\u{FEAB}', '\u{FEAC}',
        ],
        CharClass::T => seq![
            '\u{0637}', '\u{0638}', '\u{08A3}', '\u{069F}', '\u{FEC1}', '\u{FEC2}', '\u{FEC3}', '\u{FEC4}',
            '\u{FEC5}', '\u{FEC6}', '\u{FEC7}', '\u{FEC8}',
        ],
        CharClass::C => seq![
            '\u{0635}', '\u{0636}', '\u{069D}', '\u{06FB}', '\u{069E}', '\u{FEB9}', '\u{FEBA}', '\u{FEBB}',
            '\u{FEBC}', '\u{FEBD}', '\u{FEBE}', '\u{FEBF}', '\u{FEC0}',
        ],
        CharClass::S => seq![
            '\u{0633}', '\u{0634}', '\u{069B}', '\u{077D}', '\u{077E}', '\u{069A}', '\u{076D}', '\u{075C}',
            '\u{0770}', '\u{06FA}', '\u{069C}', '\u{FEB1}', '\u{FEB2}', '\u{FEB3}', '\u{FEB4}', '\u{FEB5}',
            '\u{FEB6}', '\u{FEB7}', '\u{FEB8}',
        ],
        CharClass::F => seq![
            '\u{06A1}', '\u{06A2}', '\u{0760}', '\u{06A5}', '\u{0761}', '\u{06A3}', '\u{06A4}', '\u{06A6}',
            '\u{08A4}', '\u{FED3}', '\u{FED4}', '\u{FED7}', '\u{FED8}',
        ],
        CharClass::E => seq![
            '\u{0639}', '\u{063A}', '\u{06FC}', '\u{075D}', '\u{075F}', '\u{06A0}', '\u{075E}', '\u{FEC9}',
            '\u{FECA}', '\u{FECB}', '\u{FECC}', '\u{FECD}', '\u{FECE}', '\u{FECF}', '\u{FED0}',
        ],
        CharClass::W => seq![
            '\u{0648}', '\u{06C4}', '\u{06C5}', '\u{08AB}', '\u{0624}', '\u{06C6}', '\u{06C7}', '\u{06C8}',
            '\u{06C9}', '\u{06CF}', '\u{0778}', '\u{0779}', '\u{06CA}', '\u{06CB}', '\u{FEED}', '\u{FEEE}',
            '\u{FE85}', '\u{FE86}',
        ],
        CharClass::H => seq![
            '\u{0647}', '\u{06BE}', '\u{06C1}', '\u{06D5}', '\u{06C0}', '\u{06C2}', '\u{06FF}', '\u{0629}',
            '\u{06C3}', '\u{FBA4}', '\u{FBA5}', '\u{FE93}', '\u{FE94}', '\u{FBA6}', '\u{FBA7}', '\u{FBA8}',
            '\u{FBA9}', '\u{FEEA}', '\u{FEEB}', '\u{FEEC}', '\u{FBAA}', '\u{FBAB}', '\u{FBAC}', '\u{FBAD}',
        ],
        CharClass::M => seq![
            '\u{0645}', '\u{0766}', '\u{0765}', '\u{08A7}', '\u{FEE1}', '\u{FEE2}', '\u{FEE3}', '\u{FEE4}',
        ],
        CharClass::L => seq![
            '\u{0644}', '\u{076A}', '\u{08A6}', '\u{06B8}', '\u{06B5}', '\u{06B6}', '\u{06B7}', '\u{FEDD}',
            '\u{FEDE}', '\u{FEDF}', '\u{FEE0}',
        ],
        CharClass::K => seq![
            '\u{0643}', '\u{06A9}', '\u{06AA}', '\u{06AB}', '\u{06AF}', '\u{06B0}', '\u{06B2}', '\u{06B3}',
            '\u{063C}', '\u{06AE}', '\u{0764}', '\u{06AE}', '\u{0762}', '\u{063B}', '\u{06B1}', '\u{077F}',
            '\u{06AD}', '\u{06B4}', '\u{0763}', '\u{FED9}', '\u{FEDA}', '\u{FEDB}', '\u{FEDC}', '\u{06A9}',
            '\u{FB8E}', '\u{FB8F}', '\u{FB90}', '\u{FB91}', '\u{FB92}', '\u{FB93}', '\u{FB94}', '\u{FB95}',
        ],
    }
}

pub open spec fn diacritic_chars() -> Seq<char> {
    seq![
        '\u{0621}', '\u{0640}', '\u{064B}', '\u{064C}', '\u{064D}', '\u{064E}', '\u{064F}', '\u{0650}',
        '\u{0651}', '\u{0653}', '\u{06E4}', '\u{0654}', '\u{0655}', '\u{0670}', '\u{06DC}', '\u{06DF}',
        '\u{06E0}', '\u{06E1}', '\u{06E2}', '\u{06E3}', '\u{06E5}', '\u{06E6}', '\u{06E7}', '\u{06E8}',
        '\u{06EA}', '\u{06EB}', '\u{06EC}', '\u{06ED}', '\u{08F0}', '\u{08F1}', '\u{08F2}', '\u{0652}',
        '\u{FC5E}', '\u{FCF2}', '\u{FCF3}', '\u{FCF4}', '\u{FE71}', '\u{FE77}', '\u{FE79}', '\u{FE7B}',
        '\u{FE7D}', '\u{FE7F}', '\u{200D}',
    ]
}


/// Whether `c` is listed in class `k`.
pub open spec fn in_class(c: char, k: CharClass) -> bool {
    class_chars(k).contains(c)
}

/// Whether `c` is listed among the diacritics.
pub open spec fn is_diacritic_char(c: char) -> bool {
    diacritic_chars().contains(c)
}

/// The first class, from position `i` of the listing on, that holds `c`.
pub open spec fn class_from(c: char, i: int) -> Option<CharClass>
    decreases NUM_CLASSES - i,
{
    if i < 0 || i >= NUM_CLASSES {
        None
    } else if in_class(c, class_at(i)) {
        Some(class_at(i))
    } else {
        class_from(c, i + 1)
    }
}

/// The class of `c`, or `None` when `c` is no letter of the inventory.
pub open spec fn class_of(c: char) -> Option<CharClass> {
    class_from(c, 0)
}

/// Whether `c` belongs to the inventory: a letter of some class or a diacritic.
pub open spec fn in_inventory(c: char) -> bool {
    class_of(c) is Some || is_diacritic_char(c)
}

/// The classification tables, one list of code points per class.
pub struct Arachars {
    pub classes: Vec<Vec<char>>,
    pub diac: Vec<char>,
}

/// Whether `c` occurs in `v`.
pub fn contains_char(v: &Vec<char>, c: char) -> (r: bool)
    ensures
        r == v@.contains(c),
{
    let mut i: usize = 0;
    while i < v.len()
        invariant
            0 <= i <= v.len(),
            forall|j: int| 0 <= j < i ==> v@[j] != c,
        decreases v.len() - i,
    {
        if v[i] == c {
            return true;
        }
        i += 1;
    }
    false
}

impl Arachars {
    /// The tables hold exactly the listed code points.
    pub open spec fn wf(&self) -> bool {
        &&& self.classes@.len() == NUM_CLASSES
        &&& forall|i: int| 0 <= i < NUM_CLASSES ==> #[trigger] self.classes@[i]@ == class_chars(class_at(i))
        &&& self.diac@ == diacritic_chars()
    }

    /// The class of `c`, if it is a letter of the inventory.
    pub fn classify(&self, c: char) -> (r: Option<CharClass>)
        requires
            self.wf(),
        ensures
            r == class_of(c),
    {
        let mut i: usize = 0;
        while i < NUM_CLASSES
            invariant
                self.wf(),
                0 <= i <= NUM_CLASSES,
                class_of(c) == class_from(c, i as int),
            decreases NUM_CLASSES - i,
        {
            if contains_char(&self.classes[i], c) {
                return Some(class_at_index(i));
            }
            i += 1;
        }
        None
    }

    /// Whether `c` is a diacritic.
    pub fn is_diacritic(&self, c: char) -> (r: bool)
        requires
            self.wf(),
        ensures
            r == is_diacritic_char(c),
    {
        contains_char(&self.diac, c)
    }

    /// Whether `c` is a letter of some class or a diacritic.
    pub fn contains(&self, c: char) -> (r: bool)
        requires
            self.wf(),
        ensures
            r == in_inventory(c),
    {
        self.classify(c).is_some() || self.is_diacritic(c)
    }
}

/// Builds the classification tables.
pub fn load_arabic_inventory() -> (r: Arachars)
    ensures
        r.wf(),
{
    let r = Arachars {

        classes: vec![
            vec![
                '\u{066F}', '\u{08A5}', '\u{06A7}', '\u{0642}', '\u{06A8}', '\u{FED5}', '\u{FED6}', '\u{0641}',
                '\u{FED1}', '\u{FED2}',
            ],
            vec![
                '\u{06BA}', '\u{0646}', '\u{06BB}', '\u{06BC}', '\u{06B9}', '\u{0767}', '\u{0768}', '\u{0769}',
                '\u{06BD}', '\u{FEE5}', '\u{FEE6}',
            ],
            vec![
                '\u{0649}', '\u{06CC}', '\u{06CD}', '\u{0777}', '\u{064A}', '\u{06D0}', '\u{06D1}', '\u{0620}',
                '\u{0626}', '\u{063D}', '\u{06CE}', '\u{0775}', '\u{0776}', '\u{08A8}', '\u{08A9}', '\u{063E}',
                '\u{063F}', '\u{06D2}', '\u{06D3}', '\u{077A}', '\u{077B}', '\u{FEEF}', '\u{FEF0}', '\u{FBAE}',
                '\u{FBAF}', '\u{06CC}', '\u{FBFC}', '\u{FBFD}', '\u{FEF2}', '\u{FBB0}', '\u{FBB1}', '\u{FE89}',
                '\u{FE8A}',
            ],
            vec![
                '\u{0671}', '\u{0623}', '\u{0625}', '\u{0622}', '\u{0627}', '\u{0673}', '\u{0672}', '\u{0773}',
                '\u{0774}', '\u{0675}', '\u{FE83}', '\u{FE84}', '\u{FE87}', '\u{FE88}', '\u{FE81}', '\u{FE82}',
                '\u{FE8D}', '\u{FE8E}', '\u{FB50}', '\u{FB51}', '\u{FD3C}',
            ],
            vec![
                '\u{08AC}', '\u{066E}', '\u{0628}', '\u{0755}', '\u{08A0}', '\u{067B}', '\u{0750}', '\u{067E}',
                '\u{0680}', '\u{0752}', '\u{0679}', '\u{0756}', '\u{0754}', '\u{062A}', '\u{067A}', '\u{067C}',
                '\u{0753}', '\u{062B}', '\u{067D}', '\u{067F}', '\u{0751}', '\u{FEE7}', '\u{FEE8}', '\u{FBFE}',
                '\u{FBFF}', '\u{FEF3}', '\u{FEF4}', '\u{FE8B}', '\u{FE8C}', '\u{FE8F}', '\u{FE90}',
                '\u{FE91}', '\u{FE92}', '\u{FB56}', '\u{FB57}', '\u{FB58}', '\u{FB59}', '\u{FE95}', '\u{FE96}',
                '\u{FE97}', '\u{FE98}', '\u{FE99}', '\u{FE9A}', '\u{FE9B}', '\u{FE9C}', '\u{066E}',
            ],
            vec![
                '\u{062E}', '\u{062D}', '\u{062C}', '\u{0686}', '\u{076E}', '\u{077C}', '\u{0683}', '\u{0684}',
                '\u{0686}', '\u{0687}', '\u{0758}', '\u{076F}', '\u{0681}', '\u{0772}', '\u{06BF}', '\u{0682}',
                '\u{0757}', '\u{08A2}', '\u{0685}', '\u{FE9D}', '\u{FE9E}', '\u{FE9F}', '\u{FEA0}', '\u{FEA1}',
                '\u{FEA2}', '\u{FEA3}', '\u{FEA4}', '\u{FEA5}', '\u{FEA6}', '\u{FEA7}', '\u{FEA8}', '\u{FB7A}',
                '\u{FB7B}', '\u{FB7C}', '\u{FB7D}',
            ],
            vec![
                '\u{0631}', '\u{0632}', '\u{0693}', '\u{075B}', '\u{08AA}', '\u{0694}', '\u{0695}', '\u{0691}',
                '\u{0692}', '\u{06EF}', '\u{076C}', '\u{0696}', '\u{0697}', '\u{076B}', '\u{0698}', '\u{0699}',
                '\u{0771}', '\u{FEAD}', '\u{FEAE}', '\u{FEAF}', '\u{FEB0}', '\u{FB8A}', '\u{FB8B}',
            ],
            vec![
                '\u{062F}', '\u{0630}', '\u{0688}', '\u{0689}', '\u{068A}', '\u{075A}', '\u{068D}', '\u{0688}',
                '\u{06EE}', '\u{068B}', '\u{0759}', '\u{068C}', '\u{068E}', '\u{068F}', '\u{0690}', '\u{FEA9}',
                '\u{FEAA}', '\u{FEAB}', '\u{FEAC}',
            ],
            vec![
                '\u{0637}', '\u{0638}', '\u{08A3}', '\u{069F}', '\u{FEC1}', '\u{FEC2}', '\u{FEC3}', '\u{FEC4}',
                '\u{FEC5}', '\u{FEC6}', '\u{FEC7}', '\u{FEC8}',
            ],
            vec![
                '\u{0635}', '\u{0636}', '\u{069D}', '\u{06FB}', '\u{069E}', '\u{FEB9}', '\u{FEBA}', '\u{FEBB}',
                '\u{FEBC}', '\u{FEBD}', '\u{FEBE}', '\u{FEBF}', '\u{FEC0}',
            ],
            vec![
                '\u{0633}', '\u{0634}', '\u{069B}', '\u{077D}', '\u{077E}', '\u{069A}', '\u{076D}', '\u{075C}',
                '\u{0770}', '\u{06FA}', '\u{069C}', '\u{FEB1}', '\u{FEB2}', '\u{FEB3}', '\u{FEB4}', '\u{FEB5}',
                '\u{FEB6}', '\u{FEB7}', '\u{FEB8}',
            ],
            vec![
                '\u{06A1}', '\u{06A2}', '\u{0760}', '\u{06A5}', '\u{0761}', '\u{06A3}', '\u{06A4}', '\u{06A6}',
                '\u{08A4}', '\u{FED3}', '\u{FED4}', '\u{FED7}', '\u{FED8}',
            ],
            vec![
                '\u{0639}', '\u{063A}', '\u{06FC}', '\u{075D}', '\u{075F}', '\u{06A0}', '\u{075E}', '\u{FEC9}',
                '\u{FECA}', '\u{FECB}', '\u{FECC}', '\u{FECD}', '\u{FECE}', '\u{FECF}', '\u{FED0}',
            ],
            vec![
                '\u{0648}', '\u{06C4}', '\u{06C5}', '\u{08AB}', '\u{0624}', '\u{06C6}', '\u{06C7}', '\u{06C8}',
                '\u{06C9}', '\u{06CF}', '\u{0778}', '\u{0779}', '\u{06CA}', '\u{06CB}', '\u{FEED}', '\u{FEEE}',
                '\u{FE85}', '\u{FE86}',
            ],
            vec![
                '\u{0647}', '\u{06BE}', '\u{06C1}', '\u{06D5}', '\u{06C0}', '\u{06C2}', '\u{06FF}', '\u{0629}',
                '\u{06C3}', '\u{FBA4}', '\u{FBA5}', '\u{FE93}', '\u{FE94}', '\u{FBA6}', '\u{FBA7}', '\u{FBA8}',
                '\u{FBA9}', '\u{FEEA}', '\u{FEEB}', '\u{FEEC}', '\u{FBAA}', '\u{FBAB}', '\u{FBAC}', '\u{FBAD}',
            ],
            vec![
                '\u{0645}', '\u{0766}', '\u{0765}', '\u{08A7}', '\u{FEE1}', '\u{FEE2}', '\u{FEE3}', '\u{FEE4}',
            ],
            vec![
                '\u{0644}', '\u{076A}', '\u{08A6}', '\u{06B8}', '\u{06B5}', '\u{06B6}', '\u{06B7}', '\u{FEDD}',
                '\u{FEDE}', '\u{FEDF}', '\u{FEE0}',
            ],
            vec![
                '\u{0643}', '\u{06A9}', '\u{06AA}', '\u{06AB}', '\u{06AF}', '\u{06B0}', '\u{06B2}', '\u{06B3}',
                '\u{063C}', '\u{06AE}', '\u{0764}', '\u{06AE}', '\u{0762}', '\u{063B}', '\u{06B1}', '\u{077F}',
                '\u{06AD}', '\u{06B4}', '\u{0763}', '\u{FED9}', '\u{FEDA}', '\u{FEDB}', '\u{FEDC}', '\u{06A9}',
                '\u{FB8E}', '\u{FB8F}', '\u{FB90}', '\u{FB91}', '\u{FB92}', '\u{FB93}', '\u{FB94}', '\u{FB95}',
            ],
        ],
        diac: vec![
            '\u{0621}', '\u{0640}', '\u{064B}', '\u{064C}', '\u{064D}', '\u{064E}', '\u{064F}', '\u{0650}',
            '\u{0651}', '\u{0653}', '\u{06E4}', '\u{0654}', '\u{0655}', '\u{0670}', '\u{06DC}', '\u{06DF}',
            '\u{06E0}', '\u{06E1}', '\u{06E2}', '\u{06E3}', '\u{06E5}', '\u{06E6}', '\u{06E7}', '\u{06E8}',
            '\u{06EA}', '\u{06EB}', '\u{06EC}', '\u{06ED}', '\u{08F0}', '\u{08F1}', '\u{08F2}', '\u{0652}',
            '\u{FC5E}', '\u{FCF2}', '\u{FCF3}', '\u{FCF4}', '\u{FE71}', '\u{FE77}', '\u{FE79}', '\u{FE7B}',
            '\u{FE7D}', '\u{FE7F}', '\u{200D}',
        ],
    };
    assert forall|i: int| 0 <= i < NUM_CLASSES implies #[trigger] r.classes@[i]@ == class_chars(class_at(i)) by {
            if i == 0 {
                assert(r.classes@[0]@ == class_chars(CharClass::Q));
            } else if i == 1 {
                assert(r.classes@[1]@ == class_chars(CharClass::N));
            } else if i == 2 {
                assert(r.classes@[2]@ == class_chars(CharClass::Y));
            } else if i == 3 {
                assert(r.classes@[3]@ == class_chars(CharClass::A));
            } else if i == 4 {
                assert(r.classes@[4]@ == class_chars(CharClass::B));
            } else if i == 5 {
                assert(r.classes@[5]@ == class_chars(CharClass::G));
            } else if i == 6 {
                assert(r.classes@[6]@ == class_chars(CharClass::R));
            } else if i == 7 {
                assert(r.classes@[7]@ == class_chars(CharClass::D));
            } else if i == 8 {
                assert(r.classes@[8]@ == class_chars(CharClass::T));
            } else if i == 9 {
                assert(r.classes@[9]@ == class_chars(CharClass::C));
            } else if i == 10 {
                assert(r.classes@[10]@ == class_chars(CharClass::S));
            } else if i == 11 {
                assert(r.classes@[11]@ == class_chars(CharClass::F));
            } else if i == 12 {
                assert(r.classes@[12]@ == class_chars(CharClass::E));
            } else if i == 13 {
                assert(r.classes@[13]@ == class_chars(CharClass::W));
            } else if i == 14 {
                assert(r.classes@[14]@ == class_chars(CharClass::H));
            } else if i == 15 {
                assert(r.classes@[15]@ == class_chars(CharClass::M));
            } else if i == 16 {
                assert(r.classes@[16]@ == class_chars(CharClass::L));
            } else {
                assert(r.classes@[17]@ == class_chars(CharClass::K));
            }
    }
    r
}

} // verus!

verus! {

/// No code point of class Q is listed in a later class or among the
/// diacritics.
proof fn lemma_class_q_apart(c: char)
    ensures
        !(in_class(c, CharClass::Q) && in_class(c, CharClass::N)),
        !(in_class(c, CharClass::Q) && in_class(c, CharClass::Y)),
        !(in_class(c, CharClass::Q) && in_class(c, CharClass::A)),
        !(in_class(c, CharClass::Q) && in_class(c, CharClass::B)),
        !(in_class(c, CharClass::Q) && in_class(c, CharClass::G)),
        !(in_class(c, CharClass::Q) && in_class(c, CharClass::R)),
        !(in_class(c, CharClass::Q) && in_class(c, CharClass::D)),
        !(in_class(c, CharClass::Q) && in_class(c, CharClass::T)),
        !(in_class(c, CharClass::Q) && in_class(c, CharClass::C)),
        !(in_class(c, CharClass::Q) && in_class(c, CharClass::S)),
        !(in_class(c, CharClass::Q) && in_class(c, CharClass::F)),
        !(in_class(c, CharClass::Q) && in_class(c, CharClass::E)),
        !(in_class(c, CharClass::Q) && in_class(c, CharClass::W)),
        !(in_class(c, CharClass::Q) && in_class(c, CharClass::H)),
        !(in_class(c, CharClass::Q) && in_class(c, CharClass::M)),
        !(in_class(c, CharClass::Q) && in_class(c, CharClass::L)),
        !(in_class(c, CharClass::Q) && in_class(c, CharClass::K)),
        !(in_class(c, CharClass::Q) && is_diacritic_char(c)),
{
}

/// No code point of class N is listed in a later class or among the
/// diacritics.
proof fn lemma_class_n_apart(c: char)
    ensures
        !(in_class(c, CharClass::N) && in_class(c, CharClass::Y)),
        !(in_class(c, CharClass::N) && in_class(c, CharClass::A)),
        !(in_class(c, CharClass::N) && in_class(c, CharClass::B)),
        !(in_class(c, CharClass::N) && in_class(c, CharClass::G)),
        !(in_class(c, CharClass::N) && in_class(c, CharClass::R)),
        !(in_class(c, CharClass::N) && in_class(c, CharClass::D)),
        !(in_class(c, CharClass::N) && in_class(c, CharClass::T)),
        !(in_class(c, CharClass::N) && in_class(c, CharClass::C)),
        !(in_class(c, CharClass::N) && in_class(c, CharClass::S)),
        !(in_class(c, CharClass::N) && in_class(c, CharClass::F)),
        !(in_class(c, CharClass::N) && in_class(c, CharClass::E)),
        !(in_class(c, CharClass::N) && in_class(c, CharClass::W)),
        !(in_class(c, CharClass::N) && in_class(c, CharClass::H)),
        !(in_class(c, CharClass::N) && in_class(c, CharClass::M)),
        !(in_class(c, CharClass::N) && in_class(c, CharClass::L)),
        !(in_class(c, CharClass::N) && in_class(c, CharClass::K)),
        !(in_class(c, CharClass::N) && is_diacritic_char(c)),
{
}

/// No code point of class Y is listed in a later class or among the
/// diacritics.
proof fn lemma_class_y_apart(c: char)
    ensures
        !(in_class(c, CharClass::Y) && in_class(c, CharClass::A)),
        !(in_class(c, CharClass::Y) && in_class(c, CharClass::B)),
        !(in_class(c, CharClass::Y) && in_class(c, CharClass::G)),
        !(in_class(c, CharClass::Y) && in_class(c, CharClass::R)),
        !(in_class(c, CharClass::Y) && in_class(c, CharClass::D)),
        !(in_class(c, CharClass::Y) && in_class(c, CharClass::T)),
        !(in_class(c, CharClass::Y) && in_class(c, CharClass::C)),
        !(in_class(c, CharClass::Y) && in_class(c, CharClass::S)),
        !(in_class(c, CharClass::Y) && in_class(c, CharClass::F)),
        !(in_class(c, CharClass::Y) && in_class(c, CharClass::E)),
        !(in_class(c, CharClass::Y) && in_class(c, CharClass::W)),
        !(in_class(c, CharClass::Y) && in_class(c, CharClass::H)),
        !(in_class(c, CharClass::Y) && in_class(c, CharClass::M)),
        !(in_class(c, CharClass::Y) && in_class(c, CharClass::L)),
        !(in_class(c, CharClass::Y) && in_class(c, CharClass::K)),
        !(in_class(c, CharClass::Y) && is_diacritic_char(c)),
{
}

/// No code point of class A is listed in a later class or among the
/// diacritics.
proof fn lemma_class_a_apart(c: char)
    ensures
        !(in_class(c, CharClass::A) && in_class(c, CharClass::B)),
        !(in_class(c, CharClass::A) && in_class(c, CharClass::G)),
        !(in_class(c, CharClass::A) && in_class(c, CharClass::R)),
        !(in_class(c, CharClass::A) && in_class(c, CharClass::D)),
        !(in_class(c, CharClass::A) && in_class(c, CharClass::T)),
        !(in_class(c, CharClass::A) && in_class(c, CharClass::C)),
        !(in_class(c, CharClass::A) && in_class(c, CharClass::S)),
        !(in_class(c, CharClass::A) && in_class(c, CharClass::F)),
        !(in_class(c, CharClass::A) && in_class(c, CharClass::E)),
        !(in_class(c, CharClass::A) && in_class(c, CharClass::W)),
        !(in_class(c, CharClass::A) && in_class(c, CharClass::H)),
        !(in_class(c, CharClass::A) && in_class(c, CharClass::M)),
        !(in_class(c, CharClass::A) && in_class(c, CharClass::L)),
        !(in_class(c, CharClass::A) && in_class(c, CharClass::K)),
        !(in_class(c, CharClass::A) && is_diacritic_char(c)),
{
}

/// No code point of class B is listed in a later class or among the
/// diacritics.
proof fn lemma_class_b_apart(c: char)
    ensures
        !(in_class(c, CharClass::B) && in_class(c, CharClass::G)),
        !(in_class(c, CharClass::B) && in_class(c, CharClass::R)),
        !(in_class(c, CharClass::B) && in_class(c, CharClass::D)),
        !(in_class(c, CharClass::B) && in_class(c, CharClass::T)),
        !(in_class(c, CharClass::B) && in_class(c, CharClass::C)),
        !(in_class(c, CharClass::B) && in_class(c, CharClass::S)),
        !(in_class(c, CharClass::B) && in_class(c, CharClass::F)),
        !(in_class(c, CharClass::B) && in_class(c, CharClass::E)),
        !(in_class(c, CharClass::B) && in_class(c, CharClass::W)),
        !(in_class(c, CharClass::B) && in_class(c, CharClass::H)),
        !(in_class(c, CharClass::B) && in_class(c, CharClass::M)),
        !(in_class(c, CharClass::B) && in_class(c, CharClass::L)),
        !(in_class(c, CharClass::B) && in_class(c, CharClass::K)),
        !(in_class(c, CharClass::B) && is_diacritic_char(c)),
{
}

/// No code point of class G is listed in a later class or among the
/// diacritics.
proof fn lemma_class_g_apart(c: char)
    ensures
        !(in_class(c, CharClass::G) && in_class(c, CharClass::R)),
        !(in_class(c, CharClass::G) && in_class(c, CharClass::D)),
        !(in_class(c, CharClass::G) && in_class(c, CharClass::T)),
        !(in_class(c, CharClass::G) && in_class(c, CharClass::C)),
        !(in_class(c, CharClass::G) && in_class(c, CharClass::S)),
        !(in_class(c, CharClass::G) && in_class(c, CharClass::F)),
        !(in_class(c, CharClass::G) && in_class(c, CharClass::E)),
        !(in_class(c, CharClass::G) && in_class(c, CharClass::W)),
        !(in_class(c, CharClass::G) && in_class(c, CharClass::H)),
        !(in_class(c, CharClass::G) && in_class(c, CharClass::M)),
        !(in_class(c, CharClass::G) && in_class(c, CharClass::L)),
        !(in_class(c, CharClass::G) && in_class(c, CharClass::K)),
        !(in_class(c, CharClass::G) && is_diacritic_char(c)),
{
}

/// No code point of class R is listed in a later class or among the
/// diacritics.
proof fn lemma_class_r_apart(c: char)
    ensures
        !(in_class(c, CharClass::R) && in_class(c, CharClass::D)),
        !(in_class(c, CharClass::R) && in_class(c, CharClass::T)),
        !(in_class(c, CharClass::R) && in_class(c, CharClass::C)),
        !(in_class(c, CharClass::R) && in_class(c, CharClass::S)),
        !(in_class(c, CharClass::R) && in_class(c, CharClass::F)),
        !(in_class(c, CharClass::R) && in_class(c, CharClass::E)),
        !(in_class(c, CharClass::R) && in_class(c, CharClass::W)),
        !(in_class(c, CharClass::R) && in_class(c, CharClass::H)),
        !(in_class(c, CharClass::R) && in_class(c, CharClass::M)),
        !(in_class(c, CharClass::R) && in_class(c, CharClass::L)),
        !(in_class(c, CharClass::R) && in_class(c, CharClass::K)),
        !(in_class(c, CharClass::R) && is_diacritic_char(c)),
{
}

/// No code point of class D is listed in a later class or among the
/// diacritics.
proof fn lemma_class_d_apart(c: char)
    ensures
        !(in_class(c, CharClass::D) && in_class(c, CharClass::T)),
        !(in_class(c, CharClass::D) && in_class(c, CharClass::C)),
        !(in_class(c, CharClass::D) && in_class(c, CharClass::S)),
        !(in_class(c, CharClass::D) && in_class(c, CharClass::F)),
        !(in_class(c, CharClass::D) && in_class(c, CharClass::E)),
        !(in_class(c, CharClass::D) && in_class(c, CharClass::W)),
        !(in_class(c, CharClass::D) && in_class(c, CharClass::H)),
        !(in_class(c, CharClass::D) && in_class(c, CharClass::M)),
        !(in_class(c, CharClass::D) && in_class(c, CharClass::L)),
        !(in_class(c, CharClass::D) && in_class(c, CharClass::K)),
        !(in_class(c, CharClass::D) && is_diacritic_char(c)),
{
}

/// No code point of class T is listed in a later class or among the
/// diacritics.
proof fn lemma_class_t_apart(c: char)
    ensures
        !(in_class(c, CharClass::T) && in_class(c, CharClass::C)),
        !(in_class(c, CharClass::T) && in_class(c, CharClass::S)),
        !(in_class(c, CharClass::T) && in_class(c, CharClass::F)),
        !(in_class(c, CharClass::T) && in_class(c, CharClass::E)),
        !(in_class(c, CharClass::T) && in_class(c, CharClass::W)),
        !(in_class(c, CharClass::T) && in_class(c, CharClass::H)),
        !(in_class(c, CharClass::T) && in_class(c, CharClass::M)),
        !(in_class(c, CharClass::T) && in_class(c, CharClass::L)),
        !(in_class(c, CharClass::T) && in_class(c, CharClass::K)),
        !(in_class(c, CharClass::T) && is_diacritic_char(c)),
{
}

/// No code point of class C is listed in a later class or among the
/// diacritics.
proof fn lemma_class_c_apart(c: char)
    ensures
        !(in_class(c, CharClass::C) && in_class(c, CharClass::S)),
        !(in_class(c, CharClass::C) && in_class(c, CharClass::F)),
        !(in_class(c, CharClass::C) && in_class(c, CharClass::E)),
        !(in_class(c, CharClass::C) && in_class(c, CharClass::W)),
        !(in_class(c, CharClass::C) && in_class(c, CharClass::H)),
        !(in_class(c, CharClass::C) && in_class(c, CharClass::M)),
        !(in_class(c, CharClass::C) && in_class(c, CharClass::L)),
        !(in_class(c, CharClass::C) && in_class(c, CharClass::K)),
        !(in_class(c, CharClass::C) && is_diacritic_char(c)),
{
}

/// No code point of class S is listed in a later class or among the
/// diacritics.
proof fn lemma_class_s_apart(c: char)
    ensures
        !(in_class(c, CharClass::S) && in_class(c, CharClass::F)),
        !(in_class(c, CharClass::S) && in_class(c, CharClass::E)),
        !(in_class(c, CharClass::S) && in_class(c, CharClass::W)),
        !(in_class(c, CharClass::S) && in_class(c, CharClass::H)),
        !(in_class(c, CharClass::S) && in_class(c, CharClass::M)),
        !(in_class(c, CharClass::S) && in_class(c, CharClass::L)),
        !(in_class(c, CharClass::S) && in_class(c, CharClass::K)),
        !(in_class(c, CharClass::S) && is_diacritic_char(c)),
{
}

/// No code point of class F is listed in a later class or among the
/// diacritics.
proof fn lemma_class_f_apart(c: char)
    ensures
        !(in_class(c, CharClass::F) && in_class(c, CharClass::E)),
        !(in_class(c, CharClass::F) && in_class(c, CharClass::W)),
        !(in_class(c, CharClass::F) && in_class(c, CharClass::H)),
        !(in_class(c, CharClass::F) && in_class(c, CharClass::M)),
        !(in_class(c, CharClass::F) && in_class(c, CharClass::L)),
        !(in_class(c, CharClass::F) && in_class(c, CharClass::K)),
        !(in_class(c, CharClass::F) && is_diacritic_char(c)),
{
}

/// No code point of class E is listed in a later class or among the
/// diacritics.
proof fn lemma_class_e_apart(c: char)
    ensures
        !(in_class(c, CharClass::E) && in_class(c, CharClass::W)),
        !(in_class(c, CharClass::E) && in_class(c, CharClass::H)),
        !(in_class(c, CharClass::E) && in_class(c, CharClass::M)),
        !(in_class(c, CharClass::E) && in_class(c, CharClass::L)),
        !(in_class(c, CharClass::E) && in_class(c, CharClass::K)),
        !(in_class(c, CharClass::E) && is_diacritic_char(c)),
{
}

/// No code point of class W is listed in a later class or among the
/// diacritics.
proof fn lemma_class_w_apart(c: char)
    ensures
        !(in_class(c, CharClass::W) && in_class(c, CharClass::H)),
        !(in_class(c, CharClass::W) && in_class(c, CharClass::M)),
        !(in_class(c, CharClass::W) && in_class(c, CharClass::L)),
        !(in_class(c, CharClass::W) && in_class(c, CharClass::K)),
        !(in_class(c, CharClass::W) && is_diacritic_char(c)),
{
}

/// No code point of class H is listed in a later class or among the
/// diacritics.
proof fn lemma_class_h_apart(c: char)
    ensures
        !(in_class(c, CharClass::H) && in_class(c, CharClass::M)),
        !(in_class(c, CharClass::H) && in_class(c, CharClass::L)),
        !(in_class(c, CharClass::H) && in_class(c, CharClass::K)),
        !(in_class(c, CharClass::H) && is_diacritic_char(c)),
{
}

/// No code point of class M is listed in a later class or among the
/// diacritics.
proof fn lemma_class_m_apart(c: char)
    ensures
        !(in_class(c, CharClass::M) && in_class(c, CharClass::L)),
        !(in_class(c, CharClass::M) && in_class(c, CharClass::K)),
        !(in_class(c, CharClass::M) && is_diacritic_char(c)),
{
}

/// No code point of class L is listed in a later class or among the
/// diacritics.
proof fn lemma_class_l_apart(c: char)
    ensures
        !(in_class(c, CharClass::L) && in_class(c, CharClass::K)),
        !(in_class(c, CharClass::L) && is_diacritic_char(c)),
{
}

/// No code point of class K is listed in a later class or among the
/// diacritics.
proof fn lemma_class_k_apart(c: char)
    ensures
        !(in_class(c, CharClass::K) && is_diacritic_char(c)),
{
}

/// Each code point of the inventory belongs to at most one class, and the
/// class that classification finds is that one.
pub proof fn lemma_classes_disjoint(c: char, k1: CharClass, k2: CharClass)
    ensures
        in_class(c, k1) && in_class(c, k2) ==> k1 == k2,
        in_class(c, k1) ==> class_of(c) == Some(k1),
{
    lemma_class_q_apart(c);
    lemma_class_n_apart(c);
    lemma_class_y_apart(c);
    lemma_class_a_apart(c);
    lemma_class_b_apart(c);
    lemma_class_g_apart(c);
    lemma_class_r_apart(c);
    lemma_class_d_apart(c);
    lemma_class_t_apart(c);
    lemma_class_c_apart(c);
    lemma_class_s_apart(c);
    lemma_class_f_apart(c);
    lemma_class_e_apart(c);
    lemma_class_w_apart(c);
    lemma_class_h_apart(c);
    lemma_class_m_apart(c);
    lemma_class_l_apart(c);
    lemma_class_k_apart(c);
    reveal_with_fuel(class_from, 19);
}

/// No diacritic is listed in any class, so classification finds no class
/// for a diacritic.
pub proof fn lemma_letters_not_diacritics(c: char)
    ensures
        forall|k: CharClass| !(#[trigger] in_class(c, k) && is_diacritic_char(c)),
        is_diacritic_char(c) ==> class_of(c) is None,
{
    lemma_class_q_apart(c);
    lemma_class_n_apart(c);
    lemma_class_y_apart(c);
    lemma_class_a_apart(c);
    lemma_class_b_apart(c);
    lemma_class_g_apart(c);
    lemma_class_r_apart(c);
    lemma_class_d_apart(c);
    lemma_class_t_apart(c);
    lemma_class_c_apart(c);
    lemma_class_s_apart(c);
    lemma_class_f_apart(c);
    lemma_class_e_apart(c);
    lemma_class_w_apart(c);
    lemma_class_h_apart(c);
    lemma_class_m_apart(c);
    lemma_class_l_apart(c);
    lemma_class_k_apart(c);
    if class_of(c) is Some {
        lemma_class_of_listed(c);
    }
}

/// The class that classification finds lists the code point.
pub proof fn lemma_class_of_listed(c: char)
    requires
        class_of(c) is Some,
    ensures
        in_class(c, class_of(c)->0),
{
    reveal_with_fuel(class_from, 19);
}

} // verus!
