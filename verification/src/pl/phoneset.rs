//! The Polish phone inventory: a fixed enumeration of phones, each carrying
//! its canonical symbol, its IPA symbol and one feature tuple. The inventory
//! is read-only; the transducer only looks phones up, never creates new ones.

use vstd::prelude::*;
use vstd::string::StringExecFns;

use crate::phone;
use crate::phone::PhoneFeatures;
use crate::phone::VowelFrontness::{Front, Center, Back};
use crate::phone::VowelHeight::{High, Mid, Low};
use crate::phone::VowelRoundness::{Rounded, Unrounded};
use crate::phone::VowelNasality::Oral;
use crate::phone::ConsonantManner::{Stop, Approximant, Fricative, Affricate, Trill, Nasal, Lateral};
use crate::phone::ConsonantPlace::{Bilabial, Labiodental, Dental, Alveolar, Retroflex, Alveolopalatal, Palatal, Velar, Labiovelar};
use crate::phone::ConsonantPhonation::{Voiced, Unvoiced};

verus! {

/// The phones of Polish.
#[derive(Debug, PartialEq, Eq, Structural, Clone, Copy)]
pub enum Phone {
    A, E, I, O, U, Y,

    P, B, T, D, K, G,

    F, V,
    S, Z, C, Dz,
    Sz, Zh, Cz, Dzh,
    Si, Zi, Ci, Dzi,
    H,

    M, N, Ni, Ng,
    R, L,
    J, W, Wx,
}

impl phone::Phone for Phone {
    open spec fn spec_ipa(&self) -> Seq<char> {
        match *self {
            Phone::A => "ä"@,
            Phone::E => "ɛ"@,
            Phone::I => "i"@,
            Phone::O => "ɔ"@,
            Phone::U => "u"@,
            Phone::Y => "ɨ"@,
            Phone::P => "p"@,
            Phone::B => "b"@,
            Phone::T => "t"@,
            Phone::D => "d"@,
            Phone::K => "k"@,
            Phone::G => "g"@,
            Phone::F => "f"@,
            Phone::V => "v"@,
            Phone::S => "s"@,
            Phone::Z => "z"@,
            Phone::C => "t͡s"@,
            Phone::Dz => "d͡z"@,
            Phone::Sz => "ʂ"@,
            Phone::Zh => "ʐ"@,
            Phone::Cz => "t͡ʂ"@,
            Phone::Dzh => "d͡ʑ"@,
            Phone::Si => "ɕ"@,
            Phone::Zi => "ʑ"@,
            Phone::Ci => "t͡ɕ"@,
            Phone::Dzi => "d͡ʑ"@,
            Phone::H => "x"@,
            Phone::M => "m"@,
            Phone::N => "n"@,
            Phone::Ni => "ɲ"@,
            Phone::Ng => "ŋ"@,
            Phone::R => "r"@,
            Phone::L => "l"@,
            Phone::J => "j"@,
            Phone::W => "w"@,
            Phone::Wx => "w̃"@,
        }
    }

    open spec fn spec_name(&self) -> Seq<char> {
        match *self {
            Phone::A => "a"@,
            Phone::E => "e"@,
            Phone::I => "i"@,
            Phone::O => "o"@,
            Phone::U => "u"@,
            Phone::Y => "y"@,
            Phone::P => "p"@,
            Phone::B => "b"@,
            Phone::T => "t"@,
            Phone::D => "d"@,
            Phone::K => "k"@,
            Phone::G => "g"@,
            Phone::F => "f"@,
            Phone::V => "v"@,
            Phone::S => "s"@,
            Phone::Z => "z"@,
            Phone::C => "c"@,
            Phone::Dz => "dz"@,
            Phone::Sz => "sz"@,
            Phone::Zh => "zh"@,
            Phone::Cz => "cz"@,
            Phone::Dzh => "dzh"@,
            Phone::Si => "si"@,
            Phone::Zi => "zi"@,
            Phone::Ci => "ci"@,
            Phone::Dzi => "dzi"@,
            Phone::H => "h"@,
            Phone::M => "m"@,
            Phone::N => "n"@,
            Phone::Ni => "ni"@,
            Phone::Ng => "ng"@,
            Phone::R => "r"@,
            Phone::L => "l"@,
            Phone::J => "j"@,
            Phone::W => "w"@,
            Phone::Wx => "wx"@,
        }
    }

    open spec fn spec_features(&self) -> PhoneFeatures {
        match *self {
            Phone::A => PhoneFeatures::Vowel { frontness: Center, height: Low, roundness: Unrounded, nasality: Oral },
            Phone::E => PhoneFeatures::Vowel { frontness: Front, height: Mid, roundness: Unrounded, nasality: Oral },
            Phone::I => PhoneFeatures::Vowel { frontness: Front, height: High, roundness: Unrounded, nasality: Oral },
            Phone::O => PhoneFeatures::Vowel { frontness: Back, height: Mid, roundness: Rounded, nasality: Oral },
            Phone::U => PhoneFeatures::Vowel { frontness: Back, height: High, roundness: Rounded, nasality: Oral },
            Phone::Y => PhoneFeatures::Vowel { frontness: Center, height: High, roundness: Unrounded, nasality: Oral },
            Phone::P => PhoneFeatures::Consonant { manner: Stop, place: Bilabial, phonation: Unvoiced },
            Phone::B => PhoneFeatures::Consonant { manner: Stop, place: Bilabial, phonation: Voiced },
            Phone::T => PhoneFeatures::Consonant { manner: Stop, place: Alveolar, phonation: Unvoiced },
            Phone::D => PhoneFeatures::Consonant { manner: Stop, place: Alveolar, phonation: Voiced },
            Phone::K => PhoneFeatures::Consonant { manner: Stop, place: Velar, phonation: Unvoiced },
            Phone::G => PhoneFeatures::Consonant { manner: Stop, place: Velar, phonation: Voiced },
            Phone::F => PhoneFeatures::Consonant { manner: Fricative, place: Labiodental, phonation: Unvoiced },
            Phone::V => PhoneFeatures::Consonant { manner: Fricative, place: Labiodental, phonation: Voiced },
            Phone::S => PhoneFeatures::Consonant { manner: Fricative, place: Alveolar, phonation: Unvoiced },
            Phone::Z => PhoneFeatures::Consonant { manner: Fricative, place: Alveolar, phonation: Voiced },
            Phone::C => PhoneFeatures::Consonant { manner: Affricate, place: Alveolar, phonation: Unvoiced },
            Phone::Dz => PhoneFeatures::Consonant { manner: Affricate, place: Alveolar, phonation: Voiced },
            Phone::Sz => PhoneFeatures::Consonant { manner: Fricative, place: Retroflex, phonation: Unvoiced },
            Phone::Zh => PhoneFeatures::Consonant { manner: Fricative, place: Retroflex, phonation: Voiced },
            Phone::Cz => PhoneFeatures::Consonant { manner: Affricate, place: Retroflex, phonation: Unvoiced },
            Phone::Dzh => PhoneFeatures::Consonant { manner: Affricate, place: Retroflex, phonation: Voiced },
            Phone::Si => PhoneFeatures::Consonant { manner: Fricative, place: Alveolopalatal, phonation: Unvoiced },
            Phone::Zi => PhoneFeatures::Consonant { manner: Fricative, place: Alveolopalatal, phonation: Voiced },
            Phone::Ci => PhoneFeatures::Consonant { manner: Affricate, place: Alveolopalatal, phonation: Unvoiced },
            Phone::Dzi => PhoneFeatures::Consonant { manner: Affricate, place: Alveolopalatal, phonation: Voiced },
            Phone::H => PhoneFeatures::Consonant { manner: Fricative, place: Velar, phonation: Unvoiced },
            Phone::M => PhoneFeatures::Consonant { manner: Nasal, place: Bilabial, phonation: Voiced },
            Phone::N => PhoneFeatures::Consonant { manner: Nasal, place: Dental, phonation: Voiced },
            Phone::Ni => PhoneFeatures::Consonant { manner: Nasal, place: Palatal, phonation: Voiced },
            Phone::Ng => PhoneFeatures::Consonant { manner: Nasal, place: Velar, phonation: Voiced },
            Phone::R => PhoneFeatures::Consonant { manner: Trill, place: Alveolar, phonation: Voiced },
            Phone::L => PhoneFeatures::Consonant { manner: Lateral, place: Alveolar, phonation: Voiced },
            Phone::J => PhoneFeatures::Consonant { manner: Approximant, place: Palatal, phonation: Voiced },
            Phone::W => PhoneFeatures::Consonant { manner: Approximant, place: Labiovelar, phonation: Voiced },
            Phone::Wx => PhoneFeatures::Consonant { manner: Nasal, place: Labiovelar, phonation: Voiced },
        }
    }

    fn ipa(&self) -> (r: String) {
        match *self {
            Phone::A => String::from_str("ä"),
            Phone::E => String::from_str("ɛ"),
            Phone::I => String::from_str("i"),
            Phone::O => String::from_str("ɔ"),
            Phone::U => String::from_str("u"),
            Phone::Y => String::from_str("ɨ"),
            Phone::P => String::from_str("p"),
            Phone::B => String::from_str("b"),
            Phone::T => String::from_str("t"),
            Phone::D => String::from_str("d"),
            Phone::K => String::from_str("k"),
            Phone::G => String::from_str("g"),
            Phone::F => String::from_str("f"),
            Phone::V => String::from_str("v"),
            Phone::S => String::from_str("s"),
            Phone::Z => String::from_str("z"),
            Phone::C => String::from_str("t͡s"),
            Phone::Dz => String::from_str("d͡z"),
            Phone::Sz => String::from_str("ʂ"),
            Phone::Zh => String::from_str("ʐ"),
            Phone::Cz => String::from_str("t͡ʂ"),
            Phone::Dzh => String::from_str("d͡ʑ"),
            Phone::Si => String::from_str("ɕ"),
            Phone::Zi => String::from_str("ʑ"),
            Phone::Ci => String::from_str("t͡ɕ"),
            Phone::Dzi => String::from_str("d͡ʑ"),
            Phone::H => String::from_str("x"),
            Phone::M => String::from_str("m"),
            Phone::N => String::from_str("n"),
            Phone::Ni => String::from_str("ɲ"),
            Phone::Ng => String::from_str("ŋ"),
            Phone::R => String::from_str("r"),
            Phone::L => String::from_str("l"),
            Phone::J => String::from_str("j"),
            Phone::W => String::from_str("w"),
            Phone::Wx => String::from_str("w̃"),
        }
    }

    fn name(&self) -> (r: String) {
        match *self {
            Phone::A => String::from_str("a"),
            Phone::E => String::from_str("e"),
            Phone::I => String::from_str("i"),
            Phone::O => String::from_str("o"),
            Phone::U => String::from_str("u"),
            Phone::Y => String::from_str("y"),
            Phone::P => String::from_str("p"),
            Phone::B => String::from_str("b"),
            Phone::T => String::from_str("t"),
            Phone::D => String::from_str("d"),
            Phone::K => String::from_str("k"),
            Phone::G => String::from_str("g"),
            Phone::F => String::from_str("f"),
            Phone::V => String::from_str("v"),
            Phone::S => String::from_str("s"),
            Phone::Z => String::from_str("z"),
            Phone::C => String::from_str("c"),
            Phone::Dz => String::from_str("dz"),
            Phone::Sz => String::from_str("sz"),
            Phone::Zh => String::from_str("zh"),
            Phone::Cz => String::from_str("cz"),
            Phone::Dzh => String::from_str("dzh"),
            Phone::Si => String::from_str("si"),
            Phone::Zi => String::from_str("zi"),
            Phone::Ci => String::from_str("ci"),
            Phone::Dzi => String::from_str("dzi"),
            Phone::H => String::from_str("h"),
            Phone::M => String::from_str("m"),
            Phone::N => String::from_str("n"),
            Phone::Ni => String::from_str("ni"),
            Phone::Ng => String::from_str("ng"),
            Phone::R => String::from_str("r"),
            Phone::L => String::from_str("l"),
            Phone::J => String::from_str("j"),
            Phone::W => String::from_str("w"),
            Phone::Wx => String::from_str("wx"),
        }
    }

    fn features(&self) -> (r: PhoneFeatures) {
        match *self {
            Phone::A => PhoneFeatures::Vowel { frontness: Center, height: Low, roundness: Unrounded, nasality: Oral },
            Phone::E => PhoneFeatures::Vowel { frontness: Front, height: Mid, roundness: Unrounded, nasality: Oral },
            Phone::I => PhoneFeatures::Vowel { frontness: Front, height: High, roundness: Unrounded, nasality: Oral },
            Phone::O => PhoneFeatures::Vowel { frontness: Back, height: Mid, roundness: Rounded, nasality: Oral },
            Phone::U => PhoneFeatures::Vowel { frontness: Back, height: High, roundness: Rounded, nasality: Oral },
            Phone::Y => PhoneFeatures::Vowel { frontness: Center, height: High, roundness: Unrounded, nasality: Oral },
            Phone::P => PhoneFeatures::Consonant { manner: Stop, place: Bilabial, phonation: Unvoiced },
            Phone::B => PhoneFeatures::Consonant { manner: Stop, place: Bilabial, phonation: Voiced },
            Phone::T => PhoneFeatures::Consonant { manner: Stop, place: Alveolar, phonation: Unvoiced },
            Phone::D => PhoneFeatures::Consonant { manner: Stop, place: Alveolar, phonation: Voiced },
            Phone::K => PhoneFeatures::Consonant { manner: Stop, place: Velar, phonation: Unvoiced },
            Phone::G => PhoneFeatures::Consonant { manner: Stop, place: Velar, phonation: Voiced },
            Phone::F => PhoneFeatures::Consonant { manner: Fricative, place: Labiodental, phonation: Unvoiced },
            Phone::V => PhoneFeatures::Consonant { manner: Fricative, place: Labiodental, phonation: Voiced },
            Phone::S => PhoneFeatures::Consonant { manner: Fricative, place: Alveolar, phonation: Unvoiced },
            Phone::Z => PhoneFeatures::Consonant { manner: Fricative, place: Alveolar, phonation: Voiced },
            Phone::C => PhoneFeatures::Consonant { manner: Affricate, place: Alveolar, phonation: Unvoiced },
            Phone::Dz => PhoneFeatures::Consonant { manner: Affricate, place: Alveolar, phonation: Voiced },
            Phone::Sz => PhoneFeatures::Consonant { manner: Fricative, place: Retroflex, phonation: Unvoiced },
            Phone::Zh => PhoneFeatures::Consonant { manner: Fricative, place: Retroflex, phonation: Voiced },
            Phone::Cz => PhoneFeatures::Consonant { manner: Affricate, place: Retroflex, phonation: Unvoiced },
            Phone::Dzh => PhoneFeatures::Consonant { manner: Affricate, place: Retroflex, phonation: Voiced },
            Phone::Si => PhoneFeatures::Consonant { manner: Fricative, place: Alveolopalatal, phonation: Unvoiced },
            Phone::Zi => PhoneFeatures::Consonant { manner: Fricative, place: Alveolopalatal, phonation: Voiced },
            Phone::Ci => PhoneFeatures::Consonant { manner: Affricate, place: Alveolopalatal, phonation: Unvoiced },
            Phone::Dzi => PhoneFeatures::Consonant { manner: Affricate, place: Alveolopalatal, phonation: Voiced },
            Phone::H => PhoneFeatures::Consonant { manner: Fricative, place: Velar, phonation: Unvoiced },
            Phone::M => PhoneFeatures::Consonant { manner: Nasal, place: Bilabial, phonation: Voiced },
            Phone::N => PhoneFeatures::Consonant { manner: Nasal, place: Dental, phonation: Voiced },
            Phone::Ni => PhoneFeatures::Consonant { manner: Nasal, place: Palatal, phonation: Voiced },
            Phone::Ng => PhoneFeatures::Consonant { manner: Nasal, place: Velar, phonation: Voiced },
            Phone::R => PhoneFeatures::Consonant { manner: Trill, place: Alveolar, phonation: Voiced },
            Phone::L => PhoneFeatures::Consonant { manner: Lateral, place: Alveolar, phonation: Voiced },
            Phone::J => PhoneFeatures::Consonant { manner: Approximant, place: Palatal, phonation: Voiced },
            Phone::W => PhoneFeatures::Consonant { manner: Approximant, place: Labiovelar, phonation: Voiced },
            Phone::Wx => PhoneFeatures::Consonant { manner: Nasal, place: Labiovelar, phonation: Voiced },
        }
    }
}

} // verus!
