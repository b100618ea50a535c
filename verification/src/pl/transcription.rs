//! The grapheme-to-phone transducer for Polish.

use vstd::prelude::*;

use crate::phone::Phone;
use crate::phone::PhoneFeatures;
use crate::phone::ConsonantManner;
use crate::phone::ConsonantPhonation;
use crate::phone::ConsonantPlace;
use crate::pl::phoneset;

verus! {

/// Whether a following phone can color a preceding nasal vowel: true of
/// consonants articulated as stops or affricates.
pub open spec fn spec_modifies_nasals(p: phoneset::Phone) -> bool {
    match p.spec_features() {
        PhoneFeatures::Consonant { manner: ConsonantManner::Stop, .. } => true,
        PhoneFeatures::Consonant { manner: ConsonantManner::Affricate, .. } => true,
        _ => false,
    }
}

/// Whether a phone participates in nasal assimilation.
pub fn modifies_nasals(p: &phoneset::Phone) -> (r: bool)
    ensures
        r == spec_modifies_nasals(*p),
{
    match p.features() {
        PhoneFeatures::Consonant { manner: ConsonantManner::Stop, .. } => true,
        PhoneFeatures::Consonant { manner: ConsonantManner::Affricate, .. } => true,
        _ => false,
    }
}

/// Whether a phone participates in voicing assimilation: true exactly of the
/// obstruents (stops, fricatives and affricates); sonorants never alternate.
pub open spec fn spec_modifies_voicing(p: phoneset::Phone) -> bool {
    match p.spec_features() {
        PhoneFeatures::Consonant { manner: ConsonantManner::Stop, .. } => true,
        PhoneFeatures::Consonant { manner: ConsonantManner::Fricative, .. } => true,
        PhoneFeatures::Consonant { manner: ConsonantManner::Affricate, .. } => true,
        _ => false,
    }
}

/// Whether a phone participates in voicing assimilation.
pub fn modifies_voicing(p: &phoneset::Phone) -> (r: bool)
    ensures
        r == spec_modifies_voicing(*p),
{
    match p.features() {
        PhoneFeatures::Consonant { manner: ConsonantManner::Stop, .. } => true,
        PhoneFeatures::Consonant { manner: ConsonantManner::Fricative, .. } => true,
        PhoneFeatures::Consonant { manner: ConsonantManner::Affricate, .. } => true,
        _ => false,
    }
}

/// Whether a phone is an unvoiced consonant.
pub open spec fn spec_unvoiced(p: phoneset::Phone) -> bool {
    match p.spec_features() {
        PhoneFeatures::Consonant { phonation: ConsonantPhonation::Unvoiced, .. } => true,
        _ => false,
    }
}

/// Whether a phone devoices the obstruent before it: an unvoiced obstruent.
pub open spec fn spec_devoices(p: phoneset::Phone) -> bool {
    spec_modifies_voicing(p) && spec_unvoiced(p)
}

/// Whether a phone devoices the obstruent before it.
pub fn devoices(p: &phoneset::Phone) -> (r: bool)
    ensures
        r == spec_devoices(*p),
{
    modifies_voicing(p) && match p.features() {
        PhoneFeatures::Consonant { phonation: ConsonantPhonation::Unvoiced, .. } => true,
        _ => false,
    }
}

/// Whether a phone voices the obstruent before it: a voiced obstruent
/// (a voiced nasal is no trigger; voicing assimilation is an
/// obstruent-to-obstruent phenomenon).
pub open spec fn spec_envoices(p: phoneset::Phone) -> bool {
    spec_modifies_voicing(p) && match p.spec_features() {
        PhoneFeatures::Consonant {
            phonation: ConsonantPhonation::Voiced,
            manner: m,
            ..
        } => m != ConsonantManner::Nasal,
        _ => false,
    }
}

/// Whether a phone voices the obstruent before it.
pub fn envoices(p: &phoneset::Phone) -> (r: bool)
    ensures
        r == spec_envoices(*p),
{
    modifies_voicing(p) && match p.features() {
        PhoneFeatures::Consonant {
            phonation: ConsonantPhonation::Voiced,
            manner: m,
            ..
        } => m != ConsonantManner::Nasal,
        _ => false,
    }
}

/// The voiceless partner of a phone: obstruents map to the unvoiced phone of
/// the same manner and place, every other phone to itself.
pub open spec fn spec_devoiced(p: phoneset::Phone) -> phoneset::Phone {
    match p {
        phoneset::Phone::B => phoneset::Phone::P,
        phoneset::Phone::D => phoneset::Phone::T,
        phoneset::Phone::G => phoneset::Phone::K,
        phoneset::Phone::V => phoneset::Phone::F,
        phoneset::Phone::Z => phoneset::Phone::S,
        phoneset::Phone::Dz => phoneset::Phone::C,
        phoneset::Phone::Zh => phoneset::Phone::Sz,
        phoneset::Phone::Dzh => phoneset::Phone::Cz,
        phoneset::Phone::Zi => phoneset::Phone::Si,
        phoneset::Phone::Dzi => phoneset::Phone::Ci,
        other => other,
    }
}

/// The voiced partner of a phone: obstruents map to the voiced phone of the
/// same manner and place, every other phone to itself. The velar fricative
/// has no voiced partner in the inventory and maps to itself.
pub open spec fn spec_envoiced(p: phoneset::Phone) -> phoneset::Phone {
    match p {
        phoneset::Phone::P => phoneset::Phone::B,
        phoneset::Phone::T => phoneset::Phone::D,
        phoneset::Phone::K => phoneset::Phone::G,
        phoneset::Phone::F => phoneset::Phone::V,
        phoneset::Phone::S => phoneset::Phone::Z,
        phoneset::Phone::C => phoneset::Phone::Dz,
        phoneset::Phone::Sz => phoneset::Phone::Zh,
        phoneset::Phone::Cz => phoneset::Phone::Dzh,
        phoneset::Phone::Si => phoneset::Phone::Zi,
        phoneset::Phone::Ci => phoneset::Phone::Dzi,
        other => other,
    }
}

/// Regressive voicing assimilation, resolved inline from one phone of
/// lookahead: an obstruent surfaces voiceless before a devoicing trigger,
/// voiced before a voicing trigger, and with its lexical phonation otherwise.
/// Phones that are no obstruents are returned unchanged.
pub open spec fn spec_assimilate_voicing(p: phoneset::Phone, np: Option<phoneset::Phone>) -> phoneset::Phone {
    if spec_modifies_voicing(p) {
        match np {
            Option::Some(q) => if spec_devoices(q) {
                spec_devoiced(p)
            } else if spec_envoices(q) {
                spec_envoiced(p)
            } else {
                p
            },
            Option::None => p,
        }
    } else {
        p
    }
}

/// The voiceless partner of a phone.
pub fn devoiced(p: phoneset::Phone) -> (r: phoneset::Phone)
    ensures
        r == spec_devoiced(p),
{
    match p {
        phoneset::Phone::B => phoneset::Phone::P,
        phoneset::Phone::D => phoneset::Phone::T,
        phoneset::Phone::G => phoneset::Phone::K,
        phoneset::Phone::V => phoneset::Phone::F,
        phoneset::Phone::Z => phoneset::Phone::S,
        phoneset::Phone::Dz => phoneset::Phone::C,
        phoneset::Phone::Zh => phoneset::Phone::Sz,
        phoneset::Phone::Dzh => phoneset::Phone::Cz,
        phoneset::Phone::Zi => phoneset::Phone::Si,
        phoneset::Phone::Dzi => phoneset::Phone::Ci,
        other => other,
    }
}

/// The voiced partner of a phone.
pub fn envoiced(p: phoneset::Phone) -> (r: phoneset::Phone)
    ensures
        r == spec_envoiced(p),
{
    match p {
        phoneset::Phone::P => phoneset::Phone::B,
        phoneset::Phone::T => phoneset::Phone::D,
        phoneset::Phone::K => phoneset::Phone::G,
        phoneset::Phone::F => phoneset::Phone::V,
        phoneset::Phone::S => phoneset::Phone::Z,
        phoneset::Phone::C => phoneset::Phone::Dz,
        phoneset::Phone::Sz => phoneset::Phone::Zh,
        phoneset::Phone::Cz => phoneset::Phone::Dzh,
        phoneset::Phone::Si => phoneset::Phone::Zi,
        phoneset::Phone::Ci => phoneset::Phone::Dzi,
        other => other,
    }
}

/// Regressive voicing assimilation, resolved inline from one phone of
/// lookahead.
pub fn assimilate_voicing(p: phoneset::Phone, np: Option<phoneset::Phone>) -> (r: phoneset::Phone)
    ensures
        r == spec_assimilate_voicing(p, np),
{
    if modifies_voicing(&p) {
        match np {
            Option::Some(q) => if devoices(&q) {
                devoiced(p)
            } else if envoices(&q) {
                envoiced(p)
            } else {
                p
            },
            Option::None => p,
        }
    } else {
        p
    }
}

/// The single phone a letter contributes, after regressive voicing
/// assimilation against the first phone already produced to its right.
pub open spec fn spec_surfaced(p: phoneset::Phone, np: Option<phoneset::Phone>) -> Option<Seq<phoneset::Phone>> {
    Option::Some(seq![spec_assimilate_voicing(p, np)])
}

/// The place-matched nasal consonant that a nasal vowel letter surfaces
/// before the given phone, when that phone takes part in nasal assimilation:
/// bilabial place calls for the bilabial nasal, alveolar or alveolopalatal
/// place for the alveolar nasal, velar place for the velar nasal.
pub open spec fn spec_nasal_consonant(q: phoneset::Phone) -> Option<phoneset::Phone> {
    if spec_modifies_nasals(q) {
        match q.spec_features() {
            PhoneFeatures::Consonant { place: ConsonantPlace::Bilabial, .. } =>
                Option::Some(phoneset::Phone::M),
            PhoneFeatures::Consonant { place: ConsonantPlace::Alveolar, .. } =>
                Option::Some(phoneset::Phone::N),
            PhoneFeatures::Consonant { place: ConsonantPlace::Alveolopalatal, .. } =>
                Option::Some(phoneset::Phone::N),
            PhoneFeatures::Consonant { place: ConsonantPlace::Velar, .. } =>
                Option::Some(phoneset::Phone::Ng),
            _ => Option::None,
        }
    } else {
        Option::None
    }
}

/// Letters whose lexical phone is a voiceless obstruent. A letter for the
/// labiodental fricative right after one of these surfaces voiceless: the one
/// progressive assimilation of the language, decided from the raw preceding
/// character so that a single right-to-left sweep resolves it.
pub open spec fn spec_voiceless_letter(c: char) -> bool {
    c == 'p' || c == 't' || c == 'k' || c == 'c' || c == 'ć' || c == 's' || c == 'ś'
        || c == 'f' || c == 'h'
}

/// Whether a character belongs to the recognized Polish orthographic
/// alphabet: exactly the characters with a transduction rule.
pub open spec fn spec_in_alphabet(c: char) -> bool {
    c == 'a' || c == 'ą' || c == 'b' || c == 'c' || c == 'ć' || c == 'd' || c == 'e'
        || c == 'ę' || c == 'f' || c == 'g' || c == 'h' || c == 'i' || c == 'j'
        || c == 'k' || c == 'l' || c == 'ł' || c == 'm' || c == 'n' || c == 'ń'
        || c == 'o' || c == 'ó' || c == 'p' || c == 'r' || c == 's' || c == 'ś'
        || c == 't' || c == 'u' || c == 'w' || c == 'y' || c == 'z' || c == 'ź'
        || c == 'ż'
}

/// The transduction rule table: the phones one character contributes, given
/// the raw character before it, the two raw characters after it, and the
/// first phone already produced for the word's remainder. `None` stands for
/// a character with no phonological mapping; a character may contribute
/// zero, one or two phones.
pub open spec fn spec_char_phones(
    prev: Option<char>,
    c: char,
    next: Option<char>,
    nnext: Option<char>,
    np: Option<phoneset::Phone>,
) -> Option<Seq<phoneset::Phone>> {
    if c == 'a' {
        spec_surfaced(phoneset::Phone::A, np)
    } else if c == 'ą' {
        match np {
            Option::None => Option::Some(seq![phoneset::Phone::O, phoneset::Phone::Wx]),
            Option::Some(q) => match spec_nasal_consonant(q) {
                Option::Some(n) => Option::Some(seq![phoneset::Phone::O, n]),
                Option::None => Option::Some(seq![phoneset::Phone::O, phoneset::Phone::Wx]),
            },
        }
    } else if c == 'b' {
        spec_surfaced(phoneset::Phone::B, np)
    } else if c == 'c' {
        if next == Option::Some('z') {
            spec_surfaced(phoneset::Phone::Cz, np)
        } else if next == Option::Some('i') {
            spec_surfaced(phoneset::Phone::Ci, np)
        } else if next == Option::Some('h') {
            spec_surfaced(phoneset::Phone::H, np)
        } else {
            spec_surfaced(phoneset::Phone::C, np)
        }
    } else if c == 'ć' {
        spec_surfaced(phoneset::Phone::Ci, np)
    } else if c == 'd' {
        if next == Option::Some('z') {
            if nnext == Option::Some('i') {
                spec_surfaced(phoneset::Phone::Dzi, np)
            } else {
                spec_surfaced(phoneset::Phone::Dz, np)
            }
        } else if next == Option::Some('ź') {
            spec_surfaced(phoneset::Phone::Dzi, np)
        } else if next == Option::Some('ż') {
            spec_surfaced(phoneset::Phone::Dzh, np)
        } else {
            spec_surfaced(phoneset::Phone::D, np)
        }
    } else if c == 'e' {
        spec_surfaced(phoneset::Phone::E, np)
    } else if c == 'ę' {
        match np {
            Option::None => Option::Some(seq![phoneset::Phone::E, phoneset::Phone::Wx]),
            Option::Some(q) => match spec_nasal_consonant(q) {
                Option::Some(n) => Option::Some(seq![phoneset::Phone::E, n]),
                Option::None => Option::Some(seq![phoneset::Phone::E, phoneset::Phone::Wx]),
            },
        }
    } else if c == 'f' {
        spec_surfaced(phoneset::Phone::F, np)
    } else if c == 'g' {
        spec_surfaced(phoneset::Phone::G, np)
    } else if c == 'h' {
        if prev == Option::Some('c') {
            Option::Some(Seq::empty())
        } else {
            spec_surfaced(phoneset::Phone::H, np)
        }
    } else if c == 'i' {
        match np {
            Option::Some(q) => match q.spec_features() {
                PhoneFeatures::Consonant { .. } => spec_surfaced(phoneset::Phone::I, np),
                PhoneFeatures::Vowel { .. } => {
                    if prev == Option::Some('c') || prev == Option::Some('s')
                        || prev == Option::Some('z') || prev == Option::Some('n') {
                        Option::Some(Seq::empty())
                    } else {
                        spec_surfaced(phoneset::Phone::J, np)
                    }
                },
            },
            Option::None => spec_surfaced(phoneset::Phone::I, np),
        }
    } else if c == 'j' {
        spec_surfaced(phoneset::Phone::J, np)
    } else if c == 'k' {
        spec_surfaced(phoneset::Phone::K, np)
    } else if c == 'l' {
        spec_surfaced(phoneset::Phone::L, np)
    } else if c == 'ł' {
        spec_surfaced(phoneset::Phone::W, np)
    } else if c == 'm' {
        spec_surfaced(phoneset::Phone::M, np)
    } else if c == 'n' {
        if next == Option::Some('i') {
            spec_surfaced(phoneset::Phone::Ni, np)
        } else {
            match np {
                Option::Some(q) => match q.spec_features() {
                    PhoneFeatures::Consonant { place: ConsonantPlace::Velar, .. } =>
                        spec_surfaced(phoneset::Phone::Ng, np),
                    _ => spec_surfaced(phoneset::Phone::N, np),
                },
                Option::None => spec_surfaced(phoneset::Phone::N, np),
            }
        }
    } else if c == 'ń' {
        spec_surfaced(phoneset::Phone::Ni, np)
    } else if c == 'o' {
        spec_surfaced(phoneset::Phone::O, np)
    } else if c == 'ó' {
        spec_surfaced(phoneset::Phone::U, np)
    } else if c == 'p' {
        spec_surfaced(phoneset::Phone::P, np)
    } else if c == 'r' {
        if next == Option::Some('z') {
            spec_surfaced(phoneset::Phone::Zh, np)
        } else {
            spec_surfaced(phoneset::Phone::R, np)
        }
    } else if c == 's' {
        if next == Option::Some('i') {
            spec_surfaced(phoneset::Phone::Si, np)
        } else if next == Option::Some('z') {
            spec_surfaced(phoneset::Phone::Sz, np)
        } else {
            spec_surfaced(phoneset::Phone::S, np)
        }
    } else if c == 'ś' {
        spec_surfaced(phoneset::Phone::Si, np)
    } else if c == 't' {
        spec_surfaced(phoneset::Phone::T, np)
    } else if c == 'u' {
        spec_surfaced(phoneset::Phone::U, np)
    } else if c == 'w' {
        match prev {
            Option::Some(pc) => if spec_voiceless_letter(pc) {
                spec_surfaced(phoneset::Phone::F, np)
            } else {
                spec_surfaced(phoneset::Phone::V, np)
            },
            Option::None => spec_surfaced(phoneset::Phone::V, np),
        }
    } else if c == 'y' {
        spec_surfaced(phoneset::Phone::Y, np)
    } else if c == 'z' {
        if prev == Option::Some('c') || prev == Option::Some('d')
            || prev == Option::Some('r') || prev == Option::Some('s') {
            Option::Some(Seq::empty())
        } else {
            spec_surfaced(phoneset::Phone::Z, np)
        }
    } else if c == 'ź' {
        if prev == Option::Some('d') {
            Option::Some(Seq::empty())
        } else {
            spec_surfaced(phoneset::Phone::Zi, np)
        }
    } else if c == 'ż' {
        if prev == Option::Some('d') {
            Option::Some(Seq::empty())
        } else {
            spec_surfaced(phoneset::Phone::Zh, np)
        }
    } else {
        Option::None
    }
}

/// The phone sequences of the two sides of a transcription result, for
/// stating contracts: a failure stays a failure, a phone vector becomes the
/// sequence it holds.
pub open spec fn phones_view(r: Option<Vec<phoneset::Phone>>) -> Option<Seq<phoneset::Phone>> {
    match r {
        Option::Some(v) => Option::Some(v@),
        Option::None => Option::None,
    }
}

/// Letters whose lexical phone is a voiceless obstruent.
pub fn voiceless_letter(c: char) -> (r: bool)
    ensures
        r == spec_voiceless_letter(c),
{
    c == 'p' || c == 't' || c == 'k' || c == 'c' || c == 'ć' || c == 's' || c == 'ś'
        || c == 'f' || c == 'h'
}

/// The place-matched nasal consonant for a following phone, when that phone
/// takes part in nasal assimilation.
pub fn nasal_consonant(q: &phoneset::Phone) -> (r: Option<phoneset::Phone>)
    ensures
        r == spec_nasal_consonant(*q),
{
    if modifies_nasals(q) {
        match q.features() {
            PhoneFeatures::Consonant { place: ConsonantPlace::Bilabial, .. } =>
                Option::Some(phoneset::Phone::M),
            PhoneFeatures::Consonant { place: ConsonantPlace::Alveolar, .. } =>
                Option::Some(phoneset::Phone::N),
            PhoneFeatures::Consonant { place: ConsonantPlace::Alveolopalatal, .. } =>
                Option::Some(phoneset::Phone::N),
            PhoneFeatures::Consonant { place: ConsonantPlace::Velar, .. } =>
                Option::Some(phoneset::Phone::Ng),
            _ => Option::None,
        }
    } else {
        Option::None
    }
}

/// One phone, surfaced with regressive voicing assimilation applied.
fn surface_one(p: phoneset::Phone, np: Option<phoneset::Phone>) -> (r: Option<Vec<phoneset::Phone>>)
    ensures
        phones_view(r) == spec_surfaced(p, np),
{
    Option::Some(vec![assimilate_voicing(p, np)])
}

/// Two phones, taken as they are.
fn surface_pair(a: phoneset::Phone, b: phoneset::Phone) -> (r: Option<Vec<phoneset::Phone>>)
    ensures
        phones_view(r) == Option::Some(seq![a, b]),
{
    Option::Some(vec![a, b])
}

/// No phone: a purely orthographic marker already consumed by its neighbour.
fn surface_none() -> (r: Option<Vec<phoneset::Phone>>)
    ensures
        phones_view(r) == Option::Some(Seq::<phoneset::Phone>::empty()),
{
    let v: Vec<phoneset::Phone> = Vec::new();
    Option::Some(v)
}

/// One step of the transducer: the phones the current character contributes,
/// given its raw character context and the first phone already produced for
/// the word's remainder, or `None` for a character with no rule.
fn transcribe_char(
    prev: Option<char>,
    c: char,
    next: Option<char>,
    nnext: Option<char>,
    np: Option<phoneset::Phone>,
) -> (r: Option<Vec<phoneset::Phone>>)
    ensures
        phones_view(r) == spec_char_phones(prev, c, next, nnext, np),
{
    match c {
        'a' => surface_one(phoneset::Phone::A, np),
        'ą' => match np {
            Option::None => surface_pair(phoneset::Phone::O, phoneset::Phone::Wx),
            Option::Some(q) => match nasal_consonant(&q) {
                Option::Some(n) => surface_pair(phoneset::Phone::O, n),
                Option::None => surface_pair(phoneset::Phone::O, phoneset::Phone::Wx),
            },
        },
        'b' => surface_one(phoneset::Phone::B, np),
        'c' => match next {
            Option::Some('z') => surface_one(phoneset::Phone::Cz, np),
            Option::Some('i') => surface_one(phoneset::Phone::Ci, np),
            Option::Some('h') => surface_one(phoneset::Phone::H, np),
            _ => surface_one(phoneset::Phone::C, np),
        },
        'ć' => surface_one(phoneset::Phone::Ci, np),
        'd' => match next {
            Option::Some('z') => match nnext {
                Option::Some('i') => surface_one(phoneset::Phone::Dzi, np),
                _ => surface_one(phoneset::Phone::Dz, np),
            },
            Option::Some('ź') => surface_one(phoneset::Phone::Dzi, np),
            Option::Some('ż') => surface_one(phoneset::Phone::Dzh, np),
            _ => surface_one(phoneset::Phone::D, np),
        },
        'e' => surface_one(phoneset::Phone::E, np),
        'ę' => match np {
            Option::None => surface_pair(phoneset::Phone::E, phoneset::Phone::Wx),
            Option::Some(q) => match nasal_consonant(&q) {
                Option::Some(n) => surface_pair(phoneset::Phone::E, n),
                Option::None => surface_pair(phoneset::Phone::E, phoneset::Phone::Wx),
            },
        },
        'f' => surface_one(phoneset::Phone::F, np),
        'g' => surface_one(phoneset::Phone::G, np),
        'h' => match prev {
            Option::Some('c') => surface_none(),
            _ => surface_one(phoneset::Phone::H, np),
        },
        'i' => match np {
            Option::Some(q) => match q.features() {
                PhoneFeatures::Consonant { .. } => surface_one(phoneset::Phone::I, np),
                PhoneFeatures::Vowel { .. } => match prev {
                    Option::Some('c') | Option::Some('s') | Option::Some('z')
                        | Option::Some('n') => surface_none(),
                    _ => surface_one(phoneset::Phone::J, np),
                },
            },
            Option::None => surface_one(phoneset::Phone::I, np),
        },
        'j' => surface_one(phoneset::Phone::J, np),
        'k' => surface_one(phoneset::Phone::K, np),
        'l' => surface_one(phoneset::Phone::L, np),
        'ł' => surface_one(phoneset::Phone::W, np),
        'm' => surface_one(phoneset::Phone::M, np),
        'n' => match next {
            Option::Some('i') => surface_one(phoneset::Phone::Ni, np),
            _ => match np {
                Option::Some(q) => match q.features() {
                    PhoneFeatures::Consonant { place: ConsonantPlace::Velar, .. } =>
                        surface_one(phoneset::Phone::Ng, np),
                    _ => surface_one(phoneset::Phone::N, np),
                },
                Option::None => surface_one(phoneset::Phone::N, np),
            },
        },
        'ń' => surface_one(phoneset::Phone::Ni, np),
        'o' => surface_one(phoneset::Phone::O, np),
        'ó' => surface_one(phoneset::Phone::U, np),
        'p' => surface_one(phoneset::Phone::P, np),
        'r' => match next {
            Option::Some('z') => surface_one(phoneset::Phone::Zh, np),
            _ => surface_one(phoneset::Phone::R, np),
        },
        's' => match next {
            Option::Some('i') => surface_one(phoneset::Phone::Si, np),
            Option::Some('z') => surface_one(phoneset::Phone::Sz, np),
            _ => surface_one(phoneset::Phone::S, np),
        },
        'ś' => surface_one(phoneset::Phone::Si, np),
        't' => surface_one(phoneset::Phone::T, np),
        'u' => surface_one(phoneset::Phone::U, np),
        'w' => match prev {
            Option::Some(pc) => if voiceless_letter(pc) {
                surface_one(phoneset::Phone::F, np)
            } else {
                surface_one(phoneset::Phone::V, np)
            },
            Option::None => surface_one(phoneset::Phone::V, np),
        },
        'y' => surface_one(phoneset::Phone::Y, np),
        'z' => match prev {
            Option::Some('c') | Option::Some('d') | Option::Some('r') | Option::Some('s') =>
                surface_none(),
            _ => surface_one(phoneset::Phone::Z, np),
        },
        'ź' => match prev {
            Option::Some('d') => surface_none(),
            _ => surface_one(phoneset::Phone::Zi, np),
        },
        'ż' => match prev {
            Option::Some('d') => surface_none(),
            _ => surface_one(phoneset::Phone::Zh, np),
        },
        _ => Option::None,
    }
}

/// The transcription of the suffix of `w` that starts at position `i`:
/// characters are consumed from the last to the first, each contributing the
/// phones of its rule, prepended to the phones of the suffix to its right.
pub open spec fn spec_transcribe_suffix(w: Seq<char>, i: int) -> Option<Seq<phoneset::Phone>>
    decreases w.len() - i,
{
    if i < 0 || i >= w.len() {
        Option::Some(Seq::empty())
    } else {
        match spec_transcribe_suffix(w, i + 1) {
            Option::None => Option::None,
            Option::Some(rest) => {
                let prev = if i > 0 { Option::Some(w[i - 1]) } else { Option::None };
                let next = if i + 1 < w.len() { Option::Some(w[i + 1]) } else { Option::None };
                let nnext = if i + 2 < w.len() { Option::Some(w[i + 2]) } else { Option::None };
                let np = if rest.len() > 0 { Option::Some(rest[0]) } else { Option::None };
                match spec_char_phones(prev, w[i], next, nnext, np) {
                    Option::None => Option::None,
                    Option::Some(ph) => Option::Some(ph + rest),
                }
            },
        }
    }
}

/// The transcription of a whole word: phones in pronunciation order, or
/// `None` when some character of the word has no rule.
pub open spec fn spec_transcribe(w: Seq<char>) -> Option<Seq<phoneset::Phone>> {
    spec_transcribe_suffix(w, 0)
}

/// Whether every character of a word belongs to the recognized alphabet.
pub open spec fn spec_word_in_alphabet(w: Seq<char>) -> bool {
    forall|i: int| 0 <= i < w.len() ==> spec_in_alphabet(#[trigger] w[i])
}

/// The rule table is total over the recognized alphabet and fails outside
/// it: one character's transduction succeeds, in every context, exactly when
/// the character belongs to the alphabet.
pub proof fn lemma_char_phones_some_iff_alphabet(
    prev: Option<char>,
    c: char,
    next: Option<char>,
    nnext: Option<char>,
    np: Option<phoneset::Phone>,
)
    ensures
        spec_char_phones(prev, c, next, nnext, np) is Some <==> spec_in_alphabet(c),
{
}

/// A failure at any position makes the whole word fail.
proof fn lemma_suffix_none_propagates(w: Seq<char>, i: int)
    requires
        0 <= i <= w.len(),
        spec_transcribe_suffix(w, i) is None,
    ensures
        spec_transcribe_suffix(w, 0) is None,
    decreases i,
{
    if i > 0 {
        assert(spec_transcribe_suffix(w, i - 1) is None);
        lemma_suffix_none_propagates(w, i - 1);
    }
}

/// A suffix transcribes successfully exactly when all of its characters
/// belong to the recognized alphabet.
proof fn lemma_suffix_some_iff_alphabet(w: Seq<char>, i: int)
    requires
        0 <= i <= w.len(),
    ensures
        spec_transcribe_suffix(w, i) is Some <==> (forall|j: int|
            i <= j < w.len() ==> spec_in_alphabet(#[trigger] w[j])),
    decreases w.len() - i,
{
    if i < w.len() {
        lemma_suffix_some_iff_alphabet(w, i + 1);
        match spec_transcribe_suffix(w, i + 1) {
            Option::None => {
                assert(spec_transcribe_suffix(w, i) is None);
            },
            Option::Some(rest) => {
                let prev = if i > 0 { Option::Some(w[i - 1]) } else { Option::None };
                let next = if i + 1 < w.len() { Option::Some(w[i + 1]) } else { Option::None };
                let nnext = if i + 2 < w.len() { Option::Some(w[i + 2]) } else { Option::None };
                let np = if rest.len() > 0 { Option::Some(rest[0]) } else { Option::None };
                lemma_char_phones_some_iff_alphabet(prev, w[i], next, nnext, np);
            },
        }
    }
}

/// Totality over the alphabet, and failure on foreign input: a word
/// transcribes successfully exactly when every one of its characters belongs
/// to the recognized alphabet.
pub proof fn lemma_transcribe_some_iff_alphabet(w: Seq<char>)
    ensures
        spec_transcribe(w) is Some <==> spec_word_in_alphabet(w),
{
    lemma_suffix_some_iff_alphabet(w, 0);
}

/// Nasal-place assimilation: a nasal vowel letter surfaces as its oral vowel
/// plus a nasal consonant whose place matches the phone that follows it,
/// whenever that phone takes part in nasal assimilation: bilabial place
/// calls for the bilabial nasal, velar place for the velar nasal, alveolar
/// or alveolopalatal place for the alveolar nasal. At word end either
/// nasal vowel letter surfaces as its oral vowel plus the labiovelar nasal
/// glide.
pub proof fn lemma_nasal_place_assimilation(
    prev: Option<char>,
    next: Option<char>,
    nnext: Option<char>,
    q: phoneset::Phone,
)
    requires
        spec_modifies_nasals(q),
    ensures
        (q.spec_features() matches PhoneFeatures::Consonant {
            place: ConsonantPlace::Bilabial,
            ..
        }) ==> spec_char_phones(prev, 'ą', next, nnext, Option::Some(q))
            == Option::Some(seq![phoneset::Phone::O, phoneset::Phone::M])
            && spec_char_phones(prev, 'ę', next, nnext, Option::Some(q))
            == Option::Some(seq![phoneset::Phone::E, phoneset::Phone::M]),
        (q.spec_features() matches PhoneFeatures::Consonant {
            place: ConsonantPlace::Velar,
            ..
        }) ==> spec_char_phones(prev, 'ą', next, nnext, Option::Some(q))
            == Option::Some(seq![phoneset::Phone::O, phoneset::Phone::Ng])
            && spec_char_phones(prev, 'ę', next, nnext, Option::Some(q))
            == Option::Some(seq![phoneset::Phone::E, phoneset::Phone::Ng]),
        (q.spec_features() matches PhoneFeatures::Consonant {
            place: ConsonantPlace::Alveolar,
            ..
        }) || (q.spec_features() matches PhoneFeatures::Consonant {
            place: ConsonantPlace::Alveolopalatal,
            ..
        }) ==> spec_char_phones(prev, 'ą', next, nnext, Option::Some(q))
            == Option::Some(seq![phoneset::Phone::O, phoneset::Phone::N])
            && spec_char_phones(prev, 'ę', next, nnext, Option::Some(q))
            == Option::Some(seq![phoneset::Phone::E, phoneset::Phone::N]),
        spec_char_phones(prev, 'ą', next, nnext, Option::None)
            == Option::Some(seq![phoneset::Phone::O, phoneset::Phone::Wx]),
        spec_char_phones(prev, 'ę', next, nnext, Option::None)
            == Option::Some(seq![phoneset::Phone::E, phoneset::Phone::Wx]),
{
}

/// The oral vowel that a nasal vowel letter surfaces as.
pub open spec fn spec_oral_vowel(c: char) -> phoneset::Phone {
    if c == 'ą' {
        phoneset::Phone::O
    } else {
        phoneset::Phone::E
    }
}

/// Nasal-place assimilation stated over whole words: within a successfully
/// transcribed word, a nasal vowel letter immediately followed by a bilabial
/// stop letter contributes its oral vowel plus the bilabial nasal; followed
/// by a velar stop letter, its oral vowel plus the velar nasal; and at word
/// end, its oral vowel plus the labiovelar nasal glide.
pub proof fn lemma_transcribe_nasal_before_stop_letter(w: Seq<char>, i: int)
    requires
        0 <= i < w.len(),
        w[i] == 'ą' || w[i] == 'ę',
        spec_transcribe_suffix(w, i) is Some,
    ensures
        i + 1 < w.len() && (w[i + 1] == 'b' || w[i + 1] == 'p')
            ==> spec_transcribe_suffix(w, i).unwrap()
            == seq![spec_oral_vowel(w[i]), phoneset::Phone::M]
            + spec_transcribe_suffix(w, i + 1).unwrap(),
        i + 1 < w.len() && (w[i + 1] == 'k' || w[i + 1] == 'g')
            ==> spec_transcribe_suffix(w, i).unwrap()
            == seq![spec_oral_vowel(w[i]), phoneset::Phone::Ng]
            + spec_transcribe_suffix(w, i + 1).unwrap(),
        i + 1 == w.len() ==> spec_transcribe_suffix(w, i).unwrap()
            == seq![spec_oral_vowel(w[i]), phoneset::Phone::Wx],
{
    if i + 1 < w.len() {
        let rest2 = spec_transcribe_suffix(w, i + 2).unwrap();
        assert(spec_transcribe_suffix(w, i + 1) is Some);
        assert(spec_transcribe_suffix(w, i + 2) is Some);
        let prev2 = Option::Some(w[i]);
        let next2 = if i + 2 < w.len() { Option::Some(w[i + 2]) } else { Option::None };
        let nnext2 = if i + 3 < w.len() { Option::Some(w[i + 3]) } else { Option::None };
        let np2 = if rest2.len() > 0 { Option::Some(rest2[0]) } else { Option::None };
        if w[i + 1] == 'b' || w[i + 1] == 'p' || w[i + 1] == 'k' || w[i + 1] == 'g' {
            let ph2 = spec_char_phones(prev2, w[i + 1], next2, nnext2, np2).unwrap();
            assert(spec_transcribe_suffix(w, i + 1).unwrap() == ph2 + rest2);
        }
    }
}

/// Regressive devoicing: an obstruent standing before a devoicing trigger
/// surfaces voiceless, whatever its lexical phonation.
pub proof fn lemma_regressive_devoicing(p: phoneset::Phone, q: phoneset::Phone)
    requires
        spec_modifies_voicing(p),
        spec_devoices(q),
    ensures
        spec_modifies_voicing(spec_assimilate_voicing(p, Option::Some(q))),
        spec_unvoiced(spec_assimilate_voicing(p, Option::Some(q))),
{
}

/// Regressive voicing: an obstruent standing before a voicing trigger
/// surfaces voiced, whatever its lexical phonation. The velar fricative,
/// which has no voiced partner in the inventory, is the one phone left out.
pub proof fn lemma_regressive_envoicing(p: phoneset::Phone, q: phoneset::Phone)
    requires
        spec_modifies_voicing(p),
        spec_envoices(q),
        p != phoneset::Phone::H,
    ensures
        spec_modifies_voicing(spec_assimilate_voicing(p, Option::Some(q))),
        !spec_unvoiced(spec_assimilate_voicing(p, Option::Some(q))),
{
}

/// Whether adjacent obstruents of a phone sequence agree in voicing; the
/// velar fricative, which has no voiced partner, is exempt.
pub open spec fn spec_voicing_agreement(s: Seq<phoneset::Phone>) -> bool {
    forall|j: int|
        0 <= j && j + 1 < s.len() && spec_modifies_voicing(#[trigger] s[j])
            && spec_modifies_voicing(s[j + 1]) && s[j] != phoneset::Phone::H
            ==> (spec_unvoiced(s[j]) <==> spec_unvoiced(s[j + 1]))
}

/// Every rule contributes at most two phones, and a two-phone contribution
/// is an oral vowel followed by a nasal consonant: neither is an obstruent.
proof fn lemma_char_phones_shape(
    prev: Option<char>,
    c: char,
    next: Option<char>,
    nnext: Option<char>,
    np: Option<phoneset::Phone>,
    s: Seq<phoneset::Phone>,
)
    requires
        spec_char_phones(prev, c, next, nnext, np) == Option::Some(s),
    ensures
        s.len() <= 2,
        s.len() == 2 ==> !spec_modifies_voicing(s[0]) && !spec_modifies_voicing(s[1]),
{
}

/// A single surfaced obstruent agrees in voicing with the obstruent phone
/// that follows it, the voiceless velar fricative excepted.
proof fn lemma_char_phones_junction(
    prev: Option<char>,
    c: char,
    next: Option<char>,
    nnext: Option<char>,
    q: phoneset::Phone,
    s: Seq<phoneset::Phone>,
)
    requires
        spec_char_phones(prev, c, next, nnext, Option::Some(q)) == Option::Some(s),
        s.len() == 1,
        spec_modifies_voicing(s[0]),
        spec_modifies_voicing(q),
        s[0] != phoneset::Phone::H,
    ensures
        spec_unvoiced(s[0]) <==> spec_unvoiced(q),
{
}

/// A successful suffix transcription satisfies voicing agreement.
proof fn lemma_suffix_voicing_agreement(w: Seq<char>, i: int)
    requires
        0 <= i <= w.len(),
        spec_transcribe_suffix(w, i) is Some,
    ensures
        spec_voicing_agreement(spec_transcribe_suffix(w, i).unwrap()),
    decreases w.len() - i,
{
    if i < w.len() {
        lemma_suffix_voicing_agreement(w, i + 1);
        let rest = spec_transcribe_suffix(w, i + 1).unwrap();
        let prev = if i > 0 { Option::Some(w[i - 1]) } else { Option::None };
        let next = if i + 1 < w.len() { Option::Some(w[i + 1]) } else { Option::None };
        let nnext = if i + 2 < w.len() { Option::Some(w[i + 2]) } else { Option::None };
        let np = if rest.len() > 0 { Option::Some(rest[0]) } else { Option::None };
        let ph = spec_char_phones(prev, w[i], next, nnext, np).unwrap();
        let s = spec_transcribe_suffix(w, i).unwrap();
        assert(s == ph + rest);
        lemma_char_phones_shape(prev, w[i], next, nnext, np, ph);
        assert forall|j: int|
            0 <= j && j + 1 < s.len() && spec_modifies_voicing(#[trigger] s[j])
                && spec_modifies_voicing(s[j + 1]) && s[j] != phoneset::Phone::H implies (
        spec_unvoiced(s[j]) <==> spec_unvoiced(s[j + 1])) by {
            if j + 1 < ph.len() {
                assert(s[j] == ph[j]);
                assert(false);
            } else if j + 1 == ph.len() {
                assert(s[j] == ph[j] && s[j + 1] == rest[0]);
                if ph.len() == 2 {
                    assert(false);
                } else {
                    lemma_char_phones_junction(prev, w[i], next, nnext, rest[0], ph);
                }
            } else {
                assert(s[j] == rest[j - ph.len()]);
                assert(s[j + 1] == rest[j + 1 - ph.len()]);
            }
        }
    }
}

/// Regressive voicing assimilation at the level of whole words: in a
/// surfaced transcription, an obstruent phone standing immediately before
/// another obstruent phone agrees with it in voicing. The velar fricative,
/// which has no voiced partner in the inventory, is the one exception.
pub proof fn lemma_transcribe_voicing_agreement(w: Seq<char>)
    requires
        spec_transcribe(w) is Some,
    ensures
        spec_voicing_agreement(spec_transcribe(w).unwrap()),
{
    lemma_suffix_voicing_agreement(w, 0);
}

/// Whether a phone is a consonant articulated at the alveolopalatal place.
pub open spec fn spec_alveolopalatal(p: phoneset::Phone) -> bool {
    match p.spec_features() {
        PhoneFeatures::Consonant { place: ConsonantPlace::Alveolopalatal, .. } => true,
        _ => false,
    }
}

/// Digraph precedence: a sibilant letter followed by the palatal marker
/// resolves to a single alveolopalatal phone, never to the plain alveolar
/// phone plus an independent second phone; and the marker itself, standing
/// right after such a letter when a vowel phone follows, contributes no
/// phone of its own.
pub proof fn lemma_digraph_precedence(
    prev: Option<char>,
    nnext: Option<char>,
    np: Option<phoneset::Phone>,
    next2: Option<char>,
    nnext2: Option<char>,
    q: phoneset::Phone,
)
    ensures
        ({
            let r = spec_char_phones(prev, 's', Option::Some('i'), nnext, np);
            r is Some && r.unwrap().len() == 1 && spec_alveolopalatal(r.unwrap()[0])
        }),
        ({
            let r = spec_char_phones(prev, 'c', Option::Some('i'), nnext, np);
            r is Some && r.unwrap().len() == 1 && spec_alveolopalatal(r.unwrap()[0])
        }),
        (q.spec_features() matches PhoneFeatures::Vowel { .. })
            ==> spec_char_phones(Option::Some('s'), 'i', next2, nnext2, Option::Some(q))
            == Option::Some(Seq::<phoneset::Phone>::empty())
            && spec_char_phones(Option::Some('c'), 'i', next2, nnext2, Option::Some(q))
            == Option::Some(Seq::<phoneset::Phone>::empty()),
{
}

/// Convert a word's orthography into phones: an ordered phone sequence in
/// pronunciation order, or `None` when some character of the word has no
/// phonological mapping. The function is pure: the result is a function of
/// the word alone, so two calls on one word agree.
pub fn transcribe(word: &str) -> (r: Option<Vec<phoneset::Phone>>)
    ensures
        phones_view(r) == spec_transcribe(word@),
        r is Some <==> spec_word_in_alphabet(word@),
{
    proof {
        lemma_transcribe_some_iff_alphabet(word@);
    }
    let n = word.unicode_len();
    let mut chars: Vec<char> = Vec::new();
    let mut k: usize = 0;
    while k < n
        invariant
            n == word@.len(),
            k <= n,
            chars@ == word@.subrange(0, k as int),
        decreases n - k,
    {
        chars.push(word.get_char(k));
        proof {
            assert(chars@ =~= word@.subrange(0, k + 1 as int));
        }
        k = k + 1;
    }
    proof {
        assert(chars@ =~= word@);
    }
    let mut phones: Vec<phoneset::Phone> = Vec::new();
    let mut i = n;
    while i > 0
        invariant
            n == word@.len(),
            chars@ == word@,
            i <= n,
            Option::Some(phones@) == spec_transcribe_suffix(word@, i as int),
        decreases i,
    {
        i = i - 1;
        let prev = if i > 0 { Option::Some(chars[i - 1]) } else { Option::None };
        let next = if n - i > 1 { Option::Some(chars[i + 1]) } else { Option::None };
        let nnext = if n - i > 2 { Option::Some(chars[i + 2]) } else { Option::None };
        let np = if phones.len() > 0 { Option::Some(phones[0]) } else { Option::None };
        match transcribe_char(prev, chars[i], next, nnext, np) {
            Option::Some(mut ph) => {
                ph.append(&mut phones);
                phones = ph;
            },
            Option::None => {
                proof {
                    lemma_suffix_none_propagates(word@, i as int);
                }
                return Option::None;
            },
        }
    }
    Option::Some(phones)
}

} // verus!
