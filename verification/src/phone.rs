//! The phone feature model: the closed vocabulary of articulatory feature
//! values, the two feature shapes (vowel-shaped and consonant-shaped), and the
//! capability interface that every language's phone inventory satisfies.

use vstd::prelude::*;

verus! {

#[derive(Debug, PartialEq, Eq, Structural, Clone, Copy)]
pub enum VowelFrontness {
    Front,
    Center,
    Back,
}

#[derive(Debug, PartialEq, Eq, Structural, Clone, Copy)]
pub enum VowelHeight {
    High,
    Mid,
    Low,
}

#[derive(Debug, PartialEq, Eq, Structural, Clone, Copy)]
pub enum VowelRoundness {
    Rounded,
    Unrounded,
}

#[derive(Debug, PartialEq, Eq, Structural, Clone, Copy)]
pub enum VowelNasality {
    Oral,
    AsynchronousNasal,
    SynchronousNasal,
}

#[derive(Debug, PartialEq, Eq, Structural, Clone, Copy)]
pub enum ConsonantManner {
    Stop,
    Approximant,
    Fricative,
    Affricate,
    Trill,
    Nasal,
    Lateral,
}

#[derive(Debug, PartialEq, Eq, Structural, Clone, Copy)]
pub enum ConsonantPlace {
    Bilabial,
    Labiodental,
    Dental,
    Alveolar,
    Palatoalveolar,
    Retroflex,
    Alveolopalatal,
    Palatal,
    Velar,
    Labiovelar,
    Uvular,
    Pharyngeal,
    Glottal,
}

#[derive(Debug, PartialEq, Eq, Structural, Clone, Copy)]
pub enum ConsonantPhonation {
    Voiced,
    Unvoiced,
}

/// The feature tuple of one phone: either vowel-shaped or consonant-shaped.
/// Feature identity, not symbol identity, drives every assimilation rule.
#[derive(Debug, PartialEq, Eq, Structural, Clone, Copy)]
pub enum PhoneFeatures {
    Vowel {
        frontness: VowelFrontness,
        height: VowelHeight,
        roundness: VowelRoundness,
        nasality: VowelNasality,
    },
    Consonant {
        manner: ConsonantManner,
        place: ConsonantPlace,
        phonation: ConsonantPhonation,
    },
}

/// A discrete speech sound of some language's inventory: a canonical display
/// symbol, an IPA symbol, and exactly one feature tuple, all fixed once the
/// inventory is defined.
pub trait Phone {
    /// The IPA symbol, as a sequence of characters.
    spec fn spec_ipa(&self) -> Seq<char>;

    /// The canonical display symbol, as a sequence of characters.
    spec fn spec_name(&self) -> Seq<char>;

    /// The articulatory features of this phone.
    spec fn spec_features(&self) -> PhoneFeatures;

    fn ipa(&self) -> (r: String)
        ensures
            r@ == self.spec_ipa(),
    ;

    fn name(&self) -> (r: String)
        ensures
            r@ == self.spec_name(),
    ;

    fn features(&self) -> (r: PhoneFeatures)
        ensures
            r == self.spec_features(),
    ;
}

} // verus!
