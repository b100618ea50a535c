//! Tests for the stated properties of the transducer and of the phoneset.

use pronunciation::phone::{
    ConsonantManner, ConsonantPhonation, ConsonantPlace, Phone, PhoneFeatures,
};
use pronunciation::pl::phoneset;
use pronunciation::pl::phoneset::Phone::{
    A, B, Ci, D, Dz, Dzi, E, F, G, H, J, K, L, M, N, Ng, O, P, R, S, Si, Sz, T, U, W, Wx, Z, Zh,
};
use pronunciation::pl::transcription::{
    assimilate_voicing, devoiced, devoices, envoiced, envoices, modifies_nasals,
    modifies_voicing, nasal_consonant, transcribe, voiceless_letter,
};

#[test]
fn determinism_same_word_same_result() {
    assert_eq!(transcribe("dąb"), transcribe("dąb"));
    assert_eq!(transcribe("übermensch"), transcribe("übermensch"));
}

#[test]
fn empty_word_empty_transcription() {
    assert_eq!(transcribe(""), Some(vec![]));
}

#[test]
fn foreign_letters_fail_without_partial_output() {
    assert_eq!(transcribe("taxi"), None);
    assert_eq!(transcribe("verus"), None);
    assert_eq!(transcribe("quiz"), None);
    assert_eq!(transcribe("jesień!"), None);
}

#[test]
fn every_alphabet_letter_appears_in_some_valid_word() {
    for word in [
        "ma", "mą", "ba", "ca", "ćma", "da", "en", "tę", "fa", "ga", "ha", "in", "ja", "ka",
        "la", "ła", "am", "na", "koń", "ok", "kó", "pa", "ra", "sa", "śle", "ta", "ud", "wa",
        "my", "za", "źle", "że",
    ] {
        assert!(transcribe(word).is_some(), "failed on {word}");
    }
}

#[test]
fn nasal_vowel_place_scenarios() {
    assert_eq!(transcribe("ąb"), Some(vec![O, M, B]));
    assert_eq!(transcribe("ąk"), Some(vec![O, Ng, K]));
    assert_eq!(transcribe("ą"), Some(vec![O, Wx]));
}

#[test]
fn word_final_front_nasal_vowel_keeps_the_glide() {
    assert_eq!(transcribe("ę"), Some(vec![E, Wx]));
}

#[test]
fn voiced_stop_devoices_before_voiceless_stop() {
    assert_eq!(transcribe("bk"), Some(vec![P, K]));
}

#[test]
fn voiceless_stop_voices_before_voiced_stop() {
    assert_eq!(transcribe("td"), Some(vec![D, D]));
    assert_eq!(transcribe("tb"), Some(vec![D, B]));
}

#[test]
fn velar_fricative_stays_voiceless_before_voiced_stop() {
    assert_eq!(transcribe("hb"), Some(vec![H, B]));
}

#[test]
fn labiodental_fricative_devoices_after_voiceless_letter() {
    assert_eq!(transcribe("twój"), Some(vec![T, F, U, J]));
}

#[test]
fn sibilant_with_marker_yields_single_palatal_phone() {
    assert_eq!(transcribe("sia"), Some(vec![Si, A]));
    assert_eq!(transcribe("cia"), Some(vec![Ci, A]));
}

#[test]
fn assimilation_predicates_follow_features() {
    assert!(modifies_nasals(&B));
    assert!(modifies_nasals(&K));
    assert!(!modifies_nasals(&Z));
    assert!(!modifies_nasals(&M));
    assert!(modifies_voicing(&Z));
    assert!(modifies_voicing(&Sz));
    assert!(!modifies_voicing(&R));
    assert!(!modifies_voicing(&L));
    assert!(!modifies_voicing(&W));
    assert!(devoices(&K));
    assert!(devoices(&H));
    assert!(!devoices(&B));
    assert!(!devoices(&J));
    assert!(envoices(&Z));
    assert!(!envoices(&M));
    assert!(!envoices(&K));
}

#[test]
fn voicing_partners_swap_phonation() {
    assert_eq!(devoiced(B), P);
    assert_eq!(devoiced(Zh), Sz);
    assert_eq!(devoiced(Dzi), Ci);
    assert_eq!(devoiced(P), P);
    assert_eq!(envoiced(P), B);
    assert_eq!(envoiced(Ci), Dzi);
    assert_eq!(envoiced(H), H);
    assert_eq!(envoiced(Dz), Dz);
    assert_eq!(envoiced(M), M);
}

#[test]
fn inline_assimilation_picks_the_trigger_side() {
    assert_eq!(assimilate_voicing(B, Some(K)), P);
    assert_eq!(assimilate_voicing(T, Some(Z)), D);
    assert_eq!(assimilate_voicing(B, Some(A)), B);
    assert_eq!(assimilate_voicing(D, None), D);
    assert_eq!(assimilate_voicing(A, Some(K)), A);
}

#[test]
fn nasal_consonant_matches_place() {
    assert_eq!(nasal_consonant(&B), Some(M));
    assert_eq!(nasal_consonant(&Ci), Some(N));
    assert_eq!(nasal_consonant(&G), Some(Ng));
    assert_eq!(nasal_consonant(&S), None);
    assert_eq!(nasal_consonant(&R), None);
}

#[test]
fn voiceless_letters_are_the_voiceless_obstruent_letters() {
    for c in ['p', 't', 'k', 'c', 'ć', 's', 'ś', 'f', 'h'] {
        assert!(voiceless_letter(c));
    }
    for c in ['b', 'd', 'g', 'z', 'ż', 'ź', 'w', 'a', 'r', 'l', 'm', 'n'] {
        assert!(!voiceless_letter(c));
    }
}

#[test]
fn phones_carry_their_features() {
    assert_eq!(
        phoneset::Phone::B.features(),
        PhoneFeatures::Consonant {
            manner: ConsonantManner::Stop,
            place: ConsonantPlace::Bilabial,
            phonation: ConsonantPhonation::Voiced,
        }
    );
    assert_eq!(
        phoneset::Phone::Si.features(),
        PhoneFeatures::Consonant {
            manner: ConsonantManner::Fricative,
            place: ConsonantPlace::Alveolopalatal,
            phonation: ConsonantPhonation::Unvoiced,
        }
    );
    assert!(matches!(
        phoneset::Phone::A.features(),
        PhoneFeatures::Vowel { .. }
    ));
}

#[test]
fn phone_symbols() {
    assert_eq!(phoneset::Phone::Cz.ipa(), "t͡ʂ");
    assert_eq!(phoneset::Phone::A.ipa(), "ä");
    assert_eq!(phoneset::Phone::B.ipa(), "b");
    assert_eq!(phoneset::Phone::Wx.ipa(), "w̃");
    assert_eq!(phoneset::Phone::Ni.name(), "ni");
    assert_eq!(phoneset::Phone::Dzh.name(), "dzh");
    assert_eq!(phoneset::Phone::E.name(), "e");
}
