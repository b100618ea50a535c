//! Phonemic transcription of orthographic words.
//!
//! The crate models speech sounds ("phones") with articulatory features and
//! provides a grapheme-to-phone transducer for Polish: a single right-to-left
//! pass over a word's characters that resolves digraphs, silent letters,
//! nasal-vowel allophony and voicing assimilation, with a proved contract.

pub mod phone;
pub mod pl;
