//! The Polish instance: the phone inventory and the grapheme-to-phone
//! transducer for Polish orthography.

pub mod phoneset;
pub mod transcription;
