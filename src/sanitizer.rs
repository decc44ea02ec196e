//! Sanitizers: normalising the spelling and layout of generated scores.

use vstd::prelude::*;

pub mod lily_sanitizer;
pub mod score_sanitizer;
pub mod to_pref_synonym;

pub use lily_sanitizer::LilySanitizer;
pub use score_sanitizer::ScoreSanitizer;
pub use to_pref_synonym::ToPrefSynonym;

use crate::error::AppError;
use crate::notation::{Accidental, KeySignature, KeySignatureType, NoteName};

verus! {

/// A sanitizer of scores of type `T`: on success it rewrites the score, on
/// failure it leaves the score as it was.
pub trait Sanitizer<T> {
    /// `new` is what sanitizing `old` gives.
    spec fn sanitizes(&self, old: T, new: T) -> bool;

    /// The error that sanitizing `t` fails with, if any.
    spec fn failure(&self, t: T) -> Option<AppError>;

    fn sanitize(&self, score: &mut T) -> (r: Result<(), AppError>)
        ensures
            match r {
                Ok(()) => self.failure(*old(score)) is None && self.sanitizes(
                    *old(score),
                    *final(score),
                ),
                Err(e) => self.failure(*old(score)) == Some(e) && *final(score) == *old(score),
            },
    ;
}

/// Major keys whose scores are spelled with sharps.
pub open spec fn is_sharp_key(k: KeySignature) -> bool {
    k.signature_type == KeySignatureType::Maj && match (k.ext.note_name, k.ext.accidental) {
        (NoteName::C, None) | (NoteName::G, None) | (NoteName::D, None) | (NoteName::A, None) | (
            NoteName::E,
            None,
        ) | (NoteName::B, None) => true,
        (NoteName::E, Some(Accidental::Sharp)) | (NoteName::B, Some(Accidental::Sharp)) | (
            NoteName::F,
            Some(Accidental::Flat),
        ) | (NoteName::C, Some(Accidental::Sharp)) => true,
        _ => false,
    }
}

/// Major keys whose scores are spelled with flats.
pub open spec fn is_flat_key(k: KeySignature) -> bool {
    k.signature_type == KeySignatureType::Maj && match (k.ext.note_name, k.ext.accidental) {
        (NoteName::F, None) => true,
        (NoteName::B, Some(Accidental::Flat)) | (NoteName::E, Some(Accidental::Flat)) | (
            NoteName::A,
            Some(Accidental::Flat),
        ) | (NoteName::D, Some(Accidental::Flat)) | (NoteName::G, Some(Accidental::Flat)) | (
            NoteName::C,
            Some(Accidental::Flat),
        ) => true,
        (NoteName::A, Some(Accidental::Sharp)) | (NoteName::D, Some(Accidental::Sharp)) | (
            NoteName::G,
            Some(Accidental::Sharp),
        ) | (NoteName::F, Some(Accidental::Sharp)) => true,
        _ => false,
    }
}

/// The accidental that a key prefers: sharps, flats, or none.
pub open spec fn preferred_accidental(k: KeySignature) -> Option<Accidental> {
    if is_sharp_key(k) {
        Some(Accidental::Sharp)
    } else if is_flat_key(k) {
        Some(Accidental::Flat)
    } else {
        None
    }
}

/// The accidental that a key prefers.
pub fn get_pref_accidental(k: &KeySignature) -> (r: Option<Accidental>)
    ensures
        r == preferred_accidental(*k),
{
    if k.signature_type != KeySignatureType::Maj {
        return None;
    }
    match (k.ext.note_name, k.ext.accidental) {
        (NoteName::C, None) | (NoteName::G, None) | (NoteName::D, None) | (NoteName::A, None) | (
            NoteName::E,
            None,
        ) | (NoteName::B, None) => Some(Accidental::Sharp),
        (NoteName::E, Some(Accidental::Sharp)) | (NoteName::B, Some(Accidental::Sharp)) | (
            NoteName::F,
            Some(Accidental::Flat),
        ) | (NoteName::C, Some(Accidental::Sharp)) => Some(Accidental::Sharp),
        (NoteName::F, None) => Some(Accidental::Flat),
        (_, Some(Accidental::Flat)) => Some(Accidental::Flat),
        (_, Some(Accidental::Sharp)) => Some(Accidental::Flat),
    }
}

} // verus!
