//! Choice of the onset detection used to mark beats on the overlay.

use vstd::prelude::*;

use crate::text::text_eq;

verus! {

/// Onset detection functions of the beat tracker.
#[derive(Clone, Copy, Debug, PartialEq, Eq, Structural)]
pub enum BeatDetection {
    Energy,
    Hfc,
    Complex,
    Phase,
    WPhase,
    SpecDiff,
    Kl,
    Mkl,
    SpecFlux,
}

/// The detection a name designates; spectral flux for any other name.
pub open spec fn beat_detection_of(name: Seq<char>) -> BeatDetection {
    if name == "Energy"@ {
        BeatDetection::Energy
    } else if name == "Hfc"@ {
        BeatDetection::Hfc
    } else if name == "Complex"@ {
        BeatDetection::Complex
    } else if name == "Phase"@ {
        BeatDetection::Phase
    } else if name == "WPhase"@ {
        BeatDetection::WPhase
    } else if name == "SpecDiff"@ {
        BeatDetection::SpecDiff
    } else if name == "Kl"@ {
        BeatDetection::Kl
    } else if name == "Mkl"@ {
        BeatDetection::Mkl
    } else {
        BeatDetection::SpecFlux
    }
}

pub fn beat_detection(name: &str) -> (r: BeatDetection)
    ensures
        r == beat_detection_of(name@),
{
    if text_eq(name, "Energy") {
        BeatDetection::Energy
    } else if text_eq(name, "Hfc") {
        BeatDetection::Hfc
    } else if text_eq(name, "Complex") {
        BeatDetection::Complex
    } else if text_eq(name, "Phase") {
        BeatDetection::Phase
    } else if text_eq(name, "WPhase") {
        BeatDetection::WPhase
    } else if text_eq(name, "SpecDiff") {
        BeatDetection::SpecDiff
    } else if text_eq(name, "Kl") {
        BeatDetection::Kl
    } else if text_eq(name, "Mkl") {
        BeatDetection::Mkl
    } else {
        BeatDetection::SpecFlux
    }
}

} // verus!
