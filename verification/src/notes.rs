//! The note table: resolving note-name tokens to audio frequencies.

use vstd::prelude::*;
use vstd::string::StringSliceAdditionalSpecFns;

verus! {

/// The frequency, in Hz, that a note token resolves to: two chromatic
/// octaves (C4 up to C6, naturals and sharps), the rest token `"_"`
/// resolving to 0 (silence), and `None` for every other string.
pub open spec fn freq_of(s: Seq<char>) -> Option<u32> {
    if s == "C4"@ {
        Some(261u32)
    } else if s == "C#4"@ {
        Some(277u32)
    } else if s == "D4"@ {
        Some(294u32)
    } else if s == "D#4"@ {
        Some(311u32)
    } else if s == "E4"@ {
        Some(329u32)
    } else if s == "F4"@ {
        Some(349u32)
    } else if s == "F#4"@ {
        Some(370u32)
    } else if s == "G4"@ {
        Some(392u32)
    } else if s == "G#4"@ {
        Some(415u32)
    } else if s == "A4"@ {
        Some(440u32)
    } else if s == "A#4"@ {
        Some(466u32)
    } else if s == "B4"@ {
        Some(493u32)
    } else if s == "C5"@ {
        Some(523u32)
    } else if s == "C#5"@ {
        Some(554u32)
    } else if s == "D5"@ {
        Some(587u32)
    } else if s == "D#5"@ {
        Some(622u32)
    } else if s == "E5"@ {
        Some(659u32)
    } else if s == "F5"@ {
        Some(698u32)
    } else if s == "F#5"@ {
        Some(740u32)
    } else if s == "G5"@ {
        Some(784u32)
    } else if s == "G#5"@ {
        Some(830u32)
    } else if s == "A5"@ {
        Some(880u32)
    } else if s == "A#5"@ {
        Some(932u32)
    } else if s == "B5"@ {
        Some(987u32)
    } else if s == "C6"@ {
        Some(1046u32)
    } else if s == "_"@ {
        Some(0u32)
    } else {
        None
    }
}

/// String-slice equality, decided byte by byte.  Equal UTF-8 encodings
/// mean equal character sequences, since decoding inverts encoding.
fn str_eq(a: &str, b: &str) -> (r: bool)
    ensures
        r == (a@ == b@),
{
    let ab = a.as_bytes();
    let bb = b.as_bytes();
    if ab.len() != bb.len() {
        return false;
    }
    let n = ab.len();
    let mut i: usize = 0;
    while i < n
        invariant
            i <= n,
            n == ab@.len(),
            n == bb@.len(),
            ab@ == a.spec_bytes(),
            bb@ == b.spec_bytes(),
            forall|j: int| 0 <= j < i ==> ab@[j] == bb@[j],
        decreases n - i,
    {
        if ab[i] != bb[i] {
            return false;
        }
        i += 1;
    }
    proof {
        assert(a.spec_bytes() =~= b.spec_bytes());
        vstd::utf8::encode_utf8_decode_utf8(a@);
        vstd::utf8::encode_utf8_decode_utf8(b@);
    }
    true
}

/// Resolves a note token to its frequency in Hz: `Some(0)` for the rest
/// token, `Some(f)` for a recognized note, `None` for anything else.
pub fn note_to_freq(note: &str) -> (r: Option<u32>)
    ensures
        r == freq_of(note@),
{
    if str_eq(note, "C4") {
        Some(261)
    } else if str_eq(note, "C#4") {
        Some(277)
    } else if str_eq(note, "D4") {
        Some(294)
    } else if str_eq(note, "D#4") {
        Some(311)
    } else if str_eq(note, "E4") {
        Some(329)
    } else if str_eq(note, "F4") {
        Some(349)
    } else if str_eq(note, "F#4") {
        Some(370)
    } else if str_eq(note, "G4") {
        Some(392)
    } else if str_eq(note, "G#4") {
        Some(415)
    } else if str_eq(note, "A4") {
        Some(440)
    } else if str_eq(note, "A#4") {
        Some(466)
    } else if str_eq(note, "B4") {
        Some(493)
    } else if str_eq(note, "C5") {
        Some(523)
    } else if str_eq(note, "C#5") {
        Some(554)
    } else if str_eq(note, "D5") {
        Some(587)
    } else if str_eq(note, "D#5") {
        Some(622)
    } else if str_eq(note, "E5") {
        Some(659)
    } else if str_eq(note, "F5") {
        Some(698)
    } else if str_eq(note, "F#5") {
        Some(740)
    } else if str_eq(note, "G5") {
        Some(784)
    } else if str_eq(note, "G#5") {
        Some(830)
    } else if str_eq(note, "A5") {
        Some(880)
    } else if str_eq(note, "A#5") {
        Some(932)
    } else if str_eq(note, "B5") {
        Some(987)
    } else if str_eq(note, "C6") {
        Some(1046)
    } else if str_eq(note, "_") {
        Some(0)
    } else {
        None
    }
}

} // verus!
