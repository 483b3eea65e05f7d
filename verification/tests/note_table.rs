use buzzled::notes::note_to_freq;

#[test]
fn resolves_every_octave_four_token() {
    assert_eq!(note_to_freq("C4"), Some(261));
    assert_eq!(note_to_freq("C#4"), Some(277));
    assert_eq!(note_to_freq("D4"), Some(294));
    assert_eq!(note_to_freq("D#4"), Some(311));
    assert_eq!(note_to_freq("E4"), Some(329));
    assert_eq!(note_to_freq("F4"), Some(349));
    assert_eq!(note_to_freq("F#4"), Some(370));
    assert_eq!(note_to_freq("G4"), Some(392));
    assert_eq!(note_to_freq("G#4"), Some(415));
    assert_eq!(note_to_freq("A4"), Some(440));
    assert_eq!(note_to_freq("A#4"), Some(466));
    assert_eq!(note_to_freq("B4"), Some(493));
}

#[test]
fn resolves_every_octave_five_token() {
    assert_eq!(note_to_freq("C5"), Some(523));
    assert_eq!(note_to_freq("C#5"), Some(554));
    assert_eq!(note_to_freq("D5"), Some(587));
    assert_eq!(note_to_freq("D#5"), Some(622));
    assert_eq!(note_to_freq("E5"), Some(659));
    assert_eq!(note_to_freq("F5"), Some(698));
    assert_eq!(note_to_freq("F#5"), Some(740));
    assert_eq!(note_to_freq("G5"), Some(784));
    assert_eq!(note_to_freq("G#5"), Some(830));
    assert_eq!(note_to_freq("A5"), Some(880));
    assert_eq!(note_to_freq("A#5"), Some(932));
    assert_eq!(note_to_freq("B5"), Some(987));
    assert_eq!(note_to_freq("C6"), Some(1046));
}

#[test]
fn rest_token_resolves_to_silence() {
    assert_eq!(note_to_freq("_"), Some(0));
}

#[test]
fn unrecognized_tokens_resolve_to_none() {
    assert_eq!(note_to_freq("B#4"), None);
    assert_eq!(note_to_freq("H4"), None);
    assert_eq!(note_to_freq("c4"), None);
    assert_eq!(note_to_freq("C7"), None);
    assert_eq!(note_to_freq(""), None);
    assert_eq!(note_to_freq("C4 "), None);
    assert_eq!(note_to_freq("__"), None);
}
