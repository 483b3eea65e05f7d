use buzzled::buzz::Buzzer;
use buzzled::buzz::MelodyError;
use buzzled::buzz::PlayError;
use buzzled::buzz::PwmCommand;
use buzzled::buzz::TimerChannel;
use buzzled::buzz::MELODY_CAPACITY;

#[test]
fn constructors_bind_their_channel() {
    assert_eq!(Buzzer::new_ch1().channel(), TimerChannel::Ch1);
    assert_eq!(Buzzer::new_ch2().channel(), TimerChannel::Ch2);
    assert_eq!(Buzzer::new_ch3().channel(), TimerChannel::Ch3);
    assert_eq!(Buzzer::new_ch4().channel(), TimerChannel::Ch4);
}

#[test]
fn new_sequencer_has_no_melody() {
    let b = Buzzer::new_ch1();
    assert_eq!(b.melody_len(), None);
    assert_eq!(b.play_commands(1000), Err(PlayError::NoMelody));
}

#[test]
fn set_notes_resolves_in_order() {
    let mut b = Buzzer::new_ch1();
    let r = b.set_notes(&[("A4", 100), ("_", 50), ("C5", 250)]);
    assert_eq!(r, Ok(false));
    assert_eq!(b.melody_len(), Some(3));
    assert_eq!(b.melody_entry(0), (440, 100));
    assert_eq!(b.melody_entry(1), (0, 50));
    assert_eq!(b.melody_entry(2), (523, 250));
}

#[test]
fn first_bad_token_truncates_the_rest() {
    let mut b = Buzzer::new_ch2();
    let r = b.set_notes(&[("C4", 100), ("D4", 200), ("X9", 999), ("E4", 300)]);
    assert_eq!(r, Ok(true));
    assert_eq!(b.melody_len(), Some(2));
    assert_eq!(b.melody_entry(0), (261, 100));
    assert_eq!(b.melody_entry(1), (294, 200));
}

#[test]
fn bad_first_token_gives_empty_melody() {
    let mut b = Buzzer::new_ch1();
    let r = b.set_notes(&[("nope", 10), ("C4", 100)]);
    assert_eq!(r, Ok(true));
    assert_eq!(b.melody_len(), Some(0));
}

#[test]
fn empty_input_gives_empty_melody() {
    let mut b = Buzzer::new_ch1();
    assert_eq!(b.set_notes(&[]), Ok(false));
    assert_eq!(b.melody_len(), Some(0));
    assert_eq!(b.play_commands(500), Ok(vec![]));
}

#[test]
fn set_notes_replaces_the_whole_melody() {
    let mut b = Buzzer::new_ch1();
    assert_eq!(b.set_notes(&[("C4", 100), ("D4", 200)]), Ok(false));
    assert_eq!(b.set_notes(&[("E4", 300)]), Ok(false));
    assert_eq!(b.melody_len(), Some(1));
    assert_eq!(b.melody_entry(0), (329, 300));
}

#[test]
fn full_capacity_preserves_every_entry() {
    let mut b = Buzzer::new_ch3();
    let notes: Vec<(&str, u32)> = (0..MELODY_CAPACITY).map(|i| ("A4", i as u32)).collect();
    assert_eq!(b.set_notes(&notes), Ok(false));
    assert_eq!(b.melody_len(), Some(MELODY_CAPACITY));
    assert_eq!(b.melody_entry(0), (440, 0));
    assert_eq!(b.melody_entry(MELODY_CAPACITY - 1), (440, (MELODY_CAPACITY - 1) as u32));
}

#[test]
fn one_entry_over_capacity_is_rejected() {
    let mut b = Buzzer::new_ch3();
    assert_eq!(b.set_notes(&[("C4", 1), ("D4", 2)]), Ok(false));
    let notes: Vec<(&str, u32)> = (0..MELODY_CAPACITY + 1).map(|_| ("A4", 10u32)).collect();
    assert_eq!(b.set_notes(&notes), Err(MelodyError::TooManyEntries));
    // the melody that was set before the rejected call is untouched
    assert_eq!(b.melody_len(), Some(2));
    assert_eq!(b.melody_entry(0), (261, 1));
    assert_eq!(b.melody_entry(1), (294, 2));
}

#[test]
fn one_pass_of_playback_in_order() {
    let mut b = Buzzer::new_ch1();
    assert_eq!(b.set_notes(&[("A4", 100), ("_", 50)]), Ok(false));
    let cmds = b.play_commands(1000).unwrap();
    assert_eq!(
        cmds,
        vec![
            PwmCommand::SetFrequency(440),
            PwmCommand::SetDuty(500),
            PwmCommand::Enable,
            PwmCommand::Sleep(100),
            PwmCommand::Disable,
            PwmCommand::Sleep(50),
        ]
    );
}

#[test]
fn playback_duty_is_half_of_max() {
    let mut b = Buzzer::new_ch4();
    assert_eq!(b.set_notes(&[("C6", 10)]), Ok(false));
    let cmds = b.play_commands(65535).unwrap();
    assert_eq!(
        cmds,
        vec![
            PwmCommand::SetFrequency(1046),
            PwmCommand::SetDuty(32767),
            PwmCommand::Enable,
            PwmCommand::Sleep(10),
            PwmCommand::Disable,
        ]
    );
}

#[test]
fn rests_only_sleep() {
    let mut b = Buzzer::new_ch1();
    assert_eq!(b.set_notes(&[("_", 25), ("_", 1000)]), Ok(false));
    let cmds = b.play_commands(100).unwrap();
    assert_eq!(cmds, vec![PwmCommand::Sleep(25), PwmCommand::Sleep(1000)]);
}
