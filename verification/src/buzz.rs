//! The tone sequencer: a bounded melody store and the command schedule
//! that plays it on one PWM channel.
//!
//! The sequencer itself holds no hardware.  `set_notes` resolves a
//! sequence of note tokens into a melody, and `play_commands` turns the
//! melody into the exact sequence of PWM driver instructions for one
//! pass of playback.  The caller owns the channel driver and performs
//! each instruction in order, yielding to other tasks on every
//! [`PwmCommand::Sleep`].

use vstd::prelude::*;

use crate::notes::freq_of;
use crate::notes::note_to_freq;

verus! {

/// Largest number of entries a melody can hold.
pub const MELODY_CAPACITY: usize = 256;

/// One of the four output-compare channels of a four-channel timer.
#[derive(Clone, Copy, Debug, PartialEq, Eq, Structural)]
pub enum TimerChannel {
    Ch1,
    Ch2,
    Ch3,
    Ch4,
}

/// A melody was supplied with more entries than the store can hold.
#[derive(Clone, Copy, Debug, PartialEq, Eq, Structural)]
pub enum MelodyError {
    TooManyEntries,
}

/// Playback was asked of a sequencer whose melody was never set.
#[derive(Clone, Copy, Debug, PartialEq, Eq, Structural)]
pub enum PlayError {
    NoMelody,
}

/// One instruction to the PWM channel driver.  Frequencies are in Hz,
/// duty values are counts against the channel's maximum-duty register,
/// and sleeps are in milliseconds and yield to concurrent tasks.
#[derive(Clone, Copy, Debug, PartialEq, Eq, Structural)]
pub enum PwmCommand {
    SetFrequency(u32),
    SetDuty(u32),
    Enable,
    Sleep(u32),
    Disable,
}

/// The melody that a sequence of `(token, duration)` entries resolves
/// to: the longest prefix whose tokens all resolve, each entry mapped
/// to `(frequency, duration)`.  The first unresolvable token ends the
/// melody; everything after it is dropped.
pub open spec fn resolved_prefix(ts: Seq<(&str, u32)>) -> Seq<(u32, u32)>
    decreases ts.len(),
{
    if ts.len() == 0 {
        Seq::empty()
    } else {
        let front = resolved_prefix(ts.drop_last());
        let last = ts.last();
        if front.len() == ts.len() - 1 && freq_of(last.0@) is Some {
            front.push((freq_of(last.0@).unwrap(), last.1))
        } else {
            front
        }
    }
}

/// The resolved melody is never longer than the input.
pub proof fn lemma_resolved_prefix_len(ts: Seq<(&str, u32)>)
    ensures
        resolved_prefix(ts).len() <= ts.len(),
    decreases ts.len(),
{
    if ts.len() > 0 {
        lemma_resolved_prefix_len(ts.drop_last());
    }
}

/// Once a token has failed to resolve, the entries after it change
/// nothing: the melody of the whole input is the melody of the prefix
/// that ends at the failure.
pub proof fn lemma_resolved_prefix_stops(ts: Seq<(&str, u32)>, i: int)
    requires
        0 <= i <= ts.len(),
        resolved_prefix(ts.take(i)).len() < i,
    ensures
        resolved_prefix(ts) == resolved_prefix(ts.take(i)),
    decreases ts.len(),
{
    if ts.len() > i {
        assert(ts.drop_last().take(i) =~= ts.take(i));
        lemma_resolved_prefix_stops(ts.drop_last(), i);
        lemma_resolved_prefix_len(ts.take(i));
        assert(ts.take(ts.len() as int) =~= ts);
    } else {
        assert(ts.take(i) =~= ts);
    }
}

/// Truncation law: when the first `i` tokens resolve and token `i`
/// does not, the melody is exactly the `i` resolved entries, in order.
pub proof fn lemma_truncation(ts: Seq<(&str, u32)>, i: int)
    requires
        0 <= i < ts.len(),
        forall|j: int| 0 <= j < i ==> freq_of(ts[j].0@) is Some,
        freq_of(ts[i].0@) is None,
    ensures
        resolved_prefix(ts) =~= Seq::new(i as nat, |j: int| (freq_of(ts[j].0@).unwrap(), ts[j].1)),
{
    lemma_resolved_prefix_all_valid(ts.take(i));
    assert(resolved_prefix(ts.take(i)) =~= Seq::new(
        i as nat,
        |j: int| (freq_of(ts[j].0@).unwrap(), ts[j].1),
    ));
    assert(ts.take(i + 1).drop_last() =~= ts.take(i));
    assert(resolved_prefix(ts.take(i + 1)) == resolved_prefix(ts.take(i)));
    lemma_resolved_prefix_stops(ts, i + 1);
}

/// When every token resolves, nothing is dropped: the melody carries
/// every entry, in order, with its resolved frequency.
pub proof fn lemma_resolved_prefix_all_valid(ts: Seq<(&str, u32)>)
    requires
        forall|j: int| 0 <= j < ts.len() ==> freq_of(ts[j].0@) is Some,
    ensures
        resolved_prefix(ts) =~= Seq::new(
            ts.len(),
            |j: int| (freq_of(ts[j].0@).unwrap(), ts[j].1),
        ),
    decreases ts.len(),
{
    if ts.len() > 0 {
        lemma_resolved_prefix_all_valid(ts.drop_last());
    }
}

/// The PWM instructions that play one melody entry: an audible note
/// reprograms the frequency, sets a 50% duty square wave, enables the
/// output for the note's duration and disables it again; a rest
/// (frequency 0) only sleeps, with the output left disabled.
pub open spec fn note_commands(freq: u32, dur: u32, max_duty: u32) -> Seq<PwmCommand> {
    if freq != 0 {
        seq![
            PwmCommand::SetFrequency(freq),
            PwmCommand::SetDuty(max_duty / 2),
            PwmCommand::Enable,
            PwmCommand::Sleep(dur),
            PwmCommand::Disable,
        ]
    } else {
        seq![PwmCommand::Sleep(dur)]
    }
}

/// The PWM instructions for one full pass over a melody: each entry's
/// instructions in melody order, nothing between them, nothing after.
pub open spec fn melody_commands(m: Seq<(u32, u32)>, max_duty: u32) -> Seq<PwmCommand>
    decreases m.len(),
{
    if m.len() == 0 {
        Seq::empty()
    } else {
        melody_commands(m.drop_last(), max_duty) + note_commands(m.last().0, m.last().1, max_duty)
    }
}

/// A monophonic tone sequencer bound to one timer channel.  It owns at
/// most one melody at a time; playback is expressed as the command
/// schedule of [`Buzzer::play_commands`].
pub struct Buzzer {
    notes: Option<Vec<(u32, u32)>>,
    channel: TimerChannel,
}

impl Buzzer {
    /// The melody the sequencer holds, if one has been set: a sequence
    /// of `(frequency in Hz, duration in ms)` entries.
    pub closed spec fn melody(&self) -> Option<Seq<(u32, u32)>> {
        match self.notes {
            Some(v) => Some(v@),
            None => None,
        }
    }

    /// The channel the sequencer was bound to at construction.
    pub closed spec fn spec_channel(&self) -> TimerChannel {
        self.channel
    }

    /// A melody, once set, fits the fixed-capacity store.
    pub open spec fn wf(&self) -> bool {
        match self.melody() {
            Some(m) => m.len() <= MELODY_CAPACITY,
            None => true,
        }
    }

    /// A sequencer bound to channel 1, with no melody set.
    pub fn new_ch1() -> (b: Buzzer)
        ensures
            b.melody() is None,
            b.spec_channel() == TimerChannel::Ch1,
            b.wf(),
    {
        Buzzer { notes: None, channel: TimerChannel::Ch1 }
    }

    /// A sequencer bound to channel 2, with no melody set.
    pub fn new_ch2() -> (b: Buzzer)
        ensures
            b.melody() is None,
            b.spec_channel() == TimerChannel::Ch2,
            b.wf(),
    {
        Buzzer { notes: None, channel: TimerChannel::Ch2 }
    }

    /// A sequencer bound to channel 3, with no melody set.
    pub fn new_ch3() -> (b: Buzzer)
        ensures
            b.melody() is None,
            b.spec_channel() == TimerChannel::Ch3,
            b.wf(),
    {
        Buzzer { notes: None, channel: TimerChannel::Ch3 }
    }

    /// A sequencer bound to channel 4, with no melody set.
    pub fn new_ch4() -> (b: Buzzer)
        ensures
            b.melody() is None,
            b.spec_channel() == TimerChannel::Ch4,
            b.wf(),
    {
        Buzzer { notes: None, channel: TimerChannel::Ch4 }
    }

    /// The channel this sequencer drives.
    pub fn channel(&self) -> (c: TimerChannel)
        ensures
            c == self.spec_channel(),
    {
        self.channel
    }

    /// The number of entries in the melody, if one has been set.
    pub fn melody_len(&self) -> (r: Option<usize>)
        ensures
            self.melody() matches Some(m) ==> r matches Some(n) && n == m.len(),
            self.melody() is None ==> r is None,
    {
        match &self.notes {
            Some(v) => Some(v.len()),
            None => None,
        }
    }

    /// The melody entry at `i`: `(frequency in Hz, duration in ms)`.
    pub fn melody_entry(&self, i: usize) -> (e: (u32, u32))
        requires
            self.melody() matches Some(m) && i < m.len(),
        ensures
            self.melody() matches Some(m) ==> e == m[i as int],
    {
        let v = self.notes.as_ref().unwrap();
        v[i]
    }

    /// Replaces the melody with the resolved prefix of `notes`: tokens
    /// are resolved in order and the first failure drops the rest
    /// (truncate, don't abort).  Returns `Ok(truncated)`, saying
    /// whether anything was dropped, or an error — with the sequencer
    /// untouched — when more entries are supplied than the store holds.
    pub fn set_notes(&mut self, notes: &[(&str, u32)]) -> (r: Result<bool, MelodyError>)
        requires
            old(self).wf(),
        ensures
            final(self).wf(),
            final(self).spec_channel() == old(self).spec_channel(),
            notes@.len() > MELODY_CAPACITY ==> {
                &&& r == Err::<bool, MelodyError>(MelodyError::TooManyEntries)
                &&& *final(self) == *old(self)
            },
            notes@.len() <= MELODY_CAPACITY ==> {
                &&& final(self).melody() == Some(resolved_prefix(notes@))
                &&& r == Ok::<bool, MelodyError>(resolved_prefix(notes@).len() < notes@.len())
            },
    {
        if notes.len() > MELODY_CAPACITY {
            return Err(MelodyError::TooManyEntries);
        }
        let n = notes.len();
        let mut freqs: Vec<(u32, u32)> = Vec::new();
        let mut i: usize = 0;
        let mut truncated = false;
        while i < n && !truncated
            invariant
                i <= n,
                n == notes@.len(),
                freqs@ == resolved_prefix(notes@.take(i as int)),
                !truncated ==> freqs@.len() == i,
                truncated ==> resolved_prefix(notes@) == freqs@ && freqs@.len() < n,
            decreases n - i + if truncated { 0int } else { 1int },
        {
            match note_to_freq(notes[i].0) {
                Some(freq) => {
                    freqs.push((freq, notes[i].1));
                    proof {
                        assert(notes@.take(i + 1).drop_last() =~= notes@.take(i as int));
                        assert(notes@.take(i + 1).last() == notes@[i as int]);
                    }
                    i += 1;
                },
                None => {
                    proof {
                        assert(notes@.take(i + 1).drop_last() =~= notes@.take(i as int));
                        assert(resolved_prefix(notes@.take(i + 1)) == freqs@);
                        lemma_resolved_prefix_stops(notes@, i + 1);
                    }
                    truncated = true;
                },
            }
        }
        proof {
            if !truncated {
                assert(notes@.take(n as int) =~= notes@);
            }
            lemma_resolved_prefix_len(notes@);
        }
        self.notes = Some(freqs);
        Ok(truncated)
    }

    /// The PWM instructions for one pass of playback, in order: exactly
    /// [`melody_commands`] over the melody and the channel's current
    /// maximum duty.  Fails — playback is a programming error there —
    /// when no melody has been set.
    pub fn play_commands(&self, max_duty: u32) -> (r: Result<Vec<PwmCommand>, PlayError>)
        ensures
            self.melody() is None <==> r is Err,
            r is Err ==> r == Err::<Vec<PwmCommand>, PlayError>(PlayError::NoMelody),
            self.melody() matches Some(m) ==> r matches Ok(cs) && cs@ == melody_commands(
                m,
                max_duty,
            ),
    {
        let m = match &self.notes {
            None => {
                return Err(PlayError::NoMelody);
            },
            Some(v) => v,
        };
        let n = m.len();
        let mut out: Vec<PwmCommand> = Vec::new();
        let mut i: usize = 0;
        while i < n
            invariant
                i <= n,
                n == m@.len(),
                self.melody() == Some(m@),
                out@ == melody_commands(m@.take(i as int), max_duty),
            decreases n - i,
        {
            let (freq, dur) = m[i];
            if freq != 0 {
                out.push(PwmCommand::SetFrequency(freq));
                out.push(PwmCommand::SetDuty(max_duty / 2));
                out.push(PwmCommand::Enable);
                out.push(PwmCommand::Sleep(dur));
                out.push(PwmCommand::Disable);
            } else {
                out.push(PwmCommand::Sleep(dur));
            }
            proof {
                assert(m@.take(i + 1).drop_last() =~= m@.take(i as int));
                assert(m@.take(i + 1).last() == m@[i as int]);
                assert(out@ =~= melody_commands(m@.take(i + 1), max_duty));
            }
            i += 1;
        }
        proof {
            assert(m@.take(n as int) =~= m@);
        }
        Ok(out)
    }
}

} // verus!
