use vstd::prelude::*;
use crate::morse::{display_of, encode, morse_to_display_string, text_to_morse, MorseSymbol};

verus! {

/// Abstract state of the clock: the time on show, the rendering of the last
/// encoded time, whether a playback is in progress, and the time last played.
pub ghost struct ClockModel {
    pub current_time: Seq<char>,
    pub morse_display: Seq<char>,
    pub is_playing: bool,
    pub last_played_time: Seq<char>,
}

/// A play request: ignored while a playback is in progress; otherwise the
/// current time is encoded, shown, recorded as last played and handed to the
/// player, and the clock counts as playing.
pub open spec fn press_model(s: ClockModel) -> (ClockModel, Option<Seq<MorseSymbol>>) {
    if s.is_playing {
        (s, None)
    } else {
        let morse = encode(s.current_time);
        (
            ClockModel {
                current_time: s.current_time,
                morse_display: display_of(morse),
                is_playing: true,
                last_played_time: s.current_time,
            },
            Some(morse),
        )
    }
}

/// The state of the clock that plays the time in Morse code.
pub struct MorseTimeClockApp {
    pub current_time: String,
    pub morse_display: String,
    pub is_playing: bool,
    pub last_played_time: String,
}

impl View for MorseTimeClockApp {
    type V = ClockModel;

    open spec fn view(&self) -> ClockModel {
        ClockModel {
            current_time: self.current_time@,
            morse_display: self.morse_display@,
            is_playing: self.is_playing,
            last_played_time: self.last_played_time@,
        }
    }
}

impl Default for MorseTimeClockApp {
    fn default() -> (r: Self)
        ensures
            r@ == (ClockModel {
                current_time: Seq::empty(),
                morse_display: Seq::empty(),
                is_playing: false,
                last_played_time: Seq::empty(),
            }),
    {
        MorseTimeClockApp {
            current_time: String::new(),
            morse_display: String::new(),
            is_playing: false,
            last_played_time: String::new(),
        }
    }
}

impl MorseTimeClockApp {
    /// Shows a new time; nothing else changes.
    pub fn set_current_time(&mut self, time: String)
        ensures
            final(self)@ == (ClockModel { current_time: time@, ..old(self)@ }),
    {
        self.current_time = time;
    }

    /// Handles a play request; returns the sequence to play when one starts.
    pub fn press_play(&mut self) -> (r: Option<Vec<MorseSymbol>>)
        ensures
            final(self)@ == press_model(old(self)@).0,
            match r {
                Some(v) => press_model(old(self)@).1 == Some(v@),
                None => press_model(old(self)@).1 is None,
            },
    {
        if self.is_playing {
            return None;
        }
        self.is_playing = true;
        let morse = text_to_morse(self.current_time.as_str());
        self.morse_display = morse_to_display_string(morse.as_slice());
        self.last_played_time = self.current_time.clone();
        Some(morse)
    }

    /// Marks the playback as over, so that the next request is accepted.
    pub fn finish_playback(&mut self)
        ensures
            final(self)@ == (ClockModel { is_playing: false, ..old(self)@ }),
    {
        self.is_playing = false;
    }
}

/// Once a request has been accepted, a second one before the playback ends
/// has no effect: it starts nothing and leaves the state as it was.
pub proof fn lemma_second_request_ignored(s: ClockModel)
    ensures
        press_model(press_model(s).0).1 is None,
        press_model(press_model(s).0).0 == press_model(s).0,
{
}

/// After the playback ends a new request is accepted again and plays the time
/// then on show.
pub proof fn lemma_request_after_finish(s: ClockModel)
    ensures
        press_model(ClockModel { is_playing: false, ..press_model(s).0 }).1 == Some(
            encode(s.current_time),
        ),
{
}

} // verus!
