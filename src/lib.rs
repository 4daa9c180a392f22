//! A clock that speaks the time in Morse code: a symbol table and encoder, a
//! tone cursor, a playback sequencer, and the clock's play/ignore state.
use vstd::prelude::*;

pub mod morse;
pub mod tone;
pub mod playback;
pub mod clock;

verus! {

} // verus!
