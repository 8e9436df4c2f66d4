use vstd::prelude::*;

verus! {

/// What the sound timer asks of the audio device on one timer tick.
#[derive(Debug, Clone, Copy, PartialEq, Eq, Structural)]
pub enum AudioSignal {
    /// The timer is running: the tone plays.
    Play,
    /// The timer has run out: the tone stops.
    Stop,
}

/// The signal that a tick sends when it finds the sound timer at `sound_timer`.
pub open spec fn signal_for(sound_timer: u8) -> AudioSignal {
    if sound_timer > 0 {
        AudioSignal::Play
    } else {
        AudioSignal::Stop
    }
}

/// An audio device that the machine starts and stops. The machine only
/// sends the two signals; what the device plays is its own affair.
pub trait AudioPlay {
    /// Starts the tone, or lets it go on.
    fn resume(&self);

    /// Stops the tone, or leaves it stopped.
    fn pause(&self);
}

} // verus!
