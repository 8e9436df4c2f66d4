use crate::audio::{signal_for, AudioPlay, AudioSignal};
use crate::error::Chip8Error;
use crate::keyboard::KEY_COUNT;
use crate::keymap::Sdl2KeyMap;
use crate::machine::Machine;
use crate::state::MachineState;
use vstd::prelude::*;

verus! {

/// How often the timers count down and the display is redrawn, in hertz.
pub const TIMER_FREQUENCY: u64 = 60;

/// How often the machine runs a cycle, in hertz.
pub const CLOCK_FREQUENCY: u64 = 500;

/// The host keycode of the Escape key, which ends the run.
pub const KEYCODE_ESCAPE: i32 = 27;

/// What the host reports between two cycles, as plain values: the codes are
/// the host's own numbers for the key.
#[derive(Debug, Clone, Copy)]
pub enum HostEvent {
    /// The host asks the run to end.
    Quit,
    /// A key went down.
    KeyDown { keycode: Option<i32>, scancode: Option<i32> },
    /// A key went up.
    KeyUp { scancode: Option<i32> },
    /// Anything else.
    Other,
}

/// Which of the two periodic ticks fired.
#[derive(Debug, Clone, Copy, PartialEq, Eq, Structural)]
pub enum Tick {
    /// The tick of the timers and of the display.
    Timer,
    /// The tick of the processor.
    Clock,
}

/// What the host owes after a tick was served.
#[derive(Debug, Clone, Copy, PartialEq, Eq, Structural)]
pub enum HostAction {
    /// Paint the display buffer; the audio device was sent the signal.
    Redraw(AudioSignal),
    /// Nothing.
    Idle,
}

/// The length of one period of a tick source, in microseconds.
pub open spec fn period_micros(frequency: u64) -> u64 {
    1_000_000u64 / frequency
}

/// Whether `event` ends the run: a quit request, or the Escape key going down.
pub open spec fn stops(event: HostEvent) -> bool {
    match event {
        HostEvent::Quit => true,
        HostEvent::KeyDown { keycode: Some(code), .. } => code == KEYCODE_ESCAPE,
        _ => false,
    }
}

/// Whether some event of `events` ends the run.
pub open spec fn any_stops(events: Seq<HostEvent>) -> bool {
    exists|k: int| 0 <= k < events.len() && stops(#[trigger] events[k])
}

/// The key states with the state of the key that `scancode` stands for set to
/// `down`. A scancode that the table does not hold, or that it maps to no
/// logical key, changes nothing.
pub open spec fn key_set(keys: Seq<bool>, key_map: Map<i32, u8>, scancode: i32, down: bool) -> Seq<bool> {
    if key_map.contains_key(scancode) && key_map[scancode] < KEY_COUNT {
        keys.update(key_map[scancode] as int, down)
    } else {
        keys
    }
}

/// The key states after one host event.
pub open spec fn keys_after_event(keys: Seq<bool>, event: HostEvent, key_map: Map<i32, u8>) -> Seq<bool> {
    if stops(event) {
        keys
    } else {
        match event {
            HostEvent::KeyDown { scancode: Some(scancode), .. } => key_set(
                keys,
                key_map,
                scancode,
                true,
            ),
            HostEvent::KeyUp { scancode: Some(scancode) } => key_set(keys, key_map, scancode, false),
            _ => keys,
        }
    }
}

/// The key states after the host events `events`, in order.
pub open spec fn keys_after_events(keys: Seq<bool>, events: Seq<HostEvent>, key_map: Map<i32, u8>) -> Seq<bool>
    decreases events.len(),
{
    if events.len() == 0 {
        keys
    } else {
        keys_after_event(
            keys_after_events(keys, events.drop_last(), key_map),
            events.last(),
            key_map,
        )
    }
}

/// The state with the host events `events` drained into the input latch.
pub open spec fn events_drained(s: MachineState, events: Seq<HostEvent>, key_map: Map<i32, u8>) -> MachineState {
    MachineState { keys: keys_after_events(s.keys, events, key_map), ..s }
}

/// The period of a tick source that fires `frequency` times a second, in
/// whole microseconds.
pub fn tick_period_micros(frequency: u64) -> (period: u64)
    requires
        frequency > 0,
    ensures
        period == period_micros(frequency),
{
    1000000 / frequency
}

/// Sets the state of the key that `scancode` stands for.
fn set_key<T: AudioPlay>(machine: &mut Machine<T>, key_map: &Sdl2KeyMap, scancode: i32, down: bool)
    requires
        old(machine).wf(),
    ensures
        final(machine).wf(),
        final(machine).audio() == old(machine).audio(),
        final(machine)@ == (MachineState {
            keys: key_set(old(machine)@.keys, key_map@, scancode, down),
            ..old(machine)@
        }),
{
    if let Some(key) = key_map.scancode_to_key(&scancode) {
        if (key as usize) < KEY_COUNT {
            if down {
                machine.key_down(key);
            } else {
                machine.key_up(key);
            }
        }
    }
}

/// Drains the pending host events into the input latch, in order. A quit
/// request or the Escape key going down clears `running`; a key that the
/// table knows goes down or up; everything else is passed over.
pub fn key_event<T: AudioPlay>(
    machine: &mut Machine<T>,
    running: &mut bool,
    events: &[HostEvent],
    key_map: &Sdl2KeyMap,
)
    requires
        old(machine).wf(),
    ensures
        final(machine).wf(),
        final(machine).audio() == old(machine).audio(),
        final(machine)@ == events_drained(old(machine)@, events@, key_map@),
        *final(running) == (*old(running) && !any_stops(events@)),
{
    let mut k: usize = 0;
    assert(events@.take(0) =~= Seq::<HostEvent>::empty());
    while k < events.len()
        invariant
            k <= events@.len(),
            machine.wf(),
            machine.audio() == old(machine).audio(),
            machine@ == events_drained(old(machine)@, events@.take(k as int), key_map@),
            *running == (*old(running) && !any_stops(events@.take(k as int))),
        decreases events@.len() - k,
    {
        let ghost seen = events@.take(k as int);
        let ghost next = events@.take(k + 1);
        proof {
            assert(next.drop_last() =~= seen);
            assert(next.last() == events@[k as int]);
            if stops(events@[k as int]) {
                assert(stops(next[k as int]));
            } else if any_stops(next) {
                let j = choose|j: int| 0 <= j < next.len() && stops(#[trigger] next[j]);
                assert(stops(seen[j]));
            }
            if any_stops(seen) {
                let j = choose|j: int| 0 <= j < seen.len() && stops(#[trigger] seen[j]);
                assert(stops(next[j]));
            }
        }
        match events[k] {
            HostEvent::Quit => {
                *running = false;
            },
            HostEvent::KeyDown { keycode, scancode } => {
                let escape = match keycode {
                    Some(code) => code == KEYCODE_ESCAPE,
                    None => false,
                };
                if escape {
                    *running = false;
                } else if let Some(code) = scancode {
                    set_key(machine, key_map, code, true);
                }
            },
            HostEvent::KeyUp { scancode } => {
                if let Some(code) = scancode {
                    set_key(machine, key_map, code, false);
                }
            },
            HostEvent::Other => {},
        }
        k += 1;
    }
    assert(events@.take(k as int) =~= events@);
}

/// Serves one tick. A timer tick counts both timers down, signals the audio
/// device and asks for a redraw, with the signal that was sent. A clock tick drains the pending host events
/// into the input latch and then runs one cycle, whether or not an event
/// cleared `running`; the events of a timer tick are left alone.
pub fn serve_tick<T: AudioPlay>(
    machine: &mut Machine<T>,
    running: &mut bool,
    tick: Tick,
    events: &[HostEvent],
    key_map: &Sdl2KeyMap,
) -> (served: Result<HostAction, Chip8Error>)
    requires
        old(machine).wf(),
    ensures
        final(machine).wf(),
        final(machine).audio() == old(machine).audio(),
        tick == Tick::Timer ==> {
            &&& final(machine)@ == old(machine)@.after_tick()
            &&& *final(running) == *old(running)
            &&& served == Ok::<HostAction, Chip8Error>(
                HostAction::Redraw(signal_for(old(machine)@.sound_timer)),
            )
        },
        tick == Tick::Clock ==> {
            let drained = events_drained(old(machine)@, events@, key_map@);
            &&& *final(running) == (*old(running) && !any_stops(events@))
            &&& exists|random: u8| final(machine)@ == #[trigger] drained.after_cycle(random)
            &&& !drained.draws_random() ==> forall|random: u8|
                final(machine)@ == #[trigger] drained.after_cycle(random)
            &&& match drained.cycle_fault() {
                Some(fault) => served == Err::<HostAction, Chip8Error>(fault),
                None => served == Ok::<HostAction, Chip8Error>(HostAction::Idle),
            }
        },
{
    match tick {
        Tick::Timer => {
            let signal = machine.update_timer();
            Ok(HostAction::Redraw(signal))
        },
        Tick::Clock => {
            key_event(machine, running, events, key_map);
            match machine.run_cycle() {
                Ok(()) => Ok(HostAction::Idle),
                Err(fault) => Err(fault),
            }
        },
    }
}

} // verus!
