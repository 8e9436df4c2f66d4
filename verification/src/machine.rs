use crate::audio::{signal_for, AudioPlay, AudioSignal};
use crate::error::Chip8Error;
use crate::font::{DEFAULTFONT, FONT_BASE, GLYPH_SIZE};
use crate::instruction::Instruction;
use crate::keyboard::{KeyBoard, KEY_COUNT};
use crate::rom::ROM;
use crate::state::{
    add_registers, alu_registers, registers_dumped, registers_loaded, shift_left_registers,
    shift_right_registers, sub_registers, ticked, MachineState, DISPLAY_HEIGHT, DISPLAY_WIDTH,
    FLAG, MEMORY_SIZE, PROGRAM_START, REGISTER_COUNT, RESERVED_MEMORY_SIZE, STACK_SIZE,
};
use crate::video::Video;
use rand::Rng;
use vstd::prelude::*;

verus! {

/// Draws one byte from the thread-local generator of the `rand` crate
/// (`rand::thread_rng`, then `Rng::gen::<u8>`), which the system seeds.
/// Nothing is claimed of the byte: each of the 256 values may come back, and
/// two calls may differ.
#[verifier::external_body]
fn random_byte() -> (byte: u8) {
    let mut rng = rand::thread_rng();
    rng.gen()
}

/// The execution engine: memory, registers, program counter, index register,
/// call stack and timers, with the display buffer, the input latch and the
/// audio device that it drives.
pub struct Machine<T: AudioPlay> {
    memory: [u8; MEMORY_SIZE],
    registers: [u8; REGISTER_COUNT],
    pc: u16,
    i: u16,
    stack: Vec<u16>,
    delay_timer: u8,
    sound_timer: u8,
    keyboard: KeyBoard,
    video: Video,
    audio: Option<T>,
}

impl<T: AudioPlay> View for Machine<T> {
    type V = MachineState;

    closed spec fn view(&self) -> MachineState {
        MachineState {
            memory: self.memory@,
            registers: self.registers@,
            pc: self.pc,
            i: self.i,
            stack: self.stack@,
            delay_timer: self.delay_timer,
            sound_timer: self.sound_timer,
            keys: self.keyboard@,
            display: self.video@,
        }
    }
}

impl<T: AudioPlay> Machine<T> {
    /// The display buffer is sound and has the size of the display.
    pub closed spec fn inv(&self) -> bool {
        &&& self.video.wf()
        &&& self.video.spec_width() == DISPLAY_WIDTH
        &&& self.video.spec_height() == DISPLAY_HEIGHT
    }

    /// The machine is well formed: its parts are sound and its view has the
    /// sizes of `MachineState::well_formed`.
    pub open spec fn wf(&self) -> bool {
        &&& self.inv()
        &&& self@.well_formed()
    }

    /// The audio device that the machine signals, if one was attached.
    pub closed spec fn audio(&self) -> Option<T> {
        self.audio
    }

    /// A machine just switched on, with no audio device.
    pub fn new() -> (made: Result<Self, Chip8Error>)
        ensures
            made matches Ok(machine) && machine.wf() && machine@ == MachineState::initial()
                && machine.audio() is None,
    {
        let machine = Machine {
            memory: [0;MEMORY_SIZE],
            registers: [0;REGISTER_COUNT],
            pc: PROGRAM_START,
            i: 0x0,
            stack: Vec::with_capacity(STACK_SIZE),
            delay_timer: 0,
            sound_timer: 0,
            keyboard: KeyBoard::default(),
            video: Video::new(DISPLAY_WIDTH, DISPLAY_HEIGHT),
            audio: None,
        };
        proof {
            machine.keyboard.lemma_view_len();
            assert(machine@.memory =~= MachineState::initial().memory);
            assert(machine@.registers =~= MachineState::initial().registers);
            assert(machine@.stack =~= MachineState::initial().stack);
        }
        Ok(machine)
    }

    /// Whether the program counter has left the address space.
    pub fn is_halt(&mut self) -> (halted: bool)
        ensures
            *final(self) == *old(self),
            halted == (old(self)@.pc >= MEMORY_SIZE),
    {
        (self.pc as usize) >= MEMORY_SIZE
    }

    /// Copies `bytes` into memory from `start` on.
    fn copy_into_memory(&mut self, start: usize, bytes: &[u8])
        requires
            old(self).wf(),
            start + bytes@.len() <= MEMORY_SIZE,
        ensures
            final(self).wf(),
            final(self).audio() == old(self).audio(),
            final(self)@ == old(self)@.with_bytes(start as int, bytes@),
    {
        let mut k: usize = 0;
        assert(self@.memory =~= old(self)@.with_bytes(start as int, bytes@.take(0)).memory);
        while k < bytes.len()
            invariant
                k <= bytes@.len(),
                start + bytes@.len() <= MEMORY_SIZE,
                self.wf(),
                self.audio() == old(self).audio(),
                self@ == old(self)@.with_bytes(start as int, bytes@.take(k as int)),
            decreases bytes@.len() - k,
        {
            self.memory[start + k] = bytes[k];
            k += 1;
            assert(self@.memory =~= old(self)@.with_bytes(
                start as int,
                bytes@.take(k as int),
            ).memory);
        }
        assert(bytes@.take(k as int) =~= bytes@);
    }

    /// Puts the glyphs of the sixteen hexadecimal digits into memory.
    pub fn load_font(&mut self) -> (loaded: Result<(), Chip8Error>)
        requires
            old(self).wf(),
        ensures
            loaded is Ok,
            final(self).wf(),
            final(self).audio() == old(self).audio(),
            final(self)@ == old(self)@.with_bytes(FONT_BASE as int, DEFAULTFONT@),
    {
        let font = DEFAULTFONT;
        self.copy_into_memory(FONT_BASE as usize, font.as_slice());
        Ok(())
    }

    /// Puts a program image into memory at the start of program memory, or
    /// refuses one that does not fit and leaves the machine as it was.
    pub fn load_rom(&mut self, rom: &ROM) -> (loaded: Result<(), Chip8Error>)
        requires
            old(self).wf(),
        ensures
            final(self).wf(),
            final(self).audio() == old(self).audio(),
            rom@.len() <= MEMORY_SIZE - RESERVED_MEMORY_SIZE ==> loaded is Ok && final(self)@ == old(
                self,
            )@.with_bytes(PROGRAM_START as int, rom@),
            rom@.len() > MEMORY_SIZE - RESERVED_MEMORY_SIZE ==> final(self)@ == old(self)@ && loaded
                == Err::<(), Chip8Error>(
                Chip8Error::RomTooLarge {
                    length: rom@.len() as usize,
                    capacity: (MEMORY_SIZE - RESERVED_MEMORY_SIZE) as usize,
                },
            ),
    {
        if rom.len() > MEMORY_SIZE - RESERVED_MEMORY_SIZE {
            return Err(
                Chip8Error::RomTooLarge {
                    length: rom.len(),
                    capacity: MEMORY_SIZE - RESERVED_MEMORY_SIZE,
                },
            );
        }
        let raw = rom.raw();
        self.copy_into_memory(PROGRAM_START as usize, raw.as_slice());
        Ok(())
    }

    /// Latches the logical key `key` down.
    pub fn key_down(&mut self, key: u8)
        requires
            old(self).wf(),
            key < KEY_COUNT,
        ensures
            final(self).wf(),
            final(self).audio() == old(self).audio(),
            final(self)@ == (MachineState { keys: old(self)@.keys.update(key as int, true), ..old(self)@ }),
    {
        self.keyboard.key_down(key)
    }

    /// Releases the logical key `key`.
    pub fn key_up(&mut self, key: u8)
        requires
            old(self).wf(),
            key < KEY_COUNT,
        ensures
            final(self).wf(),
            final(self).audio() == old(self).audio(),
            final(self)@ == (MachineState { keys: old(self)@.keys.update(key as int, false), ..old(self)@ }),
    {
        self.keyboard.key_up(key)
    }

    /// The display as the renderer reads it: one `Vec` for each of the 64
    /// columns, each with 32 cells, 1 for a pixel that is on and 0 for one
    /// that is off.
    pub fn get_display(&self) -> (grid: &[Vec<u8>])
        requires
            self.wf(),
        ensures
            grid@.len() == DISPLAY_WIDTH,
            forall|x: int| 0 <= x < DISPLAY_WIDTH ==> (#[trigger] grid@[x])@.len() == DISPLAY_HEIGHT,
            forall|x: int, y: int|
                0 <= x < DISPLAY_WIDTH && 0 <= y < DISPLAY_HEIGHT ==> (#[trigger] grid@[x]@[y])
                    == (if self@.display[x][y] {
                    1u8
                } else {
                    0u8
                }),
    {
        self.video.get_grid()
    }

    /// The number of columns of the display.
    pub fn width(&self) -> (width: usize)
        requires
            self.wf(),
        ensures
            width == DISPLAY_WIDTH,
    {
        self.video.width()
    }

    /// The number of rows of the display.
    pub fn height(&self) -> (height: usize)
        requires
            self.wf(),
        ensures
            height == DISPLAY_HEIGHT,
    {
        self.video.height()
    }

    /// Counts the delay timer down by one, and leaves it at zero.
    pub fn decrement_delay_timer(&mut self)
        requires
            old(self).wf(),
        ensures
            final(self).wf(),
            final(self).audio() == old(self).audio(),
            final(self)@ == (MachineState { delay_timer: ticked(old(self)@.delay_timer), ..old(self)@ }),
    {
        if self.delay_timer > 0 {
            self.delay_timer -= 1;
        };
    }

    /// Attaches the audio device that the sound timer starts and stops.
    pub fn init_sound(&mut self, audio_system: T)
        requires
            old(self).wf(),
        ensures
            final(self).wf(),
            final(self)@ == old(self)@,
            final(self).audio() == Some(audio_system),
    {
        self.audio = Some(audio_system);
    }

    /// Counts the sound timer down by one, and leaves it at zero. A timer that
    /// is still running tells the audio device to play, one that has run out
    /// tells it to stop; the signal sent is returned.
    pub fn decrement_sound_timer(&mut self) -> (signal: AudioSignal)
        requires
            old(self).wf(),
        ensures
            final(self).wf(),
            final(self).audio() == old(self).audio(),
            final(self)@ == (MachineState { sound_timer: ticked(old(self)@.sound_timer), ..old(self)@ }),
            signal == signal_for(old(self)@.sound_timer),
    {
        if self.sound_timer > 0 {
            if let Some(audio) = &self.audio {
                audio.resume();
            }
            self.sound_timer -= 1;
            AudioSignal::Play
        } else {
            if let Some(audio) = &self.audio {
                audio.pause();
            }
            AudioSignal::Stop
        }
    }

    /// One timer tick: both timers count down, and the audio device is told
    /// what the sound timer asks for.
    pub fn update_timer(&mut self) -> (signal: AudioSignal)
        requires
            old(self).wf(),
        ensures
            final(self).wf(),
            final(self).audio() == old(self).audio(),
            final(self)@ == old(self)@.after_tick(),
            signal == signal_for(old(self)@.sound_timer),
    {
        self.decrement_delay_timer();
        self.decrement_sound_timer()
    }

    /// Reads the instruction at the program counter and moves the counter
    /// past it. A counter too close to the end of memory is refused.
    pub fn fetch(&mut self) -> (fetched: Result<Instruction, Chip8Error>)
        requires
            old(self).wf(),
        ensures
            final(self).wf(),
            final(self).audio() == old(self).audio(),
            old(self)@.can_fetch() ==> final(self)@ == old(self)@.fetched(),
            old(self)@.can_fetch() ==> (fetched matches Ok(instr) && instr.opcode == old(
                self,
            )@.opcode()),
            !old(self)@.can_fetch() ==> final(self)@ == old(self)@,
            !old(self)@.can_fetch() ==> fetched matches Err(Chip8Error::AddressOutOfRange),
    {
        if self.pc as usize + 1 >= MEMORY_SIZE {
            return Err(Chip8Error::AddressOutOfRange);
        }
        let instr = Instruction::new(self.memory[self.pc as usize], self.memory[self.pc as usize + 1]);
        self.pc += 2;
        Ok(instr)
    }

    /// `Vx += Vy`, wrapping, with the carry in the flag register: 1 if the sum
    /// passed 255, else 0. The flag is written first, so with `x` the flag
    /// register itself the sum is what stays.
    pub fn add(&mut self, x: usize, y: usize)
        requires
            old(self).wf(),
            x < REGISTER_COUNT,
            y < REGISTER_COUNT,
        ensures
            final(self).wf(),
            final(self).audio() == old(self).audio(),
            final(self)@ == (MachineState {
                registers: add_registers(old(self)@.registers, x as int, y as int),
                ..old(self)@
            }),
            x != FLAG ==> final(self)@.registers[x as int] == (old(self)@.registers[x as int] + old(
                self,
            )@.registers[y as int]) % 256,
            x != FLAG ==> final(self)@.registers[FLAG as int] == (if old(self)@.registers[x as int]
                + old(self)@.registers[y as int] > 255 {
                1u8
            } else {
                0u8
            }),
    {
        let a = self.registers[x];
        let b = self.registers[y];
        let val = a.wrapping_add(b);
        let flag: u8 = if a > 255 - b {
            1
        } else {
            0
        };
        self.registers[FLAG] = flag;
        self.registers[x] = val;
    }

    /// `Vx = Vx - Vy`, wrapping, with the flag register at 1 if nothing was
    /// borrowed (`Vx >= Vy`), else 0. The flag is written first.
    pub fn sub(&mut self, x: usize, y: usize)
        requires
            old(self).wf(),
            x < REGISTER_COUNT,
            y < REGISTER_COUNT,
        ensures
            final(self).wf(),
            final(self).audio() == old(self).audio(),
            final(self)@ == (MachineState {
                registers: sub_registers(
                    old(self)@.registers,
                    x as int,
                    old(self)@.registers[x as int],
                    old(self)@.registers[y as int],
                ),
                ..old(self)@
            }),
            x != FLAG ==> final(self)@.registers[x as int] == (old(self)@.registers[x as int] - old(
                self,
            )@.registers[y as int]) % 256,
            x != FLAG ==> final(self)@.registers[FLAG as int] == (if old(self)@.registers[x as int]
                >= old(self)@.registers[y as int] {
                1u8
            } else {
                0u8
            }),
    {
        let a = self.registers[x];
        let b = self.registers[y];
        let val = a.wrapping_sub(b);
        let flag: u8 = if a >= b {
            1
        } else {
            0
        };
        self.registers[FLAG] = flag;
        self.registers[x] = val;
    }

    /// `Vx = Vy - Vx`, wrapping, with the flag register at 1 if nothing was
    /// borrowed (`Vy >= Vx`), else 0. The flag is written first.
    pub fn subb(&mut self, x: usize, y: usize)
        requires
            old(self).wf(),
            x < REGISTER_COUNT,
            y < REGISTER_COUNT,
        ensures
            final(self).wf(),
            final(self).audio() == old(self).audio(),
            final(self)@ == (MachineState {
                registers: sub_registers(
                    old(self)@.registers,
                    x as int,
                    old(self)@.registers[y as int],
                    old(self)@.registers[x as int],
                ),
                ..old(self)@
            }),
            x != FLAG ==> final(self)@.registers[x as int] == (old(self)@.registers[y as int] - old(
                self,
            )@.registers[x as int]) % 256,
            x != FLAG ==> final(self)@.registers[FLAG as int] == (if old(self)@.registers[y as int]
                >= old(self)@.registers[x as int] {
                1u8
            } else {
                0u8
            }),
    {
        let a = self.registers[y];
        let b = self.registers[x];
        let val = a.wrapping_sub(b);
        let flag: u8 = if a >= b {
            1
        } else {
            0
        };
        self.registers[FLAG] = flag;
        self.registers[x] = val;
    }

    /// `Vx >>= 1`, with the bit that fell out in the flag register. The flag
    /// is written first.
    fn shift_right(&mut self, x: usize)
        requires
            old(self).wf(),
            x < REGISTER_COUNT,
        ensures
            final(self).wf(),
            final(self).audio() == old(self).audio(),
            final(self)@ == (MachineState {
                registers: shift_right_registers(old(self)@.registers, x as int),
                ..old(self)@
            }),
    {
        let low = self.registers[x];
        assert(low & 1 == low % 2) by (bit_vector);
        self.registers[FLAG] = low & 1;
        let value = self.registers[x];
        assert(value >> 1 == value / 2) by (bit_vector);
        self.registers[x] = value >> 1;
    }

    /// `Vx <<= 1`, with the bit that fell out in the flag register. The flag
    /// is written first.
    fn shift_left(&mut self, x: usize)
        requires
            old(self).wf(),
            x < REGISTER_COUNT,
        ensures
            final(self).wf(),
            final(self).audio() == old(self).audio(),
            final(self)@ == (MachineState {
                registers: shift_left_registers(old(self)@.registers, x as int),
                ..old(self)@
            }),
    {
        let high = self.registers[x];
        assert(high >> 7 == high / 128) by (bit_vector);
        self.registers[FLAG] = high >> 7;
        let value = self.registers[x];
        assert(value << 1 == (value * 2) % 256) by (bit_vector);
        self.registers[x] = value << 1;
    }

    /// A register-to-register instruction with selector `n`.
    fn execute_alu(&mut self, x: usize, y: usize, n: u8)
        requires
            old(self).wf(),
            x < REGISTER_COUNT,
            y < REGISTER_COUNT,
        ensures
            final(self).wf(),
            final(self).audio() == old(self).audio(),
            final(self)@ == (MachineState {
                registers: alu_registers(old(self)@.registers, x as int, y as int, n),
                ..old(self)@
            }),
    {
        match n {
            0x0 => self.registers[x] = self.registers[y],
            0x1 => self.registers[x] = self.registers[x] | self.registers[y],
            0x2 => self.registers[x] = self.registers[x] & self.registers[y],
            0x3 => self.registers[x] = self.registers[x] ^ self.registers[y],
            0x4 => self.add(x, y),
            0x5 => self.sub(x, y),
            0x7 => self.subb(x, y),
            0x6 => self.shift_right(x),
            0xe => self.shift_left(x),
            _ => (),
        }
    }

    /// Draws the sprite of `n` rows that starts at the index register, at the
    /// column and row that the registers `x` and `y` hold.
    fn draw_sprite(&mut self, x: usize, y: usize, n: u8)
        requires
            old(self).wf(),
            x < REGISTER_COUNT,
            y < REGISTER_COUNT,
            old(self)@.i + n <= MEMORY_SIZE,
        ensures
            final(self).wf(),
            final(self).audio() == old(self).audio(),
            final(self)@ == old(self)@.sprite_drawn(x as int, y as int, n),
    {
        let column = self.registers[x] as usize % DISPLAY_WIDTH;
        let row = self.registers[y] as usize % DISPLAY_HEIGHT;
        let start = self.i as usize;
        let count = n as usize;
        let flag = self.video.draw(column, row, count, &self.memory[start..start + count]);
        self.registers[FLAG] = flag;
    }

    /// Stores the registers `V0` to `Vx` in memory from the index register on.
    fn dump_registers(&mut self, x: usize)
        requires
            old(self).wf(),
            x < REGISTER_COUNT,
            old(self)@.i + x < MEMORY_SIZE,
        ensures
            final(self).wf(),
            final(self).audio() == old(self).audio(),
            final(self)@ == (MachineState {
                memory: registers_dumped(
                    old(self)@.memory,
                    old(self)@.registers,
                    old(self)@.i as int,
                    x as int,
                ),
                ..old(self)@
            }),
    {
        let start = self.i as usize;
        let mut k: usize = 0;
        assert(self@.memory =~= registers_dumped(
            old(self)@.memory,
            old(self)@.registers,
            start as int,
            -1,
        ));
        while k <= x
            invariant
                k <= x + 1,
                x < REGISTER_COUNT,
                start == old(self)@.i,
                start + x < MEMORY_SIZE,
                self.wf(),
                self.audio() == old(self).audio(),
                self@ == (MachineState {
                    memory: registers_dumped(
                        old(self)@.memory,
                        old(self)@.registers,
                        start as int,
                        k - 1,
                    ),
                    ..old(self)@
                }),
            decreases x + 1 - k,
        {
            self.memory[start + k] = self.registers[k];
            k += 1;
            assert(self@.memory =~= registers_dumped(
                old(self)@.memory,
                old(self)@.registers,
                start as int,
                k - 1,
            ));
        }
    }

    /// Loads the registers `V0` to `Vx` from memory at the index register on.
    fn load_registers(&mut self, x: usize)
        requires
            old(self).wf(),
            x < REGISTER_COUNT,
            old(self)@.i + x < MEMORY_SIZE,
        ensures
            final(self).wf(),
            final(self).audio() == old(self).audio(),
            final(self)@ == (MachineState {
                registers: registers_loaded(
                    old(self)@.memory,
                    old(self)@.registers,
                    old(self)@.i as int,
                    x as int,
                ),
                ..old(self)@
            }),
    {
        let start = self.i as usize;
        let mut k: usize = 0;
        assert(self@.registers =~= registers_loaded(
            old(self)@.memory,
            old(self)@.registers,
            start as int,
            -1,
        ));
        while k <= x
            invariant
                k <= x + 1,
                x < REGISTER_COUNT,
                start == old(self)@.i,
                start + x < MEMORY_SIZE,
                self.wf(),
                self.audio() == old(self).audio(),
                self@ == (MachineState {
                    registers: registers_loaded(
                        old(self)@.memory,
                        old(self)@.registers,
                        start as int,
                        k - 1,
                    ),
                    ..old(self)@
                }),
            decreases x + 1 - k,
        {
            self.registers[k] = self.memory[start + k];
            k += 1;
            assert(self@.registers =~= registers_loaded(
                old(self)@.memory,
                old(self)@.registers,
                start as int,
                k - 1,
            ));
        }
    }

    /// The wait-for-key instruction: stores and releases the lowest key that
    /// is down, or, with no key down, steps back to the instruction.
    fn await_key(&mut self, x: usize)
        requires
            old(self).wf(),
            x < REGISTER_COUNT,
            old(self)@.pc >= 2,
        ensures
            final(self).wf(),
            final(self).audio() == old(self).audio(),
            final(self)@ == old(self)@.key_awaited(x as int),
    {
        if let Some(pressed_key) = self.keyboard.first_down_key() {
            self.registers[x] = pressed_key;
            self.keyboard.key_up(pressed_key);
        } else {
            self.pc -= 2;
        }
    }

    /// An instruction of the timer, index and memory family, with register
    /// `x` and selector `nn`.
    fn execute_misc(&mut self, x: usize, nn: u8) -> (done: Result<(), Chip8Error>)
        requires
            old(self).wf(),
            x < REGISTER_COUNT,
            old(self)@.pc >= 2,
        ensures
            final(self).wf(),
            final(self).audio() == old(self).audio(),
            nn == 0x33 && old(self)@.i + 2 >= MEMORY_SIZE ==> final(self)@ == old(self)@ && done
                == Err::<(), Chip8Error>(Chip8Error::AddressOutOfRange),
            (nn == 0x55 || nn == 0x65) && old(self)@.i + x >= MEMORY_SIZE ==> final(self)@ == old(
                self,
            )@ && done == Err::<(), Chip8Error>(Chip8Error::AddressOutOfRange),
            !(nn == 0x33 && old(self)@.i + 2 >= MEMORY_SIZE) && !((nn == 0x55 || nn == 0x65) && old(
                self,
            )@.i + x >= MEMORY_SIZE) ==> done is Ok && final(self)@ == old(self)@.misc_executed(
                x as int,
                nn,
            ),
    {
        match nn {
            0x7 => self.registers[x] = self.delay_timer,
            0x15 => self.delay_timer = self.registers[x],
            0x18 => self.sound_timer = self.registers[x],
            0x1E => self.i = self.i.wrapping_add(self.registers[x] as u16),
            0x0A => self.await_key(x),
            0x29 => {
                let digit = self.registers[x];
                self.i = FONT_BASE + GLYPH_SIZE * digit as u16;
            },
            0x33 => {
                let at = self.i as usize;
                if at + 2 >= MEMORY_SIZE {
                    return Err(Chip8Error::AddressOutOfRange);
                }
                let mut x_val = self.registers[x];
                self.memory[at + 2] = x_val % 10;
                x_val /= 10;
                self.memory[at + 1] = x_val % 10;
                x_val /= 10;
                self.memory[at] = x_val;
            },
            0x55 => {
                if self.i as usize + x >= MEMORY_SIZE {
                    return Err(Chip8Error::AddressOutOfRange);
                }
                self.dump_registers(x);
            },
            0x65 => {
                if self.i as usize + x >= MEMORY_SIZE {
                    return Err(Chip8Error::AddressOutOfRange);
                }
                self.load_registers(x);
            },
            _ => (),
        }
        Ok(())
    }

    /// Carries out one instruction that was just fetched, with `random` as
    /// the byte that a random instruction draws. An instruction that faults
    /// changes nothing.
    fn execute(&mut self, instr: &Instruction, random: u8) -> (done: Result<(), Chip8Error>)
        requires
            old(self).wf(),
            2 <= old(self)@.pc <= MEMORY_SIZE,
        ensures
            final(self).wf(),
            final(self).audio() == old(self).audio(),
            match old(self)@.fault_of(instr.opcode) {
                Some(fault) => done == Err::<(), Chip8Error>(fault) && final(self)@ == old(self)@,
                None => done is Ok && final(self)@ == old(self)@.executed(instr.opcode, random),
            },
    {
        let opcode = instr.opcode;
        let (kind, x, y, n, nn, nnn) = instr.decode();
        match kind {
            0x0 => {
                if opcode == 0x00e0 {
                    self.video.clear();
                } else if opcode == 0x00ee {
                    match self.stack.pop() {
                        Some(address) => self.pc = address,
                        None => return Err(Chip8Error::StackUnderflow),
                    }
                }
            },
            0x1 => self.pc = nnn,
            0x2 => {
                if self.stack.len() >= STACK_SIZE {
                    return Err(Chip8Error::StackOverflow);
                }
                self.stack.push(self.pc);
                self.pc = nnn;
            },
            0x3 => {
                if self.registers[x] == nn {
                    self.pc += 2;
                }
            },
            0x4 => {
                if self.registers[x] != nn {
                    self.pc += 2;
                }
            },
            0x5 => {
                if self.registers[x] == self.registers[y] {
                    self.pc += 2;
                }
            },
            0x6 => {
                self.registers[x] = nn;
            },
            0x7 => {
                self.registers[x] = self.registers[x].wrapping_add(nn);
            },
            0x8 => self.execute_alu(x, y, n),
            0x9 => {
                if self.registers[x] != self.registers[y] {
                    self.pc += 2;
                }
            },
            0xA => {
                self.i = nnn;
            },
            0xB => {
                self.pc = nnn + self.registers[0] as u16;
            },
            0xC => {
                self.registers[x] = random & nn;
            },
            0xD => {
                if self.i as usize + n as usize > MEMORY_SIZE {
                    return Err(Chip8Error::AddressOutOfRange);
                }
                self.draw_sprite(x, y, n);
            },
            0xE => {
                let key = self.registers[x];
                if key as usize >= KEY_COUNT {
                    return Err(Chip8Error::InvalidKey);
                }
                let required_key_pressed = self.keyboard.is_key_down(key);
                if (required_key_pressed && nn == 0x9E) || (!required_key_pressed && nn == 0xA1) {
                    self.pc += 2;
                }
            },
            _ => {
                return self.execute_misc(x, nn);
            },
        }
        Ok(())
    }

    /// Whether the instruction at the program counter is the one that draws a
    /// random byte.
    fn next_draws_random(&self) -> (draws: bool)
        requires
            self.wf(),
        ensures
            draws == self@.draws_random(),
    {
        if self.pc as usize + 1 >= MEMORY_SIZE {
            return false;
        }
        let instr = Instruction::new(self.memory[self.pc as usize], self.memory[self.pc as usize + 1]);
        instr.kind() == 0xC
    }

    /// One cycle, with `random` as the byte that a random instruction draws:
    /// fetches the instruction at the program counter, moves the counter past
    /// it, and carries the instruction out.
    pub fn run_cycle_with(&mut self, random: u8) -> (done: Result<(), Chip8Error>)
        requires
            old(self).wf(),
        ensures
            final(self).wf(),
            final(self).audio() == old(self).audio(),
            final(self)@ == old(self)@.after_cycle(random),
            match old(self)@.cycle_fault() {
                Some(fault) => done == Err::<(), Chip8Error>(fault),
                None => done is Ok,
            },
    {
        let instr = match self.fetch() {
            Ok(instr) => instr,
            Err(fault) => {
                return Err(fault);
            },
        };
        self.execute(&instr, random)
    }

    /// One cycle: fetches the instruction at the program counter, moves the
    /// counter past it, and carries the instruction out. A random instruction
    /// draws its byte from the system's generator, so of its outcome only
    /// this is known: it is the outcome for some byte.
    pub fn run_cycle(&mut self) -> (done: Result<(), Chip8Error>)
        requires
            old(self).wf(),
        ensures
            final(self).wf(),
            final(self).audio() == old(self).audio(),
            exists|random: u8| final(self)@ == #[trigger] old(self)@.after_cycle(random),
            !old(self)@.draws_random() ==> forall|random: u8|
                final(self)@ == #[trigger] old(self)@.after_cycle(random),
            match old(self)@.cycle_fault() {
                Some(fault) => done == Err::<(), Chip8Error>(fault),
                None => done is Ok,
            },
    {
        let random = if self.next_draws_random() {
            random_byte()
        } else {
            0
        };
        self.run_cycle_with(random)
    }

    /// The value of the register `Vx`.
    pub fn register(&self, x: usize) -> (value: u8)
        requires
            x < REGISTER_COUNT,
        ensures
            value == self@.registers[x as int],
    {
        self.registers[x]
    }

    /// The program counter.
    pub fn program_counter(&self) -> (pc: u16)
        ensures
            pc == self@.pc,
    {
        self.pc
    }

    /// The index register.
    pub fn index(&self) -> (i: u16)
        ensures
            i == self@.i,
    {
        self.i
    }

    /// The byte of memory at `address`.
    pub fn memory_at(&self, address: usize) -> (byte: u8)
        requires
            address < MEMORY_SIZE,
        ensures
            byte == self@.memory[address as int],
    {
        self.memory[address]
    }

    /// The delay timer.
    pub fn delay_timer(&self) -> (timer: u8)
        ensures
            timer == self@.delay_timer,
    {
        self.delay_timer
    }

    /// The sound timer.
    pub fn sound_timer(&self) -> (timer: u8)
        ensures
            timer == self@.sound_timer,
    {
        self.sound_timer
    }

    /// How many return addresses the call stack holds.
    pub fn stack_depth(&self) -> (depth: usize)
        ensures
            depth == self@.stack.len(),
    {
        self.stack.len()
    }

    /// Whether the logical key `key` is latched down.
    pub fn is_key_down(&self, key: u8) -> (down: bool)
        requires
            key < KEY_COUNT,
        ensures
            down == self@.keys[key as int],
    {
        self.keyboard.is_key_down(key)
    }
}

} // verus!
