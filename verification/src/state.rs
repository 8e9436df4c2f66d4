use crate::error::Chip8Error;
use crate::font::glyph_address;
use crate::instruction::{opcode_kind, opcode_n, opcode_nn, opcode_nnn, opcode_of, opcode_x, opcode_y};
use crate::keyboard::{first_down, KEY_COUNT};
use crate::video::{blank, collides, drawn};
use vstd::prelude::*;

verus! {

/// The size of the address space, in bytes.
pub const MEMORY_SIZE: usize = 4096;

/// The bytes at the bottom of memory that no program image may occupy.
pub const RESERVED_MEMORY_SIZE: usize = 512;

/// The number of general-purpose registers.
pub const REGISTER_COUNT: usize = 16;

/// The deepest that subroutine calls may nest.
pub const STACK_SIZE: usize = 16;

/// Where a program image is loaded, and where execution starts.
pub const PROGRAM_START: u16 = 0x200;

/// The number of columns of the display.
pub const DISPLAY_WIDTH: usize = 64;

/// The number of rows of the display.
pub const DISPLAY_HEIGHT: usize = 32;

/// The register that doubles as the carry, borrow and collision flag.
pub const FLAG: usize = 0xF;

/// Everything the machine holds, as plain mathematical values.
pub struct MachineState {
    pub memory: Seq<u8>,
    pub registers: Seq<u8>,
    pub pc: u16,
    pub i: u16,
    pub stack: Seq<u16>,
    pub delay_timer: u8,
    pub sound_timer: u8,
    pub keys: Seq<bool>,
    pub display: Seq<Seq<bool>>,
}

/// The registers after `Vx += Vy`: the flag is written first, then the sum.
pub open spec fn add_registers(registers: Seq<u8>, x: int, y: int) -> Seq<u8> {
    let sum = registers[x] + registers[y];
    registers.update(FLAG as int, if sum > 255 { 1u8 } else { 0u8 }).update(x, (sum % 256) as u8)
}

/// The registers after `Vx = minuend - subtrahend`: the flag is written
/// first, then the difference.
pub open spec fn sub_registers(registers: Seq<u8>, x: int, minuend: u8, subtrahend: u8) -> Seq<u8> {
    registers.update(FLAG as int, if minuend >= subtrahend { 1u8 } else { 0u8 }).update(
        x,
        ((minuend - subtrahend) % 256) as u8,
    )
}

/// The registers after `Vx >>= 1`: the flag is written first, then the half.
pub open spec fn shift_right_registers(registers: Seq<u8>, x: int) -> Seq<u8> {
    let flagged = registers.update(FLAG as int, registers[x] % 2);
    flagged.update(x, flagged[x] / 2)
}

/// The registers after `Vx <<= 1`: the flag is written first, then the double.
pub open spec fn shift_left_registers(registers: Seq<u8>, x: int) -> Seq<u8> {
    let flagged = registers.update(FLAG as int, registers[x] / 128);
    flagged.update(x, ((flagged[x] * 2) % 256) as u8)
}

/// The registers after a register-to-register instruction with selector `n`.
pub open spec fn alu_registers(registers: Seq<u8>, x: int, y: int, n: u8) -> Seq<u8> {
    if n == 0x0 {
        registers.update(x, registers[y])
    } else if n == 0x1 {
        registers.update(x, registers[x] | registers[y])
    } else if n == 0x2 {
        registers.update(x, registers[x] & registers[y])
    } else if n == 0x3 {
        registers.update(x, registers[x] ^ registers[y])
    } else if n == 0x4 {
        add_registers(registers, x, y)
    } else if n == 0x5 {
        sub_registers(registers, x, registers[x], registers[y])
    } else if n == 0x7 {
        sub_registers(registers, x, registers[y], registers[x])
    } else if n == 0x6 {
        shift_right_registers(registers, x)
    } else if n == 0xE {
        shift_left_registers(registers, x)
    } else {
        registers
    }
}

/// Memory after the three decimal digits of `value` are stored from `at` on,
/// hundreds first.
pub open spec fn bcd_stored(memory: Seq<u8>, at: int, value: u8) -> Seq<u8> {
    memory.update(at + 2, value % 10).update(at + 1, (value / 10) % 10).update(at, value / 100)
}

/// Memory after the registers `V0` to `Vx` are stored from `at` on.
pub open spec fn registers_dumped(memory: Seq<u8>, registers: Seq<u8>, at: int, x: int) -> Seq<u8> {
    Seq::new(
        memory.len(),
        |a: int|
            if at <= a <= at + x {
                registers[a - at]
            } else {
                memory[a]
            },
    )
}

/// The registers after `V0` to `Vx` are loaded from memory at `at` on.
pub open spec fn registers_loaded(memory: Seq<u8>, registers: Seq<u8>, at: int, x: int) -> Seq<u8> {
    Seq::new(
        registers.len(),
        |k: int|
            if k <= x {
                memory[at + k]
            } else {
                registers[k]
            },
    )
}

/// A timer after one tick: one less, and never below zero.
pub open spec fn ticked(timer: u8) -> u8 {
    if timer > 0 {
        (timer - 1) as u8
    } else {
        0u8
    }
}

impl MachineState {
    /// Every part has the size that the machine gives it.
    pub open spec fn well_formed(self) -> bool {
        &&& self.memory.len() == MEMORY_SIZE
        &&& self.registers.len() == REGISTER_COUNT
        &&& self.stack.len() <= STACK_SIZE
        &&& self.keys.len() == KEY_COUNT
        &&& self.display.len() == DISPLAY_WIDTH
        &&& forall|x: int|
            0 <= x < self.display.len() ==> (#[trigger] self.display[x]).len() == DISPLAY_HEIGHT
    }

    /// A machine just switched on: everything zero, the program counter at
    /// the start of program memory.
    pub open spec fn initial() -> Self {
        MachineState {
            memory: Seq::new(MEMORY_SIZE as nat, |a: int| 0u8),
            registers: Seq::new(REGISTER_COUNT as nat, |k: int| 0u8),
            pc: PROGRAM_START,
            i: 0,
            stack: Seq::empty(),
            delay_timer: 0,
            sound_timer: 0,
            keys: Seq::new(KEY_COUNT as nat, |k: int| false),
            display: blank(DISPLAY_WIDTH as nat, DISPLAY_HEIGHT as nat),
        }
    }

    /// The state with `bytes` copied into memory from `at` on.
    pub open spec fn with_bytes(self, at: int, bytes: Seq<u8>) -> Self {
        MachineState {
            memory: Seq::new(
                self.memory.len(),
                |a: int|
                    if at <= a < at + bytes.len() {
                        bytes[a - at]
                    } else {
                        self.memory[a]
                    },
            ),
            ..self
        }
    }

    /// The state after one timer tick.
    pub open spec fn after_tick(self) -> Self {
        MachineState {
            delay_timer: ticked(self.delay_timer),
            sound_timer: ticked(self.sound_timer),
            ..self
        }
    }

    /// Whether both bytes of the next instruction lie in memory.
    pub open spec fn can_fetch(self) -> bool {
        self.pc + 1 < MEMORY_SIZE
    }

    /// The instruction word at the program counter.
    pub open spec fn opcode(self) -> u16 {
        opcode_of(self.memory[self.pc as int], self.memory[self.pc + 1])
    }

    /// The state after the fetch: the program counter is two further.
    pub open spec fn fetched(self) -> Self {
        MachineState { pc: (self.pc + 2) as u16, ..self }
    }

    /// The state with the next instruction skipped.
    pub open spec fn skipped(self, skip: bool) -> Self {
        if skip {
            MachineState { pc: (self.pc + 2) as u16, ..self }
        } else {
            self
        }
    }

    /// The fault, if any, that the instruction `opcode` raises on this state.
    pub open spec fn fault_of(self, opcode: u16) -> Option<Chip8Error> {
        let kind = opcode_kind(opcode);
        let x = opcode_x(opcode) as int;
        let n = opcode_n(opcode);
        let nn = opcode_nn(opcode);
        if opcode == 0x00EE && self.stack.len() == 0 {
            Some(Chip8Error::StackUnderflow)
        } else if kind == 0x2 && self.stack.len() >= STACK_SIZE {
            Some(Chip8Error::StackOverflow)
        } else if kind == 0xD && self.i + n > MEMORY_SIZE {
            Some(Chip8Error::AddressOutOfRange)
        } else if kind == 0xE && self.registers[x] >= KEY_COUNT {
            Some(Chip8Error::InvalidKey)
        } else if kind == 0xF && nn == 0x33 && self.i + 2 >= MEMORY_SIZE {
            Some(Chip8Error::AddressOutOfRange)
        } else if kind == 0xF && (nn == 0x55 || nn == 0x65) && self.i + x >= MEMORY_SIZE {
            Some(Chip8Error::AddressOutOfRange)
        } else {
            None
        }
    }

    /// The state after the sprite instruction with registers `x`, `y` and `n` rows.
    pub open spec fn sprite_drawn(self, x: int, y: int, n: u8) -> Self {
        let column = self.registers[x] as int % DISPLAY_WIDTH as int;
        let row = self.registers[y] as int % DISPLAY_HEIGHT as int;
        let rows = self.memory.subrange(self.i as int, self.i + n);
        MachineState {
            display: drawn(self.display, column, row, rows),
            registers: self.registers.update(
                FLAG as int,
                if collides(self.display, column, row, rows) {
                    1u8
                } else {
                    0u8
                },
            ),
            ..self
        }
    }

    /// The state after the wait-for-key instruction with register `x`: the
    /// lowest key that is down is stored and released, or, with no key down,
    /// the program counter goes back to the instruction.
    pub open spec fn key_awaited(self, x: int) -> Self {
        match first_down(self.keys) {
            Some(key) => MachineState {
                registers: self.registers.update(x, key),
                keys: self.keys.update(key as int, false),
                ..self
            },
            None => MachineState { pc: (self.pc - 2) as u16, ..self },
        }
    }

    /// The state after an instruction of the timer, index and memory family
    /// with register `x` and selector `nn`.
    pub open spec fn misc_executed(self, x: int, nn: u8) -> Self {
        if nn == 0x07 {
            MachineState { registers: self.registers.update(x, self.delay_timer), ..self }
        } else if nn == 0x15 {
            MachineState { delay_timer: self.registers[x], ..self }
        } else if nn == 0x18 {
            MachineState { sound_timer: self.registers[x], ..self }
        } else if nn == 0x1E {
            MachineState { i: ((self.i + self.registers[x]) % 0x10000) as u16, ..self }
        } else if nn == 0x0A {
            self.key_awaited(x)
        } else if nn == 0x29 {
            MachineState { i: glyph_address(self.registers[x]), ..self }
        } else if nn == 0x33 {
            MachineState { memory: bcd_stored(self.memory, self.i as int, self.registers[x]), ..self }
        } else if nn == 0x55 {
            MachineState {
                memory: registers_dumped(self.memory, self.registers, self.i as int, x),
                ..self
            }
        } else if nn == 0x65 {
            MachineState {
                registers: registers_loaded(self.memory, self.registers, self.i as int, x),
                ..self
            }
        } else {
            self
        }
    }

    /// The state after the instruction `opcode`, already fetched, is carried
    /// out with `random` as the byte that a random instruction draws. It is
    /// meant for states on which the instruction raises no fault.
    pub open spec fn executed(self, opcode: u16, random: u8) -> Self {
        let kind = opcode_kind(opcode);
        let x = opcode_x(opcode) as int;
        let y = opcode_y(opcode) as int;
        let n = opcode_n(opcode);
        let nn = opcode_nn(opcode);
        let nnn = opcode_nnn(opcode);
        if kind == 0x0 {
            if opcode == 0x00E0 {
                MachineState { display: blank(DISPLAY_WIDTH as nat, DISPLAY_HEIGHT as nat), ..self }
            } else if opcode == 0x00EE {
                MachineState { pc: self.stack.last(), stack: self.stack.drop_last(), ..self }
            } else {
                self
            }
        } else if kind == 0x1 {
            MachineState { pc: nnn, ..self }
        } else if kind == 0x2 {
            MachineState { pc: nnn, stack: self.stack.push(self.pc), ..self }
        } else if kind == 0x3 {
            self.skipped(self.registers[x] == nn)
        } else if kind == 0x4 {
            self.skipped(self.registers[x] != nn)
        } else if kind == 0x5 {
            self.skipped(self.registers[x] == self.registers[y])
        } else if kind == 0x6 {
            MachineState { registers: self.registers.update(x, nn), ..self }
        } else if kind == 0x7 {
            MachineState {
                registers: self.registers.update(x, ((self.registers[x] + nn) % 256) as u8),
                ..self
            }
        } else if kind == 0x8 {
            MachineState { registers: alu_registers(self.registers, x, y, n), ..self }
        } else if kind == 0x9 {
            self.skipped(self.registers[x] != self.registers[y])
        } else if kind == 0xA {
            MachineState { i: nnn, ..self }
        } else if kind == 0xB {
            MachineState { pc: (nnn + self.registers[0]) as u16, ..self }
        } else if kind == 0xC {
            MachineState { registers: self.registers.update(x, random & nn), ..self }
        } else if kind == 0xD {
            self.sprite_drawn(x, y, n)
        } else if kind == 0xE {
            let down = self.keys[self.registers[x] as int];
            self.skipped((down && nn == 0x9E) || (!down && nn == 0xA1))
        } else {
            self.misc_executed(x, nn)
        }
    }

    /// The fault, if any, that one cycle raises: the fetch may reach past the
    /// end of memory, and the instruction may fault.
    pub open spec fn cycle_fault(self) -> Option<Chip8Error> {
        if !self.can_fetch() {
            Some(Chip8Error::AddressOutOfRange)
        } else {
            self.fetched().fault_of(self.opcode())
        }
    }

    /// The state after one cycle. A fetch that fails leaves the state as it
    /// was; an instruction that faults leaves it as the fetch left it.
    pub open spec fn after_cycle(self, random: u8) -> Self {
        if !self.can_fetch() {
            self
        } else if self.fetched().fault_of(self.opcode()) is Some {
            self.fetched()
        } else {
            self.fetched().executed(self.opcode(), random)
        }
    }

    /// Whether the next instruction is the one that draws a random byte.
    pub open spec fn draws_random(self) -> bool {
        self.can_fetch() && opcode_kind(self.opcode()) == 0xC
    }
}

} // verus!
