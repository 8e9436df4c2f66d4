use crate::instruction::{opcode_kind, opcode_n, opcode_nn, opcode_x, opcode_y};
use crate::keyboard::{first_down, lemma_first_down, none_down_below, KEY_COUNT};
use crate::state::{
    add_registers, alu_registers, bcd_stored, shift_left_registers, shift_right_registers,
    sub_registers, MachineState, FLAG, REGISTER_COUNT,
};
use vstd::prelude::*;

verus! {

/// Addition wraps modulo 256 and sets the flag register to 1 exactly when the
/// sum passes 255, else to 0. This holds for every target register but the
/// flag register itself, where the sum overwrites the flag.
pub proof fn lemma_add_carry(registers: Seq<u8>, x: int, y: int)
    requires
        registers.len() == REGISTER_COUNT,
        0 <= x < REGISTER_COUNT,
        0 <= y < REGISTER_COUNT,
        x != FLAG,
    ensures
        add_registers(registers, x, y)[x] == (registers[x] + registers[y]) % 256,
        add_registers(registers, x, y)[FLAG as int] == 1 <==> registers[x] + registers[y] > 255,
        add_registers(registers, x, y)[FLAG as int] == 0 <==> registers[x] + registers[y] <= 255,
{
}

/// Subtraction wraps modulo 256 and sets the flag register to 1 exactly when
/// nothing is borrowed, that is when the minuend is at least the subtrahend,
/// else to 0. This holds for every target register but the flag register
/// itself, where the difference overwrites the flag.
pub proof fn lemma_sub_borrow(registers: Seq<u8>, x: int, minuend: u8, subtrahend: u8)
    requires
        registers.len() == REGISTER_COUNT,
        0 <= x < REGISTER_COUNT,
        x != FLAG,
    ensures
        sub_registers(registers, x, minuend, subtrahend)[x] == (minuend - subtrahend) % 256,
        sub_registers(registers, x, minuend, subtrahend)[FLAG as int] == 1 <==> minuend
            >= subtrahend,
        sub_registers(registers, x, minuend, subtrahend)[FLAG as int] == 0 <==> minuend
            < subtrahend,
{
}

/// A shift moves the bit that falls out into the flag register: the lowest
/// bit for a shift to the right, the highest for one to the left. This holds
/// for every target register but the flag register itself, where the shifted
/// value overwrites the flag.
pub proof fn lemma_shift_flag(registers: Seq<u8>, x: int)
    requires
        registers.len() == REGISTER_COUNT,
        0 <= x < REGISTER_COUNT,
        x != FLAG,
    ensures
        shift_right_registers(registers, x)[FLAG as int] == registers[x] % 2,
        shift_right_registers(registers, x)[x] == registers[x] / 2,
        registers[x] == 2 * shift_right_registers(registers, x)[x] + shift_right_registers(
            registers,
            x,
        )[FLAG as int],
        shift_left_registers(registers, x)[FLAG as int] == registers[x] / 128,
        shift_left_registers(registers, x)[x] == (registers[x] * 2) % 256,
        2 * registers[x] == 256 * shift_left_registers(registers, x)[FLAG as int]
            + shift_left_registers(registers, x)[x],
{
}

/// No register-to-register instruction touches a register other than its
/// target and the flag register, and the bitwise ones and the copy leave the
/// flag register alone too.
pub proof fn lemma_alu_frame(registers: Seq<u8>, x: int, y: int, n: u8, k: int)
    requires
        registers.len() == REGISTER_COUNT,
        0 <= x < REGISTER_COUNT,
        0 <= y < REGISTER_COUNT,
        0 <= k < REGISTER_COUNT,
        k != x,
    ensures
        alu_registers(registers, x, y, n).len() == REGISTER_COUNT,
        k != FLAG ==> alu_registers(registers, x, y, n)[k] == registers[k],
        n <= 3 ==> alu_registers(registers, x, y, n)[k] == registers[k],
{
}

/// One cycle on a register-to-register instruction raises no fault, moves
/// the program counter past the instruction and changes the registers as
/// `alu_registers` says, and nothing else.
pub proof fn lemma_alu_cycle(s: MachineState, random: u8)
    requires
        s.well_formed(),
        s.can_fetch(),
        opcode_kind(s.opcode()) == 0x8,
    ensures
        s.cycle_fault() is None,
        s.after_cycle(random) == (MachineState {
            pc: (s.pc + 2) as u16,
            registers: alu_registers(
                s.registers,
                opcode_x(s.opcode()) as int,
                opcode_y(s.opcode()) as int,
                opcode_n(s.opcode()),
            ),
            ..s
        }),
{
}

/// The three bytes that a decimal store writes are the decimal digits of the
/// value, hundreds first.
pub proof fn lemma_bcd_digits(memory: Seq<u8>, at: int, value: u8)
    requires
        0 <= at,
        at + 2 < memory.len(),
    ensures
        bcd_stored(memory, at, value)[at] < 10,
        bcd_stored(memory, at, value)[at + 1] < 10,
        bcd_stored(memory, at, value)[at + 2] < 10,
        100 * bcd_stored(memory, at, value)[at] + 10 * bcd_stored(memory, at, value)[at + 1]
            + bcd_stored(memory, at, value)[at + 2] == value,
        forall|a: int|
            0 <= a < memory.len() && !(at <= a <= at + 2) ==> bcd_stored(memory, at, value)[a]
                == memory[a],
{
}

/// Whether the next instruction of `s` is the one that waits for a key.
pub open spec fn awaits_key(s: MachineState) -> bool {
    &&& s.can_fetch()
    &&& opcode_kind(s.opcode()) == 0xF
    &&& opcode_nn(s.opcode()) == 0x0A
}

/// The state after one cycle for each byte of `randoms`, in order, whatever
/// faults the cycles raise.
pub open spec fn after_cycles(s: MachineState, randoms: Seq<u8>) -> MachineState
    decreases randoms.len(),
{
    if randoms.len() == 0 {
        s
    } else {
        after_cycles(s, randoms.drop_last()).after_cycle(randoms.last())
    }
}

/// With no key down, a cycle on the wait-for-key instruction raises no fault
/// and leaves the whole state as it was: the program counter is back on the
/// instruction, which the next cycle meets again.
pub proof fn lemma_wait_for_key_idles(s: MachineState, random: u8)
    requires
        s.well_formed(),
        awaits_key(s),
        none_down_below(s.keys, KEY_COUNT as int),
    ensures
        s.cycle_fault() is None,
        s.after_cycle(random) == s,
{
    lemma_first_down(s.keys);
}

/// With no key down, any number of cycles on the wait-for-key instruction
/// leave the whole state as it was.
pub proof fn lemma_wait_for_key_repeats(s: MachineState, randoms: Seq<u8>)
    requires
        s.well_formed(),
        awaits_key(s),
        none_down_below(s.keys, KEY_COUNT as int),
    ensures
        after_cycles(s, randoms) == s,
    decreases randoms.len(),
{
    if randoms.len() > 0 {
        lemma_wait_for_key_repeats(s, randoms.drop_last());
        lemma_wait_for_key_idles(s, randoms.last());
    }
}

/// With a key down, a cycle on the wait-for-key instruction raises no fault,
/// moves the program counter past the instruction once, stores the lowest
/// key that is down in the target register and releases that key, and
/// changes nothing else.
pub proof fn lemma_wait_for_key_latches(s: MachineState, random: u8, key: u8)
    requires
        s.well_formed(),
        awaits_key(s),
        key < KEY_COUNT,
        s.keys[key as int],
        none_down_below(s.keys, key as int),
    ensures
        s.cycle_fault() is None,
        s.after_cycle(random) == (MachineState {
            pc: (s.pc + 2) as u16,
            registers: s.registers.update(opcode_x(s.opcode()) as int, key),
            keys: s.keys.update(key as int, false),
            ..s
        }),
        !s.after_cycle(random).keys[key as int],
{
    lemma_first_down(s.keys);
    assert(first_down(s.keys) == Some(key)) by {
        let found = first_down(s.keys);
        assert(found is Some) by {
            if found is None {
                assert(!s.keys[key as int]);
            }
        }
        let k = found->0;
        if k < key {
            assert(!s.keys[k as int]);
        }
        if key < k {
            assert(!s.keys[key as int]);
        }
    }
}

} // verus!
