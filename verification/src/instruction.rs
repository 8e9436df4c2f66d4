use vstd::prelude::*;

verus! {

/// The opcode family: the top four bits of the word.
pub open spec fn opcode_kind(opcode: u16) -> u8 {
    (opcode / 0x1000) as u8
}

/// The first register index: bits 8 to 11.
pub open spec fn opcode_x(opcode: u16) -> usize {
    ((opcode / 0x100) % 0x10) as usize
}

/// The second register index: bits 4 to 7.
pub open spec fn opcode_y(opcode: u16) -> usize {
    ((opcode / 0x10) % 0x10) as usize
}

/// The four-bit immediate: the lowest four bits.
pub open spec fn opcode_n(opcode: u16) -> u8 {
    (opcode % 0x10) as u8
}

/// The eight-bit immediate: the low byte.
pub open spec fn opcode_nn(opcode: u16) -> u8 {
    (opcode % 0x100) as u8
}

/// The twelve-bit address: the lowest twelve bits.
pub open spec fn opcode_nnn(opcode: u16) -> u16 {
    opcode % 0x1000
}

/// The word whose high byte is `high` and whose low byte is `low`.
pub open spec fn opcode_of(high: u8, low: u8) -> u16 {
    (high * 0x100 + low) as u16
}

/// One 16-bit instruction word.
#[derive(Debug, Clone, Copy)]
pub struct Instruction {
    pub opcode: u16,
}

impl Instruction {
    pub fn new(high: u8, low: u8) -> (instr: Self)
        ensures
            instr.opcode == opcode_of(high, low),
    {
        assert(((high as u16) << 8 | low as u16) == (high * 0x100 + low) as u16) by (bit_vector);
        Instruction { opcode: (high as u16) << 8 | low as u16 }
    }

    pub fn kind(&self) -> (kind: u8)
        ensures
            kind == opcode_kind(self.opcode),
            kind < 16,
    {
        let opcode: u16 = self.opcode;
        assert((opcode >> 12 & 0x0f) == opcode / 0x1000 && opcode / 0x1000 < 16) by (bit_vector);
        (opcode >> 12 & 0x0f) as u8
    }

    pub fn x(&self) -> (x: usize)
        ensures
            x == opcode_x(self.opcode),
            x < 16,
    {
        let opcode: u16 = self.opcode;
        assert((opcode >> 8 & 0x0f) == (opcode / 0x100) % 0x10) by (bit_vector);
        (opcode >> 8 & 0x0f) as usize
    }

    pub fn y(&self) -> (y: usize)
        ensures
            y == opcode_y(self.opcode),
            y < 16,
    {
        let opcode: u16 = self.opcode;
        assert((opcode >> 4 & 0x0f) == (opcode / 0x10) % 0x10) by (bit_vector);
        (opcode >> 4 & 0x0f) as usize
    }

    pub fn n(&self) -> (n: u8)
        ensures
            n == opcode_n(self.opcode),
            n < 16,
    {
        let opcode: u16 = self.opcode;
        assert((opcode & 0x0f) == opcode % 0x10) by (bit_vector);
        (opcode & 0x0f) as u8
    }

    pub fn nn(&self) -> (nn: u8)
        ensures
            nn == opcode_nn(self.opcode),
    {
        let opcode: u16 = self.opcode;
        assert((opcode & 0xff) == opcode % 0x100) by (bit_vector);
        (opcode & 0xff) as u8
    }

    pub fn nnn(&self) -> (nnn: u16)
        ensures
            nnn == opcode_nnn(self.opcode),
            nnn < 0x1000,
    {
        let opcode: u16 = self.opcode;
        assert((opcode & 0xfff) == opcode % 0x1000) by (bit_vector);
        opcode & 0xfff
    }

    /// All six fields at once: kind, x, y, n, nn, nnn.
    pub fn decode(&self) -> (fields: (u8, usize, usize, u8, u8, u16))
        ensures
            fields.0 == opcode_kind(self.opcode),
            fields.1 == opcode_x(self.opcode),
            fields.2 == opcode_y(self.opcode),
            fields.3 == opcode_n(self.opcode),
            fields.4 == opcode_nn(self.opcode),
            fields.5 == opcode_nnn(self.opcode),
    {
        (self.kind(), self.x(), self.y(), self.n(), self.nn(), self.nnn())
    }
}

} // verus!
