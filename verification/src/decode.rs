use vstd::prelude::*;

verus! {

/// One decoded instruction word of the 8-bit virtual machine.
///
/// Operand-field conventions are fixed across all opcodes: `x` names the
/// register selected by bits 8..12, `y` the register selected by bits 4..8,
/// `kk` is the low byte, `nnn` the low 12 bits, and `n` the low nibble.
#[derive(Clone, Copy, PartialEq, Eq, Structural, Debug)]
pub enum Instruction {
    /// 00E0: zero every cell of the display grid.
    ClearScreen,
    /// 00EE: pop the top stack entry into the program counter.
    Return,
    /// 1nnn: jump to `nnn`.
    Jump { nnn: u16 },
    /// 2nnn: push the current program counter, then jump to `nnn`.
    Call { nnn: u16 },
    /// 3xkk: skip the next instruction if register `x` equals `kk`.
    SkipEqImm { x: u8, kk: u8 },
    /// 4xkk: skip the next instruction if register `x` differs from `kk`.
    SkipNeImm { x: u8, kk: u8 },
    /// 5xy_: skip the next instruction if registers `x` and `y` are equal.
    SkipEqReg { x: u8, y: u8 },
    /// 6xkk: load `kk` into register `x`.
    LoadImm { x: u8, kk: u8 },
    /// 7xkk: add `kk` to register `x`, wrapping modulo 256, no flag.
    AddImm { x: u8, kk: u8 },
    /// 8xy0: copy register `y` into register `x`.
    Move { x: u8, y: u8 },
    /// 8xy1: bitwise OR of registers `x` and `y` into `x`.
    Or { x: u8, y: u8 },
    /// 8xy2: bitwise AND of registers `x` and `y` into `x`.
    And { x: u8, y: u8 },
    /// 8xy3: bitwise XOR of registers `x` and `y` into `x`.
    Xor { x: u8, y: u8 },
    /// 8xy4: add register `y` to register `x`; the flag register gets the carry.
    AddCarry { x: u8, y: u8 },
    /// 8xy5: subtract register `y` from register `x`; the flag register gets
    /// the borrow-inverse.
    Sub { x: u8, y: u8 },
    /// 8xy6: shift right; the flag register gets the pre-shift low bit.
    ShiftRight { x: u8, y: u8 },
    /// 8xy7: register `x` becomes `y - x`; the flag register gets the
    /// borrow-inverse.
    SubReverse { x: u8, y: u8 },
    /// 8xyE: shift left; the flag register gets the pre-shift high bit.
    ShiftLeft { x: u8, y: u8 },
    /// 9xy_: skip the next instruction if registers `x` and `y` differ.
    SkipNeReg { x: u8, y: u8 },
    /// Annn: load `nnn` into the index register.
    SetIndex { nnn: u16 },
    /// Bnnn: jump to `nnn` plus register 0, wrapping over 16 bits.
    JumpIndexed { nnn: u16 },
    /// Cxkk: register `x` becomes a pseudo-random byte AND `kk`.
    Random { x: u8, kk: u8 },
    /// Dxyn: draw the `n`-byte sprite at the index register to the
    /// coordinates held in registers `x` and `y`; the flag register gets the
    /// collision bit.
    Draw { x: u8, y: u8, n: u8 },
    /// Ex9E: skip the next instruction if the key selected by register `x` is
    /// pressed.
    SkipKey { x: u8 },
    /// ExA1: skip the next instruction if the key selected by register `x` is
    /// not pressed.
    SkipNoKey { x: u8 },
    /// Fx07: load the delay timer into register `x`.
    LoadDelay { x: u8 },
    /// Fx0A: wait until some key is pressed, then store its index in
    /// register `x`.
    WaitKey { x: u8 },
    /// Fx15: set the delay timer from register `x`.
    SetDelay { x: u8 },
    /// Fx18: set the sound timer from register `x`.
    SetSound { x: u8 },
    /// Fx1E: add register `x` to the index register, wrapping over 16 bits.
    AddIndex { x: u8 },
    /// Fx29: point the index register at the built-in glyph for the
    /// character code in register `x`.
    FontChar { x: u8 },
    /// Fx33: store the decimal digits of register `x` at the index register.
    StoreDigits { x: u8 },
    /// Fx55: store registers 0..=x to memory at the index register.
    StoreRegs { x: u8 },
    /// Fx65: load registers 0..=x from memory at the index register.
    LoadRegs { x: u8 },
    /// An instruction word with no defined handler: a reported no-op.
    Unknown { word: u16 },
}

/// Register field X: bits 8..12 of the instruction word.
pub open spec fn spec_x(w: u16) -> u8 {
    ((w >> 8) & 0xF) as u8
}

/// Register field Y: bits 4..8 of the instruction word.
pub open spec fn spec_y(w: u16) -> u8 {
    ((w >> 4) & 0xF) as u8
}

/// The 8-bit immediate: the low byte of the instruction word.
pub open spec fn spec_kk(w: u16) -> u8 {
    (w & 0xFF) as u8
}

/// The 12-bit address/immediate: the low 12 bits of the instruction word.
pub open spec fn spec_nnn(w: u16) -> u16 {
    w & 0xFFF
}

/// The 4-bit count: the low nibble of the instruction word.
pub open spec fn spec_n(w: u16) -> u8 {
    (w & 0xF) as u8
}

/// Every operand field fits the range its width allows.
pub proof fn lemma_fields_bounded(w: u16)
    ensures
        spec_x(w) < 16,
        spec_y(w) < 16,
        spec_nnn(w) < 4096,
        spec_n(w) < 16,
{
    assert(((w >> 8) & 0xF) < 16) by (bit_vector);
    assert(((w >> 4) & 0xF) < 16) by (bit_vector);
    assert((w & 0xFFF) < 4096) by (bit_vector);
    assert((w & 0xF) < 16) by (bit_vector);
}

/// Classification of an instruction word: the top 4 bits select the opcode
/// family; families 0x0, 0x8, 0xE and 0xF dispatch further on the low byte
/// or low nibble.
pub open spec fn spec_decode(w: u16) -> Instruction {
    let family = w & 0xF000;
    if family == 0x0000 {
        if w & 0x00FF == 0x00E0 {
            Instruction::ClearScreen
        } else if w & 0x00FF == 0x00EE {
            Instruction::Return
        } else {
            Instruction::Unknown { word: w }
        }
    } else if family == 0x1000 {
        Instruction::Jump { nnn: spec_nnn(w) }
    } else if family == 0x2000 {
        Instruction::Call { nnn: spec_nnn(w) }
    } else if family == 0x3000 {
        Instruction::SkipEqImm { x: spec_x(w), kk: spec_kk(w) }
    } else if family == 0x4000 {
        Instruction::SkipNeImm { x: spec_x(w), kk: spec_kk(w) }
    } else if family == 0x5000 {
        Instruction::SkipEqReg { x: spec_x(w), y: spec_y(w) }
    } else if family == 0x6000 {
        Instruction::LoadImm { x: spec_x(w), kk: spec_kk(w) }
    } else if family == 0x7000 {
        Instruction::AddImm { x: spec_x(w), kk: spec_kk(w) }
    } else if family == 0x8000 {
        let sub = w & 0x000F;
        if sub == 0x0 {
            Instruction::Move { x: spec_x(w), y: spec_y(w) }
        } else if sub == 0x1 {
            Instruction::Or { x: spec_x(w), y: spec_y(w) }
        } else if sub == 0x2 {
            Instruction::And { x: spec_x(w), y: spec_y(w) }
        } else if sub == 0x3 {
            Instruction::Xor { x: spec_x(w), y: spec_y(w) }
        } else if sub == 0x4 {
            Instruction::AddCarry { x: spec_x(w), y: spec_y(w) }
        } else if sub == 0x5 {
            Instruction::Sub { x: spec_x(w), y: spec_y(w) }
        } else if sub == 0x6 {
            Instruction::ShiftRight { x: spec_x(w), y: spec_y(w) }
        } else if sub == 0x7 {
            Instruction::SubReverse { x: spec_x(w), y: spec_y(w) }
        } else if sub == 0xE {
            Instruction::ShiftLeft { x: spec_x(w), y: spec_y(w) }
        } else {
            Instruction::Unknown { word: w }
        }
    } else if family == 0x9000 {
        Instruction::SkipNeReg { x: spec_x(w), y: spec_y(w) }
    } else if family == 0xA000 {
        Instruction::SetIndex { nnn: spec_nnn(w) }
    } else if family == 0xB000 {
        Instruction::JumpIndexed { nnn: spec_nnn(w) }
    } else if family == 0xC000 {
        Instruction::Random { x: spec_x(w), kk: spec_kk(w) }
    } else if family == 0xD000 {
        Instruction::Draw { x: spec_x(w), y: spec_y(w), n: spec_n(w) }
    } else if family == 0xE000 {
        let sub = w & 0x00FF;
        if sub == 0x9E {
            Instruction::SkipKey { x: spec_x(w) }
        } else if sub == 0xA1 {
            Instruction::SkipNoKey { x: spec_x(w) }
        } else {
            Instruction::Unknown { word: w }
        }
    } else {
        let sub = w & 0x00FF;
        if sub == 0x07 {
            Instruction::LoadDelay { x: spec_x(w) }
        } else if sub == 0x0A {
            Instruction::WaitKey { x: spec_x(w) }
        } else if sub == 0x15 {
            Instruction::SetDelay { x: spec_x(w) }
        } else if sub == 0x18 {
            Instruction::SetSound { x: spec_x(w) }
        } else if sub == 0x1E {
            Instruction::AddIndex { x: spec_x(w) }
        } else if sub == 0x29 {
            Instruction::FontChar { x: spec_x(w) }
        } else if sub == 0x33 {
            Instruction::StoreDigits { x: spec_x(w) }
        } else if sub == 0x55 {
            Instruction::StoreRegs { x: spec_x(w) }
        } else if sub == 0x65 {
            Instruction::LoadRegs { x: spec_x(w) }
        } else {
            Instruction::Unknown { word: w }
        }
    }
}

/// Decode one instruction word into its operation and operand fields.
pub fn decode(w: u16) -> (r: Instruction)
    ensures
        r == spec_decode(w),
{
    let x = ((w >> 8) & 0xF) as u8;
    let y = ((w >> 4) & 0xF) as u8;
    let kk = (w & 0xFF) as u8;
    let nnn = w & 0xFFF;
    let n = (w & 0xF) as u8;
    let family = w & 0xF000;
    if family == 0x0000 {
        if w & 0x00FF == 0x00E0 {
            Instruction::ClearScreen
        } else if w & 0x00FF == 0x00EE {
            Instruction::Return
        } else {
            Instruction::Unknown { word: w }
        }
    } else if family == 0x1000 {
        Instruction::Jump { nnn }
    } else if family == 0x2000 {
        Instruction::Call { nnn }
    } else if family == 0x3000 {
        Instruction::SkipEqImm { x, kk }
    } else if family == 0x4000 {
        Instruction::SkipNeImm { x, kk }
    } else if family == 0x5000 {
        Instruction::SkipEqReg { x, y }
    } else if family == 0x6000 {
        Instruction::LoadImm { x, kk }
    } else if family == 0x7000 {
        Instruction::AddImm { x, kk }
    } else if family == 0x8000 {
        let sub = w & 0x000F;
        if sub == 0x0 {
            Instruction::Move { x, y }
        } else if sub == 0x1 {
            Instruction::Or { x, y }
        } else if sub == 0x2 {
            Instruction::And { x, y }
        } else if sub == 0x3 {
            Instruction::Xor { x, y }
        } else if sub == 0x4 {
            Instruction::AddCarry { x, y }
        } else if sub == 0x5 {
            Instruction::Sub { x, y }
        } else if sub == 0x6 {
            Instruction::ShiftRight { x, y }
        } else if sub == 0x7 {
            Instruction::SubReverse { x, y }
        } else if sub == 0xE {
            Instruction::ShiftLeft { x, y }
        } else {
            Instruction::Unknown { word: w }
        }
    } else if family == 0x9000 {
        Instruction::SkipNeReg { x, y }
    } else if family == 0xA000 {
        Instruction::SetIndex { nnn }
    } else if family == 0xB000 {
        Instruction::JumpIndexed { nnn }
    } else if family == 0xC000 {
        Instruction::Random { x, kk }
    } else if family == 0xD000 {
        Instruction::Draw { x, y, n }
    } else if family == 0xE000 {
        let sub = w & 0x00FF;
        if sub == 0x9E {
            Instruction::SkipKey { x }
        } else if sub == 0xA1 {
            Instruction::SkipNoKey { x }
        } else {
            Instruction::Unknown { word: w }
        }
    } else {
        let sub = w & 0x00FF;
        if sub == 0x07 {
            Instruction::LoadDelay { x }
        } else if sub == 0x0A {
            Instruction::WaitKey { x }
        } else if sub == 0x15 {
            Instruction::SetDelay { x }
        } else if sub == 0x18 {
            Instruction::SetSound { x }
        } else if sub == 0x1E {
            Instruction::AddIndex { x }
        } else if sub == 0x29 {
            Instruction::FontChar { x }
        } else if sub == 0x33 {
            Instruction::StoreDigits { x }
        } else if sub == 0x55 {
            Instruction::StoreRegs { x }
        } else if sub == 0x65 {
            Instruction::LoadRegs { x }
        } else {
            Instruction::Unknown { word: w }
        }
    }
}

} // verus!
