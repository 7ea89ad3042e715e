//! Classification of a 16-bit instruction word against the fixed
//! nibble-pattern table of the 35 standard opcodes.

use vstd::prelude::*;

verus! {

/// One decoded instruction. Register selectors `x` and `y` come from 4-bit
/// fields and are below 16; `nnn` is a 12-bit address below 4096.
#[derive(Clone, Copy, Debug, PartialEq, Eq, Structural)]
pub enum Instr {
    /// 00E0: clear the display.
    ClearScreen,
    /// 00EE: return from a subroutine.
    SubReturn,
    /// 1NNN: jump.
    JumpTo { nnn: u16 },
    /// 2NNN: call a subroutine.
    CallSub { nnn: u16 },
    /// 3XNN: skip the next instruction if VX == NN.
    SkipEqImm { x: u8, nn: u8 },
    /// 4XNN: skip the next instruction if VX != NN.
    SkipNeImm { x: u8, nn: u8 },
    /// 5XY0: skip the next instruction if VX == VY.
    SkipEqReg { x: u8, y: u8 },
    /// 6XNN: VX = NN.
    SetImm { x: u8, nn: u8 },
    /// 7XNN: VX += NN, wrapping, no flag.
    AddImm { x: u8, nn: u8 },
    /// 8XY0: VX = VY.
    CopyReg { x: u8, y: u8 },
    /// 8XY1: VX |= VY.
    OrReg { x: u8, y: u8 },
    /// 8XY2: VX &= VY.
    AndReg { x: u8, y: u8 },
    /// 8XY3: VX ^= VY.
    XorReg { x: u8, y: u8 },
    /// 8XY4: VX += VY wrapping, VF = carry.
    AddReg { x: u8, y: u8 },
    /// 8XY5: VX -= VY wrapping, VF = 1 unless a borrow occurred.
    SubXy { x: u8, y: u8 },
    /// 8XY6: VF = low bit of VX, then VX >>= 1.
    ShiftRight { x: u8 },
    /// 8XY7: VX = VY - VX wrapping, VF = 1 unless a borrow occurred.
    SubYx { x: u8, y: u8 },
    /// 8XYE: VF = high bit of VX, then VX <<= 1 wrapping.
    ShiftLeft { x: u8 },
    /// 9XY0: skip the next instruction if VX != VY.
    SkipNeReg { x: u8, y: u8 },
    /// ANNN: I = NNN.
    SetIndex { nnn: u16 },
    /// BNNN: jump to NNN + V0.
    JumpPlus { nnn: u16 },
    /// CXNN: VX = NN & a random byte.
    RandomMask { x: u8, nn: u8 },
    /// DXYN: draw an N-row sprite from memory[I..] at (VX, VY).
    DrawSprite { x: u8, y: u8, n: u8 },
    /// EX9E: skip the next instruction if key VX is pressed.
    SkipKey { x: u8 },
    /// EXA1: skip the next instruction if key VX is not pressed.
    SkipNoKey { x: u8 },
    /// FX07: VX = delay timer.
    ReadDelay { x: u8 },
    /// FX0A: suspend until a key press arrives; VX = that key.
    WaitKey { x: u8 },
    /// FX15: delay timer = VX.
    SetDelay { x: u8 },
    /// FX18: sound timer = VX.
    SetSound { x: u8 },
    /// FX1E: I += VX, wrapping.
    AddIndex { x: u8 },
    /// FX29: I = address of the font glyph for VX.
    GlyphIndex { x: u8 },
    /// FX33: decimal digits of VX to memory[I..I+3].
    StoreBcd { x: u8 },
    /// FX55: V0..=VX to memory[I..].
    StoreRegs { x: u8 },
    /// FX65: memory[I..] into V0..=VX.
    LoadRegs { x: u8 },
}

/// The X field: bits 8..12 of the word.
pub open spec fn spec_x(op: u16) -> u8 {
    ((op >> 8) & 0xF) as u8
}

/// The Y field: bits 4..8 of the word.
pub open spec fn spec_y(op: u16) -> u8 {
    ((op >> 4) & 0xF) as u8
}

/// The low nibble of the word.
pub open spec fn spec_n(op: u16) -> u8 {
    (op & 0xF) as u8
}

/// The low byte of the word.
pub open spec fn spec_nn(op: u16) -> u8 {
    (op & 0xFF) as u8
}

/// The low twelve bits of the word, an address.
pub open spec fn spec_nnn(op: u16) -> u16 {
    op & 0xFFF
}

/// Bounds of the decoded fields, used to index registers and memory safely.
pub open spec fn instr_wf(i: Instr) -> bool {
    match i {
        Instr::ClearScreen => true,
        Instr::SubReturn => true,
        Instr::JumpTo { nnn } => nnn < 4096,
        Instr::CallSub { nnn } => nnn < 4096,
        Instr::SkipEqImm { x, nn } => x < 16,
        Instr::SkipNeImm { x, nn } => x < 16,
        Instr::SkipEqReg { x, y } => x < 16 && y < 16,
        Instr::SetImm { x, nn } => x < 16,
        Instr::AddImm { x, nn } => x < 16,
        Instr::CopyReg { x, y } => x < 16 && y < 16,
        Instr::OrReg { x, y } => x < 16 && y < 16,
        Instr::AndReg { x, y } => x < 16 && y < 16,
        Instr::XorReg { x, y } => x < 16 && y < 16,
        Instr::AddReg { x, y } => x < 16 && y < 16,
        Instr::SubXy { x, y } => x < 16 && y < 16,
        Instr::ShiftRight { x } => x < 16,
        Instr::SubYx { x, y } => x < 16 && y < 16,
        Instr::ShiftLeft { x } => x < 16,
        Instr::SkipNeReg { x, y } => x < 16 && y < 16,
        Instr::SetIndex { nnn } => nnn < 4096,
        Instr::JumpPlus { nnn } => nnn < 4096,
        Instr::RandomMask { x, nn } => x < 16,
        Instr::DrawSprite { x, y, n } => x < 16 && y < 16 && n < 16,
        Instr::SkipKey { x } => x < 16,
        Instr::SkipNoKey { x } => x < 16,
        Instr::ReadDelay { x } => x < 16,
        Instr::WaitKey { x } => x < 16,
        Instr::SetDelay { x } => x < 16,
        Instr::SetSound { x } => x < 16,
        Instr::AddIndex { x } => x < 16,
        Instr::GlyphIndex { x } => x < 16,
        Instr::StoreBcd { x } => x < 16,
        Instr::StoreRegs { x } => x < 16,
        Instr::LoadRegs { x } => x < 16,
    }
}

/// The decode table: a flat ordered match over bit-masked patterns,
/// most-specific mask first. A word that matches no pattern decodes to
/// `None`, the unknown-instruction fault.
pub open spec fn spec_decode(op: u16) -> Option<Instr> {
    if op == 0x00E0 {
        Some(Instr::ClearScreen)
    } else if op == 0x00EE {
        Some(Instr::SubReturn)
    } else if op & 0xF000 == 0x1000 {
        Some(Instr::JumpTo { nnn: spec_nnn(op) })
    } else if op & 0xF000 == 0x2000 {
        Some(Instr::CallSub { nnn: spec_nnn(op) })
    } else if op & 0xF000 == 0x3000 {
        Some(Instr::SkipEqImm { x: spec_x(op), nn: spec_nn(op) })
    } else if op & 0xF000 == 0x4000 {
        Some(Instr::SkipNeImm { x: spec_x(op), nn: spec_nn(op) })
    } else if op & 0xF00F == 0x5000 {
        Some(Instr::SkipEqReg { x: spec_x(op), y: spec_y(op) })
    } else if op & 0xF000 == 0x6000 {
        Some(Instr::SetImm { x: spec_x(op), nn: spec_nn(op) })
    } else if op & 0xF000 == 0x7000 {
        Some(Instr::AddImm { x: spec_x(op), nn: spec_nn(op) })
    } else if op & 0xF00F == 0x8000 {
        Some(Instr::CopyReg { x: spec_x(op), y: spec_y(op) })
    } else if op & 0xF00F == 0x8001 {
        Some(Instr::OrReg { x: spec_x(op), y: spec_y(op) })
    } else if op & 0xF00F == 0x8002 {
        Some(Instr::AndReg { x: spec_x(op), y: spec_y(op) })
    } else if op & 0xF00F == 0x8003 {
        Some(Instr::XorReg { x: spec_x(op), y: spec_y(op) })
    } else if op & 0xF00F == 0x8004 {
        Some(Instr::AddReg { x: spec_x(op), y: spec_y(op) })
    } else if op & 0xF00F == 0x8005 {
        Some(Instr::SubXy { x: spec_x(op), y: spec_y(op) })
    } else if op & 0xF00F == 0x8006 {
        Some(Instr::ShiftRight { x: spec_x(op) })
    } else if op & 0xF00F == 0x8007 {
        Some(Instr::SubYx { x: spec_x(op), y: spec_y(op) })
    } else if op & 0xF00F == 0x800E {
        Some(Instr::ShiftLeft { x: spec_x(op) })
    } else if op & 0xF00F == 0x9000 {
        Some(Instr::SkipNeReg { x: spec_x(op), y: spec_y(op) })
    } else if op & 0xF000 == 0xA000 {
        Some(Instr::SetIndex { nnn: spec_nnn(op) })
    } else if op & 0xF000 == 0xB000 {
        Some(Instr::JumpPlus { nnn: spec_nnn(op) })
    } else if op & 0xF000 == 0xC000 {
        Some(Instr::RandomMask { x: spec_x(op), nn: spec_nn(op) })
    } else if op & 0xF000 == 0xD000 {
        Some(Instr::DrawSprite { x: spec_x(op), y: spec_y(op), n: spec_n(op) })
    } else if op & 0xF0FF == 0xE09E {
        Some(Instr::SkipKey { x: spec_x(op) })
    } else if op & 0xF0FF == 0xE0A1 {
        Some(Instr::SkipNoKey { x: spec_x(op) })
    } else if op & 0xF0FF == 0xF007 {
        Some(Instr::ReadDelay { x: spec_x(op) })
    } else if op & 0xF0FF == 0xF00A {
        Some(Instr::WaitKey { x: spec_x(op) })
    } else if op & 0xF0FF == 0xF015 {
        Some(Instr::SetDelay { x: spec_x(op) })
    } else if op & 0xF0FF == 0xF018 {
        Some(Instr::SetSound { x: spec_x(op) })
    } else if op & 0xF0FF == 0xF01E {
        Some(Instr::AddIndex { x: spec_x(op) })
    } else if op & 0xF0FF == 0xF029 {
        Some(Instr::GlyphIndex { x: spec_x(op) })
    } else if op & 0xF0FF == 0xF033 {
        Some(Instr::StoreBcd { x: spec_x(op) })
    } else if op & 0xF0FF == 0xF055 {
        Some(Instr::StoreRegs { x: spec_x(op) })
    } else if op & 0xF0FF == 0xF065 {
        Some(Instr::LoadRegs { x: spec_x(op) })
    } else {
        None
    }
}

fn op_x(op: u16) -> (r: u8)
    ensures
        r == spec_x(op),
        r < 16,
{
    proof {
        assert((op >> 8) & 0xF < 16) by (bit_vector);
    }
    ((op >> 8) & 0xF) as u8
}

fn op_y(op: u16) -> (r: u8)
    ensures
        r == spec_y(op),
        r < 16,
{
    proof {
        assert((op >> 4) & 0xF < 16) by (bit_vector);
    }
    ((op >> 4) & 0xF) as u8
}

fn op_n(op: u16) -> (r: u8)
    ensures
        r == spec_n(op),
        r < 16,
{
    proof {
        assert(op & 0xF < 16) by (bit_vector);
    }
    (op & 0xF) as u8
}

fn op_nn(op: u16) -> (r: u8)
    ensures
        r == spec_nn(op),
{
    proof {
        assert(op & 0xFF < 256) by (bit_vector);
    }
    (op & 0xFF) as u8
}

fn op_nnn(op: u16) -> (r: u16)
    ensures
        r == spec_nnn(op),
        r < 4096,
{
    proof {
        assert(op & 0xFFF < 4096) by (bit_vector);
    }
    op & 0xFFF
}

/// Decode one instruction word, or report it unknown.
pub fn decode(op: u16) -> (r: Option<Instr>)
    ensures
        r == spec_decode(op),
        r matches Some(i) ==> instr_wf(i),
{
    if op == 0x00E0 {
        Some(Instr::ClearScreen)
    } else if op == 0x00EE {
        Some(Instr::SubReturn)
    } else if op & 0xF000 == 0x1000 {
        Some(Instr::JumpTo { nnn: op_nnn(op) })
    } else if op & 0xF000 == 0x2000 {
        Some(Instr::CallSub { nnn: op_nnn(op) })
    } else if op & 0xF000 == 0x3000 {
        Some(Instr::SkipEqImm { x: op_x(op), nn: op_nn(op) })
    } else if op & 0xF000 == 0x4000 {
        Some(Instr::SkipNeImm { x: op_x(op), nn: op_nn(op) })
    } else if op & 0xF00F == 0x5000 {
        Some(Instr::SkipEqReg { x: op_x(op), y: op_y(op) })
    } else if op & 0xF000 == 0x6000 {
        Some(Instr::SetImm { x: op_x(op), nn: op_nn(op) })
    } else if op & 0xF000 == 0x7000 {
        Some(Instr::AddImm { x: op_x(op), nn: op_nn(op) })
    } else if op & 0xF00F == 0x8000 {
        Some(Instr::CopyReg { x: op_x(op), y: op_y(op) })
    } else if op & 0xF00F == 0x8001 {
        Some(Instr::OrReg { x: op_x(op), y: op_y(op) })
    } else if op & 0xF00F == 0x8002 {
        Some(Instr::AndReg { x: op_x(op), y: op_y(op) })
    } else if op & 0xF00F == 0x8003 {
        Some(Instr::XorReg { x: op_x(op), y: op_y(op) })
    } else if op & 0xF00F == 0x8004 {
        Some(Instr::AddReg { x: op_x(op), y: op_y(op) })
    } else if op & 0xF00F == 0x8005 {
        Some(Instr::SubXy { x: op_x(op), y: op_y(op) })
    } else if op & 0xF00F == 0x8006 {
        Some(Instr::ShiftRight { x: op_x(op) })
    } else if op & 0xF00F == 0x8007 {
        Some(Instr::SubYx { x: op_x(op), y: op_y(op) })
    } else if op & 0xF00F == 0x800E {
        Some(Instr::ShiftLeft { x: op_x(op) })
    } else if op & 0xF00F == 0x9000 {
        Some(Instr::SkipNeReg { x: op_x(op), y: op_y(op) })
    } else if op & 0xF000 == 0xA000 {
        Some(Instr::SetIndex { nnn: op_nnn(op) })
    } else if op & 0xF000 == 0xB000 {
        Some(Instr::JumpPlus { nnn: op_nnn(op) })
    } else if op & 0xF000 == 0xC000 {
        Some(Instr::RandomMask { x: op_x(op), nn: op_nn(op) })
    } else if op & 0xF000 == 0xD000 {
        Some(Instr::DrawSprite { x: op_x(op), y: op_y(op), n: op_n(op) })
    } else if op & 0xF0FF == 0xE09E {
        Some(Instr::SkipKey { x: op_x(op) })
    } else if op & 0xF0FF == 0xE0A1 {
        Some(Instr::SkipNoKey { x: op_x(op) })
    } else if op & 0xF0FF == 0xF007 {
        Some(Instr::ReadDelay { x: op_x(op) })
    } else if op & 0xF0FF == 0xF00A {
        Some(Instr::WaitKey { x: op_x(op) })
    } else if op & 0xF0FF == 0xF015 {
        Some(Instr::SetDelay { x: op_x(op) })
    } else if op & 0xF0FF == 0xF018 {
        Some(Instr::SetSound { x: op_x(op) })
    } else if op & 0xF0FF == 0xF01E {
        Some(Instr::AddIndex { x: op_x(op) })
    } else if op & 0xF0FF == 0xF029 {
        Some(Instr::GlyphIndex { x: op_x(op) })
    } else if op & 0xF0FF == 0xF033 {
        Some(Instr::StoreBcd { x: op_x(op) })
    } else if op & 0xF0FF == 0xF055 {
        Some(Instr::StoreRegs { x: op_x(op) })
    } else if op & 0xF0FF == 0xF065 {
        Some(Instr::LoadRegs { x: op_x(op) })
    } else {
        None
    }
}

} // verus!
