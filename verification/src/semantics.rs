//! The meaning of one machine cycle, as a function over the abstract state.
//! Every executable step of the interpreter is proved against these
//! definitions.

use vstd::prelude::*;
use crate::model::{MachineState, ram_written, regs_filled};
use crate::decode::{Instr, spec_decode};
use crate::vm::{CycleOutcome, FaultKind, Key};

verus! {

/// The instruction word at the program counter: two consecutive bytes,
/// big-endian. Meaningful only when `pc + 1 < 4096`.
pub open spec fn fetch_of(s: MachineState) -> u16 {
    ((s.ram[s.pc as int] as u16) << 8) | (s.ram[s.pc as int + 1] as u16)
}

/// 8-bit addition, wrapping on overflow.
pub open spec fn add_wrap(a: u8, b: u8) -> u8 {
    if a + b > 255 {
        (a + b - 256) as u8
    } else {
        (a + b) as u8
    }
}

/// 8-bit subtraction, wrapping on underflow.
pub open spec fn sub_wrap(a: u8, b: u8) -> u8 {
    if a - b < 0 {
        (a - b + 256) as u8
    } else {
        (a - b) as u8
    }
}

/// The carry flag of `a + b`: 1 when the 8-bit addition overflowed.
pub open spec fn carry_of(a: u8, b: u8) -> u8 {
    if a + b > 255 {
        1u8
    } else {
        0u8
    }
}

/// The flag of `a - b`: 0 when a borrow occurred (b > a), else 1.
pub open spec fn borrow_flag(a: u8, b: u8) -> u8 {
    if b > a {
        0u8
    } else {
        1u8
    }
}

/// One 60 Hz tick of a countdown timer: decrement, stopping at zero.
pub open spec fn tick_of(t: u8) -> u8 {
    if t > 0 {
        (t - 1) as u8
    } else {
        0u8
    }
}

/// The 4-bit symbol value of a keypad key.
pub open spec fn key_val(k: Key) -> u8 {
    match k {
        Key::K0 => 0x0,
        Key::K1 => 0x1,
        Key::K2 => 0x2,
        Key::K3 => 0x3,
        Key::K4 => 0x4,
        Key::K5 => 0x5,
        Key::K6 => 0x6,
        Key::K7 => 0x7,
        Key::K8 => 0x8,
        Key::K9 => 0x9,
        Key::A => 0xA,
        Key::B => 0xB,
        Key::C => 0xC,
        Key::D => 0xD,
        Key::E => 0xE,
        Key::F => 0xF,
    }
}

/// The mask selecting bit `b` of a sprite row, most-significant bit first.
pub open spec fn bit_mask(b: int) -> u8 {
    if b == 0 {
        0x80u8
    } else if b == 1 {
        0x40u8
    } else if b == 2 {
        0x20u8
    } else if b == 3 {
        0x10u8
    } else if b == 4 {
        0x08u8
    } else if b == 5 {
        0x04u8
    } else if b == 6 {
        0x02u8
    } else {
        0x01u8
    }
}

/// Whether bit `b` (0 = leftmost) of a sprite row byte is set.
pub open spec fn sprite_bit(byte: u8, b: int) -> bool {
    byte & bit_mask(b) != 0
}

/// The row-major position of the pixel at (row, col).
pub open spec fn pixel_index(row: int, col: int) -> int {
    row * 64 + col
}

/// XOR-draw the first `nbits` bits of one sprite row onto the display.
/// Bit `b` lands at column `(px + b) mod 64` of `row`; a set sprite bit
/// toggles the pixel, and clearing a set pixel records a collision.
pub open spec fn draw_byte_bits(gfx: Seq<u8>, byte: u8, px: int, row: int, nbits: int) -> (Seq<
    u8,
>, bool)
    decreases nbits,
{
    if nbits <= 0 {
        (gfx, false)
    } else {
        let prev = draw_byte_bits(gfx, byte, px, row, nbits - 1);
        let b = nbits - 1;
        if sprite_bit(byte, b) {
            let idx = pixel_index(row, (px + b) % 64);
            if prev.0[idx] == 0 {
                (prev.0.update(idx, 1u8), prev.1)
            } else {
                (prev.0.update(idx, 0u8), true)
            }
        } else {
            prev
        }
    }
}

/// XOR-draw the first `nrows` rows of a sprite at (px, py); row `r` lands
/// on screen row `(py + r) mod 32`. The flag is whether any row collided.
pub open spec fn draw_sprite_rows(
    gfx: Seq<u8>,
    sprite: Seq<u8>,
    px: int,
    py: int,
    nrows: int,
) -> (Seq<u8>, bool)
    decreases nrows,
{
    if nrows <= 0 {
        (gfx, false)
    } else {
        let prev = draw_sprite_rows(gfx, sprite, px, py, nrows - 1);
        let r = nrows - 1;
        let row_res = draw_byte_bits(prev.0, sprite[r], px, (py + r) % 32, 8);
        (row_res.0, prev.1 || row_res.1)
    }
}

/// XOR-draw a whole sprite at (px, py): the display after, and whether any
/// previously set pixel was cleared.
pub open spec fn draw_sprite(gfx: Seq<u8>, sprite: Seq<u8>, px: int, py: int) -> (Seq<u8>, bool) {
    draw_sprite_rows(gfx, sprite, px, py, sprite.len() as int)
}

/// An all-dark display.
pub open spec fn blank_gfx() -> Seq<u8> {
    Seq::new(2048, |i: int| 0u8)
}

/// The built-in font: sixteen 5-byte glyphs for the hexadecimal digits,
/// held in the reserved low memory starting at address 0.
pub open spec fn font_seq() -> Seq<u8> {
    seq![
        0xF0u8, 0x90, 0x90, 0x90, 0xF0,
        0x20, 0x60, 0x20, 0x20, 0x70,
        0xF0, 0x10, 0xF0, 0x80, 0xF0,
        0xF0, 0x10, 0xF0, 0x10, 0xF0,
        0x90, 0x90, 0xF0, 0x10, 0x10,
        0xF0, 0x80, 0xF0, 0x10, 0xF0,
        0xF0, 0x80, 0xF0, 0x90, 0xF0,
        0xF0, 0x10, 0x20, 0x40, 0x40,
        0xF0, 0x90, 0xF0, 0x90, 0xF0,
        0xF0, 0x90, 0xF0, 0x10, 0xF0,
        0xF0, 0x90, 0xF0, 0x90, 0x90,
        0xE0, 0x90, 0xE0, 0x90, 0xE0,
        0xF0, 0x80, 0x80, 0x80, 0xF0,
        0xE0, 0x90, 0x90, 0x90, 0xE0,
        0xF0, 0x80, 0xF0, 0x80, 0xF0,
        0xF0, 0x80, 0xF0, 0x80, 0x80,
    ]
}

/// The address of the 5-byte font glyph for value `v`.
pub open spec fn glyph_addr(v: u8) -> u16 {
    (5 * v) as u16
}

/// The decimal digits of `v`: hundreds, tens, ones.
pub open spec fn bcd_digits(v: u8) -> Seq<u8> {
    seq![(v as int / 100) as u8, ((v as int % 100) / 10) as u8, (v as int % 10) as u8]
}

/// End of a completed cycle: the program counter must again be even and
/// inside memory, else the cycle ends in an out-of-range fault reported at
/// the instruction's own address.
pub open spec fn finish(s: MachineState, drew: bool, op: u16, from_pc: u16) -> (MachineState,
CycleOutcome) {
    if s.pc % 2 == 0 && s.pc < 4096 {
        (s, CycleOutcome::Continue { drew })
    } else {
        (s, CycleOutcome::Fault { kind: FaultKind::OutOfRange, opcode: op, pc: from_pc })
    }
}

/// The effect of one decoded instruction on the state. `rb` is the byte the
/// random-number source produced (only the random-mask instruction reads
/// it); `op` and `pre.pc` identify the instruction in fault reports.
/// Faults leave the state exactly as it was, except the out-of-range fault
/// raised by `finish` after a control transfer, which keeps the completed
/// effect and is fatal anyway.
pub open spec fn step_instr(pre: MachineState, instr: Instr, rb: u8, op: u16) -> (MachineState,
CycleOutcome) {
    let adv = ((pre.pc + 2) as u16);
    let skip = ((pre.pc + 4) as u16);
    match instr {
        Instr::ClearScreen => finish(
            MachineState { gfx: blank_gfx(), pc: adv, ..pre },
            true,
            op,
            pre.pc,
        ),
        Instr::SubReturn => {
            if pre.stack.len() == 0 {
                (pre, CycleOutcome::Fault { kind: FaultKind::StackUnderflow, opcode: op, pc: pre.pc })
            } else {
                finish(
                    MachineState {
                        stack: pre.stack.drop_last(),
                        pc: ((pre.stack.last() + 2) as u16),
                        ..pre
                    },
                    false,
                    op,
                    pre.pc,
                )
            }
        },
        Instr::JumpTo { nnn } => finish(MachineState { pc: nnn, ..pre }, false, op, pre.pc),
        Instr::CallSub { nnn } => {
            if pre.stack.len() >= 16 {
                (pre, CycleOutcome::Fault { kind: FaultKind::StackOverflow, opcode: op, pc: pre.pc })
            } else {
                finish(
                    MachineState { stack: pre.stack.push(pre.pc), pc: nnn, ..pre },
                    false,
                    op,
                    pre.pc,
                )
            }
        },
        Instr::SkipEqImm { x, nn } => finish(
            MachineState { pc: if pre.regs[x as int] == nn { skip } else { adv }, ..pre },
            false,
            op,
            pre.pc,
        ),
        Instr::SkipNeImm { x, nn } => finish(
            MachineState { pc: if pre.regs[x as int] != nn { skip } else { adv }, ..pre },
            false,
            op,
            pre.pc,
        ),
        Instr::SkipEqReg { x, y } => finish(
            MachineState {
                pc: if pre.regs[x as int] == pre.regs[y as int] { skip } else { adv },
                ..pre
            },
            false,
            op,
            pre.pc,
        ),
        Instr::SetImm { x, nn } => finish(
            MachineState { regs: pre.regs.update(x as int, nn), pc: adv, ..pre },
            false,
            op,
            pre.pc,
        ),
        Instr::AddImm { x, nn } => finish(
            MachineState {
                regs: pre.regs.update(x as int, add_wrap(pre.regs[x as int], nn)),
                pc: adv,
                ..pre
            },
            false,
            op,
            pre.pc,
        ),
        Instr::CopyReg { x, y } => finish(
            MachineState { regs: pre.regs.update(x as int, pre.regs[y as int]), pc: adv, ..pre },
            false,
            op,
            pre.pc,
        ),
        Instr::OrReg { x, y } => finish(
            MachineState {
                regs: pre.regs.update(x as int, pre.regs[x as int] | pre.regs[y as int]),
                pc: adv,
                ..pre
            },
            false,
            op,
            pre.pc,
        ),
        Instr::AndReg { x, y } => finish(
            MachineState {
                regs: pre.regs.update(x as int, pre.regs[x as int] & pre.regs[y as int]),
                pc: adv,
                ..pre
            },
            false,
            op,
            pre.pc,
        ),
        Instr::XorReg { x, y } => finish(
            MachineState {
                regs: pre.regs.update(x as int, pre.regs[x as int] ^ pre.regs[y as int]),
                pc: adv,
                ..pre
            },
            false,
            op,
            pre.pc,
        ),
        Instr::AddReg { x, y } => finish(
            MachineState {
                regs: pre.regs.update(
                    x as int,
                    add_wrap(pre.regs[x as int], pre.regs[y as int]),
                ).update(15, carry_of(pre.regs[x as int], pre.regs[y as int])),
                pc: adv,
                ..pre
            },
            false,
            op,
            pre.pc,
        ),
        Instr::SubXy { x, y } => finish(
            MachineState {
                regs: pre.regs.update(
                    x as int,
                    sub_wrap(pre.regs[x as int], pre.regs[y as int]),
                ).update(15, borrow_flag(pre.regs[x as int], pre.regs[y as int])),
                pc: adv,
                ..pre
            },
            false,
            op,
            pre.pc,
        ),
        Instr::ShiftRight { x } => {
            // The flag is written first; a shift naming VF therefore shifts
            // the freshly written flag, exactly as the registers are written.
            let r1 = pre.regs.update(15, pre.regs[x as int] & 1);
            finish(
                MachineState { regs: r1.update(x as int, r1[x as int] >> 1u8), pc: adv, ..pre },
                false,
                op,
                pre.pc,
            )
        },
        Instr::SubYx { x, y } => finish(
            MachineState {
                regs: pre.regs.update(
                    x as int,
                    sub_wrap(pre.regs[y as int], pre.regs[x as int]),
                ).update(15, borrow_flag(pre.regs[y as int], pre.regs[x as int])),
                pc: adv,
                ..pre
            },
            false,
            op,
            pre.pc,
        ),
        Instr::ShiftLeft { x } => {
            let r1 = pre.regs.update(15, (pre.regs[x as int] >> 7u8) & 1);
            finish(
                MachineState { regs: r1.update(x as int, r1[x as int] << 1u8), pc: adv, ..pre },
                false,
                op,
                pre.pc,
            )
        },
        Instr::SkipNeReg { x, y } => finish(
            MachineState {
                pc: if pre.regs[x as int] != pre.regs[y as int] { skip } else { adv },
                ..pre
            },
            false,
            op,
            pre.pc,
        ),
        Instr::SetIndex { nnn } => finish(
            MachineState { index: nnn, pc: adv, ..pre },
            false,
            op,
            pre.pc,
        ),
        Instr::JumpPlus { nnn } => finish(
            MachineState { pc: ((nnn as int + pre.regs[0] as int) as u16), ..pre },
            false,
            op,
            pre.pc,
        ),
        Instr::RandomMask { x, nn } => finish(
            MachineState { regs: pre.regs.update(x as int, nn & rb), pc: adv, ..pre },
            false,
            op,
            pre.pc,
        ),
        Instr::DrawSprite { x, y, n } => {
            if pre.index as int + n as int > 4096 {
                (pre, CycleOutcome::Fault { kind: FaultKind::OutOfRange, opcode: op, pc: pre.pc })
            } else {
                let sprite = pre.ram.subrange(pre.index as int, pre.index as int + n as int);
                let res = draw_sprite(
                    pre.gfx,
                    sprite,
                    pre.regs[x as int] as int,
                    pre.regs[y as int] as int,
                );
                finish(
                    MachineState {
                        gfx: res.0,
                        regs: pre.regs.update(15, if res.1 { 1u8 } else { 0u8 }),
                        pc: adv,
                        ..pre
                    },
                    true,
                    op,
                    pre.pc,
                )
            }
        },
        Instr::SkipKey { x } => {
            if pre.regs[x as int] >= 16 {
                (pre, CycleOutcome::Fault { kind: FaultKind::OutOfRange, opcode: op, pc: pre.pc })
            } else {
                finish(
                    MachineState {
                        pc: if pre.keypad[pre.regs[x as int] as int] != 0 { skip } else { adv },
                        ..pre
                    },
                    false,
                    op,
                    pre.pc,
                )
            }
        },
        Instr::SkipNoKey { x } => {
            if pre.regs[x as int] >= 16 {
                (pre, CycleOutcome::Fault { kind: FaultKind::OutOfRange, opcode: op, pc: pre.pc })
            } else {
                finish(
                    MachineState {
                        pc: if pre.keypad[pre.regs[x as int] as int] == 0 { skip } else { adv },
                        ..pre
                    },
                    false,
                    op,
                    pre.pc,
                )
            }
        },
        Instr::ReadDelay { x } => finish(
            MachineState { regs: pre.regs.update(x as int, pre.delay_timer), pc: adv, ..pre },
            false,
            op,
            pre.pc,
        ),
        Instr::WaitKey { x } => (
            MachineState { awaiting: Some(x), ..pre },
            CycleOutcome::AwaitKey,
        ),
        Instr::SetDelay { x } => finish(
            MachineState { delay_timer: pre.regs[x as int], pc: adv, ..pre },
            false,
            op,
            pre.pc,
        ),
        Instr::SetSound { x } => finish(
            MachineState { sound_timer: pre.regs[x as int], pc: adv, ..pre },
            false,
            op,
            pre.pc,
        ),
        Instr::AddIndex { x } => finish(
            MachineState {
                index: (((pre.index as int + pre.regs[x as int] as int) % 0x10000) as u16),
                pc: adv,
                ..pre
            },
            false,
            op,
            pre.pc,
        ),
        Instr::GlyphIndex { x } => finish(
            MachineState { index: glyph_addr(pre.regs[x as int]), pc: adv, ..pre },
            false,
            op,
            pre.pc,
        ),
        Instr::StoreBcd { x } => {
            if pre.index as int + 3 > 4096 {
                (pre, CycleOutcome::Fault { kind: FaultKind::OutOfRange, opcode: op, pc: pre.pc })
            } else {
                finish(
                    MachineState {
                        ram: ram_written(
                            pre.ram,
                            bcd_digits(pre.regs[x as int]),
                            pre.index as int,
                        ),
                        pc: adv,
                        ..pre
                    },
                    false,
                    op,
                    pre.pc,
                )
            }
        },
        Instr::StoreRegs { x } => {
            if pre.index as int + x as int + 1 > 4096 {
                (pre, CycleOutcome::Fault { kind: FaultKind::OutOfRange, opcode: op, pc: pre.pc })
            } else {
                finish(
                    MachineState {
                        ram: ram_written(
                            pre.ram,
                            pre.regs.subrange(0, x as int + 1),
                            pre.index as int,
                        ),
                        pc: adv,
                        ..pre
                    },
                    false,
                    op,
                    pre.pc,
                )
            }
        },
        Instr::LoadRegs { x } => {
            if pre.index as int + x as int + 1 > 4096 {
                (pre, CycleOutcome::Fault { kind: FaultKind::OutOfRange, opcode: op, pc: pre.pc })
            } else {
                finish(
                    MachineState {
                        regs: regs_filled(pre.regs, pre.ram, pre.index as int, x as int),
                        pc: adv,
                        ..pre
                    },
                    false,
                    op,
                    pre.pc,
                )
            }
        },
    }
}

/// One whole cycle: fetch (faulting when the program counter cannot address
/// two bytes), decode (faulting on an unknown word), execute.
pub open spec fn cycle_spec(pre: MachineState, rb: u8) -> (MachineState, CycleOutcome) {
    if pre.pc >= 4095 {
        (pre, CycleOutcome::Fault { kind: FaultKind::OutOfRange, opcode: 0, pc: pre.pc })
    } else {
        let op = fetch_of(pre);
        match spec_decode(op) {
            None => (pre, CycleOutcome::Fault {
                kind: FaultKind::UnknownInstruction,
                opcode: op,
                pc: pre.pc,
            }),
            Some(instr) => step_instr(pre, instr, rb, op),
        }
    }
}

/// Whether the cycle about to run from `pre` executes the random-mask
/// instruction; only then does the outcome depend on the random byte.
pub open spec fn cycle_is_random(pre: MachineState) -> bool {
    pre.pc < 4095 && (spec_decode(fetch_of(pre)) matches Some(Instr::RandomMask { .. }))
}

/// Delivery of one key event to a machine suspended on the key-wait
/// instruction. The event always refreshes the keypad; a press also lands
/// in the waiting register and completes the suspended cycle, while a
/// release leaves the machine waiting. Without a suspension the event is
/// ignored entirely (the non-blocking drain handles it instead).
pub open spec fn feed_spec(pre: MachineState, k: Key, pressed: bool) -> (MachineState,
CycleOutcome) {
    match pre.awaiting {
        None => (pre, CycleOutcome::Continue { drew: false }),
        Some(x) => {
            let kp = pre.keypad.update(key_val(k) as int, if pressed { 1u8 } else { 0u8 });
            if pressed {
                let base = MachineState {
                    keypad: kp,
                    regs: pre.regs.update(x as int, key_val(k)),
                    awaiting: None,
                    ..pre
                };
                if pre.pc >= 4094 {
                    (base, CycleOutcome::Fault {
                        kind: FaultKind::OutOfRange,
                        opcode: 0,
                        pc: pre.pc,
                    })
                } else {
                    finish(
                        MachineState { pc: ((pre.pc + 2) as u16), ..base },
                        false,
                        0,
                        pre.pc,
                    )
                }
            } else {
                (MachineState { keypad: kp, ..pre }, CycleOutcome::AwaitKey)
            }
        },
    }
}

/// For every starting state and every random byte, a cycle that completes
/// (neither faults nor suspends on the key-wait instruction) leaves the
/// program counter even and within the 4096 bytes of memory.
pub proof fn lemma_pc_stays_aligned(pre: MachineState, rb: u8)
    ensures
        cycle_spec(pre, rb).1 is Continue ==> cycle_spec(pre, rb).0.pc % 2 == 0 && cycle_spec(
            pre,
            rb,
        ).0.pc < 4096,
{
}

/// Storing then loading registers through memory is lossless: after the
/// register-store instruction writes V0..=VX to memory at I, the
/// register-load instruction with the same X and I puts exactly those
/// values back into V0..=VX, whatever the registers held in between.
pub proof fn lemma_store_load_round_trip(
    regs: Seq<u8>,
    between: Seq<u8>,
    ram: Seq<u8>,
    addr: int,
    x: int,
)
    requires
        regs.len() == 16,
        between.len() == 16,
        ram.len() == 4096,
        0 <= x < 16,
        0 <= addr,
        addr + x + 1 <= 4096,
    ensures
        forall|j: int|
            0 <= j <= x ==> #[trigger] regs_filled(
                between,
                ram_written(ram, regs.subrange(0, x + 1), addr),
                addr,
                x,
            )[j] == regs[j],
{
}

} // verus!
