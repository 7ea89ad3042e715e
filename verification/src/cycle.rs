//! The fetch-decode-execute cycle, proved against the spec-level
//! interpreter in [`crate::semantics`].

use vstd::prelude::*;
use crate::decode::{decode, Instr};
use crate::model::{MachineState, ram_written, regs_filled};
use crate::rng::random_byte;
use crate::semantics::{
    blank_gfx, bcd_digits, cycle_is_random, cycle_spec, draw_byte_bits, draw_sprite,
    draw_sprite_rows, feed_spec, fetch_of, finish, sprite_bit,
};
use crate::vm::{filled, CycleOutcome, FaultKind, Key, CPU};

verus! {

/// Whether bit `b` (0 = leftmost) of a sprite row byte is set.
fn sprite_bit_at(byte: u8, b: usize) -> (r: bool)
    requires
        b < 8,
    ensures
        r == sprite_bit(byte, b as int),
{
    let mask: u8 = if b == 0 {
        0x80
    } else if b == 1 {
        0x40
    } else if b == 2 {
        0x20
    } else if b == 3 {
        0x10
    } else if b == 4 {
        0x08
    } else if b == 5 {
        0x04
    } else if b == 6 {
        0x02
    } else {
        0x01
    };
    byte & mask != 0
}

impl CPU {
    /// The end of a completed cycle: accept the new program counter if it
    /// is even and inside memory, else report the out-of-range fault.
    fn finish_step(&self, op: u16, from_pc: u16, drew: bool) -> (r: CycleOutcome)
        ensures
            r == finish(self@, drew, op, from_pc).1,
    {
        if self.pc % 2 == 0 && self.pc < 4096 {
            CycleOutcome::Continue { drew }
        } else {
            CycleOutcome::Fault { kind: FaultKind::OutOfRange, opcode: op, pc: from_pc }
        }
    }

    /// XOR-draw the `n`-row sprite held at memory[I..I+n] at the screen
    /// position given by VX and VY, reporting whether any set pixel was
    /// cleared.
    fn draw_op(&mut self, x: u8, y: u8, n: u8) -> (collision: bool)
        requires
            old(self)@.wf(),
            x < 16,
            y < 16,
            n < 16,
            old(self)@.index as int + n as int <= 4096,
        ensures
            final(self)@.wf(),
            ({
                let res = draw_sprite(
                    old(self)@.gfx,
                    old(self)@.ram.subrange(
                        old(self)@.index as int,
                        old(self)@.index as int + n as int,
                    ),
                    old(self)@.regs[x as int] as int,
                    old(self)@.regs[y as int] as int,
                );
                final(self)@ == (MachineState { gfx: res.0, ..old(self)@ }) && collision == res.1
            }),
    {
        let px = self.registers[x as usize] as usize;
        let py = self.registers[y as usize] as usize;
        let i0 = self.index as usize;
        let nrows = n as usize;
        let ghost sprite = old(self)@.ram.subrange(i0 as int, i0 as int + nrows as int);
        let ghost g0 = old(self)@.gfx;
        let mut collision = false;
        let mut r: usize = 0;
        while r < nrows
            invariant
                old(self)@.wf(),
                self@.wf(),
                x < 16,
                y < 16,
                r <= nrows,
                nrows < 16,
                px == old(self)@.regs[x as int],
                py == old(self)@.regs[y as int],
                i0 == old(self)@.index,
                i0 + nrows <= 4096,
                sprite == old(self)@.ram.subrange(i0 as int, i0 as int + nrows as int),
                g0 == old(self)@.gfx,
                self@ == (MachineState { gfx: self@.gfx, ..old(self)@ }),
                ({
                    let pr = draw_sprite_rows(g0, sprite, px as int, py as int, r as int);
                    self@.gfx == pr.0 && collision == pr.1
                }),
            decreases nrows - r,
        {
            let byte = self.ram[i0 + r];
            proof {
                assert(byte == sprite[r as int]);
            }
            let row = (py + r) % 32;
            let ghost g_row0 = self@.gfx;
            let ghost col0 = collision;
            let mut b: usize = 0;
            while b < 8
                invariant
                    old(self)@.wf(),
                    self@.wf(),
                    b <= 8,
                    px < 256,
                    row == (py + r) % 32,
                    row < 32,
                    self@ == (MachineState { gfx: self@.gfx, ..old(self)@ }),
                    ({
                        let pb = draw_byte_bits(g_row0, byte, px as int, row as int, b as int);
                        self@.gfx == pb.0 && collision == (col0 || pb.1)
                    }),
                decreases 8 - b,
            {
                if sprite_bit_at(byte, b) {
                    let cx = (px + b) % 64;
                    let idx = row * 64 + cx;
                    let cur = self.gfx[idx];
                    if cur == 0 {
                        self.gfx.set(idx, 1);
                    } else {
                        self.gfx.set(idx, 0);
                        collision = true;
                    }
                }
                b = b + 1;
            }
            proof {
                let pr = draw_sprite_rows(g0, sprite, px as int, py as int, r as int);
                let nxt = draw_sprite_rows(g0, sprite, px as int, py as int, r as int + 1);
                assert(nxt.0 == draw_byte_bits(pr.0, sprite[r as int], px as int,
                    (py as int + r as int) % 32, 8).0);
                assert(row as int == (py as int + r as int) % 32);
            }
            r = r + 1;
        }
        proof {
            let res = draw_sprite(g0, sprite, px as int, py as int);
            assert(sprite.len() == nrows);
            assert(self@.gfx == res.0 && collision == res.1);
        }
        collision
    }

    /// Run one fetch-decode-execute cycle.
    ///
    /// The whole effect, for every instruction, is pinned by the spec-level
    /// interpreter: there is a random byte under which the new state and
    /// the outcome are exactly `cycle_spec` of the old state, and whenever
    /// the cycle does not execute the random-mask instruction they are
    /// `cycle_spec` of the old state outright. In particular a completed
    /// cycle always leaves the program counter even and inside memory.
    #[verifier::rlimit(100)]
    pub fn emulate_cycle(&mut self) -> (r: CycleOutcome)
        requires
            old(self)@.wf(),
        ensures
            final(self)@.wf(),
            exists|rb: u8| #![trigger cycle_spec(old(self)@, rb)] (final(self)@, r) == cycle_spec(
                old(self)@,
                rb,
            ),
            !cycle_is_random(old(self)@) ==> (final(self)@, r) == cycle_spec(old(self)@, 0),
            r is Continue ==> final(self)@.pc % 2 == 0 && final(self)@.pc < 4096,
    {
        let pre_pc = self.pc;
        if pre_pc >= 4095 {
            let out = CycleOutcome::Fault { kind: FaultKind::OutOfRange, opcode: 0, pc: pre_pc };
            proof {
                assert((self@, out) == cycle_spec(old(self)@, 0));
            }
            return out;
        }
        let hi = self.ram[pre_pc as usize];
        let lo = self.ram[pre_pc as usize + 1];
        let op: u16 = ((hi as u16) << 8) | (lo as u16);
        proof {
            assert(op == fetch_of(old(self)@));
        }
        let instr = match decode(op) {
            None => {
                let out = CycleOutcome::Fault {
                    kind: FaultKind::UnknownInstruction,
                    opcode: op,
                    pc: pre_pc,
                };
                proof {
                    assert((self@, out) == cycle_spec(old(self)@, 0));
                }
                return out;
            },
            Some(i) => i,
        };
        match instr {
            Instr::ClearScreen => {
                self.gfx = filled(2048, 0);
                self.pc = pre_pc + 2;
                proof {
                    assert(self@.gfx =~= blank_gfx());
                }
                let out = self.finish_step(op, pre_pc, true);
                proof {
                    assert((self@, out) == cycle_spec(old(self)@, 0));
                }
                out
            },
            Instr::SubReturn => {
                match self.stack.pop() {
                    None => {
                        let out = CycleOutcome::Fault {
                            kind: FaultKind::StackUnderflow,
                            opcode: op,
                            pc: pre_pc,
                        };
                        proof {
                            assert((self@, out) == cycle_spec(old(self)@, 0));
                        }
                        out
                    },
                    Some(t) => {
                        proof {
                            assert(old(self)@.stack[old(self)@.stack.len() - 1] <= 4094);
                            assert(self@.stack =~= old(self)@.stack.drop_last());
                        }
                        self.pc = t + 2;
                        let out = self.finish_step(op, pre_pc, false);
                        proof {
                            assert((self@, out) == cycle_spec(old(self)@, 0));
                        }
                        out
                    },
                }
            },
            Instr::JumpTo { nnn } => {
                self.pc = nnn;
                let out = self.finish_step(op, pre_pc, false);
                proof {
                    assert((self@, out) == cycle_spec(old(self)@, 0));
                }
                out
            },
            Instr::CallSub { nnn } => {
                if self.stack.len() >= 16 {
                    let out = CycleOutcome::Fault {
                        kind: FaultKind::StackOverflow,
                        opcode: op,
                        pc: pre_pc,
                    };
                    proof {
                        assert((self@, out) == cycle_spec(old(self)@, 0));
                    }
                    return out;
                }
                self.stack.push(pre_pc);
                self.pc = nnn;
                let out = self.finish_step(op, pre_pc, false);
                proof {
                    assert((self@, out) == cycle_spec(old(self)@, 0));
                }
                out
            },
            Instr::SkipEqImm { x, nn } => {
                let vx = self.registers[x as usize];
                self.pc = if vx == nn {
                    pre_pc + 4
                } else {
                    pre_pc + 2
                };
                let out = self.finish_step(op, pre_pc, false);
                proof {
                    assert((self@, out) == cycle_spec(old(self)@, 0));
                }
                out
            },
            Instr::SkipNeImm { x, nn } => {
                let vx = self.registers[x as usize];
                self.pc = if vx != nn {
                    pre_pc + 4
                } else {
                    pre_pc + 2
                };
                let out = self.finish_step(op, pre_pc, false);
                proof {
                    assert((self@, out) == cycle_spec(old(self)@, 0));
                }
                out
            },
            Instr::SkipEqReg { x, y } => {
                let vx = self.registers[x as usize];
                let vy = self.registers[y as usize];
                self.pc = if vx == vy {
                    pre_pc + 4
                } else {
                    pre_pc + 2
                };
                let out = self.finish_step(op, pre_pc, false);
                proof {
                    assert((self@, out) == cycle_spec(old(self)@, 0));
                }
                out
            },
            Instr::SetImm { x, nn } => {
                self.registers.set(x as usize, nn);
                self.pc = pre_pc + 2;
                let out = self.finish_step(op, pre_pc, false);
                proof {
                    assert((self@, out) == cycle_spec(old(self)@, 0));
                }
                out
            },
            Instr::AddImm { x, nn } => {
                let vx = self.registers[x as usize];
                let sum = vx as u16 + nn as u16;
                let value = if sum > 255 {
                    (sum - 256) as u8
                } else {
                    sum as u8
                };
                self.registers.set(x as usize, value);
                self.pc = pre_pc + 2;
                let out = self.finish_step(op, pre_pc, false);
                proof {
                    assert((self@, out) == cycle_spec(old(self)@, 0));
                }
                out
            },
            Instr::CopyReg { x, y } => {
                let vy = self.registers[y as usize];
                self.registers.set(x as usize, vy);
                self.pc = pre_pc + 2;
                let out = self.finish_step(op, pre_pc, false);
                proof {
                    assert((self@, out) == cycle_spec(old(self)@, 0));
                }
                out
            },
            Instr::OrReg { x, y } => {
                let vx = self.registers[x as usize];
                let vy = self.registers[y as usize];
                self.registers.set(x as usize, vx | vy);
                self.pc = pre_pc + 2;
                let out = self.finish_step(op, pre_pc, false);
                proof {
                    assert((self@, out) == cycle_spec(old(self)@, 0));
                }
                out
            },
            Instr::AndReg { x, y } => {
                let vx = self.registers[x as usize];
                let vy = self.registers[y as usize];
                self.registers.set(x as usize, vx & vy);
                self.pc = pre_pc + 2;
                let out = self.finish_step(op, pre_pc, false);
                proof {
                    assert((self@, out) == cycle_spec(old(self)@, 0));
                }
                out
            },
            Instr::XorReg { x, y } => {
                let vx = self.registers[x as usize];
                let vy = self.registers[y as usize];
                self.registers.set(x as usize, vx ^ vy);
                self.pc = pre_pc + 2;
                let out = self.finish_step(op, pre_pc, false);
                proof {
                    assert((self@, out) == cycle_spec(old(self)@, 0));
                }
                out
            },
            Instr::AddReg { x, y } => {
                let vx = self.registers[x as usize];
                let vy = self.registers[y as usize];
                let sum = vx as u16 + vy as u16;
                let value = if sum > 255 {
                    (sum - 256) as u8
                } else {
                    sum as u8
                };
                let flag: u8 = if sum > 255 {
                    1
                } else {
                    0
                };
                self.registers.set(x as usize, value);
                self.registers.set(15, flag);
                self.pc = pre_pc + 2;
                let out = self.finish_step(op, pre_pc, false);
                proof {
                    assert((self@, out) == cycle_spec(old(self)@, 0));
                }
                out
            },
            Instr::SubXy { x, y } => {
                let vx = self.registers[x as usize];
                let vy = self.registers[y as usize];
                let value = if vy > vx {
                    (vx as u16 + 256 - vy as u16) as u8
                } else {
                    vx - vy
                };
                let flag: u8 = if vy > vx {
                    0
                } else {
                    1
                };
                self.registers.set(x as usize, value);
                self.registers.set(15, flag);
                self.pc = pre_pc + 2;
                let out = self.finish_step(op, pre_pc, false);
                proof {
                    assert((self@, out) == cycle_spec(old(self)@, 0));
                }
                out
            },
            Instr::ShiftRight { x } => {
                let vx = self.registers[x as usize];
                self.registers.set(15, vx & 1);
                let cur = self.registers[x as usize];
                self.registers.set(x as usize, cur >> 1u8);
                self.pc = pre_pc + 2;
                let out = self.finish_step(op, pre_pc, false);
                proof {
                    assert((self@, out) == cycle_spec(old(self)@, 0));
                }
                out
            },
            Instr::SubYx { x, y } => {
                let vx = self.registers[x as usize];
                let vy = self.registers[y as usize];
                let value = if vx > vy {
                    (vy as u16 + 256 - vx as u16) as u8
                } else {
                    vy - vx
                };
                let flag: u8 = if vx > vy {
                    0
                } else {
                    1
                };
                self.registers.set(x as usize, value);
                self.registers.set(15, flag);
                self.pc = pre_pc + 2;
                let out = self.finish_step(op, pre_pc, false);
                proof {
                    assert((self@, out) == cycle_spec(old(self)@, 0));
                }
                out
            },
            Instr::ShiftLeft { x } => {
                let vx = self.registers[x as usize];
                self.registers.set(15, (vx >> 7u8) & 1);
                let cur = self.registers[x as usize];
                self.registers.set(x as usize, cur << 1u8);
                self.pc = pre_pc + 2;
                let out = self.finish_step(op, pre_pc, false);
                proof {
                    assert((self@, out) == cycle_spec(old(self)@, 0));
                }
                out
            },
            Instr::SkipNeReg { x, y } => {
                let vx = self.registers[x as usize];
                let vy = self.registers[y as usize];
                self.pc = if vx != vy {
                    pre_pc + 4
                } else {
                    pre_pc + 2
                };
                let out = self.finish_step(op, pre_pc, false);
                proof {
                    assert((self@, out) == cycle_spec(old(self)@, 0));
                }
                out
            },
            Instr::SetIndex { nnn } => {
                self.index = nnn;
                self.pc = pre_pc + 2;
                let out = self.finish_step(op, pre_pc, false);
                proof {
                    assert((self@, out) == cycle_spec(old(self)@, 0));
                }
                out
            },
            Instr::JumpPlus { nnn } => {
                let v0 = self.registers[0];
                self.pc = nnn + v0 as u16;
                let out = self.finish_step(op, pre_pc, false);
                proof {
                    assert((self@, out) == cycle_spec(old(self)@, 0));
                }
                out
            },
            Instr::RandomMask { x, nn } => {
                let rb = random_byte();
                self.registers.set(x as usize, nn & rb);
                self.pc = pre_pc + 2;
                let out = self.finish_step(op, pre_pc, false);
                proof {
                    assert((self@, out) == cycle_spec(old(self)@, rb));
                }
                out
            },
            Instr::DrawSprite { x, y, n } => {
                let i0 = self.index as usize;
                if i0 + n as usize > 4096 {
                    let out = CycleOutcome::Fault {
                        kind: FaultKind::OutOfRange,
                        opcode: op,
                        pc: pre_pc,
                    };
                    proof {
                        assert((self@, out) == cycle_spec(old(self)@, 0));
                    }
                    return out;
                }
                let collision = self.draw_op(x, y, n);
                self.registers.set(15, if collision {
                    1
                } else {
                    0
                });
                self.pc = pre_pc + 2;
                let out = self.finish_step(op, pre_pc, true);
                proof {
                    assert((self@, out) == cycle_spec(old(self)@, 0));
                }
                out
            },
            Instr::SkipKey { x } => {
                let vx = self.registers[x as usize];
                if vx >= 16 {
                    let out = CycleOutcome::Fault {
                        kind: FaultKind::OutOfRange,
                        opcode: op,
                        pc: pre_pc,
                    };
                    proof {
                        assert((self@, out) == cycle_spec(old(self)@, 0));
                    }
                    return out;
                }
                let pressed = self.keypad[vx as usize];
                self.pc = if pressed != 0 {
                    pre_pc + 4
                } else {
                    pre_pc + 2
                };
                let out = self.finish_step(op, pre_pc, false);
                proof {
                    assert((self@, out) == cycle_spec(old(self)@, 0));
                }
                out
            },
            Instr::SkipNoKey { x } => {
                let vx = self.registers[x as usize];
                if vx >= 16 {
                    let out = CycleOutcome::Fault {
                        kind: FaultKind::OutOfRange,
                        opcode: op,
                        pc: pre_pc,
                    };
                    proof {
                        assert((self@, out) == cycle_spec(old(self)@, 0));
                    }
                    return out;
                }
                let pressed = self.keypad[vx as usize];
                self.pc = if pressed == 0 {
                    pre_pc + 4
                } else {
                    pre_pc + 2
                };
                let out = self.finish_step(op, pre_pc, false);
                proof {
                    assert((self@, out) == cycle_spec(old(self)@, 0));
                }
                out
            },
            Instr::ReadDelay { x } => {
                let dt = self.delay_timer;
                self.registers.set(x as usize, dt);
                self.pc = pre_pc + 2;
                let out = self.finish_step(op, pre_pc, false);
                proof {
                    assert((self@, out) == cycle_spec(old(self)@, 0));
                }
                out
            },
            Instr::WaitKey { x } => {
                self.awaiting = Some(x);
                proof {
                    assert((self@, CycleOutcome::AwaitKey) == cycle_spec(old(self)@, 0));
                }
                CycleOutcome::AwaitKey
            },
            Instr::SetDelay { x } => {
                self.delay_timer = self.registers[x as usize];
                self.pc = pre_pc + 2;
                let out = self.finish_step(op, pre_pc, false);
                proof {
                    assert((self@, out) == cycle_spec(old(self)@, 0));
                }
                out
            },
            Instr::SetSound { x } => {
                self.sound_timer = self.registers[x as usize];
                self.pc = pre_pc + 2;
                let out = self.finish_step(op, pre_pc, false);
                proof {
                    assert((self@, out) == cycle_spec(old(self)@, 0));
                }
                out
            },
            Instr::AddIndex { x } => {
                let vx = self.registers[x as usize];
                let sum: u32 = self.index as u32 + vx as u32;
                self.index = (sum % 0x10000) as u16;
                self.pc = pre_pc + 2;
                let out = self.finish_step(op, pre_pc, false);
                proof {
                    assert((self@, out) == cycle_spec(old(self)@, 0));
                }
                out
            },
            Instr::GlyphIndex { x } => {
                let vx = self.registers[x as usize];
                self.index = 5u16 * (vx as u16);
                self.pc = pre_pc + 2;
                let out = self.finish_step(op, pre_pc, false);
                proof {
                    assert((self@, out) == cycle_spec(old(self)@, 0));
                }
                out
            },
            Instr::StoreBcd { x } => {
                let i0 = self.index as usize;
                if i0 + 3 > 4096 {
                    let out = CycleOutcome::Fault {
                        kind: FaultKind::OutOfRange,
                        opcode: op,
                        pc: pre_pc,
                    };
                    proof {
                        assert((self@, out) == cycle_spec(old(self)@, 0));
                    }
                    return out;
                }
                let v = self.registers[x as usize];
                self.ram.set(i0, v / 100);
                self.ram.set(i0 + 1, (v % 100) / 10);
                self.ram.set(i0 + 2, v % 10);
                self.pc = pre_pc + 2;
                proof {
                    assert(self@.ram =~= ram_written(old(self)@.ram, bcd_digits(v), i0 as int));
                }
                let out = self.finish_step(op, pre_pc, false);
                proof {
                    assert((self@, out) == cycle_spec(old(self)@, 0));
                }
                out
            },
            Instr::StoreRegs { x } => {
                let i0 = self.index as usize;
                if i0 + x as usize + 1 > 4096 {
                    let out = CycleOutcome::Fault {
                        kind: FaultKind::OutOfRange,
                        opcode: op,
                        pc: pre_pc,
                    };
                    proof {
                        assert((self@, out) == cycle_spec(old(self)@, 0));
                    }
                    return out;
                }
                let mut j: usize = 0;
                while j <= x as usize
                    invariant
                        old(self)@.wf(),
                        self@.wf(),
                        x < 16,
                        j <= x as usize + 1,
                        i0 + x as usize + 1 <= 4096,
                        i0 == old(self)@.index,
                        self@ == (MachineState { ram: self@.ram, ..old(self)@ }),
                        forall|k: int|
                            0 <= k < 4096 ==> #[trigger] self@.ram[k] == (if i0 as int <= k
                                < i0 as int + j {
                                old(self)@.regs[k - i0 as int]
                            } else {
                                old(self)@.ram[k]
                            }),
                    decreases x as usize + 1 - j,
                {
                    let v = self.registers[j];
                    self.ram.set(i0 + j, v);
                    j = j + 1;
                }
                self.pc = pre_pc + 2;
                proof {
                    assert(self@.ram =~= ram_written(
                        old(self)@.ram,
                        old(self)@.regs.subrange(0, x as int + 1),
                        i0 as int,
                    ));
                }
                let out = self.finish_step(op, pre_pc, false);
                proof {
                    assert((self@, out) == cycle_spec(old(self)@, 0));
                }
                out
            },
            Instr::LoadRegs { x } => {
                let i0 = self.index as usize;
                if i0 + x as usize + 1 > 4096 {
                    let out = CycleOutcome::Fault {
                        kind: FaultKind::OutOfRange,
                        opcode: op,
                        pc: pre_pc,
                    };
                    proof {
                        assert((self@, out) == cycle_spec(old(self)@, 0));
                    }
                    return out;
                }
                let mut j: usize = 0;
                while j <= x as usize
                    invariant
                        old(self)@.wf(),
                        self@.wf(),
                        x < 16,
                        j <= x as usize + 1,
                        i0 + x as usize + 1 <= 4096,
                        i0 == old(self)@.index,
                        self@ == (MachineState { regs: self@.regs, ..old(self)@ }),
                        forall|k: int|
                            0 <= k < 16 ==> #[trigger] self@.regs[k] == (if k < j {
                                old(self)@.ram[i0 as int + k]
                            } else {
                                old(self)@.regs[k]
                            }),
                    decreases x as usize + 1 - j,
                {
                    let v = self.ram[i0 + j];
                    self.registers.set(j, v);
                    j = j + 1;
                }
                self.pc = pre_pc + 2;
                proof {
                    assert(self@.regs =~= regs_filled(
                        old(self)@.regs,
                        old(self)@.ram,
                        i0 as int,
                        x as int,
                    ));
                }
                let out = self.finish_step(op, pre_pc, false);
                proof {
                    assert((self@, out) == cycle_spec(old(self)@, 0));
                }
                out
            },
        }
    }

    /// Deliver one key event to a machine suspended on the key-wait
    /// instruction: the keypad is refreshed, a press completes the
    /// suspended cycle into the waiting register, a release keeps waiting.
    /// Without a suspension the machine is untouched.
    pub fn feed_awaited_key(&mut self, key: Key, pressed: bool) -> (r: CycleOutcome)
        requires
            old(self)@.wf(),
        ensures
            final(self)@.wf(),
            (final(self)@, r) == feed_spec(old(self)@, key, pressed),
            old(self)@.awaiting is Some && r is Continue ==> final(self)@.pc % 2 == 0
                && final(self)@.pc < 4096,
    {
        match self.awaiting {
            None => CycleOutcome::Continue { drew: false },
            Some(x) => {
                let pre_pc = self.pc;
                let kv = key.to_byte();
                self.keypad.set(kv as usize, if pressed {
                    1
                } else {
                    0
                });
                if pressed {
                    self.registers.set(x as usize, kv);
                    self.awaiting = None;
                    if pre_pc >= 4094 {
                        return CycleOutcome::Fault {
                            kind: FaultKind::OutOfRange,
                            opcode: 0,
                            pc: pre_pc,
                        };
                    }
                    self.pc = pre_pc + 2;
                    self.finish_step(0, pre_pc, false)
                } else {
                    CycleOutcome::AwaitKey
                }
            },
        }
    }
}

} // verus!
