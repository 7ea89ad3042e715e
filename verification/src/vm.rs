//! The machine itself: storage, the interpreter cycle, and the plain-value
//! boundary through which a front end feeds key events and collects
//! display frames.

use vstd::prelude::*;
use vstd::slice::slice_subrange;
use crate::model::{MachineState, ram_written};
use crate::semantics::{font_seq, key_val, tick_of};

verus! {

/// One of the sixteen keypad symbols.
#[derive(Clone, Copy, Debug, PartialEq, Eq, Structural)]
pub enum Key {
    K0,
    K1,
    K2,
    K3,
    K4,
    K5,
    K6,
    K7,
    K8,
    K9,
    A,
    B,
    C,
    D,
    E,
    F,
}

impl Key {
    /// The symbol's 4-bit value.
    pub fn to_byte(&self) -> (r: u8)
        ensures
            r == key_val(*self),
            r < 16,
    {
        match self {
            Key::K0 => 0x0,
            Key::K1 => 0x1,
            Key::K2 => 0x2,
            Key::K3 => 0x3,
            Key::K4 => 0x4,
            Key::K5 => 0x5,
            Key::K6 => 0x6,
            Key::K7 => 0x7,
            Key::K8 => 0x8,
            Key::K9 => 0x9,
            Key::A => 0xA,
            Key::B => 0xB,
            Key::C => 0xC,
            Key::D => 0xD,
            Key::E => 0xE,
            Key::F => 0xF,
        }
    }
}

/// Why a run ended. A fault is fatal: it identifies the failing
/// instruction word and the address it was executed from. `OutOfRange`
/// covers every bad address: a memory access past 4095, and a program
/// counter left odd or outside memory.
#[derive(Clone, Copy, Debug, PartialEq, Eq, Structural)]
pub enum FaultKind {
    UnknownInstruction,
    StackOverflow,
    StackUnderflow,
    OutOfRange,
}

/// What one call to [`CPU::emulate_cycle`] produced: a completed cycle
/// (with `drew` telling the front end a fresh display frame is due), a
/// suspension on the key-wait instruction (deliver an event through
/// [`CPU::feed_awaited_key`]), or a fatal fault.
#[derive(Clone, Copy, Debug, PartialEq, Eq, Structural)]
pub enum CycleOutcome {
    Continue { drew: bool },
    AwaitKey,
    Fault { kind: FaultKind, opcode: u16, pc: u16 },
}

/// Rejection of a program image at load time.
#[derive(Clone, Copy, Debug, PartialEq, Eq, Structural)]
pub enum LoadError {
    /// The image does not fit in the 3584 bytes above the reserved region.
    ImageTooLarge,
}

/// The processor and its storage. The abstract value of a `CPU` is a
/// [`MachineState`]; every method's contract is stated over that view.
pub struct CPU {
    pub delay_timer: u8,
    pub sound_timer: u8,
    /// 64x32 one-bit pixels, row-major: row `r`, column `c` at `r * 64 + c`.
    pub gfx: Vec<u8>,
    pub registers: Vec<u8>,
    pub pc: u16,
    pub index: u16,
    pub keypad: Vec<u8>,
    pub stack: Vec<u16>,
    pub ram: Vec<u8>,
    /// `Some(x)` while suspended on the key-wait instruction writing VX.
    pub awaiting: Option<u8>,
}

impl View for CPU {
    type V = MachineState;

    open spec fn view(&self) -> MachineState {
        MachineState {
            ram: self.ram@,
            regs: self.registers@,
            gfx: self.gfx@,
            keypad: self.keypad@,
            stack: self.stack@,
            pc: self.pc,
            index: self.index,
            delay_timer: self.delay_timer,
            sound_timer: self.sound_timer,
            awaiting: self.awaiting,
        }
    }
}

/// A vector of `len` copies of `val`.
pub(crate) fn filled(len: usize, val: u8) -> (r: Vec<u8>)
    ensures
        r@ == Seq::new(len as nat, |i: int| val),
{
    let mut v: Vec<u8> = Vec::new();
    while v.len() < len
        invariant
            v@.len() <= len,
            forall|i: int| 0 <= i < v@.len() ==> #[trigger] v@[i] == val,
        decreases len - v.len(),
    {
        v.push(val);
    }
    proof {
        assert(v@ =~= Seq::new(len as nat, |i: int| val));
    }
    v
}

/// The built-in font, sixteen 5-byte hexadecimal glyphs.
fn font_table() -> (r: Vec<u8>)
    ensures
        r@ == font_seq(),
{
    let mut v: Vec<u8> = Vec::new();
    v.push(0xF0); v.push(0x90); v.push(0x90); v.push(0x90); v.push(0xF0);
    v.push(0x20); v.push(0x60); v.push(0x20); v.push(0x20); v.push(0x70);
    v.push(0xF0); v.push(0x10); v.push(0xF0); v.push(0x80); v.push(0xF0);
    v.push(0xF0); v.push(0x10); v.push(0xF0); v.push(0x10); v.push(0xF0);
    v.push(0x90); v.push(0x90); v.push(0xF0); v.push(0x10); v.push(0x10);
    v.push(0xF0); v.push(0x80); v.push(0xF0); v.push(0x10); v.push(0xF0);
    v.push(0xF0); v.push(0x80); v.push(0xF0); v.push(0x90); v.push(0xF0);
    v.push(0xF0); v.push(0x10); v.push(0x20); v.push(0x40); v.push(0x40);
    v.push(0xF0); v.push(0x90); v.push(0xF0); v.push(0x90); v.push(0xF0);
    v.push(0xF0); v.push(0x90); v.push(0xF0); v.push(0x10); v.push(0xF0);
    v.push(0xF0); v.push(0x90); v.push(0xF0); v.push(0x90); v.push(0x90);
    v.push(0xE0); v.push(0x90); v.push(0xE0); v.push(0x90); v.push(0xE0);
    v.push(0xF0); v.push(0x80); v.push(0x80); v.push(0x80); v.push(0xF0);
    v.push(0xE0); v.push(0x90); v.push(0x90); v.push(0x90); v.push(0xE0);
    v.push(0xF0); v.push(0x80); v.push(0xF0); v.push(0x80); v.push(0xF0);
    v.push(0xF0); v.push(0x80); v.push(0xF0); v.push(0x80); v.push(0x80);
    proof {
        assert(v@ =~= font_seq());
    }
    v
}

impl CPU {
    /// A machine with everything zeroed.
    pub fn new() -> (r: CPU)
        ensures
            r@ == MachineState::initial(),
            r@.wf(),
    {
        let r = CPU {
            delay_timer: 0,
            sound_timer: 0,
            gfx: filled(2048, 0),
            registers: filled(16, 0),
            pc: 0,
            index: 0,
            keypad: filled(16, 0),
            stack: Vec::new(),
            ram: filled(4096, 0),
            awaiting: None,
        };
        proof {
            assert(r@ =~= MachineState::initial());
        }
        r
    }

    /// Copy `bytes` into memory starting at `address`. The range must lie
    /// inside memory; the loader and the store instructions check it first.
    pub fn write_memory(&mut self, bytes: &[u8], address: u16)
        requires
            old(self)@.wf(),
            address as int + bytes@.len() <= 4096,
        ensures
            final(self)@.wf(),
            final(self)@ == (MachineState {
                ram: ram_written(old(self)@.ram, bytes@, address as int),
                ..old(self)@
            }),
    {
        let mut i: usize = 0;
        while i < bytes.len()
            invariant
                old(self)@.wf(),
                self@.wf(),
                address as int + bytes@.len() <= 4096,
                i <= bytes@.len(),
                self@ == (MachineState {
                    ram: self@.ram,
                    ..old(self)@
                }),
                self@.ram.len() == 4096,
                forall|j: int|
                    0 <= j < 4096 ==> #[trigger] self@.ram[j] == (if address as int <= j
                        < address as int + i {
                        bytes@[j - address as int]
                    } else {
                        old(self)@.ram[j]
                    }),
            decreases bytes@.len() - i,
        {
            self.ram.set(address as usize + i, bytes[i]);
            i = i + 1;
        }
        proof {
            assert(final(self)@.ram =~= ram_written(old(self)@.ram, bytes@, address as int));
            assert(final(self)@ =~= (MachineState {
                ram: ram_written(old(self)@.ram, bytes@, address as int),
                ..old(self)@
            }));
        }
    }

    /// Borrow the bytes in `start..end` of memory.
    pub fn read_memory(&self, start: usize, end: usize) -> (r: &[u8])
        requires
            self@.wf(),
            start <= end <= 4096,
        ensures
            r@ == self@.ram.subrange(start as int, end as int),
    {
        slice_subrange(self.ram.as_slice(), start, end)
    }

    /// Apply one polled key event, if any, to the keypad state. This is the
    /// non-blocking drain the execution loop performs once per cycle; the
    /// front end hands over whatever its channel poll returned.
    pub fn deal_with_input(&mut self, event: Option<(Key, bool)>)
        requires
            old(self)@.wf(),
        ensures
            final(self)@.wf(),
            final(self)@ == (match event {
                None => old(self)@,
                Some((k, pressed)) => MachineState {
                    keypad: old(self)@.keypad.update(
                        key_val(k) as int,
                        if pressed { 1u8 } else { 0u8 },
                    ),
                    ..old(self)@
                },
            }),
    {
        match event {
            None => {},
            Some((k, pressed)) => {
                let kv = k.to_byte();
                self.keypad.set(kv as usize, if pressed { 1 } else { 0 });
                proof {
                    assert(final(self)@ =~= (MachineState {
                        keypad: old(self)@.keypad.update(
                            key_val(k) as int,
                            if pressed { 1u8 } else { 0u8 },
                        ),
                        ..old(self)@
                    }));
                }
            },
        }
    }

    /// One 60 Hz tick: both countdown timers decrement, stopping at zero.
    /// The front end calls this from its fixed-cadence ticker.
    pub fn tick_timers(&mut self)
        requires
            old(self)@.wf(),
        ensures
            final(self)@.wf(),
            final(self)@ == (MachineState {
                delay_timer: tick_of(old(self)@.delay_timer),
                sound_timer: tick_of(old(self)@.sound_timer),
                ..old(self)@
            }),
    {
        if self.delay_timer > 0 {
            self.delay_timer = self.delay_timer - 1;
        }
        if self.sound_timer > 0 {
            self.sound_timer = self.sound_timer - 1;
        }
    }

    /// An immutable snapshot of the display buffer, the unit published to
    /// the rendering collaborator.
    pub fn display_frame(&self) -> (r: Vec<u8>)
        ensures
            r@ == self@.gfx,
    {
        let mut v: Vec<u8> = Vec::new();
        let mut i: usize = 0;
        while i < self.gfx.len()
            invariant
                i <= self.gfx@.len(),
                v@ == self.gfx@.subrange(0, i as int),
            decreases self.gfx@.len() - i,
        {
            v.push(self.gfx[i]);
            proof {
                assert(v@ =~= self.gfx@.subrange(0, i as int + 1));
            }
            i = i + 1;
        }
        proof {
            assert(v@ =~= self@.gfx);
        }
        v
    }
}

/// The whole console: the processor plus the loading convention.
pub struct Chip8 {
    pub cpu: CPU,
}

impl Chip8 {
    /// A console around a fresh machine.
    pub fn new() -> (r: Chip8)
        ensures
            r.cpu@ == MachineState::initial(),
            r.cpu@.wf(),
    {
        Chip8 { cpu: CPU::new() }
    }

    /// Load a cartridge: the font goes into the reserved low memory, the
    /// image into memory from 0x200 up, and execution will start at 0x200.
    /// An image larger than the 3584 available bytes is rejected before
    /// anything is touched.
    pub fn load(&mut self, cartridge: &[u8]) -> (r: Result<(), LoadError>)
        requires
            old(self).cpu@.wf(),
        ensures
            final(self).cpu@.wf(),
            cartridge@.len() <= 3584 ==> r == Ok::<(), LoadError>(()) && final(self).cpu@ == (
            MachineState {
                ram: ram_written(
                    ram_written(old(self).cpu@.ram, font_seq(), 0),
                    cartridge@,
                    512,
                ),
                pc: 512,
                ..old(self).cpu@
            }),
            cartridge@.len() > 3584 ==> r == Err::<(), LoadError>(LoadError::ImageTooLarge)
                && final(self).cpu@ == old(self).cpu@,
    {
        if cartridge.len() > 3584 {
            return Err(LoadError::ImageTooLarge);
        }
        let font = font_table();
        self.cpu.write_memory(font.as_slice(), 0);
        self.cpu.write_memory(cartridge, 512);
        self.cpu.pc = 512;
        Ok(())
    }
}

} // verus!
