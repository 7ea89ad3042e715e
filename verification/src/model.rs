//! The mathematical model of the machine: an abstract state over sequences,
//! used by every contract in the crate.

use vstd::prelude::*;

verus! {

/// Abstract view of the whole machine: 4096 bytes of memory, sixteen 8-bit
/// registers, a 64x32 one-bit display held row-major, a 16-entry keypad,
/// a bounded call stack, the two 16-bit pointers and the two timers.
/// `awaiting` is `Some(x)` while the machine is suspended on the key-wait
/// instruction with destination register `x`.
#[verifier::ext_equal]
pub ghost struct MachineState {
    pub ram: Seq<u8>,
    pub regs: Seq<u8>,
    pub gfx: Seq<u8>,
    pub keypad: Seq<u8>,
    pub stack: Seq<u16>,
    pub pc: u16,
    pub index: u16,
    pub delay_timer: u8,
    pub sound_timer: u8,
    pub awaiting: Option<u8>,
}

impl MachineState {
    /// Structural well-formedness: the storage has its fixed dimensions, the
    /// call stack respects its capacity and only holds addresses from which a
    /// two-byte fetch succeeded, pixels are one bit each, and a pending
    /// key-wait names a real register.
    pub open spec fn wf(self) -> bool {
        &&& self.ram.len() == 4096
        &&& self.regs.len() == 16
        &&& self.gfx.len() == 2048
        &&& self.keypad.len() == 16
        &&& self.stack.len() <= 16
        &&& (forall|i: int| 0 <= i < self.stack.len() ==> #[trigger] self.stack[i] <= 4094)
        &&& (forall|i: int| 0 <= i < self.gfx.len() ==> #[trigger] self.gfx[i] <= 1)
        &&& match self.awaiting {
            Some(x) => x < 16,
            None => true,
        }
    }

    /// The state a machine starts in: everything zeroed, nothing on the
    /// stack, no suspended key-wait.
    pub open spec fn initial() -> MachineState {
        MachineState {
            ram: Seq::new(4096, |i: int| 0u8),
            regs: Seq::new(16, |i: int| 0u8),
            gfx: Seq::new(2048, |i: int| 0u8),
            keypad: Seq::new(16, |i: int| 0u8),
            stack: Seq::empty(),
            pc: 0,
            index: 0,
            delay_timer: 0,
            sound_timer: 0,
            awaiting: None,
        }
    }
}

/// `ram` with the range starting at `addr` overwritten by `bytes`; every
/// other address keeps its old value.
pub open spec fn ram_written(ram: Seq<u8>, bytes: Seq<u8>, addr: int) -> Seq<u8> {
    Seq::new(ram.len(), |j: int|
        if addr <= j < addr + bytes.len() {
            bytes[j - addr]
        } else {
            ram[j]
        })
}

/// Registers V0..=Vx replaced by memory starting at `addr`; the higher
/// registers keep their old values.
pub open spec fn regs_filled(regs: Seq<u8>, ram: Seq<u8>, addr: int, x: int) -> Seq<u8> {
    Seq::new(16, |j: int|
        if j <= x {
            ram[addr + j]
        } else {
            regs[j]
        })
}

} // verus!
