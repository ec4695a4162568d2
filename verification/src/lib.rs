//! Cycle-counted emulation core for a classic 8-bit home console:
//! a 6502-style CPU interpreter, the shared address bus, the cartridge
//! store, video memory with nametable mirroring, the picture processing
//! unit, and the controller shift registers.

pub mod instruction;
pub mod cpu;
pub mod pad;
pub mod ppu;
pub mod rom;
pub mod system;
pub mod video;

use vstd::prelude::*;

verus! {

/// A byte buffer of the given length with every cell zero: the power-on
/// state of each fixed-size hardware memory region.
pub fn zero_filled(n: usize) -> (result: Vec<u8>)
    ensures
        result@.len() == n,
        forall|i: int| 0 <= i < n ==> result@[i] == 0u8,
{
    let mut buf: Vec<u8> = Vec::new();
    let mut k: usize = 0;
    while k < n
        invariant
            k <= n,
            buf@.len() == k,
            forall|i: int| 0 <= i < k ==> buf@[i] == 0u8,
        decreases n - k,
    {
        buf.push(0u8);
        k = k + 1;
    }
    buf
}

} // verus!
