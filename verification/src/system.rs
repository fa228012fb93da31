//! The emulated machine: an execution engine and the memory it drives.

pub mod cpu;
pub mod memory;
pub mod timer;

use vstd::prelude::*;
use crate::system::cpu::CPU;
use crate::system::cpu::machine::Machine;
use crate::system::memory::Memory;
use crate::system::memory::MemoryView;

verus! {

/// A system: the state of all flags, registers and memory.
pub struct System {
    memory: Memory,
    cpu: CPU,
}

/// The program that is connected to a system. At most 32 KiB.
pub struct Cartridge {}

impl System {
    /// The engine of this system together with what its memory holds.
    pub closed spec fn machine(&self) -> Machine {
        self.cpu.machine(self.memory@)
    }

    /// A system at power-on: a new engine and a zeroed memory.
    pub fn new() -> (r: System)
        ensures
            r.machine() == CPU::initial().machine(MemoryView::initial()),
    {
        let cpu = CPU::new();
        let memory = Memory::new();
        System { memory, cpu }
    }
}

} // verus!
