//! The addressable memory: 64 KiB of byte cells, with the four timer
//! registers mapped over their addresses and the two interrupt bytes.

use vstd::prelude::*;
use crate::system::cpu::regfile::pair;
use crate::system::timer::Timer;
use crate::system::timer::TimerView;

verus! {

/// The number of addressable cells.
pub const MEMORY_SIZE: usize = 0x10000;

/// Address of the divider register.
pub const DIV_ADDR: u16 = 0xFF04;

/// Address of the timer counter register.
pub const TIMA_ADDR: u16 = 0xFF05;

/// Address of the timer modulo register.
pub const TMA_ADDR: u16 = 0xFF06;

/// Address of the timer control register.
pub const TAC_ADDR: u16 = 0xFF07;

/// Address of the interrupt request byte.
pub const INTERRUPT_FLAGS_ADDR: u16 = 0xFF0F;

/// Address of the interrupt enable mask.
pub const INTERRUPT_ENABLE_ADDR: u16 = 0xFFFF;

/// Whether `addr` is one of the four timer registers.
pub open spec fn is_timer_register(addr: u16) -> bool {
    DIV_ADDR <= addr <= TAC_ADDR
}

/// The five interrupt sources, each true when it is both enabled and
/// requested.
#[derive(Clone, Copy, Debug, PartialEq, Eq, Structural)]
pub struct Interrupts {
    pub vblank: bool,
    pub lcd: bool,
    pub timer: bool,
    pub serial: bool,
    pub joypad: bool,
}

/// What a memory holds: its cells and the state of its timer.
pub struct MemoryView {
    pub cells: Seq<u8>,
    pub timer: TimerView,
}

impl MemoryView {
    /// There is one cell for each 16-bit address.
    pub open spec fn wf(&self) -> bool {
        self.cells.len() == MEMORY_SIZE
    }

    /// The state of a new memory: every cell zero, and a new timer.
    pub open spec fn initial() -> MemoryView {
        MemoryView { cells: Seq::new(MEMORY_SIZE as nat, |i: int| 0u8), timer: TimerView::initial() }
    }

    /// The byte that a read of `addr` gives: a timer register at the four
    /// timer addresses, the stored cell everywhere else.
    pub open spec fn read(&self, addr: u16) -> u8 {
        if addr == DIV_ADDR {
            self.timer.div
        } else if addr == TIMA_ADDR {
            self.timer.tima
        } else if addr == TMA_ADDR {
            self.timer.tma
        } else if addr == TAC_ADDR {
            self.timer.tac & 0x7
        } else {
            self.cells[addr as int]
        }
    }

    /// The memory after a write of `byte` to `addr`. A write to the divider
    /// resets it whatever the byte; the other timer addresses set their
    /// register; every other address stores the byte.
    pub open spec fn write(self, addr: u16, byte: u8) -> MemoryView {
        if addr == DIV_ADDR {
            MemoryView { timer: self.timer.with_div_reset(), ..self }
        } else if addr == TIMA_ADDR {
            MemoryView { timer: self.timer.with_tima(byte), ..self }
        } else if addr == TMA_ADDR {
            MemoryView { timer: self.timer.with_tma(byte), ..self }
        } else if addr == TAC_ADDR {
            MemoryView { timer: self.timer.with_tac(byte), ..self }
        } else {
            MemoryView { cells: self.cells.update(addr as int, byte), ..self }
        }
    }

    /// The address `offset` cells after `addr`, wrapping at the end of the
    /// address space.
    pub open spec fn offset(addr: u16, offset: int) -> u16 {
        ((addr as int + offset) % 0x10000) as u16
    }

    /// The 16-bit operand stored in the two cells after `addr`: the first
    /// of them is its high byte.
    pub open spec fn next_word(&self, addr: u16) -> u16 {
        pair(self.cells[MemoryView::offset(addr, 1) as int], self.cells[MemoryView::offset(addr, 2) as int])
    }

    /// The interrupt enable mask.
    pub open spec fn enabled(&self) -> u8 {
        self.cells[INTERRUPT_ENABLE_ADDR as int]
    }

    /// The interrupt request byte.
    pub open spec fn requested(&self) -> u8 {
        self.cells[INTERRUPT_FLAGS_ADDR as int]
    }

    /// The interrupt sources that are both enabled and requested.
    pub open spec fn interrupts(&self) -> Interrupts {
        let pending = self.enabled() & self.requested();
        Interrupts {
            vblank: pending & 0x01 != 0,
            lcd: pending & 0x02 != 0,
            timer: pending & 0x04 != 0,
            serial: pending & 0x08 != 0,
            joypad: pending & 0x10 != 0,
        }
    }

    /// The memory with the request byte zeroed.
    pub open spec fn clear_requests(self) -> MemoryView {
        MemoryView { cells: self.cells.update(INTERRUPT_FLAGS_ADDR as int, 0u8), ..self }
    }

    /// The memory after `cycles` more cycles: the timer advances, and when
    /// it overflows its bit is set in the request byte.
    pub open spec fn report_cycles(self, cycles: u8) -> MemoryView {
        let timer = self.timer.advance(cycles);
        if self.timer.overflows(cycles) {
            MemoryView { cells: self.cells.update(INTERRUPT_FLAGS_ADDR as int, self.requested() | 0x04), timer }
        } else {
            MemoryView { timer, ..self }
        }
    }

    /// Every operation keeps one cell per address.
    pub proof fn lemma_wf_preserved(self, addr: u16, byte: u8)
        requires
            self.wf(),
        ensures
            self.write(addr, byte).wf(),
            self.clear_requests().wf(),
            self.report_cycles(byte).wf(),
    {
    }

    /// A plain cell reads back what was last written to it, and a write
    /// leaves every other plain cell as it was.
    pub proof fn lemma_read_after_write(self, addr: u16, byte: u8, other: u16)
        requires
            self.wf(),
            !is_timer_register(addr),
        ensures
            self.write(addr, byte).read(addr) == byte,
            self.write(addr, byte).timer == self.timer,
            other != addr ==> self.write(addr, byte).read(other) == self.read(other),
    {
    }

    /// The four timer addresses are never plain storage: a write there
    /// leaves every cell as it was, and a read there does not depend on the
    /// cells.
    pub proof fn lemma_timer_registers_are_mapped(self, addr: u16, byte: u8, cells: Seq<u8>)
        requires
            is_timer_register(addr),
        ensures
            self.write(addr, byte).cells == self.cells,
            (MemoryView { cells, ..self }).read(addr) == self.read(addr),
    {
    }

    /// Clearing the requests leaves no interrupt pending.
    pub proof fn lemma_clear_requests(self)
        requires
            self.wf(),
        ensures
            self.clear_requests().requested() == 0,
            self.clear_requests().interrupts() == (Interrupts {
                vblank: false,
                lcd: false,
                timer: false,
                serial: false,
                joypad: false,
            }),
    {
        let e = self.enabled();
        assert((e & 0u8) & 0x01 == 0 && (e & 0u8) & 0x02 == 0 && (e & 0u8) & 0x04 == 0 && (e & 0u8) & 0x08 == 0
            && (e & 0u8) & 0x10 == 0) by (bit_vector);
    }
}

pub struct Memory {
    memory: [u8; 0x10000],
    // devices mapped to memory addresses
    pub timer: Timer,
}

impl View for Memory {
    type V = MemoryView;

    closed spec fn view(&self) -> MemoryView {
        MemoryView { cells: self.memory@, timer: self.timer@ }
    }
}

impl Memory {
    /// A memory has one cell for each 16-bit address.
    pub proof fn lemma_wf(&self)
        ensures
            self@.wf(),
    {
    }

    pub fn new() -> (r: Memory)
        ensures
            r@ == MemoryView::initial(),
            r@.wf(),
            r@.timer.wf(),
    {
        let r = Memory { memory: [0 as u8;0x10000], timer: Timer::new() };
        assert(r.memory@ =~= MemoryView::initial().cells);
        r
    }

    pub fn read_byte(&self, addr: u16) -> (r: u8)
        ensures
            r == self@.read(addr),
    {
        match addr {
            // Timer Registers
            0xFF04 => self.timer.get_DIV(),
            0xFF05 => self.timer.get_TIMA(),
            0xFF06 => self.timer.get_TMA(),
            0xFF07 => self.timer.get_TAC(),
            // normal unmapped address
            _ => self.memory[addr as usize],
        }
    }

    /// Reads the 16-bit operand of the instruction at `addr` from the two
    /// cells that follow it.
    pub fn read_next_word(&self, addr: u16) -> (r: u16)
        ensures
            r == self@.next_word(addr),
    {
        let least_significant_byte = self.memory[addr.wrapping_add(2) as usize] as u16;
        let most_significant_byte = self.memory[addr.wrapping_add(1) as usize] as u16;
        assert((most_significant_byte << 8) | least_significant_byte == most_significant_byte * 256
            + least_significant_byte) by (bit_vector)
            requires
                most_significant_byte < 256,
                least_significant_byte < 256,
        ;
        (most_significant_byte << 8) | least_significant_byte
    }

    pub fn write_byte(&mut self, addr: u16, byte: u8)
        ensures
            final(self)@ == old(self)@.write(addr, byte),
            final(self)@.wf(),
            old(self)@.timer.wf() ==> final(self)@.timer.wf(),
    {
        proof {
            if old(self)@.timer.wf() {
                old(self)@.timer.lemma_wf_preserved(0, byte);
            }
        }
        match addr {
            // Timer Registers
            0xFF04 => self.timer.reset_DIV(),
            0xFF05 => self.timer.set_TIMA(byte),
            0xFF06 => self.timer.set_TMA(byte),
            0xFF07 => self.timer.set_TAC(byte),
            // normal unmapped address
            _ => {
                self.memory[addr as usize] = byte;
            },
        }
    }

    /// The interrupt sources that are both enabled and requested.
    pub fn get_interrupts(&self) -> (r: Interrupts)
        ensures
            r == self@.interrupts(),
    {
        let enable = self.memory[0xFFFF];
        let flags = self.memory[0xFF0F];
        assert({
            &&& ((enable & 0x1) & (flags & 0x1)) == (enable & flags) & 0x01
            &&& ((enable & 0x2) & (flags & 0x2)) == (enable & flags) & 0x02
            &&& ((enable & 0x4) & (flags & 0x4)) == (enable & flags) & 0x04
            &&& ((enable & 0x8) & (flags & 0x8)) == (enable & flags) & 0x08
            &&& ((enable & 0x10) & (flags & 0x10)) == (enable & flags) & 0x10
        }) by (bit_vector);
        let vblank = ((enable & 0x1) & (flags & 0x1)) > 0;
        let lcd = ((enable & 0x2) & (flags & 0x2)) > 0;
        let timer = ((enable & 0x4) & (flags & 0x4)) > 0;
        let serial = ((enable & 0x8) & (flags & 0x8)) > 0;
        let joypad = ((enable & 0x10) & (flags & 0x10)) > 0;
        Interrupts { vblank, lcd, timer, serial, joypad }
    }

    /// Zeroes the interrupt request byte.
    pub fn clear_interrupts(&mut self)
        ensures
            final(self)@ == old(self)@.clear_requests(),
            final(self)@.wf(),
    {
        self.memory[0xFF0F] = 0;
    }

    /// Reports `cycles` elapsed cycles to the timer and records the
    /// interrupt request that it may raise.
    pub fn update_cycle(&mut self, cycles: u8)
        ensures
            final(self)@ == old(self)@.report_cycles(cycles),
            final(self)@.wf(),
            old(self)@.timer.wf() ==> final(self)@.timer.wf(),
    {
        let timer = self.timer.update_timestep(cycles);
        if timer {
            let flags = self.memory[0xFF0F];
            self.memory[0xFF0F] = flags | 0x04;
        }
    }
}

} // verus!
