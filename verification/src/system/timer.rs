//! The timer peripheral: a free-running divider and a counter with a
//! selectable rate that reloads from a modulo register when it overflows.

use vstd::prelude::*;

verus! {

/// The number of cycles between two increments of the counter register that
/// the two low bits of the control register select.
pub open spec fn rate_cycles(tac: u8) -> u16 {
    let rate = tac & 0x3;
    if rate == 0x1 {
        16
    } else if rate == 0x2 {
        64
    } else if rate == 0x3 {
        256
    } else {
        1024
    }
}

/// What a timer holds: two internal cycle counts, the threshold that the
/// control register selected, and the four memory-mapped registers.
pub struct TimerView {
    /// Cycles counted towards the next increment of the counter register.
    pub counter: u16,
    /// The count at which the counter register is incremented.
    pub threshold: u16,
    /// Cycles counted towards the next increment of the divider register.
    pub divider_counter: u8,
    pub div: u8,
    pub tima: u8,
    pub tma: u8,
    pub tac: u8,
}

impl TimerView {
    /// The state of a new timer.
    pub open spec fn initial() -> TimerView {
        TimerView { counter: 0, threshold: 1024, divider_counter: 0, div: 0, tima: 0, tma: 0, tac: 0 }
    }

    /// The threshold is the one that the control register selects, and the
    /// control register holds three bits.
    pub open spec fn wf(&self) -> bool {
        &&& self.threshold == rate_cycles(self.tac)
        &&& self.tac & 0x7 == self.tac
    }

    /// Bit 2 of the control register switches the counter on.
    pub open spec fn enabled(&self) -> bool {
        self.tac & 0x4 > 0
    }

    /// The divider after `cycles` more cycles. When the running total of
    /// its cycle count reaches or exceeds 255, the count restarts and the
    /// divider register goes up by one, wrapping.
    pub open spec fn tick_divider(self, cycles: u8) -> TimerView {
        let total = self.divider_counter as int + cycles as int;
        if total >= 255 {
            TimerView { divider_counter: 0, div: ((self.div as int + 1) % 256) as u8, ..self }
        } else {
            TimerView { divider_counter: total as u8, ..self }
        }
    }

    /// The counter register is about to overflow.
    pub open spec fn at_limit(&self) -> bool {
        self.tima == 0xFF
    }

    /// The counter register after one increment: at 0xFF it reloads from the
    /// modulo register.
    pub open spec fn tick_counter(self) -> TimerView {
        if self.at_limit() {
            TimerView { tima: self.tma, ..self }
        } else {
            TimerView { tima: (self.tima + 1) as u8, ..self }
        }
    }

    /// The running total of the counter's cycle count after `cycles` more
    /// cycles, before it is compared with the threshold.
    pub open spec fn counted(&self, cycles: u8) -> int {
        self.counter as int + cycles as int
    }

    /// Whether `cycles` more cycles increment the counter register.
    pub open spec fn reaches_threshold(&self, cycles: u8) -> bool {
        self.enabled() && self.counted(cycles) >= self.threshold
    }

    /// Whether `cycles` more cycles make the counter register overflow, which
    /// is when the timer asks for an interrupt.
    pub open spec fn overflows(&self, cycles: u8) -> bool {
        self.reaches_threshold(cycles) && self.at_limit()
    }

    /// The timer after `cycles` more cycles.
    pub open spec fn advance(self, cycles: u8) -> TimerView {
        let ticked = self.tick_divider(cycles);
        if self.reaches_threshold(cycles) {
            (TimerView { counter: 0, ..ticked }).tick_counter()
        } else if self.enabled() {
            TimerView { counter: self.counted(cycles) as u16, ..ticked }
        } else {
            ticked
        }
    }

    /// The timer after a write to the divider register: any value resets it.
    pub open spec fn with_div_reset(self) -> TimerView {
        TimerView { div: 0, ..self }
    }

    pub open spec fn with_tima(self, val: u8) -> TimerView {
        TimerView { tima: val, ..self }
    }

    pub open spec fn with_tma(self, val: u8) -> TimerView {
        TimerView { tma: val, ..self }
    }

    /// The timer after a write to the control register: three bits are kept
    /// and the threshold follows the new rate at once.
    pub open spec fn with_tac(self, val: u8) -> TimerView {
        TimerView { tac: val & 0x7, threshold: rate_cycles(val & 0x7), ..self }
    }

    /// Advancing a well-formed timer leaves it well-formed, and so does
    /// every register write.
    pub proof fn lemma_wf_preserved(self, cycles: u8, val: u8)
        requires
            self.wf(),
        ensures
            self.advance(cycles).wf(),
            self.with_div_reset().wf(),
            self.with_tima(val).wf(),
            self.with_tma(val).wf(),
            self.with_tac(val).wf(),
    {
        assert((val & 0x7) & 0x7 == val & 0x7) by (bit_vector);
    }

    /// A new timer is well-formed: rate 0 selects 1024 cycles.
    pub proof fn lemma_initial_wf()
        ensures
            TimerView::initial().wf(),
    {
        assert(0u8 & 0x7 == 0 && 0u8 & 0x3 == 0) by (bit_vector);
    }

    /// A timer asks for an interrupt only when its counter register stood at
    /// 0xFF and was incremented; the register then holds the modulo value.
    /// Every other increment adds one and asks for nothing.
    pub proof fn lemma_interrupt_only_on_overflow(self, cycles: u8)
        ensures
            self.overflows(cycles) ==> self.tima == 0xFF && self.advance(cycles).tima == self.tma,
            self.reaches_threshold(cycles) && !self.overflows(cycles) ==> self.advance(cycles).tima
                == self.tima + 1,
            !self.reaches_threshold(cycles) ==> self.advance(cycles).tima == self.tima,
    {
    }
}

pub struct Timer {
    // internal values
    timer_counter: u16,
    timer_cycles: u16,
    divider_counter: u8,
    // memory mapped values
    r_DIV: u8,
    r_TIMA: u8,
    r_TMA: u8,
    r_TAC: u8,
}

impl View for Timer {
    type V = TimerView;

    closed spec fn view(&self) -> TimerView {
        TimerView {
            counter: self.timer_counter,
            threshold: self.timer_cycles,
            divider_counter: self.divider_counter,
            div: self.r_DIV,
            tima: self.r_TIMA,
            tma: self.r_TMA,
            tac: self.r_TAC,
        }
    }
}

impl Timer {
    pub fn new() -> (r: Timer)
        ensures
            r@ == TimerView::initial(),
            r@.wf(),
    {
        proof {
            TimerView::lemma_initial_wf();
        }
        Timer {
            timer_counter: 0,
            divider_counter: 0,
            timer_cycles: 1024,
            r_DIV: 0,
            r_TIMA: 0,
            r_TMA: 0,
            r_TAC: 0,
        }
    }

    /// Derives the threshold from the rate bits of the control register.
    fn timer_control(&mut self)
        ensures
            final(self)@ == (TimerView { threshold: rate_cycles(old(self)@.tac), ..old(self)@ }),
    {
        let tac = self.r_TAC;
        let byte = tac & 0x3;
        assert(byte <= 3) by (bit_vector)
            requires
                byte == tac & 0x3,
        ;
        self.timer_cycles =
        match byte {
            0x0 => 1024,
            0x1 => 16,
            0x2 => 64,
            0x3 => 256,
            _ => 1024,
        };
    }

    /// Advances the timer by `cycles` cycles. The result says whether the
    /// counter register overflowed, which is when a timer interrupt is due.
    pub fn update_timestep(&mut self, cycles: u8) -> (r: bool)
        ensures
            final(self)@ == old(self)@.advance(cycles),
            r == old(self)@.overflows(cycles),
            old(self)@.wf() ==> final(self)@.wf(),
    {
        proof {
            if old(self)@.wf() {
                old(self)@.lemma_wf_preserved(cycles, 0);
            }
        }
        self.divider_inc(cycles);
        if self.timer_enabled() {
            let total: u32 = self.timer_counter as u32 + cycles as u32;
            if total >= self.timer_cycles as u32 {
                self.timer_counter = 0;
                return self.timer_inc();
            }
            self.timer_counter = total as u16;
        }
        false
    }

    /// Increments the counter register; true when it overflowed and was
    /// reloaded from the modulo register.
    fn timer_inc(&mut self) -> (r: bool)
        ensures
            final(self)@ == old(self)@.tick_counter(),
            r == old(self)@.at_limit(),
    {
        if self.r_TIMA == 0xFF {
            self.r_TIMA = self.r_TMA;
            return true;
        } else {
            self.r_TIMA = self.r_TIMA.wrapping_add(1);
        }
        false
    }

    fn divider_inc(&mut self, cycles: u8)
        ensures
            final(self)@ == old(self)@.tick_divider(cycles),
    {
        let total: u16 = self.divider_counter as u16 + cycles as u16;
        if total >= 255 {
            self.divider_counter = 0;
            self.r_DIV = self.r_DIV.wrapping_add(1);
        } else {
            self.divider_counter = total as u8;
        }
    }

    pub fn timer_enabled(&self) -> (r: bool)
        ensures
            r == self@.enabled(),
    {
        self.r_TAC & 0x4 > 0
    }

    pub fn reset_DIV(&mut self)
        ensures
            final(self)@ == old(self)@.with_div_reset(),
            old(self)@.wf() ==> final(self)@.wf(),
    {
        self.r_DIV = 0;
    }

    pub fn get_DIV(&self) -> (r: u8)
        ensures
            r == self@.div,
    {
        self.r_DIV
    }

    pub fn set_TIMA(&mut self, val: u8)
        ensures
            final(self)@ == old(self)@.with_tima(val),
            old(self)@.wf() ==> final(self)@.wf(),
    {
        self.r_TIMA = val;
    }

    pub fn get_TIMA(&self) -> (r: u8)
        ensures
            r == self@.tima,
    {
        self.r_TIMA
    }

    pub fn set_TMA(&mut self, val: u8)
        ensures
            final(self)@ == old(self)@.with_tma(val),
            old(self)@.wf() ==> final(self)@.wf(),
    {
        self.r_TMA = val;
    }

    pub fn get_TMA(&self) -> (r: u8)
        ensures
            r == self@.tma,
    {
        self.r_TMA
    }

    /// The three bits of the control register.
    pub fn get_TAC(&self) -> (r: u8)
        ensures
            r == self@.tac & 0x7,
            self@.wf() ==> r == self@.tac,
    {
        let tac = self.r_TAC;
        assert(0x7 & tac == tac & 0x7) by (bit_vector);
        return 0x7 & tac;
    }

    pub fn set_TAC(&mut self, val: u8)
        ensures
            final(self)@ == old(self)@.with_tac(val),
            final(self)@.wf(),
    {
        proof {
            assert((val & 0x7) & 0x7 == val & 0x7) by (bit_vector);
        }
        self.r_TAC = val & 0x7;
        self.timer_control();
    }
}

} // verus!
