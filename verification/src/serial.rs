use vstd::prelude::*;

verus! {

/// The serial port's two registers and its interrupt flag.
pub struct Serial {
    data: u8,
    control: u8,
    pub interrupt: u8,
}

impl Serial {
    /// The transfer data register (0xFF01).
    pub closed spec fn data_reg(&self) -> u8 {
        self.data
    }

    /// The interrupt flag.
    pub closed spec fn interrupt_flag(&self) -> u8 {
        self.interrupt
    }

    /// The transfer control register (0xFF02).
    pub closed spec fn control_reg(&self) -> u8 {
        self.control
    }

    /// The register at `a`, as `rb` reads it: the data register at 0xFF01,
    /// the control register at 0xFF02.
    pub open spec fn register(&self, a: u16) -> u8 {
        if a == 0xFF01 {
            self.data_reg()
        } else {
            self.control_reg()
        }
    }

    /// A register reads back what was last written to it, and writing one
    /// register leaves the other as it was: `after` is `before` with `v`
    /// written at `a`, as `wb` leaves it.
    pub proof fn lemma_write_then_read(before: Serial, after: Serial, a: u16, v: u8, b: u16)
        requires
            a == 0xFF01 || a == 0xFF02,
            b == 0xFF01 || b == 0xFF02,
            after.data_reg() == if a == 0xFF01 { v } else { before.data_reg() },
            after.control_reg() == if a == 0xFF02 { v } else { before.control_reg() },
        ensures
            after.register(b) == if b == a { v } else { before.register(b) },
    {
    }

    pub fn new() -> (res: Serial)
        ensures
            res.data_reg() == 0,
            res.control_reg() == 0,
            res.interrupt_flag() == 0,
    {
        Serial { data: 0, control: 0, interrupt: 0 }
    }

    /// Writes one of the two registers; nothing is sent anywhere.
    pub fn wb(&mut self, a: u16, v: u8)
        requires
            a == 0xFF01 || a == 0xFF02,
        ensures
            final(self).data_reg() == if a == 0xFF01 { v } else { old(self).data_reg() },
            final(self).control_reg() == if a == 0xFF02 { v } else { old(self).control_reg() },
            final(self).interrupt_flag() == old(self).interrupt_flag(),
    {
        if a == 0xFF01 {
            self.data = v;
        } else {
            self.control = v;
        }
    }

    /// Reads one of the two registers.
    pub fn rb(&self, a: u16) -> (res: u8)
        requires
            a == 0xFF01 || a == 0xFF02,
        ensures
            res == self.register(a),
    {
        if a == 0xFF01 {
            self.data
        } else {
            self.control
        }
    }
}

} // verus!
