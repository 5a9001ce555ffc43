//! The registers the driver programs, and read-modify-write accesses to them.

use vstd::prelude::*;

verus! {

/// Clock-control bit of the converter, at the same position in the
/// peripheral-enable and the peripheral-reset register.
pub const APB1_DAC1: u32 = 0x2000_0000;

/// Channel 1 output stage enable.
pub const CR_EN1: u32 = 0x0000_0001;

/// Channel 1 output buffer off.
pub const CR_BOFF1: u32 = 0x0000_0002;

/// Channel 1 external trigger enable.
pub const CR_TEN1: u32 = 0x0000_0004;

/// Channel 2 output stage enable.
pub const CR_EN2: u32 = 0x0001_0000;

/// Channel 2 output buffer off.
pub const CR_BOFF2: u32 = 0x0002_0000;

/// Channel 2 external trigger enable.
pub const CR_TEN2: u32 = 0x0004_0000;

/// The right-aligned 12-bit output field of a data-holding register.
pub const DHR_FIELD: u32 = 0x0000_0FFF;

/// A register the driver touches.
#[derive(Debug, Clone, Copy, PartialEq, Eq, Structural)]
pub enum Register {
    /// Clock control: peripheral clock enable.
    Apb1Enr,
    /// Clock control: peripheral reset.
    Apb1Rstr,
    /// Converter: control register of both channels.
    Cr,
    /// Converter: channel 1 data-holding register, 12 bits right-aligned.
    Dhr12r1,
    /// Converter: channel 2 data-holding register, 12 bits right-aligned.
    Dhr12r2,
}

/// One read-modify-write of a register: the bits in `clear` are cleared,
/// then the bits in `set` are set; every other bit keeps its value.
#[derive(Debug, Clone, Copy, PartialEq, Eq, Structural)]
pub struct Modify {
    pub register: Register,
    pub clear: u32,
    pub set: u32,
}

impl Modify {
    /// The word that the access leaves in a register that held `word`.
    pub open spec fn applied(self, word: u32) -> u32 {
        (word & !self.clear) | self.set
    }

    /// Computes the word to write back for a register that read as `word`.
    pub fn apply(&self, word: u32) -> (res: u32)
        ensures
            res == self.applied(word),
    {
        (word & !self.clear) | self.set
    }
}

/// The converter. Whoever holds this token is the one entitled to program
/// the converter's registers.
pub struct DAC1 {
    _claimed: (),
}

impl DAC1 {
    /// Claims the converter.
    pub fn new() -> (res: Self) {
        DAC1 { _claimed: () }
    }
}

/// The state of the clock-control and converter registers, together with
/// the accesses that were made to them. The driver's handles hold no
/// registers themselves: each operation is handed the registers it is to
/// program.
pub struct Registers {
    apb1enr: u32,
    apb1rstr: u32,
    cr: u32,
    dhr12r1: u32,
    dhr12r2: u32,
    history: Ghost<Seq<Modify>>,
}

impl Registers {
    /// The word a register holds.
    pub closed spec fn word(&self, register: Register) -> u32 {
        match register {
            Register::Apb1Enr => self.apb1enr,
            Register::Apb1Rstr => self.apb1rstr,
            Register::Cr => self.cr,
            Register::Dhr12r1 => self.dhr12r1,
            Register::Dhr12r2 => self.dhr12r2,
        }
    }

    /// Every access made so far, oldest first.
    pub closed spec fn history(&self) -> Seq<Modify> {
        self.history@
    }

    /// The registers with every word zero and no access made.
    pub fn new() -> (res: Self)
        ensures
            forall|register: Register| res.word(register) == 0,
            res.history() == Seq::<Modify>::empty(),
    {
        Registers {
            apb1enr: 0,
            apb1rstr: 0,
            cr: 0,
            dhr12r1: 0,
            dhr12r2: 0,
            history: Ghost(Seq::empty()),
        }
    }

    /// Reads a register.
    pub fn read(&self, register: Register) -> (res: u32)
        ensures
            res == self.word(register),
    {
        match register {
            Register::Apb1Enr => self.apb1enr,
            Register::Apb1Rstr => self.apb1rstr,
            Register::Cr => self.cr,
            Register::Dhr12r1 => self.dhr12r1,
            Register::Dhr12r2 => self.dhr12r2,
        }
    }

    /// Performs one read-modify-write. Only the addressed register changes.
    pub fn modify(&mut self, op: Modify)
        ensures
            forall|register: Register|
                final(self).word(register) == if register == op.register {
                    op.applied(old(self).word(register))
                } else {
                    old(self).word(register)
                },
            final(self).history() == old(self).history().push(op),
    {
        match op.register {
            Register::Apb1Enr => {
                self.apb1enr = op.apply(self.apb1enr);
            },
            Register::Apb1Rstr => {
                self.apb1rstr = op.apply(self.apb1rstr);
            },
            Register::Cr => {
                self.cr = op.apply(self.cr);
            },
            Register::Dhr12r1 => {
                self.dhr12r1 = op.apply(self.dhr12r1);
            },
            Register::Dhr12r2 => {
                self.dhr12r2 = op.apply(self.dhr12r2);
            },
        }
        proof {
            self.history@ = self.history@.push(op);
        }
    }
}

} // verus!
