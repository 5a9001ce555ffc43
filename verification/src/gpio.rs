//! Tokens for the pins the converter can drive.

use core::marker::PhantomData;
use vstd::prelude::*;

verus! {

/// Pin mode: analog, high impedance.
pub struct Analog {}

/// Pin 4 of port A, in mode `MODE`.
pub struct PA4<MODE> {
    _mode: PhantomData<MODE>,
}

/// Pin 5 of port A, in mode `MODE`.
pub struct PA5<MODE> {
    _mode: PhantomData<MODE>,
}

impl PA4<Analog> {
    /// The pin, once it has been placed in analog mode.
    pub fn new() -> (res: Self) {
        PA4 { _mode: PhantomData }
    }
}

impl PA5<Analog> {
    /// The pin, once it has been placed in analog mode.
    pub fn new() -> (res: Self) {
        PA5 { _mode: PhantomData }
    }
}

} // verus!
