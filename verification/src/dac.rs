//! The converter driver: pin bindings, the combined handle and the
//! independent per-channel handles.

use crate::gpio::{Analog, PA4, PA5};
use crate::registers::{
    Modify, Register, Registers, APB1_DAC1, CR_BOFF1, CR_BOFF2, CR_EN1, CR_EN2, CR_TEN1, CR_TEN2,
    DAC1, DHR_FIELD,
};
use core::marker::PhantomData;
use vstd::prelude::*;

verus! {

/// Pins that may drive channel 1 of the converter `DAC`.
///
/// An impl asserts that the pin is wired to that output; nothing checks it.
pub trait Ch1OutPin<DAC> {

}

/// Pins that may drive channel 2 of the converter `DAC`.
///
/// An impl asserts that the pin is wired to that output; nothing checks it.
pub trait Ch2OutPin<DAC> {

}

impl Ch1OutPin<DAC1> for PA4<Analog> {

}

impl Ch2OutPin<DAC1> for PA5<Analog> {

}

/// One of the converter's two channels.
#[derive(Debug, Copy, Clone, PartialEq, Eq, Structural)]
pub enum Channel {
    One,
    Two,
}

impl Channel {
    /// The channel that is not this one.
    pub open spec fn other(self) -> Channel {
        match self {
            Channel::One => Channel::Two,
            Channel::Two => Channel::One,
        }
    }

    /// The data-holding register of this channel.
    pub open spec fn data_register(self) -> Register {
        match self {
            Channel::One => Register::Dhr12r1,
            Channel::Two => Register::Dhr12r2,
        }
    }
}

/// The access that programs `val` as the output level of `ch`: the low
/// 12 bits of `val` replace the output field of the channel's data-holding
/// register, and the bits of `val` above them are dropped.
pub open spec fn value_write_spec(ch: Channel, val: u16) -> Modify {
    Modify { register: ch.data_register(), clear: DHR_FIELD, set: (val & 0xFFF) as u32 }
}

/// Builds the access that programs `val` as the output level of `ch`.
#[verifier::when_used_as_spec(value_write_spec)]
pub fn value_write(ch: Channel, val: u16) -> (op: Modify)
    ensures
        op == value_write_spec(ch, val),
{
    let field: u16 = val & 0xFFF;
    match ch {
        Channel::One => Modify { register: Register::Dhr12r1, clear: DHR_FIELD, set: field as u32 },
        Channel::Two => Modify { register: Register::Dhr12r2, clear: DHR_FIELD, set: field as u32 },
    }
}

/// The output level a channel is programmed to: the 12-bit output field of
/// its data-holding register.
pub open spec fn value(regs: &Registers, ch: Channel) -> u16 {
    (regs.word(ch.data_register()) & DHR_FIELD) as u16
}

/// `after` is `before` with one more access, the one that programs `val`
/// on `ch`. Only the output field of that channel's data-holding register
/// differs.
pub open spec fn wrote_value(before: &Registers, after: &Registers, ch: Channel, val: u16) -> bool {
    &&& after.history() == before.history().push(value_write(ch, val))
    &&& forall|register: Register|
        after.word(register) == if register == ch.data_register() {
            (before.word(register) & !DHR_FIELD) | (val & 0xFFF) as u32
        } else {
            before.word(register)
        }
}

/// The accesses that bring the converter up, in the order in which they
/// are made: open the clock gate; assert the reset; release it; turn the
/// external trigger off and the output buffer on for both channels; enable
/// both channels.
pub open spec fn init_ops() -> Seq<Modify> {
    seq![
        Modify { register: Register::Apb1Enr, clear: 0, set: APB1_DAC1 },
        Modify { register: Register::Apb1Rstr, clear: 0, set: APB1_DAC1 },
        Modify { register: Register::Apb1Rstr, clear: APB1_DAC1, set: 0 },
        Modify { register: Register::Cr, clear: CR_TEN2 | CR_BOFF2 | CR_TEN1 | CR_BOFF1, set: 0 },
        Modify { register: Register::Cr, clear: 0, set: CR_EN2 | CR_EN1 },
    ]
}

/// Builds the accesses that bring the converter up, in order.
pub fn init_sequence() -> (ops: [Modify; 5])
    ensures
        ops@ == init_ops(),
{
    let ops: [Modify; 5] = [
        Modify { register: Register::Apb1Enr, clear: 0, set: APB1_DAC1 },
        Modify { register: Register::Apb1Rstr, clear: 0, set: APB1_DAC1 },
        Modify { register: Register::Apb1Rstr, clear: APB1_DAC1, set: 0 },
        Modify { register: Register::Cr, clear: CR_TEN2 | CR_BOFF2 | CR_TEN1 | CR_BOFF1, set: 0 },
        Modify { register: Register::Cr, clear: 0, set: CR_EN2 | CR_EN1 },
    ];
    assert(ops@ =~= init_ops());
    ops
}

/// The converter's clock gate is open.
pub open spec fn clock_enabled(regs: &Registers) -> bool {
    regs.word(Register::Apb1Enr) & APB1_DAC1 != 0
}

/// The converter is held in reset.
pub open spec fn in_reset(regs: &Registers) -> bool {
    regs.word(Register::Apb1Rstr) & APB1_DAC1 != 0
}

/// The output stage of `ch` is enabled.
pub open spec fn channel_enabled(regs: &Registers, ch: Channel) -> bool {
    match ch {
        Channel::One => regs.word(Register::Cr) & CR_EN1 != 0,
        Channel::Two => regs.word(Register::Cr) & CR_EN2 != 0,
    }
}

/// `ch` waits for an external trigger before it takes a new value.
pub open spec fn trigger_enabled(regs: &Registers, ch: Channel) -> bool {
    match ch {
        Channel::One => regs.word(Register::Cr) & CR_TEN1 != 0,
        Channel::Two => regs.word(Register::Cr) & CR_TEN2 != 0,
    }
}

/// The output of `ch` goes through its buffer.
pub open spec fn output_buffered(regs: &Registers, ch: Channel) -> bool {
    match ch {
        Channel::One => regs.word(Register::Cr) & CR_BOFF1 == 0,
        Channel::Two => regs.word(Register::Cr) & CR_BOFF2 == 0,
    }
}

/// `after` is `before` once the converter has been brought up: the
/// accesses of `init_ops` were made, in order. The clock-gate bit is set
/// and the reset bit clear; in the control register the trigger and
/// buffer-off bits of both channels are clear and both enable bits set.
/// No other bit of any register differs.
pub open spec fn initialized(before: &Registers, after: &Registers) -> bool {
    &&& after.history() == before.history() + init_ops()
    &&& after.word(Register::Apb1Enr) == before.word(Register::Apb1Enr) | APB1_DAC1
    &&& after.word(Register::Apb1Rstr) == before.word(Register::Apb1Rstr) & !APB1_DAC1
    &&& after.word(Register::Cr) == (before.word(Register::Cr) & !(CR_TEN2 | CR_BOFF2 | CR_TEN1
        | CR_BOFF1)) | (CR_EN2 | CR_EN1)
    &&& after.word(Register::Dhr12r1) == before.word(Register::Dhr12r1)
    &&& after.word(Register::Dhr12r2) == before.word(Register::Dhr12r2)
}

/// Both channels of a converter behind one handle, which owns the
/// converter and its pins. It can be used as it is, or split into one
/// handle per channel.
pub struct Dac<DAC, PINS> {
    dac: DAC,
    _pins: PINS,
}

/// One channel of an initialized converter.
pub struct DacChannel<DAC> {
    _dac: PhantomData<DAC>,
    ch: Channel,
}

impl<CH1PIN, CH2PIN> Dac<DAC1, (CH1PIN, CH2PIN)> {
    /// The converter this handle owns.
    pub closed spec fn converter(&self) -> DAC1 {
        self.dac
    }

    /// The pins this handle owns, channel one's first.
    pub closed spec fn pins(&self) -> (CH1PIN, CH2PIN) {
        self._pins
    }

    /// Takes the converter and one pin for each channel, brings the
    /// converter up and returns the handle that owns all three. This
    /// cannot fail. Afterwards both channels are enabled, buffered, and
    /// take a new value at once, without a trigger.
    pub fn dac1(dac: DAC1, pins: (CH1PIN, CH2PIN), regs: &mut Registers) -> (res: Self) where
        CH1PIN: Ch1OutPin<DAC1>,
        CH2PIN: Ch2OutPin<DAC1>,

        ensures
            res.converter() == dac,
            res.pins() == pins,
            initialized(old(regs), final(regs)),
            clock_enabled(final(regs)),
            !in_reset(final(regs)),
            forall|ch: Channel|
                channel_enabled(final(regs), ch) && !trigger_enabled(final(regs), ch)
                    && output_buffered(final(regs), ch),
            forall|ch: Channel| value(final(regs), ch) == value(old(regs), ch),
    {
        let ops: [Modify; 5] = init_sequence();
        regs.modify(ops[0]);
        regs.modify(ops[1]);
        regs.modify(ops[2]);
        regs.modify(ops[3]);
        regs.modify(ops[4]);
        proof {
            assert(regs.history() =~= old(regs).history() + init_ops());
            lemma_init_words(
                old(regs).word(Register::Apb1Enr),
                old(regs).word(Register::Apb1Rstr),
                old(regs).word(Register::Cr),
            );
            lemma_initialized(old(regs), regs);
        }
        Dac { dac, _pins: pins }
    }

    /// Programs `val` as the output level of `ch`. The low 12 bits of `val`
    /// are taken and the rest dropped; no value is refused.
    pub fn set_value(&mut self, regs: &mut Registers, ch: Channel, val: u16)
        ensures
            *final(self) == *old(self),
            wrote_value(old(regs), final(regs), ch, val),
            value(final(regs), ch) == val & 0xFFF,
            value(final(regs), ch.other()) == value(old(regs), ch.other()),
    {
        regs.modify(value_write(ch, val));
        proof {
            lemma_value_masked(old(regs), regs, ch, val);
            lemma_channels_disjoint(old(regs), regs, ch, val);
        }
    }

    /// Gives up the combined handle, and the pins with it, for one handle
    /// per channel: the first for channel one, the second for channel two.
    /// The converter is not touched.
    pub fn split(self) -> (res: (DacChannel<DAC1>, DacChannel<DAC1>))
        ensures
            res.0.channel() == Channel::One,
            res.1.channel() == Channel::Two,
    {
        (
            DacChannel { _dac: PhantomData, ch: Channel::One },
            DacChannel { _dac: PhantomData, ch: Channel::Two },
        )
    }
}

impl DacChannel<DAC1> {
    /// The channel this handle writes to.
    pub closed spec fn spec_channel(&self) -> Channel {
        self.ch
    }

    /// The channel this handle writes to.
    #[verifier::when_used_as_spec(spec_channel)]
    pub fn channel(&self) -> (ch: Channel)
        ensures
            ch == self.spec_channel(),
    {
        self.ch
    }

    /// Programs `val` as the output level of this handle's channel. The low
    /// 12 bits of `val` are taken and the rest dropped; no value is refused.
    pub fn set_value(&mut self, regs: &mut Registers, val: u16)
        ensures
            *final(self) == *old(self),
            wrote_value(old(regs), final(regs), old(self).channel(), val),
            value(final(regs), old(self).channel()) == val & 0xFFF,
            value(final(regs), old(self).channel().other()) == value(
                old(regs),
                old(self).channel().other(),
            ),
    {
        regs.modify(value_write(self.ch, val));
        proof {
            lemma_value_masked(old(regs), regs, self.ch, val);
            lemma_channels_disjoint(old(regs), regs, self.ch, val);
        }
    }
}

/// Writing a value stores its low 12 bits in the channel's output field,
/// whatever the bits above them are, and leaves the rest of the register
/// as it was: the value is masked, not clamped. Writing `val` is the same
/// as writing `val & 0xFFF`.
pub proof fn lemma_value_masked(before: &Registers, after: &Registers, ch: Channel, val: u16)
    requires
        wrote_value(before, after, ch, val),
    ensures
        value(after, ch) == val & 0xFFF,
        after.word(ch.data_register()) & !DHR_FIELD == before.word(ch.data_register())
            & !DHR_FIELD,
        wrote_value(before, after, ch, val & 0xFFF),
{
    let word: u32 = before.word(ch.data_register());
    let field: u32 = (val & 0xFFF) as u32;
    assert(((word & !0xFFFu32) | field) & 0xFFFu32 == field && ((word & !0xFFFu32) | field)
        & !0xFFFu32 == word & !0xFFFu32) by (bit_vector)
        requires
            field == (val & 0xFFF) as u32,
    ;
    assert(val & 0xFFF == (val & 0xFFF) & 0xFFF) by (bit_vector);
    lemma_high_bits_ignored(ch, val, val & 0xFFF);
}

/// Two values with the same low 12 bits are written by the same access:
/// bits 12 to 15 of a value have no effect.
pub proof fn lemma_high_bits_ignored(ch: Channel, a: u16, b: u16)
    requires
        a & 0xFFF == b & 0xFFF,
    ensures
        value_write(ch, a) == value_write(ch, b),
        forall|before: &Registers, after: &Registers|
            wrote_value(before, after, ch, a) <==> wrote_value(before, after, ch, b),
{
}

/// The two channels have separate data-holding registers: writing a value
/// to one channel leaves the output level of the other as it was.
pub proof fn lemma_channels_disjoint(before: &Registers, after: &Registers, ch: Channel, val: u16)
    requires
        wrote_value(before, after, ch, val),
    ensures
        ch.data_register() != ch.other().data_register(),
        value(after, ch.other()) == value(before, ch.other()),
        forall|register: Register|
            register != ch.data_register() ==> after.word(register) == before.word(register),
{
}

/// What the accesses of `init_ops`, made in order, leave in the three
/// registers they address, for the words `enr`, `rstr` and `cr` held before.
proof fn lemma_init_words(enr: u32, rstr: u32, cr: u32)
    ensures
        init_ops()[0].applied(enr) == enr | APB1_DAC1,
        init_ops()[2].applied(init_ops()[1].applied(rstr)) == rstr & !APB1_DAC1,
        init_ops()[4].applied(init_ops()[3].applied(cr)) == (cr & !(CR_TEN2 | CR_BOFF2 | CR_TEN1
            | CR_BOFF1)) | (CR_EN2 | CR_EN1),
{
    assert((enr & !0u32) | APB1_DAC1 == enr | APB1_DAC1) by (bit_vector);
    assert((((rstr & !0u32) | APB1_DAC1) & !APB1_DAC1) | 0u32 == rstr & !APB1_DAC1)
        by (bit_vector);
    assert((((cr & !(CR_TEN2 | CR_BOFF2 | CR_TEN1 | CR_BOFF1)) | 0u32) & !0u32) | (CR_EN2 | CR_EN1)
        == (cr & !(CR_TEN2 | CR_BOFF2 | CR_TEN1 | CR_BOFF1)) | (CR_EN2 | CR_EN1)) by (bit_vector);
}

/// Once the converter has been brought up its clock runs, it is out of
/// reset, both channels are enabled and buffered and neither waits for a
/// trigger; the output levels are what they were.
pub proof fn lemma_initialized(before: &Registers, after: &Registers)
    requires
        initialized(before, after),
    ensures
        clock_enabled(after),
        !in_reset(after),
        forall|ch: Channel|
            channel_enabled(after, ch) && !trigger_enabled(after, ch) && output_buffered(after, ch),
        forall|ch: Channel| value(after, ch) == value(before, ch),
{
    let enr: u32 = before.word(Register::Apb1Enr);
    let rstr: u32 = before.word(Register::Apb1Rstr);
    let cr: u32 = before.word(Register::Cr);
    assert((enr | APB1_DAC1) & APB1_DAC1 != 0) by (bit_vector);
    assert((rstr & !APB1_DAC1) & APB1_DAC1 == 0) by (bit_vector);
    let up: u32 = (cr & !(CR_TEN2 | CR_BOFF2 | CR_TEN1 | CR_BOFF1)) | (CR_EN2 | CR_EN1);
    assert(up & CR_EN1 != 0 && up & CR_EN2 != 0 && up & CR_TEN1 == 0 && up & CR_TEN2 == 0 && up
        & CR_BOFF1 == 0 && up & CR_BOFF2 == 0) by (bit_vector)
        requires
            up == (cr & !(CR_TEN2 | CR_BOFF2 | CR_TEN1 | CR_BOFF1)) | (CR_EN2 | CR_EN1),
    ;
}

} // verus!
