//! The identities that the clock tree is addressed by: generators,
//! clock sources and peripheral channels.
#![allow(non_camel_case_types)]

use vstd::prelude::*;

verus! {

/// One of the eight programmable clock generators.
#[derive(Clone, Copy, Debug, PartialEq, Eq, Structural)]
pub enum ClockGenId {
    GCLK0,
    GCLK1,
    GCLK2,
    GCLK3,
    GCLK4,
    GCLK5,
    GCLK6,
    GCLK7,
}

impl ClockGenId {
    /// The generator's number, 0 to 7, as the hardware encodes it.
    pub open spec fn number(self) -> nat {
        match self {
            ClockGenId::GCLK0 => 0,
            ClockGenId::GCLK1 => 1,
            ClockGenId::GCLK2 => 2,
            ClockGenId::GCLK3 => 3,
            ClockGenId::GCLK4 => 4,
            ClockGenId::GCLK5 => 5,
            ClockGenId::GCLK6 => 6,
            ClockGenId::GCLK7 => 7,
        }
    }
}

impl From<ClockGenId> for u8 {
    fn from(variant: ClockGenId) -> (bits: u8)
        ensures
            bits == variant.number(),
    {
        match variant {
            ClockGenId::GCLK0 => 0,
            ClockGenId::GCLK1 => 1,
            ClockGenId::GCLK2 => 2,
            ClockGenId::GCLK3 => 3,
            ClockGenId::GCLK4 => 4,
            ClockGenId::GCLK5 => 5,
            ClockGenId::GCLK6 => 6,
            ClockGenId::GCLK7 => 7,
        }
    }
}

impl vstd::std_specs::convert::FromSpecImpl<ClockGenId> for u8 {
    open spec fn obeys_from_spec() -> bool {
        true
    }

    open spec fn from_spec(variant: ClockGenId) -> u8 {
        variant.number() as u8
    }
}

/// What a clock generator can be fed from.
#[derive(Clone, Copy, Debug, PartialEq, Eq, Structural)]
pub enum ClockSource {
    /// The crystal oscillator input.
    XOSC,
    /// The raw external clock input of the generator.
    GCLKIN,
    /// The output of generator 1, fed back.
    GCLKGEN1,
    /// The ultra low power internal 32 kHz oscillator.
    OSCULP32K,
    /// The internal 32 kHz oscillator.
    OSC32K,
    /// The external 32 kHz crystal oscillator.
    XOSC32K,
    /// The internal 8 MHz RC oscillator.
    OSC8M,
    /// The output of the 48 MHz frequency multiplier.
    DFLL48M,
    /// The output of the 96 MHz phase-locked loop.
    DPLL96M,
}

impl ClockSource {
    /// The source's number, as the hardware encodes it.
    pub open spec fn number(self) -> nat {
        match self {
            ClockSource::XOSC => 0,
            ClockSource::GCLKIN => 1,
            ClockSource::GCLKGEN1 => 2,
            ClockSource::OSCULP32K => 3,
            ClockSource::OSC32K => 4,
            ClockSource::XOSC32K => 5,
            ClockSource::OSC8M => 6,
            ClockSource::DFLL48M => 7,
            ClockSource::DPLL96M => 8,
        }
    }
}

impl From<ClockSource> for u8 {
    fn from(variant: ClockSource) -> (bits: u8)
        ensures
            bits == variant.number(),
    {
        match variant {
            ClockSource::XOSC => 0,
            ClockSource::GCLKIN => 1,
            ClockSource::GCLKGEN1 => 2,
            ClockSource::OSCULP32K => 3,
            ClockSource::OSC32K => 4,
            ClockSource::XOSC32K => 5,
            ClockSource::OSC8M => 6,
            ClockSource::DFLL48M => 7,
            ClockSource::DPLL96M => 8,
        }
    }
}

impl vstd::std_specs::convert::FromSpecImpl<ClockSource> for u8 {
    open spec fn obeys_from_spec() -> bool {
        true
    }

    open spec fn from_spec(variant: ClockSource) -> u8 {
        variant.number() as u8
    }
}

/// A peripheral clock channel: the switch between one generator and the
/// clock input of one peripheral or group of peripherals.
#[derive(Clone, Copy, Debug, PartialEq, Eq, Structural)]
pub enum ClockId {
    /// Feeds the reference input of the 48 MHz frequency multiplier.
    DFLL48,
    /// Feeds the reference input of the phase-locked loop.
    FDPLL,
    /// Feeds the 32 kHz input of the phase-locked loop's lock timer.
    FDPLL32K,
    /// Feeds the watchdog timer.
    WDT,
    /// Feeds the real-time counter.
    RTC,
    /// Feeds the external interrupt controller.
    EIC,
    /// Feeds the USB interface.
    USB,
    /// Feeds channel 0 of the event system.
    EVSYS_0,
    /// Feeds channel 1 of the event system.
    EVSYS_1,
    /// Feeds channel 2 of the event system.
    EVSYS_2,
    /// Feeds channel 3 of the event system.
    EVSYS_3,
    /// Feeds channel 4 of the event system.
    EVSYS_4,
    /// Feeds channel 5 of the event system.
    EVSYS_5,
    /// Feeds channel 6 of the event system.
    EVSYS_6,
    /// Feeds channel 7 of the event system.
    EVSYS_7,
    /// Feeds channel 8 of the event system.
    EVSYS_8,
    /// Feeds channel 9 of the event system.
    EVSYS_9,
    /// Feeds channel 10 of the event system.
    EVSYS_10,
    /// Feeds channel 11 of the event system.
    EVSYS_11,
    /// Feeds the slow clock shared by the serial interfaces.
    SERCOMX_SLOW,
    /// Feeds the core of serial interface 0.
    SERCOM0_CORE,
    /// Feeds the core of serial interface 1.
    SERCOM1_CORE,
    /// Feeds the core of serial interface 2.
    SERCOM2_CORE,
    /// Feeds the core of serial interface 3.
    SERCOM3_CORE,
    /// Feeds the core of serial interface 4.
    SERCOM4_CORE,
    /// Feeds the core of serial interface 5.
    SERCOM5_CORE,
    /// Feeds the timers TCC0 and TCC1.
    TCC0_TCC1,
    /// Feeds the timers TCC2 and TC3.
    TCC2_TC3,
    /// Feeds the timers TC4 and TC5.
    TC4_TC5,
    /// Feeds the timers TC6 and TC7.
    TC6_TC7,
    /// Feeds the analog-to-digital converter.
    ADC,
    /// Feeds the digital part of the analog comparators.
    AC_DIG,
    /// Feeds the analog part of the analog comparators.
    AC_ANA,
    /// Feeds the digital-to-analog converter.
    DAC,
    /// Feeds the peripheral touch controller.
    PTC,
    /// Feeds serializer 0 of the inter-IC sound interface.
    I2S_0,
    /// Feeds serializer 1 of the inter-IC sound interface.
    I2S_1,
}

impl ClockId {
    /// The channel's number, below 64, as the hardware encodes it.
    pub open spec fn number(self) -> nat {
        match self {
            ClockId::DFLL48 => 0,
            ClockId::FDPLL => 1,
            ClockId::FDPLL32K => 2,
            ClockId::WDT => 3,
            ClockId::RTC => 4,
            ClockId::EIC => 5,
            ClockId::USB => 6,
            ClockId::EVSYS_0 => 7,
            ClockId::EVSYS_1 => 8,
            ClockId::EVSYS_2 => 9,
            ClockId::EVSYS_3 => 10,
            ClockId::EVSYS_4 => 11,
            ClockId::EVSYS_5 => 12,
            ClockId::EVSYS_6 => 13,
            ClockId::EVSYS_7 => 14,
            ClockId::EVSYS_8 => 15,
            ClockId::EVSYS_9 => 16,
            ClockId::EVSYS_10 => 17,
            ClockId::EVSYS_11 => 18,
            ClockId::SERCOMX_SLOW => 19,
            ClockId::SERCOM0_CORE => 20,
            ClockId::SERCOM1_CORE => 21,
            ClockId::SERCOM2_CORE => 22,
            ClockId::SERCOM3_CORE => 23,
            ClockId::SERCOM4_CORE => 24,
            ClockId::SERCOM5_CORE => 25,
            ClockId::TCC0_TCC1 => 26,
            ClockId::TCC2_TC3 => 27,
            ClockId::TC4_TC5 => 28,
            ClockId::TC6_TC7 => 29,
            ClockId::ADC => 30,
            ClockId::AC_DIG => 31,
            ClockId::AC_ANA => 32,
            ClockId::DAC => 33,
            ClockId::PTC => 34,
            ClockId::I2S_0 => 35,
            ClockId::I2S_1 => 36,
        }
    }
}

impl From<ClockId> for u8 {
    fn from(variant: ClockId) -> (bits: u8)
        ensures
            bits == variant.number(),
    {
        match variant {
            ClockId::DFLL48 => 0,
            ClockId::FDPLL => 1,
            ClockId::FDPLL32K => 2,
            ClockId::WDT => 3,
            ClockId::RTC => 4,
            ClockId::EIC => 5,
            ClockId::USB => 6,
            ClockId::EVSYS_0 => 7,
            ClockId::EVSYS_1 => 8,
            ClockId::EVSYS_2 => 9,
            ClockId::EVSYS_3 => 10,
            ClockId::EVSYS_4 => 11,
            ClockId::EVSYS_5 => 12,
            ClockId::EVSYS_6 => 13,
            ClockId::EVSYS_7 => 14,
            ClockId::EVSYS_8 => 15,
            ClockId::EVSYS_9 => 16,
            ClockId::EVSYS_10 => 17,
            ClockId::EVSYS_11 => 18,
            ClockId::SERCOMX_SLOW => 19,
            ClockId::SERCOM0_CORE => 20,
            ClockId::SERCOM1_CORE => 21,
            ClockId::SERCOM2_CORE => 22,
            ClockId::SERCOM3_CORE => 23,
            ClockId::SERCOM4_CORE => 24,
            ClockId::SERCOM5_CORE => 25,
            ClockId::TCC0_TCC1 => 26,
            ClockId::TCC2_TC3 => 27,
            ClockId::TC4_TC5 => 28,
            ClockId::TC6_TC7 => 29,
            ClockId::ADC => 30,
            ClockId::AC_DIG => 31,
            ClockId::AC_ANA => 32,
            ClockId::DAC => 33,
            ClockId::PTC => 34,
            ClockId::I2S_0 => 35,
            ClockId::I2S_1 => 36,
        }
    }
}

impl vstd::std_specs::convert::FromSpecImpl<ClockId> for u8 {
    open spec fn obeys_from_spec() -> bool {
        true
    }

    open spec fn from_spec(variant: ClockId) -> u8 {
        variant.number() as u8
    }
}

/// Two generators with the same number are the same generator, and
/// likewise for channels.
pub proof fn lemma_numbers_identify(a: ClockId, b: ClockId, g: ClockGenId, h: ClockGenId)
    ensures
        a.number() == b.number() <==> a == b,
        g.number() == h.number() <==> g == h,
        a.number() < 37,
        g.number() < 8,
{
}

} // verus!
