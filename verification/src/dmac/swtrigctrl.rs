//! `SWTRIGCTRL`: the software trigger control register of the DMA
//! controller, one trigger bit per channel.
#![allow(non_camel_case_types)]

use crate::generic::{
    bit_of, read_bit, with_bit, write_bit, FieldReader, Readable, RegisterSpec, Resettable,
    Writable,
};
use vstd::prelude::*;

verus! {

/// What a read of `SWTRIGCTRL` returns.
pub struct R(crate::generic::R<SWTRIGCTRL_SPEC>);

impl R {
    /// The raw register value.
    pub closed spec fn view(&self) -> u32 {
        self.0@
    }
}

impl core::ops::Deref for R {
    type Target = crate::generic::R<SWTRIGCTRL_SPEC>;

    fn deref(&self) -> (target: &Self::Target)
        ensures
            target@ == self@,
    {
        &self.0
    }
}

impl From<crate::generic::R<SWTRIGCTRL_SPEC>> for R {
    fn from(reader: crate::generic::R<SWTRIGCTRL_SPEC>) -> (r: Self)
        ensures
            r@ == reader@,
    {
        R(reader)
    }
}

impl vstd::std_specs::convert::FromSpecImpl<crate::generic::R<SWTRIGCTRL_SPEC>> for R {
    open spec fn obeys_from_spec() -> bool {
        true
    }

    closed spec fn from_spec(reader: crate::generic::R<SWTRIGCTRL_SPEC>) -> Self {
        R(reader)
    }
}

/// The value that a write of `SWTRIGCTRL` stores.
pub struct W(crate::generic::W<SWTRIGCTRL_SPEC>);

impl W {
    /// The raw register value.
    pub closed spec fn view(&self) -> u32 {
        self.0@
    }
}

impl core::ops::Deref for W {
    type Target = crate::generic::W<SWTRIGCTRL_SPEC>;

    fn deref(&self) -> (target: &Self::Target)
        ensures
            target@ == self@,
    {
        &self.0
    }
}

impl core::ops::DerefMut for W {
    fn deref_mut(&mut self) -> (target: &mut Self::Target)
        ensures
            target@ == old(self)@,
            final(self)@ == final(target)@,
    {
        &mut self.0
    }
}

impl From<crate::generic::W<SWTRIGCTRL_SPEC>> for W {
    fn from(writer: crate::generic::W<SWTRIGCTRL_SPEC>) -> (w: Self)
        ensures
            w@ == writer@,
    {
        W(writer)
    }
}

impl vstd::std_specs::convert::FromSpecImpl<crate::generic::W<SWTRIGCTRL_SPEC>> for W {
    open spec fn obeys_from_spec() -> bool {
        true
    }

    closed spec fn from_spec(writer: crate::generic::W<SWTRIGCTRL_SPEC>) -> Self {
        W(writer)
    }
}

/// Channel 0 software trigger, as read.
pub struct SWTRIG0_R(FieldReader<bool, bool>);

impl SWTRIG0_R {
    /// The trigger bit.
    pub closed spec fn view(&self) -> bool {
        self.0@
    }

    pub(crate) fn new(bits: bool) -> (r: Self)
        ensures
            r@ == bits,
    {
        SWTRIG0_R(FieldReader::new(bits))
    }
}

impl core::ops::Deref for SWTRIG0_R {
    type Target = FieldReader<bool, bool>;

    fn deref(&self) -> (target: &Self::Target)
        ensures
            target@ == self@,
    {
        &self.0
    }
}

/// Channel 0 software trigger, to be written: bit 0 of the register.
pub struct SWTRIG0_W<'a> {
    pub w: &'a mut W,
}

impl<'a> SWTRIG0_W<'a> {
    /// Sets the trigger bit.
    pub fn set_bit(self) -> (w: &'a mut W)
        ensures
            w@ == with_bit(old(self.w)@, 0, true),
            final(self.w)@ == final(w)@,
    {
        self.bit(true)
    }

    /// Clears the trigger bit.
    pub fn clear_bit(self) -> (w: &'a mut W)
        ensures
            w@ == with_bit(old(self.w)@, 0, false),
            final(self.w)@ == final(w)@,
    {
        self.bit(false)
    }

    /// Writes `value` to the trigger bit; no other bit changes.
    pub fn bit(self, value: bool) -> (w: &'a mut W)
        ensures
            w@ == with_bit(old(self.w)@, 0, value),
            final(self.w)@ == final(w)@,
    {
        let bits: u32 = write_bit(self.w.0.raw(), 0, value);
        self.w.0.bits(bits);
        self.w
    }
}

/// Channel 1 software trigger, as read.
pub struct SWTRIG1_R(FieldReader<bool, bool>);

impl SWTRIG1_R {
    /// The trigger bit.
    pub closed spec fn view(&self) -> bool {
        self.0@
    }

    pub(crate) fn new(bits: bool) -> (r: Self)
        ensures
            r@ == bits,
    {
        SWTRIG1_R(FieldReader::new(bits))
    }
}

impl core::ops::Deref for SWTRIG1_R {
    type Target = FieldReader<bool, bool>;

    fn deref(&self) -> (target: &Self::Target)
        ensures
            target@ == self@,
    {
        &self.0
    }
}

/// Channel 1 software trigger, to be written: bit 1 of the register.
pub struct SWTRIG1_W<'a> {
    pub w: &'a mut W,
}

impl<'a> SWTRIG1_W<'a> {
    /// Sets the trigger bit.
    pub fn set_bit(self) -> (w: &'a mut W)
        ensures
            w@ == with_bit(old(self.w)@, 1, true),
            final(self.w)@ == final(w)@,
    {
        self.bit(true)
    }

    /// Clears the trigger bit.
    pub fn clear_bit(self) -> (w: &'a mut W)
        ensures
            w@ == with_bit(old(self.w)@, 1, false),
            final(self.w)@ == final(w)@,
    {
        self.bit(false)
    }

    /// Writes `value` to the trigger bit; no other bit changes.
    pub fn bit(self, value: bool) -> (w: &'a mut W)
        ensures
            w@ == with_bit(old(self.w)@, 1, value),
            final(self.w)@ == final(w)@,
    {
        let bits: u32 = write_bit(self.w.0.raw(), 1, value);
        self.w.0.bits(bits);
        self.w
    }
}

/// Channel 2 software trigger, as read.
pub struct SWTRIG2_R(FieldReader<bool, bool>);

impl SWTRIG2_R {
    /// The trigger bit.
    pub closed spec fn view(&self) -> bool {
        self.0@
    }

    pub(crate) fn new(bits: bool) -> (r: Self)
        ensures
            r@ == bits,
    {
        SWTRIG2_R(FieldReader::new(bits))
    }
}

impl core::ops::Deref for SWTRIG2_R {
    type Target = FieldReader<bool, bool>;

    fn deref(&self) -> (target: &Self::Target)
        ensures
            target@ == self@,
    {
        &self.0
    }
}

/// Channel 2 software trigger, to be written: bit 2 of the register.
pub struct SWTRIG2_W<'a> {
    pub w: &'a mut W,
}

impl<'a> SWTRIG2_W<'a> {
    /// Sets the trigger bit.
    pub fn set_bit(self) -> (w: &'a mut W)
        ensures
            w@ == with_bit(old(self.w)@, 2, true),
            final(self.w)@ == final(w)@,
    {
        self.bit(true)
    }

    /// Clears the trigger bit.
    pub fn clear_bit(self) -> (w: &'a mut W)
        ensures
            w@ == with_bit(old(self.w)@, 2, false),
            final(self.w)@ == final(w)@,
    {
        self.bit(false)
    }

    /// Writes `value` to the trigger bit; no other bit changes.
    pub fn bit(self, value: bool) -> (w: &'a mut W)
        ensures
            w@ == with_bit(old(self.w)@, 2, value),
            final(self.w)@ == final(w)@,
    {
        let bits: u32 = write_bit(self.w.0.raw(), 2, value);
        self.w.0.bits(bits);
        self.w
    }
}

/// Channel 3 software trigger, as read.
pub struct SWTRIG3_R(FieldReader<bool, bool>);

impl SWTRIG3_R {
    /// The trigger bit.
    pub closed spec fn view(&self) -> bool {
        self.0@
    }

    pub(crate) fn new(bits: bool) -> (r: Self)
        ensures
            r@ == bits,
    {
        SWTRIG3_R(FieldReader::new(bits))
    }
}

impl core::ops::Deref for SWTRIG3_R {
    type Target = FieldReader<bool, bool>;

    fn deref(&self) -> (target: &Self::Target)
        ensures
            target@ == self@,
    {
        &self.0
    }
}

/// Channel 3 software trigger, to be written: bit 3 of the register.
pub struct SWTRIG3_W<'a> {
    pub w: &'a mut W,
}

impl<'a> SWTRIG3_W<'a> {
    /// Sets the trigger bit.
    pub fn set_bit(self) -> (w: &'a mut W)
        ensures
            w@ == with_bit(old(self.w)@, 3, true),
            final(self.w)@ == final(w)@,
    {
        self.bit(true)
    }

    /// Clears the trigger bit.
    pub fn clear_bit(self) -> (w: &'a mut W)
        ensures
            w@ == with_bit(old(self.w)@, 3, false),
            final(self.w)@ == final(w)@,
    {
        self.bit(false)
    }

    /// Writes `value` to the trigger bit; no other bit changes.
    pub fn bit(self, value: bool) -> (w: &'a mut W)
        ensures
            w@ == with_bit(old(self.w)@, 3, value),
            final(self.w)@ == final(w)@,
    {
        let bits: u32 = write_bit(self.w.0.raw(), 3, value);
        self.w.0.bits(bits);
        self.w
    }
}

/// Channel 4 software trigger, as read.
pub struct SWTRIG4_R(FieldReader<bool, bool>);

impl SWTRIG4_R {
    /// The trigger bit.
    pub closed spec fn view(&self) -> bool {
        self.0@
    }

    pub(crate) fn new(bits: bool) -> (r: Self)
        ensures
            r@ == bits,
    {
        SWTRIG4_R(FieldReader::new(bits))
    }
}

impl core::ops::Deref for SWTRIG4_R {
    type Target = FieldReader<bool, bool>;

    fn deref(&self) -> (target: &Self::Target)
        ensures
            target@ == self@,
    {
        &self.0
    }
}

/// Channel 4 software trigger, to be written: bit 4 of the register.
pub struct SWTRIG4_W<'a> {
    pub w: &'a mut W,
}

impl<'a> SWTRIG4_W<'a> {
    /// Sets the trigger bit.
    pub fn set_bit(self) -> (w: &'a mut W)
        ensures
            w@ == with_bit(old(self.w)@, 4, true),
            final(self.w)@ == final(w)@,
    {
        self.bit(true)
    }

    /// Clears the trigger bit.
    pub fn clear_bit(self) -> (w: &'a mut W)
        ensures
            w@ == with_bit(old(self.w)@, 4, false),
            final(self.w)@ == final(w)@,
    {
        self.bit(false)
    }

    /// Writes `value` to the trigger bit; no other bit changes.
    pub fn bit(self, value: bool) -> (w: &'a mut W)
        ensures
            w@ == with_bit(old(self.w)@, 4, value),
            final(self.w)@ == final(w)@,
    {
        let bits: u32 = write_bit(self.w.0.raw(), 4, value);
        self.w.0.bits(bits);
        self.w
    }
}

/// Channel 5 software trigger, as read.
pub struct SWTRIG5_R(FieldReader<bool, bool>);

impl SWTRIG5_R {
    /// The trigger bit.
    pub closed spec fn view(&self) -> bool {
        self.0@
    }

    pub(crate) fn new(bits: bool) -> (r: Self)
        ensures
            r@ == bits,
    {
        SWTRIG5_R(FieldReader::new(bits))
    }
}

impl core::ops::Deref for SWTRIG5_R {
    type Target = FieldReader<bool, bool>;

    fn deref(&self) -> (target: &Self::Target)
        ensures
            target@ == self@,
    {
        &self.0
    }
}

/// Channel 5 software trigger, to be written: bit 5 of the register.
pub struct SWTRIG5_W<'a> {
    pub w: &'a mut W,
}

impl<'a> SWTRIG5_W<'a> {
    /// Sets the trigger bit.
    pub fn set_bit(self) -> (w: &'a mut W)
        ensures
            w@ == with_bit(old(self.w)@, 5, true),
            final(self.w)@ == final(w)@,
    {
        self.bit(true)
    }

    /// Clears the trigger bit.
    pub fn clear_bit(self) -> (w: &'a mut W)
        ensures
            w@ == with_bit(old(self.w)@, 5, false),
            final(self.w)@ == final(w)@,
    {
        self.bit(false)
    }

    /// Writes `value` to the trigger bit; no other bit changes.
    pub fn bit(self, value: bool) -> (w: &'a mut W)
        ensures
            w@ == with_bit(old(self.w)@, 5, value),
            final(self.w)@ == final(w)@,
    {
        let bits: u32 = write_bit(self.w.0.raw(), 5, value);
        self.w.0.bits(bits);
        self.w
    }
}

/// Channel 6 software trigger, as read.
pub struct SWTRIG6_R(FieldReader<bool, bool>);

impl SWTRIG6_R {
    /// The trigger bit.
    pub closed spec fn view(&self) -> bool {
        self.0@
    }

    pub(crate) fn new(bits: bool) -> (r: Self)
        ensures
            r@ == bits,
    {
        SWTRIG6_R(FieldReader::new(bits))
    }
}

impl core::ops::Deref for SWTRIG6_R {
    type Target = FieldReader<bool, bool>;

    fn deref(&self) -> (target: &Self::Target)
        ensures
            target@ == self@,
    {
        &self.0
    }
}

/// Channel 6 software trigger, to be written: bit 6 of the register.
pub struct SWTRIG6_W<'a> {
    pub w: &'a mut W,
}

impl<'a> SWTRIG6_W<'a> {
    /// Sets the trigger bit.
    pub fn set_bit(self) -> (w: &'a mut W)
        ensures
            w@ == with_bit(old(self.w)@, 6, true),
            final(self.w)@ == final(w)@,
    {
        self.bit(true)
    }

    /// Clears the trigger bit.
    pub fn clear_bit(self) -> (w: &'a mut W)
        ensures
            w@ == with_bit(old(self.w)@, 6, false),
            final(self.w)@ == final(w)@,
    {
        self.bit(false)
    }

    /// Writes `value` to the trigger bit; no other bit changes.
    pub fn bit(self, value: bool) -> (w: &'a mut W)
        ensures
            w@ == with_bit(old(self.w)@, 6, value),
            final(self.w)@ == final(w)@,
    {
        let bits: u32 = write_bit(self.w.0.raw(), 6, value);
        self.w.0.bits(bits);
        self.w
    }
}

/// Channel 7 software trigger, as read.
pub struct SWTRIG7_R(FieldReader<bool, bool>);

impl SWTRIG7_R {
    /// The trigger bit.
    pub closed spec fn view(&self) -> bool {
        self.0@
    }

    pub(crate) fn new(bits: bool) -> (r: Self)
        ensures
            r@ == bits,
    {
        SWTRIG7_R(FieldReader::new(bits))
    }
}

impl core::ops::Deref for SWTRIG7_R {
    type Target = FieldReader<bool, bool>;

    fn deref(&self) -> (target: &Self::Target)
        ensures
            target@ == self@,
    {
        &self.0
    }
}

/// Channel 7 software trigger, to be written: bit 7 of the register.
pub struct SWTRIG7_W<'a> {
    pub w: &'a mut W,
}

impl<'a> SWTRIG7_W<'a> {
    /// Sets the trigger bit.
    pub fn set_bit(self) -> (w: &'a mut W)
        ensures
            w@ == with_bit(old(self.w)@, 7, true),
            final(self.w)@ == final(w)@,
    {
        self.bit(true)
    }

    /// Clears the trigger bit.
    pub fn clear_bit(self) -> (w: &'a mut W)
        ensures
            w@ == with_bit(old(self.w)@, 7, false),
            final(self.w)@ == final(w)@,
    {
        self.bit(false)
    }

    /// Writes `value` to the trigger bit; no other bit changes.
    pub fn bit(self, value: bool) -> (w: &'a mut W)
        ensures
            w@ == with_bit(old(self.w)@, 7, value),
            final(self.w)@ == final(w)@,
    {
        let bits: u32 = write_bit(self.w.0.raw(), 7, value);
        self.w.0.bits(bits);
        self.w
    }
}

/// Channel 8 software trigger, as read.
pub struct SWTRIG8_R(FieldReader<bool, bool>);

impl SWTRIG8_R {
    /// The trigger bit.
    pub closed spec fn view(&self) -> bool {
        self.0@
    }

    pub(crate) fn new(bits: bool) -> (r: Self)
        ensures
            r@ == bits,
    {
        SWTRIG8_R(FieldReader::new(bits))
    }
}

impl core::ops::Deref for SWTRIG8_R {
    type Target = FieldReader<bool, bool>;

    fn deref(&self) -> (target: &Self::Target)
        ensures
            target@ == self@,
    {
        &self.0
    }
}

/// Channel 8 software trigger, to be written: bit 8 of the register.
pub struct SWTRIG8_W<'a> {
    pub w: &'a mut W,
}

impl<'a> SWTRIG8_W<'a> {
    /// Sets the trigger bit.
    pub fn set_bit(self) -> (w: &'a mut W)
        ensures
            w@ == with_bit(old(self.w)@, 8, true),
            final(self.w)@ == final(w)@,
    {
        self.bit(true)
    }

    /// Clears the trigger bit.
    pub fn clear_bit(self) -> (w: &'a mut W)
        ensures
            w@ == with_bit(old(self.w)@, 8, false),
            final(self.w)@ == final(w)@,
    {
        self.bit(false)
    }

    /// Writes `value` to the trigger bit; no other bit changes.
    pub fn bit(self, value: bool) -> (w: &'a mut W)
        ensures
            w@ == with_bit(old(self.w)@, 8, value),
            final(self.w)@ == final(w)@,
    {
        let bits: u32 = write_bit(self.w.0.raw(), 8, value);
        self.w.0.bits(bits);
        self.w
    }
}

/// Channel 9 software trigger, as read.
pub struct SWTRIG9_R(FieldReader<bool, bool>);

impl SWTRIG9_R {
    /// The trigger bit.
    pub closed spec fn view(&self) -> bool {
        self.0@
    }

    pub(crate) fn new(bits: bool) -> (r: Self)
        ensures
            r@ == bits,
    {
        SWTRIG9_R(FieldReader::new(bits))
    }
}

impl core::ops::Deref for SWTRIG9_R {
    type Target = FieldReader<bool, bool>;

    fn deref(&self) -> (target: &Self::Target)
        ensures
            target@ == self@,
    {
        &self.0
    }
}

/// Channel 9 software trigger, to be written: bit 9 of the register.
pub struct SWTRIG9_W<'a> {
    pub w: &'a mut W,
}

impl<'a> SWTRIG9_W<'a> {
    /// Sets the trigger bit.
    pub fn set_bit(self) -> (w: &'a mut W)
        ensures
            w@ == with_bit(old(self.w)@, 9, true),
            final(self.w)@ == final(w)@,
    {
        self.bit(true)
    }

    /// Clears the trigger bit.
    pub fn clear_bit(self) -> (w: &'a mut W)
        ensures
            w@ == with_bit(old(self.w)@, 9, false),
            final(self.w)@ == final(w)@,
    {
        self.bit(false)
    }

    /// Writes `value` to the trigger bit; no other bit changes.
    pub fn bit(self, value: bool) -> (w: &'a mut W)
        ensures
            w@ == with_bit(old(self.w)@, 9, value),
            final(self.w)@ == final(w)@,
    {
        let bits: u32 = write_bit(self.w.0.raw(), 9, value);
        self.w.0.bits(bits);
        self.w
    }
}

/// Channel 10 software trigger, as read.
pub struct SWTRIG10_R(FieldReader<bool, bool>);

impl SWTRIG10_R {
    /// The trigger bit.
    pub closed spec fn view(&self) -> bool {
        self.0@
    }

    pub(crate) fn new(bits: bool) -> (r: Self)
        ensures
            r@ == bits,
    {
        SWTRIG10_R(FieldReader::new(bits))
    }
}

impl core::ops::Deref for SWTRIG10_R {
    type Target = FieldReader<bool, bool>;

    fn deref(&self) -> (target: &Self::Target)
        ensures
            target@ == self@,
    {
        &self.0
    }
}

/// Channel 10 software trigger, to be written: bit 10 of the register.
pub struct SWTRIG10_W<'a> {
    pub w: &'a mut W,
}

impl<'a> SWTRIG10_W<'a> {
    /// Sets the trigger bit.
    pub fn set_bit(self) -> (w: &'a mut W)
        ensures
            w@ == with_bit(old(self.w)@, 10, true),
            final(self.w)@ == final(w)@,
    {
        self.bit(true)
    }

    /// Clears the trigger bit.
    pub fn clear_bit(self) -> (w: &'a mut W)
        ensures
            w@ == with_bit(old(self.w)@, 10, false),
            final(self.w)@ == final(w)@,
    {
        self.bit(false)
    }

    /// Writes `value` to the trigger bit; no other bit changes.
    pub fn bit(self, value: bool) -> (w: &'a mut W)
        ensures
            w@ == with_bit(old(self.w)@, 10, value),
            final(self.w)@ == final(w)@,
    {
        let bits: u32 = write_bit(self.w.0.raw(), 10, value);
        self.w.0.bits(bits);
        self.w
    }
}

/// Channel 11 software trigger, as read.
pub struct SWTRIG11_R(FieldReader<bool, bool>);

impl SWTRIG11_R {
    /// The trigger bit.
    pub closed spec fn view(&self) -> bool {
        self.0@
    }

    pub(crate) fn new(bits: bool) -> (r: Self)
        ensures
            r@ == bits,
    {
        SWTRIG11_R(FieldReader::new(bits))
    }
}

impl core::ops::Deref for SWTRIG11_R {
    type Target = FieldReader<bool, bool>;

    fn deref(&self) -> (target: &Self::Target)
        ensures
            target@ == self@,
    {
        &self.0
    }
}

/// Channel 11 software trigger, to be written: bit 11 of the register.
pub struct SWTRIG11_W<'a> {
    pub w: &'a mut W,
}

impl<'a> SWTRIG11_W<'a> {
    /// Sets the trigger bit.
    pub fn set_bit(self) -> (w: &'a mut W)
        ensures
            w@ == with_bit(old(self.w)@, 11, true),
            final(self.w)@ == final(w)@,
    {
        self.bit(true)
    }

    /// Clears the trigger bit.
    pub fn clear_bit(self) -> (w: &'a mut W)
        ensures
            w@ == with_bit(old(self.w)@, 11, false),
            final(self.w)@ == final(w)@,
    {
        self.bit(false)
    }

    /// Writes `value` to the trigger bit; no other bit changes.
    pub fn bit(self, value: bool) -> (w: &'a mut W)
        ensures
            w@ == with_bit(old(self.w)@, 11, value),
            final(self.w)@ == final(w)@,
    {
        let bits: u32 = write_bit(self.w.0.raw(), 11, value);
        self.w.0.bits(bits);
        self.w
    }
}

impl R {
    /// Bit 0: channel 0 software trigger.
    pub fn swtrig0(&self) -> (field: SWTRIG0_R)
        ensures
            field@ == bit_of(self@, 0),
    {
        SWTRIG0_R::new(read_bit(self.0.bits(), 0))
    }

    /// Bit 1: channel 1 software trigger.
    pub fn swtrig1(&self) -> (field: SWTRIG1_R)
        ensures
            field@ == bit_of(self@, 1),
    {
        SWTRIG1_R::new(read_bit(self.0.bits(), 1))
    }

    /// Bit 2: channel 2 software trigger.
    pub fn swtrig2(&self) -> (field: SWTRIG2_R)
        ensures
            field@ == bit_of(self@, 2),
    {
        SWTRIG2_R::new(read_bit(self.0.bits(), 2))
    }

    /// Bit 3: channel 3 software trigger.
    pub fn swtrig3(&self) -> (field: SWTRIG3_R)
        ensures
            field@ == bit_of(self@, 3),
    {
        SWTRIG3_R::new(read_bit(self.0.bits(), 3))
    }

    /// Bit 4: channel 4 software trigger.
    pub fn swtrig4(&self) -> (field: SWTRIG4_R)
        ensures
            field@ == bit_of(self@, 4),
    {
        SWTRIG4_R::new(read_bit(self.0.bits(), 4))
    }

    /// Bit 5: channel 5 software trigger.
    pub fn swtrig5(&self) -> (field: SWTRIG5_R)
        ensures
            field@ == bit_of(self@, 5),
    {
        SWTRIG5_R::new(read_bit(self.0.bits(), 5))
    }

    /// Bit 6: channel 6 software trigger.
    pub fn swtrig6(&self) -> (field: SWTRIG6_R)
        ensures
            field@ == bit_of(self@, 6),
    {
        SWTRIG6_R::new(read_bit(self.0.bits(), 6))
    }

    /// Bit 7: channel 7 software trigger.
    pub fn swtrig7(&self) -> (field: SWTRIG7_R)
        ensures
            field@ == bit_of(self@, 7),
    {
        SWTRIG7_R::new(read_bit(self.0.bits(), 7))
    }

    /// Bit 8: channel 8 software trigger.
    pub fn swtrig8(&self) -> (field: SWTRIG8_R)
        ensures
            field@ == bit_of(self@, 8),
    {
        SWTRIG8_R::new(read_bit(self.0.bits(), 8))
    }

    /// Bit 9: channel 9 software trigger.
    pub fn swtrig9(&self) -> (field: SWTRIG9_R)
        ensures
            field@ == bit_of(self@, 9),
    {
        SWTRIG9_R::new(read_bit(self.0.bits(), 9))
    }

    /// Bit 10: channel 10 software trigger.
    pub fn swtrig10(&self) -> (field: SWTRIG10_R)
        ensures
            field@ == bit_of(self@, 10),
    {
        SWTRIG10_R::new(read_bit(self.0.bits(), 10))
    }

    /// Bit 11: channel 11 software trigger.
    pub fn swtrig11(&self) -> (field: SWTRIG11_R)
        ensures
            field@ == bit_of(self@, 11),
    {
        SWTRIG11_R::new(read_bit(self.0.bits(), 11))
    }
}

impl W {
    /// Bit 0: channel 0 software trigger.
    pub fn swtrig0(&mut self) -> (field: SWTRIG0_W<'_>)
        ensures
            field.w@ == old(self)@,
            final(self)@ == final(field.w)@,
    {
        SWTRIG0_W { w: self }
    }

    /// Bit 1: channel 1 software trigger.
    pub fn swtrig1(&mut self) -> (field: SWTRIG1_W<'_>)
        ensures
            field.w@ == old(self)@,
            final(self)@ == final(field.w)@,
    {
        SWTRIG1_W { w: self }
    }

    /// Bit 2: channel 2 software trigger.
    pub fn swtrig2(&mut self) -> (field: SWTRIG2_W<'_>)
        ensures
            field.w@ == old(self)@,
            final(self)@ == final(field.w)@,
    {
        SWTRIG2_W { w: self }
    }

    /// Bit 3: channel 3 software trigger.
    pub fn swtrig3(&mut self) -> (field: SWTRIG3_W<'_>)
        ensures
            field.w@ == old(self)@,
            final(self)@ == final(field.w)@,
    {
        SWTRIG3_W { w: self }
    }

    /// Bit 4: channel 4 software trigger.
    pub fn swtrig4(&mut self) -> (field: SWTRIG4_W<'_>)
        ensures
            field.w@ == old(self)@,
            final(self)@ == final(field.w)@,
    {
        SWTRIG4_W { w: self }
    }

    /// Bit 5: channel 5 software trigger.
    pub fn swtrig5(&mut self) -> (field: SWTRIG5_W<'_>)
        ensures
            field.w@ == old(self)@,
            final(self)@ == final(field.w)@,
    {
        SWTRIG5_W { w: self }
    }

    /// Bit 6: channel 6 software trigger.
    pub fn swtrig6(&mut self) -> (field: SWTRIG6_W<'_>)
        ensures
            field.w@ == old(self)@,
            final(self)@ == final(field.w)@,
    {
        SWTRIG6_W { w: self }
    }

    /// Bit 7: channel 7 software trigger.
    pub fn swtrig7(&mut self) -> (field: SWTRIG7_W<'_>)
        ensures
            field.w@ == old(self)@,
            final(self)@ == final(field.w)@,
    {
        SWTRIG7_W { w: self }
    }

    /// Bit 8: channel 8 software trigger.
    pub fn swtrig8(&mut self) -> (field: SWTRIG8_W<'_>)
        ensures
            field.w@ == old(self)@,
            final(self)@ == final(field.w)@,
    {
        SWTRIG8_W { w: self }
    }

    /// Bit 9: channel 9 software trigger.
    pub fn swtrig9(&mut self) -> (field: SWTRIG9_W<'_>)
        ensures
            field.w@ == old(self)@,
            final(self)@ == final(field.w)@,
    {
        SWTRIG9_W { w: self }
    }

    /// Bit 10: channel 10 software trigger.
    pub fn swtrig10(&mut self) -> (field: SWTRIG10_W<'_>)
        ensures
            field.w@ == old(self)@,
            final(self)@ == final(field.w)@,
    {
        SWTRIG10_W { w: self }
    }

    /// Bit 11: channel 11 software trigger.
    pub fn swtrig11(&mut self) -> (field: SWTRIG11_W<'_>)
        ensures
            field.w@ == old(self)@,
            final(self)@ == final(field.w)@,
    {
        SWTRIG11_W { w: self }
    }

    /// Replaces the whole raw value.
    pub fn bits(&mut self, bits: u32) -> (w: &mut Self)
        ensures
            w@ == bits,
            final(self)@ == final(w)@,
    {
        self.0.bits(bits);
        self
    }
}

/// The `SWTRIGCTRL` register: 32 bits wide, readable, writable, 0 after
/// reset.
pub struct SWTRIGCTRL_SPEC;

impl RegisterSpec for SWTRIGCTRL_SPEC {
    type Ux = u32;
}

impl Readable for SWTRIGCTRL_SPEC {
    type Reader = R;
}

impl Writable for SWTRIGCTRL_SPEC {
    type Writer = W;
}

impl Resettable for SWTRIGCTRL_SPEC {
    fn reset_value() -> (value: u32)
        ensures
            value == 0,
    {
        0
    }
}

} // verus!
