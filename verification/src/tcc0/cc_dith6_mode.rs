//! `CC` in 6-bit dithering mode: a compare/capture channel register whose
//! low six bits hold the dithering cycle number and whose next eighteen
//! bits hold the compare/capture value.
#![allow(non_camel_case_types)]

use crate::generic::{
    field_mask, field_of, lemma_field_holds_what_fits, lemma_field_write_keeps_others,
    read_field, with_field, write_field, FieldReader, Readable, RegisterSpec, Resettable,
    Writable,
};
use vstd::prelude::*;

verus! {

/// What a read of the register returns.
pub struct R(crate::generic::R<CC_DITH6_MODE_SPEC>);

impl R {
    /// The raw register value.
    pub closed spec fn view(&self) -> u32 {
        self.0@
    }
}

impl core::ops::Deref for R {
    type Target = crate::generic::R<CC_DITH6_MODE_SPEC>;

    fn deref(&self) -> (target: &Self::Target)
        ensures
            target@ == self@,
    {
        &self.0
    }
}

impl From<crate::generic::R<CC_DITH6_MODE_SPEC>> for R {
    fn from(reader: crate::generic::R<CC_DITH6_MODE_SPEC>) -> (r: Self)
        ensures
            r@ == reader@,
    {
        R(reader)
    }
}

impl vstd::std_specs::convert::FromSpecImpl<crate::generic::R<CC_DITH6_MODE_SPEC>> for R {
    open spec fn obeys_from_spec() -> bool {
        true
    }

    closed spec fn from_spec(reader: crate::generic::R<CC_DITH6_MODE_SPEC>) -> Self {
        R(reader)
    }
}

/// The value that a write of the register stores.
pub struct W(crate::generic::W<CC_DITH6_MODE_SPEC>);

impl W {
    /// The raw register value.
    pub closed spec fn view(&self) -> u32 {
        self.0@
    }
}

impl core::ops::Deref for W {
    type Target = crate::generic::W<CC_DITH6_MODE_SPEC>;

    fn deref(&self) -> (target: &Self::Target)
        ensures
            target@ == self@,
    {
        &self.0
    }
}

impl core::ops::DerefMut for W {
    fn deref_mut(&mut self) -> (target: &mut Self::Target)
        ensures
            target@ == old(self)@,
            final(self)@ == final(target)@,
    {
        &mut self.0
    }
}

impl From<crate::generic::W<CC_DITH6_MODE_SPEC>> for W {
    fn from(writer: crate::generic::W<CC_DITH6_MODE_SPEC>) -> (w: Self)
        ensures
            w@ == writer@,
    {
        W(writer)
    }
}

impl vstd::std_specs::convert::FromSpecImpl<crate::generic::W<CC_DITH6_MODE_SPEC>> for W {
    open spec fn obeys_from_spec() -> bool {
        true
    }

    closed spec fn from_spec(writer: crate::generic::W<CC_DITH6_MODE_SPEC>) -> Self {
        W(writer)
    }
}

/// Lowest bit and width of the dithering cycle number.
pub const DITHER_OFFSET: u32 = 0;

pub const DITHER_WIDTH: u32 = 6;

/// Lowest bit and width of the compare/capture value.
pub const CC_OFFSET: u32 = 6;

pub const CC_WIDTH: u32 = 18;

/// The dithering cycle number, as read.
pub struct DITHER_R(FieldReader<u8, u8>);

impl DITHER_R {
    /// The cycle number.
    pub closed spec fn view(&self) -> u8 {
        self.0@
    }

    pub(crate) fn new(bits: u8) -> (r: Self)
        ensures
            r@ == bits,
    {
        DITHER_R(FieldReader::new(bits))
    }
}

impl core::ops::Deref for DITHER_R {
    type Target = FieldReader<u8, u8>;

    fn deref(&self) -> (target: &Self::Target)
        ensures
            target@ == self@,
    {
        &self.0
    }
}

/// The dithering cycle number, to be written: bits 0 to 5 of the register.
pub struct DITHER_W<'a> {
    pub w: &'a mut W,
}

impl<'a> DITHER_W<'a> {
    /// Writes the low six bits of `value` to the field; no other bit
    /// changes.
    pub fn bits(self, value: u8) -> (w: &'a mut W)
        ensures
            w@ == with_field(old(self.w)@, DITHER_OFFSET, DITHER_WIDTH, value as u32),
            final(self.w)@ == final(w)@,
    {
        let bits: u32 = write_field(self.w.0.raw(), DITHER_OFFSET, DITHER_WIDTH, value as u32);
        self.w.0.bits(bits);
        self.w
    }
}

/// The compare/capture value, as read.
pub struct CC_R(FieldReader<u32, u32>);

impl CC_R {
    /// The compare/capture value.
    pub closed spec fn view(&self) -> u32 {
        self.0@
    }

    pub(crate) fn new(bits: u32) -> (r: Self)
        ensures
            r@ == bits,
    {
        CC_R(FieldReader::new(bits))
    }
}

impl core::ops::Deref for CC_R {
    type Target = FieldReader<u32, u32>;

    fn deref(&self) -> (target: &Self::Target)
        ensures
            target@ == self@,
    {
        &self.0
    }
}

/// The compare/capture value, to be written: bits 6 to 23 of the register.
pub struct CC_W<'a> {
    pub w: &'a mut W,
}

impl<'a> CC_W<'a> {
    /// Writes the low eighteen bits of `value` to the field; no other bit
    /// changes.
    pub fn bits(self, value: u32) -> (w: &'a mut W)
        ensures
            w@ == with_field(old(self.w)@, CC_OFFSET, CC_WIDTH, value),
            final(self.w)@ == final(w)@,
    {
        let bits: u32 = write_field(self.w.0.raw(), CC_OFFSET, CC_WIDTH, value);
        self.w.0.bits(bits);
        self.w
    }
}

impl R {
    /// Bits 0 to 5: the dithering cycle number.
    pub fn dither(&self) -> (field: DITHER_R)
        ensures
            field@ == field_of(self@, DITHER_OFFSET, DITHER_WIDTH),
    {
        let raw: u32 = read_field(self.0.bits(), DITHER_OFFSET, DITHER_WIDTH);
        assert(field_mask(6) == 0x3f) by (bit_vector);
        DITHER_R::new(raw as u8)
    }

    /// Bits 6 to 23: the compare/capture value.
    pub fn cc(&self) -> (field: CC_R)
        ensures
            field@ == field_of(self@, CC_OFFSET, CC_WIDTH),
    {
        CC_R::new(read_field(self.0.bits(), CC_OFFSET, CC_WIDTH))
    }
}

impl W {
    /// Bits 0 to 5: the dithering cycle number.
    pub fn dither(&mut self) -> (field: DITHER_W<'_>)
        ensures
            field.w@ == old(self)@,
            final(self)@ == final(field.w)@,
    {
        DITHER_W { w: self }
    }

    /// Bits 6 to 23: the compare/capture value.
    pub fn cc(&mut self) -> (field: CC_W<'_>)
        ensures
            field.w@ == old(self)@,
            final(self)@ == final(field.w)@,
    {
        CC_W { w: self }
    }

    /// Replaces the whole raw value.
    pub fn bits(&mut self, bits: u32) -> (w: &mut Self)
        ensures
            w@ == bits,
            final(self)@ == final(w)@,
    {
        self.0.bits(bits);
        self
    }
}

/// The two fields do not overlap: a write to one leaves the other as it
/// was, and each holds what was written to it if that fits.
pub proof fn lemma_fields_are_independent(bits: u32, dither: u8, cc: u32)
    requires
        dither <= 0x3f,
        cc <= 0x3_ffff,
    ensures
        field_of(with_field(bits, CC_OFFSET, CC_WIDTH, cc), DITHER_OFFSET, DITHER_WIDTH)
            == field_of(bits, DITHER_OFFSET, DITHER_WIDTH),
        field_of(with_field(bits, DITHER_OFFSET, DITHER_WIDTH, dither as u32), CC_OFFSET, CC_WIDTH)
            == field_of(bits, CC_OFFSET, CC_WIDTH),
        field_of(with_field(bits, CC_OFFSET, CC_WIDTH, cc), CC_OFFSET, CC_WIDTH) == cc,
        field_of(
            with_field(bits, DITHER_OFFSET, DITHER_WIDTH, dither as u32),
            DITHER_OFFSET,
            DITHER_WIDTH,
        ) == dither,
{
    lemma_field_write_keeps_others(bits, CC_OFFSET, CC_WIDTH, cc, DITHER_OFFSET, DITHER_WIDTH);
    lemma_field_write_keeps_others(
        bits,
        DITHER_OFFSET,
        DITHER_WIDTH,
        dither as u32,
        CC_OFFSET,
        CC_WIDTH,
    );
    assert(field_mask(6) == 0x3f && field_mask(18) == 0x3_ffff) by (bit_vector);
    lemma_field_holds_what_fits(bits, CC_OFFSET, CC_WIDTH, cc);
    lemma_field_holds_what_fits(bits, DITHER_OFFSET, DITHER_WIDTH, dither as u32);
}

/// The register: 32 bits wide, readable, writable, 0 after reset.
pub struct CC_DITH6_MODE_SPEC;

impl RegisterSpec for CC_DITH6_MODE_SPEC {
    type Ux = u32;
}

impl Readable for CC_DITH6_MODE_SPEC {
    type Reader = R;
}

impl Writable for CC_DITH6_MODE_SPEC {
    type Writer = W;
}

impl Resettable for CC_DITH6_MODE_SPEC {
    fn reset_value() -> (value: u32)
        ensures
            value == 0,
    {
        0
    }
}

} // verus!
