//! Building blocks shared by every register module: the raw reader and
//! writer values, field readers, and the bit arithmetic that field
//! accessors are specified with.

use core::marker::PhantomData;
use vstd::prelude::*;

verus! {

/// Bit `n` of `bits`.
pub open spec fn bit_of(bits: u32, n: u32) -> bool {
    (bits >> n) & 1u32 != 0u32
}

/// `bits` with bit `n` replaced by `value`.
pub open spec fn with_bit(bits: u32, n: u32, value: bool) -> u32 {
    if value {
        bits | (1u32 << n)
    } else {
        bits & !(1u32 << n)
    }
}

/// The mask of a field `width` bits wide, right-aligned.
pub open spec fn field_mask(width: u32) -> u32 {
    if width >= 32 {
        0xffff_ffffu32
    } else {
        ((1u32 << width) - 1) as u32
    }
}

/// The `width`-bit field of `bits` whose lowest bit is bit `offset`.
pub open spec fn field_of(bits: u32, offset: u32, width: u32) -> u32 {
    (bits >> offset) & field_mask(width)
}

/// `bits` with the `width`-bit field at `offset` replaced by the low
/// `width` bits of `value`.
pub open spec fn with_field(bits: u32, offset: u32, width: u32, value: u32) -> u32 {
    (bits & !(field_mask(width) << offset)) | ((value & field_mask(width)) << offset)
}

/// A register: names the integer type that holds its raw value.
pub trait RegisterSpec {
    type Ux;
}

/// A register that can be read; `Reader` is what a read hands out.
pub trait Readable: RegisterSpec {
    type Reader;
}

/// A register that can be written; `Writer` is what a write is built in.
pub trait Writable: RegisterSpec {
    type Writer;
}

/// A register with a documented value after reset.
pub trait Resettable: RegisterSpec {
    fn reset_value() -> Self::Ux;
}

/// The raw value read from register `REG`.
pub struct R<REG: RegisterSpec> {
    pub(crate) bits: REG::Ux,
    pub(crate) _reg: PhantomData<REG>,
}

/// The raw value about to be written to register `REG`.
pub struct W<REG: RegisterSpec> {
    pub(crate) bits: REG::Ux,
    pub(crate) _reg: PhantomData<REG>,
}

impl<REG: RegisterSpec> R<REG> {
    /// The raw value.
    pub closed spec fn view(&self) -> REG::Ux {
        self.bits
    }

    /// A reader over the raw value `bits`.
    pub fn new(bits: REG::Ux) -> (r: Self)
        ensures
            r@ == bits,
    {
        R { bits, _reg: PhantomData }
    }

    /// The raw value that was read.
    pub fn bits(&self) -> (bits: REG::Ux)
        where REG::Ux: Copy
        ensures
            bits == self@,
    {
        self.bits
    }
}

impl<REG: RegisterSpec> W<REG> {
    /// The raw value.
    pub closed spec fn view(&self) -> REG::Ux {
        self.bits
    }

    /// A writer that starts from the raw value `bits`.
    pub fn new(bits: REG::Ux) -> (w: Self)
        ensures
            w@ == bits,
    {
        W { bits, _reg: PhantomData }
    }

    /// The raw value as it stands.
    pub fn raw(&self) -> (bits: REG::Ux)
        where REG::Ux: Copy
        ensures
            bits == self@,
    {
        self.bits
    }

    /// Replaces the whole raw value.
    pub fn bits(&mut self, bits: REG::Ux) -> (w: &mut Self)
        ensures
            w@ == bits,
            final(self)@ == final(w)@,
    {
        self.bits = bits;
        self
    }
}

/// The value of one field of a register, as read. `U` is the field's raw
/// type and `T` the type it is presented as.
pub struct FieldReader<U, T> {
    pub(crate) bits: U,
    pub(crate) _reg: PhantomData<T>,
}

impl<U: Copy, T> FieldReader<U, T> {
    /// The field's raw value.
    pub closed spec fn view(&self) -> U {
        self.bits
    }

    /// A field reader that holds `bits`.
    pub(crate) fn new(bits: U) -> (r: Self)
        ensures
            r@ == bits,
    {
        FieldReader { bits, _reg: PhantomData }
    }

    /// The field's raw value.
    pub fn bits(&self) -> (bits: U)
        ensures
            bits == self@,
    {
        self.bits
    }
}

impl<FI> FieldReader<bool, FI> {
    /// The field's bit.
    pub fn bit(&self) -> (b: bool)
        ensures
            b == self@,
    {
        self.bits
    }

    /// Whether the bit is 0.
    pub fn bit_is_clear(&self) -> (b: bool)
        ensures
            b == !self@,
    {
        !self.bit()
    }

    /// Whether the bit is 1.
    pub fn bit_is_set(&self) -> (b: bool)
        ensures
            b == self@,
    {
        self.bit()
    }
}

/// Reads bit `n` of a raw register value.
pub(crate) fn read_bit(bits: u32, n: u32) -> (b: bool)
    requires
        n < 32,
    ensures
        b == bit_of(bits, n),
{
    ((bits >> n) & 0x01) != 0
}

/// Writes `value` to bit `n` of a raw register value and leaves the other
/// bits as they are.
pub(crate) fn write_bit(bits: u32, n: u32, value: bool) -> (r: u32)
    requires
        n < 32,
    ensures
        r == with_bit(bits, n, value),
{
    let b: u32 = if value { 1 } else { 0 };
    assert((bits & !(1u32 << n)) | ((b & 1u32) << n) == (if b == 1u32 {
        bits | (1u32 << n)
    } else {
        bits & !(1u32 << n)
    })) by (bit_vector)
        requires
            n < 32,
            b == 0u32 || b == 1u32,
    ;
    (bits & !(0x01 << n)) | ((b & 0x01) << n)
}

/// Reads the field of `width` bits at `offset` of a raw register value.
pub(crate) fn read_field(bits: u32, offset: u32, width: u32) -> (v: u32)
    requires
        0 < width,
        offset + width <= 32,
    ensures
        v == field_of(bits, offset, width),
        v <= field_mask(width),
{
    let mask: u32 = mask_of(width);
    assert((bits >> offset) & mask <= mask) by (bit_vector);
    (bits >> offset) & mask
}

/// Writes the low `width` bits of `value` to the field at `offset` of a raw
/// register value and leaves the other bits as they are.
pub(crate) fn write_field(bits: u32, offset: u32, width: u32, value: u32) -> (r: u32)
    requires
        0 < width,
        offset + width <= 32,
    ensures
        r == with_field(bits, offset, width, value),
{
    let mask: u32 = mask_of(width);
    (bits & !(mask << offset)) | ((value & mask) << offset)
}

/// The right-aligned mask of `width` ones.
pub(crate) fn mask_of(width: u32) -> (mask: u32)
    requires
        0 < width <= 32,
    ensures
        mask == field_mask(width),
{
    if width >= 32 {
        0xffff_ffff
    } else {
        assert((1u32 << width) >= 1u32) by (bit_vector)
            requires
                width < 32,
        ;
        (1u32 << width) - 1
    }
}

/// A bit that was written is the bit that is read back.
pub proof fn lemma_bit_written_is_read(bits: u32, n: u32, value: bool)
    requires
        n < 32,
    ensures
        bit_of(with_bit(bits, n, value), n) == value,
{
    assert(((bits | (1u32 << n)) >> n) & 1u32 == 1u32) by (bit_vector)
        requires
            n < 32,
    ;
    assert(((bits & !(1u32 << n)) >> n) & 1u32 == 0u32) by (bit_vector)
        requires
            n < 32,
    ;
}

/// Writing one bit leaves every other bit of the register as it was.
pub proof fn lemma_bit_write_keeps_others(bits: u32, n: u32, value: bool, m: u32)
    requires
        n < 32,
        m < 32,
        m != n,
    ensures
        bit_of(with_bit(bits, n, value), m) == bit_of(bits, m),
{
    assert(((bits | (1u32 << n)) >> m) & 1u32 == (bits >> m) & 1u32) by (bit_vector)
        requires
            n < 32,
            m < 32,
            m != n,
    ;
    assert(((bits & !(1u32 << n)) >> m) & 1u32 == (bits >> m) & 1u32) by (bit_vector)
        requires
            n < 32,
            m < 32,
            m != n,
    ;
}

/// Bit by bit, what a field holds: bit `k` of the field is bit
/// `offset + k` of the register, and the field has no bit from `width` on.
pub proof fn lemma_field_bits(bits: u32, offset: u32, width: u32, k: u32)
    requires
        0 < width,
        offset + width <= 32,
        k < 32,
    ensures
        bit_of(field_of(bits, offset, width), k) == (k < width && bit_of(
            bits,
            (offset + k) as u32,
        )),
{
    let mask = field_mask(width);
    let at = (offset + k) as u32;
    assert((((bits >> offset) & mask) >> k) & 1u32 != 0u32 <==> k < width && (bits >> at) & 1u32
        != 0u32) by (bit_vector)
        requires
            0 < width,
            offset + width <= 32,
            k < 32,
            at == offset + k,
            mask == (if width >= 32 {
                0xffff_ffffu32
            } else {
                ((1u32 << width) - 1) as u32
            }),
    ;
}

/// Bit by bit, what a write to a field does: inside the field, bit
/// `offset + k` of the register becomes bit `k` of the value; outside it,
/// every bit stays as it was.
pub proof fn lemma_field_write_bits(bits: u32, offset: u32, width: u32, value: u32, m: u32)
    requires
        0 < width,
        offset + width <= 32,
        m < 32,
    ensures
        bit_of(with_field(bits, offset, width, value), m) == (if offset <= m < offset + width {
            bit_of(value, (m - offset) as u32)
        } else {
            bit_of(bits, m)
        }),
{
    let mask = field_mask(width);
    let k = if m >= offset {
        (m - offset) as u32
    } else {
        0u32
    };
    assert((((bits & !(mask << offset)) | ((value & mask) << offset)) >> m) & 1u32 != 0u32 <==> (
    if offset <= m && m < offset + width {
        (value >> k) & 1u32 != 0u32
    } else {
        (bits >> m) & 1u32 != 0u32
    })) by (bit_vector)
        requires
            0 < width,
            offset + width <= 32,
            m < 32,
            m >= offset ==> k == m - offset,
            mask == (if width >= 32 {
                0xffff_ffffu32
            } else {
                ((1u32 << width) - 1) as u32
            }),
    ;
}

/// A field that was written reads back as the low `width` bits of what
/// was written.
pub proof fn lemma_field_written_is_read(bits: u32, offset: u32, width: u32, value: u32)
    requires
        0 < width,
        offset + width <= 32,
    ensures
        field_of(with_field(bits, offset, width, value), offset, width) == value & field_mask(
            width,
        ),
{
    let mask = field_mask(width);
    assert((((bits & !(mask << offset)) | ((value & mask) << offset)) >> offset) & mask == value
        & mask) by (bit_vector)
        requires
            0 < width,
            offset + width <= 32,
            mask == (if width >= 32 {
                0xffff_ffffu32
            } else {
                ((1u32 << width) - 1) as u32
            }),
    ;
}

/// A value that fits the field is read back as it was written.
pub proof fn lemma_field_holds_what_fits(bits: u32, offset: u32, width: u32, value: u32)
    requires
        0 < width,
        offset + width <= 32,
        value <= field_mask(width),
    ensures
        field_of(with_field(bits, offset, width, value), offset, width) == value,
{
    lemma_field_written_is_read(bits, offset, width, value);
    let mask = field_mask(width);
    assert(value & mask == value) by (bit_vector)
        requires
            0 < width <= 32,
            value <= mask,
            mask == (if width >= 32 {
                0xffff_ffffu32
            } else {
                ((1u32 << width) - 1) as u32
            }),
    ;
}

/// Writing one field leaves every field that does not overlap it as it
/// was.
pub proof fn lemma_field_write_keeps_others(
    bits: u32,
    offset: u32,
    width: u32,
    value: u32,
    other_offset: u32,
    other_width: u32,
)
    requires
        0 < width,
        offset + width <= 32,
        0 < other_width,
        other_offset + other_width <= 32,
        other_offset + other_width <= offset || offset + width <= other_offset,
    ensures
        field_of(with_field(bits, offset, width, value), other_offset, other_width) == field_of(
            bits,
            other_offset,
            other_width,
        ),
{
    let mask = field_mask(width);
    let other = field_mask(other_width);
    assert((((bits & !(mask << offset)) | ((value & mask) << offset)) >> other_offset) & other
        == (bits >> other_offset) & other) by (bit_vector)
        requires
            0 < width,
            offset + width <= 32,
            0 < other_width,
            other_offset + other_width <= 32,
            other_offset + other_width <= offset || offset + width <= other_offset,
            mask == (if width >= 32 {
                0xffff_ffffu32
            } else {
                ((1u32 << width) - 1) as u32
            }),
            other == (if other_width >= 32 {
                0xffff_ffffu32
            } else {
                ((1u32 << other_width) - 1) as u32
            }),
    ;
}

} // verus!
