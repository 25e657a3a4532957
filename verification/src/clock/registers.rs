//! The registers behind the clock tree, and what an access to a register
//! is.

use crate::generic::{field_mask, mask_of, with_bit, with_field, write_field};
use vstd::prelude::*;

verus! {

/// Where the generic clock controller's registers start.
pub const GCLK_BASE: u32 = 0x4000_0c00;

/// Where the power manager's registers start.
pub const PM_BASE: u32 = 0x4000_0400;

/// Where the system controller's registers start.
pub const SYSCTRL_BASE: u32 = 0x4000_0800;

/// Where the flash controller's registers start.
pub const NVMCTRL_BASE: u32 = 0x4100_4000;

/// How wide a register is.
#[derive(Clone, Copy, Debug, PartialEq, Eq, Structural)]
pub enum Width {
    Byte,
    Half,
    Word,
}

impl Width {
    /// The number of bits.
    pub open spec fn bits(self) -> u32 {
        match self {
            Width::Byte => 8,
            Width::Half => 16,
            Width::Word => 32,
        }
    }
}

/// A register that bring-up or the controller works on.
#[derive(Clone, Copy, Debug, PartialEq, Eq, Structural)]
pub enum Register {
    GclkCtrl,
    GclkStatus,
    GclkClkCtrl,
    GclkGenCtrl,
    GclkGenDiv,
    PmCpuSel,
    PmApbASel,
    PmApbBSel,
    PmApbCSel,
    PmApbAMask,
    SysctrlPclksr,
    SysctrlXosc32k,
    SysctrlOsc32k,
    SysctrlOsc8m,
    SysctrlDfllCtrl,
    SysctrlDfllVal,
    SysctrlDfllMul,
    NvmctrlCtrlB,
}

impl Register {
    /// The register's address.
    pub open spec fn location(self) -> u32 {
        match self {
            Register::GclkCtrl => GCLK_BASE,
            Register::GclkStatus => (GCLK_BASE + 0x1) as u32,
            Register::GclkClkCtrl => (GCLK_BASE + 0x2) as u32,
            Register::GclkGenCtrl => (GCLK_BASE + 0x4) as u32,
            Register::GclkGenDiv => (GCLK_BASE + 0x8) as u32,
            Register::PmCpuSel => (PM_BASE + 0x08) as u32,
            Register::PmApbASel => (PM_BASE + 0x09) as u32,
            Register::PmApbBSel => (PM_BASE + 0x0a) as u32,
            Register::PmApbCSel => (PM_BASE + 0x0b) as u32,
            Register::PmApbAMask => (PM_BASE + 0x18) as u32,
            Register::SysctrlPclksr => (SYSCTRL_BASE + 0x0c) as u32,
            Register::SysctrlXosc32k => (SYSCTRL_BASE + 0x14) as u32,
            Register::SysctrlOsc32k => (SYSCTRL_BASE + 0x18) as u32,
            Register::SysctrlOsc8m => (SYSCTRL_BASE + 0x20) as u32,
            Register::SysctrlDfllCtrl => (SYSCTRL_BASE + 0x24) as u32,
            Register::SysctrlDfllVal => (SYSCTRL_BASE + 0x28) as u32,
            Register::SysctrlDfllMul => (SYSCTRL_BASE + 0x2c) as u32,
            Register::NvmctrlCtrlB => (NVMCTRL_BASE + 0x04) as u32,
        }
    }

    /// The register's width.
    pub open spec fn size(self) -> Width {
        match self {
            Register::GclkCtrl
            | Register::GclkStatus
            | Register::PmCpuSel
            | Register::PmApbASel
            | Register::PmApbBSel
            | Register::PmApbCSel => Width::Byte,
            Register::GclkClkCtrl | Register::SysctrlXosc32k | Register::SysctrlDfllCtrl => {
                Width::Half
            },
            _ => Width::Word,
        }
    }

    /// What the register holds after a reset of the chip, for the
    /// registers that are written as a whole: a write starts from this
    /// value. The other registers are only read or modified, and for them
    /// this is 0.
    pub open spec fn reset_value(self) -> u32 {
        match self {
            Register::SysctrlOsc32k => 0x003f_0080,
            Register::SysctrlDfllCtrl => 0x0080,
            _ => 0,
        }
    }

    /// The register's address.
    pub fn address(self) -> (address: u32)
        ensures
            address == self.location(),
    {
        match self {
            Register::GclkCtrl => GCLK_BASE,
            Register::GclkStatus => GCLK_BASE + 0x1,
            Register::GclkClkCtrl => GCLK_BASE + 0x2,
            Register::GclkGenCtrl => GCLK_BASE + 0x4,
            Register::GclkGenDiv => GCLK_BASE + 0x8,
            Register::PmCpuSel => PM_BASE + 0x08,
            Register::PmApbASel => PM_BASE + 0x09,
            Register::PmApbBSel => PM_BASE + 0x0a,
            Register::PmApbCSel => PM_BASE + 0x0b,
            Register::PmApbAMask => PM_BASE + 0x18,
            Register::SysctrlPclksr => SYSCTRL_BASE + 0x0c,
            Register::SysctrlXosc32k => SYSCTRL_BASE + 0x14,
            Register::SysctrlOsc32k => SYSCTRL_BASE + 0x18,
            Register::SysctrlOsc8m => SYSCTRL_BASE + 0x20,
            Register::SysctrlDfllCtrl => SYSCTRL_BASE + 0x24,
            Register::SysctrlDfllVal => SYSCTRL_BASE + 0x28,
            Register::SysctrlDfllMul => SYSCTRL_BASE + 0x2c,
            Register::NvmctrlCtrlB => NVMCTRL_BASE + 0x04,
        }
    }

    /// What a write of the whole register starts from.
    pub fn reset(self) -> (value: u32)
        ensures
            value == self.reset_value(),
    {
        match self {
            Register::SysctrlOsc32k => 0x003f_0080,
            Register::SysctrlDfllCtrl => 0x0080,
            _ => 0,
        }
    }

    /// The register's width.
    pub fn width(self) -> (width: Width)
        ensures
            width == self.size(),
    {
        match self {
            Register::GclkCtrl
            | Register::GclkStatus
            | Register::PmCpuSel
            | Register::PmApbASel
            | Register::PmApbBSel
            | Register::PmApbCSel => Width::Byte,
            Register::GclkClkCtrl | Register::SysctrlXosc32k | Register::SysctrlDfllCtrl => {
                Width::Half
            },
            _ => Width::Word,
        }
    }
}

/// No two registers share a byte.
pub proof fn lemma_registers_apart(a: Register, b: Register)
    requires
        a != b,
    ensures
        a.location() + a.size().bits() / 8 <= b.location() || b.location() + b.size().bits() / 8
            <= a.location(),
{
}

/// A change to the value of a register: first the bits of `clear` are
/// cleared, then the bits of `set` are set. The other bits stay.
#[derive(Clone, Copy, Debug, PartialEq, Eq, Structural)]
pub struct Edit {
    pub clear: u32,
    pub set: u32,
}

impl Edit {
    /// The value that the change makes of `before`.
    pub open spec fn applied(self, before: u32) -> u32 {
        (before & !self.clear) | self.set
    }

    /// Whether the change stays within the low `top` bits.
    pub open spec fn within(self, top: u32) -> bool {
        self.clear <= field_mask(top) && self.set <= field_mask(top)
    }

    /// The change that changes nothing.
    pub open spec fn nothing() -> Edit {
        Edit { clear: 0, set: 0 }
    }

    /// This change, and then the field of `width` bits at `offset` set to
    /// `value`.
    pub open spec fn and_field(self, offset: u32, width: u32, value: u32) -> Edit {
        let field = field_mask(width) << offset;
        Edit {
            clear: self.clear | field,
            set: (self.set & !field) | ((value & field_mask(width)) << offset),
        }
    }

    /// This change, and then bit `n` set to `value`.
    pub open spec fn and_flag(self, n: u32, value: bool) -> Edit {
        self.and_field(
            n,
            1,
            if value {
                1
            } else {
                0
            },
        )
    }

    /// The change that changes nothing.
    pub fn none() -> (edit: Edit)
        ensures
            edit == Edit::nothing(),
    {
        Edit { clear: 0, set: 0 }
    }

    /// This change, and then the field of `width` bits at `offset` set to
    /// the low `width` bits of `value`.
    pub fn field(self, offset: u32, width: u32, value: u32) -> (edit: Edit)
        requires
            0 < width,
            offset + width <= 32,
        ensures
            edit == self.and_field(offset, width, value),
            forall|top: u32|
                self.within(top) && offset + width <= top <= 32 ==> #[trigger] edit.within(top),
    {
        let mask: u32 = mask_of(width);
        let field: u32 = mask << offset;
        proof {
            assert forall|top: u32| self.within(top) && offset + width <= top <= 32 implies (
            #[trigger] self.and_field(offset, width, value).within(top)) by {
                self.lemma_within(offset, width, value, top);
            }
        }
        Edit { clear: self.clear | field, set: (self.set & !field) | ((value & mask) << offset) }
    }

    /// This change, and then bit `n` set to `value`.
    pub fn flag(self, n: u32, value: bool) -> (edit: Edit)
        requires
            n < 32,
        ensures
            edit == self.and_flag(n, value),
            forall|top: u32| self.within(top) && n < top <= 32 ==> #[trigger] edit.within(top),
    {
        self.field(n, 1, if value { 1 } else { 0 })
    }

    /// The value that the change makes of `before`.
    pub fn apply(self, before: u32) -> (after: u32)
        ensures
            after == self.applied(before),
            forall|top: u32|
                #[trigger] self.within(top) && before <= field_mask(top) && 0 < top <= 32
                    ==> after <= field_mask(top),
    {
        proof {
            assert forall|top: u32|
                #[trigger] self.within(top) && before <= field_mask(top) && 0 < top
                    <= 32 implies self.applied(before) <= field_mask(top) by {
                self.lemma_within(0, 1, 0, top);
            }
        }
        (before & !self.clear) | self.set
    }

    /// The change that changes nothing leaves every value as it is.
    pub proof fn lemma_nothing(before: u32)
        ensures
            Edit::nothing().applied(before) == before,
    {
        assert((before & !0u32) | 0u32 == before) by (bit_vector);
    }

    /// A change followed by a field is the change, and then the field
    /// written to what the change has made.
    pub proof fn lemma_and_field(self, offset: u32, width: u32, value: u32, before: u32)
        ensures
            self.and_field(offset, width, value).applied(before) == with_field(
                self.applied(before),
                offset,
                width,
                value,
            ),
    {
        let c = self.clear;
        let s = self.set;
        let f = field_mask(width) << offset;
        let v = (value & field_mask(width)) << offset;
        assert((before & !(c | f)) | ((s & !f) | v) == (((before & !c) | s) & !f) | v)
            by (bit_vector);
    }

    /// A change followed by a flag is the change, and then the bit written
    /// to what the change has made.
    pub proof fn lemma_and_flag(self, n: u32, value: bool, before: u32)
        requires
            n < 32,
        ensures
            self.and_flag(n, value).applied(before) == with_bit(self.applied(before), n, value),
    {
        let b: u32 = if value {
            1
        } else {
            0
        };
        self.lemma_and_field(n, 1, b, before);
        let x = self.applied(before);
        assert((x & !(field_mask(1) << n)) | ((b & field_mask(1)) << n) == (if b == 1u32 {
            x | (1u32 << n)
        } else {
            x & !(1u32 << n)
        })) by (bit_vector)
            requires
                n < 32,
                b == 0u32 || b == 1u32,
        ;
    }

    /// A change within the low `top` bits, followed by a field below bit
    /// `top`, is within the low `top` bits, and makes of a value of `top`
    /// bits a value of `top` bits.
    pub proof fn lemma_within(self, offset: u32, width: u32, value: u32, top: u32)
        requires
            0 < width,
            offset + width <= top <= 32,
            self.within(top),
        ensures
            self.and_field(offset, width, value).within(top),
            forall|before: u32|
                before <= field_mask(top) ==> #[trigger] self.applied(before) <= field_mask(top),
    {
        let c = self.clear;
        let s = self.set;
        let limit = field_mask(top);
        let mask = field_mask(width);
        assert((c | (mask << offset)) <= limit && ((s & !(mask << offset)) | ((value & mask)
            << offset)) <= limit) by (bit_vector)
            requires
                0 < width,
                offset + width <= top,
                top <= 32,
                c <= limit,
                s <= limit,
                limit == (if top >= 32 {
                    0xffff_ffffu32
                } else {
                    ((1u32 << top) - 1) as u32
                }),
                mask == (if width >= 32 {
                    0xffff_ffffu32
                } else {
                    ((1u32 << width) - 1) as u32
                }),
        ;
        assert forall|before: u32| before <= limit implies #[trigger] self.applied(before)
            <= limit by {
            assert((before & !c) | s <= limit) by (bit_vector)
                requires
                    before <= limit,
                    s <= limit,
                    top <= 32,
                    limit == (if top >= 32 {
                        0xffff_ffffu32
                    } else {
                        ((1u32 << top) - 1) as u32
                    }),
            ;
        }
    }
}

/// One access to a register.
#[derive(Clone, Copy, Debug, PartialEq, Eq, Structural)]
pub enum Access {
    /// Store `value` to the register, at the register's width.
    Write { register: Register, value: u32 },
    /// Store `byte` to the lowest byte of the register, with an access of
    /// one byte.
    WriteByte { register: Register, byte: u8 },
    /// Load the register, make the change, and store what it gives.
    Modify { register: Register, edit: Edit },
    /// Load the register again and again until no bit of `mask` is set.
    WaitClear { register: Register, mask: u32 },
    /// Load the register again and again until every bit of `mask` is set.
    WaitSet { register: Register, mask: u32 },
}

impl Access {
    /// Whether what is stored, or asked for, is within the register's
    /// width.
    pub open spec fn fits(self) -> bool {
        match self {
            Access::Write { register, value } => value <= field_mask(register.size().bits()),
            Access::WriteByte { .. } => true,
            Access::Modify { register, edit } => edit.within(register.size().bits()),
            Access::WaitClear { register, mask } => mask <= field_mask(register.size().bits()),
            Access::WaitSet { register, mask } => mask <= field_mask(register.size().bits()),
        }
    }

    /// What the register holds after the access, if it held `before`.
    pub open spec fn stored(self, before: u32) -> u32 {
        match self {
            Access::Write { value, .. } => value,
            Access::WriteByte { byte, .. } => with_field(before, 0, 8, byte as u32),
            Access::Modify { edit, .. } => edit.applied(before),
            _ => before,
        }
    }

    /// Whether the access is over once the register is loaded as `value`.
    pub open spec fn passes(self, value: u32) -> bool {
        match self {
            Access::WaitClear { mask, .. } => value & mask == 0,
            Access::WaitSet { mask, .. } => value & mask == mask,
            _ => true,
        }
    }

    /// What is to be in the register after the access, if `before` was
    /// loaded from it. For a wait that is `before` itself.
    pub fn store(&self, before: u32) -> (after: u32)
        ensures
            after == self.stored(before),
    {
        match self {
            Access::Write { value, .. } => *value,
            Access::WriteByte { byte, .. } => write_field(before, 0, 8, *byte as u32),
            Access::Modify { edit, .. } => edit.apply(before),
            _ => before,
        }
    }

    /// Whether the access is over once `value` has been loaded from the
    /// register. An access that is no wait is over at once.
    pub fn is_over(&self, value: u32) -> (over: bool)
        ensures
            over == self.passes(value),
    {
        match self {
            Access::WaitClear { mask, .. } => value & *mask == 0,
            Access::WaitSet { mask, .. } => value & *mask == *mask,
            _ => true,
        }
    }
}

/// The largest value of a register of each width.
pub proof fn lemma_width_limits()
    ensures
        field_mask(Width::Byte.bits()) == 0xff,
        field_mask(Width::Half.bits()) == 0xffff,
        field_mask(Width::Word.bits()) == 0xffff_ffff,
{
    assert(field_mask(8) == 0xff && field_mask(16) == 0xffff && field_mask(32) == 0xffff_ffff)
        by (bit_vector);
}

} // verus!
