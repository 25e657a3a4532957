//! How each step is carried out as accesses to registers: which register
//! it works on, and where in the register each of its fields lies.

use crate::clock::ids::{ClockGenId, ClockId, ClockSource};
use crate::clock::registers::{lemma_width_limits, Access, Edit, Register};
use crate::clock::steps::{Bus, FlashWaitStates, Step};
use crate::generic::{bit_of, field_mask, field_of, with_bit, with_field};
use vstd::prelude::*;

verus! {

/// The number that the hardware has for a flash wait state setting.
pub open spec fn wait_states_number(rws: FlashWaitStates) -> u32 {
    match rws {
        FlashWaitStates::Single => 0,
        FlashWaitStates::Half => 1,
        FlashWaitStates::Dual => 2,
    }
}

/// The divider register of a clock domain.
pub open spec fn divider_register(bus: Bus) -> Register {
    match bus {
        Bus::Cpu => Register::PmCpuSel,
        Bus::ApbA => Register::PmApbASel,
        Bus::ApbB => Register::PmApbBSel,
        Bus::ApbC => Register::PmApbCSel,
    }
}

/// The register that a step writes or modifies or waits on. The wait for
/// the reset of the generator tree waits on two, and this is the first.
pub open spec fn target(step: Step) -> Register {
    match step {
        Step::WriteGclkCtrl { .. } | Step::WaitGclkReset => Register::GclkCtrl,
        Step::WaitGclkSync => Register::GclkStatus,
        Step::WriteGenDiv { .. } => Register::GclkGenDiv,
        Step::WriteGenCtrl { .. } | Step::SelectGenCtrl { .. } | Step::ModifyGenCtrl { .. } => {
            Register::GclkGenCtrl
        },
        Step::WriteClkCtrl { .. } => Register::GclkClkCtrl,
        Step::ModifyFlashWaitStates { .. } | Step::ModifyFlashManualWrite { .. } => {
            Register::NvmctrlCtrlB
        },
        Step::ModifyApbAMask { .. } => Register::PmApbAMask,
        Step::WriteBusDivider { bus, .. } => divider_register(bus),
        Step::ModifyOsc8m { .. } => Register::SysctrlOsc8m,
        Step::WriteOsc32k { .. } => Register::SysctrlOsc32k,
        Step::ModifyXosc32k { .. } | Step::ModifyXosc32kEnable { .. } => Register::SysctrlXosc32k,
        Step::WriteDfllCtrl { .. } | Step::ModifyDfllCtrlEnable { .. } => {
            Register::SysctrlDfllCtrl
        },
        Step::WriteDfllVal { .. } => Register::SysctrlDfllVal,
        Step::WriteDfllMul { .. } => Register::SysctrlDfllMul,
        Step::WaitOsc32kReady
        | Step::WaitXosc32kReady
        | Step::WaitDfllReady
        | Step::WaitDfllLocked => Register::SysctrlPclksr,
    }
}

/// The fields that a step sets, each at its place in the register. For a
/// step that waits this is no change at all.
pub open spec fn edit(step: Step) -> Edit {
    let none = Edit::nothing();
    match step {
        // SWRST is bit 0.
        Step::WriteGclkCtrl { swrst } => none.and_flag(0, swrst),
        // ID is bits 0 to 3, DIV bits 8 to 23.
        Step::WriteGenDiv { gclk, div } => none.and_field(0, 4, gclk.number() as u32).and_field(
            8,
            16,
            div as u32,
        ),
        // ID is bits 0 to 3, SRC bits 8 to 12, GENEN bit 16, IDC bit 17,
        // OE bit 19, DIVSEL bit 20.
        Step::WriteGenCtrl { gclk, src, divsel, idc, genen, oe } => none.and_field(
            0,
            4,
            gclk.number() as u32,
        ).and_field(8, 5, src.number() as u32).and_flag(20, divsel).and_flag(17, idc).and_flag(
            16,
            genen,
        ).and_flag(19, oe),
        // ID is bits 0 to 5, GEN bits 8 to 11, CLKEN bit 14.
        Step::WriteClkCtrl { clock, gclk, clken } => none.and_field(
            0,
            6,
            clock.number() as u32,
        ).and_field(8, 4, gclk.number() as u32).and_flag(14, clken),
        // RUNSTDBY is bit 21.
        Step::ModifyGenCtrl { runstdby } => none.and_flag(21, runstdby),
        // RWS is bits 1 to 4.
        Step::ModifyFlashWaitStates { rws } => none.and_field(1, 4, wait_states_number(rws)),
        // MANW is bit 7.
        Step::ModifyFlashManualWrite { manw } => none.and_flag(7, manw),
        // GCLK is bit 3.
        Step::ModifyApbAMask { gclk_ } => none.and_flag(3, gclk_),
        // The divider is bits 0 to 2.
        Step::WriteBusDivider { exponent, .. } => none.and_field(0, 3, exponent as u32),
        // PRESC is bits 8 and 9, ONDEMAND bit 7.
        Step::ModifyOsc8m { presc, ondemand } => none.and_field(8, 2, presc as u32).and_flag(
            7,
            ondemand,
        ),
        // ENABLE is bit 1, EN32K bit 2, RUNSTDBY bit 6, ONDEMAND bit 7,
        // STARTUP bits 8 to 10, CALIB bits 16 to 22.
        Step::WriteOsc32k { ondemand, calib, startup, en32k, enable, runstdby } => none.and_flag(
            7,
            ondemand,
        ).and_field(16, 7, calib as u32).and_field(8, 3, startup as u32).and_flag(
            2,
            en32k,
        ).and_flag(1, enable).and_flag(6, runstdby),
        // XTALEN is bit 2, EN32K bit 3, RUNSTDBY bit 6, ONDEMAND bit 7,
        // STARTUP bits 8 to 10.
        Step::ModifyXosc32k { startup, ondemand, en32k, xtalen, runstdby } => none.and_field(
            8,
            3,
            startup as u32,
        ).and_flag(7, ondemand).and_flag(3, en32k).and_flag(2, xtalen).and_flag(6, runstdby),
        // ENABLE is bit 1.
        Step::ModifyXosc32kEnable { enable } => none.and_flag(1, enable),
        // MODE is bit 2, USBCRM bit 5, ONDEMAND bit 7, CCDIS bit 8,
        // QLDIS bit 9, BPLCKC bit 10, WAITLOCK bit 11.
        Step::WriteDfllCtrl { flags } => none.and_flag(7, flags.ondemand).and_flag(
            2,
            flags.mode,
        ).and_flag(8, flags.ccdis).and_flag(5, flags.usbcrm).and_flag(10, flags.bplckc).and_flag(
            11,
            flags.waitlock,
        ).and_flag(9, flags.qldis),
        // FINE is bits 0 to 9, COARSE bits 10 to 15.
        Step::WriteDfllVal { coarse, fine } => none.and_field(10, 6, coarse as u32).and_field(
            0,
            10,
            fine as u32,
        ),
        // MUL is bits 0 to 15, FSTEP bits 16 to 25, CSTEP bits 26 to 31.
        Step::WriteDfllMul { cstep, fstep, mul } => none.and_field(26, 6, cstep as u32).and_field(
            16,
            10,
            fstep as u32,
        ).and_field(0, 16, mul as u32),
        // ENABLE is bit 1.
        Step::ModifyDfllCtrlEnable { enable } => none.and_flag(1, enable),
        _ => none,
    }
}

/// SWRST of the generator tree's control register: bit 0.
pub const GCLK_SWRST: u32 = 0x01;

/// SYNCBUSY of the generator tree's status register: bit 7.
pub const GCLK_SYNCBUSY: u32 = 0x80;

/// XOSC32KRDY of the system controller's status register: bit 1.
pub const PCLKSR_XOSC32KRDY: u32 = 0x02;

/// OSC32KRDY of the system controller's status register: bit 2.
pub const PCLKSR_OSC32KRDY: u32 = 0x04;

/// DFLLRDY of the system controller's status register: bit 4.
pub const PCLKSR_DFLLRDY: u32 = 0x10;

/// DFLLLCKF and DFLLLCKC of the system controller's status register:
/// bits 6 and 7.
pub const PCLKSR_DFLLLOCKED: u32 = 0xc0;

/// The accesses that carry out a step, in order. A write stores the
/// step's fields on top of the register's value after reset. The wait for
/// the reset of the generator tree waits for the reset bit first and for
/// synchronization then: the reset bit, once it has cleared, stays clear.
pub open spec fn lowered(step: Step) -> Seq<Access> {
    let register = target(step);
    match step {
        Step::WriteGclkCtrl { .. }
        | Step::WriteGenDiv { .. }
        | Step::WriteGenCtrl { .. }
        | Step::WriteClkCtrl { .. }
        | Step::WriteBusDivider { .. }
        | Step::WriteOsc32k { .. }
        | Step::WriteDfllCtrl { .. }
        | Step::WriteDfllVal { .. }
        | Step::WriteDfllMul { .. } => seq![
            Access::Write { register, value: edit(step).applied(register.reset_value()) },
        ],
        Step::ModifyGenCtrl { .. }
        | Step::ModifyFlashWaitStates { .. }
        | Step::ModifyFlashManualWrite { .. }
        | Step::ModifyApbAMask { .. }
        | Step::ModifyOsc8m { .. }
        | Step::ModifyXosc32k { .. }
        | Step::ModifyXosc32kEnable { .. }
        | Step::ModifyDfllCtrlEnable { .. } => seq![Access::Modify { register, edit: edit(step) }],
        Step::SelectGenCtrl { gclk } => seq![
            Access::WriteByte { register, byte: gclk.number() as u8 },
        ],
        Step::WaitGclkReset => seq![
            Access::WaitClear { register: Register::GclkCtrl, mask: GCLK_SWRST },
            Access::WaitClear { register: Register::GclkStatus, mask: GCLK_SYNCBUSY },
        ],
        Step::WaitGclkSync => seq![Access::WaitClear { register, mask: GCLK_SYNCBUSY }],
        Step::WaitOsc32kReady => seq![Access::WaitSet { register, mask: PCLKSR_OSC32KRDY }],
        Step::WaitXosc32kReady => seq![Access::WaitSet { register, mask: PCLKSR_XOSC32KRDY }],
        Step::WaitDfllReady => seq![Access::WaitSet { register, mask: PCLKSR_DFLLRDY }],
        Step::WaitDfllLocked => seq![Access::WaitSet { register, mask: PCLKSR_DFLLLOCKED }],
    }
}

/// The accesses that carry out a list of steps, in order.
pub open spec fn lowered_all(steps: Seq<Step>) -> Seq<Access>
    decreases steps.len(),
{
    if steps.len() == 0 {
        Seq::empty()
    } else {
        lowered_all(steps.drop_last()) + lowered(steps.last())
    }
}

/// The register that a step works on.
pub fn target_of(step: &Step) -> (register: Register)
    ensures
        register == target(*step),
{
    match step {
        Step::WriteGclkCtrl { .. } | Step::WaitGclkReset => Register::GclkCtrl,
        Step::WaitGclkSync => Register::GclkStatus,
        Step::WriteGenDiv { .. } => Register::GclkGenDiv,
        Step::WriteGenCtrl { .. } | Step::SelectGenCtrl { .. } | Step::ModifyGenCtrl { .. } => {
            Register::GclkGenCtrl
        },
        Step::WriteClkCtrl { .. } => Register::GclkClkCtrl,
        Step::ModifyFlashWaitStates { .. } | Step::ModifyFlashManualWrite { .. } => {
            Register::NvmctrlCtrlB
        },
        Step::ModifyApbAMask { .. } => Register::PmApbAMask,
        Step::WriteBusDivider { bus, .. } => match bus {
            Bus::Cpu => Register::PmCpuSel,
            Bus::ApbA => Register::PmApbASel,
            Bus::ApbB => Register::PmApbBSel,
            Bus::ApbC => Register::PmApbCSel,
        },
        Step::ModifyOsc8m { .. } => Register::SysctrlOsc8m,
        Step::WriteOsc32k { .. } => Register::SysctrlOsc32k,
        Step::ModifyXosc32k { .. } | Step::ModifyXosc32kEnable { .. } => Register::SysctrlXosc32k,
        Step::WriteDfllCtrl { .. } | Step::ModifyDfllCtrlEnable { .. } => {
            Register::SysctrlDfllCtrl
        },
        Step::WriteDfllVal { .. } => Register::SysctrlDfllVal,
        Step::WriteDfllMul { .. } => Register::SysctrlDfllMul,
        Step::WaitOsc32kReady
        | Step::WaitXosc32kReady
        | Step::WaitDfllReady
        | Step::WaitDfllLocked => Register::SysctrlPclksr,
    }
}

/// The fields that a step sets, each at its place in the register. The
/// change stays within the width of the register.
pub fn edit_of(step: &Step) -> (change: Edit)
    ensures
        change == edit(*step),
        change.within(target(*step).size().bits()),
{
    let none = Edit::none();
    match *step {
        Step::WriteGclkCtrl { swrst } => none.flag(0, swrst),
        Step::WriteGenDiv { gclk, div } => {
            let id: u8 = u8::from(gclk);
            none.field(0, 4, id as u32).field(8, 16, div as u32)
        },
        Step::WriteGenCtrl { gclk, src, divsel, idc, genen, oe } => {
            let id: u8 = u8::from(gclk);
            let source: u8 = u8::from(src);
            none.field(0, 4, id as u32).field(8, 5, source as u32).flag(20, divsel).flag(
                17,
                idc,
            ).flag(16, genen).flag(19, oe)
        },
        Step::WriteClkCtrl { clock, gclk, clken } => {
            let id: u8 = u8::from(clock);
            let generator: u8 = u8::from(gclk);
            none.field(0, 6, id as u32).field(8, 4, generator as u32).flag(14, clken)
        },
        Step::ModifyGenCtrl { runstdby } => none.flag(21, runstdby),
        Step::ModifyFlashWaitStates { rws } => {
            let number: u32 = match rws {
                FlashWaitStates::Single => 0,
                FlashWaitStates::Half => 1,
                FlashWaitStates::Dual => 2,
            };
            none.field(1, 4, number)
        },
        Step::ModifyFlashManualWrite { manw } => none.flag(7, manw),
        Step::ModifyApbAMask { gclk_ } => none.flag(3, gclk_),
        Step::WriteBusDivider { exponent, .. } => none.field(0, 3, exponent as u32),
        Step::ModifyOsc8m { presc, ondemand } => none.field(8, 2, presc as u32).flag(7, ondemand),
        Step::WriteOsc32k { ondemand, calib, startup, en32k, enable, runstdby } => none.flag(
            7,
            ondemand,
        ).field(16, 7, calib as u32).field(8, 3, startup as u32).flag(2, en32k).flag(
            1,
            enable,
        ).flag(6, runstdby),
        Step::ModifyXosc32k { startup, ondemand, en32k, xtalen, runstdby } => none.field(
            8,
            3,
            startup as u32,
        ).flag(7, ondemand).flag(3, en32k).flag(2, xtalen).flag(6, runstdby),
        Step::ModifyXosc32kEnable { enable } => none.flag(1, enable),
        Step::WriteDfllCtrl { flags } => none.flag(7, flags.ondemand).flag(2, flags.mode).flag(
            8,
            flags.ccdis,
        ).flag(5, flags.usbcrm).flag(10, flags.bplckc).flag(11, flags.waitlock).flag(
            9,
            flags.qldis,
        ),
        Step::WriteDfllVal { coarse, fine } => none.field(10, 6, coarse as u32).field(
            0,
            10,
            fine as u32,
        ),
        Step::WriteDfllMul { cstep, fstep, mul } => none.field(26, 6, cstep as u32).field(
            16,
            10,
            fstep as u32,
        ).field(0, 16, mul as u32),
        Step::ModifyDfllCtrlEnable { enable } => none.flag(1, enable),
        _ => none,
    }
}

/// The accesses that carry out `step`, in order. Each is within the width
/// of its register.
pub fn lower(step: &Step) -> (accesses: Vec<Access>)
    ensures
        accesses@ == lowered(*step),
        forall|i: int| 0 <= i < accesses@.len() ==> (#[trigger] accesses@[i]).fits(),
{
    let register = target_of(step);
    let mut accesses: Vec<Access> = Vec::new();
    proof {
        lemma_width_limits();
    }
    match *step {
        Step::WriteGclkCtrl { .. }
        | Step::WriteGenDiv { .. }
        | Step::WriteGenCtrl { .. }
        | Step::WriteClkCtrl { .. }
        | Step::WriteBusDivider { .. }
        | Step::WriteOsc32k { .. }
        | Step::WriteDfllCtrl { .. }
        | Step::WriteDfllVal { .. }
        | Step::WriteDfllMul { .. } => {
            let change = edit_of(step);
            let value = change.apply(register.reset());
            accesses.push(Access::Write { register, value });
        },
        Step::ModifyGenCtrl { .. }
        | Step::ModifyFlashWaitStates { .. }
        | Step::ModifyFlashManualWrite { .. }
        | Step::ModifyApbAMask { .. }
        | Step::ModifyOsc8m { .. }
        | Step::ModifyXosc32k { .. }
        | Step::ModifyXosc32kEnable { .. }
        | Step::ModifyDfllCtrlEnable { .. } => {
            accesses.push(Access::Modify { register, edit: edit_of(step) });
        },
        Step::SelectGenCtrl { gclk } => {
            accesses.push(Access::WriteByte { register, byte: u8::from(gclk) });
        },
        Step::WaitGclkReset => {
            accesses.push(Access::WaitClear { register: Register::GclkCtrl, mask: GCLK_SWRST });
            accesses.push(
                Access::WaitClear { register: Register::GclkStatus, mask: GCLK_SYNCBUSY },
            );
        },
        Step::WaitGclkSync => {
            accesses.push(Access::WaitClear { register, mask: GCLK_SYNCBUSY });
        },
        Step::WaitOsc32kReady => {
            accesses.push(Access::WaitSet { register, mask: PCLKSR_OSC32KRDY });
        },
        Step::WaitXosc32kReady => {
            accesses.push(Access::WaitSet { register, mask: PCLKSR_XOSC32KRDY });
        },
        Step::WaitDfllReady => {
            accesses.push(Access::WaitSet { register, mask: PCLKSR_DFLLRDY });
        },
        Step::WaitDfllLocked => {
            accesses.push(Access::WaitSet { register, mask: PCLKSR_DFLLLOCKED });
        },
    }
    accesses
}

/// The accesses that carry out `steps`, in order. Each is within the
/// width of its register.
pub fn lower_all(steps: &Vec<Step>) -> (accesses: Vec<Access>)
    ensures
        accesses@ == lowered_all(steps@),
        forall|i: int| 0 <= i < accesses@.len() ==> (#[trigger] accesses@[i]).fits(),
{
    let mut accesses: Vec<Access> = Vec::new();
    let mut done: usize = 0;
    while done < steps.len()
        invariant
            done <= steps.len(),
            accesses@ == lowered_all(steps@.take(done as int)),
            forall|i: int| 0 <= i < accesses@.len() ==> (#[trigger] accesses@[i]).fits(),
        decreases steps.len() - done,
    {
        let mut next = lower(&steps[done]);
        proof {
            let upto = steps@.take(done as int + 1);
            assert(upto.drop_last() =~= steps@.take(done as int));
            assert(upto.last() == steps@[done as int]);
        }
        accesses.append(&mut next);
        done = done + 1;
    }
    proof {
        assert(steps@.take(done as int) =~= steps@);
    }
    accesses
}

/// What the divider word of a generator carries: the generator's number
/// and the divider, each in its field, and zeros elsewhere.
pub proof fn lemma_gendiv_word(gclk: ClockGenId, div: u16)
    ensures
        ({
            let first = lowered(Step::WriteGenDiv { gclk, div })[0];
            let word = first->value;
            &&& first is Write
            &&& field_of(word, 0, 4) == gclk.number()
            &&& field_of(word, 8, 16) == div
            &&& field_of(word, 4, 4) == 0
            &&& field_of(word, 24, 8) == 0
        }),
{
    let id = gclk.number() as u32;
    let d = div as u32;
    let none = Edit::nothing();
    Edit::lemma_nothing(0);
    none.lemma_and_field(0, 4, id, 0);
    none.and_field(0, 4, id).lemma_and_field(8, 16, d, 0);
    let word = with_field(with_field(0, 0, 4, id), 8, 16, d);
    assert(field_of(word, 0, 4) == id && field_of(word, 8, 16) == d && field_of(word, 4, 4) == 0
        && field_of(word, 24, 8) == 0) by (bit_vector)
        requires
            id <= 7,
            d <= 0xffff,
            word == with_field(with_field(0, 0, 4, id), 8, 16, d),
    ;
}

/// What the control word of a generator carries: the generator's number,
/// the source's number and the four flags, each at its place, and zeros
/// elsewhere; among them run-in-standby and the output-off value.
pub proof fn lemma_genctrl_word(
    gclk: ClockGenId,
    src: ClockSource,
    divsel: bool,
    idc: bool,
    genen: bool,
    oe: bool,
)
    ensures
        ({
            let first = lowered(Step::WriteGenCtrl { gclk, src, divsel, idc, genen, oe })[0];
            let word = first->value;
            &&& first is Write
            &&& field_of(word, 0, 4) == gclk.number()
            &&& field_of(word, 8, 5) == src.number()
            &&& bit_of(word, 16) == genen
            &&& bit_of(word, 17) == idc
            &&& bit_of(word, 19) == oe
            &&& bit_of(word, 20) == divsel
            &&& !bit_of(word, 18)
            &&& !bit_of(word, 21)
            &&& field_of(word, 4, 4) == 0
            &&& field_of(word, 13, 3) == 0
            &&& field_of(word, 22, 10) == 0
        }),
{
    let id = gclk.number() as u32;
    let source = src.number() as u32;
    let none = Edit::nothing();
    Edit::lemma_nothing(0);
    let e1 = none.and_field(0, 4, id);
    let e2 = e1.and_field(8, 5, source);
    let e3 = e2.and_flag(20, divsel);
    let e4 = e3.and_flag(17, idc);
    let e5 = e4.and_flag(16, genen);
    none.lemma_and_field(0, 4, id, 0);
    e1.lemma_and_field(8, 5, source, 0);
    e2.lemma_and_flag(20, divsel, 0);
    e3.lemma_and_flag(17, idc, 0);
    e4.lemma_and_flag(16, genen, 0);
    e5.lemma_and_flag(19, oe, 0);
    let fields = with_field(with_field(0, 0, 4, id), 8, 5, source);
    let word = with_bit(
        with_bit(with_bit(with_bit(fields, 20, divsel), 17, idc), 16, genen),
        19,
        oe,
    );
    assert(field_of(word, 0, 4) == id && field_of(word, 8, 5) == source && bit_of(word, 16)
        == genen && bit_of(word, 17) == idc && bit_of(word, 19) == oe && bit_of(word, 20) == divsel
        && !bit_of(word, 18) && !bit_of(word, 21) && field_of(word, 4, 4) == 0 && field_of(
        word,
        13,
        3,
    ) == 0 && field_of(word, 22, 10) == 0) by (bit_vector)
        requires
            id <= 7,
            source <= 8,
            word == with_bit(
                with_bit(
                    with_bit(
                        with_bit(with_field(with_field(0, 0, 4, id), 8, 5, source), 20, divsel),
                        17,
                        idc,
                    ),
                    16,
                    genen,
                ),
                19,
                oe,
            ),
    ;
}

/// What the control word of a peripheral channel carries: the channel's
/// number, the generator's number and the enable flag, each at its place,
/// and zeros elsewhere; among them the write lock.
pub proof fn lemma_clkctrl_word(clock: ClockId, gclk: ClockGenId, clken: bool)
    ensures
        ({
            let first = lowered(Step::WriteClkCtrl { clock, gclk, clken })[0];
            let word = first->value;
            &&& first is Write
            &&& field_of(word, 0, 6) == clock.number()
            &&& field_of(word, 8, 4) == gclk.number()
            &&& bit_of(word, 14) == clken
            &&& !bit_of(word, 15)
            &&& field_of(word, 6, 2) == 0
            &&& field_of(word, 12, 2) == 0
            &&& field_of(word, 16, 16) == 0
        }),
{
    let id = clock.number() as u32;
    let generator = gclk.number() as u32;
    let none = Edit::nothing();
    Edit::lemma_nothing(0);
    let e1 = none.and_field(0, 6, id);
    let e2 = e1.and_field(8, 4, generator);
    none.lemma_and_field(0, 6, id, 0);
    e1.lemma_and_field(8, 4, generator, 0);
    e2.lemma_and_flag(14, clken, 0);
    let word = with_bit(with_field(with_field(0, 0, 6, id), 8, 4, generator), 14, clken);
    assert(field_of(word, 0, 6) == id && field_of(word, 8, 4) == generator && bit_of(word, 14)
        == clken && !bit_of(word, 15) && field_of(word, 6, 2) == 0 && field_of(word, 12, 2) == 0
        && field_of(word, 16, 16) == 0) by (bit_vector)
        requires
            id <= 36,
            generator <= 7,
            word == with_bit(with_field(with_field(0, 0, 6, id), 8, 4, generator), 14, clken),
    ;
}

/// What the trim word and the ratio word of the frequency multiplier
/// carry: fine and coarse trim, and multiply ratio, fine step and coarse
/// step, each in its field, and zeros elsewhere.
pub proof fn lemma_dfll_words(coarse: u8, fine: u16, cstep: u8, fstep: u16, mul: u16)
    requires
        coarse <= 0x3f,
        fine <= 0x3ff,
        cstep <= 0x3f,
        fstep <= 0x3ff,
    ensures
        ({
            let first = lowered(Step::WriteDfllVal { coarse, fine })[0];
            let word = first->value;
            &&& first is Write
            &&& field_of(word, 0, 10) == fine
            &&& field_of(word, 10, 6) == coarse
            &&& field_of(word, 16, 16) == 0
        }),
        ({
            let first = lowered(Step::WriteDfllMul { cstep, fstep, mul })[0];
            let word = first->value;
            &&& first is Write
            &&& field_of(word, 0, 16) == mul
            &&& field_of(word, 16, 10) == fstep
            &&& field_of(word, 26, 6) == cstep
        }),
{
    let none = Edit::nothing();
    Edit::lemma_nothing(0);
    let c = coarse as u32;
    let f = fine as u32;
    none.lemma_and_field(10, 6, c, 0);
    none.and_field(10, 6, c).lemma_and_field(0, 10, f, 0);
    let trim = with_field(with_field(0, 10, 6, c), 0, 10, f);
    assert(field_of(trim, 0, 10) == f && field_of(trim, 10, 6) == c && field_of(trim, 16, 16)
        == 0) by (bit_vector)
        requires
            c <= 0x3f,
            f <= 0x3ff,
            trim == with_field(with_field(0, 10, 6, c), 0, 10, f),
    ;
    let cs = cstep as u32;
    let fs = fstep as u32;
    let m = mul as u32;
    none.lemma_and_field(26, 6, cs, 0);
    none.and_field(26, 6, cs).lemma_and_field(16, 10, fs, 0);
    none.and_field(26, 6, cs).and_field(16, 10, fs).lemma_and_field(0, 16, m, 0);
    let ratio = with_field(with_field(with_field(0, 26, 6, cs), 16, 10, fs), 0, 16, m);
    assert(field_of(ratio, 0, 16) == m && field_of(ratio, 16, 10) == fs && field_of(ratio, 26, 6)
        == cs) by (bit_vector)
        requires
            cs <= 0x3f,
            fs <= 0x3ff,
            m <= 0xffff,
            ratio == with_field(with_field(with_field(0, 26, 6, cs), 16, 10, fs), 0, 16, m),
    ;
}

/// A step that modifies one flag changes that bit of the register and no
/// other.
pub proof fn lemma_flag_steps(before: u32, value: bool)
    ensures
        lowered(Step::ModifyGenCtrl { runstdby: value })[0].stored(before) == with_bit(
            before,
            21,
            value,
        ),
        lowered(Step::ModifyFlashManualWrite { manw: value })[0].stored(before) == with_bit(
            before,
            7,
            value,
        ),
        lowered(Step::ModifyApbAMask { gclk_: value })[0].stored(before) == with_bit(
            before,
            3,
            value,
        ),
        lowered(Step::ModifyXosc32kEnable { enable: value })[0].stored(before) == with_bit(
            before,
            1,
            value,
        ),
        lowered(Step::ModifyDfllCtrlEnable { enable: value })[0].stored(before) == with_bit(
            before,
            1,
            value,
        ),
{
    let none = Edit::nothing();
    Edit::lemma_nothing(before);
    none.lemma_and_flag(21, value, before);
    none.lemma_and_flag(7, value, before);
    none.lemma_and_flag(3, value, before);
    none.lemma_and_flag(1, value, before);
}

/// The steps that modify more than one flag, or a field, change those and
/// nothing else: the flash wait states; prescaler and on-demand of the
/// 8 MHz oscillator; the setup of the external 32 kHz oscillator, which
/// leaves its enable bit as it is.
pub proof fn lemma_field_steps(
    before: u32,
    rws: FlashWaitStates,
    presc: u8,
    startup: u8,
    ondemand: bool,
    en32k: bool,
    xtalen: bool,
    runstdby: bool,
)
    ensures
        lowered(Step::ModifyFlashWaitStates { rws })[0].stored(before) == with_field(
            before,
            1,
            4,
            wait_states_number(rws),
        ),
        lowered(Step::ModifyOsc8m { presc, ondemand })[0].stored(before) == with_bit(
            with_field(before, 8, 2, presc as u32),
            7,
            ondemand,
        ),
        lowered(Step::ModifyXosc32k { startup, ondemand, en32k, xtalen, runstdby })[0].stored(
            before,
        ) == with_bit(
            with_bit(
                with_bit(with_bit(with_field(before, 8, 3, startup as u32), 7, ondemand), 3, en32k),
                2,
                xtalen,
            ),
            6,
            runstdby,
        ),
        bit_of(
            lowered(Step::ModifyXosc32k { startup, ondemand, en32k, xtalen, runstdby })[0].stored(
                before,
            ),
            1,
        ) == bit_of(before, 1),
{
    let none = Edit::nothing();
    Edit::lemma_nothing(before);
    none.lemma_and_field(1, 4, wait_states_number(rws), before);
    let o1 = none.and_field(8, 2, presc as u32);
    none.lemma_and_field(8, 2, presc as u32, before);
    o1.lemma_and_flag(7, ondemand, before);
    let x1 = none.and_field(8, 3, startup as u32);
    let x2 = x1.and_flag(7, ondemand);
    let x3 = x2.and_flag(3, en32k);
    let x4 = x3.and_flag(2, xtalen);
    none.lemma_and_field(8, 3, startup as u32, before);
    x1.lemma_and_flag(7, ondemand, before);
    x2.lemma_and_flag(3, en32k, before);
    x3.lemma_and_flag(2, xtalen, before);
    x4.lemma_and_flag(6, runstdby, before);
    let s = startup as u32;
    let after = with_bit(
        with_bit(with_bit(with_bit(with_field(before, 8, 3, s), 7, ondemand), 3, en32k), 2, xtalen),
        6,
        runstdby,
    );
    assert(bit_of(after, 1) == bit_of(before, 1)) by (bit_vector)
        requires
            after == with_bit(
                with_bit(
                    with_bit(with_bit(with_field(before, 8, 3, s), 7, ondemand), 3, en32k),
                    2,
                    xtalen,
                ),
                6,
                runstdby,
            ),
    ;
}

/// A bit that a change clears is still cleared when a field is added to
/// the change, and a field that is added is cleared.
pub proof fn lemma_clear_grows(change: Edit, offset: u32, width: u32, value: u32, bits: u32)
    requires
        0 < width,
        offset + width <= 32,
    ensures
        change.clear & bits == bits ==> change.and_field(offset, width, value).clear & bits
            == bits,
        change.and_field(offset, width, value).clear & (field_mask(width) << offset) == field_mask(
            width,
        ) << offset,
{
    let c = change.clear;
    let f = field_mask(width) << offset;
    assert((c & bits == bits ==> (c | f) & bits == bits) && (c | f) & f == f) by (bit_vector);
}

/// A whole-register write stores the step's fields and zeros elsewhere,
/// whatever the register held after reset: each bit that is 1 after reset
/// lies in a field that the write sets.
pub proof fn lemma_writes_cover_reset(step: Step)
    requires
        step is WriteOsc32k || step is WriteDfllCtrl,
    ensures
        edit(step).applied(target(step).reset_value()) == edit(step).applied(0),
{
    let none = Edit::nothing();
    let change = edit(step);
    let c = change.clear;
    let s = change.set;
    let reset = target(step).reset_value();
    assert(c & reset == reset) by {
        match step {
            Step::WriteOsc32k { ondemand, calib, startup, en32k, enable, runstdby } => {
                let e1 = none.and_flag(7, ondemand);
                let e2 = e1.and_field(16, 7, calib as u32);
                let e3 = e2.and_field(8, 3, startup as u32);
                let e4 = e3.and_flag(2, en32k);
                let e5 = e4.and_flag(1, enable);
                let c1 = e1.clear;
                let c2 = e2.clear;
                lemma_clear_grows(none, 7, 1, if ondemand { 1 } else { 0 }, 0);
                lemma_clear_grows(e1, 16, 7, calib as u32, 0);
                assert(c2 & 0x003f_0080 == 0x003f_0080) by (bit_vector)
                    requires
                        c1 & (field_mask(1) << 7u32) == field_mask(1) << 7u32,
                        c2 & (field_mask(7) << 16u32) == field_mask(7) << 16u32,
                        c2 == c1 | (field_mask(7) << 16u32),
                ;
                lemma_clear_grows(e2, 8, 3, startup as u32, reset);
                lemma_clear_grows(e3, 2, 1, if en32k { 1 } else { 0 }, reset);
                lemma_clear_grows(e4, 1, 1, if enable { 1 } else { 0 }, reset);
                lemma_clear_grows(e5, 6, 1, if runstdby { 1 } else { 0 }, reset);
            },
            Step::WriteDfllCtrl { flags } => {
                let e1 = none.and_flag(7, flags.ondemand);
                let e2 = e1.and_flag(2, flags.mode);
                let e3 = e2.and_flag(8, flags.ccdis);
                let e4 = e3.and_flag(5, flags.usbcrm);
                let e5 = e4.and_flag(10, flags.bplckc);
                let e6 = e5.and_flag(11, flags.waitlock);
                let c1 = e1.clear;
                lemma_clear_grows(none, 7, 1, if flags.ondemand { 1 } else { 0 }, 0);
                assert(c1 & 0x80 == 0x80) by (bit_vector)
                    requires
                        c1 & (field_mask(1) << 7u32) == field_mask(1) << 7u32,
                ;
                lemma_clear_grows(e1, 2, 1, if flags.mode { 1 } else { 0 }, reset);
                lemma_clear_grows(e2, 8, 1, if flags.ccdis { 1 } else { 0 }, reset);
                lemma_clear_grows(e3, 5, 1, if flags.usbcrm { 1 } else { 0 }, reset);
                lemma_clear_grows(e4, 10, 1, if flags.bplckc { 1 } else { 0 }, reset);
                lemma_clear_grows(e5, 11, 1, if flags.waitlock { 1 } else { 0 }, reset);
                lemma_clear_grows(e6, 9, 1, if flags.qldis { 1 } else { 0 }, reset);
            },
            _ => {},
        }
    }
    assert((reset & !c) | s == (0u32 & !c) | s) by (bit_vector)
        requires
            c & reset == reset,
    ;
}

/// What each wait waits for: the wait for synchronization, until
/// sync-busy is clear; the wait for the tree's reset, until the reset bit
/// is clear and then until sync-busy is clear; the waits for the
/// oscillators and the multiplier, until the ready bit is set; the wait for
/// lock, until fine lock and coarse lock are both set.
pub proof fn lemma_waits(value: u32)
    ensures
        lowered(Step::WaitGclkSync)[0].passes(value) <==> !bit_of(value, 7),
        lowered(Step::WaitGclkReset)[0].passes(value) <==> !bit_of(value, 0),
        lowered(Step::WaitGclkReset)[1].passes(value) <==> !bit_of(value, 7),
        lowered(Step::WaitXosc32kReady)[0].passes(value) <==> bit_of(value, 1),
        lowered(Step::WaitOsc32kReady)[0].passes(value) <==> bit_of(value, 2),
        lowered(Step::WaitDfllReady)[0].passes(value) <==> bit_of(value, 4),
        lowered(Step::WaitDfllLocked)[0].passes(value) <==> bit_of(value, 6) && bit_of(value, 7),
{
    assert((value & 0x01 == 0 <==> !bit_of(value, 0)) && (value & 0x80 == 0 <==> !bit_of(
        value,
        7,
    )) && (value & 0x02 == 0x02 <==> bit_of(value, 1)) && (value & 0x04 == 0x04 <==> bit_of(
        value,
        2,
    )) && (value & 0x10 == 0x10 <==> bit_of(value, 4)) && (value & 0xc0 == 0xc0 <==> bit_of(
        value,
        6,
    ) && bit_of(value, 7))) by (bit_vector);
}

} // verus!
