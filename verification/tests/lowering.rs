use samd_clock::clock::ids::{ClockGenId, ClockId, ClockSource};
use samd_clock::clock::lowering::{lower, lower_all};
use samd_clock::clock::registers::{Access, Edit, Register, Width};
use samd_clock::clock::steps::{Bus, DfllControl, FlashWaitStates, Step};
use samd_clock::clock::{Calibration, GenericClockController};

fn flags() -> DfllControl {
    DfllControl {
        ondemand: false,
        mode: false,
        ccdis: false,
        usbcrm: false,
        bplckc: false,
        waitlock: false,
        qldis: false,
    }
}

fn write(register: Register, value: u32) -> Vec<Access> {
    vec![Access::Write { register, value }]
}

fn modify(register: Register, clear: u32, set: u32) -> Vec<Access> {
    vec![Access::Modify { register, edit: Edit { clear, set } }]
}

#[test]
fn register_addresses() {
    assert_eq!(Register::GclkCtrl.address(), 0x4000_0c00);
    assert_eq!(Register::GclkStatus.address(), 0x4000_0c01);
    assert_eq!(Register::GclkClkCtrl.address(), 0x4000_0c02);
    assert_eq!(Register::GclkGenCtrl.address(), 0x4000_0c04);
    assert_eq!(Register::GclkGenDiv.address(), 0x4000_0c08);
    assert_eq!(Register::PmCpuSel.address(), 0x4000_0408);
    assert_eq!(Register::PmApbASel.address(), 0x4000_0409);
    assert_eq!(Register::PmApbBSel.address(), 0x4000_040a);
    assert_eq!(Register::PmApbCSel.address(), 0x4000_040b);
    assert_eq!(Register::PmApbAMask.address(), 0x4000_0418);
    assert_eq!(Register::SysctrlPclksr.address(), 0x4000_080c);
    assert_eq!(Register::SysctrlXosc32k.address(), 0x4000_0814);
    assert_eq!(Register::SysctrlOsc32k.address(), 0x4000_0818);
    assert_eq!(Register::SysctrlOsc8m.address(), 0x4000_0820);
    assert_eq!(Register::SysctrlDfllCtrl.address(), 0x4000_0824);
    assert_eq!(Register::SysctrlDfllVal.address(), 0x4000_0828);
    assert_eq!(Register::SysctrlDfllMul.address(), 0x4000_082c);
    assert_eq!(Register::NvmctrlCtrlB.address(), 0x4100_4004);
}

#[test]
fn register_widths() {
    assert_eq!(Register::GclkCtrl.width(), Width::Byte);
    assert_eq!(Register::GclkStatus.width(), Width::Byte);
    assert_eq!(Register::GclkClkCtrl.width(), Width::Half);
    assert_eq!(Register::GclkGenCtrl.width(), Width::Word);
    assert_eq!(Register::GclkGenDiv.width(), Width::Word);
    assert_eq!(Register::PmCpuSel.width(), Width::Byte);
    assert_eq!(Register::PmApbCSel.width(), Width::Byte);
    assert_eq!(Register::PmApbAMask.width(), Width::Word);
    assert_eq!(Register::SysctrlPclksr.width(), Width::Word);
    assert_eq!(Register::SysctrlXosc32k.width(), Width::Half);
    assert_eq!(Register::SysctrlOsc32k.width(), Width::Word);
    assert_eq!(Register::SysctrlDfllCtrl.width(), Width::Half);
    assert_eq!(Register::SysctrlDfllMul.width(), Width::Word);
    assert_eq!(Register::NvmctrlCtrlB.width(), Width::Word);
}

#[test]
fn register_reset_values() {
    assert_eq!(Register::SysctrlOsc32k.reset(), 0x003f_0080);
    assert_eq!(Register::SysctrlDfllCtrl.reset(), 0x0080);
    assert_eq!(Register::GclkGenCtrl.reset(), 0);
    assert_eq!(Register::GclkGenDiv.reset(), 0);
    assert_eq!(Register::GclkClkCtrl.reset(), 0);
}

#[test]
fn edits_clear_then_set() {
    assert_eq!(Edit::none(), Edit { clear: 0, set: 0 });
    assert_eq!(Edit::none().apply(0xdead_beef), 0xdead_beef);
    let edit = Edit::none().field(8, 4, 0x5).flag(0, true).flag(31, false);
    assert_eq!(edit, Edit { clear: 0x8000_0f01, set: 0x0000_0501 });
    assert_eq!(edit.apply(0xffff_ffff), 0x7fff_f5ff);
    assert_eq!(edit.apply(0), 0x0000_0501);
}

#[test]
fn an_edit_keeps_the_low_bits_of_a_value_that_is_too_wide() {
    assert_eq!(Edit::none().field(4, 3, 0xff), Edit { clear: 0x70, set: 0x70 });
    assert_eq!(Edit::none().field(4, 3, 0x08), Edit { clear: 0x70, set: 0 });
}

#[test]
fn a_later_field_overrides_an_earlier_one() {
    let edit = Edit::none().field(0, 8, 0xff).field(4, 4, 0x0);
    assert_eq!(edit, Edit { clear: 0xff, set: 0x0f });
    let edit = Edit::none().flag(3, true).flag(3, false);
    assert_eq!(edit, Edit { clear: 0x08, set: 0 });
}

#[test]
fn generator_tree_reset() {
    assert_eq!(lower(&Step::WriteGclkCtrl { swrst: true }), write(Register::GclkCtrl, 0x01));
    assert_eq!(
        lower(&Step::WaitGclkReset),
        vec![
            Access::WaitClear { register: Register::GclkCtrl, mask: 0x01 },
            Access::WaitClear { register: Register::GclkStatus, mask: 0x80 },
        ]
    );
    assert_eq!(
        lower(&Step::WaitGclkSync),
        vec![Access::WaitClear { register: Register::GclkStatus, mask: 0x80 }]
    );
}

#[test]
fn generator_divider_word() {
    assert_eq!(
        lower(&Step::WriteGenDiv { gclk: ClockGenId::GCLK3, div: 12 }),
        write(Register::GclkGenDiv, 0x0000_0c03)
    );
    assert_eq!(
        lower(&Step::WriteGenDiv { gclk: ClockGenId::GCLK1, div: 0xffff }),
        write(Register::GclkGenDiv, 0x00ff_ff01)
    );
    assert_eq!(
        lower(&Step::WriteGenDiv { gclk: ClockGenId::GCLK0, div: 0 }),
        write(Register::GclkGenDiv, 0)
    );
}

#[test]
fn generator_control_word() {
    assert_eq!(
        lower(&Step::WriteGenCtrl {
            gclk: ClockGenId::GCLK4,
            src: ClockSource::DFLL48M,
            divsel: false,
            idc: true,
            genen: true,
            oe: true,
        }),
        write(Register::GclkGenCtrl, 0x000b_0704)
    );
    assert_eq!(
        lower(&Step::WriteGenCtrl {
            gclk: ClockGenId::GCLK7,
            src: ClockSource::DPLL96M,
            divsel: true,
            idc: false,
            genen: false,
            oe: false,
        }),
        write(Register::GclkGenCtrl, 0x0010_0807)
    );
    assert_eq!(
        lower(&Step::WriteGenCtrl {
            gclk: ClockGenId::GCLK0,
            src: ClockSource::XOSC,
            divsel: false,
            idc: false,
            genen: true,
            oe: false,
        }),
        write(Register::GclkGenCtrl, 0x0001_0000)
    );
}

#[test]
fn channel_control_word() {
    assert_eq!(
        lower(&Step::WriteClkCtrl {
            clock: ClockId::SERCOM3_CORE,
            gclk: ClockGenId::GCLK0,
            clken: true,
        }),
        write(Register::GclkClkCtrl, 0x4017)
    );
    assert_eq!(
        lower(&Step::WriteClkCtrl { clock: ClockId::I2S_1, gclk: ClockGenId::GCLK7, clken: true }),
        write(Register::GclkClkCtrl, 0x4724)
    );
    assert_eq!(
        lower(&Step::WriteClkCtrl {
            clock: ClockId::DFLL48,
            gclk: ClockGenId::GCLK1,
            clken: false,
        }),
        write(Register::GclkClkCtrl, 0x0100)
    );
}

#[test]
fn standby_selects_with_a_byte_and_modifies_one_bit() {
    assert_eq!(
        lower(&Step::SelectGenCtrl { gclk: ClockGenId::GCLK5 }),
        vec![Access::WriteByte { register: Register::GclkGenCtrl, byte: 5 }]
    );
    assert_eq!(
        lower(&Step::ModifyGenCtrl { runstdby: true }),
        modify(Register::GclkGenCtrl, 0x0020_0000, 0x0020_0000)
    );
    assert_eq!(
        lower(&Step::ModifyGenCtrl { runstdby: false }),
        modify(Register::GclkGenCtrl, 0x0020_0000, 0)
    );
}

#[test]
fn flash_and_bus_accesses() {
    assert_eq!(
        lower(&Step::ModifyFlashWaitStates { rws: FlashWaitStates::Half }),
        modify(Register::NvmctrlCtrlB, 0x1e, 0x02)
    );
    assert_eq!(
        lower(&Step::ModifyFlashWaitStates { rws: FlashWaitStates::Single }),
        modify(Register::NvmctrlCtrlB, 0x1e, 0x00)
    );
    assert_eq!(
        lower(&Step::ModifyFlashWaitStates { rws: FlashWaitStates::Dual }),
        modify(Register::NvmctrlCtrlB, 0x1e, 0x04)
    );
    assert_eq!(
        lower(&Step::ModifyFlashManualWrite { manw: true }),
        modify(Register::NvmctrlCtrlB, 0x80, 0x80)
    );
    assert_eq!(
        lower(&Step::ModifyApbAMask { gclk_: true }),
        modify(Register::PmApbAMask, 0x08, 0x08)
    );
    assert_eq!(
        lower(&Step::WriteBusDivider { bus: Bus::Cpu, exponent: 0 }),
        write(Register::PmCpuSel, 0)
    );
    assert_eq!(
        lower(&Step::WriteBusDivider { bus: Bus::ApbA, exponent: 3 }),
        write(Register::PmApbASel, 3)
    );
    assert_eq!(
        lower(&Step::WriteBusDivider { bus: Bus::ApbB, exponent: 7 }),
        write(Register::PmApbBSel, 7)
    );
    assert_eq!(
        lower(&Step::WriteBusDivider { bus: Bus::ApbC, exponent: 9 }),
        write(Register::PmApbCSel, 1)
    );
}

#[test]
fn oscillator_accesses() {
    assert_eq!(
        lower(&Step::ModifyOsc8m { presc: 0, ondemand: false }),
        modify(Register::SysctrlOsc8m, 0x0380, 0)
    );
    assert_eq!(
        lower(&Step::WriteOsc32k {
            ondemand: false,
            calib: 0x55,
            startup: 6,
            en32k: true,
            enable: true,
            runstdby: true,
        }),
        write(Register::SysctrlOsc32k, 0x0055_0646)
    );
    assert_eq!(
        lower(&Step::WriteOsc32k {
            ondemand: true,
            calib: 0,
            startup: 0,
            en32k: false,
            enable: false,
            runstdby: false,
        }),
        write(Register::SysctrlOsc32k, 0x0000_0080)
    );
    assert_eq!(
        lower(&Step::ModifyXosc32k {
            startup: 6,
            ondemand: false,
            en32k: true,
            xtalen: true,
            runstdby: true,
        }),
        modify(Register::SysctrlXosc32k, 0x07cc, 0x064c)
    );
    assert_eq!(
        lower(&Step::ModifyXosc32kEnable { enable: true }),
        modify(Register::SysctrlXosc32k, 0x02, 0x02)
    );
    assert_eq!(
        lower(&Step::WaitOsc32kReady),
        vec![Access::WaitSet { register: Register::SysctrlPclksr, mask: 0x04 }]
    );
    assert_eq!(
        lower(&Step::WaitXosc32kReady),
        vec![Access::WaitSet { register: Register::SysctrlPclksr, mask: 0x02 }]
    );
}

#[test]
fn multiplier_accesses() {
    assert_eq!(lower(&Step::WriteDfllCtrl { flags: flags() }), write(Register::SysctrlDfllCtrl, 0));
    assert_eq!(
        lower(&Step::WriteDfllCtrl {
            flags: DfllControl { mode: true, ccdis: true, bplckc: true, ..flags() },
        }),
        write(Register::SysctrlDfllCtrl, 0x0504)
    );
    assert_eq!(
        lower(&Step::WriteDfllCtrl {
            flags: DfllControl { mode: true, waitlock: true, qldis: true, ..flags() },
        }),
        write(Register::SysctrlDfllCtrl, 0x0a04)
    );
    assert_eq!(
        lower(&Step::WriteDfllCtrl {
            flags: DfllControl { mode: true, ccdis: true, usbcrm: true, bplckc: true, ..flags() },
        }),
        write(Register::SysctrlDfllCtrl, 0x0524)
    );
    assert_eq!(
        lower(&Step::WriteDfllCtrl { flags: DfllControl { ondemand: true, ..flags() } }),
        write(Register::SysctrlDfllCtrl, 0x0080)
    );
    assert_eq!(
        lower(&Step::WriteDfllVal { coarse: 0x26, fine: 0x1ff }),
        write(Register::SysctrlDfllVal, 0x0000_99ff)
    );
    assert_eq!(
        lower(&Step::WriteDfllMul { cstep: 9, fstep: 10, mul: 1464 }),
        write(Register::SysctrlDfllMul, 0x240a_05b8)
    );
    assert_eq!(
        lower(&Step::WriteDfllMul { cstep: 31, fstep: 511, mul: 1465 }),
        write(Register::SysctrlDfllMul, 0x7dff_05b9)
    );
    assert_eq!(
        lower(&Step::ModifyDfllCtrlEnable { enable: true }),
        modify(Register::SysctrlDfllCtrl, 0x02, 0x02)
    );
    assert_eq!(
        lower(&Step::WaitDfllReady),
        vec![Access::WaitSet { register: Register::SysctrlPclksr, mask: 0x10 }]
    );
    assert_eq!(
        lower(&Step::WaitDfllLocked),
        vec![Access::WaitSet { register: Register::SysctrlPclksr, mask: 0xc0 }]
    );
}

#[test]
fn a_list_of_steps_is_carried_out_step_by_step() {
    assert_eq!(lower_all(&vec![]), vec![]);
    let steps = vec![
        Step::WriteGclkCtrl { swrst: true },
        Step::WaitGclkReset,
        Step::WriteGenDiv { gclk: ClockGenId::GCLK0, div: 1 },
        Step::WaitGclkSync,
    ];
    assert_eq!(
        lower_all(&steps),
        vec![
            Access::Write { register: Register::GclkCtrl, value: 0x01 },
            Access::WaitClear { register: Register::GclkCtrl, mask: 0x01 },
            Access::WaitClear { register: Register::GclkStatus, mask: 0x80 },
            Access::Write { register: Register::GclkGenDiv, value: 0x0000_0100 },
            Access::WaitClear { register: Register::GclkStatus, mask: 0x80 },
        ]
    );
}

#[test]
fn direct_8mhz_bring_up_on_the_registers() {
    let mut controller = GenericClockController::with_internal_8mhz();
    assert_eq!(
        lower_all(&controller.take_steps()),
        vec![
            Access::Modify {
                register: Register::NvmctrlCtrlB,
                edit: Edit { clear: 0x80, set: 0x80 },
            },
            Access::Modify {
                register: Register::PmApbAMask,
                edit: Edit { clear: 0x08, set: 0x08 },
            },
            Access::Write { register: Register::GclkCtrl, value: 0x01 },
            Access::WaitClear { register: Register::GclkCtrl, mask: 0x01 },
            Access::WaitClear { register: Register::GclkStatus, mask: 0x80 },
            Access::Write { register: Register::GclkGenDiv, value: 0x0000_0100 },
            Access::WaitClear { register: Register::GclkStatus, mask: 0x80 },
            Access::Write { register: Register::GclkGenCtrl, value: 0x0009_0600 },
            Access::WaitClear { register: Register::GclkStatus, mask: 0x80 },
            Access::Modify {
                register: Register::SysctrlOsc8m,
                edit: Edit { clear: 0x0380, set: 0 },
            },
            Access::Write { register: Register::PmCpuSel, value: 0 },
            Access::Write { register: Register::PmApbASel, value: 0 },
            Access::Write { register: Register::PmApbBSel, value: 0 },
            Access::Write { register: Register::PmApbCSel, value: 0 },
        ]
    );
}

#[test]
fn every_access_of_a_bring_up_is_within_its_register() {
    let calibration = Calibration { osc32k: 0xff, dfll48m_coarse: 0xff };
    let mut controller = GenericClockController::with_external_32kosc(calibration);
    for access in lower_all(&controller.take_steps()) {
        let (register, bits) = match access {
            Access::Write { register, value } => (register, value),
            Access::WriteByte { register, byte } => (register, u32::from(byte)),
            Access::Modify { register, edit } => (register, edit.clear | edit.set),
            Access::WaitClear { register, mask } => (register, mask),
            Access::WaitSet { register, mask } => (register, mask),
        };
        let limit = match register.width() {
            Width::Byte => 0xff,
            Width::Half => 0xffff,
            Width::Word => 0xffff_ffff,
        };
        assert!(bits <= limit);
    }
}

#[test]
fn a_write_stores_its_value_whatever_was_there() {
    let access = Access::Write { register: Register::GclkGenDiv, value: 0x0000_0c03 };
    assert_eq!(access.store(0), 0x0000_0c03);
    assert_eq!(access.store(0xffff_ffff), 0x0000_0c03);
    assert!(access.is_over(0));
    assert!(access.is_over(0xffff_ffff));
}

#[test]
fn a_byte_write_replaces_the_lowest_byte() {
    let access = Access::WriteByte { register: Register::GclkGenCtrl, byte: 5 };
    assert_eq!(access.store(0x0021_06ff), 0x0021_0605);
    assert_eq!(access.store(0), 5);
    assert!(access.is_over(0x80));
}

#[test]
fn a_modify_clears_then_sets() {
    let access = Access::Modify {
        register: Register::SysctrlXosc32k,
        edit: Edit { clear: 0x07cc, set: 0x064c },
    };
    assert_eq!(access.store(0x0000), 0x064c);
    assert_eq!(access.store(0xffff), 0xfe7f);
    assert_eq!(access.store(0x0182), 0x064e);
    assert!(access.is_over(0));
}

#[test]
fn a_wait_for_clear_is_over_when_no_bit_of_the_mask_is_set() {
    let access = Access::WaitClear { register: Register::GclkStatus, mask: 0x80 };
    assert!(access.is_over(0x00));
    assert!(access.is_over(0x7f));
    assert!(!access.is_over(0x80));
    assert!(!access.is_over(0xff));
    assert_eq!(access.store(0x80), 0x80);
}

#[test]
fn a_wait_for_set_is_over_when_every_bit_of_the_mask_is_set() {
    let access = Access::WaitSet { register: Register::SysctrlPclksr, mask: 0xc0 };
    assert!(!access.is_over(0x00));
    assert!(!access.is_over(0x40));
    assert!(!access.is_over(0x80));
    assert!(access.is_over(0xc0));
    assert!(access.is_over(0xffff_ffff));
    assert_eq!(access.store(0x40), 0x40);
}
