use samd_clock::clock::ids::{ClockGenId, ClockId, ClockSource};
use samd_clock::clock::steps::{Bus, DfllControl, FlashWaitStates, Step};
use samd_clock::clock::{
    configure_and_enable_dfll48m, configure_and_enable_dfll48m_open, divider_is_valid,
    enable_external_32kosc, enable_gclk_apb, enable_internal_32kosc, reset_prescalers,
    set_flash_manual_write, set_flash_to_half_auto_wait_state, wait_for_dfllrdy, Calibration,
    DFLL48MRefClock, GenericClockController, State, UsageSet, OSC32K_FREQ, OSC48M_FREQ,
    OSC8M_FREQ,
};
use samd_clock::time::Hertz;

const CAL: Calibration = Calibration { osc32k: 0x55, dfll48m_coarse: 0x26 };

const ALL_GENERATORS: [ClockGenId; 8] = [
    ClockGenId::GCLK0,
    ClockGenId::GCLK1,
    ClockGenId::GCLK2,
    ClockGenId::GCLK3,
    ClockGenId::GCLK4,
    ClockGenId::GCLK5,
    ClockGenId::GCLK6,
    ClockGenId::GCLK7,
];

const ALL_CHANNELS: [ClockId; 37] = [
    ClockId::DFLL48,
    ClockId::FDPLL,
    ClockId::FDPLL32K,
    ClockId::WDT,
    ClockId::RTC,
    ClockId::EIC,
    ClockId::USB,
    ClockId::EVSYS_0,
    ClockId::EVSYS_1,
    ClockId::EVSYS_2,
    ClockId::EVSYS_3,
    ClockId::EVSYS_4,
    ClockId::EVSYS_5,
    ClockId::EVSYS_6,
    ClockId::EVSYS_7,
    ClockId::EVSYS_8,
    ClockId::EVSYS_9,
    ClockId::EVSYS_10,
    ClockId::EVSYS_11,
    ClockId::SERCOMX_SLOW,
    ClockId::SERCOM0_CORE,
    ClockId::SERCOM1_CORE,
    ClockId::SERCOM2_CORE,
    ClockId::SERCOM3_CORE,
    ClockId::SERCOM4_CORE,
    ClockId::SERCOM5_CORE,
    ClockId::TCC0_TCC1,
    ClockId::TCC2_TC3,
    ClockId::TC4_TC5,
    ClockId::TC6_TC7,
    ClockId::ADC,
    ClockId::AC_DIG,
    ClockId::AC_ANA,
    ClockId::DAC,
    ClockId::PTC,
    ClockId::I2S_0,
    ClockId::I2S_1,
];

fn all_clear() -> DfllControl {
    DfllControl {
        ondemand: false,
        mode: false,
        ccdis: false,
        usbcrm: false,
        bplckc: false,
        waitlock: false,
        qldis: false,
    }
}

fn generator_steps(gclk: ClockGenId, div: u16, src: ClockSource, idc: bool) -> Vec<Step> {
    vec![
        Step::WriteGenDiv { gclk, div },
        Step::WaitGclkSync,
        Step::WriteGenCtrl { gclk, src, divsel: false, idc, genen: true, oe: true },
        Step::WaitGclkSync,
    ]
}

fn prescaler_steps() -> Vec<Step> {
    vec![
        Step::ModifyOsc8m { presc: 0, ondemand: false },
        Step::WriteBusDivider { bus: Bus::Cpu, exponent: 0 },
        Step::WriteBusDivider { bus: Bus::ApbA, exponent: 0 },
        Step::WriteBusDivider { bus: Bus::ApbB, exponent: 0 },
        Step::WriteBusDivider { bus: Bus::ApbC, exponent: 0 },
    ]
}

fn hz(controller: &mut GenericClockController, gclk: ClockGenId) -> Option<u32> {
    controller.get_gclk(gclk).map(|clock| Hertz::from(clock).to_Hz())
}

fn table(controller: &mut GenericClockController) -> Vec<Option<u32>> {
    ALL_GENERATORS.iter().map(|gclk| hz(controller, *gclk)).collect()
}

fn used(controller: &GenericClockController) -> Vec<ClockId> {
    ALL_CHANNELS.iter().copied().filter(|clock| controller.is_used(*clock)).collect()
}

fn after_8mhz() -> GenericClockController {
    let mut controller = GenericClockController::with_internal_8mhz();
    controller.take_steps();
    controller
}

fn after_48mhz(refclock: DFLL48MRefClock) -> GenericClockController {
    let mut controller = GenericClockController::new_48mhz(refclock, CAL);
    controller.take_steps();
    controller
}

#[test]
fn numbers_are_those_of_the_hardware() {
    let generators: Vec<u8> = ALL_GENERATORS.iter().map(|gclk| u8::from(*gclk)).collect();
    assert_eq!(generators, (0..8).collect::<Vec<u8>>());
    let channels: Vec<u8> = ALL_CHANNELS.iter().map(|clock| u8::from(*clock)).collect();
    assert_eq!(channels, (0..37).collect::<Vec<u8>>());
    assert_eq!(u8::from(ClockSource::XOSC), 0);
    assert_eq!(u8::from(ClockSource::GCLKIN), 1);
    assert_eq!(u8::from(ClockSource::GCLKGEN1), 2);
    assert_eq!(u8::from(ClockSource::OSCULP32K), 3);
    assert_eq!(u8::from(ClockSource::OSC32K), 4);
    assert_eq!(u8::from(ClockSource::XOSC32K), 5);
    assert_eq!(u8::from(ClockSource::OSC8M), 6);
    assert_eq!(u8::from(ClockSource::DFLL48M), 7);
    assert_eq!(u8::from(ClockSource::DPLL96M), 8);
    assert_eq!(u8::from(ClockId::SERCOM0_CORE), 0x14);
    assert_eq!(u8::from(ClockId::TCC0_TCC1), 0x1a);
    assert_eq!(u8::from(ClockId::I2S_1), 0x24);
}

#[test]
fn source_frequencies() {
    assert_eq!(OSC48M_FREQ, 48_000_000);
    assert_eq!(OSC8M_FREQ, 8_000_000);
    assert_eq!(OSC32K_FREQ, 32_768);
}

#[test]
fn divider_limit_of_generator_1() {
    assert!(!divider_is_valid(ClockGenId::GCLK1, 65536));
    assert!(divider_is_valid(ClockGenId::GCLK1, 65535));
    assert!(divider_is_valid(ClockGenId::GCLK1, 0));
    assert!(!divider_is_valid(ClockGenId::GCLK1, u32::MAX));
}

#[test]
fn divider_limit_of_generator_2() {
    assert!(!divider_is_valid(ClockGenId::GCLK2, 32));
    assert!(divider_is_valid(ClockGenId::GCLK2, 31));
    assert!(!divider_is_valid(ClockGenId::GCLK2, 255));
}

#[test]
fn divider_limit_of_the_other_generators() {
    for gclk in [
        ClockGenId::GCLK0,
        ClockGenId::GCLK3,
        ClockGenId::GCLK4,
        ClockGenId::GCLK5,
        ClockGenId::GCLK6,
        ClockGenId::GCLK7,
    ] {
        assert!(!divider_is_valid(gclk, 256));
        assert!(divider_is_valid(gclk, 255));
        assert!(!divider_is_valid(gclk, 65535));
    }
}

#[test]
fn largest_dividers_are_accepted_and_configure() {
    let mut controller = after_8mhz();
    assert!(controller.can_configure(ClockGenId::GCLK1, 65535, ClockSource::DFLL48M));
    let clock = controller
        .configure_gclk_divider_and_source(ClockGenId::GCLK1, 65535, ClockSource::DFLL48M, false)
        .unwrap();
    assert_eq!(Hertz::from(clock).to_Hz(), 48_000_000 / 65535);
    assert!(controller.can_configure(ClockGenId::GCLK2, 31, ClockSource::DFLL48M));
    let clock = controller
        .configure_gclk_divider_and_source(ClockGenId::GCLK2, 31, ClockSource::DFLL48M, false)
        .unwrap();
    assert_eq!(Hertz::from(clock).to_Hz(), 48_000_000 / 31);
    assert!(controller.can_configure(ClockGenId::GCLK3, 255, ClockSource::DFLL48M));
    let clock = controller
        .configure_gclk_divider_and_source(ClockGenId::GCLK3, 255, ClockSource::DFLL48M, false)
        .unwrap();
    assert_eq!(Hertz::from(clock).to_Hz(), 48_000_000 / 255);
}

#[test]
fn dividers_over_the_limit_are_not_accepted() {
    let controller = after_8mhz();
    assert!(!controller.can_configure(ClockGenId::GCLK2, 32, ClockSource::DFLL48M));
    assert!(!controller.can_configure(ClockGenId::GCLK3, 256, ClockSource::DFLL48M));
    assert!(!controller.can_configure(ClockGenId::GCLK7, 65535, ClockSource::DFLL48M));
}

#[test]
fn divider_zero_and_unknown_sources_are_not_accepted() {
    let controller = after_8mhz();
    assert!(!controller.can_configure(ClockGenId::GCLK3, 0, ClockSource::DFLL48M));
    assert!(!controller.can_configure(ClockGenId::GCLK3, 1, ClockSource::GCLKIN));
    assert!(!controller.can_configure(ClockGenId::GCLK3, 1, ClockSource::XOSC));
    assert!(controller.can_configure(ClockGenId::GCLK3, 1, ClockSource::OSCULP32K));
}

#[test]
fn any_request_for_a_configured_generator_is_accepted_and_turned_down() {
    let mut controller = after_8mhz();
    assert!(controller.can_configure(ClockGenId::GCLK0, 0, ClockSource::XOSC));
    assert!(controller.can_configure(ClockGenId::GCLK0, 65535, ClockSource::GCLKIN));
    assert!(controller
        .configure_gclk_divider_and_source(ClockGenId::GCLK0, 0, ClockSource::XOSC, true)
        .is_none());
    assert_eq!(controller.take_steps(), vec![]);
}

#[test]
fn internal_32k_bring_up_sets_generators_0_and_1() {
    let mut controller = GenericClockController::with_internal_32kosc(CAL);
    assert_eq!(Hertz::from(controller.gclk0()).to_Hz(), 48_000_000);
    assert_eq!(Hertz::from(controller.gclk1()).to_Hz(), 32_768);
    assert_eq!(
        table(&mut controller),
        vec![Some(48_000_000), Some(32_768), None, None, None, None, None, None]
    );
    assert_eq!(used(&controller), vec![ClockId::DFLL48]);
}

#[test]
fn external_32k_bring_up_sets_generators_0_and_1() {
    let mut controller = GenericClockController::with_external_32kosc(CAL);
    assert_eq!(
        table(&mut controller),
        vec![Some(48_000_000), Some(32_768), None, None, None, None, None, None]
    );
    assert_eq!(used(&controller), vec![ClockId::DFLL48]);
}

#[test]
fn usb_and_open_loop_bring_up_leave_generator_1_alone() {
    for refclock in [DFLL48MRefClock::USB, DFLL48MRefClock::OpenLoop] {
        let mut controller = GenericClockController::new_48mhz(refclock, CAL);
        assert_eq!(Hertz::from(controller.gclk0()).to_Hz(), 48_000_000);
        assert_eq!(Hertz::from(controller.gclk1()).to_Hz(), 0);
        assert_eq!(
            table(&mut controller),
            vec![Some(48_000_000), None, None, None, None, None, None, None]
        );
        assert_eq!(used(&controller), vec![ClockId::DFLL48]);
    }
}

#[test]
fn direct_8mhz_bring_up_sets_generator_0_and_uses_no_channel() {
    let mut controller = GenericClockController::with_internal_8mhz();
    assert_eq!(Hertz::from(controller.gclk0()).to_Hz(), 8_000_000);
    assert_eq!(
        table(&mut controller),
        vec![Some(8_000_000), None, None, None, None, None, None, None]
    );
    assert_eq!(used(&controller), vec![]);
}

#[test]
fn direct_8mhz_bring_up_steps() {
    let mut controller = GenericClockController::with_internal_8mhz();
    let mut expected = vec![
        Step::ModifyFlashManualWrite { manw: true },
        Step::ModifyApbAMask { gclk_: true },
        Step::WriteGclkCtrl { swrst: true },
        Step::WaitGclkReset,
    ];
    expected.extend(generator_steps(ClockGenId::GCLK0, 1, ClockSource::OSC8M, false));
    expected.extend(prescaler_steps());
    assert_eq!(controller.take_steps(), expected);
    assert_eq!(controller.take_steps(), vec![]);
}

#[test]
fn internal_32k_bring_up_steps() {
    let mut controller = GenericClockController::with_internal_32kosc(CAL);
    let mut expected = vec![
        Step::ModifyFlashWaitStates { rws: FlashWaitStates::Half },
        Step::ModifyFlashManualWrite { manw: true },
        Step::ModifyApbAMask { gclk_: true },
        Step::WriteOsc32k {
            ondemand: false,
            calib: 0x55,
            startup: 6,
            en32k: true,
            enable: true,
            runstdby: true,
        },
        Step::WaitOsc32kReady,
        Step::WriteGclkCtrl { swrst: true },
        Step::WaitGclkReset,
    ];
    expected.extend(generator_steps(ClockGenId::GCLK1, 1, ClockSource::OSC32K, false));
    expected.extend([
        Step::WriteClkCtrl { clock: ClockId::DFLL48, gclk: ClockGenId::GCLK1, clken: true },
        Step::WaitGclkSync,
        Step::WriteDfllCtrl { flags: all_clear() },
        Step::WaitDfllReady,
        Step::WriteDfllVal { coarse: 0x26, fine: 0x1ff },
        Step::WriteDfllMul { cstep: 9, fstep: 10, mul: 1464 },
        Step::WriteDfllCtrl {
            flags: DfllControl { mode: true, ccdis: true, bplckc: true, ..all_clear() },
        },
        Step::WaitDfllReady,
        Step::ModifyDfllCtrlEnable { enable: true },
        Step::WaitDfllReady,
    ]);
    expected.extend(generator_steps(ClockGenId::GCLK0, 1, ClockSource::DFLL48M, true));
    expected.extend(prescaler_steps());
    assert_eq!(controller.take_steps(), expected);
}

#[test]
fn external_32k_bring_up_steps() {
    let mut controller = GenericClockController::with_external_32kosc(CAL);
    let mut expected = vec![
        Step::ModifyFlashWaitStates { rws: FlashWaitStates::Half },
        Step::ModifyFlashManualWrite { manw: true },
        Step::ModifyApbAMask { gclk_: true },
        Step::ModifyXosc32k {
            startup: 6,
            ondemand: false,
            en32k: true,
            xtalen: true,
            runstdby: true,
        },
        Step::ModifyXosc32kEnable { enable: true },
        Step::WaitXosc32kReady,
        Step::WriteGclkCtrl { swrst: true },
        Step::WaitGclkReset,
    ];
    expected.extend(generator_steps(ClockGenId::GCLK1, 1, ClockSource::XOSC32K, false));
    expected.extend([
        Step::WriteClkCtrl { clock: ClockId::DFLL48, gclk: ClockGenId::GCLK1, clken: true },
        Step::WaitGclkSync,
        Step::WriteDfllCtrl { flags: all_clear() },
        Step::WaitDfllReady,
        Step::WriteDfllMul { cstep: 31, fstep: 511, mul: 1465 },
        Step::WriteDfllCtrl {
            flags: DfllControl { mode: true, waitlock: true, qldis: true, ..all_clear() },
        },
        Step::WaitDfllReady,
        Step::ModifyDfllCtrlEnable { enable: true },
        Step::WaitDfllLocked,
        Step::WaitDfllReady,
    ]);
    expected.extend(generator_steps(ClockGenId::GCLK0, 1, ClockSource::DFLL48M, true));
    expected.extend(prescaler_steps());
    assert_eq!(controller.take_steps(), expected);
}

#[test]
fn usb_bring_up_steps() {
    let mut controller = GenericClockController::new_48mhz(DFLL48MRefClock::USB, CAL);
    let mut expected = vec![
        Step::ModifyFlashWaitStates { rws: FlashWaitStates::Half },
        Step::ModifyFlashManualWrite { manw: true },
        Step::ModifyApbAMask { gclk_: true },
        Step::WriteGclkCtrl { swrst: true },
        Step::WaitGclkReset,
        Step::WriteDfllCtrl { flags: all_clear() },
        Step::WaitDfllReady,
        Step::WriteDfllVal { coarse: 0x26, fine: 0x1ff },
        Step::WriteDfllMul { cstep: 1, fstep: 1, mul: 48000 },
        Step::WriteDfllCtrl {
            flags: DfllControl {
                mode: true,
                ccdis: true,
                usbcrm: true,
                bplckc: true,
                ..all_clear()
            },
        },
        Step::WaitDfllReady,
        Step::ModifyDfllCtrlEnable { enable: true },
        Step::WaitDfllReady,
    ];
    expected.extend(generator_steps(ClockGenId::GCLK0, 1, ClockSource::DFLL48M, true));
    expected.extend(prescaler_steps());
    assert_eq!(controller.take_steps(), expected);
}

#[test]
fn open_loop_bring_up_steps() {
    let mut controller = GenericClockController::new_48mhz(DFLL48MRefClock::OpenLoop, CAL);
    let mut expected = vec![
        Step::ModifyFlashWaitStates { rws: FlashWaitStates::Half },
        Step::ModifyFlashManualWrite { manw: true },
        Step::ModifyApbAMask { gclk_: true },
        Step::WriteGclkCtrl { swrst: true },
        Step::WaitGclkReset,
        Step::WriteDfllCtrl { flags: all_clear() },
        Step::WaitDfllReady,
        Step::WriteDfllVal { coarse: 0x26, fine: 0x1ff },
        Step::WriteDfllCtrl { flags: all_clear() },
        Step::WaitDfllReady,
        Step::ModifyDfllCtrlEnable { enable: true },
        Step::WaitDfllReady,
    ];
    expected.extend(generator_steps(ClockGenId::GCLK0, 1, ClockSource::DFLL48M, true));
    expected.extend(prescaler_steps());
    assert_eq!(controller.take_steps(), expected);
}

#[test]
fn lookup_finds_a_generator_once_it_is_configured() {
    let mut controller = after_48mhz(DFLL48MRefClock::OSC32K);
    for gclk in ALL_GENERATORS {
        let configured = gclk == ClockGenId::GCLK0 || gclk == ClockGenId::GCLK1;
        assert_eq!(controller.get_gclk(gclk).is_some(), configured);
    }
    assert!(controller
        .configure_gclk_divider_and_source(ClockGenId::GCLK5, 2, ClockSource::OSC8M, false)
        .is_some());
    for gclk in ALL_GENERATORS {
        let configured =
            gclk == ClockGenId::GCLK0 || gclk == ClockGenId::GCLK1 || gclk == ClockGenId::GCLK5;
        assert_eq!(controller.get_gclk(gclk).is_some(), configured);
    }
    assert_eq!(hz(&mut controller, ClockGenId::GCLK5), Some(4_000_000));
}

#[test]
fn lookup_writes_nothing() {
    let mut controller = after_8mhz();
    controller.gclk0();
    controller.gclk1();
    controller.get_gclk(ClockGenId::GCLK0);
    controller.get_gclk(ClockGenId::GCLK4);
    assert_eq!(controller.take_steps(), vec![]);
    assert_eq!(used(&controller), vec![]);
}

#[test]
fn configure_programs_divider_then_source() {
    let mut controller = after_8mhz();
    let clock = controller
        .configure_gclk_divider_and_source(ClockGenId::GCLK4, 12, ClockSource::DFLL48M, true)
        .unwrap();
    assert_eq!(Hertz::from(clock).to_Hz(), 4_000_000);
    assert_eq!(
        controller.take_steps(),
        vec![
            Step::WriteGenDiv { gclk: ClockGenId::GCLK4, div: 12 },
            Step::WaitGclkSync,
            Step::WriteGenCtrl {
                gclk: ClockGenId::GCLK4,
                src: ClockSource::DFLL48M,
                divsel: false,
                idc: true,
                genen: true,
                oe: true,
            },
            Step::WaitGclkSync,
        ]
    );
}

#[test]
fn configure_resolves_each_source() {
    let mut controller = after_48mhz(DFLL48MRefClock::XOSC32K);
    let cases = [
        (ClockGenId::GCLK2, ClockSource::XOSC32K, 2, 16_384),
        (ClockGenId::GCLK3, ClockSource::OSC32K, 3, 10_922),
        (ClockGenId::GCLK4, ClockSource::OSCULP32K, 1, 32_768),
        (ClockGenId::GCLK5, ClockSource::OSC8M, 7, 1_142_857),
        (ClockGenId::GCLK6, ClockSource::DFLL48M, 5, 9_600_000),
        (ClockGenId::GCLK7, ClockSource::DPLL96M, 9, 10_666_666),
    ];
    for (gclk, src, divider, expected) in cases {
        let clock =
            controller.configure_gclk_divider_and_source(gclk, divider, src, false).unwrap();
        assert_eq!(Hertz::from(clock).to_Hz(), expected);
        assert_eq!(hz(&mut controller, gclk), Some(expected));
    }
}

#[test]
fn configure_from_the_phase_locked_loop_is_96_mhz() {
    let mut controller = after_8mhz();
    let clock = controller
        .configure_gclk_divider_and_source(ClockGenId::GCLK3, 1, ClockSource::DPLL96M, false)
        .unwrap();
    assert_eq!(Hertz::from(clock).to_Hz(), 96_000_000);
}

#[test]
fn feedback_from_generator_1_divides_its_frequency() {
    let mut controller = after_48mhz(DFLL48MRefClock::OSC32K);
    assert_eq!(hz(&mut controller, ClockGenId::GCLK1), Some(32_768));
    let undivided = controller
        .configure_gclk_divider_and_source(ClockGenId::GCLK3, 1, ClockSource::GCLKGEN1, false)
        .unwrap();
    assert_eq!(Hertz::from(undivided).to_Hz(), 32_768);
    assert_eq!(hz(&mut controller, ClockGenId::GCLK3), Some(32_768));
    let by_four = controller
        .configure_gclk_divider_and_source(ClockGenId::GCLK4, 4, ClockSource::GCLKGEN1, false)
        .unwrap();
    assert_eq!(Hertz::from(by_four).to_Hz(), 8_192);
    assert_eq!(hz(&mut controller, ClockGenId::GCLK4), Some(8_192));
    let by_three = controller
        .configure_gclk_divider_and_source(ClockGenId::GCLK5, 3, ClockSource::GCLKGEN1, false)
        .unwrap();
    assert_eq!(Hertz::from(by_three).to_Hz(), 10_922);
}

#[test]
fn feedback_from_a_generator_1_that_was_configured_later() {
    let mut controller = after_8mhz();
    controller
        .configure_gclk_divider_and_source(ClockGenId::GCLK1, 1000, ClockSource::DFLL48M, false)
        .unwrap();
    let clock = controller
        .configure_gclk_divider_and_source(ClockGenId::GCLK2, 6, ClockSource::GCLKGEN1, false)
        .unwrap();
    assert_eq!(Hertz::from(clock).to_Hz(), 8_000);
}

#[test]
fn configuring_twice_is_turned_down_and_changes_nothing() {
    let mut controller = after_48mhz(DFLL48MRefClock::OSC32K);
    assert!(controller
        .configure_gclk_divider_and_source(ClockGenId::GCLK3, 4, ClockSource::OSC8M, false)
        .is_some());
    controller.take_steps();
    let before = table(&mut controller);
    for gclk in [ClockGenId::GCLK0, ClockGenId::GCLK1, ClockGenId::GCLK3] {
        assert!(controller
            .configure_gclk_divider_and_source(gclk, 2, ClockSource::DFLL48M, true)
            .is_none());
    }
    assert_eq!(controller.take_steps(), vec![]);
    assert_eq!(table(&mut controller), before);
    assert_eq!(hz(&mut controller, ClockGenId::GCLK3), Some(2_000_000));
    assert_eq!(used(&controller), vec![ClockId::DFLL48]);
}

#[test]
fn a_generator_configured_to_less_than_a_hertz_passes_for_unconfigured() {
    let mut controller = after_8mhz();
    let clock = controller
        .configure_gclk_divider_and_source(ClockGenId::GCLK1, 40_000, ClockSource::OSC32K, false)
        .unwrap();
    assert_eq!(Hertz::from(clock).to_Hz(), 0);
    assert!(controller.get_gclk(ClockGenId::GCLK1).is_none());
    assert!(controller
        .configure_gclk_divider_and_source(ClockGenId::GCLK1, 2, ClockSource::OSC32K, false)
        .is_some());
    assert_eq!(hz(&mut controller, ClockGenId::GCLK1), Some(16_384));
}

#[test]
fn standby_selects_then_modifies() {
    let mut controller = after_8mhz();
    controller.configure_standby(ClockGenId::GCLK2, true);
    assert_eq!(
        controller.take_steps(),
        vec![
            Step::SelectGenCtrl { gclk: ClockGenId::GCLK2 },
            Step::WaitGclkSync,
            Step::ModifyGenCtrl { runstdby: true },
            Step::WaitGclkSync,
        ]
    );
}

#[test]
fn standby_can_be_asked_again_and_takes_no_channel() {
    let mut controller = after_8mhz();
    let before = table(&mut controller);
    controller.configure_standby(ClockGenId::GCLK0, true);
    controller.configure_standby(ClockGenId::GCLK0, true);
    controller.configure_standby(ClockGenId::GCLK0, false);
    assert_eq!(controller.take_steps().len(), 12);
    assert_eq!(table(&mut controller), before);
    assert_eq!(used(&controller), vec![]);
}

#[test]
fn enable_channel_writes_channel_generator_and_enable() {
    let mut controller = after_8mhz();
    let gclk0 = controller.gclk0();
    let rate = controller.enable_channel(ClockId::SERCOM3_CORE, &gclk0).unwrap();
    assert_eq!(rate.to_Hz(), 8_000_000);
    assert_eq!(
        controller.take_steps(),
        vec![
            Step::WriteClkCtrl {
                clock: ClockId::SERCOM3_CORE,
                gclk: ClockGenId::GCLK0,
                clken: true,
            },
            Step::WaitGclkSync,
        ]
    );
    assert_eq!(used(&controller), vec![ClockId::SERCOM3_CORE]);
}

#[test]
fn enabling_twice_is_turned_down_and_changes_nothing() {
    let mut controller = after_48mhz(DFLL48MRefClock::OSC32K);
    let gclk0 = controller.gclk0();
    let gclk1 = controller.gclk1();
    assert!(controller.enable_channel(ClockId::ADC, &gclk0).is_some());
    controller.take_steps();
    let before = used(&controller);
    assert_eq!(before, vec![ClockId::DFLL48, ClockId::ADC]);
    assert!(controller.enable_channel(ClockId::ADC, &gclk0).is_none());
    assert!(controller.enable_channel(ClockId::ADC, &gclk1).is_none());
    assert!(controller.enable_channel(ClockId::DFLL48, &gclk1).is_none());
    assert_eq!(used(&controller), before);
    assert_eq!(controller.take_steps(), vec![]);
}

#[test]
fn every_channel_can_be_enabled_once() {
    let mut controller = after_8mhz();
    let gclk0 = controller.gclk0();
    for clock in ALL_CHANNELS {
        assert!(!controller.is_used(clock));
        assert!(controller.enable_channel(clock, &gclk0).is_some());
        assert!(controller.is_used(clock));
    }
    assert_eq!(used(&controller), ALL_CHANNELS.to_vec());
    for clock in ALL_CHANNELS {
        assert!(controller.enable_channel(clock, &gclk0).is_none());
    }
    assert_eq!(controller.take_steps().len(), 2 * 37);
}

#[test]
fn a_channel_gets_the_frequency_of_the_handle() {
    let mut controller = after_48mhz(DFLL48MRefClock::USB);
    let stale = controller.gclk1();
    assert_eq!(Hertz::from(stale).to_Hz(), 0);
    let fresh = controller
        .configure_gclk_divider_and_source(ClockGenId::GCLK1, 3, ClockSource::DFLL48M, false)
        .unwrap();
    assert_eq!(Hertz::from(fresh).to_Hz(), 16_000_000);
    let rate = controller.enable_channel(ClockId::RTC, &stale).unwrap();
    assert_eq!(rate.to_Hz(), 0);
    let rate = controller.enable_channel(ClockId::ADC, &fresh).unwrap();
    assert_eq!(rate.to_Hz(), 16_000_000);
}

#[test]
fn a_token_gets_the_frequency_of_the_handle() {
    let mut controller = after_8mhz();
    let stale = controller.gclk1();
    controller
        .configure_gclk_divider_and_source(ClockGenId::GCLK1, 1, ClockSource::OSC32K, false)
        .unwrap();
    let adc = controller.adc(&stale).unwrap();
    assert_eq!(adc.freq().to_Hz(), 0);
    let current = controller.gclk1();
    let dac = controller.dac(&current).unwrap();
    assert_eq!(dac.freq().to_Hz(), 32_768);
}

#[test]
fn a_token_keeps_the_frequency_of_a_handle_that_resolved_to_nothing() {
    let mut controller = after_8mhz();
    let first = controller
        .configure_gclk_divider_and_source(ClockGenId::GCLK1, 40_000, ClockSource::OSC32K, false)
        .unwrap();
    let second = controller
        .configure_gclk_divider_and_source(ClockGenId::GCLK1, 2, ClockSource::OSC32K, false)
        .unwrap();
    let rtc = controller.rtc(&first).unwrap();
    assert_eq!(rtc.freq().to_Hz(), 0);
    let wdt = controller.wdt(&second).unwrap();
    assert_eq!(wdt.freq().to_Hz(), 16_384);
}

#[test]
fn used_channels_as_a_word() {
    let mut controller = GenericClockController::with_internal_8mhz();
    assert_eq!(controller.used_clocks(), 0);
    let g = controller.gclk0();
    controller.enable_channel(ClockId::I2S_1, &g);
    assert_eq!(controller.used_clocks(), 1 << 36);
    controller.enable_channel(ClockId::WDT, &g);
    assert_eq!(controller.used_clocks(), (1 << 36) | (1 << 3));
    controller.enable_channel(ClockId::WDT, &g);
    assert_eq!(controller.used_clocks(), (1 << 36) | (1 << 3));
    let controller = GenericClockController::new_48mhz(DFLL48MRefClock::OpenLoop, CAL);
    assert_eq!(controller.used_clocks(), 1);
}

#[test]
fn usage_set_keeps_what_was_put_in() {
    let mut set = UsageSet::empty();
    assert_eq!(set.bits(), 0);
    for clock in ALL_CHANNELS {
        assert!(!set.contains(clock));
    }
    set.insert(ClockId::USB);
    set.insert(ClockId::USB);
    set.insert(ClockId::DFLL48);
    assert_eq!(set.bits(), (1 << 6) | 1);
    for clock in ALL_CHANNELS {
        assert_eq!(set.contains(clock), clock == ClockId::USB || clock == ClockId::DFLL48);
    }
    for clock in ALL_CHANNELS {
        set.insert(clock);
    }
    assert_eq!(set.bits(), (1 << 37) - 1);
}

#[test]
fn tokens_carry_the_frequency_of_the_generator() {
    let mut controller = after_48mhz(DFLL48MRefClock::OSC32K);
    let gclk0 = controller.gclk0();
    let gclk1 = controller.gclk1();
    let gclk2 = controller
        .configure_gclk_divider_and_source(ClockGenId::GCLK2, 4, ClockSource::DFLL48M, false)
        .unwrap();
    let tcc = controller.tcc0_tcc1(&gclk0).unwrap();
    assert_eq!(tcc.freq().to_Hz(), 48_000_000);
    assert_eq!(Hertz::from(tcc).to_Hz(), 48_000_000);
    let rtc = controller.rtc(&gclk1).unwrap();
    assert_eq!(rtc.freq().to_Hz(), 32_768);
    let adc = controller.adc(&gclk2).unwrap();
    assert_eq!(adc.freq().to_Hz(), 12_000_000);
    assert_eq!(
        used(&controller),
        vec![ClockId::DFLL48, ClockId::RTC, ClockId::TCC0_TCC1, ClockId::ADC]
    );
}

#[test]
fn each_token_is_made_once_for_its_own_channel() {
    let mut controller = after_8mhz();
    let g = controller.gclk0();
    let mut taken = Vec::new();
    assert_made_once(&mut controller, &mut taken, ClockId::TCC0_TCC1, |c| {
        (c.tcc0_tcc1(&g).is_some(), c.tcc0_tcc1(&g).is_none())
    });
    assert_made_once(&mut controller, &mut taken, ClockId::TCC2_TC3, |c| {
        (c.tcc2_tc3(&g).is_some(), c.tcc2_tc3(&g).is_none())
    });
    assert_made_once(&mut controller, &mut taken, ClockId::TC4_TC5, |c| {
        (c.tc4_tc5(&g).is_some(), c.tc4_tc5(&g).is_none())
    });
    assert_made_once(&mut controller, &mut taken, ClockId::TC6_TC7, |c| {
        (c.tc6_tc7(&g).is_some(), c.tc6_tc7(&g).is_none())
    });
    assert_made_once(&mut controller, &mut taken, ClockId::SERCOM0_CORE, |c| {
        (c.sercom0_core(&g).is_some(), c.sercom0_core(&g).is_none())
    });
    assert_made_once(&mut controller, &mut taken, ClockId::SERCOM1_CORE, |c| {
        (c.sercom1_core(&g).is_some(), c.sercom1_core(&g).is_none())
    });
    assert_made_once(&mut controller, &mut taken, ClockId::SERCOM2_CORE, |c| {
        (c.sercom2_core(&g).is_some(), c.sercom2_core(&g).is_none())
    });
    assert_made_once(&mut controller, &mut taken, ClockId::SERCOM3_CORE, |c| {
        (c.sercom3_core(&g).is_some(), c.sercom3_core(&g).is_none())
    });
    assert_made_once(&mut controller, &mut taken, ClockId::SERCOM4_CORE, |c| {
        (c.sercom4_core(&g).is_some(), c.sercom4_core(&g).is_none())
    });
    assert_made_once(&mut controller, &mut taken, ClockId::SERCOM5_CORE, |c| {
        (c.sercom5_core(&g).is_some(), c.sercom5_core(&g).is_none())
    });
    assert_made_once(&mut controller, &mut taken, ClockId::USB, |c| {
        (c.usb(&g).is_some(), c.usb(&g).is_none())
    });
    assert_made_once(&mut controller, &mut taken, ClockId::RTC, |c| {
        (c.rtc(&g).is_some(), c.rtc(&g).is_none())
    });
    assert_made_once(&mut controller, &mut taken, ClockId::ADC, |c| {
        (c.adc(&g).is_some(), c.adc(&g).is_none())
    });
    assert_made_once(&mut controller, &mut taken, ClockId::WDT, |c| {
        (c.wdt(&g).is_some(), c.wdt(&g).is_none())
    });
    assert_made_once(&mut controller, &mut taken, ClockId::EIC, |c| {
        (c.eic(&g).is_some(), c.eic(&g).is_none())
    });
    assert_made_once(&mut controller, &mut taken, ClockId::EVSYS_0, |c| {
        (c.evsys0(&g).is_some(), c.evsys0(&g).is_none())
    });
    assert_made_once(&mut controller, &mut taken, ClockId::EVSYS_1, |c| {
        (c.evsys1(&g).is_some(), c.evsys1(&g).is_none())
    });
    assert_made_once(&mut controller, &mut taken, ClockId::EVSYS_2, |c| {
        (c.evsys2(&g).is_some(), c.evsys2(&g).is_none())
    });
    assert_made_once(&mut controller, &mut taken, ClockId::EVSYS_3, |c| {
        (c.evsys3(&g).is_some(), c.evsys3(&g).is_none())
    });
    assert_made_once(&mut controller, &mut taken, ClockId::EVSYS_4, |c| {
        (c.evsys4(&g).is_some(), c.evsys4(&g).is_none())
    });
    assert_made_once(&mut controller, &mut taken, ClockId::EVSYS_5, |c| {
        (c.evsys5(&g).is_some(), c.evsys5(&g).is_none())
    });
    assert_made_once(&mut controller, &mut taken, ClockId::EVSYS_6, |c| {
        (c.evsys6(&g).is_some(), c.evsys6(&g).is_none())
    });
    assert_made_once(&mut controller, &mut taken, ClockId::EVSYS_7, |c| {
        (c.evsys7(&g).is_some(), c.evsys7(&g).is_none())
    });
    assert_made_once(&mut controller, &mut taken, ClockId::EVSYS_8, |c| {
        (c.evsys8(&g).is_some(), c.evsys8(&g).is_none())
    });
    assert_made_once(&mut controller, &mut taken, ClockId::EVSYS_9, |c| {
        (c.evsys9(&g).is_some(), c.evsys9(&g).is_none())
    });
    assert_made_once(&mut controller, &mut taken, ClockId::EVSYS_10, |c| {
        (c.evsys10(&g).is_some(), c.evsys10(&g).is_none())
    });
    assert_made_once(&mut controller, &mut taken, ClockId::EVSYS_11, |c| {
        (c.evsys11(&g).is_some(), c.evsys11(&g).is_none())
    });
    assert_made_once(&mut controller, &mut taken, ClockId::AC_ANA, |c| {
        (c.ac_ana(&g).is_some(), c.ac_ana(&g).is_none())
    });
    assert_made_once(&mut controller, &mut taken, ClockId::AC_DIG, |c| {
        (c.ac_dig(&g).is_some(), c.ac_dig(&g).is_none())
    });
    assert_made_once(&mut controller, &mut taken, ClockId::DAC, |c| {
        (c.dac(&g).is_some(), c.dac(&g).is_none())
    });
    assert_made_once(&mut controller, &mut taken, ClockId::I2S_0, |c| {
        (c.i2s0(&g).is_some(), c.i2s0(&g).is_none())
    });
    assert_made_once(&mut controller, &mut taken, ClockId::I2S_1, |c| {
        (c.i2s1(&g).is_some(), c.i2s1(&g).is_none())
    });
    assert_eq!(taken.len(), 32);
}

fn assert_made_once(
    controller: &mut GenericClockController,
    taken: &mut Vec<ClockId>,
    clock: ClockId,
    twice: impl FnOnce(&mut GenericClockController) -> (bool, bool),
) {
    assert!(!controller.is_used(clock));
    let (first, second) = twice(controller);
    assert!(first);
    assert!(second);
    taken.push(clock);
    let mut expected = taken.clone();
    expected.sort_by_key(|clock| u8::from(*clock));
    assert_eq!(used(controller), expected);
    assert_eq!(
        controller.take_steps(),
        vec![
            Step::WriteClkCtrl { clock, gclk: ClockGenId::GCLK0, clken: true },
            Step::WaitGclkSync,
        ]
    );
}

#[test]
fn multiply_ratios() {
    assert_eq!(DFLL48MRefClock::OSC32K.divider(), Some(1465));
    assert_eq!(DFLL48MRefClock::XOSC32K.divider(), Some(1465));
    assert_eq!(DFLL48MRefClock::USB.divider(), Some(48000));
    assert_eq!(DFLL48MRefClock::OpenLoop.divider(), None);
}

#[test]
fn reference_as_generator_1() {
    assert_eq!(DFLL48MRefClock::OSC32K.hertz_as_gclk1().to_Hz(), 32_768);
    assert_eq!(DFLL48MRefClock::XOSC32K.hertz_as_gclk1().to_Hz(), 32_768);
    assert_eq!(DFLL48MRefClock::USB.hertz_as_gclk1().to_Hz(), 0);
    assert_eq!(DFLL48MRefClock::OpenLoop.hertz_as_gclk1().to_Hz(), 0);
}

#[test]
fn sequencer_records_in_order_and_starts_over_after_take() {
    let mut state = State::new();
    assert_eq!(state.take(), vec![]);
    state.reset_gclk();
    state.wait_for_sync();
    state.enable_clock_generator(ClockId::EIC, ClockGenId::GCLK7);
    assert_eq!(
        state.take(),
        vec![
            Step::WriteGclkCtrl { swrst: true },
            Step::WaitGclkReset,
            Step::WaitGclkSync,
            Step::WriteClkCtrl { clock: ClockId::EIC, gclk: ClockGenId::GCLK7, clken: true },
            Step::WaitGclkSync,
        ]
    );
    assert_eq!(state.take(), vec![]);
    state.set_gclk_divider_and_source(ClockGenId::GCLK2, 31, ClockSource::XOSC, false);
    state.configure_standby(ClockGenId::GCLK2, false);
    let mut expected = generator_steps(ClockGenId::GCLK2, 31, ClockSource::XOSC, false);
    expected.extend([
        Step::SelectGenCtrl { gclk: ClockGenId::GCLK2 },
        Step::WaitGclkSync,
        Step::ModifyGenCtrl { runstdby: false },
        Step::WaitGclkSync,
    ]);
    assert_eq!(state.take(), expected);
}

#[test]
fn flash_bus_and_prescaler_steps() {
    let mut state = State::new();
    set_flash_to_half_auto_wait_state(&mut state);
    set_flash_manual_write(&mut state);
    enable_gclk_apb(&mut state);
    wait_for_dfllrdy(&mut state);
    reset_prescalers(&mut state);
    let mut expected = vec![
        Step::ModifyFlashWaitStates { rws: FlashWaitStates::Half },
        Step::ModifyFlashManualWrite { manw: true },
        Step::ModifyApbAMask { gclk_: true },
        Step::WaitDfllReady,
    ];
    expected.extend(prescaler_steps());
    assert_eq!(state.take(), expected);
}

#[test]
fn oscillator_steps() {
    let mut state = State::new();
    enable_internal_32kosc(&mut state, 0x7f);
    assert_eq!(
        state.take(),
        vec![
            Step::WriteOsc32k {
                ondemand: false,
                calib: 0x7f,
                startup: 6,
                en32k: true,
                enable: true,
                runstdby: true,
            },
            Step::WaitOsc32kReady,
        ]
    );
    enable_external_32kosc(&mut state);
    assert_eq!(
        state.take(),
        vec![
            Step::ModifyXosc32k {
                startup: 6,
                ondemand: false,
                en32k: true,
                xtalen: true,
                runstdby: true,
            },
            Step::ModifyXosc32kEnable { enable: true },
            Step::WaitXosc32kReady,
        ]
    );
}

#[test]
fn multiplier_coarse_step_is_a_quarter_of_the_calibration() {
    for (coarse, cstep) in [(0u8, 0u8), (3, 0), (4, 1), (0x3f, 15), (0xff, 63)] {
        let mut state = State::new();
        configure_and_enable_dfll48m(&mut state, &DFLL48MRefClock::OSC32K, coarse);
        let steps = state.take();
        assert_eq!(steps.len(), 8);
        assert_eq!(steps[2], Step::WriteDfllVal { coarse, fine: 0x1ff });
        assert_eq!(steps[3], Step::WriteDfllMul { cstep, fstep: 10, mul: 1464 });
    }
}

#[test]
fn multiplier_waits_for_lock_only_with_the_crystal() {
    for refclock in [
        DFLL48MRefClock::OSC32K,
        DFLL48MRefClock::XOSC32K,
        DFLL48MRefClock::USB,
        DFLL48MRefClock::OpenLoop,
    ] {
        let mut state = State::new();
        configure_and_enable_dfll48m(&mut state, &refclock, 1);
        let steps = state.take();
        assert_eq!(steps.contains(&Step::WaitDfllLocked), refclock == DFLL48MRefClock::XOSC32K);
        assert_eq!(steps[0], Step::WriteDfllCtrl { flags: all_clear() });
        assert_eq!(steps[1], Step::WaitDfllReady);
        assert_eq!(steps[steps.len() - 1], Step::WaitDfllReady);
    }
}

#[test]
fn multiplier_with_usb_recovery_and_calibrated_steps() {
    let mut state = State::new();
    configure_and_enable_dfll48m_open(&mut state, 0x20);
    assert_eq!(
        state.take(),
        vec![
            Step::WriteDfllCtrl { flags: all_clear() },
            Step::WaitDfllReady,
            Step::WriteDfllVal { coarse: 0x20, fine: 0x1ff },
            Step::WriteDfllMul { cstep: 8, fstep: 10, mul: 48000 },
            Step::WriteDfllCtrl {
                flags: DfllControl {
                    mode: true,
                    ccdis: true,
                    usbcrm: true,
                    bplckc: true,
                    ..all_clear()
                },
            },
            Step::WaitDfllReady,
            Step::ModifyDfllCtrlEnable { enable: true },
            Step::WaitDfllReady,
        ]
    );
}

#[test]
fn every_write_to_the_generator_tree_is_followed_by_its_wait() {
    let mut controller = GenericClockController::with_external_32kosc(CAL);
    let g = controller.gclk0();
    controller.configure_gclk_divider_and_source(ClockGenId::GCLK6, 2, ClockSource::OSC8M, true);
    controller.configure_standby(ClockGenId::GCLK6, true);
    controller.enable_channel(ClockId::USB, &g);
    let steps = controller.take_steps();
    for (i, step) in steps.iter().enumerate() {
        let wait = match step {
            Step::WriteGclkCtrl { .. } => Some(Step::WaitGclkReset),
            Step::WriteGenDiv { .. }
            | Step::WriteGenCtrl { .. }
            | Step::WriteClkCtrl { .. }
            | Step::SelectGenCtrl { .. }
            | Step::ModifyGenCtrl { .. } => Some(Step::WaitGclkSync),
            _ => None,
        };
        if let Some(wait) = wait {
            assert_eq!(steps.get(i + 1), Some(&wait));
        }
    }
    assert_eq!(steps[0], Step::ModifyFlashWaitStates { rws: FlashWaitStates::Half });
}
