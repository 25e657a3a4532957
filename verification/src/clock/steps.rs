//! Register transactions. The controller does not touch the hardware: it
//! decides which registers are written, with which field values, and where
//! the processor has to wait, and hands that out as a sequence of steps to
//! be carried out in order.

use crate::clock::ids::{ClockGenId, ClockId, ClockSource};
use crate::clock::DFLL48MRefClock;
use vstd::prelude::*;

verus! {

/// The startup time selected for both 32 kHz oscillators.
pub const OSC32K_STARTUP: u8 = 6;

/// The fine trim that the frequency multiplier starts from.
pub const DFLL_FINE: u16 = 0x1ff;

/// The multiplier's output over the 32 kHz reference, rounded down.
pub const DFLL_MUL_32K: u16 = 1464;

/// The multiplier's output over the 32 kHz reference, rounded to nearest.
pub const DFLL_MUL_32K_ROUNDED: u16 = 1465;

/// The multiplier's output over the 1 kHz USB start-of-frame.
pub const DFLL_MUL_USB: u16 = 48000;

/// The mode flags of the frequency multiplier. A flag that is `false` is
/// written as 0.
#[derive(Clone, Copy, Debug, PartialEq, Eq, Structural)]
pub struct DfllControl {
    /// `ONDEMAND`: run only while a peripheral requests the clock.
    pub ondemand: bool,
    /// `MODE`: closed loop when set, open loop when clear.
    pub mode: bool,
    /// `CCDIS`: chill cycle disabled.
    pub ccdis: bool,
    /// `USBCRM`: USB clock recovery.
    pub usbcrm: bool,
    /// `BPLCKC`: bypass coarse lock.
    pub bplckc: bool,
    /// `WAITLOCK`: hold the output until the loop has locked.
    pub waitlock: bool,
    /// `QLDIS`: quick lock disabled.
    pub qldis: bool,
}

/// How many wait states a flash read takes.
#[derive(Clone, Copy, Debug, PartialEq, Eq, Structural)]
pub enum FlashWaitStates {
    Single,
    Half,
    Dual,
}

/// A clock domain with a divider of its own in the power manager.
#[derive(Clone, Copy, Debug, PartialEq, Eq, Structural)]
pub enum Bus {
    Cpu,
    ApbA,
    ApbB,
    ApbC,
}

/// One register transaction. A write starts from the register's value
/// after reset and sets the fields named; a modify reads the register and
/// changes only the fields named; a wait spins with no timeout.
#[derive(Clone, Copy, Debug, PartialEq, Eq, Structural)]
pub enum Step {
    /// Write the software reset bit of the generator tree.
    WriteGclkCtrl { swrst: bool },
    /// Wait until the software reset bit and sync-busy have both cleared.
    WaitGclkReset,
    /// Wait until the generator tree's sync-busy has cleared.
    WaitGclkSync,
    /// Write a generator's divider.
    WriteGenDiv { gclk: ClockGenId, div: u16 },
    /// Write a generator's control word.
    WriteGenCtrl {
        gclk: ClockGenId,
        src: ClockSource,
        divsel: bool,
        idc: bool,
        genen: bool,
        oe: bool,
    },
    /// Write a peripheral channel's control word.
    WriteClkCtrl { clock: ClockId, gclk: ClockGenId, clken: bool },
    /// Write a generator's number to the low byte of the generator control
    /// register, an 8-bit access, so that the register shows that
    /// generator's control word.
    SelectGenCtrl { gclk: ClockGenId },
    /// Change run-in-standby in the control word that is selected.
    ModifyGenCtrl { runstdby: bool },
    /// Change the flash read wait states.
    ModifyFlashWaitStates { rws: FlashWaitStates },
    /// Change manual-write mode of the flash controller.
    ModifyFlashManualWrite { manw: bool },
    /// Change whether the generator tree itself gets its bus clock.
    ModifyApbAMask { gclk_: bool },
    /// Write a domain's divider: divide by two to the power `exponent`.
    WriteBusDivider { bus: Bus, exponent: u8 },
    /// Change prescaler and on-demand of the 8 MHz RC oscillator.
    ModifyOsc8m { presc: u8, ondemand: bool },
    /// Write the control word of the internal 32 kHz oscillator.
    WriteOsc32k {
        ondemand: bool,
        calib: u8,
        startup: u8,
        en32k: bool,
        enable: bool,
        runstdby: bool,
    },
    /// Wait until the internal 32 kHz oscillator is ready.
    WaitOsc32kReady,
    /// Change the setup of the external 32 kHz oscillator.
    ModifyXosc32k { startup: u8, ondemand: bool, en32k: bool, xtalen: bool, runstdby: bool },
    /// Change the enable bit of the external 32 kHz oscillator.
    ModifyXosc32kEnable { enable: bool },
    /// Wait until the external 32 kHz oscillator is ready.
    WaitXosc32kReady,
    /// Write the mode flags of the frequency multiplier; it is disabled by
    /// the same write.
    WriteDfllCtrl { flags: DfllControl },
    /// Wait until the frequency multiplier is ready for the next access.
    WaitDfllReady,
    /// Write the multiplier's coarse and fine trim.
    WriteDfllVal { coarse: u8, fine: u16 },
    /// Write the multiplier's step sizes and multiply ratio.
    WriteDfllMul { cstep: u8, fstep: u16, mul: u16 },
    /// Change the enable bit of the frequency multiplier.
    ModifyDfllCtrlEnable { enable: bool },
    /// Wait until the multiplier reports both coarse lock and fine lock.
    WaitDfllLocked,
}

/// All mode flags clear: always on, open loop.
pub open spec fn dfll_open_loop() -> DfllControl {
    DfllControl {
        ondemand: false,
        mode: false,
        ccdis: false,
        usbcrm: false,
        bplckc: false,
        waitlock: false,
        qldis: false,
    }
}

/// The mode flags that the multiplier runs with for each reference.
pub open spec fn dfll_mode(refclock: DFLL48MRefClock) -> DfllControl {
    match refclock {
        DFLL48MRefClock::OSC32K => DfllControl {
            mode: true,
            ccdis: true,
            bplckc: true,
            ..dfll_open_loop()
        },
        DFLL48MRefClock::XOSC32K => DfllControl {
            mode: true,
            waitlock: true,
            qldis: true,
            ..dfll_open_loop()
        },
        DFLL48MRefClock::USB => DfllControl {
            mode: true,
            ccdis: true,
            usbcrm: true,
            bplckc: true,
            ..dfll_open_loop()
        },
        DFLL48MRefClock::OpenLoop => dfll_open_loop(),
    }
}

/// Resetting the generator tree.
pub open spec fn reset_steps() -> Seq<Step> {
    seq![Step::WriteGclkCtrl { swrst: true }, Step::WaitGclkReset]
}

/// Programming one generator: the divider in one register, then source
/// and flags in a second one, each followed by a wait for
/// synchronization. The divider is applied as it is, not as a power of
/// two, and the generator is enabled with its output pin driven.
pub open spec fn generator_steps(
    gclk: ClockGenId,
    divider: u16,
    src: ClockSource,
    improve_duty_cycle: bool,
) -> Seq<Step> {
    seq![
        Step::WriteGenDiv { gclk: gclk, div: divider },
        Step::WaitGclkSync,
        Step::WriteGenCtrl {
            gclk: gclk,
            src: src,
            divsel: false,
            idc: improve_duty_cycle,
            genen: true,
            oe: true,
        },
        Step::WaitGclkSync,
    ]
}

/// Routing a generator to a peripheral channel and switching the channel
/// on.
pub open spec fn channel_steps(clock: ClockId, generator: ClockGenId) -> Seq<Step> {
    seq![Step::WriteClkCtrl { clock: clock, gclk: generator, clken: true }, Step::WaitGclkSync]
}

/// Changing whether a generator runs in standby: select, wait, modify,
/// wait.
pub open spec fn standby_steps(gclk: ClockGenId, enable: bool) -> Seq<Step> {
    seq![
        Step::SelectGenCtrl { gclk: gclk },
        Step::WaitGclkSync,
        Step::ModifyGenCtrl { runstdby: enable },
        Step::WaitGclkSync,
    ]
}

/// Starting the internal 32 kHz oscillator, always on and running in
/// standby, with its factory calibration.
pub open spec fn internal_32k_steps(calibration: u8) -> Seq<Step> {
    seq![
        Step::WriteOsc32k {
            ondemand: false,
            calib: calibration,
            startup: OSC32K_STARTUP,
            en32k: true,
            enable: true,
            runstdby: true,
        },
        Step::WaitOsc32kReady,
    ]
}

/// Starting the external 32 kHz crystal oscillator: set it up, then enable
/// it with a second access.
pub open spec fn external_32k_steps() -> Seq<Step> {
    seq![
        Step::ModifyXosc32k {
            startup: OSC32K_STARTUP,
            ondemand: false,
            en32k: true,
            xtalen: true,
            runstdby: true,
        },
        Step::ModifyXosc32kEnable { enable: true },
        Step::WaitXosc32kReady,
    ]
}

/// What is written between switching the multiplier off and switching it
/// on: trim, step sizes with the multiply ratio, and the mode flags.
pub open spec fn dfll_setup_steps(refclock: DFLL48MRefClock, coarse: u8) -> Seq<Step> {
    match refclock {
        DFLL48MRefClock::OSC32K => seq![
            Step::WriteDfllVal { coarse: coarse, fine: DFLL_FINE },
            Step::WriteDfllMul { cstep: coarse / 4, fstep: 10, mul: DFLL_MUL_32K },
            Step::WriteDfllCtrl { flags: dfll_mode(refclock) },
        ],
        DFLL48MRefClock::XOSC32K => seq![
            Step::WriteDfllMul { cstep: 31, fstep: 511, mul: DFLL_MUL_32K_ROUNDED },
            Step::WriteDfllCtrl { flags: dfll_mode(refclock) },
        ],
        DFLL48MRefClock::USB => seq![
            Step::WriteDfllVal { coarse: coarse, fine: DFLL_FINE },
            Step::WriteDfllMul { cstep: 1, fstep: 1, mul: DFLL_MUL_USB },
            Step::WriteDfllCtrl { flags: dfll_mode(refclock) },
        ],
        DFLL48MRefClock::OpenLoop => seq![
            Step::WriteDfllVal { coarse: coarse, fine: DFLL_FINE },
            Step::WriteDfllCtrl { flags: dfll_mode(refclock) },
        ],
    }
}

/// What follows the enable bit: only with the external crystal as
/// reference does the processor wait for the loop to lock.
pub open spec fn dfll_lock_steps(refclock: DFLL48MRefClock) -> Seq<Step> {
    if refclock == DFLL48MRefClock::XOSC32K {
        seq![Step::WaitDfllLocked]
    } else {
        Seq::empty()
    }
}

/// Configuring and enabling the frequency multiplier.
pub open spec fn dfll_steps(refclock: DFLL48MRefClock, coarse: u8) -> Seq<Step> {
    seq![Step::WriteDfllCtrl { flags: dfll_open_loop() }, Step::WaitDfllReady]
        + dfll_setup_steps(refclock, coarse)
        + seq![Step::WaitDfllReady, Step::ModifyDfllCtrlEnable { enable: true }]
        + dfll_lock_steps(refclock)
        + seq![Step::WaitDfllReady]
}

/// Enabling the multiplier in closed loop with USB clock recovery, with
/// step sizes taken from the calibration.
pub open spec fn dfll_usb_calibrated_steps(coarse: u8) -> Seq<Step> {
    seq![
        Step::WriteDfllCtrl { flags: dfll_open_loop() },
        Step::WaitDfllReady,
        Step::WriteDfllVal { coarse: coarse, fine: DFLL_FINE },
        Step::WriteDfllMul { cstep: coarse / 4, fstep: 10, mul: DFLL_MUL_USB },
        Step::WriteDfllCtrl { flags: dfll_mode(DFLL48MRefClock::USB) },
        Step::WaitDfllReady,
        Step::ModifyDfllCtrlEnable { enable: true },
        Step::WaitDfllReady,
    ]
}

/// Setting the prescaler of the 8 MHz oscillator and the dividers of the
/// processor and the three peripheral buses back to divide-by-one.
pub open spec fn prescaler_reset_steps() -> Seq<Step> {
    seq![
        Step::ModifyOsc8m { presc: 0, ondemand: false },
        Step::WriteBusDivider { bus: Bus::Cpu, exponent: 0 },
        Step::WriteBusDivider { bus: Bus::ApbA, exponent: 0 },
        Step::WriteBusDivider { bus: Bus::ApbB, exponent: 0 },
        Step::WriteBusDivider { bus: Bus::ApbC, exponent: 0 },
    ]
}

/// Starting the reference oscillator, where the reference is one.
pub open spec fn reference_start_steps(refclock: DFLL48MRefClock, osc32k: u8) -> Seq<Step> {
    match refclock {
        DFLL48MRefClock::OSC32K => internal_32k_steps(osc32k),
        DFLL48MRefClock::XOSC32K => external_32k_steps(),
        _ => Seq::empty(),
    }
}

/// The clock source that stands for a reference oscillator.
pub open spec fn reference_source(refclock: DFLL48MRefClock) -> ClockSource {
    if refclock == DFLL48MRefClock::XOSC32K {
        ClockSource::XOSC32K
    } else {
        ClockSource::OSC32K
    }
}

/// Putting the reference oscillator on generator 1, undivided, and
/// generator 1 on the multiplier's reference input.
pub open spec fn reference_routing_steps(refclock: DFLL48MRefClock) -> Seq<Step> {
    match refclock {
        DFLL48MRefClock::OSC32K | DFLL48MRefClock::XOSC32K => generator_steps(
            ClockGenId::GCLK1,
            1,
            reference_source(refclock),
            false,
        ) + channel_steps(ClockId::DFLL48, ClockGenId::GCLK1),
        _ => Seq::empty(),
    }
}

/// The whole bring-up to 48 MHz, in order: flash wait states first, while
/// the processor is still slow; the tree's own bus clock; the reference
/// oscillator; the tree reset; the reference on generator 1 and on the
/// multiplier; the multiplier; the multiplier on generator 0, which is the
/// moment the processor goes to 48 MHz; the prescalers.
pub open spec fn bring_up_48mhz_steps(
    refclock: DFLL48MRefClock,
    osc32k: u8,
    coarse: u8,
) -> Seq<Step> {
    seq![
        Step::ModifyFlashWaitStates { rws: FlashWaitStates::Half },
        Step::ModifyFlashManualWrite { manw: true },
        Step::ModifyApbAMask { gclk_: true },
    ] + reference_start_steps(refclock, osc32k) + reset_steps() + reference_routing_steps(
        refclock,
    ) + dfll_steps(refclock, coarse) + generator_steps(
        ClockGenId::GCLK0,
        1,
        ClockSource::DFLL48M,
        true,
    ) + prescaler_reset_steps()
}

/// The whole bring-up to 8 MHz from the internal RC oscillator, with no
/// multiplier and no flash wait state.
pub open spec fn bring_up_8mhz_steps() -> Seq<Step> {
    seq![Step::ModifyFlashManualWrite { manw: true }, Step::ModifyApbAMask { gclk_: true }]
        + reset_steps() + generator_steps(ClockGenId::GCLK0, 1, ClockSource::OSC8M, false)
        + prescaler_reset_steps()
}

/// The wait that has to follow a step at once: every write to the
/// generator tree takes effect some time later, and the next access has to
/// hold off until it has.
pub open spec fn awaited_by(step: Step) -> Option<Step> {
    match step {
        Step::WriteGclkCtrl { .. } => Some(Step::WaitGclkReset),
        Step::WriteGenDiv { .. }
        | Step::WriteGenCtrl { .. }
        | Step::WriteClkCtrl { .. }
        | Step::SelectGenCtrl { .. }
        | Step::ModifyGenCtrl { .. } => Some(Step::WaitGclkSync),
        _ => None,
    }
}

/// Every write to the generator tree in `steps` is followed at once by
/// the wait it needs.
pub open spec fn synchronized(steps: Seq<Step>) -> bool {
    forall|i: int|
        0 <= i < steps.len() ==> (#[trigger] awaited_by(steps[i]) matches Some(wait) ==> i + 1
            < steps.len() && steps[i + 1] == wait)
}

/// Two synchronized sequences, one after the other, are synchronized.
pub proof fn lemma_synchronized_concat(first: Seq<Step>, second: Seq<Step>)
    requires
        synchronized(first),
        synchronized(second),
    ensures
        synchronized(first + second),
{
    let all = first + second;
    assert forall|i: int| 0 <= i < all.len() implies (#[trigger] awaited_by(all[i]) matches Some(
        wait,
    ) ==> i + 1 < all.len() && all[i + 1] == wait) by {
        if i < first.len() {
            assert(all[i] == first[i]);
            if awaited_by(first[i]) is Some {
                assert(all[i + 1] == first[i + 1]);
            }
        } else {
            let j = i - first.len();
            assert(all[i] == second[j]);
            if awaited_by(second[j]) is Some {
                assert(all[i + 1] == second[j + 1]);
            }
        }
    }
}

/// Each of the four operations on the generator tree is synchronized.
pub proof fn lemma_operations_synchronized(
    gclk: ClockGenId,
    divider: u16,
    src: ClockSource,
    improve_duty_cycle: bool,
    clock: ClockId,
    enable: bool,
)
    ensures
        synchronized(reset_steps()),
        synchronized(generator_steps(gclk, divider, src, improve_duty_cycle)),
        synchronized(channel_steps(clock, gclk)),
        synchronized(standby_steps(gclk, enable)),
{
}

/// Both bring-up sequences are synchronized.
pub proof fn lemma_bring_up_synchronized(refclock: DFLL48MRefClock, osc32k: u8, coarse: u8)
    ensures
        synchronized(bring_up_48mhz_steps(refclock, osc32k, coarse)),
        synchronized(bring_up_8mhz_steps()),
{
    let g0 = ClockGenId::GCLK0;
    let g1 = ClockGenId::GCLK1;
    lemma_operations_synchronized(g0, 1, ClockSource::DFLL48M, true, ClockId::DFLL48, false);
    lemma_operations_synchronized(g0, 1, ClockSource::OSC8M, false, ClockId::DFLL48, false);
    lemma_operations_synchronized(g1, 1, reference_source(refclock), false, ClockId::DFLL48, false);

    let head = seq![
        Step::ModifyFlashWaitStates { rws: FlashWaitStates::Half },
        Step::ModifyFlashManualWrite { manw: true },
        Step::ModifyApbAMask { gclk_: true },
    ];
    let start = reference_start_steps(refclock, osc32k);
    let routing = reference_routing_steps(refclock);
    let dfll = dfll_steps(refclock, coarse);
    let gen0 = generator_steps(g0, 1, ClockSource::DFLL48M, true);
    assert(synchronized(routing)) by {
        if refclock.is_oscillator() {
            lemma_synchronized_concat(
                generator_steps(g1, 1, reference_source(refclock), false),
                channel_steps(ClockId::DFLL48, g1),
            );
        }
    }
    assert(synchronized(dfll)) by {
        assert forall|i: int| 0 <= i < dfll.len() implies awaited_by(#[trigger] dfll[i])
            is None by {}
    }
    lemma_synchronized_concat(head, start);
    lemma_synchronized_concat(head + start, reset_steps());
    lemma_synchronized_concat(head + start + reset_steps(), routing);
    lemma_synchronized_concat(head + start + reset_steps() + routing, dfll);
    lemma_synchronized_concat(head + start + reset_steps() + routing + dfll, gen0);
    lemma_synchronized_concat(
        head + start + reset_steps() + routing + dfll + gen0,
        prescaler_reset_steps(),
    );

    let head8 = seq![
        Step::ModifyFlashManualWrite { manw: true },
        Step::ModifyApbAMask { gclk_: true },
    ];
    let gen8 = generator_steps(g0, 1, ClockSource::OSC8M, false);
    lemma_synchronized_concat(head8, reset_steps());
    lemma_synchronized_concat(head8 + reset_steps(), gen8);
    lemma_synchronized_concat(head8 + reset_steps() + gen8, prescaler_reset_steps());
}

/// Bring-up to 48 MHz opens with the flash wait state, before anything
/// that makes the processor faster.
pub proof fn lemma_flash_wait_state_comes_first(refclock: DFLL48MRefClock, osc32k: u8, coarse: u8)
    ensures
        bring_up_48mhz_steps(refclock, osc32k, coarse)[0] == (Step::ModifyFlashWaitStates {
            rws: FlashWaitStates::Half,
        }),
{
}

/// Whether a step works on the generator tree and on no other register
/// block.
pub open spec fn on_generator_tree(step: Step) -> bool {
    match step {
        Step::WriteGclkCtrl { .. }
        | Step::WaitGclkReset
        | Step::WaitGclkSync
        | Step::WriteGenDiv { .. }
        | Step::WriteGenCtrl { .. }
        | Step::WriteClkCtrl { .. }
        | Step::SelectGenCtrl { .. }
        | Step::ModifyGenCtrl { .. } => true,
        _ => false,
    }
}

/// The four operations on the generator tree work on no other register
/// block: whoever owns the tree can carry them out.
pub proof fn lemma_operations_on_generator_tree(
    gclk: ClockGenId,
    divider: u16,
    src: ClockSource,
    improve_duty_cycle: bool,
    clock: ClockId,
    enable: bool,
)
    ensures
        forall|i: int| 0 <= i < 2 ==> on_generator_tree(#[trigger] reset_steps()[i]),
        forall|i: int|
            0 <= i < 4 ==> on_generator_tree(
                #[trigger] generator_steps(gclk, divider, src, improve_duty_cycle)[i],
            ),
        forall|i: int| 0 <= i < 2 ==> on_generator_tree(#[trigger] channel_steps(clock, gclk)[i]),
        forall|i: int| 0 <= i < 4 ==> on_generator_tree(#[trigger] standby_steps(gclk, enable)[i]),
{
}

} // verus!
