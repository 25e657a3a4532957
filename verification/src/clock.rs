//! The clock tree: oscillators, generators and peripheral channels.
#![allow(clippy::upper_case_acronyms)]

pub mod ids;
pub mod lowering;
pub mod registers;
pub mod steps;
pub mod tokens;
pub mod tree;

use crate::clock::ids::{ClockGenId, ClockId, ClockSource};
use crate::clock::steps::{
    bring_up_48mhz_steps, bring_up_8mhz_steps, channel_steps, dfll_steps,
    dfll_usb_calibrated_steps, external_32k_steps, generator_steps, internal_32k_steps,
    prescaler_reset_steps, reset_steps, standby_steps, Bus, DfllControl, FlashWaitStates, Step,
    DFLL_FINE, DFLL_MUL_32K, DFLL_MUL_32K_ROUNDED, DFLL_MUL_USB, OSC32K_STARTUP,
};
use crate::clock::tree::ClockTree;
use crate::time::Hertz;
use vstd::prelude::*;

verus! {

/// What the 48 MHz frequency multiplier is locked to.
#[derive(Clone, Copy, Debug, PartialEq, Eq, Structural)]
pub enum DFLL48MRefClock {
    /// The internal 32 kHz oscillator, which is then also on generator 1.
    OSC32K,
    /// The external 32 kHz crystal oscillator, which is then also on
    /// generator 1.
    XOSC32K,
    /// The 1 kHz start-of-frame of the USB bus. Without a bus connection
    /// the multiplier runs as in open loop.
    USB,
    /// No reference: open loop, the least accurate.
    OpenLoop,
}

/// The largest divider that a generator's divider field holds: 16 bits
/// for generator 1, 5 bits for generator 2, 8 bits for the others.
pub open spec fn max_divider(gclk: ClockGenId) -> nat {
    match gclk {
        ClockGenId::GCLK1 => 65535,
        ClockGenId::GCLK2 => 31,
        _ => 255,
    }
}

/// Whether `divider` fits the divider field of `gclk`. A larger value
/// would be cut off by the hardware and divide the clock by something
/// else.
pub fn divider_is_valid(gclk: ClockGenId, divider: u32) -> (valid: bool)
    ensures
        valid == (divider <= max_divider(gclk)),
{
    match gclk {
        ClockGenId::GCLK1 => divider < 0x1_0000,
        ClockGenId::GCLK2 => divider < 0x20,
        _ => divider < 0x100,
    }
}

/// The hardware sequencer: the register transactions that have been
/// decided on and not yet handed out, in the order in which they are to be
/// carried out.
pub struct State {
    steps: Vec<Step>,
}

impl View for State {
    type V = Seq<Step>;

    closed spec fn view(&self) -> Seq<Step> {
        self.steps@
    }
}

impl State {
    /// A sequencer with nothing to do.
    pub fn new() -> (state: Self)
        ensures
            state@ == Seq::<Step>::empty(),
    {
        State { steps: Vec::new() }
    }

    /// Hands out the steps recorded so far and starts over with none.
    pub fn take(&mut self) -> (steps: Vec<Step>)
        ensures
            steps@ == old(self)@,
            final(self)@ == Seq::<Step>::empty(),
    {
        let mut steps: Vec<Step> = Vec::new();
        core::mem::swap(&mut self.steps, &mut steps);
        steps
    }

    /// Resets the generator tree to its power-on defaults and waits until
    /// the reset is through.
    pub fn reset_gclk(&mut self)
        ensures
            final(self)@ == old(self)@ + reset_steps(),
    {
        self.steps.push(Step::WriteGclkCtrl { swrst: true });
        self.steps.push(Step::WaitGclkReset);
    }

    /// Waits until the last write to the generator tree has taken effect.
    pub fn wait_for_sync(&mut self)
        ensures
            final(self)@ == old(self)@.push(Step::WaitGclkSync),
    {
        self.steps.push(Step::WaitGclkSync);
    }

    /// Programs generator `gclk` to run from `src` divided by `divider`.
    pub fn set_gclk_divider_and_source(
        &mut self,
        gclk: ClockGenId,
        divider: u16,
        src: ClockSource,
        improve_duty_cycle: bool,
    )
        requires
            divider <= max_divider(gclk),
        ensures
            final(self)@ == old(self)@ + generator_steps(gclk, divider, src, improve_duty_cycle),
    {
        self.steps.push(Step::WriteGenDiv { gclk: gclk, div: divider });
        self.wait_for_sync();

        self.steps.push(
            Step::WriteGenCtrl {
                gclk: gclk,
                src,
                // divide by the divider itself, not by a power of two
                divsel: false,
                idc: improve_duty_cycle,
                genen: true,
                oe: true,
            },
        );
        self.wait_for_sync();
    }

    /// Feeds peripheral channel `clock` from `generator` and switches the
    /// channel on.
    pub fn enable_clock_generator(&mut self, clock: ClockId, generator: ClockGenId)
        ensures
            final(self)@ == old(self)@ + channel_steps(clock, generator),
    {
        self.steps.push(Step::WriteClkCtrl { clock: clock, gclk: generator, clken: true });
        self.wait_for_sync();
    }

    /// Lets generator `gclk` run in standby, or not.
    pub fn configure_standby(&mut self, gclk: ClockGenId, enable: bool)
        ensures
            final(self)@ == old(self)@ + standby_steps(gclk, enable),
    {
        // The generator's control word has to be selected by an 8-bit write
        // of its number before it can be read, modified and written back.
        self.steps.push(Step::SelectGenCtrl { gclk: gclk });
        self.wait_for_sync();

        self.steps.push(Step::ModifyGenCtrl { runstdby: enable });
        self.wait_for_sync();
    }
}

impl DFLL48MRefClock {
    /// The multiply ratio that brings this reference to 48 MHz, rounded to
    /// nearest; none in open loop.
    pub open spec fn multiply_ratio(self) -> Option<u16> {
        match self {
            DFLL48MRefClock::OSC32K | DFLL48MRefClock::XOSC32K => Some(
                ((OSC48M_FREQ + OSC32K_FREQ / 2) / (OSC32K_FREQ as int)) as u16,
            ),
            DFLL48MRefClock::USB => Some((OSC48M_FREQ / 1000) as u16),
            DFLL48MRefClock::OpenLoop => None,
        }
    }

    /// The frequency that generator 1 runs at after bring-up with this
    /// reference: that of the 32 kHz oscillator where one is the reference,
    /// else 0, which stands for a generator that was not configured.
    pub open spec fn gclk1_frequency(self) -> nat {
        match self {
            DFLL48MRefClock::OSC32K => OSC32K_FREQ as nat,
            DFLL48MRefClock::XOSC32K => OSC32K_FREQ as nat,
            DFLL48MRefClock::USB => 0,
            DFLL48MRefClock::OpenLoop => 0,
        }
    }

    /// Whether the reference is one of the 32 kHz oscillators.
    pub open spec fn is_oscillator(self) -> bool {
        self == DFLL48MRefClock::OSC32K || self == DFLL48MRefClock::XOSC32K
    }

    /// The multiply ratio that brings this reference to 48 MHz, rounded to
    /// nearest; none in open loop.
    pub fn divider(&self) -> (ratio: Option<u16>)
        ensures
            ratio == self.multiply_ratio(),
    {
        match self {
            DFLL48MRefClock::OSC32K | DFLL48MRefClock::XOSC32K => Some(
                ((OSC48M_FREQ + OSC32K_FREQ / 2) / OSC32K_FREQ) as u16,
            ),
            DFLL48MRefClock::USB => Some((OSC48M_FREQ / 1000) as u16),
            DFLL48MRefClock::OpenLoop => None,
        }
    }

    /// The ratios that the multiplier is programmed with are those of
    /// 48 MHz over the reference: over 32 768 Hz rounded down for the
    /// internal oscillator and rounded to nearest for the crystal, and over
    /// 1 kHz for USB.
    pub proof fn lemma_multiply_ratios()
        ensures
            DFLL_MUL_32K == OSC48M_FREQ / OSC32K_FREQ,
            DFLL48MRefClock::XOSC32K.multiply_ratio() == Some(DFLL_MUL_32K_ROUNDED),
            DFLL48MRefClock::OSC32K.multiply_ratio() == Some(DFLL_MUL_32K_ROUNDED),
            DFLL48MRefClock::USB.multiply_ratio() == Some(DFLL_MUL_USB),
    {
    }

    /// The frequency that generator 1 runs at after bring-up with this
    /// reference, 0 where bring-up leaves generator 1 alone.
    pub fn hertz_as_gclk1(&self) -> (rate: Hertz)
        ensures
            rate@ == self.gclk1_frequency(),
    {
        match self {
            DFLL48MRefClock::OSC32K => Hertz::Hz(OSC32K_FREQ),
            DFLL48MRefClock::XOSC32K => Hertz::Hz(OSC32K_FREQ),
            DFLL48MRefClock::USB => Hertz::Hz(0),
            DFLL48MRefClock::OpenLoop => Hertz::Hz(0),
        }
    }
}

/// The frequency of the 48 MHz source, in hertz.
pub const OSC48M_FREQ: u32 = 48_000_000;

/// The frequency of the 8 MHz source, in hertz.
pub const OSC8M_FREQ: u32 = 8_000_000;

/// The frequency of the 32 kHz sources, in hertz.
pub const OSC32K_FREQ: u32 = 32_768;

/// Selects half a wait state for flash reads, which the processor needs
/// at 48 MHz.
pub fn set_flash_to_half_auto_wait_state(state: &mut State)
    ensures
        final(state)@ == old(state)@.push(
            Step::ModifyFlashWaitStates { rws: FlashWaitStates::Half },
        ),
{
    state.steps.push(Step::ModifyFlashWaitStates { rws: FlashWaitStates::Half });
}

/// Keeps stray pointer writes into the flash address range from being
/// taken as page writes.
pub fn set_flash_manual_write(state: &mut State)
    ensures
        final(state)@ == old(state)@.push(Step::ModifyFlashManualWrite { manw: true }),
{
    state.steps.push(Step::ModifyFlashManualWrite { manw: true });
}

/// Switches on the bus clock of the generator tree. While it is off the
/// tree ignores every write.
pub fn enable_gclk_apb(state: &mut State)
    ensures
        final(state)@ == old(state)@.push(Step::ModifyApbAMask { gclk_: true }),
{
    state.steps.push(Step::ModifyApbAMask { gclk_: true });
}

/// Turns on the internal 32 kHz oscillator with its factory calibration
/// and waits until it is stable.
pub fn enable_internal_32kosc(state: &mut State, calibration: u8)
    ensures
        final(state)@ == old(state)@ + internal_32k_steps(calibration),
{
    state.steps.push(
        Step::WriteOsc32k {
            ondemand: false,
            calib: calibration,
            startup: OSC32K_STARTUP,
            en32k: true,
            enable: true,
            runstdby: true,
        },
    );
    state.steps.push(Step::WaitOsc32kReady);
}

/// Turns on the external 32 kHz crystal oscillator and waits until it is
/// stable.
pub fn enable_external_32kosc(state: &mut State)
    ensures
        final(state)@ == old(state)@ + external_32k_steps(),
{
    state.steps.push(
        Step::ModifyXosc32k {
            startup: OSC32K_STARTUP,
            ondemand: false,
            // 32 kHz output, from a crystal between the two oscillator pins
            en32k: true,
            xtalen: true,
            runstdby: true,
        },
    );
    state.steps.push(Step::ModifyXosc32kEnable { enable: true });
    state.steps.push(Step::WaitXosc32kReady);
}

/// Waits until the frequency multiplier accepts the next register access.
pub fn wait_for_dfllrdy(state: &mut State)
    ensures
        final(state)@ == old(state)@.push(Step::WaitDfllReady),
{
    state.steps.push(Step::WaitDfllReady);
}

/// Configures the frequency multiplier for 48 MHz from `refclock` and
/// enables it. `coarse` is the factory calibration of the coarse trim.
pub fn configure_and_enable_dfll48m(state: &mut State, refclock: &DFLL48MRefClock, coarse: u8)
    ensures
        final(state)@ == old(state)@ + dfll_steps(*refclock, coarse),
{
    let all_clear = DfllControl {
        ondemand: false,
        mode: false,
        ccdis: false,
        usbcrm: false,
        bplckc: false,
        waitlock: false,
        qldis: false,
    };

    // On-demand has to be off, and the multiplier disabled, while it is
    // configured: it rejects the configuration otherwise.
    state.steps.push(Step::WriteDfllCtrl { flags: all_clear });
    wait_for_dfllrdy(state);

    match refclock {
        DFLL48MRefClock::OSC32K => {
            state.steps.push(Step::WriteDfllVal { coarse, fine: DFLL_FINE });
            state.steps.push(
                Step::WriteDfllMul { cstep: coarse / 4, fstep: 10, mul: DFLL_MUL_32K },
            );
            // closed loop; the coarse lock is bypassed because the
            // calibration already gives the coarse value
            state.steps.push(
                Step::WriteDfllCtrl {
                    flags: DfllControl { mode: true, ccdis: true, bplckc: true, ..all_clear },
                },
            );
        },
        DFLL48MRefClock::XOSC32K => {
            state.steps.push(
                Step::WriteDfllMul { cstep: 31, fstep: 511, mul: DFLL_MUL_32K_ROUNDED },
            );
            state.steps.push(
                Step::WriteDfllCtrl {
                    flags: DfllControl { mode: true, waitlock: true, qldis: true, ..all_clear },
                },
            );
        },
        DFLL48MRefClock::USB => {
            state.steps.push(Step::WriteDfllVal { coarse, fine: DFLL_FINE });
            state.steps.push(Step::WriteDfllMul { cstep: 1, fstep: 1, mul: DFLL_MUL_USB });
            state.steps.push(
                Step::WriteDfllCtrl {
                    flags: DfllControl {
                        mode: true,
                        ccdis: true,
                        usbcrm: true,
                        bplckc: true,
                        ..all_clear
                    },
                },
            );
        },
        DFLL48MRefClock::OpenLoop => {
            state.steps.push(Step::WriteDfllVal { coarse, fine: DFLL_FINE });
            state.steps.push(Step::WriteDfllCtrl { flags: all_clear });
        },
    }

    wait_for_dfllrdy(state);

    state.steps.push(Step::ModifyDfllCtrlEnable { enable: true });

    if let DFLL48MRefClock::XOSC32K = refclock {
        state.steps.push(Step::WaitDfllLocked);
    }
    wait_for_dfllrdy(state);
}

/// A configured clock generator: which one it is and the frequency it
/// was found running at. It is a note of what the controller knew, not a
/// claim on the generator: any number of them may be held for one
/// generator.
#[derive(Clone, Copy)]
pub struct GClock {
    gclk: ClockGenId,
    freq: Hertz,
}

impl GClock {
    /// The generator.
    pub closed spec fn id(&self) -> ClockGenId {
        self.gclk
    }

    /// The generator's frequency in hertz.
    pub closed spec fn hz(&self) -> nat {
        self.freq@
    }
}

impl From<GClock> for Hertz {
    fn from(clock: GClock) -> (rate: Hertz)
        ensures
            rate@ == clock.hz(),
    {
        clock.freq
    }
}

impl vstd::std_specs::convert::FromSpecImpl<GClock> for Hertz {
    open spec fn obeys_from_spec() -> bool {
        true
    }

    closed spec fn from_spec(clock: GClock) -> Hertz {
        clock.freq
    }
}

/// The factory trim values that bring-up writes to the oscillators.
#[derive(Clone, Copy, Debug, PartialEq, Eq, Structural)]
pub struct Calibration {
    /// The calibration of the internal 32 kHz oscillator.
    pub osc32k: u8,
    /// The coarse trim of the 48 MHz frequency multiplier.
    pub dfll48m_coarse: u8,
}

/// Whether bit `n` of `mask` is set.
pub open spec fn has_bit(mask: u64, n: nat) -> bool {
    mask & (1u64 << (n as u64)) != 0
}

/// Setting bit `n` of a mask sets that bit and changes no other.
pub proof fn lemma_set_bit(mask: u64, n: nat, m: nat)
    requires
        n < 64,
        m < 64,
    ensures
        has_bit(mask | (1u64 << (n as u64)), m) == (has_bit(mask, m) || m == n),
{
    let n64 = n as u64;
    let m64 = m as u64;
    assert(((mask | (1u64 << n64)) & (1u64 << m64) != 0) == ((mask & (1u64 << m64) != 0) || m64
        == n64)) by (bit_vector)
        requires
            n64 < 64,
            m64 < 64,
    ;
}

/// One more than the largest word of used channels: the channels have
/// the numbers 0 to 36, and no bit from bit 37 on is ever set.
pub const CHANNEL_LIMIT: u64 = 0x20_0000_0000;

/// The channels that have been enabled, kept as a word of 64 bits: bit
/// `n` stands for the channel with number `n`. A channel that is in the
/// set stays in it.
pub struct UsageSet {
    bits: u64,
}

impl View for UsageSet {
    type V = Set<ClockId>;

    /// The channels in the set.
    closed spec fn view(&self) -> Set<ClockId> {
        Set::new(|clock: ClockId| has_bit(self.bits, clock.number()))
    }
}

impl UsageSet {
    /// Only the bits of channel numbers are ever set.
    #[verifier::type_invariant]
    spec fn only_channels(self) -> bool {
        self.bits < CHANNEL_LIMIT
    }

    /// The set with no channel in it.
    pub fn empty() -> (set: Self)
        ensures
            set@ == Set::<ClockId>::empty(),
    {
        let set = UsageSet { bits: 0 };
        proof {
            assert forall|clock: ClockId| !has_bit(0u64, clock.number()) by {
                let m = clock.number() as u64;
                assert(0u64 & (1u64 << m) == 0) by (bit_vector);
            }
            assert(set@ =~= Set::<ClockId>::empty());
        }
        set
    }

    /// Whether `clock` is in the set.
    pub fn contains(&self, clock: ClockId) -> (found: bool)
        ensures
            found == self@.contains(clock),
    {
        let number: u8 = u8::from(clock);
        let bits: u64 = 1u64 << (number as u64);
        (self.bits & bits) != 0
    }

    /// Puts `clock` into the set.
    pub fn insert(&mut self, clock: ClockId)
        ensures
            final(self)@ == old(self)@.insert(clock),
    {
        let number: u8 = u8::from(clock);
        let bits: u64 = 1u64 << (number as u64);
        proof {
            use_type_invariant(&*self);
            let mask = self.bits;
            let n = number as u64;
            assert((mask | (1u64 << n)) < CHANNEL_LIMIT) by (bit_vector)
                requires
                    mask < CHANNEL_LIMIT,
                    n < 37,
            ;
        }
        self.bits |= bits;
        proof {
            assert forall|other: ClockId|
                self@.contains(other) == (old(self)@.contains(other) || other == clock) by {
                lemma_set_bit(old(self).bits, clock.number(), other.number());
            }
            assert(self@ =~= old(self)@.insert(clock));
        }
    }

    /// The set as a word of 64 bits: bit `n` is set if and only if the
    /// channel with number `n` is in the set, and the bits that are no
    /// channel's number are clear.
    pub fn bits(&self) -> (mask: u64)
        ensures
            forall|clock: ClockId|
                has_bit(mask, #[trigger] clock.number()) == self@.contains(clock),
            forall|n: nat| 37 <= n < 64 ==> !#[trigger] has_bit(mask, n),
            mask < CHANNEL_LIMIT,
    {
        proof {
            use_type_invariant(self);
            let mask = self.bits;
            assert forall|n: nat| 37 <= n < 64 implies !#[trigger] has_bit(mask, n) by {
                let n64 = n as u64;
                assert(mask & (1u64 << n64) == 0) by (bit_vector)
                    requires
                        mask < CHANNEL_LIMIT,
                        37 <= n64 < 64,
                ;
            }
        }
        self.bits
    }
}

/// The controller of the clock tree. It is made by one of the bring-up
/// sequences and from then on hands out generators and peripheral
/// channels, each of them once.
pub struct GenericClockController {
    state: State,
    gclks: [Hertz; 8],
    used_clocks: UsageSet,
}

impl View for GenericClockController {
    type V = ClockTree;

    closed spec fn view(&self) -> ClockTree {
        ClockTree {
            table: Seq::new(8, |i: int| self.gclks@[i]@),
            used: self.used_clocks@,
            pending: self.state@,
        }
    }
}

impl GenericClockController {
    /// The frequency table has one entry for each of the eight generators,
    /// and each entry fits in 32 bits.
    pub proof fn lemma_view_wf(&self)
        ensures
            self@.wf(),
    {
        assert forall|i: int| 0 <= i < 8 implies #[trigger] self@.table[i] <= u32::MAX by {
            self.gclks@[i].lemma_fits_u32();
        }
    }

    /// Brings the system to 48 MHz with the internal 32 kHz oscillator as
    /// the multiplier's reference.
    pub fn with_internal_32kosc(calibration: Calibration) -> (controller: Self)
        ensures
            controller@ == ClockTree::after_48mhz(
                DFLL48MRefClock::OSC32K,
                calibration.osc32k,
                calibration.dfll48m_coarse,
            ),
    {
        Self::new_48mhz(DFLL48MRefClock::OSC32K, calibration)
    }

    /// Brings the system to 48 MHz with the external 32 kHz crystal
    /// oscillator as the multiplier's reference.
    pub fn with_external_32kosc(calibration: Calibration) -> (controller: Self)
        ensures
            controller@ == ClockTree::after_48mhz(
                DFLL48MRefClock::XOSC32K,
                calibration.osc32k,
                calibration.dfll48m_coarse,
            ),
    {
        Self::new_48mhz(DFLL48MRefClock::XOSC32K, calibration)
    }

    /// Brings the system to 48 MHz from the frequency multiplier locked to
    /// `refclock`, and sets the prescalers to divide-by-one.
    pub fn new_48mhz(refclock: DFLL48MRefClock, calibration: Calibration) -> (controller: Self)
        ensures
            controller@ == ClockTree::after_48mhz(
                refclock,
                calibration.osc32k,
                calibration.dfll48m_coarse,
            ),
    {
        let mut state = State::new();

        // The wait state has to be in place before the processor speeds
        // up, or the fetches of this very code go wrong.
        set_flash_to_half_auto_wait_state(&mut state);
        set_flash_manual_write(&mut state);
        enable_gclk_apb(&mut state);
        match refclock {
            DFLL48MRefClock::OSC32K => enable_internal_32kosc(&mut state, calibration.osc32k),
            DFLL48MRefClock::XOSC32K => enable_external_32kosc(&mut state),
            DFLL48MRefClock::USB | DFLL48MRefClock::OpenLoop => {},
        }

        state.reset_gclk();

        // the 32 kHz reference on generator 1
        match refclock {
            DFLL48MRefClock::OSC32K => state.set_gclk_divider_and_source(
                ClockGenId::GCLK1,
                1,
                ClockSource::OSC32K,
                false,
            ),
            DFLL48MRefClock::XOSC32K => state.set_gclk_divider_and_source(
                ClockGenId::GCLK1,
                1,
                ClockSource::XOSC32K,
                false,
            ),
            DFLL48MRefClock::USB | DFLL48MRefClock::OpenLoop => {},
        }

        // generator 1 on the multiplier's reference input
        match refclock {
            DFLL48MRefClock::OSC32K | DFLL48MRefClock::XOSC32K => state.enable_clock_generator(
                ClockId::DFLL48,
                ClockGenId::GCLK1,
            ),
            DFLL48MRefClock::USB | DFLL48MRefClock::OpenLoop => {},
        }

        configure_and_enable_dfll48m(&mut state, &refclock, calibration.dfll48m_coarse);
        // From this step on the processor runs at 48 MHz.
        state.set_gclk_divider_and_source(ClockGenId::GCLK0, 1, ClockSource::DFLL48M, true);

        reset_prescalers(&mut state);

        let mut used_clocks = UsageSet::empty();
        used_clocks.insert(ClockId::DFLL48);
        let controller = GenericClockController {
            state,
            gclks: [
                Hertz::Hz(OSC48M_FREQ),
                refclock.hertz_as_gclk1(),
                Hertz::Hz(0),
                Hertz::Hz(0),
                Hertz::Hz(0),
                Hertz::Hz(0),
                Hertz::Hz(0),
                Hertz::Hz(0),
            ],
            used_clocks,
        };
        proof {
            assert(controller@.used =~= set![ClockId::DFLL48]);
            assert(controller@.table =~= ClockTree::after_48mhz(
                refclock,
                calibration.osc32k,
                calibration.dfll48m_coarse,
            ).table);
            assert(controller@.pending =~= bring_up_48mhz_steps(
                refclock,
                calibration.osc32k,
                calibration.dfll48m_coarse,
            ));
        }
        controller
    }

    /// Brings the system to 8 MHz from the internal RC oscillator, without
    /// the multiplier, and sets the prescalers to divide-by-one.
    pub fn with_internal_8mhz() -> (controller: Self)
        ensures
            controller@ == ClockTree::after_8mhz(),
    {
        let mut state = State::new();

        // Flash needs no wait state up to 24 MHz.
        set_flash_manual_write(&mut state);

        enable_gclk_apb(&mut state);

        state.reset_gclk();

        // the 8 MHz oscillator on generator 0
        state.set_gclk_divider_and_source(ClockGenId::GCLK0, 1, ClockSource::OSC8M, false);

        reset_prescalers(&mut state);

        let controller = GenericClockController {
            state,
            gclks: [
                Hertz::Hz(OSC8M_FREQ),
                Hertz::Hz(0),
                Hertz::Hz(0),
                Hertz::Hz(0),
                Hertz::Hz(0),
                Hertz::Hz(0),
                Hertz::Hz(0),
                Hertz::Hz(0),
            ],
            used_clocks: UsageSet::empty(),
        };
        proof {
            assert(controller@.used =~= Set::<ClockId>::empty());
            assert(controller@.table =~= ClockTree::after_8mhz().table);
            assert(controller@.pending =~= bring_up_8mhz_steps());
        }
        controller
    }

    /// Generator 0, the system clock, with the frequency on record for it.
    pub fn gclk0(&mut self) -> (clock: GClock)
        ensures
            final(self)@ == old(self)@,
            clock.id() == ClockGenId::GCLK0,
            clock.hz() == old(self)@.frequency(ClockGenId::GCLK0),
    {
        GClock { gclk: ClockGenId::GCLK0, freq: self.gclks[0] }
    }

    /// Generator 1, with the frequency on record for it.
    pub fn gclk1(&mut self) -> (clock: GClock)
        ensures
            final(self)@ == old(self)@,
            clock.id() == ClockGenId::GCLK1,
            clock.hz() == old(self)@.frequency(ClockGenId::GCLK1),
    {
        GClock { gclk: ClockGenId::GCLK1, freq: self.gclks[1] }
    }

    /// Generator `gclk` with its frequency, if it has been configured, and
    /// nothing if it has not.
    pub fn get_gclk(&mut self, gclk: ClockGenId) -> (found: Option<GClock>)
        ensures
            final(self)@ == old(self)@,
            found is Some <==> old(self)@.configured(gclk),
            found matches Some(clock) ==> clock.id() == gclk && Some(clock.hz()) == old(
                self,
            )@.lookup(gclk),
    {
        let idx: usize = u8::from(gclk) as usize;
        if self.gclks[idx].to_Hz() == 0 {
            None
        } else {
            Some(GClock { gclk, freq: self.gclks[idx] })
        }
    }

    /// Whether a request to configure `gclk` with `divider` and `src` is one
    /// that `configure_gclk_divider_and_source` can act on: always for a
    /// generator that is configured already; else if the divider is not 0
    /// and fits the generator, and the frequency of the source is known.
    pub fn can_configure(&self, gclk: ClockGenId, divider: u16, src: ClockSource) -> (ok: bool)
        ensures
            ok == self@.accepts(gclk, divider, src),
    {
        let idx: usize = u8::from(gclk) as usize;
        if self.gclks[idx].to_Hz() != 0 {
            return true;
        }
        let resolvable = match src {
            ClockSource::GCLKIN | ClockSource::XOSC => false,
            _ => true,
        };
        divider != 0 && divider_is_valid(gclk, divider as u32) && resolvable
    }

    /// Configures generator `gclk` to run from `src` divided by `divider`,
    /// with an even duty cycle for odd dividers if `improve_duty_cycle` is
    /// set, and records the frequency that results. A generator can be
    /// configured once: for one that is configured already this returns
    /// nothing, writes nothing and records nothing.
    pub fn configure_gclk_divider_and_source(
        &mut self,
        gclk: ClockGenId,
        divider: u16,
        src: ClockSource,
        improve_duty_cycle: bool,
    ) -> (configured: Option<GClock>)
        requires
            old(self)@.accepts(gclk, divider, src),
        ensures
            final(self)@ == old(self)@.configure(gclk, divider, src, improve_duty_cycle),
            configured is None <==> old(self)@.configured(gclk),
            configured matches Some(clock) ==> clock.id() == gclk && clock.hz() == old(
                self,
            )@.resolve(divider, src) && final(self)@.frequency(gclk) == clock.hz(),
            configured is Some && src == ClockSource::GCLKGEN1 ==> final(self)@.frequency(gclk)
                == old(self)@.frequency(ClockGenId::GCLK1) / (divider as nat),
    {
        let idx: usize = u8::from(gclk) as usize;
        if self.gclks[idx].to_Hz() != 0 {
            return None;
        }
        self.state.set_gclk_divider_and_source(gclk, divider, src, improve_duty_cycle);
        let freq: Hertz = match src {
            ClockSource::XOSC32K | ClockSource::OSC32K | ClockSource::OSCULP32K => Hertz::Hz(
                OSC32K_FREQ,
            ),
            ClockSource::GCLKGEN1 => self.gclks[1],
            ClockSource::OSC8M => Hertz::Hz(OSC8M_FREQ),
            ClockSource::DFLL48M => Hertz::Hz(OSC48M_FREQ),
            ClockSource::DPLL96M => Hertz::MHz(96),
            ClockSource::GCLKIN | ClockSource::XOSC => vstd::pervasive::unreached(),
        };
        let resolved = freq.divided_by(divider as u32);
        self.gclks[idx] = resolved;
        proof {
            let after = old(self)@.configure(gclk, divider, src, improve_duty_cycle);
            assert(self@.table =~= after.table);
            assert(self@.used =~= after.used);
            assert(self@.pending =~= after.pending);
        }
        Some(GClock { gclk, freq: resolved })
    }

    /// Lets generator `gclk` run in standby, or not. This can be asked
    /// any number of times.
    pub fn configure_standby(&mut self, gclk: ClockGenId, enable: bool)
        ensures
            final(self)@ == old(self)@.standby(gclk, enable),
    {
        self.state.configure_standby(gclk, enable);
        proof {
            let after = old(self)@.standby(gclk, enable);
            assert(self@.table =~= after.table);
            assert(self@.used =~= after.used);
        }
    }

    /// Feeds peripheral channel `clock` from the generator of `generator`
    /// and switches the channel on. A channel can be enabled once: for one
    /// that is taken already this returns nothing, writes nothing and
    /// records nothing. Otherwise it returns the frequency of `generator`,
    /// as the handle holds it.
    pub fn enable_channel(&mut self, clock: ClockId, generator: &GClock) -> (rate: Option<Hertz>)
        ensures
            final(self)@ == old(self)@.enable(clock, generator.id()),
            rate is None <==> old(self)@.used.contains(clock),
            rate matches Some(hertz) ==> hertz@ == generator.hz(),
    {
        if self.used_clocks.contains(clock) {
            return None;
        }
        self.used_clocks.insert(clock);

        self.state.enable_clock_generator(clock, generator.gclk);
        proof {
            let after = old(self)@.enable(clock, generator.id());
            assert(self@.used =~= after.used);
            assert(self@.table =~= after.table);
        }
        Some(generator.freq)
    }

    /// The channels that have been enabled, as a word of 64 bits: bit
    /// `n` is set if and only if the channel with number `n` has been
    /// enabled. The bits that are no channel's number are clear.
    pub fn used_clocks(&self) -> (mask: u64)
        ensures
            forall|clock: ClockId|
                has_bit(mask, #[trigger] clock.number()) == self@.used.contains(clock),
            forall|n: nat| 37 <= n < 64 ==> !#[trigger] has_bit(mask, n),
            mask < CHANNEL_LIMIT,
    {
        self.used_clocks.bits()
    }

    /// Whether channel `clock` has been enabled.
    pub fn is_used(&self, clock: ClockId) -> (used: bool)
        ensures
            used == self@.used.contains(clock),
    {
        self.used_clocks.contains(clock)
    }

    /// Hands out the register transactions decided on since the last
    /// call, in the order in which they are to be carried out.
    pub fn take_steps(&mut self) -> (steps: Vec<Step>)
        ensures
            steps@ == old(self)@.pending,
            final(self)@ == old(self)@.drained(),
    {
        let steps = self.state.take();
        proof {
            let after = old(self)@.drained();
            assert(self@.table =~= after.table);
            assert(self@.used =~= after.used);
        }
        steps
    }
}

/// Sets the prescaler of the 8 MHz oscillator and the dividers of the
/// processor and of the three peripheral buses to divide-by-one. After
/// power-on they need not be.
pub fn reset_prescalers(state: &mut State)
    ensures
        final(state)@ == old(state)@ + prescaler_reset_steps(),
{
    state.steps.push(Step::ModifyOsc8m { presc: 0, ondemand: false });
    state.steps.push(Step::WriteBusDivider { bus: Bus::Cpu, exponent: 0 });
    state.steps.push(Step::WriteBusDivider { bus: Bus::ApbA, exponent: 0 });
    state.steps.push(Step::WriteBusDivider { bus: Bus::ApbB, exponent: 0 });
    state.steps.push(Step::WriteBusDivider { bus: Bus::ApbC, exponent: 0 });
}

/// Configures the frequency multiplier for 48 MHz in closed loop with USB
/// clock recovery and enables it, with the step sizes derived from the
/// calibration and not the smallest ones. The multiplier runs unreferenced
/// as long as no USB bus is connected. Bring-up does not use this
/// sequence.
pub fn configure_and_enable_dfll48m_open(state: &mut State, coarse: u8)
    ensures
        final(state)@ == old(state)@ + dfll_usb_calibrated_steps(coarse),
{
    let all_clear = DfllControl {
        ondemand: false,
        mode: false,
        ccdis: false,
        usbcrm: false,
        bplckc: false,
        waitlock: false,
        qldis: false,
    };

    state.steps.push(Step::WriteDfllCtrl { flags: all_clear });
    wait_for_dfllrdy(state);

    state.steps.push(Step::WriteDfllVal { coarse, fine: DFLL_FINE });
    state.steps.push(Step::WriteDfllMul { cstep: coarse / 4, fstep: 10, mul: DFLL_MUL_USB });
    state.steps.push(
        Step::WriteDfllCtrl {
            flags: DfllControl {
                mode: true,
                ccdis: true,
                usbcrm: true,
                bplckc: true,
                ..all_clear
            },
        },
    );

    wait_for_dfllrdy(state);

    state.steps.push(Step::ModifyDfllCtrlEnable { enable: true });

    wait_for_dfllrdy(state);
}

} // verus!
