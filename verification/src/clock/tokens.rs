//! One token type per peripheral clock channel. A driver that needs the
//! clock of its peripheral asks for the token of that channel, and the
//! controller makes each token once: to hold one is to know that the
//! channel was enabled, and at which frequency.

use crate::clock::ids::ClockId;
use crate::clock::{GClock, GenericClockController};
use crate::time::Hertz;
use vstd::prelude::*;

verus! {

/// The clock of the timers TCC0 and TCC1, enabled.
#[derive(Debug)]
pub struct Tcc0Tcc1Clock {
    freq: Hertz,
}

impl View for Tcc0Tcc1Clock {
    type V = nat;

    /// The frequency of the clock in hertz.
    closed spec fn view(&self) -> nat {
        self.freq@
    }
}

impl Tcc0Tcc1Clock {
    /// The frequency of the clock.
    pub fn freq(&self) -> (rate: Hertz)
        ensures
            rate@ == self@,
    {
        self.freq
    }
}

impl From<Tcc0Tcc1Clock> for Hertz {
    fn from(token: Tcc0Tcc1Clock) -> (rate: Hertz)
        ensures
            rate@ == token@,
    {
        token.freq
    }
}

impl vstd::std_specs::convert::FromSpecImpl<Tcc0Tcc1Clock> for Hertz {
    open spec fn obeys_from_spec() -> bool {
        true
    }

    closed spec fn from_spec(token: Tcc0Tcc1Clock) -> Hertz {
        token.freq
    }
}

/// The clock of the timers TCC2 and TC3, enabled.
#[derive(Debug)]
pub struct Tcc2Tc3Clock {
    freq: Hertz,
}

impl View for Tcc2Tc3Clock {
    type V = nat;

    /// The frequency of the clock in hertz.
    closed spec fn view(&self) -> nat {
        self.freq@
    }
}

impl Tcc2Tc3Clock {
    /// The frequency of the clock.
    pub fn freq(&self) -> (rate: Hertz)
        ensures
            rate@ == self@,
    {
        self.freq
    }
}

impl From<Tcc2Tc3Clock> for Hertz {
    fn from(token: Tcc2Tc3Clock) -> (rate: Hertz)
        ensures
            rate@ == token@,
    {
        token.freq
    }
}

impl vstd::std_specs::convert::FromSpecImpl<Tcc2Tc3Clock> for Hertz {
    open spec fn obeys_from_spec() -> bool {
        true
    }

    closed spec fn from_spec(token: Tcc2Tc3Clock) -> Hertz {
        token.freq
    }
}

/// The clock of the timers TC4 and TC5, enabled.
#[derive(Debug)]
pub struct Tc4Tc5Clock {
    freq: Hertz,
}

impl View for Tc4Tc5Clock {
    type V = nat;

    /// The frequency of the clock in hertz.
    closed spec fn view(&self) -> nat {
        self.freq@
    }
}

impl Tc4Tc5Clock {
    /// The frequency of the clock.
    pub fn freq(&self) -> (rate: Hertz)
        ensures
            rate@ == self@,
    {
        self.freq
    }
}

impl From<Tc4Tc5Clock> for Hertz {
    fn from(token: Tc4Tc5Clock) -> (rate: Hertz)
        ensures
            rate@ == token@,
    {
        token.freq
    }
}

impl vstd::std_specs::convert::FromSpecImpl<Tc4Tc5Clock> for Hertz {
    open spec fn obeys_from_spec() -> bool {
        true
    }

    closed spec fn from_spec(token: Tc4Tc5Clock) -> Hertz {
        token.freq
    }
}

/// The clock of the timers TC6 and TC7, enabled.
#[derive(Debug)]
pub struct Tc6Tc7Clock {
    freq: Hertz,
}

impl View for Tc6Tc7Clock {
    type V = nat;

    /// The frequency of the clock in hertz.
    closed spec fn view(&self) -> nat {
        self.freq@
    }
}

impl Tc6Tc7Clock {
    /// The frequency of the clock.
    pub fn freq(&self) -> (rate: Hertz)
        ensures
            rate@ == self@,
    {
        self.freq
    }
}

impl From<Tc6Tc7Clock> for Hertz {
    fn from(token: Tc6Tc7Clock) -> (rate: Hertz)
        ensures
            rate@ == token@,
    {
        token.freq
    }
}

impl vstd::std_specs::convert::FromSpecImpl<Tc6Tc7Clock> for Hertz {
    open spec fn obeys_from_spec() -> bool {
        true
    }

    closed spec fn from_spec(token: Tc6Tc7Clock) -> Hertz {
        token.freq
    }
}

/// The clock of the core of serial interface 0, enabled.
#[derive(Debug)]
pub struct Sercom0CoreClock {
    freq: Hertz,
}

impl View for Sercom0CoreClock {
    type V = nat;

    /// The frequency of the clock in hertz.
    closed spec fn view(&self) -> nat {
        self.freq@
    }
}

impl Sercom0CoreClock {
    /// The frequency of the clock.
    pub fn freq(&self) -> (rate: Hertz)
        ensures
            rate@ == self@,
    {
        self.freq
    }
}

impl From<Sercom0CoreClock> for Hertz {
    fn from(token: Sercom0CoreClock) -> (rate: Hertz)
        ensures
            rate@ == token@,
    {
        token.freq
    }
}

impl vstd::std_specs::convert::FromSpecImpl<Sercom0CoreClock> for Hertz {
    open spec fn obeys_from_spec() -> bool {
        true
    }

    closed spec fn from_spec(token: Sercom0CoreClock) -> Hertz {
        token.freq
    }
}

/// The clock of the core of serial interface 1, enabled.
#[derive(Debug)]
pub struct Sercom1CoreClock {
    freq: Hertz,
}

impl View for Sercom1CoreClock {
    type V = nat;

    /// The frequency of the clock in hertz.
    closed spec fn view(&self) -> nat {
        self.freq@
    }
}

impl Sercom1CoreClock {
    /// The frequency of the clock.
    pub fn freq(&self) -> (rate: Hertz)
        ensures
            rate@ == self@,
    {
        self.freq
    }
}

impl From<Sercom1CoreClock> for Hertz {
    fn from(token: Sercom1CoreClock) -> (rate: Hertz)
        ensures
            rate@ == token@,
    {
        token.freq
    }
}

impl vstd::std_specs::convert::FromSpecImpl<Sercom1CoreClock> for Hertz {
    open spec fn obeys_from_spec() -> bool {
        true
    }

    closed spec fn from_spec(token: Sercom1CoreClock) -> Hertz {
        token.freq
    }
}

/// The clock of the core of serial interface 2, enabled.
#[derive(Debug)]
pub struct Sercom2CoreClock {
    freq: Hertz,
}

impl View for Sercom2CoreClock {
    type V = nat;

    /// The frequency of the clock in hertz.
    closed spec fn view(&self) -> nat {
        self.freq@
    }
}

impl Sercom2CoreClock {
    /// The frequency of the clock.
    pub fn freq(&self) -> (rate: Hertz)
        ensures
            rate@ == self@,
    {
        self.freq
    }
}

impl From<Sercom2CoreClock> for Hertz {
    fn from(token: Sercom2CoreClock) -> (rate: Hertz)
        ensures
            rate@ == token@,
    {
        token.freq
    }
}

impl vstd::std_specs::convert::FromSpecImpl<Sercom2CoreClock> for Hertz {
    open spec fn obeys_from_spec() -> bool {
        true
    }

    closed spec fn from_spec(token: Sercom2CoreClock) -> Hertz {
        token.freq
    }
}

/// The clock of the core of serial interface 3, enabled.
#[derive(Debug)]
pub struct Sercom3CoreClock {
    freq: Hertz,
}

impl View for Sercom3CoreClock {
    type V = nat;

    /// The frequency of the clock in hertz.
    closed spec fn view(&self) -> nat {
        self.freq@
    }
}

impl Sercom3CoreClock {
    /// The frequency of the clock.
    pub fn freq(&self) -> (rate: Hertz)
        ensures
            rate@ == self@,
    {
        self.freq
    }
}

impl From<Sercom3CoreClock> for Hertz {
    fn from(token: Sercom3CoreClock) -> (rate: Hertz)
        ensures
            rate@ == token@,
    {
        token.freq
    }
}

impl vstd::std_specs::convert::FromSpecImpl<Sercom3CoreClock> for Hertz {
    open spec fn obeys_from_spec() -> bool {
        true
    }

    closed spec fn from_spec(token: Sercom3CoreClock) -> Hertz {
        token.freq
    }
}

/// The clock of the core of serial interface 4, enabled.
#[derive(Debug)]
pub struct Sercom4CoreClock {
    freq: Hertz,
}

impl View for Sercom4CoreClock {
    type V = nat;

    /// The frequency of the clock in hertz.
    closed spec fn view(&self) -> nat {
        self.freq@
    }
}

impl Sercom4CoreClock {
    /// The frequency of the clock.
    pub fn freq(&self) -> (rate: Hertz)
        ensures
            rate@ == self@,
    {
        self.freq
    }
}

impl From<Sercom4CoreClock> for Hertz {
    fn from(token: Sercom4CoreClock) -> (rate: Hertz)
        ensures
            rate@ == token@,
    {
        token.freq
    }
}

impl vstd::std_specs::convert::FromSpecImpl<Sercom4CoreClock> for Hertz {
    open spec fn obeys_from_spec() -> bool {
        true
    }

    closed spec fn from_spec(token: Sercom4CoreClock) -> Hertz {
        token.freq
    }
}

/// The clock of the core of serial interface 5, enabled.
#[derive(Debug)]
pub struct Sercom5CoreClock {
    freq: Hertz,
}

impl View for Sercom5CoreClock {
    type V = nat;

    /// The frequency of the clock in hertz.
    closed spec fn view(&self) -> nat {
        self.freq@
    }
}

impl Sercom5CoreClock {
    /// The frequency of the clock.
    pub fn freq(&self) -> (rate: Hertz)
        ensures
            rate@ == self@,
    {
        self.freq
    }
}

impl From<Sercom5CoreClock> for Hertz {
    fn from(token: Sercom5CoreClock) -> (rate: Hertz)
        ensures
            rate@ == token@,
    {
        token.freq
    }
}

impl vstd::std_specs::convert::FromSpecImpl<Sercom5CoreClock> for Hertz {
    open spec fn obeys_from_spec() -> bool {
        true
    }

    closed spec fn from_spec(token: Sercom5CoreClock) -> Hertz {
        token.freq
    }
}

/// The clock of the USB interface, enabled.
#[derive(Debug)]
pub struct UsbClock {
    freq: Hertz,
}

impl View for UsbClock {
    type V = nat;

    /// The frequency of the clock in hertz.
    closed spec fn view(&self) -> nat {
        self.freq@
    }
}

impl UsbClock {
    /// The frequency of the clock.
    pub fn freq(&self) -> (rate: Hertz)
        ensures
            rate@ == self@,
    {
        self.freq
    }
}

impl From<UsbClock> for Hertz {
    fn from(token: UsbClock) -> (rate: Hertz)
        ensures
            rate@ == token@,
    {
        token.freq
    }
}

impl vstd::std_specs::convert::FromSpecImpl<UsbClock> for Hertz {
    open spec fn obeys_from_spec() -> bool {
        true
    }

    closed spec fn from_spec(token: UsbClock) -> Hertz {
        token.freq
    }
}

/// The clock of the real-time counter, enabled.
#[derive(Debug)]
pub struct RtcClock {
    freq: Hertz,
}

impl View for RtcClock {
    type V = nat;

    /// The frequency of the clock in hertz.
    closed spec fn view(&self) -> nat {
        self.freq@
    }
}

impl RtcClock {
    /// The frequency of the clock.
    pub fn freq(&self) -> (rate: Hertz)
        ensures
            rate@ == self@,
    {
        self.freq
    }
}

impl From<RtcClock> for Hertz {
    fn from(token: RtcClock) -> (rate: Hertz)
        ensures
            rate@ == token@,
    {
        token.freq
    }
}

impl vstd::std_specs::convert::FromSpecImpl<RtcClock> for Hertz {
    open spec fn obeys_from_spec() -> bool {
        true
    }

    closed spec fn from_spec(token: RtcClock) -> Hertz {
        token.freq
    }
}

/// The clock of the analog-to-digital converter, enabled.
#[derive(Debug)]
pub struct AdcClock {
    freq: Hertz,
}

impl View for AdcClock {
    type V = nat;

    /// The frequency of the clock in hertz.
    closed spec fn view(&self) -> nat {
        self.freq@
    }
}

impl AdcClock {
    /// The frequency of the clock.
    pub fn freq(&self) -> (rate: Hertz)
        ensures
            rate@ == self@,
    {
        self.freq
    }
}

impl From<AdcClock> for Hertz {
    fn from(token: AdcClock) -> (rate: Hertz)
        ensures
            rate@ == token@,
    {
        token.freq
    }
}

impl vstd::std_specs::convert::FromSpecImpl<AdcClock> for Hertz {
    open spec fn obeys_from_spec() -> bool {
        true
    }

    closed spec fn from_spec(token: AdcClock) -> Hertz {
        token.freq
    }
}

/// The clock of the watchdog timer, enabled.
#[derive(Debug)]
pub struct WdtClock {
    freq: Hertz,
}

impl View for WdtClock {
    type V = nat;

    /// The frequency of the clock in hertz.
    closed spec fn view(&self) -> nat {
        self.freq@
    }
}

impl WdtClock {
    /// The frequency of the clock.
    pub fn freq(&self) -> (rate: Hertz)
        ensures
            rate@ == self@,
    {
        self.freq
    }
}

impl From<WdtClock> for Hertz {
    fn from(token: WdtClock) -> (rate: Hertz)
        ensures
            rate@ == token@,
    {
        token.freq
    }
}

impl vstd::std_specs::convert::FromSpecImpl<WdtClock> for Hertz {
    open spec fn obeys_from_spec() -> bool {
        true
    }

    closed spec fn from_spec(token: WdtClock) -> Hertz {
        token.freq
    }
}

/// The clock of the external interrupt controller, enabled.
#[derive(Debug)]
pub struct EicClock {
    freq: Hertz,
}

impl View for EicClock {
    type V = nat;

    /// The frequency of the clock in hertz.
    closed spec fn view(&self) -> nat {
        self.freq@
    }
}

impl EicClock {
    /// The frequency of the clock.
    pub fn freq(&self) -> (rate: Hertz)
        ensures
            rate@ == self@,
    {
        self.freq
    }
}

impl From<EicClock> for Hertz {
    fn from(token: EicClock) -> (rate: Hertz)
        ensures
            rate@ == token@,
    {
        token.freq
    }
}

impl vstd::std_specs::convert::FromSpecImpl<EicClock> for Hertz {
    open spec fn obeys_from_spec() -> bool {
        true
    }

    closed spec fn from_spec(token: EicClock) -> Hertz {
        token.freq
    }
}

/// The clock of channel 0 of the event system, enabled.
#[derive(Debug)]
pub struct Evsys0Clock {
    freq: Hertz,
}

impl View for Evsys0Clock {
    type V = nat;

    /// The frequency of the clock in hertz.
    closed spec fn view(&self) -> nat {
        self.freq@
    }
}

impl Evsys0Clock {
    /// The frequency of the clock.
    pub fn freq(&self) -> (rate: Hertz)
        ensures
            rate@ == self@,
    {
        self.freq
    }
}

impl From<Evsys0Clock> for Hertz {
    fn from(token: Evsys0Clock) -> (rate: Hertz)
        ensures
            rate@ == token@,
    {
        token.freq
    }
}

impl vstd::std_specs::convert::FromSpecImpl<Evsys0Clock> for Hertz {
    open spec fn obeys_from_spec() -> bool {
        true
    }

    closed spec fn from_spec(token: Evsys0Clock) -> Hertz {
        token.freq
    }
}

/// The clock of channel 1 of the event system, enabled.
#[derive(Debug)]
pub struct Evsys1Clock {
    freq: Hertz,
}

impl View for Evsys1Clock {
    type V = nat;

    /// The frequency of the clock in hertz.
    closed spec fn view(&self) -> nat {
        self.freq@
    }
}

impl Evsys1Clock {
    /// The frequency of the clock.
    pub fn freq(&self) -> (rate: Hertz)
        ensures
            rate@ == self@,
    {
        self.freq
    }
}

impl From<Evsys1Clock> for Hertz {
    fn from(token: Evsys1Clock) -> (rate: Hertz)
        ensures
            rate@ == token@,
    {
        token.freq
    }
}

impl vstd::std_specs::convert::FromSpecImpl<Evsys1Clock> for Hertz {
    open spec fn obeys_from_spec() -> bool {
        true
    }

    closed spec fn from_spec(token: Evsys1Clock) -> Hertz {
        token.freq
    }
}

/// The clock of channel 2 of the event system, enabled.
#[derive(Debug)]
pub struct Evsys2Clock {
    freq: Hertz,
}

impl View for Evsys2Clock {
    type V = nat;

    /// The frequency of the clock in hertz.
    closed spec fn view(&self) -> nat {
        self.freq@
    }
}

impl Evsys2Clock {
    /// The frequency of the clock.
    pub fn freq(&self) -> (rate: Hertz)
        ensures
            rate@ == self@,
    {
        self.freq
    }
}

impl From<Evsys2Clock> for Hertz {
    fn from(token: Evsys2Clock) -> (rate: Hertz)
        ensures
            rate@ == token@,
    {
        token.freq
    }
}

impl vstd::std_specs::convert::FromSpecImpl<Evsys2Clock> for Hertz {
    open spec fn obeys_from_spec() -> bool {
        true
    }

    closed spec fn from_spec(token: Evsys2Clock) -> Hertz {
        token.freq
    }
}

/// The clock of channel 3 of the event system, enabled.
#[derive(Debug)]
pub struct Evsys3Clock {
    freq: Hertz,
}

impl View for Evsys3Clock {
    type V = nat;

    /// The frequency of the clock in hertz.
    closed spec fn view(&self) -> nat {
        self.freq@
    }
}

impl Evsys3Clock {
    /// The frequency of the clock.
    pub fn freq(&self) -> (rate: Hertz)
        ensures
            rate@ == self@,
    {
        self.freq
    }
}

impl From<Evsys3Clock> for Hertz {
    fn from(token: Evsys3Clock) -> (rate: Hertz)
        ensures
            rate@ == token@,
    {
        token.freq
    }
}

impl vstd::std_specs::convert::FromSpecImpl<Evsys3Clock> for Hertz {
    open spec fn obeys_from_spec() -> bool {
        true
    }

    closed spec fn from_spec(token: Evsys3Clock) -> Hertz {
        token.freq
    }
}

/// The clock of channel 4 of the event system, enabled.
#[derive(Debug)]
pub struct Evsys4Clock {
    freq: Hertz,
}

impl View for Evsys4Clock {
    type V = nat;

    /// The frequency of the clock in hertz.
    closed spec fn view(&self) -> nat {
        self.freq@
    }
}

impl Evsys4Clock {
    /// The frequency of the clock.
    pub fn freq(&self) -> (rate: Hertz)
        ensures
            rate@ == self@,
    {
        self.freq
    }
}

impl From<Evsys4Clock> for Hertz {
    fn from(token: Evsys4Clock) -> (rate: Hertz)
        ensures
            rate@ == token@,
    {
        token.freq
    }
}

impl vstd::std_specs::convert::FromSpecImpl<Evsys4Clock> for Hertz {
    open spec fn obeys_from_spec() -> bool {
        true
    }

    closed spec fn from_spec(token: Evsys4Clock) -> Hertz {
        token.freq
    }
}

/// The clock of channel 5 of the event system, enabled.
#[derive(Debug)]
pub struct Evsys5Clock {
    freq: Hertz,
}

impl View for Evsys5Clock {
    type V = nat;

    /// The frequency of the clock in hertz.
    closed spec fn view(&self) -> nat {
        self.freq@
    }
}

impl Evsys5Clock {
    /// The frequency of the clock.
    pub fn freq(&self) -> (rate: Hertz)
        ensures
            rate@ == self@,
    {
        self.freq
    }
}

impl From<Evsys5Clock> for Hertz {
    fn from(token: Evsys5Clock) -> (rate: Hertz)
        ensures
            rate@ == token@,
    {
        token.freq
    }
}

impl vstd::std_specs::convert::FromSpecImpl<Evsys5Clock> for Hertz {
    open spec fn obeys_from_spec() -> bool {
        true
    }

    closed spec fn from_spec(token: Evsys5Clock) -> Hertz {
        token.freq
    }
}

/// The clock of channel 6 of the event system, enabled.
#[derive(Debug)]
pub struct Evsys6Clock {
    freq: Hertz,
}

impl View for Evsys6Clock {
    type V = nat;

    /// The frequency of the clock in hertz.
    closed spec fn view(&self) -> nat {
        self.freq@
    }
}

impl Evsys6Clock {
    /// The frequency of the clock.
    pub fn freq(&self) -> (rate: Hertz)
        ensures
            rate@ == self@,
    {
        self.freq
    }
}

impl From<Evsys6Clock> for Hertz {
    fn from(token: Evsys6Clock) -> (rate: Hertz)
        ensures
            rate@ == token@,
    {
        token.freq
    }
}

impl vstd::std_specs::convert::FromSpecImpl<Evsys6Clock> for Hertz {
    open spec fn obeys_from_spec() -> bool {
        true
    }

    closed spec fn from_spec(token: Evsys6Clock) -> Hertz {
        token.freq
    }
}

/// The clock of channel 7 of the event system, enabled.
#[derive(Debug)]
pub struct Evsys7Clock {
    freq: Hertz,
}

impl View for Evsys7Clock {
    type V = nat;

    /// The frequency of the clock in hertz.
    closed spec fn view(&self) -> nat {
        self.freq@
    }
}

impl Evsys7Clock {
    /// The frequency of the clock.
    pub fn freq(&self) -> (rate: Hertz)
        ensures
            rate@ == self@,
    {
        self.freq
    }
}

impl From<Evsys7Clock> for Hertz {
    fn from(token: Evsys7Clock) -> (rate: Hertz)
        ensures
            rate@ == token@,
    {
        token.freq
    }
}

impl vstd::std_specs::convert::FromSpecImpl<Evsys7Clock> for Hertz {
    open spec fn obeys_from_spec() -> bool {
        true
    }

    closed spec fn from_spec(token: Evsys7Clock) -> Hertz {
        token.freq
    }
}

/// The clock of channel 8 of the event system, enabled.
#[derive(Debug)]
pub struct Evsys8Clock {
    freq: Hertz,
}

impl View for Evsys8Clock {
    type V = nat;

    /// The frequency of the clock in hertz.
    closed spec fn view(&self) -> nat {
        self.freq@
    }
}

impl Evsys8Clock {
    /// The frequency of the clock.
    pub fn freq(&self) -> (rate: Hertz)
        ensures
            rate@ == self@,
    {
        self.freq
    }
}

impl From<Evsys8Clock> for Hertz {
    fn from(token: Evsys8Clock) -> (rate: Hertz)
        ensures
            rate@ == token@,
    {
        token.freq
    }
}

impl vstd::std_specs::convert::FromSpecImpl<Evsys8Clock> for Hertz {
    open spec fn obeys_from_spec() -> bool {
        true
    }

    closed spec fn from_spec(token: Evsys8Clock) -> Hertz {
        token.freq
    }
}

/// The clock of channel 9 of the event system, enabled.
#[derive(Debug)]
pub struct Evsys9Clock {
    freq: Hertz,
}

impl View for Evsys9Clock {
    type V = nat;

    /// The frequency of the clock in hertz.
    closed spec fn view(&self) -> nat {
        self.freq@
    }
}

impl Evsys9Clock {
    /// The frequency of the clock.
    pub fn freq(&self) -> (rate: Hertz)
        ensures
            rate@ == self@,
    {
        self.freq
    }
}

impl From<Evsys9Clock> for Hertz {
    fn from(token: Evsys9Clock) -> (rate: Hertz)
        ensures
            rate@ == token@,
    {
        token.freq
    }
}

impl vstd::std_specs::convert::FromSpecImpl<Evsys9Clock> for Hertz {
    open spec fn obeys_from_spec() -> bool {
        true
    }

    closed spec fn from_spec(token: Evsys9Clock) -> Hertz {
        token.freq
    }
}

/// The clock of channel 10 of the event system, enabled.
#[derive(Debug)]
pub struct Evsys10Clock {
    freq: Hertz,
}

impl View for Evsys10Clock {
    type V = nat;

    /// The frequency of the clock in hertz.
    closed spec fn view(&self) -> nat {
        self.freq@
    }
}

impl Evsys10Clock {
    /// The frequency of the clock.
    pub fn freq(&self) -> (rate: Hertz)
        ensures
            rate@ == self@,
    {
        self.freq
    }
}

impl From<Evsys10Clock> for Hertz {
    fn from(token: Evsys10Clock) -> (rate: Hertz)
        ensures
            rate@ == token@,
    {
        token.freq
    }
}

impl vstd::std_specs::convert::FromSpecImpl<Evsys10Clock> for Hertz {
    open spec fn obeys_from_spec() -> bool {
        true
    }

    closed spec fn from_spec(token: Evsys10Clock) -> Hertz {
        token.freq
    }
}

/// The clock of channel 11 of the event system, enabled.
#[derive(Debug)]
pub struct Evsys11Clock {
    freq: Hertz,
}

impl View for Evsys11Clock {
    type V = nat;

    /// The frequency of the clock in hertz.
    closed spec fn view(&self) -> nat {
        self.freq@
    }
}

impl Evsys11Clock {
    /// The frequency of the clock.
    pub fn freq(&self) -> (rate: Hertz)
        ensures
            rate@ == self@,
    {
        self.freq
    }
}

impl From<Evsys11Clock> for Hertz {
    fn from(token: Evsys11Clock) -> (rate: Hertz)
        ensures
            rate@ == token@,
    {
        token.freq
    }
}

impl vstd::std_specs::convert::FromSpecImpl<Evsys11Clock> for Hertz {
    open spec fn obeys_from_spec() -> bool {
        true
    }

    closed spec fn from_spec(token: Evsys11Clock) -> Hertz {
        token.freq
    }
}

/// The clock of the analog part of the analog comparators, enabled.
#[derive(Debug)]
pub struct AcAnaClock {
    freq: Hertz,
}

impl View for AcAnaClock {
    type V = nat;

    /// The frequency of the clock in hertz.
    closed spec fn view(&self) -> nat {
        self.freq@
    }
}

impl AcAnaClock {
    /// The frequency of the clock.
    pub fn freq(&self) -> (rate: Hertz)
        ensures
            rate@ == self@,
    {
        self.freq
    }
}

impl From<AcAnaClock> for Hertz {
    fn from(token: AcAnaClock) -> (rate: Hertz)
        ensures
            rate@ == token@,
    {
        token.freq
    }
}

impl vstd::std_specs::convert::FromSpecImpl<AcAnaClock> for Hertz {
    open spec fn obeys_from_spec() -> bool {
        true
    }

    closed spec fn from_spec(token: AcAnaClock) -> Hertz {
        token.freq
    }
}

/// The clock of the digital part of the analog comparators, enabled.
#[derive(Debug)]
pub struct AcDigClock {
    freq: Hertz,
}

impl View for AcDigClock {
    type V = nat;

    /// The frequency of the clock in hertz.
    closed spec fn view(&self) -> nat {
        self.freq@
    }
}

impl AcDigClock {
    /// The frequency of the clock.
    pub fn freq(&self) -> (rate: Hertz)
        ensures
            rate@ == self@,
    {
        self.freq
    }
}

impl From<AcDigClock> for Hertz {
    fn from(token: AcDigClock) -> (rate: Hertz)
        ensures
            rate@ == token@,
    {
        token.freq
    }
}

impl vstd::std_specs::convert::FromSpecImpl<AcDigClock> for Hertz {
    open spec fn obeys_from_spec() -> bool {
        true
    }

    closed spec fn from_spec(token: AcDigClock) -> Hertz {
        token.freq
    }
}

/// The clock of the digital-to-analog converter, enabled.
#[derive(Debug)]
pub struct DacClock {
    freq: Hertz,
}

impl View for DacClock {
    type V = nat;

    /// The frequency of the clock in hertz.
    closed spec fn view(&self) -> nat {
        self.freq@
    }
}

impl DacClock {
    /// The frequency of the clock.
    pub fn freq(&self) -> (rate: Hertz)
        ensures
            rate@ == self@,
    {
        self.freq
    }
}

impl From<DacClock> for Hertz {
    fn from(token: DacClock) -> (rate: Hertz)
        ensures
            rate@ == token@,
    {
        token.freq
    }
}

impl vstd::std_specs::convert::FromSpecImpl<DacClock> for Hertz {
    open spec fn obeys_from_spec() -> bool {
        true
    }

    closed spec fn from_spec(token: DacClock) -> Hertz {
        token.freq
    }
}

/// The clock of serializer 0 of the inter-IC sound interface, enabled.
#[derive(Debug)]
pub struct I2S0Clock {
    freq: Hertz,
}

impl View for I2S0Clock {
    type V = nat;

    /// The frequency of the clock in hertz.
    closed spec fn view(&self) -> nat {
        self.freq@
    }
}

impl I2S0Clock {
    /// The frequency of the clock.
    pub fn freq(&self) -> (rate: Hertz)
        ensures
            rate@ == self@,
    {
        self.freq
    }
}

impl From<I2S0Clock> for Hertz {
    fn from(token: I2S0Clock) -> (rate: Hertz)
        ensures
            rate@ == token@,
    {
        token.freq
    }
}

impl vstd::std_specs::convert::FromSpecImpl<I2S0Clock> for Hertz {
    open spec fn obeys_from_spec() -> bool {
        true
    }

    closed spec fn from_spec(token: I2S0Clock) -> Hertz {
        token.freq
    }
}

/// The clock of serializer 1 of the inter-IC sound interface, enabled.
#[derive(Debug)]
pub struct I2S1Clock {
    freq: Hertz,
}

impl View for I2S1Clock {
    type V = nat;

    /// The frequency of the clock in hertz.
    closed spec fn view(&self) -> nat {
        self.freq@
    }
}

impl I2S1Clock {
    /// The frequency of the clock.
    pub fn freq(&self) -> (rate: Hertz)
        ensures
            rate@ == self@,
    {
        self.freq
    }
}

impl From<I2S1Clock> for Hertz {
    fn from(token: I2S1Clock) -> (rate: Hertz)
        ensures
            rate@ == token@,
    {
        token.freq
    }
}

impl vstd::std_specs::convert::FromSpecImpl<I2S1Clock> for Hertz {
    open spec fn obeys_from_spec() -> bool {
        true
    }

    closed spec fn from_spec(token: I2S1Clock) -> Hertz {
        token.freq
    }
}

impl GenericClockController {
    /// Feeds the timers TCC0 and TCC1 from the generator of `generator`. The
    /// token that comes back carries the frequency of `generator`, as the
    /// handle holds it. It comes back once: when the channel is taken already
    /// this returns nothing and changes nothing.
    pub fn tcc0_tcc1(&mut self, generator: &GClock) -> (token: Option<Tcc0Tcc1Clock>)
        ensures
            final(self)@ == old(self)@.enable(ClockId::TCC0_TCC1, generator.id()),
            token is None <==> old(self)@.used.contains(ClockId::TCC0_TCC1),
            token matches Some(clock) ==> clock@ == generator.hz(),
    {
        match self.enable_channel(ClockId::TCC0_TCC1, generator) {
            Some(freq) => Some(Tcc0Tcc1Clock { freq }),
            None => None,
        }
    }

    /// Feeds the timers TCC2 and TC3 from the generator of `generator`. The
    /// token that comes back carries the frequency of `generator`, as the
    /// handle holds it. It comes back once: when the channel is taken already
    /// this returns nothing and changes nothing.
    pub fn tcc2_tc3(&mut self, generator: &GClock) -> (token: Option<Tcc2Tc3Clock>)
        ensures
            final(self)@ == old(self)@.enable(ClockId::TCC2_TC3, generator.id()),
            token is None <==> old(self)@.used.contains(ClockId::TCC2_TC3),
            token matches Some(clock) ==> clock@ == generator.hz(),
    {
        match self.enable_channel(ClockId::TCC2_TC3, generator) {
            Some(freq) => Some(Tcc2Tc3Clock { freq }),
            None => None,
        }
    }

    /// Feeds the timers TC4 and TC5 from the generator of `generator`. The
    /// token that comes back carries the frequency of `generator`, as the
    /// handle holds it. It comes back once: when the channel is taken already
    /// this returns nothing and changes nothing.
    pub fn tc4_tc5(&mut self, generator: &GClock) -> (token: Option<Tc4Tc5Clock>)
        ensures
            final(self)@ == old(self)@.enable(ClockId::TC4_TC5, generator.id()),
            token is None <==> old(self)@.used.contains(ClockId::TC4_TC5),
            token matches Some(clock) ==> clock@ == generator.hz(),
    {
        match self.enable_channel(ClockId::TC4_TC5, generator) {
            Some(freq) => Some(Tc4Tc5Clock { freq }),
            None => None,
        }
    }

    /// Feeds the timers TC6 and TC7 from the generator of `generator`. The
    /// token that comes back carries the frequency of `generator`, as the
    /// handle holds it. It comes back once: when the channel is taken already
    /// this returns nothing and changes nothing.
    pub fn tc6_tc7(&mut self, generator: &GClock) -> (token: Option<Tc6Tc7Clock>)
        ensures
            final(self)@ == old(self)@.enable(ClockId::TC6_TC7, generator.id()),
            token is None <==> old(self)@.used.contains(ClockId::TC6_TC7),
            token matches Some(clock) ==> clock@ == generator.hz(),
    {
        match self.enable_channel(ClockId::TC6_TC7, generator) {
            Some(freq) => Some(Tc6Tc7Clock { freq }),
            None => None,
        }
    }

    /// Feeds the core of serial interface 0 from the generator of `generator`.
    /// The token that comes back carries the frequency of `generator`, as the
    /// handle holds it. It comes back once: when the channel is taken already
    /// this returns nothing and changes nothing.
    pub fn sercom0_core(&mut self, generator: &GClock) -> (token: Option<Sercom0CoreClock>)
        ensures
            final(self)@ == old(self)@.enable(ClockId::SERCOM0_CORE, generator.id()),
            token is None <==> old(self)@.used.contains(ClockId::SERCOM0_CORE),
            token matches Some(clock) ==> clock@ == generator.hz(),
    {
        match self.enable_channel(ClockId::SERCOM0_CORE, generator) {
            Some(freq) => Some(Sercom0CoreClock { freq }),
            None => None,
        }
    }

    /// Feeds the core of serial interface 1 from the generator of `generator`.
    /// The token that comes back carries the frequency of `generator`, as the
    /// handle holds it. It comes back once: when the channel is taken already
    /// this returns nothing and changes nothing.
    pub fn sercom1_core(&mut self, generator: &GClock) -> (token: Option<Sercom1CoreClock>)
        ensures
            final(self)@ == old(self)@.enable(ClockId::SERCOM1_CORE, generator.id()),
            token is None <==> old(self)@.used.contains(ClockId::SERCOM1_CORE),
            token matches Some(clock) ==> clock@ == generator.hz(),
    {
        match self.enable_channel(ClockId::SERCOM1_CORE, generator) {
            Some(freq) => Some(Sercom1CoreClock { freq }),
            None => None,
        }
    }

    /// Feeds the core of serial interface 2 from the generator of `generator`.
    /// The token that comes back carries the frequency of `generator`, as the
    /// handle holds it. It comes back once: when the channel is taken already
    /// this returns nothing and changes nothing.
    pub fn sercom2_core(&mut self, generator: &GClock) -> (token: Option<Sercom2CoreClock>)
        ensures
            final(self)@ == old(self)@.enable(ClockId::SERCOM2_CORE, generator.id()),
            token is None <==> old(self)@.used.contains(ClockId::SERCOM2_CORE),
            token matches Some(clock) ==> clock@ == generator.hz(),
    {
        match self.enable_channel(ClockId::SERCOM2_CORE, generator) {
            Some(freq) => Some(Sercom2CoreClock { freq }),
            None => None,
        }
    }

    /// Feeds the core of serial interface 3 from the generator of `generator`.
    /// The token that comes back carries the frequency of `generator`, as the
    /// handle holds it. It comes back once: when the channel is taken already
    /// this returns nothing and changes nothing.
    pub fn sercom3_core(&mut self, generator: &GClock) -> (token: Option<Sercom3CoreClock>)
        ensures
            final(self)@ == old(self)@.enable(ClockId::SERCOM3_CORE, generator.id()),
            token is None <==> old(self)@.used.contains(ClockId::SERCOM3_CORE),
            token matches Some(clock) ==> clock@ == generator.hz(),
    {
        match self.enable_channel(ClockId::SERCOM3_CORE, generator) {
            Some(freq) => Some(Sercom3CoreClock { freq }),
            None => None,
        }
    }

    /// Feeds the core of serial interface 4 from the generator of `generator`.
    /// The token that comes back carries the frequency of `generator`, as the
    /// handle holds it. It comes back once: when the channel is taken already
    /// this returns nothing and changes nothing.
    pub fn sercom4_core(&mut self, generator: &GClock) -> (token: Option<Sercom4CoreClock>)
        ensures
            final(self)@ == old(self)@.enable(ClockId::SERCOM4_CORE, generator.id()),
            token is None <==> old(self)@.used.contains(ClockId::SERCOM4_CORE),
            token matches Some(clock) ==> clock@ == generator.hz(),
    {
        match self.enable_channel(ClockId::SERCOM4_CORE, generator) {
            Some(freq) => Some(Sercom4CoreClock { freq }),
            None => None,
        }
    }

    /// Feeds the core of serial interface 5 from the generator of `generator`.
    /// The token that comes back carries the frequency of `generator`, as the
    /// handle holds it. It comes back once: when the channel is taken already
    /// this returns nothing and changes nothing.
    pub fn sercom5_core(&mut self, generator: &GClock) -> (token: Option<Sercom5CoreClock>)
        ensures
            final(self)@ == old(self)@.enable(ClockId::SERCOM5_CORE, generator.id()),
            token is None <==> old(self)@.used.contains(ClockId::SERCOM5_CORE),
            token matches Some(clock) ==> clock@ == generator.hz(),
    {
        match self.enable_channel(ClockId::SERCOM5_CORE, generator) {
            Some(freq) => Some(Sercom5CoreClock { freq }),
            None => None,
        }
    }

    /// Feeds the USB interface from the generator of `generator`. The token
    /// that comes back carries the frequency of `generator`, as the handle
    /// holds it. It comes back once: when the channel is taken already this
    /// returns nothing and changes nothing.
    pub fn usb(&mut self, generator: &GClock) -> (token: Option<UsbClock>)
        ensures
            final(self)@ == old(self)@.enable(ClockId::USB, generator.id()),
            token is None <==> old(self)@.used.contains(ClockId::USB),
            token matches Some(clock) ==> clock@ == generator.hz(),
    {
        match self.enable_channel(ClockId::USB, generator) {
            Some(freq) => Some(UsbClock { freq }),
            None => None,
        }
    }

    /// Feeds the real-time counter from the generator of `generator`. The token
    /// that comes back carries the frequency of `generator`, as the handle
    /// holds it. It comes back once: when the channel is taken already this
    /// returns nothing and changes nothing.
    pub fn rtc(&mut self, generator: &GClock) -> (token: Option<RtcClock>)
        ensures
            final(self)@ == old(self)@.enable(ClockId::RTC, generator.id()),
            token is None <==> old(self)@.used.contains(ClockId::RTC),
            token matches Some(clock) ==> clock@ == generator.hz(),
    {
        match self.enable_channel(ClockId::RTC, generator) {
            Some(freq) => Some(RtcClock { freq }),
            None => None,
        }
    }

    /// Feeds the analog-to-digital converter from the generator of `generator`.
    /// The token that comes back carries the frequency of `generator`, as the
    /// handle holds it. It comes back once: when the channel is taken already
    /// this returns nothing and changes nothing.
    pub fn adc(&mut self, generator: &GClock) -> (token: Option<AdcClock>)
        ensures
            final(self)@ == old(self)@.enable(ClockId::ADC, generator.id()),
            token is None <==> old(self)@.used.contains(ClockId::ADC),
            token matches Some(clock) ==> clock@ == generator.hz(),
    {
        match self.enable_channel(ClockId::ADC, generator) {
            Some(freq) => Some(AdcClock { freq }),
            None => None,
        }
    }

    /// Feeds the watchdog timer from the generator of `generator`. The token
    /// that comes back carries the frequency of `generator`, as the handle
    /// holds it. It comes back once: when the channel is taken already this
    /// returns nothing and changes nothing.
    pub fn wdt(&mut self, generator: &GClock) -> (token: Option<WdtClock>)
        ensures
            final(self)@ == old(self)@.enable(ClockId::WDT, generator.id()),
            token is None <==> old(self)@.used.contains(ClockId::WDT),
            token matches Some(clock) ==> clock@ == generator.hz(),
    {
        match self.enable_channel(ClockId::WDT, generator) {
            Some(freq) => Some(WdtClock { freq }),
            None => None,
        }
    }

    /// Feeds the external interrupt controller from the generator of
    /// `generator`. The token that comes back carries the frequency of
    /// `generator`, as the handle holds it. It comes back once: when the
    /// channel is taken already this returns nothing and changes nothing.
    pub fn eic(&mut self, generator: &GClock) -> (token: Option<EicClock>)
        ensures
            final(self)@ == old(self)@.enable(ClockId::EIC, generator.id()),
            token is None <==> old(self)@.used.contains(ClockId::EIC),
            token matches Some(clock) ==> clock@ == generator.hz(),
    {
        match self.enable_channel(ClockId::EIC, generator) {
            Some(freq) => Some(EicClock { freq }),
            None => None,
        }
    }

    /// Feeds channel 0 of the event system from the generator of `generator`.
    /// The token that comes back carries the frequency of `generator`, as the
    /// handle holds it. It comes back once: when the channel is taken already
    /// this returns nothing and changes nothing.
    pub fn evsys0(&mut self, generator: &GClock) -> (token: Option<Evsys0Clock>)
        ensures
            final(self)@ == old(self)@.enable(ClockId::EVSYS_0, generator.id()),
            token is None <==> old(self)@.used.contains(ClockId::EVSYS_0),
            token matches Some(clock) ==> clock@ == generator.hz(),
    {
        match self.enable_channel(ClockId::EVSYS_0, generator) {
            Some(freq) => Some(Evsys0Clock { freq }),
            None => None,
        }
    }

    /// Feeds channel 1 of the event system from the generator of `generator`.
    /// The token that comes back carries the frequency of `generator`, as the
    /// handle holds it. It comes back once: when the channel is taken already
    /// this returns nothing and changes nothing.
    pub fn evsys1(&mut self, generator: &GClock) -> (token: Option<Evsys1Clock>)
        ensures
            final(self)@ == old(self)@.enable(ClockId::EVSYS_1, generator.id()),
            token is None <==> old(self)@.used.contains(ClockId::EVSYS_1),
            token matches Some(clock) ==> clock@ == generator.hz(),
    {
        match self.enable_channel(ClockId::EVSYS_1, generator) {
            Some(freq) => Some(Evsys1Clock { freq }),
            None => None,
        }
    }

    /// Feeds channel 2 of the event system from the generator of `generator`.
    /// The token that comes back carries the frequency of `generator`, as the
    /// handle holds it. It comes back once: when the channel is taken already
    /// this returns nothing and changes nothing.
    pub fn evsys2(&mut self, generator: &GClock) -> (token: Option<Evsys2Clock>)
        ensures
            final(self)@ == old(self)@.enable(ClockId::EVSYS_2, generator.id()),
            token is None <==> old(self)@.used.contains(ClockId::EVSYS_2),
            token matches Some(clock) ==> clock@ == generator.hz(),
    {
        match self.enable_channel(ClockId::EVSYS_2, generator) {
            Some(freq) => Some(Evsys2Clock { freq }),
            None => None,
        }
    }

    /// Feeds channel 3 of the event system from the generator of `generator`.
    /// The token that comes back carries the frequency of `generator`, as the
    /// handle holds it. It comes back once: when the channel is taken already
    /// this returns nothing and changes nothing.
    pub fn evsys3(&mut self, generator: &GClock) -> (token: Option<Evsys3Clock>)
        ensures
            final(self)@ == old(self)@.enable(ClockId::EVSYS_3, generator.id()),
            token is None <==> old(self)@.used.contains(ClockId::EVSYS_3),
            token matches Some(clock) ==> clock@ == generator.hz(),
    {
        match self.enable_channel(ClockId::EVSYS_3, generator) {
            Some(freq) => Some(Evsys3Clock { freq }),
            None => None,
        }
    }

    /// Feeds channel 4 of the event system from the generator of `generator`.
    /// The token that comes back carries the frequency of `generator`, as the
    /// handle holds it. It comes back once: when the channel is taken already
    /// this returns nothing and changes nothing.
    pub fn evsys4(&mut self, generator: &GClock) -> (token: Option<Evsys4Clock>)
        ensures
            final(self)@ == old(self)@.enable(ClockId::EVSYS_4, generator.id()),
            token is None <==> old(self)@.used.contains(ClockId::EVSYS_4),
            token matches Some(clock) ==> clock@ == generator.hz(),
    {
        match self.enable_channel(ClockId::EVSYS_4, generator) {
            Some(freq) => Some(Evsys4Clock { freq }),
            None => None,
        }
    }

    /// Feeds channel 5 of the event system from the generator of `generator`.
    /// The token that comes back carries the frequency of `generator`, as the
    /// handle holds it. It comes back once: when the channel is taken already
    /// this returns nothing and changes nothing.
    pub fn evsys5(&mut self, generator: &GClock) -> (token: Option<Evsys5Clock>)
        ensures
            final(self)@ == old(self)@.enable(ClockId::EVSYS_5, generator.id()),
            token is None <==> old(self)@.used.contains(ClockId::EVSYS_5),
            token matches Some(clock) ==> clock@ == generator.hz(),
    {
        match self.enable_channel(ClockId::EVSYS_5, generator) {
            Some(freq) => Some(Evsys5Clock { freq }),
            None => None,
        }
    }

    /// Feeds channel 6 of the event system from the generator of `generator`.
    /// The token that comes back carries the frequency of `generator`, as the
    /// handle holds it. It comes back once: when the channel is taken already
    /// this returns nothing and changes nothing.
    pub fn evsys6(&mut self, generator: &GClock) -> (token: Option<Evsys6Clock>)
        ensures
            final(self)@ == old(self)@.enable(ClockId::EVSYS_6, generator.id()),
            token is None <==> old(self)@.used.contains(ClockId::EVSYS_6),
            token matches Some(clock) ==> clock@ == generator.hz(),
    {
        match self.enable_channel(ClockId::EVSYS_6, generator) {
            Some(freq) => Some(Evsys6Clock { freq }),
            None => None,
        }
    }

    /// Feeds channel 7 of the event system from the generator of `generator`.
    /// The token that comes back carries the frequency of `generator`, as the
    /// handle holds it. It comes back once: when the channel is taken already
    /// this returns nothing and changes nothing.
    pub fn evsys7(&mut self, generator: &GClock) -> (token: Option<Evsys7Clock>)
        ensures
            final(self)@ == old(self)@.enable(ClockId::EVSYS_7, generator.id()),
            token is None <==> old(self)@.used.contains(ClockId::EVSYS_7),
            token matches Some(clock) ==> clock@ == generator.hz(),
    {
        match self.enable_channel(ClockId::EVSYS_7, generator) {
            Some(freq) => Some(Evsys7Clock { freq }),
            None => None,
        }
    }

    /// Feeds channel 8 of the event system from the generator of `generator`.
    /// The token that comes back carries the frequency of `generator`, as the
    /// handle holds it. It comes back once: when the channel is taken already
    /// this returns nothing and changes nothing.
    pub fn evsys8(&mut self, generator: &GClock) -> (token: Option<Evsys8Clock>)
        ensures
            final(self)@ == old(self)@.enable(ClockId::EVSYS_8, generator.id()),
            token is None <==> old(self)@.used.contains(ClockId::EVSYS_8),
            token matches Some(clock) ==> clock@ == generator.hz(),
    {
        match self.enable_channel(ClockId::EVSYS_8, generator) {
            Some(freq) => Some(Evsys8Clock { freq }),
            None => None,
        }
    }

    /// Feeds channel 9 of the event system from the generator of `generator`.
    /// The token that comes back carries the frequency of `generator`, as the
    /// handle holds it. It comes back once: when the channel is taken already
    /// this returns nothing and changes nothing.
    pub fn evsys9(&mut self, generator: &GClock) -> (token: Option<Evsys9Clock>)
        ensures
            final(self)@ == old(self)@.enable(ClockId::EVSYS_9, generator.id()),
            token is None <==> old(self)@.used.contains(ClockId::EVSYS_9),
            token matches Some(clock) ==> clock@ == generator.hz(),
    {
        match self.enable_channel(ClockId::EVSYS_9, generator) {
            Some(freq) => Some(Evsys9Clock { freq }),
            None => None,
        }
    }

    /// Feeds channel 10 of the event system from the generator of `generator`.
    /// The token that comes back carries the frequency of `generator`, as the
    /// handle holds it. It comes back once: when the channel is taken already
    /// this returns nothing and changes nothing.
    pub fn evsys10(&mut self, generator: &GClock) -> (token: Option<Evsys10Clock>)
        ensures
            final(self)@ == old(self)@.enable(ClockId::EVSYS_10, generator.id()),
            token is None <==> old(self)@.used.contains(ClockId::EVSYS_10),
            token matches Some(clock) ==> clock@ == generator.hz(),
    {
        match self.enable_channel(ClockId::EVSYS_10, generator) {
            Some(freq) => Some(Evsys10Clock { freq }),
            None => None,
        }
    }

    /// Feeds channel 11 of the event system from the generator of `generator`.
    /// The token that comes back carries the frequency of `generator`, as the
    /// handle holds it. It comes back once: when the channel is taken already
    /// this returns nothing and changes nothing.
    pub fn evsys11(&mut self, generator: &GClock) -> (token: Option<Evsys11Clock>)
        ensures
            final(self)@ == old(self)@.enable(ClockId::EVSYS_11, generator.id()),
            token is None <==> old(self)@.used.contains(ClockId::EVSYS_11),
            token matches Some(clock) ==> clock@ == generator.hz(),
    {
        match self.enable_channel(ClockId::EVSYS_11, generator) {
            Some(freq) => Some(Evsys11Clock { freq }),
            None => None,
        }
    }

    /// Feeds the analog part of the analog comparators from the generator of
    /// `generator`. The token that comes back carries the frequency of
    /// `generator`, as the handle holds it. It comes back once: when the
    /// channel is taken already this returns nothing and changes nothing.
    pub fn ac_ana(&mut self, generator: &GClock) -> (token: Option<AcAnaClock>)
        ensures
            final(self)@ == old(self)@.enable(ClockId::AC_ANA, generator.id()),
            token is None <==> old(self)@.used.contains(ClockId::AC_ANA),
            token matches Some(clock) ==> clock@ == generator.hz(),
    {
        match self.enable_channel(ClockId::AC_ANA, generator) {
            Some(freq) => Some(AcAnaClock { freq }),
            None => None,
        }
    }

    /// Feeds the digital part of the analog comparators from the generator of
    /// `generator`. The token that comes back carries the frequency of
    /// `generator`, as the handle holds it. It comes back once: when the
    /// channel is taken already this returns nothing and changes nothing.
    pub fn ac_dig(&mut self, generator: &GClock) -> (token: Option<AcDigClock>)
        ensures
            final(self)@ == old(self)@.enable(ClockId::AC_DIG, generator.id()),
            token is None <==> old(self)@.used.contains(ClockId::AC_DIG),
            token matches Some(clock) ==> clock@ == generator.hz(),
    {
        match self.enable_channel(ClockId::AC_DIG, generator) {
            Some(freq) => Some(AcDigClock { freq }),
            None => None,
        }
    }

    /// Feeds the digital-to-analog converter from the generator of `generator`.
    /// The token that comes back carries the frequency of `generator`, as the
    /// handle holds it. It comes back once: when the channel is taken already
    /// this returns nothing and changes nothing.
    pub fn dac(&mut self, generator: &GClock) -> (token: Option<DacClock>)
        ensures
            final(self)@ == old(self)@.enable(ClockId::DAC, generator.id()),
            token is None <==> old(self)@.used.contains(ClockId::DAC),
            token matches Some(clock) ==> clock@ == generator.hz(),
    {
        match self.enable_channel(ClockId::DAC, generator) {
            Some(freq) => Some(DacClock { freq }),
            None => None,
        }
    }

    /// Feeds serializer 0 of the inter-IC sound interface from the generator of
    /// `generator`. The token that comes back carries the frequency of
    /// `generator`, as the handle holds it. It comes back once: when the
    /// channel is taken already this returns nothing and changes nothing.
    pub fn i2s0(&mut self, generator: &GClock) -> (token: Option<I2S0Clock>)
        ensures
            final(self)@ == old(self)@.enable(ClockId::I2S_0, generator.id()),
            token is None <==> old(self)@.used.contains(ClockId::I2S_0),
            token matches Some(clock) ==> clock@ == generator.hz(),
    {
        match self.enable_channel(ClockId::I2S_0, generator) {
            Some(freq) => Some(I2S0Clock { freq }),
            None => None,
        }
    }

    /// Feeds serializer 1 of the inter-IC sound interface from the generator of
    /// `generator`. The token that comes back carries the frequency of
    /// `generator`, as the handle holds it. It comes back once: when the
    /// channel is taken already this returns nothing and changes nothing.
    pub fn i2s1(&mut self, generator: &GClock) -> (token: Option<I2S1Clock>)
        ensures
            final(self)@ == old(self)@.enable(ClockId::I2S_1, generator.id()),
            token is None <==> old(self)@.used.contains(ClockId::I2S_1),
            token matches Some(clock) ==> clock@ == generator.hz(),
    {
        match self.enable_channel(ClockId::I2S_1, generator) {
            Some(freq) => Some(I2S1Clock { freq }),
            None => None,
        }
    }
}

} // verus!
