//! The clock tree as the controller knows it: which generator runs at
//! what frequency, which channels are taken, and which register
//! transactions are still to be carried out. This is the mathematical
//! model that the controller's contracts are stated over.

use crate::clock::ids::{ClockGenId, ClockId, ClockSource};
use crate::clock::steps::{
    bring_up_48mhz_steps, bring_up_8mhz_steps, channel_steps, generator_steps,
    lemma_bring_up_synchronized, lemma_operations_on_generator_tree,
    lemma_operations_synchronized, lemma_synchronized_concat, on_generator_tree, standby_steps,
    synchronized, Step,
};
use crate::clock::{max_divider, DFLL48MRefClock, OSC32K_FREQ, OSC48M_FREQ, OSC8M_FREQ};
use vstd::prelude::*;

verus! {

/// The frequency of the phase-locked loop's output, in hertz.
pub open spec fn dpll96m_frequency() -> nat {
    96_000_000
}

/// The frequency that a source runs at, where the controller can tell.
/// `gclk1` is the frequency of generator 1. It cannot tell for the two
/// external inputs.
pub open spec fn source_frequency(src: ClockSource, gclk1: nat) -> Option<nat> {
    match src {
        ClockSource::XOSC32K | ClockSource::OSC32K | ClockSource::OSCULP32K => Some(
            OSC32K_FREQ as nat,
        ),
        ClockSource::GCLKGEN1 => Some(gclk1),
        ClockSource::OSC8M => Some(OSC8M_FREQ as nat),
        ClockSource::DFLL48M => Some(OSC48M_FREQ as nat),
        ClockSource::DPLL96M => Some(dpll96m_frequency()),
        ClockSource::GCLKIN | ClockSource::XOSC => None,
    }
}

/// The state of the controller.
#[verifier::ext_equal]
pub struct ClockTree {
    /// The frequency of each generator in hertz, by generator number;
    /// 0 for one that has not been configured.
    pub table: Seq<nat>,
    /// The channels that have been enabled.
    pub used: Set<ClockId>,
    /// The register transactions decided on and not yet handed out.
    pub pending: Seq<Step>,
}

impl ClockTree {
    /// The table has one entry per generator and each fits in 32 bits.
    pub open spec fn wf(self) -> bool {
        &&& self.table.len() == 8
        &&& forall|i: int| 0 <= i < 8 ==> #[trigger] self.table[i] <= u32::MAX
    }

    /// The frequency recorded for `gclk`.
    pub open spec fn frequency(self, gclk: ClockGenId) -> nat {
        self.table[gclk.number() as int]
    }

    /// Whether `gclk` has been configured.
    pub open spec fn configured(self, gclk: ClockGenId) -> bool {
        self.frequency(gclk) != 0
    }

    /// What a lookup of `gclk` finds: its frequency, if it has been
    /// configured.
    pub open spec fn lookup(self, gclk: ClockGenId) -> Option<nat> {
        if self.configured(gclk) {
            Some(self.frequency(gclk))
        } else {
            None
        }
    }

    /// Whether a request to configure `gclk` is one that the controller
    /// can act on. For a generator that is configured already every
    /// request is, since it is turned down. Otherwise the divider has to
    /// fit the generator and must not be 0, and the source has to be one
    /// whose frequency the controller can tell.
    pub open spec fn accepts(self, gclk: ClockGenId, divider: u16, src: ClockSource) -> bool {
        !self.configured(gclk) ==> {
            &&& 0 < divider <= max_divider(gclk)
            &&& source_frequency(src, self.frequency(ClockGenId::GCLK1)) is Some
        }
    }

    /// The frequency that `gclk` gets when it is configured to run from
    /// `src` divided by `divider`.
    pub open spec fn resolve(self, divider: u16, src: ClockSource) -> nat {
        source_frequency(src, self.frequency(ClockGenId::GCLK1)).unwrap() / (divider as nat)
    }

    /// The state after a request to configure `gclk`. A generator that is
    /// configured already stays as it is, and nothing is written.
    pub open spec fn configure(
        self,
        gclk: ClockGenId,
        divider: u16,
        src: ClockSource,
        improve_duty_cycle: bool,
    ) -> ClockTree {
        if self.configured(gclk) {
            self
        } else {
            ClockTree {
                table: self.table.update(gclk.number() as int, self.resolve(divider, src)),
                used: self.used,
                pending: self.pending + generator_steps(gclk, divider, src, improve_duty_cycle),
            }
        }
    }

    /// The state after a request to feed channel `clock` from
    /// `generator`. A channel that is taken stays as it is, and nothing is
    /// written.
    pub open spec fn enable(self, clock: ClockId, generator: ClockGenId) -> ClockTree {
        if self.used.contains(clock) {
            self
        } else {
            ClockTree {
                table: self.table,
                used: self.used.insert(clock),
                pending: self.pending + channel_steps(clock, generator),
            }
        }
    }

    /// The state after a request to change run-in-standby of `gclk`.
    pub open spec fn standby(self, gclk: ClockGenId, enable: bool) -> ClockTree {
        ClockTree {
            table: self.table,
            used: self.used,
            pending: self.pending + standby_steps(gclk, enable),
        }
    }

    /// The state after the pending transactions have been handed out.
    pub open spec fn drained(self) -> ClockTree {
        ClockTree { table: self.table, used: self.used, pending: Seq::empty() }
    }

    /// The state after bring-up to 48 MHz: generator 0 on the multiplier,
    /// generator 1 on the reference oscillator if there is one, and the
    /// multiplier's reference channel taken.
    pub open spec fn after_48mhz(refclock: DFLL48MRefClock, osc32k: u8, coarse: u8) -> ClockTree {
        ClockTree {
            table: seq![
                OSC48M_FREQ as nat,
                refclock.gclk1_frequency(),
                0,
                0,
                0,
                0,
                0,
                0,
            ],
            used: set![ClockId::DFLL48],
            pending: bring_up_48mhz_steps(refclock, osc32k, coarse),
        }
    }

    /// The state after bring-up to 8 MHz: generator 0 on the internal RC
    /// oscillator and no channel taken.
    pub open spec fn after_8mhz() -> ClockTree {
        ClockTree {
            table: seq![OSC8M_FREQ as nat, 0, 0, 0, 0, 0, 0, 0],
            used: Set::empty(),
            pending: bring_up_8mhz_steps(),
        }
    }
}

/// A request that can change the state of the controller.
pub enum Call {
    /// Configure a generator.
    Configure { gclk: ClockGenId, divider: u16, src: ClockSource, improve_duty_cycle: bool },
    /// Feed a peripheral channel from a generator.
    Enable { clock: ClockId, generator: ClockGenId },
    /// Change run-in-standby of a generator.
    Standby { gclk: ClockGenId, enable: bool },
    /// Hand out the pending register transactions.
    Drain,
}

impl ClockTree {
    /// The state after `call`.
    pub open spec fn apply(self, call: Call) -> ClockTree {
        match call {
            Call::Configure { gclk, divider, src, improve_duty_cycle } => self.configure(
                gclk,
                divider,
                src,
                improve_duty_cycle,
            ),
            Call::Enable { clock, generator } => self.enable(clock, generator),
            Call::Standby { gclk, enable } => self.standby(gclk, enable),
            Call::Drain => self.drained(),
        }
    }

    /// The state after `calls`, one after the other.
    pub open spec fn run(self, calls: Seq<Call>) -> ClockTree
        decreases calls.len(),
    {
        if calls.len() == 0 {
            self
        } else {
            self.run(calls.drop_last()).apply(calls.last())
        }
    }

    /// Whether `call` is one that the controller can act on in this state.
    pub open spec fn admits(self, call: Call) -> bool {
        call matches Call::Configure { gclk, divider, src, .. } ==> self.accepts(
            gclk,
            divider,
            src,
        )
    }

    /// Whether `call`, if it configures a generator, gives it a frequency
    /// of at least one hertz.
    pub open spec fn settles(self, call: Call) -> bool {
        call matches Call::Configure { gclk, divider, src, .. } ==> !self.configured(gclk)
            ==> self.resolve(divider, src) != 0
    }

    /// Whether `call` is a request to configure `gclk` that is granted in
    /// this state.
    pub open spec fn claims(self, call: Call, gclk: ClockGenId) -> bool {
        call matches Call::Configure { gclk: asked, .. } && asked == gclk && !self.configured(
            gclk,
        )
    }

    /// Whether `call` is a request for channel `clock` that is granted in
    /// this state.
    pub open spec fn grants(self, call: Call, clock: ClockId) -> bool {
        call matches Call::Enable { clock: asked, .. } && asked == clock && !self.used.contains(
            clock,
        )
    }

    /// A call leaves the table with its eight entries of 32 bits.
    pub proof fn lemma_apply_keeps_wf(self, call: Call)
        requires
            self.wf(),
            self.admits(call),
        ensures
            self.apply(call).wf(),
    {
        if let Call::Configure { gclk, divider, src, improve_duty_cycle } = call {
            if !self.configured(gclk) {
                let source = source_frequency(src, self.frequency(ClockGenId::GCLK1)).unwrap();
                assert(self.table[1] <= u32::MAX);
                assert(source <= u32::MAX);
                assert(source / (divider as nat) <= source) by (nonlinear_arith)
                    requires
                        divider > 0,
                ;
                let after = self.apply(call);
                assert forall|i: int| 0 <= i < 8 implies #[trigger] after.table[i] <= u32::MAX by {
                    if i != gclk.number() {
                        assert(after.table[i] == self.table[i]);
                    }
                }
            }
        }
    }

    /// A run of calls leaves the table with its eight entries of 32 bits.
    pub proof fn lemma_run_keeps_wf(self, calls: Seq<Call>)
        requires
            self.wf(),
            forall|i: int|
                0 <= i < calls.len() ==> #[trigger] self.run(calls.take(i)).admits(calls[i]),
        ensures
            self.run(calls).wf(),
        decreases calls.len(),
    {
        if calls.len() > 0 {
            let front = calls.drop_last();
            assert forall|i: int| 0 <= i < front.len() implies #[trigger] self.run(
                front.take(i),
            ).admits(front[i]) by {
                assert(front.take(i) =~= calls.take(i));
                assert(self.run(calls.take(i)).admits(calls[i]));
            }
            self.lemma_run_keeps_wf(front);
            assert(calls.take(front.len() as int) =~= front);
            assert(self.run(calls.take(front.len() as int)).admits(calls[front.len() as int]));
            self.run(front).lemma_apply_keeps_wf(calls.last());
        }
    }

    /// Running two lists of calls one after the other is running the one
    /// list that they make together.
    pub proof fn lemma_run_concat(self, first: Seq<Call>, second: Seq<Call>)
        ensures
            self.run(first + second) == self.run(first).run(second),
        decreases second.len(),
    {
        if second.len() == 0 {
            assert(first + second =~= first);
        } else {
            self.lemma_run_concat(first, second.drop_last());
            assert((first + second).drop_last() =~= first + second.drop_last());
            assert((first + second).last() == second.last());
        }
    }

    /// The state after the first `n + 1` calls is the state after the
    /// first `n` with call `n` applied.
    pub proof fn lemma_run_step(self, calls: Seq<Call>, n: int)
        requires
            0 <= n < calls.len(),
        ensures
            self.run(calls.take(n + 1)) == self.run(calls.take(n)).apply(calls[n]),
    {
        assert(calls.take(n + 1).drop_last() =~= calls.take(n));
        assert(calls.take(n + 1).last() == calls[n]);
    }

    /// A generator that is configured stays configured, at the same
    /// frequency, whatever is asked next.
    pub proof fn lemma_configured_once(self, call: Call, gclk: ClockGenId)
        requires
            self.wf(),
            self.configured(gclk),
        ensures
            self.apply(call).configured(gclk),
            self.apply(call).frequency(gclk) == self.frequency(gclk),
    {
    }

    /// A lookup finds a generator if and only if it was configured: in
    /// the state that the run starts from, as bring-up leaves it, or by one
    /// of the calls of the run, granted when it was made. This holds of the
    /// runs in which every generator that is configured gets a frequency of
    /// at least one hertz: one configured to less is on record with 0 and
    /// passes for unconfigured.
    pub proof fn lemma_lookup_iff_configured(self, calls: Seq<Call>, gclk: ClockGenId)
        requires
            self.wf(),
            forall|i: int|
                0 <= i < calls.len() ==> #[trigger] self.run(calls.take(i)).admits(calls[i]),
            forall|i: int|
                0 <= i < calls.len() ==> #[trigger] self.run(calls.take(i)).settles(calls[i]),
        ensures
            self.run(calls).lookup(gclk) is Some <==> self.lookup(gclk) is Some || exists|i: int|
                0 <= i < calls.len() && #[trigger] self.run(calls.take(i)).claims(calls[i], gclk),
        decreases calls.len(),
    {
        if calls.len() > 0 {
            let front = calls.drop_last();
            let last = calls.last();
            let n = front.len() as int;
            let before = self.run(front);
            let after = self.run(calls);
            assert forall|i: int| 0 <= i < n implies front.take(i) == calls.take(i) && front[i]
                == calls[i] by {
                assert(front.take(i) =~= calls.take(i));
            }
            assert forall|i: int| 0 <= i < n implies #[trigger] self.run(front.take(i)).admits(
                front[i],
            ) by {
                assert(self.run(calls.take(i)).admits(calls[i]));
            }
            assert forall|i: int| 0 <= i < n implies #[trigger] self.run(front.take(i)).settles(
                front[i],
            ) by {
                assert(self.run(calls.take(i)).settles(calls[i]));
            }
            self.lemma_lookup_iff_configured(front, gclk);
            self.lemma_run_keeps_wf(front);
            assert(calls.take(n) =~= front);
            assert(before.admits(last) && before.settles(last)) by {
                assert(self.run(calls.take(n)).admits(calls[n]));
                assert(self.run(calls.take(n)).settles(calls[n]));
            }
            let claimed_in_front = exists|i: int|
                0 <= i < n && #[trigger] self.run(front.take(i)).claims(front[i], gclk);
            let claimed = exists|i: int|
                0 <= i < calls.len() && #[trigger] self.run(calls.take(i)).claims(calls[i], gclk);
            if claimed_in_front {
                let i = choose|i: int|
                    0 <= i < n && #[trigger] self.run(front.take(i)).claims(front[i], gclk);
                assert(self.run(calls.take(i)).claims(calls[i], gclk));
            }
            if before.claims(last, gclk) {
                assert(self.run(calls.take(n)).claims(calls[n], gclk));
            }
            if claimed {
                let i = choose|i: int|
                    0 <= i < calls.len() && #[trigger] self.run(calls.take(i)).claims(
                        calls[i],
                        gclk,
                    );
                if i < n {
                    assert(self.run(front.take(i)).claims(front[i], gclk));
                } else {
                    assert(before.claims(last, gclk));
                }
            }
            assert(claimed <==> claimed_in_front || before.claims(last, gclk));
            if before.configured(gclk) {
                before.lemma_configured_once(last, gclk);
            }
        }
    }

    /// No call takes a channel back: the channels in use only become
    /// more.
    pub proof fn lemma_used_grows(self, calls: Seq<Call>)
        ensures
            self.used.subset_of(self.run(calls).used),
        decreases calls.len(),
    {
        if calls.len() > 0 {
            self.lemma_used_grows(calls.drop_last());
        }
    }

    /// A channel is granted at most once: of two requests for the same
    /// channel in one run, the later one is turned down if the earlier one
    /// was granted.
    pub proof fn lemma_granted_once(self, calls: Seq<Call>, first: int, second: int, clock: ClockId)
        requires
            0 <= first < second < calls.len(),
            self.run(calls.take(first)).grants(calls[first], clock),
        ensures
            !self.run(calls.take(second)).grants(calls[second], clock),
    {
        let taken = self.run(calls.take(first + 1));
        self.lemma_run_step(calls, first);
        assert(taken.used.contains(clock));
        let rest = calls.subrange(first + 1, second);
        assert(calls.take(second) =~= calls.take(first + 1) + rest);
        self.lemma_run_concat(calls.take(first + 1), rest);
        taken.lemma_used_grows(rest);
    }

    /// A generator that a call of a run configured to at least one hertz
    /// is configured at every later point of the run.
    pub proof fn lemma_configured_from(
        self,
        calls: Seq<Call>,
        first: int,
        later: int,
        gclk: ClockGenId,
    )
        requires
            self.wf(),
            0 <= first < later <= calls.len(),
            forall|i: int|
                0 <= i < calls.len() ==> #[trigger] self.run(calls.take(i)).admits(calls[i]),
            self.run(calls.take(first)).claims(calls[first], gclk),
            self.run(calls.take(first)).settles(calls[first]),
        ensures
            self.run(calls.take(later)).configured(gclk),
        decreases later - first,
    {
        self.lemma_run_step(calls, later - 1);
        assert forall|i: int| 0 <= i < later - 1 implies #[trigger] self.run(
            calls.take(later - 1).take(i),
        ).admits(calls.take(later - 1)[i]) by {
            assert(calls.take(later - 1).take(i) =~= calls.take(i));
            assert(self.run(calls.take(i)).admits(calls[i]));
        }
        self.lemma_run_keeps_wf(calls.take(later - 1));
        if first < later - 1 {
            self.lemma_configured_from(calls, first, later - 1, gclk);
            self.run(calls.take(later - 1)).lemma_configured_once(calls[later - 1], gclk);
        }
    }

    /// A generator is granted at most once: of two requests to configure
    /// the same generator in one run, the later one is turned down if the
    /// earlier one was granted and gave the generator a frequency of at
    /// least one hertz.
    pub proof fn lemma_claimed_once(
        self,
        calls: Seq<Call>,
        first: int,
        second: int,
        gclk: ClockGenId,
    )
        requires
            self.wf(),
            0 <= first < second < calls.len(),
            forall|i: int|
                0 <= i < calls.len() ==> #[trigger] self.run(calls.take(i)).admits(calls[i]),
            self.run(calls.take(first)).claims(calls[first], gclk),
            self.run(calls.take(first)).settles(calls[first]),
        ensures
            !self.run(calls.take(second)).claims(calls[second], gclk),
    {
        self.lemma_configured_from(calls, first, second, gclk);
    }

    /// If every write to the generator tree that is pending is followed
    /// by its wait, that is still so after the next call.
    pub proof fn lemma_apply_keeps_synchronized(self, call: Call)
        requires
            synchronized(self.pending),
        ensures
            synchronized(self.apply(call).pending),
    {
        match call {
            Call::Configure { gclk, divider, src, improve_duty_cycle } => {
                lemma_operations_synchronized(
                    gclk,
                    divider,
                    src,
                    improve_duty_cycle,
                    ClockId::DFLL48,
                    false,
                );
                lemma_synchronized_concat(
                    self.pending,
                    generator_steps(gclk, divider, src, improve_duty_cycle),
                );
            },
            Call::Enable { clock, generator } => {
                lemma_operations_synchronized(
                    generator,
                    1,
                    ClockSource::OSC8M,
                    false,
                    clock,
                    false,
                );
                lemma_synchronized_concat(self.pending, channel_steps(clock, generator));
            },
            Call::Standby { gclk, enable } => {
                lemma_operations_synchronized(
                    gclk,
                    1,
                    ClockSource::OSC8M,
                    false,
                    ClockId::DFLL48,
                    enable,
                );
                lemma_synchronized_concat(self.pending, standby_steps(gclk, enable));
            },
            Call::Drain => {},
        }
    }

    /// After bring-up the controller works on the generator tree alone:
    /// if every pending step is on the generator tree, that is still so
    /// after the next call.
    pub proof fn lemma_apply_stays_on_generator_tree(self, call: Call)
        requires
            forall|i: int|
                0 <= i < self.pending.len() ==> on_generator_tree(#[trigger] self.pending[i]),
        ensures
            forall|i: int|
                0 <= i < self.apply(call).pending.len() ==> on_generator_tree(
                    #[trigger] self.apply(call).pending[i],
                ),
    {
        let after = self.apply(call).pending;
        let n = self.pending.len() as int;
        assert forall|i: int| 0 <= i < after.len() implies on_generator_tree(
            #[trigger] after[i],
        ) by {
            match call {
                Call::Configure { gclk, divider, src, improve_duty_cycle } => {
                    lemma_operations_on_generator_tree(
                        gclk,
                        divider,
                        src,
                        improve_duty_cycle,
                        ClockId::DFLL48,
                        false,
                    );
                    if i >= n {
                        assert(after[i] == generator_steps(
                            gclk,
                            divider,
                            src,
                            improve_duty_cycle,
                        )[i - n]);
                    }
                },
                Call::Enable { clock, generator } => {
                    lemma_operations_on_generator_tree(
                        generator,
                        1,
                        ClockSource::OSC8M,
                        false,
                        clock,
                        false,
                    );
                    if i >= n {
                        assert(after[i] == channel_steps(clock, generator)[i - n]);
                    }
                },
                Call::Standby { gclk, enable } => {
                    lemma_operations_on_generator_tree(
                        gclk,
                        1,
                        ClockSource::OSC8M,
                        false,
                        ClockId::DFLL48,
                        enable,
                    );
                    if i >= n {
                        assert(after[i] == standby_steps(gclk, enable)[i - n]);
                    }
                },
                Call::Drain => {},
            }
        }
    }

    /// What bring-up leaves behind: the table with its eight entries,
    /// every write to the generator tree followed by its wait, and on
    /// record as configured exactly the generators that bring-up has
    /// programmed: generator 0, and generator 1 where a 32 kHz oscillator
    /// is the reference.
    pub proof fn lemma_after_bring_up(
        refclock: DFLL48MRefClock,
        osc32k: u8,
        coarse: u8,
        gclk: ClockGenId,
    )
        ensures
            Self::after_48mhz(refclock, osc32k, coarse).wf(),
            Self::after_8mhz().wf(),
            synchronized(Self::after_48mhz(refclock, osc32k, coarse).pending),
            synchronized(Self::after_8mhz().pending),
            Self::after_48mhz(refclock, osc32k, coarse).configured(gclk) <==> gclk
                == ClockGenId::GCLK0 || (gclk == ClockGenId::GCLK1 && refclock.is_oscillator()),
            Self::after_8mhz().configured(gclk) <==> gclk == ClockGenId::GCLK0,
    {
        lemma_bring_up_synchronized(refclock, osc32k, coarse);
    }
}

} // verus!
