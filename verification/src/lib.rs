//! Hardware-timeout and exclusive-access guard for a save-memory driver.
//!
//! Save-memory chips can hang; a watchdog backed by one of four hardware
//! timer units bounds how long the driver waits. Concurrent save-memory
//! operations are unsafe, so a non-blocking exclusive lock guards them.
//!
//! All process-wide state (the timer-unit selector, the two independent
//! try-locks, and the four timer units' registers) lives in an explicitly
//! owned [`SramContext`], so each client or test can instantiate its own.
//! Binding the modeled registers to the real memory-mapped ones is the
//! platform layer's job.

use vstd::prelude::*;

verus! {

/// The only recoverable error: a non-blocking acquisition found the
/// resource already held.
#[derive(Clone, Copy, PartialEq, Eq, Structural, Debug)]
pub enum Error {
    MediaInUse,
}

/// Which of the four identical hardware timer units backs the watchdog,
/// or none. Held inside [`SramContext`] and mutated only by the registry
/// functions [`set_timer_for_timeout`] and [`disable_timeout`].
#[derive(Clone, Copy, PartialEq, Eq, Structural, Debug)]
pub enum TimerSelector {
    Disabled,
    T0,
    T1,
    T2,
    T3,
}

/// The selector that registering unit `id` (0-3) chooses.
pub open spec fn selector_for(id: u8) -> TimerSelector
    recommends
        id < 4,
{
    if id == 0 {
        TimerSelector::T0
    } else if id == 1 {
        TimerSelector::T1
    } else if id == 2 {
        TimerSelector::T2
    } else {
        TimerSelector::T3
    }
}

/// The index (0-3) of the unit a selector names; -1 when disabled.
pub open spec fn unit_index(s: TimerSelector) -> int {
    match s {
        TimerSelector::Disabled => -1,
        TimerSelector::T0 => 0,
        TimerSelector::T1 => 1,
        TimerSelector::T2 => 2,
        TimerSelector::T3 => 3,
    }
}

/// Control-register value of a cleared, disabled timer.
pub const CONTROL_CLEARED: u16 = 0;

/// Control-register value of an armed timer: the prescaler bits select the
/// /1024 input clock and the enable bit is set.
pub const CONTROL_ARMED: u16 = 0x83;

/// Timer ticks per millisecond at the /1024 prescaler: the console's fixed
/// input clock divided by 1024, rounded to the nearest whole tick.
pub const TICKS_PER_MS: u16 = 17;

/// One past the largest value of the 16-bit hardware counter; the counter
/// wraps to zero at this bound.
pub const COUNTER_WRAP: u32 = 0x1_0000;

/// One hardware timer unit's two registers, modeled as plain values: the
/// free-running 16-bit counter and the control register.
#[derive(Clone, Copy, PartialEq, Eq, Structural, Debug)]
pub struct TimerUnit {
    pub counter: u16,
    pub control: u16,
}

/// Process-wide state of the save-memory driver: the registry's timer
/// selector, the two independent non-blocking locks, and the registers of
/// the four timer units. Own one per process; tests may own several.
pub struct SramContext {
    selector: TimerSelector,
    watchdog_held: bool,
    media_held: bool,
    t0: TimerUnit,
    t1: TimerUnit,
    t2: TimerUnit,
    t3: TimerUnit,
}

impl SramContext {
    /// The registry's current selector.
    pub closed spec fn timer_selector(&self) -> TimerSelector {
        self.selector
    }

    /// Whether the single-instance watchdog lock is held.
    pub closed spec fn watchdog_locked(&self) -> bool {
        self.watchdog_held
    }

    /// Whether the single-instance media lock is held.
    pub closed spec fn media_locked(&self) -> bool {
        self.media_held
    }

    /// The four timer units' registers, as a sequence indexed by unit.
    pub closed spec fn timers(&self) -> Seq<TimerUnit> {
        seq![self.t0, self.t1, self.t2, self.t3]
    }

    /// The state after registering timer unit `id`.
    pub closed spec fn after_register(self, id: u8) -> SramContext {
        SramContext { selector: selector_for(id), ..self }
    }

    /// The state after disabling the timeout.
    pub closed spec fn after_disable(self) -> SramContext {
        SramContext { selector: TimerSelector::Disabled, ..self }
    }

    /// The state after a successful watchdog-lock acquisition.
    pub closed spec fn after_watchdog_acquire(self) -> SramContext {
        SramContext { watchdog_held: true, ..self }
    }

    /// The state after the watchdog lock is released.
    pub closed spec fn after_watchdog_release(self) -> SramContext {
        SramContext { watchdog_held: false, ..self }
    }

    /// The state after a successful media-lock acquisition.
    pub closed spec fn after_media_acquire(self) -> SramContext {
        SramContext { media_held: true, ..self }
    }

    /// The state after the media lock is released.
    pub closed spec fn after_media_release(self) -> SramContext {
        SramContext { media_held: false, ..self }
    }

    /// The state after starting the watchdog on unit `s`: that unit's
    /// counter is reset and its control register armed.
    pub closed spec fn after_start(self, s: TimerSelector) -> SramContext {
        let armed = TimerUnit { counter: 0, control: CONTROL_ARMED };
        match s {
            TimerSelector::Disabled => self,
            TimerSelector::T0 => SramContext { t0: armed, ..self },
            TimerSelector::T1 => SramContext { t1: armed, ..self },
            TimerSelector::T2 => SramContext { t2: armed, ..self },
            TimerSelector::T3 => SramContext { t3: armed, ..self },
        }
    }

    /// The state after unit `id`'s free-running counter advances by
    /// `ticks`, wrapping past its 16-bit maximum as the hardware does.
    pub closed spec fn after_advance(self, id: u8, ticks: u16) -> SramContext {
        let unit = self.timers()[id as int];
        let advanced = TimerUnit {
            counter: ((unit.counter + ticks) % (COUNTER_WRAP as int)) as u16,
            control: unit.control,
        };
        if id == 0 {
            SramContext { t0: advanced, ..self }
        } else if id == 1 {
            SramContext { t1: advanced, ..self }
        } else if id == 2 {
            SramContext { t2: advanced, ..self }
        } else {
            SramContext { t3: advanced, ..self }
        }
    }

    /// A fresh context: no timer selected, both locks free, all timer
    /// registers cleared.
    pub fn new() -> (c: SramContext)
        ensures
            c.timer_selector() == TimerSelector::Disabled,
            !c.watchdog_locked(),
            !c.media_locked(),
            c.timers().len() == 4,
            forall|i: int|
                0 <= i < 4 ==> c.timers()[i] == (TimerUnit { counter: 0, control: CONTROL_CLEARED }),
    {
        let zero = TimerUnit { counter: 0, control: CONTROL_CLEARED };
        SramContext {
            selector: TimerSelector::Disabled,
            watchdog_held: false,
            media_held: false,
            t0: zero,
            t1: zero,
            t2: zero,
            t3: zero,
        }
    }

    /// Reads unit `id`'s counter register.
    pub fn timer_counter(&self, id: u8) -> (r: u16)
        requires
            id < 4,
        ensures
            r == self.timers()[id as int].counter,
    {
        match id {
            0 => self.t0.counter,
            1 => self.t1.counter,
            2 => self.t2.counter,
            _ => self.t3.counter,
        }
    }

    /// Reads unit `id`'s control register.
    pub fn timer_control(&self, id: u8) -> (r: u16)
        requires
            id < 4,
        ensures
            r == self.timers()[id as int].control,
    {
        match id {
            0 => self.t0.control,
            1 => self.t1.control,
            2 => self.t2.control,
            _ => self.t3.control,
        }
    }

    /// Advances unit `id`'s free-running counter by `ticks`, wrapping past
    /// the 16-bit maximum exactly as the hardware counter does. This stands
    /// in for hardware time passing; the platform layer uses it to mirror
    /// the real counter into the model.
    pub fn advance_timer(&mut self, id: u8, ticks: u16)
        requires
            id < 4,
        ensures
            *final(self) == old(self).after_advance(id, ticks),
            final(self).timers() == old(self).timers().update(
                id as int,
                (TimerUnit {
                    counter: ((old(self).timers()[id as int].counter + ticks) % (
                    COUNTER_WRAP as int)) as u16,
                    control: old(self).timers()[id as int].control,
                }),
            ),
            final(self).timer_selector() == old(self).timer_selector(),
            final(self).watchdog_locked() == old(self).watchdog_locked(),
            final(self).media_locked() == old(self).media_locked(),
    {
        let sum: u32 = match id {
            0 => self.t0.counter as u32 + ticks as u32,
            1 => self.t1.counter as u32 + ticks as u32,
            2 => self.t2.counter as u32 + ticks as u32,
            _ => self.t3.counter as u32 + ticks as u32,
        };
        let wrapped: u16 = (sum % COUNTER_WRAP) as u16;
        match id {
            0 => self.t0.counter = wrapped,
            1 => self.t1.counter = wrapped,
            2 => self.t2.counter = wrapped,
            _ => self.t3.counter = wrapped,
        }
        proof {
            assert(final(self).timers() =~= old(self).timers().update(
                id as int,
                TimerUnit {
                    counter: ((old(self).timers()[id as int].counter + ticks) % (
                    COUNTER_WRAP as int)) as u16,
                    control: old(self).timers()[id as int].control,
                },
            ));
        }
    }
}

/// Sets the timer unit used to implement timeouts for save-memory
/// operations that may hang. `id` must be 0-3: an out-of-range id is a
/// programming-contract violation, excluded here by precondition. The
/// selector is overwritten atomically; a watchdog already constructed
/// keeps its own snapshot and is unaffected.
pub fn set_timer_for_timeout(ctx: &mut SramContext, id: u8)
    requires
        id < 4,
    ensures
        *final(ctx) == old(ctx).after_register(id),
        final(ctx).timer_selector() == selector_for(id),
        final(ctx).timer_selector() != TimerSelector::Disabled,
        unit_index(final(ctx).timer_selector()) == id as int,
        final(ctx).watchdog_locked() == old(ctx).watchdog_locked(),
        final(ctx).media_locked() == old(ctx).media_locked(),
        final(ctx).timers() == old(ctx).timers(),
{
    ctx.selector = match id {
        0 => TimerSelector::T0,
        1 => TimerSelector::T1,
        2 => TimerSelector::T2,
        _ => TimerSelector::T3,
    };
}

/// Disables the timeout: a watchdog constructed afterwards is inactive
/// until a timer unit is registered again.
pub fn disable_timeout(ctx: &mut SramContext)
    ensures
        *final(ctx) == old(ctx).after_disable(),
        final(ctx).timer_selector() == TimerSelector::Disabled,
        final(ctx).watchdog_locked() == old(ctx).watchdog_locked(),
        final(ctx).media_locked() == old(ctx).media_locked(),
        final(ctx).timers() == old(ctx).timers(),
{
    ctx.selector = TimerSelector::Disabled;
}

/// Whether an elapsed counter value meets a millisecond threshold: an
/// inactive watchdog never reports a timeout; an active one does exactly
/// when the raw counter strictly exceeds `check_ms` converted to ticks.
pub open spec fn timeout_met(active: bool, counter: u16, check_ms: u16) -> bool {
    active && counter as int > check_ms as int * TICKS_PER_MS as int
}

/// A timeout object used to keep a hanging save-memory operation from
/// stalling the caller forever. At most one exists at a time, guarded by
/// the context's watchdog lock; it snapshots the registry's selector once
/// at construction and is unaffected by later registry changes.
pub struct Timeout {
    active: bool,
    unit: TimerSelector,
}

impl Timeout {
    /// Well-formed: the `active` flag records exactly whether a timer unit
    /// was selected when the watchdog was constructed.
    pub closed spec fn wf(&self) -> bool {
        self.active == (self.unit != TimerSelector::Disabled)
    }

    /// Whether this watchdog is bound to a timer unit.
    pub closed spec fn spec_active(&self) -> bool {
        self.active
    }

    /// The timer unit this watchdog snapshotted at construction.
    pub closed spec fn spec_unit(&self) -> TimerSelector {
        self.unit
    }

    /// Whether this watchdog is bound to a timer unit. An inactive
    /// watchdog never reports a timeout, so a caller that relies on a
    /// timeout for correctness must check this flag.
    pub fn is_active(&self) -> (r: bool)
        ensures
            r == self.spec_active(),
    {
        self.active
    }

    /// The index (0-3) of the timer unit this watchdog is bound to, or
    /// `None` when it is inactive. The platform layer uses this to pick
    /// the memory-mapped registers to mirror.
    pub fn bound_unit(&self) -> (r: Option<u8>)
        requires
            self.wf(),
        ensures
            self.spec_active() ==> (r matches Some(id) && id < 4 && unit_index(self.spec_unit())
                == id as int),
            !self.spec_active() ==> r is None,
    {
        match self.unit {
            TimerSelector::Disabled => None,
            TimerSelector::T0 => Some(0),
            TimerSelector::T1 => Some(1),
            TimerSelector::T2 => Some(2),
            TimerSelector::T3 => Some(3),
        }
    }

    /// Creates a watchdog from the registry's current snapshot, acquiring
    /// the single-instance watchdog lock by a non-blocking try-acquire.
    ///
    /// Fails with [`Error::MediaInUse`] exactly when another watchdog is
    /// alive; on success the watchdog is active exactly when a timer unit
    /// is registered.
    pub fn new(ctx: &mut SramContext) -> (r: Result<Timeout, Error>)
        ensures
            old(ctx).watchdog_locked() ==> r == Err::<Timeout, Error>(Error::MediaInUse)
                && *final(ctx) == *old(ctx),
            !old(ctx).watchdog_locked() ==> {
                &&& *final(ctx) == old(ctx).after_watchdog_acquire()
                &&& final(ctx).watchdog_locked()
                &&& final(ctx).timer_selector() == old(ctx).timer_selector()
                &&& final(ctx).media_locked() == old(ctx).media_locked()
                &&& final(ctx).timers() == old(ctx).timers()
                &&& r matches Ok(wd) && wd.wf() && wd.spec_unit() == old(ctx).timer_selector()
                    && wd.spec_active() == (old(ctx).timer_selector() != TimerSelector::Disabled)
            },
    {
        if ctx.watchdog_held {
            return Err(Error::MediaInUse);
        }
        ctx.watchdog_held = true;
        let id = ctx.selector;
        Ok(Timeout { active: !(id == TimerSelector::Disabled), unit: id })
    }

    /// Starts (or restarts) this timeout: a no-op when inactive, otherwise
    /// resets the bound unit's counter to zero and writes the control
    /// register twice, first cleared to drop any stale configuration left
    /// by a previous use of the same physical unit, then armed (prescaler
    /// /1024, counting enabled). No other unit is touched.
    pub fn start(&self, ctx: &mut SramContext)
        requires
            self.wf(),
        ensures
            !self.spec_active() ==> *final(ctx) == *old(ctx),
            self.spec_active() ==> {
                &&& *final(ctx) == old(ctx).after_start(self.spec_unit())
                &&& final(ctx).timers() == old(ctx).timers().update(
                    unit_index(self.spec_unit()),
                    (TimerUnit { counter: 0, control: CONTROL_ARMED }),
                )
                &&& final(ctx).timer_selector() == old(ctx).timer_selector()
                &&& final(ctx).watchdog_locked() == old(ctx).watchdog_locked()
                &&& final(ctx).media_locked() == old(ctx).media_locked()
            },
    {
        if self.active {
            match self.unit {
                TimerSelector::Disabled => {},
                TimerSelector::T0 => {
                    self.write_unit(&mut ctx.t0);
                },
                TimerSelector::T1 => {
                    self.write_unit(&mut ctx.t1);
                },
                TimerSelector::T2 => {
                    self.write_unit(&mut ctx.t2);
                },
                TimerSelector::T3 => {
                    self.write_unit(&mut ctx.t3);
                },
            }
            proof {
                assert(final(ctx).timers() =~= old(ctx).timers().update(
                    unit_index(self.spec_unit()),
                    TimerUnit { counter: 0, control: CONTROL_ARMED },
                ));
            }
        }
    }

    /// The register-write sequence of [`Timeout::start`] on one unit:
    /// counter reset, control cleared, control armed.
    fn write_unit(&self, unit: &mut TimerUnit)
        ensures
            *final(unit) == (TimerUnit { counter: 0, control: CONTROL_ARMED }),
    {
        unit.counter = 0;
        unit.control = CONTROL_CLEARED;
        unit.control = CONTROL_ARMED;
    }

    /// Returns whether `check_ms` milliseconds have passed since the last
    /// call to [`Timeout::start`]: false unconditionally when inactive,
    /// otherwise true exactly when the bound unit's raw counter strictly
    /// exceeds `check_ms * 17` ticks. The 16-bit counter wraps, so a
    /// watchdog held across more ticks than the counter can represent may
    /// silently miss a timeout.
    pub fn is_timeout_met(&self, ctx: &SramContext, check_ms: u16) -> (r: bool)
        requires
            self.wf(),
        ensures
            r == timeout_met(
                self.spec_active(),
                ctx.timers()[unit_index(self.spec_unit())].counter,
                check_ms,
            ),
    {
        if !self.active {
            return false;
        }
        let counter: u16 = match self.unit {
            TimerSelector::Disabled => 0,
            TimerSelector::T0 => ctx.t0.counter,
            TimerSelector::T1 => ctx.t1.counter,
            TimerSelector::T2 => ctx.t2.counter,
            TimerSelector::T3 => ctx.t3.counter,
        };
        proof {
            assert(check_ms as int * TICKS_PER_MS as int <= 0xFFFF * 17) by (nonlinear_arith)
                requires
                    check_ms as int <= 0xFFFF,
                    TICKS_PER_MS as int == 17,
            ;
        }
        (check_ms as u32) * (TICKS_PER_MS as u32) < counter as u32
    }

    /// Destroys this watchdog and releases the watchdog lock, so a new
    /// watchdog can be constructed. The bound hardware timer is left
    /// running until reconfigured.
    pub fn release(self, ctx: &mut SramContext)
        ensures
            *final(ctx) == old(ctx).after_watchdog_release(),
            !final(ctx).watchdog_locked(),
            final(ctx).timer_selector() == old(ctx).timer_selector(),
            final(ctx).media_locked() == old(ctx).media_locked(),
            final(ctx).timers() == old(ctx).timers(),
    {
        ctx.watchdog_held = false;
    }
}

/// Exclusive ownership of the save-memory resource. At most one guard
/// exists at a time; its only operation is releasing the lock. Obtained
/// only through [`lock_media`].
pub struct MediaGuard {
    token: (),
}

impl MediaGuard {
    /// Destroys this guard and releases the media lock, so the lock can
    /// be acquired again.
    pub fn release(self, ctx: &mut SramContext)
        ensures
            *final(ctx) == old(ctx).after_media_release(),
            !final(ctx).media_locked(),
            final(ctx).timer_selector() == old(ctx).timer_selector(),
            final(ctx).watchdog_locked() == old(ctx).watchdog_locked(),
            final(ctx).timers() == old(ctx).timers(),
    {
        ctx.media_held = false;
    }
}

/// Tries to obtain the exclusive lock for save-memory operations by a
/// non-blocking try-acquire, keeping operations on save-memory types with
/// complex state from interfering with each other.
///
/// Fails with [`Error::MediaInUse`] exactly when the lock is already
/// held. The media lock is independent of the watchdog lock: holding one
/// confers no claim on the other.
pub fn lock_media(ctx: &mut SramContext) -> (r: Result<MediaGuard, Error>)
    ensures
        old(ctx).media_locked() ==> r == Err::<MediaGuard, Error>(Error::MediaInUse)
            && *final(ctx) == *old(ctx),
        !old(ctx).media_locked() ==> {
            &&& r is Ok
            &&& *final(ctx) == old(ctx).after_media_acquire()
            &&& final(ctx).media_locked()
            &&& final(ctx).timer_selector() == old(ctx).timer_selector()
            &&& final(ctx).watchdog_locked() == old(ctx).watchdog_locked()
            &&& final(ctx).timers() == old(ctx).timers()
        },
{
    if ctx.media_held {
        return Err(Error::MediaInUse);
    }
    ctx.media_held = true;
    Ok(MediaGuard { token: () })
}

/// Registering timer unit `id` (0-3) selects exactly that unit, touching
/// nothing else, so a watchdog constructed afterwards snapshots
/// `selector_for(id)` and is active and bound to unit `id` (by
/// [`Timeout::new`]'s contract). An out-of-range id is excluded by
/// [`set_timer_for_timeout`]'s precondition.
pub proof fn registered_watchdog_is_active(c: SramContext, id: u8)
    requires
        id < 4,
    ensures
        c.after_register(id).timer_selector() == selector_for(id),
        selector_for(id) != TimerSelector::Disabled,
        unit_index(selector_for(id)) == id as int,
        c.after_register(id).watchdog_locked() == c.watchdog_locked(),
        c.after_register(id).media_locked() == c.media_locked(),
        c.after_register(id).timers() == c.timers(),
{
}

/// After the timeout is disabled the selector is `Disabled` and nothing
/// else changes, so a watchdog constructed afterwards is inactive (by
/// [`Timeout::new`]'s contract); an inactive watchdog reports no timeout
/// for any counter value and any threshold, and its `start` leaves the
/// context untouched (by [`Timeout::is_timeout_met`]'s and
/// [`Timeout::start`]'s contracts).
pub proof fn disabled_watchdog_is_inert(c: SramContext)
    ensures
        c.after_disable().timer_selector() == TimerSelector::Disabled,
        c.after_disable().watchdog_locked() == c.watchdog_locked(),
        c.after_disable().media_locked() == c.media_locked(),
        c.after_disable().timers() == c.timers(),
        forall|counter: u16, check_ms: u16| !timeout_met(false, counter, check_ms),
{
}

/// At most one watchdog exists at a time: a successful construction sets
/// the watchdog flag, so while the watchdog is alive a second
/// [`Timeout::new`] is refused with `MediaInUse` (by its contract);
/// releasing the first restores the context exactly as it was, the media
/// lock untouched throughout, so construction succeeds again.
pub proof fn watchdog_lock_exclusive(c: SramContext)
    requires
        !c.watchdog_locked(),
    ensures
        c.after_watchdog_acquire().watchdog_locked(),
        c.after_watchdog_acquire().media_locked() == c.media_locked(),
        c.after_watchdog_acquire().timer_selector() == c.timer_selector(),
        c.after_watchdog_acquire().after_watchdog_release() == c,
        !c.after_watchdog_acquire().after_watchdog_release().watchdog_locked(),
{
}

/// At most one media guard exists at a time, with the same contention and
/// release behavior as the watchdog lock but on an independent lock
/// instance: acquisition sets only the media flag, so while the guard is
/// alive a second [`lock_media`] is refused with `MediaInUse` (by its
/// contract), the watchdog lock untouched throughout; releasing restores
/// the context exactly as it was, so acquisition succeeds again.
pub proof fn media_lock_exclusive(c: SramContext)
    requires
        !c.media_locked(),
    ensures
        c.after_media_acquire().media_locked(),
        c.after_media_acquire().watchdog_locked() == c.watchdog_locked(),
        c.after_media_acquire().timer_selector() == c.timer_selector(),
        c.after_media_acquire().after_media_release() == c,
        !c.after_media_acquire().after_media_release().media_locked(),
{
}

/// Starting an active watchdog always leaves the bound unit with its
/// counter reset to zero and its control register armed (prescaler /1024,
/// enabled), leaves every other unit and the rest of the context as they
/// were, and is idempotent: starting again in succession leaves the very
/// same state.
pub proof fn start_resets_and_arms(c: SramContext, s: TimerSelector)
    requires
        s != TimerSelector::Disabled,
    ensures
        c.after_start(s).timers() == c.timers().update(
            unit_index(s),
            (TimerUnit { counter: 0, control: CONTROL_ARMED }),
        ),
        c.after_start(s).timers()[unit_index(s)] == (TimerUnit {
            counter: 0,
            control: CONTROL_ARMED,
        }),
        forall|i: int|
            0 <= i < 4 && i != unit_index(s) ==> c.after_start(s).timers()[i] == c.timers()[i],
        c.after_start(s).after_start(s) == c.after_start(s),
        c.after_start(s).timer_selector() == c.timer_selector(),
        c.after_start(s).watchdog_locked() == c.watchdog_locked(),
        c.after_start(s).media_locked() == c.media_locked(),
{
    assert(c.after_start(s).timers() =~= c.timers().update(
        unit_index(s),
        TimerUnit { counter: 0, control: CONTROL_ARMED },
    ));
}

/// Every context has exactly four timer units.
pub proof fn timer_unit_count(c: SramContext)
    ensures
        c.timers().len() == 4,
{
}

} // verus!
