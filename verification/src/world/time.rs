use vstd::arithmetic::div_mod::lemma_fundamental_div_mod;
use vstd::arithmetic::div_mod::lemma_fundamental_div_mod_converse;
use vstd::prelude::*;

verus! {

/// Nanoseconds in one second of real time.
pub const NANOS_PER_SECOND: u64 = 1_000_000_000;

/// Real seconds that one in-game day lasts in the standard configuration.
pub const STANDARD_SECONDS_PER_DAY: u32 = 900;

/// Ticks that make one in-game day in the standard configuration.
pub const STANDARD_TICKS_PER_DAY: u32 = 900;

/// Milliseconds that the tick loop sleeps between two iterations.
pub const SLEEP_MILLIS: u64 = 1;

/// Named segment of the in-game day.
#[derive(Clone, Copy, Debug, PartialEq, Eq, Structural)]
pub enum Phase {
    Dawn,
    Day,
    Dusk,
    Night,
}

/// Phase of the day at `tick`, for a day of `ticks_per_day` ticks.
///
/// Dawn lasts through the first quarter of the day, Day through the first
/// half, Dusk through the third quarter, and Night is the rest. A tick that
/// lies exactly on a boundary belongs to the phase that ends there.
pub open spec fn phase_of(tick: nat, ticks_per_day: nat) -> Phase {
    if tick <= ticks_per_day / 4 {
        Phase::Dawn
    } else if tick <= ticks_per_day / 2 {
        Phase::Day
    } else if tick <= (3 * ticks_per_day) / 4 {
        Phase::Dusk
    } else {
        Phase::Night
    }
}

/// Computes the phase of the day at `tick`.
pub fn phase_at(tick: u32, ticks_per_day: u32) -> (phase: Phase)
    ensures
        phase == phase_of(tick as nat, ticks_per_day as nat),
{
    let dawn_end: u32 = ticks_per_day / 4;
    let day_end: u32 = ticks_per_day / 2;
    let dusk_end: u64 = (3 * (ticks_per_day as u64)) / 4;
    if tick <= dawn_end {
        Phase::Dawn
    } else if tick <= day_end {
        Phase::Day
    } else if (tick as u64) <= dusk_end {
        Phase::Dusk
    } else {
        Phase::Night
    }
}

/// The day starts at Dawn, and where the three boundaries are three
/// different ticks, each boundary tick still belongs to the phase that it
/// closes while the tick after it opens the next phase.
pub proof fn lemma_phase_boundaries(ticks_per_day: nat)
    requires
        ticks_per_day >= 3,
    ensures
        phase_of(0, ticks_per_day) == Phase::Dawn,
        phase_of(ticks_per_day / 4, ticks_per_day) == Phase::Dawn,
        phase_of(ticks_per_day / 4 + 1, ticks_per_day) == Phase::Day,
        phase_of(ticks_per_day / 2, ticks_per_day) == Phase::Day,
        phase_of(ticks_per_day / 2 + 1, ticks_per_day) == Phase::Dusk,
        phase_of((3 * ticks_per_day) / 4, ticks_per_day) == Phase::Dusk,
        phase_of((3 * ticks_per_day) / 4 + 1, ticks_per_day) == Phase::Night,
{
}

/// The phase is decided by the tick alone: the day starts at Dawn, and a
/// later tick of the day never has an earlier phase.
pub proof fn lemma_phase_follows_tick(earlier: nat, later: nat, ticks_per_day: nat)
    requires
        earlier <= later,
    ensures
        phase_of(0, ticks_per_day) == Phase::Dawn,
        phase_rank(phase_of(earlier, ticks_per_day)) <= phase_rank(
            phase_of(later, ticks_per_day),
        ),
{
}

/// Position of a phase within the day.
pub open spec fn phase_rank(phase: Phase) -> nat {
    match phase {
        Phase::Dawn => 0,
        Phase::Day => 1,
        Phase::Dusk => 2,
        Phase::Night => 3,
    }
}

/// Immutable clock configuration.
#[derive(Clone, Copy, Debug, PartialEq, Eq, Structural)]
pub struct ClockConfig {
    /// Real seconds that one in-game day lasts.
    pub real_seconds_per_day: u32,
    /// Ticks that make one in-game day.
    pub ticks_per_day: u32,
}

impl ClockConfig {
    /// A configuration is usable when a day has at least one tick and a tick
    /// lasts at least one nanosecond.
    pub open spec fn is_valid(self) -> bool {
        &&& self.ticks_per_day >= 1
        &&& self.real_seconds_per_day * NANOS_PER_SECOND >= self.ticks_per_day
    }

    /// Real nanoseconds that one tick lasts: the day's length divided by its
    /// number of ticks, rounded down.
    pub open spec fn tick_nanos(self) -> nat {
        ((self.real_seconds_per_day * NANOS_PER_SECOND) / (self.ticks_per_day as int)) as nat
    }

    /// The standard configuration: a day of 900 ticks that lasts 900 seconds.
    pub open spec fn standard_spec() -> ClockConfig {
        ClockConfig {
            real_seconds_per_day: STANDARD_SECONDS_PER_DAY,
            ticks_per_day: STANDARD_TICKS_PER_DAY,
        }
    }

    /// Returns the standard configuration.
    pub fn standard() -> (config: ClockConfig)
        ensures
            config == ClockConfig::standard_spec(),
            config.is_valid(),
            config.tick_nanos() == NANOS_PER_SECOND,
    {
        proof {
            lemma_div_mod_unique(900_000_000_000, 900, 1_000_000_000, 0);
        }
        ClockConfig {
            real_seconds_per_day: STANDARD_SECONDS_PER_DAY,
            ticks_per_day: STANDARD_TICKS_PER_DAY,
        }
    }

    /// Tells whether the configuration is usable.
    pub fn usable(&self) -> (ok: bool)
        ensures
            ok == self.is_valid(),
    {
        self.ticks_per_day >= 1 && (self.real_seconds_per_day as u64) * NANOS_PER_SECOND
            >= self.ticks_per_day as u64
    }

    /// Returns the real nanoseconds that one tick lasts.
    pub fn tick_duration_nanos(&self) -> (nanos: u64)
        requires
            self.is_valid(),
        ensures
            nanos == self.tick_nanos(),
            nanos >= 1,
    {
        proof {
            self.lemma_tick_lasts();
        }
        let day_nanos: u64 = (self.real_seconds_per_day as u64) * NANOS_PER_SECOND;
        day_nanos / (self.ticks_per_day as u64)
    }

    /// In a usable configuration a tick lasts at least one nanosecond and no
    /// longer than a 64-bit count of nanoseconds can say.
    pub proof fn lemma_tick_lasts(self)
        requires
            self.is_valid(),
        ensures
            1 <= self.tick_nanos() <= u64::MAX,
    {
        let day_nanos = self.real_seconds_per_day * NANOS_PER_SECOND;
        lemma_fundamental_div_mod(day_nanos, self.ticks_per_day as int);
        let nanos = day_nanos / (self.ticks_per_day as int);
        if nanos <= 0 {
            assert((self.ticks_per_day as int) * nanos <= 0) by (nonlinear_arith)
                requires
                    nanos <= 0,
                    self.ticks_per_day >= 1,
            ;
        }
        vstd::arithmetic::div_mod::lemma_div_is_ordered_by_denominator(
            day_nanos,
            1,
            self.ticks_per_day as int,
        );
    }
}

/// A point of in-game time.
#[derive(Clone, Copy, Debug, PartialEq, Eq, Structural)]
pub struct GameTime {
    /// Tick within the day.
    pub tick: u32,
    /// Day, counted from 1.
    pub day: u32,
    /// Phase of the day at `tick`.
    pub phase: Phase,
}

/// The time that lies `ticks` ticks after tick 0 of day 0.
pub open spec fn time_at(ticks: nat, ticks_per_day: nat) -> GameTime {
    GameTime {
        tick: (ticks % ticks_per_day) as u32,
        day: (ticks / ticks_per_day) as u32,
        phase: phase_of(ticks % ticks_per_day, ticks_per_day),
    }
}

impl GameTime {
    /// The time at which a simulation starts: dawn of the first day.
    pub open spec fn start_spec() -> GameTime {
        GameTime { tick: 0, day: 1, phase: Phase::Dawn }
    }

    /// A time is valid for a day of `ticks_per_day` ticks when its tick lies
    /// within the day, its day is at least 1 and its phase is the one that
    /// the tick decides.
    pub open spec fn is_valid(self, ticks_per_day: nat) -> bool {
        &&& self.tick < ticks_per_day
        &&& self.day >= 1
        &&& self.phase == phase_of(self.tick as nat, ticks_per_day)
    }

    /// Ticks that have passed since tick 0 of day 0.
    pub open spec fn absolute_tick(self, ticks_per_day: nat) -> nat {
        self.day as nat * ticks_per_day + self.tick as nat
    }

    /// The time `ticks` ticks after this one.
    pub open spec fn advanced(self, ticks: nat, ticks_per_day: nat) -> GameTime {
        time_at(self.absolute_tick(ticks_per_day) + ticks, ticks_per_day)
    }

    /// Whether the day counter can hold the day that lies `ticks` ticks after
    /// this time.
    pub open spec fn can_advance(self, ticks: nat, ticks_per_day: nat) -> bool {
        (self.absolute_tick(ticks_per_day) + ticks) / ticks_per_day <= u32::MAX
    }

    /// Creates the time at which a simulation starts.
    pub fn new() -> (time: GameTime)
        ensures
            time == GameTime::start_spec(),
    {
        GameTime { tick: 0, day: 1, phase: Phase::Dawn }
    }

    /// Tells whether the time is valid for `config`.
    pub fn valid_for(&self, config: &ClockConfig) -> (ok: bool)
        ensures
            ok == self.is_valid(config.ticks_per_day as nat),
    {
        self.tick < config.ticks_per_day && self.day >= 1 && self.phase == phase_at(
            self.tick,
            config.ticks_per_day,
        )
    }

    /// Advances the time by one tick: the tick after the last one of a day is
    /// tick 0 of the next day, and the phase follows the new tick.
    pub fn tick_once(self, config: &ClockConfig) -> (next: GameTime)
        requires
            config.is_valid(),
            self.is_valid(config.ticks_per_day as nat),
            self.can_advance(1, config.ticks_per_day as nat),
        ensures
            next == self.advanced(1, config.ticks_per_day as nat),
            next.is_valid(config.ticks_per_day as nat),
            next.absolute_tick(config.ticks_per_day as nat) == self.absolute_tick(
                config.ticks_per_day as nat,
            ) + 1,
    {
        proof {
            lemma_single_tick(self, config.ticks_per_day as nat);
        }
        let mut tick: u32 = self.tick + 1;
        let mut day: u32 = self.day;
        if tick == config.ticks_per_day {
            day = day + 1;
            tick = 0;
        }
        GameTime { tick, day, phase: phase_at(tick, config.ticks_per_day) }
    }
}

/// A quotient and a remainder that recompose a number are its quotient and
/// remainder.
proof fn lemma_div_mod_unique(x: nat, d: nat, q: nat, r: nat)
    requires
        d > 0,
        r < d,
        x == q * d + r,
    ensures
        x / d == q,
        x % d == r,
{
    lemma_fundamental_div_mod_converse(x as int, d as int, q as int, r as int);
}

/// A valid time is the time at its own absolute tick.
pub proof fn lemma_valid_time_is_time_at(time: GameTime, ticks_per_day: nat)
    requires
        time.is_valid(ticks_per_day),
    ensures
        time == time_at(time.absolute_tick(ticks_per_day), ticks_per_day),
        time == time.advanced(0, ticks_per_day),
{
    lemma_div_mod_unique(
        time.absolute_tick(ticks_per_day),
        ticks_per_day,
        time.day as nat,
        time.tick as nat,
    );
}

/// The time at an absolute tick of day 1 or later is valid and lies at that
/// absolute tick, as long as the day counter can hold its day.
pub proof fn lemma_time_at_is_valid(ticks: nat, ticks_per_day: nat)
    requires
        ticks_per_day >= 1,
        ticks >= ticks_per_day,
        ticks / ticks_per_day <= u32::MAX,
        ticks_per_day <= u32::MAX,
    ensures
        time_at(ticks, ticks_per_day).is_valid(ticks_per_day),
        time_at(ticks, ticks_per_day).absolute_tick(ticks_per_day) == ticks,
{
    lemma_fundamental_div_mod(ticks as int, ticks_per_day as int);
    let q = ticks / ticks_per_day;
    let r = ticks % ticks_per_day;
    assert(q >= 1) by {
        if q == 0 {
            assert((ticks_per_day as int) * 0 == 0);
        }
    }
    assert(ticks_per_day * q == q * ticks_per_day) by (nonlinear_arith);
}

/// One tick moves the tick forward by one modulo the length of the day, and
/// moves the day forward by one exactly when the tick wraps to 0: no tick and
/// no day is skipped.
pub proof fn lemma_single_tick(time: GameTime, ticks_per_day: nat)
    requires
        1 <= ticks_per_day <= u32::MAX,
        time.is_valid(ticks_per_day),
        time.can_advance(1, ticks_per_day),
    ensures
        time.advanced(1, ticks_per_day).is_valid(ticks_per_day),
        time.advanced(1, ticks_per_day).tick == (time.tick + 1) % (ticks_per_day as int),
        time.tick + 1 == ticks_per_day ==> time.advanced(1, ticks_per_day).tick == 0
            && time.advanced(1, ticks_per_day).day == time.day + 1,
        time.tick + 1 < ticks_per_day ==> time.advanced(1, ticks_per_day).tick == time.tick + 1
            && time.advanced(1, ticks_per_day).day == time.day,
        time.advanced(1, ticks_per_day).absolute_tick(ticks_per_day) == time.absolute_tick(
            ticks_per_day,
        ) + 1,
{
    let next = time.absolute_tick(ticks_per_day) + 1;
    if time.tick + 1 == ticks_per_day {
        assert(next == (time.day + 1) * ticks_per_day + 0) by (nonlinear_arith)
            requires
                next == time.day * ticks_per_day + time.tick + 1,
                time.tick + 1 == ticks_per_day,
        ;
        lemma_div_mod_unique(next, ticks_per_day, (time.day + 1) as nat, 0);
        lemma_div_mod_unique((time.tick + 1) as nat, ticks_per_day, 1, 0);
    } else {
        lemma_div_mod_unique(next, ticks_per_day, time.day as nat, (time.tick + 1) as nat);
        lemma_div_mod_unique((time.tick + 1) as nat, ticks_per_day, 0, (time.tick + 1) as nat);
    }
}

/// What the tick loop does after it has looked at the clock.
#[derive(Clone, Copy, Debug, PartialEq, Eq, Structural)]
pub enum LoopAction {
    /// Leave the loop: shutdown was requested.
    Stop,
    /// Nothing to publish: sleep, then look again.
    Sleep,
    /// Replace the shared time by this value in one write, report whether
    /// the write succeeded, then sleep.
    Publish(GameTime),
}

/// State of a tick loop, as contracts see it.
pub struct LoopState {
    /// Configuration that the loop runs with.
    pub config: ClockConfig,
    /// The loop's own current time.
    pub time: GameTime,
    /// Real nanoseconds that have passed and are not yet turned into ticks.
    pub accumulated: nat,
    /// Whether the loop's time holds ticks that no successful write has
    /// published yet.
    pub pending: bool,
}

impl LoopState {
    /// The configuration is usable, the time is valid for it and less than
    /// one tick of real time is waiting.
    pub open spec fn wf(self) -> bool {
        &&& self.config.is_valid()
        &&& self.time.is_valid(self.config.ticks_per_day as nat)
        &&& self.accumulated < self.config.tick_nanos()
    }

    /// Ticks that are due once `elapsed` more nanoseconds have passed.
    pub open spec fn due_ticks(self, elapsed: nat) -> nat {
        (self.accumulated + elapsed) / self.config.tick_nanos()
    }

    /// Whether the day counter can hold the day reached once `elapsed` more
    /// nanoseconds have passed.
    pub open spec fn can_absorb(self, elapsed: nat) -> bool {
        self.time.can_advance(self.due_ticks(elapsed), self.config.ticks_per_day as nat)
    }

    /// The state after `elapsed` more nanoseconds: every whole tick that the
    /// waiting time now holds is taken out of it and added to the time.
    pub open spec fn absorb(self, elapsed: nat) -> LoopState {
        LoopState {
            config: self.config,
            time: self.time.advanced(self.due_ticks(elapsed), self.config.ticks_per_day as nat),
            accumulated: (self.accumulated + elapsed) % self.config.tick_nanos(),
            pending: self.pending || self.due_ticks(elapsed) > 0,
        }
    }

    /// One iteration of the loop: the next state and the action to perform.
    /// A shutdown request ends the loop before anything else happens.
    pub open spec fn wake(self, shutdown: bool, elapsed: nat) -> (LoopState, LoopAction) {
        if shutdown {
            (self, LoopAction::Stop)
        } else if self.absorb(elapsed).pending {
            (self.absorb(elapsed), LoopAction::Publish(self.absorb(elapsed).time))
        } else {
            (self.absorb(elapsed), LoopAction::Sleep)
        }
    }

    /// The state after the write asked for by `Publish` has been tried.
    pub open spec fn written(self, ok: bool) -> LoopState {
        LoopState { pending: self.pending && !ok, ..self }
    }

    /// The state after the loop has seen the real-time increments of
    /// `increments`, one per iteration, with no shutdown request.
    pub open spec fn feed(self, increments: Seq<u64>) -> LoopState
        decreases increments.len(),
    {
        if increments.len() == 0 {
            self
        } else {
            self.absorb(increments[0] as nat).feed(increments.drop_first())
        }
    }
}

/// Sum of a sequence of real-time increments.
pub open spec fn total_elapsed(increments: Seq<u64>) -> nat
    decreases increments.len(),
{
    if increments.len() == 0 {
        0
    } else {
        increments[0] as nat + total_elapsed(increments.drop_first())
    }
}

/// The decisions of the tick loop: it turns elapsed real time into ticks and
/// says when the shared time is to be replaced.
pub struct TickLoop {
    config: ClockConfig,
    time: GameTime,
    accumulated: u64,
    pending: bool,
}

impl View for TickLoop {
    type V = LoopState;

    closed spec fn view(&self) -> LoopState {
        LoopState {
            config: self.config,
            time: self.time,
            accumulated: self.accumulated as nat,
            pending: self.pending,
        }
    }
}

impl TickLoop {
    #[verifier::type_invariant]
    spec fn inv(self) -> bool {
        self@.wf()
    }

    /// Creates the loop state for a loop that starts at `seed` with no real
    /// time waiting; there is none when the configuration is not usable or
    /// the seed is not valid for it.
    pub fn new(config: ClockConfig, seed: GameTime) -> (made: Option<TickLoop>)
        ensures
            made is Some <==> config.is_valid() && seed.is_valid(config.ticks_per_day as nat),
            made matches Some(tick_loop) ==> tick_loop@ == (LoopState {
                config,
                time: seed,
                accumulated: 0,
                pending: false,
            }) && tick_loop@.wf(),
    {
        if config.usable() && seed.valid_for(&config) {
            proof {
                config.lemma_tick_lasts();
            }
            Some(TickLoop { config, time: seed, accumulated: 0, pending: false })
        } else {
            None
        }
    }

    /// Returns the configuration that the loop runs with.
    pub fn config(&self) -> (config: ClockConfig)
        ensures
            config == self@.config,
            config.is_valid(),
    {
        proof {
            use_type_invariant(self);
        }
        self.config
    }

    /// Returns the loop's current time.
    pub fn time(&self) -> (time: GameTime)
        ensures
            time == self@.time,
            time.is_valid(self@.config.ticks_per_day as nat),
    {
        proof {
            use_type_invariant(self);
        }
        self.time
    }

    /// Returns the real nanoseconds that are waiting to become a tick.
    pub fn accumulated_nanos(&self) -> (nanos: u64)
        ensures
            nanos == self@.accumulated,
            nanos < self@.config.tick_nanos(),
    {
        proof {
            use_type_invariant(self);
        }
        self.accumulated
    }

    /// Tells whether the loop holds ticks that are not published yet.
    pub fn is_pending(&self) -> (pending: bool)
        ensures
            pending == self@.pending,
    {
        self.pending
    }

    /// Tells whether the day counter can hold the day that is reached once
    /// `elapsed` more nanoseconds have passed.
    pub fn absorbs(&self, elapsed: u64) -> (ok: bool)
        ensures
            ok == self@.can_absorb(elapsed as nat),
    {
        proof {
            use_type_invariant(self);
        }
        let tick_nanos: u128 = self.config.tick_duration_nanos() as u128;
        let ticks_per_day: u128 = self.config.ticks_per_day as u128;
        let due: u128 = (self.accumulated as u128 + elapsed as u128) / tick_nanos;
        assert(self.time.day * ticks_per_day <= 0xffff_ffff * 0xffff_ffff) by (nonlinear_arith)
            requires
                self.time.day <= 0xffff_ffff,
                ticks_per_day <= 0xffff_ffff,
        ;
        let start: u128 = (self.time.day as u128) * ticks_per_day + self.time.tick as u128;
        (start + due) / ticks_per_day <= 0xffff_ffff
    }

    /// Runs one iteration of the loop after `elapsed` nanoseconds of real
    /// time: takes every whole tick out of the waiting time, advances the
    /// loop's time by one tick for each, and says what to do next.
    pub fn step(&mut self, shutdown: bool, elapsed: u64) -> (action: LoopAction)
        requires
            !shutdown ==> old(self)@.can_absorb(elapsed as nat),
        ensures
            (final(self)@, action) == old(self)@.wake(shutdown, elapsed as nat),
            final(self)@.wf(),
    {
        proof {
            use_type_invariant(&*self);
        }
        if shutdown {
            return LoopAction::Stop;
        }
        let config = self.config;
        let tick_nanos: u64 = config.tick_duration_nanos();
        let ghost ticks_per_day = config.ticks_per_day as nat;
        let ghost start = self.time;
        let ghost total: nat = self.accumulated as nat + elapsed as nat;
        let ghost due: nat = total / (tick_nanos as nat);
        let mut waiting: u128 = self.accumulated as u128 + elapsed as u128;
        let mut time = self.time;
        let mut ticked = false;
        let ghost mut done: nat = 0;
        proof {
            lemma_fundamental_div_mod(total as int, tick_nanos as int);
            assert(0 * (tick_nanos as nat) == 0);
        }
        while waiting >= tick_nanos as u128
            invariant
                config.is_valid(),
                ticks_per_day == config.ticks_per_day,
                tick_nanos == config.tick_nanos(),
                tick_nanos >= 1,
                due == total / (tick_nanos as nat),
                waiting + done * (tick_nanos as nat) == total,
                time.is_valid(ticks_per_day),
                time.absolute_tick(ticks_per_day) == start.absolute_tick(ticks_per_day) + done,
                ticked == (done > 0),
                start.can_advance(due, ticks_per_day),
            decreases waiting,
        {
            proof {
                lemma_next_tick_is_due(total, tick_nanos as nat, done, waiting as nat);
                lemma_can_advance_less(start, done + 1, due, ticks_per_day);
            }
            waiting = waiting - tick_nanos as u128;
            time = time.tick_once(&config);
            ticked = true;
            proof {
                done = done + 1;
            }
        }
        proof {
            assert(total == done * (tick_nanos as nat) + waiting);
            lemma_div_mod_unique(total, tick_nanos as nat, done, waiting as nat);
            lemma_valid_time_is_time_at(time, ticks_per_day);
        }
        self.time = time;
        self.accumulated = waiting as u64;
        self.pending = self.pending || ticked;
        if self.pending {
            LoopAction::Publish(time)
        } else {
            LoopAction::Sleep
        }
    }

    /// Records the outcome of the write asked for by `Publish`: a write that
    /// succeeded leaves nothing pending, a write that failed leaves the ticks
    /// pending so that the next iteration asks for the write again.
    pub fn published(&mut self, ok: bool)
        ensures
            final(self)@ == old(self)@.written(ok),
            final(self)@.wf(),
    {
        proof {
            use_type_invariant(&*self);
        }
        if ok {
            self.pending = false;
        }
    }
}

/// While a whole tick is still waiting, the ticks taken so far are fewer than
/// the ticks that are due, and taking one more keeps the account.
proof fn lemma_next_tick_is_due(total: nat, tick_nanos: nat, done: nat, waiting: nat)
    requires
        tick_nanos >= 1,
        waiting >= tick_nanos,
        waiting + done * tick_nanos == total,
    ensures
        done + 1 <= total / tick_nanos,
        (waiting - tick_nanos) + (done + 1) * tick_nanos == total,
{
    assert((done + 1) * tick_nanos == done * tick_nanos + tick_nanos) by (nonlinear_arith);
    lemma_fundamental_div_mod(total as int, tick_nanos as int);
    let q = total / tick_nanos;
    if q < done + 1 {
        assert(tick_nanos * q + tick_nanos <= tick_nanos * (done + 1)) by (nonlinear_arith)
            requires
                q + 1 <= done + 1,
        ;
        assert(tick_nanos * (done + 1) == (done + 1) * tick_nanos) by (nonlinear_arith);
    }
}

/// A day counter that can hold the day reached after `more` ticks can hold
/// the day reached after fewer.
pub proof fn lemma_can_advance_less(time: GameTime, fewer: nat, more: nat, ticks_per_day: nat)
    requires
        ticks_per_day >= 1,
        fewer <= more,
        time.can_advance(more, ticks_per_day),
    ensures
        time.can_advance(fewer, ticks_per_day),
{
    vstd::arithmetic::div_mod::lemma_div_is_ordered(
        (time.absolute_tick(ticks_per_day) + fewer) as int,
        (time.absolute_tick(ticks_per_day) + more) as int,
        ticks_per_day as int,
    );
}

/// Draining is exact: the ticks taken and the time left waiting account for
/// every nanosecond, less than one tick stays waiting, and the time moves
/// forward by exactly the ticks taken.
pub proof fn lemma_absorb_accounts(state: LoopState, elapsed: nat)
    requires
        state.wf(),
        state.can_absorb(elapsed),
    ensures
        state.absorb(elapsed).wf(),
        state.due_ticks(elapsed) * state.config.tick_nanos() + state.absorb(elapsed).accumulated
            == state.accumulated + elapsed,
        state.absorb(elapsed).time.absolute_tick(state.config.ticks_per_day as nat)
            == state.time.absolute_tick(state.config.ticks_per_day as nat) + state.due_ticks(
            elapsed,
        ),
        state.due_ticks(elapsed) == 0 ==> state.absorb(elapsed).time == state.time,
{
    let tick_nanos = state.config.tick_nanos();
    let ticks_per_day = state.config.ticks_per_day as nat;
    let total = state.accumulated + elapsed;
    state.config.lemma_tick_lasts();
    lemma_fundamental_div_mod(total as int, tick_nanos as int);
    assert(tick_nanos * (total / tick_nanos) == (total / tick_nanos) * tick_nanos)
        by (nonlinear_arith);
    let reached = state.time.absolute_tick(ticks_per_day) + state.due_ticks(elapsed);
    assert(reached >= ticks_per_day) by (nonlinear_arith)
        requires
            reached >= state.time.day * ticks_per_day,
            state.time.day >= 1,
    ;
    lemma_time_at_is_valid(reached, ticks_per_day);
    lemma_valid_time_is_time_at(state.time, ticks_per_day);
}

/// Two increments of real time in a row leave the loop where their sum
/// leaves it.
pub proof fn lemma_absorb_additive(state: LoopState, first: nat, second: nat)
    requires
        state.wf(),
        state.can_absorb(first + second),
    ensures
        state.can_absorb(first),
        state.absorb(first).wf(),
        state.absorb(first).can_absorb(second),
        state.absorb(first).absorb(second) == state.absorb(first + second),
{
    let tick_nanos = state.config.tick_nanos();
    let ticks_per_day = state.config.ticks_per_day as nat;
    state.config.lemma_tick_lasts();
    let total = state.accumulated + first;
    let taken = total / tick_nanos;
    let rest = total % tick_nanos;
    let later = (rest + second) / tick_nanos;
    let left = (rest + second) % tick_nanos;
    lemma_fundamental_div_mod(total as int, tick_nanos as int);
    lemma_fundamental_div_mod((rest + second) as int, tick_nanos as int);
    assert(total + second == (taken + later) * tick_nanos + left) by (nonlinear_arith)
        requires
            total == tick_nanos * taken + rest,
            rest + second == tick_nanos * later + left,
    ;
    lemma_div_mod_unique(total + second, tick_nanos, taken + later, left);
    assert(state.due_ticks(first + second) == taken + later);
    lemma_can_advance_less(state.time, taken, taken + later, ticks_per_day);
    lemma_absorb_accounts(state, first);
}

/// However unevenly real time arrives, the loop ends where it would have
/// ended had all of it arrived at once: the time has moved by every whole
/// tick that the sum holds, and what is left of the sum is waiting.
pub proof fn lemma_feed_is_exact(state: LoopState, increments: Seq<u64>)
    requires
        state.wf(),
        state.can_absorb(total_elapsed(increments)),
    ensures
        state.feed(increments) == state.absorb(total_elapsed(increments)),
        state.feed(increments).wf(),
    decreases increments.len(),
{
    if increments.len() == 0 {
        lemma_absorb_accounts(state, 0);
        state.config.lemma_tick_lasts();
        vstd::arithmetic::div_mod::lemma_small_mod(state.accumulated, state.config.tick_nanos());
        vstd::arithmetic::div_mod::lemma_basic_div(
            state.accumulated as int,
            state.config.tick_nanos() as int,
        );
    } else {
        let first = increments[0] as nat;
        let rest = increments.drop_first();
        lemma_absorb_additive(state, first, total_elapsed(rest));
        lemma_feed_is_exact(state.absorb(first), rest);
    }
}

/// The engine's control state, as contracts see it.
pub struct ClockControl {
    /// Configuration of the engine.
    pub config: ClockConfig,
    /// The value that the shared time holds; none before the first start.
    pub time: Option<GameTime>,
    /// Whether the running loop has been told to end.
    pub shutdown: bool,
}

impl ClockControl {
    /// The time from which a loop started now would run: the shared time
    /// where it holds a valid time, so that a session goes on where it was,
    /// and `initial` otherwise.
    pub open spec fn seed(self, initial: GameTime) -> GameTime {
        match self.time {
            Some(time) => if time.is_valid(self.config.ticks_per_day as nat) {
                time
            } else {
                initial
            },
            None => initial,
        }
    }

    /// The state after a start with `initial`: with a valid seed the
    /// shutdown signal is cleared and the shared time holds the seed; with an
    /// invalid one nothing changes.
    pub open spec fn started(self, initial: GameTime) -> ClockControl {
        if self.seed(initial).is_valid(self.config.ticks_per_day as nat) {
            ClockControl { config: self.config, time: Some(self.seed(initial)), shutdown: false }
        } else {
            self
        }
    }

    /// The state after a stop: the shutdown signal is set.
    pub open spec fn stopped(self) -> ClockControl {
        ClockControl { shutdown: true, ..self }
    }

    /// The state after the loop has replaced the shared time by `time`.
    pub open spec fn published(self, time: GameTime) -> ClockControl {
        ClockControl { time: Some(time), ..self }
    }
}

/// The clock engine as its owner sees it: the shutdown signal and the value
/// of the shared time.
pub struct TimeManager {
    config: ClockConfig,
    time: Option<GameTime>,
    shutdown: bool,
}

impl View for TimeManager {
    type V = ClockControl;

    closed spec fn view(&self) -> ClockControl {
        ClockControl { config: self.config, time: self.time, shutdown: self.shutdown }
    }
}

impl TimeManager {
    #[verifier::type_invariant]
    spec fn inv(self) -> bool {
        self.config.is_valid()
    }

    /// Creates an engine with the standard configuration that has not been
    /// started.
    pub fn new() -> (manager: TimeManager)
        ensures
            manager@ == (ClockControl {
                config: ClockConfig::standard_spec(),
                time: None,
                shutdown: false,
            }),
    {
        TimeManager { config: ClockConfig::standard(), time: None, shutdown: false }
    }

    /// Creates an engine with `config` that has not been started; there is
    /// none when the configuration is not usable.
    pub fn with_config(config: ClockConfig) -> (made: Option<TimeManager>)
        ensures
            made is Some <==> config.is_valid(),
            made matches Some(manager) ==> manager@ == (ClockControl {
                config,
                time: None,
                shutdown: false,
            }),
    {
        if config.usable() {
            Some(TimeManager { config, time: None, shutdown: false })
        } else {
            None
        }
    }

    /// Starts the engine: clears the shutdown signal, seeds the shared time
    /// and hands out the state of the one loop that is to run from the seed.
    /// Nothing changes and nothing is handed out when the seed is not a valid
    /// time.
    pub fn start(&mut self, initial_game_time: GameTime) -> (made: Option<TickLoop>)
        ensures
            final(self)@ == old(self)@.started(initial_game_time),
            made is Some <==> old(self)@.seed(initial_game_time).is_valid(
                old(self)@.config.ticks_per_day as nat,
            ),
            made matches Some(tick_loop) ==> tick_loop@ == (LoopState {
                config: old(self)@.config,
                time: old(self)@.seed(initial_game_time),
                accumulated: 0,
                pending: false,
            }),
    {
        proof {
            use_type_invariant(&*self);
        }
        let config = self.config;
        let seed = match self.time {
            Some(time) => if time.valid_for(&config) {
                time
            } else {
                initial_game_time
            },
            None => initial_game_time,
        };
        let made = TickLoop::new(config, seed);
        if made.is_some() {
            self.shutdown = false;
            self.time = Some(seed);
        }
        made
    }

    /// Tells the running loop to end at its next look at the signal. Doing
    /// so again, or with no loop running, changes nothing more.
    pub fn stop(&mut self)
        ensures
            final(self)@ == old(self)@.stopped(),
    {
        proof {
            use_type_invariant(&*self);
        }
        self.shutdown = true;
    }

    /// Tells whether the loop has been told to end.
    pub fn shutdown_requested(&self) -> (requested: bool)
        ensures
            requested == self@.shutdown,
    {
        self.shutdown
    }

    /// Replaces the shared time by `time` as a whole.
    pub fn publish(&mut self, time: GameTime)
        ensures
            final(self)@ == old(self)@.published(time),
    {
        proof {
            use_type_invariant(&*self);
        }
        self.time = Some(time);
    }

    /// Returns the value of the shared time, if the engine was ever started.
    pub fn time(&self) -> (time: Option<GameTime>)
        ensures
            time == self@.time,
    {
        self.time
    }

    /// Returns the engine's configuration.
    pub fn config(&self) -> (config: ClockConfig)
        ensures
            config == self@.config,
            config.is_valid(),
    {
        proof {
            use_type_invariant(self);
        }
        self.config
    }
}

/// Stopping twice is stopping once, and a loop that sees the signal of a
/// stopped engine ends at once: it publishes nothing and keeps its state.
pub proof fn lemma_stop_ends_loop(control: ClockControl, state: LoopState, elapsed: nat)
    ensures
        control.stopped().stopped() == control.stopped(),
        control.stopped().time == control.time,
        state.wake(control.stopped().shutdown, elapsed) == (state, LoopAction::Stop),
{
}

/// A start clears an earlier stop, and a loop that sees the cleared signal
/// goes on: it never answers with `Stop`.
pub proof fn lemma_start_clears_stop(
    control: ClockControl,
    initial: GameTime,
    state: LoopState,
    elapsed: nat,
)
    requires
        control.seed(initial).is_valid(control.config.ticks_per_day as nat),
    ensures
        !control.stopped().started(initial).shutdown,
        control.stopped().started(initial).time == Some(control.seed(initial)),
        state.wake(control.stopped().started(initial).shutdown, elapsed).1 != LoopAction::Stop,
{
}

} // verus!
