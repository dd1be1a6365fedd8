//! The PWM engine: from a brightness vector to the pin and timer actions of
//! one refresh cycle.
//!
//! A cycle visits the channels in the fixed order red, green, blue and gives
//! each the same slice of time, `LEVELS` ticks. Within its slice a channel is
//! high for as many ticks as its level says and low for the rest. The length
//! of a tick follows from the refresh rate, which the driver reads anew each
//! time it starts a hold.

use vstd::prelude::*;
use vstd::arithmetic::div_mod::{lemma_div_denominator, lemma_fundamental_div_mod, lemma_div_pos_is_pos};
use crate::{CHANNELS, LEVELS, MICROS_PER_SECOND};

verus! {

/// One thing the engine asks its driver to do.
#[derive(Clone, Copy, Debug, PartialEq, Eq, Structural)]
pub enum Action {
    /// Drive the channel with this index high.
    High(usize),
    /// Wait for this many ticks, each as long as the refresh rate says at the
    /// moment the wait begins.
    Hold(u64),
    /// Drive the channel with this index low.
    Low(usize),
}

/// Length of one tick in microseconds at a refresh rate: a second shared out
/// evenly over the channels and the levels of each, rounded down.
pub open spec fn frame_tick(frame_rate: int) -> int
    recommends
        frame_rate > 0,
{
    MICROS_PER_SECOND as int / (CHANNELS * frame_rate * LEVELS)
}

/// Microseconds for which a channel at `level` is held high in its slice.
pub open spec fn on_time(level: int, frame_rate: int) -> int {
    level * frame_tick(frame_rate)
}

/// Microseconds for which a channel at `level` is held low in its slice.
pub open spec fn off_time(level: int, frame_rate: int) -> int {
    (LEVELS - level) * frame_tick(frame_rate)
}

/// Microseconds of a whole cycle at one refresh rate: the high and the low
/// time of each channel, six durations in all.
pub open spec fn cycle_time(levels: Seq<u32>, frame_rate: int) -> int
    recommends
        levels.len() == CHANNELS,
{
    on_time(levels[0] as int, frame_rate) + off_time(levels[0] as int, frame_rate)
        + on_time(levels[1] as int, frame_rate) + off_time(levels[1] as int, frame_rate)
        + on_time(levels[2] as int, frame_rate) + off_time(levels[2] as int, frame_rate)
}

/// A brightness vector that the engine can play: one level per channel, none
/// above `LEVELS`. (The top value `LEVELS` itself is one step brighter than
/// the quantizer ever asks for; the engine plays it as fully on.)
pub open spec fn playable(levels: Seq<u32>) -> bool {
    &&& levels.len() == CHANNELS
    &&& forall|i: int| 0 <= i < levels.len() ==> #[trigger] levels[i] <= LEVELS
}

/// The actions of one channel's slice: high, hold and low where the level is
/// above zero, then a hold for the rest of the slice where there is a rest.
pub open spec fn slice_actions(led: usize, level: int) -> Seq<Action> {
    let lit = if level > 0 {
        seq![Action::High(led), Action::Hold(level as u64), Action::Low(led)]
    } else {
        Seq::<Action>::empty()
    };
    let dark = if level < LEVELS {
        seq![Action::Hold((LEVELS - level) as u64)]
    } else {
        Seq::<Action>::empty()
    };
    lit + dark
}

/// The actions of the first `n` slices of a cycle, in channel order.
pub open spec fn sweep_actions(levels: Seq<u32>, n: nat) -> Seq<Action>
    recommends
        n <= levels.len(),
    decreases n,
{
    if n == 0 {
        Seq::<Action>::empty()
    } else {
        sweep_actions(levels, (n - 1) as nat) + slice_actions(
            (n - 1) as usize,
            levels[n - 1] as int,
        )
    }
}

/// The actions of one whole cycle.
pub open spec fn cycle_actions(levels: Seq<u32>) -> Seq<Action> {
    sweep_actions(levels, CHANNELS as nat)
}

/// Microseconds that one action takes at a refresh rate: a hold takes its
/// ticks, driving a pin takes none.
pub open spec fn action_time(action: Action, frame_rate: int) -> int {
    match action {
        Action::Hold(ticks) => on_time(ticks as int, frame_rate),
        _ => 0,
    }
}

/// Microseconds that a sequence of actions takes when the refresh rate stays
/// the same throughout.
pub open spec fn plan_time(actions: Seq<Action>, frame_rate: int) -> int
    decreases actions.len(),
{
    if actions.len() == 0 {
        0
    } else {
        plan_time(actions.drop_last(), frame_rate) + action_time(actions.last(), frame_rate)
    }
}

/// The engine's state: the brightness vector that the running cycle plays.
#[derive(Clone, Copy, Debug)]
pub struct Rgb {
    levels: [u32; 3],
}

impl View for Rgb {
    type V = Seq<u32>;

    closed spec fn view(&self) -> Seq<u32> {
        self.levels@
    }
}

impl Rgb {
    /// The engine holds a playable vector at all times.
    #[verifier::type_invariant]
    spec fn inv(&self) -> bool {
        playable(self.levels@)
    }

    /// The engine holds a playable vector.
    pub open spec fn wf(&self) -> bool {
        playable(self@)
    }

    /// An engine with every channel dark.
    pub fn new() -> (rgb: Self)
        ensures
            rgb.wf(),
            rgb@ == seq![0u32, 0u32, 0u32],
    {
        let rgb = Rgb { levels: [0, 0, 0] };
        assert(rgb.levels@ =~= seq![0u32, 0u32, 0u32]);
        rgb
    }

    /// The vector that the running cycle plays.
    pub fn levels(&self) -> (levels: [u32; 3])
        ensures
            levels@ == self@,
            self.wf(),
    {
        proof {
            use_type_invariant(self);
        }
        self.levels
    }

    /// Length of one tick in microseconds at a refresh rate.
    pub fn frame_tick_time(frame_rate: u64) -> (tick: u64)
        requires
            frame_rate > 0,
        ensures
            tick == frame_tick(frame_rate as int),
    {
        let slots: u64 = (CHANNELS as u64) * (LEVELS as u64);
        proof {
            lemma_div_denominator(MICROS_PER_SECOND as int, slots as int, frame_rate as int);
            assert(CHANNELS * frame_rate * LEVELS == slots * frame_rate) by (nonlinear_arith)
                requires
                    slots == CHANNELS * LEVELS,
            ;
        }
        // Dividing in two steps gives the same quotient as dividing by the
        // product, and no rate is large enough to overflow it.
        MICROS_PER_SECOND / slots / frame_rate
    }

    /// Microseconds that `level` ticks take at a refresh rate.
    pub fn tick_time(level: u64, frame_rate: u64) -> (micros: u64)
        requires
            frame_rate > 0,
            level * frame_tick(frame_rate as int) <= u64::MAX,
        ensures
            micros == on_time(level as int, frame_rate as int),
    {
        let tick = Self::frame_tick_time(frame_rate);
        level * tick
    }

    /// Plans the slice of one channel of the held vector.
    pub fn step(&self, led: usize) -> (actions: Vec<Action>)
        requires
            led < CHANNELS,
        ensures
            self.wf(),
            actions@ == slice_actions(led, self@[led as int] as int),
    {
        proof {
            use_type_invariant(self);
        }
        let level = self.levels[led];
        let mut actions: Vec<Action> = Vec::new();
        if level > 0 {
            actions.push(Action::High(led));
            actions.push(Action::Hold(level as u64));
            actions.push(Action::Low(led));
        }
        let rest = LEVELS - level;
        if rest > 0 {
            actions.push(Action::Hold(rest as u64));
        }
        assert(actions@ =~= slice_actions(led, level as int));
        actions
    }

    /// Starts a cycle: takes a fresh copy of the shared brightness vector,
    /// holds it for the whole cycle, and plans the three slices in channel
    /// order.
    pub fn run(&mut self, levels: [u32; 3]) -> (actions: Vec<Action>)
        requires
            playable(levels@),
        ensures
            final(self)@ == levels@,
            final(self).wf(),
            actions@ == cycle_actions(levels@),
    {
        self.levels = levels;
        let mut actions: Vec<Action> = Vec::new();
        let mut led: usize = 0;
        while led < CHANNELS
            invariant
                led <= CHANNELS,
                self@ == levels@,
                actions@ == sweep_actions(levels@, led as nat),
            decreases CHANNELS - led,
        {
            let mut slice = self.step(led);
            actions.append(&mut slice);
            led += 1;
        }
        actions
    }
}

/// A tick is never negative and never longer than a second, and a cycle's
/// worth of ticks falls short of the cycle's share of a second by less than
/// one microsecond per tick slot.
pub proof fn lemma_frame_tick_bounds(frame_rate: int)
    requires
        frame_rate > 0,
    ensures
        0 <= frame_tick(frame_rate) <= MICROS_PER_SECOND,
        CHANNELS * LEVELS * frame_tick(frame_rate) <= MICROS_PER_SECOND as int / frame_rate,
        CHANNELS * LEVELS * frame_tick(frame_rate) > MICROS_PER_SECOND as int / frame_rate
            - CHANNELS * LEVELS,
{
    let tick = frame_tick(frame_rate);
    let per_cycle = MICROS_PER_SECOND as int / frame_rate;
    assert(CHANNELS * frame_rate * LEVELS == frame_rate * 48) by (nonlinear_arith)
        requires
            CHANNELS == 3,
            LEVELS == 16,
    ;
    lemma_div_denominator(MICROS_PER_SECOND as int, frame_rate, 48);
    assert(tick == per_cycle / 48);
    lemma_div_pos_is_pos(MICROS_PER_SECOND as int, frame_rate);
    assert(per_cycle <= MICROS_PER_SECOND) by (nonlinear_arith)
        requires
            per_cycle == MICROS_PER_SECOND as int / frame_rate,
            frame_rate >= 1,
    ;
    assert(CHANNELS * LEVELS * tick == 48 * tick) by (nonlinear_arith)
        requires
            CHANNELS == 3,
            LEVELS == 16,
    ;
    assert(CHANNELS * LEVELS == 48);
}

/// A hold of at most `LEVELS` ticks fits in a `u64` at every refresh rate.
pub proof fn lemma_hold_fits(level: int, frame_rate: int)
    requires
        0 <= level <= LEVELS,
        frame_rate > 0,
    ensures
        0 <= on_time(level, frame_rate) <= LEVELS * MICROS_PER_SECOND,
        on_time(level, frame_rate) <= u64::MAX,
{
    let tick = frame_tick(frame_rate);
    lemma_frame_tick_bounds(frame_rate);
    assert(0 <= level * tick <= 16 * 1_000_000) by (nonlinear_arith)
        requires
            0 <= level <= 16,
            0 <= tick <= 1_000_000,
    ;
}

/// Cycle-time invariance: at a fixed refresh rate the six durations of a cycle
/// add up to `CHANNELS * LEVELS` ticks, whatever the levels are. That sum is
/// the cycle's share of a second, `MICROS_PER_SECOND / frame_rate`, short by
/// less than one microsecond per tick slot, which is what rounding the tick
/// down costs.
pub proof fn lemma_cycle_time_ignores_levels(levels: Seq<u32>, frame_rate: int)
    requires
        levels.len() == CHANNELS,
        frame_rate > 0,
    ensures
        cycle_time(levels, frame_rate) == CHANNELS * LEVELS * frame_tick(frame_rate),
        MICROS_PER_SECOND as int / frame_rate - CHANNELS * LEVELS < cycle_time(levels, frame_rate)
            <= MICROS_PER_SECOND as int / frame_rate,
{
    let tick = frame_tick(frame_rate);
    lemma_slice_time(levels[0] as int, frame_rate);
    lemma_slice_time(levels[1] as int, frame_rate);
    lemma_slice_time(levels[2] as int, frame_rate);
    assert(LEVELS * tick + LEVELS * tick + LEVELS * tick == CHANNELS * LEVELS * tick)
        by (nonlinear_arith)
        requires
            CHANNELS == 3,
    ;
    lemma_frame_tick_bounds(frame_rate);
}

/// Where the tick divides the cycle's share of a second without remainder,
/// the six durations add up to exactly `MICROS_PER_SECOND / frame_rate`.
pub proof fn lemma_cycle_time_exact(levels: Seq<u32>, frame_rate: int)
    requires
        levels.len() == CHANNELS,
        frame_rate > 0,
        (MICROS_PER_SECOND as int / frame_rate) % ((CHANNELS * LEVELS) as int) == 0,
    ensures
        cycle_time(levels, frame_rate) == MICROS_PER_SECOND as int / frame_rate,
{
    let slots = (CHANNELS * LEVELS) as int;
    let per_cycle = MICROS_PER_SECOND as int / frame_rate;
    lemma_cycle_time_ignores_levels(levels, frame_rate);
    assert(CHANNELS * frame_rate * LEVELS == frame_rate * slots) by (nonlinear_arith)
        requires
            slots == CHANNELS * LEVELS,
    ;
    lemma_div_denominator(MICROS_PER_SECOND as int, frame_rate, slots);
    lemma_fundamental_div_mod(per_cycle, slots);
}

/// The high and the low time of one slice add up to `LEVELS` ticks.
pub proof fn lemma_slice_time(level: int, frame_rate: int)
    ensures
        on_time(level, frame_rate) + off_time(level, frame_rate) == LEVELS * frame_tick(
            frame_rate,
        ),
{
    let tick = frame_tick(frame_rate);
    assert(level * tick + (LEVELS - level) * tick == LEVELS * tick) by (nonlinear_arith);
}

/// Appending one action adds its time.
proof fn lemma_plan_time_push(actions: Seq<Action>, action: Action, frame_rate: int)
    ensures
        plan_time(actions.push(action), frame_rate) == plan_time(actions, frame_rate)
            + action_time(action, frame_rate),
{
    assert(actions.push(action).drop_last() =~= actions);
}

/// The time of two plans played one after the other is the sum of their times.
proof fn lemma_plan_time_concat(first: Seq<Action>, second: Seq<Action>, frame_rate: int)
    ensures
        plan_time(first + second, frame_rate) == plan_time(first, frame_rate) + plan_time(
            second,
            frame_rate,
        ),
    decreases second.len(),
{
    if second.len() == 0 {
        assert(first + second =~= first);
    } else {
        lemma_plan_time_concat(first, second.drop_last(), frame_rate);
        assert((first + second).drop_last() =~= first + second.drop_last());
    }
}

/// The planned slice of a channel takes the channel's high time and low time,
/// `LEVELS` ticks together.
pub proof fn lemma_slice_plan_time(led: usize, level: int, frame_rate: int)
    requires
        0 <= level <= LEVELS,
    ensures
        plan_time(slice_actions(led, level), frame_rate) == on_time(level, frame_rate) + off_time(
            level,
            frame_rate,
        ),
        plan_time(slice_actions(led, level), frame_rate) == LEVELS * frame_tick(frame_rate),
{
    let none = Seq::<Action>::empty();
    let lit = none.push(Action::High(led)).push(Action::Hold(level as u64)).push(Action::Low(led));
    let rest = Action::Hold((LEVELS - level) as u64);
    lemma_plan_time_push(none, Action::High(led), frame_rate);
    lemma_plan_time_push(none.push(Action::High(led)), Action::Hold(level as u64), frame_rate);
    lemma_plan_time_push(
        none.push(Action::High(led)).push(Action::Hold(level as u64)),
        Action::Low(led),
        frame_rate,
    );
    if level > 0 && level < LEVELS {
        lemma_plan_time_push(lit, rest, frame_rate);
        assert(slice_actions(led, level) =~= lit.push(rest));
    } else if level > 0 {
        assert(slice_actions(led, level) =~= lit);
    } else {
        lemma_plan_time_push(none, rest, frame_rate);
        assert(slice_actions(led, level) =~= none.push(rest));
    }
    lemma_slice_time(level, frame_rate);
}

/// The plan of a whole cycle takes the six durations of the cycle: at a fixed
/// refresh rate every plan that the engine makes takes the same time,
/// `CHANNELS * LEVELS` ticks.
pub proof fn lemma_cycle_plan_time(levels: Seq<u32>, frame_rate: int)
    requires
        playable(levels),
        frame_rate > 0,
    ensures
        plan_time(cycle_actions(levels), frame_rate) == cycle_time(levels, frame_rate),
        plan_time(cycle_actions(levels), frame_rate) == CHANNELS * LEVELS * frame_tick(frame_rate),
{
    reveal_with_fuel(sweep_actions, 4);
    let red = slice_actions(0, levels[0] as int);
    let green = slice_actions(1, levels[1] as int);
    let blue = slice_actions(2, levels[2] as int);
    assert(cycle_actions(levels) =~= red + green + blue);
    lemma_plan_time_concat(red + green, blue, frame_rate);
    lemma_plan_time_concat(red, green, frame_rate);
    lemma_slice_plan_time(0, levels[0] as int, frame_rate);
    lemma_slice_plan_time(1, levels[1] as int, frame_rate);
    lemma_slice_plan_time(2, levels[2] as int, frame_rate);
    lemma_cycle_time_ignores_levels(levels, frame_rate);
}

/// The two ends of the scale. A channel at level zero is never driven high:
/// its slice is one hold of `LEVELS` ticks. A channel at `LEVELS` is high for
/// its whole slice, with no hold of zero length after it.
pub proof fn lemma_slice_extremes(led: usize, other: usize)
    ensures
        slice_actions(led, 0) == seq![Action::Hold(LEVELS as u64)],
        !slice_actions(led, 0).contains(Action::High(other)),
        slice_actions(led, LEVELS as int) == seq![
            Action::High(led),
            Action::Hold(LEVELS as u64),
            Action::Low(led),
        ],
        forall|level: int|
            0 <= level <= LEVELS ==> !(#[trigger] slice_actions(led, level)).contains(
                Action::Hold(0),
            ),
{
    assert(slice_actions(led, 0) =~= seq![Action::Hold(LEVELS as u64)]);
    assert(slice_actions(led, LEVELS as int) =~= seq![
        Action::High(led),
        Action::Hold(LEVELS as u64),
        Action::Low(led),
    ]);
}

} // verus!
