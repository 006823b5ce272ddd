//! The fixed-timestep loop controller: it turns elapsed wall-clock time into
//! a whole number of simulation steps and carries the rest to the next frame.

use vstd::prelude::*;
use vstd::arithmetic::div_mod::lemma_fundamental_div_mod;
use vstd::arithmetic::div_mod::lemma_mod_bound;
use vstd::arithmetic::mul::lemma_mul_is_distributive_add_other_way;

verus! {

/// The controller's state as mathematical integers, all in time units.
pub struct TimestepState {
    /// The last clock reading taken.
    pub current_time: int,
    /// Wall-clock time that has elapsed and is not simulated yet.
    pub accumulator: int,
    /// The simulation time reached.
    pub sim_time: int,
    /// The length of one simulation step.
    pub fixed_dt: int,
    /// The number of simulation steps taken so far.
    pub steps: int,
}

impl TimestepState {
    /// Between frames the accumulator holds less than one step, the
    /// simulation time is a whole number of steps, no more time has been
    /// accounted for than the clock has shown, and a step and a clock
    /// reading fit the clock's range.
    pub open spec fn valid(self) -> bool {
        &&& 0 < self.fixed_dt <= u64::MAX
        &&& 0 <= self.accumulator < self.fixed_dt
        &&& 0 <= self.steps
        &&& self.sim_time == self.steps * self.fixed_dt
        &&& self.sim_time + self.accumulator <= self.current_time <= u64::MAX
    }

    /// The time that passes from the last reading to the reading `new_time`.
    /// A reading earlier than the last one counts as no time at all.
    pub open spec fn elapsed(self, new_time: int) -> int {
        if new_time > self.current_time {
            new_time - self.current_time
        } else {
            0
        }
    }

    /// The number of steps that fall due when the clock reads `new_time`.
    pub open spec fn due(self, new_time: int) -> int {
        (self.accumulator + self.elapsed(new_time)) / self.fixed_dt
    }

    /// The state after the frame whose clock reading is `new_time`.
    pub open spec fn advanced(self, new_time: int) -> TimestepState {
        TimestepState {
            current_time: self.current_time + self.elapsed(new_time),
            accumulator: (self.accumulator + self.elapsed(new_time)) % self.fixed_dt,
            sim_time: self.sim_time + self.due(new_time) * self.fixed_dt,
            fixed_dt: self.fixed_dt,
            steps: self.steps + self.due(new_time),
        }
    }
}

/// A frame keeps the state valid, accounts for every time unit that
/// elapsed either as simulated or as left over, and leaves less than one
/// step in the accumulator.
pub proof fn lemma_advanced(state: TimestepState, new_time: int)
    requires
        state.valid(),
        new_time <= u64::MAX,
    ensures
        state.advanced(new_time).valid(),
        0 <= state.due(new_time),
        state.due(new_time) * state.fixed_dt + state.advanced(new_time).accumulator
            == state.accumulator + state.elapsed(new_time),
        state.advanced(new_time).sim_time + state.advanced(new_time).accumulator
            == state.sim_time + state.accumulator + state.elapsed(new_time),
{
    let total = state.accumulator + state.elapsed(new_time);
    let dt = state.fixed_dt;
    lemma_fundamental_div_mod(total, dt);
    lemma_mod_bound(total, dt);
    assert(0 <= total / dt) by (nonlinear_arith)
        requires
            0 <= total,
            0 < dt,
    ;
    assert(dt * (total / dt) == (total / dt) * dt) by (nonlinear_arith);
    lemma_mul_is_distributive_add_other_way(dt, state.steps, total / dt);
}

/// The fixed-timestep loop controller.
pub struct FixedTimestep {
    current_time: u64,
    accumulator: u64,
    sim_time: u64,
    fixed_dt: u64,
    steps: u64,
}

impl View for FixedTimestep {
    type V = TimestepState;

    closed spec fn view(&self) -> TimestepState {
        TimestepState {
            current_time: self.current_time as int,
            accumulator: self.accumulator as int,
            sim_time: self.sim_time as int,
            fixed_dt: self.fixed_dt as int,
            steps: self.steps as int,
        }
    }
}

impl FixedTimestep {
    /// A controller that starts at the clock reading `now` with nothing
    /// accumulated and nothing simulated, and steps by `fixed_dt`.
    pub fn new(now: u64, fixed_dt: u64) -> (controller: FixedTimestep)
        requires
            fixed_dt > 0,
        ensures
            controller@ == (TimestepState {
                current_time: now as int,
                accumulator: 0,
                sim_time: 0,
                fixed_dt: fixed_dt as int,
                steps: 0,
            }),
            controller@.valid(),
    {
        FixedTimestep { current_time: now, accumulator: 0, sim_time: 0, fixed_dt, steps: 0 }
    }

    /// The last clock reading taken.
    pub fn current_time(&self) -> (t: u64)
        ensures
            t == self@.current_time,
    {
        self.current_time
    }

    /// Wall-clock time that has elapsed and is not simulated yet.
    pub fn accumulator(&self) -> (t: u64)
        ensures
            t == self@.accumulator,
    {
        self.accumulator
    }

    /// The simulation time reached.
    pub fn sim_time(&self) -> (t: u64)
        ensures
            t == self@.sim_time,
    {
        self.sim_time
    }

    /// The length of one simulation step.
    pub fn fixed_dt(&self) -> (t: u64)
        ensures
            t == self@.fixed_dt,
    {
        self.fixed_dt
    }

    /// The number of simulation steps taken so far.
    pub fn steps(&self) -> (n: u64)
        ensures
            n == self@.steps,
    {
        self.steps
    }

    /// Takes the clock reading `new_time` and accounts for the frame: the
    /// time since the last reading joins the accumulator, every whole step
    /// in it is counted as simulated, and the rest stays for the next frame.
    /// Returns the number of steps that fell due; the caller runs the update
    /// routines that many times before it renders.
    pub fn advance(&mut self, new_time: u64) -> (due: u64)
        requires
            old(self)@.valid(),
        ensures
            final(self)@ == old(self)@.advanced(new_time as int),
            final(self)@.valid(),
            due == old(self)@.due(new_time as int),
            due == (old(self)@.accumulator + old(self)@.elapsed(new_time as int)) / old(
                self,
            )@.fixed_dt,
            0 <= final(self)@.accumulator < final(self)@.fixed_dt,
            final(self)@.sim_time == old(self)@.sim_time + due * old(self)@.fixed_dt,
    {
        proof {
            lemma_advanced(self@, new_time as int);
            let after = self@.advanced(new_time as int);
            assert(after.steps <= after.sim_time) by (nonlinear_arith)
                requires
                    after.sim_time == after.steps * after.fixed_dt,
                    after.fixed_dt > 0,
                    after.steps >= 0,
            ;
        }
        let elapsed: u64 = if new_time > self.current_time {
            new_time - self.current_time
        } else {
            0
        };
        let total: u64 = self.accumulator + elapsed;
        let due: u64 = total / self.fixed_dt;
        let rest: u64 = total % self.fixed_dt;
        self.current_time = self.current_time + elapsed;
        self.sim_time = self.sim_time + (total - rest);
        self.accumulator = rest;
        self.steps = self.steps + due;
        due
    }
}

} // verus!
