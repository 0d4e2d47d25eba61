//! The simulator facade: it owns the instruction model and the context the
//! model runs against, and keeps the step and fetch statistics.

use vstd::prelude::*;
use crate::bus::Bus;
use crate::mem::Global;

verus! {

/// Counters since the simulator was made.
#[derive(PartialEq, Eq, Structural, Debug, Clone, Copy)]
pub struct Statistic {
    pub fetch_count: u64,
    pub step_count: u64,
}

impl Default for Statistic {
    fn default() -> (r: Statistic)
        ensures
            r.fetch_count == 0 && r.step_count == 0,
    {
        Statistic { fetch_count: 0, step_count: 0 }
    }
}

impl Statistic {
    pub fn new() -> (r: Statistic)
        ensures
            r.fetch_count == 0,
            r.step_count == 0,
    {
        Statistic { fetch_count: 0, step_count: 0 }
    }
}

/// An instruction model: it decodes and executes one instruction per step,
/// calling back into the context for every memory access.
pub trait Model {
    /// Compact status of a step.
    type StepCode;

    /// Full record of a traced step.
    type StepDetail;

    /// Sets the program counter and clears the architectural state.
    fn reset(&mut self, pc: u32);

    fn step(&mut self, global: &mut Global) -> Self::StepCode;

    fn step_trace(&mut self, global: &mut Global) -> Self::StepDetail;
}

/// A model together with the context it runs against. The step counter is
/// kept here rather than in the context, beyond the model's reach.
pub struct Simulator<M: Model> {
    pub model: M,
    pub global: Global,
    pub step_count: u64,
}

impl<M: Model> Simulator<M> {
    pub fn new(model: M, bus: Bus) -> (r: Simulator<M>)
        ensures
            r.model == model,
            r.global.bus == bus,
            r.global.fetch_count == 0,
            r.step_count == 0,
    {
        Simulator { model, global: Global::new(bus), step_count: 0 }
    }

    pub fn stats(&self) -> (r: Statistic)
        ensures
            r == (Statistic { fetch_count: self.global.fetch_count, step_count: self.step_count }),
    {
        Statistic { fetch_count: self.global.fetch_count, step_count: self.step_count }
    }

    /// Resets the model to `pc`; the statistics and the bus are kept.
    pub fn reset_core(&mut self, pc: u32)
        ensures
            final(self).global == old(self).global,
            final(self).step_count == old(self).step_count,
    {
        self.model.reset(pc);
    }

    /// Counts the step, then runs the model for one instruction; a step that
    /// fails still counts.
    pub fn step(&mut self) -> (r: M::StepCode)
        requires
            old(self).step_count < u64::MAX,
        ensures
            final(self).step_count == old(self).step_count + 1,
    {
        self.step_count = self.step_count + 1;
        self.model.step(&mut self.global)
    }

    /// As `step`, returning the model's record of the step.
    pub fn step_trace(&mut self) -> (r: M::StepDetail)
        requires
            old(self).step_count < u64::MAX,
        ensures
            final(self).step_count == old(self).step_count + 1,
    {
        self.step_count = self.step_count + 1;
        self.model.step_trace(&mut self.global)
    }

    /// The exit code the bus has latched, if any.
    pub fn is_exited(&self) -> (r: Option<u32>)
        ensures
            r == self.global.bus.exit_code,
    {
        self.global.bus.try_get_exit_code()
    }

    pub fn model(&self) -> (r: &M)
        ensures
            *r == self.model,
    {
        &self.model
    }
}

} // verus!
