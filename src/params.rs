//! Simulation parameters: the record that the engine owns and that the
//! interface and scripts read and change.

use vstd::prelude::*;

verus! {

/// Walls reflect waves instead of absorbing them.
pub const REFLECTIVE_BOUNDARY: u32 = 1;

/// The renderer shows average energy instead of amplitude.
pub const ENERGY_VIEW: u32 = 2;

/// The renderer samples the state bilinearly.
pub const BILINEAR_SAMPLING: u32 = 4;

/// A set of flag bits, as the kernel and renderer read them.
#[derive(Clone, Copy, Debug, PartialEq, Eq, Structural)]
pub struct SimulationFlags {
    pub bits: u32,
}

impl SimulationFlags {
    /// No flag set.
    pub fn empty() -> (r: Self)
        ensures
            r.bits == 0,
    {
        SimulationFlags { bits: 0 }
    }

    /// The flags whose bits are `bits`.
    pub fn from_bits(bits: u32) -> (r: Self)
        ensures
            r.bits == bits,
    {
        SimulationFlags { bits }
    }

    pub fn bits(&self) -> (r: u32)
        ensures
            r == self.bits,
    {
        self.bits
    }

    /// Whether every bit of `flag` is set.
    pub fn contains(&self, flag: u32) -> (r: bool)
        ensures
            r == (self.bits & flag == flag),
    {
        self.bits & flag == flag
    }

    /// Sets the bits of `flag`.
    pub fn insert(&mut self, flag: u32)
        ensures
            final(self).bits == old(self).bits | flag,
    {
        self.bits = self.bits | flag;
    }

    /// Clears the bits of `flag`.
    pub fn remove(&mut self, flag: u32)
        ensures
            final(self).bits == old(self).bits & !flag,
    {
        self.bits = self.bits & !flag;
    }

    /// Flips the bits of `flag`.
    pub fn toggle(&mut self, flag: u32)
        ensures
            final(self).bits == old(self).bits ^ flag,
    {
        self.bits = self.bits ^ flag;
    }

    /// Sets or clears the bits of `flag`.
    pub fn set(&mut self, flag: u32, value: bool)
        ensures
            final(self).bits == if value {
                old(self).bits | flag
            } else {
                old(self).bits & !flag
            },
    {
        if value {
            self.insert(flag);
        } else {
            self.remove(flag);
        }
    }
}

/// An IEEE 754 single-precision value, held as its bit pattern. The engine
/// carries physical quantities through unchanged; arithmetic on them is
/// the GPU's and the host's floating-point code's.
#[derive(Clone, Copy, Debug, PartialEq, Eq, Structural)]
pub struct Binary32 {
    pub bits: u32,
}

/// Basic physical parameters of a run.
#[derive(Clone, Copy, Debug, PartialEq, Eq, Structural)]
pub struct Parameters {
    /// Time step.
    pub dt: Binary32,
    /// Space step.
    pub dx: Binary32,
    /// Wave speed.
    pub v: Binary32,
    /// Reflective boundaries.
    pub reflective_boundary: bool,
}

/// The oscillator that drives the simulation when no audio is fed in.
#[derive(Clone, Copy, Debug, PartialEq, Eq, Structural)]
pub struct Oscillator {
    pub amplitude: Binary32,
    pub frequency: Binary32,
}

/// The mutable record of a run.
#[derive(Clone, Copy, Debug, PartialEq, Eq, Structural)]
pub struct SimulationParameters {
    /// Sub-steps dispatched per frame.
    pub ticks_per_dispatch: u32,
    /// Time steps taken since the start or the last reset.
    pub tick: u64,
    pub running: bool,
    pub flags: SimulationFlags,
    /// Free 32-bit value that scripts set and the kernel reads.
    pub user: u32,
    /// Wave speed.
    pub v: Binary32,
    /// Time step.
    pub dt: Binary32,
    /// Space step.
    pub dx: Binary32,
    pub amplitude: Binary32,
    pub frequency: Binary32,
}

/// The parameters that a run starts with: one sub-step per frame, tick 0,
/// paused, bilinear sampling and the configured boundary, user value 0.
pub open spec fn initial_parameters(parameters: Parameters, oscillator: Oscillator) -> SimulationParameters {
    SimulationParameters {
        ticks_per_dispatch: 1,
        tick: 0,
        running: false,
        flags: SimulationFlags {
            bits: if parameters.reflective_boundary {
                BILINEAR_SAMPLING | REFLECTIVE_BOUNDARY
            } else {
                BILINEAR_SAMPLING
            },
        },
        user: 0,
        v: parameters.v,
        dt: parameters.dt,
        dx: parameters.dx,
        amplitude: oscillator.amplitude,
        frequency: oscillator.frequency,
    }
}

impl SimulationParameters {
    /// The parameters that a run starts with.
    pub fn initial(parameters: &Parameters, oscillator: &Oscillator) -> (r: Self)
        ensures
            r == initial_parameters(*parameters, *oscillator),
    {
        let mut flags = SimulationFlags::from_bits(BILINEAR_SAMPLING);
        if parameters.reflective_boundary {
            flags.insert(REFLECTIVE_BOUNDARY);
        }
        SimulationParameters {
            ticks_per_dispatch: 1,
            tick: 0,
            running: false,
            flags,
            user: 0,
            v: parameters.v,
            dt: parameters.dt,
            dx: parameters.dx,
            amplitude: oscillator.amplitude,
            frequency: oscillator.frequency,
        }
    }
}

} // verus!
