//! The scripting bridge's capability table: the operations a script may
//! perform on a copy of the parameters, and the requests it hands back.

use vstd::prelude::*;

use crate::params::{Binary32, SimulationParameters};
use crate::snapshot::{SnapshotRequest, SnapshotType};

verus! {

/// What a script asked for besides parameter changes.
#[derive(Clone, Debug)]
pub struct PostTickResponse {
    /// Clear the state and energy buffers and restart the tick count.
    pub reset: bool,
    /// Snapshots to export, in the order asked.
    pub snapshot: Vec<SnapshotRequest>,
}

impl PostTickResponse {
    /// No reset and no snapshot.
    pub fn new() -> (r: Self)
        ensures
            !r.reset,
            r.snapshot@ == Seq::<SnapshotRequest>::empty(),
    {
        PostTickResponse { reset: false, snapshot: Vec::new() }
    }
}

impl Default for PostTickResponse {
    fn default() -> (r: Self)
        ensures
            !r.reset,
            r.snapshot@ == Seq::<SnapshotRequest>::empty(),
    {
        PostTickResponse::new()
    }
}

/// A value written to the `user` field: an integer keeps its low 32 bits,
/// a floating-point value is stored as the bits of its single-precision
/// form.
#[derive(Clone, Copy, Debug, PartialEq, Eq, Structural)]
pub enum UserValue {
    Int(i64),
    Float(Binary32),
}

/// The operations that a script may perform.
#[derive(Clone, Debug)]
pub enum ScriptCommand {
    Pause,
    Reset,
    SnapshotState(Option<String>),
    SnapshotEnergy(Option<String>),
    SetUser(UserValue),
    SetV(Binary32),
    SetDt(Binary32),
    SetDx(Binary32),
    SetAmplitude(Binary32),
    SetFrequency(Binary32),
}

/// The bits that `user` takes from a value.
pub open spec fn user_bits(u: UserValue) -> u32 {
    match u {
        UserValue::Int(x) => (x as i32) as u32,
        UserValue::Float(f) => f.bits,
    }
}

/// What a script sees and changes during one hook call: a copy of the
/// parameters and the requests made so far.
#[derive(Clone, Debug)]
pub struct ScriptContext {
    pub params: SimulationParameters,
    pub response: PostTickResponse,
}

/// The context after one command.
pub open spec fn commanded(c: ScriptContext, cmd: ScriptCommand) -> (SimulationParameters, bool, Seq<
    SnapshotRequest,
>) {
    let p = c.params;
    let q = c.response.snapshot@;
    let reset = c.response.reset;
    match cmd {
        ScriptCommand::Pause => (SimulationParameters { running: false, ..p }, reset, q),
        ScriptCommand::Reset => (p, true, q),
        ScriptCommand::SnapshotState(n) => (p, reset, q.push((SnapshotType::State, n))),
        ScriptCommand::SnapshotEnergy(n) => (p, reset, q.push((SnapshotType::Energy, n))),
        ScriptCommand::SetUser(u) => (SimulationParameters { user: user_bits(u), ..p }, reset, q),
        ScriptCommand::SetV(x) => (SimulationParameters { v: x, ..p }, reset, q),
        ScriptCommand::SetDt(x) => (SimulationParameters { dt: x, ..p }, reset, q),
        ScriptCommand::SetDx(x) => (SimulationParameters { dx: x, ..p }, reset, q),
        ScriptCommand::SetAmplitude(x) => (SimulationParameters { amplitude: x, ..p }, reset, q),
        ScriptCommand::SetFrequency(x) => (SimulationParameters { frequency: x, ..p }, reset, q),
    }
}

impl ScriptContext {
    /// A context over a copy of `params`, with no request yet.
    pub fn new(params: SimulationParameters) -> (r: Self)
        ensures
            r.params == params,
            !r.response.reset,
            r.response.snapshot@ == Seq::<SnapshotRequest>::empty(),
    {
        ScriptContext { params, response: PostTickResponse::new() }
    }

    /// Performs one command.
    pub fn apply(&mut self, cmd: ScriptCommand)
        ensures
            (final(self).params, final(self).response.reset, final(self).response.snapshot@)
                == commanded(*old(self), cmd),
    {
        match cmd {
            ScriptCommand::Pause => self.params.running = false,
            ScriptCommand::Reset => self.response.reset = true,
            ScriptCommand::SnapshotState(n) => self.response.snapshot.push((SnapshotType::State, n)),
            ScriptCommand::SnapshotEnergy(n) => self.response.snapshot.push(
                (SnapshotType::Energy, n),
            ),
            ScriptCommand::SetUser(u) => {
                self.params.user = match u {
                    UserValue::Int(x) => (x as i32) as u32,
                    UserValue::Float(f) => f.bits,
                };
            },
            ScriptCommand::SetV(x) => self.params.v = x,
            ScriptCommand::SetDt(x) => self.params.dt = x,
            ScriptCommand::SetDx(x) => self.params.dx = x,
            ScriptCommand::SetAmplitude(x) => self.params.amplitude = x,
            ScriptCommand::SetFrequency(x) => self.params.frequency = x,
        }
    }

    /// The tick as a script integer: the `u64` reinterpreted as `i64`.
    pub fn get_tick(&self) -> (r: i64)
        ensures
            r == self.params.tick as i64,
    {
        self.params.tick as i64
    }

    pub fn get_v(&self) -> (r: Binary32)
        ensures
            r == self.params.v,
    {
        self.params.v
    }

    pub fn get_dt(&self) -> (r: Binary32)
        ensures
            r == self.params.dt,
    {
        self.params.dt
    }

    pub fn get_dx(&self) -> (r: Binary32)
        ensures
            r == self.params.dx,
    {
        self.params.dx
    }

    pub fn get_amplitude(&self) -> (r: Binary32)
        ensures
            r == self.params.amplitude,
    {
        self.params.amplitude
    }

    pub fn get_frequency(&self) -> (r: Binary32)
        ensures
            r == self.params.frequency,
    {
        self.params.frequency
    }
}

} // verus!
