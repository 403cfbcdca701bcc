//! The engine's host-side state and the decisions of the per-frame tick
//! loop. The caller owns the GPU: it asks how many sub-steps to run,
//! dispatches each one, reports it done, runs the script hook and hands the
//! outcome back; the engine says what to do with the audio channel and
//! when to clear the buffers.

use vstd::prelude::*;

use crate::config::AudioConfig;
use crate::grid::{plane_size, state_size, zeroed, Grid};
use crate::preprocess::{position, Data, Preprocessor, Scalar};
use crate::params::{Oscillator, Parameters, SimulationParameters, initial_parameters};
use crate::scripting::ScriptContext;
use crate::snapshot::{drained, framed, le_u32, SnapshotQueue, SnapshotRequest, SnapshotType};

verus! {

/// The audio output window: its samples are drained to the output file
/// each time the tick reaches the window's last slot.
pub const OUTPUT_BUFFER_SIZE: u64 = 512;

/// What the audio channel needs after a sub-step's dispatch.
#[derive(Clone, Copy, Debug, PartialEq, Eq, Structural)]
pub enum AudioAction {
    /// Nothing this sub-step.
    Idle,
    /// Copy the output window to staging and write it out.
    Drain,
    /// The input is used up: the run pauses.
    Stop,
}

/// The audio decision for a tick, with `len` input samples: stop when the
/// tick reaches the end of the input, drain at the last slot of each
/// output window before it, nothing past it or without audio.
pub open spec fn audio_decision(len: Option<usize>, tick: u64) -> AudioAction {
    match len {
        None => AudioAction::Idle,
        Some(n) => if n == tick {
            AudioAction::Stop
        } else if n > tick && tick > 0 && tick % 512 == 511 {
            AudioAction::Drain
        } else {
            AudioAction::Idle
        },
    }
}

/// The tick after `t`: one more, wrapping to 0 past `u64::MAX`.
pub open spec fn next_tick(t: u64) -> u64 {
    if t == u64::MAX {
        0
    } else {
        (t + 1) as u64
    }
}

/// The engine's state as the contracts see it.
pub struct SimulationView {
    pub size: Grid,
    /// Samples of the audio input, when an audio channel is attached.
    pub audio_len: Option<usize>,
    pub parameters: SimulationParameters,
    /// Pending snapshot requests, oldest first.
    pub queue: Seq<SnapshotRequest>,
}

/// Where a read-back copies from.
#[derive(Clone, Copy, Debug, PartialEq, Eq, Structural)]
pub struct BufferCopy {
    /// Which buffer: the state buffer or the average-energy buffer.
    pub source: SnapshotType,
    /// Byte offset in the source.
    pub offset: u64,
    /// Bytes copied into the staging buffer.
    pub size: u64,
}

/// The uniform values of one sub-step that are integers; the caller adds
/// the floating-point ones.
#[derive(Clone, Copy, Debug, PartialEq, Eq, Structural)]
pub struct SimulationContext {
    pub width: u32,
    pub height: u32,
    pub window_width: u32,
    pub window_height: u32,
    pub user: u32,
    /// The tick's low 32 bits.
    pub tick: u32,
    pub ticks_per_dispatch: u32,
    pub flags: u32,
}

/// A snapshot to export this frame.
#[derive(Debug)]
pub struct SnapshotJob {
    pub kind: SnapshotType,
    pub name: Option<String>,
    pub copy: BufferCopy,
}

/// The engine's host-side state: the grid, whether audio is attached, the
/// parameters and the snapshot queue.
pub struct Simulation {
    size: Grid,
    audio_len: Option<usize>,
    pub snapshot: SnapshotQueue,
    pub parameters: SimulationParameters,
}

impl View for Simulation {
    type V = SimulationView;

    closed spec fn view(&self) -> SimulationView {
        SimulationView {
            size: self.size,
            audio_len: self.audio_len,
            parameters: self.parameters,
            queue: self.snapshot@,
        }
    }
}

/// Sub-steps that a frame dispatches: none while paused.
pub open spec fn dispatch_count(s: SimulationView) -> int {
    if s.parameters.running {
        s.parameters.ticks_per_dispatch as int
    } else {
        0
    }
}

/// The state after a sub-step's dispatch: the audio decision applied, the
/// tick one further.
pub open spec fn advanced(s: SimulationView) -> SimulationView {
    let p = s.parameters;
    SimulationView {
        parameters: SimulationParameters {
            running: if audio_decision(s.audio_len, p.tick) == AudioAction::Stop {
                false
            } else {
                p.running
            },
            tick: next_tick(p.tick),
            ..p
        },
        ..s
    }
}

/// The state after a script hook: the fields that scripts may write are
/// taken from the script's copy, its snapshot requests are queued, and a
/// reset it asked for restarts the tick when resets are allowed.
pub open spec fn after_script(s: SimulationView, c: ScriptContext, may_reset: bool) -> SimulationView {
    let p = s.parameters;
    let q = c.params;
    let merged = SimulationParameters {
        running: q.running,
        user: q.user,
        v: q.v,
        dt: q.dt,
        dx: q.dx,
        amplitude: q.amplitude,
        frequency: q.frequency,
        ..p
    };
    SimulationView {
        parameters: if may_reset && c.response.reset {
            SimulationParameters { tick: 0, ..merged }
        } else {
            merged
        },
        queue: s.queue + c.response.snapshot@,
        ..s
    }
}

/// The state after a reset of the wave: the tick restarts.
pub open spec fn reset_view(s: SimulationView) -> SimulationView {
    SimulationView { parameters: SimulationParameters { tick: 0, ..s.parameters }, ..s }
}

/// The first `k` sub-steps of a frame; `hooks[i]` is the outcome of the
/// script hook after sub-step `i`, `None` when no script runs.
pub open spec fn sub_steps(s: SimulationView, k: nat, hooks: Seq<Option<ScriptContext>>) -> SimulationView
    decreases k,
{
    if k == 0 {
        s
    } else {
        let t = advanced(sub_steps(s, (k - 1) as nat, hooks));
        if k - 1 < hooks.len() {
            match hooks[k - 1] {
                Some(c) => after_script(t, c, true),
                None => t,
            }
        } else {
            t
        }
    }
}

/// One frame's dispatch call.
pub open spec fn frame(s: SimulationView, hooks: Seq<Option<ScriptContext>>) -> SimulationView {
    sub_steps(s, dispatch_count(s) as nat, hooks)
}

/// Frames run one after another, `runs[i]` holding the hook outcomes of
/// frame `i`.
pub open spec fn frames(s: SimulationView, runs: Seq<Seq<Option<ScriptContext>>>) -> SimulationView
    decreases runs.len(),
{
    if runs.len() == 0 {
        s
    } else {
        frame(frames(s, runs.drop_last()), runs.last())
    }
}

impl Simulation {
    pub open spec fn wf(&self) -> bool {
        self@.size.valid()
    }

    /// A paused run on `size`, with the configured parameters, an audio
    /// input of `audio_len` samples if any, and no snapshot pending.
    pub fn new(
        size: Grid,
        parameters: &Parameters,
        oscillator: &Oscillator,
        audio_len: Option<usize>,
    ) -> (r: Self)
        requires
            size.valid(),
        ensures
            r.wf(),
            r@.size == size,
            r@.audio_len == audio_len,
            r@.parameters == initial_parameters(*parameters, *oscillator),
            r@.queue == Seq::<SnapshotRequest>::empty(),
    {
        Simulation {
            size,
            audio_len,
            snapshot: SnapshotQueue::new(),
            parameters: SimulationParameters::initial(parameters, oscillator),
        }
    }

    pub fn get_size(&self) -> (r: Grid)
        ensures
            r == self@.size,
    {
        self.size
    }

    /// Sub-steps to dispatch this frame.
    pub fn update(&self) -> (r: u32)
        ensures
            r == dispatch_count(self@),
    {
        if self.parameters.running {
            self.parameters.ticks_per_dispatch
        } else {
            0
        }
    }

    /// The integer uniforms of the next sub-step.
    pub fn get_context(&self, window: (u32, u32)) -> (r: SimulationContext)
        ensures
            r.width == self@.size.width,
            r.height == self@.size.height,
            r.window_width == window.0,
            r.window_height == window.1,
            r.user == self@.parameters.user,
            r.tick == self@.parameters.tick as u32,
            r.ticks_per_dispatch == self@.parameters.ticks_per_dispatch,
            r.flags == self@.parameters.flags.bits,
    {
        let p = &self.parameters;
        SimulationContext {
            width: self.size.width,
            height: self.size.height,
            window_width: window.0,
            window_height: window.1,
            user: p.user,
            tick: p.tick as u32,
            ticks_per_dispatch: p.ticks_per_dispatch,
            flags: p.flags.bits,
        }
    }

    /// Records that a sub-step was dispatched: decides what the audio
    /// channel does at this tick, pausing when the input is used up, then
    /// moves to the next tick.
    pub fn finish_sub_step(&mut self) -> (r: AudioAction)
        ensures
            r == audio_decision(old(self)@.audio_len, old(self)@.parameters.tick),
            final(self)@ == advanced(old(self)@),
    {
        let tick = self.parameters.tick;
        let action = match self.audio_len {
            None => AudioAction::Idle,
            Some(n) => if (n as u128) == (tick as u128) {
                AudioAction::Stop
            } else if (n as u128) > (tick as u128) && tick > 0 && tick % OUTPUT_BUFFER_SIZE
                == OUTPUT_BUFFER_SIZE - 1 {
                AudioAction::Drain
            } else {
                AudioAction::Idle
            },
        };
        if action == AudioAction::Stop {
            self.parameters.running = false;
        }
        self.parameters.tick = if tick == u64::MAX {
            0
        } else {
            tick + 1
        };
        assert(self@ =~= advanced(old(self)@));
        action
    }

    /// Takes back what a script hook left: the fields scripts may write,
    /// its snapshot requests and, when `may_reset`, its reset request.
    /// Returns whether the caller must now clear the state and energy
    /// buffers.
    pub fn apply_script(&mut self, script: ScriptContext, may_reset: bool) -> (r: bool)
        ensures
            r == (may_reset && script.response.reset),
            final(self)@ == after_script(old(self)@, script, may_reset),
    {
        let q = script.params;
        self.parameters.running = q.running;
        self.parameters.user = q.user;
        self.parameters.v = q.v;
        self.parameters.dt = q.dt;
        self.parameters.dx = q.dx;
        self.parameters.amplitude = q.amplitude;
        self.parameters.frequency = q.frequency;
        let reset = may_reset && script.response.reset;
        if reset {
            self.parameters.tick = 0;
        }
        self.snapshot.extend(script.response.snapshot);
        assert(self@ =~= after_script(old(self)@, script, may_reset));
        reset
    }

    /// Restarts the wave: the tick goes back to 0. Returns the zero bytes
    /// to write over the whole state buffer.
    pub fn reset_states(&mut self) -> (r: Vec<u8>)
        requires
            old(self).wf(),
        ensures
            final(self)@ == reset_view(old(self)@),
            r@ == Seq::new(
                state_size(old(self)@.size.width as int, old(self)@.size.height as int) as nat,
                |i: int| 0u8,
            ),
    {
        self.parameters.tick = 0;
        let n = self.size.state_bytes();
        assert(self@ =~= reset_view(old(self)@));
        zeroed(n as usize)
    }

    /// The zero bytes to write over the whole average-energy buffer; the
    /// wave itself is left as it is.
    pub fn reset_average_energy(&self) -> (r: Vec<u8>)
        requires
            self.wf(),
        ensures
            r@ == Seq::new(
                plane_size(self@.size.width as int, self@.size.height as int) as nat,
                |i: int| 0u8,
            ),
    {
        let n = self.size.energy_bytes();
        zeroed(n as usize)
    }

    /// The read-back of the plane that the kernel wrote last.
    pub fn stage_state(&self) -> (r: BufferCopy)
        requires
            self.wf(),
        ensures
            r.source == SnapshotType::State,
            r.offset == (self@.parameters.tick % 3) * plane_size(
                self@.size.width as int,
                self@.size.height as int,
            ),
            r.size == plane_size(self@.size.width as int, self@.size.height as int),
    {
        BufferCopy {
            source: SnapshotType::State,
            offset: self.size.state_plane_offset(self.parameters.tick),
            size: self.size.staging_bytes(),
        }
    }

    /// The read-back of the average-energy buffer.
    pub fn stage_energy(&self) -> (r: BufferCopy)
        requires
            self.wf(),
        ensures
            r.source == SnapshotType::Energy,
            r.offset == 0,
            r.size == plane_size(self@.size.width as int, self@.size.height as int),
    {
        BufferCopy { source: SnapshotType::Energy, offset: 0, size: self.size.staging_bytes() }
    }

    /// Takes the oldest pending snapshot, with the copy that reads it back.
    /// Called once per frame, so that at most one read-back stalls it.
    pub fn drain_snapshot(&mut self) -> (r: Option<SnapshotJob>)
        requires
            old(self).wf(),
        ensures
            final(self).wf(),
            final(self)@ == (SimulationView { queue: drained(old(self)@.queue).1, ..old(self)@ }),
            match drained(old(self)@.queue).0 {
                None => r is None,
                Some(req) => r matches Some(j) && j.kind == req.0 && j.name == req.1 && j.copy
                    == if req.0 == SnapshotType::State {
                    stage_state_spec(old(self)@)
                } else {
                    stage_energy_spec(old(self)@)
                },
            },
    {
        match self.snapshot.pop() {
            None => {
                assert(self@ =~= (SimulationView { queue: drained(old(self)@.queue).1, ..old(self)@ }));
                None
            },
            Some((kind, name)) => {
                let copy = kind.stage(self);
                assert(self@ =~= (SimulationView { queue: drained(old(self)@.queue).1, ..old(self)@ }));
                Some(SnapshotJob { kind, name, copy })
            },
        }
    }
}

/// The read-back of the state plane that the kernel wrote last.
pub open spec fn stage_state_spec(s: SimulationView) -> BufferCopy {
    BufferCopy {
        source: SnapshotType::State,
        offset: ((s.parameters.tick % 3) * plane_size(s.size.width as int, s.size.height as int)) as u64,
        size: plane_size(s.size.width as int, s.size.height as int) as u64,
    }
}

/// The read-back of the whole average-energy buffer.
pub open spec fn stage_energy_spec(s: SimulationView) -> BufferCopy {
    BufferCopy {
        source: SnapshotType::Energy,
        offset: 0,
        size: plane_size(s.size.width as int, s.size.height as int) as u64,
    }
}

impl SnapshotType {
    /// The read-back that a snapshot of this kind needs.
    pub fn stage(&self, simulation: &Simulation) -> (r: BufferCopy)
        requires
            simulation.wf(),
        ensures
            r == if *self == SnapshotType::State {
                stage_state_spec(simulation@)
            } else {
                stage_energy_spec(simulation@)
            },
    {
        match self {
            SnapshotType::State => simulation.stage_state(),
            SnapshotType::Energy => simulation.stage_energy(),
        }
    }
}

proof fn lemma_sub_steps_tick(s: SimulationView, k: nat, hooks: Seq<Option<ScriptContext>>)
    requires
        s.parameters.tick + k <= u64::MAX,
        forall|i: int| 0 <= i < hooks.len() ==> (#[trigger] hooks[i] matches Some(c) ==> !c.response.reset),
    ensures
        sub_steps(s, k, hooks).parameters.tick == s.parameters.tick + k,
        sub_steps(s, k, hooks).parameters.ticks_per_dispatch == s.parameters.ticks_per_dispatch,
    decreases k,
{
    if k > 0 {
        lemma_sub_steps_tick(s, (k - 1) as nat, hooks);
    }
}

/// While running, a frame whose script hooks ask for no reset advances the
/// tick by exactly `ticks_per_dispatch`, for any value from 1 to 32, even
/// when the run pauses during the frame.
pub proof fn frame_advances_tick_by_ticks_per_dispatch(
    s: SimulationView,
    hooks: Seq<Option<ScriptContext>>,
)
    requires
        s.parameters.running,
        1 <= s.parameters.ticks_per_dispatch <= 32,
        s.parameters.tick + s.parameters.ticks_per_dispatch <= u64::MAX,
        forall|i: int| 0 <= i < hooks.len() ==> (#[trigger] hooks[i] matches Some(c) ==> !c.response.reset),
    ensures
        frame(s, hooks).parameters.tick == s.parameters.tick + s.parameters.ticks_per_dispatch,
{
    lemma_sub_steps_tick(s, s.parameters.ticks_per_dispatch as nat, hooks);
}

/// After `reset_states`, the tick is 0, and any number of frames run while
/// paused dispatch nothing, so that nothing writes the state buffer, and
/// leave the engine as it is, whatever the script would have done.
pub proof fn paused_frames_after_reset_change_nothing(
    s: SimulationView,
    runs: Seq<Seq<Option<ScriptContext>>>,
)
    requires
        !s.parameters.running,
    ensures
        reset_view(s).parameters.tick == 0,
        dispatch_count(reset_view(s)) == 0,
        frames(reset_view(s), runs) == reset_view(s),
    decreases runs.len(),
{
    if runs.len() > 0 {
        paused_frames_after_reset_change_nothing(s, runs.drop_last());
    }
}

/// A snapshot asked for while paused survives the paused frame, the next
/// drain exports exactly that request and no other is left, and the file
/// written for it begins with the grid width and height, little-endian.
pub proof fn paused_snapshot_exports_once(
    s: SimulationView,
    kind: SnapshotType,
    name: Option<String>,
    hooks: Seq<Option<ScriptContext>>,
    data: Seq<u8>,
)
    requires
        !s.parameters.running,
        s.queue.len() == 0,
    ensures
        ({
            let queued = SimulationView { queue: s.queue.push((kind, name)), ..s };
            let after = frame(queued, hooks);
            &&& after == queued
            &&& drained(after.queue).0 == Some((kind, name))
            &&& drained(drained(after.queue).1).0 is None
        }),
        framed(s.size.width, s.size.height, data).take(8) == le_u32(s.size.width) + le_u32(
            s.size.height,
        ),
{
    let queued = SimulationView { queue: s.queue.push((kind, name)), ..s };
    assert(drained(queued.queue).1 =~= Seq::<SnapshotRequest>::empty());
    assert(framed(s.size.width, s.size.height, data).take(8) =~= le_u32(s.size.width) + le_u32(
        s.size.height,
    ));
}

/// The kernel's symbol table. With an audio channel, `AUDIO` is the
/// pickup cell and `OSCILLATOR` is off; without one, `AUDIO` is off and
/// `OSCILLATOR` is a bare flag.
pub fn kernel_symbols(audio: Option<&AudioConfig>) -> (r: Preprocessor)
    ensures
        r.wf(),
        r.entries().len() == 2,
        r.entries()[0].0 == "AUDIO"@,
        r.entries()[1].0 == "OSCILLATOR"@,
        match audio {
            Some(a) => {
                &&& r.entries()[0].1 matches Data::Vec(v) && v@ == seq![
                    Scalar::U32(a.pickup.0),
                    Scalar::U32(a.pickup.1),
                ]
                &&& r.entries()[1].1 matches Data::Bool(false)
            },
            None => {
                &&& r.entries()[0].1 matches Data::Bool(false)
                &&& r.entries()[1].1 is Null
            },
        },
{
    proof {
        reveal_strlit("AUDIO");
        reveal_strlit("OSCILLATOR");
    }
    let (sound, oscillator) = match audio {
        Some(a) => (Data::vec2(Scalar::U32(a.pickup.0), Scalar::U32(a.pickup.1)), Data::Bool(false)),
        None => (Data::Bool(false), Data::Null),
    };
    let ghost first = sound;
    let ghost second = oscillator;
    let p = Preprocessor::new();
    let p = p.define("AUDIO", sound);
    assert(p.entries() =~= seq![("AUDIO"@, first)]);
    assert("AUDIO"@.len() == 5);
    assert("OSCILLATOR"@.len() == 10);
    assert("AUDIO"@ != "OSCILLATOR"@);
    let ghost e1 = p.entries();
    assert(e1.drop_last() =~= Seq::<(Seq<char>, Data)>::empty());
    assert(position(e1.drop_last(), "OSCILLATOR"@) == -1);
    assert(e1.last().0 == "AUDIO"@);
    assert(position(e1, "OSCILLATOR"@) == -1);
    let p = p.define("OSCILLATOR", oscillator);
    assert(p.entries() =~= seq![("AUDIO"@, first), ("OSCILLATOR"@, second)]);
    p
}

} // verus!
