use wave_sim::params::Binary32;
use wave_sim::ring_buffer::RingBuffer;
use wave_sim::scripting::{ScriptCommand, ScriptContext, UserValue};
use wave_sim::simulation::Simulation;
use wave_sim::snapshot::{dated_file_name, SnapshotQueue, SnapshotType};
use wave_sim::text::{chars_of, string_of};
use wave_sim::ui::superscript_number;
use wave_sim::{grid::Grid, params::Oscillator, params::Parameters};

#[test]
fn ring_buffer_wraps_and_fills() {
    let mut r: RingBuffer<u32, 3> = RingBuffer::new();
    assert!(r.values().is_empty());
    r.push(1);
    r.push(2);
    assert_eq!(r.values(), &[1, 2]);
    assert!(!r.filled);
    r.push(3);
    assert!(r.filled);
    assert_eq!(r.index, 0);
    r.push(4);
    assert_eq!(r.values(), &[4, 2, 3]);
    r.reset();
    assert!(r.values().is_empty());
    assert_eq!(r.data, [4, 2, 3]);
}

#[test]
fn snapshot_queue_is_first_in_first_out() {
    let mut q = SnapshotQueue::new();
    q.push(SnapshotType::State, None);
    q.extend(vec![
        (SnapshotType::Energy, Some("a".to_string())),
        (SnapshotType::State, Some("b".to_string())),
    ]);
    assert_eq!(q.len(), 3);
    assert_eq!(q.pop(), Some((SnapshotType::State, None)));
    assert_eq!(q.pop(), Some((SnapshotType::Energy, Some("a".to_string()))));
    assert_eq!(q.pop(), Some((SnapshotType::State, Some("b".to_string()))));
    assert_eq!(q.pop(), None);
    assert!(q.is_empty());
    let d: SnapshotQueue = Default::default();
    assert!(d.is_empty());
}

#[test]
fn snapshot_names() {
    assert_eq!(SnapshotType::State.name(), "state");
    assert_eq!(SnapshotType::Energy.name(), "energy");
}

#[test]
fn dated_file_names() {
    assert_eq!(dated_file_name("state", 1700000000, 0, "bin"), "state-1700000000.bin");
    assert_eq!(dated_file_name("energy", 42, 3, "bin"), "energy-42-3.bin");
    assert_eq!(dated_file_name("screenshot", 0, 10, "png"), "screenshot-0-10.png");
}

#[test]
fn superscript_exponents() {
    assert_eq!(superscript_number(-12), "\u{af}\u{b9}\u{b2}");
    assert_eq!(superscript_number(0), "");
    assert_eq!(superscript_number(1034), "\u{b9}\u{2070}\u{b3}\u{2074}");
    assert_eq!(
        superscript_number(i32::MIN),
        "\u{af}\u{b2}\u{b9}\u{2074}\u{2077}\u{2074}\u{2078}\u{2073}\u{2076}\u{2074}\u{2078}"
            .replace('\u{2073}', "\u{b3}")
    );
}

#[test]
fn script_commands_change_the_copy() {
    let grid = Grid::new(2, 2).unwrap();
    let z = Binary32 { bits: 0 };
    let sim = Simulation::new(
        grid,
        &Parameters { dt: z, dx: z, v: z, reflective_boundary: false },
        &Oscillator { amplitude: z, frequency: z },
        None,
    );
    let mut ctx = ScriptContext::new(sim.parameters);
    ctx.params.running = true;
    ctx.apply(ScriptCommand::SetUser(UserValue::Int(0x1_2345_6789)));
    assert_eq!(ctx.params.user, 0x2345_6789);
    ctx.apply(ScriptCommand::SetUser(UserValue::Float(Binary32 { bits: 1.5f32.to_bits() })));
    assert_eq!(ctx.params.user, 1.5f32.to_bits());
    ctx.apply(ScriptCommand::SetDt(Binary32 { bits: 9 }));
    ctx.apply(ScriptCommand::SetDx(Binary32 { bits: 10 }));
    ctx.apply(ScriptCommand::SetAmplitude(Binary32 { bits: 11 }));
    ctx.apply(ScriptCommand::SetFrequency(Binary32 { bits: 12 }));
    assert_eq!(ctx.get_dt().bits, 9);
    assert_eq!(ctx.get_dx().bits, 10);
    assert_eq!(ctx.get_amplitude().bits, 11);
    assert_eq!(ctx.get_frequency().bits, 12);
    assert!(ctx.params.running);
    ctx.apply(ScriptCommand::Pause);
    assert!(!ctx.params.running);
    assert!(!ctx.response.reset);
    ctx.apply(ScriptCommand::Reset);
    assert!(ctx.response.reset);
    ctx.params.tick = u64::MAX;
    assert_eq!(ctx.get_tick(), -1);
}

#[test]
fn text_round_trip() {
    let s = "h\u{e9}llo \u{1f30a}";
    let cs = chars_of(s);
    assert_eq!(cs.len(), 7);
    assert_eq!(string_of(&cs), s);
}
