use wave_sim::config::{parse_size, AudioConfig};
use wave_sim::grid::{ConfigError, Grid};
use wave_sim::map::{map_data, MapImage};
use wave_sim::params::{
    Binary32, Oscillator, Parameters, BILINEAR_SAMPLING, ENERGY_VIEW, REFLECTIVE_BOUNDARY,
};
use wave_sim::preprocess::Data;
use wave_sim::scripting::{ScriptCommand, ScriptContext, UserValue};
use wave_sim::simulation::{kernel_symbols, AudioAction, Simulation};
use wave_sim::snapshot::{snapshot_file, SnapshotType};

fn bits(x: f32) -> Binary32 {
    Binary32 { bits: x.to_bits() }
}

fn parameters(reflective: bool) -> Parameters {
    Parameters {
        dt: bits(0.011),
        dx: bits(0.05),
        v: bits(340.29),
        reflective_boundary: reflective,
    }
}

fn oscillator() -> Oscillator {
    Oscillator {
        amplitude: bits(0.005),
        frequency: bits(0.04),
    }
}

fn simulation(width: u32, height: u32, audio_len: Option<usize>) -> Simulation {
    let grid = Grid::new(width, height).unwrap();
    Simulation::new(grid, &parameters(false), &oscillator(), audio_len)
}

#[test]
fn grid_sizes_match_cell_counts() {
    for (w, h) in [(1u32, 1u32), (8, 8), (1920, 1080), (3, 7)] {
        let g = Grid::new(w, h).unwrap();
        let cells = w as u64 * h as u64;
        assert_eq!(g.state_bytes(), cells * 3 * 4);
        assert_eq!(g.energy_bytes(), cells * 4);
        assert_eq!(g.staging_bytes(), cells * 4);
        assert_eq!(g.cells() as u64, cells);
    }
}

#[test]
fn grid_rejects_empty_and_oversized() {
    assert_eq!(Grid::new(0, 10), Err(ConfigError::InvalidSize));
    assert_eq!(Grid::new(10, 0), Err(ConfigError::InvalidSize));
    assert_eq!(Grid::new(u32::MAX, 2), Err(ConfigError::InvalidSize));
    // 357_913_941 cells is the largest count whose state buffer fits in u32 bytes.
    assert!(Grid::new(357_913_941, 1).is_ok());
    assert_eq!(Grid::new(357_913_942, 1), Err(ConfigError::InvalidSize));
}

#[test]
fn workgroups_round_up() {
    let g = Grid::new(1920, 1081).unwrap();
    assert_eq!(g.workgroups(), (240, 136));
    let g = Grid::new(1, 1).unwrap();
    assert_eq!(g.workgroups(), (1, 1));
    let g = Grid::new(9, 16).unwrap();
    assert_eq!(g.workgroups(), (2, 2));
}

#[test]
fn state_plane_follows_tick_mod_three() {
    let g = Grid::new(4, 2).unwrap();
    assert_eq!(g.state_plane_offset(0), 0);
    assert_eq!(g.state_plane_offset(1), 32);
    assert_eq!(g.state_plane_offset(2), 64);
    assert_eq!(g.state_plane_offset(3), 0);
    assert_eq!(g.state_plane_offset(u64::MAX), 0);
}

#[test]
fn neutral_map_without_image() {
    let g = Grid::new(2, 3).unwrap();
    let data = map_data(g, None).unwrap();
    assert_eq!(data.len(), 24);
    for (i, b) in data.iter().enumerate() {
        assert_eq!(*b, if i % 4 == 2 { 128 } else { 0 });
    }
}

#[test]
fn map_is_centered_on_grid() {
    let g = Grid::new(4, 3).unwrap();
    let pixels: Vec<u8> = (1..=8).collect();
    let map = MapImage::new(2, 1, pixels).unwrap();
    let data = map_data(g, Some(&map)).unwrap();
    assert_eq!(data.len(), 48);
    // offset ((4 - 2) / 2, (3 - 1) / 2) = (1, 1): pixels 5 and 6 of the grid
    let mut expected = vec![0u8; 48];
    expected[20..28].copy_from_slice(&[1, 2, 3, 4, 5, 6, 7, 8]);
    assert_eq!(data, expected);
}

#[test]
fn map_offset_rounds_down() {
    let g = Grid::new(3, 2).unwrap();
    let map = MapImage::new(2, 1, vec![9; 8]).unwrap();
    let data = map_data(g, Some(&map)).unwrap();
    let mut expected = vec![0u8; 24];
    expected[0..8].copy_from_slice(&[9; 8]);
    assert_eq!(data, expected);
}

#[test]
fn map_larger_than_grid_is_refused() {
    let g = Grid::new(4, 4).unwrap();
    let wide = MapImage::new(5, 1, vec![0; 20]).unwrap();
    assert_eq!(map_data(g, Some(&wide)), Err(ConfigError::MapTooLarge));
    let tall = MapImage::new(1, 5, vec![0; 20]).unwrap();
    assert_eq!(map_data(g, Some(&tall)), Err(ConfigError::MapTooLarge));
}

#[test]
fn malformed_map_is_refused() {
    assert!(matches!(MapImage::new(2, 2, vec![0; 15]), Err(ConfigError::MalformedMap)));
    assert!(MapImage::new(2, 2, vec![0; 16]).is_ok());
}

#[test]
fn parse_size_reads_width_and_height() {
    assert_eq!(parse_size("1920x1080"), Ok((1920, 1080)));
    assert_eq!(parse_size("+5x7"), Ok((5, 7)));
    assert_eq!(parse_size("0x0"), Ok((0, 0)));
    assert_eq!(parse_size("4294967295x1"), Ok((u32::MAX, 1)));
}

#[test]
fn parse_size_rejects_malformed_text() {
    for raw in ["1920", "x1080", "1920x", "19 20x10", "4294967296x1", "axb", "1x2x3", "-1x2", "+x2", ""] {
        assert_eq!(parse_size(raw), Err(ConfigError::MalformedSize), "{raw}");
    }
}

#[test]
fn new_simulation_starts_paused() {
    let grid = Grid::new(16, 8).unwrap();
    let sim = Simulation::new(grid, &parameters(true), &oscillator(), None);
    let p = sim.parameters;
    assert_eq!(p.tick, 0);
    assert!(!p.running);
    assert_eq!(p.ticks_per_dispatch, 1);
    assert_eq!(p.user, 0);
    assert_eq!(p.flags.bits(), BILINEAR_SAMPLING | REFLECTIVE_BOUNDARY);
    assert_eq!(p.v, bits(340.29));
    assert_eq!(p.frequency, bits(0.04));
    assert_eq!(sim.get_size(), grid);
    assert!(sim.snapshot.is_empty());
    let plain = Simulation::new(grid, &parameters(false), &oscillator(), None);
    assert_eq!(plain.parameters.flags.bits(), BILINEAR_SAMPLING);
}

#[test]
fn flags_toggle_and_test() {
    let grid = Grid::new(2, 2).unwrap();
    let mut sim = Simulation::new(grid, &parameters(false), &oscillator(), None);
    assert!(!sim.parameters.flags.contains(ENERGY_VIEW));
    sim.parameters.flags.toggle(ENERGY_VIEW);
    assert!(sim.parameters.flags.contains(ENERGY_VIEW));
    sim.parameters.flags.set(ENERGY_VIEW, false);
    assert!(!sim.parameters.flags.contains(ENERGY_VIEW));
    assert!(sim.parameters.flags.contains(BILINEAR_SAMPLING));
}

#[test]
fn reset_then_paused_frames_dispatch_nothing() {
    let mut sim = simulation(8, 4, None);
    sim.parameters.running = true;
    sim.parameters.ticks_per_dispatch = 3;
    for _ in 0..sim.update() {
        sim.finish_sub_step();
    }
    assert_eq!(sim.parameters.tick, 3);
    sim.parameters.running = false;
    let zeros = sim.reset_states();
    assert_eq!(zeros.len(), 8 * 4 * 3 * 4);
    assert!(zeros.iter().all(|b| *b == 0));
    assert_eq!(sim.parameters.tick, 0);
    for _ in 0..10 {
        assert_eq!(sim.update(), 0);
    }
    assert_eq!(sim.parameters.tick, 0);
    assert!(!sim.parameters.running);
}

#[test]
fn each_frame_advances_tick_by_ticks_per_dispatch() {
    for n in 1..=32u32 {
        let mut sim = simulation(8, 8, None);
        sim.parameters.running = true;
        sim.parameters.ticks_per_dispatch = n;
        for frame in 1..=3u64 {
            let steps = sim.update();
            assert_eq!(steps, n);
            for _ in 0..steps {
                let ctx = ScriptContext::new(sim.parameters);
                assert_eq!(sim.finish_sub_step(), AudioAction::Idle);
                assert!(!sim.apply_script(ctx, true));
            }
            assert_eq!(sim.parameters.tick, frame * n as u64);
        }
    }
}

#[test]
fn audio_stops_at_end_of_input_and_drains_windows() {
    let mut sim = simulation(8, 8, Some(1030));
    sim.parameters.running = true;
    let mut drains = Vec::new();
    let mut stop = None;
    while sim.parameters.tick < 1040 {
        let tick = sim.parameters.tick;
        match sim.finish_sub_step() {
            AudioAction::Drain => drains.push(tick),
            AudioAction::Stop => stop = Some(tick),
            AudioAction::Idle => {}
        }
    }
    assert_eq!(drains, vec![511, 1023]);
    assert_eq!(stop, Some(1030));
    assert!(!sim.parameters.running);
}

#[test]
fn audio_input_of_zero_samples_stops_at_once() {
    let mut sim = simulation(8, 8, Some(0));
    sim.parameters.running = true;
    assert_eq!(sim.finish_sub_step(), AudioAction::Stop);
    assert!(!sim.parameters.running);
    assert_eq!(sim.parameters.tick, 1);
}

#[test]
fn script_outcome_is_taken_back() {
    let mut sim = simulation(8, 8, None);
    sim.parameters.running = true;
    sim.parameters.tick = 40;
    let mut ctx = ScriptContext::new(sim.parameters);
    ctx.apply(ScriptCommand::SetV(bits(2.0)));
    ctx.apply(ScriptCommand::SetUser(UserValue::Int(-1)));
    ctx.apply(ScriptCommand::SnapshotEnergy(Some("e.bin".to_string())));
    ctx.apply(ScriptCommand::SnapshotState(None));
    ctx.apply(ScriptCommand::Pause);
    ctx.params.tick = 7;
    ctx.params.ticks_per_dispatch = 9;
    assert!(!sim.apply_script(ctx, true));
    assert_eq!(sim.parameters.v, bits(2.0));
    assert_eq!(sim.parameters.user, u32::MAX);
    assert!(!sim.parameters.running);
    // a script cannot move the tick or the sub-step count
    assert_eq!(sim.parameters.tick, 40);
    assert_eq!(sim.parameters.ticks_per_dispatch, 1);
    assert_eq!(sim.snapshot.len(), 2);
    assert_eq!(sim.snapshot.pop(), Some((SnapshotType::Energy, Some("e.bin".to_string()))));
    assert_eq!(sim.snapshot.pop(), Some((SnapshotType::State, None)));
    assert_eq!(sim.snapshot.pop(), None);
}

#[test]
fn script_reset_only_where_allowed() {
    let mut sim = simulation(8, 8, None);
    sim.parameters.tick = 12;
    let mut ctx = ScriptContext::new(sim.parameters);
    ctx.apply(ScriptCommand::Reset);
    assert!(!sim.apply_script(ctx.clone(), false));
    assert_eq!(sim.parameters.tick, 12);
    assert!(sim.apply_script(ctx, true));
    assert_eq!(sim.parameters.tick, 0);
}

#[test]
fn paused_snapshot_drains_once_with_header() {
    let mut sim = simulation(300, 2, None);
    sim.parameters.tick = 4;
    sim.snapshot.push(SnapshotType::State, None);
    assert_eq!(sim.update(), 0);
    let job = sim.drain_snapshot().unwrap();
    assert_eq!(job.kind, SnapshotType::State);
    assert_eq!(job.name, None);
    assert_eq!(job.copy.source, SnapshotType::State);
    assert_eq!(job.copy.offset, (4 % 3) * 300 * 2 * 4);
    assert_eq!(job.copy.size, 300 * 2 * 4);
    assert!(sim.drain_snapshot().is_none());
    let size = sim.get_size();
    let file = snapshot_file(size.width, size.height, vec![7, 8]);
    assert_eq!(file, vec![44, 1, 0, 0, 2, 0, 0, 0, 7, 8]);
}

#[test]
fn energy_snapshot_reads_whole_buffer() {
    let mut sim = simulation(5, 5, None);
    sim.parameters.tick = 2;
    sim.snapshot.push(SnapshotType::Energy, Some("avg.bin".to_string()));
    let job = sim.drain_snapshot().unwrap();
    assert_eq!(job.name.as_deref(), Some("avg.bin"));
    assert_eq!(job.copy.source, SnapshotType::Energy);
    assert_eq!(job.copy.offset, 0);
    assert_eq!(job.copy.size, 100);
    assert_eq!(sim.reset_average_energy().len(), 100);
}

#[test]
fn context_carries_integer_uniforms() {
    let mut sim = simulation(10, 20, None);
    sim.parameters.tick = (1u64 << 32) + 5;
    sim.parameters.user = 77;
    sim.parameters.ticks_per_dispatch = 4;
    let c = sim.get_context((800, 600));
    assert_eq!((c.width, c.height), (10, 20));
    assert_eq!((c.window_width, c.window_height), (800, 600));
    assert_eq!(c.tick, 5);
    assert_eq!(c.user, 77);
    assert_eq!(c.ticks_per_dispatch, 4);
    assert_eq!(c.flags, BILINEAR_SAMPLING);
}

#[test]
fn kernel_symbols_follow_audio() {
    let with_audio = AudioConfig {
        input: "in.wav".into(),
        output: "out.wav".into(),
        pickup: (3, 4),
    };
    let s = kernel_symbols(Some(&with_audio));
    assert!(matches!(s.get("AUDIO"), Some(Data::Vec(v)) if v.len() == 2));
    assert!(matches!(s.get("OSCILLATOR"), Some(Data::Bool(false))));
    let s = kernel_symbols(None);
    assert!(matches!(s.get("AUDIO"), Some(Data::Bool(false))));
    assert!(matches!(s.get("OSCILLATOR"), Some(Data::Null)));
}
