use worldsim::clock::{advance_tick, keyboard_time_controls, speed_label, ClockControls, TimeKeys};
use worldsim::logbook::{append_trimmed, push_trimmed, trim_to_capacity};
use worldsim::map::{focus_coord, MapSize, TileCoord};
use worldsim::population::{PopulationCounts, PopulationKind};
use worldsim::rng::SimpleRng;

#[test]
fn rng_follows_xorshift_star() {
    let mut rng = SimpleRng::new(0x8f3b_12d9_b5f0_28c1);
    assert_eq!(rng.next_u64(), 817907109326679712);
    assert_eq!(rng.next_bits24(), 11264192);
}

#[test]
fn rng_zero_seed_counts_as_one() {
    let mut zero = SimpleRng::new(0);
    let mut one = SimpleRng::new(1);
    assert_eq!(zero.next_u64(), one.next_u64());
    let mut fresh = SimpleRng::new(1);
    assert_eq!(fresh.next_u64(), 5180492295206395165);
}

#[test]
fn rng_range_stays_inside_and_empty_range_gives_min() {
    let mut rng = SimpleRng::new(0x8f3b_12d9_b5f0_28c1);
    rng.next_u64();
    assert_eq!(rng.range_i32(0, 23), 10);
    let mut rng2 = SimpleRng::new(7);
    assert_eq!(rng2.range_i32(5, 5), 5);
    assert_eq!(rng2.range_i32(5, 2), 5);
    for _ in 0..200 {
        let v = rng2.range_i32(-3, 4);
        assert!((-3..=4).contains(&v));
    }
}

#[test]
fn time_keys_toggle_pause_and_set_presets() {
    let mut clock = ClockControls::new();
    assert_eq!(clock.steps_per_frame, 1);
    assert!(!clock.paused);
    let space = TimeKeys { space: true, ..TimeKeys::default() };
    keyboard_time_controls(&space, &mut clock);
    assert!(clock.paused);
    assert_eq!(clock.steps_this_frame(), 0);
    keyboard_time_controls(&space, &mut clock);
    assert!(!clock.paused);
    let four = TimeKeys { digit4: true, space: true, ..TimeKeys::default() };
    keyboard_time_controls(&four, &mut clock);
    assert_eq!(clock.steps_per_frame, 120);
    assert!(!clock.paused);
    let many = TimeKeys { digit2: true, digit6: true, ..TimeKeys::default() };
    keyboard_time_controls(&many, &mut clock);
    assert_eq!(clock.steps_per_frame, 900);
    assert_eq!(speed_label(&clock), "900x");
}

#[test]
fn speed_labels_for_presets_and_custom() {
    for (steps, label) in [(1, "1x"), (5, "5x"), (20, "20x"), (120, "120x"), (300, "300x"), (900, "900x"), (7, "custom")] {
        let clock = ClockControls { steps_per_frame: steps, paused: false };
        assert_eq!(speed_label(&clock), label);
    }
}

#[test]
fn ticks_advance_only_while_running() {
    let running = ClockControls { steps_per_frame: 300, paused: false };
    let paused = ClockControls { steps_per_frame: 300, paused: true };
    assert_eq!(advance_tick(10, &running), 310);
    assert_eq!(advance_tick(10, &paused), 10);
}

#[test]
fn logs_keep_their_most_recent_entries() {
    let mut log: Vec<u32> = (0..40).collect();
    trim_to_capacity(&mut log, 32);
    assert_eq!(log.len(), 32);
    assert_eq!(log[0], 8);
    assert_eq!(*log.last().unwrap(), 39);
    let mut small = vec![1, 2];
    trim_to_capacity(&mut small, 32);
    assert_eq!(small, vec![1, 2]);
    let mut with_new = vec![1, 2, 3];
    append_trimmed(&mut with_new, vec![4, 5], 4);
    assert_eq!(with_new, vec![2, 3, 4, 5]);
    let mut one_more: Vec<u32> = (0..16).collect();
    push_trimmed(&mut one_more, 16, 16);
    assert_eq!(one_more.len(), 16);
    assert_eq!(one_more[0], 1);
    let mut zero_cap = vec![1, 2];
    push_trimmed(&mut zero_cap, 3, 0);
    assert!(zero_cap.is_empty());
}

#[test]
fn population_tallies_add_up() {
    let mut p = PopulationCounts::new();
    p.record_birth(PopulationKind::Npc);
    p.record_birth(PopulationKind::Animal);
    p.record_birth(PopulationKind::Animal);
    p.record_death(PopulationKind::Npc);
    assert_eq!(p.total_births, 3);
    assert_eq!(p.animal_births, 2);
    assert_eq!(p.npc_births, 1);
    assert_eq!(p.npc_deaths, 1);
    assert_eq!(p.animal_deaths, 0);
    assert_eq!(p.net_growth(), 2);
    p.record_death(PopulationKind::Animal);
    p.record_death(PopulationKind::Animal);
    p.record_death(PopulationKind::Animal);
    assert_eq!(p.net_growth(), -1);
}

#[test]
fn tiles_are_clamped_to_the_map() {
    let map = MapSize::standard();
    assert_eq!(map.width, 24);
    assert_eq!(map.height, 14);
    assert_eq!(map.clamp_tile(-3, 5), TileCoord { x: 0, y: 5 });
    assert_eq!(map.clamp_tile(30, 20), TileCoord { x: 23, y: 13 });
    assert_eq!(map.clamp_tile(12, -1), TileCoord { x: 12, y: 0 });
}

#[test]
fn director_focus_sweeps_the_map() {
    let map = MapSize::standard();
    assert_eq!(focus_coord(&map, 0), TileCoord { x: 0, y: 0 });
    assert_eq!(focus_coord(&map, 97 * 25), TileCoord { x: 1, y: 4 });
    let tiny = MapSize { width: 0, height: -2 };
    assert_eq!(focus_coord(&tiny, 123456), TileCoord { x: 0, y: 0 });
}
