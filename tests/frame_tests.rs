use frame_engine::collision::{CollisionEvent, Phase};
use frame_engine::frame::{
    apply_movement, resolve_collisions, spawn_next, update_frame, update_frame_at, Cue, GameState,
    Input, Settings,
};
use frame_engine::frog::Frog;
use frame_engine::registry::Registry;
use frame_engine::spawn::{make_label, random_point};
use frame_engine::timer::{FireEvent, Timer, TimerMode, NANOS_PER_SECOND};

fn s(text: &str) -> String {
    text.to_string()
}

fn begin(a: &str, b: &str) -> CollisionEvent {
    CollisionEvent { phase: Phase::Begin, a: s(a), b: s(b) }
}

fn state(score: u32, high_score: u32) -> GameState {
    GameState {
        score,
        high_score,
        spawn_counter: 0,
        spawn_timer: Timer::with_duration(2 * NANOS_PER_SECOND, TimerMode::Repeating),
    }
}

fn settings() -> Settings {
    Settings {
        controlled: s("player"),
        spawn_prefix: s("ferris_"),
        speed: 100,
        half_width: 550,
        half_height: 325,
        spawn_scale: 50,
    }
}

fn idle_input() -> Input {
    Input {
        up: false,
        down: false,
        left: false,
        right: false,
        exit: false,
        reset: false,
        pointer_pressed: false,
        pointer: None,
    }
}

fn registry_with(labels: &[&str]) -> Registry {
    let mut reg = Registry::new();
    for l in labels {
        reg.spawn(s(l), 0, 0, 100, true);
    }
    reg
}

#[test]
fn frog_starts_rested() {
    let frog = Frog::new();
    assert_eq!(frog.energy(), 5);
    assert!(!frog.is_sleeping());
    let d = Frog::default();
    assert_eq!(d.energy(), 5);
}

#[test]
fn frog_sleeps_after_last_hop() {
    let mut frog = Frog::new();
    for _ in 0..4 {
        frog.hop();
        assert!(!frog.is_sleeping());
    }
    assert_eq!(frog.energy(), 1);
    frog.hop();
    assert_eq!(frog.energy(), 0);
    assert!(frog.is_sleeping());
    frog.sleep();
    assert!(frog.is_sleeping());
    assert_eq!(frog.energy(), 0);
}

#[test]
fn repeating_timer_fires_on_second_and_fourth_tick() {
    let mut t = Timer::new(2 * NANOS_PER_SECOND, TimerMode::Repeating).unwrap();
    let fired: Vec<bool> = (0..5)
        .map(|_| t.tick(NANOS_PER_SECOND) == FireEvent::JustFinished)
        .collect();
    assert_eq!(fired, vec![false, true, false, true, false]);
    assert_eq!(t.elapsed(), NANOS_PER_SECOND);
}

#[test]
fn repeating_timer_fire_count_matches_elapsed_time() {
    let mut t = Timer::new(2 * NANOS_PER_SECOND, TimerMode::Repeating).unwrap();
    let mut count = 0;
    for _ in 0..13 {
        if t.tick(NANOS_PER_SECOND / 2) == FireEvent::JustFinished {
            count += 1;
        }
    }
    // 6.5 seconds over a 2 second period
    assert_eq!(count, 3);
    assert_eq!(t.elapsed(), NANOS_PER_SECOND / 2);
}

#[test]
fn repeating_timer_reports_once_for_a_long_tick() {
    let mut t = Timer::new(2 * NANOS_PER_SECOND, TimerMode::Repeating).unwrap();
    assert_eq!(t.tick(5 * NANOS_PER_SECOND), FireEvent::JustFinished);
    assert_eq!(t.elapsed(), NANOS_PER_SECOND);
    assert_eq!(t.tick(0), FireEvent::Idle);
}

#[test]
fn one_shot_timer_fires_once() {
    let mut t = Timer::new(10 * NANOS_PER_SECOND, TimerMode::Once).unwrap();
    assert_eq!(t.tick(9 * NANOS_PER_SECOND), FireEvent::Idle);
    assert_eq!(t.tick(2 * NANOS_PER_SECOND), FireEvent::JustFinished);
    assert_eq!(t.elapsed(), 10 * NANOS_PER_SECOND);
    assert_eq!(t.tick(20 * NANOS_PER_SECOND), FireEvent::Idle);
    t.reset();
    assert_eq!(t.elapsed(), 0);
    assert_eq!(t.tick(10 * NANOS_PER_SECOND), FireEvent::JustFinished);
}

#[test]
fn zero_duration_timer_is_rejected() {
    assert!(Timer::new(0, TimerMode::Repeating).is_none());
    assert!(Timer::new(0, TimerMode::Once).is_none());
    let t = Timer::new(7, TimerMode::Once).unwrap();
    assert_eq!(t.duration(), 7);
    assert_eq!(t.mode(), TimerMode::Once);
}

#[test]
fn remove_twice_is_remove_once() {
    let mut reg = registry_with(&["player", "car1", "ferris_0"]);
    assert!(reg.remove(&s("car1")));
    assert_eq!(reg.len(), 2);
    assert!(!reg.remove(&s("car1")));
    assert_eq!(reg.len(), 2);
    assert!(reg.contains(&s("player")));
    assert!(reg.contains(&s("ferris_0")));
    assert!(!reg.remove(&s("missing")));
}

#[test]
fn spawn_with_existing_label_overwrites() {
    let mut reg = registry_with(&["player", "ferris_0"]);
    reg.spawn(s("ferris_0"), 30, -40, 50, false);
    assert_eq!(reg.len(), 2);
    let e = reg.get(&s("ferris_0")).unwrap();
    assert_eq!((e.x, e.y, e.scale, e.collidable), (30, -40, 50, false));
    assert_eq!(reg.find(&s("ferris_0")), Some(1));
    assert!(reg.get(&s("nobody")).is_none());
}

#[test]
fn translate_and_rotate() {
    let mut reg = registry_with(&["player"]);
    assert!(reg.translate(&s("player"), 5, -3));
    assert!(reg.set_rotation(&s("player"), 3927));
    let e = reg.get(&s("player")).unwrap();
    assert_eq!((e.x, e.y, e.rotation), (5, -3, 3927));
    assert!(!reg.translate(&s("ghost"), 1, 1));
    assert!(reg.translate(&s("player"), i64::MAX, i64::MIN));
    let e = reg.get(&s("player")).unwrap();
    assert_eq!((e.x, e.y), (i64::MAX, i64::MIN));
}

#[test]
fn one_qualifying_collision_raises_score_and_high_score() {
    let mut st = state(3, 3);
    let mut reg = registry_with(&["player", "ferris_0"]);
    let events = vec![begin("player", "ferris_0")];
    let cues = resolve_collisions(&mut st, &mut reg, &events, &s("player"));
    assert_eq!((st.score, st.high_score), (4, 4));
    assert_eq!(cues, vec![Cue::Pickup]);
    assert!(!reg.contains(&s("ferris_0")));
    assert!(reg.contains(&s("player")));
}

#[test]
fn repeated_contact_removes_once_and_counts_twice() {
    let mut st = state(0, 0);
    let mut reg = registry_with(&["player", "ferris_0", "ferris_1"]);
    let events = vec![begin("ferris_0", "player"), begin("player", "ferris_0")];
    let cues = resolve_collisions(&mut st, &mut reg, &events, &s("player"));
    assert_eq!(st.score, 2);
    assert_eq!(st.high_score, 2);
    assert_eq!(cues.len(), 2);
    assert_eq!(reg.len(), 2);
    assert!(!reg.contains(&s("ferris_0")));
    assert!(reg.contains(&s("ferris_1")));
}

#[test]
fn non_qualifying_collisions_are_ignored() {
    let mut st = state(1, 5);
    let mut reg = registry_with(&["player", "a", "b"]);
    let events = vec![
        CollisionEvent { phase: Phase::End, a: s("player"), b: s("a") },
        begin("a", "b"),
        begin("player", "player"),
    ];
    let cues = resolve_collisions(&mut st, &mut reg, &events, &s("player"));
    assert!(cues.is_empty());
    assert_eq!((st.score, st.high_score), (1, 5));
    assert_eq!(reg.len(), 3);
}

#[test]
fn high_score_stays_when_score_is_below() {
    let mut st = state(1, 5);
    let mut reg = registry_with(&["player", "a"]);
    let events = vec![begin("a", "player")];
    resolve_collisions(&mut st, &mut reg, &events, &s("player"));
    assert_eq!((st.score, st.high_score), (2, 5));
}

#[test]
fn reset_zeroes_score_and_keeps_high_score() {
    let mut st = state(10, 7);
    st.reset_score();
    assert_eq!((st.score, st.high_score), (0, 7));
}

#[test]
fn apply_score_follows_high_score() {
    let mut st = state(2, 4);
    st.apply_score(1);
    assert_eq!((st.score, st.high_score), (3, 4));
    st.apply_score(3);
    assert_eq!((st.score, st.high_score), (6, 6));
}

#[test]
fn diagonal_movement_is_not_normalized() {
    let mut reg = registry_with(&["player"]);
    let mut input = idle_input();
    input.up = true;
    input.right = true;
    apply_movement(&mut reg, &s("player"), &input, 100, NANOS_PER_SECOND / 10);
    let p = reg.get(&s("player")).unwrap();
    assert_eq!((p.x, p.y), (10, 10));
}

#[test]
fn opposite_directions_cancel() {
    let mut reg = registry_with(&["player"]);
    let mut input = idle_input();
    input.up = true;
    input.down = true;
    input.left = true;
    apply_movement(&mut reg, &s("player"), &input, 100, NANOS_PER_SECOND / 10);
    let p = reg.get(&s("player")).unwrap();
    assert_eq!((p.x, p.y), (-10, 0));
}

#[test]
fn movement_without_controlled_entity_is_a_no_op() {
    let mut reg = registry_with(&["car1"]);
    let mut input = idle_input();
    input.right = true;
    apply_movement(&mut reg, &s("player"), &input, 100, NANOS_PER_SECOND);
    let c = reg.get(&s("car1")).unwrap();
    assert_eq!((c.x, c.y), (0, 0));
}

#[test]
fn labels_carry_the_counter_in_decimal() {
    assert_eq!(make_label(&s("ferris_"), 42), "ferris_42");
    assert_eq!(make_label(&s("ferris_"), 0), "ferris_0");
    assert_eq!(make_label(&s(""), 4294967295), "4294967295");
}

#[test]
fn spawn_next_advances_the_counter() {
    let mut st = state(0, 0);
    let mut reg = registry_with(&["player"]);
    spawn_next(&mut st, &mut reg, &s("ferris_"), 50, 7, 8);
    spawn_next(&mut st, &mut reg, &s("ferris_"), 50, -7, -8);
    assert_eq!(st.spawn_counter, 2);
    let f0 = reg.get(&s("ferris_0")).unwrap();
    assert_eq!((f0.x, f0.y, f0.scale, f0.collidable), (7, 8, 50, true));
    let f1 = reg.get(&s("ferris_1")).unwrap();
    assert_eq!((f1.x, f1.y), (-7, -8));
}

#[test]
fn random_points_stay_in_bounds() {
    for _ in 0..200 {
        let (x, y) = random_point(550, 325);
        assert!((-550..550).contains(&x));
        assert!((-325..325).contains(&y));
    }
}

#[test]
fn frame_runs_its_steps_in_order() {
    let cfg = settings();
    let mut st = GameState::default();
    let mut reg = registry_with(&["player", "car1"]);
    let mut input = idle_input();
    input.right = true;
    input.pointer_pressed = true;
    input.pointer = Some((20, 30));
    input.exit = true;
    let events = vec![begin("player", "car1")];
    let report =
        update_frame_at(&mut st, &mut reg, &cfg, &input, 2 * NANOS_PER_SECOND, events, (-5, 6));
    assert!(report.exit);
    assert_eq!(report.cues, vec![Cue::Pickup]);
    assert_eq!((st.score, st.high_score, st.spawn_counter), (1, 1, 2));
    assert!(!reg.contains(&s("car1")));
    let p = reg.get(&s("player")).unwrap();
    assert_eq!((p.x, p.y), (200, 0));
    let f0 = reg.get(&s("ferris_0")).unwrap();
    assert_eq!((f0.x, f0.y, f0.scale), (20, 30, 50));
    let f1 = reg.get(&s("ferris_1")).unwrap();
    assert_eq!((f1.x, f1.y), (-5, 6));
}

#[test]
fn frame_without_pointer_location_skips_pointer_spawn() {
    let cfg = settings();
    let mut st = GameState::default();
    let mut reg = registry_with(&["player"]);
    let mut input = idle_input();
    input.pointer_pressed = true;
    let report = update_frame_at(&mut st, &mut reg, &cfg, &input, 1, Vec::new(), (0, 0));
    assert!(!report.exit);
    assert!(report.cues.is_empty());
    assert_eq!(st.spawn_counter, 0);
    assert_eq!(reg.len(), 1);
}

#[test]
fn frame_reset_comes_after_scoring() {
    let cfg = settings();
    let mut st = state(4, 6);
    let mut reg = registry_with(&["player", "a", "b", "c"]);
    let mut input = idle_input();
    input.reset = true;
    let events = vec![begin("a", "player"), begin("player", "b"), begin("c", "player")];
    let report = update_frame_at(&mut st, &mut reg, &cfg, &input, 1, events, (0, 0));
    assert_eq!(report.cues.len(), 3);
    assert_eq!((st.score, st.high_score), (0, 7));
    assert_eq!(reg.len(), 1);
}

#[test]
fn timer_spawn_lands_inside_the_playfield() {
    let cfg = settings();
    let mut st = GameState::default();
    let mut reg = registry_with(&["player"]);
    let input = idle_input();
    update_frame(&mut st, &mut reg, &cfg, &input, NANOS_PER_SECOND, Vec::new());
    assert_eq!(reg.len(), 1);
    update_frame(&mut st, &mut reg, &cfg, &input, NANOS_PER_SECOND, Vec::new());
    assert_eq!(reg.len(), 2);
    assert_eq!(st.spawn_counter, 1);
    let f = reg.get(&s("ferris_0")).unwrap();
    assert!((-550..550).contains(&f.x));
    assert!((-325..325).contains(&f.y));
    assert!(f.collidable);
}
