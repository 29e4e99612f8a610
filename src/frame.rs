use vstd::prelude::*;
use crate::collision::{
    CollisionEvent, CollisionView, apply_removals, count_qualifying, process_collisions, views,
};
use crate::registry::{EntityView, Registry, has_label, label_index, moved, spawned};
use crate::spawn::{make_label, random_point, spawn_label};
use crate::timer::{FireEvent, NANOS_PER_SECOND, Timer, TimerMode, TimerView};

verus! {

/// A notification for the host to play.
#[derive(Clone, Copy, Debug, PartialEq, Eq, Structural)]
pub enum Cue {
    /// The controlled entity picked something up.
    Pickup,
}

/// What the host reads after a frame.
#[derive(Debug)]
pub struct FrameReport {
    /// The host should stop after this frame.
    pub exit: bool,
    /// One cue per qualifying collision, in order.
    pub cues: Vec<Cue>,
}

/// The input observed during one frame.
#[derive(Clone, Copy, Debug)]
pub struct Input {
    pub up: bool,
    pub down: bool,
    pub left: bool,
    pub right: bool,
    /// The exit key went down this frame.
    pub exit: bool,
    /// The reset key went down this frame.
    pub reset: bool,
    /// The primary pointer button went down this frame.
    pub pointer_pressed: bool,
    /// Where the pointer is, if it is over the playfield.
    pub pointer: Option<(i64, i64)>,
}

/// The fixed parameters of the simulation.
#[derive(Debug)]
pub struct Settings {
    /// Label of the entity that input moves.
    pub controlled: String,
    /// Prefix of the labels of spawned entities.
    pub spawn_prefix: String,
    /// Movement speed, in units per second.
    pub speed: u64,
    /// Timer-triggered spawns land in `-half_width..half_width` horizontally
    pub half_width: i64,
    /// and in `-half_height..half_height` vertically.
    pub half_height: i64,
    /// Scale of spawned entities, in percent.
    pub spawn_scale: u32,
}

impl Settings {
    pub open spec fn wf(&self) -> bool {
        self.half_width > 0 && self.half_height > 0
    }
}

/// The record that persists across frames.
#[derive(Debug)]
pub struct GameState {
    pub score: u32,
    pub high_score: u32,
    pub spawn_counter: i32,
    pub spawn_timer: Timer,
}

/// The mathematical value of a game state.
pub ghost struct GameStateView {
    pub score: nat,
    pub high_score: nat,
    pub spawn_counter: int,
    pub spawn_timer: TimerView,
}

impl View for GameState {
    type V = GameStateView;

    open spec fn view(&self) -> GameStateView {
        GameStateView {
            score: self.score as nat,
            high_score: self.high_score as nat,
            spawn_counter: self.spawn_counter as int,
            spawn_timer: self.spawn_timer@,
        }
    }
}

impl GameStateView {
    /// The high score never trails the score and the counter never goes negative.
    pub open spec fn wf(self) -> bool {
        &&& self.high_score >= self.score
        &&& self.spawn_counter >= 0
        &&& self.spawn_timer.wf()
    }
}

/// Duration of the default spawn timer: two seconds.
pub const SPAWN_PERIOD: u64 = 2_000_000_000;

impl GameState {
    pub open spec fn wf(&self) -> bool {
        self@.wf()
    }

    /// Adds `matches` points; the high score follows the score when it passes it.
    pub fn apply_score(&mut self, matches: u32)
        requires
            old(self).wf(),
            old(self).score + matches <= u32::MAX,
        ensures
            final(self).wf(),
            final(self)@ == (GameStateView {
                score: old(self)@.score + matches as nat,
                high_score: max_nat(old(self)@.high_score, old(self)@.score + matches as nat),
                ..old(self)@
            }),
    {
        self.score = self.score + matches;
        if self.score > self.high_score {
            self.high_score = self.score;
        }
    }

    /// Sets the score to zero and keeps the high score.
    pub fn reset_score(&mut self)
        ensures
            final(self)@ == (GameStateView { score: 0, ..old(self)@ }),
    {
        self.score = 0;
    }
}

impl Default for GameState {
    /// No score, nothing spawned, and a spawn timer that repeats every two seconds.
    fn default() -> (r: GameState)
        ensures
            r.wf(),
            r@ == (GameStateView {
                score: 0,
                high_score: 0,
                spawn_counter: 0,
                spawn_timer: TimerView {
                    mode: TimerMode::Repeating,
                    duration: SPAWN_PERIOD as nat,
                    elapsed: 0,
                },
            }),
    {
        GameState {
            score: 0,
            high_score: 0,
            spawn_counter: 0,
            spawn_timer: Timer::with_duration(SPAWN_PERIOD, TimerMode::Repeating),
        }
    }
}

/// The larger of two numbers.
pub open spec fn max_nat(a: nat, b: nat) -> nat {
    if a >= b {
        a
    } else {
        b
    }
}

/// Distance covered in `delta` nanoseconds at `speed` units per second, rounded down.
pub open spec fn step_len(speed: nat, delta: nat) -> int {
    (speed * delta / NANOS_PER_SECOND as nat) as int
}

/// The displacement along an axis with its two directions held or not.
pub open spec fn axis_shift(plus: bool, minus: bool, step: int) -> int {
    (if plus { step } else { 0 }) - (if minus { step } else { 0 })
}

/// The registry after the controlled entity, if present, moved by the held directions.
pub open spec fn movement_spec(
    reg: Seq<EntityView>,
    controlled: Seq<char>,
    input: Input,
    step: int,
) -> Seq<EntityView> {
    if has_label(reg, controlled) {
        let i = label_index(reg, controlled);
        reg.update(
            i,
            moved(
                reg[i],
                axis_shift(input.right, input.left, step),
                axis_shift(input.up, input.down, step),
            ),
        )
    } else {
        reg
    }
}

/// The entity spawned as number `n` at (x, y).
pub open spec fn spawn_view(prefix: Seq<char>, scale: nat, n: int, x: int, y: int) -> EntityView {
    EntityView {
        label: spawn_label(prefix, n as nat),
        x,
        y,
        rotation: 0,
        scale,
        collidable: true,
    }
}

/// Whether this frame's input asks for a spawn under the pointer.
pub open spec fn pointer_spawn(input: Input) -> bool {
    input.pointer_pressed && input.pointer is Some
}

/// The state and registry after one frame, where `spawn_at` is where a
/// timer-triggered spawn lands.
pub open spec fn frame_spec(
    s: GameStateView,
    reg: Seq<EntityView>,
    cfg: Settings,
    input: Input,
    delta: nat,
    events: Seq<CollisionView>,
    spawn_at: (i64, i64),
) -> (GameStateView, Seq<EntityView>) {
    let c = cfg.controlled@;
    let score1 = s.score + count_qualifying(events, c);
    let high1 = max_nat(s.high_score, score1);
    let reg1 = apply_removals(reg, events, c);
    let reg2 = movement_spec(reg1, c, input, step_len(cfg.speed as nat, delta));
    let prefix = cfg.spawn_prefix@;
    let scale = cfg.spawn_scale as nat;
    let reg3 = if pointer_spawn(input) {
        let p = input.pointer->Some_0;
        spawned(reg2, spawn_view(prefix, scale, s.spawn_counter, p.0 as int, p.1 as int))
    } else {
        reg2
    };
    let k1 = if pointer_spawn(input) { s.spawn_counter + 1 } else { s.spawn_counter };
    let (timer1, fired) = s.spawn_timer.tick_spec(delta);
    let reg4 = if fired {
        spawned(reg3, spawn_view(prefix, scale, k1, spawn_at.0 as int, spawn_at.1 as int))
    } else {
        reg3
    };
    let k2 = if fired { k1 + 1 } else { k1 };
    let score2 = if input.reset { 0 } else { score1 };
    (GameStateView { score: score2, high_score: high1, spawn_counter: k2, spawn_timer: timer1 }, reg4)
}

/// Resolves a batch of collisions: each qualifying event, in order, removes its
/// other side and earns one point and one cue; the high score follows the score.
pub fn resolve_collisions(
    state: &mut GameState,
    reg: &mut Registry,
    events: &Vec<CollisionEvent>,
    controlled: &String,
) -> (cues: Vec<Cue>)
    requires
        old(state).wf(),
        old(reg).wf(),
        old(state).score + events.len() <= u32::MAX,
    ensures
        final(state).wf(),
        final(reg).wf(),
        final(state)@.score == old(state)@.score + count_qualifying(views(events@), controlled@),
        final(state)@.high_score == max_nat(old(state)@.high_score, final(state)@.score),
        final(state)@.high_score >= old(state)@.high_score,
        final(state)@.high_score >= final(state)@.score,
        final(state)@.spawn_counter == old(state)@.spawn_counter,
        final(state)@.spawn_timer == old(state)@.spawn_timer,
        final(reg)@ == apply_removals(old(reg)@, views(events@), controlled@),
        cues@ == Seq::new(count_qualifying(views(events@), controlled@), |i: int| Cue::Pickup),
{
    let matches = process_collisions(reg, events, controlled);
    state.apply_score(matches as u32);
    let mut cues: Vec<Cue> = Vec::new();
    let mut i: usize = 0;
    while i < matches
        invariant
            i <= matches,
            cues@ == Seq::new(i as nat, |j: int| Cue::Pickup),
        decreases matches - i,
    {
        cues.push(Cue::Pickup);
        i = i + 1;
        assert(cues@ =~= Seq::new(i as nat, |j: int| Cue::Pickup));
    }
    cues
}

/// Moves the controlled entity, if present, by `speed * delta` (rounded down)
/// along each held direction; opposite directions cancel, and a diagonal is
/// the sum of its two axes, not normalized.
pub fn apply_movement(reg: &mut Registry, controlled: &String, input: &Input, speed: u64, delta: u64)
    requires
        old(reg).wf(),
        speed * delta <= u64::MAX,
    ensures
        final(reg).wf(),
        final(reg)@ == movement_spec(old(reg)@, controlled@, *input, step_len(speed as nat, delta as nat)),
{
    let travel = speed * delta / NANOS_PER_SECOND;
    assert(travel <= u64::MAX / NANOS_PER_SECOND);
    let step = travel as i64;
    let dx: i64 = (if input.right { step } else { 0 }) - (if input.left { step } else { 0 });
    let dy: i64 = (if input.up { step } else { 0 }) - (if input.down { step } else { 0 });
    reg.translate(controlled, dx, dy);
}

/// Spawns a collidable entity labelled with the prefix and the spawn counter at
/// (x, y) and advances the counter.
pub fn spawn_next(state: &mut GameState, reg: &mut Registry, prefix: &String, scale: u32, x: i64, y: i64)
    requires
        old(state).wf(),
        old(reg).wf(),
        old(state).spawn_counter < i32::MAX,
    ensures
        final(state).wf(),
        final(reg).wf(),
        final(state)@ == (GameStateView { spawn_counter: old(state)@.spawn_counter + 1, ..old(state)@ }),
        final(reg)@ == spawned(
            old(reg)@,
            spawn_view(prefix@, scale as nat, old(state)@.spawn_counter, x as int, y as int),
        ),
{
    let label = make_label(prefix, state.spawn_counter as u32);
    reg.spawn(label, x, y, scale, true);
    state.spawn_counter = state.spawn_counter + 1;
}

/// Runs one frame in its fixed order: exit request, collisions and score,
/// movement, pointer spawn, spawn timer (landing at `spawn_at`), score reset.
pub fn update_frame_at(
    state: &mut GameState,
    reg: &mut Registry,
    cfg: &Settings,
    input: &Input,
    delta: u64,
    events: Vec<CollisionEvent>,
    spawn_at: (i64, i64),
) -> (r: FrameReport)
    requires
        old(state).wf(),
        old(reg).wf(),
        old(state).score + events.len() <= u32::MAX,
        old(state).spawn_counter + 2 <= i32::MAX,
        cfg.speed * delta <= u64::MAX,
    ensures
        final(state).wf(),
        final(reg).wf(),
        (final(state)@, final(reg)@) == frame_spec(
            old(state)@,
            old(reg)@,
            *cfg,
            *input,
            delta as nat,
            views(events@),
            spawn_at,
        ),
        r.exit == input.exit,
        r.cues@ == Seq::new(count_qualifying(views(events@), cfg.controlled@), |i: int| Cue::Pickup),
{
    let exit = input.exit;
    let cues = resolve_collisions(state, reg, &events, &cfg.controlled);
    apply_movement(reg, &cfg.controlled, input, cfg.speed, delta);
    if input.pointer_pressed {
        match input.pointer {
            Some(p) => {
                spawn_next(state, reg, &cfg.spawn_prefix, cfg.spawn_scale, p.0, p.1);
            },
            None => {},
        }
    }
    if state.spawn_timer.tick(delta) == FireEvent::JustFinished {
        spawn_next(state, reg, &cfg.spawn_prefix, cfg.spawn_scale, spawn_at.0, spawn_at.1);
    }
    if input.reset {
        state.reset_score();
    }
    FrameReport { exit, cues }
}

/// Runs one frame; a timer-triggered spawn lands at a point drawn uniformly
/// from the playfield.
pub fn update_frame(
    state: &mut GameState,
    reg: &mut Registry,
    cfg: &Settings,
    input: &Input,
    delta: u64,
    events: Vec<CollisionEvent>,
) -> (r: FrameReport)
    requires
        old(state).wf(),
        old(reg).wf(),
        cfg.wf(),
        old(state).score + events.len() <= u32::MAX,
        old(state).spawn_counter + 2 <= i32::MAX,
        cfg.speed * delta <= u64::MAX,
    ensures
        final(state).wf(),
        final(reg).wf(),
        exists|x: i64, y: i64|
            -cfg.half_width <= x < cfg.half_width && -cfg.half_height <= y < cfg.half_height
                && (final(state)@, final(reg)@) == frame_spec(
                old(state)@,
                old(reg)@,
                *cfg,
                *input,
                delta as nat,
                views(events@),
                (x, y),
            ),
        r.exit == input.exit,
        r.cues@ == Seq::new(count_qualifying(views(events@), cfg.controlled@), |i: int| Cue::Pickup),
{
    let at = random_point(cfg.half_width, cfg.half_height);
    update_frame_at(state, reg, cfg, input, delta, events, at)
}

} // verus!
