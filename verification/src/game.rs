//! The world and its once-per-frame update: overlay gate, interaction
//! gate, the player's move, then every character in list order —
//! movement with live pathfinding, timers, the interact dialogue, and
//! one script step. Later characters observe changes made by earlier
//! ones in the same frame; that ordering is part of the semantics.
//!
//! The whole frame is specified by `frame_spec`, a mathematical
//! function of the world view and the frame input; `Game::update`
//! is proved equal to it.

use vstd::prelude::*;
use crate::anim::{AnimationsGroup, AnimationsGroupView, group_views, groups_wf};
use crate::characters::{
    Action, ActionCondition, Character, CharacterView, action_wf, char_views, char_wf, chars_wf,
    exists_interacting, any_interacting,
};
use crate::movement::{approach, dir_of_delta, direction_towards, move_towards, reaches_target,
    within_step};
use crate::pathfind::{astar_path, lemma_path_second_cell, pathfind};
use crate::player::{Direction, Player, PlayerView, player_update_spec, walk_step,
    walk_step_len};
use crate::tilemap::{TileMap, TileMapView};
use crate::MAX_COORD;

verus! {

/// The squared interact radius: a prompt is offered within 350 square
/// pixels of its anchor, in squared millipixels.
pub const INTERACT_RADIUS_SQ: u64 = 350_000_000;

/// What the presentation layer feeds in each frame.
#[derive(Clone, Copy, Debug)]
pub struct FrameInput {
    /// Elapsed time since the previous frame, in milliseconds.
    pub delta_ms: u32,
    /// The raw input axis; only its signs matter.
    pub axis: (i64, i64),
    /// Whether the confirm edge fired this frame.
    pub confirm: bool,
    /// Whether the debug fast-move input is held.
    pub fast_move: bool,
}

/// What the frame asks the presentation layer to show, beyond the
/// world state itself: at most one dialogue box (text and speaker
/// name) and at most one tooltip. When several characters ask in one
/// frame, the last in list order wins.
#[derive(Clone, Copy, Debug)]
pub struct FrameOutput {
    pub dialogue: Option<(&'static str, &'static str)>,
    pub tooltip: Option<&'static str>,
}

/// The empty frame output.
pub open spec fn no_output() -> FrameOutput {
    FrameOutput { dialogue: None, tooltip: None }
}

/// The squared distance of two positions, in squared millipixels.
pub open spec fn dist_sq(a: (u64, u64), b: (u64, u64)) -> int {
    let dx = if a.0 >= b.0 {
        a.0 - b.0
    } else {
        b.0 - a.0
    };
    let dy = if a.1 >= b.1 {
        a.1 - b.1
    } else {
        b.1 - a.1
    };
    dx * dx + dy * dy
}

/// Whether the player stands within the interact radius of an anchor.
pub open spec fn in_interact_range(p: PlayerView, anchor: (u64, u64)) -> bool {
    dist_sq((p.draw_x, p.draw_y), anchor) <= INTERACT_RADIUS_SQ
}

/// The total length of the character's active clip, in milliseconds;
/// zero when the character has no valid clip.
pub open spec fn clip_total(c: CharacterView, groups: Seq<AnimationsGroupView>) -> u64 {
    match c.animation {
        Some(g) => if g < groups.len() && c.animation_index < groups[g as int].animations.len() {
            groups[g as int].animations[c.animation_index as int].total_length as u64
        } else {
            0
        },
        None => 0,
    }
}

/// Whether the character's playing animation has reached the end of
/// its active clip.
pub open spec fn anim_finished(c: CharacterView, groups: Seq<AnimationsGroupView>) -> bool {
    match c.animation {
        Some(g) => {
            &&& g < groups.len()
            &&& c.animation_index < groups[g as int].animations.len()
            &&& c.animation_playing
            &&& c.anim_time >= groups[g as int].animations[c.animation_index as int].total_length
        },
        None => false,
    }
}

/// Whether the current step's condition holds this frame, with the
/// character's timers already advanced and `reached` saying whether
/// its walk snapped onto its destination this frame.
pub open spec fn eval_condition(
    cond: ActionCondition,
    c: CharacterView,
    p: PlayerView,
    groups: Seq<AnimationsGroupView>,
    reached: bool,
    confirm: bool,
) -> bool {
    match cond {
        ActionCondition::AlwaysChange => true,
        ActionCondition::NeverChange => false,
        ActionCondition::PlayerHasTag(t) => p.tags.contains(t),
        ActionCondition::PlayerInteract(_, anchor) => in_interact_range(p, anchor) && confirm,
        ActionCondition::ReachedDestination => reached,
        ActionCondition::AnimationFinish => anim_finished(c, groups),
        ActionCondition::Dialogue(_) => confirm,
        ActionCondition::Time(t) => c.timer >= t,
    }
}

/// What one action does to the character, the player and the overlay,
/// and the animation time it asks to set afterwards.
pub open spec fn apply_action(
    a: Action,
    c: CharacterView,
    p: PlayerView,
    screen: Option<usize>,
) -> (CharacterView, PlayerView, Option<usize>, Option<u64>) {
    match a {
        Action::Noop => (c, p, screen, None),
        Action::MoveTo(pos) => (CharacterView { moving_to: Some(pos), ..c }, p, screen, None),
        Action::ChangeAnimation(k) => (
            CharacterView { animation_index: k, anim_time: 0, ..c },
            p,
            screen,
            None,
        ),
        Action::SetPlayingAnimation(v) => (
            CharacterView { animation_playing: v, ..c },
            p,
            screen,
            None,
        ),
        Action::ShowScreen(k) => (c, p, Some(k), None),
        Action::HideScreen => (c, p, None, None),
        Action::GiveTag(t) => (c, PlayerView { tags: p.tags.push(t), ..p }, screen, None),
        Action::SetAnimationTime(t) => (c, p, screen, Some(t)),
        Action::SetInteractMessage(m) => (
            CharacterView { interact_message: m, ..c },
            p,
            screen,
            None,
        ),
        Action::SetCollision(v) => (CharacterView { has_collision: v, ..c }, p, screen, None),
        Action::SetName(n) => (CharacterView { name: n, ..c }, p, screen, None),
        Action::Teleport(x, y) => (
            CharacterView {
                x,
                y,
                draw_x: crate::cell_px_spec(x),
                draw_y: crate::cell_px_spec(y),
                ..c
            },
            p,
            screen,
            None,
        ),
        Action::TeleportPlayer(x, y) => (
            c,
            PlayerView {
                x,
                y,
                draw_x: crate::cell_px_spec(x),
                draw_y: crate::cell_px_spec(y),
                ..p
            },
            screen,
            None,
        ),
    }
}

/// The directional walking clip the character shows when facing `d`,
/// where its group has one; otherwise the clip it already shows.
pub open spec fn dir_clip_index(
    c: CharacterView,
    d: Direction,
    groups: Seq<AnimationsGroupView>,
) -> usize {
    match c.animation {
        Some(g) => if g < groups.len() {
            match groups[g as int].dir_index(d) {
                Some(k) => k,
                None => c.animation_index,
            }
        } else {
            c.animation_index
        },
        None => c.animation_index,
    }
}

/// One frame of a character's walk, and whether its draw position now
/// sits exactly on its pending destination.
///
/// With a pending destination, the character either snaps onto its own
/// cell — and then asks the pathfinder for the next hop toward the
/// destination, around walls and around the player's current cell — or
/// walks toward its cell at constant speed, turning and showing the
/// matching directional clip where it has one. The pathfinder runs
/// again on every cell crossed, so the route adapts to the player; no
/// route at all just leaves the character waiting on its cell.
pub open spec fn char_movement(
    c: CharacterView,
    map: TileMapView,
    groups: Seq<AnimationsGroupView>,
    player_cell: (usize, usize),
    dt: u32,
) -> (CharacterView, bool) {
    match c.moving_to {
        Some(dest) => {
            let tgt = (crate::cell_px_spec(c.x), crate::cell_px_spec(c.y));
            let pos = (c.draw_x, c.draw_y);
            let step = walk_step(dt, false);
            let c1 = if within_step(pos, tgt, step) {
                let snapped = CharacterView { draw_x: tgt.0, draw_y: tgt.1, ..c };
                match astar_path(map.tiles, map.width, (c.x, c.y), dest, player_cell) {
                    Some(pc) => if pc.0.len() >= 2 {
                        CharacterView { x: pc.0[1].0, y: pc.0[1].1, ..snapped }
                    } else {
                        snapped
                    },
                    None => snapped,
                }
            } else {
                let moved = approach(pos, tgt, step);
                let d = dir_of_delta(pos, tgt);
                CharacterView {
                    draw_x: moved.0,
                    draw_y: moved.1,
                    direction: d,
                    animation_index: dir_clip_index(c, d, groups),
                    ..c
                }
            };
            (c1, (crate::cell_px_spec(dest.0), crate::cell_px_spec(dest.1)) == (c1.draw_x, c1.draw_y))
        },
        None => (c, false),
    }
}

/// The interact dialogue: a character that is interacting and has a
/// message shows it as a dialogue box, and stops interacting when the
/// player confirms.
pub open spec fn interact_phase(
    c: CharacterView,
    confirm: bool,
    acc: FrameOutput,
) -> (CharacterView, FrameOutput) {
    match c.interact_message {
        Some(text) => if c.interacting {
            let out = FrameOutput { dialogue: Some((text, c.name)), ..acc };
            if confirm {
                (CharacterView { interacting: false, ..c }, out)
            } else {
                (c, out)
            }
        } else {
            (c, acc)
        },
        None => (c, acc),
    }
}

/// What evaluating a condition shows: a dialogue line shows its box
/// every frame it is current, and an interact prompt shows its tooltip
/// whenever the player is in range.
pub open spec fn cond_output(
    cond: ActionCondition,
    c: CharacterView,
    p: PlayerView,
    acc: FrameOutput,
) -> FrameOutput {
    match cond {
        ActionCondition::PlayerInteract(text, anchor) => if in_interact_range(p, anchor) {
            FrameOutput { tooltip: Some(text), ..acc }
        } else {
            acc
        },
        ActionCondition::Dialogue(text) => FrameOutput { dialogue: Some((text, c.name)), ..acc },
        _ => acc,
    }
}

/// The frame's first half for one character: the per-step timer, one
/// frame of walking, and the animation clock.
pub open spec fn char_pre(
    c: CharacterView,
    map: TileMapView,
    groups: Seq<AnimationsGroupView>,
    player_cell: (usize, usize),
    dt: u32,
) -> (CharacterView, bool) {
    let c1 = CharacterView { timer: crate::sat_add_spec(c.timer, dt as u64), ..c };
    let mr = char_movement(c1, map, groups, player_cell, dt);
    let c2 = mr.0;
    let c3 = if c2.animation_playing {
        CharacterView { anim_time: crate::sat_add_spec(c2.anim_time, dt as u64), ..c2 }
    } else {
        c2
    };
    (c3, mr.1)
}

/// The frame's second half for one character: the interact dialogue,
/// then at most one script step. When the current step's condition
/// holds, its action is applied, the per-step timer resets, the cursor
/// advances by exactly one, and any animation-time request — the
/// `AnimationFinish` clamp, or the one `SetAnimationTime` asked for,
/// which wins — is honoured last.
pub open spec fn resolve_step(
    c3: CharacterView,
    p: PlayerView,
    screen: Option<usize>,
    groups: Seq<AnimationsGroupView>,
    reached: bool,
    confirm: bool,
    acc: FrameOutput,
) -> (CharacterView, PlayerView, Option<usize>, FrameOutput) {
    let ir = interact_phase(c3, confirm, acc);
    let c4 = ir.0;
    let out1 = ir.1;
    let step = c4.cur_step();
    let out2 = cond_output(step.0, c4, p, out1);
    if eval_condition(step.0, c4, p, groups, reached, confirm) {
        let clamp: Option<u64> = if step.0 is AnimationFinish {
            Some((clip_total(c4, groups) - 1) as u64)
        } else {
            None
        };
        let ar = apply_action(step.1, c4, p, screen);
        let c5 = ar.0;
        let p5 = ar.1;
        let s5 = ar.2;
        let set_time = ar.3;
        let c6 = CharacterView {
            timer: 0,
            action_index: (c5.action_index + 1) as usize,
            ..c5
        };
        let c7 = match (set_time, clamp) {
            (Some(v), _) => CharacterView { anim_time: v, ..c6 },
            (None, Some(v)) => CharacterView { anim_time: v, ..c6 },
            (None, None) => c6,
        };
        (c7, p5, s5, out2)
    } else {
        (c4, p, screen, out2)
    }
}

/// One character's whole frame: timers and movement, then the
/// interact dialogue and at most one script step.
pub open spec fn char_frame(
    c: CharacterView,
    p: PlayerView,
    screen: Option<usize>,
    map: TileMapView,
    groups: Seq<AnimationsGroupView>,
    inp: FrameInput,
    acc: FrameOutput,
) -> (CharacterView, PlayerView, Option<usize>, FrameOutput) {
    let pre = char_pre(c, map, groups, (p.x, p.y), inp.delta_ms);
    resolve_step(pre.0, p, screen, groups, pre.1, inp.confirm, acc)
}

/// The first `n` characters run in list order, each seeing the
/// player, overlay and output state the previous ones left behind.
pub open spec fn run_chars(
    p: PlayerView,
    chars: Seq<CharacterView>,
    screen: Option<usize>,
    map: TileMapView,
    groups: Seq<AnimationsGroupView>,
    inp: FrameInput,
    n: int,
    acc: FrameOutput,
) -> (PlayerView, Seq<CharacterView>, Option<usize>, FrameOutput)
    decreases n,
{
    if n <= 0 {
        (p, chars, screen, acc)
    } else {
        let prev = run_chars(p, chars, screen, map, groups, inp, n - 1, acc);
        let sr = char_frame(prev.1[n - 1], prev.0, prev.2, map, groups, inp, prev.3);
        (sr.1, prev.1.update(n - 1, sr.0), sr.2, sr.3)
    }
}

/// The whole world: the grid, the clip-duration table, the player,
/// the characters, and the active overlay.
pub struct Game {
    pub map: TileMap,
    pub groups: Vec<AnimationsGroup>,
    pub player: Player,
    pub characters: Vec<Character>,
    pub screen: Option<usize>,
}

#[verifier::ext_equal]
pub ghost struct GameView {
    pub map: TileMapView,
    pub groups: Seq<AnimationsGroupView>,
    pub player: PlayerView,
    pub characters: Seq<CharacterView>,
    pub screen: Option<usize>,
}

impl View for Game {
    type V = GameView;

    open spec fn view(&self) -> GameView {
        GameView {
            map: self.map@,
            groups: group_views(self.groups@),
            player: self.player@,
            characters: char_views(self.characters@),
            screen: self.screen,
        }
    }
}

impl GameView {
    /// A well-formed world: the grid and the clip table are well
    /// formed, and every entity fits them. `Game::new` checks this
    /// once; every frame preserves it.
    pub open spec fn wf(self) -> bool {
        &&& self.map.wf()
        &&& groups_wf(self.groups)
        &&& self.player.wf()
        &&& chars_wf(self.characters, self.groups)
    }
}

/// One whole frame: while no overlay is up and nobody is interacting
/// or mid-dialogue, the player moves first; then every character runs
/// in list order.
pub open spec fn frame_spec(w: GameView, inp: FrameInput) -> (GameView, FrameOutput) {
    let gate = exists_interacting(w.characters);
    let moved = if w.screen is None && !gate {
        player_update_spec(
            w.player,
            w.characters,
            w.map,
            w.groups,
            inp.delta_ms,
            inp.axis,
            inp.fast_move,
        )
    } else {
        (w.player, w.characters)
    };
    let rr = run_chars(
        moved.0,
        moved.1,
        w.screen,
        w.map,
        w.groups,
        inp,
        moved.1.len() as int,
        no_output(),
    );
    (
        GameView { player: rr.0, characters: rr.1, screen: rr.2, ..w },
        rr.3,
    )
}

/// Whether the player stands within the interact radius of an anchor.
fn in_interact_range_exec(p: &Player, anchor: (u64, u64)) -> (r: bool)
    ensures
        r == in_interact_range(p@, anchor),
{
    let dx: u64 = if p.draw_x >= anchor.0 {
        p.draw_x - anchor.0
    } else {
        anchor.0 - p.draw_x
    };
    let dy: u64 = if p.draw_y >= anchor.1 {
        p.draw_y - anchor.1
    } else {
        anchor.1 - p.draw_y
    };
    // A gap over 18708 millipixels alone puts the squared distance
    // past the radius, and keeps the squares below, within u64.
    if dx > 18708 || dy > 18708 {
        proof {
            assert(dx * dx + dy * dy > INTERACT_RADIUS_SQ) by (nonlinear_arith)
                requires
                    dx > 18708 || dy > 18708,
            ;
        }
        false
    } else {
        proof {
            assert(dx * dx <= 18708 * 18708 && dy * dy <= 18708 * 18708) by (nonlinear_arith)
                requires
                    dx <= 18708,
                    dy <= 18708,
            ;
        }
        dx * dx + dy * dy <= INTERACT_RADIUS_SQ
    }
}

/// The frame's first half for one character, exactly as `char_pre`
/// describes it. Returns whether the walk now sits on its pending
/// destination.
#[verifier::rlimit(100)]
fn char_pre_exec(
    c: &mut Character,
    player_cell: (usize, usize),
    map: &TileMap,
    groups: &Vec<AnimationsGroup>,
    dt: u32,
) -> (reached: bool)
    requires
        map@.wf(),
        groups_wf(group_views(groups@)),
        char_wf(old(c)@, group_views(groups@)),
        player_cell.0 < MAX_COORD,
        player_cell.1 < MAX_COORD,
    ensures
        (final(c)@, reached) == char_pre(old(c)@, map@, group_views(groups@), player_cell, dt),
        char_wf(final(c)@, group_views(groups@)),
{
    let ghost groupsv = group_views(groups@);
    c.timer = crate::sat_add(c.timer, dt as u64);
    let ghost c1 = c@;
    let ghost mr = char_movement(c1, map@, groupsv, player_cell, dt);
    let mut reached: bool = false;
    if let Some(dest) = c.moving_to {
        let target = (crate::cell_px(c.x), crate::cell_px(c.y));
        let step_len = walk_step_len(dt, false);
        let pos = (c.draw_x, c.draw_y);
        if reaches_target(pos, target, step_len) {
            c.draw_x = target.0;
            c.draw_y = target.1;
            let path = pathfind(map, (c.x, c.y), dest, player_cell);
            if let Some(pc) = path {
                if pc.0.len() >= 2 {
                    let hop = pc.0[1];
                    proof {
                        lemma_path_second_cell(map@, player_cell, pc.0@, (c1.x, c1.y), dest);
                        assert(map@.in_bounds(hop));
                    }
                    c.x = hop.0;
                    c.y = hop.1;
                }
            }
        } else {
            let moved = move_towards(pos, target, step_len);
            c.draw_x = moved.0;
            c.draw_y = moved.1;
            c.direction = direction_towards(pos, target);
            match c.animation {
                Some(g) => {
                    if g < groups.len() {
                        match groups[g].index_for_direction(c.direction) {
                            Some(k) => {
                                c.animation_index = k;
                            },
                            None => {},
                        }
                    }
                },
                None => {},
            }
            proof {
                if let Some(g) = c1.animation {
                    if g < groupsv.len() {
                        assert(groupsv[g as int] == groups@[g as int]@);
                    }
                }
            }
        }
        reached = c.draw_x == crate::cell_px(dest.0) && c.draw_y == crate::cell_px(dest.1);
    }
    proof {
        assert(c@ =~= mr.0);
        assert(reached == mr.1);
    }
    if c.animation_playing {
        c.anim_time = crate::sat_add(c.anim_time, dt as u64);
    }
    proof {
        let pre = char_pre(old(c)@, map@, groupsv, player_cell, dt);
        assert(c@ =~= pre.0);
    }
    reached
}

/// Evaluates the character's current condition, records what it
/// shows, and hands back the `AnimationFinish` clamp when it fired.
#[verifier::rlimit(100)]
fn eval_condition_exec(
    c: &Character,
    player: &Player,
    out: &mut FrameOutput,
    groups: &Vec<AnimationsGroup>,
    reached: bool,
    confirm: bool,
) -> (r: (bool, Option<u64>))
    requires
        groups_wf(group_views(groups@)),
        char_wf(c@, group_views(groups@)),
    ensures
        r.0 == eval_condition(c@.cur_step().0, c@, player@, group_views(groups@), reached, confirm),
        *final(out) == cond_output(c@.cur_step().0, c@, player@, *old(out)),
        r.1 == (if r.0 && c@.cur_step().0 is AnimationFinish {
            Some((clip_total(c@, group_views(groups@)) - 1) as u64)
        } else {
            None::<u64>
        }),
{
    let ghost groupsv = group_views(groups@);
    let step = c.get_action();
    let fired: bool;
    let mut set_time: Option<u64> = None;
    match step.0 {
        ActionCondition::AlwaysChange => {
            fired = true;
        },
        ActionCondition::NeverChange => {
            fired = false;
        },
        ActionCondition::PlayerHasTag(t) => {
            fired = player.has_tag(t);
        },
        ActionCondition::PlayerInteract(text, anchor) => {
            let in_range = in_interact_range_exec(player, anchor);
            if in_range {
                out.tooltip = Some(text);
            }
            fired = in_range && confirm;
        },
        ActionCondition::ReachedDestination => {
            fired = reached;
        },
        ActionCondition::AnimationFinish => {
            let mut finished = false;
            match c.animation {
                Some(g) => {
                    if g < groups.len() && c.animation_index < groups[g].animations.len() {
                        let total = groups[g].animations[c.animation_index].total_length;
                        proof {
                            assert(groupsv[g as int] == groups@[g as int]@);
                            assert(groupsv[g as int].wf());
                            assert(groupsv[g as int].animations[c@.animation_index as int].wf());
                        }
                        if c.animation_playing && c.anim_time >= total as u64 {
                            finished = true;
                            set_time = Some((total - 1) as u64);
                        }
                    }
                },
                None => {},
            }
            fired = finished;
        },
        ActionCondition::Dialogue(text) => {
            out.dialogue = Some((text, c.name));
            fired = confirm;
        },
        ActionCondition::Time(t) => {
            fired = c.timer >= t;
        },
    }
    proof {
        if let Some(g) = c@.animation {
            if g < groupsv.len() {
                assert(groupsv[g as int] == groups@[g as int]@);
            }
        }
    }
    (fired, set_time)
}

/// Applies one action, exactly as `apply_action` describes it, and
/// hands back the animation time it asked to set.
#[verifier::rlimit(100)]
fn apply_action_exec(
    a: Action,
    c: &mut Character,
    player: &mut Player,
    screen: &mut Option<usize>,
    groups: &Vec<AnimationsGroup>,
) -> (set: Option<u64>)
    requires
        groups_wf(group_views(groups@)),
        char_wf(old(c)@, group_views(groups@)),
        old(player)@.wf(),
        action_wf(a, old(c)@.animation, group_views(groups@)),
    ensures
        (final(c)@, final(player)@, *final(screen), set) == apply_action(
            a,
            old(c)@,
            old(player)@,
            *old(screen),
        ),
        char_wf(final(c)@, group_views(groups@)),
        final(player)@.wf(),
{
    let ghost ar = apply_action(a, c@, player@, *screen);
    let mut set_time: Option<u64> = None;
    match a {
        Action::Noop => {},
        Action::MoveTo(pos) => {
            c.moving_to = Some(pos);
        },
        Action::ChangeAnimation(k) => {
            c.animation_index = k;
            c.anim_time = 0;
        },
        Action::SetPlayingAnimation(v) => {
            c.animation_playing = v;
        },
        Action::ShowScreen(k) => {
            *screen = Some(k);
        },
        Action::HideScreen => {
            *screen = None;
        },
        Action::GiveTag(t) => {
            player.tags.push(t);
        },
        Action::SetAnimationTime(t) => {
            set_time = Some(t);
        },
        Action::SetInteractMessage(m) => {
            c.interact_message = m;
        },
        Action::SetCollision(v) => {
            c.has_collision = v;
        },
        Action::SetName(n) => {
            c.name = n;
        },
        Action::Teleport(x, y) => {
            c.x = x;
            c.y = y;
            c.draw_x = crate::cell_px(x);
            c.draw_y = crate::cell_px(y);
        },
        Action::TeleportPlayer(x, y) => {
            player.x = x;
            player.y = y;
            player.draw_x = crate::cell_px(x);
            player.draw_y = crate::cell_px(y);
        },
    }
    proof {
        assert(c@ =~= ar.0);
        assert(player@ =~= ar.1);
        assert(*screen == ar.2);
    }
    set_time
}

/// The frame's second half for one character, exactly as
/// `resolve_step` describes it.
#[verifier::rlimit(100)]
fn resolve_step_exec(
    c: &mut Character,
    player: &mut Player,
    screen: &mut Option<usize>,
    out: &mut FrameOutput,
    groups: &Vec<AnimationsGroup>,
    reached: bool,
    confirm: bool,
)
    requires
        groups_wf(group_views(groups@)),
        char_wf(old(c)@, group_views(groups@)),
        old(player)@.wf(),
    ensures
        (final(c)@, final(player)@, *final(screen), *final(out)) == resolve_step(
            old(c)@,
            old(player)@,
            *old(screen),
            group_views(groups@),
            reached,
            confirm,
            *old(out),
        ),
        char_wf(final(c)@, group_views(groups@)),
        final(player)@.wf(),
{
    let ghost groupsv = group_views(groups@);
    let ghost p0 = player@;
    let ghost acc0 = *out;
    let ghost c3 = c@;

    // The interact dialogue.
    let ghost ir = interact_phase(c3, confirm, acc0);
    match c.interact_message {
        Some(text) => {
            if c.interacting {
                out.dialogue = Some((text, c.name));
                if confirm {
                    c.interacting = false;
                }
            }
        },
        None => {},
    }
    proof {
        assert(c@ =~= ir.0);
        assert(*out =~= ir.1);
    }
    let ghost c4 = c@;

    // The script step.
    let (fired, clamp) = eval_condition_exec(c, player, out, groups, reached, confirm);
    if fired {
        let action = c.get_action().1;
        proof {
            assert(c4.action_index < c4.actions.len());
            assert(action_wf(action, c4.animation, groupsv));
        }
        let mut set_time = apply_action_exec(action, c, player, screen, groups);
        if set_time.is_none() {
            set_time = clamp;
        }
        c.timer = 0;
        proof {
            assert(c@.action_index < c@.actions.len());
            assert(c.actions.len() <= usize::MAX);
        }
        c.action_index = c.action_index + 1;
        if let Some(t) = set_time {
            c.anim_time = t;
        }
    }
    proof {
        let fr = resolve_step(c3, p0, *old(screen), groupsv, reached, confirm, acc0);
        assert(c@ =~= fr.0);
        assert(player@ =~= fr.1);
        assert(*screen == fr.2);
        assert(*out =~= fr.3);
    }
}

/// One character's whole frame, exactly as `char_frame` describes it.
fn step_character(
    c: &mut Character,
    player: &mut Player,
    screen: &mut Option<usize>,
    out: &mut FrameOutput,
    map: &TileMap,
    groups: &Vec<AnimationsGroup>,
    inp: FrameInput,
)
    requires
        map@.wf(),
        groups_wf(group_views(groups@)),
        char_wf(old(c)@, group_views(groups@)),
        old(player)@.wf(),
    ensures
        (final(c)@, final(player)@, *final(screen), *final(out)) == char_frame(
            old(c)@,
            old(player)@,
            *old(screen),
            map@,
            group_views(groups@),
            inp,
            *old(out),
        ),
        char_wf(final(c)@, group_views(groups@)),
        final(player)@.wf(),
{
    let reached = char_pre_exec(c, (player.x, player.y), map, groups, inp.delta_ms);
    resolve_step_exec(c, player, screen, out, groups, reached, inp.confirm);
}

/// Running the first `n` characters leaves the list's length and the
/// characters from `n` on untouched.
pub proof fn lemma_run_chars_untouched(
    p: PlayerView,
    chars: Seq<CharacterView>,
    screen: Option<usize>,
    map: TileMapView,
    groups: Seq<AnimationsGroupView>,
    inp: FrameInput,
    n: int,
    acc: FrameOutput,
)
    requires
        n <= chars.len(),
    ensures
        run_chars(p, chars, screen, map, groups, inp, n, acc).1.len() == chars.len(),
        forall|j: int|
            n <= j < chars.len() ==> run_chars(p, chars, screen, map, groups, inp, n, acc).1[j]
                == chars[j],
    decreases n,
{
    if n > 0 {
        lemma_run_chars_untouched(p, chars, screen, map, groups, inp, n - 1, acc);
    }
}

impl Game {
    /// One whole frame, exactly as `frame_spec` describes it: the
    /// overlay and interaction gates, the player's move, then every
    /// character in list order. Returns what the frame asks the
    /// presentation layer to show.
    pub fn update(&mut self, inp: FrameInput) -> (out: FrameOutput)
        requires
            old(self)@.wf(),
        ensures
            (final(self)@, out) == frame_spec(old(self)@, inp),
            final(self)@.wf(),
    {
        let ghost w0 = self@;
        let gate = any_interacting(&self.characters);
        if self.screen.is_none() && gate.is_none() {
            self.player.update(
                inp.delta_ms,
                inp.axis,
                inp.fast_move,
                &self.map,
                &self.groups,
                &mut self.characters,
            );
        }
        let ghost p1 = self.player@;
        let ghost cs1 = char_views(self.characters@);
        proof {
            let moved = if w0.screen is None && !exists_interacting(w0.characters) {
                player_update_spec(
                    w0.player,
                    w0.characters,
                    w0.map,
                    w0.groups,
                    inp.delta_ms,
                    inp.axis,
                    inp.fast_move,
                )
            } else {
                (w0.player, w0.characters)
            };
            assert(p1 == moved.0);
            assert(cs1 == moved.1);
        }
        let mut out = FrameOutput { dialogue: None, tooltip: None };
        let n = self.characters.len();
        let mut i: usize = 0;
        while i < n
            invariant
                i <= n,
                n == cs1.len(),
                self@.map == w0.map,
                self@.groups == w0.groups,
                w0.map.wf(),
                groups_wf(w0.groups),
                self@.player.wf(),
                chars_wf(char_views(self.characters@), w0.groups),
                self.characters@.len() == n,
                (self@.player, char_views(self.characters@), self@.screen, out) == run_chars(
                    p1,
                    cs1,
                    w0.screen,
                    w0.map,
                    w0.groups,
                    inp,
                    i as int,
                    no_output(),
                ),
            decreases n - i,
        {
            let ghost views_before = char_views(self.characters@);
            proof {
                lemma_run_chars_untouched(
                    p1,
                    cs1,
                    w0.screen,
                    w0.map,
                    w0.groups,
                    inp,
                    i as int,
                    no_output(),
                );
                assert(views_before[i as int] == cs1[i as int]);
                assert(char_wf(views_before[i as int], w0.groups));
                assert(self.characters@[i as int]@ == views_before[i as int]);
            }
            let c = &mut self.characters[i];
            step_character(c, &mut self.player, &mut self.screen, &mut out, &self.map, &self.groups, inp);
            proof {
                assert(char_views(self.characters@) =~= views_before.update(i as int, c@));
                let prev = run_chars(p1, cs1, w0.screen, w0.map, w0.groups, inp, i as int, no_output());
                let sr = char_frame(prev.1[i as int], prev.0, prev.2, w0.map, w0.groups, inp, prev.3);
                assert(c@ == sr.0);
                assert(char_views(self.characters@) =~= prev.1.update(i as int, sr.0));
                assert(forall|k: int| 0 <= k < n && k != i ==> char_views(self.characters@)[k]
                    == views_before[k]);
                assert forall|k: int| 0 <= k < n implies char_wf(
                    #[trigger] char_views(self.characters@)[k],
                    w0.groups,
                ) by {
                    if k != i as int {
                        assert(char_wf(views_before[k], w0.groups));
                    }
                }
            }
            i = i + 1;
        }
        proof {
            let fs = frame_spec(w0, inp);
            assert(final(self)@ =~= fs.0);
            assert(out == fs.1);
        }
        out
    }
}

/// Why the world was rejected at construction: malformed authored
/// data is a fatal configuration error and fails loudly up front.
#[derive(PartialEq, Eq, Structural, Clone, Copy, Debug)]
pub enum ConfigError {
    /// The wall layer is malformed.
    InvalidMap,
    /// The clip group at this index is malformed.
    InvalidGroup(usize),
    /// The player's cell does not fit the coordinate range.
    InvalidPlayer,
    /// The character at this index is malformed: its cells, cursor,
    /// clip reference or one of its script actions.
    InvalidCharacter(usize),
}

/// Whether one action passes the world constructor's checks.
fn action_ok(a: &Action, animation: Option<usize>, groups: &Vec<AnimationsGroup>) -> (r: bool)
    ensures
        r == action_wf(*a, animation, group_views(groups@)),
{
    let ghost groupsv = group_views(groups@);
    proof {
        if let Some(g) = animation {
            if g < groupsv.len() {
                assert(groupsv[g as int] == groups@[g as int]@);
            }
        }
    }
    match a {
        Action::Teleport(x, y) => *x < MAX_COORD && *y < MAX_COORD,
        Action::TeleportPlayer(x, y) => *x < MAX_COORD && *y < MAX_COORD,
        Action::MoveTo(d) => d.0 < MAX_COORD && d.1 < MAX_COORD,
        Action::ChangeAnimation(k) => match animation {
            Some(g) => g < groups.len() && *k < groups[g].animations.len(),
            None => true,
        },
        _ => true,
    }
}

/// Whether one character passes the world constructor's checks.
fn char_check(c: &Character, groups: &Vec<AnimationsGroup>) -> (r: bool)
    ensures
        r == char_wf(c@, group_views(groups@)),
{
    let ghost groupsv = group_views(groups@);
    proof {
        if let Some(g) = c@.animation {
            if g < groupsv.len() {
                assert(groupsv[g as int] == groups@[g as int]@);
            }
        }
    }
    let cells_ok = c.x < MAX_COORD && c.y < MAX_COORD && (match c.moving_to {
        Some(d) => d.0 < MAX_COORD && d.1 < MAX_COORD,
        None => true,
    });
    let anim_ok = match c.animation {
        Some(g) => g < groups.len() && c.animation_index < groups[g].animations.len(),
        None => true,
    };
    proof {
        assert(c@.actions.len() == c.actions.len());
    }
    if !(cells_ok && anim_ok && c.action_index <= c.actions.len()) {
        return false;
    }
    let mut i: usize = 0;
    while i < c.actions.len()
        invariant
            i <= c.actions@.len(),
            groupsv == group_views(groups@),
            forall|j: int| 0 <= j < i ==> action_wf(c.actions@[j].1, c@.animation, groupsv),
        decreases c.actions@.len() - i,
    {
        if !action_ok(&c.actions[i].1, c.animation, groups) {
            return false;
        }
        i = i + 1;
    }
    true
}

impl Game {
    /// Builds the world from its authored data, with no overlay up,
    /// rejecting malformed data: a malformed wall layer, a malformed
    /// clip group, a player or character outside the coordinate range,
    /// a cursor past its script's end, or a script action that a
    /// frame could not apply (an out-of-range teleport or walk target,
    /// or a clip switch outside the character's group).
    pub fn new(
        map: TileMap,
        groups: Vec<AnimationsGroup>,
        player: Player,
        characters: Vec<Character>,
    ) -> (r: Result<Game, ConfigError>)
        ensures
            match r {
                Ok(g) => {
                    &&& g@ == (GameView {
                        map: map@,
                        groups: group_views(groups@),
                        player: player@,
                        characters: char_views(characters@),
                        screen: None,
                    })
                    &&& g@.wf()
                },
                Err(ConfigError::InvalidMap) => !map@.wf(),
                Err(ConfigError::InvalidGroup(i)) => {
                    &&& map@.wf()
                    &&& i < groups@.len()
                    &&& !group_views(groups@)[i as int].wf()
                    &&& forall|j: int| 0 <= j < i ==> (#[trigger] group_views(groups@)[j]).wf()
                },
                Err(ConfigError::InvalidPlayer) => {
                    &&& map@.wf()
                    &&& groups_wf(group_views(groups@))
                    &&& !player@.wf()
                },
                Err(ConfigError::InvalidCharacter(i)) => {
                    &&& map@.wf()
                    &&& groups_wf(group_views(groups@))
                    &&& player@.wf()
                    &&& i < characters@.len()
                    &&& !char_wf(char_views(characters@)[i as int], group_views(groups@))
                    &&& forall|j: int| 0 <= j < i ==> char_wf(
                        #[trigger] char_views(characters@)[j],
                        group_views(groups@),
                    )
                },
            },
            r is Ok <==> (GameView {
                map: map@,
                groups: group_views(groups@),
                player: player@,
                characters: char_views(characters@),
                screen: None,
            }).wf(),
    {
        let ghost groupsv = group_views(groups@);
        let ghost charsv = char_views(characters@);
        if !map.wf_check() {
            return Err(ConfigError::InvalidMap);
        }
        proof {
            assert(map@.wf());
        }
        let mut i: usize = 0;
        while i < groups.len()
            invariant
                i <= groups@.len(),
                map@.wf(),
                groupsv == group_views(groups@),
                forall|j: int| 0 <= j < i ==> (#[trigger] groupsv[j]).wf(),
            decreases groups@.len() - i,
        {
            proof {
                assert(groupsv[i as int] == groups@[i as int]@);
            }
            if !groups[i].wf_check() {
                return Err(ConfigError::InvalidGroup(i));
            }
            i = i + 1;
        }
        if !(player.x < MAX_COORD && player.y < MAX_COORD) {
            return Err(ConfigError::InvalidPlayer);
        }
        let mut k: usize = 0;
        while k < characters.len()
            invariant
                k <= characters@.len(),
                map@.wf(),
                groups_wf(groupsv),
                player@.wf(),
                groupsv == group_views(groups@),
                charsv == char_views(characters@),
                forall|j: int| 0 <= j < k ==> char_wf(#[trigger] charsv[j], groupsv),
            decreases characters@.len() - k,
        {
            proof {
                assert(charsv[k as int] == characters@[k as int]@);
            }
            if !char_check(&characters[k], &groups) {
                return Err(ConfigError::InvalidCharacter(k));
            }
            k = k + 1;
        }
        let g = Game { map, groups, player, characters, screen: None };
        proof {
            assert(g@ =~= (GameView {
                map: g.map@,
                groups: groupsv,
                player: g.player@,
                characters: charsv,
                screen: None,
            }));
        }
        Ok(g)
    }
}

} // verus!
