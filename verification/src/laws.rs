//! The properties the interpreter keeps, stated over `frame_spec` and
//! proved once and for all: cursors only move forward and stay inside
//! their scripts, scripts never change, pacing of `AlwaysChange` and
//! `Time` steps, the `AnimationFinish` gate and clamp, what an active
//! interaction freezes, and that the player's tags only ever grow.

use vstd::prelude::*;
use crate::anim::AnimationsGroupView;
use crate::characters::{Action, ActionCondition, CharacterView, exists_interacting,
    find_collider, find_collider_from};
use crate::game::{
    FrameInput, FrameOutput, GameView, anim_finished, apply_action, char_frame, char_pre,
    clip_total, eval_condition, frame_spec, interact_phase, no_output, resolve_step, run_chars,
    lemma_run_chars_untouched,
};
use crate::player::{Direction, PlayerView, player_update_spec, shift_cell_spec};
use crate::tilemap::TileMapView;

verus! {

/// An action never touches the character's script, cursor or clip
/// group, never touches the player's walk state, facing or clock, and
/// at most appends one tag.
proof fn lemma_apply_action_effects(
    a: Action,
    c: CharacterView,
    p: PlayerView,
    screen: Option<usize>,
)
    ensures
        apply_action(a, c, p, screen).0.actions == c.actions,
        apply_action(a, c, p, screen).0.action_index == c.action_index,
        apply_action(a, c, p, screen).0.animation == c.animation,
        apply_action(a, c, p, screen).0.interacting == c.interacting,
        apply_action(a, c, p, screen).1.state == p.state,
        apply_action(a, c, p, screen).1.direction == p.direction,
        apply_action(a, c, p, screen).1.time == p.time,
        match a {
            Action::GiveTag(t) => apply_action(a, c, p, screen).1.tags == p.tags.push(t),
            _ => apply_action(a, c, p, screen).1.tags == p.tags,
        },
{
}

/// The frame's first half never touches the script, the cursor, the
/// clip group, the interaction state or the animation switch, and
/// accumulates the per-step timer exactly once.
proof fn lemma_char_pre_effects(
    c: CharacterView,
    map: TileMapView,
    groups: Seq<AnimationsGroupView>,
    player_cell: (usize, usize),
    dt: u32,
)
    ensures
        char_pre(c, map, groups, player_cell, dt).0.actions == c.actions,
        char_pre(c, map, groups, player_cell, dt).0.action_index == c.action_index,
        char_pre(c, map, groups, player_cell, dt).0.animation == c.animation,
        char_pre(c, map, groups, player_cell, dt).0.animation_playing == c.animation_playing,
        char_pre(c, map, groups, player_cell, dt).0.interacting == c.interacting,
        char_pre(c, map, groups, player_cell, dt).0.interact_message == c.interact_message,
        char_pre(c, map, groups, player_cell, dt).0.timer == crate::sat_add_spec(
            c.timer,
            dt as u64,
        ),
        c.moving_to is None ==> char_pre(c, map, groups, player_cell, dt).0.animation_index
            == c.animation_index,
        c.moving_to is None ==> char_pre(c, map, groups, player_cell, dt).0.anim_time == (
        if c.animation_playing {
            crate::sat_add_spec(c.anim_time, dt as u64)
        } else {
            c.anim_time
        }),
        c.moving_to is None ==> char_pre(c, map, groups, player_cell, dt).1 == false,
{
}

/// The frame's second half leaves the script and the clip group
/// alone, moves the cursor forward by at most one and only from
/// inside the script, leaves the player's walk state, facing and
/// clock alone, and at most appends one tag.
proof fn lemma_resolve_effects(
    c3: CharacterView,
    p: PlayerView,
    screen: Option<usize>,
    groups: Seq<AnimationsGroupView>,
    reached: bool,
    confirm: bool,
    acc: FrameOutput,
)
    ensures
        resolve_step(c3, p, screen, groups, reached, confirm, acc).0.actions == c3.actions,
        resolve_step(c3, p, screen, groups, reached, confirm, acc).0.animation == c3.animation,
        resolve_step(c3, p, screen, groups, reached, confirm, acc).0.action_index
            == c3.action_index || (c3.action_index < c3.actions.len() && resolve_step(
            c3,
            p,
            screen,
            groups,
            reached,
            confirm,
            acc,
        ).0.action_index == (c3.action_index + 1) as usize),
        resolve_step(c3, p, screen, groups, reached, confirm, acc).0.interacting
            ==> c3.interacting,
        resolve_step(c3, p, screen, groups, reached, confirm, acc).1.state == p.state,
        resolve_step(c3, p, screen, groups, reached, confirm, acc).1.direction == p.direction,
        resolve_step(c3, p, screen, groups, reached, confirm, acc).1.time == p.time,
        resolve_step(c3, p, screen, groups, reached, confirm, acc).1.tags.len() >= p.tags.len(),
        forall|k: int|
            0 <= k < p.tags.len() ==> resolve_step(
                c3,
                p,
                screen,
                groups,
                reached,
                confirm,
                acc,
            ).1.tags[k] == p.tags[k],
{
    let ir = interact_phase(c3, confirm, acc);
    let step = ir.0.cur_step();
    if eval_condition(step.0, ir.0, p, groups, reached, confirm) {
        lemma_apply_action_effects(step.1, ir.0, p, screen);
    }
}

/// One character's frame leaves its script and clip group alone,
/// moves its cursor forward by at most one and only from inside the
/// script, leaves the player's walk state, facing and clock alone,
/// and at most appends one tag.
proof fn lemma_char_frame_effects(
    c: CharacterView,
    p: PlayerView,
    screen: Option<usize>,
    map: TileMapView,
    groups: Seq<AnimationsGroupView>,
    inp: FrameInput,
    acc: FrameOutput,
)
    ensures
        char_frame(c, p, screen, map, groups, inp, acc).0.actions == c.actions,
        char_frame(c, p, screen, map, groups, inp, acc).0.animation == c.animation,
        char_frame(c, p, screen, map, groups, inp, acc).0.action_index == c.action_index || (
        c.action_index < c.actions.len() && char_frame(
            c,
            p,
            screen,
            map,
            groups,
            inp,
            acc,
        ).0.action_index == (c.action_index + 1) as usize),
        char_frame(c, p, screen, map, groups, inp, acc).0.interacting ==> c.interacting,
        char_frame(c, p, screen, map, groups, inp, acc).1.state == p.state,
        char_frame(c, p, screen, map, groups, inp, acc).1.direction == p.direction,
        char_frame(c, p, screen, map, groups, inp, acc).1.time == p.time,
        char_frame(c, p, screen, map, groups, inp, acc).1.tags.len() >= p.tags.len(),
        forall|k: int|
            0 <= k < p.tags.len() ==> char_frame(c, p, screen, map, groups, inp, acc).1.tags[k]
                == p.tags[k],
{
    let pre = char_pre(c, map, groups, (p.x, p.y), inp.delta_ms);
    lemma_char_pre_effects(c, map, groups, (p.x, p.y), inp.delta_ms);
    lemma_resolve_effects(pre.0, p, screen, groups, pre.1, inp.confirm, acc);
}

/// Running the characters leaves every script and clip group alone,
/// moves each cursor forward by at most one and only from inside its
/// script, leaves the player's walk state, facing and clock alone,
/// and only appends tags.
proof fn lemma_run_chars_effects(
    p: PlayerView,
    chars: Seq<CharacterView>,
    screen: Option<usize>,
    map: TileMapView,
    groups: Seq<AnimationsGroupView>,
    inp: FrameInput,
    n: int,
    acc: FrameOutput,
)
    requires
        0 <= n <= chars.len(),
    ensures
        run_chars(p, chars, screen, map, groups, inp, n, acc).1.len() == chars.len(),
        forall|i: int|
            0 <= i < chars.len() ==> {
                let ci = #[trigger] run_chars(p, chars, screen, map, groups, inp, n, acc).1[i];
                &&& ci.actions == chars[i].actions
                &&& ci.animation == chars[i].animation
                &&& (ci.action_index == chars[i].action_index || (chars[i].action_index
                    < chars[i].actions.len() && ci.action_index == (chars[i].action_index
                    + 1) as usize))
                &&& (ci.interacting ==> chars[i].interacting)
            },
        run_chars(p, chars, screen, map, groups, inp, n, acc).0.state == p.state,
        run_chars(p, chars, screen, map, groups, inp, n, acc).0.direction == p.direction,
        run_chars(p, chars, screen, map, groups, inp, n, acc).0.time == p.time,
        run_chars(p, chars, screen, map, groups, inp, n, acc).0.tags.len() >= p.tags.len(),
        forall|k: int|
            0 <= k < p.tags.len() ==> run_chars(p, chars, screen, map, groups, inp, n, acc).0.tags[k]
                == p.tags[k],
    decreases n,
{
    if n > 0 {
        lemma_run_chars_effects(p, chars, screen, map, groups, inp, n - 1, acc);
        lemma_run_chars_untouched(p, chars, screen, map, groups, inp, n - 1, acc);
        let prev = run_chars(p, chars, screen, map, groups, inp, n - 1, acc);
        lemma_char_frame_effects(prev.1[n - 1], prev.0, prev.2, map, groups, inp, prev.3);
    }
}

/// The player's move leaves every character's script, cursor, timers,
/// walk and animation clock alone — at most it starts one interaction
/// and turns that character's clip — and leaves the player's tags
/// alone.
proof fn lemma_player_phase_effects(
    p: PlayerView,
    chars: Seq<CharacterView>,
    map: TileMapView,
    groups: Seq<AnimationsGroupView>,
    delta_ms: u32,
    axis: (i64, i64),
    fast_move: bool,
)
    ensures
        player_update_spec(p, chars, map, groups, delta_ms, axis, fast_move).1.len()
            == chars.len(),
        forall|i: int|
            0 <= i < chars.len() ==> {
                let ci = #[trigger] player_update_spec(
                    p,
                    chars,
                    map,
                    groups,
                    delta_ms,
                    axis,
                    fast_move,
                ).1[i];
                &&& ci.actions == chars[i].actions
                &&& ci.action_index == chars[i].action_index
                &&& ci.animation == chars[i].animation
                &&& ci.animation_playing == chars[i].animation_playing
                &&& ci.anim_time == chars[i].anim_time
                &&& ci.timer == chars[i].timer
                &&& ci.moving_to == chars[i].moving_to
            },
        player_update_spec(p, chars, map, groups, delta_ms, axis, fast_move).0.tags == p.tags,
        (forall|k: int| 0 <= k < chars.len() ==> !(#[trigger] chars[k]).interacting)
            ==> (forall|i: int, j: int|
                0 <= i < chars.len() && 0 <= j < chars.len() && (#[trigger] player_update_spec(
                    p,
                    chars,
                    map,
                    groups,
                    delta_ms,
                    axis,
                    fast_move,
                ).1[i]).interacting && (#[trigger] player_update_spec(
                    p,
                    chars,
                    map,
                    groups,
                    delta_ms,
                    axis,
                    fast_move,
                ).1[j]).interacting ==> i == j),
{
    let r = player_update_spec(p, chars, map, groups, delta_ms, axis, fast_move);
    if p.state is Idle && axis != (0int as i64, 0int as i64) {
        let dir = Direction::from_vec2_spec(axis, p.direction.to_vec2_spec());
        let nx = shift_cell_spec(p.x, dir.to_vec2_spec().0);
        let ny = shift_cell_spec(p.y, dir.to_vec2_spec().1);
        if !map.is_wall_spec((nx, ny)) {
            match find_collider(chars, nx, ny) {
                Some(j) => {
                    lemma_find_collider_range(chars, nx, ny, 0);
                    if !exists_interacting(chars) && chars[j].interact_message is Some {
                        assert(r.1 == chars.update(
                            j,
                            CharacterView {
                                interacting: true,
                                animation_index: crate::player::faced_anim_index(
                                    chars[j],
                                    p,
                                    groups,
                                ),
                                ..chars[j]
                            },
                        ));
                        assert(forall|i: int| 0 <= i < chars.len() && i != j
                            ==> r.1[i] == chars[i]);
                    }
                },
                None => {},
            }
        }
    }
}

/// A found collider index lies inside the character list.
proof fn lemma_find_collider_range(chars: Seq<CharacterView>, nx: usize, ny: usize, s: int)
    ensures
        find_collider_from(chars, nx, ny, s) matches Some(j) ==> s <= j < chars.len(),
    decreases chars.len() - s,
{
    if 0 <= s < chars.len() {
        if !(chars[s].has_collision && chars[s].x == nx && chars[s].y == ny) {
            lemma_find_collider_range(chars, nx, ny, s + 1);
        }
    }
}

/// For every character, over any frame: the script itself never
/// changes, and the cursor never moves backward, advances by at most
/// one step, and never leaves the script — once past the end it stays
/// exactly at the end forever.
pub proof fn lemma_cursor_monotonic(w: GameView, inp: FrameInput)
    requires
        w.wf(),
    ensures
        frame_spec(w, inp).0.characters.len() == w.characters.len(),
        forall|i: int|
            0 <= i < w.characters.len() ==> {
                let ci = #[trigger] frame_spec(w, inp).0.characters[i];
                &&& ci.actions == w.characters[i].actions
                &&& w.characters[i].action_index <= ci.action_index <= w.characters[i].action_index
                    + 1
                &&& ci.action_index <= ci.actions.len()
            },
{
    let moved = if w.screen is None && !exists_interacting(w.characters) {
        player_update_spec(
            w.player,
            w.characters,
            w.map,
            w.groups,
            inp.delta_ms,
            inp.axis,
            inp.fast_move,
        )
    } else {
        (w.player, w.characters)
    };
    lemma_player_phase_effects(
        w.player,
        w.characters,
        w.map,
        w.groups,
        inp.delta_ms,
        inp.axis,
        inp.fast_move,
    );
    lemma_run_chars_effects(
        moved.0,
        moved.1,
        w.screen,
        w.map,
        w.groups,
        inp,
        moved.1.len() as int,
        no_output(),
    );
}

/// The player's tag collection is append-only: over any frame it only
/// ever grows, and what was in it stays in it, in order.
pub proof fn lemma_tags_append_only(w: GameView, inp: FrameInput)
    ensures
        frame_spec(w, inp).0.player.tags.len() >= w.player.tags.len(),
        forall|k: int|
            0 <= k < w.player.tags.len() ==> frame_spec(w, inp).0.player.tags[k]
                == w.player.tags[k],
{
    let moved = if w.screen is None && !exists_interacting(w.characters) {
        player_update_spec(
            w.player,
            w.characters,
            w.map,
            w.groups,
            inp.delta_ms,
            inp.axis,
            inp.fast_move,
        )
    } else {
        (w.player, w.characters)
    };
    lemma_player_phase_effects(
        w.player,
        w.characters,
        w.map,
        w.groups,
        inp.delta_ms,
        inp.axis,
        inp.fast_move,
    );
    lemma_run_chars_effects(
        moved.0,
        moved.1,
        w.screen,
        w.map,
        w.groups,
        inp,
        moved.1.len() as int,
        no_output(),
    );
}

/// While any character is interacting or mid-dialogue, the player's
/// movement machine is frozen for the frame: walk state, facing,
/// clock, cell and draw position can change only through a script's
/// own `TeleportPlayer`, never through movement input.
pub proof fn lemma_interaction_gate_freezes_player(w: GameView, inp: FrameInput)
    requires
        exists_interacting(w.characters),
    ensures
        frame_spec(w, inp).0.player.state == w.player.state,
        frame_spec(w, inp).0.player.direction == w.player.direction,
        frame_spec(w, inp).0.player.time == w.player.time,
{
    lemma_run_chars_effects(
        w.player,
        w.characters,
        w.screen,
        w.map,
        w.groups,
        inp,
        w.characters.len() as int,
        no_output(),
    );
}

/// The character that runs at position `i` of the list is exactly the
/// original character at `i`, stepped once in the context the earlier
/// characters left behind.
proof fn lemma_run_chars_at_index(
    p: PlayerView,
    chars: Seq<CharacterView>,
    screen: Option<usize>,
    map: TileMapView,
    groups: Seq<AnimationsGroupView>,
    inp: FrameInput,
    n: int,
    acc: FrameOutput,
    i: int,
)
    requires
        0 <= i < n <= chars.len(),
    ensures
        run_chars(p, chars, screen, map, groups, inp, n, acc).1[i] == char_frame(
            chars[i],
            run_chars(p, chars, screen, map, groups, inp, i, acc).0,
            run_chars(p, chars, screen, map, groups, inp, i, acc).2,
            map,
            groups,
            inp,
            run_chars(p, chars, screen, map, groups, inp, i, acc).3,
        ).0,
    decreases n,
{
    lemma_run_chars_untouched(p, chars, screen, map, groups, inp, n - 1, acc);
    if n - 1 > i {
        lemma_run_chars_at_index(p, chars, screen, map, groups, inp, n - 1, acc, i);
    }
}

/// One frame of a character whose current step fires unconditionally
/// advances the cursor by exactly one — never more, never skipping.
proof fn lemma_char_frame_always(
    c: CharacterView,
    p: PlayerView,
    screen: Option<usize>,
    map: TileMapView,
    groups: Seq<AnimationsGroupView>,
    inp: FrameInput,
    acc: FrameOutput,
)
    requires
        c.action_index < c.actions.len(),
        c.actions[c.action_index as int].0 is AlwaysChange,
        c.actions.len() <= usize::MAX,
    ensures
        char_frame(c, p, screen, map, groups, inp, acc).0.action_index == c.action_index + 1,
{
    lemma_char_pre_effects(c, map, groups, (p.x, p.y), inp.delta_ms);
    let pre = char_pre(c, map, groups, (p.x, p.y), inp.delta_ms);
    let ir = interact_phase(pre.0, inp.confirm, acc);
    assert(ir.0.action_index == c.action_index);
    assert(ir.0.actions == c.actions);
    let step = ir.0.cur_step();
    assert(step.0 is AlwaysChange);
    lemma_apply_action_effects(step.1, ir.0, p, screen);
}

/// Over any frame, a script of nothing but `AlwaysChange` steps
/// drains at exactly one step per frame until it ends.
pub proof fn lemma_always_change_advances_one(w: GameView, inp: FrameInput, i: int)
    requires
        w.wf(),
        0 <= i < w.characters.len(),
        forall|k: int|
            0 <= k < w.characters[i].actions.len() ==> (#[trigger] w.characters[i].actions[k]).0
                is AlwaysChange,
        w.characters[i].action_index < w.characters[i].actions.len(),
    ensures
        frame_spec(w, inp).0.characters[i].action_index == w.characters[i].action_index + 1,
{
    let moved = if w.screen is None && !exists_interacting(w.characters) {
        player_update_spec(
            w.player,
            w.characters,
            w.map,
            w.groups,
            inp.delta_ms,
            inp.axis,
            inp.fast_move,
        )
    } else {
        (w.player, w.characters)
    };
    lemma_player_phase_effects(
        w.player,
        w.characters,
        w.map,
        w.groups,
        inp.delta_ms,
        inp.axis,
        inp.fast_move,
    );
    let n = moved.1.len() as int;
    lemma_run_chars_at_index(moved.0, moved.1, w.screen, w.map, w.groups, inp, n, no_output(), i);
    let ctx = run_chars(moved.0, moved.1, w.screen, w.map, w.groups, inp, i, no_output());
    assert(moved.1[i].actions == w.characters[i].actions);
    lemma_char_frame_always(moved.1[i], ctx.0, ctx.2, w.map, w.groups, inp, ctx.3);
}

/// One frame of a character whose current step waits on the per-step
/// timer: the step fires exactly when the accumulated time reaches the
/// threshold, and firing resets the timer to zero at once.
proof fn lemma_char_frame_time(
    c: CharacterView,
    p: PlayerView,
    screen: Option<usize>,
    map: TileMapView,
    groups: Seq<AnimationsGroupView>,
    inp: FrameInput,
    acc: FrameOutput,
    t: u64,
)
    requires
        c.action_index < c.actions.len(),
        c.actions[c.action_index as int].0 == ActionCondition::Time(t),
        c.actions.len() <= usize::MAX,
    ensures
        crate::sat_add_spec(c.timer, inp.delta_ms as u64) >= t ==> char_frame(
            c,
            p,
            screen,
            map,
            groups,
            inp,
            acc,
        ).0.action_index == c.action_index + 1 && char_frame(
            c,
            p,
            screen,
            map,
            groups,
            inp,
            acc,
        ).0.timer == 0,
        crate::sat_add_spec(c.timer, inp.delta_ms as u64) < t ==> char_frame(
            c,
            p,
            screen,
            map,
            groups,
            inp,
            acc,
        ).0.action_index == c.action_index && char_frame(
            c,
            p,
            screen,
            map,
            groups,
            inp,
            acc,
        ).0.timer == crate::sat_add_spec(c.timer, inp.delta_ms as u64),
{
    lemma_char_pre_effects(c, map, groups, (p.x, p.y), inp.delta_ms);
    let pre = char_pre(c, map, groups, (p.x, p.y), inp.delta_ms);
    let ir = interact_phase(pre.0, inp.confirm, acc);
    assert(ir.0.action_index == c.action_index);
    assert(ir.0.actions == c.actions);
    assert(ir.0.timer == crate::sat_add_spec(c.timer, inp.delta_ms as u64));
    let step = ir.0.cur_step();
    lemma_apply_action_effects(step.1, ir.0, p, screen);
}

/// Over any frame, a `Time(t)` step fires on the first frame where
/// the accumulated per-step time reaches `t`, and the timer resets to
/// zero immediately upon advancing.
pub proof fn lemma_time_fires_exactly(w: GameView, inp: FrameInput, i: int, t: u64)
    requires
        w.wf(),
        0 <= i < w.characters.len(),
        w.characters[i].action_index < w.characters[i].actions.len(),
        w.characters[i].actions[w.characters[i].action_index as int].0 == ActionCondition::Time(t),
    ensures
        crate::sat_add_spec(w.characters[i].timer, inp.delta_ms as u64) >= t ==> frame_spec(
            w,
            inp,
        ).0.characters[i].action_index == w.characters[i].action_index + 1 && frame_spec(
            w,
            inp,
        ).0.characters[i].timer == 0,
        crate::sat_add_spec(w.characters[i].timer, inp.delta_ms as u64) < t ==> frame_spec(
            w,
            inp,
        ).0.characters[i].action_index == w.characters[i].action_index && frame_spec(
            w,
            inp,
        ).0.characters[i].timer == crate::sat_add_spec(
            w.characters[i].timer,
            inp.delta_ms as u64,
        ),
{
    let moved = if w.screen is None && !exists_interacting(w.characters) {
        player_update_spec(
            w.player,
            w.characters,
            w.map,
            w.groups,
            inp.delta_ms,
            inp.axis,
            inp.fast_move,
        )
    } else {
        (w.player, w.characters)
    };
    lemma_player_phase_effects(
        w.player,
        w.characters,
        w.map,
        w.groups,
        inp.delta_ms,
        inp.axis,
        inp.fast_move,
    );
    let n = moved.1.len() as int;
    lemma_run_chars_at_index(moved.0, moved.1, w.screen, w.map, w.groups, inp, n, no_output(), i);
    let ctx = run_chars(moved.0, moved.1, w.screen, w.map, w.groups, inp, i, no_output());
    assert(moved.1[i].actions == w.characters[i].actions);
    assert(moved.1[i].timer == w.characters[i].timer);
    lemma_char_frame_time(moved.1[i], ctx.0, ctx.2, w.map, w.groups, inp, ctx.3, t);
}

/// Over any frame, an `AnimationFinish` step never fires while the
/// character's animation is not playing.
pub proof fn lemma_animation_finish_gate(w: GameView, inp: FrameInput, i: int)
    requires
        w.wf(),
        0 <= i < w.characters.len(),
        w.characters[i].action_index < w.characters[i].actions.len(),
        w.characters[i].actions[w.characters[i].action_index as int].0 is AnimationFinish,
        !w.characters[i].animation_playing,
    ensures
        frame_spec(w, inp).0.characters[i].action_index == w.characters[i].action_index,
{
    let moved = if w.screen is None && !exists_interacting(w.characters) {
        player_update_spec(
            w.player,
            w.characters,
            w.map,
            w.groups,
            inp.delta_ms,
            inp.axis,
            inp.fast_move,
        )
    } else {
        (w.player, w.characters)
    };
    lemma_player_phase_effects(
        w.player,
        w.characters,
        w.map,
        w.groups,
        inp.delta_ms,
        inp.axis,
        inp.fast_move,
    );
    let n = moved.1.len() as int;
    lemma_run_chars_at_index(moved.0, moved.1, w.screen, w.map, w.groups, inp, n, no_output(), i);
    let ctx = run_chars(moved.0, moved.1, w.screen, w.map, w.groups, inp, i, no_output());
    let c = moved.1[i];
    lemma_char_pre_effects(c, w.map, w.groups, (ctx.0.x, ctx.0.y), inp.delta_ms);
    let pre = char_pre(c, w.map, w.groups, (ctx.0.x, ctx.0.y), inp.delta_ms);
    let ir = interact_phase(pre.0, inp.confirm, ctx.3);
    assert(ir.0.action_index == c.action_index);
    assert(ir.0.actions == c.actions);
    assert(!ir.0.animation_playing);
    assert(!anim_finished(ir.0, w.groups));
}

/// One frame of an idle character whose playing clip has run out
/// under an `AnimationFinish` step: the step fires, and unless the
/// action sets its own animation time, the elapsed time is clamped to
/// one millisecond short of the clip's total — which renders the
/// clip's final frame, not a wrap back to its first.
pub proof fn lemma_animation_finish_clamp(
    c: CharacterView,
    p: PlayerView,
    screen: Option<usize>,
    map: TileMapView,
    groups: Seq<AnimationsGroupView>,
    inp: FrameInput,
    acc: FrameOutput,
)
    requires
        crate::characters::char_wf(c, groups),
        crate::anim::groups_wf(groups),
        c.action_index < c.actions.len(),
        c.actions[c.action_index as int].0 is AnimationFinish,
        !(c.actions[c.action_index as int].1 is SetAnimationTime),
        c.moving_to is None,
        c.animation is Some,
        c.animation_playing,
        crate::sat_add_spec(c.anim_time, inp.delta_ms as u64) >= clip_total(c, groups),
    ensures
        char_frame(c, p, screen, map, groups, inp, acc).0.action_index == c.action_index + 1,
        char_frame(c, p, screen, map, groups, inp, acc).0.anim_time == (clip_total(c, groups)
            - 1) as u64,
        (groups[c.animation.unwrap() as int].animations[c.animation_index as int].frame_durations.last()
            >= 1) ==> crate::anim::frame_index(
            groups[c.animation.unwrap() as int].animations[c.animation_index as int].frame_durations,
            char_frame(c, p, screen, map, groups, inp, acc).0.anim_time as int,
        ) == groups[c.animation.unwrap() as int].animations[c.animation_index as int].frame_durations.len()
            - 1,
{
    let g = c.animation.unwrap();
    let clip = groups[g as int].animations[c.animation_index as int];
    assert(groups[g as int].wf());
    assert(clip.wf());
    lemma_char_pre_effects(c, map, groups, (p.x, p.y), inp.delta_ms);
    let pre = char_pre(c, map, groups, (p.x, p.y), inp.delta_ms);
    let ir = interact_phase(pre.0, inp.confirm, acc);
    assert(ir.0.action_index == c.action_index);
    assert(ir.0.actions == c.actions);
    assert(ir.0.animation == c.animation);
    assert(ir.0.animation_index == c.animation_index);
    assert(ir.0.animation_playing);
    assert(ir.0.anim_time == crate::sat_add_spec(c.anim_time, inp.delta_ms as u64));
    assert(clip_total(ir.0, groups) == clip_total(c, groups));
    assert(anim_finished(ir.0, groups));
    let step = ir.0.cur_step();
    lemma_apply_action_effects(step.1, ir.0, p, screen);
    assert(char_frame(c, p, screen, map, groups, inp, acc).0.anim_time == (clip_total(c, groups)
        - 1) as u64);
    if clip.frame_durations.last() >= 1 {
        assert(clip.frame_durations.len() > 0) by {
            if clip.frame_durations.len() == 0 {
                assert(crate::anim::total_of(clip.frame_durations) == 0);
            }
        }
        crate::anim::lemma_terminal_frame(clip.frame_durations);
        assert(clip_total(c, groups) == clip.total_length);
    }
}

/// At most one character holds the interacting flag at a time: a
/// frame can only clear the flag, except that the player's own step
/// may raise it on one character — and only while nobody holds it.
pub proof fn lemma_single_interaction(w: GameView, inp: FrameInput)
    requires
        forall|i: int, j: int|
            0 <= i < w.characters.len() && 0 <= j < w.characters.len()
                && (#[trigger] w.characters[i]).interacting
                && (#[trigger] w.characters[j]).interacting ==> i == j,
    ensures
        forall|i: int, j: int|
            0 <= i < frame_spec(w, inp).0.characters.len() && 0 <= j < frame_spec(
                w,
                inp,
            ).0.characters.len() && (#[trigger] frame_spec(w, inp).0.characters[i]).interacting
                && (#[trigger] frame_spec(w, inp).0.characters[j]).interacting ==> i == j,
{
    let moved = if w.screen is None && !exists_interacting(w.characters) {
        player_update_spec(
            w.player,
            w.characters,
            w.map,
            w.groups,
            inp.delta_ms,
            inp.axis,
            inp.fast_move,
        )
    } else {
        (w.player, w.characters)
    };
    lemma_player_phase_effects(
        w.player,
        w.characters,
        w.map,
        w.groups,
        inp.delta_ms,
        inp.axis,
        inp.fast_move,
    );
    if w.screen is None && !exists_interacting(w.characters) {
        assert forall|k: int| 0 <= k < w.characters.len() implies !(
        #[trigger] w.characters[k]).interacting by {
            assert(!w.characters[k].interacting_active());
        }
    }
    assert forall|i: int, j: int|
        0 <= i < moved.1.len() && 0 <= j < moved.1.len() && (#[trigger] moved.1[i]).interacting
            && (#[trigger] moved.1[j]).interacting implies i == j by {
    }
    lemma_run_chars_effects(
        moved.0,
        moved.1,
        w.screen,
        w.map,
        w.groups,
        inp,
        moved.1.len() as int,
        no_output(),
    );
}

} // verus!
