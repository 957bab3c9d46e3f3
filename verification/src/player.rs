//! The player: permanent story tags, facing direction, and the
//! Idle/Moving grid-walk state machine.

use vstd::prelude::*;
use crate::MAX_COORD;
use crate::anim::{AnimationsGroup, AnimationsGroupView, group_views, groups_wf};
use crate::characters::{
    Character, CharacterView, char_views, chars_wf, exists_interacting, find_collider,
    find_collider_at, any_interacting,
};
use crate::movement::{approach, dir_of_delta, direction_towards, move_towards, reaches_target,
    within_step};
use crate::tilemap::{TileMap, TileMapView};

verus! {

/// Seconds to cross one grid cell at normal walking speed, in
/// milliseconds.
pub const MOVE_TIME_MS: u64 = 250;

/// The cell-crossing time while the debug fast-move input is held.
pub const FAST_MOVE_TIME_MS: u64 = 100;

/// How far an entity walks in one frame of `dt` milliseconds: one cell
/// of 16000 millipixels takes `MOVE_TIME_MS` (or, for the player with
/// the fast-move input held, `FAST_MOVE_TIME_MS`).
pub open spec fn walk_step(dt: u32, fast: bool) -> u64 {
    if fast {
        (dt * (crate::CELL_MILLIPX / FAST_MOVE_TIME_MS)) as u64
    } else {
        (dt * (crate::CELL_MILLIPX / MOVE_TIME_MS)) as u64
    }
}

/// How far an entity walks in one frame of `dt` milliseconds.
pub fn walk_step_len(dt: u32, fast: bool) -> (r: u64)
    ensures
        r == walk_step(dt, fast),
{
    let scale: u64 = if fast {
        crate::CELL_MILLIPX / FAST_MOVE_TIME_MS
    } else {
        crate::CELL_MILLIPX / MOVE_TIME_MS
    };
    proof {
        assert((dt as int) * (scale as int) <= (u32::MAX as int) * 160) by (nonlinear_arith)
            requires
                dt <= u32::MAX,
                scale <= 160,
        ;
    }
    (dt as u64) * scale
}

/// A permanent world/story flag. Tags are only ever appended to the
/// player's collection and are never removed during a session.
#[derive(PartialEq, Eq, Structural, Clone, Copy, Debug)]
pub enum Tag {
    OpenedDoor,
    ClosedDoor,
    LightFire,
    FamilyShouldArrive,
    OpenedDoor2,
    ClosedDoor2,
}

/// A facing direction on the 4-connected grid.
#[derive(PartialEq, Eq, Structural, Clone, Copy, Debug)]
pub enum Direction {
    Left,
    Right,
    Up,
    Down,
}

impl Direction {
    /// The animation-tag name of this direction.
    pub fn name(&self) -> (r: &'static str)
        ensures
            r == self.name_spec(),
    {
        match self {
            Direction::Left => "left",
            Direction::Right => "right",
            Direction::Up => "up",
            Direction::Down => "down",
        }
    }

    pub open spec fn name_spec(self) -> &'static str {
        match self {
            Direction::Left => "left",
            Direction::Right => "right",
            Direction::Up => "up",
            Direction::Down => "down",
        }
    }

    /// The direction an input axis or a movement delta resolves to.
    ///
    /// A single-axis vector resolves by its sign, and a zero vector
    /// resolves to `Left`. A diagonal vector resolves to whichever axis
    /// was not previously dominant: when the previous direction `last`
    /// had a nonzero x component the vertical part wins, otherwise the
    /// horizontal part wins.
    pub open spec fn from_vec2_spec(vec: (i64, i64), last: (i64, i64)) -> Direction {
        if !(vec.0 != 0 && vec.1 != 0) {
            if vec.0 < 0 {
                Direction::Left
            } else if vec.0 > 0 {
                Direction::Right
            } else if vec.1 < 0 {
                Direction::Up
            } else if vec.1 > 0 {
                Direction::Down
            } else {
                Direction::Left
            }
        } else {
            if last.0 != 0 {
                // vertical wins
                if vec.1 < 0 {
                    Direction::Up
                } else {
                    Direction::Down
                }
            } else {
                // horizontal wins
                if vec.0 < 0 {
                    Direction::Left
                } else {
                    Direction::Right
                }
            }
        }
    }

    pub fn from_vec2(vec: (i64, i64), last: (i64, i64)) -> (r: Direction)
        ensures
            r == Direction::from_vec2_spec(vec, last),
    {
        if !(vec.0 != 0 && vec.1 != 0) {
            if vec.0 < 0 {
                Direction::Left
            } else if vec.0 > 0 {
                Direction::Right
            } else if vec.1 < 0 {
                Direction::Up
            } else if vec.1 > 0 {
                Direction::Down
            } else {
                Direction::Left
            }
        } else {
            let y_dir = if vec.1 < 0 { Direction::Up } else { Direction::Down };
            let x_dir = if vec.0 < 0 { Direction::Left } else { Direction::Right };
            if last.0 != 0 { y_dir } else { x_dir }
        }
    }

    /// The unit vector of this direction, y growing downward.
    pub fn to_vec2(&self) -> (r: (i64, i64))
        ensures
            r == self.to_vec2_spec(),
    {
        match self {
            Direction::Up => (0, -1),
            Direction::Down => (0, 1),
            Direction::Right => (1, 0),
            Direction::Left => (-1, 0),
        }
    }

    pub open spec fn to_vec2_spec(self) -> (i64, i64) {
        match self {
            Direction::Up => (0int as i64, -1int as i64),
            Direction::Down => (0int as i64, 1int as i64),
            Direction::Right => (1int as i64, 0int as i64),
            Direction::Left => (-1int as i64, 0int as i64),
        }
    }
}

/// The player's grid-walk state.
#[derive(PartialEq, Eq, Structural, Clone, Copy, Debug)]
pub enum PlayerState {
    Moving,
    Idle,
}

/// The player: grid cell, continuous draw position in millipixels,
/// facing, walk state, a running clock in milliseconds, and the owned
/// tag collection.
pub struct Player {
    pub tags: Vec<Tag>,
    pub draw_x: u64,
    pub draw_y: u64,
    pub x: usize,
    pub y: usize,
    pub direction: Direction,
    pub time: u64,
    pub state: PlayerState,
}

#[verifier::ext_equal]
pub ghost struct PlayerView {
    pub tags: Seq<Tag>,
    pub draw_x: u64,
    pub draw_y: u64,
    pub x: usize,
    pub y: usize,
    pub direction: Direction,
    pub time: u64,
    pub state: PlayerState,
}

impl View for Player {
    type V = PlayerView;

    open spec fn view(&self) -> PlayerView {
        PlayerView {
            tags: self.tags@,
            draw_x: self.draw_x,
            draw_y: self.draw_y,
            x: self.x,
            y: self.y,
            direction: self.direction,
            time: self.time,
            state: self.state,
        }
    }
}

impl PlayerView {
    /// The player's cell fits the millipixel arithmetic.
    pub open spec fn wf(self) -> bool {
        self.x < MAX_COORD && self.y < MAX_COORD
    }
}

/// One cell coordinate shifted by a unit direction component, held at
/// the ends of the coordinate range.
pub open spec fn shift_cell_spec(x: usize, d: i64) -> usize {
    if d == 1 {
        if x == usize::MAX {
            x
        } else {
            (x + 1) as usize
        }
    } else if d == -1 {
        if x == 0 {
            0
        } else {
            (x - 1) as usize
        }
    } else {
        x
    }
}

fn shift_cell(x: usize, d: i64) -> (r: usize)
    ensures
        r == shift_cell_spec(x, d),
{
    if d == 1 {
        if x == usize::MAX {
            x
        } else {
            x + 1
        }
    } else if d == -1 {
        if x == 0 {
            0
        } else {
            x - 1
        }
    } else {
        x
    }
}

/// The clip the character faces the player with: the directional clip
/// toward the player, where the character's group has one; otherwise
/// the clip it already shows.
pub open spec fn faced_anim_index(
    c: CharacterView,
    p: PlayerView,
    groups: Seq<AnimationsGroupView>,
) -> usize {
    let d = dir_of_delta((c.draw_x, c.draw_y), (p.draw_x, p.draw_y));
    match c.animation {
        Some(g) => if g < groups.len() {
            match groups[g as int].dir_index(d) {
                Some(k) => k,
                None => c.animation_index,
            }
        } else {
            c.animation_index
        },
        None => c.animation_index,
    }
}

/// What one frame does to the player and, through an interaction
/// trigger, to at most one character.
///
/// The clock always advances. An idle player with a nonzero input axis
/// first turns toward it; the cell ahead is then either a wall (no
/// move), a collidable character (no move, but when nobody is
/// interacting yet and the character offers a prompt, it starts
/// interacting and faces the player), or free, in which case the
/// player claims it and starts walking. A moving player walks toward
/// its cell at constant speed and goes idle on arrival.
pub open spec fn player_update_spec(
    p: PlayerView,
    chars: Seq<CharacterView>,
    map: TileMapView,
    groups: Seq<AnimationsGroupView>,
    delta_ms: u32,
    axis: (i64, i64),
    fast_move: bool,
) -> (PlayerView, Seq<CharacterView>) {
    let p1 = PlayerView { time: crate::sat_add_spec(p.time, delta_ms as u64), ..p };
    match p.state {
        PlayerState::Idle => {
            if axis != (0int as i64, 0int as i64) {
                let dir = Direction::from_vec2_spec(axis, p.direction.to_vec2_spec());
                let p2 = PlayerView { direction: dir, ..p1 };
                let nx = shift_cell_spec(p.x, dir.to_vec2_spec().0);
                let ny = shift_cell_spec(p.y, dir.to_vec2_spec().1);
                if !map.is_wall_spec((nx, ny)) {
                    match find_collider(chars, nx, ny) {
                        Some(j) => {
                            if !exists_interacting(chars) && chars[j].interact_message is Some {
                                let c1 = CharacterView {
                                    interacting: true,
                                    animation_index: faced_anim_index(chars[j], p, groups),
                                    ..chars[j]
                                };
                                (p2, chars.update(j, c1))
                            } else {
                                (p2, chars)
                            }
                        },
                        None => {
                            (PlayerView { x: nx, y: ny, state: PlayerState::Moving, ..p2 }, chars)
                        },
                    }
                } else {
                    (p2, chars)
                }
            } else {
                (p1, chars)
            }
        },
        PlayerState::Moving => {
            let tgt = (crate::cell_px_spec(p.x), crate::cell_px_spec(p.y));
            let step = walk_step(delta_ms, fast_move);
            if within_step((p.draw_x, p.draw_y), tgt, step) {
                (PlayerView {
                    draw_x: tgt.0,
                    draw_y: tgt.1,
                    state: PlayerState::Idle,
                    ..p1
                }, chars)
            } else {
                let moved = approach((p.draw_x, p.draw_y), tgt, step);
                (PlayerView { draw_x: moved.0, draw_y: moved.1, ..p1 }, chars)
            }
        },
    }
}

impl Player {
    /// A freshly spawned player, idle on its spawn cell with no tags.
    pub fn new(cell: (usize, usize)) -> (r: Player)
        requires
            cell.0 < MAX_COORD,
            cell.1 < MAX_COORD,
        ensures
            r@ == (PlayerView {
                tags: Seq::<Tag>::empty(),
                draw_x: crate::cell_px_spec(cell.0),
                draw_y: crate::cell_px_spec(cell.1),
                x: cell.0,
                y: cell.1,
                direction: Direction::Left,
                time: 0,
                state: PlayerState::Idle,
            }),
    {
        let (x, y) = cell;
        let r = Player {
            tags: Vec::new(),
            draw_x: crate::cell_px(x),
            draw_y: crate::cell_px(y),
            x,
            y,
            direction: Direction::Left,
            time: 0,
            state: PlayerState::Idle,
        };
        proof {
            assert(r@ =~= (PlayerView {
                tags: Seq::<Tag>::empty(),
                draw_x: crate::cell_px_spec(x),
                draw_y: crate::cell_px_spec(y),
                x,
                y,
                direction: Direction::Left,
                time: 0,
                state: PlayerState::Idle,
            }));
        }
        r
    }

    /// Whether the player's collection holds the tag anywhere.
    pub fn has_tag(&self, t: Tag) -> (r: bool)
        ensures
            r == self@.tags.contains(t),
    {
        let mut i: usize = 0;
        while i < self.tags.len()
            invariant
                i <= self.tags@.len(),
                forall|j: int| 0 <= j < i ==> self.tags@[j] != t,
            decreases self.tags@.len() - i,
        {
            if self.tags[i] == t {
                return true;
            }
            i = i + 1;
        }
        false
    }

    /// One frame of the player state machine; see `player_update_spec`
    /// for what it does. Movement input is only sampled here — the
    /// caller skips this entirely while an overlay is up or a
    /// character is interacting.
    pub fn update(
        &mut self,
        delta_ms: u32,
        axis: (i64, i64),
        fast_move: bool,
        map: &TileMap,
        groups: &Vec<AnimationsGroup>,
        characters: &mut Vec<Character>,
    )
        requires
            old(self)@.wf(),
            map@.wf(),
            groups_wf(group_views(groups@)),
            chars_wf(char_views(old(characters)@), group_views(groups@)),
        ensures
            (final(self)@, char_views(final(characters)@)) == player_update_spec(
                old(self)@,
                char_views(old(characters)@),
                map@,
                group_views(groups@),
                delta_ms,
                axis,
                fast_move,
            ),
            final(self)@.wf(),
            chars_wf(char_views(final(characters)@), group_views(groups@)),
            final(characters)@.len() == old(characters)@.len(),
    {
        let ghost chars0 = char_views(characters@);
        let ghost groupsv = group_views(groups@);
        self.time = crate::sat_add(self.time, delta_ms as u64);
        match self.state {
            PlayerState::Idle => {
                if axis.0 != 0 || axis.1 != 0 {
                    self.direction = Direction::from_vec2(axis, self.direction.to_vec2());
                    let dir = self.direction.to_vec2();
                    let new_x = shift_cell(self.x, dir.0);
                    let new_y = shift_cell(self.y, dir.1);
                    if !map.is_wall((new_x, new_y)) {
                        let interacting_with_any = any_interacting(characters).is_some();
                        if let Some(j) = find_collider_at(characters, new_x, new_y) {
                            if !interacting_with_any {
                                let msg_some = characters[j].interact_message.is_some();
                                if msg_some {
                                    let ghost cv = chars0[j as int];
                                    let face = direction_towards(
                                        (characters[j].draw_x, characters[j].draw_y),
                                        (self.draw_x, self.draw_y),
                                    );
                                    let cr = &mut characters[j];
                                    cr.interacting = true;
                                    match cr.animation {
                                        Some(g) => {
                                            if g < groups.len() {
                                                match groups[g].index_for_direction(face) {
                                                    Some(k) => {
                                                        cr.animation_index = k;
                                                    },
                                                    None => {},
                                                }
                                            }
                                        },
                                        None => {},
                                    }
                                    proof {
                                        if let Some(g) = cv.animation {
                                            if g < groups@.len() {
                                                assert(groupsv[g as int] == groups@[g as int]@);
                                            }
                                        }
                                        assert(characters@[j as int]@ == (CharacterView {
                                            interacting: true,
                                            animation_index: faced_anim_index(
                                                cv,
                                                old(self)@,
                                                groupsv,
                                            ),
                                            ..cv
                                        }));
                                        assert(char_views(characters@) =~= chars0.update(
                                            j as int,
                                            characters@[j as int]@,
                                        ));
                                    }
                                }
                            }
                        } else {
                            self.x = new_x;
                            self.y = new_y;
                            self.state = PlayerState::Moving;
                        }
                    }
                }
            },
            PlayerState::Moving => {
                let target = (crate::cell_px(self.x), crate::cell_px(self.y));
                let step = walk_step_len(delta_ms, fast_move);
                if reaches_target((self.draw_x, self.draw_y), target, step) {
                    self.draw_x = target.0;
                    self.draw_y = target.1;
                    self.state = PlayerState::Idle;
                } else {
                    let moved = move_towards((self.draw_x, self.draw_y), target, step);
                    self.draw_x = moved.0;
                    self.draw_y = moved.1;
                }
            },
        }
    }
}

} // verus!
