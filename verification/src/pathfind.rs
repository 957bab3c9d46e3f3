//! Grid pathfinding: 4-directional shortest paths with unit step cost,
//! avoiding walls and one extra blocked cell (the player's cell, so a
//! walking character never steps through the player).
//!
//! The search itself is done by the `pathfinding` crate's A*; the
//! successor generation, the heuristic and the facts that make the
//! heuristic admissible are verified here.

use vstd::prelude::*;
use crate::MAX_COORD;
use crate::tilemap::{TileMap, TileMapView};

verus! {

/// A cell a character may step into: inside the grid, not a wall, and
/// not the extra blocked cell.
pub open spec fn open_cell(m: TileMapView, blocked: (usize, usize), c: (usize, usize)) -> bool {
    c != blocked && !m.is_wall_spec(c)
}

/// Two cells that share an edge on the 4-connected grid.
pub open spec fn adjacent(a: (usize, usize), b: (usize, usize)) -> bool {
    ||| (a.1 == b.1 && (a.0 + 1 == b.0 || b.0 + 1 == a.0))
    ||| (a.0 == b.0 && (a.1 + 1 == b.1 || b.1 + 1 == a.1))
}

/// One legal step of a walk: to an adjacent, open cell.
pub open spec fn step_ok(
    m: TileMapView,
    blocked: (usize, usize),
    a: (usize, usize),
    b: (usize, usize),
) -> bool {
    adjacent(a, b) && open_cell(m, blocked, b)
}

/// A walk from `from` to `to` made of legal steps. The starting cell
/// itself is not required to be open: a character path starts at the
/// cell the character already stands on.
pub open spec fn is_path(
    m: TileMapView,
    blocked: (usize, usize),
    path: Seq<(usize, usize)>,
    from: (usize, usize),
    to: (usize, usize),
) -> bool {
    &&& path.len() >= 1
    &&& path[0] == from
    &&& path.last() == to
    &&& forall|i: int| 0 <= i < path.len() - 1 ==> step_ok(m, blocked, path[i], #[trigger] path[i + 1])
}

/// The successor cells of `pos`, paired with the unit step cost, in
/// the fixed order right, down, left, up.
pub open spec fn successors_spec(
    m: TileMapView,
    pos: (usize, usize),
    blocked: (usize, usize),
) -> Seq<((usize, usize), usize)> {
    let right = (((pos.0 + 1) as usize, pos.1), 1usize);
    let down = ((pos.0, (pos.1 + 1) as usize), 1usize);
    let left = (((pos.0 - 1) as usize, pos.1), 1usize);
    let up = ((pos.0, (pos.1 - 1) as usize), 1usize);
    (if open_cell(m, blocked, right.0) { seq![right] } else { seq![] })
    + (if open_cell(m, blocked, down.0) { seq![down] } else { seq![] })
    + (if pos.0 > 0 && open_cell(m, blocked, left.0) { seq![left] } else { seq![] })
    + (if pos.1 > 0 && open_cell(m, blocked, up.0) { seq![up] } else { seq![] })
}

/// The successor cells of `pos`, each with its unit step cost.
pub fn generate_successors(
    map: &TileMap,
    pos: (usize, usize),
    blocked: (usize, usize),
) -> (r: Vec<((usize, usize), usize)>)
    requires
        map@.wf(),
        pos.0 < MAX_COORD,
        pos.1 < MAX_COORD,
    ensures
        r@ == successors_spec(map@, pos, blocked),
{
    let (x, y) = pos;
    let mut r: Vec<((usize, usize), usize)> = Vec::new();
    let right = (x + 1, y);
    if (right.0 != blocked.0 || right.1 != blocked.1) && !map.is_wall(right) {
        r.push((right, 1));
    }
    let down = (x, y + 1);
    if (down.0 != blocked.0 || down.1 != blocked.1) && !map.is_wall(down) {
        r.push((down, 1));
    }
    if x > 0 {
        let left = (x - 1, y);
        if (left.0 != blocked.0 || left.1 != blocked.1) && !map.is_wall(left) {
            r.push((left, 1));
        }
    }
    if y > 0 {
        let up = (x, y - 1);
        if (up.0 != blocked.0 || up.1 != blocked.1) && !map.is_wall(up) {
            r.push((up, 1));
        }
    }
    proof {
        assert(r@ =~= successors_spec(map@, pos, blocked));
    }
    r
}

/// Whether a search node is the goal.
fn is_goal(p: (usize, usize), to: (usize, usize)) -> (r: bool)
    ensures
        r == (p == to),
{
    p.0 == to.0 && p.1 == to.1
}

/// The integer square root: the Euclidean distance heuristic truncates
/// to an integer lower bound this way.
fn isqrt(n: u64) -> (r: u64)
    requires
        n <= 4_000_000_000_000_000_000,
    ensures
        (r as int) * (r as int) <= n as int,
        (n as int) < (r as int + 1) * (r as int + 1),
{
    let mut lo: u64 = 0;
    let mut hi: u64 = 2_000_000_001;
    while hi - lo > 1
        invariant
            lo < hi <= 2_000_000_001,
            (lo as int) * (lo as int) <= n as int,
            (n as int) < (hi as int) * (hi as int),
        decreases hi - lo,
    {
        let mid = lo + (hi - lo) / 2;
        proof {
            assert(mid * mid <= 4_000_000_000_000_000_000) by (nonlinear_arith)
                requires
                    mid <= 2_000_000_000u64,
            ;
        }
        if mid * mid <= n {
            lo = mid;
        } else {
            hi = mid;
        }
    }
    lo
}

/// The per-coordinate distance of two cells.
pub open spec fn axis_gap(a: usize, b: usize) -> int {
    if a >= b {
        a - b
    } else {
        b - a
    }
}

/// The number of steps any 4-directional walk between two cells needs
/// at least.
pub open spec fn manhattan(a: (usize, usize), b: (usize, usize)) -> int {
    axis_gap(a.0, b.0) + axis_gap(a.1, b.1)
}

/// The A* heuristic: the Euclidean distance between two cells,
/// truncated to an integer. It never exceeds the Manhattan distance,
/// which is what makes it an admissible estimate for 4-directional
/// walks (see `lemma_path_cost_lower_bound`).
pub fn heuristic(p: (usize, usize), to: (usize, usize)) -> (r: usize)
    requires
        p.0 < MAX_COORD,
        p.1 < MAX_COORD,
        to.0 < MAX_COORD,
        to.1 < MAX_COORD,
    ensures
        (r as int) * (r as int) <= axis_gap(p.0, to.0) * axis_gap(p.0, to.0) + axis_gap(
            p.1,
            to.1,
        ) * axis_gap(p.1, to.1),
        axis_gap(p.0, to.0) * axis_gap(p.0, to.0) + axis_gap(p.1, to.1) * axis_gap(p.1, to.1) < (
        r as int + 1) * (r as int + 1),
        r <= manhattan(p, to),
{
    let dx: u64 = if p.0 >= to.0 {
        (p.0 - to.0) as u64
    } else {
        (to.0 - p.0) as u64
    };
    let dy: u64 = if p.1 >= to.1 {
        (p.1 - to.1) as u64
    } else {
        (to.1 - p.1) as u64
    };
    proof {
        assert(dx * dx <= 1_000_000_000_000_000_000) by (nonlinear_arith)
            requires
                dx < 1_000_000_000,
        ;
        assert(dy * dy <= 1_000_000_000_000_000_000) by (nonlinear_arith)
            requires
                dy < 1_000_000_000,
        ;
    }
    let s = dx * dx + dy * dy;
    let r = isqrt(s);
    proof {
        assert(r <= dx + dy) by (nonlinear_arith)
            requires
                (r as int) * (r as int) <= (dx as int) * (dx as int) + (dy as int) * (dy as int),
        ;
    }
    r as usize
}

/// The path that the `pathfinding` crate's A* search returns for these
/// arguments. The search is deterministic, so its result is a function
/// of the grid, the endpoints and the blocked cell alone; which of
/// several equally short paths it picks is pinned by this name.
pub uninterp spec fn astar_path(
    tiles: Seq<u8>,
    width: usize,
    from: (usize, usize),
    to: (usize, usize),
    blocked: (usize, usize),
) -> Option<(Seq<(usize, usize)>, usize)>;

/// The mathematical value of a returned path and its cost.
pub open spec fn path_view(r: Option<(Vec<(usize, usize)>, usize)>) -> Option<
    (Seq<(usize, usize)>, usize),
> {
    match r {
        Some(pc) => Some((pc.0@, pc.1)),
        None => None,
    }
}

/// Relies on pathfinding::prelude::astar: it returns a shortest path
/// from the start to a goal node together with its total cost, with
/// both endpoints included, or `None` when the goal is unreachable.
/// Shortness relies on the heuristic being admissible, which
/// `heuristic` guarantees: it is bounded by the Manhattan distance,
/// and `lemma_path_cost_lower_bound` shows that the Manhattan distance
/// never overestimates the remaining cost of a 4-directional walk.
/// The search is deterministic, so the result is also pinned as
/// `astar_path`.
#[verifier::external_body]
fn astar_search(
    map: &TileMap,
    from: (usize, usize),
    to: (usize, usize),
    blocked: (usize, usize),
) -> (r: Option<(Vec<(usize, usize)>, usize)>)
    requires
        map@.wf(),
        from.0 < MAX_COORD,
        from.1 < MAX_COORD,
        to.0 < MAX_COORD,
        to.1 < MAX_COORD,
    ensures
        path_view(r) == astar_path(map@.tiles, map@.width, from, to, blocked),
        r matches Some(pc) ==> {
            &&& is_path(map@, blocked, pc.0@, from, to)
            &&& pc.1 == pc.0@.len() - 1
            &&& forall|q: Seq<(usize, usize)>|
                is_path(map@, blocked, q, from, to) ==> pc.0@.len() <= q.len()
        },
        r is None ==> forall|q: Seq<(usize, usize)>| !is_path(map@, blocked, q, from, to),
{
    pathfinding::prelude::astar(
        &from,
        |p: &(usize, usize)| generate_successors(map, *p, blocked),
        |p: &(usize, usize)| heuristic(*p, to),
        |p: &(usize, usize)| is_goal(*p, to),
    )
}

/// A shortest 4-directional path from `from` to `to` that avoids walls
/// and the cell `player_pos`, together with its step count, or `None`
/// when no such path exists. `None` is a normal outcome — the blocking
/// cell moves, so callers simply retry on a later frame.
pub fn pathfind(
    map: &TileMap,
    from: (usize, usize),
    to: (usize, usize),
    player_pos: (usize, usize),
) -> (r: Option<(Vec<(usize, usize)>, usize)>)
    requires
        map@.wf(),
        from.0 < MAX_COORD,
        from.1 < MAX_COORD,
        to.0 < MAX_COORD,
        to.1 < MAX_COORD,
    ensures
        path_view(r) == astar_path(map@.tiles, map@.width, from, to, player_pos),
        r matches Some(pc) ==> {
            &&& is_path(map@, player_pos, pc.0@, from, to)
            &&& pc.1 == pc.0@.len() - 1
            &&& forall|q: Seq<(usize, usize)>|
                is_path(map@, player_pos, q, from, to) ==> pc.0@.len() <= q.len()
        },
        r is None ==> forall|q: Seq<(usize, usize)>| !is_path(map@, player_pos, q, from, to),
{
    astar_search(map, from, to, player_pos)
}

/// No 4-directional walk is shorter than the Manhattan distance of its
/// endpoints: each step changes one coordinate by one. Together with
/// `heuristic`'s bound this makes the A* heuristic admissible.
pub proof fn lemma_path_cost_lower_bound(
    m: TileMapView,
    blocked: (usize, usize),
    path: Seq<(usize, usize)>,
    from: (usize, usize),
    to: (usize, usize),
)
    requires
        is_path(m, blocked, path, from, to),
    ensures
        path.len() - 1 >= manhattan(from, to),
    decreases path.len(),
{
    if path.len() == 1 {
        assert(from == to);
    } else {
        let rest = path.drop_first();
        assert(step_ok(m, blocked, path[0], path[0int + 1]));
        assert forall|i: int| 0 <= i < rest.len() - 1 implies step_ok(
            m,
            blocked,
            rest[i],
            #[trigger] rest[i + 1],
        ) by {
            assert(rest[i] == path[i + 1]);
            assert(rest[i + 1] == path[(i + 1) + 1]);
            assert(step_ok(m, blocked, path[i + 1], path[(i + 1) + 1]));
        }
        assert(is_path(m, blocked, rest, path[1], to));
        lemma_path_cost_lower_bound(m, blocked, rest, path[1], to);
        assert(manhattan(from, to) <= manhattan(path[1], to) + 1);
    }
}

/// Every cell on a returned path after the start is adjacent to its
/// predecessor; in particular the second cell — the next hop a walking
/// character takes — is adjacent to the character's own cell and open.
pub proof fn lemma_path_second_cell(
    m: TileMapView,
    blocked: (usize, usize),
    path: Seq<(usize, usize)>,
    from: (usize, usize),
    to: (usize, usize),
)
    requires
        is_path(m, blocked, path, from, to),
        path.len() >= 2,
    ensures
        adjacent(from, path[1]),
        open_cell(m, blocked, path[1]),
{
    assert(step_ok(m, blocked, path[0], path[0int + 1]));
}

} // verus!
