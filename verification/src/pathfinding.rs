//! A* pathfinding on the tile grid with 8-way movement, no corner cutting,
//! rugged-terrain rules and occupancy avoidance (air units fly over both).
use vstd::prelude::*;
use crate::world::{GridPosition, TilePreset};
use crate::occupancy::{OccupancyMap, tile_blocked};
use crate::units::{UnitBaseEnum, DomainEnum, unit_base_table};

verus! {

/// Cost of a cardinal step (one grid unit, fixed point with six decimals).
pub const CARDINAL_COST: u64 = 1_000_000;

/// Cost of a diagonal step (the square root of two, fixed point with six decimals).
pub const DIAGONAL_COST: u64 = 1_414_214;

/// Everything a path is checked against.
pub struct PathProblem {
    pub tiles: Seq<(GridPosition, TilePreset)>,
    pub blocked: Set<(i32, i32)>,
    pub start: GridPosition,
    pub goal: GridPosition,
    pub width: int,
    pub height: int,
    pub self_pos: (i32, i32),
    /// Air units ignore terrain and occupancy.
    pub air: bool,
    /// Whether the unit may enter rugged terrain.
    pub rugged_ok: bool,
}

pub open spec fn in_grid(pp: PathProblem, x: int, z: int) -> bool {
    0 <= x < pp.width && 0 <= z < pp.height
}

/// Some tile at `(x, z)` is traversible.
pub open spec fn has_traversible_tile(tiles: Seq<(GridPosition, TilePreset)>, x: int, z: int) -> bool {
    exists|j: int|
        #![trigger tiles[j]]
        0 <= j < tiles.len() && tiles[j].0.x == x && tiles[j].0.z == z && tiles[j].1.traversible
}

/// Some traversible tile at `(x, z)` is rugged.
pub open spec fn has_rugged_tile(tiles: Seq<(GridPosition, TilePreset)>, x: int, z: int) -> bool {
    exists|j: int|
        #![trigger tiles[j]]
        0 <= j < tiles.len() && tiles[j].0.x == x && tiles[j].0.z == z && tiles[j].1.traversible
            && tiles[j].1.rugged
}

/// The unit may stand on `(x, z)` as far as terrain goes.
pub open spec fn terrain_passable(pp: PathProblem, x: int, z: int) -> bool {
    has_traversible_tile(pp.tiles, x, z) && (pp.rugged_ok || !has_rugged_tile(pp.tiles, x, z))
}

/// `b` is one of the eight cells around `a`.
pub open spec fn is_neighbor(a: GridPosition, b: GridPosition) -> bool {
    let dx = b.x - a.x;
    let dz = b.z - a.z;
    -1 <= dx <= 1 && -1 <= dz <= 1 && !(dx == 0 && dz == 0)
}

/// `b` is diagonal to `a`.
pub open spec fn is_diagonal(a: GridPosition, b: GridPosition) -> bool {
    b.x != a.x && b.z != a.z
}

/// A single move of a path: to a neighbouring in-grid cell; for ground units
/// onto passable terrain without cutting a corner, and onto a tile that is not
/// occupied unless it is the goal or the unit's own tile.
pub open spec fn step_allowed(pp: PathProblem, from: GridPosition, to: GridPosition) -> bool {
    &&& is_neighbor(from, to)
    &&& in_grid(pp, to.x as int, to.z as int)
    &&& (pp.air || {
        &&& terrain_passable(pp, to.x as int, to.z as int)
        &&& (is_diagonal(from, to) ==> terrain_passable(pp, to.x as int, from.z as int)
            && terrain_passable(pp, from.x as int, to.z as int))
        &&& (to == pp.goal || !tile_blocked(pp.blocked, to.x as int, to.z as int, pp.self_pos))
    })
}

/// `path` leads from the start to the goal by allowed steps.
pub open spec fn is_path(pp: PathProblem, path: Seq<GridPosition>) -> bool {
    &&& path.len() >= 1
    &&& path[0] == pp.start
    &&& path[path.len() - 1] == pp.goal
    &&& forall|i: int| 0 <= i < path.len() - 1 ==> #[trigger] step_allowed(pp, path[i], path[i + 1])
}

/// Cost of one step.
pub open spec fn step_cost(a: GridPosition, b: GridPosition) -> int {
    if is_diagonal(a, b) {
        DIAGONAL_COST as int
    } else {
        CARDINAL_COST as int
    }
}

/// Total cost of the steps of a path.
pub open spec fn path_cost(path: Seq<GridPosition>) -> int
    decreases path.len(),
{
    if path.len() <= 1 {
        0
    } else {
        path_cost(path.drop_last()) + step_cost(path[path.len() - 2], path[path.len() - 1])
    }
}

/// `path` leads from the start to `target` by allowed steps.
pub open spec fn is_walk(pp: PathProblem, path: Seq<GridPosition>, target: GridPosition) -> bool {
    &&& path.len() >= 1
    &&& path[0] == pp.start
    &&& path[path.len() - 1] == target
    &&& forall|i: int| 0 <= i < path.len() - 1 ==> #[trigger] step_allowed(pp, path[i], path[i + 1])
}

/// Octile distance to the goal in step costs: diagonal steps while both
/// coordinates differ, then straight ones.
pub open spec fn octile(p: GridPosition, goal: GridPosition) -> int {
    let dx: int = if p.x >= goal.x { p.x - goal.x } else { goal.x - p.x };
    let dz: int = if p.z >= goal.z { p.z - goal.z } else { goal.z - p.z };
    if dx >= dz {
        CARDINAL_COST * (dx - dz) + DIAGONAL_COST * dz
    } else {
        CARDINAL_COST * (dz - dx) + DIAGONAL_COST * dx
    }
}

/// A path costs nothing negative.
proof fn lemma_path_cost_nonneg(path: Seq<GridPosition>)
    ensures
        path_cost(path) >= 0,
    decreases path.len(),
{
    if path.len() > 1 {
        lemma_path_cost_nonneg(path.drop_last());
    }
}

/// One step never lowers the octile estimate by more than the step costs.
proof fn lemma_octile_step(a: GridPosition, b: GridPosition, goal: GridPosition)
    requires
        is_neighbor(a, b),
    ensures
        octile(a, goal) <= step_cost(a, b) + octile(b, goal),
{
}

/// Along a path of neighbouring cells the estimate drops by at most the
/// path's cost.
proof fn lemma_octile_path(path: Seq<GridPosition>, goal: GridPosition)
    requires
        path.len() >= 1,
        forall|i: int| 0 <= i < path.len() - 1 ==> #[trigger] is_neighbor(path[i], path[i + 1]),
    ensures
        octile(path[0], goal) <= path_cost(path) + octile(path[path.len() - 1], goal),
    decreases path.len(),
{
    if path.len() > 1 {
        let q = path.drop_last();
        assert forall|i: int| 0 <= i < q.len() - 1 implies #[trigger] is_neighbor(q[i], q[i + 1]) by {
            assert(is_neighbor(path[i], path[i + 1]));
        }
        lemma_octile_path(q, goal);
        let k = path.len() - 2;
        assert(is_neighbor(path[k], path[k + 1]));
        lemma_octile_step(path[k], path[k + 1], goal);
    }
}

/// Splitting a path at the node `k` splits its cost.
proof fn lemma_path_cost_split(path: Seq<GridPosition>, k: int)
    requires
        0 <= k < path.len(),
    ensures
        path_cost(path) == path_cost(path.subrange(0, k + 1)) + path_cost(path.subrange(k, path.len() as int)),
    decreases path.len(),
{
    if path.len() == k + 1 {
        assert(path.subrange(0, k + 1) =~= path);
        assert(path.subrange(k, path.len() as int).len() == 1);
    } else {
        let q = path.drop_last();
        lemma_path_cost_split(q, k);
        assert(q.subrange(0, k + 1) =~= path.subrange(0, k + 1));
        let t = path.subrange(k, path.len() as int);
        assert(t.drop_last() =~= q.subrange(k, q.len() as int));
        assert(t[t.len() - 2] == path[path.len() - 2]);
        assert(t[t.len() - 1] == path[path.len() - 1]);
    }
}

/// Nodes that the search can reach: the start and the cells of the grid.
pub open spec fn relevant(pp: PathProblem, p: GridPosition) -> bool {
    in_grid(pp, p.x as int, p.z as int) || p == pp.start
}

/// The slot of a node in the search arrays; the start gets the extra slot
/// `width * height` when it lies off the grid.
pub open spec fn slot(pp: PathProblem, p: GridPosition) -> int {
    if in_grid(pp, p.x as int, p.z as int) {
        p.z * pp.width + p.x
    } else {
        pp.width * pp.height
    }
}

proof fn lemma_cell_index(w: int, h: int, x: int, z: int)
    requires
        0 <= x < w,
        0 <= z < h,
    ensures
        0 <= z * w + x < w * h,
{
    assert(0 <= z * w) by (nonlinear_arith)
        requires
            0 <= z,
            0 <= w,
    ;
    assert(z * w + x < w * h) by (nonlinear_arith)
        requires
            0 <= x < w,
            0 <= z < h,
    ;
}

proof fn lemma_cell_index_injective(w: int, x1: int, z1: int, x2: int, z2: int)
    requires
        0 <= x1 < w,
        0 <= x2 < w,
        0 <= z1,
        0 <= z2,
        z1 * w + x1 == z2 * w + x2,
    ensures
        x1 == x2,
        z1 == z2,
{
    if z1 < z2 {
        assert(z1 * w + x1 < z2 * w + x2) by (nonlinear_arith)
            requires
                z1 < z2,
                0 <= x1 < w,
                0 <= x2,
        ;
    } else if z2 < z1 {
        assert(z2 * w + x2 < z1 * w + x1) by (nonlinear_arith)
            requires
                z2 < z1,
                0 <= x2 < w,
                0 <= x1,
        ;
    }
}

/// Slots of relevant nodes lie in `0..=width*height`, and tell nodes apart.
proof fn lemma_slot(pp: PathProblem, p: GridPosition, q: GridPosition)
    requires
        pp.width > 0,
        pp.height > 0,
        relevant(pp, p),
        relevant(pp, q),
    ensures
        0 <= slot(pp, p) <= pp.width * pp.height,
        in_grid(pp, p.x as int, p.z as int) ==> slot(pp, p) < pp.width * pp.height,
        slot(pp, p) == slot(pp, q) ==> p == q,
{
    if in_grid(pp, p.x as int, p.z as int) {
        lemma_cell_index(pp.width, pp.height, p.x as int, p.z as int);
    }
    if in_grid(pp, q.x as int, q.z as int) {
        lemma_cell_index(pp.width, pp.height, q.x as int, q.z as int);
    }
    if slot(pp, p) == slot(pp, q) && in_grid(pp, p.x as int, p.z as int) && in_grid(pp, q.x as int, q.z as int) {
        lemma_cell_index_injective(pp.width, p.x as int, p.z as int, q.x as int, q.z as int);
    }
}

/// Per-cell terrain and occupancy flags of the grid.
struct TerrainGrid {
    traversible: Vec<bool>,
    rugged: Vec<bool>,
    blocked: Vec<bool>,
}

impl TerrainGrid {
    spec fn models(&self, pp: PathProblem) -> bool {
        &&& self.traversible@.len() == pp.width * pp.height
        &&& self.rugged@.len() == pp.width * pp.height
        &&& self.blocked@.len() == pp.width * pp.height
        &&& forall|x: int, z: int|
            #![trigger self.traversible@[z * pp.width + x]]
            0 <= x < pp.width && 0 <= z < pp.height ==> self.traversible@[z * pp.width + x]
                == has_traversible_tile(pp.tiles, x, z)
        &&& forall|x: int, z: int|
            #![trigger self.rugged@[z * pp.width + x]]
            0 <= x < pp.width && 0 <= z < pp.height ==> self.rugged@[z * pp.width + x]
                == has_rugged_tile(pp.tiles, x, z)
        &&& forall|x: int, z: int|
            #![trigger self.blocked@[z * pp.width + x]]
            0 <= x < pp.width && 0 <= z < pp.height ==> self.blocked@[z * pp.width + x]
                == exists|c: (i32, i32)| #![trigger pp.blocked.contains(c)] pp.blocked.contains(c) && c.0 == x && c.1 == z
    }
}

fn falses(n: usize) -> (r: Vec<bool>)
    ensures
        r@.len() == n,
        forall|i: int| 0 <= i < n ==> !#[trigger] r@[i],
{
    let mut r: Vec<bool> = Vec::new();
    let mut i: usize = 0;
    while i < n
        invariant
            i <= n,
            r@.len() == i,
            forall|k: int| 0 <= k < i ==> !#[trigger] r@[k],
        decreases n - i,
    {
        r.push(false);
        i = i + 1;
    }
    r
}

spec fn trav_upto(tiles: Seq<(GridPosition, TilePreset)>, k: int, x: int, z: int) -> bool {
    exists|j: int|
        #![trigger tiles[j]]
        0 <= j < k && tiles[j].0.x == x && tiles[j].0.z == z && tiles[j].1.traversible
}

spec fn rugged_upto(tiles: Seq<(GridPosition, TilePreset)>, k: int, x: int, z: int) -> bool {
    exists|j: int|
        #![trigger tiles[j]]
        0 <= j < k && tiles[j].0.x == x && tiles[j].0.z == z && tiles[j].1.traversible
            && tiles[j].1.rugged
}

spec fn blocked_upto(cells: Seq<(i32, i32)>, k: int, x: int, z: int) -> bool {
    exists|j: int| #![trigger cells[j]] 0 <= j < k && cells[j].0 == x && cells[j].1 == z
}

/// Index of an in-grid cell.
fn cell_index(x: i32, z: i32, w: i32, h: i32) -> (r: usize)
    requires
        0 <= x < w,
        0 <= z < h,
        w as int * h as int <= i32::MAX,
    ensures
        r as int == z as int * w as int + x as int,
        r < w as int * h as int,
{
    proof {
        lemma_cell_index(w as int, h as int, x as int, z as int);
    }
    let r = z as i64 * w as i64 + x as i64;
    r as usize
}

fn build_terrain(
    tiles: &[(GridPosition, TilePreset)],
    occupancy: &OccupancyMap,
    w: i32,
    h: i32,
    Ghost(pp): Ghost<PathProblem>,
) -> (r: TerrainGrid)
    requires
        pp.tiles == tiles@,
        pp.blocked == occupancy.blocked_tiles@,
        pp.width == w as int,
        pp.height == h as int,
        w > 0,
        h > 0,
        w as int * h as int <= i32::MAX,
    ensures
        r.models(pp),
{
    let n = cell_index(0, h - 1, w, h) + w as usize;
    assert(n == w as int * h as int) by (nonlinear_arith)
        requires
            n == (h as int - 1) * w as int + 0 + w as int,
    ;
    let mut traversible = falses(n);
    let mut rugged = falses(n);
    let mut blocked = falses(n);
    let nt = tiles.len();
    proof {
        assert forall|x: int, z: int| 0 <= x < w && 0 <= z < h implies
            !#[trigger] traversible@[z * w + x] by {
            lemma_cell_index(w as int, h as int, x, z);
        }
        assert forall|x: int, z: int| 0 <= x < w && 0 <= z < h implies
            !#[trigger] rugged@[z * w + x] by {
            lemma_cell_index(w as int, h as int, x, z);
        }
    }
    let mut k: usize = 0;
    while k < nt
        invariant
            nt == tiles@.len(),
            pp.tiles == tiles@,
            pp.width == w as int,
            pp.height == h as int,
            w > 0,
            h > 0,
            w as int * h as int <= i32::MAX,
            n == w as int * h as int,
            0 <= k <= nt,
            traversible@.len() == n,
            rugged@.len() == n,
            blocked@.len() == n,
            forall|i: int| 0 <= i < n ==> !#[trigger] blocked@[i],
            forall|x: int, z: int|
                #![trigger traversible@[z * w + x]]
                0 <= x < w && 0 <= z < h ==> traversible@[z * w + x] == trav_upto(tiles@, k as int, x, z),
            forall|x: int, z: int|
                #![trigger rugged@[z * w + x]]
                0 <= x < w && 0 <= z < h ==> rugged@[z * w + x] == rugged_upto(tiles@, k as int, x, z),
        decreases nt - k,
    {
        let tx = tiles[k].0.x;
        let tz = tiles[k].0.z;
        if 0 <= tx && tx < w && 0 <= tz && tz < h {
            let i = cell_index(tx, tz, w, h);
            let ghost old_t = traversible@;
            let ghost old_r = rugged@;
            if tiles[k].1.traversible {
                traversible.set(i, true);
                if tiles[k].1.rugged {
                    rugged.set(i, true);
                }
            }
            proof {
                assert forall|x: int, z: int|
                    #![trigger traversible@[z * w + x]]
                    #![trigger rugged@[z * w + x]]
                    0 <= x < w && 0 <= z < h implies
                    traversible@[z * w + x] == trav_upto(tiles@, k + 1, x, z)
                    && rugged@[z * w + x] == rugged_upto(tiles@, k + 1, x, z) by {
                    lemma_cell_index(w as int, h as int, x, z);
                    assert(old_r[z * w + x] == rugged_upto(tiles@, k as int, x, z));
                    if x == tx && z == tz {
                        if tiles@[k as int].1.traversible {
                            assert(trav_upto(tiles@, k + 1, x, z));
                        }
                        if tiles@[k as int].1.traversible && tiles@[k as int].1.rugged {
                            assert(rugged_upto(tiles@, k + 1, x, z));
                        }
                        if trav_upto(tiles@, k + 1, x, z) && !tiles@[k as int].1.traversible {
                            let j = choose|j: int| #![trigger tiles@[j]] 0 <= j < k + 1 && tiles@[j].0.x == x && tiles@[j].0.z == z && tiles@[j].1.traversible;
                            assert(trav_upto(tiles@, k as int, x, z));
                        }
                        if rugged_upto(tiles@, k + 1, x, z) && !(tiles@[k as int].1.traversible && tiles@[k as int].1.rugged) {
                            let j = choose|j: int| #![trigger tiles@[j]] 0 <= j < k + 1 && tiles@[j].0.x == x && tiles@[j].0.z == z && tiles@[j].1.traversible && tiles@[j].1.rugged;
                            assert(rugged_upto(tiles@, k as int, x, z));
                        }
                    } else {
                        if z * w + x == tz as int * w + tx as int {
                            lemma_cell_index_injective(w as int, x, z, tx as int, tz as int);
                        }
                        assert(traversible@[z * w + x] == old_t[z * w + x]);
                        assert(rugged@[z * w + x] == old_r[z * w + x]);
                        if trav_upto(tiles@, k + 1, x, z) {
                            let j = choose|j: int| #![trigger tiles@[j]] 0 <= j < k + 1 && tiles@[j].0.x == x && tiles@[j].0.z == z && tiles@[j].1.traversible;
                            assert(trav_upto(tiles@, k as int, x, z));
                        }
                        if rugged_upto(tiles@, k + 1, x, z) {
                            let j = choose|j: int| #![trigger tiles@[j]] 0 <= j < k + 1 && tiles@[j].0.x == x && tiles@[j].0.z == z && tiles@[j].1.traversible && tiles@[j].1.rugged;
                            assert(rugged_upto(tiles@, k as int, x, z));
                        }
                    }
                }
            }
        } else {
            proof {
                assert forall|x: int, z: int|
                    #![trigger traversible@[z * w + x]]
                    #![trigger rugged@[z * w + x]]
                    0 <= x < w && 0 <= z < h implies
                    traversible@[z * w + x] == trav_upto(tiles@, k + 1, x, z)
                    && rugged@[z * w + x] == rugged_upto(tiles@, k + 1, x, z) by {
                    if trav_upto(tiles@, k + 1, x, z) {
                        let j = choose|j: int| #![trigger tiles@[j]] 0 <= j < k + 1 && tiles@[j].0.x == x && tiles@[j].0.z == z && tiles@[j].1.traversible;
                        assert(trav_upto(tiles@, k as int, x, z));
                    }
                    if rugged_upto(tiles@, k + 1, x, z) {
                        let j = choose|j: int| #![trigger tiles@[j]] 0 <= j < k + 1 && tiles@[j].0.x == x && tiles@[j].0.z == z && tiles@[j].1.traversible && tiles@[j].1.rugged;
                        assert(rugged_upto(tiles@, k as int, x, z));
                    }
                }
            }
        }
        k = k + 1;
    }
    let nb = occupancy.blocked_tiles.count();
    proof {
        assert forall|x: int, z: int| 0 <= x < w && 0 <= z < h implies
            !#[trigger] blocked@[z * w + x] by {
            lemma_cell_index(w as int, h as int, x, z);
        }
    }
    let mut k: usize = 0;
    while k < nb
        invariant
            nb == occupancy.blocked_tiles.seq().len(),
            occupancy.blocked_tiles.seq().to_set() == occupancy.blocked_tiles@,
            forall|c: (i32, i32)| #[trigger] occupancy.blocked_tiles@.contains(c) <==> occupancy.blocked_tiles.seq().contains(c),
            pp.width == w as int,
            pp.height == h as int,
            w > 0,
            h > 0,
            w as int * h as int <= i32::MAX,
            n == w as int * h as int,
            0 <= k <= nb,
            blocked@.len() == n,
            forall|x: int, z: int|
                #![trigger blocked@[z * w + x]]
                0 <= x < w && 0 <= z < h ==> blocked@[z * w + x] == blocked_upto(occupancy.blocked_tiles.seq(), k as int, x, z),
        decreases nb - k,
    {
        let c = occupancy.blocked_tiles.get(k);
        let ghost cells = occupancy.blocked_tiles.seq();
        let ghost old_b = blocked@;
        if 0 <= c.0 && c.0 < w && 0 <= c.1 && c.1 < h {
            let i = cell_index(c.0, c.1, w, h);
            blocked.set(i, true);
        }
        proof {
            assert forall|x: int, z: int| 0 <= x < w && 0 <= z < h implies
                #[trigger] blocked@[z * w + x] == blocked_upto(cells, k + 1, x, z) by {
                lemma_cell_index(w as int, h as int, x, z);
                if x == c.0 && z == c.1 {
                    assert(blocked_upto(cells, k + 1, x, z));
                } else {
                    if 0 <= c.0 < w && 0 <= c.1 < h && z * w + x == c.1 as int * w + c.0 as int {
                        lemma_cell_index_injective(w as int, x, z, c.0 as int, c.1 as int);
                    }
                    assert(blocked@[z * w + x] == old_b[z * w + x]);
                    if blocked_upto(cells, k + 1, x, z) {
                        let j = choose|j: int| #![trigger cells[j]] 0 <= j < k + 1 && cells[j].0 == x && cells[j].1 == z;
                        assert(blocked_upto(cells, k as int, x, z));
                    }
                }
            }
        }
        k = k + 1;
    }
    let r = TerrainGrid { traversible, rugged, blocked };
    proof {
        assert forall|x: int, z: int| 0 <= x < w && 0 <= z < h implies
            #[trigger] r.blocked@[z * w + x] == exists|c: (i32, i32)| #![trigger pp.blocked.contains(c)] pp.blocked.contains(c) && c.0 == x && c.1 == z by {
            let cells = occupancy.blocked_tiles.seq();
            if blocked_upto(cells, nb as int, x, z) {
                let j = choose|j: int| #![trigger cells[j]] 0 <= j < nb && cells[j].0 == x && cells[j].1 == z;
                assert(cells.contains(cells[j]));
                assert(pp.blocked.contains(cells[j]));
            }
            if exists|c: (i32, i32)| #![trigger pp.blocked.contains(c)] pp.blocked.contains(c) && c.0 == x && c.1 == z {
                let c = choose|c: (i32, i32)| #![trigger pp.blocked.contains(c)] pp.blocked.contains(c) && c.0 == x && c.1 == z;
                assert(cells.contains(c));
                let j = choose|j: int| 0 <= j < cells.len() && cells[j] == c;
                assert(cells[j] == c);
                assert(blocked_upto(cells, nb as int, x, z));
            }
        }
        assert forall|x: int, z: int| 0 <= x < w && 0 <= z < h implies
            #[trigger] r.traversible@[z * w + x] == has_traversible_tile(pp.tiles, x, z) by {
            if has_traversible_tile(pp.tiles, x, z) {
                let j = choose|j: int| #![trigger tiles@[j]] 0 <= j < tiles@.len() && tiles@[j].0.x == x && tiles@[j].0.z == z && tiles@[j].1.traversible;
                assert(trav_upto(tiles@, nt as int, x, z));
            }
        }
        assert forall|x: int, z: int| 0 <= x < w && 0 <= z < h implies
            #[trigger] r.rugged@[z * w + x] == has_rugged_tile(pp.tiles, x, z) by {
            if has_rugged_tile(pp.tiles, x, z) {
                let j = choose|j: int| #![trigger tiles@[j]] 0 <= j < tiles@.len() && tiles@[j].0.x == x && tiles@[j].0.z == z && tiles@[j].1.traversible && tiles@[j].1.rugged;
                assert(rugged_upto(tiles@, nt as int, x, z));
            }
        }
    }
    r
}

/// Number of `true` entries.
pub open spec fn count_true(s: Seq<bool>) -> nat
    decreases s.len(),
{
    if s.len() == 0 {
        0
    } else {
        count_true(s.drop_last()) + if s.last() { 1nat } else { 0nat }
    }
}

proof fn lemma_count_true_le(s: Seq<bool>)
    ensures
        count_true(s) <= s.len(),
    decreases s.len(),
{
    if s.len() > 0 {
        lemma_count_true_le(s.drop_last());
    }
}

proof fn lemma_count_true_set(s: Seq<bool>, i: int)
    requires
        0 <= i < s.len(),
        !s[i],
    ensures
        count_true(s.update(i, true)) == count_true(s) + 1,
    decreases s.len(),
{
    let t = s.update(i, true);
    if i == s.len() - 1 {
        assert(t.drop_last() =~= s.drop_last());
    } else {
        assert(t.drop_last() =~= s.drop_last().update(i, true));
        lemma_count_true_set(s.drop_last(), i);
    }
}

/// Index of the direction from `a` to `b` (0..=8, 4 being no move).
pub open spec fn dir_index(a: GridPosition, b: GridPosition) -> int {
    (b.z - a.z + 1) * 3 + (b.x - a.x + 1)
}

/// The parent link of a discovered node is a closed node one allowed step away,
/// and the node's cost extends the parent's by that step.
spec fn parent_ok(
    pp: PathProblem,
    g: Seq<u64>,
    parent: Seq<GridPosition>,
    has_parent: Seq<bool>,
    closed: Seq<bool>,
    p: GridPosition,
) -> bool {
    let s = slot(pp, p);
    let q = parent[s];
    &&& has_parent[s]
    &&& relevant(pp, q)
    &&& closed[slot(pp, q)]
    &&& step_allowed(pp, q, p)
    &&& g[s] == g[slot(pp, q)] + step_cost(q, p)
}

/// The state of the search. Nodes whose closure is still being expanded are
/// `cur` for the directions `>= d`.
spec fn search_inv(
    pp: PathProblem,
    n: int,
    disc: Seq<bool>,
    closed: Seq<bool>,
    g: Seq<u64>,
    parent: Seq<GridPosition>,
    has_parent: Seq<bool>,
    open: Seq<GridPosition>,
    cur: GridPosition,
    d: int,
) -> bool {
    &&& pp.width > 0
    &&& pp.height > 0
    &&& n == pp.width * pp.height
    &&& n <= i32::MAX
    &&& disc.len() == n + 1
    &&& closed.len() == n + 1
    &&& g.len() == n + 1
    &&& parent.len() == n + 1
    &&& has_parent.len() == n + 1
    &&& disc[slot(pp, pp.start)]
    &&& g[slot(pp, pp.start)] == 0
    &&& !has_parent[slot(pp, pp.start)]
    &&& forall|p: GridPosition|
        #![trigger closed[slot(pp, p)]]
        relevant(pp, p) && closed[slot(pp, p)] ==> disc[slot(pp, p)]
    &&& forall|i: int|
        0 <= i < open.len() ==> relevant(pp, #[trigger] open[i]) && disc[slot(pp, open[i])]
            && !closed[slot(pp, open[i])]
    &&& open.no_duplicates()
    &&& forall|p: GridPosition|
        #![trigger disc[slot(pp, p)]]
        relevant(pp, p) && disc[slot(pp, p)] && !closed[slot(pp, p)] ==> open.contains(p)
    &&& forall|p: GridPosition|
        #![trigger disc[slot(pp, p)]]
        relevant(pp, p) && disc[slot(pp, p)] && p != pp.start ==> parent_ok(pp, g, parent, has_parent, closed, p)
    &&& forall|c: GridPosition, q: GridPosition|
        #![trigger closed[slot(pp, c)], step_allowed(pp, c, q)]
        relevant(pp, c) && closed[slot(pp, c)] && step_allowed(pp, c, q) && (c == cur ==> dir_index(c, q) < d)
            ==> disc[slot(pp, q)]
    &&& relevant(pp, pp.goal) ==> !closed[slot(pp, pp.goal)]
    &&& forall|p: GridPosition|
        #![trigger disc[slot(pp, p)]]
        relevant(pp, p) && disc[slot(pp, p)] ==> g[slot(pp, p)] <= DIAGONAL_COST * count_true(closed)
    &&& count_true(closed) <= n + 1
}

/// Closed nodes carry their cheapest cost: no path to them costs less.
spec fn closed_optimal(pp: PathProblem, closed: Seq<bool>, g: Seq<u64>) -> bool {
    forall|c: GridPosition, path: Seq<GridPosition>|
        #![trigger closed[slot(pp, c)], is_walk(pp, path, c)]
        relevant(pp, c) && closed[slot(pp, c)] && is_walk(pp, path, c) ==> g[slot(pp, c)] <= path_cost(path)
}

/// Every processed step out of a closed node leads to a closed node or to
/// one whose cost is at most the cost through that step.
spec fn relaxed(pp: PathProblem, closed: Seq<bool>, g: Seq<u64>, cur: GridPosition, d: int) -> bool {
    forall|c: GridPosition, q: GridPosition|
        #![trigger closed[slot(pp, c)], step_allowed(pp, c, q)]
        relevant(pp, c) && closed[slot(pp, c)] && step_allowed(pp, c, q) && (c == cur ==> dir_index(c, q) < d)
            ==> closed[slot(pp, q)] || g[slot(pp, q)] <= g[slot(pp, c)] + step_cost(c, q)
}

/// Estimated total cost of an open node.
spec fn est(pp: PathProblem, g: Seq<u64>, p: GridPosition) -> int {
    g[slot(pp, p)] + octile(p, pp.goal)
}

/// The nodes of a path from the start are all relevant.
proof fn lemma_walk_relevant(pp: PathProblem, path: Seq<GridPosition>, t: GridPosition, j: int)
    requires
        is_walk(pp, path, t),
        0 <= j < path.len(),
    ensures
        relevant(pp, path[j]),
{
    if j > 0 {
        assert(step_allowed(pp, path[j - 1], path[(j - 1) + 1]));
    }
}

/// The first node of a path that is not closed, when its last one is not.
proof fn lemma_first_open(pp: PathProblem, closed: Seq<bool>, path: Seq<GridPosition>, i: int) -> (k: int)
    requires
        path.len() >= 1,
        0 <= i < path.len(),
        !closed[slot(pp, path[path.len() - 1])],
        forall|j: int| 0 <= j < i ==> closed[slot(pp, #[trigger] path[j])],
    ensures
        0 <= k < path.len(),
        !closed[slot(pp, path[k])],
        forall|j: int| 0 <= j < k ==> closed[slot(pp, #[trigger] path[j])],
    decreases path.len() - i,
{
    if !closed[slot(pp, path[i])] {
        i
    } else {
        lemma_first_open(pp, closed, path, i + 1)
    }
}

/// The open node of least estimated total cost carries its cheapest cost.
#[verifier::spinoff_prover]
#[verifier::rlimit(40)]
proof fn lemma_selected_optimal(
    pp: PathProblem,
    n: int,
    disc: Seq<bool>,
    closed: Seq<bool>,
    g: Seq<u64>,
    parent: Seq<GridPosition>,
    has_parent: Seq<bool>,
    open: Seq<GridPosition>,
    prev: GridPosition,
    bi: int,
    path: Seq<GridPosition>,
)
    requires
        search_inv(pp, n, disc, closed, g, parent, has_parent, open, prev, 9),
        closed_optimal(pp, closed, g),
        relaxed(pp, closed, g, prev, 9),
        0 <= bi < open.len(),
        forall|i: int| 0 <= i < open.len() ==> est(pp, g, open[bi]) <= #[trigger] est(pp, g, open[i]),
        is_walk(pp, path, open[bi]),
    ensures
        g[slot(pp, open[bi])] <= path_cost(path),
{
    let u = open[bi];
    let len = path.len() as int;
    assert(!closed[slot(pp, u)]);
    let k = lemma_first_open(pp, closed, path, 0);
    let y = path[k];
    lemma_walk_relevant(pp, path, u, k);
    let suffix = path.subrange(k, len);
    assert forall|i: int| 0 <= i < suffix.len() - 1 implies #[trigger] is_neighbor(suffix[i], suffix[i + 1]) by {
        assert(step_allowed(pp, path[k + i], path[k + i + 1]));
        assert(suffix[i] == path[k + i]);
        assert(suffix[i + 1] == path[k + i + 1]);
    }
    lemma_octile_path(suffix, pp.goal);
    lemma_path_cost_split(path, k);
    if k == 0 {
        assert(y == pp.start);
        assert(disc[slot(pp, pp.start)]);
        assert(open.contains(y));
        let j = choose|j: int| 0 <= j < open.len() && open[j] == y;
        assert(est(pp, g, u) <= est(pp, g, open[j]));
        assert(path.subrange(0, 1).len() == 1);
    } else {
        let x = path[k - 1];
        lemma_walk_relevant(pp, path, u, k - 1);
        assert(closed[slot(pp, path[k - 1])]);
        assert(step_allowed(pp, path[k - 1], path[(k - 1) + 1]));
        let prefix = path.subrange(0, k);
        assert forall|i: int| 0 <= i < prefix.len() - 1 implies #[trigger] step_allowed(pp, prefix[i], prefix[i + 1]) by {
            assert(step_allowed(pp, path[i], path[i + 1]));
        }
        assert(is_walk(pp, prefix, x));
        assert(g[slot(pp, x)] <= path_cost(prefix));
        assert(x == prev ==> dir_index(x, y) < 9);
        assert(g[slot(pp, y)] <= g[slot(pp, x)] + step_cost(x, y));
        assert(disc[slot(pp, y)]);
        assert(open.contains(y));
        let j = choose|j: int| 0 <= j < open.len() && open[j] == y;
        assert(est(pp, g, u) <= est(pp, g, open[j]));
        let pre1 = path.subrange(0, k + 1);
        assert(pre1.drop_last() =~= prefix);
        assert(path_cost(pre1) == path_cost(prefix) + step_cost(x, y));
    }
}

/// Closing the selected node keeps closed costs cheapest and steps relaxed.
#[verifier::spinoff_prover]
proof fn lemma_close_opt(
    pp: PathProblem,
    n: int,
    disc: Seq<bool>,
    closed: Seq<bool>,
    g: Seq<u64>,
    parent: Seq<GridPosition>,
    has_parent: Seq<bool>,
    open: Seq<GridPosition>,
    prev: GridPosition,
    bi: int,
)
    requires
        search_inv(pp, n, disc, closed, g, parent, has_parent, open, prev, 9),
        closed_optimal(pp, closed, g),
        relaxed(pp, closed, g, prev, 9),
        0 <= bi < open.len(),
        forall|i: int| 0 <= i < open.len() ==> est(pp, g, open[bi]) <= #[trigger] est(pp, g, open[i]),
    ensures
        closed_optimal(pp, closed.update(slot(pp, open[bi]), true), g),
        relaxed(pp, closed.update(slot(pp, open[bi]), true), g, open[bi], 0),
{
    let u = open[bi];
    let closed2 = closed.update(slot(pp, u), true);
    assert(relevant(pp, u));
    lemma_slot(pp, u, u);
    assert forall|c: GridPosition, path: Seq<GridPosition>|
        #![trigger closed2[slot(pp, c)], is_walk(pp, path, c)]
        relevant(pp, c) && closed2[slot(pp, c)] && is_walk(pp, path, c) implies g[slot(pp, c)] <= path_cost(path) by {
        lemma_slot(pp, c, u);
        if c == u {
            lemma_selected_optimal(pp, n, disc, closed, g, parent, has_parent, open, prev, bi, path);
        } else {
            assert(slot(pp, c) != slot(pp, u));
            assert(0 <= slot(pp, c) < closed.len());
            assert(0 <= slot(pp, u) < closed.len());
            assert(closed2[slot(pp, c)] == closed[slot(pp, c)]);
            assert(closed[slot(pp, c)]);
        }
    }
    assert forall|c: GridPosition, q: GridPosition|
        #![trigger closed2[slot(pp, c)], step_allowed(pp, c, q)]
        relevant(pp, c) && closed2[slot(pp, c)] && step_allowed(pp, c, q) && (c == u ==> dir_index(c, q) < 0)
            implies closed2[slot(pp, q)] || g[slot(pp, q)] <= g[slot(pp, c)] + step_cost(c, q) by {
        lemma_slot(pp, c, u);
        lemma_slot(pp, q, u);
        if c != u {
            assert(slot(pp, c) != slot(pp, u));
            assert(closed2[slot(pp, c)] == closed[slot(pp, c)]);
            assert(closed[slot(pp, c)]);
            assert(closed[slot(pp, q)] ==> closed2[slot(pp, q)]);
            assert(c == prev ==> dir_index(c, q) < 9);
        }
    }
}

/// A direction with no allowed step keeps the steps relaxed.
proof fn lemma_advance_opt(pp: PathProblem, closed: Seq<bool>, g: Seq<u64>, cur: GridPosition, d: int)
    requires
        relaxed(pp, closed, g, cur, d),
        forall|q: GridPosition| #[trigger] step_allowed(pp, cur, q) && dir_index(cur, q) == d ==> closed[slot(pp, q)]
            || g[slot(pp, q)] <= g[slot(pp, cur)] + step_cost(cur, q),
    ensures
        relaxed(pp, closed, g, cur, d + 1),
{
    assert forall|c: GridPosition, q: GridPosition|
        #![trigger closed[slot(pp, c)], step_allowed(pp, c, q)]
        relevant(pp, c) && closed[slot(pp, c)] && step_allowed(pp, c, q) && (c == cur ==> dir_index(c, q) < d + 1)
            implies closed[slot(pp, q)] || g[slot(pp, q)] <= g[slot(pp, c)] + step_cost(c, q) by {
        if c == cur && dir_index(c, q) == d {
            assert(step_allowed(pp, cur, q));
        }
    }
}

/// Recording a cheaper cost for the open or new node `q` keeps closed costs
/// cheapest and the processed steps relaxed.
#[verifier::spinoff_prover]
#[verifier::rlimit(40)]
proof fn lemma_relax_update_opt(
    pp: PathProblem,
    n: int,
    disc0: Seq<bool>,
    closed: Seq<bool>,
    g0: Seq<u64>,
    parent0: Seq<GridPosition>,
    hp0: Seq<bool>,
    open0: Seq<GridPosition>,
    cur: GridPosition,
    q: GridPosition,
    d: int,
    cost: int,
)
    requires
        search_inv(pp, n, disc0, closed, g0, parent0, hp0, open0, cur, d),
        closed_optimal(pp, closed, g0),
        relaxed(pp, closed, g0, cur, d),
        0 <= d < 9,
        relevant(pp, cur),
        closed[slot(pp, cur)],
        in_grid(pp, q.x as int, q.z as int),
        dir_index(cur, q) == d,
        step_allowed(pp, cur, q),
        cost == step_cost(cur, q),
        !closed[slot(pp, q)],
        !disc0[slot(pp, q)] || g0[slot(pp, cur)] + cost < g0[slot(pp, q)],
        g0[slot(pp, cur)] + cost <= u64::MAX,
    ensures
        ({
            let g1 = g0.update(slot(pp, q), (g0[slot(pp, cur)] + cost) as u64);
            closed_optimal(pp, closed, g1) && relaxed(pp, closed, g1, cur, d + 1)
        }),
{
    let sq = slot(pp, q);
    let g1 = g0.update(sq, (g0[slot(pp, cur)] + cost) as u64);
    lemma_slot(pp, cur, q);
    lemma_slot(pp, q, q);
    assert forall|c: GridPosition, path: Seq<GridPosition>|
        #![trigger closed[slot(pp, c)], is_walk(pp, path, c)]
        relevant(pp, c) && closed[slot(pp, c)] && is_walk(pp, path, c) implies g1[slot(pp, c)] <= path_cost(path) by {
        lemma_slot(pp, c, q);
        assert(slot(pp, c) != sq);
        assert(g1[slot(pp, c)] == g0[slot(pp, c)]);
    }
    assert forall|c: GridPosition, q2: GridPosition|
        #![trigger closed[slot(pp, c)], step_allowed(pp, c, q2)]
        relevant(pp, c) && closed[slot(pp, c)] && step_allowed(pp, c, q2) && (c == cur ==> dir_index(c, q2) < d + 1)
            implies closed[slot(pp, q2)] || g1[slot(pp, q2)] <= g1[slot(pp, c)] + step_cost(c, q2) by {
        lemma_slot(pp, c, q);
        lemma_slot(pp, q2, q);
        if c == cur && dir_index(c, q2) == d {
            assert(q2.x == q.x && q2.z == q.z);
        } else if q2 == q {
            if !disc0[sq] {
                assert(disc0[slot(pp, q2)]);
            }
        }
    }
}

proof fn lemma_path_discovered(
    pp: PathProblem,
    n: int,
    disc: Seq<bool>,
    closed: Seq<bool>,
    g: Seq<u64>,
    parent: Seq<GridPosition>,
    has_parent: Seq<bool>,
    open: Seq<GridPosition>,
    cur: GridPosition,
    path: Seq<GridPosition>,
    k: int,
)
    requires
        search_inv(pp, n, disc, closed, g, parent, has_parent, open, cur, 9),
        open.len() == 0,
        is_path(pp, path),
        0 <= k < path.len(),
    ensures
        relevant(pp, path[k]),
        disc[slot(pp, path[k])],
    decreases k,
{
    if k > 0 {
        lemma_path_discovered(pp, n, disc, closed, g, parent, has_parent, open, cur, path, k - 1);
        let c = path[k - 1];
        assert(step_allowed(pp, path[k - 1], path[(k - 1) + 1]));
        assert(path[(k - 1) + 1] == path[k]);
        if !closed[slot(pp, c)] {
            assert(open.contains(c));
        }
        assert(closed[slot(pp, c)]);
    }
}

/// When the open list runs empty, no path exists.
proof fn lemma_no_path(
    pp: PathProblem,
    n: int,
    disc: Seq<bool>,
    closed: Seq<bool>,
    g: Seq<u64>,
    parent: Seq<GridPosition>,
    has_parent: Seq<bool>,
    open: Seq<GridPosition>,
    cur: GridPosition,
)
    requires
        search_inv(pp, n, disc, closed, g, parent, has_parent, open, cur, 9),
        open.len() == 0,
    ensures
        forall|path: Seq<GridPosition>| !#[trigger] is_path(pp, path),
{
    assert forall|path: Seq<GridPosition>| !#[trigger] is_path(pp, path) by {
        if is_path(pp, path) {
            let k = path.len() - 1;
            lemma_path_discovered(pp, n, disc, closed, g, parent, has_parent, open, cur, path, k);
            if !closed[slot(pp, pp.goal)] {
                assert(open.contains(pp.goal));
            }
        }
    }
}

/// Slot of a relevant node.
fn node_slot(p: GridPosition, w: i32, h: i32, n: usize, Ghost(pp): Ghost<PathProblem>) -> (r: usize)
    requires
        pp.width == w as int,
        pp.height == h as int,
        w > 0,
        h > 0,
        n == w as int * h as int,
        n <= i32::MAX,
        relevant(pp, p),
    ensures
        r as int == slot(pp, p),
        r <= n,
{
    if 0 <= p.x && p.x < w && 0 <= p.z && p.z < h {
        cell_index(p.x, p.z, w, h)
    } else {
        n
    }
}

fn reconstruct_path(
    start: GridPosition,
    goal: GridPosition,
    parent: &Vec<GridPosition>,
    has_parent: &Vec<bool>,
    g: &Vec<u64>,
    w: i32,
    h: i32,
    n: usize,
    Ghost(pp): Ghost<PathProblem>,
    Ghost(disc): Ghost<Seq<bool>>,
    Ghost(closed): Ghost<Seq<bool>>,
    Ghost(open): Ghost<Seq<GridPosition>>,
    Ghost(cur0): Ghost<GridPosition>,
    Ghost(d): Ghost<int>,
) -> (r: Vec<GridPosition>)
    requires
        search_inv(pp, n as int, disc, closed, g@, parent@, has_parent@, open, cur0, d),
        pp.width == w as int,
        pp.height == h as int,
        pp.start == start,
        pp.goal == goal,
        relevant(pp, pp.goal),
        disc[slot(pp, pp.goal)],
    ensures
        is_path(pp, r@),
        path_cost(r@) == g@[slot(pp, pp.goal)],
{
    let mut rev: Vec<GridPosition> = Vec::new();
    let mut cur = goal;
    rev.push(cur);
    while !(cur.x == start.x && cur.z == start.z)
        invariant
            search_inv(pp, n as int, disc, closed, g@, parent@, has_parent@, open, cur0, d),
            pp.width == w as int,
            pp.height == h as int,
            pp.start == start,
            pp.goal == goal,
            rev@.len() >= 1,
            rev@[0] == pp.goal,
            rev@[rev@.len() - 1] == cur,
            relevant(pp, cur),
            disc[slot(pp, cur)],
            forall|i: int| 0 <= i < rev@.len() - 1 ==> #[trigger] step_allowed(pp, rev@[i + 1], rev@[i]),
            forall|i: int|
                0 <= i < rev@.len() - 1 ==> g@[slot(pp, #[trigger] rev@[i])] == g@[slot(pp, rev@[i + 1])] + step_cost(
                    rev@[i + 1],
                    rev@[i],
                ),
        decreases g@[slot(pp, cur)],
    {
        let s = node_slot(cur, w, h, n, Ghost(pp));
        assert(parent_ok(pp, g@, parent@, has_parent@, closed, cur));
        let q = parent[s];
        let ghost old_rev = rev@;
        rev.push(q);
        cur = q;
        proof {
            assert forall|i: int| 0 <= i < rev@.len() - 1 implies #[trigger] step_allowed(pp, rev@[i + 1], rev@[i]) by {
                if i < old_rev.len() - 1 {
                    assert(step_allowed(pp, old_rev[i + 1], old_rev[i]));
                }
            }
            assert forall|i: int| 0 <= i < rev@.len() - 1 implies g@[slot(pp, #[trigger] rev@[i])] == g@[slot(
                pp,
                rev@[i + 1],
            )] + step_cost(rev@[i + 1], rev@[i]) by {
                if i < old_rev.len() - 1 {
                    assert(rev@[i] == old_rev[i]);
                    assert(rev@[i + 1] == old_rev[i + 1]);
                }
            }
        }
    }
    let len = rev.len();
    let mut path: Vec<GridPosition> = Vec::new();
    let mut i: usize = len;
    while i > 0
        invariant
            len == rev@.len(),
            len >= 1,
            0 <= i <= len,
            path@.len() == len - i,
            forall|j: int| 0 <= j < path@.len() ==> #[trigger] path@[j] == rev@[len - 1 - j],
            rev@[len - 1] == pp.start,
            g@[slot(pp, pp.start)] == 0,
            forall|k: int|
                0 <= k < rev@.len() - 1 ==> g@[slot(pp, #[trigger] rev@[k])] == g@[slot(pp, rev@[k + 1])] + step_cost(
                    rev@[k + 1],
                    rev@[k],
                ),
            path@.len() > 0 ==> path_cost(path@) == g@[slot(pp, path@[path@.len() - 1])],
        decreases i,
    {
        i = i - 1;
        let ghost old_path = path@;
        path.push(rev[i]);
        proof {
            if old_path.len() > 0 {
                assert(path@.drop_last() =~= old_path);
                assert(old_path[old_path.len() - 1] == rev@[(i as int) + 1]);
                assert(g@[slot(pp, rev@[i as int])] == g@[slot(pp, rev@[(i as int) + 1])] + step_cost(
                    rev@[(i as int) + 1],
                    rev@[i as int],
                ));
            }
        }
    }
    proof {
        assert(path@[0] == pp.start);
        assert(path@[path@.len() - 1] == pp.goal);
        assert forall|j: int| 0 <= j < path@.len() - 1 implies #[trigger] step_allowed(pp, path@[j], path@[j + 1]) by {
            let k = len - 2 - j;
            assert(step_allowed(pp, rev@[k + 1], rev@[k]));
            assert(path@[j] == rev@[len - 1 - j]);
            assert(path@[j + 1] == rev@[len - 1 - (j + 1)]);
        }
    }
    path
}

proof fn lemma_count_true_all_false(s: Seq<bool>)
    requires
        forall|i: int| 0 <= i < s.len() ==> !#[trigger] s[i],
    ensures
        count_true(s) == 0,
    decreases s.len(),
{
    if s.len() > 0 {
        lemma_count_true_all_false(s.drop_last());
    }
}

fn zeros(n: usize) -> (r: Vec<u64>)
    ensures
        r@.len() == n,
        forall|i: int| 0 <= i < n ==> #[trigger] r@[i] == 0,
{
    let mut r: Vec<u64> = Vec::new();
    let mut i: usize = 0;
    while i < n
        invariant
            i <= n,
            r@.len() == i,
            forall|k: int| 0 <= k < i ==> #[trigger] r@[k] == 0,
        decreases n - i,
    {
        r.push(0);
        i = i + 1;
    }
    r
}

fn filled(n: usize, p: GridPosition) -> (r: Vec<GridPosition>)
    ensures
        r@.len() == n,
{
    let mut r: Vec<GridPosition> = Vec::new();
    let mut i: usize = 0;
    while i < n
        invariant
            i <= n,
            r@.len() == i,
        decreases n - i,
    {
        r.push(p);
        i = i + 1;
    }
    r
}

/// Octile distance: an admissible estimate of the remaining cost.
fn octile_heuristic(p: GridPosition, goal: GridPosition) -> (r: u64)
    ensures
        r <= 0x30_0000_0000_0000,
        r == octile(p, goal),
{
    let px = p.x as i64;
    let pz = p.z as i64;
    let gx = goal.x as i64;
    let gz = goal.z as i64;
    let dx: i64 = if px >= gx { px - gx } else { gx - px };
    let dz: i64 = if pz >= gz { pz - gz } else { gz - pz };
    let (mx, mn) = if dx >= dz { (dx, dz) } else { (dz, dx) };
    let a: u64 = (mx - mn) as u64;
    let b: u64 = mn as u64;
    CARDINAL_COST * a + DIAGONAL_COST * b
}

/// Terrain check by scanning the tile list (used off the grid).
fn scan_passable(tiles: &[(GridPosition, TilePreset)], rugged_ok: bool, x: i32, z: i32, Ghost(pp): Ghost<PathProblem>) -> (r: bool)
    requires
        pp.tiles == tiles@,
        pp.rugged_ok == rugged_ok,
    ensures
        r == terrain_passable(pp, x as int, z as int),
{
    let nt = tiles.len();
    let mut trav = false;
    let mut rug = false;
    let mut k: usize = 0;
    while k < nt
        invariant
            nt == tiles@.len(),
            0 <= k <= nt,
            trav == trav_upto(tiles@, k as int, x as int, z as int),
            rug == rugged_upto(tiles@, k as int, x as int, z as int),
        decreases nt - k,
    {
        let here = tiles[k].0.x == x && tiles[k].0.z == z;
        let ghost kk = k as int;
        if here && tiles[k].1.traversible {
            trav = true;
            if tiles[k].1.rugged {
                rug = true;
            }
        }
        proof {
            if trav_upto(tiles@, kk + 1, x as int, z as int) && !(here && tiles@[kk].1.traversible) {
                let j = choose|j: int| #![trigger tiles@[j]] 0 <= j < kk + 1 && tiles@[j].0.x == x && tiles@[j].0.z == z && tiles@[j].1.traversible;
                assert(trav_upto(tiles@, kk, x as int, z as int));
            }
            if rugged_upto(tiles@, kk + 1, x as int, z as int) && !(here && tiles@[kk].1.traversible && tiles@[kk].1.rugged) {
                let j = choose|j: int| #![trigger tiles@[j]] 0 <= j < kk + 1 && tiles@[j].0.x == x && tiles@[j].0.z == z && tiles@[j].1.traversible && tiles@[j].1.rugged;
                assert(rugged_upto(tiles@, kk, x as int, z as int));
            }
            if here && tiles@[kk].1.traversible {
                assert(trav_upto(tiles@, kk + 1, x as int, z as int));
                if tiles@[kk].1.rugged {
                    assert(rugged_upto(tiles@, kk + 1, x as int, z as int));
                }
            }
        }
        k = k + 1;
    }
    proof {
        if has_traversible_tile(tiles@, x as int, z as int) {
            let j = choose|j: int| #![trigger tiles@[j]] 0 <= j < tiles@.len() && tiles@[j].0.x == x && tiles@[j].0.z == z && tiles@[j].1.traversible;
            assert(trav_upto(tiles@, nt as int, x as int, z as int));
        }
        if has_rugged_tile(tiles@, x as int, z as int) {
            let j = choose|j: int| #![trigger tiles@[j]] 0 <= j < tiles@.len() && tiles@[j].0.x == x && tiles@[j].0.z == z && tiles@[j].1.traversible && tiles@[j].1.rugged;
            assert(rugged_upto(tiles@, nt as int, x as int, z as int));
        }
    }
    trav && (rugged_ok || !rug)
}

/// Terrain check of any cell: by the grid flags inside the grid, by the tile list outside.
fn passable(
    tiles: &[(GridPosition, TilePreset)],
    grid: &TerrainGrid,
    rugged_ok: bool,
    x: i32,
    z: i32,
    w: i32,
    h: i32,
    Ghost(pp): Ghost<PathProblem>,
) -> (r: bool)
    requires
        grid.models(pp),
        pp.tiles == tiles@,
        pp.rugged_ok == rugged_ok,
        pp.width == w as int,
        pp.height == h as int,
        w > 0,
        h > 0,
        w as int * h as int <= i32::MAX,
    ensures
        r == terrain_passable(pp, x as int, z as int),
{
    if 0 <= x && x < w && 0 <= z && z < h {
        let i = cell_index(x, z, w, h);
        proof {
            assert(grid.traversible@[(z as int) * pp.width + (x as int)] == has_traversible_tile(pp.tiles, x as int, z as int));
            assert(grid.rugged@[(z as int) * pp.width + (x as int)] == has_rugged_tile(pp.tiles, x as int, z as int));
        }
        grid.traversible[i] && (rugged_ok || !grid.rugged[i])
    } else {
        scan_passable(tiles, rugged_ok, x, z, Ghost(pp))
    }
}


/// Every allowed step from `cur` in direction `d` leads to a discovered node.
spec fn dir_done(pp: PathProblem, disc: Seq<bool>, cur: GridPosition, d: int) -> bool {
    forall|q: GridPosition|
        #![trigger step_allowed(pp, cur, q)]
        step_allowed(pp, cur, q) && dir_index(cur, q) == d ==> disc[slot(pp, q)]
}

proof fn lemma_advance(
    pp: PathProblem,
    n: int,
    disc: Seq<bool>,
    closed: Seq<bool>,
    g: Seq<u64>,
    parent: Seq<GridPosition>,
    has_parent: Seq<bool>,
    open: Seq<GridPosition>,
    cur: GridPosition,
    d: int,
)
    requires
        search_inv(pp, n, disc, closed, g, parent, has_parent, open, cur, d),
        dir_done(pp, disc, cur, d),
    ensures
        search_inv(pp, n, disc, closed, g, parent, has_parent, open, cur, d + 1),
{
    assert forall|c: GridPosition, q: GridPosition|
        #![trigger closed[slot(pp, c)], step_allowed(pp, c, q)]
        relevant(pp, c) && closed[slot(pp, c)] && step_allowed(pp, c, q) && (c == cur ==> dir_index(c, q) < d + 1)
            implies disc[slot(pp, q)] by {
        if c == cur && dir_index(c, q) == d {
            assert(step_allowed(pp, cur, q));
        }
    }
}

/// Closing the open node at `bi` keeps the search state consistent.
#[verifier::spinoff_prover]
#[verifier::rlimit(40)]
proof fn lemma_close(
    pp: PathProblem,
    n: int,
    disc: Seq<bool>,
    closed: Seq<bool>,
    g: Seq<u64>,
    parent: Seq<GridPosition>,
    has_parent: Seq<bool>,
    open: Seq<GridPosition>,
    prev: GridPosition,
    bi: int,
)
    requires
        search_inv(pp, n, disc, closed, g, parent, has_parent, open, prev, 9),
        0 <= bi < open.len(),
        open[bi] != pp.goal,
    ensures
        search_inv(
            pp,
            n,
            disc,
            closed.update(slot(pp, open[bi]), true),
            g,
            parent,
            has_parent,
            open.remove(bi),
            open[bi],
            0,
        ),
        count_true(closed.update(slot(pp, open[bi]), true)) == count_true(closed) + 1,
{
    let cur = open[bi];
    let cs = slot(pp, cur);
    let closed2 = closed.update(cs, true);
    let open2 = open.remove(bi);
    assert(relevant(pp, cur));
    lemma_slot(pp, cur, cur);
    lemma_count_true_set(closed, cs);
    lemma_count_true_le(closed2);
    assert forall|p: GridPosition|
        #![trigger closed2[slot(pp, p)]]
        relevant(pp, p) && closed2[slot(pp, p)] implies disc[slot(pp, p)] by {
        lemma_slot(pp, p, cur);
        if p != cur {
            assert(closed[slot(pp, p)]);
        }
    }
    assert forall|i: int| 0 <= i < open2.len() implies open2[i] == open[if i < bi { i } else { i + 1 }] by {}
    assert forall|i: int|
        0 <= i < open2.len() implies relevant(pp, #[trigger] open2[i]) && disc[slot(pp, open2[i])]
            && !closed2[slot(pp, open2[i])] by {
        let k = if i < bi { i } else { i + 1 };
        assert(open2[i] == open[k]);
        assert(open[k] != open[bi]);
        lemma_slot(pp, open[k], cur);
    }
    assert(open2.no_duplicates()) by {
        assert forall|i: int, j: int| 0 <= i < open2.len() && 0 <= j < open2.len() && i != j implies open2[i]
            != open2[j] by {
            let ki = if i < bi { i } else { i + 1 };
            let kj = if j < bi { j } else { j + 1 };
            assert(open2[i] == open[ki]);
            assert(open2[j] == open[kj]);
        }
    }
    assert forall|p: GridPosition|
        #![trigger disc[slot(pp, p)]]
        relevant(pp, p) && disc[slot(pp, p)] && !closed2[slot(pp, p)] implies open2.contains(p) by {
        lemma_slot(pp, p, cur);
        assert(p != cur);
        assert(!closed[slot(pp, p)]);
        assert(open.contains(p));
        let k = choose|k: int| 0 <= k < open.len() && open[k] == p;
        assert(k != bi);
        if k < bi {
            assert(open2[k] == p);
        } else {
            assert(open2[k - 1] == p);
        }
    }
    assert forall|p: GridPosition|
        #![trigger disc[slot(pp, p)]]
        relevant(pp, p) && disc[slot(pp, p)] && p != pp.start implies parent_ok(pp, g, parent, has_parent, closed2, p) by {
        assert(parent_ok(pp, g, parent, has_parent, closed, p));
    }
    assert forall|c: GridPosition, q: GridPosition|
        #![trigger closed2[slot(pp, c)], step_allowed(pp, c, q)]
        relevant(pp, c) && closed2[slot(pp, c)] && step_allowed(pp, c, q) && (c == cur ==> dir_index(c, q) < 0)
            implies disc[slot(pp, q)] by {
        lemma_slot(pp, c, cur);
        assert(closed[slot(pp, c)]);
        assert(c == prev ==> dir_index(c, q) < 9);
    }
    if relevant(pp, pp.goal) {
        lemma_slot(pp, pp.goal, cur);
    }
}

/// Nothing is recorded for `q`: the step is refused, `q` is closed, or `q`
/// already has a path at most as cheap.
proof fn lemma_relax_keep(
    pp: PathProblem,
    n: int,
    disc: Seq<bool>,
    closed: Seq<bool>,
    g: Seq<u64>,
    parent: Seq<GridPosition>,
    has_parent: Seq<bool>,
    open: Seq<GridPosition>,
    cur: GridPosition,
    q: GridPosition,
    d: int,
)
    requires
        search_inv(pp, n, disc, closed, g, parent, has_parent, open, cur, d),
        relevant(pp, q),
        is_neighbor(cur, q),
        dir_index(cur, q) == d,
        step_allowed(pp, cur, q) ==> closed[slot(pp, q)] || disc[slot(pp, q)],
    ensures
        search_inv(pp, n, disc, closed, g, parent, has_parent, open, cur, d + 1),
{
    assert forall|q2: GridPosition|
        #![trigger step_allowed(pp, cur, q2)]
        step_allowed(pp, cur, q2) && dir_index(cur, q2) == d implies disc[slot(pp, q2)] by {
        assert(q2.x == q.x && q2.z == q.z);
        assert(q2 == q);
    }
    lemma_advance(pp, n, disc, closed, g, parent, has_parent, open, cur, d);
}

/// A cheaper path to the open or new node `q` through `cur` is recorded.
#[verifier::spinoff_prover]
#[verifier::rlimit(60)]
proof fn lemma_relax_update(
    pp: PathProblem,
    n: int,
    disc0: Seq<bool>,
    closed: Seq<bool>,
    g0: Seq<u64>,
    parent0: Seq<GridPosition>,
    hp0: Seq<bool>,
    open0: Seq<GridPosition>,
    cur: GridPosition,
    q: GridPosition,
    d: int,
    cost: int,
)
    requires
        search_inv(pp, n, disc0, closed, g0, parent0, hp0, open0, cur, d),
        0 <= d < 9,
        relevant(pp, cur),
        closed[slot(pp, cur)],
        in_grid(pp, q.x as int, q.z as int),
        is_neighbor(cur, q),
        dir_index(cur, q) == d,
        step_allowed(pp, cur, q),
        cost == step_cost(cur, q),
        !closed[slot(pp, q)],
        !disc0[slot(pp, q)] || g0[slot(pp, cur)] + cost < g0[slot(pp, q)],
        g0[slot(pp, cur)] + DIAGONAL_COST <= DIAGONAL_COST * count_true(closed),
        g0[slot(pp, cur)] + cost <= u64::MAX,
    ensures
        ({
            let sq = slot(pp, q);
            let g1 = g0.update(sq, (g0[slot(pp, cur)] + cost) as u64);
            let parent1 = parent0.update(sq, cur);
            let hp1 = hp0.update(sq, true);
            let disc1 = disc0.update(sq, true);
            let open1 = if disc0[sq] { open0 } else { open0.push(q) };
            search_inv(pp, n, disc1, closed, g1, parent1, hp1, open1, cur, d + 1)
        }),
{
    let sqi = slot(pp, q);
    let csi = slot(pp, cur);
    let g1 = g0.update(sqi, (g0[csi] + cost) as u64);
    let parent1 = parent0.update(sqi, cur);
    let hp1 = hp0.update(sqi, true);
    let disc1 = disc0.update(sqi, true);
    let open1 = if disc0[sqi] { open0 } else { open0.push(q) };
    lemma_slot(pp, q, cur);
    lemma_slot(pp, q, q);
    lemma_slot(pp, cur, cur);
    lemma_slot(pp, pp.start, q);
    assert forall|p: GridPosition| relevant(pp, p) && p != q implies #[trigger] disc1[slot(pp, p)] == disc0[slot(
        pp,
        p,
    )] && g1[slot(pp, p)] == g0[slot(pp, p)] && parent1[slot(pp, p)] == parent0[slot(pp, p)]
        && hp1[slot(pp, p)] == hp0[slot(pp, p)] by {
        lemma_slot(pp, p, q);
    }
    if q == pp.start {
        assert(disc0[slot(pp, pp.start)]);
        assert(g0[slot(pp, pp.start)] == 0);
        assert(false);
    }
    assert(disc1[slot(pp, pp.start)]);
    assert(g1[slot(pp, pp.start)] == 0);
    assert(!hp1[slot(pp, pp.start)]);
    assert forall|p: GridPosition|
        #![trigger closed[slot(pp, p)]]
        relevant(pp, p) && closed[slot(pp, p)] implies disc1[slot(pp, p)] by {
        lemma_slot(pp, p, q);
        assert(disc0[slot(pp, p)]);
    }
    assert forall|i: int|
        0 <= i < open1.len() implies relevant(pp, #[trigger] open1[i]) && disc1[slot(pp, open1[i])]
            && !closed[slot(pp, open1[i])] by {
        if i < open0.len() {
            assert(open1[i] == open0[i]);
            lemma_slot(pp, open0[i], q);
        }
    }
    if !disc0[sqi] {
        assert(!open0.contains(q));
        assert forall|i: int, j: int| 0 <= i < open1.len() && 0 <= j < open1.len() && i != j implies open1[i]
            != open1[j] by {
            if i < open0.len() && j < open0.len() {
            } else if i < open0.len() {
                assert(open0[i] != q);
            } else if j < open0.len() {
                assert(open0[j] != q);
            }
        }
    }
    assert(open1.no_duplicates());
    assert forall|p: GridPosition|
        #![trigger disc1[slot(pp, p)]]
        relevant(pp, p) && disc1[slot(pp, p)] && !closed[slot(pp, p)] implies open1.contains(p) by {
        if p == q {
            if !disc0[sqi] {
                assert(open1[open0.len() as int] == q);
            } else {
                assert(open0.contains(q));
            }
        } else {
            assert(disc0[slot(pp, p)]);
            assert(open0.contains(p));
            let k = choose|k: int| 0 <= k < open0.len() && open0[k] == p;
            assert(open1[k] == p);
        }
    }
    assert forall|p: GridPosition|
        #![trigger disc1[slot(pp, p)]]
        relevant(pp, p) && disc1[slot(pp, p)] && p != pp.start implies parent_ok(pp, g1, parent1, hp1, closed, p) by {
        if p == q {
            assert(parent1[sqi] == cur);
            assert(g1[csi] == g0[csi]);
        } else {
            lemma_slot(pp, p, q);
            assert(disc0[slot(pp, p)]);
            assert(parent_ok(pp, g0, parent0, hp0, closed, p));
            let pq = parent0[slot(pp, p)];
            lemma_slot(pp, pq, q);
            assert(g1[slot(pp, pq)] == g0[slot(pp, pq)]);
        }
    }
    assert forall|c: GridPosition, q2: GridPosition|
        #![trigger closed[slot(pp, c)], step_allowed(pp, c, q2)]
        relevant(pp, c) && closed[slot(pp, c)] && step_allowed(pp, c, q2) && (c == cur ==> dir_index(c, q2) < d + 1)
            implies disc1[slot(pp, q2)] by {
        if c == cur && dir_index(c, q2) == d {
            assert(q2.x == q.x && q2.z == q.z);
            assert(q2 == q);
        } else {
            assert(disc0[slot(pp, q2)]);
            assert(relevant(pp, q2));
            lemma_slot(pp, q2, q);
        }
    }
    assert forall|p: GridPosition|
        #![trigger disc1[slot(pp, p)]]
        relevant(pp, p) && disc1[slot(pp, p)] implies g1[slot(pp, p)] <= DIAGONAL_COST * count_true(closed) by {
        if p != q {
            lemma_slot(pp, p, q);
            assert(disc0[slot(pp, p)]);
        }
    }
}

/// Consider the neighbour `q` of the node `cur` being expanded in direction `d`:
/// record it, or a cheaper way to it, when the step is allowed.
fn relax(
    q: GridPosition,
    cur: GridPosition,
    cost: u64,
    allowed: bool,
    sq: usize,
    cs: usize,
    disc: &mut Vec<bool>,
    closed: &Vec<bool>,
    g: &mut Vec<u64>,
    parent: &mut Vec<GridPosition>,
    has_parent: &mut Vec<bool>,
    open: &mut Vec<GridPosition>,
    Ghost(pp): Ghost<PathProblem>,
    Ghost(n): Ghost<int>,
    Ghost(d): Ghost<int>,
)
    requires
        search_inv(pp, n, old(disc)@, closed@, old(g)@, old(parent)@, old(has_parent)@, old(open)@, cur, d),
        0 <= d < 9,
        relevant(pp, cur),
        cs as int == slot(pp, cur),
        closed@[cs as int],
        in_grid(pp, q.x as int, q.z as int),
        sq as int == slot(pp, q),
        is_neighbor(cur, q),
        dir_index(cur, q) == d,
        allowed == step_allowed(pp, cur, q),
        cost as int == step_cost(cur, q),
        old(g)@[cs as int] + DIAGONAL_COST <= DIAGONAL_COST * count_true(closed@),
        closed_optimal(pp, closed@, old(g)@),
        relaxed(pp, closed@, old(g)@, cur, d),
    ensures
        search_inv(
            pp,
            n,
            final(disc)@,
            closed@,
            final(g)@,
            final(parent)@,
            final(has_parent)@,
            final(open)@,
            cur,
            d + 1,
        ),
        final(g)@[cs as int] == old(g)@[cs as int],
        closed_optimal(pp, closed@, final(g)@),
        relaxed(pp, closed@, final(g)@, cur, d + 1),
{
    proof {
        lemma_slot(pp, q, cur);
        lemma_slot(pp, q, q);
        lemma_slot(pp, cur, cur);
    }
    if allowed && !closed[sq] {
        let tentative = g[cs] + cost;
        if !disc[sq] || tentative < g[sq] {
            proof {
                lemma_relax_update(pp, n, disc@, closed@, g@, parent@, has_parent@, open@, cur, q, d, cost as int);
                lemma_relax_update_opt(pp, n, disc@, closed@, g@, parent@, has_parent@, open@, cur, q, d, cost as int);
            }
            let was = disc[sq];
            g.set(sq, tentative);
            parent.set(sq, cur);
            has_parent.set(sq, true);
            if !was {
                disc.set(sq, true);
                open.push(q);
            } else {
                proof {
                    assert(disc@ == disc@.update(sq as int, true));
                }
            }
            return;
        }
    }
    proof {
        lemma_relax_keep(pp, n, disc@, closed@, g@, parent@, has_parent@, open@, cur, q, d);
        assert forall|q2: GridPosition| #[trigger] step_allowed(pp, cur, q2) && dir_index(cur, q2) == d implies closed@[slot(
            pp,
            q2,
        )] || g@[slot(pp, q2)] <= g@[slot(pp, cur)] + step_cost(cur, q2) by {
            assert(q2.x == q.x && q2.z == q.z);
            assert(q2 == q);
        }
        lemma_advance_opt(pp, closed@, g@, cur, d);
    }
}

/// Index of the open node with the lowest estimated total cost, ties going to
/// the one closest to the goal.
fn select_best(
    open: &Vec<GridPosition>,
    g: &Vec<u64>,
    goal: GridPosition,
    w: i32,
    h: i32,
    n: usize,
    Ghost(pp): Ghost<PathProblem>,
) -> (bi: usize)
    requires
        open@.len() > 0,
        pp.width == w as int,
        pp.height == h as int,
        w > 0,
        h > 0,
        n == w as int * h as int,
        n <= i32::MAX,
        g@.len() == n + 1,
        forall|i: int| 0 <= i < open@.len() ==> relevant(pp, #[trigger] open@[i]),
        forall|i: int|
            0 <= i < open@.len() ==> #[trigger] g@[slot(pp, open@[i])] <= DIAGONAL_COST * (n + 1),
        pp.goal == goal,
    ensures
        bi < open@.len(),
        forall|i: int| 0 <= i < open@.len() ==> est(pp, g@, open@[bi as int]) <= #[trigger] est(pp, g@, open@[i]),
{
    let s0 = node_slot(open[0], w, h, n, Ghost(pp));
    let mut best_h: u64 = octile_heuristic(open[0], goal);
    let mut best_f: u64 = g[s0] + best_h;
    let mut bi: usize = 0;
    let mut i: usize = 1;
    while i < open.len()
        invariant
            open@.len() > 0,
            pp.width == w as int,
            pp.height == h as int,
            w > 0,
            h > 0,
            n == w as int * h as int,
            n <= i32::MAX,
            g@.len() == n + 1,
            forall|i: int| 0 <= i < open@.len() ==> relevant(pp, #[trigger] open@[i]),
            forall|i: int|
                0 <= i < open@.len() ==> #[trigger] g@[slot(pp, open@[i])] <= DIAGONAL_COST * (n + 1),
            1 <= i <= open@.len(),
            bi < open@.len(),
            pp.goal == goal,
            best_f == est(pp, g@, open@[bi as int]),
            best_h == octile(open@[bi as int], goal),
            forall|j: int| 0 <= j < i ==> est(pp, g@, open@[bi as int]) <= #[trigger] est(pp, g@, open@[j]),
        decreases open@.len() - i,
    {
        let p = open[i];
        let sp = node_slot(p, w, h, n, Ghost(pp));
        let hp = octile_heuristic(p, goal);
        let fp = g[sp] + hp;
        if fp < best_f || (fp == best_f && hp < best_h) {
            bi = i;
            best_f = fp;
            best_h = hp;
        }
        i = i + 1;
    }
    bi
}

/// The direction offsets `(dx, dz)` of direction `d`.
fn dir_offsets(d: usize) -> (r: (i64, i64))
    requires
        d < 9,
    ensures
        -1 <= r.0 <= 1,
        -1 <= r.1 <= 1,
        (r.1 + 1) * 3 + (r.0 + 1) == d,
{
    let dz: i64 = if d < 3 {
        -1
    } else if d < 6 {
        0
    } else {
        1
    };
    let dx: i64 = d as i64 - 3 * (dz + 1) - 1;
    (dx, dz)
}

/// A* search on a grid of positive size. Returns a path of allowed steps from
/// the start to the goal of least cost, or nothing when none exists.
#[verifier::rlimit(60)]
fn astar(
    start: GridPosition,
    goal: GridPosition,
    tiles: &[(GridPosition, TilePreset)],
    occupancy: &OccupancyMap,
    w: i32,
    h: i32,
    self_pos: (i32, i32),
    air: bool,
    rugged_ok: bool,
    Ghost(pp): Ghost<PathProblem>,
) -> (r: Option<Vec<GridPosition>>)
    requires
        pp.tiles == tiles@,
        pp.blocked == occupancy.blocked_tiles@,
        pp.start == start,
        pp.goal == goal,
        pp.width == w as int,
        pp.height == h as int,
        pp.self_pos == self_pos,
        pp.air == air,
        pp.rugged_ok == rugged_ok,
        w > 0,
        h > 0,
        w as int * h as int <= i32::MAX,
    ensures
        match r {
            Some(path) => is_path(pp, path@) && forall|other: Seq<GridPosition>|
                #[trigger] is_path(pp, other) ==> path_cost(path@) <= path_cost(other),
            None => forall|path: Seq<GridPosition>| !#[trigger] is_path(pp, path),
        },
{
    let grid = build_terrain(tiles, occupancy, w, h, Ghost(pp));
    let n = cell_index(0, h - 1, w, h) + w as usize;
    assert(n == w as int * h as int) by (nonlinear_arith)
        requires
            n == (h as int - 1) * w as int + 0 + w as int,
    ;
    let mut disc = falses(n + 1);
    let mut closed = falses(n + 1);
    let mut g = zeros(n + 1);
    let mut parent = filled(n + 1, start);
    let mut has_parent = falses(n + 1);
    let mut open: Vec<GridPosition> = Vec::new();
    let ss = node_slot(start, w, h, n, Ghost(pp));
    disc.set(ss, true);
    open.push(start);
    let ghost mut cur_g = start;
    proof {
        lemma_slot(pp, start, start);
        lemma_count_true_all_false(closed@);
        assert forall|p: GridPosition|
            #![trigger disc@[slot(pp, p)]]
            relevant(pp, p) && disc@[slot(pp, p)] implies p == start by {
            lemma_slot(pp, p, start);
        }
        assert(open@[0] == start);
        assert(open@.contains(start));
        if relevant(pp, pp.goal) {
            lemma_slot(pp, pp.goal, start);
        }
        assert forall|p: GridPosition|
            #![trigger closed@[slot(pp, p)]]
            relevant(pp, p) implies !closed@[slot(pp, p)] by {
            lemma_slot(pp, p, start);
        }
        assert(search_inv(pp, n as int, disc@, closed@, g@, parent@, has_parent@, open@, cur_g, 9));
    }
    while open.len() > 0
        invariant
            search_inv(pp, n as int, disc@, closed@, g@, parent@, has_parent@, open@, cur_g, 9),
            closed_optimal(pp, closed@, g@),
            relaxed(pp, closed@, g@, cur_g, 9),
            grid.models(pp),
            pp.tiles == tiles@,
            pp.start == start,
            pp.goal == goal,
            pp.width == w as int,
            pp.height == h as int,
            pp.self_pos == self_pos,
            pp.air == air,
            pp.rugged_ok == rugged_ok,
            pp.blocked == occupancy.blocked_tiles@,
            w > 0,
            h > 0,
            n == w as int * h as int,
            n <= i32::MAX,
        decreases n + 1 - count_true(closed@),
    {
        let bi = select_best(&open, &g, goal, w, h, n, Ghost(pp));
        let cur = open[bi];
        if cur.x == goal.x && cur.z == goal.z {
            proof {
                assert(cur == goal);
                assert forall|other: Seq<GridPosition>| #[trigger] is_path(pp, other) implies g@[slot(pp, goal)]
                    <= path_cost(other) by {
                    assert(is_walk(pp, other, open@[bi as int]));
                    lemma_selected_optimal(
                        pp,
                        n as int,
                        disc@,
                        closed@,
                        g@,
                        parent@,
                        has_parent@,
                        open@,
                        cur_g,
                        bi as int,
                        other,
                    );
                }
            }
            let path = reconstruct_path(
                start,
                goal,
                &parent,
                &has_parent,
                &g,
                w,
                h,
                n,
                Ghost(pp),
                Ghost(disc@),
                Ghost(closed@),
                Ghost(open@),
                Ghost(cur_g),
                Ghost(9),
            );
            return Some(path);
        }
        let cs = node_slot(cur, w, h, n, Ghost(pp));
        let ghost count0 = count_true(closed@);
        proof {
            lemma_close(pp, n as int, disc@, closed@, g@, parent@, has_parent@, open@, cur_g, bi as int);
            lemma_close_opt(pp, n as int, disc@, closed@, g@, parent@, has_parent@, open@, cur_g, bi as int);
        }
        open.remove(bi);
        closed.set(cs, true);
        proof {
            cur_g = cur;
        }
        let mut d: usize = 0;
        while d < 9
            invariant
                search_inv(pp, n as int, disc@, closed@, g@, parent@, has_parent@, open@, cur, d as int),
                closed_optimal(pp, closed@, g@),
                relaxed(pp, closed@, g@, cur, d as int),
                0 <= d <= 9,
                cur_g == cur,
                relevant(pp, cur),
                cs as int == slot(pp, cur),
                closed@[cs as int],
                g@[cs as int] + DIAGONAL_COST <= DIAGONAL_COST * count_true(closed@),
                count_true(closed@) == count0 + 1,
                grid.models(pp),
                pp.tiles == tiles@,
                pp.start == start,
                pp.goal == goal,
                pp.width == w as int,
                pp.height == h as int,
                pp.self_pos == self_pos,
                pp.air == air,
                pp.rugged_ok == rugged_ok,
                pp.blocked == occupancy.blocked_tiles@,
                w > 0,
                h > 0,
                n == w as int * h as int,
                n <= i32::MAX,
            decreases 9 - d,
        {
            let (dx, dz) = dir_offsets(d);
            let nx = cur.x as i64 + dx;
            let nz = cur.z as i64 + dz;
            if d != 4 && 0 <= nx && nx < w as i64 && 0 <= nz && nz < h as i64 {
                let q = GridPosition { x: nx as i32, z: nz as i32 };
                let sq = cell_index(q.x, q.z, w, h);
                let diag = dx != 0 && dz != 0;
                let allowed = if air {
                    true
                } else {
                    let here = passable(tiles, &grid, rugged_ok, q.x, q.z, w, h, Ghost(pp));
                    let corners = if diag {
                        passable(tiles, &grid, rugged_ok, q.x, cur.z, w, h, Ghost(pp)) && passable(
                            tiles,
                            &grid,
                            rugged_ok,
                            cur.x,
                            q.z,
                            w,
                            h,
                            Ghost(pp),
                        )
                    } else {
                        true
                    };
                    let is_goal = q.x == goal.x && q.z == goal.z;
                    let is_self = q.x == self_pos.0 && q.z == self_pos.1;
                    proof {
                        assert(grid.blocked@[(q.z as int) * pp.width + (q.x as int)] == exists|c: (i32, i32)|
                            #![trigger pp.blocked.contains(c)]
                            pp.blocked.contains(c) && c.0 == q.x && c.1 == q.z);
                    }
                    here && corners && (is_goal || !(grid.blocked[sq] && !is_self))
                };
                let cost = if diag {
                    DIAGONAL_COST
                } else {
                    CARDINAL_COST
                };
                proof {
                    lemma_slot(pp, q, q);
                    assert(in_grid(pp, q.x as int, q.z as int));
                    assert(is_neighbor(cur, q));
                    assert(allowed == step_allowed(pp, cur, q));
                }
                relax(
                    q,
                    cur,
                    cost,
                    allowed,
                    sq,
                    cs,
                    &mut disc,
                    &closed,
                    &mut g,
                    &mut parent,
                    &mut has_parent,
                    &mut open,
                    Ghost(pp),
                    Ghost(n as int),
                    Ghost(d as int),
                );
            } else {
                proof {
                    assert forall|q2: GridPosition|
                        #![trigger step_allowed(pp, cur, q2)]
                        step_allowed(pp, cur, q2) && dir_index(cur, q2) == d implies disc@[slot(pp, q2)] by {
                        assert(q2.x == nx && q2.z == nz);
                    }
                    lemma_advance(pp, n as int, disc@, closed@, g@, parent@, has_parent@, open@, cur, d as int);
                    assert forall|q2: GridPosition| #[trigger] step_allowed(pp, cur, q2) && dir_index(cur, q2) == d implies closed@[slot(
                        pp,
                        q2,
                    )] || g@[slot(pp, q2)] <= g@[slot(pp, cur)] + step_cost(cur, q2) by {
                        assert(q2.x == nx && q2.z == nz);
                    }
                    lemma_advance_opt(pp, closed@, g@, cur, d as int);
                }
            }
            d = d + 1;
        }
        proof {
            lemma_count_true_le(closed@);
        }
    }
    proof {
        lemma_no_path(pp, n as int, disc@, closed@, g@, parent@, has_parent@, open@, cur_g);
    }
    None
}

// === Straight flight ===

spec fn abs_diff(a: int, b: int) -> int {
    if a >= b { a - b } else { b - a }
}

/// Chebyshev distance: the fewest moves between two cells on an open grid.
pub open spec fn chebyshev(p: GridPosition, q: GridPosition) -> int {
    let dx: int = if p.x >= q.x { p.x - q.x } else { q.x - p.x };
    let dz: int = if p.z >= q.z { p.z - q.z } else { q.z - p.z };
    if dx >= dz { dx } else { dz }
}

spec fn toward(a: i32, b: i32) -> i32 {
    if a < b {
        (a + 1) as i32
    } else if a > b {
        (a - 1) as i32
    } else {
        a
    }
}

/// The cell one move from `p` toward `goal`, diagonally while both
/// coordinates differ.
spec fn step_toward(p: GridPosition, goal: GridPosition) -> GridPosition {
    GridPosition { x: toward(p.x, goal.x), z: toward(p.z, goal.z) }
}

/// The straight route from `p` to `goal`.
spec fn straight(p: GridPosition, goal: GridPosition) -> Seq<GridPosition>
    decreases chebyshev(p, goal),
{
    if chebyshev(p, goal) <= 0 {
        seq![p]
    } else {
        seq![p] + straight(step_toward(p, goal), goal)
    }
}

/// Putting a node in front of a path adds the cost of the first step.
proof fn lemma_path_cost_prepend(a: GridPosition, s: Seq<GridPosition>)
    requires
        s.len() >= 1,
    ensures
        path_cost(seq![a] + s) == step_cost(a, s[0]) + path_cost(s),
    decreases s.len(),
{
    let t = seq![a] + s;
    if s.len() > 1 {
        lemma_path_cost_prepend(a, s.drop_last());
        assert(s.drop_last()[0] == s[0]);
        assert(t.drop_last() =~= seq![a] + s.drop_last());
        assert(t[t.len() - 2] == s[s.len() - 2]);
        assert(t[t.len() - 1] == s[s.len() - 1]);
        assert(path_cost(t) == path_cost(t.drop_last()) + step_cost(t[t.len() - 2], t[t.len() - 1]));
        assert(path_cost(s) == path_cost(s.drop_last()) + step_cost(s[s.len() - 2], s[s.len() - 1]));
    } else {
        assert(t.drop_last() =~= seq![a]);
        assert(t[0] == a);
        assert(t[1] == s[0]);
        assert(path_cost(t) == path_cost(t.drop_last()) + step_cost(t[0], t[1]));
        assert(path_cost(s) == 0);
    }
}

/// The straight route has Chebyshev-many moves between neighbours, stays in
/// the box spanned by its ends, and costs the octile distance.
proof fn lemma_straight(p: GridPosition, goal: GridPosition)
    ensures
        straight(p, goal).len() == chebyshev(p, goal) + 1,
        straight(p, goal)[0] == p,
        straight(p, goal)[straight(p, goal).len() - 1] == goal,
        forall|i: int|
            0 <= i < straight(p, goal).len() - 1 ==> #[trigger] is_neighbor(
                straight(p, goal)[i],
                straight(p, goal)[i + 1],
            ),
        forall|i: int|
            0 <= i < straight(p, goal).len() ==> {
                let c = #[trigger] straight(p, goal)[i];
                &&& (p.x <= c.x <= goal.x || goal.x <= c.x <= p.x)
                &&& (p.z <= c.z <= goal.z || goal.z <= c.z <= p.z)
            },
        path_cost(straight(p, goal)) == octile(p, goal),
    decreases chebyshev(p, goal),
{
    if chebyshev(p, goal) > 0 {
        let q = step_toward(p, goal);
        lemma_straight(q, goal);
        let rest = straight(q, goal);
        let s = straight(p, goal);
        assert(s == seq![p] + rest);
        lemma_path_cost_prepend(p, rest);
        assert forall|i: int| 0 <= i < s.len() - 1 implies #[trigger] is_neighbor(s[i], s[i + 1]) by {
            if i > 0 {
                let j = i - 1;
                assert(is_neighbor(rest[j], rest[j + 1]));
                assert(s[i] == rest[j]);
                assert(s[i + 1] == rest[j + 1]);
            } else {
                assert(s[0] == p);
                assert(s[1] == rest[0]);
                assert(rest[0] == q);
                assert(is_neighbor(p, q));
            }
        }
        assert forall|i: int| 0 <= i < s.len() implies {
            let c = #[trigger] s[i];
            &&& (p.x <= c.x <= goal.x || goal.x <= c.x <= p.x)
            &&& (p.z <= c.z <= goal.z || goal.z <= c.z <= p.z)
        } by {
            if i > 0 {
                assert(s[i] == rest[i - 1]);
            }
        }
    }
}

/// Number of diagonal moves of a route.
spec fn diagonal_moves(path: Seq<GridPosition>) -> int
    decreases path.len(),
{
    if path.len() <= 1 {
        0
    } else {
        diagonal_moves(path.drop_last()) + if is_diagonal(path[path.len() - 2], path[path.len() - 1]) {
            1int
        } else {
            0int
        }
    }
}

/// A route of `n` moves between neighbours with `d` diagonal ones: it costs
/// `n - d` straight and `d` diagonal moves, moves each coordinate by at most
/// `n`, and both together by at most `n + d`.
proof fn lemma_route_counts(path: Seq<GridPosition>)
    requires
        path.len() >= 1,
        forall|i: int| 0 <= i < path.len() - 1 ==> #[trigger] is_neighbor(path[i], path[i + 1]),
    ensures
        ({
            let n = path.len() - 1;
            let d = diagonal_moves(path);
            let a = path[0];
            let b = path[path.len() - 1];
            &&& 0 <= d <= n
            &&& path_cost(path) == CARDINAL_COST * (n - d) + DIAGONAL_COST * d
            &&& abs_diff(a.x as int, b.x as int) <= n
            &&& abs_diff(a.z as int, b.z as int) <= n
            &&& abs_diff(a.x as int, b.x as int) + abs_diff(a.z as int, b.z as int) <= n + d
        }),
    decreases path.len(),
{
    if path.len() > 1 {
        let q = path.drop_last();
        assert forall|i: int| 0 <= i < q.len() - 1 implies #[trigger] is_neighbor(q[i], q[i + 1]) by {
            assert(is_neighbor(path[i], path[i + 1]));
        }
        lemma_route_counts(q);
        let k = path.len() - 2;
        assert(is_neighbor(path[k], path[k + 1]));
    }
}

/// The straight route is an air route between cells of the grid.
proof fn lemma_straight_flight(pp: PathProblem)
    requires
        pp.air,
        in_grid(pp, pp.start.x as int, pp.start.z as int),
        in_grid(pp, pp.goal.x as int, pp.goal.z as int),
    ensures
        is_path(pp, straight(pp.start, pp.goal)),
{
    let s = straight(pp.start, pp.goal);
    lemma_straight(pp.start, pp.goal);
    assert forall|i: int| 0 <= i < s.len() - 1 implies #[trigger] step_allowed(pp, s[i], s[i + 1]) by {
        assert(is_neighbor(s[i], s[i + 1]));
        let c = s[i + 1];
        assert((pp.start.x <= c.x <= pp.goal.x || pp.goal.x <= c.x <= pp.start.x));
        assert((pp.start.z <= c.z <= pp.goal.z || pp.goal.z <= c.z <= pp.start.z));
    }
}

/// An air unit always has a route between two cells of the grid, so an air
/// search between them finds one.
pub proof fn law_air_route_exists(pp: PathProblem, r: Option<Vec<GridPosition>>)
    requires
        pp.air,
        in_grid(pp, pp.start.x as int, pp.start.z as int),
        in_grid(pp, pp.goal.x as int, pp.goal.z as int),
        search_result(pp, r),
    ensures
        exists|path: Seq<GridPosition>| #[trigger] is_path(pp, path),
        r is Some,
        r->0@.len() == chebyshev(pp.start, pp.goal) + 1,
        path_cost(r->0@) == octile(pp.start, pp.goal),
{
    lemma_straight_flight(pp);
    assert(is_path(pp, straight(pp.start, pp.goal)));
    law_air_path_length(pp, r->0@);
}

/// An air unit between two cells of the grid flies a least-cost route in
/// exactly Chebyshev-distance moves, at the octile cost: terrain and
/// occupancy never lengthen it.
pub proof fn law_air_path_length(pp: PathProblem, path: Seq<GridPosition>)
    requires
        pp.air,
        in_grid(pp, pp.start.x as int, pp.start.z as int),
        in_grid(pp, pp.goal.x as int, pp.goal.z as int),
        is_path(pp, path),
        forall|other: Seq<GridPosition>| #[trigger] is_path(pp, other) ==> path_cost(path) <= path_cost(other),
    ensures
        path.len() == chebyshev(pp.start, pp.goal) + 1,
        path_cost(path) == octile(pp.start, pp.goal),
{
    let s = straight(pp.start, pp.goal);
    lemma_straight(pp.start, pp.goal);
    lemma_straight_flight(pp);
    assert forall|i: int| 0 <= i < path.len() - 1 implies #[trigger] is_neighbor(path[i], path[i + 1]) by {
        assert(step_allowed(pp, path[i], path[i + 1]));
    }
    lemma_octile_path(path, pp.goal);
    lemma_route_counts(path);
}

/// The problem that a search for `unit_base` poses: air units (`air`) ignore
/// terrain and occupancy, others may enter rugged terrain only if their
/// archetype allows it.
pub open spec fn path_problem(
    start: GridPosition,
    goal: GridPosition,
    tiles: Seq<(GridPosition, TilePreset)>,
    unit_base: UnitBaseEnum,
    grid_width: i32,
    grid_height: i32,
    occupancy: Set<(i32, i32)>,
    self_pos: (i32, i32),
    air: bool,
) -> PathProblem {
    PathProblem {
        tiles,
        blocked: occupancy,
        start,
        goal,
        width: grid_width as int,
        height: grid_height as int,
        self_pos,
        air,
        rugged_ok: unit_base_table(unit_base).rugged_terrain,
    }
}

/// What a search returns: a path exactly when one exists, and then one of
/// least cost.
pub open spec fn search_result(pp: PathProblem, r: Option<Vec<GridPosition>>) -> bool {
    &&& (r is Some <==> exists|path: Seq<GridPosition>| #[trigger] is_path(pp, path))
    &&& match r {
        Some(path) => is_path(pp, path@) && forall|other: Seq<GridPosition>|
            #[trigger] is_path(pp, other) ==> path_cost(path@) <= path_cost(other),
        None => forall|path: Seq<GridPosition>| !#[trigger] is_path(pp, path),
    }
}

fn find_path_inner(
    start: GridPosition,
    goal: GridPosition,
    tiles: &[(GridPosition, TilePreset)],
    unit_base: &UnitBaseEnum,
    grid_width: i32,
    grid_height: i32,
    occupancy: &OccupancyMap,
    self_pos: (i32, i32),
    skip_occupancy: bool,
) -> (r: Option<Vec<GridPosition>>)
    requires
        0 <= grid_width as int * grid_height as int <= i32::MAX,
    ensures
        search_result(
            path_problem(
                start,
                goal,
                tiles@,
                *unit_base,
                grid_width,
                grid_height,
                occupancy.blocked_tiles@,
                self_pos,
                skip_occupancy,
            ),
            r,
        ),
{
    let ghost pp = path_problem(
        start,
        goal,
        tiles@,
        *unit_base,
        grid_width,
        grid_height,
        occupancy.blocked_tiles@,
        self_pos,
        skip_occupancy,
    );
    if grid_width <= 0 || grid_height <= 0 {
        proof {
            assert forall|path: Seq<GridPosition>| #[trigger] is_path(pp, path) implies path =~= seq![start]
                && start == goal by {
                if path.len() > 1 {
                    assert(step_allowed(pp, path[0], path[0int + 1]));
                }
            }
        }
        if start.x == goal.x && start.z == goal.z {
            let mut path: Vec<GridPosition> = Vec::new();
            path.push(start);
            proof {
                assert(is_path(pp, path@));
                assert forall|other: Seq<GridPosition>| #[trigger] is_path(pp, other) implies path_cost(path@)
                    <= path_cost(other) by {
                    lemma_path_cost_nonneg(other);
                }
            }
            return Some(path);
        }
        return None;
    }
    let rugged_ok = unit_base.can_traverse_rugged();
    let r = astar(
        start,
        goal,
        tiles,
        occupancy,
        grid_width,
        grid_height,
        self_pos,
        skip_occupancy,
        rugged_ok,
        Ghost(pp),
    );
    proof {
        if r is Some {
            assert(is_path(pp, r->0@));
        }
    }
    r
}

/// A* pathfinding for a ground unit: 8-way moves inside the grid, onto
/// traversible tiles (rugged ones only for units that can cross them), without
/// cutting corners, and around occupied tiles other than the goal and the
/// unit's own tile. Returns a path from `start` to `goal` exactly when one
/// exists, and then one of least cost (diagonal steps costing the square root
/// of two). The grid's area must be a non-negative `i32`: a negative area
/// would overflow the search's iteration bound.
pub fn find_path(
    start: GridPosition,
    goal: GridPosition,
    tiles: &[(GridPosition, TilePreset)],
    unit_base: &UnitBaseEnum,
    grid_width: i32,
    grid_height: i32,
    occupancy: &OccupancyMap,
    self_pos: (i32, i32),
) -> (r: Option<Vec<GridPosition>>)
    requires
        0 <= grid_width as int * grid_height as int <= i32::MAX,
    ensures
        search_result(
            path_problem(
                start,
                goal,
                tiles@,
                *unit_base,
                grid_width,
                grid_height,
                occupancy.blocked_tiles@,
                self_pos,
                false,
            ),
            r,
        ),
{
    find_path_inner(start, goal, tiles, unit_base, grid_width, grid_height, occupancy, self_pos, false)
}

/// A* pathfinding for an air unit, which flies over terrain and occupied tiles:
/// only the grid bounds constrain its moves.
pub fn find_path_air(
    start: GridPosition,
    goal: GridPosition,
    tiles: &[(GridPosition, TilePreset)],
    unit_base: &UnitBaseEnum,
    grid_width: i32,
    grid_height: i32,
    occupancy: &OccupancyMap,
    self_pos: (i32, i32),
) -> (r: Option<Vec<GridPosition>>)
    requires
        0 <= grid_width as int * grid_height as int <= i32::MAX,
    ensures
        search_result(
            path_problem(
                start,
                goal,
                tiles@,
                *unit_base,
                grid_width,
                grid_height,
                occupancy.blocked_tiles@,
                self_pos,
                true,
            ),
            r,
        ),
        0 <= start.x < grid_width && 0 <= start.z < grid_height && 0 <= goal.x < grid_width && 0 <= goal.z
            < grid_height ==> r is Some && r->0@.len() == chebyshev(start, goal) + 1,
{
    let r = find_path_inner(start, goal, tiles, unit_base, grid_width, grid_height, occupancy, self_pos, true);
    proof {
        let pp = path_problem(
            start,
            goal,
            tiles@,
            *unit_base,
            grid_width,
            grid_height,
            occupancy.blocked_tiles@,
            self_pos,
            true,
        );
        if 0 <= start.x < grid_width && 0 <= start.z < grid_height && 0 <= goal.x < grid_width && 0 <= goal.z
            < grid_height {
            law_air_route_exists(pp, r);
        }
    }
    r
}

/// Pathfinding that runs `find_path_air` for air units and `find_path` for
/// all others.
pub fn find_path_for_domain(
    start: GridPosition,
    goal: GridPosition,
    tiles: &[(GridPosition, TilePreset)],
    unit_base: &UnitBaseEnum,
    grid_width: i32,
    grid_height: i32,
    occupancy: &OccupancyMap,
    self_pos: (i32, i32),
) -> (r: Option<Vec<GridPosition>>)
    requires
        0 <= grid_width as int * grid_height as int <= i32::MAX,
    ensures
        search_result(
            path_problem(
                start,
                goal,
                tiles@,
                *unit_base,
                grid_width,
                grid_height,
                occupancy.blocked_tiles@,
                self_pos,
                unit_base_table(*unit_base).domain == DomainEnum::Air,
            ),
            r,
        ),
{
    match unit_base.data().domain {
        DomainEnum::Air => find_path_air(start, goal, tiles, unit_base, grid_width, grid_height, occupancy, self_pos),
        _ => find_path(start, goal, tiles, unit_base, grid_width, grid_height, occupancy, self_pos),
    }
}

} // verus!
