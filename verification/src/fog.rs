//! Fog of war: per-player visibility of each grid cell.
use vstd::prelude::*;
use crate::cells::CellSet;

verus! {

/// How much a player knows of a cell.
#[derive(Clone, Copy, Debug, PartialEq, Eq, Structural, Hash)]
pub enum VisibilityStateEnum {
    Unexplored,
    Explored,
    Visible,
}

/// Number of distinct player ids.
pub const PLAYER_SLOTS: usize = 256;

/// Visibility of every cell of a `width` by `height` grid for each player.
/// Players without a map, and cells off the grid, are unexplored.
#[derive(Clone, Debug)]
pub struct FogOfWarMap {
    width: u32,
    height: u32,
    players: Vec<Option<Vec<VisibilityStateEnum>>>,
}

impl FogOfWarMap {
    /// Width of the grid.
    pub closed spec fn width_spec(&self) -> int {
        self.width as int
    }

    /// Height of the grid.
    pub closed spec fn height_spec(&self) -> int {
        self.height as int
    }

    /// The map is consistent: one slot per player id, each map covering the grid.
    pub closed spec fn wf(&self) -> bool {
        &&& self.width as int * self.height as int <= usize::MAX
        &&& self.players@.len() == PLAYER_SLOTS
        &&& forall|p: int|
            0 <= p < PLAYER_SLOTS && #[trigger] self.players@[p] is Some ==> self.players@[p]->0@.len()
                == self.width as int * self.height as int
    }

    /// What `player` knows of the cell `(x, z)`.
    pub closed spec fn state(&self, player: u8, x: int, z: int) -> VisibilityStateEnum {
        if 0 <= x < self.width && 0 <= z < self.height && self.players@[player as int] is Some {
            self.players@[player as int]->0@[z * self.width + x]
        } else {
            VisibilityStateEnum::Unexplored
        }
    }

    /// Whether `player` has a visibility map of its own.
    pub closed spec fn has_map(&self, player: u8) -> bool {
        self.players@[player as int] is Some
    }

    /// A map on which every player knows nothing yet.
    pub fn new(width: u32, height: u32) -> (r: Self)
        requires
            width as int * height as int <= usize::MAX,
        ensures
            r.wf(),
            r.width_spec() == width,
            r.height_spec() == height,
            forall|p: u8, x: int, z: int| #[trigger] r.state(p, x, z) == VisibilityStateEnum::Unexplored,
    {
        let mut players: Vec<Option<Vec<VisibilityStateEnum>>> = Vec::new();
        let mut i: usize = 0;
        while i < PLAYER_SLOTS
            invariant
                0 <= i <= PLAYER_SLOTS,
                players@.len() == i,
                forall|p: int| 0 <= p < i ==> #[trigger] players@[p] is None,
            decreases PLAYER_SLOTS - i,
        {
            players.push(None);
            i = i + 1;
        }
        FogOfWarMap { width, height, players }
    }

    fn cell_index(&self, x: i32, z: i32) -> (r: usize)
        requires
            self.wf(),
            0 <= x < self.width,
            0 <= z < self.height,
        ensures
            r == z * self.width + x,
            r < self.width as int * self.height as int,
    {
        proof {
            assert(z as int * self.width as int + x < self.width as int * self.height as int) by (nonlinear_arith)
                requires
                    0 <= x < self.width,
                    0 <= z < self.height,
            ;
            assert(0 <= z as int * self.width as int) by (nonlinear_arith)
                requires
                    0 <= z,
            ;
        }
        (z as usize) * (self.width as usize) + (x as usize)
    }

    /// What `player` knows of the cell `(x, z)`.
    pub fn get(&self, player: u8, x: i32, z: i32) -> (r: VisibilityStateEnum)
        requires
            self.wf(),
        ensures
            r == self.state(player, x as int, z as int),
    {
        if x < 0 || z < 0 || x as u32 >= self.width || z as u32 >= self.height {
            return VisibilityStateEnum::Unexplored;
        }
        let i = self.cell_index(x, z);
        match &self.players[player as usize] {
            Some(cells) => cells[i],
            None => VisibilityStateEnum::Unexplored,
        }
    }

    /// Give `player` a map of its own if it has none; what it knows is unchanged.
    pub fn ensure_player(&mut self, player: u8)
        requires
            old(self).wf(),
        ensures
            final(self).wf(),
            final(self).width_spec() == old(self).width_spec(),
            final(self).height_spec() == old(self).height_spec(),
            forall|p: u8, cx: int, cz: int| #[trigger] final(self).state(p, cx, cz) == old(self).state(p, cx, cz),
            final(self).has_map(player),
            forall|p: u8| p != player ==> #[trigger] final(self).has_map(p) == old(self).has_map(p),
    {
        if self.players[player as usize].is_some() {
            return;
        }
        let n = self.width as usize * self.height as usize;
        let ghost old_players = self.players@;
        let mut c: Vec<VisibilityStateEnum> = Vec::new();
        let mut k: usize = 0;
        while k < n
            invariant
                0 <= k <= n,
                c@.len() == k,
                forall|j: int| 0 <= j < k ==> #[trigger] c@[j] == VisibilityStateEnum::Unexplored,
            decreases n - k,
        {
            c.push(VisibilityStateEnum::Unexplored);
            k = k + 1;
        }
        self.players.set(player as usize, Some(c));
        proof {
            assert forall|p: u8, cx: int, cz: int| #[trigger] self.state(p, cx, cz) == old(self).state(p, cx, cz) by {
                if p == player && 0 <= cx < self.width && 0 <= cz < self.height {
                    assert(0 <= cz * self.width + cx < self.width as int * self.height as int) by (nonlinear_arith)
                        requires
                            0 <= cx < self.width,
                            0 <= cz < self.height,
                    ;
                }
            }
        }
    }

    /// Record what `player` knows of the cell `(x, z)`; cells off the grid are ignored.
    pub fn set(&mut self, player: u8, x: i32, z: i32, state: VisibilityStateEnum)
        requires
            old(self).wf(),
        ensures
            final(self).wf(),
            final(self).width_spec() == old(self).width_spec(),
            final(self).height_spec() == old(self).height_spec(),
            forall|p: u8, cx: int, cz: int|
                #[trigger] final(self).state(p, cx, cz) == if p == player && cx == x && cz == z && 0 <= x < old(
                    self,
                ).width_spec() && 0 <= z < old(self).height_spec() {
                    state
                } else {
                    old(self).state(p, cx, cz)
                },
    {
        if x < 0 || z < 0 || x as u32 >= self.width || z as u32 >= self.height {
            return;
        }
        let i = self.cell_index(x, z);
        let n = self.width as usize * self.height as usize;
        let ghost old_players = self.players@;
        let slot = self.players.remove(player as usize);
        let mut cells = match slot {
            Some(c) => c,
            None => {
                let mut c: Vec<VisibilityStateEnum> = Vec::new();
                let mut k: usize = 0;
                while k < n
                    invariant
                        0 <= k <= n,
                        c@.len() == k,
                        forall|j: int| 0 <= j < k ==> #[trigger] c@[j] == VisibilityStateEnum::Unexplored,
                    decreases n - k,
                {
                    c.push(VisibilityStateEnum::Unexplored);
                    k = k + 1;
                }
                c
            },
        };
        let ghost before_cells = cells@;
        cells.set(i, state);
        self.players.insert(player as usize, Some(cells));
        proof {
            assert(self.players@ =~= old_players.update(player as int, self.players@[player as int]));
            assert forall|p: u8, cx: int, cz: int|
                #[trigger] self.state(p, cx, cz) == if p == player && cx == x && cz == z && 0 <= x < old(
                    self,
                ).width_spec() && 0 <= z < old(self).height_spec() {
                    state
                } else {
                    old(self).state(p, cx, cz)
                } by {
                if p == player && 0 <= cx < self.width && 0 <= cz < self.height {
                    assert(0 <= cz * self.width + cx < self.width as int * self.height as int) by (nonlinear_arith)
                        requires
                            0 <= cx < self.width,
                            0 <= cz < self.height,
                    ;
                    if !(cx == x && cz == z) {
                        if cz * self.width + cx == z * self.width + x {
                            assert(cx == x && cz == z) by (nonlinear_arith)
                                requires
                                    cz * self.width + cx == z * self.width + x,
                                    0 <= cx < self.width,
                                    0 <= x < self.width,
                                    0 <= cz,
                                    0 <= z,
                            ;
                        }
                    }
                }
            }
        }
    }
}

/// What a player knows of a cell after a vision update: what is seen now is
/// visible, what was visible and is no longer seen is explored, the rest is
/// unchanged.
pub open spec fn next_visibility(current: VisibilityStateEnum, visible_now: bool) -> VisibilityStateEnum {
    if visible_now {
        VisibilityStateEnum::Visible
    } else if current == VisibilityStateEnum::Visible {
        VisibilityStateEnum::Explored
    } else {
        current
    }
}

/// The state of a cell after a vision update (see `next_visibility`).
pub fn next_visibility_state(current: VisibilityStateEnum, visible_now: bool) -> (r: VisibilityStateEnum)
    ensures
        r == next_visibility(current, visible_now),
{
    if visible_now {
        VisibilityStateEnum::Visible
    } else if current == VisibilityStateEnum::Visible {
        VisibilityStateEnum::Explored
    } else {
        current
    }
}

/// Knowledge is never lost: an explored or visible cell never becomes
/// unexplored again, and a cell is visible exactly when it is seen.
pub proof fn law_fog_keeps_knowledge(current: VisibilityStateEnum, visible_now: bool)
    ensures
        current != VisibilityStateEnum::Unexplored ==> next_visibility(current, visible_now)
            != VisibilityStateEnum::Unexplored,
        (next_visibility(current, visible_now) == VisibilityStateEnum::Visible) == visible_now,
{
}

/// The cell `(x, z)` comes before `(cx, cz)` in row order.
pub open spec fn before_cell(x: int, z: int, cx: int, cz: int) -> bool {
    z < cz || (z == cz && x < cx)
}

impl FogOfWarMap {
    /// Update what `player` knows from the cells it sees now (`visible`):
    /// every cell of the grid goes to `next_visibility`.
    pub fn update_player(&mut self, player: u8, visible: &CellSet)
        requires
            old(self).wf(),
            old(self).width_spec() <= i32::MAX,
            old(self).height_spec() <= i32::MAX,
        ensures
            final(self).wf(),
            final(self).width_spec() == old(self).width_spec(),
            final(self).height_spec() == old(self).height_spec(),
            forall|p: u8, x: int, z: int|
                #[trigger] final(self).state(p, x, z) == if p == player && 0 <= x < old(self).width_spec() && 0 <= z
                    < old(self).height_spec() {
                    next_visibility(old(self).state(p, x, z), visible@.contains((x as i32, z as i32)))
                } else {
                    old(self).state(p, x, z)
                },
    {
        let w = self.width as i32;
        let h = self.height as i32;
        let ghost start = *self;
        let mut z: i32 = 0;
        while z < h
            invariant
                self.wf(),
                self.width_spec() == start.width_spec(),
                self.height_spec() == start.height_spec(),
                w == start.width_spec(),
                h == start.height_spec(),
                0 <= z <= h,
                forall|p: u8, x: int, zz: int|
                    #[trigger] self.state(p, x, zz) == if p == player && 0 <= x < w && 0 <= zz < h && before_cell(
                        x,
                        zz,
                        0,
                        z as int,
                    ) {
                        next_visibility(start.state(p, x, zz), visible@.contains((x as i32, zz as i32)))
                    } else {
                        start.state(p, x, zz)
                    },
            decreases h - z,
        {
            let mut x: i32 = 0;
            while x < w
                invariant
                    self.wf(),
                    self.width_spec() == start.width_spec(),
                    self.height_spec() == start.height_spec(),
                    w == start.width_spec(),
                    h == start.height_spec(),
                    0 <= z < h,
                    0 <= x <= w,
                    forall|p: u8, xx: int, zz: int|
                        #[trigger] self.state(p, xx, zz) == if p == player && 0 <= xx < w && 0 <= zz < h && before_cell(
                            xx,
                            zz,
                            x as int,
                            z as int,
                        ) {
                            next_visibility(start.state(p, xx, zz), visible@.contains((xx as i32, zz as i32)))
                        } else {
                            start.state(p, xx, zz)
                        },
                decreases w - x,
            {
                let current = self.get(player, x, z);
                let seen = visible.contains(&(x, z));
                let next = next_visibility_state(current, seen);
                self.set(player, x, z, next);
                x = x + 1;
            }
            z = z + 1;
        }
    }
}

} // verus!
