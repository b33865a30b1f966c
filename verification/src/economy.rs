//! Faction economy and production rules: ownership, power grid, Extraction
//! Plate mining, construction and production queues, rally orders, tunnel
//! operations and the tunnel ejection queue.
use vstd::prelude::*;
use crate::objects::{EntityId, ObjectEnum, StructureRotation};
use crate::structures::{
    BarracksState,
    DeploymentCenterState,
    EXTRACTION_PLATE_MINING_INTERVAL,
    EXTRACTION_PLATE_MINING_RATE,
    EXTRACTION_PLATE_RESIDUAL_RATE,
    ExtractionFacilityState,
    ExtractionPlateState,
    HeadquartersState,
    PowerValue,
    RallyTarget,
    SupplyTowerState,
    TunnelArea,
    TunnelOperation,
    TunnelState,
    TunnelTier,
    area_origin_ok,
    barracks_cost,
    dc_cost,
    headquarters_cost,
    refund_of,
    tier_radius,
    tunnel_area_set,
};
use crate::units::UnitBaseEnum;
use crate::world::SpaceCrystalPatch;

verus! {

/// Owner of an object: a player number, or nobody (neutral).
#[derive(Clone, Copy, Debug, PartialEq, Eq, Structural, Hash)]
pub struct Owner(pub Option<u8>);

impl Owner {
    /// Owned by the player.
    pub fn player(n: u8) -> (r: Owner)
        ensures
            r == Owner(Some(n)),
    {
        Owner(Some(n))
    }

    /// Owned by nobody.
    pub fn neutral() -> (r: Owner)
        ensures
            r == Owner(None),
    {
        Owner(None)
    }

    /// The owning player's number.
    pub fn player_number(&self) -> (r: Option<u8>)
        ensures
            r == self.0,
    {
        self.0
    }

    /// Whether nobody owns the object.
    pub fn is_neutral(&self) -> (r: bool)
        ensures
            r == (self.0 is None),
    {
        self.0.is_none()
    }
}

/// `target` is an enemy of `owner`: owned, and by another player.
pub open spec fn is_enemy(owner: Owner, target: Owner) -> bool {
    target.0 is Some && target.0 != owner.0
}

/// Resources of a GDO player.
#[derive(Clone, Copy, Debug, PartialEq, Eq, Structural)]
pub struct GdoPlayerResources {
    pub space_crystals: i32,
    pub supplies: i32,
    pub power_generated: i32,
    pub power_consumed: i32,
    pub unit_control_used: u32,
    pub unit_control_cap: u32,
    pub has_power_plant: bool,
}

impl GdoPlayerResources {
    /// Resources at game start: 1000 Space Crystals and a unit control cap of 200.
    pub fn starting() -> (r: Self)
        ensures
            r == (GdoPlayerResources {
                space_crystals: 1000,
                supplies: 0,
                power_generated: 0,
                power_consumed: 0,
                unit_control_used: 0,
                unit_control_cap: 200,
                has_power_plant: false,
            }),
    {
        GdoPlayerResources {
            space_crystals: 1000,
            supplies: 0,
            power_generated: 0,
            power_consumed: 0,
            unit_control_used: 0,
            unit_control_cap: 200,
            has_power_plant: false,
        }
    }

    /// Net power: generated minus consumed.
    pub fn current_power(&self) -> (r: i32)
        requires
            i32::MIN <= self.power_generated - self.power_consumed <= i32::MAX,
        ensures
            r == self.power_generated - self.power_consumed,
    {
        self.power_generated - self.power_consumed
    }

    /// Whether a unit of the given control cost fits under the cap.
    pub fn has_unit_control(&self, cost: u32) -> (r: bool)
        ensures
            r == (self.unit_control_used + cost <= self.unit_control_cap),
    {
        self.unit_control_used as u64 + cost as u64 <= self.unit_control_cap as u64
    }
}

/// A produced unit takes its control cost from the player's unit control.
pub fn claim_unit_control(res: &mut GdoPlayerResources, cost: u32)
    requires
        old(res).unit_control_used + cost <= u32::MAX,
    ensures
        *final(res) == (GdoPlayerResources { unit_control_used: (old(res).unit_control_used + cost) as u32, ..*old(res) }),
{
    res.unit_control_used = res.unit_control_used + cost;
}

/// A destroyed unit gives its control cost back, never below zero.
pub fn release_unit_control(res: &mut GdoPlayerResources, cost: u32)
    ensures
        *final(res) == (GdoPlayerResources {
            unit_control_used: if old(res).unit_control_used >= cost {
                (old(res).unit_control_used - cost) as u32
            } else {
                0u32
            },
            ..*old(res)
        }),
{
    res.unit_control_used = res.unit_control_used.saturating_sub(cost);
}

/// Losing a unit gives back exactly the control its production took.
pub proof fn law_control_claim_release(used: u32, cost: u32)
    requires
        used + cost <= u32::MAX,
    ensures
        ({
            let claimed = (used + cost) as u32;
            (if claimed >= cost {
                (claimed - cost) as u32
            } else {
                0u32
            }) == used
        }),
{
}

/// Player numbers of the GDO and Syndicate players: the local player
/// (number 0) plays the selected faction.
pub fn faction_player_numbers(gdo_selected: bool) -> (r: (u8, u8))
    ensures
        r == if gdo_selected {
            (0u8, 1u8)
        } else {
            (1u8, 0u8)
        },
{
    if gdo_selected {
        (0, 1)
    } else {
        (1, 0)
    }
}

// === Power grid ===

/// Power generated by the player's buildings among the first `k`.
pub open spec fn generated_upto(buildings: Seq<(Owner, PowerValue, ObjectEnum)>, player: u8, k: int) -> int
    decreases k,
{
    if k <= 0 {
        0
    } else {
        generated_upto(buildings, player, k - 1) + if buildings[k - 1].0.0 == Some(player) && buildings[k - 1].1.0 > 0 {
            buildings[k - 1].1.0 as int
        } else {
            0
        }
    }
}

/// Power consumed by the player's buildings among the first `k`.
pub open spec fn consumed_upto(buildings: Seq<(Owner, PowerValue, ObjectEnum)>, player: u8, k: int) -> int
    decreases k,
{
    if k <= 0 {
        0
    } else {
        consumed_upto(buildings, player, k - 1) + if buildings[k - 1].0.0 == Some(player) && buildings[k - 1].1.0 < 0 {
            -(buildings[k - 1].1.0 as int)
        } else {
            0
        }
    }
}

/// The player owns a Power Plant among the buildings.
pub open spec fn owns_power_plant(buildings: Seq<(Owner, PowerValue, ObjectEnum)>, player: u8) -> bool {
    exists|i: int|
        0 <= i < buildings.len() && (#[trigger] buildings[i]).0.0 == Some(player) && buildings[i].2
            == ObjectEnum::PowerPlant
}

proof fn lemma_power_nonneg(buildings: Seq<(Owner, PowerValue, ObjectEnum)>, player: u8, k: int)
    ensures
        0 <= generated_upto(buildings, player, k),
        0 <= consumed_upto(buildings, player, k),
    decreases k,
{
    if k > 0 {
        lemma_power_nonneg(buildings, player, k - 1);
    }
}

proof fn lemma_power_monotone(buildings: Seq<(Owner, PowerValue, ObjectEnum)>, player: u8, j: int, k: int)
    requires
        0 <= j <= k <= buildings.len(),
    ensures
        0 <= generated_upto(buildings, player, j) <= generated_upto(buildings, player, k),
        0 <= consumed_upto(buildings, player, j) <= consumed_upto(buildings, player, k),
    decreases k - j,
{
    lemma_power_nonneg(buildings, player, j);
    if j < k {
        lemma_power_monotone(buildings, player, j, k - 1);
    }
}

/// Changing or replacing a building owned by someone else, with another
/// building not owned by the player, leaves the player's totals among the first `k`.
proof fn lemma_power_other_update(
    buildings: Seq<(Owner, PowerValue, ObjectEnum)>,
    player: u8,
    i: int,
    other: (Owner, PowerValue, ObjectEnum),
    k: int,
)
    requires
        0 <= i < buildings.len(),
        0 <= k <= buildings.len(),
        buildings[i].0.0 != Some(player),
        other.0.0 != Some(player),
    ensures
        generated_upto(buildings.update(i, other), player, k) == generated_upto(buildings, player, k),
        consumed_upto(buildings.update(i, other), player, k) == consumed_upto(buildings, player, k),
    decreases k,
{
    if k > 0 {
        lemma_power_other_update(buildings, player, i, other, k - 1);
        let u = buildings.update(i, other);
        if k - 1 != i {
            assert(u[k - 1] == buildings[k - 1]);
        }
    }
}

/// A player's power comes from its own buildings only: what another player
/// builds, or how much power it generates or draws, never changes the power
/// the player generates or consumes.
pub proof fn law_power_own_buildings_only(
    buildings: Seq<(Owner, PowerValue, ObjectEnum)>,
    player: u8,
    i: int,
    other: (Owner, PowerValue, ObjectEnum),
)
    requires
        0 <= i < buildings.len(),
        buildings[i].0.0 != Some(player),
        other.0.0 != Some(player),
    ensures
        generated_upto(buildings.update(i, other), player, buildings.len() as int) == generated_upto(
            buildings,
            player,
            buildings.len() as int,
        ),
        consumed_upto(buildings.update(i, other), player, buildings.len() as int) == consumed_upto(
            buildings,
            player,
            buildings.len() as int,
        ),
{
    lemma_power_other_update(buildings, player, i, other, buildings.len() as int);
}

/// A player who owns none of the buildings generates and consumes no power.
pub proof fn law_power_none_owned(buildings: Seq<(Owner, PowerValue, ObjectEnum)>, player: u8, k: int)
    requires
        0 <= k <= buildings.len(),
        forall|j: int| 0 <= j < buildings.len() ==> (#[trigger] buildings[j]).0.0 != Some(player),
    ensures
        generated_upto(buildings, player, k) == 0,
        consumed_upto(buildings, player, k) == 0,
    decreases k,
{
    if k > 0 {
        law_power_none_owned(buildings, player, k - 1);
        assert(buildings[k - 1].0.0 != Some(player));
    }
}

/// Adding a building of the player that generates `v > 0` raises the power it
/// generates by exactly `v` and leaves what it consumes; one drawing `v > 0`
/// raises what it consumes by exactly `v`.
pub proof fn law_power_own_building_counts(
    buildings: Seq<(Owner, PowerValue, ObjectEnum)>,
    player: u8,
    b: (Owner, PowerValue, ObjectEnum),
)
    requires
        b.0.0 == Some(player),
    ensures
        b.1.0 > 0 ==> generated_upto(buildings.push(b), player, buildings.len() + 1int) == generated_upto(
            buildings,
            player,
            buildings.len() as int,
        ) + b.1.0 && consumed_upto(buildings.push(b), player, buildings.len() + 1int) == consumed_upto(
            buildings,
            player,
            buildings.len() as int,
        ),
        b.1.0 < 0 ==> consumed_upto(buildings.push(b), player, buildings.len() + 1int) == consumed_upto(
            buildings,
            player,
            buildings.len() as int,
        ) - b.1.0 && generated_upto(buildings.push(b), player, buildings.len() + 1int) == generated_upto(
            buildings,
            player,
            buildings.len() as int,
        ),
{
    lemma_power_prefix_push(buildings, player, b, buildings.len() as int);
}

/// Totals over a prefix do not see what is pushed after it.
proof fn lemma_power_prefix_push(
    buildings: Seq<(Owner, PowerValue, ObjectEnum)>,
    player: u8,
    b: (Owner, PowerValue, ObjectEnum),
    k: int,
)
    requires
        0 <= k <= buildings.len(),
    ensures
        generated_upto(buildings.push(b), player, k) == generated_upto(buildings, player, k),
        consumed_upto(buildings.push(b), player, k) == consumed_upto(buildings, player, k),
    decreases k,
{
    if k > 0 {
        lemma_power_prefix_push(buildings, player, b, k - 1);
        assert(buildings.push(b)[k - 1] == buildings[k - 1]);
    }
}

/// Recompute the player's power totals from the buildings: generators add
/// their value, consumers their magnitude, and a Power Plant of the player
/// is noted.
pub fn compute_power_grid(resources: &mut GdoPlayerResources, player: u8, buildings: &[(Owner, PowerValue, ObjectEnum)])
    requires
        generated_upto(buildings@, player, buildings@.len() as int) <= i32::MAX,
        consumed_upto(buildings@, player, buildings@.len() as int) <= i32::MAX,
        forall|i: int|
            0 <= i < buildings@.len() && (#[trigger] buildings@[i]).0.0 == Some(player) ==> buildings@[i].1.0 > i32::MIN,
    ensures
        final(resources).power_generated == generated_upto(buildings@, player, buildings@.len() as int),
        final(resources).power_consumed == consumed_upto(buildings@, player, buildings@.len() as int),
        final(resources).has_power_plant == owns_power_plant(buildings@, player),
        final(resources).space_crystals == old(resources).space_crystals,
        final(resources).supplies == old(resources).supplies,
        final(resources).unit_control_used == old(resources).unit_control_used,
        final(resources).unit_control_cap == old(resources).unit_control_cap,
{
    let n = buildings.len();
    let mut generated: i32 = 0;
    let mut consumed: i32 = 0;
    let mut found = false;
    let mut i: usize = 0;
    while i < n
        invariant
            n == buildings@.len(),
            0 <= i <= n,
            generated_upto(buildings@, player, n as int) <= i32::MAX,
            consumed_upto(buildings@, player, n as int) <= i32::MAX,
            forall|i: int|
                0 <= i < buildings@.len() && (#[trigger] buildings@[i]).0.0 == Some(player) ==> buildings@[i].1.0 > i32::MIN,
            generated == generated_upto(buildings@, player, i as int),
            consumed == consumed_upto(buildings@, player, i as int),
            found == exists|j: int|
                0 <= j < i && (#[trigger] buildings@[j]).0.0 == Some(player) && buildings@[j].2 == ObjectEnum::PowerPlant,
        decreases n - i,
    {
        proof {
            lemma_power_monotone(buildings@, player, i + 1, n as int);
        }
        let (owner, power, obj) = buildings[i];
        if owner.0 == Some(player) {
            if power.0 > 0 {
                generated = generated + power.0;
            } else if power.0 < 0 {
                consumed = consumed + (0 - power.0);
            }
            if obj == ObjectEnum::PowerPlant {
                found = true;
            }
        }
        i = i + 1;
    }
    resources.power_generated = generated;
    resources.power_consumed = consumed;
    resources.has_power_plant = found;
}

// === Extraction Plate mining ===

/// Advance a plate's mining timer by one frame; returns whether a mining tick
/// is due, which restarts the timer.
pub fn plate_mining_due(plate: &mut ExtractionPlateState) -> (r: bool)
    requires
        old(plate).mining_timer < u32::MAX,
    ensures
        r == (old(plate).mining_timer + 1 >= EXTRACTION_PLATE_MINING_INTERVAL),
        final(plate).mining_timer == if r {
            0
        } else {
            old(plate).mining_timer + 1
        },
        final(plate).attached_patch == old(plate).attached_patch,
{
    plate.mining_timer = plate.mining_timer + 1;
    if plate.mining_timer >= EXTRACTION_PLATE_MINING_INTERVAL {
        plate.mining_timer = 0;
        true
    } else {
        false
    }
}

/// Mine a patch once: up to the mining rate from what remains, or the
/// residual rate from a depleted patch. Returns the amount mined.
pub fn mine_patch(patch: &mut SpaceCrystalPatch) -> (r: u32)
    ensures
        old(patch).remaining_amount > 0 ==> r == (if old(patch).remaining_amount < EXTRACTION_PLATE_MINING_RATE {
            old(patch).remaining_amount
        } else {
            EXTRACTION_PLATE_MINING_RATE
        }),
        old(patch).remaining_amount == 0 ==> r == EXTRACTION_PLATE_RESIDUAL_RATE,
        old(patch).remaining_amount > 0 ==> final(patch).remaining_amount == old(patch).remaining_amount - r,
        old(patch).remaining_amount == 0 ==> final(patch).remaining_amount == 0,
        final(patch).initial_amount == old(patch).initial_amount,
        final(patch).has_plate == old(patch).has_plate,
{
    if patch.remaining_amount > 0 {
        let amount = if patch.remaining_amount < EXTRACTION_PLATE_MINING_RATE {
            patch.remaining_amount
        } else {
            EXTRACTION_PLATE_MINING_RATE
        };
        patch.remaining_amount = patch.remaining_amount - amount;
        amount
    } else {
        EXTRACTION_PLATE_RESIDUAL_RATE
    }
}

/// What one mining tick takes from a patch with `remaining` crystals: up to
/// the mining rate, or the residual rate from a depleted patch.
pub open spec fn mined_amount(remaining: u32) -> u32 {
    if remaining == 0 {
        EXTRACTION_PLATE_RESIDUAL_RATE
    } else if remaining < EXTRACTION_PLATE_MINING_RATE {
        remaining
    } else {
        EXTRACTION_PLATE_MINING_RATE
    }
}

/// One frame of an Extraction Plate over its patch, owned by a player whose
/// crystals are `space_crystals`: the mining timer advances; when a mining
/// tick is due the timer restarts, the patch is mined (see `mine_patch`) and
/// what was mined is credited to the owner. Returns the amount credited
/// (0 when no tick was due).
pub fn extraction_plate_frame(
    plate: &mut ExtractionPlateState,
    patch: &mut SpaceCrystalPatch,
    space_crystals: &mut i32,
) -> (r: u32)
    requires
        old(plate).mining_timer < u32::MAX,
        *old(space_crystals) as int + EXTRACTION_PLATE_MINING_RATE as int <= i32::MAX,
    ensures
        ({
            let due = old(plate).mining_timer + 1 >= EXTRACTION_PLATE_MINING_INTERVAL;
            &&& final(plate).mining_timer == if due {
                0
            } else {
                old(plate).mining_timer + 1
            }
            &&& final(plate).attached_patch == old(plate).attached_patch
            &&& r == if due {
                mined_amount(old(patch).remaining_amount)
            } else {
                0
            }
            &&& *final(space_crystals) == *old(space_crystals) + r
            &&& *final(patch) == if due && old(patch).remaining_amount > 0 {
                SpaceCrystalPatch {
                    remaining_amount: (old(patch).remaining_amount - r) as u32,
                    ..*old(patch)
                }
            } else {
                *old(patch)
            }
        }),
{
    if !plate_mining_due(plate) {
        return 0;
    }
    let amount = mine_patch(patch);
    *space_crystals = *space_crystals + amount as i32;
    amount
}

/// An Extraction Plate was destroyed over the patch: a patch with crystals
/// left is uncovered; a depleted one is to be removed (returns `true`).
pub fn plate_destroyed(patch: &mut SpaceCrystalPatch) -> (r: bool)
    ensures
        r == (old(patch).remaining_amount == 0),
        *final(patch) == if old(patch).remaining_amount > 0 {
            SpaceCrystalPatch { has_plate: false, ..*old(patch) }
        } else {
            *old(patch)
        },
{
    if patch.remaining_amount > 0 {
        patch.has_plate = false;
        false
    } else {
        true
    }
}

/// Mining never takes more from a patch than it holds, and a patch only runs
/// down: what remains plus what was mined is what there was.
pub proof fn law_mining_conserves(before: u32, mined: u32, after: u32)
    requires
        before > 0,
        mined == (if before < EXTRACTION_PLATE_MINING_RATE {
            before
        } else {
            EXTRACTION_PLATE_MINING_RATE
        }),
        after == before - mined,
    ensures
        after + mined == before,
        after < before,
        mined <= EXTRACTION_PLATE_MINING_RATE,
{
}

/// The plates (by entity) among `plates[..n]` that sit on `patch`, in order.
pub open spec fn plates_on(plates: Seq<(EntityId, ExtractionPlateState)>, patch: EntityId, n: int) -> Seq<EntityId>
    decreases n,
{
    if n <= 0 {
        Seq::empty()
    } else if plates[n - 1].1.attached_patch == patch {
        plates_on(plates, patch, n - 1).push(plates[n - 1].0)
    } else {
        plates_on(plates, patch, n - 1)
    }
}

/// What goes when patches run dry, patch by patch among `patches[..n]`: for
/// a depleted patch, the plates on it and then the patch itself.
pub open spec fn depleted_despawns(
    patches: Seq<(EntityId, SpaceCrystalPatch)>,
    plates: Seq<(EntityId, ExtractionPlateState)>,
    n: int,
) -> Seq<EntityId>
    decreases n,
{
    if n <= 0 {
        Seq::empty()
    } else if patches[n - 1].1.remaining_amount == 0 {
        depleted_despawns(patches, plates, n - 1) + plates_on(plates, patches[n - 1].0, plates.len() as int).push(
            patches[n - 1].0,
        )
    } else {
        depleted_despawns(patches, plates, n - 1)
    }
}

/// The entities to remove when Space Crystal patches are depleted: every
/// patch with nothing left, preceded by the Extraction Plates attached to it.
pub fn depleted_patch_despawns(
    patches: &[(EntityId, SpaceCrystalPatch)],
    plates: &[(EntityId, ExtractionPlateState)],
) -> (r: Vec<EntityId>)
    ensures
        r@ == depleted_despawns(patches@, plates@, patches@.len() as int),
{
    let mut out: Vec<EntityId> = Vec::new();
    let mut i: usize = 0;
    while i < patches.len()
        invariant
            0 <= i <= patches@.len(),
            out@ == depleted_despawns(patches@, plates@, i as int),
        decreases patches@.len() - i,
    {
        let (patch_entity, patch) = patches[i];
        if patch.remaining_amount == 0 {
            let ghost before = out@;
            let mut j: usize = 0;
            while j < plates.len()
                invariant
                    0 <= j <= plates@.len(),
                    i < patches@.len(),
                    patch_entity == patches@[i as int].0,
                    out@ == before + plates_on(plates@, patch_entity, j as int),
                decreases plates@.len() - j,
            {
                if plates[j].1.attached_patch == patch_entity {
                    out.push(plates[j].0);
                }
                proof {
                    assert(out@ =~= before + plates_on(plates@, patch_entity, j + 1));
                }
                j = j + 1;
            }
            out.push(patch_entity);
            proof {
                assert(out@ =~= before + plates_on(plates@, patch_entity, plates@.len() as int).push(patch_entity));
            }
        }
        i = i + 1;
    }
    out
}

/// Only what belongs to a depleted patch is removed: each listed entity is a
/// depleted patch or a plate attached to one.
pub proof fn law_depleted_only(
    patches: Seq<(EntityId, SpaceCrystalPatch)>,
    plates: Seq<(EntityId, ExtractionPlateState)>,
    n: int,
    x: EntityId,
)
    requires
        0 <= n <= patches.len(),
        depleted_despawns(patches, plates, n).contains(x),
    ensures
        exists|k: int|
            0 <= k < n && #[trigger] patches[k].1.remaining_amount == 0 && (patches[k].0 == x || exists|j: int|
                0 <= j < plates.len() && plates[j].0 == x && #[trigger] plates[j].1.attached_patch == patches[k].0),
    decreases n,
{
    if n > 0 {
        if patches[n - 1].1.remaining_amount == 0 {
            let s = depleted_despawns(patches, plates, n - 1);
            let t = plates_on(plates, patches[n - 1].0, plates.len() as int).push(patches[n - 1].0);
            let st = s + t;
            let i = choose|i: int| 0 <= i < st.len() && #[trigger] st[i] == x;
            if i < s.len() {
                assert(s[i] == x);
                law_depleted_only(patches, plates, n - 1, x);
            } else if i == s.len() + t.len() - 1 {
                assert(patches[n - 1].0 == x);
            } else {
                let u = plates_on(plates, patches[n - 1].0, plates.len() as int);
                assert(u[i - s.len()] == x);
                lemma_plates_on_member(plates, patches[n - 1].0, plates.len() as int, x);
            }
        } else {
            law_depleted_only(patches, plates, n - 1, x);
        }
    }
}

/// Every entity in `plates_on` is a plate attached to that patch.
proof fn lemma_plates_on_member(plates: Seq<(EntityId, ExtractionPlateState)>, patch: EntityId, n: int, x: EntityId)
    requires
        0 <= n <= plates.len(),
        plates_on(plates, patch, n).contains(x),
    ensures
        exists|j: int| 0 <= j < plates.len() && plates[j].0 == x && #[trigger] plates[j].1.attached_patch == patch,
    decreases n,
{
    if n > 0 {
        let p = plates_on(plates, patch, n - 1);
        if plates[n - 1].1.attached_patch == patch {
            let q = p.push(plates[n - 1].0);
            let i = choose|i: int| 0 <= i < q.len() && #[trigger] q[i] == x;
            if i < p.len() {
                assert(p[i] == x);
                lemma_plates_on_member(plates, patch, n - 1, x);
            }
        } else {
            lemma_plates_on_member(plates, patch, n - 1, x);
        }
    }
}

/// A depleted patch is always among what is removed.
pub proof fn law_depleted_patch_listed(
    patches: Seq<(EntityId, SpaceCrystalPatch)>,
    plates: Seq<(EntityId, ExtractionPlateState)>,
    k: int,
)
    requires
        0 <= k < patches.len(),
        patches[k].1.remaining_amount == 0,
    ensures
        depleted_despawns(patches, plates, patches.len() as int).contains(patches[k].0),
    decreases patches.len(),
{
    lemma_despawns_grow(patches, plates, k + 1, patches.len() as int);
    let s = depleted_despawns(patches, plates, k);
    let t = plates_on(plates, patches[k].0, plates.len() as int).push(patches[k].0);
    assert((s + t)[s.len() + t.len() - 1] == patches[k].0);
}

/// A plate on the patch among the first `n` plates is in `plates_on`.
proof fn lemma_plate_in_plates_on(plates: Seq<(EntityId, ExtractionPlateState)>, patch: EntityId, n: int, j: int)
    requires
        0 <= j < n <= plates.len(),
        plates[j].1.attached_patch == patch,
    ensures
        plates_on(plates, patch, n).contains(plates[j].0),
    decreases n,
{
    let p = plates_on(plates, patch, n - 1);
    if j == n - 1 {
        assert(p.push(plates[j].0)[p.len() as int] == plates[j].0);
    } else {
        lemma_plate_in_plates_on(plates, patch, n - 1, j);
        let i = choose|i: int| 0 <= i < p.len() && p[i] == plates[j].0;
        if plates[n - 1].1.attached_patch == patch {
            assert(p.push(plates[n - 1].0)[i] == plates[j].0);
        }
    }
}

/// Every plate attached to a depleted patch is removed with it.
pub proof fn law_depleted_plate_listed(
    patches: Seq<(EntityId, SpaceCrystalPatch)>,
    plates: Seq<(EntityId, ExtractionPlateState)>,
    k: int,
    j: int,
)
    requires
        0 <= k < patches.len(),
        patches[k].1.remaining_amount == 0,
        0 <= j < plates.len(),
        plates[j].1.attached_patch == patches[k].0,
    ensures
        depleted_despawns(patches, plates, patches.len() as int).contains(plates[j].0),
{
    lemma_despawns_grow(patches, plates, k + 1, patches.len() as int);
    lemma_plate_in_plates_on(plates, patches[k].0, plates.len() as int, j);
    let s = depleted_despawns(patches, plates, k);
    let u = plates_on(plates, patches[k].0, plates.len() as int);
    let t = u.push(patches[k].0);
    let i = choose|i: int| 0 <= i < u.len() && u[i] == plates[j].0;
    assert((s + t)[s.len() + i] == plates[j].0);
    let whole = depleted_despawns(patches, plates, patches.len() as int);
    assert(whole[s.len() + i] == plates[j].0);
}

/// The list for a prefix is a prefix of the list for a longer one.
proof fn lemma_despawns_grow(
    patches: Seq<(EntityId, SpaceCrystalPatch)>,
    plates: Seq<(EntityId, ExtractionPlateState)>,
    m: int,
    n: int,
)
    requires
        0 <= m <= n <= patches.len(),
    ensures
        depleted_despawns(patches, plates, m).is_prefix_of(depleted_despawns(patches, plates, n)),
    decreases n - m,
{
    if m < n {
        lemma_despawns_grow(patches, plates, m, n - 1);
        let a = depleted_despawns(patches, plates, m);
        let b = depleted_despawns(patches, plates, n - 1);
        let c = depleted_despawns(patches, plates, n);
        assert forall|i: int| 0 <= i < a.len() implies a[i] == c[i] by {
            assert(a[i] == b[i]);
        }
    }
}

// === Construction and production ===

/// The Deployment Center construction a key press asks for: keys one to
/// three ask for a Power Plant, Barracks and Extraction Facility, the first
/// pressed winning.
pub fn dc_build_request(key1: bool, key2: bool, key3: bool) -> (r: Option<ObjectEnum>)
    ensures
        r == if key1 {
            Some(ObjectEnum::PowerPlant)
        } else if key2 {
            Some(ObjectEnum::Barracks)
        } else if key3 {
            Some(ObjectEnum::ExtractionFacility)
        } else {
            None
        },
{
    if key1 {
        Some(ObjectEnum::PowerPlant)
    } else if key2 {
        Some(ObjectEnum::Barracks)
    } else if key3 {
        Some(ObjectEnum::ExtractionFacility)
    } else {
        None
    }
}

/// Start a Deployment Center construction: refused while it builds or holds
/// a structure to place, and for what it cannot build or the player cannot
/// afford; otherwise the cost is paid and construction starts at `zero`.
/// Returns whether it started.
pub fn start_dc_construction<P>(
    dc: &mut DeploymentCenterState<P>,
    space_crystals: &mut i32,
    object: ObjectEnum,
    zero: P,
) -> (r: bool)
    ensures
        r == (old(dc).current_construction is None && old(dc).ready_to_place is None && dc_cost(object) is Some
            && *old(space_crystals) >= dc_cost(object)->0.space_crystals),
        r ==> *final(space_crystals) == *old(space_crystals) - dc_cost(object)->0.space_crystals
            && final(dc).current_construction == Some(object) && final(dc).construction_progress == Some(zero)
            && final(dc).ready_to_place == old(dc).ready_to_place,
        !r ==> *final(space_crystals) == *old(space_crystals) && final(dc).current_construction == old(dc).current_construction && final(dc).construction_progress == old(dc).construction_progress
            && final(dc).ready_to_place == old(dc).ready_to_place,
{
    if dc.current_construction.is_some() || dc.ready_to_place.is_some() {
        return false;
    }
    match DeploymentCenterState::<P>::construction_cost(&object) {
        Some(cost) => {
            if *space_crystals >= cost.space_crystals as i32 {
                *space_crystals = *space_crystals - cost.space_crystals as i32;
                dc.current_construction = Some(object);
                dc.construction_progress = Some(zero);
                true
            } else {
                false
            }
        },
        None => false,
    }
}

/// Cancelling a Deployment Center construction that has not finished gives
/// back everything its start paid; cancelling one ready to place gives back
/// three quarters, never more than was paid.
pub proof fn law_dc_cancel_refund(object: ObjectEnum, crystals: int)
    requires
        dc_cost(object) is Some,
    ensures
        ({
            let paid = dc_cost(object)->0.space_crystals;
            &&& crystals - paid + refund_of(paid, false, true)->0 == crystals
            &&& refund_of(paid, true, false)->0 <= paid
            &&& refund_of(paid, true, false)->0 == paid * 3 / 4
        }),
{
}

/// Outcome of asking a Barracks for a Peacekeeper.
#[derive(Clone, Copy, Debug, PartialEq, Eq, Structural)]
pub enum QueueOutcome {
    NotEnoughCrystals,
    UnitControlCapReached,
    QueueFull,
    Queued,
}

/// Queue a Peacekeeper at a Barracks: the player needs the crystals and unit
/// control (`control_available`), and the queue room; a queued unit is paid
/// for at once.
pub fn queue_peacekeeper<P, L>(bk: &mut BarracksState<P, L>, space_crystals: &mut i32, control_available: bool) -> (r:
    QueueOutcome)
    ensures
        r == if *old(space_crystals) < 50 {
            QueueOutcome::NotEnoughCrystals
        } else if !control_available {
            QueueOutcome::UnitControlCapReached
        } else if old(bk).build_queue@.len() >= 5 {
            QueueOutcome::QueueFull
        } else {
            QueueOutcome::Queued
        },
        r == QueueOutcome::Queued ==> *final(space_crystals) == *old(space_crystals) - 50 && final(bk).build_queue@
            == old(bk).build_queue@.push(ObjectEnum::Peacekeeper),
        r != QueueOutcome::Queued ==> *final(space_crystals) == *old(space_crystals) && final(bk).build_queue@ == old(bk).build_queue@,
        final(bk).current_build == old(bk).current_build,
        final(bk).current_build_progress == old(bk).current_build_progress,
{
    let cost = BarracksState::<P, L>::production_cost(&ObjectEnum::Peacekeeper);
    let price = match cost {
        Some(c) => c.space_crystals as i32,
        None => 0,
    };
    if *space_crystals < price {
        return QueueOutcome::NotEnoughCrystals;
    }
    if !control_available {
        return QueueOutcome::UnitControlCapReached;
    }
    if bk.try_queue(ObjectEnum::Peacekeeper) {
        *space_crystals = *space_crystals - price;
        QueueOutcome::Queued
    } else {
        QueueOutcome::QueueFull
    }
}

/// Cancel what a Deployment Center builds or holds ready, refunding the
/// player: everything during construction, three quarters once ready.
/// Returns the refund.
pub fn cancel_dc<P>(dc: &mut DeploymentCenterState<P>, space_crystals: &mut i32) -> (r: u32)
    requires
        *old(space_crystals) + 200 <= i32::MAX,
    ensures
        old(dc).current_construction matches Some(b) ==> r == (match dc_cost(b) {
            Some(c) => refund_of(c.space_crystals, old(dc).ready_to_place is Some, true)->0,
            None => 0,
        }) && final(dc).current_construction is None && final(dc).construction_progress is None
            && final(dc).ready_to_place == old(dc).ready_to_place,
        old(dc).current_construction is None ==> (old(dc).ready_to_place matches Some(b) ==> r == (match dc_cost(b) {
            Some(c) => refund_of(c.space_crystals, true, false)->0,
            None => 0,
        }) && final(dc).ready_to_place is None && final(dc).construction_progress == old(dc).construction_progress),
        old(dc).current_construction is None && old(dc).ready_to_place is None ==> r == 0 && *final(dc) == *old(dc),
        *final(space_crystals) == *old(space_crystals) + r,
{
    match dc.current_construction {
        Some(building) => {
            let refund = match dc.cancellation_refund(&building) {
                Some(v) => v,
                None => 0,
            };
            *space_crystals = *space_crystals + refund as i32;
            dc.current_construction = None;
            dc.construction_progress = None;
            refund
        },
        None => match dc.ready_to_place {
            Some(ready) => {
                let refund = match dc.cancellation_refund(&ready) {
                    Some(v) => v,
                    None => 0,
                };
                *space_crystals = *space_crystals + refund as i32;
                dc.ready_to_place = None;
                refund
            },
            None => 0,
        },
    }
}

/// Cancel the last Barracks item and refund its cost. Returns the refund.
pub fn cancel_barracks<P, L>(bk: &mut BarracksState<P, L>, space_crystals: &mut i32) -> (r: u32)
    requires
        *old(space_crystals) + 50 <= i32::MAX,
    ensures
        ({
            let cancelled = if old(bk).build_queue@.len() > 0 {
                Some(old(bk).build_queue@.last())
            } else {
                old(bk).current_build
            };
            r == match cancelled {
                Some(o) => match barracks_cost(o) {
                    Some(c) => c.space_crystals,
                    None => 0u32,
                },
                None => 0u32,
            }
        }),
        *final(space_crystals) == *old(space_crystals) + r,
{
    match bk.cancel_last() {
        Some(cancelled) => match BarracksState::<P, L>::production_cost(&cancelled) {
            Some(cost) => {
                *space_crystals = *space_crystals + cost.space_crystals as i32;
                cost.space_crystals
            },
            None => 0,
        },
        None => 0,
    }
}

/// A Deployment Center whose construction is done holds the structure ready to place.
pub fn complete_dc_construction<P>(dc: &mut DeploymentCenterState<P>)
    requires
        old(dc).current_construction is Some,
    ensures
        final(dc).ready_to_place == old(dc).current_construction,
        final(dc).current_construction is None,
        final(dc).construction_progress is None,
{
    dc.ready_to_place = dc.current_construction;
    dc.current_construction = None;
    dc.construction_progress = None;
}

/// An Extraction Facility whose construction is done holds a plate ready to place.
pub fn complete_ef_construction<P>(ef: &mut ExtractionFacilityState<P>)
    ensures
        final(ef).ready_to_place,
        !final(ef).current_construction,
        final(ef).construction_progress is None,
{
    ef.ready_to_place = true;
    ef.current_construction = false;
    ef.construction_progress = None;
}

/// The queue's next unit once a production structure is idle.
pub open spec fn next_build(queue: Seq<ObjectEnum>, current: Option<ObjectEnum>) -> (Seq<ObjectEnum>, Option<
    ObjectEnum,
>) {
    if current is None && queue.len() > 0 {
        (queue.drop_first(), Some(queue[0]))
    } else {
        (queue, current)
    }
}

/// Production follows queueing order: an idle structure starts the unit at
/// the front of its queue, and the queue keeps the others in order behind it.
/// A busy one, or one with nothing queued, changes nothing.
pub proof fn law_production_fifo(queue: Seq<ObjectEnum>, current: Option<ObjectEnum>)
    ensures
        current is None && queue.len() > 0 ==> next_build(queue, current).1 == Some(queue[0]) && seq![queue[0]]
            + next_build(queue, current).0 == queue,
        !(current is None && queue.len() > 0) ==> next_build(queue, current) == (queue, current),
{
    if current is None && queue.len() > 0 {
        assert(seq![queue[0]] + queue.drop_first() =~= queue);
    }
}

impl<P, L> BarracksState<P, L> {
    /// When idle with units queued, start the first queued unit at `zero`.
    pub fn begin_next_build(&mut self, zero: P)
        ensures
            (final(self).build_queue@, final(self).current_build) == next_build(
                old(self).build_queue@,
                old(self).current_build,
            ),
            old(self).current_build is None && old(self).build_queue@.len() > 0 ==> final(self).current_build_progress == Some(zero),
            !(old(self).current_build is None && old(self).build_queue@.len() > 0) ==> final(self).current_build_progress == old(self).current_build_progress,
            final(self).rally_point == old(self).rally_point,
    {
        if self.current_build.is_none() && self.build_queue.len() > 0 {
            let next = self.build_queue.remove(0);
            self.current_build = Some(next);
            self.current_build_progress = Some(zero);
            proof {
                assert(self.build_queue@ =~= old(self).build_queue@.drop_first());
            }
        }
    }

    /// The current build is done: the structure is idle again.
    pub fn finish_build(&mut self)
        ensures
            final(self).current_build is None,
            final(self).current_build_progress is None,
            final(self).build_queue@ == old(self).build_queue@,
            final(self).rally_point == old(self).rally_point,
    {
        self.current_build = None;
        self.current_build_progress = None;
    }
}

impl<P, L> SupplyTowerState<P, L> {
    /// When idle with units queued, start the first queued unit at `zero`.
    pub fn begin_next_build(&mut self, zero: P)
        ensures
            (final(self).build_queue@, final(self).current_build) == next_build(
                old(self).build_queue@,
                old(self).current_build,
            ),
            old(self).current_build is None && old(self).build_queue@.len() > 0 ==> final(self).current_build_progress == Some(zero),
            !(old(self).current_build is None && old(self).build_queue@.len() > 0) ==> final(self).current_build_progress == old(self).current_build_progress,
            final(self).rally_point == old(self).rally_point,
            final(self).attached_chopper == old(self).attached_chopper,
    {
        if self.current_build.is_none() && self.build_queue.len() > 0 {
            let next = self.build_queue.remove(0);
            self.current_build = Some(next);
            self.current_build_progress = Some(zero);
            proof {
                assert(self.build_queue@ =~= old(self).build_queue@.drop_first());
            }
        }
    }

    /// The current build is done: the structure is idle again.
    pub fn finish_build(&mut self)
        ensures
            final(self).current_build is None,
            final(self).current_build_progress is None,
            final(self).build_queue@ == old(self).build_queue@,
            final(self).rally_point == old(self).rally_point,
            final(self).attached_chopper == old(self).attached_chopper,
    {
        self.current_build = None;
        self.current_build_progress = None;
    }
}

/// What a Headquarters production frame did.
#[derive(Clone, Copy, Debug, PartialEq, Eq, Structural)]
pub enum HqTickEvent {
    /// Still building, or idle.
    Working,
    /// A unit is done; it goes to the surface (`eject`) or into the tunnel network.
    Produced { unit: ObjectEnum, eject: bool },
}

/// A produced unit leaves the tunnel network when the rally point is set and
/// is not the Headquarters' own tunnel.
pub open spec fn ejects<L>(rally: Option<RallyTarget<L>>, parent_tunnel: EntityId) -> bool {
    match rally {
        Some(RallyTarget::Object(e)) => e != parent_tunnel,
        Some(RallyTarget::Location(_)) => true,
        None => false,
    }
}

/// Whether a produced unit goes to the surface: the rally point is set and is
/// not the parent tunnel.
pub fn should_eject<L>(rally: &Option<RallyTarget<L>>, parent_tunnel: EntityId) -> (r: bool)
    ensures
        r == ejects(*rally, parent_tunnel),
{
    match rally {
        Some(RallyTarget::Object(e)) => *e != parent_tunnel,
        Some(RallyTarget::Location(_)) => true,
        None => false,
    }
}

/// Where a Headquarters unit appears on the surface: side A of the parent
/// tunnel when known, else the map center.
pub fn hq_spawn_point(side_a: Option<(i32, i32)>) -> (r: (i32, i32))
    ensures
        r == match side_a {
            Some(p) => p,
            None => (32i32, 32i32),
        },
{
    match side_a {
        Some(p) => p,
        None => (32, 32),
    }
}

/// Unit base of a unit the Headquarters produces: that of the Agent's or the
/// Guard's type data, Heavy Infantry for both, and Heavy Infantry otherwise.
pub fn produced_unit_base(unit: ObjectEnum) -> (r: UnitBaseEnum)
    ensures
        r == UnitBaseEnum::HeavyInfantry,
{
    match unit {
        ObjectEnum::SyndicateAgent => crate::unit_data::agent_type_data().unit_base,
        ObjectEnum::SyndicateGuard => crate::unit_data::guard_type_data().unit_base,
        _ => UnitBaseEnum::HeavyInfantry,
    }
}

/// One Headquarters production frame, counting progress in frames: start the
/// next queued unit when idle, advance the current build one frame, and when
/// it reaches its build time report the unit (to the surface when the rally
/// point says so) and go idle.
pub fn headquarters_tick<L>(hq: &mut HeadquartersState<u32, L>, parent_tunnel: EntityId) -> (r: HqTickEvent)
    requires
        old(hq).current_build_progress matches Some(p) ==> p < u32::MAX,
    ensures
        ({
            let (queue1, current1) = next_build(old(hq).build_queue@, old(hq).current_build);
            let progress1 = if old(hq).current_build is None && old(hq).build_queue@.len() > 0 {
                Some(0u32)
            } else {
                old(hq).current_build_progress
            };
            &&& final(hq).build_queue@ == queue1
            &&& final(hq).rally_point == old(hq).rally_point
            &&& match current1 {
                None => r == HqTickEvent::Working && final(hq).current_build is None
                    && final(hq).current_build_progress == progress1,
                Some(unit) => match headquarters_cost(unit) {
                    None => r == HqTickEvent::Working && final(hq).current_build == current1
                        && final(hq).current_build_progress == progress1,
                    Some(cost) => match progress1 {
                        None => r == HqTickEvent::Working && final(hq).current_build == current1
                            && final(hq).current_build_progress is None,
                        Some(p) => if p + 1 >= cost.build_frames {
                            r == (HqTickEvent::Produced { unit, eject: ejects(old(hq).rally_point, parent_tunnel) })
                                && final(hq).current_build is None && final(hq).current_build_progress is None
                        } else {
                            r == HqTickEvent::Working && final(hq).current_build == current1
                                && final(hq).current_build_progress == Some((p + 1) as u32)
                        },
                    },
                },
            }
        }),
{
    if hq.current_build.is_none() && hq.build_queue.len() > 0 {
        let next = hq.build_queue.remove(0);
        hq.current_build = Some(next);
        hq.current_build_progress = Some(0);
        proof {
            assert(hq.build_queue@ =~= old(hq).build_queue@.drop_first());
        }
    }
    let unit = match hq.current_build {
        Some(u) => u,
        None => {
            return HqTickEvent::Working;
        },
    };
    let cost = match HeadquartersState::<u32, L>::production_cost(&unit) {
        Some(c) => c,
        None => {
            return HqTickEvent::Working;
        },
    };
    let progress = match hq.current_build_progress {
        Some(p) => p,
        None => {
            return HqTickEvent::Working;
        },
    };
    let next_progress = progress + 1;
    if next_progress >= cost.build_frames {
        let eject = should_eject(&hq.rally_point, parent_tunnel);
        hq.current_build = None;
        hq.current_build_progress = None;
        HqTickEvent::Produced { unit, eject }
    } else {
        hq.current_build_progress = Some(next_progress);
        HqTickEvent::Working
    }
}

// === Rally points ===

/// What a newly produced unit is ordered to do.
#[derive(Clone, Copy, Debug)]
pub enum RallyOrder<L> {
    /// No rally point, or its object is gone: the unit stays.
    Stay,
    /// Move to the location.
    MoveTo(L),
    /// Move to the (friendly or neutral) object.
    MoveToObject(EntityId),
    /// Attack the enemy object.
    Attack(EntityId),
}

/// The order a rally point gives a unit of `owner`; `target_owner` is the
/// owner of the rally object if it still exists.
pub fn rally_order<L: Copy>(rally: &Option<RallyTarget<L>>, owner: Owner, target_owner: Option<Owner>) -> (r:
    RallyOrder<L>)
    ensures
        match *rally {
            None => r matches RallyOrder::Stay,
            Some(RallyTarget::Location(p)) => r matches RallyOrder::MoveTo(q) && q == p,
            Some(RallyTarget::Object(e)) => match target_owner {
                None => r matches RallyOrder::Stay,
                Some(t) => if is_enemy(owner, t) {
                    r matches RallyOrder::Attack(x) && x == e
                } else {
                    r matches RallyOrder::MoveToObject(x) && x == e
                },
            },
        },
{
    match rally {
        None => RallyOrder::Stay,
        Some(RallyTarget::Location(p)) => RallyOrder::MoveTo(*p),
        Some(RallyTarget::Object(e)) => match target_owner {
            None => RallyOrder::Stay,
            Some(t) => {
                let enemy = !t.is_neutral() && t.player_number() != owner.player_number();
                if enemy {
                    RallyOrder::Attack(*e)
                } else {
                    RallyOrder::MoveToObject(*e)
                }
            },
        },
    }
}

/// The rally point a Headquarters takes from a click: clicking its own
/// tunnel clears it, so produced units stay in the network.
pub fn hq_rally_point<L: Copy>(target: &RallyTarget<L>, parent_tunnel: EntityId) -> (r: Option<RallyTarget<L>>)
    ensures
        match *target {
            RallyTarget::Object(e) => if e == parent_tunnel {
                r is None
            } else {
                r matches Some(RallyTarget::Object(x)) && x == e
            },
            RallyTarget::Location(p) => r matches Some(RallyTarget::Location(q)) && q == p,
        },
{
    match target {
        RallyTarget::Object(e) => if *e == parent_tunnel {
            None
        } else {
            Some(RallyTarget::Object(*e))
        },
        RallyTarget::Location(p) => Some(RallyTarget::Location(*p)),
    }
}

/// Forget a rally point whose object no longer exists (`alive` lists the
/// entities that do).
pub fn rally_target_cleanup<L>(rally: &mut Option<RallyTarget<L>>, alive: &[EntityId])
    ensures
        match *old(rally) {
            Some(RallyTarget::Object(e)) => if alive@.contains(e) {
                *final(rally) == *old(rally)
            } else {
                *final(rally) is None
            },
            _ => *final(rally) == *old(rally),
        },
{
    let target = match rally {
        Some(RallyTarget::Object(e)) => Some(*e),
        _ => None,
    };
    if let Some(e) = target {
        let n = alive.len();
        let mut i: usize = 0;
        while i < n
            invariant
                n == alive@.len(),
                0 <= i <= n,
                *rally == *old(rally),
                *old(rally) == Some(RallyTarget::<L>::Object(e)),
                forall|j: int| 0 <= j < i ==> alive@[j] != e,
            decreases n - i,
        {
            if alive[i] == e {
                proof {
                    assert(alive@.contains(e));
                }
                return;
            }
            i = i + 1;
        }
        *rally = None;
    }
}

// === Tunnel operations ===

/// Tunnel space a tier adds over the tier below it.
pub open spec fn tier_space_gain(t: TunnelTier) -> u32 {
    match t {
        TunnelTier::Tier1 => 20,
        TunnelTier::Tier2 => 10,
        TunnelTier::Tier3 => 10,
    }
}

/// An upgrade gains exactly the tunnel space the new tier has over the tier
/// it upgrades from.
pub proof fn law_upgrade_space_gain(from: TunnelTier)
    requires
        crate::structures::tier_next(from) is Some,
    ensures
        tier_space_gain(crate::structures::tier_next(from)->0) == crate::structures::tier_space(
            crate::structures::tier_next(from)->0,
        ) - crate::structures::tier_space(from),
{
}

/// What a tunnel's operation frame did.
#[derive(Clone, Copy, Debug, PartialEq, Eq, Structural)]
pub enum TunnelTickEvent {
    /// Nothing in progress, or still working.
    Working,
    /// The upgrade is done; the owner gains the tunnel space.
    UpgradeCompleted { tier: TunnelTier, space_gained: u32 },
    /// The expansion is built and appears at the given place.
    ExpansionCompleted {
        object: ObjectEnum,
        grid_x: i32,
        grid_z: i32,
        rotation: StructureRotation,
        flip_horizontal: bool,
        flip_vertical: bool,
    },
}

/// Frames an operation takes: the Headquarters' build time for it, the tunnel
/// construction time for other expansions, the upgrade time for upgrades.
pub open spec fn operation_frames(op: TunnelOperation<u32>) -> u32 {
    match op {
        TunnelOperation::Upgrading { .. } => 480,
        TunnelOperation::BuildingExpansion { object, .. } => if object == ObjectEnum::Headquarters {
            400
        } else {
            480
        },
    }
}

/// One frame of a tunnel's operation, progress counted in frames: the
/// operation advances a frame; a finished upgrade raises the tier and widens
/// the area, a finished expansion frees the tunnel.
pub fn tunnel_tick(state: &mut TunnelState<u32>, area: &mut TunnelArea) -> (r: TunnelTickEvent)
    requires
        area_origin_ok(old(area).origin_x, old(area).origin_z),
        old(state).current_operation matches Some(op) ==> match op {
            TunnelOperation::Upgrading { progress, .. } => progress < u32::MAX,
            TunnelOperation::BuildingExpansion { progress, .. } => progress < u32::MAX,
        },
    ensures
        final(area).origin_x == old(area).origin_x,
        final(area).origin_z == old(area).origin_z,
        match old(state).current_operation {
            None => r == TunnelTickEvent::Working && *final(state) == *old(state) && final(area).cells@ == old(area).cells@,
            Some(op) => match op {
                TunnelOperation::Upgrading { target_tier, progress } => if progress + 1 >= 480 {
                    &&& r == (TunnelTickEvent::UpgradeCompleted {
                        tier: target_tier,
                        space_gained: tier_space_gain(target_tier),
                    })
                    &&& final(state).tier == target_tier
                    &&& final(state).current_operation is None
                    &&& final(area).cells@ == tunnel_area_set(
                        old(area).origin_x as int,
                        old(area).origin_z as int,
                        tier_radius(target_tier) as int,
                    )
                } else {
                    &&& r == TunnelTickEvent::Working
                    &&& final(state).tier == old(state).tier
                    &&& final(state).current_operation == Some(
                        TunnelOperation::Upgrading { target_tier, progress: (progress + 1) as u32 },
                    )
                    &&& final(area).cells@ == old(area).cells@
                },
                TunnelOperation::BuildingExpansion {
                    object,
                    progress,
                    grid_x,
                    grid_z,
                    rotation,
                    flip_horizontal,
                    flip_vertical,
                } => {
                    &&& final(state).tier == old(state).tier
                    &&& final(area).cells@ == old(area).cells@
                    &&& if progress + 1 >= operation_frames(op) {
                        &&& r == (TunnelTickEvent::ExpansionCompleted {
                            object,
                            grid_x,
                            grid_z,
                            rotation,
                            flip_horizontal,
                            flip_vertical,
                        })
                        &&& final(state).current_operation is None
                    } else {
                        &&& r == TunnelTickEvent::Working
                        &&& final(state).current_operation == Some(
                            TunnelOperation::BuildingExpansion {
                                object,
                                progress: (progress + 1) as u32,
                                grid_x,
                                grid_z,
                                rotation,
                                flip_horizontal,
                                flip_vertical,
                            },
                        )
                    }
                },
            },
        },
{
    let op = match state.current_operation {
        Some(op) => op,
        None => {
            return TunnelTickEvent::Working;
        },
    };
    match op {
        TunnelOperation::Upgrading { target_tier, progress } => {
            let next = progress + 1;
            if next >= crate::structures::syndicate_structure_stats::TUNNEL_UPGRADE_FRAMES {
                state.tier = target_tier;
                state.current_operation = None;
                area.recalculate(&target_tier);
                let old_space: u32 = match target_tier {
                    TunnelTier::Tier2 => TunnelTier::Tier1.tunnel_space(),
                    TunnelTier::Tier3 => TunnelTier::Tier2.tunnel_space(),
                    TunnelTier::Tier1 => 0,
                };
                let new_space = target_tier.tunnel_space();
                let gain = if new_space >= old_space {
                    new_space - old_space
                } else {
                    0
                };
                TunnelTickEvent::UpgradeCompleted { tier: target_tier, space_gained: gain }
            } else {
                state.current_operation = Some(TunnelOperation::Upgrading { target_tier, progress: next });
                TunnelTickEvent::Working
            }
        },
        TunnelOperation::BuildingExpansion {
            object,
            progress,
            grid_x,
            grid_z,
            rotation,
            flip_horizontal,
            flip_vertical,
        } => {
            let required = match object {
                ObjectEnum::Headquarters => crate::structures::syndicate_structure_stats::HQ_BUILD_FRAMES,
                _ => crate::structures::syndicate_structure_stats::TUNNEL_CONSTRUCTION_FRAMES,
            };
            let next = progress + 1;
            if next >= required {
                state.current_operation = None;
                TunnelTickEvent::ExpansionCompleted { object, grid_x, grid_z, rotation, flip_horizontal, flip_vertical }
            } else {
                state.current_operation = Some(
                    TunnelOperation::BuildingExpansion {
                        object,
                        progress: next,
                        grid_x,
                        grid_z,
                        rotation,
                        flip_horizontal,
                        flip_vertical,
                    },
                );
                TunnelTickEvent::Working
            }
        },
    }
}

// === Tunnel ejection ===

/// Frames between two ejections from a tunnel.
pub const EJECTION_COOLDOWN: u32 = 8;

/// Units waiting to leave a tunnel, first in line first.
#[derive(Clone, Debug)]
pub struct EjectionQueue {
    pub queue: Vec<EntityId>,
    pub cooldown: u32,
}

/// The first unit in the network of the given type owned by the player.
pub open spec fn first_ejectable(network: Seq<(EntityId, ObjectEnum, u8)>, unit_type: ObjectEnum, owner_player: u8, k: int) -> Option<EntityId>
    decreases network.len() - k,
{
    if k < 0 || k >= network.len() {
        None
    } else if network[k].1 == unit_type && network[k].2 == owner_player {
        Some(network[k].0)
    } else {
        first_ejectable(network, unit_type, owner_player, k + 1)
    }
}

/// Find the unit an eject request takes from the network: the first of the
/// requested type owned by the tunnel's player.
pub fn find_ejectable(network: &[(EntityId, ObjectEnum, u8)], unit_type: ObjectEnum, owner_player: u8) -> (r: Option<
    EntityId,
>)
    ensures
        r == first_ejectable(network@, unit_type, owner_player, 0),
{
    let n = network.len();
    let mut k: usize = 0;
    while k < n
        invariant
            n == network@.len(),
            0 <= k <= n,
            first_ejectable(network@, unit_type, owner_player, 0) == first_ejectable(
                network@,
                unit_type,
                owner_player,
                k as int,
            ),
        decreases n - k,
    {
        if network[k].1 == unit_type && network[k].2 == owner_player {
            return Some(network[k].0);
        }
        k = k + 1;
    }
    None
}

impl EjectionQueue {
    /// One frame of a tunnel's ejection: a found requested unit joins the end
    /// of the line; while cooling down the cooldown counts down; otherwise the
    /// first in line leaves the line, and is ejected if still in the network
    /// (`network` lists the units there), which restarts the cooldown.
    /// Returns the ejected unit.
    pub fn tick(&mut self, requested: Option<EntityId>, network: &[EntityId]) -> (r: Option<EntityId>)
        ensures
            ({
                let q1 = match requested {
                    Some(u) => old(self).queue@.push(u),
                    None => old(self).queue@,
                };
                if old(self).cooldown > 0 {
                    &&& r is None
                    &&& final(self).cooldown == old(self).cooldown - 1
                    &&& final(self).queue@ == q1
                } else if q1.len() == 0 {
                    &&& r is None
                    &&& final(self).cooldown == 0
                    &&& final(self).queue@ == q1
                } else {
                    &&& final(self).queue@ == q1.drop_first()
                    &&& if network@.contains(q1[0]) {
                        r == Some(q1[0]) && final(self).cooldown == EJECTION_COOLDOWN
                    } else {
                        r is None && final(self).cooldown == 0
                    }
                }
            }),
    {
        if let Some(u) = requested {
            self.queue.push(u);
        }
        if self.cooldown > 0 {
            self.cooldown = self.cooldown - 1;
            return None;
        }
        if self.queue.len() == 0 {
            return None;
        }
        let ghost q1 = self.queue@;
        assert(q1 == match requested {
            Some(u) => old(self).queue@.push(u),
            None => old(self).queue@,
        });
        let unit = self.queue.remove(0);
        proof {
            assert(self.queue@ =~= q1.drop_first());
        }
        let n = network.len();
        let mut i: usize = 0;
        while i < n
            invariant
                n == network@.len(),
                0 <= i <= n,
                q1 == match requested {
                    Some(u) => old(self).queue@.push(u),
                    None => old(self).queue@,
                },
                old(self).cooldown == 0,
                self.cooldown == 0,
                q1.len() > 0,
                self.queue@ == q1.drop_first(),
                unit == q1[0],
                forall|j: int| 0 <= j < i ==> network@[j] != unit,
            decreases n - i,
        {
            if network[i] == unit {
                proof {
                    assert(network@.contains(unit));
                }
                self.cooldown = EJECTION_COOLDOWN;
                return Some(unit);
            }
            i = i + 1;
        }
        None
    }
}

} // verus!
