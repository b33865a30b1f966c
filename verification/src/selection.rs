//! Selection rules: click and box selection with ownership tiers, control
//! groups, and when the object interface must fall back to its default.
use vstd::prelude::*;
use crate::economy::Owner;
use crate::fog::VisibilityStateEnum;
use crate::interface::{ObjectInterfaceState, StructureMenuState};
use crate::objects::{EntityId, ObjectEnum, resource_kind, unit_kind};
use crate::placement::{SelectionTier, tier_priority};

verus! {

/// Whether fog of war lets the local player select an entity by click or box:
/// its own and neutral entities always, others only on a visible cell.
pub fn fog_selectable(is_owned: bool, is_neutral: bool, visibility: VisibilityStateEnum) -> (r: bool)
    ensures
        r == (is_owned || is_neutral || visibility == VisibilityStateEnum::Visible),
{
    if is_owned || is_neutral {
        return true;
    }
    visibility == VisibilityStateEnum::Visible
}

/// The ids of a list of selected entities.
pub open spec fn ids_of(selected: Seq<(EntityId, bool)>) -> Set<EntityId> {
    Set::new(|e: EntityId| exists|i: int| 0 <= i < selected.len() && (#[trigger] selected[i]).0 == e)
}

/// Some selected entity is not owned by the local player.
pub open spec fn has_non_owned(selected: Seq<(EntityId, bool)>) -> bool {
    exists|i: int| 0 <= i < selected.len() && !(#[trigger] selected[i]).1
}

/// The selection after a click. `selected` lists the selected entities with
/// whether the local player owns them; `clicked` is the entity hit, if any,
/// with the same flag.
pub open spec fn click_outcome(
    selected: Seq<(EntityId, bool)>,
    clicked: Option<(EntityId, bool)>,
    ctrl: bool,
    shift: bool,
) -> Set<EntityId> {
    match clicked {
        None => if !ctrl && !shift {
            Set::empty()
        } else {
            ids_of(selected)
        },
        Some((e, owned)) => if !owned {
            set![e]
        } else if ctrl {
            if has_non_owned(selected) {
                set![e]
            } else if ids_of(selected).contains(e) {
                ids_of(selected).remove(e)
            } else {
                ids_of(selected).insert(e)
            }
        } else if shift {
            if has_non_owned(selected) {
                set![e]
            } else {
                ids_of(selected).insert(e)
            }
        } else {
            set![e]
        },
    }
}

/// Shift+click on an own entity adds it to an all-own selection: the result
/// is exactly the old selection plus the clicked entity.
pub proof fn law_shift_click_adds(selected: Seq<(EntityId, bool)>, e: EntityId)
    requires
        forall|i: int| 0 <= i < selected.len() ==> (#[trigger] selected[i]).1,
    ensures
        forall|x: EntityId|
            #[trigger] click_outcome(selected, Some((e, true)), false, true).contains(x) <==> (x == e || exists|i: int|
                0 <= i < selected.len() && selected[i].0 == x),
{
    assert(!has_non_owned(selected));
}

/// A plain click (no Ctrl, no Shift) on an entity selects exactly that entity.
pub proof fn law_plain_click_selects_alone(selected: Seq<(EntityId, bool)>, e: EntityId, owned: bool)
    ensures
        forall|x: EntityId| #[trigger] click_outcome(selected, Some((e, owned)), false, false).contains(x) <==> x == e,
{
}

fn any_non_owned(selected: &[(EntityId, bool)]) -> (r: bool)
    ensures
        r == has_non_owned(selected@),
{
    let n = selected.len();
    let mut i: usize = 0;
    while i < n
        invariant
            n == selected@.len(),
            0 <= i <= n,
            forall|j: int| 0 <= j < i ==> (#[trigger] selected@[j]).1,
        decreases n - i,
    {
        if !selected[i].1 {
            return true;
        }
        i = i + 1;
    }
    false
}

/// The selected ids, each once, without `skip`.
fn ids_without(selected: &[(EntityId, bool)], skip: Option<EntityId>) -> (r: Vec<EntityId>)
    ensures
        r@.no_duplicates(),
        forall|e: EntityId| #[trigger] r@.contains(e) <==> ids_of(selected@).contains(e) && Some(e) != skip,
{
    let n = selected.len();
    let mut out: Vec<EntityId> = Vec::new();
    let mut i: usize = 0;
    while i < n
        invariant
            n == selected@.len(),
            0 <= i <= n,
            out@.no_duplicates(),
            forall|e: EntityId|
                #[trigger] out@.contains(e) <==> (exists|j: int| 0 <= j < i && (#[trigger] selected@[j]).0 == e)
                    && Some(e) != skip,
        decreases n - i,
    {
        let e = selected[i].0;
        let mut present = false;
        let mut k: usize = 0;
        while k < out.len()
            invariant
                0 <= k <= out@.len(),
                present == exists|j: int| 0 <= j < k && out@[j] == e,
            decreases out@.len() - k,
        {
            if out[k] == e {
                present = true;
            }
            k = k + 1;
        }
        let ghost before = out@;
        if !present && Some(e) != skip {
            out.push(e);
            proof {
                assert forall|a: int, b: int| 0 <= a < out@.len() && 0 <= b < out@.len() && a != b implies out@[a]
                    != out@[b] by {
                    if a == before.len() {
                        assert(!before.contains(e));
                    } else if b == before.len() {
                        assert(!before.contains(e));
                    }
                }
            }
        }
        proof {
            assert forall|x: EntityId| #[trigger] out@.contains(x) <==> (exists|j: int|
                0 <= j < i + 1 && (#[trigger] selected@[j]).0 == x) && Some(x) != skip by {
                if out@.contains(x) && x != e {
                    assert(before.contains(x));
                }
                if (exists|j: int| 0 <= j < i + 1 && (#[trigger] selected@[j]).0 == x) && Some(x) != skip {
                    if x != e {
                        let j = choose|j: int| 0 <= j < i + 1 && (#[trigger] selected@[j]).0 == x;
                        assert(j < i);
                        assert(before.contains(x));
                        let t = choose|t: int| 0 <= t < before.len() && before[t] == x;
                        assert(out@[t] == x);
                    } else if present {
                        let t = choose|t: int| 0 <= t < before.len() && before[t] == x;
                        assert(out@[t] == x);
                    } else {
                        assert(out@[out@.len() - 1] == x);
                    }
                }
            }
        }
        i = i + 1;
    }
    proof {
        assert forall|x: EntityId| #[trigger] ids_of(selected@).contains(x) <==> (exists|j: int|
            0 <= j < n && (#[trigger] selected@[j]).0 == x) by {}
    }
    out
}

proof fn lemma_single_to_set(e: EntityId)
    ensures
        seq![e].to_set() == set![e],
        seq![e].no_duplicates(),
{
    assert forall|x: EntityId| seq![e].to_set().contains(x) <==> set![e].contains(x) by {
        if x == e {
            assert(seq![e][0] == x);
        }
    }
    assert(seq![e].to_set() =~= set![e]);
}

proof fn lemma_push_new(s: Seq<EntityId>, e: EntityId)
    requires
        s.no_duplicates(),
        !s.contains(e),
    ensures
        s.push(e).no_duplicates(),
        s.push(e).to_set() == s.to_set().insert(e),
{
    assert forall|a: int, b: int| 0 <= a < s.len() + 1 && 0 <= b < s.len() + 1 && a != b implies s.push(e)[a]
        != s.push(e)[b] by {
        if a == s.len() {
            assert(!s.contains(s[b]) || s[b] != e);
        } else if b == s.len() {
            assert(s[a] != e);
        }
    }
    s.lemma_push_to_set_commute(e);
}

/// The selected ids, each once, without `skip`, as a set.
proof fn lemma_ids_without_set(r: Seq<EntityId>, selected: Seq<(EntityId, bool)>, skip: Option<EntityId>)
    requires
        forall|e: EntityId| #[trigger] r.contains(e) <==> ids_of(selected).contains(e) && Some(e) != skip,
    ensures
        skip is None ==> r.to_set() == ids_of(selected),
        skip matches Some(s) ==> r.to_set() == ids_of(selected).remove(s),
{
    assert forall|x: EntityId| r.to_set().contains(x) <==> r.contains(x) by {}
    if skip is None {
        assert(r.to_set() =~= ids_of(selected));
    } else {
        assert(r.to_set() =~= ids_of(selected).remove(skip->0));
    }
}

/// The selection after a left click on the map (outside placement and target
/// modes): a non-owned entity is selected alone; with Ctrl an owned entity is
/// toggled, with Shift added, in both cases replacing a selection of
/// non-owned entities; a plain click selects it alone; a click on nothing
/// clears the selection unless Ctrl or Shift is held.
pub fn click_select(selected: &[(EntityId, bool)], clicked: Option<(EntityId, bool)>, ctrl: bool, shift: bool) -> (r: Vec<
    EntityId,
>)
    ensures
        r@.no_duplicates(),
        r@.to_set() == click_outcome(selected@, clicked, ctrl, shift),
{
    match clicked {
        None => {
            if ctrl || shift {
                let out = ids_without(selected, None);
                proof {
                    lemma_ids_without_set(out@, selected@, None);
                }
                out
            } else {
                let out: Vec<EntityId> = Vec::new();
                proof {
                    assert(out@.to_set() =~= Set::<EntityId>::empty());
                }
                out
            }
        },
        Some((e, owned)) => {
            let alone = vec![e];
            proof {
                assert(alone@ =~= seq![e]);
                lemma_single_to_set(e);
            }
            if !owned {
                return alone;
            }
            if !ctrl && !shift {
                return alone;
            }
            if any_non_owned(selected) {
                return alone;
            }
            let rest = ids_without(selected, Some(e));
            proof {
                lemma_ids_without_set(rest@, selected@, Some(e));
                assert(!rest@.contains(e));
                lemma_push_new(rest@, e);
                assert(ids_of(selected@).remove(e).insert(e) =~= ids_of(selected@).insert(e));
            }
            if ctrl {
                let all = ids_without(selected, None);
                proof {
                    lemma_ids_without_set(all@, selected@, None);
                }
                let mut was_selected = false;
                let mut k: usize = 0;
                while k < all.len()
                    invariant
                        0 <= k <= all@.len(),
                        was_selected == exists|j: int| 0 <= j < k && all@[j] == e,
                    decreases all@.len() - k,
                {
                    if all[k] == e {
                        was_selected = true;
                    }
                    k = k + 1;
                }
                proof {
                    assert(was_selected == all@.contains(e));
                    assert(all@.contains(e) <==> ids_of(selected@).contains(e));
                }
                if was_selected {
                    return rest;
                }
            }
            let mut out = rest;
            out.push(e);
            out
        },
    }
}

/// The best (lowest-ranked) tier among the candidates of a selection box.
pub open spec fn best_tier_of(tiers: Seq<SelectionTier>) -> Option<SelectionTier>
    decreases tiers.len(),
{
    if tiers.len() == 0 {
        None
    } else {
        match best_tier_of(tiers.drop_last()) {
            None => Some(tiers.last()),
            Some(t) => if tier_priority(tiers.last()) < tier_priority(t) {
                Some(tiers.last())
            } else {
                Some(t)
            },
        }
    }
}

/// The highest-priority tier present among a box's candidates.
pub fn best_tier(tiers: &[SelectionTier]) -> (r: Option<SelectionTier>)
    ensures
        r == best_tier_of(tiers@),
        r is None <==> tiers@.len() == 0,
        r matches Some(t) ==> tiers@.contains(t) && forall|i: int|
            0 <= i < tiers@.len() ==> tier_priority(t) <= tier_priority(#[trigger] tiers@[i]),
{
    let n = tiers.len();
    let mut best: Option<SelectionTier> = None;
    let mut i: usize = 0;
    while i < n
        invariant
            n == tiers@.len(),
            0 <= i <= n,
            best == best_tier_of(tiers@.subrange(0, i as int)),
            best is None <==> i == 0,
            best matches Some(t) ==> tiers@.subrange(0, i as int).contains(t) && forall|j: int|
                0 <= j < i ==> tier_priority(t) <= tier_priority(#[trigger] tiers@[j]),
        decreases n - i,
    {
        let t = tiers[i];
        let ghost prev = best;
        proof {
            assert(tiers@.subrange(0, i + 1).drop_last() =~= tiers@.subrange(0, i as int));
        }
        let rank_t: u8 = match t {
            SelectionTier::OwnUnits => 0,
            SelectionTier::OwnStructures => 1,
            SelectionTier::EnemyUnits => 2,
            SelectionTier::EnemyStructures => 3,
            SelectionTier::Neutrals => 4,
        };
        best = match best {
            None => Some(t),
            Some(b) => {
                let rank_b: u8 = match b {
                    SelectionTier::OwnUnits => 0,
                    SelectionTier::OwnStructures => 1,
                    SelectionTier::EnemyUnits => 2,
                    SelectionTier::EnemyStructures => 3,
                    SelectionTier::Neutrals => 4,
                };
                if rank_t < rank_b {
                    Some(t)
                } else {
                    Some(b)
                }
            },
        };
        proof {
            let sub = tiers@.subrange(0, i + 1);
            assert(sub[i as int] == t);
            if let Some(bb) = best {
                if bb == t {
                    assert(sub.contains(t));
                } else {
                    let pb = prev->0;
                    assert(tiers@.subrange(0, i as int).contains(pb));
                    let j = choose|j: int| 0 <= j < i && tiers@.subrange(0, i as int)[j] == pb;
                    assert(sub[j] == pb);
                }
            }
        }
        i = i + 1;
    }
    proof {
        assert(tiers@.subrange(0, n as int) =~= tiers@);
    }
    best
}

/// How a box selection changes the selection. `chosen` is what the box
/// picked from its best tier `new_tier`; `existing_tier` the tier of the
/// current selection. `None` keeps the selection.
pub open spec fn box_outcome(
    selected: Set<EntityId>,
    existing_tier: Option<SelectionTier>,
    new_tier: SelectionTier,
    chosen: Set<EntityId>,
    ctrl: bool,
) -> Option<Set<EntityId>> {
    if chosen.len() == 0 {
        None
    } else if !ctrl {
        Some(chosen)
    } else {
        match existing_tier {
            None => Some(selected.union(chosen)),
            Some(t) => if t != new_tier {
                None
            } else if t == SelectionTier::OwnUnits {
                Some(selected.union(chosen))
            } else {
                Some(chosen)
            },
        }
    }
}

/// Apply a box selection: without Ctrl it replaces the selection; with Ctrl
/// it adds own units to own units, replaces a single selection of the same
/// tier, selects into an empty selection, and does nothing across tiers.
/// Returns the new selection, or `None` to keep the current one.
pub fn box_select(
    selected: &[EntityId],
    existing_tier: Option<SelectionTier>,
    new_tier: SelectionTier,
    chosen: &[EntityId],
    ctrl: bool,
) -> (r: Option<Vec<EntityId>>)
    ensures
        match box_outcome(selected@.to_set(), existing_tier, new_tier, chosen@.to_set(), ctrl) {
            None => r is None,
            Some(s) => r matches Some(v) && v@.to_set() == s,
        },
{
    proof {
        if chosen@.len() > 0 {
            vstd::seq_lib::seq_to_set_is_finite(chosen@);
            assert(chosen@.to_set().contains(chosen@[0]));
            if chosen@.to_set().len() == 0 {
                chosen@.to_set().lemma_len0_is_empty();
            }
        } else {
            assert(chosen@.to_set() =~= Set::empty());
        }
    }
    if chosen.len() == 0 {
        return None;
    }
    let mut union_sel = false;
    if ctrl {
        match existing_tier {
            None => {
                union_sel = true;
            },
            Some(t) => {
                if t != new_tier {
                    return None;
                }
                if t == SelectionTier::OwnUnits {
                    union_sel = true;
                }
            },
        }
    }
    let mut out: Vec<EntityId> = Vec::new();
    if union_sel {
        let mut i: usize = 0;
        while i < selected.len()
            invariant
                0 <= i <= selected@.len(),
                out@ == selected@.subrange(0, i as int),
            decreases selected@.len() - i,
        {
            out.push(selected[i]);
            i = i + 1;
            proof {
                assert(out@ =~= selected@.subrange(0, i as int));
            }
        }
    }
    let ghost base = out@;
    let mut j: usize = 0;
    while j < chosen.len()
        invariant
            0 <= j <= chosen@.len(),
            out@ == base + chosen@.subrange(0, j as int),
        decreases chosen@.len() - j,
    {
        out.push(chosen[j]);
        j = j + 1;
        proof {
            assert(out@ =~= base + chosen@.subrange(0, j as int));
        }
    }
    proof {
        assert(chosen@.subrange(0, chosen@.len() as int) =~= chosen@);
        if union_sel {
            assert(base =~= selected@);
            assert((selected@ + chosen@).to_set() =~= selected@.to_set().union(chosen@.to_set())) by {
                assert forall|x: EntityId| (selected@ + chosen@).to_set().contains(x) <==> selected@.to_set().union(
                    chosen@.to_set(),
                ).contains(x) by {
                    if (selected@ + chosen@).contains(x) {
                        let k = choose|k: int| 0 <= k < (selected@ + chosen@).len() && (selected@ + chosen@)[k] == x;
                        if k >= selected@.len() {
                            assert(chosen@[k - selected@.len()] == x);
                        }
                    }
                    if chosen@.contains(x) {
                        let k = choose|k: int| 0 <= k < chosen@.len() && chosen@[k] == x;
                        assert((selected@ + chosen@)[selected@.len() + k] == x);
                    }
                    if selected@.contains(x) {
                        let k = choose|k: int| 0 <= k < selected@.len() && selected@[k] == x;
                        assert((selected@ + chosen@)[k] == x);
                    }
                }
            }
        } else {
            assert(base =~= Seq::<EntityId>::empty());
            assert(out@ =~= chosen@);
        }
    }
    Some(out)
}

/// The ids of the own units among box candidates, in order.
pub open spec fn own_unit_ids(candidates: Seq<(EntityId, SelectionTier)>) -> Seq<EntityId>
    decreases candidates.len(),
{
    if candidates.len() == 0 {
        Seq::empty()
    } else {
        let rest = own_unit_ids(candidates.drop_last());
        if candidates.last().1 == SelectionTier::OwnUnits {
            rest.push(candidates.last().0)
        } else {
            rest
        }
    }
}

/// The tiers of box candidates.
pub open spec fn candidate_tiers(candidates: Seq<(EntityId, SelectionTier)>) -> Seq<SelectionTier> {
    candidates.map_values(|c: (EntityId, SelectionTier)| c.1)
}

/// What a selection box picks from its candidates (each with its tier): all
/// own units when there are any; otherwise the one entity of the best tier
/// present that is closest to the box's center, which the caller gives as
/// the index `closest` (measured on screen). Returns the tier picked and the
/// entities, or `None` for an empty box.
pub fn box_choice(candidates: &[(EntityId, SelectionTier)], closest: usize) -> (r: Option<(SelectionTier, Vec<EntityId>)>)
    requires
        ({
            let best = best_tier_of(candidate_tiers(candidates@));
            best is Some && best->0 != SelectionTier::OwnUnits ==> closest < candidates@.len()
                && candidates@[closest as int].1 == best->0
        }),
    ensures
        candidates@.len() == 0 ==> r is None,
        ({
            let best = best_tier_of(candidate_tiers(candidates@));
            let picked = r->0;
            let tier = picked.0;
            let ids = picked.1;
            &&& best is None ==> r is None
            &&& best == Some(SelectionTier::OwnUnits) ==> r is Some && tier == SelectionTier::OwnUnits && ids@
                == own_unit_ids(candidates@)
            &&& best is Some && best->0 != SelectionTier::OwnUnits ==> r is Some && tier == best->0 && ids@
                == seq![candidates@[closest as int].0]
            &&& r is Some ==> forall|i: int|
                0 <= i < candidates@.len() ==> tier_priority(tier) <= tier_priority(#[trigger] candidates@[i].1)
        }),
{
    let n = candidates.len();
    let mut tiers: Vec<SelectionTier> = Vec::new();
    let mut i: usize = 0;
    while i < n
        invariant
            n == candidates@.len(),
            0 <= i <= n,
            tiers@ == candidate_tiers(candidates@.subrange(0, i as int)),
        decreases n - i,
    {
        tiers.push(candidates[i].1);
        i = i + 1;
        proof {
            assert(tiers@ =~= candidate_tiers(candidates@.subrange(0, i as int)));
        }
    }
    proof {
        assert(candidates@.subrange(0, n as int) =~= candidates@);
    }
    let best = match best_tier(&tiers) {
        Some(t) => t,
        None => {
            return None;
        },
    };
    proof {
        assert forall|i: int| 0 <= i < candidates@.len() implies tier_priority(best) <= tier_priority(
            #[trigger] candidates@[i].1,
        ) by {
            assert(tiers@[i] == candidates@[i].1);
        }
    }
    match best {
        SelectionTier::OwnUnits => {
            let mut out: Vec<EntityId> = Vec::new();
            let mut k: usize = 0;
            while k < n
                invariant
                    n == candidates@.len(),
                    0 <= k <= n,
                    out@ == own_unit_ids(candidates@.subrange(0, k as int)),
                decreases n - k,
            {
                let (e, t) = candidates[k];
                proof {
                    assert(candidates@.subrange(0, k + 1).drop_last() =~= candidates@.subrange(0, k as int));
                }
                if t == SelectionTier::OwnUnits {
                    out.push(e);
                }
                k = k + 1;
            }
            proof {
                assert(candidates@.subrange(0, n as int) =~= candidates@);
            }
            Some((SelectionTier::OwnUnits, out))
        },
        _ => {
            let mut v: Vec<EntityId> = Vec::new();
            v.push(candidates[closest].0);
            proof {
                assert(v@ =~= seq![candidates@[closest as int].0]);
            }
            Some((best, v))
        },
    }
}

// === Control groups ===

/// Number of control groups.
pub const CONTROL_GROUP_COUNT: usize = 10;

/// Control group of a digit key: keys one to nine give groups 0 to 8, key
/// zero gives group 9.
pub fn digit_key_to_group_index(digit: u8) -> (r: Option<usize>)
    ensures
        r == if digit == 0 {
            Some(9usize)
        } else if digit <= 9 {
            Some((digit - 1) as usize)
        } else {
            None
        },
{
    if digit == 0 {
        Some(9)
    } else if digit <= 9 {
        Some((digit - 1) as usize)
    } else {
        None
    }
}

/// What a digit key does with its control group.
#[derive(Clone, Copy, Debug, PartialEq, Eq, Structural)]
pub enum GroupAction {
    Ignore,
    /// Ctrl+Shift: add the selection to the group.
    Add,
    /// Ctrl: make the selection the group.
    Assign,
    /// No modifier: select the group.
    Recall,
}

/// The control group action of a digit key under the held modifiers; Alt
/// suppresses it.
pub fn group_action(ctrl: bool, shift: bool, alt: bool) -> (r: GroupAction)
    ensures
        r == if alt {
            GroupAction::Ignore
        } else if ctrl && shift {
            GroupAction::Add
        } else if ctrl {
            GroupAction::Assign
        } else {
            GroupAction::Recall
        },
{
    if alt {
        GroupAction::Ignore
    } else if ctrl && shift {
        GroupAction::Add
    } else if ctrl {
        GroupAction::Assign
    } else {
        GroupAction::Recall
    }
}

/// The selected entities that `local_player` owns, in order.
pub open spec fn owned_by(selected: Seq<(EntityId, Owner)>, local_player: u8) -> Seq<EntityId>
    decreases selected.len(),
{
    if selected.len() == 0 {
        Seq::empty()
    } else {
        let rest = owned_by(selected.drop_last(), local_player);
        if selected.last().1.0 == Some(local_player) {
            rest.push(selected.last().0)
        } else {
            rest
        }
    }
}

/// The group after adding the owned selected entities it lacks, in order.
pub open spec fn group_after_add(group: Seq<EntityId>, selected: Seq<(EntityId, Owner)>, local_player: u8) -> Seq<EntityId>
    decreases selected.len(),
{
    if selected.len() == 0 {
        group
    } else {
        let g = group_after_add(group, selected.drop_last(), local_player);
        let (e, o) = selected.last();
        if o.0 == Some(local_player) && !g.contains(e) {
            g.push(e)
        } else {
            g
        }
    }
}

/// Ten control groups of entities.
#[derive(Clone, Debug)]
pub struct ControlGroups {
    pub groups: Vec<Vec<EntityId>>,
}

impl ControlGroups {
    /// Ten empty groups.
    pub fn new() -> (r: Self)
        ensures
            r.groups@.len() == CONTROL_GROUP_COUNT,
            forall|i: int| 0 <= i < CONTROL_GROUP_COUNT ==> (#[trigger] r.groups@[i])@.len() == 0,
    {
        let mut groups: Vec<Vec<EntityId>> = Vec::new();
        let mut i: usize = 0;
        while i < CONTROL_GROUP_COUNT
            invariant
                0 <= i <= CONTROL_GROUP_COUNT,
                groups@.len() == i,
                forall|k: int| 0 <= k < i ==> (#[trigger] groups@[k])@.len() == 0,
            decreases CONTROL_GROUP_COUNT - i,
        {
            groups.push(Vec::new());
            i = i + 1;
        }
        ControlGroups { groups }
    }

    /// Add the selected entities the local player owns to group `idx`,
    /// skipping those already in it.
    pub fn add_selection(&mut self, idx: usize, selected: &[(EntityId, Owner)], local_player: u8)
        requires
            idx < old(self).groups@.len(),
        ensures
            final(self).groups@.len() == old(self).groups@.len(),
            final(self).groups@[idx as int]@ == group_after_add(old(self).groups@[idx as int]@, selected@, local_player),
            forall|i: int| 0 <= i < old(self).groups@.len() && i != idx ==> #[trigger] final(self).groups@[i] == old(self).groups@[i],
    {
        let mut group = self.groups.remove(idx);
        let ghost g0 = group@;
        let n = selected.len();
        let mut i: usize = 0;
        while i < n
            invariant
                n == selected@.len(),
                0 <= i <= n,
                group@ == group_after_add(g0, selected@.subrange(0, i as int), local_player),
            decreases n - i,
        {
            let (e, o) = selected[i];
            proof {
                assert(selected@.subrange(0, i + 1).drop_last() =~= selected@.subrange(0, i as int));
            }
            if o.0 == Some(local_player) {
                let mut present = false;
                let mut k: usize = 0;
                while k < group.len()
                    invariant
                        0 <= k <= group@.len(),
                        present == exists|j: int| 0 <= j < k && group@[j] == e,
                    decreases group@.len() - k,
                {
                    if group[k] == e {
                        present = true;
                    }
                    k = k + 1;
                }
                if !present {
                    group.push(e);
                }
            }
            i = i + 1;
        }
        proof {
            assert(selected@.subrange(0, n as int) =~= selected@);
        }
        self.groups.insert(idx, group);
        proof {
            assert forall|i: int| 0 <= i < old(self).groups@.len() && i != idx implies #[trigger] self.groups@[i] == old(self).groups@[i] by {}
        }
    }

    /// Make group `idx` the selected entities the local player owns, unless
    /// there are none.
    pub fn assign_selection(&mut self, idx: usize, selected: &[(EntityId, Owner)], local_player: u8)
        requires
            idx < old(self).groups@.len(),
        ensures
            final(self).groups@.len() == old(self).groups@.len(),
            owned_by(selected@, local_player).len() > 0 ==> final(self).groups@[idx as int]@ == owned_by(selected@, local_player),
            owned_by(selected@, local_player).len() == 0 ==> final(self).groups@[idx as int] == old(self).groups@[idx as int],
            forall|i: int| 0 <= i < old(self).groups@.len() && i != idx ==> #[trigger] final(self).groups@[i] == old(self).groups@[i],
    {
        let n = selected.len();
        let mut owned: Vec<EntityId> = Vec::new();
        let mut i: usize = 0;
        while i < n
            invariant
                n == selected@.len(),
                0 <= i <= n,
                owned@ == owned_by(selected@.subrange(0, i as int), local_player),
            decreases n - i,
        {
            proof {
                assert(selected@.subrange(0, i + 1).drop_last() =~= selected@.subrange(0, i as int));
            }
            if selected[i].1.0 == Some(local_player) {
                owned.push(selected[i].0);
            }
            i = i + 1;
        }
        proof {
            assert(selected@.subrange(0, n as int) =~= selected@);
        }
        if owned.len() > 0 {
            self.groups.remove(idx);
            self.groups.insert(idx, owned);
            proof {
                assert forall|i: int| 0 <= i < old(self).groups@.len() && i != idx implies #[trigger] self.groups@[i] == old(self).groups@[i] by {}
            }
        }
    }

    /// Drop the entities of group `idx` that no longer exist (`alive` lists
    /// those that do) and return the group.
    pub fn recall(&mut self, idx: usize, alive: &[EntityId]) -> (r: Vec<EntityId>)
        requires
            idx < old(self).groups@.len(),
        ensures
            final(self).groups@.len() == old(self).groups@.len(),
            final(self).groups@[idx as int]@ == old(self).groups@[idx as int]@.filter(|e: EntityId| alive@.contains(e)),
            r@ == final(self).groups@[idx as int]@,
            forall|i: int| 0 <= i < old(self).groups@.len() && i != idx ==> #[trigger] final(self).groups@[i] == old(self).groups@[i],
    {
        let group = self.groups.remove(idx);
        let ghost pred = |e: EntityId| alive@.contains(e);
        let n = group.len();
        let mut kept: Vec<EntityId> = Vec::new();
        let mut i: usize = 0;
        while i < n
            invariant
                n == group@.len(),
                0 <= i <= n,
                pred == (|e: EntityId| alive@.contains(e)),
                kept@ == group@.subrange(0, i as int).filter(pred),
            decreases n - i,
        {
            let e = group[i];
            let mut found = false;
            let mut k: usize = 0;
            while k < alive.len()
                invariant
                    0 <= k <= alive@.len(),
                    found == exists|j: int| 0 <= j < k && alive@[j] == e,
                decreases alive@.len() - k,
            {
                if alive[k] == e {
                    found = true;
                }
                k = k + 1;
            }
            proof {
                let s = group@.subrange(0, i + 1);
                assert(s.drop_last() =~= group@.subrange(0, i as int));
                assert(s.last() == e);
                assert(found == alive@.contains(e));
                assert(s =~= group@.subrange(0, i as int).push(e));
                group@.subrange(0, i as int).lemma_filter_push(e, pred);
            }
            if found {
                kept.push(e);
                proof {
                    assert(kept@ =~= group@.subrange(0, i + 1).filter(pred));
                }
            } else {
                proof {
                    assert(kept@ =~= group@.subrange(0, i + 1).filter(pred));
                }
            }
            i = i + 1;
        }
        proof {
            assert(group@.subrange(0, n as int) =~= group@);
        }
        let copy = kept.clone();
        self.groups.insert(idx, kept);
        proof {
            assert forall|i: int| 0 <= i < old(self).groups@.len() && i != idx implies #[trigger] self.groups@[i] == old(self).groups@[i] by {}
        }
        copy
    }
}

/// Adding a selection to a group never leaves a duplicate in it.
pub proof fn law_group_add_no_duplicates(group: Seq<EntityId>, selected: Seq<(EntityId, Owner)>, local_player: u8)
    requires
        group.no_duplicates(),
    ensures
        group_after_add(group, selected, local_player).no_duplicates(),
    decreases selected.len(),
{
    if selected.len() > 0 {
        law_group_add_no_duplicates(group, selected.drop_last(), local_player);
        let g = group_after_add(group, selected.drop_last(), local_player);
        let (e, o) = selected.last();
        if o.0 == Some(local_player) && !g.contains(e) {
            assert forall|a: int, b: int| 0 <= a < g.len() + 1 && 0 <= b < g.len() + 1 && a != b implies g.push(e)[a]
                != g.push(e)[b] by {
                if a == g.len() {
                    assert(!g.contains(g[b]) || g[b] != e);
                } else if b == g.len() {
                    assert(g[a] != e);
                }
            }
        }
    }
}

// === Interface validity ===

/// The components of one member of the active selection group.
#[derive(Clone, Copy, Debug, PartialEq, Eq, Structural)]
pub struct MemberState {
    /// Has Deployment Center state; with whether it is constructing.
    pub deployment_center: Option<bool>,
    pub barracks: bool,
    pub extraction_facility: bool,
    pub supply_tower: bool,
    pub headquarters: bool,
    pub tunnel: bool,
}

/// Some member satisfies the predicate.
pub open spec fn any_member(members: Seq<MemberState>, p: spec_fn(MemberState) -> bool) -> bool {
    exists|i: int| 0 <= i < members.len() && p(#[trigger] members[i])
}

/// Whether the interface state still fits the active group (`active_type`,
/// with its members, if any group is active).
pub open spec fn interface_valid(
    state: ObjectInterfaceState,
    active_type: Option<ObjectEnum>,
    members: Option<Seq<MemberState>>,
) -> bool {
    let has = |p: spec_fn(MemberState) -> bool| match members {
        Some(m) => any_member(m, p),
        None => false,
    };
    match state {
        ObjectInterfaceState::Default => true,
        ObjectInterfaceState::AwaitingTarget(_) => match members {
            Some(m) => m.len() > 0,
            None => false,
        },
        ObjectInterfaceState::AgentMenu(_) => active_type == Some(ObjectEnum::SyndicateAgent),
        ObjectInterfaceState::CultsRecruitMenu => active_type == Some(ObjectEnum::CultsRecruit),
        ObjectInterfaceState::StructureMenu(sm) => match sm {
            StructureMenuState::DcIdle
            | StructureMenuState::DcBuildMenu
            | StructureMenuState::DcReadyToPlace
            | StructureMenuState::DcAwaitingPlacement => active_type == Some(ObjectEnum::DeploymentCenter)
                && has(|m: MemberState| m.deployment_center is Some),
            StructureMenuState::DcConstructing => active_type == Some(ObjectEnum::DeploymentCenter)
                && has(|m: MemberState| m.deployment_center == Some(true)),
            StructureMenuState::BarracksMenu => active_type == Some(ObjectEnum::Barracks)
                && has(|m: MemberState| m.barracks),
            StructureMenuState::EfIdle | StructureMenuState::EfAwaitingPlacement => active_type == Some(
                ObjectEnum::ExtractionFacility,
            ) && has(|m: MemberState| m.extraction_facility),
            StructureMenuState::SupplyTowerMenu => active_type == Some(ObjectEnum::SupplyTower)
                && has(|m: MemberState| m.supply_tower),
            StructureMenuState::HeadquartersMenu => active_type == Some(ObjectEnum::Headquarters)
                && has(|m: MemberState| m.headquarters),
            StructureMenuState::TunnelIdle
            | StructureMenuState::TunnelExpandMenu
            | StructureMenuState::TunnelEjectMenu
            | StructureMenuState::TunnelAwaitingPlacement => active_type == Some(ObjectEnum::Tunnel)
                && has(|m: MemberState| m.tunnel),
            StructureMenuState::RecruitmentCenterMenu => active_type == Some(ObjectEnum::RecruitmentCenter),
            StructureMenuState::ArmoryMenu => active_type == Some(ObjectEnum::CultsArmory),
            StructureMenuState::Inert => match active_type {
                Some(t) => !unit_kind(t) && !resource_kind(t),
                None => false,
            },
        },
    }
}

fn any_member_with(members: &[MemberState], kind: u8) -> (r: bool)
    requires
        kind < 7,
    ensures
        r == any_member(
            members@,
            |m: MemberState|
                if kind == 0 {
                    m.deployment_center is Some
                } else if kind == 1 {
                    m.deployment_center == Some(true)
                } else if kind == 2 {
                    m.barracks
                } else if kind == 3 {
                    m.extraction_facility
                } else if kind == 4 {
                    m.supply_tower
                } else if kind == 5 {
                    m.headquarters
                } else {
                    m.tunnel
                },
        ),
{
    let ghost p = |m: MemberState|
        if kind == 0 {
            m.deployment_center is Some
        } else if kind == 1 {
            m.deployment_center == Some(true)
        } else if kind == 2 {
            m.barracks
        } else if kind == 3 {
            m.extraction_facility
        } else if kind == 4 {
            m.supply_tower
        } else if kind == 5 {
            m.headquarters
        } else {
            m.tunnel
        };
    let n = members.len();
    let mut i: usize = 0;
    while i < n
        invariant
            n == members@.len(),
            0 <= i <= n,
            kind < 7,
            p == (|m: MemberState|
                if kind == 0 {
                    m.deployment_center is Some
                } else if kind == 1 {
                    m.deployment_center == Some(true)
                } else if kind == 2 {
                    m.barracks
                } else if kind == 3 {
                    m.extraction_facility
                } else if kind == 4 {
                    m.supply_tower
                } else if kind == 5 {
                    m.headquarters
                } else {
                    m.tunnel
                }),
            forall|j: int| 0 <= j < i ==> !p(#[trigger] members@[j]),
        decreases n - i,
    {
        let m = members[i];
        let hit = if kind == 0 {
            m.deployment_center.is_some()
        } else if kind == 1 {
            m.deployment_center == Some(true)
        } else if kind == 2 {
            m.barracks
        } else if kind == 3 {
            m.extraction_facility
        } else if kind == 4 {
            m.supply_tower
        } else if kind == 5 {
            m.headquarters
        } else {
            m.tunnel
        };
        if hit {
            proof {
                assert(p(members@[i as int]));
            }
            return true;
        }
        i = i + 1;
    }
    false
}

/// Whether the interface state still fits the active selection group; when
/// it does not, the interface falls back to its default state.
pub fn interface_state_is_valid(
    state: &ObjectInterfaceState,
    active_type: Option<ObjectEnum>,
    members: Option<&[MemberState]>,
) -> (r: bool)
    ensures
        r == interface_valid(*state, active_type, match members {
            Some(m) => Some(m@),
            None => None,
        }),
{
    let kind: u8 = match state {
        ObjectInterfaceState::Default => {
            return true;
        },
        ObjectInterfaceState::AwaitingTarget(_) => {
            return match members {
                Some(m) => m.len() > 0,
                None => false,
            };
        },
        ObjectInterfaceState::AgentMenu(_) => {
            return active_type == Some(ObjectEnum::SyndicateAgent);
        },
        ObjectInterfaceState::CultsRecruitMenu => {
            return active_type == Some(ObjectEnum::CultsRecruit);
        },
        ObjectInterfaceState::StructureMenu(sm) => match sm {
            StructureMenuState::RecruitmentCenterMenu => {
                return active_type == Some(ObjectEnum::RecruitmentCenter);
            },
            StructureMenuState::ArmoryMenu => {
                return active_type == Some(ObjectEnum::CultsArmory);
            },
            StructureMenuState::Inert => {
                return match active_type {
                    Some(t) => t.is_structure(),
                    None => false,
                };
            },
            StructureMenuState::DcIdle
            | StructureMenuState::DcBuildMenu
            | StructureMenuState::DcReadyToPlace
            | StructureMenuState::DcAwaitingPlacement => 0,
            StructureMenuState::DcConstructing => 1,
            StructureMenuState::BarracksMenu => 2,
            StructureMenuState::EfIdle | StructureMenuState::EfAwaitingPlacement => 3,
            StructureMenuState::SupplyTowerMenu => 4,
            StructureMenuState::HeadquartersMenu => 5,
            _ => 6,
        },
    };
    let wanted = if kind <= 1 {
        ObjectEnum::DeploymentCenter
    } else if kind == 2 {
        ObjectEnum::Barracks
    } else if kind == 3 {
        ObjectEnum::ExtractionFacility
    } else if kind == 4 {
        ObjectEnum::SupplyTower
    } else if kind == 5 {
        ObjectEnum::Headquarters
    } else {
        ObjectEnum::Tunnel
    };
    if active_type != Some(wanted) {
        return false;
    }
    match members {
        Some(m) => any_member_with(m, kind),
        None => false,
    }
}

/// What the interface saw of the selection last frame.
#[derive(Clone, Debug)]
pub struct PreviousSelectionSnapshot {
    pub initialized: bool,
    pub active_group_index: Option<usize>,
    pub group_types: Vec<ObjectEnum>,
}

impl Default for PreviousSelectionSnapshot {
    fn default() -> (r: Self)
        ensures
            !r.initialized,
            r.active_group_index is None,
            r.group_types@.len() == 0,
    {
        PreviousSelectionSnapshot { initialized: false, active_group_index: None, group_types: Vec::new() }
    }
}

impl PreviousSelectionSnapshot {
    /// Record this frame's selection; returns whether it differs from the one
    /// recorded before (the interface then resets to its default state).
    pub fn update(&mut self, active_group_index: Option<usize>, group_types: &[ObjectEnum]) -> (r: bool)
        ensures
            r == (old(self).initialized && (old(self).active_group_index != active_group_index
                || old(self).group_types@ != group_types@)),
            final(self).initialized,
            final(self).active_group_index == active_group_index,
            final(self).group_types@ == group_types@,
    {
        let mut same = self.group_types.len() == group_types.len();
        let mut i: usize = 0;
        while same && i < group_types.len()
            invariant
                same ==> self.group_types@.len() == group_types@.len(),
                0 <= i <= group_types@.len(),
                same ==> forall|j: int| 0 <= j < i ==> self.group_types@[j] == group_types@[j],
                !same ==> self.group_types@ != group_types@,
            decreases group_types@.len() - i,
        {
            if self.group_types[i] != group_types[i] {
                same = false;
            }
            i = i + 1;
        }
        proof {
            if same {
                assert(self.group_types@ =~= group_types@);
            }
        }
        let changed = self.initialized && (self.active_group_index != active_group_index || !same);
        let mut copy: Vec<ObjectEnum> = Vec::new();
        let mut k: usize = 0;
        while k < group_types.len()
            invariant
                0 <= k <= group_types@.len(),
                copy@ == group_types@.subrange(0, k as int),
            decreases group_types@.len() - k,
        {
            copy.push(group_types[k]);
            k = k + 1;
            proof {
                assert(copy@ =~= group_types@.subrange(0, k as int));
            }
        }
        proof {
            assert(copy@ =~= group_types@);
        }
        self.initialized = true;
        self.active_group_index = active_group_index;
        self.group_types = copy;
        changed
    }
}

} // verus!
