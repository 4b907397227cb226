//! The decisions of one tick of the reader: where the game's globals and
//! entity slots are, which memory patches to apply to the local player,
//! which entities count, which may be aimed at, and when to aim.
use vstd::prelude::*;
use crate::memory::{MemoryWrite, i32_le_bytes, i32_write};
use crate::offset;
use crate::state::Features;

verus! {

/// Ammunition the local player is kept at when infinite ammo is on.
pub const INF_AMMO_VALUE: i32 = 420;
/// Health the local player is kept at when infinite health is on.
pub const INF_HP_VALUE: i32 = 67;
/// Recoil the local player is kept at when recoil is off.
pub const NO_RECOIL_VALUE: i32 = 0;
/// Highest health a live player can have; more marks a stale record.
pub const MAX_HEALTH: i32 = 1000;

/// The address of the game global at `offset` from the module base.
pub fn module_field(module_base: usize, offset: u32) -> (address: usize)
    requires
        module_base + offset <= usize::MAX,
    ensures
        address == module_base + offset,
{
    module_base + offset as usize
}

/// The address of slot `index` of the entity list: slots are 4-byte
/// pointers.
pub fn entity_slot_address(list_base: usize, index: u32) -> (address: usize)
    requires
        list_base + index * 4 <= usize::MAX,
    ensures
        address == list_base + index * 4,
{
    list_base + (index as usize) * offset::POINTER_SIZE
}

/// The entity-list slots a tick scans: none while the list pointer is null,
/// else slots 1 up to `player_count - 1` in order (slot 0 holds no other
/// player).
pub fn scan_slots(entity_list_base: usize, player_count: u32) -> (slots: Vec<u32>)
    ensures
        entity_list_base == 0 ==> slots@.len() == 0,
        entity_list_base != 0 ==> slots@.len() == (if player_count > 1 { player_count - 1 } else { 0 }),
        forall|i: int| 0 <= i < slots@.len() ==> #[trigger] slots@[i] == i + 1,
{
    let mut slots: Vec<u32> = Vec::new();
    if entity_list_base != 0 {
        let mut i: u32 = 1;
        while i < player_count
            invariant
                1 <= i,
                player_count > 1 ==> i <= player_count,
                player_count <= 1 ==> i == 1,
                slots@.len() == i - 1,
                forall|k: int| 0 <= k < slots@.len() ==> #[trigger] slots@[k] == k + 1,
            decreases player_count - i,
        {
            slots.push(i);
            i = i + 1;
        }
    }
    slots
}

/// The patches to the local player record at `local_player`, in the order
/// they are written: ammunition, then health, then recoil, each only when
/// its switch is on.
pub open spec fn patch_plan(features: Features, local_player: int) -> Seq<(int, i32)> {
    (if features.inf_ammo {
        seq![(local_player + offset::ENTITY_AMMO, INF_AMMO_VALUE)]
    } else {
        Seq::empty()
    }) + (if features.inf_hp {
        seq![(local_player + offset::ENTITY_HEALTH, INF_HP_VALUE)]
    } else {
        Seq::empty()
    }) + (if features.no_recoil {
        seq![(local_player + offset::LOCAL_RECOIL, NO_RECOIL_VALUE)]
    } else {
        Seq::empty()
    })
}

/// The memory writes that keep the local player at `local_player` patched
/// as the switches ask.
pub fn misc_writes(features: &Features, local_player: usize) -> (writes: Vec<MemoryWrite>)
    requires
        features.inf_ammo ==> local_player + offset::ENTITY_AMMO <= usize::MAX,
        features.inf_hp ==> local_player + offset::ENTITY_HEALTH <= usize::MAX,
        features.no_recoil ==> local_player + offset::LOCAL_RECOIL <= usize::MAX,
    ensures
        writes@.len() == patch_plan(*features, local_player as int).len(),
        forall|i: int|
            0 <= i < writes@.len() ==> {
                &&& #[trigger] writes@[i].address == patch_plan(*features, local_player as int)[i].0
                &&& writes@[i].bytes@ == i32_le_bytes(patch_plan(*features, local_player as int)[i].1)
            },
{
    let ghost plan = patch_plan(*features, local_player as int);
    let ghost ammo: Seq<(int, i32)> = if features.inf_ammo {
        seq![(local_player + offset::ENTITY_AMMO, INF_AMMO_VALUE)]
    } else {
        Seq::empty()
    };
    let ghost hp: Seq<(int, i32)> = if features.inf_hp {
        seq![(local_player + offset::ENTITY_HEALTH, INF_HP_VALUE)]
    } else {
        Seq::empty()
    };
    let ghost recoil: Seq<(int, i32)> = if features.no_recoil {
        seq![(local_player + offset::LOCAL_RECOIL, NO_RECOIL_VALUE)]
    } else {
        Seq::empty()
    };
    assert(plan == ammo + hp + recoil);
    let mut writes: Vec<MemoryWrite> = Vec::new();
    if features.inf_ammo {
        writes.push(i32_write(local_player + offset::ENTITY_AMMO as usize, INF_AMMO_VALUE));
    }
    assert(writes@.len() == ammo.len());
    assert(forall|i: int| 0 <= i < writes@.len() ==> {
        &&& #[trigger] writes@[i].address == ammo[i].0
        &&& writes@[i].bytes@ == i32_le_bytes(ammo[i].1)
    });
    if features.inf_hp {
        writes.push(i32_write(local_player + offset::ENTITY_HEALTH as usize, INF_HP_VALUE));
    }
    assert(writes@.len() == (ammo + hp).len());
    assert(forall|i: int| 0 <= i < writes@.len() ==> {
        &&& #[trigger] writes@[i].address == (ammo + hp)[i].0
        &&& writes@[i].bytes@ == i32_le_bytes((ammo + hp)[i].1)
    });
    if features.no_recoil {
        writes.push(i32_write(local_player + offset::LOCAL_RECOIL as usize, NO_RECOIL_VALUE));
    }
    assert(writes@.len() == (ammo + hp + recoil).len());
    writes
}

/// Whether a health reading belongs to a live player: above zero and at
/// most `MAX_HEALTH`.
pub fn is_live_health(health: i32) -> (live: bool)
    ensures
        live <==> 0 < health <= MAX_HEALTH,
{
    !(health <= 0 || health > MAX_HEALTH)
}

/// What one tick read about the entity in slot `slot` of the list.
#[derive(Clone, Copy, PartialEq, Eq, Debug)]
pub struct EntityReading {
    pub slot: u32,
    pub pointer: u32,
    pub health: i32,
    pub team: i32,
    pub last_vis_frame: u32,
}

/// What the tick does with an entity.
#[derive(Clone, Copy, PartialEq, Eq, Debug)]
pub struct EntityPlan {
    /// The slot holds a live player.
    pub counted: bool,
    /// The player is on another team than the local player.
    pub is_enemy: bool,
    /// The player may be aimed at.
    pub aim_candidate: bool,
    /// A box is drawn around the player.
    pub draw_box: bool,
    /// The player's last-visible frame is the one shown for debugging.
    pub reports_visibility: bool,
}

/// Whether the visibility check rules an entity out: it is on and the entity
/// was last seen before the current frame.
pub open spec fn hidden_by_visibility_check(features: Features, last_vis_frame: u32, current_frame: u32) -> bool {
    features.aimbot_vis_check && last_vis_frame < current_frame
}

/// The plan for an entity: a slot counts when it holds a non-null pointer to
/// a live player; an enemy within aiming range may be aimed at when the
/// aimbot is on and the visibility check does not rule it out; a box is
/// drawn around every counted player when ESP is on; slot 1's visibility is
/// reported when it counts.
pub open spec fn spec_plan_entity(
    features: Features,
    reading: EntityReading,
    local_team: i32,
    current_frame: u32,
    within_range: bool,
) -> EntityPlan {
    let counted = reading.pointer != 0 && 0 < reading.health <= MAX_HEALTH;
    let is_enemy = reading.team != local_team;
    EntityPlan {
        counted,
        is_enemy,
        aim_candidate: counted && features.aimbot_enabled && is_enemy && within_range
            && !hidden_by_visibility_check(features, reading.last_vis_frame, current_frame),
        draw_box: counted && features.esp_enabled,
        reports_visibility: counted && reading.slot == 1,
    }
}

/// Decides what the tick does with one entity. `within_range` tells whether
/// the entity's head is within the aimbot's maximum distance of the local
/// player's.
pub fn plan_entity(
    features: &Features,
    reading: &EntityReading,
    local_team: i32,
    current_frame: u32,
    within_range: bool,
) -> (plan: EntityPlan)
    ensures
        plan == spec_plan_entity(*features, *reading, local_team, current_frame, within_range),
{
    let counted = reading.pointer != 0 && is_live_health(reading.health);
    let is_enemy = reading.team != local_team;
    let mut can_target = true;
    if features.aimbot_vis_check {
        if reading.last_vis_frame < current_frame {
            can_target = false;
        }
    }
    EntityPlan {
        counted,
        is_enemy,
        aim_candidate: counted && features.aimbot_enabled && is_enemy && within_range && can_target,
        draw_box: counted && features.esp_enabled,
        reports_visibility: counted && reading.slot == 1,
    }
}

/// Only counted players are aimed at or boxed, and only enemies are aimed
/// at: the aimbot and ESP never act on an empty slot or a dead or stale
/// record, and never aim at a team mate.
pub proof fn lemma_plan_acts_on_live_players(
    features: Features,
    reading: EntityReading,
    local_team: i32,
    current_frame: u32,
    within_range: bool,
)
    ensures
        ({
            let plan = spec_plan_entity(features, reading, local_team, current_frame, within_range);
            &&& (plan.aim_candidate || plan.draw_box || plan.reports_visibility) ==> {
                &&& reading.pointer != 0
                &&& 0 < reading.health <= MAX_HEALTH
            }
            &&& plan.aim_candidate ==> reading.team != local_team && features.aimbot_enabled
            &&& plan.aim_candidate && features.aimbot_vis_check ==> reading.last_vis_frame >= current_frame
        }),
{
}

/// Which players the tick acts on, in terms of the reading alone: a slot
/// counts exactly when its pointer is non-null and its health is in
/// 1..=1000; an entity is an enemy exactly when its team differs from the
/// local player's; every counted player gets a box whenever ESP is on,
/// whatever its team; only slot 1 reports visibility; and a counted enemy in
/// range is aimed at exactly when the aimbot is on and, with the visibility
/// check on, it was seen in the current frame or later.
pub proof fn lemma_plan_entity_rules(
    features: Features,
    reading: EntityReading,
    local_team: i32,
    current_frame: u32,
    within_range: bool,
)
    ensures
        ({
            let plan = spec_plan_entity(features, reading, local_team, current_frame, within_range);
            let live = reading.pointer != 0 && 0 < reading.health && reading.health <= 1000;
            &&& plan.counted == live
            &&& plan.is_enemy == (reading.team != local_team)
            &&& plan.draw_box == (live && features.esp_enabled)
            &&& plan.reports_visibility == (live && reading.slot == 1)
            &&& plan.aim_candidate == (live && features.aimbot_enabled && reading.team != local_team
                && within_range && (!features.aimbot_vis_check || reading.last_vis_frame >= current_frame))
        }),
{
}

/// Teams decide only whom the aimbot may target: whether a slot counts, gets
/// a box or reports visibility is the same whatever the entity's and the
/// local player's teams, and whether the aimbot considers it is the same
/// for every pair of different teams.
pub proof fn lemma_plan_team_blind_except_aim(
    features: Features,
    reading: EntityReading,
    team: i32,
    local_team: i32,
    other_local_team: i32,
    current_frame: u32,
    within_range: bool,
)
    ensures
        ({
            let a = spec_plan_entity(features, reading, local_team, current_frame, within_range);
            let b = spec_plan_entity(features, EntityReading { team, ..reading }, other_local_team, current_frame, within_range);
            &&& a.counted == b.counted
            &&& a.draw_box == b.draw_box
            &&& a.reports_visibility == b.reports_visibility
            &&& (reading.team != local_team && team != other_local_team) ==> {
                &&& a.is_enemy && b.is_enemy
                &&& a.aim_candidate == b.aim_candidate
            }
        }),
{
}

/// Each switch brings its own patch, independently of the others: a patch
/// of ammunition to 420, of health to 67 or of recoil to 0 at the local
/// player's field is planned exactly when its switch is on, there is one
/// patch per switch that is on, and ammunition (when on) comes first.
pub proof fn lemma_patch_plan_switches(features: Features, local_player: int)
    ensures
        ({
            let plan = patch_plan(features, local_player);
            &&& features.inf_ammo <==> plan.contains((local_player + 0x140, 420i32))
            &&& features.inf_hp <==> plan.contains((local_player + 0xEC, 67i32))
            &&& features.no_recoil <==> plan.contains((local_player + 0x40, 0i32))
            &&& plan.len() == (if features.inf_ammo { 1int } else { 0 }) + (if features.inf_hp { 1int } else { 0 })
                + (if features.no_recoil { 1int } else { 0 })
            &&& features.inf_ammo ==> plan[0] == (local_player + 0x140, 420i32)
            &&& (features.inf_ammo && !features.inf_hp && !features.no_recoil) ==> plan == seq![(local_player + 0x140, 420i32)]
        }),
{
    let plan = patch_plan(features, local_player);
    let ammo_w = (local_player + 0x140, 420i32);
    let hp_w = (local_player + 0xEC, 67i32);
    let rec_w = (local_player + 0x40, 0i32);
    let ammo: Seq<(int, i32)> = if features.inf_ammo { seq![ammo_w] } else { Seq::empty() };
    let hp: Seq<(int, i32)> = if features.inf_hp { seq![hp_w] } else { Seq::empty() };
    let rec: Seq<(int, i32)> = if features.no_recoil { seq![rec_w] } else { Seq::empty() };
    assert(plan =~= ammo + hp + rec);
    assert forall|w: (int, i32)| plan.contains(w) <==> (ammo.contains(w) || hp.contains(w) || rec.contains(w)) by {
        if plan.contains(w) {
            let k = choose|k: int| 0 <= k < plan.len() && plan[k] == w;
            if k < ammo.len() {
                assert(ammo[k] == w);
            } else if k < ammo.len() + hp.len() {
                assert(hp[k - ammo.len()] == w);
            } else {
                assert(rec[k - ammo.len() - hp.len()] == w);
            }
        }
        if ammo.contains(w) {
            let k = choose|k: int| 0 <= k < ammo.len() && ammo[k] == w;
            assert(plan[k] == w);
        }
        if hp.contains(w) {
            let k = choose|k: int| 0 <= k < hp.len() && hp[k] == w;
            assert(plan[ammo.len() + k] == w);
        }
        if rec.contains(w) {
            let k = choose|k: int| 0 <= k < rec.len() && rec[k] == w;
            assert(plan[ammo.len() + hp.len() + k] == w);
        }
    }
    if features.inf_ammo {
        assert(ammo[0] == ammo_w);
    }
    if features.inf_hp {
        assert(hp[0] == hp_w);
    }
    if features.no_recoil {
        assert(rec[0] == rec_w);
    }
}

/// Whether a key-state word reports the key as held: its most significant
/// bit is set.
pub fn is_key_down(state: i16) -> (down: bool)
    ensures
        down <==> state < 0,
{
    let bits: u16 = #[verifier::truncate] (state as u16);
    assert((bits & 0x8000u16 != 0) <==> state < 0) by (bit_vector)
        requires
            bits == #[verifier::truncate] (state as u16),
    ;
    bits & 0x8000u16 != 0
}

/// Whether the tick turns the local player toward the chosen target: the
/// aimbot is on, the aim key (whose state word is `key_state`) is held, and
/// a target was found.
pub fn should_aim(features: &Features, key_state: i16, has_target: bool) -> (aim: bool)
    ensures
        aim <==> features.aimbot_enabled && key_state < 0 && has_target,
{
    features.aimbot_enabled && is_key_down(key_state) && has_target
}

} // verus!
