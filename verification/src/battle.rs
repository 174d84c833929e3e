//! Battles: what a started battle holds, and the handlers that start, report and end one.

use vstd::prelude::*;
use vstd::string::*;

use crate::data::{
    battle_data_fits, find_avatar, find_lightcone, first_avatar, first_lightcone, relics_of,
    relics_of_fit, waves_fit, worn_relics_fit, AvatarRecord, BattleBlessingRecord,
    BattleMonsterRecord, GameData, RelicRecord,
};
use crate::proto::{
    AvatarSkillTree, BattleAvatar, BattleBuff, BattleEquipment, BattleEventBattleInfo,
    BattleEventProperty, BattleRelic, BattleTarget, BattleTargetList, GetCurBattleInfoScRsp,
    HitMonsterBattleInfo, PveBattleResultCsReq, PveBattleResultScRsp, RelicAffix, SceneBattleInfo,
    SceneCastSkillCostMpCsReq, SceneCastSkillCostMpScRsp, SceneCastSkillCsReq, SceneCastSkillScRsp,
    SceneMonster, SceneMonsterWave, SceneMonsterWaveParam, SpBarInfo, StartCocoonStageCsReq,
    StartCocoonStageScRsp, SyncClientResVersionCsReq, SyncClientResVersionScRsp,
    AVATAR_TYPE_FORMAL, BATTLE_END_NONE, BATTLE_END_WIN, MONSTER_BATTLE_DIRECT_DIE_SKIP,
    MONSTER_BATTLE_TRIGGER,
};
use crate::state::{allocate_battle_id, BattleParams, GameServerState};

verus! {

// ----- specification -----

/// A buff as the server makes it: one target (index 0), every wave, and a
/// "SkillIndex" dynamic value.
pub open spec fn buff_is(b: BattleBuff, id: u32, level: u32, owner: u32, skill_index: u32) -> bool {
    &&& b.id == id
    &&& b.level == level
    &&& b.owner_index == owner
    &&& b.wave_flag == u32::MAX
    &&& b.target_index_list@ == seq![0u32]
    &&& b.skill_index == skill_index
}

/// Buffs given as (id, level, owner index, skill index).
pub open spec fn buffs_are(bs: Seq<BattleBuff>, expected: Seq<(u32, u32, u32, u32)>) -> bool {
    &&& bs.len() == expected.len()
    &&& forall|i: int|
        0 <= i < bs.len() ==> buff_is(
            #[trigger] bs[i],
            expected[i].0,
            expected[i].1,
            expected[i].2,
            expected[i].3,
        )
}

/// The buff of one stage blessing: its level is at least 1 and it is owned by no one.
pub open spec fn blessing_buff(b: BattleBlessingRecord) -> (u32, u32, u32, u32) {
    (b.id, if b.level < 1 { 1u32 } else { b.level }, u32::MAX, 0u32)
}

/// All buffs of a battle: the stage blessings, the leader's attack trigger, and the
/// passives of characters 1407 and 1506 when they are in the lineup.
pub open spec fn expected_buffs(data: GameData, lineup: Seq<u32>, leader_slot: u32) -> Seq<
    (u32, u32, u32, u32),
> {
    data.battle.blessings@.map_values(|b: BattleBlessingRecord| blessing_buff(b)) + seq![
        (1000111u32, 1u32, leader_slot, 1u32),
    ] + (if lineup.contains(1407) {
        seq![(140703u32, 1u32, 1u32, 0u32)]
    } else {
        Seq::empty()
    }) + (if lineup.contains(1506) {
        seq![(150602u32, 1u32, 1u32, 0u32)]
    } else {
        Seq::empty()
    })
}

/// The sub-stats of a relic as battle affixes.
pub open spec fn relic_affixes(r: RelicRecord) -> Seq<RelicAffix> {
    r.sub_affixes@.map_values(
        |s: crate::data::RelicSubAffixRecord|
            RelicAffix { affix_id: s.sub_affix_id, cnt: s.count, step: s.step },
    )
}

/// A relic as it appears in battle: its unique id is the saved id plus 1.
pub open spec fn battle_relic_is(out: BattleRelic, r: RelicRecord) -> bool {
    &&& out.id == r.relic_id
    &&& out.level == r.level
    &&& out.main_affix_id == r.main_affix_id
    &&& out.unique_id == r.internal_uid + 1
    &&& out.sub_affix_list@ == relic_affixes(r)
}

/// Energy cap of a character: its saved cap, or 10000 when that is 0.
pub open spec fn max_sp_of(a: AvatarRecord) -> u32 {
    if a.sp_max == 0 {
        10_000
    } else {
        a.sp_max
    }
}

/// Energy a character enters battle with: full for the character whose technique
/// started the battle, else its saved energy capped at its maximum.
pub open spec fn cur_sp_of(a: AvatarRecord, technique_avatar_id: u32) -> u32 {
    if technique_avatar_id != 0 && technique_avatar_id == a.avatar_id {
        max_sp_of(a)
    } else if a.sp_value < max_sp_of(a) {
        a.sp_value
    } else {
        max_sp_of(a)
    }
}

/// The equipment of a character in battle: the first light cone it wears, if any.
pub open spec fn battle_equipment(data: GameData, avatar_id: u32) -> Seq<BattleEquipment> {
    match first_lightcone(data.lightcones@, avatar_id) {
        Some(lc) => seq![
            BattleEquipment { id: lc.item_id, level: lc.level, promotion: lc.promotion, rank: lc.rank },
        ],
        None => Seq::empty(),
    }
}

/// The skill tree of a character as battle entries.
pub open spec fn skill_trees(a: AvatarRecord) -> Seq<AvatarSkillTree> {
    a.skills_by_anchor_type@.map_values(
        |p: (u32, u32)| AvatarSkillTree { point_id: p.0, level: p.1 },
    )
}

/// Character `a`, in lineup slot `slot`, as it enters a battle.
pub open spec fn battle_avatar_is(
    out: BattleAvatar,
    data: GameData,
    a: AvatarRecord,
    slot: int,
    world_level: u32,
    technique_avatar_id: u32,
) -> bool {
    &&& out.avatar_type == AVATAR_TYPE_FORMAL
    &&& out.id == a.avatar_id
    &&& out.level == a.level
    &&& out.rank == a.rank
    &&& out.index == slot as u32
    &&& out.hp == 10_000
    &&& out.promotion == a.promotion
    &&& out.world_level == world_level
    &&& out.enhanced_id == a.enhanced_id
    &&& out.sp_bar == Some(
        SpBarInfo { cur_sp: cur_sp_of(a, technique_avatar_id), max_sp: max_sp_of(a) },
    )
    &&& out.equipment_list@ == battle_equipment(data, a.avatar_id)
    &&& out.relic_list@.len() == relics_of(data.relics@, a.avatar_id).len()
    &&& forall|j: int|
        0 <= j < out.relic_list@.len() ==> battle_relic_is(
            #[trigger] out.relic_list@[j],
            relics_of(data.relics@, a.avatar_id)[j],
        )
    &&& out.skilltree_list@ == skill_trees(a)
}

/// The lineup slots whose character the player owns; the others are left out of battle.
pub open spec fn battle_slots(lineup: Seq<u32>, avs: Seq<AvatarRecord>) -> Seq<int>
    decreases lineup.len(),
{
    if lineup.len() == 0 {
        Seq::empty()
    } else if first_avatar(avs, lineup.last()) is Some {
        battle_slots(lineup.drop_last(), avs).push(lineup.len() - 1)
    } else {
        battle_slots(lineup.drop_last(), avs)
    }
}

/// The battle characters for `lineup`: one per owned character, in lineup order.
pub open spec fn battle_avatars_are(
    out: Seq<BattleAvatar>,
    data: GameData,
    lineup: Seq<u32>,
    world_level: u32,
    technique_avatar_id: u32,
) -> bool {
    let slots = battle_slots(lineup, data.avatars@);
    &&& out.len() == slots.len()
    &&& forall|k: int|
        0 <= k < out.len() ==> battle_avatar_is(
            #[trigger] out[k],
            data,
            first_avatar(data.avatars@, lineup[slots[k]])->Some_0,
            slots[k],
            world_level,
            technique_avatar_id,
        )
}

/// Level of a wave: the highest monster level, or 95 for an empty wave.
pub open spec fn wave_level(ms: Seq<BattleMonsterRecord>) -> u32
    decreases ms.len(),
{
    if ms.len() == 0 {
        95
    } else if ms.len() == 1 {
        ms[0].level
    } else {
        let rest = wave_level(ms.drop_last());
        if rest < ms.last().level {
            ms.last().level
        } else {
            rest
        }
    }
}

/// The monsters of a wave: each monster repeated `amount` times, in order.
pub open spec fn wave_monsters(ms: Seq<BattleMonsterRecord>) -> Seq<SceneMonster>
    decreases ms.len(),
{
    if ms.len() == 0 {
        Seq::empty()
    } else {
        wave_monsters(ms.drop_last()) + Seq::new(
            ms.last().amount as nat,
            |i: int| SceneMonster { monster_id: ms.last().monster_id, max_hp: 0 },
        )
    }
}

/// Wave number `idx` (counted from 0) of stage `stage_id`.
pub open spec fn wave_is(out: SceneMonsterWave, stage_id: u32, idx: int, ms: Seq<BattleMonsterRecord>) -> bool {
    &&& out.battle_stage_id == stage_id
    &&& out.battle_wave_id == idx + 1
    &&& out.monster_param == Some(SceneMonsterWaveParam { level: wave_level(ms) })
    &&& out.monster_list@ == wave_monsters(ms)
}

/// The monster waves of the configured battle, in order.
pub open spec fn waves_are(out: Seq<SceneMonsterWave>, data: GameData) -> bool {
    &&& out.len() == data.battle.monsters@.len()
    &&& forall|i: int|
        0 <= i < out.len() ==> wave_is(
            #[trigger] out[i],
            data.battle.stage_id,
            i,
            data.battle.monsters@[i]@,
        )
}

/// Stages of the "pure fiction" kind.
pub open spec fn spec_is_pf_stage(stage_id: u32) -> bool {
    (30019000 <= stage_id <= 30019100) || (30021000 <= stage_id <= 30021100) || (30301000
        <= stage_id <= 30399900)
}

/// Stages of the "apocalyptic shadow" kind.
pub open spec fn spec_is_as_stage(stage_id: u32) -> bool {
    420100 <= stage_id <= 420900
}

/// The battle targets of a stage, as (key, targets).
pub open spec fn expected_targets(stage_id: u32) -> Seq<(u32, Seq<BattleTarget>)> {
    if spec_is_pf_stage(stage_id) {
        seq![
            (1u32, seq![BattleTarget { id: 10002, progress: 0, total_progress: 80000 }]),
            (2u32, Seq::empty()),
            (3u32, Seq::empty()),
            (4u32, Seq::empty()),
            (5u32, seq![
                BattleTarget { id: 2001, progress: 0, total_progress: 0 },
                BattleTarget { id: 2002, progress: 0, total_progress: 0 },
            ]),
        ]
    } else if spec_is_as_stage(stage_id) {
        seq![(1u32, seq![BattleTarget { id: 90005, progress: 2000, total_progress: 0 }])]
    } else {
        Seq::empty()
    }
}

/// The entries `out` are the (key, targets) pairs of `expected`, in order.
pub open spec fn targets_are(out: Seq<(u32, BattleTargetList)>, expected: Seq<(u32, Seq<BattleTarget>)>) -> bool {
    &&& out.len() == expected.len()
    &&& forall|i: int|
        0 <= i < out.len() ==> (#[trigger] out[i]).0 == expected[i].0
            && out[i].1.battle_target_list@ == expected[i].1
}

/// A list of (key, targets) entries read as a map: a later entry for a key replaces
/// an earlier one, as inserting the entries into a map in order does.
pub open spec fn pairs_map(s: Seq<(u32, Seq<BattleTarget>)>) -> Map<u32, Seq<BattleTarget>>
    decreases s.len(),
{
    if s.len() == 0 {
        Map::empty()
    } else {
        pairs_map(s.drop_last()).insert(s.last().0, s.last().1)
    }
}

/// The battle-target map that a list of entries stands for (later entries win).
pub open spec fn target_map(s: Seq<(u32, BattleTargetList)>) -> Map<u32, Seq<BattleTarget>>
    decreases s.len(),
{
    if s.len() == 0 {
        Map::empty()
    } else {
        target_map(s.drop_last()).insert(s.last().0, s.last().1.battle_target_list@)
    }
}

/// The battle type is "SU" (simulated universe), in any letter case.
pub open spec fn is_su_type(s: Seq<char>) -> bool {
    &&& s.len() == 2
    &&& (s[0] == 's' || s[0] == 'S')
    &&& (s[1] == 'u' || s[1] == 'U')
}

/// The path-resonance event of a simulated-universe battle, with a full bar.
pub open spec fn su_events(data: GameData) -> Seq<BattleEventBattleInfo> {
    if is_su_type(data.battle.battle_type@) && data.battle.path_resonance_id != 0 {
        seq![
            BattleEventBattleInfo {
                battle_event_id: data.battle.path_resonance_id,
                status: Some(
                    BattleEventProperty { sp_bar: Some(SpBarInfo { cur_sp: 10_000, max_sp: 10_000 }) },
                ),
            },
        ]
    } else {
        Seq::empty()
    }
}

/// The battle started with parameters `p` on saved data `data`.
pub open spec fn battle_matches(out: SceneBattleInfo, data: GameData, p: BattleParams) -> bool {
    &&& out.battle_id == p.battle_id
    &&& out.stage_id == data.battle.stage_id
    &&& out.logic_random_seed == p.seed
    &&& out.rounds_limit == data.battle.cycle_count
    &&& out.monster_wave_length == data.battle.monsters@.len() as u32
    &&& out.world_level == p.world_level
    &&& battle_avatars_are(
        out.battle_avatar_list@,
        data,
        p.lineup@,
        p.world_level,
        p.technique_avatar_id,
    )
    &&& waves_are(out.monster_wave_list@, data)
    &&& buffs_are(out.buff_list@, expected_buffs(data, p.lineup@, p.leader_slot))
    &&& target_map(out.battle_target_info@) == pairs_map(expected_targets(data.battle.stage_id))
    &&& out.battle_event@ == su_events(data)
}


/// How a hit monster reacts, as a wire value.
pub open spec fn spec_battle_type(target_entity_id: u32, attacker_id: u32, skill_index: u32) -> i32 {
    if skill_index != 1 {
        MONSTER_BATTLE_TRIGGER
    } else if 1 <= attacker_id <= 1000 {
        MONSTER_BATTLE_TRIGGER
    } else if attacker_id >= 100_000 && target_entity_id <= 1_000_000 {
        MONSTER_BATTLE_DIRECT_DIE_SKIP
    } else {
        MONSTER_BATTLE_TRIGGER
    }
}

/// All entity ids of the given lists, concatenated in order.
pub open spec fn flatten_ids(lists: Seq<Vec<u32>>) -> Seq<u32>
    decreases lists.len(),
{
    if lists.len() == 0 {
        Seq::empty()
    } else {
        flatten_ids(lists.drop_last()) + lists.last()@
    }
}

/// The monsters a skill hit: the assist-monster ids if any, else the hit-target ids
/// if any, else the ids of all assist-monster entity infos.
pub open spec fn target_ids(req: SceneCastSkillCsReq) -> Seq<u32> {
    if req.assist_monster_entity_id_list@.len() != 0 {
        req.assist_monster_entity_id_list@
    } else if req.hit_target_entity_id_list@.len() != 0 {
        req.hit_target_entity_id_list@
    } else {
        flatten_ids(req.assist_monster_entity_info@)
    }
}

/// How each hit monster reacts to a skill.
pub open spec fn hit_infos(req: SceneCastSkillCsReq) -> Seq<HitMonsterBattleInfo> {
    target_ids(req).map_values(
        |id: u32|
            HitMonsterBattleInfo {
                target_monster_entity_id: id,
                monster_battle_type: spec_battle_type(id, req.attacked_by_entity_id, req.skill_index),
            },
    )
}

/// Some hit starts a battle.
pub open spec fn triggers_battle(req: SceneCastSkillCsReq) -> bool {
    exists|i: int|
        0 <= i < hit_infos(req).len() && (#[trigger] hit_infos(req)[i]).monster_battle_type
            == MONSTER_BATTLE_TRIGGER
}

// ----- building blocks -----

/// How a monster hit by a skill reacts: skills other than the first, and attackers
/// with ids 1 to 1000, start a battle; a high attacker id on a low target id kills
/// without battle; anything else starts a battle.
pub fn get_battle_type(target_entity_id: u32, attacker_id: u32, skill_index: u32) -> (t: i32)
    ensures
        t == spec_battle_type(target_entity_id, attacker_id, skill_index),
{
    if skill_index != 1 {
        return MONSTER_BATTLE_TRIGGER;
    }
    if 1 <= attacker_id && attacker_id <= 1000 {
        return MONSTER_BATTLE_TRIGGER;
    }
    if attacker_id >= 100_000 && target_entity_id <= 1_000_000 {
        return MONSTER_BATTLE_DIRECT_DIE_SKIP;
    }
    MONSTER_BATTLE_TRIGGER
}

/// Whether a stage is of the "pure fiction" kind.
pub fn is_pf_stage(stage_id: u32) -> (b: bool)
    ensures
        b == spec_is_pf_stage(stage_id),
{
    (30019000 <= stage_id && stage_id <= 30019100) || (30021000 <= stage_id && stage_id
        <= 30021100) || (30301000 <= stage_id && stage_id <= 30399900)
}

/// Whether a stage is of the "apocalyptic shadow" kind.
pub fn is_as_stage(stage_id: u32) -> (b: bool)
    ensures
        b == spec_is_as_stage(stage_id),
{
    420100 <= stage_id && stage_id <= 420900
}

/// A buff on target 0 for every wave, with "SkillIndex" 0.
pub fn make_skill_index_buff(id: u32, level: u32, owner_index: u32) -> (b: BattleBuff)
    ensures
        buff_is(b, id, level, owner_index, 0),
{
    let mut target_index_list: Vec<u32> = Vec::new();
    target_index_list.push(0);
    BattleBuff { id, level, owner_index, wave_flag: u32::MAX, target_index_list, skill_index: 0 }
}

/// Whether `v` holds `x`.
pub fn vec_contains(v: &Vec<u32>, x: u32) -> (b: bool)
    ensures
        b == v@.contains(x),
{
    let mut i: usize = 0;
    while i < v.len()
        invariant
            i <= v@.len(),
            forall|k: int| 0 <= k < i ==> v@[k] != x,
        decreases v@.len() - i,
    {
        if v[i] == x {
            assert(v@[i as int] == x);
            return true;
        }
        i = i + 1;
    }
    false
}

fn copy_u32s(v: &Vec<u32>) -> (out: Vec<u32>)
    ensures
        out@ == v@,
{
    let out = v.clone();
    assert(out@ =~= v@);
    out
}

/// The entity ids of the monsters a skill hit.
pub fn collect_target_monster_ids(req: &SceneCastSkillCsReq) -> (ids: Vec<u32>)
    ensures
        ids@ == target_ids(*req),
{
    if req.assist_monster_entity_id_list.len() != 0 {
        return copy_u32s(&req.assist_monster_entity_id_list);
    }
    if req.hit_target_entity_id_list.len() != 0 {
        return copy_u32s(&req.hit_target_entity_id_list);
    }
    let lists = &req.assist_monster_entity_info;
    let mut out: Vec<u32> = Vec::new();
    let mut i: usize = 0;
    while i < lists.len()
        invariant
            i <= lists@.len(),
            out@ == flatten_ids(lists@.take(i as int)),
        decreases lists@.len() - i,
    {
        let inner = &lists[i];
        let ghost before = out@;
        let mut j: usize = 0;
        while j < inner.len()
            invariant
                j <= inner@.len(),
                out@ == before + inner@.take(j as int),
            decreases inner@.len() - j,
        {
            out.push(inner[j]);
            j = j + 1;
            assert(inner@.take(j as int) == inner@.take((j - 1) as int).push(inner@[j - 1]));
        }
        assert(inner@.take(inner@.len() as int) == inner@);
        assert(lists@.take((i + 1) as int).drop_last() == lists@.take(i as int));
        i = i + 1;
    }
    assert(lists@.take(lists@.len() as int) == lists@);
    out
}


fn relic_affix_list(r: &RelicRecord) -> (out: Vec<RelicAffix>)
    ensures
        out@ == relic_affixes(*r),
{
    let mut out: Vec<RelicAffix> = Vec::new();
    let mut i: usize = 0;
    while i < r.sub_affixes.len()
        invariant
            i <= r.sub_affixes@.len(),
            out@ == relic_affixes(*r).take(i as int),
        decreases r.sub_affixes@.len() - i,
    {
        let sa = r.sub_affixes[i];
        out.push(RelicAffix { affix_id: sa.sub_affix_id, cnt: sa.count, step: sa.step });
        i = i + 1;
        assert(relic_affixes(*r).take(i as int) == relic_affixes(*r).take((i - 1) as int).push(
            relic_affixes(*r)[i - 1],
        ));
    }
    assert(relic_affixes(*r).take(i as int) == relic_affixes(*r));
    out
}

fn battle_relics(data: &GameData, avatar_id: u32) -> (out: Vec<BattleRelic>)
    requires
        relics_of_fit(*data, avatar_id),
    ensures
        out@.len() == relics_of(data.relics@, avatar_id).len(),
        forall|j: int|
            0 <= j < out@.len() ==> battle_relic_is(
                #[trigger] out@[j],
                relics_of(data.relics@, avatar_id)[j],
            ),
{
    let rs = &data.relics;
    let mut out: Vec<BattleRelic> = Vec::new();
    let mut i: usize = 0;
    while i < rs.len()
        invariant
            relics_of_fit(*data, avatar_id),
            rs == &data.relics,
            i <= rs@.len(),
            out@.len() == relics_of(rs@.take(i as int), avatar_id).len(),
            forall|j: int|
                0 <= j < out@.len() ==> battle_relic_is(
                    #[trigger] out@[j],
                    relics_of(rs@.take(i as int), avatar_id)[j],
                ),
        decreases rs@.len() - i,
    {
        let r = &rs[i];
        assert(rs@.take((i + 1) as int).drop_last() == rs@.take(i as int));
        assert(rs@.take((i + 1) as int).last() == rs@[i as int]);
        if r.equip_avatar == avatar_id {
            assert(r.internal_uid < u32::MAX);
            let br = BattleRelic {
                id: r.relic_id,
                level: r.level,
                main_affix_id: r.main_affix_id,
                unique_id: r.internal_uid + 1,
                sub_affix_list: relic_affix_list(r),
            };
            out.push(br);
        }
        i = i + 1;
    }
    assert(rs@.take(rs@.len() as int) == rs@);
    out
}

fn skill_tree_list(a: &AvatarRecord) -> (out: Vec<AvatarSkillTree>)
    ensures
        out@ == skill_trees(*a),
{
    let mut out: Vec<AvatarSkillTree> = Vec::new();
    let mut i: usize = 0;
    while i < a.skills_by_anchor_type.len()
        invariant
            i <= a.skills_by_anchor_type@.len(),
            out@ == skill_trees(*a).take(i as int),
        decreases a.skills_by_anchor_type@.len() - i,
    {
        let (point_id, level) = a.skills_by_anchor_type[i];
        out.push(AvatarSkillTree { point_id, level });
        i = i + 1;
        assert(skill_trees(*a).take(i as int) == skill_trees(*a).take((i - 1) as int).push(
            skill_trees(*a)[i - 1],
        ));
    }
    assert(skill_trees(*a).take(i as int) == skill_trees(*a));
    out
}

fn battle_equipment_list(data: &GameData, avatar_id: u32) -> (out: Vec<BattleEquipment>)
    ensures
        out@ == battle_equipment(*data, avatar_id),
{
    let mut out: Vec<BattleEquipment> = Vec::new();
    match find_lightcone(&data.lightcones, avatar_id) {
        Some(k) => {
            let lc = &data.lightcones[k];
            out.push(
                BattleEquipment { id: lc.item_id, level: lc.level, promotion: lc.promotion, rank: lc.rank },
            );
        },
        None => {},
    }
    out
}

fn battle_avatar(
    data: &GameData,
    a: &AvatarRecord,
    slot: usize,
    world_level: u32,
    technique_avatar_id: u32,
) -> (out: BattleAvatar)
    requires
        relics_of_fit(*data, a.avatar_id),
    ensures
        battle_avatar_is(out, *data, *a, slot as int, world_level, technique_avatar_id),
{
    let max_sp = if a.sp_max == 0 {
        10_000
    } else {
        a.sp_max
    };
    let cur_sp = if technique_avatar_id != 0 && technique_avatar_id == a.avatar_id {
        max_sp
    } else if a.sp_value < max_sp {
        a.sp_value
    } else {
        max_sp
    };
    BattleAvatar {
        avatar_type: AVATAR_TYPE_FORMAL,
        id: a.avatar_id,
        level: a.level,
        rank: a.rank,
        index: slot as u32,
        hp: 10_000,
        promotion: a.promotion,
        world_level,
        enhanced_id: a.enhanced_id,
        sp_bar: Some(SpBarInfo { cur_sp, max_sp }),
        equipment_list: battle_equipment_list(data, a.avatar_id),
        relic_list: battle_relics(data, a.avatar_id),
        skilltree_list: skill_tree_list(a),
    }
}

/// The battle characters for `lineup`: each owned character of the lineup, in order,
/// with its lineup slot, energy, light cone, relics and skill tree. Lineup entries
/// the player does not own are skipped.
pub fn build_battle_avatars(
    data: &GameData,
    lineup: &Vec<u32>,
    world_level: u32,
    technique_avatar_id: u32,
) -> (out: Vec<BattleAvatar>)
    requires
        worn_relics_fit(*data, lineup@),
    ensures
        battle_avatars_are(out@, *data, lineup@, world_level, technique_avatar_id),
{
    let mut out: Vec<BattleAvatar> = Vec::new();
    let mut i: usize = 0;
    while i < lineup.len()
        invariant
            worn_relics_fit(*data, lineup@),
            i <= lineup@.len(),
            battle_avatars_are(out@, *data, lineup@.take(i as int), world_level, technique_avatar_id),
        decreases lineup@.len() - i,
    {
        let ghost pre = lineup@.take(i as int);
        let ghost post = lineup@.take((i + 1) as int);
        assert(post.drop_last() == pre);
        assert(post.last() == lineup@[i as int]);
        assert forall|k: int| 0 <= k < battle_slots(pre, data.avatars@).len() implies #[trigger] post[battle_slots(pre, data.avatars@)[k]] == pre[battle_slots(pre, data.avatars@)[k]] by {
            lemma_battle_slots_bound(pre, data.avatars@, k);
        }
        match find_avatar(&data.avatars, lineup[i]) {
            Some(j) => {
                assert forall|k: int|
                    0 <= k < data.relics@.len() && #[trigger] data.relics@[k].equip_avatar
                        == data.avatars@[j as int].avatar_id implies data.relics@[k].internal_uid
                    < u32::MAX by {
                    assert(data.relics@[k].equip_avatar == lineup@[i as int]);
                }
                let b = battle_avatar(data, &data.avatars[j], i, world_level, technique_avatar_id);
                out.push(b);
            },
            None => {},
        }
        i = i + 1;
    }
    assert(lineup@.take(lineup@.len() as int) == lineup@);
    out
}

proof fn lemma_battle_slots_bound(lineup: Seq<u32>, avs: Seq<AvatarRecord>, k: int)
    requires
        0 <= k < battle_slots(lineup, avs).len(),
    ensures
        0 <= battle_slots(lineup, avs)[k] < lineup.len(),
    decreases lineup.len(),
{
    if lineup.len() > 0 {
        let rest = battle_slots(lineup.drop_last(), avs);
        if k < rest.len() {
            lemma_battle_slots_bound(lineup.drop_last(), avs, k);
        }
    }
}


fn wave_monster_list(ms: &Vec<BattleMonsterRecord>) -> (out: Vec<SceneMonster>)
    ensures
        out@ == wave_monsters(ms@),
{
    let mut out: Vec<SceneMonster> = Vec::new();
    let mut i: usize = 0;
    while i < ms.len()
        invariant
            i <= ms@.len(),
            out@ == wave_monsters(ms@.take(i as int)),
        decreases ms@.len() - i,
    {
        let m = ms[i];
        let ghost before = out@;
        let ghost rep = Seq::new(m.amount as nat, |k: int| SceneMonster { monster_id: m.monster_id, max_hp: 0 });
        let mut j: u32 = 0;
        while j < m.amount
            invariant
                j <= m.amount,
                rep == Seq::new(m.amount as nat, |k: int| SceneMonster { monster_id: m.monster_id, max_hp: 0 }),
                out@ == before + rep.take(j as int),
            decreases m.amount - j,
        {
            out.push(SceneMonster { monster_id: m.monster_id, max_hp: 0 });
            j = j + 1;
            assert(rep.take(j as int) == rep.take((j - 1) as int).push(rep[j - 1]));
        }
        assert(rep.take(m.amount as int) == rep);
        assert(ms@.take((i + 1) as int).drop_last() == ms@.take(i as int));
        assert(ms@.take((i + 1) as int).last() == m);
        i = i + 1;
    }
    assert(ms@.take(ms@.len() as int) == ms@);
    out
}

fn max_wave_level(ms: &Vec<BattleMonsterRecord>) -> (lvl: u32)
    ensures
        lvl == wave_level(ms@),
{
    let mut lvl: u32 = 95;
    let mut i: usize = 0;
    while i < ms.len()
        invariant
            i <= ms@.len(),
            i == 0 ==> lvl == 95,
            i > 0 ==> lvl == wave_level(ms@.take(i as int)),
        decreases ms@.len() - i,
    {
        let ghost post = ms@.take((i + 1) as int);
        assert(post.drop_last() == ms@.take(i as int));
        assert(post.last() == ms@[i as int]);
        if i == 0 || lvl < ms[i].level {
            lvl = ms[i].level;
        }
        i = i + 1;
    }
    assert(ms@.take(ms@.len() as int) == ms@);
    lvl
}

/// The monster waves of the configured battle: wave numbers from 1, the level of
/// each wave, and its monsters each repeated by their amount.
pub fn build_monster_waves(data: &GameData) -> (out: Vec<SceneMonsterWave>)
    requires
        waves_fit(*data),
    ensures
        waves_are(out@, *data),
{
    let waves = &data.battle.monsters;
    let mut out: Vec<SceneMonsterWave> = Vec::new();
    let mut i: usize = 0;
    while i < waves.len()
        invariant
            waves_fit(*data),
            waves == &data.battle.monsters,
            i <= waves@.len(),
            out@.len() == i,
            forall|k: int|
                0 <= k < i ==> wave_is(#[trigger] out@[k], data.battle.stage_id, k, waves@[k]@),
        decreases waves@.len() - i,
    {
        let wave = &waves[i];
        let w = SceneMonsterWave {
            battle_stage_id: data.battle.stage_id,
            battle_wave_id: (i as u32) + 1,
            monster_param: Some(SceneMonsterWaveParam { level: max_wave_level(wave) }),
            monster_list: wave_monster_list(wave),
        };
        out.push(w);
        i = i + 1;
    }
    out
}

/// One buff per stage blessing, with its level raised to at least 1 and no owner.
pub fn build_stage_blessings(data: &GameData) -> (out: Vec<BattleBuff>)
    ensures
        buffs_are(
            out@,
            data.battle.blessings@.map_values(|b: BattleBlessingRecord| blessing_buff(b)),
        ),
{
    let bl = &data.battle.blessings;
    let ghost e = bl@.map_values(|b: BattleBlessingRecord| blessing_buff(b));
    let mut out: Vec<BattleBuff> = Vec::new();
    let mut i: usize = 0;
    while i < bl.len()
        invariant
            i <= bl@.len(),
            e == bl@.map_values(|b: BattleBlessingRecord| blessing_buff(b)),
            buffs_are(out@, e.take(i as int)),
        decreases bl@.len() - i,
    {
        let b = bl[i];
        let level = if b.level < 1 {
            1
        } else {
            b.level
        };
        let buff = make_skill_index_buff(b.id, level, u32::MAX);
        out.push(buff);
        i = i + 1;
        assert(e.take(i as int) == e.take((i - 1) as int).push(e[i - 1]));
    }
    assert(e.take(i as int) == e);
    out
}

/// Adds the attack-trigger buff of the leader (skill index 1).
pub fn add_trigger_attack_buff(battle: &mut SceneBattleInfo, leader_slot: u32)
    ensures
        final(battle).buff_list@.len() == old(battle).buff_list@.len() + 1,
        final(battle).buff_list@.drop_last() == old(battle).buff_list@,
        buff_is(final(battle).buff_list@.last(), 1000111, 1, leader_slot, 1),
        final(battle).battle_id == old(battle).battle_id,
        final(battle).stage_id == old(battle).stage_id,
        final(battle).logic_random_seed == old(battle).logic_random_seed,
        final(battle).rounds_limit == old(battle).rounds_limit,
        final(battle).monster_wave_length == old(battle).monster_wave_length,
        final(battle).world_level == old(battle).world_level,
        final(battle).battle_avatar_list == old(battle).battle_avatar_list,
        final(battle).monster_wave_list == old(battle).monster_wave_list,
        final(battle).battle_target_info == old(battle).battle_target_info,
        final(battle).battle_event == old(battle).battle_event,
{
    let mut buff = make_skill_index_buff(1000111, 1, leader_slot);
    buff.skill_index = 1;
    battle.buff_list.push(buff);
    assert(battle.buff_list@.drop_last() == old(battle).buff_list@);
}

/// Adds the passive buffs of characters 1407 and 1506 when they are in the lineup.
pub fn add_global_passive_buffs(battle: &mut SceneBattleInfo, lineup: &Vec<u32>)
    ensures
        final(battle).buff_list@.len() >= old(battle).buff_list@.len(),
        final(battle).buff_list@.subrange(0, old(battle).buff_list@.len() as int) == old(battle).buff_list@,
        buffs_are(
            final(battle).buff_list@.subrange(
                old(battle).buff_list@.len() as int,
                final(battle).buff_list@.len() as int,
            ),
            (if lineup@.contains(1407) {
                seq![(140703u32, 1u32, 1u32, 0u32)]
            } else {
                Seq::empty()
            }) + (if lineup@.contains(1506) {
                seq![(150602u32, 1u32, 1u32, 0u32)]
            } else {
                Seq::empty()
            }),
        ),
        final(battle).battle_id == old(battle).battle_id,
        final(battle).stage_id == old(battle).stage_id,
        final(battle).logic_random_seed == old(battle).logic_random_seed,
        final(battle).rounds_limit == old(battle).rounds_limit,
        final(battle).monster_wave_length == old(battle).monster_wave_length,
        final(battle).world_level == old(battle).world_level,
        final(battle).battle_avatar_list == old(battle).battle_avatar_list,
        final(battle).monster_wave_list == old(battle).monster_wave_list,
        final(battle).battle_target_info == old(battle).battle_target_info,
        final(battle).battle_event == old(battle).battle_event,
{
    let ghost n = battle.buff_list@.len();
    if vec_contains(lineup, 1407) {
        battle.buff_list.push(make_skill_index_buff(140703, 1, 1));
    }
    if vec_contains(lineup, 1506) {
        battle.buff_list.push(make_skill_index_buff(150602, 1, 1));
    }
    let ghost added = battle.buff_list@.subrange(n as int, battle.buff_list@.len() as int);
    let ghost e = (if lineup@.contains(1407) {
        seq![(140703u32, 1u32, 1u32, 0u32)]
    } else {
        Seq::empty()
    }) + (if lineup@.contains(1506) {
        seq![(150602u32, 1u32, 1u32, 0u32)]
    } else {
        Seq::empty()
    });
    assert(added.len() == e.len());
    assert(forall|i: int| 0 <= i < added.len() ==> added[i] == battle.buff_list@[n + i]);
}

fn one_target(id: u32, progress: u32, total_progress: u32) -> (l: BattleTargetList)
    ensures
        l.battle_target_list@ == seq![BattleTarget { id, progress, total_progress }],
{
    let mut v: Vec<BattleTarget> = Vec::new();
    v.push(BattleTarget { id, progress, total_progress });
    BattleTargetList { battle_target_list: v }
}

fn no_targets() -> (l: BattleTargetList)
    ensures
        l.battle_target_list@ == Seq::<BattleTarget>::empty(),
{
    BattleTargetList { battle_target_list: Vec::new() }
}

fn copy_target_list(l: &BattleTargetList) -> (c: BattleTargetList)
    ensures
        c.battle_target_list@ == l.battle_target_list@,
{
    let mut v: Vec<BattleTarget> = Vec::new();
    let mut i: usize = 0;
    while i < l.battle_target_list.len()
        invariant
            i <= l.battle_target_list@.len(),
            v@ == l.battle_target_list@.take(i as int),
        decreases l.battle_target_list@.len() - i,
    {
        v.push(l.battle_target_list[i]);
        i = i + 1;
        assert(v@ =~= l.battle_target_list@.take(i as int));
    }
    assert(l.battle_target_list@.take(i as int) =~= l.battle_target_list@);
    BattleTargetList { battle_target_list: v }
}

/// The battle targets of stage `stage_id`, as entries in order.
fn stage_targets(stage_id: u32) -> (out: Vec<(u32, BattleTargetList)>)
    ensures
        targets_are(out@, expected_targets(stage_id)),
{
    let mut out: Vec<(u32, BattleTargetList)> = Vec::new();
    if is_pf_stage(stage_id) {
        out.push((1, one_target(10002, 0, 80000)));
        let mut key: u32 = 2;
        while key <= 4
            invariant
                2 <= key <= 5,
                out@.len() == key - 1,
                out@[0].0 == 1,
                out@[0].1.battle_target_list@ == seq![
                    BattleTarget { id: 10002, progress: 0, total_progress: 80000 },
                ],
                forall|k: int|
                    1 <= k < key - 1 ==> (#[trigger] out@[k]).0 == k + 1
                        && out@[k].1.battle_target_list@.len() == 0,
            decreases 5 - key,
        {
            out.push((key, no_targets()));
            key = key + 1;
        }
        let mut v: Vec<BattleTarget> = Vec::new();
        v.push(BattleTarget { id: 2001, progress: 0, total_progress: 0 });
        v.push(BattleTarget { id: 2002, progress: 0, total_progress: 0 });
        out.push((5, BattleTargetList { battle_target_list: v }));
        let ghost o = out@;
        let ghost e = expected_targets(stage_id);
        assert(o.len() == e.len());
        assert(o[1].0 == 2 && o[2].0 == 3 && o[3].0 == 4);
        assert(o[1].1.battle_target_list@ =~= e[1].1);
        assert(o[2].1.battle_target_list@ =~= e[2].1);
        assert(o[3].1.battle_target_list@ =~= e[3].1);
        assert(o[4].1.battle_target_list@ =~= e[4].1);
        assert(o[0].1.battle_target_list@ =~= e[0].1);
        assert(forall|i: int| 0 <= i < 5 ==> o[i].0 == e[i].0);
    } else if is_as_stage(stage_id) {
        out.push((1, one_target(90005, 2000, 0)));
        assert(out@[0].1.battle_target_list@ =~= expected_targets(stage_id)[0].1);
    }
    out
}

proof fn lemma_target_map_update_last(s: Seq<(u32, BattleTargetList)>, j: int, key: u32, l: BattleTargetList)
    requires
        0 <= j < s.len(),
        s[j].0 == key,
        forall|m: int| j < m < s.len() ==> #[trigger] s[m].0 != key,
    ensures
        target_map(s.update(j, (key, l))) == target_map(s).insert(key, l.battle_target_list@),
    decreases s.len(),
{
    let u = s.update(j, (key, l));
    if j == s.len() - 1 {
        assert(u.drop_last() == s.drop_last());
        assert(target_map(u) =~= target_map(s).insert(key, l.battle_target_list@));
    } else {
        assert(u.drop_last() == s.drop_last().update(j, (key, l)));
        lemma_target_map_update_last(s.drop_last(), j, key, l);
        assert(s.last().0 != key);
        assert(target_map(u) =~= target_map(s).insert(key, l.battle_target_list@));
    }
}

/// Puts `l` under `key` in the target map held by `info`, replacing what was there.
fn insert_target(info: &mut Vec<(u32, BattleTargetList)>, key: u32, l: BattleTargetList)
    ensures
        target_map(final(info)@) == target_map(old(info)@).insert(key, l.battle_target_list@),
{
    let mut j: usize = info.len();
    while j > 0 && info[j - 1].0 != key
        invariant
            j <= info@.len(),
            forall|m: int| j <= m < info@.len() ==> #[trigger] info@[m].0 != key,
        decreases j,
    {
        j = j - 1;
    }
    if j == 0 {
        let ghost before = info@;
        info.push((key, l));
        assert(info@.drop_last() == before);
    } else {
        proof {
            lemma_target_map_update_last(info@, (j - 1) as int, key, l);
        }
        info.set(j - 1, (key, l));
    }
}

proof fn lemma_union_push(m: Map<u32, Seq<BattleTarget>>, s: Seq<(u32, Seq<BattleTarget>)>, x: (u32, Seq<BattleTarget>))
    ensures
        m.union_prefer_right(pairs_map(s.push(x))) == m.union_prefer_right(pairs_map(s)).insert(x.0, x.1),
{
    assert(s.push(x).drop_last() == s);
    assert(m.union_prefer_right(pairs_map(s.push(x))) =~= m.union_prefer_right(pairs_map(s)).insert(x.0, x.1));
}

/// Inserts the battle targets of the stage of `battle` into its target map,
/// replacing the targets of those keys.
pub fn add_battle_targets(battle: &mut SceneBattleInfo)
    ensures
        target_map(final(battle).battle_target_info@) == target_map(old(battle).battle_target_info@).union_prefer_right(
            pairs_map(expected_targets(old(battle).stage_id)),
        ),
        final(battle).battle_id == old(battle).battle_id,
        final(battle).stage_id == old(battle).stage_id,
        final(battle).logic_random_seed == old(battle).logic_random_seed,
        final(battle).rounds_limit == old(battle).rounds_limit,
        final(battle).monster_wave_length == old(battle).monster_wave_length,
        final(battle).world_level == old(battle).world_level,
        final(battle).battle_avatar_list == old(battle).battle_avatar_list,
        final(battle).monster_wave_list == old(battle).monster_wave_list,
        final(battle).buff_list == old(battle).buff_list,
        final(battle).battle_event == old(battle).battle_event,
{
    let targets = stage_targets(battle.stage_id);
    let ghost e = expected_targets(old(battle).stage_id);
    let ghost m0 = target_map(old(battle).battle_target_info@);
    assert(m0.union_prefer_right(pairs_map(e.take(0))) =~= m0);
    let mut i: usize = 0;
    while i < targets.len()
        invariant
            i <= targets@.len(),
            targets_are(targets@, e),
            target_map(battle.battle_target_info@) == m0.union_prefer_right(pairs_map(e.take(i as int))),
            battle.battle_id == old(battle).battle_id,
            battle.stage_id == old(battle).stage_id,
            battle.logic_random_seed == old(battle).logic_random_seed,
            battle.rounds_limit == old(battle).rounds_limit,
            battle.monster_wave_length == old(battle).monster_wave_length,
            battle.world_level == old(battle).world_level,
            battle.battle_avatar_list == old(battle).battle_avatar_list,
            battle.monster_wave_list == old(battle).monster_wave_list,
            battle.buff_list == old(battle).buff_list,
            battle.battle_event == old(battle).battle_event,
        decreases targets@.len() - i,
    {
        let key = targets[i].0;
        let l = copy_target_list(&targets[i].1);
        proof {
            assert(targets@[i as int].0 == e[i as int].0);
            assert(e.take(i + 1) == e.take(i as int).push(e[i as int]));
            lemma_union_push(m0, e.take(i as int), e[i as int]);
        }
        insert_target(&mut battle.battle_target_info, key, l);
        i = i + 1;
    }
    assert(e.take(i as int) == e);
}

/// Whether a battle type is "SU", ignoring letter case.
pub fn is_su_battle_type(t: &String) -> (b: bool)
    ensures
        b == is_su_type(t@),
{
    let s = t.as_str();
    let n = s.unicode_len();
    if n != 2 {
        return false;
    }
    let c0 = s.get_char(0);
    let c1 = s.get_char(1);
    (c0 == 's' || c0 == 'S') && (c1 == 'u' || c1 == 'U')
}

/// Adds the path-resonance event of a simulated-universe battle.
pub fn add_su_resonance_event(battle: &mut SceneBattleInfo, data: &GameData)
    ensures
        final(battle).battle_event@ == old(battle).battle_event@ + su_events(*data),
        final(battle).battle_id == old(battle).battle_id,
        final(battle).stage_id == old(battle).stage_id,
        final(battle).logic_random_seed == old(battle).logic_random_seed,
        final(battle).rounds_limit == old(battle).rounds_limit,
        final(battle).monster_wave_length == old(battle).monster_wave_length,
        final(battle).world_level == old(battle).world_level,
        final(battle).battle_avatar_list == old(battle).battle_avatar_list,
        final(battle).monster_wave_list == old(battle).monster_wave_list,
        final(battle).buff_list == old(battle).buff_list,
        final(battle).battle_target_info == old(battle).battle_target_info,
{
    if is_su_battle_type(&data.battle.battle_type) && data.battle.path_resonance_id != 0 {
        battle.battle_event.push(
            BattleEventBattleInfo {
                battle_event_id: data.battle.path_resonance_id,
                status: Some(
                    BattleEventProperty { sp_bar: Some(SpBarInfo { cur_sp: 10_000, max_sp: 10_000 }) },
                ),
            },
        );
    } else {
        assert(battle.battle_event@ =~= old(battle).battle_event@ + su_events(*data));
    }
}


proof fn lemma_buffs_concat(
    a: Seq<BattleBuff>,
    ea: Seq<(u32, u32, u32, u32)>,
    b: Seq<BattleBuff>,
    eb: Seq<(u32, u32, u32, u32)>,
)
    requires
        buffs_are(a, ea),
        buffs_are(b, eb),
    ensures
        buffs_are(a + b, ea + eb),
{
    assert forall|i: int| 0 <= i < (a + b).len() implies buff_is(
        #[trigger] (a + b)[i],
        (ea + eb)[i].0,
        (ea + eb)[i].1,
        (ea + eb)[i].2,
        (ea + eb)[i].3,
    ) by {
        if i < a.len() {
            assert((a + b)[i] == a[i]);
        } else {
            assert((a + b)[i] == b[i - a.len()]);
        }
    }
}

/// The battle started with parameters `p`: the configured stage, rounds and waves,
/// the owned characters of the lineup, the stage blessings and the lineup's buffs,
/// the stage's battle targets, and the simulated-universe event if any.
pub fn create_battle(data: &GameData, p: &BattleParams) -> (out: SceneBattleInfo)
    requires
        battle_data_fits(*data, p.lineup@),
    ensures
        battle_matches(out, *data, *p),
{
    let mut battle = SceneBattleInfo {
        battle_id: p.battle_id,
        stage_id: data.battle.stage_id,
        logic_random_seed: p.seed,
        rounds_limit: data.battle.cycle_count,
        monster_wave_length: data.battle.monsters.len() as u32,
        world_level: p.world_level,
        battle_avatar_list: build_battle_avatars(
            data,
            &p.lineup,
            p.world_level,
            p.technique_avatar_id,
        ),
        monster_wave_list: build_monster_waves(data),
        buff_list: build_stage_blessings(data),
        battle_target_info: Vec::new(),
        battle_event: Vec::new(),
    };
    let ghost b0 = battle.buff_list@;
    let ghost eb = data.battle.blessings@.map_values(|b: BattleBlessingRecord| blessing_buff(b));
    add_trigger_attack_buff(&mut battle, p.leader_slot);
    let ghost b1 = battle.buff_list@;
    proof {
        let t = seq![(1000111u32, 1u32, p.leader_slot, 1u32)];
        assert(buffs_are(seq![b1.last()], t));
        assert(b1 == b0 + seq![b1.last()]);
        lemma_buffs_concat(b0, eb, seq![b1.last()], t);
    }
    add_global_passive_buffs(&mut battle, &p.lineup);
    proof {
        let b2 = battle.buff_list@;
        let rest = b2.subrange(b1.len() as int, b2.len() as int);
        assert(b2 == b1 + rest);
        let ep = (if p.lineup@.contains(1407) {
            seq![(140703u32, 1u32, 1u32, 0u32)]
        } else {
            Seq::empty()
        }) + (if p.lineup@.contains(1506) {
            seq![(150602u32, 1u32, 1u32, 0u32)]
        } else {
            Seq::empty()
        });
        lemma_buffs_concat(b1, eb + seq![(1000111u32, 1u32, p.leader_slot, 1u32)], rest, ep);
        assert(expected_buffs(*data, p.lineup@, p.leader_slot) == eb + seq![
            (1000111u32, 1u32, p.leader_slot, 1u32),
        ] + ep);
    }
    assert(target_map(battle.battle_target_info@) =~= Map::empty());
    add_battle_targets(&mut battle);
    assert(Map::<u32, Seq<BattleTarget>>::empty().union_prefer_right(
        pairs_map(expected_targets(data.battle.stage_id)),
    ) =~= pairs_map(expected_targets(data.battle.stage_id)));
    add_su_resonance_event(&mut battle, data);
    assert(Seq::<BattleEventBattleInfo>::empty() + su_events(*data) =~= su_events(*data));
    battle
}

/// The report of the current battle: the battle in progress with no end status, or,
/// when none is, no battle and how the last one ended.
pub open spec fn cur_battle_reply(state: GameServerState, rsp: GetCurBattleInfoScRsp) -> bool {
    &&& rsp.retcode == 0
    &&& state.runtime.on_battle ==> rsp.last_end_status == BATTLE_END_NONE && (rsp.battle_info matches Some(
        b,
    ) && battle_matches(b, state.data, state.runtime.current_battle->Some_0))
    &&& !state.runtime.on_battle ==> rsp.last_end_status == state.runtime.last_battle_end_status
        && rsp.battle_info is None
}

/// Reports the battle in progress, or, when none is, how the last one ended.
pub fn on_get_cur_battle_info(state: &GameServerState) -> (rsp: GetCurBattleInfoScRsp)
    requires
        state.wf(),
    ensures
        cur_battle_reply(*state, rsp),
{
    let rt = &state.runtime;
    if rt.on_battle {
        let battle_info = match &rt.current_battle {
            Some(p) => Some(create_battle(&state.data, p)),
            None => None,
        };
        GetCurBattleInfoScRsp { battle_info, last_end_status: BATTLE_END_NONE, retcode: 0 }
    } else {
        GetCurBattleInfoScRsp { battle_info: None, last_end_status: rt.last_battle_end_status, retcode: 0 }
    }
}

/// The runtime after a battle with parameters `p` started: the battle is on,
/// stored, and no end status is pending. Nothing else changes.
pub open spec fn battle_started(
    old_rt: crate::state::RuntimeState,
    new_rt: crate::state::RuntimeState,
    world_level: u32,
    technique_avatar_id: u32,
    seed: u32,
) -> bool {
    &&& new_rt.on_battle
    &&& new_rt.last_battle_end_status == BATTLE_END_NONE
    &&& new_rt.current_battle matches Some(p) && {
        &&& p.battle_id == old_rt.next_battle_id
        &&& p.world_level == world_level
        &&& p.technique_avatar_id == technique_avatar_id
        &&& p.seed == seed
        &&& p.lineup@ == old_rt.lineup@
        &&& p.leader_slot == old_rt.leader_slot
    }
    &&& new_rt.next_battle_id == if old_rt.next_battle_id == u32::MAX {
        u32::MAX
    } else {
        (old_rt.next_battle_id + 1) as u32
    }
    &&& new_rt.last_world_level == world_level
    &&& new_rt.lineup == old_rt.lineup
    &&& new_rt.leader_slot == old_rt.leader_slot
    &&& new_rt.mc_id == old_rt.mc_id
    &&& new_rt.march_id == old_rt.march_id
    &&& new_rt.client_paused == old_rt.client_paused
}

fn start_battle(state: &mut GameServerState, world_level: u32, technique_avatar_id: u32, seed: u32) -> (info: SceneBattleInfo)
    requires
        old(state).wf(),
        battle_data_fits(old(state).data, old(state).runtime.lineup@),
    ensures
        final(state).wf(),
        final(state).data == old(state).data,
        battle_started(old(state).runtime, final(state).runtime, world_level, technique_avatar_id, seed),
        battle_matches(info, final(state).data, final(state).runtime.current_battle->Some_0),
{
    let battle_id = allocate_battle_id(&mut state.runtime, world_level);
    let params = BattleParams {
        battle_id,
        world_level,
        technique_avatar_id,
        seed,
        lineup: state.runtime.lineup.clone(),
        leader_slot: state.runtime.leader_slot,
    };
    assert(params.lineup@ =~= state.runtime.lineup@);
    let info = create_battle(&state.data, &params);
    state.runtime.on_battle = true;
    state.runtime.last_battle_end_status = BATTLE_END_NONE;
    state.runtime.current_battle = Some(params);
    info
}

/// A cocoon battle started: world level 0 means 6, and the avatar whose technique
/// opened the battle enters with a full bar; the answer echoes the cocoon.
pub open spec fn cocoon_stage_started(
    before: GameServerState,
    after: GameServerState,
    req: StartCocoonStageCsReq,
    seed: u32,
    rsp: StartCocoonStageScRsp,
) -> bool {
    &&& after.data == before.data
    &&& battle_started(
        before.runtime,
        after.runtime,
        if req.world_level == 0 { 6 } else { req.world_level },
        match req.technique_avatar_id {
            Some(t) => t,
            None => 0,
        },
        seed,
    )
    &&& rsp.wave == req.wave
    &&& rsp.prop_entity_id == req.prop_entity_id
    &&& rsp.cocoon_id == req.cocoon_id
    &&& rsp.challenge_cnt == 1
    &&& rsp.retcode == 0
    &&& rsp.battle_info matches Some(b) && battle_matches(
        b,
        after.data,
        after.runtime.current_battle->Some_0,
    )
}

/// Starts the configured battle from a cocoon. World level 0 in the request means 6;
/// the avatar whose technique opened the battle enters with a full energy bar.
pub fn on_start_cocoon_stage(state: &mut GameServerState, req: &StartCocoonStageCsReq, seed: u32) -> (rsp:
    StartCocoonStageScRsp)
    requires
        old(state).wf(),
        battle_data_fits(old(state).data, old(state).runtime.lineup@),
    ensures
        final(state).wf(),
        cocoon_stage_started(*old(state), *final(state), *req, seed, rsp),
{
    let world_level = if req.world_level == 0 {
        6
    } else {
        req.world_level
    };
    let technique_avatar_id = match req.technique_avatar_id {
        Some(t) => t,
        None => 0,
    };
    let info = start_battle(state, world_level, technique_avatar_id, seed);
    StartCocoonStageScRsp {
        wave: req.wave,
        prop_entity_id: req.prop_entity_id,
        cocoon_id: req.cocoon_id,
        challenge_cnt: 1,
        battle_info: Some(info),
        retcode: 0,
    }
}

fn hit_monster_infos(req: &SceneCastSkillCsReq) -> (out: Vec<HitMonsterBattleInfo>)
    ensures
        out@ == hit_infos(*req),
{
    let ids = collect_target_monster_ids(req);
    let ghost e = hit_infos(*req);
    let mut out: Vec<HitMonsterBattleInfo> = Vec::new();
    let mut i: usize = 0;
    while i < ids.len()
        invariant
            i <= ids@.len(),
            ids@ == target_ids(*req),
            e == hit_infos(*req),
            out@ == e.take(i as int),
        decreases ids@.len() - i,
    {
        let id = ids[i];
        out.push(
            HitMonsterBattleInfo {
                target_monster_entity_id: id,
                monster_battle_type: get_battle_type(id, req.attacked_by_entity_id, req.skill_index),
            },
        );
        i = i + 1;
        assert(e.take(i as int) == e.take((i - 1) as int).push(e[i - 1]));
    }
    assert(e.take(i as int) == e);
    out
}

/// A skill cast answered: how each hit monster reacts, and, when one of them starts
/// a battle, that battle at the last world level.
pub open spec fn skill_cast(
    before: GameServerState,
    after: GameServerState,
    req: SceneCastSkillCsReq,
    seed: u32,
    rsp: SceneCastSkillScRsp,
) -> bool {
    &&& after.data == before.data
    &&& rsp.monster_battle_info@ == hit_infos(req)
    &&& rsp.cast_entity_id == req.cast_entity_id
    &&& rsp.retcode == 0
    &&& triggers_battle(req) ==> battle_started(
        before.runtime,
        after.runtime,
        before.runtime.last_world_level,
        0,
        seed,
    ) && (rsp.battle_info matches Some(b) && battle_matches(
        b,
        after.data,
        after.runtime.current_battle->Some_0,
    ))
    &&& !triggers_battle(req) ==> rsp.battle_info is None && after.runtime == before.runtime
}

fn any_trigger(infos: &Vec<HitMonsterBattleInfo>, req: &SceneCastSkillCsReq) -> (b: bool)
    requires
        infos@ == hit_infos(*req),
    ensures
        b == triggers_battle(*req),
{
    let mut should_trigger = false;
    let mut i: usize = 0;
    while i < infos.len()
        invariant
            i <= infos@.len(),
            infos@ == hit_infos(*req),
            should_trigger <==> exists|k: int|
                0 <= k < i && (#[trigger] hit_infos(*req)[k]).monster_battle_type
                    == MONSTER_BATTLE_TRIGGER,
        decreases infos@.len() - i,
    {
        if infos[i].monster_battle_type == MONSTER_BATTLE_TRIGGER {
            should_trigger = true;
        }
        i = i + 1;
    }
    should_trigger
}

/// Whether some monster a skill hits starts a battle.
pub fn skill_triggers_battle(req: &SceneCastSkillCsReq) -> (b: bool)
    ensures
        b == triggers_battle(*req),
{
    let infos = hit_monster_infos(req);
    any_trigger(&infos, req)
}

/// A skill cast in the overworld. Reports how each hit monster reacts; when some hit
/// starts a battle, starts the configured battle at the last world level.
pub fn on_scene_cast_skill(state: &mut GameServerState, req: &SceneCastSkillCsReq, seed: u32) -> (rsp:
    SceneCastSkillScRsp)
    requires
        old(state).wf(),
        triggers_battle(*req) ==> battle_data_fits(old(state).data, old(state).runtime.lineup@),
    ensures
        final(state).wf(),
        skill_cast(*old(state), *final(state), *req, seed, rsp),
{
    let monster_battle_info = hit_monster_infos(req);
    let should_trigger = any_trigger(&monster_battle_info, req);
    let battle_info = if should_trigger {
        let world_level = state.runtime.last_world_level;
        Some(start_battle(state, world_level, 0, seed))
    } else {
        None
    };
    SceneCastSkillScRsp { battle_info, monster_battle_info, cast_entity_id: req.cast_entity_id, retcode: 0 }
}

/// The runtime after a battle ended with status `end_status`: no battle is on or
/// stored, and the status is kept (a win when it is 0). Nothing else changes.
pub open spec fn battle_ended(
    old_rt: crate::state::RuntimeState,
    new_rt: crate::state::RuntimeState,
    end_status: i32,
) -> bool {
    &&& !new_rt.on_battle
    &&& new_rt.current_battle is None
    &&& new_rt.last_battle_end_status == if end_status != 0 {
        end_status
    } else {
        BATTLE_END_WIN
    }
    &&& new_rt.lineup == old_rt.lineup
    &&& new_rt.leader_slot == old_rt.leader_slot
    &&& new_rt.mc_id == old_rt.mc_id
    &&& new_rt.march_id == old_rt.march_id
    &&& new_rt.client_paused == old_rt.client_paused
    &&& new_rt.next_battle_id == old_rt.next_battle_id
    &&& new_rt.last_world_level == old_rt.last_world_level
}

/// A battle result applied (see `battle_ended`) and answered with the lineup as it
/// stands after the battle.
pub open spec fn battle_result_applied(
    before: GameServerState,
    after: GameServerState,
    req: PveBattleResultCsReq,
    rsp: PveBattleResultScRsp,
) -> bool {
    &&& after.data == before.data
    &&& battle_ended(before.runtime, after.runtime, req.end_status)
    &&& rsp.battle_id == req.battle_id
    &&& rsp.stage_id == if req.stage_id == 0 {
        before.data.battle.stage_id
    } else {
        req.stage_id
    }
    &&& rsp.end_status == req.end_status
    &&& rsp.retcode == 0
    &&& battle_avatars_are(
        rsp.battle_avatar_list@,
        before.data,
        before.runtime.lineup@,
        before.runtime.last_world_level,
        0,
    )
}

/// Ends the battle in progress with status `end_status` (a win when it is 0).
pub fn end_battle(state: &mut GameServerState, end_status: i32)
    requires
        old(state).wf(),
    ensures
        final(state).wf(),
        final(state).data == old(state).data,
        battle_ended(old(state).runtime, final(state).runtime, end_status),
{
    state.runtime.on_battle = false;
    state.runtime.current_battle = None;
    state.runtime.last_battle_end_status = if end_status != 0 {
        end_status
    } else {
        BATTLE_END_WIN
    };
}

/// The end of a battle: no battle is on any more and the end status is kept
/// (a win when the request gives none). The response lists the lineup's characters
/// as they stand after the battle.
pub fn on_pve_battle_result(state: &mut GameServerState, req: &PveBattleResultCsReq) -> (rsp:
    PveBattleResultScRsp)
    requires
        old(state).wf(),
        worn_relics_fit(old(state).data, old(state).runtime.lineup@),
    ensures
        final(state).wf(),
        battle_result_applied(*old(state), *final(state), *req, rsp),
{
    let world_level = state.runtime.last_world_level;
    end_battle(state, req.end_status);
    let stage_id = if req.stage_id == 0 {
        state.data.battle.stage_id
    } else {
        req.stage_id
    };
    PveBattleResultScRsp {
        battle_id: req.battle_id,
        stage_id,
        end_status: req.end_status,
        battle_avatar_list: build_battle_avatars(&state.data, &state.runtime.lineup, world_level, 0),
        retcode: 0,
    }
}

/// The energy-cost answer echoes the casting entity.
pub open spec fn cost_mp_reply(req: SceneCastSkillCostMpCsReq, rsp: SceneCastSkillCostMpScRsp) -> bool {
    &&& rsp.cast_entity_id == req.cast_entity_id
    &&& rsp.retcode == 0
}

/// Echoes the casting entity of a skill's energy cost.
pub fn on_scene_cast_skill_cost_mp(req: &SceneCastSkillCostMpCsReq) -> (rsp: SceneCastSkillCostMpScRsp)
    ensures
        cost_mp_reply(*req, rsp),
{
    SceneCastSkillCostMpScRsp { cast_entity_id: req.cast_entity_id, retcode: 0 }
}

/// The resource-version answer echoes the version.
pub open spec fn res_version_reply(req: SyncClientResVersionCsReq, rsp: SyncClientResVersionScRsp) -> bool {
    &&& rsp.client_res_version == req.client_res_version
    &&& rsp.retcode == 0
}

/// Echoes the client's resource version.
pub fn on_sync_client_res_version(req: &SyncClientResVersionCsReq) -> (rsp: SyncClientResVersionScRsp)
    ensures
        res_version_reply(*req, rsp),
{
    SyncClientResVersionScRsp { client_res_version: req.client_res_version, retcode: 0 }
}

// ----- laws -----

/// A started battle is the battle reported: right after a battle starts, the
/// current-battle report shows it, with the id that was next, the requested world
/// level and seed, the session's lineup and no end status.
pub proof fn lemma_started_battle_is_reported(
    before: GameServerState,
    after: GameServerState,
    world_level: u32,
    technique_avatar_id: u32,
    seed: u32,
    rsp: GetCurBattleInfoScRsp,
)
    requires
        before.wf(),
        after.data == before.data,
        battle_started(before.runtime, after.runtime, world_level, technique_avatar_id, seed),
        cur_battle_reply(after, rsp),
    ensures
        rsp.retcode == 0,
        rsp.last_end_status == BATTLE_END_NONE,
        rsp.battle_info matches Some(b) && {
            &&& battle_matches(b, before.data, after.runtime.current_battle->Some_0)
            &&& b.battle_id == before.runtime.next_battle_id
            &&& b.world_level == world_level
            &&& b.logic_random_seed == seed
            &&& b.stage_id == before.data.battle.stage_id
            &&& battle_avatars_are(
                b.battle_avatar_list@,
                before.data,
                before.runtime.lineup@,
                world_level,
                technique_avatar_id,
            )
            &&& buffs_are(
                b.buff_list@,
                expected_buffs(before.data, before.runtime.lineup@, before.runtime.leader_slot),
            )
        },
{
}

/// An ended battle is reported no more: after a battle result, the current-battle
/// report shows no battle and the status the result gave (a win for status 0).
pub proof fn lemma_ended_battle_is_not_reported(
    before: GameServerState,
    after: GameServerState,
    end_status: i32,
    rsp: GetCurBattleInfoScRsp,
)
    requires
        battle_ended(before.runtime, after.runtime, end_status),
        cur_battle_reply(after, rsp),
    ensures
        rsp.retcode == 0,
        rsp.battle_info is None,
        rsp.last_end_status == if end_status != 0 {
            end_status
        } else {
            BATTLE_END_WIN
        },
{
}

/// Battle ids are handed out in increasing order: of two battles started one after
/// the other (with any handlers that keep the id counter in between), the second
/// has the larger id, unless the counter reached its maximum.
pub proof fn lemma_battle_ids_increase(
    r0: crate::state::RuntimeState,
    r1: crate::state::RuntimeState,
    r1_later: crate::state::RuntimeState,
    r2: crate::state::RuntimeState,
    w1: u32,
    t1: u32,
    s1: u32,
    w2: u32,
    t2: u32,
    s2: u32,
)
    requires
        battle_started(r0, r1, w1, t1, s1),
        r1_later.next_battle_id == r1.next_battle_id,
        battle_started(r1_later, r2, w2, t2, s2),
        r0.next_battle_id < u32::MAX,
    ensures
        r1.current_battle->Some_0.battle_id < r2.current_battle->Some_0.battle_id,
{
}

/// `level` is the highest level among the monsters `ms`, or 95 when there are none.
pub open spec fn highest_level(level: u32, ms: Seq<BattleMonsterRecord>) -> bool {
    if ms.len() == 0 {
        level == 95
    } else {
        &&& forall|i: int| 0 <= i < ms.len() ==> #[trigger] ms[i].level <= level
        &&& exists|i: int| 0 <= i < ms.len() && #[trigger] ms[i].level == level
    }
}

/// The level of a wave is the highest level of its monsters (95 for an empty wave):
/// no monster of the wave is above it, and some monster has it.
pub proof fn lemma_wave_level_is_highest(ms: Seq<BattleMonsterRecord>)
    ensures
        highest_level(wave_level(ms), ms),
    decreases ms.len(),
{
    if ms.len() > 1 {
        let r = ms.drop_last();
        lemma_wave_level_is_highest(r);
        let w = choose|i: int| 0 <= i < r.len() && #[trigger] r[i].level == wave_level(r);
        assert(forall|i: int| 0 <= i < r.len() ==> r[i] == ms[i]);
        if wave_level(r) < ms.last().level {
            assert(ms[ms.len() - 1].level == wave_level(ms));
        } else {
            assert(ms[w].level == wave_level(ms));
        }
        assert forall|i: int| 0 <= i < ms.len() implies #[trigger] ms[i].level <= wave_level(ms) by {
            if i < r.len() {
                assert(r[i].level <= wave_level(r));
            }
        }
    } else if ms.len() == 1 {
        assert(ms[0].level == wave_level(ms));
    }
}

/// Every wave of a started battle has the level of its highest monster (95 when the
/// wave is empty), whatever order the monsters are listed in.
pub proof fn lemma_battle_wave_levels(b: SceneBattleInfo, data: GameData, p: BattleParams)
    requires
        battle_matches(b, data, p),
    ensures
        b.monster_wave_list@.len() == data.battle.monsters@.len(),
        forall|w: int|
            0 <= w < b.monster_wave_list@.len() ==> ((#[trigger] b.monster_wave_list@[w]).monster_param matches Some(
                mp,
            ) && highest_level(mp.level, data.battle.monsters@[w]@)),
{
    assert forall|w: int| 0 <= w < b.monster_wave_list@.len() implies ((#[trigger] b.monster_wave_list@[w]).monster_param matches Some(
        mp,
    ) && highest_level(mp.level, data.battle.monsters@[w]@)) by {
        lemma_wave_level_is_highest(data.battle.monsters@[w]@);
    }
}

/// A skill cast starts a battle exactly when at least one of the hits it reports
/// starts one, whichever hit that is; a started battle is on afterwards, and a cast
/// that starts none changes nothing.
pub proof fn lemma_cast_starts_battle_iff_a_hit_triggers(
    before: GameServerState,
    after: GameServerState,
    req: SceneCastSkillCsReq,
    seed: u32,
    rsp: SceneCastSkillScRsp,
)
    requires
        skill_cast(before, after, req, seed, rsp),
    ensures
        rsp.battle_info is Some <==> exists|k: int|
            0 <= k < rsp.monster_battle_info@.len() && (#[trigger] rsp.monster_battle_info@[k]).monster_battle_type
                == MONSTER_BATTLE_TRIGGER,
        rsp.battle_info is Some ==> after.runtime.on_battle,
        rsp.battle_info is None ==> after.runtime == before.runtime,
{
    if exists|k: int|
        0 <= k < rsp.monster_battle_info@.len() && (#[trigger] rsp.monster_battle_info@[k]).monster_battle_type
            == MONSTER_BATTLE_TRIGGER {
        let k = choose|k: int|
            0 <= k < rsp.monster_battle_info@.len() && (#[trigger] rsp.monster_battle_info@[k]).monster_battle_type
                == MONSTER_BATTLE_TRIGGER;
        assert(hit_infos(req)[k].monster_battle_type == MONSTER_BATTLE_TRIGGER);
    }
    if triggers_battle(req) {
        let k = choose|k: int|
            0 <= k < hit_infos(req).len() && (#[trigger] hit_infos(req)[k]).monster_battle_type
                == MONSTER_BATTLE_TRIGGER;
        assert(rsp.monster_battle_info@[k].monster_battle_type == MONSTER_BATTLE_TRIGGER);
    }
}

/// The total amount of the monsters `ms`.
pub open spec fn total_amount(ms: Seq<BattleMonsterRecord>) -> nat
    decreases ms.len(),
{
    if ms.len() == 0 {
        0
    } else {
        total_amount(ms.drop_last()) + ms.last().amount as nat
    }
}

/// A wave holds as many monsters as the amounts of its entries add up to, each one
/// of a listed monster, with no hit points set.
pub proof fn lemma_wave_monster_count(ms: Seq<BattleMonsterRecord>)
    ensures
        wave_monsters(ms).len() == total_amount(ms),
        forall|k: int|
            0 <= k < wave_monsters(ms).len() ==> (#[trigger] wave_monsters(ms)[k]).max_hp == 0 && exists|m: int|
                0 <= m < ms.len() && ms[m].monster_id == wave_monsters(ms)[k].monster_id,
    decreases ms.len(),
{
    if ms.len() > 0 {
        let r = ms.drop_last();
        lemma_wave_monster_count(r);
        let a = wave_monsters(r);
        let rep = Seq::new(ms.last().amount as nat, |i: int| SceneMonster { monster_id: ms.last().monster_id, max_hp: 0 });
        assert forall|k: int| 0 <= k < wave_monsters(ms).len() implies (#[trigger] wave_monsters(ms)[k]).max_hp == 0
            && exists|m: int| 0 <= m < ms.len() && ms[m].monster_id == wave_monsters(ms)[k].monster_id by {
            if k < a.len() {
                assert(wave_monsters(ms)[k] == a[k]);
                let m = choose|m: int| 0 <= m < r.len() && r[m].monster_id == a[k].monster_id;
                assert(ms[m] == r[m]);
            } else {
                assert(wave_monsters(ms)[k] == rep[k - a.len()]);
                assert(ms[ms.len() - 1].monster_id == wave_monsters(ms)[k].monster_id);
            }
        }
    }
}

/// A character enters battle with no more energy than its cap, which is never 0
/// (10000 when none is saved): full when its technique started the battle, else
/// its saved energy, capped.
pub proof fn lemma_battle_energy(a: AvatarRecord, technique_avatar_id: u32)
    ensures
        cur_sp_of(a, technique_avatar_id) <= max_sp_of(a),
        max_sp_of(a) > 0,
        a.sp_max != 0 ==> max_sp_of(a) == a.sp_max,
        a.sp_max == 0 ==> max_sp_of(a) == 10_000,
        technique_avatar_id != 0 && technique_avatar_id == a.avatar_id ==> cur_sp_of(a, technique_avatar_id)
            == max_sp_of(a),
        !(technique_avatar_id != 0 && technique_avatar_id == a.avatar_id) && a.sp_value <= max_sp_of(a)
            ==> cur_sp_of(a, technique_avatar_id) == a.sp_value,
{
}

/// A character's relics in battle are exactly the relics it wears: each saved relic
/// worn by `avatar` appears as often as in the saved list, and no other relic does.
pub proof fn lemma_relics_of_are_worn(rs: Seq<RelicRecord>, avatar: u32, r: RelicRecord)
    ensures
        relics_of(rs, avatar).to_multiset().count(r) == if r.equip_avatar == avatar {
            rs.to_multiset().count(r)
        } else {
            0
        },
    decreases rs.len(),
{
    broadcast use vstd::seq_lib::group_to_multiset_ensures;

    if rs.len() == 0 {
        assert(relics_of(rs, avatar).to_multiset() =~= vstd::multiset::Multiset::empty());
        assert(rs.to_multiset() =~= vstd::multiset::Multiset::empty());
    } else {
        lemma_relics_of_are_worn(rs.drop_last(), avatar, r);
        assert(rs == rs.drop_last().push(rs.last()));
    }
}

/// A relic in battle carries the saved relic's id, level and main stat, the saved
/// id plus 1 as its unique id, and each sub-stat with its id, count and step.
pub proof fn lemma_battle_relic_fields(out: BattleRelic, r: RelicRecord)
    requires
        battle_relic_is(out, r),
    ensures
        out.id == r.relic_id,
        out.level == r.level,
        out.main_affix_id == r.main_affix_id,
        out.unique_id == r.internal_uid + 1,
        out.sub_affix_list@.len() == r.sub_affixes@.len(),
        forall|q: int|
            0 <= q < r.sub_affixes@.len() ==> #[trigger] out.sub_affix_list@[q] == (RelicAffix {
                affix_id: r.sub_affixes@[q].sub_affix_id,
                cnt: r.sub_affixes@[q].count,
                step: r.sub_affixes@[q].step,
            }),
{
}

} // verus!
