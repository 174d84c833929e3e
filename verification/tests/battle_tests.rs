use robinsr::battle::{
    add_battle_targets, add_su_resonance_event, build_battle_avatars, build_monster_waves, build_stage_blessings,
    collect_target_monster_ids, create_battle, get_battle_type, is_as_stage, is_pf_stage,
    is_su_battle_type, make_skill_index_buff, on_get_cur_battle_info, on_pve_battle_result,
    on_scene_cast_skill, on_scene_cast_skill_cost_mp, on_start_cocoon_stage,
    on_sync_client_res_version, vec_contains,
};
use robinsr::data::{
    AvatarRecord, BattleBlessingRecord, BattleConfigRecord, BattleMonsterRecord, GameData,
    LightconeRecord, RelicRecord, RelicSubAffixRecord,
};
use robinsr::proto::{
    BattleEventBattleInfo, BattleTarget, BattleTargetList, PveBattleResultCsReq, SceneBattleInfo, SceneCastSkillCostMpCsReq, SceneCastSkillCsReq,
    SceneMonster, SpBarInfo, StartCocoonStageCsReq, SyncClientResVersionCsReq,
    AVATAR_TYPE_FORMAL, BATTLE_END_NONE, BATTLE_END_QUIT, BATTLE_END_WIN,
    MONSTER_BATTLE_DIRECT_DIE_SKIP, MONSTER_BATTLE_TRIGGER,
};
use robinsr::state::{initial_runtime, BattleParams, GameServerState};

fn avatar(id: u32, sp_value: u32, sp_max: u32) -> AvatarRecord {
    AvatarRecord {
        avatar_id: id,
        level: 80,
        promotion: 6,
        rank: 2,
        enhanced_id: 0,
        sp_value,
        sp_max,
        skills_by_anchor_type: vec![(id * 100 + 1, 6), (id * 100 + 2, 10)],
    }
}

fn game_data(stage_id: u32, battle_type: &str, lineup: Vec<u32>) -> GameData {
    GameData {
        uid: 333,
        token: "t".to_string(),
        nickname: "RobinSR".to_string(),
        avatars: vec![avatar(1001, 50, 100), avatar(1309, 500, 0), avatar(1407, 0, 160), avatar(1506, 10, 100)],
        lightcones: vec![
            LightconeRecord { internal_uid: 10, equip_avatar: 1309, item_id: 23024, promotion: 6, rank: 1, level: 80 },
            LightconeRecord { internal_uid: 11, equip_avatar: 1309, item_id: 21000, promotion: 6, rank: 5, level: 80 },
        ],
        relics: vec![
            RelicRecord {
                internal_uid: 20,
                equip_avatar: 1309,
                level: 15,
                main_affix_id: 1,
                relic_id: 61011,
                sub_affixes: vec![RelicSubAffixRecord { sub_affix_id: 4, count: 2, step: 3 }],
            },
            RelicRecord { internal_uid: 21, equip_avatar: 1001, level: 15, main_affix_id: 2, relic_id: 61012, sub_affixes: Vec::new() },
            RelicRecord { internal_uid: 22, equip_avatar: 1309, level: 12, main_affix_id: 3, relic_id: 61013, sub_affixes: Vec::new() },
        ],
        battle: BattleConfigRecord {
            battle_type: battle_type.to_string(),
            stage_id,
            cycle_count: 30,
            path_resonance_id: 9,
            monsters: vec![
                vec![
                    BattleMonsterRecord { monster_id: 3001, amount: 2, level: 80 },
                    BattleMonsterRecord { monster_id: 3002, amount: 1, level: 90 },
                ],
                Vec::new(),
            ],
            blessings: vec![BattleBlessingRecord { id: 61, level: 0 }, BattleBlessingRecord { id: 62, level: 3 }],
        },
        mc_id: 8006,
        march_id: 1224,
        lineup,
    }
}

fn server(stage_id: u32, lineup: Vec<u32>) -> GameServerState {
    let data = game_data(stage_id, "", lineup);
    let runtime = initial_runtime(&data);
    GameServerState { data, runtime }
}

fn params(lineup: Vec<u32>, leader_slot: u32, technique: u32) -> BattleParams {
    BattleParams { battle_id: 5, world_level: 6, technique_avatar_id: technique, seed: 77, lineup, leader_slot }
}

fn cast(attacker: u32, skill_index: u32, hits: Vec<u32>) -> SceneCastSkillCsReq {
    SceneCastSkillCsReq {
        cast_entity_id: 1,
        attacked_by_entity_id: attacker,
        skill_index,
        assist_monster_entity_id_list: Vec::new(),
        hit_target_entity_id_list: hits,
        assist_monster_entity_info: Vec::new(),
    }
}

#[test]
fn battle_type_rules() {
    assert_eq!(get_battle_type(5, 5, 0), MONSTER_BATTLE_TRIGGER);
    assert_eq!(get_battle_type(5, 1000, 1), MONSTER_BATTLE_TRIGGER);
    assert_eq!(get_battle_type(1_000_000, 100_000, 1), MONSTER_BATTLE_DIRECT_DIE_SKIP);
    assert_eq!(get_battle_type(1_000_001, 100_000, 1), MONSTER_BATTLE_TRIGGER);
    assert_eq!(get_battle_type(5, 99_999, 1), MONSTER_BATTLE_TRIGGER);
    assert_eq!(get_battle_type(5, 0, 1), MONSTER_BATTLE_TRIGGER);
}

#[test]
fn stage_kinds() {
    assert!(is_pf_stage(30019000) && is_pf_stage(30019100) && is_pf_stage(30021050) && is_pf_stage(30399900));
    assert!(!is_pf_stage(30019101) && !is_pf_stage(30020000) && !is_pf_stage(30301000 - 1));
    assert!(is_as_stage(420100) && is_as_stage(420900));
    assert!(!is_as_stage(420099) && !is_as_stage(420901));
    assert!(is_su_battle_type(&"SU".to_string()) && is_su_battle_type(&"sU".to_string()));
    assert!(!is_su_battle_type(&"SUX".to_string()) && !is_su_battle_type(&"".to_string()));
}

#[test]
fn helpers() {
    let b = make_skill_index_buff(7, 2, 3);
    assert_eq!((b.id, b.level, b.owner_index, b.wave_flag, b.skill_index), (7, 2, 3, u32::MAX, 0));
    assert_eq!(b.target_index_list, vec![0]);
    assert!(vec_contains(&vec![1, 2, 3], 3));
    assert!(!vec_contains(&Vec::new(), 3));
}

#[test]
fn target_ids_priority() {
    let mut req = SceneCastSkillCsReq::default();
    req.assist_monster_entity_info = vec![vec![1, 2], vec![], vec![3]];
    assert_eq!(collect_target_monster_ids(&req), vec![1, 2, 3]);
    req.hit_target_entity_id_list = vec![7];
    assert_eq!(collect_target_monster_ids(&req), vec![7]);
    req.assist_monster_entity_id_list = vec![9, 8];
    assert_eq!(collect_target_monster_ids(&req), vec![9, 8]);
    assert!(collect_target_monster_ids(&SceneCastSkillCsReq::default()).is_empty());
}

#[test]
fn battle_avatars_of_lineup() {
    let d = game_data(1, "", Vec::new());
    // 4242 is not owned and is skipped; slots keep their lineup position
    let out = build_battle_avatars(&d, &vec![1001, 4242, 1309], 6, 1309);
    assert_eq!(out.len(), 2);
    let a = &out[0];
    assert_eq!((a.id, a.index, a.avatar_type, a.hp, a.world_level, a.rank), (1001, 0, AVATAR_TYPE_FORMAL, 10_000, 6, 2));
    assert_eq!(a.sp_bar, Some(SpBarInfo { cur_sp: 50, max_sp: 100 }));
    assert!(a.equipment_list.is_empty());
    assert_eq!(a.relic_list.len(), 1);
    assert_eq!(a.relic_list[0].unique_id, 22);
    let b = &out[1];
    assert_eq!((b.id, b.index), (1309, 2));
    // technique user: full bar; cap 0 means 10000
    assert_eq!(b.sp_bar, Some(SpBarInfo { cur_sp: 10_000, max_sp: 10_000 }));
    assert_eq!(b.equipment_list.len(), 1);
    assert_eq!(b.equipment_list[0].id, 23024);
    assert_eq!(b.relic_list.len(), 2);
    assert_eq!(b.relic_list[0].id, 61011);
    assert_eq!(b.relic_list[0].unique_id, 21);
    assert_eq!(b.relic_list[0].sub_affix_list[0].affix_id, 4);
    assert_eq!(b.relic_list[0].sub_affix_list[0].cnt, 2);
    assert_eq!(b.relic_list[0].sub_affix_list[0].step, 3);
    assert_eq!(b.relic_list[1].id, 61013);
    assert_eq!(b.skilltree_list.len(), 2);
    assert_eq!((b.skilltree_list[1].point_id, b.skilltree_list[1].level), (130902, 10));
    // without the technique the saved energy is capped at the maximum
    let out = build_battle_avatars(&d, &vec![1309], 6, 0);
    assert_eq!(out[0].sp_bar, Some(SpBarInfo { cur_sp: 500, max_sp: 10_000 }));
}

#[test]
fn monster_waves_and_blessings() {
    let d = game_data(4242, "", Vec::new());
    let w = build_monster_waves(&d);
    assert_eq!(w.len(), 2);
    assert_eq!((w[0].battle_stage_id, w[0].battle_wave_id), (4242, 1));
    assert_eq!(w[0].monster_param.unwrap().level, 90);
    assert_eq!(
        w[0].monster_list,
        vec![
            SceneMonster { monster_id: 3001, max_hp: 0 },
            SceneMonster { monster_id: 3001, max_hp: 0 },
            SceneMonster { monster_id: 3002, max_hp: 0 },
        ]
    );
    assert_eq!(w[1].battle_wave_id, 2);
    assert_eq!(w[1].monster_param.unwrap().level, 95);
    assert!(w[1].monster_list.is_empty());
    let b = build_stage_blessings(&d);
    assert_eq!(b.len(), 2);
    assert_eq!((b[0].id, b[0].level, b[0].owner_index), (61, 1, u32::MAX));
    assert_eq!((b[1].id, b[1].level), (62, 3));
}

#[test]
fn created_battle_buffs_targets_and_event() {
    let mut d = game_data(30019050, "su", Vec::new());
    let info = create_battle(&d, &params(vec![1407, 1001, 1506], 2, 0));
    assert_eq!((info.battle_id, info.stage_id, info.logic_random_seed), (5, 30019050, 77));
    assert_eq!((info.rounds_limit, info.monster_wave_length, info.world_level), (30, 2, 6));
    let ids: Vec<(u32, u32, u32, u32)> = info.buff_list.iter().map(|b| (b.id, b.level, b.owner_index, b.skill_index)).collect();
    assert_eq!(
        ids,
        vec![(61, 1, u32::MAX, 0), (62, 3, u32::MAX, 0), (1000111, 1, 2, 1), (140703, 1, 1, 0), (150602, 1, 1, 0)]
    );
    let keys: Vec<u32> = info.battle_target_info.iter().map(|e| e.0).collect();
    assert_eq!(keys, vec![1, 2, 3, 4, 5]);
    assert_eq!(info.battle_target_info[0].1.battle_target_list[0].id, 10002);
    assert_eq!(info.battle_target_info[0].1.battle_target_list[0].total_progress, 80000);
    assert_eq!(info.battle_target_info[4].1.battle_target_list.len(), 2);
    assert_eq!(info.battle_event.len(), 1);
    assert_eq!(info.battle_event[0].battle_event_id, 9);

    d.battle.stage_id = 420500;
    d.battle.battle_type = "MoC".to_string();
    let info = create_battle(&d, &params(vec![1001], 0, 0));
    assert_eq!(info.buff_list.len(), 3);
    assert_eq!(info.battle_target_info.len(), 1);
    assert_eq!(info.battle_target_info[0].1.battle_target_list[0].id, 90005);
    assert_eq!(info.battle_target_info[0].1.battle_target_list[0].progress, 2000);
    assert!(info.battle_event.is_empty());

    d.battle.stage_id = 1;
    d.battle.battle_type = "SU".to_string();
    d.battle.path_resonance_id = 0;
    let info = create_battle(&d, &params(vec![1001], 0, 0));
    assert!(info.battle_target_info.is_empty());
    assert!(info.battle_event.is_empty());
}

#[test]
fn add_battle_targets_on_plain_stage_adds_none() {
    let mut b = SceneBattleInfo {
        battle_id: 1,
        stage_id: 100,
        logic_random_seed: 0,
        rounds_limit: 0,
        monster_wave_length: 0,
        world_level: 0,
        battle_avatar_list: Vec::new(),
        monster_wave_list: Vec::new(),
        buff_list: Vec::new(),
        battle_target_info: Vec::new(),
        battle_event: Vec::new(),
    };
    add_battle_targets(&mut b);
    assert!(b.battle_target_info.is_empty());
}

#[test]
fn add_battle_targets_overwrites_existing_keys() {
    let mut b = SceneBattleInfo {
        battle_id: 1,
        stage_id: 420100,
        logic_random_seed: 0,
        rounds_limit: 0,
        monster_wave_length: 0,
        world_level: 0,
        battle_avatar_list: Vec::new(),
        monster_wave_list: Vec::new(),
        buff_list: Vec::new(),
        battle_target_info: vec![
            (1, BattleTargetList { battle_target_list: vec![BattleTarget { id: 7, progress: 1, total_progress: 2 }] }),
            (9, BattleTargetList { battle_target_list: Vec::new() }),
        ],
        battle_event: vec![BattleEventBattleInfo { battle_event_id: 3, status: None }],
    };
    add_battle_targets(&mut b);
    assert_eq!(b.battle_target_info.len(), 2);
    assert_eq!(b.battle_target_info[0].0, 1);
    assert_eq!(b.battle_target_info[0].1.battle_target_list, vec![BattleTarget { id: 90005, progress: 2000, total_progress: 0 }]);
    assert_eq!(b.battle_target_info[1].0, 9);
    // the event of a simulated-universe battle is appended to those already there
    let d = game_data(1, "SU", Vec::new());
    add_su_resonance_event(&mut b, &d);
    assert_eq!(b.battle_event.len(), 2);
    assert_eq!((b.battle_event[0].battle_event_id, b.battle_event[1].battle_event_id), (3, 9));
}

#[test]
fn no_battle_before_start() {
    let s = server(1, vec![1001]);
    let rsp = on_get_cur_battle_info(&s);
    assert_eq!(rsp.retcode, 0);
    assert!(rsp.battle_info.is_none());
    assert_eq!(rsp.last_end_status, BATTLE_END_QUIT);
}

#[test]
fn started_battle_is_reported() {
    let mut s = server(1, vec![1001, 1309]);
    let req = StartCocoonStageCsReq { world_level: 0, technique_avatar_id: Some(1001), wave: 3, prop_entity_id: 84, cocoon_id: 1000 };
    let rsp = on_start_cocoon_stage(&mut s, &req, 1234);
    assert_eq!((rsp.wave, rsp.prop_entity_id, rsp.cocoon_id, rsp.challenge_cnt, rsp.retcode), (3, 84, 1000, 1, 0));
    let started = rsp.battle_info.unwrap();
    assert_eq!(started.battle_id, 1);
    assert_eq!(started.world_level, 6);
    assert_eq!(started.logic_random_seed, 1234);
    assert_eq!(started.battle_avatar_list[0].sp_bar, Some(SpBarInfo { cur_sp: 100, max_sp: 100 }));
    assert!(s.runtime.on_battle);
    assert_eq!(s.runtime.next_battle_id, 2);
    assert_eq!(s.runtime.last_world_level, 6);

    let cur = on_get_cur_battle_info(&s);
    assert_eq!(cur.last_end_status, BATTLE_END_NONE);
    assert_eq!(cur.battle_info, Some(started));
}

#[test]
fn ended_battle_is_not_reported() {
    let mut s = server(1, vec![1001]);
    on_start_cocoon_stage(&mut s, &StartCocoonStageCsReq { world_level: 4, ..Default::default() }, 1);
    let rsp = on_pve_battle_result(&mut s, &PveBattleResultCsReq { battle_id: 1, stage_id: 0, end_status: 0 });
    assert_eq!((rsp.battle_id, rsp.stage_id, rsp.end_status, rsp.retcode), (1, 1, 0, 0));
    assert_eq!(rsp.battle_avatar_list.len(), 1);
    assert_eq!(rsp.battle_avatar_list[0].world_level, 4);
    assert!(!s.runtime.on_battle);
    let cur = on_get_cur_battle_info(&s);
    assert!(cur.battle_info.is_none());
    assert_eq!(cur.last_end_status, BATTLE_END_WIN);

    let rsp = on_pve_battle_result(&mut s, &PveBattleResultCsReq { battle_id: 9, stage_id: 77, end_status: 3 });
    assert_eq!(rsp.stage_id, 77);
    assert_eq!(on_get_cur_battle_info(&s).last_end_status, 3);
}

#[test]
fn battle_ids_increase() {
    let mut s = server(1, vec![1001]);
    let a = on_start_cocoon_stage(&mut s, &StartCocoonStageCsReq::default(), 1).battle_info.unwrap().battle_id;
    on_pve_battle_result(&mut s, &PveBattleResultCsReq::default());
    let b = on_start_cocoon_stage(&mut s, &StartCocoonStageCsReq::default(), 2).battle_info.unwrap().battle_id;
    assert!(a < b);
    assert_eq!((a, b), (1, 2));
    s.runtime.next_battle_id = u32::MAX;
    let c = on_start_cocoon_stage(&mut s, &StartCocoonStageCsReq::default(), 3).battle_info.unwrap().battle_id;
    let d = on_start_cocoon_stage(&mut s, &StartCocoonStageCsReq::default(), 4).battle_info.unwrap().battle_id;
    assert_eq!((c, d), (u32::MAX, u32::MAX));
}

#[test]
fn skill_cast_that_triggers_starts_battle_at_last_world_level() {
    let mut s = server(1, vec![1001]);
    s.runtime.last_world_level = 3;
    let rsp = on_scene_cast_skill(&mut s, &cast(5, 0, vec![11, 12]), 42);
    assert_eq!(rsp.cast_entity_id, 1);
    assert_eq!(rsp.monster_battle_info.len(), 2);
    assert_eq!(rsp.monster_battle_info[1].target_monster_entity_id, 12);
    assert_eq!(rsp.monster_battle_info[1].monster_battle_type, MONSTER_BATTLE_TRIGGER);
    let b = rsp.battle_info.unwrap();
    assert_eq!((b.world_level, b.logic_random_seed, b.battle_id), (3, 42, 1));
    assert!(s.runtime.on_battle);
    assert_eq!(on_get_cur_battle_info(&s).battle_info, Some(b));
}

#[test]
fn skill_cast_that_kills_changes_nothing() {
    let mut s = server(1, vec![1001]);
    let rsp = on_scene_cast_skill(&mut s, &cast(100_000, 1, vec![11, 12]), 42);
    assert!(rsp.battle_info.is_none());
    assert!(rsp.monster_battle_info.iter().all(|m| m.monster_battle_type == MONSTER_BATTLE_DIRECT_DIE_SKIP));
    assert!(!s.runtime.on_battle);
    assert_eq!(s.runtime.next_battle_id, 1);
    let rsp = on_scene_cast_skill(&mut s, &cast(5, 0, Vec::new()), 42);
    assert!(rsp.battle_info.is_none());
    assert!(rsp.monster_battle_info.is_empty());
}

#[test]
fn echo_handlers() {
    let r = on_scene_cast_skill_cost_mp(&SceneCastSkillCostMpCsReq { cast_entity_id: 12 });
    assert_eq!((r.cast_entity_id, r.retcode), (12, 0));
    let r = on_sync_client_res_version(&SyncClientResVersionCsReq { client_res_version: 3421 });
    assert_eq!((r.client_res_version, r.retcode), (3421, 0));
}
