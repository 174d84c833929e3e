use robinsr::avatar::{
    is_march_avatar, is_trailblazer_avatar, on_get_avatar_data, resolve_multi_path_avatar_type,
};
use robinsr::data::{AvatarRecord, BattleConfigRecord, GameData, LightconeRecord, RelicRecord, RelicSubAffixRecord};
use robinsr::item::on_get_bag;
use robinsr::mission::on_get_mission_status;
use robinsr::player::{
    on_get_basic_info, on_get_player_board_data, on_player_get_token, on_player_heart_beat,
    on_player_login, on_set_client_paused, HEAD_FRAME_LIFETIME_MS,
};
use robinsr::proto::{
    GetMissionStatusCsReq, HeadFrameInfo, HeadIconData, Material, PlayerHeartBeatCsReq,
    SceneEntity, SceneIdentifier, SetClientPausedCsReq, AVATAR_TYPE_FORMAL, MISSION_FINISH,
};
use robinsr::scene::on_get_cur_scene_info;
use robinsr::sdk::{base64_body, query_dispatch, query_gateway, sdk_account, GAME_PORT, SDK_PORT};
use robinsr::state::{initial_runtime, GameServerState};

fn avatar(id: u32) -> AvatarRecord {
    AvatarRecord {
        avatar_id: id,
        level: 70,
        promotion: 5,
        rank: 3,
        enhanced_id: 1,
        sp_value: 0,
        sp_max: 10_000,
        skills_by_anchor_type: vec![(id * 10, 1), (id * 10 + 1, 2)],
    }
}

fn server() -> GameServerState {
    let data = GameData {
        uid: 333,
        token: "tok".to_string(),
        nickname: "RobinSR".to_string(),
        avatars: vec![avatar(1001), avatar(1309), avatar(8001)],
        lightcones: vec![LightconeRecord { internal_uid: 5, equip_avatar: 1309, item_id: 23024, promotion: 6, rank: 1, level: 80 }],
        relics: vec![RelicRecord {
            internal_uid: 9,
            equip_avatar: 1309,
            level: 15,
            main_affix_id: 2,
            relic_id: 61011,
            sub_affixes: vec![RelicSubAffixRecord { sub_affix_id: 1, count: 1, step: 0 }],
        }],
        battle: BattleConfigRecord {
            battle_type: String::new(),
            stage_id: 0,
            cycle_count: 0,
            path_resonance_id: 0,
            monsters: Vec::new(),
            blessings: Vec::new(),
        },
        mc_id: 8006,
        march_id: 1224,
        lineup: vec![1309, 1001],
    };
    let runtime = initial_runtime(&data);
    GameServerState { data, runtime }
}

#[test]
fn token_heartbeat_login_basic_info() {
    let s = server();
    let t = on_player_get_token(&s);
    assert_eq!((t.retcode, t.uid), (0, 333));
    let h = on_player_heart_beat(&PlayerHeartBeatCsReq { client_time_ms: 11 }, 22);
    assert_eq!((h.retcode, h.client_time_ms, h.server_time_ms), (0, 11, 22));
    let l = on_player_login(&s, 99);
    let b = l.basic_info.unwrap();
    assert_eq!(b.nickname, "RobinSR");
    assert_eq!((b.level, b.stamina, b.world_level), (70, 240, 6));
    assert_eq!((l.server_timestamp_ms, l.stamina, l.retcode), (99, 240, 0));
    let i = on_get_basic_info();
    assert_eq!((i.cur_day, i.is_gender_set, i.gender, i.retcode), (1, true, 1, 0));
    assert!(i.player_setting_info.is_some());
}

#[test]
fn board_data() {
    let s = server();
    let b = on_get_player_board_data(&s, 1_000);
    assert_eq!(b.signature, "RobinSR");
    assert_eq!(b.current_head_icon_id, 8006);
    assert_eq!(b.unlocked_head_icon_list, vec![HeadIconData { id: 8006 }, HeadIconData { id: 1224 }]);
    assert_eq!(b.head_frame_info, Some(HeadFrameInfo { head_frame_item_id: 226004, head_frame_expire_time: 86_401_000 }));
    assert_eq!(HEAD_FRAME_LIFETIME_MS, 86_400_000);
    assert_eq!((b.current_personal_card_id, b.retcode), (253001, 0));
    assert_eq!(b.unlocked_personal_card_list, vec![253001]);
    assert!(!b.display_avatar_vec.unwrap().is_display);
}

#[test]
fn client_paused_is_kept() {
    let mut s = server();
    let r = on_set_client_paused(&mut s, &SetClientPausedCsReq { paused: true });
    assert!(r.paused && s.runtime.client_paused);
    assert_eq!(r.retcode, 0);
    let r = on_set_client_paused(&mut s, &SetClientPausedCsReq { paused: false });
    assert!(!r.paused && !s.runtime.client_paused);
}

#[test]
fn multi_path_types() {
    let s = server();
    assert!(is_trailblazer_avatar(8001) && is_trailblazer_avatar(8010));
    assert!(!is_trailblazer_avatar(8000) && !is_trailblazer_avatar(8011));
    assert!(is_march_avatar(1001) && is_march_avatar(1224) && !is_march_avatar(1002));
    assert_eq!(resolve_multi_path_avatar_type(&s.data, 8003), 8006);
    assert_eq!(resolve_multi_path_avatar_type(&s.data, 1001), 1224);
    assert_eq!(resolve_multi_path_avatar_type(&s.data, 1309), 1309);
}

#[test]
fn avatar_data_lists_every_character() {
    let s = server();
    let r = on_get_avatar_data(&s, 5_000);
    assert!(r.is_get_all);
    assert_eq!(r.retcode, 0);
    assert_eq!(r.basic_type_id_list, vec![1001, 1309, 8001]);
    let types: Vec<u32> = r.avatar_list.iter().map(|a| a.cur_multi_path_avatar_type).collect();
    assert_eq!(types, vec![1224, 1309, 8006]);
    assert_eq!(r.avatar_list[1].first_met_time_stamp, 5_000);
    assert_eq!((r.avatar_list[1].level, r.avatar_list[1].promotion, r.avatar_list[1].base_avatar_id), (70, 5, 1309));
    let p = &r.avatar_path_data_info_list[1];
    assert_eq!((p.avatar_id, p.rank, p.unlock_timestamp, p.unk_enhanced_id), (1309, 3, 5_000, 1));
    assert_eq!(p.avatar_path_skill_tree.len(), 2);
    assert_eq!((p.avatar_path_skill_tree[1].point_id, p.avatar_path_skill_tree[1].level), (13091, 2));
}

#[test]
fn bag_shifts_unique_ids() {
    let s = server();
    let b = on_get_bag(&s);
    assert_eq!(b.retcode, 0);
    assert_eq!(b.equipment_list.len(), 1);
    let e = b.equipment_list[0];
    assert_eq!((e.unique_id, e.tid, e.dress_avatar_id, e.level, e.rank, e.promotion, e.exp, e.is_protected), (2005, 23024, 1309, 80, 1, 6, 0, false));
    assert_eq!(b.relic_list.len(), 1);
    let r = &b.relic_list[0];
    assert_eq!((r.unique_id, r.tid, r.dress_avatar_id, r.main_affix_id, r.level), (10, 61011, 1309, 2, 15));
    assert_eq!(r.sub_affix_list.len(), 1);
    assert_eq!(
        b.material_list,
        vec![Material { tid: 101, num: 999999, expire_time: 0 }, Material { tid: 102, num: 999999, expire_time: 0 }]
    );
}

#[test]
fn missions_all_finished() {
    let r = on_get_mission_status(GetMissionStatusCsReq { main_mission_id_list: vec![1, 2], sub_mission_id_list: vec![10, 11, 12] });
    assert_eq!(r.finished_main_mission_id_list, vec![1, 2]);
    assert_eq!(r.sub_mission_status_list.len(), 3);
    assert_eq!(r.sub_mission_status_list[2].id, 12);
    assert!(r.sub_mission_status_list.iter().all(|m| m.progress == 1 && m.status == MISSION_FINISH));
    assert_eq!(r.retcode, 0);
}

#[test]
fn scene_shows_leader() {
    let mut s = server();
    s.runtime.leader_slot = 1;
    let r = on_get_cur_scene_info(&s);
    assert_eq!(r.retcode, 0);
    let scene = r.scene.unwrap();
    assert_eq!((scene.plane_id, scene.entry_id, scene.floor_id, scene.world_id), (20503, 2050301, 20503001, 601));
    assert_eq!((scene.game_mode_type, scene.leader_entity_id), (1, 1));
    assert_eq!(scene.scene_identifier, Some(SceneIdentifier { floor_id: 20503001 }));
    assert_eq!(scene.entity_group_list.len(), 2);
    let player = scene.entity_group_list[0].entity_list[0];
    match player.entity {
        Some(SceneEntity::Actor(a)) => {
            assert_eq!((a.base_avatar_id, a.avatar_type, a.map_layer, a.uid), (1001, AVATAR_TYPE_FORMAL, 2, 333));
        }
        _ => panic!("player entity is not an actor"),
    }
    assert_eq!(player.motion.unwrap().pos.unwrap().x, 49087);
    let prop = scene.entity_group_list[1].entity_list[0];
    assert_eq!((scene.entity_group_list[1].group_id, prop.entity_id, prop.group_id, prop.inst_id), (20, 84, 239, 300001));
    // an empty lineup shows the trailblazer's path
    s.runtime.lineup.clear();
    s.runtime.leader_slot = 0;
    let scene = on_get_cur_scene_info(&s).scene.unwrap();
    match scene.entity_group_list[0].entity_list[0].entity {
        Some(SceneEntity::Actor(a)) => assert_eq!(a.base_avatar_id, 8006),
        _ => panic!("player entity is not an actor"),
    }
}

#[test]
fn sdk_answers() {
    assert_eq!(base64_body(b"hello"), "aGVsbG8=");
    assert_eq!(base64_body(&[]), "");
    assert_eq!(base64_body(&[0xff, 0xfe]), "//4=");
    let d = query_dispatch();
    assert_eq!((d.retcode, d.msg.as_str()), (0, "OK"));
    assert_eq!(d.region_list.len(), 1);
    assert_eq!(d.region_list[0].name, "prod_gf_cn");
    assert_eq!(d.region_list[0].title, "RobinSR");
    assert_eq!(d.region_list[0].dispatch_url, format!("http://127.0.0.1:{SDK_PORT}/query_gateway"));
    assert_eq!(d.region_list[0].env_type, "9");
    let g = query_gateway();
    assert_eq!(g.ip, "127.0.0.1");
    assert_eq!(g.port, GAME_PORT as u32);
    assert_eq!(g.region_name, "prod_gf_cn");
    assert_eq!(g.ifix_version, "0");
    assert!(g.lua_url.is_empty() && g.ex_resource_url.is_empty() && g.asset_bundle_url.is_empty());
    assert!(g.unk1 && g.unk8 && g.unk15);
    let a = sdk_account(&server().data);
    assert_eq!((a.token.as_str(), a.uid.as_str()), ("tok", "333"));
}
