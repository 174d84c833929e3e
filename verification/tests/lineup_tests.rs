use robinsr::data::{AvatarRecord, BattleConfigRecord, GameData};
use robinsr::lineup::{
    build_lineup, build_sync_lineup_notify, on_change_lineup_leader, on_get_all_lineup_data,
    on_get_cur_lineup_data, on_replace_lineup, sorted_slots,
};
use robinsr::proto::{
    ChangeLineupLeaderCsReq, LineupSlotData, ReplaceLineupCsReq, SpBarInfo, AVATAR_TYPE_FORMAL,
    EXTRA_LINEUP_NONE, SYNC_REASON_NONE,
};
use robinsr::state::{
    collect_avatar_ids, initial_runtime, lineup_avatar_infos, lineup_max_slot, persist_snapshot,
    GameServerState, MAX_LINEUP,
};
use robinsr::proto::BATTLE_END_QUIT;

fn avatar(id: u32) -> AvatarRecord {
    AvatarRecord {
        avatar_id: id,
        level: 1,
        promotion: 0,
        rank: 1,
        enhanced_id: 0,
        sp_value: 0,
        sp_max: 10_000,
        skills_by_anchor_type: Vec::new(),
    }
}

fn data(ids: &[u32], lineup: Vec<u32>) -> GameData {
    GameData {
        uid: 333,
        token: "t".to_string(),
        nickname: "RobinSR".to_string(),
        avatars: ids.iter().map(|&i| avatar(i)).collect(),
        lightcones: Vec::new(),
        relics: Vec::new(),
        battle: BattleConfigRecord {
            battle_type: String::new(),
            stage_id: 0,
            cycle_count: 0,
            path_resonance_id: 0,
            monsters: Vec::new(),
            blessings: Vec::new(),
        },
        mc_id: 8006,
        march_id: 1224,
        lineup,
    }
}

fn server(ids: &[u32], lineup: Vec<u32>) -> GameServerState {
    let d = data(ids, lineup);
    let runtime = initial_runtime(&d);
    GameServerState { data: d, runtime }
}

fn slot(slot: u32, id: u32) -> LineupSlotData {
    LineupSlotData { slot, id }
}

fn lineup_ids(s: &GameServerState) -> Vec<u32> {
    on_get_cur_lineup_data(s).lineup.unwrap().avatar_list.iter().map(|a| a.id).collect()
}

#[test]
fn initial_runtime_defaults() {
    let s = server(&[1001, 1002, 1003, 1004, 1005], Vec::new());
    assert_eq!(s.runtime.lineup, vec![1001, 1002, 1003, 1004]);
    assert_eq!(s.runtime.leader_slot, 0);
    assert_eq!((s.runtime.mc_id, s.runtime.march_id), (8006, 1224));
    assert!(!s.runtime.client_paused && !s.runtime.on_battle);
    assert!(s.runtime.current_battle.is_none());
    assert_eq!(s.runtime.last_battle_end_status, BATTLE_END_QUIT);
    assert_eq!((s.runtime.next_battle_id, s.runtime.last_world_level), (1, 6));
    let s = server(&[1001, 1002], vec![1002, 9999, 1001, 7, 8]);
    assert_eq!(s.runtime.lineup, vec![1002, 9999, 1001, 7, 8]);
    let s = server(&[], Vec::new());
    assert!(s.runtime.lineup.is_empty());
}

#[test]
fn state_helpers() {
    assert_eq!(lineup_max_slot(&Vec::new()), 0);
    assert_eq!(lineup_max_slot(&vec![1, 2, 3]), 2);
    let d = data(&[1, 2, 3], Vec::new());
    assert_eq!(collect_avatar_ids(&d.avatars, 2), vec![1, 2]);
    assert_eq!(collect_avatar_ids(&d.avatars, 10), vec![1, 2, 3]);
    assert_eq!(MAX_LINEUP, 4);
}

#[test]
fn lineup_shows_at_most_four() {
    let s = server(&[1], vec![1, 2, 3, 4, 5, 6]);
    let info = build_lineup(&s.runtime);
    assert!(!info.is_virtual);
    assert_eq!((info.plane_id, info.mp, info.max_mp, info.index), (20503, 5, 5, 0));
    assert_eq!(info.name, "Robin Team");
    assert_eq!(info.extra_lineup_type, EXTRA_LINEUP_NONE);
    assert_eq!(info.avatar_list.len(), 4);
    let a = info.avatar_list[3];
    assert_eq!((a.id, a.slot, a.hp, a.avatar_type), (4, 3, 10_000, AVATAR_TYPE_FORMAL));
    assert_eq!(a.sp_bar, Some(SpBarInfo { cur_sp: 0, max_sp: 10_000 }));
    assert_eq!(lineup_avatar_infos(&s.runtime).len(), 4);
}

#[test]
fn all_lineup_data_and_notify() {
    let s = server(&[1, 2], vec![2, 1]);
    let all = on_get_all_lineup_data(&s);
    assert_eq!((all.retcode, all.cur_index, all.lineup_list.len()), (0, 0, 1));
    assert_eq!(all.lineup_list[0], build_lineup(&s.runtime));
    let n = build_sync_lineup_notify(&s);
    assert_eq!(n.reason_list, vec![SYNC_REASON_NONE]);
    assert_eq!(n.lineup.unwrap().avatar_list[0].id, 2);
    assert_eq!(on_get_cur_lineup_data(&s).retcode, 0);
}

#[test]
fn change_leader_is_capped() {
    let mut s = server(&[1, 2, 3], vec![1, 2, 3]);
    let r = on_change_lineup_leader(&mut s, &ChangeLineupLeaderCsReq { slot: 1 });
    assert_eq!((r.slot, r.retcode), (1, 0));
    assert_eq!(on_get_cur_lineup_data(&s).lineup.unwrap().leader_slot, 1);
    let r = on_change_lineup_leader(&mut s, &ChangeLineupLeaderCsReq { slot: 9 });
    assert_eq!(r.slot, 2);
    assert_eq!(s.runtime.leader_slot, 2);
    assert_eq!(lineup_ids(&s), vec![1, 2, 3]);
    let mut e = server(&[], Vec::new());
    assert_eq!(on_change_lineup_leader(&mut e, &ChangeLineupLeaderCsReq { slot: 3 }).slot, 0);
}

#[test]
fn replace_takes_owned_distinct_in_slot_order() {
    let mut s = server(&[1001, 1002, 1003, 1004, 1005], vec![1001]);
    let req = ReplaceLineupCsReq {
        lineup_slot_list: vec![slot(3, 1003), slot(0, 1002), slot(1, 0), slot(2, 4242), slot(1, 1002), slot(5, 1005), slot(4, 1001), slot(6, 1004)],
        leader_slot: 1,
    };
    assert_eq!(on_replace_lineup(&mut s, &req).retcode, 0);
    assert_eq!(s.runtime.lineup, vec![1002, 1003, 1001, 1005]);
    assert_eq!(lineup_ids(&s), vec![1002, 1003, 1001, 1005]);
    let info = on_get_cur_lineup_data(&s).lineup.unwrap();
    assert_eq!(info.leader_slot, 1);
    let slots: Vec<u32> = info.avatar_list.iter().map(|a| a.slot).collect();
    assert_eq!(slots, vec![0, 1, 2, 3]);
}

#[test]
fn replace_with_nothing_usable_keeps_lineup() {
    let mut s = server(&[1001, 1002], vec![1001, 1002]);
    let req = ReplaceLineupCsReq { lineup_slot_list: vec![slot(0, 0), slot(1, 4242)], leader_slot: 7 };
    on_replace_lineup(&mut s, &req);
    assert_eq!(s.runtime.lineup, vec![1001, 1002]);
    assert_eq!(s.runtime.leader_slot, 1);
    on_replace_lineup(&mut s, &ReplaceLineupCsReq::default());
    assert_eq!(s.runtime.lineup, vec![1001, 1002]);
    assert_eq!(s.runtime.leader_slot, 0);
}

#[test]
fn replace_leader_capped_to_new_lineup() {
    let mut s = server(&[1, 2, 3], vec![1, 2, 3]);
    on_replace_lineup(&mut s, &ReplaceLineupCsReq { lineup_slot_list: vec![slot(0, 3)], leader_slot: 2 });
    assert_eq!(s.runtime.lineup, vec![3]);
    assert_eq!(s.runtime.leader_slot, 0);
    let snap = persist_snapshot(&s.runtime);
    assert_eq!(snap.lineup, vec![3]);
    assert_eq!(snap.mc_id, "8006");
    assert_eq!(snap.march_id, "1224");
}

#[test]
fn sorted_slots_is_stable() {
    let req = ReplaceLineupCsReq { lineup_slot_list: vec![slot(2, 1), slot(0, 2), slot(2, 3), slot(1, 4)], leader_slot: 0 };
    assert_eq!(sorted_slots(&req), vec![slot(0, 2), slot(1, 4), slot(2, 1), slot(2, 3)]);
}
