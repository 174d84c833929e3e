use robinsr::cmd::{build_cmd_table, handler_at, parse_cmd_ids, req_name, rsp_id, rsp_name, CmdTable, Handler, HANDLER_COUNT};
use robinsr::data::{AvatarRecord, BattleConfigRecord, GameData, RelicRecord};
use robinsr::dispatch::{handle_request, Outcome, Request, Response};
use robinsr::proto::{
    ChangeLineupLeaderCsReq, LineupSlotData, PlayerHeartBeatCsReq, PveBattleResultCsReq, ReplaceLineupCsReq,
    SceneCastSkillCsReq, StartCocoonStageCsReq,
};
use robinsr::state::{initial_runtime, GameServerState};

fn table() -> CmdTable {
    let mut lines = Vec::new();
    for k in 0..HANDLER_COUNT {
        let h = handler_at(k);
        lines.push(format!("{} = {};", req_name(h), 100 + k));
        if let Some(r) = rsp_name(h) {
            lines.push(format!("{} = {};", r, 200 + k));
        }
    }
    lines.push("SyncLineupNotify = 300;".to_string());
    build_cmd_table(&parse_cmd_ids(&lines))
}

fn avatar(id: u32) -> AvatarRecord {
    AvatarRecord {
        avatar_id: id,
        level: 1,
        promotion: 0,
        rank: 1,
        enhanced_id: 0,
        sp_value: 0,
        sp_max: 10_000,
        skills_by_anchor_type: Vec::new(),
    }
}

fn server() -> GameServerState {
    let data = GameData {
        uid: 333,
        token: "t".to_string(),
        nickname: "RobinSR".to_string(),
        avatars: vec![avatar(1001), avatar(1309), avatar(8001)],
        lightcones: Vec::new(),
        relics: Vec::new(),
        battle: BattleConfigRecord {
            battle_type: String::new(),
            stage_id: 1,
            cycle_count: 0,
            path_resonance_id: 0,
            monsters: Vec::new(),
            blessings: Vec::new(),
        },
        mc_id: 8006,
        march_id: 1224,
        lineup: vec![1001, 1309],
    };
    let runtime = initial_runtime(&data);
    GameServerState { data, runtime }
}

fn messages(out: Outcome) -> (Vec<(u16, Response)>, bool) {
    match out {
        Outcome::Reply { messages, save } => (messages, save.is_some()),
        Outcome::Logout => panic!("unexpected logout"),
        Outcome::Overflow => panic!("unexpected overflow"),
    }
}

#[test]
fn response_ids_follow_the_table() {
    let t = table();
    assert_eq!(rsp_id(&t, Handler::PlayerGetToken), 200);
    assert_eq!(rsp_id(&t, Handler::GetBag), 218);
    assert_eq!(rsp_id(&t, Handler::PlayerLoginFinish), 223);
}

#[test]
fn token_request_gets_one_answer() {
    let t = table();
    let mut s = server();
    let (m, saved) = messages(handle_request(&mut s, &t, Request::PlayerGetToken, 0, 0));
    assert!(!saved);
    assert_eq!(m.len(), 1);
    assert_eq!(m[0].0, 200);
    match &m[0].1 {
        Response::PlayerGetToken(r) => assert_eq!((r.uid, r.retcode), (333, 0)),
        _ => panic!("wrong response"),
    }
}

#[test]
fn heart_beat_echoes_time() {
    let t = table();
    let mut s = server();
    let (m, _) = messages(handle_request(&mut s, &t, Request::PlayerHeartBeat(PlayerHeartBeatCsReq { client_time_ms: 5 }), 77, 0));
    match &m[0].1 {
        Response::PlayerHeartBeat(r) => assert_eq!((r.client_time_ms, r.server_time_ms), (5, 77)),
        _ => panic!("wrong response"),
    }
}

#[test]
fn leader_change_answers_then_notifies_and_saves() {
    let t = table();
    let mut s = server();
    let out = handle_request(&mut s, &t, Request::ChangeLineupLeader(ChangeLineupLeaderCsReq { slot: 5 }), 0, 0);
    match out {
        Outcome::Reply { messages, save } => {
            let snap = save.expect("session saved");
            assert_eq!(snap.mc_id, "8006");
            assert_eq!(snap.march_id, "1224");
            assert_eq!(snap.lineup, vec![1001, 1309]);
            assert_eq!(messages.len(), 2);
            assert_eq!(messages[0].0, 209);
            match &messages[0].1 {
                Response::ChangeLineupLeader(r) => assert_eq!(r.slot, 1),
                _ => panic!("wrong response"),
            }
            assert_eq!(messages[1].0, 300);
            match &messages[1].1 {
                Response::SyncLineupNotify(n) => assert_eq!(n.lineup.as_ref().unwrap().leader_slot, 1),
                _ => panic!("wrong notice"),
            }
        }
        _ => panic!("expected a reply"),
    }
    assert_eq!(s.runtime.leader_slot, 1);
}

#[test]
fn replace_lineup_answers_then_notifies_and_saves() {
    let t = table();
    let mut s = server();
    let req = ReplaceLineupCsReq { lineup_slot_list: vec![LineupSlotData { slot: 0, id: 8001 }], leader_slot: 0 };
    let (m, saved) = messages(handle_request(&mut s, &t, Request::ReplaceLineup(req), 0, 0));
    assert!(saved);
    assert_eq!((m[0].0, m[1].0), (221, 300));
    assert_eq!(s.runtime.lineup, vec![8001]);
}

#[test]
fn logout_and_empty_answers() {
    let t = table();
    let mut s = server();
    assert!(matches!(handle_request(&mut s, &t, Request::PlayerLogout, 0, 0), Outcome::Logout));
    for (req, id) in [(Request::ContentPackageGetData, 212), (Request::SetAvatarPath, 222), (Request::PlayerLoginFinish, 223)] {
        let (m, _) = messages(handle_request(&mut s, &t, req, 0, 0));
        assert_eq!(m.len(), 1);
        assert_eq!(m[0].0, id);
        assert!(matches!(m[0].1, Response::Empty));
    }
}

#[test]
fn overflowing_requests_are_refused() {
    let t = table();
    let mut s = server();
    assert!(matches!(handle_request(&mut s, &t, Request::GetPlayerBoardData, u64::MAX, 0), Outcome::Overflow));
    let (m, _) = messages(handle_request(&mut s, &t, Request::GetPlayerBoardData, 1000, 0));
    assert_eq!(m[0].0, 204);
    // a relic nobody in the lineup wears: only the bag overflows
    s.data.relics.push(bad_relic(8001));
    assert!(matches!(handle_request(&mut s, &t, Request::GetBag, 0, 0), Outcome::Overflow));
    let (m, _) = messages(handle_request(&mut s, &t, Request::StartCocoonStage(StartCocoonStageCsReq::default()), 0, 0));
    assert_eq!(m[0].0, 213);
    assert!(s.runtime.on_battle);
    let (m, _) = messages(handle_request(&mut s, &t, Request::GetCurBattleInfo, 0, 0));
    assert_eq!(m[0].0, 206);
    let (m, _) = messages(handle_request(&mut s, &t, Request::PveBattleResult(PveBattleResultCsReq::default()), 0, 0));
    assert_eq!(m[0].0, 214);
}

fn bad_relic(avatar: u32) -> RelicRecord {
    RelicRecord { internal_uid: u32::MAX, equip_avatar: avatar, level: 0, main_affix_id: 0, relic_id: 0, sub_affixes: Vec::new() }
}

#[test]
fn battle_with_worn_overflowing_relic_is_refused_after_taking_an_id() {
    let t = table();
    let mut s = server();
    s.data.relics.push(bad_relic(1309));
    let out = handle_request(&mut s, &t, Request::StartCocoonStage(StartCocoonStageCsReq { world_level: 3, ..Default::default() }), 0, 0);
    assert!(matches!(out, Outcome::Overflow));
    assert!(!s.runtime.on_battle);
    assert_eq!((s.runtime.next_battle_id, s.runtime.last_world_level), (2, 3));
    // a cast that kills without battle is answered; one that starts a battle is refused
    let kill = SceneCastSkillCsReq { attacked_by_entity_id: 100_000, skill_index: 1, hit_target_entity_id_list: vec![5], ..Default::default() };
    let (m, _) = messages(handle_request(&mut s, &t, Request::SceneCastSkill(kill), 0, 0));
    assert_eq!(m[0].0, 215);
    let hit = SceneCastSkillCsReq { attacked_by_entity_id: 5, skill_index: 0, hit_target_entity_id_list: vec![5], ..Default::default() };
    assert!(matches!(handle_request(&mut s, &t, Request::SceneCastSkill(hit), 0, 0), Outcome::Overflow));
    assert_eq!(s.runtime.next_battle_id, 3);
    assert!(!s.runtime.on_battle);
}

#[test]
fn battle_result_with_worn_overflowing_relic_ends_battle_then_overflows() {
    let t = table();
    let mut s = server();
    let (m, _) = messages(handle_request(&mut s, &t, Request::StartCocoonStage(StartCocoonStageCsReq::default()), 0, 0));
    assert_eq!(m[0].0, 213);
    s.data.relics.push(bad_relic(1001));
    let out = handle_request(&mut s, &t, Request::PveBattleResult(PveBattleResultCsReq { battle_id: 1, stage_id: 0, end_status: 0 }), 0, 0);
    assert!(matches!(out, Outcome::Overflow));
    assert!(!s.runtime.on_battle);
    assert!(s.runtime.current_battle.is_none());
    assert_eq!(s.runtime.last_battle_end_status, 1);
}

#[test]
fn started_battle_reported_through_dispatch() {
    let t = table();
    let mut s = server();
    let (m, _) = messages(handle_request(&mut s, &t, Request::StartCocoonStage(StartCocoonStageCsReq::default()), 0, 9));
    let started = match &m[0].1 {
        Response::StartCocoonStage(r) => r.battle_info.clone().unwrap(),
        _ => panic!("wrong response"),
    };
    let (m, _) = messages(handle_request(&mut s, &t, Request::GetCurBattleInfo, 0, 0));
    match &m[0].1 {
        Response::GetCurBattleInfo(r) => assert_eq!(r.battle_info, Some(started)),
        _ => panic!("wrong response"),
    }
}
