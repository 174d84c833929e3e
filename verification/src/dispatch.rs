//! Answering one request of the game protocol: which handler runs, what is sent back
//! and in what order, and when the session is saved.

use vstd::prelude::*;

use crate::avatar::{avatar_data_reply, on_get_avatar_data};
use crate::battle::{
    battle_result_applied, cocoon_stage_started, cost_mp_reply, cur_battle_reply,
    battle_ended, end_battle, on_get_cur_battle_info, on_pve_battle_result, on_scene_cast_skill,
    on_scene_cast_skill_cost_mp, on_start_cocoon_stage, on_sync_client_res_version,
    res_version_reply, skill_cast, skill_triggers_battle, triggers_battle,
};
use crate::cmd::{rsp_id, spec_rsp_id, CmdTable, Handler};
use crate::data::{
    battle_data_fits, check_battle_data, check_bag_ids, check_worn_relics, worn_relics_fit,
};
use crate::item::{bag_reply, on_get_bag};
use crate::lineup::{
    all_lineups_reply, build_sync_lineup_notify, cur_lineup_reply, leader_changed,
    lineup_notice_is, lineup_replaced, on_change_lineup_leader, on_get_all_lineup_data,
    on_get_cur_lineup_data, on_replace_lineup,
};
use crate::mission::{mission_reply, on_get_mission_status};
use crate::player::{
    basic_info_reply, board_reply, heart_beat_reply, login_reply, on_get_basic_info,
    on_get_player_board_data, on_player_get_token, on_player_heart_beat, on_player_login,
    on_set_client_paused, paused_set, token_reply, HEAD_FRAME_LIFETIME_MS,
};
use crate::proto::{
    ChangeLineupLeaderCsReq, ChangeLineupLeaderScRsp, GetAllLineupDataScRsp, GetAvatarDataScRsp,
    GetBagScRsp, GetBasicInfoScRsp, GetCurBattleInfoScRsp, GetCurLineupDataScRsp,
    GetCurSceneInfoScRsp, GetMissionStatusCsReq, GetMissionStatusScRsp, GetPlayerBoardDataScRsp,
    PlayerGetTokenScRsp, PlayerHeartBeatCsReq, PlayerHeartBeatScRsp, PlayerLoginScRsp,
    PveBattleResultCsReq, PveBattleResultScRsp, ReplaceLineupCsReq, ReplaceLineupScRsp,
    SceneCastSkillCostMpCsReq, SceneCastSkillCostMpScRsp, SceneCastSkillCsReq,
    SceneCastSkillScRsp, SetClientPausedCsReq, SetClientPausedScRsp, StartCocoonStageCsReq,
    StartCocoonStageScRsp, SyncClientResVersionCsReq, SyncClientResVersionScRsp, SyncLineupNotify,
};
use crate::scene::{on_get_cur_scene_info, scene_reply};
use crate::state::{
    allocate_battle_id, battle_id_allocated, persist_snapshot, snapshot_of, GameServerState,
    PersistentSnapshot,
};

verus! {

/// A decoded request of a handled command.
pub enum Request {
    PlayerGetToken,
    PlayerHeartBeat(PlayerHeartBeatCsReq),
    PlayerLogin,
    GetBasicInfo,
    GetPlayerBoardData,
    GetAvatarData,
    GetCurBattleInfo,
    GetAllLineupData,
    GetCurLineupData,
    ChangeLineupLeader(ChangeLineupLeaderCsReq),
    GetCurSceneInfo,
    GetMissionStatus(GetMissionStatusCsReq),
    ContentPackageGetData,
    StartCocoonStage(StartCocoonStageCsReq),
    PveBattleResult(PveBattleResultCsReq),
    SceneCastSkill(SceneCastSkillCsReq),
    SceneCastSkillCostMp(SceneCastSkillCostMpCsReq),
    SyncClientResVersion(SyncClientResVersionCsReq),
    GetBag,
    PlayerLogout,
    SetClientPaused(SetClientPausedCsReq),
    ReplaceLineup(ReplaceLineupCsReq),
    SetAvatarPath,
    PlayerLoginFinish,
}

/// A message the server sends.
pub enum Response {
    PlayerGetToken(PlayerGetTokenScRsp),
    PlayerHeartBeat(PlayerHeartBeatScRsp),
    PlayerLogin(PlayerLoginScRsp),
    GetBasicInfo(GetBasicInfoScRsp),
    GetPlayerBoardData(GetPlayerBoardDataScRsp),
    GetAvatarData(GetAvatarDataScRsp),
    GetCurBattleInfo(GetCurBattleInfoScRsp),
    GetAllLineupData(GetAllLineupDataScRsp),
    GetCurLineupData(GetCurLineupDataScRsp),
    ChangeLineupLeader(ChangeLineupLeaderScRsp),
    SyncLineupNotify(SyncLineupNotify),
    GetCurSceneInfo(GetCurSceneInfoScRsp),
    GetMissionStatus(GetMissionStatusScRsp),
    StartCocoonStage(StartCocoonStageScRsp),
    PveBattleResult(PveBattleResultScRsp),
    SceneCastSkill(SceneCastSkillScRsp),
    SceneCastSkillCostMp(SceneCastSkillCostMpScRsp),
    SyncClientResVersion(SyncClientResVersionScRsp),
    GetBag(GetBagScRsp),
    SetClientPaused(SetClientPausedScRsp),
    ReplaceLineup(ReplaceLineupScRsp),
    /// A message with every field at its default: an empty body.
    Empty,
}

/// What answering a request comes to.
pub enum Outcome {
    /// Send `messages` in order, as (command id, message), after saving `save` when
    /// there is one.
    Reply { messages: Vec<(u16, Response)>, save: Option<PersistentSnapshot> },
    /// The player logs out: close the connection.
    Logout,
    /// Answering would shift a saved id or a time past its type's range. What the
    /// request changes before that point is kept.
    Overflow,
}

/// The handler of a request.
pub open spec fn request_handler(req: Request) -> Handler {
    match req {
        Request::PlayerGetToken => Handler::PlayerGetToken,
        Request::PlayerHeartBeat(_) => Handler::PlayerHeartBeat,
        Request::PlayerLogin => Handler::PlayerLogin,
        Request::GetBasicInfo => Handler::GetBasicInfo,
        Request::GetPlayerBoardData => Handler::GetPlayerBoardData,
        Request::GetAvatarData => Handler::GetAvatarData,
        Request::GetCurBattleInfo => Handler::GetCurBattleInfo,
        Request::GetAllLineupData => Handler::GetAllLineupData,
        Request::GetCurLineupData => Handler::GetCurLineupData,
        Request::ChangeLineupLeader(_) => Handler::ChangeLineupLeader,
        Request::GetCurSceneInfo => Handler::GetCurSceneInfo,
        Request::GetMissionStatus(_) => Handler::GetMissionStatus,
        Request::ContentPackageGetData => Handler::ContentPackageGetData,
        Request::StartCocoonStage(_) => Handler::StartCocoonStage,
        Request::PveBattleResult(_) => Handler::PveBattleResult,
        Request::SceneCastSkill(_) => Handler::SceneCastSkill,
        Request::SceneCastSkillCostMp(_) => Handler::SceneCastSkillCostMp,
        Request::SyncClientResVersion(_) => Handler::SyncClientResVersion,
        Request::GetBag => Handler::GetBag,
        Request::PlayerLogout => Handler::PlayerLogout,
        Request::SetClientPaused(_) => Handler::SetClientPaused,
        Request::ReplaceLineup(_) => Handler::ReplaceLineup,
        Request::SetAvatarPath => Handler::SetAvatarPath,
        Request::PlayerLoginFinish => Handler::PlayerLoginFinish,
    }
}

/// One message, with id `id`, and nothing saved.
pub open spec fn single(out: Outcome, id: u16) -> bool {
    &&& out matches Outcome::Reply { messages, save }
    &&& out->save is None
    &&& out->messages@.len() == 1
    &&& out->messages@[0].0 == id
}

/// The first message of a reply.
pub open spec fn first_message(out: Outcome) -> Response {
    out->messages@[0].1
}

/// The answer to a lineup change: the handler's response, then the lineup notice for
/// the new state, with the new state saved first.
pub open spec fn lineup_change_reply(out: Outcome, t: CmdTable, h: Handler, after: GameServerState) -> bool {
    &&& out matches Outcome::Reply { messages, save }
    &&& out->save matches Some(snap) && snapshot_of(snap, after.runtime)
    &&& out->messages@.len() == 2
    &&& out->messages@[0].0 == spec_rsp_id(t, h)
    &&& out->messages@[1].0 == t.handled.sync_lineup_notify
    &&& out->messages@[1].1 matches Response::SyncLineupNotify(n) && lineup_notice_is(after.runtime, n)
}

/// How the server answers request `req` in state `before`, leaving state `after`,
/// at time `now_ms`, with `seed` for a battle that starts.
pub open spec fn request_answered(
    before: GameServerState,
    after: GameServerState,
    t: CmdTable,
    req: Request,
    now_ms: u64,
    seed: u32,
    out: Outcome,
) -> bool {
    let id = spec_rsp_id(t, request_handler(req));
    match req {
        Request::PlayerGetToken => {
            &&& single(out, id)
            &&& after == before
            &&& first_message(out) matches Response::PlayerGetToken(r) && token_reply(before, r)
        },
        Request::PlayerHeartBeat(q) => {
            &&& single(out, id)
            &&& after == before
            &&& first_message(out) matches Response::PlayerHeartBeat(r) && heart_beat_reply(q, now_ms, r)
        },
        Request::PlayerLogin => {
            &&& single(out, id)
            &&& after == before
            &&& first_message(out) matches Response::PlayerLogin(r) && login_reply(before, now_ms, r)
        },
        Request::GetBasicInfo => {
            &&& single(out, id)
            &&& after == before
            &&& first_message(out) matches Response::GetBasicInfo(r) && basic_info_reply(r)
        },
        Request::GetPlayerBoardData => {
            &&& after == before
            &&& if now_ms > u64::MAX - HEAD_FRAME_LIFETIME_MS {
                out is Overflow
            } else {
                &&& single(out, id)
                &&& first_message(out) matches Response::GetPlayerBoardData(r) && board_reply(before, now_ms, r)
            }
        },
        Request::GetAvatarData => {
            &&& single(out, id)
            &&& after == before
            &&& first_message(out) matches Response::GetAvatarData(r) && avatar_data_reply(before, now_ms, r)
        },
        Request::GetCurBattleInfo => {
            &&& single(out, id)
            &&& after == before
            &&& first_message(out) matches Response::GetCurBattleInfo(r) && cur_battle_reply(before, r)
        },
        Request::GetAllLineupData => {
            &&& single(out, id)
            &&& after == before
            &&& first_message(out) matches Response::GetAllLineupData(r) && all_lineups_reply(before.runtime, r)
        },
        Request::GetCurLineupData => {
            &&& single(out, id)
            &&& after == before
            &&& first_message(out) matches Response::GetCurLineupData(r) && cur_lineup_reply(before.runtime, r)
        },
        Request::ChangeLineupLeader(q) => {
            &&& lineup_change_reply(out, t, Handler::ChangeLineupLeader, after)
            &&& first_message(out) matches Response::ChangeLineupLeader(r) && leader_changed(before, after, q, r)
        },
        Request::GetCurSceneInfo => {
            &&& single(out, id)
            &&& after == before
            &&& first_message(out) matches Response::GetCurSceneInfo(r) && scene_reply(before, r)
        },
        Request::GetMissionStatus(q) => {
            &&& single(out, id)
            &&& after == before
            &&& first_message(out) matches Response::GetMissionStatus(r) && mission_reply(q, r)
        },
        Request::StartCocoonStage(q) => if !battle_data_fits(before.data, before.runtime.lineup@) {
            &&& out is Overflow
            &&& after.data == before.data
            &&& battle_id_allocated(
                before.runtime,
                after.runtime,
                if q.world_level == 0 { 6 } else { q.world_level },
            )
        } else {
            &&& single(out, id)
            &&& first_message(out) matches Response::StartCocoonStage(r) && cocoon_stage_started(
                before,
                after,
                q,
                seed,
                r,
            )
        },
        Request::PveBattleResult(q) => if !worn_relics_fit(before.data, before.runtime.lineup@) {
            &&& out is Overflow
            &&& after.data == before.data
            &&& battle_ended(before.runtime, after.runtime, q.end_status)
        } else {
            &&& single(out, id)
            &&& first_message(out) matches Response::PveBattleResult(r) && battle_result_applied(before, after, q, r)
        },
        Request::SceneCastSkill(q) => if triggers_battle(q) && !battle_data_fits(
            before.data,
            before.runtime.lineup@,
        ) {
            &&& out is Overflow
            &&& after.data == before.data
            &&& battle_id_allocated(before.runtime, after.runtime, before.runtime.last_world_level)
        } else {
            &&& single(out, id)
            &&& first_message(out) matches Response::SceneCastSkill(r) && skill_cast(before, after, q, seed, r)
        },
        Request::SceneCastSkillCostMp(q) => {
            &&& single(out, id)
            &&& after == before
            &&& first_message(out) matches Response::SceneCastSkillCostMp(r) && cost_mp_reply(q, r)
        },
        Request::SyncClientResVersion(q) => {
            &&& single(out, id)
            &&& after == before
            &&& first_message(out) matches Response::SyncClientResVersion(r) && res_version_reply(q, r)
        },
        Request::GetBag => {
            &&& after == before
            &&& if !before.data.bag_ids_fit() {
                out is Overflow
            } else {
                &&& single(out, id)
                &&& first_message(out) matches Response::GetBag(r) && bag_reply(before, r)
            }
        },
        Request::PlayerLogout => out is Logout && after == before,
        Request::SetClientPaused(q) => {
            &&& single(out, id)
            &&& first_message(out) matches Response::SetClientPaused(r) && paused_set(before, after, q, r)
        },
        Request::ReplaceLineup(q) => {
            &&& lineup_change_reply(out, t, Handler::ReplaceLineup, after)
            &&& first_message(out) matches Response::ReplaceLineup(r) && lineup_replaced(before, after, q, r)
        },
        Request::ContentPackageGetData | Request::SetAvatarPath | Request::PlayerLoginFinish => {
            &&& single(out, id)
            &&& after == before
            &&& first_message(out) is Empty
        },
    }
}

fn one(id: u16, r: Response) -> (out: Outcome)
    ensures
        single(out, id),
        first_message(out) == r,
{
    let mut messages: Vec<(u16, Response)> = Vec::new();
    messages.push((id, r));
    Outcome::Reply { messages, save: None }
}

fn lineup_changed(state: &GameServerState, t: &CmdTable, h: Handler, r: Response) -> (out: Outcome)
    requires
        t.wf(),
        crate::cmd::spec_rsp_name(h) is Some,
    ensures
        lineup_change_reply(out, *t, h, *state),
        first_message(out) == r,
{
    let save = persist_snapshot(&state.runtime);
    let notify = build_sync_lineup_notify(state);
    let mut messages: Vec<(u16, Response)> = Vec::new();
    messages.push((rsp_id(t, h), r));
    messages.push((t.handled.sync_lineup_notify, Response::SyncLineupNotify(notify)));
    Outcome::Reply { messages, save: Some(save) }
}

/// Answers one request: runs its handler, and says what to send back, in order, and
/// what to save. The answer is `Overflow` where a saved id would be shifted past
/// `u32` (the bag's ids, or the relics and waves of a battle that starts or ends),
/// and for a profile asked for within a day of the end of `u64`.
#[verifier::rlimit(50)]
pub fn handle_request(state: &mut GameServerState, t: &CmdTable, req: Request, now_ms: u64, seed: u32) -> (out:
    Outcome)
    requires
        old(state).wf(),
        t.wf(),
    ensures
        final(state).wf(),
        final(state).data == old(state).data,
        request_answered(*old(state), *final(state), *t, req, now_ms, seed, out),
{
    match req {
        Request::PlayerGetToken => {
            one(rsp_id(t, Handler::PlayerGetToken), Response::PlayerGetToken(on_player_get_token(state)))
        },
        Request::PlayerHeartBeat(q) => {
            one(rsp_id(t, Handler::PlayerHeartBeat), Response::PlayerHeartBeat(on_player_heart_beat(&q, now_ms)))
        },
        Request::PlayerLogin => {
            one(rsp_id(t, Handler::PlayerLogin), Response::PlayerLogin(on_player_login(state, now_ms)))
        },
        Request::GetBasicInfo => {
            one(rsp_id(t, Handler::GetBasicInfo), Response::GetBasicInfo(on_get_basic_info()))
        },
        Request::GetPlayerBoardData => {
            if now_ms > u64::MAX - HEAD_FRAME_LIFETIME_MS {
                Outcome::Overflow
            } else {
                one(
                    rsp_id(t, Handler::GetPlayerBoardData),
                    Response::GetPlayerBoardData(on_get_player_board_data(state, now_ms)),
                )
            }
        },
        Request::GetAvatarData => {
            one(rsp_id(t, Handler::GetAvatarData), Response::GetAvatarData(on_get_avatar_data(state, now_ms)))
        },
        Request::GetCurBattleInfo => {
            one(rsp_id(t, Handler::GetCurBattleInfo), Response::GetCurBattleInfo(on_get_cur_battle_info(state)))
        },
        Request::GetAllLineupData => {
            one(rsp_id(t, Handler::GetAllLineupData), Response::GetAllLineupData(on_get_all_lineup_data(state)))
        },
        Request::GetCurLineupData => {
            one(rsp_id(t, Handler::GetCurLineupData), Response::GetCurLineupData(on_get_cur_lineup_data(state)))
        },
        Request::ChangeLineupLeader(q) => {
            let r = on_change_lineup_leader(state, &q);
            lineup_changed(state, t, Handler::ChangeLineupLeader, Response::ChangeLineupLeader(r))
        },
        Request::GetCurSceneInfo => {
            one(rsp_id(t, Handler::GetCurSceneInfo), Response::GetCurSceneInfo(on_get_cur_scene_info(state)))
        },
        Request::GetMissionStatus(q) => {
            one(rsp_id(t, Handler::GetMissionStatus), Response::GetMissionStatus(on_get_mission_status(q)))
        },
        Request::StartCocoonStage(q) => {
            if !check_battle_data(&state.data, &state.runtime.lineup) {
                let world_level = if q.world_level == 0 {
                    6
                } else {
                    q.world_level
                };
                allocate_battle_id(&mut state.runtime, world_level);
                Outcome::Overflow
            } else {
                let r = on_start_cocoon_stage(state, &q, seed);
                one(rsp_id(t, Handler::StartCocoonStage), Response::StartCocoonStage(r))
            }
        },
        Request::PveBattleResult(q) => {
            if !check_worn_relics(&state.data, &state.runtime.lineup) {
                end_battle(state, q.end_status);
                Outcome::Overflow
            } else {
                let r = on_pve_battle_result(state, &q);
                one(rsp_id(t, Handler::PveBattleResult), Response::PveBattleResult(r))
            }
        },
        Request::SceneCastSkill(q) => {
            if skill_triggers_battle(&q) && !check_battle_data(&state.data, &state.runtime.lineup) {
                let world_level = state.runtime.last_world_level;
                allocate_battle_id(&mut state.runtime, world_level);
                Outcome::Overflow
            } else {
                let r = on_scene_cast_skill(state, &q, seed);
                one(rsp_id(t, Handler::SceneCastSkill), Response::SceneCastSkill(r))
            }
        },
        Request::SceneCastSkillCostMp(q) => {
            one(
                rsp_id(t, Handler::SceneCastSkillCostMp),
                Response::SceneCastSkillCostMp(on_scene_cast_skill_cost_mp(&q)),
            )
        },
        Request::SyncClientResVersion(q) => {
            one(
                rsp_id(t, Handler::SyncClientResVersion),
                Response::SyncClientResVersion(on_sync_client_res_version(&q)),
            )
        },
        Request::GetBag => {
            if !check_bag_ids(&state.data) {
                Outcome::Overflow
            } else {
                one(rsp_id(t, Handler::GetBag), Response::GetBag(on_get_bag(state)))
            }
        },
        Request::PlayerLogout => Outcome::Logout,
        Request::SetClientPaused(q) => {
            let r = on_set_client_paused(state, &q);
            one(rsp_id(t, Handler::SetClientPaused), Response::SetClientPaused(r))
        },
        Request::ReplaceLineup(q) => {
            let r = on_replace_lineup(state, &q);
            lineup_changed(state, t, Handler::ReplaceLineup, Response::ReplaceLineup(r))
        },
        Request::ContentPackageGetData => one(rsp_id(t, Handler::ContentPackageGetData), Response::Empty),
        Request::SetAvatarPath => one(rsp_id(t, Handler::SetAvatarPath), Response::Empty),
        Request::PlayerLoginFinish => one(rsp_id(t, Handler::PlayerLoginFinish), Response::Empty),
    }
}

} // verus!
