//! The game messages the server reads and writes, with the fields the server uses.
//! Numbers for enumerations are the values the client expects on the wire.

use vstd::prelude::*;

verus! {

/// Wire value of the formal (owned, non-trial) avatar type.
pub const AVATAR_TYPE_FORMAL: i32 = 3;

/// Wire value of "no battle has ended".
pub const BATTLE_END_NONE: i32 = 0;

/// Wire value of a won battle.
pub const BATTLE_END_WIN: i32 = 1;

/// Wire value of a battle left by quitting.
pub const BATTLE_END_QUIT: i32 = 3;

/// Wire value of a hit that starts a battle.
pub const MONSTER_BATTLE_TRIGGER: i32 = 1;

/// Wire value of a hit that kills the monster without a battle.
pub const MONSTER_BATTLE_DIRECT_DIE_SKIP: i32 = 3;

/// Wire value of the ordinary (non-extra) lineup.
pub const EXTRA_LINEUP_NONE: i32 = 0;

/// Wire value of a lineup sync that has no particular reason.
pub const SYNC_REASON_NONE: i32 = 0;

/// Wire value of a finished mission.
pub const MISSION_FINISH: i32 = 2;

// ----- shared -----

#[derive(Clone, Copy, Debug, PartialEq, Eq)]
pub struct SpBarInfo {
    pub cur_sp: u32,
    pub max_sp: u32,
}

#[derive(Clone, Copy, Debug, PartialEq, Eq)]
pub struct RelicAffix {
    pub affix_id: u32,
    pub cnt: u32,
    pub step: u32,
}

// ----- battle -----

#[derive(Clone, Copy, Debug, PartialEq, Eq)]
pub struct BattleEquipment {
    pub id: u32,
    pub level: u32,
    pub promotion: u32,
    pub rank: u32,
}

#[derive(Clone, Debug, PartialEq, Eq)]
pub struct BattleRelic {
    pub id: u32,
    pub level: u32,
    pub main_affix_id: u32,
    pub unique_id: u32,
    pub sub_affix_list: Vec<RelicAffix>,
}

#[derive(Clone, Copy, Debug, PartialEq, Eq)]
pub struct AvatarSkillTree {
    pub point_id: u32,
    pub level: u32,
}

#[derive(Clone, Debug, PartialEq, Eq)]
pub struct BattleAvatar {
    pub avatar_type: i32,
    pub id: u32,
    pub level: u32,
    pub rank: u32,
    pub index: u32,
    pub hp: u32,
    pub promotion: u32,
    pub world_level: u32,
    pub enhanced_id: u32,
    pub sp_bar: Option<SpBarInfo>,
    pub equipment_list: Vec<BattleEquipment>,
    pub relic_list: Vec<BattleRelic>,
    pub skilltree_list: Vec<AvatarSkillTree>,
}

#[derive(Clone, Copy, Debug, PartialEq, Eq)]
pub struct SceneMonster {
    pub monster_id: u32,
    pub max_hp: u32,
}

#[derive(Clone, Copy, Debug, PartialEq, Eq)]
pub struct SceneMonsterWaveParam {
    pub level: u32,
}

#[derive(Clone, Debug, PartialEq, Eq)]
pub struct SceneMonsterWave {
    pub battle_stage_id: u32,
    pub battle_wave_id: u32,
    pub monster_param: Option<SceneMonsterWaveParam>,
    pub monster_list: Vec<SceneMonster>,
}

/// A battle buff. It carries one dynamic value, named "SkillIndex", whose
/// value is `skill_index`.
#[derive(Clone, Debug, PartialEq, Eq)]
pub struct BattleBuff {
    pub id: u32,
    pub level: u32,
    pub owner_index: u32,
    pub wave_flag: u32,
    pub target_index_list: Vec<u32>,
    pub skill_index: u32,
}

#[derive(Clone, Copy, Debug, PartialEq, Eq)]
pub struct BattleTarget {
    pub id: u32,
    pub progress: u32,
    pub total_progress: u32,
}

#[derive(Clone, Debug, PartialEq, Eq)]
pub struct BattleTargetList {
    pub battle_target_list: Vec<BattleTarget>,
}

#[derive(Clone, Copy, Debug, PartialEq, Eq)]
pub struct BattleEventProperty {
    pub sp_bar: Option<SpBarInfo>,
}

#[derive(Clone, Copy, Debug, PartialEq, Eq)]
pub struct BattleEventBattleInfo {
    pub battle_event_id: u32,
    pub status: Option<BattleEventProperty>,
}

#[derive(Clone, Debug, PartialEq, Eq)]
pub struct SceneBattleInfo {
    pub battle_id: u32,
    pub stage_id: u32,
    pub logic_random_seed: u32,
    pub rounds_limit: u32,
    pub monster_wave_length: u32,
    pub world_level: u32,
    pub battle_avatar_list: Vec<BattleAvatar>,
    pub monster_wave_list: Vec<SceneMonsterWave>,
    pub buff_list: Vec<BattleBuff>,
    /// The battle-target map, as (key, targets) entries with distinct keys.
    pub battle_target_info: Vec<(u32, BattleTargetList)>,
    pub battle_event: Vec<BattleEventBattleInfo>,
}

#[derive(Clone, Debug, PartialEq, Eq)]
pub struct GetCurBattleInfoScRsp {
    pub battle_info: Option<SceneBattleInfo>,
    pub last_end_status: i32,
    pub retcode: u32,
}

#[derive(Clone, Copy, Debug, PartialEq, Eq, Default)]
pub struct StartCocoonStageCsReq {
    pub world_level: u32,
    /// The avatar whose technique opened the battle, when the request names one.
    pub technique_avatar_id: Option<u32>,
    pub wave: u32,
    pub prop_entity_id: u32,
    pub cocoon_id: u32,
}

#[derive(Clone, Debug, PartialEq, Eq)]
pub struct StartCocoonStageScRsp {
    pub wave: u32,
    pub prop_entity_id: u32,
    pub cocoon_id: u32,
    pub challenge_cnt: u32,
    pub battle_info: Option<SceneBattleInfo>,
    pub retcode: u32,
}

#[derive(Clone, Debug, PartialEq, Eq, Default)]
pub struct SceneCastSkillCsReq {
    pub cast_entity_id: u32,
    pub attacked_by_entity_id: u32,
    pub skill_index: u32,
    pub assist_monster_entity_id_list: Vec<u32>,
    pub hit_target_entity_id_list: Vec<u32>,
    /// The entity-id lists of the assist-monster entity infos, in order.
    pub assist_monster_entity_info: Vec<Vec<u32>>,
}

#[derive(Clone, Copy, Debug, PartialEq, Eq)]
pub struct HitMonsterBattleInfo {
    pub target_monster_entity_id: u32,
    pub monster_battle_type: i32,
}

#[derive(Clone, Debug, PartialEq, Eq)]
pub struct SceneCastSkillScRsp {
    pub battle_info: Option<SceneBattleInfo>,
    pub monster_battle_info: Vec<HitMonsterBattleInfo>,
    pub cast_entity_id: u32,
    pub retcode: u32,
}

#[derive(Clone, Copy, Debug, PartialEq, Eq, Default)]
pub struct PveBattleResultCsReq {
    pub battle_id: u32,
    pub stage_id: u32,
    pub end_status: i32,
}

#[derive(Clone, Debug, PartialEq, Eq)]
pub struct PveBattleResultScRsp {
    pub battle_id: u32,
    pub stage_id: u32,
    pub end_status: i32,
    pub battle_avatar_list: Vec<BattleAvatar>,
    pub retcode: u32,
}

#[derive(Clone, Copy, Debug, PartialEq, Eq, Default)]
pub struct SceneCastSkillCostMpCsReq {
    pub cast_entity_id: u32,
}

#[derive(Clone, Copy, Debug, PartialEq, Eq)]
pub struct SceneCastSkillCostMpScRsp {
    pub cast_entity_id: u32,
    pub retcode: u32,
}

#[derive(Clone, Debug, PartialEq, Eq, Default)]
pub struct SyncClientResVersionCsReq {
    pub client_res_version: u32,
}

#[derive(Clone, Debug, PartialEq, Eq)]
pub struct SyncClientResVersionScRsp {
    pub client_res_version: u32,
    pub retcode: u32,
}

// ----- lineup -----

#[derive(Clone, Copy, Debug, PartialEq, Eq)]
pub struct LineupAvatar {
    pub hp: u32,
    pub id: u32,
    pub slot: u32,
    pub sp_bar: Option<SpBarInfo>,
    pub avatar_type: i32,
}

#[derive(Clone, Debug, PartialEq, Eq)]
pub struct LineupInfo {
    pub is_virtual: bool,
    pub plane_id: u32,
    pub name: String,
    pub mp: u32,
    pub max_mp: u32,
    pub index: u32,
    pub extra_lineup_type: i32,
    pub avatar_list: Vec<LineupAvatar>,
    pub leader_slot: u32,
}

#[derive(Clone, Debug, PartialEq, Eq)]
pub struct SyncLineupNotify {
    pub lineup: Option<LineupInfo>,
    pub reason_list: Vec<i32>,
}

#[derive(Clone, Copy, Debug, PartialEq, Eq, Default)]
pub struct ChangeLineupLeaderCsReq {
    pub slot: u32,
}

#[derive(Clone, Copy, Debug, PartialEq, Eq)]
pub struct ChangeLineupLeaderScRsp {
    pub retcode: u32,
    pub slot: u32,
}

#[derive(Clone, Debug, PartialEq, Eq)]
pub struct GetAllLineupDataScRsp {
    pub retcode: u32,
    pub lineup_list: Vec<LineupInfo>,
    pub cur_index: u32,
}

#[derive(Clone, Debug, PartialEq, Eq)]
pub struct GetCurLineupDataScRsp {
    pub lineup: Option<LineupInfo>,
    pub retcode: u32,
}

#[derive(Clone, Copy, Debug, PartialEq, Eq, Default)]
pub struct LineupSlotData {
    pub slot: u32,
    pub id: u32,
}

#[derive(Clone, Debug, PartialEq, Eq, Default)]
pub struct ReplaceLineupCsReq {
    pub lineup_slot_list: Vec<LineupSlotData>,
    pub leader_slot: u32,
}

#[derive(Clone, Copy, Debug, PartialEq, Eq)]
pub struct ReplaceLineupScRsp {
    pub retcode: u32,
}

// ----- avatar -----

#[derive(Clone, Copy, Debug, PartialEq, Eq)]
pub struct Avatar {
    pub first_met_time_stamp: u64,
    pub level: u32,
    pub promotion: u32,
    pub base_avatar_id: u32,
    pub cur_multi_path_avatar_type: u32,
}

#[derive(Clone, Copy, Debug, PartialEq, Eq)]
pub struct AvatarPathSkillTree {
    pub point_id: u32,
    pub level: u32,
}

#[derive(Clone, Debug, PartialEq, Eq)]
pub struct AvatarPathData {
    pub avatar_path_skill_tree: Vec<AvatarPathSkillTree>,
    pub avatar_id: u32,
    pub rank: u32,
    pub unlock_timestamp: u64,
    pub unk_enhanced_id: u32,
}

#[derive(Clone, Debug, PartialEq, Eq)]
pub struct GetAvatarDataScRsp {
    pub is_get_all: bool,
    pub retcode: u32,
    pub basic_type_id_list: Vec<u32>,
    pub avatar_path_data_info_list: Vec<AvatarPathData>,
    pub avatar_list: Vec<Avatar>,
}

// ----- bag -----

#[derive(Clone, Copy, Debug, PartialEq, Eq)]
pub struct Equipment {
    pub dress_avatar_id: u32,
    pub exp: u32,
    pub is_protected: bool,
    pub level: u32,
    pub promotion: u32,
    pub rank: u32,
    pub tid: u32,
    pub unique_id: u32,
}

#[derive(Clone, Debug, PartialEq, Eq)]
pub struct Relic {
    pub dress_avatar_id: u32,
    pub exp: u32,
    pub is_protected: bool,
    pub level: u32,
    pub main_affix_id: u32,
    pub tid: u32,
    pub unique_id: u32,
    pub sub_affix_list: Vec<RelicAffix>,
}

#[derive(Clone, Copy, Debug, PartialEq, Eq)]
pub struct Material {
    pub tid: u32,
    pub num: u32,
    pub expire_time: u64,
}

#[derive(Clone, Debug, PartialEq, Eq)]
pub struct GetBagScRsp {
    pub equipment_list: Vec<Equipment>,
    pub relic_list: Vec<Relic>,
    pub material_list: Vec<Material>,
    pub retcode: u32,
}

// ----- mission -----

#[derive(Clone, Debug, PartialEq, Eq, Default)]
pub struct GetMissionStatusCsReq {
    pub main_mission_id_list: Vec<u32>,
    pub sub_mission_id_list: Vec<u32>,
}

#[derive(Clone, Copy, Debug, PartialEq, Eq)]
pub struct Mission {
    pub id: u32,
    pub progress: u32,
    pub status: i32,
}

#[derive(Clone, Debug, PartialEq, Eq)]
pub struct GetMissionStatusScRsp {
    pub finished_main_mission_id_list: Vec<u32>,
    pub sub_mission_status_list: Vec<Mission>,
    pub retcode: u32,
}

// ----- player -----

#[derive(Clone, Copy, Debug, PartialEq, Eq)]
pub struct PlayerGetTokenScRsp {
    pub retcode: u32,
    pub uid: u32,
}

#[derive(Clone, Copy, Debug, PartialEq, Eq, Default)]
pub struct PlayerHeartBeatCsReq {
    pub client_time_ms: u64,
}

#[derive(Clone, Copy, Debug, PartialEq, Eq)]
pub struct PlayerHeartBeatScRsp {
    pub retcode: u32,
    pub client_time_ms: u64,
    pub server_time_ms: u64,
}

#[derive(Clone, Debug, PartialEq, Eq)]
pub struct PlayerBasicInfo {
    pub nickname: String,
    pub level: u32,
    pub stamina: u32,
    pub world_level: u32,
}

#[derive(Clone, Debug, PartialEq, Eq)]
pub struct PlayerLoginScRsp {
    pub basic_info: Option<PlayerBasicInfo>,
    pub server_timestamp_ms: u64,
    pub stamina: u32,
    pub retcode: u32,
}

/// Player settings; the server sends the default settings.
#[derive(Clone, Copy, Debug, PartialEq, Eq)]
pub struct PlayerSettingInfo {}

#[derive(Clone, Copy, Debug, PartialEq, Eq)]
pub struct GetBasicInfoScRsp {
    pub cur_day: u32,
    pub player_setting_info: Option<PlayerSettingInfo>,
    pub is_gender_set: bool,
    pub gender: u32,
    pub retcode: u32,
}

#[derive(Clone, Copy, Debug, PartialEq, Eq)]
pub struct HeadIconData {
    pub id: u32,
}

#[derive(Clone, Copy, Debug, PartialEq, Eq)]
pub struct HeadFrameInfo {
    pub head_frame_item_id: u32,
    pub head_frame_expire_time: i64,
}

#[derive(Clone, Copy, Debug, PartialEq, Eq)]
pub struct DisplayAvatarVec {
    pub is_display: bool,
}

#[derive(Clone, Debug, PartialEq, Eq)]
pub struct GetPlayerBoardDataScRsp {
    pub signature: String,
    pub current_head_icon_id: u32,
    pub unlocked_head_icon_list: Vec<HeadIconData>,
    pub head_frame_info: Option<HeadFrameInfo>,
    pub current_personal_card_id: u32,
    pub unlocked_personal_card_list: Vec<u32>,
    pub display_avatar_vec: Option<DisplayAvatarVec>,
    pub retcode: u32,
}

#[derive(Clone, Copy, Debug, PartialEq, Eq, Default)]
pub struct SetClientPausedCsReq {
    pub paused: bool,
}

#[derive(Clone, Copy, Debug, PartialEq, Eq)]
pub struct SetClientPausedScRsp {
    pub paused: bool,
    pub retcode: u32,
}

// ----- scene -----

#[derive(Clone, Copy, Debug, PartialEq, Eq)]
pub struct Vector {
    pub x: i32,
    pub y: i32,
    pub z: i32,
}

#[derive(Clone, Copy, Debug, PartialEq, Eq)]
pub struct MotionInfo {
    pub pos: Option<Vector>,
    pub rot: Option<Vector>,
}

#[derive(Clone, Copy, Debug, PartialEq, Eq)]
pub struct SceneActorInfo {
    pub base_avatar_id: u32,
    pub avatar_type: i32,
    pub map_layer: u32,
    pub uid: u32,
}

#[derive(Clone, Copy, Debug, PartialEq, Eq)]
pub struct ScenePropInfo {
    pub prop_id: u32,
    pub prop_state: u32,
}

#[derive(Clone, Copy, Debug, PartialEq, Eq)]
pub enum SceneEntity {
    Actor(SceneActorInfo),
    Prop(ScenePropInfo),
}

#[derive(Clone, Copy, Debug, PartialEq, Eq)]
pub struct SceneEntityInfo {
    pub entity_id: u32,
    pub group_id: u32,
    pub inst_id: u32,
    pub entity: Option<SceneEntity>,
    pub motion: Option<MotionInfo>,
}

#[derive(Clone, Debug, PartialEq, Eq)]
pub struct SceneEntityGroupInfo {
    pub group_id: u32,
    pub state: u32,
    pub entity_list: Vec<SceneEntityInfo>,
}

#[derive(Clone, Copy, Debug, PartialEq, Eq)]
pub struct SceneIdentifier {
    pub floor_id: u32,
}

#[derive(Clone, Debug, PartialEq, Eq)]
pub struct SceneInfo {
    pub plane_id: u32,
    pub entry_id: u32,
    pub floor_id: u32,
    pub world_id: u32,
    pub game_mode_type: u32,
    pub leader_entity_id: u32,
    pub scene_identifier: Option<SceneIdentifier>,
    pub entity_group_list: Vec<SceneEntityGroupInfo>,
}

#[derive(Clone, Debug, PartialEq, Eq)]
pub struct GetCurSceneInfoScRsp {
    pub scene: Option<SceneInfo>,
    pub retcode: u32,
}


// ----- dispatch (HTTP) -----

#[derive(Clone, Debug, PartialEq, Eq)]
pub struct RegionInfo {
    pub name: String,
    pub title: String,
    pub dispatch_url: String,
    pub env_type: String,
}

#[derive(Clone, Debug, PartialEq, Eq)]
pub struct Dispatch {
    pub retcode: u32,
    pub msg: String,
    pub region_list: Vec<RegionInfo>,
}

#[derive(Clone, Debug, PartialEq, Eq)]
pub struct GateServer {
    pub ip: String,
    pub lua_url: String,
    pub port: u32,
    pub region_name: String,
    pub ex_resource_url: String,
    pub asset_bundle_url: String,
    pub retcode: u32,
    pub ifix_version: String,
    pub unk1: bool,
    pub unk2: bool,
    pub unk3: bool,
    pub unk4: bool,
    pub unk5: bool,
    pub unk6: bool,
    pub unk7: bool,
    pub unk8: bool,
    pub unk9: bool,
    pub unk10: bool,
    pub unk11: bool,
    pub unk12: bool,
    pub unk13: bool,
    pub unk14: bool,
    pub unk15: bool,
}

} // verus!
