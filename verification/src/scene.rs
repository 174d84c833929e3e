//! The scene the player stands in: a fixed map with the lineup leader and one prop.

use vstd::prelude::*;

use crate::proto::{
    GetCurSceneInfoScRsp, MotionInfo, SceneActorInfo, SceneEntity, SceneEntityGroupInfo,
    SceneEntityInfo, SceneIdentifier, SceneInfo, ScenePropInfo, Vector, AVATAR_TYPE_FORMAL,
};
use crate::state::{GameServerState, RuntimeState};

verus! {

/// The character shown in the scene: the lineup's leader, or the trailblazer's path
/// when the leader slot is empty.
pub open spec fn leader_avatar(rt: RuntimeState) -> u32 {
    if (rt.leader_slot as int) < rt.lineup@.len() {
        rt.lineup@[rt.leader_slot as int]
    } else {
        rt.mc_id
    }
}

/// The player's own entity: the leader at its spawn point.
pub open spec fn player_entity(leader: u32, uid: u32) -> SceneEntityInfo {
    SceneEntityInfo {
        entity_id: 1,
        group_id: 0,
        inst_id: 0,
        entity: Some(
            SceneEntity::Actor(
                SceneActorInfo { base_avatar_id: leader, avatar_type: AVATAR_TYPE_FORMAL, map_layer: 2, uid },
            ),
        ),
        motion: Some(
            MotionInfo {
                pos: Some(Vector { x: 49087, y: 9648, z: 136907 }),
                rot: Some(Vector { x: 0, y: 0, z: 0 }),
            },
        ),
    }
}

/// The one prop of the scene.
pub open spec fn prop_entity() -> SceneEntityInfo {
    SceneEntityInfo {
        entity_id: 84,
        group_id: 239,
        inst_id: 300001,
        entity: Some(SceneEntity::Prop(ScenePropInfo { prop_id: 808, prop_state: 8 })),
        motion: Some(
            MotionInfo {
                pos: Some(Vector { x: 48730, y: 9648, z: 138200 }),
                rot: Some(Vector { x: 0, y: 0, z: 0 }),
            },
        ),
    }
}

/// The scene answer (see `on_get_cur_scene_info`).
pub open spec fn scene_reply(state: GameServerState, rsp: GetCurSceneInfoScRsp) -> bool {
    &&& rsp.retcode == 0
    &&& rsp.scene matches Some(s) && {
        &&& s.plane_id == 20503
        &&& s.entry_id == 2050301
        &&& s.floor_id == 20503001
        &&& s.world_id == 601
        &&& s.game_mode_type == 1
        &&& s.leader_entity_id == 1
        &&& s.scene_identifier == Some(SceneIdentifier { floor_id: 20503001 })
        &&& s.entity_group_list@.len() == 2
        &&& s.entity_group_list@[0].group_id == 0
        &&& s.entity_group_list@[0].state == 1
        &&& s.entity_group_list@[0].entity_list@ == seq![
            player_entity(leader_avatar(state.runtime), state.data.uid),
        ]
        &&& s.entity_group_list@[1].group_id == 20
        &&& s.entity_group_list@[1].state == 1
        &&& s.entity_group_list@[1].entity_list@ == seq![prop_entity()]
    }
}

/// The scene of plane 20503 (entry 2050301, floor 20503001, world 601) with the
/// leader as the player's entity (group state 1) and a prop in group 20.
pub fn on_get_cur_scene_info(state: &GameServerState) -> (rsp: GetCurSceneInfoScRsp)
    ensures
        scene_reply(*state, rsp),
{
    let rt = &state.runtime;
    let leader = if (rt.leader_slot as usize) < rt.lineup.len() {
        rt.lineup[rt.leader_slot as usize]
    } else {
        rt.mc_id
    };
    let player = SceneEntityInfo {
        entity_id: 1,
        group_id: 0,
        inst_id: 0,
        entity: Some(
            SceneEntity::Actor(
                SceneActorInfo {
                    base_avatar_id: leader,
                    avatar_type: AVATAR_TYPE_FORMAL,
                    map_layer: 2,
                    uid: state.data.uid,
                },
            ),
        ),
        motion: Some(
            MotionInfo {
                pos: Some(Vector { x: 49087, y: 9648, z: 136907 }),
                rot: Some(Vector { x: 0, y: 0, z: 0 }),
            },
        ),
    };
    let prop = SceneEntityInfo {
        entity_id: 84,
        group_id: 239,
        inst_id: 300001,
        entity: Some(SceneEntity::Prop(ScenePropInfo { prop_id: 808, prop_state: 8 })),
        motion: Some(
            MotionInfo {
                pos: Some(Vector { x: 48730, y: 9648, z: 138200 }),
                rot: Some(Vector { x: 0, y: 0, z: 0 }),
            },
        ),
    };
    let mut first: Vec<SceneEntityInfo> = Vec::new();
    first.push(player);
    let mut second: Vec<SceneEntityInfo> = Vec::new();
    second.push(prop);
    let mut groups: Vec<SceneEntityGroupInfo> = Vec::new();
    groups.push(SceneEntityGroupInfo { group_id: 0, state: 1, entity_list: first });
    groups.push(SceneEntityGroupInfo { group_id: 20, state: 1, entity_list: second });
    GetCurSceneInfoScRsp {
        scene: Some(
            SceneInfo {
                plane_id: 20503,
                entry_id: 2050301,
                floor_id: 20503001,
                world_id: 601,
                game_mode_type: 1,
                leader_entity_id: 1,
                scene_identifier: Some(SceneIdentifier { floor_id: 20503001 }),
                entity_group_list: groups,
            },
        ),
        retcode: 0,
    }
}

} // verus!
