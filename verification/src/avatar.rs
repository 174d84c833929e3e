//! The character list the client asks for after login.

use vstd::prelude::*;

use crate::data::{AvatarRecord, GameData};
use crate::proto::{Avatar, AvatarPathData, AvatarPathSkillTree, GetAvatarDataScRsp};
use crate::state::{avatar_ids, GameServerState};

verus! {

/// The trailblazer, in any of its paths.
pub open spec fn spec_is_trailblazer(avatar_id: u32) -> bool {
    8001 <= avatar_id <= 8010
}

/// March 7th, in either of her paths.
pub open spec fn spec_is_march(avatar_id: u32) -> bool {
    avatar_id == 1001 || avatar_id == 1224
}

/// The path a character currently takes: the saved path of the trailblazer or of
/// March 7th, the character itself otherwise.
pub open spec fn spec_multi_path_type(data: GameData, avatar_id: u32) -> u32 {
    if spec_is_trailblazer(avatar_id) {
        data.mc_id
    } else if spec_is_march(avatar_id) {
        data.march_id
    } else {
        avatar_id
    }
}

/// Whether a character id is one of the trailblazer's paths.
pub fn is_trailblazer_avatar(avatar_id: u32) -> (b: bool)
    ensures
        b == spec_is_trailblazer(avatar_id),
{
    8001 <= avatar_id && avatar_id <= 8010
}

/// Whether a character id is one of March 7th's paths.
pub fn is_march_avatar(avatar_id: u32) -> (b: bool)
    ensures
        b == spec_is_march(avatar_id),
{
    avatar_id == 1001 || avatar_id == 1224
}

/// The path a character currently takes.
pub fn resolve_multi_path_avatar_type(data: &GameData, avatar_id: u32) -> (t: u32)
    ensures
        t == spec_multi_path_type(*data, avatar_id),
{
    if is_trailblazer_avatar(avatar_id) {
        return data.mc_id;
    }
    if is_march_avatar(avatar_id) {
        return data.march_id;
    }
    avatar_id
}

/// A character as the avatar list shows it, met at time `ts`.
pub open spec fn avatar_entry(data: GameData, a: AvatarRecord, ts: u64) -> Avatar {
    Avatar {
        first_met_time_stamp: ts,
        level: a.level,
        promotion: a.promotion,
        base_avatar_id: a.avatar_id,
        cur_multi_path_avatar_type: spec_multi_path_type(data, a.avatar_id),
    }
}

/// A character's path data, unlocked at time `ts`.
pub open spec fn path_data_is(p: AvatarPathData, a: AvatarRecord, ts: u64) -> bool {
    &&& p.avatar_path_skill_tree@ == a.skills_by_anchor_type@.map_values(
        |s: (u32, u32)| AvatarPathSkillTree { point_id: s.0, level: s.1 },
    )
    &&& p.avatar_id == a.avatar_id
    &&& p.rank == a.rank
    &&& p.unlock_timestamp == ts
    &&& p.unk_enhanced_id == a.enhanced_id
}

fn path_skill_tree(a: &AvatarRecord) -> (out: Vec<AvatarPathSkillTree>)
    ensures
        out@ == a.skills_by_anchor_type@.map_values(
            |s: (u32, u32)| AvatarPathSkillTree { point_id: s.0, level: s.1 },
        ),
{
    let ghost e = a.skills_by_anchor_type@.map_values(
        |s: (u32, u32)| AvatarPathSkillTree { point_id: s.0, level: s.1 },
    );
    let mut out: Vec<AvatarPathSkillTree> = Vec::new();
    let mut i: usize = 0;
    while i < a.skills_by_anchor_type.len()
        invariant
            i <= a.skills_by_anchor_type@.len(),
            e == a.skills_by_anchor_type@.map_values(
                |s: (u32, u32)| AvatarPathSkillTree { point_id: s.0, level: s.1 },
            ),
            out@ == e.take(i as int),
        decreases a.skills_by_anchor_type@.len() - i,
    {
        let (point_id, level) = a.skills_by_anchor_type[i];
        out.push(AvatarPathSkillTree { point_id, level });
        i = i + 1;
        assert(e.take(i as int) == e.take((i - 1) as int).push(e[i - 1]));
    }
    assert(e.take(i as int) == e);
    out
}

/// The character-list answer: every owned character, first met and unlocked at `now_ms`.
pub open spec fn avatar_data_reply(state: GameServerState, now_ms: u64, rsp: GetAvatarDataScRsp) -> bool {
    &&& rsp.is_get_all
    &&& rsp.retcode == 0
    &&& rsp.basic_type_id_list@ == avatar_ids(state.data.avatars@)
    &&& rsp.avatar_list@ == state.data.avatars@.map_values(
        |a: AvatarRecord| avatar_entry(state.data, a, now_ms),
    )
    &&& rsp.avatar_path_data_info_list@.len() == state.data.avatars@.len()
    &&& forall|i: int|
        0 <= i < state.data.avatars@.len() ==> path_data_is(
            #[trigger] rsp.avatar_path_data_info_list@[i],
            state.data.avatars@[i],
            now_ms,
        )
}

/// All characters the player owns, with their paths, levels and skill trees, all
/// first met and unlocked at `now_ms`.
pub fn on_get_avatar_data(state: &GameServerState, now_ms: u64) -> (rsp: GetAvatarDataScRsp)
    ensures
        avatar_data_reply(*state, now_ms, rsp),
{
    let avs = &state.data.avatars;
    let ghost e = avs@.map_values(|a: AvatarRecord| avatar_entry(state.data, a, now_ms));
    let ghost ids = avatar_ids(avs@);
    let mut avatar_list: Vec<Avatar> = Vec::new();
    let mut path_list: Vec<AvatarPathData> = Vec::new();
    let mut id_list: Vec<u32> = Vec::new();
    let mut i: usize = 0;
    while i < avs.len()
        invariant
            avs == &state.data.avatars,
            i <= avs@.len(),
            e == avs@.map_values(|a: AvatarRecord| avatar_entry(state.data, a, now_ms)),
            ids == avatar_ids(avs@),
            avatar_list@ == e.take(i as int),
            id_list@ == ids.take(i as int),
            path_list@.len() == i,
            forall|k: int| 0 <= k < i ==> path_data_is(#[trigger] path_list@[k], avs@[k], now_ms),
        decreases avs@.len() - i,
    {
        let a = &avs[i];
        avatar_list.push(
            Avatar {
                first_met_time_stamp: now_ms,
                level: a.level,
                promotion: a.promotion,
                base_avatar_id: a.avatar_id,
                cur_multi_path_avatar_type: resolve_multi_path_avatar_type(&state.data, a.avatar_id),
            },
        );
        path_list.push(
            AvatarPathData {
                avatar_path_skill_tree: path_skill_tree(a),
                avatar_id: a.avatar_id,
                rank: a.rank,
                unlock_timestamp: now_ms,
                unk_enhanced_id: a.enhanced_id,
            },
        );
        id_list.push(a.avatar_id);
        i = i + 1;
        assert(e.take(i as int) == e.take((i - 1) as int).push(e[i - 1]));
        assert(ids.take(i as int) == ids.take((i - 1) as int).push(ids[i - 1]));
    }
    assert(e.take(i as int) == e);
    assert(ids.take(i as int) == ids);
    GetAvatarDataScRsp {
        is_get_all: true,
        retcode: 0,
        basic_type_id_list: id_list,
        avatar_path_data_info_list: path_list,
        avatar_list,
    }
}

/// The trailblazer is every id from 8001 to 8010, and March 7th is 1001 and 1224.
pub proof fn lemma_multi_path_ids(data: GameData, avatar_id: u32)
    ensures
        8001 <= avatar_id <= 8010 ==> spec_multi_path_type(data, avatar_id) == data.mc_id,
        (avatar_id == 1001 || avatar_id == 1224) ==> spec_multi_path_type(data, avatar_id) == data.march_id,
        !(8001 <= avatar_id <= 8010) && avatar_id != 1001 && avatar_id != 1224 ==> spec_multi_path_type(
            data,
            avatar_id,
        ) == avatar_id,
{
}

/// The character list shows each trailblazer (ids 8001 to 8010) on the saved
/// trailblazer path, March 7th (1001, 1224) on her saved path, and every other
/// character as itself, in the order of the saved characters.
pub proof fn lemma_avatar_list_paths(state: GameServerState, now_ms: u64, rsp: GetAvatarDataScRsp)
    requires
        avatar_data_reply(state, now_ms, rsp),
    ensures
        rsp.avatar_list@.len() == state.data.avatars@.len(),
        forall|i: int|
            0 <= i < rsp.avatar_list@.len() ==> {
                let id = state.data.avatars@[i].avatar_id;
                let t = (#[trigger] rsp.avatar_list@[i]).cur_multi_path_avatar_type;
                &&& rsp.avatar_list@[i].base_avatar_id == id
                &&& 8001 <= id <= 8010 ==> t == state.data.mc_id
                &&& (id == 1001 || id == 1224) ==> t == state.data.march_id
                &&& !(8001 <= id <= 8010) && id != 1001 && id != 1224 ==> t == id
            },
{
    assert forall|i: int| 0 <= i < rsp.avatar_list@.len() implies {
        let id = state.data.avatars@[i].avatar_id;
        let t = (#[trigger] rsp.avatar_list@[i]).cur_multi_path_avatar_type;
        &&& rsp.avatar_list@[i].base_avatar_id == id
        &&& 8001 <= id <= 8010 ==> t == state.data.mc_id
        &&& (id == 1001 || id == 1224) ==> t == state.data.march_id
        &&& !(8001 <= id <= 8010) && id != 1001 && id != 1224 ==> t == id
    } by {
        lemma_multi_path_ids(state.data, state.data.avatars@[i].avatar_id);
    }
}

} // verus!
