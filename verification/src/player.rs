//! Login, heartbeat and player-profile messages.

use vstd::prelude::*;
use vstd::string::*;

use crate::proto::{
    DisplayAvatarVec, GetBasicInfoScRsp, GetPlayerBoardDataScRsp, HeadFrameInfo, HeadIconData,
    PlayerBasicInfo, PlayerGetTokenScRsp, PlayerHeartBeatCsReq, PlayerHeartBeatScRsp,
    PlayerLoginScRsp, PlayerSettingInfo, SetClientPausedCsReq, SetClientPausedScRsp,
};
use crate::state::{GameServerState, RuntimeState};

verus! {

/// How long a head frame lasts: one day, in milliseconds.
pub const HEAD_FRAME_LIFETIME_MS: u64 = 86_400_000;

/// The player's uid, for the login token.
/// The token answer: the player's uid.
pub open spec fn token_reply(state: GameServerState, rsp: PlayerGetTokenScRsp) -> bool {
    rsp.retcode == 0 && rsp.uid == state.data.uid
}

pub fn on_player_get_token(state: &GameServerState) -> (rsp: PlayerGetTokenScRsp)
    ensures
        token_reply(*state, rsp),
{
    PlayerGetTokenScRsp { retcode: 0, uid: state.data.uid }
}

/// Echoes the client's clock and gives the server's, `now_ms`.
/// The heartbeat answer: the client's time echoed beside the server's.
pub open spec fn heart_beat_reply(req: PlayerHeartBeatCsReq, now_ms: u64, rsp: PlayerHeartBeatScRsp) -> bool {
    &&& rsp.retcode == 0
    &&& rsp.client_time_ms == req.client_time_ms
    &&& rsp.server_time_ms == now_ms
}

pub fn on_player_heart_beat(req: &PlayerHeartBeatCsReq, now_ms: u64) -> (rsp: PlayerHeartBeatScRsp)
    ensures
        heart_beat_reply(*req, now_ms, rsp),
{
    PlayerHeartBeatScRsp { retcode: 0, client_time_ms: req.client_time_ms, server_time_ms: now_ms }
}

/// The login answer: level 70, world level 6 and 240 stamina, at server time `now_ms`.
/// The login answer: the nickname at level 70, world level 6, 240 stamina.
pub open spec fn login_reply(state: GameServerState, now_ms: u64, rsp: PlayerLoginScRsp) -> bool {
    &&& rsp.basic_info matches Some(b) && b.nickname@ == state.data.nickname@ && b.level == 70
        && b.stamina == 240 && b.world_level == 6
    &&& rsp.server_timestamp_ms == now_ms
    &&& rsp.stamina == 240
    &&& rsp.retcode == 0
}

pub fn on_player_login(state: &GameServerState, now_ms: u64) -> (rsp: PlayerLoginScRsp)
    ensures
        login_reply(*state, now_ms, rsp),
{
    PlayerLoginScRsp {
        basic_info: Some(
            PlayerBasicInfo {
                nickname: state.data.nickname.clone(),
                level: 70,
                stamina: 240,
                world_level: 6,
            },
        ),
        server_timestamp_ms: now_ms,
        stamina: 240,
        retcode: 0,
    }
}

/// Basic account information: day 1, default settings, gender set to 1.
/// The basic-info answer: day 1, default settings, gender 1 set.
pub open spec fn basic_info_reply(rsp: GetBasicInfoScRsp) -> bool {
    rsp == (GetBasicInfoScRsp {
        cur_day: 1,
        player_setting_info: Some(PlayerSettingInfo {  }),
        is_gender_set: true,
        gender: 1,
        retcode: 0,
    })
}

pub fn on_get_basic_info() -> (rsp: GetBasicInfoScRsp)
    ensures
        basic_info_reply(rsp),
{
    GetBasicInfoScRsp {
        cur_day: 1,
        player_setting_info: Some(PlayerSettingInfo {  }),
        is_gender_set: true,
        gender: 1,
        retcode: 0,
    }
}

/// The profile card: the trailblazer's path as head icon, both saved paths unlocked,
/// a head frame that expires one day after `now_ms`, and the fixed personal card.
/// The profile answer: signature "RobinSR", the two path ids as head icons, a head
/// frame that expires a day after `now_ms`, card 253001, avatars hidden.
pub open spec fn board_reply(state: GameServerState, now_ms: u64, rsp: GetPlayerBoardDataScRsp) -> bool {
    &&& rsp.signature@ == "RobinSR"@
    &&& rsp.current_head_icon_id == state.runtime.mc_id
    &&& rsp.unlocked_head_icon_list@ == seq![
        HeadIconData { id: state.runtime.mc_id },
        HeadIconData { id: state.runtime.march_id },
    ]
    &&& rsp.head_frame_info == Some(
        HeadFrameInfo {
            head_frame_item_id: 226004,
            head_frame_expire_time: (now_ms + HEAD_FRAME_LIFETIME_MS) as i64,
        },
    )
    &&& rsp.current_personal_card_id == 253001
    &&& rsp.unlocked_personal_card_list@ == seq![253001u32]
    &&& rsp.display_avatar_vec == Some(DisplayAvatarVec { is_display: false })
    &&& rsp.retcode == 0
}

pub fn on_get_player_board_data(state: &GameServerState, now_ms: u64) -> (rsp: GetPlayerBoardDataScRsp)
    requires
        now_ms <= u64::MAX - HEAD_FRAME_LIFETIME_MS,
    ensures
        board_reply(*state, now_ms, rsp),
{
    let head_icon = state.runtime.mc_id;
    let march_id = state.runtime.march_id;
    let mut icons: Vec<HeadIconData> = Vec::new();
    icons.push(HeadIconData { id: head_icon });
    icons.push(HeadIconData { id: march_id });
    let mut cards: Vec<u32> = Vec::new();
    cards.push(253001);
    assert(icons@ =~= seq![HeadIconData { id: head_icon }, HeadIconData { id: march_id }]);
    assert(cards@ =~= seq![253001u32]);
    GetPlayerBoardDataScRsp {
        signature: String::from_str("RobinSR"),
        current_head_icon_id: head_icon,
        unlocked_head_icon_list: icons,
        head_frame_info: Some(
            HeadFrameInfo {
                head_frame_item_id: 226004,
                head_frame_expire_time: (now_ms + HEAD_FRAME_LIFETIME_MS) as i64,
            },
        ),
        current_personal_card_id: 253001,
        unlocked_personal_card_list: cards,
        display_avatar_vec: Some(DisplayAvatarVec { is_display: false }),
        retcode: 0,
    }
}

/// Records whether the client is paused and echoes it.
/// The pause flag is set as requested and echoed; nothing else changes.
pub open spec fn paused_set(
    before: GameServerState,
    after: GameServerState,
    req: SetClientPausedCsReq,
    rsp: SetClientPausedScRsp,
) -> bool {
    &&& after.data == before.data
    &&& after.runtime == (RuntimeState { client_paused: req.paused, ..before.runtime })
    &&& rsp.paused == req.paused
    &&& rsp.retcode == 0
}

pub fn on_set_client_paused(state: &mut GameServerState, req: &SetClientPausedCsReq) -> (rsp:
    SetClientPausedScRsp)
    requires
        old(state).runtime.wf(),
    ensures
        final(state).runtime.wf(),
        paused_set(*old(state), *final(state), *req, rsp),
{
    state.runtime.client_paused = req.paused;
    SetClientPausedScRsp { paused: req.paused, retcode: 0 }
}

} // verus!
