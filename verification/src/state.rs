//! The session state the game server keeps beside the player's saved data.

use vstd::prelude::*;

use crate::data::{
    battle_data_fits, game_data_loaded, AvatarRecord, DataError, FreeSrData, GameData, PersistentAvatar, PersistentFile,
};
use crate::proto::{LineupAvatar, SpBarInfo, AVATAR_TYPE_FORMAL, BATTLE_END_QUIT};
use crate::text::{decimal, lemma_parse_decimal, u32_to_string};

verus! {

/// Most characters a lineup shows.
pub const MAX_LINEUP: usize = 4;

/// What a battle was started with. The battle itself is a function of these
/// parameters and the saved data (see `battle::create_battle`).
pub struct BattleParams {
    pub battle_id: u32,
    pub world_level: u32,
    pub technique_avatar_id: u32,
    pub seed: u32,
    /// The lineup when the battle started.
    pub lineup: Vec<u32>,
    /// The leader slot when the battle started.
    pub leader_slot: u32,
}

/// What changes while the server runs.
pub struct RuntimeState {
    pub mc_id: u32,
    pub march_id: u32,
    pub lineup: Vec<u32>,
    pub leader_slot: u32,
    pub client_paused: bool,
    pub on_battle: bool,
    /// The battle in progress, by the parameters it was started with.
    pub current_battle: Option<BattleParams>,
    pub last_battle_end_status: i32,
    pub next_battle_id: u32,
    pub last_world_level: u32,
}

/// Saved data and session state together.
pub struct GameServerState {
    pub data: GameData,
    pub runtime: RuntimeState,
}

/// The highest leader slot a lineup of `len` characters allows: `len - 1`, or 0 when empty.
pub open spec fn max_slot(len: nat) -> u32 {
    if len == 0 {
        0
    } else {
        (len - 1) as u32
    }
}

impl RuntimeState {
    /// The session state is consistent: battle ids are positive, the leader slot
    /// lies within the lineup, and a battle is stored exactly while one is on.
    pub open spec fn wf(&self) -> bool {
        &&& self.next_battle_id >= 1
        &&& self.leader_slot <= max_slot(self.lineup@.len())
        &&& (self.on_battle <==> self.current_battle is Some)
    }
}

impl GameServerState {
    /// The session is consistent, and the battle in progress, if any, can be rebuilt
    /// from the saved data.
    pub open spec fn wf(&self) -> bool {
        &&& self.runtime.wf()
        &&& self.runtime.current_battle matches Some(p) ==> battle_data_fits(self.data, p.lineup@)
    }
}

/// The ids of the given characters, in order.
pub open spec fn avatar_ids(avs: Seq<AvatarRecord>) -> Seq<u32> {
    avs.map_values(|a: AvatarRecord| a.avatar_id)
}

/// The lineup a session starts with: the saved lineup, or, when none was saved,
/// the first four characters.
pub open spec fn initial_lineup(data: GameData) -> Seq<u32> {
    if data.lineup@.len() == 0 {
        let ids = avatar_ids(data.avatars@);
        ids.take(if ids.len() < 4 { ids.len() as int } else { 4 })
    } else {
        data.lineup@
    }
}

/// The highest leader slot the current lineup allows.
pub fn lineup_max_slot(lineup: &Vec<u32>) -> (m: u32)
    ensures
        m == max_slot(lineup@.len()),
{
    let n = lineup.len();
    if n == 0 {
        0
    } else {
        (n - 1) as u32
    }
}

/// The ids of the given characters, in order.
pub fn collect_avatar_ids(avs: &Vec<AvatarRecord>, limit: usize) -> (ids: Vec<u32>)
    ensures
        ids@ == avatar_ids(avs@).take(
            if avatar_ids(avs@).len() < limit { avatar_ids(avs@).len() as int } else { limit as int },
        ),
{
    let mut ids: Vec<u32> = Vec::new();
    let mut i: usize = 0;
    while i < avs.len() && i < limit
        invariant
            i <= avs@.len(),
            i <= limit,
            ids@ == avatar_ids(avs@).take(i as int),
        decreases avs@.len() - i,
    {
        ids.push(avs[i].avatar_id);
        i = i + 1;
        assert(avatar_ids(avs@).take(i as int) == avatar_ids(avs@).take((i - 1) as int).push(
            avs@[i - 1].avatar_id,
        ));
    }
    ids
}

/// The session state at start-up.
pub fn initial_runtime(data: &GameData) -> (rt: RuntimeState)
    ensures
        rt.wf(),
        rt.mc_id == data.mc_id,
        rt.march_id == data.march_id,
        rt.lineup@ == initial_lineup(*data),
        rt.leader_slot == 0,
        !rt.client_paused,
        !rt.on_battle,
        rt.current_battle is None,
        rt.last_battle_end_status == BATTLE_END_QUIT,
        rt.next_battle_id == 1,
        rt.last_world_level == 6,
{
    let lineup = if data.lineup.len() == 0 {
        collect_avatar_ids(&data.avatars, MAX_LINEUP)
    } else {
        data.lineup.clone()
    };
    assert(lineup@ == initial_lineup(*data));
    RuntimeState {
        mc_id: data.mc_id,
        march_id: data.march_id,
        lineup,
        leader_slot: 0,
        client_paused: false,
        on_battle: false,
        current_battle: None,
        last_battle_end_status: BATTLE_END_QUIT,
        next_battle_id: 1,
        last_world_level: 6,
    }
}

/// The next battle id was handed out for a battle at `world_level`: the counter
/// moved on (staying at its maximum once there) and the world level is kept.
/// Nothing else changes.
pub open spec fn battle_id_allocated(old_rt: RuntimeState, new_rt: RuntimeState, world_level: u32) -> bool {
    &&& new_rt.next_battle_id == if old_rt.next_battle_id == u32::MAX {
        u32::MAX
    } else {
        (old_rt.next_battle_id + 1) as u32
    }
    &&& new_rt.last_world_level == world_level
    &&& new_rt.lineup == old_rt.lineup
    &&& new_rt.leader_slot == old_rt.leader_slot
    &&& new_rt.mc_id == old_rt.mc_id
    &&& new_rt.march_id == old_rt.march_id
    &&& new_rt.client_paused == old_rt.client_paused
    &&& new_rt.on_battle == old_rt.on_battle
    &&& new_rt.current_battle == old_rt.current_battle
    &&& new_rt.last_battle_end_status == old_rt.last_battle_end_status
}

/// Hands out the next battle id and records the world level of the battle.
/// The counter saturates at its maximum and never returns to 0.
pub fn allocate_battle_id(rt: &mut RuntimeState, world_level: u32) -> (id: u32)
    requires
        old(rt).wf(),
    ensures
        final(rt).wf(),
        id == old(rt).next_battle_id,
        id >= 1,
        battle_id_allocated(*old(rt), *final(rt), world_level),
{
    let id = rt.next_battle_id;
    rt.next_battle_id = rt.next_battle_id.saturating_add(1);
    if rt.next_battle_id < 1 {
        rt.next_battle_id = 1;
    }
    rt.last_world_level = world_level;
    id
}

/// The lineup entry shown for character `id` in slot `slot`.
pub open spec fn lineup_avatar(id: u32, slot: int) -> LineupAvatar {
    LineupAvatar {
        hp: 10_000,
        id,
        slot: slot as u32,
        sp_bar: Some(SpBarInfo { cur_sp: 0, max_sp: 10_000 }),
        avatar_type: AVATAR_TYPE_FORMAL,
    }
}

/// The lineup entries for the first four characters of `lineup`.
pub open spec fn lineup_avatars(lineup: Seq<u32>) -> Seq<LineupAvatar> {
    let n = if lineup.len() < 4 { lineup.len() } else { 4 };
    Seq::new(n, |i: int| lineup_avatar(lineup[i], i))
}

/// The lineup entries of the current lineup, at most four.
pub fn lineup_avatar_infos(rt: &RuntimeState) -> (res: Vec<LineupAvatar>)
    ensures
        res@ == lineup_avatars(rt.lineup@),
{
    let mut res: Vec<LineupAvatar> = Vec::new();
    let mut i: usize = 0;
    while i < rt.lineup.len() && i < MAX_LINEUP
        invariant
            i <= rt.lineup@.len(),
            i <= 4,
            res@ == Seq::new(i as nat, |k: int| lineup_avatar(rt.lineup@[k], k)),
        decreases rt.lineup@.len() - i,
    {
        res.push(
            LineupAvatar {
                hp: 10_000,
                id: rt.lineup[i],
                slot: i as u32,
                sp_bar: Some(SpBarInfo { cur_sp: 0, max_sp: 10_000 }),
                avatar_type: AVATAR_TYPE_FORMAL,
            },
        );
        i = i + 1;
    }
    res
}

/// What the server saves of the session: the two path ids as decimal text and the lineup.
pub struct PersistentSnapshot {
    pub mc_id: String,
    pub march_id: String,
    pub lineup: Vec<u32>,
}

/// `snap` is what the server saves of session state `rt`.
pub open spec fn snapshot_of(snap: PersistentSnapshot, rt: RuntimeState) -> bool {
    &&& snap.mc_id@ == decimal(rt.mc_id as nat)
    &&& snap.march_id@ == decimal(rt.march_id as nat)
    &&& snap.lineup@ == rt.lineup@
}

/// The contents of the saved session file for the current state.
pub fn persist_snapshot(rt: &RuntimeState) -> (snap: PersistentSnapshot)
    ensures
        snapshot_of(snap, *rt),
{
    PersistentSnapshot {
        mc_id: u32_to_string(rt.mc_id),
        march_id: u32_to_string(rt.march_id),
        lineup: rt.lineup.clone(),
    }
}

/// The saved session reloads as it was saved: loading a data file together with
/// the session file written for runtime state `rt` succeeds, gives back `rt`'s path
/// ids and lineup, and a server started on it resumes with that lineup when it is
/// not empty.
pub proof fn lemma_session_reloads(
    rt: RuntimeState,
    snap: PersistentSnapshot,
    freesr: FreeSrData,
    res: Result<GameData, DataError>,
)
    requires
        snapshot_of(snap, rt),
        game_data_loaded(
            freesr,
            PersistentFile {
                avatar: PersistentAvatar {
                    mc_id: snap.mc_id,
                    march_id: snap.march_id,
                    lineup: snap.lineup,
                },
            },
            res,
        ),
    ensures
        res matches Ok(d) && {
            &&& d.mc_id == rt.mc_id
            &&& d.march_id == rt.march_id
            &&& d.lineup@ == rt.lineup@
            &&& rt.lineup@.len() > 0 ==> initial_lineup(d) == rt.lineup@
        },
{
    lemma_parse_decimal(rt.mc_id as nat, u32::MAX as nat);
    lemma_parse_decimal(rt.march_id as nat, u32::MAX as nat);
}

} // verus!
