//! The player's team: reading it, choosing its leader and replacing its members.

use vstd::prelude::*;
use vstd::string::*;

use crate::battle::vec_contains;
use crate::data::{find_avatar, first_avatar, AvatarRecord};
use crate::proto::{
    ChangeLineupLeaderCsReq, ChangeLineupLeaderScRsp, GetAllLineupDataScRsp, GetCurLineupDataScRsp,
    LineupInfo, LineupSlotData, ReplaceLineupCsReq, ReplaceLineupScRsp, SyncLineupNotify,
    EXTRA_LINEUP_NONE, SYNC_REASON_NONE,
};
use crate::state::{
    lineup_avatar_infos, lineup_avatars, lineup_max_slot, max_slot, GameServerState, RuntimeState,
    MAX_LINEUP,
};

verus! {

/// The lineup as the client sees it: the first four characters of the current
/// lineup and the current leader slot.
pub open spec fn lineup_info_is(info: LineupInfo, rt: RuntimeState) -> bool {
    &&& !info.is_virtual
    &&& info.plane_id == 20503
    &&& info.name@ == "Robin Team"@
    &&& info.mp == 5
    &&& info.max_mp == 5
    &&& info.index == 0
    &&& info.extra_lineup_type == EXTRA_LINEUP_NONE
    &&& info.avatar_list@ == lineup_avatars(rt.lineup@)
    &&& info.leader_slot == rt.leader_slot
}

/// The session state is as before except, possibly, for the lineup and its leader.
pub open spec fn same_but_lineup(a: RuntimeState, b: RuntimeState) -> bool {
    &&& a.mc_id == b.mc_id
    &&& a.march_id == b.march_id
    &&& a.client_paused == b.client_paused
    &&& a.on_battle == b.on_battle
    &&& a.current_battle == b.current_battle
    &&& a.last_battle_end_status == b.last_battle_end_status
    &&& a.next_battle_id == b.next_battle_id
    &&& a.last_world_level == b.last_world_level
}

/// The current lineup.
pub fn build_lineup(rt: &RuntimeState) -> (info: LineupInfo)
    ensures
        lineup_info_is(info, *rt),
{
    LineupInfo {
        is_virtual: false,
        plane_id: 20503,
        name: String::from_str("Robin Team"),
        mp: 5,
        max_mp: 5,
        index: 0,
        extra_lineup_type: EXTRA_LINEUP_NONE,
        avatar_list: lineup_avatar_infos(rt),
        leader_slot: rt.leader_slot,
    }
}

/// The lineup notice: the current lineup, for no particular reason.
pub open spec fn lineup_notice_is(rt: RuntimeState, n: SyncLineupNotify) -> bool {
    &&& n.lineup matches Some(info) && lineup_info_is(info, rt)
    &&& n.reason_list@ == seq![SYNC_REASON_NONE]
}

/// The notice sent after the lineup changed.
pub fn build_sync_lineup_notify(state: &GameServerState) -> (n: SyncLineupNotify)
    ensures
        lineup_notice_is(state.runtime, n),
{
    let mut reason_list: Vec<i32> = Vec::new();
    reason_list.push(SYNC_REASON_NONE);
    SyncLineupNotify { lineup: Some(build_lineup(&state.runtime)), reason_list }
}

/// The all-lineups answer: the one team, current at index 0.
pub open spec fn all_lineups_reply(rt: RuntimeState, rsp: GetAllLineupDataScRsp) -> bool {
    &&& rsp.retcode == 0
    &&& rsp.cur_index == 0
    &&& rsp.lineup_list@.len() == 1
    &&& lineup_info_is(rsp.lineup_list@[0], rt)
}

/// All lineups: the one team, current at index 0.
pub fn on_get_all_lineup_data(state: &GameServerState) -> (rsp: GetAllLineupDataScRsp)
    ensures
        all_lineups_reply(state.runtime, rsp),
{
    let mut lineup_list: Vec<LineupInfo> = Vec::new();
    lineup_list.push(build_lineup(&state.runtime));
    GetAllLineupDataScRsp { retcode: 0, lineup_list, cur_index: 0 }
}

/// The current-lineup answer.
pub open spec fn cur_lineup_reply(rt: RuntimeState, rsp: GetCurLineupDataScRsp) -> bool {
    &&& rsp.retcode == 0
    &&& rsp.lineup matches Some(info) && lineup_info_is(info, rt)
}

/// The current lineup.
pub fn on_get_cur_lineup_data(state: &GameServerState) -> (rsp: GetCurLineupDataScRsp)
    ensures
        cur_lineup_reply(state.runtime, rsp),
{
    GetCurLineupDataScRsp { lineup: Some(build_lineup(&state.runtime)), retcode: 0 }
}

/// The leader slot a request asks for, capped to the last slot of `lineup_len` characters.
pub open spec fn capped_slot(requested: u32, lineup_len: nat) -> u32 {
    if requested < max_slot(lineup_len) {
        requested
    } else {
        max_slot(lineup_len)
    }
}

/// The leader is the requested slot capped to the last one, and the answer names it;
/// nothing else changes.
pub open spec fn leader_changed(
    before: GameServerState,
    after: GameServerState,
    req: ChangeLineupLeaderCsReq,
    rsp: ChangeLineupLeaderScRsp,
) -> bool {
    &&& after.data == before.data
    &&& after.runtime.lineup == before.runtime.lineup
    &&& same_but_lineup(after.runtime, before.runtime)
    &&& after.runtime.leader_slot == capped_slot(req.slot, before.runtime.lineup@.len())
    &&& rsp.slot == after.runtime.leader_slot
    &&& rsp.retcode == 0
}

/// Makes the requested slot the leader, capped to the last slot of the lineup, and
/// answers with the slot chosen. The caller saves the session afterwards.
pub fn on_change_lineup_leader(state: &mut GameServerState, req: &ChangeLineupLeaderCsReq) -> (rsp:
    ChangeLineupLeaderScRsp)
    requires
        old(state).runtime.wf(),
    ensures
        final(state).runtime.wf(),
        leader_changed(*old(state), *final(state), *req, rsp),
{
    let max = lineup_max_slot(&state.runtime.lineup);
    let slot = if req.slot < max {
        req.slot
    } else {
        max
    };
    state.runtime.leader_slot = slot;
    ChangeLineupLeaderScRsp { retcode: 0, slot }
}

// ----- replacing the lineup -----

/// Inserts `x` into slot-sorted `s` after every entry whose slot is not greater.
pub open spec fn insert_by_slot(s: Seq<LineupSlotData>, x: LineupSlotData) -> Seq<LineupSlotData>
    decreases s.len(),
{
    if s.len() == 0 || s.last().slot <= x.slot {
        s.push(x)
    } else {
        insert_by_slot(s.drop_last(), x).push(s.last())
    }
}

/// The requested slots sorted by slot number, keeping the request order among equal slots.
pub open spec fn sort_by_slot(s: Seq<LineupSlotData>) -> Seq<LineupSlotData>
    decreases s.len(),
{
    if s.len() == 0 {
        Seq::empty()
    } else {
        insert_by_slot(sort_by_slot(s.drop_last()), s.last())
    }
}

/// The characters taken for the new lineup from the sorted slots `s`, after `acc`:
/// each owned, non-zero character that is not already taken, until four are taken.
pub open spec fn pick_lineup(s: Seq<LineupSlotData>, avs: Seq<AvatarRecord>, acc: Seq<u32>) -> Seq<u32>
    decreases s.len(),
{
    if s.len() == 0 || acc.len() >= 4 {
        acc
    } else {
        let id = s[0].id;
        if id == 0 || first_avatar(avs, id) is None || acc.contains(id) {
            pick_lineup(s.drop_first(), avs, acc)
        } else {
            pick_lineup(s.drop_first(), avs, acc.push(id))
        }
    }
}

/// The lineup a replace request asks for.
pub open spec fn requested_lineup(req: ReplaceLineupCsReq, avs: Seq<AvatarRecord>) -> Seq<u32> {
    pick_lineup(sort_by_slot(req.lineup_slot_list@), avs, Seq::empty())
}

/// The lineup after a replace request: the requested one, or the old one when the
/// request names no character the server takes.
pub open spec fn lineup_after_replace(old_lineup: Seq<u32>, req: ReplaceLineupCsReq, avs: Seq<AvatarRecord>) -> Seq<u32> {
    if requested_lineup(req, avs).len() == 0 {
        old_lineup
    } else {
        requested_lineup(req, avs)
    }
}

/// A lineup the server accepts: at most four distinct, non-zero, owned characters.
pub open spec fn valid_new_lineup(l: Seq<u32>, avs: Seq<AvatarRecord>) -> bool {
    &&& l.len() <= 4
    &&& forall|i: int| 0 <= i < l.len() ==> #[trigger] l[i] != 0 && first_avatar(avs, l[i]) is Some
    &&& forall|i: int, j: int| 0 <= i < j < l.len() ==> l[i] != l[j]
}

proof fn lemma_pick_valid(s: Seq<LineupSlotData>, avs: Seq<AvatarRecord>, acc: Seq<u32>)
    requires
        valid_new_lineup(acc, avs),
    ensures
        valid_new_lineup(pick_lineup(s, avs, acc), avs),
    decreases s.len(),
{
    if s.len() == 0 || acc.len() >= 4 {
    } else {
        let id = s[0].id;
        if id == 0 || first_avatar(avs, id) is None || acc.contains(id) {
            lemma_pick_valid(s.drop_first(), avs, acc);
        } else {
            let acc2 = acc.push(id);
            assert forall|i: int, j: int| 0 <= i < j < acc2.len() implies acc2[i] != acc2[j] by {
                if j == acc.len() {
                    assert(acc[i] == acc2[i]);
                    if acc[i] == id {
                        assert(acc.contains(id));
                    }
                }
            }
            lemma_pick_valid(s.drop_first(), avs, acc2);
        }
    }
}

proof fn lemma_insert_by_slot(s: Seq<LineupSlotData>, x: LineupSlotData, p: int)
    requires
        0 <= p <= s.len(),
        p > 0 ==> s[p - 1].slot <= x.slot,
        forall|k: int| p <= k < s.len() ==> #[trigger] s[k].slot > x.slot,
    ensures
        insert_by_slot(s, x) == s.take(p).push(x) + s.skip(p),
    decreases s.len(),
{
    if s.len() == 0 {
        assert(s.take(p).push(x) + s.skip(p) =~= s.push(x));
    } else if s.last().slot <= x.slot {
        assert(p == s.len());
        assert(s.take(p).push(x) + s.skip(p) =~= s.push(x));
    } else {
        lemma_insert_by_slot(s.drop_last(), x, p);
        assert(s.drop_last().take(p) == s.take(p));
        assert(s.skip(p) =~= s.drop_last().skip(p).push(s.last()));
        assert(insert_by_slot(s, x) =~= s.take(p).push(x) + s.skip(p));
    }
}

proof fn lemma_insert_sorted(s: Seq<LineupSlotData>, x: LineupSlotData)
    requires
        forall|i: int, j: int| 0 <= i < j < s.len() ==> s[i].slot <= s[j].slot,
    ensures
        forall|i: int, j: int|
            0 <= i < j < insert_by_slot(s, x).len() ==> insert_by_slot(s, x)[i].slot
                <= insert_by_slot(s, x)[j].slot,
        insert_by_slot(s, x).len() == s.len() + 1,
    decreases s.len(),
{
    if s.len() == 0 || s.last().slot <= x.slot {
    } else {
        lemma_insert_sorted(s.drop_last(), x);
        lemma_insert_members(s.drop_last(), x);
    }
}

proof fn lemma_insert_members(s: Seq<LineupSlotData>, x: LineupSlotData)
    ensures
        forall|i: int|
            0 <= i < insert_by_slot(s, x).len() ==> (insert_by_slot(s, x)[i] == x || exists|k: int|
                0 <= k < s.len() && s[k] == #[trigger] insert_by_slot(s, x)[i]),
        insert_by_slot(s, x).len() == s.len() + 1,
    decreases s.len(),
{
    if s.len() == 0 || s.last().slot <= x.slot {
        assert forall|i: int| 0 <= i < insert_by_slot(s, x).len() implies (insert_by_slot(s, x)[i]
            == x || exists|k: int| 0 <= k < s.len() && s[k] == #[trigger] insert_by_slot(s, x)[i]) by {
            if i < s.len() {
                assert(s[i] == insert_by_slot(s, x)[i]);
            }
        }
    } else {
        lemma_insert_members(s.drop_last(), x);
        let r = insert_by_slot(s.drop_last(), x);
        assert forall|i: int| 0 <= i < insert_by_slot(s, x).len() implies (insert_by_slot(s, x)[i]
            == x || exists|k: int| 0 <= k < s.len() && s[k] == #[trigger] insert_by_slot(s, x)[i]) by {
            if i < r.len() {
                if r[i] != x {
                    let k = choose|k: int| 0 <= k < s.drop_last().len() && s.drop_last()[k] == r[i];
                    assert(s[k] == insert_by_slot(s, x)[i]);
                }
            } else {
                assert(s[s.len() - 1] == insert_by_slot(s, x)[i]);
            }
        }
    }
}

proof fn lemma_sort_sorted(s: Seq<LineupSlotData>)
    ensures
        forall|i: int, j: int|
            0 <= i < j < sort_by_slot(s).len() ==> sort_by_slot(s)[i].slot <= sort_by_slot(s)[j].slot,
        sort_by_slot(s).len() == s.len(),
    decreases s.len(),
{
    if s.len() > 0 {
        lemma_sort_sorted(s.drop_last());
        lemma_insert_sorted(sort_by_slot(s.drop_last()), s.last());
    }
}

/// The requested slots sorted by slot number; equal slots keep their request order.
pub fn sorted_slots(req: &ReplaceLineupCsReq) -> (out: Vec<LineupSlotData>)
    ensures
        out@ == sort_by_slot(req.lineup_slot_list@),
{
    let src = &req.lineup_slot_list;
    let mut out: Vec<LineupSlotData> = Vec::new();
    let mut i: usize = 0;
    while i < src.len()
        invariant
            i <= src@.len(),
            out@ == sort_by_slot(src@.take(i as int)),
        decreases src@.len() - i,
    {
        let x = src[i];
        proof {
            lemma_sort_sorted(src@.take(i as int));
        }
        let mut p: usize = out.len();
        while p > 0 && out[p - 1].slot > x.slot
            invariant
                p <= out@.len(),
                forall|k: int| p <= k < out@.len() ==> #[trigger] out@[k].slot > x.slot,
            decreases p,
        {
            p = p - 1;
        }
        proof {
            lemma_insert_by_slot(out@, x, p as int);
            assert(src@.take((i + 1) as int).drop_last() == src@.take(i as int));
            assert(src@.take((i + 1) as int).last() == x);
        }
        out.insert(p, x);
        assert(out@ =~= sort_by_slot(src@.take((i + 1) as int)));
        i = i + 1;
    }
    assert(src@.take(src@.len() as int) == src@);
    out
}

/// The lineup is replaced as requested (see `lineup_after_replace`) with the leader
/// capped to its last slot; nothing else changes.
pub open spec fn lineup_replaced(
    before: GameServerState,
    after: GameServerState,
    req: ReplaceLineupCsReq,
    rsp: ReplaceLineupScRsp,
) -> bool {
    &&& after.data == before.data
    &&& same_but_lineup(after.runtime, before.runtime)
    &&& after.runtime.lineup@ == lineup_after_replace(
        before.runtime.lineup@,
        req,
        before.data.avatars@,
    )
    &&& after.runtime.leader_slot == capped_slot(
        req.leader_slot,
        after.runtime.lineup@.len(),
    )
    &&& requested_lineup(req, before.data.avatars@).len() > 0 ==> valid_new_lineup(
        after.runtime.lineup@,
        before.data.avatars@,
    )
    &&& rsp.retcode == 0
}

/// Replaces the lineup with the requested characters, taken in slot order: unknown,
/// empty (id 0) and repeated characters are skipped and at most four are kept. When
/// none is left the lineup stays as it was. The leader becomes the requested slot,
/// capped to the last slot. The caller saves the session afterwards.
pub fn on_replace_lineup(state: &mut GameServerState, req: &ReplaceLineupCsReq) -> (rsp: ReplaceLineupScRsp)
    requires
        old(state).runtime.wf(),
    ensures
        final(state).runtime.wf(),
        lineup_replaced(*old(state), *final(state), *req, rsp),
{
    let slots = sorted_slots(req);
    let ghost avs = state.data.avatars@;
    let mut new_lineup: Vec<u32> = Vec::new();
    let mut i: usize = 0;
    assert(slots@.skip(0) == slots@);
    while i < slots.len()
        invariant_except_break
            new_lineup@.len() < 4,
        invariant
            i <= slots@.len(),
            avs == state.data.avatars@,
            new_lineup@.len() <= 4,
            pick_lineup(slots@, avs, Seq::empty()) == pick_lineup(slots@.skip(i as int), avs, new_lineup@),
        ensures
            pick_lineup(slots@, avs, Seq::empty()) == new_lineup@,
        decreases slots@.len() - i,
    {
        let s = slots[i];
        let ghost rest = slots@.skip(i as int);
        assert(rest[0] == s);
        assert(rest.drop_first() == slots@.skip(i + 1));
        i = i + 1;
        if s.id == 0 || find_avatar(&state.data.avatars, s.id).is_none() || vec_contains(&new_lineup, s.id) {
            if i == slots.len() {
                assert(slots@.skip(i as int).len() == 0);
            }
            continue;
        }
        let ghost acc = new_lineup@;
        new_lineup.push(s.id);
        assert(pick_lineup(rest, avs, acc) == pick_lineup(slots@.skip(i as int), avs, new_lineup@));
        if new_lineup.len() >= MAX_LINEUP {
            assert(pick_lineup(slots@.skip(i as int), avs, new_lineup@) == new_lineup@);
            break;
        }
        if i == slots.len() {
            assert(slots@.skip(i as int).len() == 0);
        }
    }
    proof {
        lemma_pick_valid(sort_by_slot(req.lineup_slot_list@), avs, Seq::empty());
    }
    assert(new_lineup@ == requested_lineup(*req, avs));
    if new_lineup.len() != 0 {
        state.runtime.lineup = new_lineup;
    }
    let max = lineup_max_slot(&state.runtime.lineup);
    state.runtime.leader_slot = if req.leader_slot < max {
        req.leader_slot
    } else {
        max
    };
    ReplaceLineupScRsp { retcode: 0 }
}

// ----- laws -----

/// A replaced lineup is the lineup reported: after a replace request that names
/// characters the server takes, the lineup report lists exactly those characters,
/// in slot order, each in its own slot, with the requested leader slot capped to
/// the last one.
pub proof fn lemma_replaced_lineup_is_reported(
    before: RuntimeState,
    after: RuntimeState,
    req: ReplaceLineupCsReq,
    avs: Seq<AvatarRecord>,
    info: LineupInfo,
)
    requires
        after.lineup@ == lineup_after_replace(before.lineup@, req, avs),
        after.leader_slot == capped_slot(req.leader_slot, after.lineup@.len()),
        lineup_info_is(info, after),
    ensures
        requested_lineup(req, avs).len() > 0 ==> {
            &&& info.avatar_list@.len() == requested_lineup(req, avs).len()
            &&& forall|i: int|
                0 <= i < info.avatar_list@.len() ==> (#[trigger] info.avatar_list@[i]).id
                    == requested_lineup(req, avs)[i] && info.avatar_list@[i].slot == i
            &&& info.leader_slot < info.avatar_list@.len()
        },
        requested_lineup(req, avs).len() == 0 ==> info.avatar_list@ == lineup_avatars(before.lineup@),
        info.leader_slot == capped_slot(req.leader_slot, after.lineup@.len()),
{
    lemma_pick_valid(sort_by_slot(req.lineup_slot_list@), avs, Seq::empty());
}

/// A chosen leader is the leader reported: after a leader change the lineup report
/// shows the same characters and the requested slot, or the last slot when the
/// request points past the lineup. (Slots are `u32`: for a lineup longer than
/// 2^32 the capped slot wraps, so such lineups are left out.)
pub proof fn lemma_leader_change_is_reported(
    before: RuntimeState,
    after: RuntimeState,
    slot: u32,
    info: LineupInfo,
)
    requires
        before.lineup@.len() <= 0x1_0000_0000,
        after.lineup == before.lineup,
        after.leader_slot == capped_slot(slot, before.lineup@.len()),
        lineup_info_is(info, after),
    ensures
        info.avatar_list@ == lineup_avatars(before.lineup@),
        slot < before.lineup@.len() ==> info.leader_slot == slot,
        before.lineup@.len() > 0 ==> info.leader_slot < before.lineup@.len(),
        before.lineup@.len() == 0 ==> info.leader_slot == 0,
{
}

proof fn lemma_sort_by_slot_members(s: Seq<LineupSlotData>)
    ensures
        sort_by_slot(s).to_multiset() == s.to_multiset(),
    decreases s.len(),
{
    broadcast use vstd::seq_lib::group_to_multiset_ensures;

    if s.len() > 0 {
        lemma_sort_by_slot_members(s.drop_last());
        lemma_insert_by_slot_multiset(sort_by_slot(s.drop_last()), s.last());
        assert(s == s.drop_last().push(s.last()));
    } else {
        assert(sort_by_slot(s).to_multiset() =~= s.to_multiset());
    }
}

proof fn lemma_insert_by_slot_multiset(s: Seq<LineupSlotData>, x: LineupSlotData)
    ensures
        insert_by_slot(s, x).to_multiset() == s.to_multiset().insert(x),
    decreases s.len(),
{
    broadcast use vstd::seq_lib::group_to_multiset_ensures;

    if !(s.len() == 0 || s.last().slot <= x.slot) {
        lemma_insert_by_slot_multiset(s.drop_last(), x);
        assert(s == s.drop_last().push(s.last()));
        assert(insert_by_slot(s, x).to_multiset() =~= s.to_multiset().insert(x));
    }
}

/// The slots of a replace request are taken in slot order: sorting them gives the
/// same slots, each as often as requested, lowest slot first.
pub proof fn lemma_slots_taken_in_slot_order(req: ReplaceLineupCsReq)
    ensures
        sort_by_slot(req.lineup_slot_list@).to_multiset() == req.lineup_slot_list@.to_multiset(),
        forall|i: int, j: int|
            0 <= i < j < sort_by_slot(req.lineup_slot_list@).len() ==> #[trigger] sort_by_slot(
                req.lineup_slot_list@,
            )[i].slot <= #[trigger] sort_by_slot(req.lineup_slot_list@)[j].slot,
{
    lemma_sort_sorted(req.lineup_slot_list@);
    lemma_sort_by_slot_members(req.lineup_slot_list@);
}

} // verus!
