//! The inventory the client asks for.

use vstd::prelude::*;

use crate::battle::relic_affixes;
use crate::data::{LightconeRecord, RelicRecord};
use crate::proto::{Equipment, GetBagScRsp, Material, Relic, RelicAffix};
use crate::state::GameServerState;

verus! {

/// A light cone in the bag: its unique id is the saved id plus 2000.
pub open spec fn bag_equipment(lc: LightconeRecord) -> Equipment {
    Equipment {
        dress_avatar_id: lc.equip_avatar,
        exp: 0,
        is_protected: false,
        level: lc.level,
        promotion: lc.promotion,
        rank: lc.rank,
        tid: lc.item_id,
        unique_id: (lc.internal_uid + 2000) as u32,
    }
}

/// A relic in the bag: its unique id is the saved id plus 1.
pub open spec fn bag_relic_is(out: Relic, r: RelicRecord) -> bool {
    &&& out.dress_avatar_id == r.equip_avatar
    &&& out.exp == 0
    &&& !out.is_protected
    &&& out.level == r.level
    &&& out.main_affix_id == r.main_affix_id
    &&& out.tid == r.relic_id
    &&& out.unique_id == r.internal_uid + 1
    &&& out.sub_affix_list@ == relic_affixes(r)
}

/// The two materials every bag holds: 999999 each of items 101 and 102.
pub open spec fn bag_materials() -> Seq<Material> {
    seq![
        Material { tid: 101, num: 999999, expire_time: 0 },
        Material { tid: 102, num: 999999, expire_time: 0 },
    ]
}

fn affix_list(r: &RelicRecord) -> (out: Vec<RelicAffix>)
    ensures
        out@ == relic_affixes(*r),
{
    let mut out: Vec<RelicAffix> = Vec::new();
    let mut i: usize = 0;
    while i < r.sub_affixes.len()
        invariant
            i <= r.sub_affixes@.len(),
            out@ == relic_affixes(*r).take(i as int),
        decreases r.sub_affixes@.len() - i,
    {
        let sa = r.sub_affixes[i];
        out.push(RelicAffix { affix_id: sa.sub_affix_id, cnt: sa.count, step: sa.step });
        i = i + 1;
        assert(relic_affixes(*r).take(i as int) == relic_affixes(*r).take((i - 1) as int).push(
            relic_affixes(*r)[i - 1],
        ));
    }
    assert(relic_affixes(*r).take(i as int) == relic_affixes(*r));
    out
}

/// The bag answer: every light cone and relic, and the fixed materials.
pub open spec fn bag_reply(state: GameServerState, rsp: GetBagScRsp) -> bool {
    &&& rsp.retcode == 0
    &&& rsp.equipment_list@ == state.data.lightcones@.map_values(
        |lc: LightconeRecord| bag_equipment(lc),
    )
    &&& rsp.relic_list@.len() == state.data.relics@.len()
    &&& forall|i: int|
        0 <= i < rsp.relic_list@.len() ==> bag_relic_is(
            #[trigger] rsp.relic_list@[i],
            state.data.relics@[i],
        )
    &&& rsp.material_list@ == bag_materials()
}

/// Every light cone and relic the player owns, and the fixed materials.
pub fn on_get_bag(state: &GameServerState) -> (rsp: GetBagScRsp)
    requires
        state.data.bag_ids_fit(),
    ensures
        bag_reply(*state, rsp),
{
    let data = &state.data;
    let ghost e = data.lightcones@.map_values(|lc: LightconeRecord| bag_equipment(lc));
    let mut equipment_list: Vec<Equipment> = Vec::new();
    let mut i: usize = 0;
    while i < data.lightcones.len()
        invariant
            data == &state.data,
            data.bag_ids_fit(),
            i <= data.lightcones@.len(),
            e == data.lightcones@.map_values(|lc: LightconeRecord| bag_equipment(lc)),
            equipment_list@ == e.take(i as int),
        decreases data.lightcones@.len() - i,
    {
        let lc = &data.lightcones[i];
        assert(lc.internal_uid <= u32::MAX - 2000);
        equipment_list.push(
            Equipment {
                dress_avatar_id: lc.equip_avatar,
                exp: 0,
                is_protected: false,
                level: lc.level,
                promotion: lc.promotion,
                rank: lc.rank,
                tid: lc.item_id,
                unique_id: lc.internal_uid + 2000,
            },
        );
        i = i + 1;
        assert(e.take(i as int) == e.take((i - 1) as int).push(e[i - 1]));
    }
    assert(e.take(i as int) == e);
    let mut relic_list: Vec<Relic> = Vec::new();
    let mut j: usize = 0;
    while j < data.relics.len()
        invariant
            data == &state.data,
            data.bag_ids_fit(),
            j <= data.relics@.len(),
            relic_list@.len() == j,
            forall|k: int| 0 <= k < j ==> bag_relic_is(#[trigger] relic_list@[k], data.relics@[k]),
        decreases data.relics@.len() - j,
    {
        let r = &data.relics[j];
        assert(r.internal_uid < u32::MAX);
        relic_list.push(
            Relic {
                dress_avatar_id: r.equip_avatar,
                exp: 0,
                is_protected: false,
                level: r.level,
                main_affix_id: r.main_affix_id,
                tid: r.relic_id,
                unique_id: r.internal_uid + 1,
                sub_affix_list: affix_list(r),
            },
        );
        j = j + 1;
    }
    let mut material_list: Vec<Material> = Vec::new();
    material_list.push(Material { tid: 101, num: 999999, expire_time: 0 });
    material_list.push(Material { tid: 102, num: 999999, expire_time: 0 });
    assert(material_list@ =~= bag_materials());
    GetBagScRsp { equipment_list, relic_list, material_list, retcode: 0 }
}

/// Each relic in the bag carries the relic's sub-stats, in order, each with its
/// sub-stat id, its count and its step.
pub proof fn lemma_bag_relic_sub_stats(state: GameServerState, rsp: GetBagScRsp)
    requires
        bag_reply(state, rsp),
    ensures
        forall|i: int|
            0 <= i < rsp.relic_list@.len() ==> (#[trigger] rsp.relic_list@[i]).sub_affix_list@.len()
                == state.data.relics@[i].sub_affixes@.len(),
        forall|i: int, q: int|
            0 <= i < rsp.relic_list@.len() && 0 <= q < state.data.relics@[i].sub_affixes@.len()
                ==> #[trigger] rsp.relic_list@[i].sub_affix_list@[q] == (RelicAffix {
                affix_id: state.data.relics@[i].sub_affixes@[q].sub_affix_id,
                cnt: state.data.relics@[i].sub_affixes@[q].count,
                step: state.data.relics@[i].sub_affixes@[q].step,
            }),
{
    assert forall|i: int, q: int|
        0 <= i < rsp.relic_list@.len() && 0 <= q < state.data.relics@[i].sub_affixes@.len()
            implies #[trigger] rsp.relic_list@[i].sub_affix_list@[q] == (RelicAffix {
            affix_id: state.data.relics@[i].sub_affixes@[q].sub_affix_id,
            cnt: state.data.relics@[i].sub_affixes@[q].count,
            step: state.data.relics@[i].sub_affixes@[q].step,
        }) by {
        assert(bag_relic_is(rsp.relic_list@[i], state.data.relics@[i]));
    }
}

} // verus!
