//! Mission progress: every mission the client asks about is finished.

use vstd::prelude::*;

use crate::proto::{GetMissionStatusCsReq, GetMissionStatusScRsp, Mission, MISSION_FINISH};

verus! {

/// A finished sub-mission.
pub open spec fn finished_mission(id: u32) -> Mission {
    Mission { id, progress: 1, status: MISSION_FINISH }
}

/// The mission answer: every asked-for mission finished.
pub open spec fn mission_reply(req: GetMissionStatusCsReq, rsp: GetMissionStatusScRsp) -> bool {
    &&& rsp.finished_main_mission_id_list@ == req.main_mission_id_list@
    &&& rsp.sub_mission_status_list@ == req.sub_mission_id_list@.map_values(
        |id: u32| finished_mission(id),
    )
    &&& rsp.retcode == 0
}

/// Reports every asked main mission as finished and every asked sub-mission as
/// finished with progress 1.
pub fn on_get_mission_status(req: GetMissionStatusCsReq) -> (rsp: GetMissionStatusScRsp)
    ensures
        mission_reply(req, rsp),
{
    let subs = &req.sub_mission_id_list;
    let ghost e = subs@.map_values(|id: u32| finished_mission(id));
    let mut list: Vec<Mission> = Vec::new();
    let mut i: usize = 0;
    while i < subs.len()
        invariant
            i <= subs@.len(),
            e == subs@.map_values(|id: u32| finished_mission(id)),
            list@ == e.take(i as int),
        decreases subs@.len() - i,
    {
        list.push(Mission { id: subs[i], progress: 1, status: MISSION_FINISH });
        i = i + 1;
        assert(e.take(i as int) == e.take((i - 1) as int).push(e[i - 1]));
    }
    assert(e.take(i as int) == e);
    GetMissionStatusScRsp {
        finished_main_mission_id_list: req.main_mission_id_list,
        sub_mission_status_list: list,
        retcode: 0,
    }
}

} // verus!
