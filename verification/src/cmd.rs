//! Command ids: reading them from the command-id list, the table of the commands the
//! server answers, and the routing of an incoming command.

use std::collections::HashMap;

use vstd::prelude::*;
use vstd::string::*;

use crate::text::{
    chars_of, parse_u16, spec_parse_uint, string_from_chars, strip_trailing, strip_trailing_chars,
    trim, trim_chars,
};

verus! {

broadcast use vstd::std_specs::hash::group_hash_axioms;

// ----- one line of the command-id list -----

/// Index of the first `c` in `s` at or after `i`.
pub open spec fn index_of_from(s: Seq<char>, c: char, i: int) -> Option<int>
    decreases s.len() - i,
{
    if i < 0 || i >= s.len() {
        None
    } else if s[i] == c {
        Some(i)
    } else {
        index_of_from(s, c, i + 1)
    }
}

/// An ASCII letter, digit or underscore.
pub open spec fn is_ident_char(c: char) -> bool {
    ('a' <= c <= 'z') || ('A' <= c <= 'Z') || ('0' <= c <= '9') || c == '_'
}

/// A name the list may define: one that ends with `;`, or one made only of
/// ASCII letters, digits and underscores.
pub open spec fn name_ok(name: Seq<char>) -> bool {
    (name.len() > 0 && name.last() == ';') || (forall|i: int|
        0 <= i < name.len() ==> is_ident_char(#[trigger] name[i]))
}

/// The definition a line of the list makes: `name = id;`, white space around either
/// side allowed, the id a decimal `u16` followed by any number of `;`.
pub open spec fn spec_parse_cmd_line(line: Seq<char>) -> Option<(Seq<char>, u16)> {
    let t = trim(line);
    match index_of_from(t, '=', 0) {
        None => None,
        Some(k) => {
            let name = trim(t.take(k));
            let id_text = trim(strip_trailing(trim(t.skip(k + 1)), ';'));
            if !name_ok(name) {
                None
            } else {
                match spec_parse_uint(id_text, u16::MAX as nat) {
                    Ok(v) => Some((name, v as u16)),
                    Err(_) => None,
                }
            }
        },
    }
}

fn index_of(s: &[char], c: char) -> (r: Option<usize>)
    ensures
        match r {
            Some(k) => index_of_from(s@, c, 0) == Some(k as int) && k < s@.len(),
            None => index_of_from(s@, c, 0) is None,
        },
{
    let mut i: usize = 0;
    while i < s.len()
        invariant
            i <= s@.len(),
            index_of_from(s@, c, 0) == index_of_from(s@, c, i as int),
        decreases s@.len() - i,
    {
        if s[i] == c {
            return Some(i);
        }
        i = i + 1;
    }
    None
}

fn name_ok_exec(name: &[char]) -> (b: bool)
    ensures
        b == name_ok(name@),
{
    let n = name.len();
    if n > 0 && name[n - 1] == ';' {
        return true;
    }
    let mut i: usize = 0;
    while i < n
        invariant
            n == name@.len(),
            i <= n,
            !(n > 0 && name@.last() == ';'),
            forall|k: int| 0 <= k < i ==> is_ident_char(#[trigger] name@[k]),
        decreases n - i,
    {
        let c = name[i];
        if !(('a' <= c && c <= 'z') || ('A' <= c && c <= 'Z') || ('0' <= c && c <= '9') || c == '_') {
            assert(!is_ident_char(name@[i as int]));
            assert(!(forall|k: int| 0 <= k < name@.len() ==> is_ident_char(#[trigger] name@[k])));
            assert(!(n > 0 && name@.last() == ';'));
            return false;
        }
        i = i + 1;
    }
    true
}

fn sub_chars(s: &[char], lo: usize, hi: usize) -> (out: Vec<char>)
    requires
        lo <= hi <= s@.len(),
    ensures
        out@ == s@.subrange(lo as int, hi as int),
{
    let mut out: Vec<char> = Vec::new();
    let mut i = lo;
    while i < hi
        invariant
            lo <= i <= hi <= s@.len(),
            out@ == s@.subrange(lo as int, i as int),
        decreases hi - i,
    {
        out.push(s[i]);
        i = i + 1;
    }
    out
}

/// The definition one line of the command-id list makes, if it makes one.
pub fn parse_cmd_line(line: &[char]) -> (r: Option<(Vec<char>, u16)>)
    ensures
        match r {
            Some((name, id)) => spec_parse_cmd_line(line@) == Some((name@, id)),
            None => spec_parse_cmd_line(line@) is None,
        },
{
    let t = trim_chars(line);
    let k = match index_of(t.as_slice(), '=') {
        Some(k) => k,
        None => {
            return None;
        },
    };
    let name_part = sub_chars(t.as_slice(), 0, k);
    assert(name_part@ == t@.take(k as int));
    let name = trim_chars(name_part.as_slice());
    if !name_ok_exec(name.as_slice()) {
        return None;
    }
    let tl = t.len();
    assert(k < tl);
    let id_part = sub_chars(t.as_slice(), k + 1, tl);
    assert(id_part@ == t@.skip(k + 1));
    let a = trim_chars(id_part.as_slice());
    let b = strip_trailing_chars(a.as_slice(), ';');
    let id_text = trim_chars(b.as_slice());
    match parse_u16(id_text.as_slice()) {
        Ok(id) => Some((name, id)),
        Err(_) => None,
    }
}

// ----- the list as a whole -----

/// Index of the first entry of `t` named `name`.
pub open spec fn name_index_from(t: Seq<(Seq<char>, u16)>, name: Seq<char>, i: int) -> Option<int>
    decreases t.len() - i,
{
    if i < 0 || i >= t.len() {
        None
    } else if t[i].0 == name {
        Some(i)
    } else {
        name_index_from(t, name, i + 1)
    }
}

/// The id `t` gives `name`, if any.
pub open spec fn spec_lookup(t: Seq<(Seq<char>, u16)>, name: Seq<char>) -> Option<u16> {
    match name_index_from(t, name, 0) {
        Some(k) => Some(t[k].1),
        None => None,
    }
}

/// `t` with `name` defined as `id`: a later definition replaces an earlier one in place.
pub open spec fn table_insert(t: Seq<(Seq<char>, u16)>, name: Seq<char>, id: u16) -> Seq<(Seq<char>, u16)> {
    match name_index_from(t, name, 0) {
        Some(k) => t.update(k, (name, id)),
        None => t.push((name, id)),
    }
}

/// The definitions of the given lines, in order of first definition; each name keeps
/// the id of its last definition.
pub open spec fn spec_cmd_ids(lines: Seq<Seq<char>>) -> Seq<(Seq<char>, u16)>
    decreases lines.len(),
{
    if lines.len() == 0 {
        Seq::empty()
    } else {
        let t = spec_cmd_ids(lines.drop_last());
        match spec_parse_cmd_line(lines.last()) {
            Some((name, id)) => table_insert(t, name, id),
            None => t,
        }
    }
}

/// Command names and their ids, each name once.
pub struct CmdIds {
    pub entries: Vec<(Vec<char>, u16)>,
}

impl View for CmdIds {
    type V = Seq<(Seq<char>, u16)>;

    open spec fn view(&self) -> Seq<(Seq<char>, u16)> {
        self.entries@.map_values(|e: (Vec<char>, u16)| (e.0@, e.1))
    }
}

/// Whether two character sequences are equal.
pub fn chars_eq(a: &[char], b: &[char]) -> (r: bool)
    ensures
        r == (a@ == b@),
{
    if a.len() != b.len() {
        return false;
    }
    let mut i: usize = 0;
    while i < a.len()
        invariant
            a@.len() == b@.len(),
            i <= a@.len(),
            forall|k: int| 0 <= k < i ==> a@[k] == b@[k],
        decreases a@.len() - i,
    {
        if a[i] != b[i] {
            return false;
        }
        i = i + 1;
    }
    assert(a@ =~= b@);
    true
}

impl CmdIds {
    fn find(&self, name: &[char]) -> (r: Option<usize>)
        ensures
            match r {
                Some(k) => name_index_from(self@, name@, 0) == Some(k as int) && k < self@.len(),
                None => name_index_from(self@, name@, 0) is None,
            },
    {
        let mut i: usize = 0;
        while i < self.entries.len()
            invariant
                i <= self@.len(),
                self@.len() == self.entries@.len(),
                name_index_from(self@, name@, 0) == name_index_from(self@, name@, i as int),
            decreases self@.len() - i,
        {
            if chars_eq(self.entries[i].0.as_slice(), name) {
                return Some(i);
            }
            i = i + 1;
        }
        None
    }

    /// The id of `name`, if the list defines it.
    pub fn lookup(&self, name: &[char]) -> (r: Option<u16>)
        ensures
            r == spec_lookup(self@, name@),
    {
        match self.find(name) {
            Some(k) => Some(self.entries[k].1),
            None => None,
        }
    }

    fn insert(&mut self, name: Vec<char>, id: u16)
        ensures
            final(self)@ == table_insert(old(self)@, name@, id),
    {
        match self.find(name.as_slice()) {
            Some(k) => {
                self.entries.set(k, (name, id));
                assert(self@ =~= table_insert(old(self)@, name@, id));
            },
            None => {
                self.entries.push((name, id));
                assert(self@ =~= table_insert(old(self)@, name@, id));
            },
        }
    }
}

/// The command names and ids the command-id list defines, read line by line.
pub fn parse_cmd_ids(lines: &Vec<String>) -> (ids: CmdIds)
    ensures
        ids@ == spec_cmd_ids(lines@.map_values(|l: String| l@)),
{
    let ghost ls = lines@.map_values(|l: String| l@);
    let mut ids = CmdIds { entries: Vec::new() };
    assert(ids@ =~= Seq::<(Seq<char>, u16)>::empty());
    let mut i: usize = 0;
    while i < lines.len()
        invariant
            i <= lines@.len(),
            ls == lines@.map_values(|l: String| l@),
            ids@ == spec_cmd_ids(ls.take(i as int)),
        decreases lines@.len() - i,
    {
        let line = chars_of(lines[i].as_str());
        assert(ls.take((i + 1) as int).drop_last() == ls.take(i as int));
        assert(ls.take((i + 1) as int).last() == line@);
        match parse_cmd_line(line.as_slice()) {
            Some((name, id)) => {
                ids.insert(name, id);
            },
            None => {},
        }
        i = i + 1;
    }
    assert(ls.take(lines@.len() as int) == ls);
    ids
}

// ----- response names for requests the server does not handle -----

pub open spec fn cs_req() -> Seq<char> {
    seq!['C', 's', 'R', 'e', 'q']
}

pub open spec fn cs_req_upper() -> Seq<char> {
    seq!['C', 'S', 'R', 'e', 'q']
}

pub open spec fn req_suffix() -> Seq<char> {
    seq!['R', 'e', 'q']
}

pub open spec fn sc_rsp() -> Seq<char> {
    seq!['S', 'c', 'R', 's', 'p']
}

pub open spec fn ends_with(s: Seq<char>, suffix: Seq<char>) -> bool {
    s.len() >= suffix.len() && s.skip(s.len() - suffix.len()) == suffix
}

/// The names the response to request `name` may have, in order of preference:
/// the request name with `CsReq`, `CSReq` or `Req` replaced by `ScRsp`, for each
/// of these endings it has.
pub open spec fn spec_rsp_candidates(name: Seq<char>) -> Seq<Seq<char>> {
    (if ends_with(name, cs_req()) {
        seq![name.take(name.len() - 5) + sc_rsp()]
    } else {
        Seq::empty()
    }) + (if ends_with(name, cs_req_upper()) {
        seq![name.take(name.len() - 5) + sc_rsp()]
    } else {
        Seq::empty()
    }) + (if ends_with(name, req_suffix()) {
        seq![name.take(name.len() - 3) + sc_rsp()]
    } else {
        Seq::empty()
    })
}

fn ends_with_exec(s: &[char], suffix: &[char]) -> (b: bool)
    ensures
        b == ends_with(s@, suffix@),
{
    if s.len() < suffix.len() {
        return false;
    }
    let off = s.len() - suffix.len();
    let tail = sub_chars(s, off, s.len());
    assert(tail@ == s@.skip(off as int));
    chars_eq(tail.as_slice(), suffix)
}

fn replace_suffix(s: &[char], cut: usize) -> (out: Vec<char>)
    requires
        cut <= s@.len(),
    ensures
        out@ == s@.take(s@.len() - cut) + sc_rsp(),
{
    let mut out = sub_chars(s, 0, s.len() - cut);
    out.push('S');
    out.push('c');
    out.push('R');
    out.push('s');
    out.push('p');
    assert(out@ =~= s@.take(s@.len() - cut) + sc_rsp());
    out
}

/// The names the response to request `name` may have, in order of preference.
pub fn rsp_candidates(name: &[char]) -> (out: Vec<Vec<char>>)
    ensures
        out@.map_values(|v: Vec<char>| v@) == spec_rsp_candidates(name@),
{
    let cs: [char; 5] = ['C', 's', 'R', 'e', 'q'];
    let cs_upper: [char; 5] = ['C', 'S', 'R', 'e', 'q'];
    let rq: [char; 3] = ['R', 'e', 'q'];
    assert(cs@ == cs_req());
    assert(cs_upper@ == cs_req_upper());
    assert(rq@ == req_suffix());
    let mut out: Vec<Vec<char>> = Vec::new();
    let ghost mut e: Seq<Seq<char>> = Seq::empty();
    if ends_with_exec(name, &cs) {
        out.push(replace_suffix(name, 5));
        proof {
            e = e.push(name@.take(name@.len() - 5) + sc_rsp());
        }
    }
    if ends_with_exec(name, &cs_upper) {
        out.push(replace_suffix(name, 5));
        proof {
            e = e.push(name@.take(name@.len() - 5) + sc_rsp());
        }
    }
    if ends_with_exec(name, &rq) {
        out.push(replace_suffix(name, 3));
        proof {
            e = e.push(name@.take(name@.len() - 3) + sc_rsp());
        }
    }
    assert(out@.map_values(|v: Vec<char>| v@) =~= e);
    assert(e =~= spec_rsp_candidates(name@));
    out
}


// ----- the requests the server handles -----

/// The requests the server answers itself, in the order it tries them.
#[derive(Clone, Copy, Debug, PartialEq, Eq)]
pub enum Handler {
    PlayerGetToken,
    PlayerHeartBeat,
    PlayerLogin,
    GetBasicInfo,
    GetPlayerBoardData,
    GetAvatarData,
    GetCurBattleInfo,
    GetAllLineupData,
    GetCurLineupData,
    ChangeLineupLeader,
    GetCurSceneInfo,
    GetMissionStatus,
    ContentPackageGetData,
    StartCocoonStage,
    PveBattleResult,
    SceneCastSkill,
    SceneCastSkillCostMp,
    SyncClientResVersion,
    GetBag,
    PlayerLogout,
    SetClientPaused,
    ReplaceLineup,
    SetAvatarPath,
    PlayerLoginFinish,
}

/// Number of requests the server answers itself.
pub const HANDLER_COUNT: usize = 24;

/// The handler tried at position `k`.
pub open spec fn spec_handler_at(k: int) -> Handler {
    if k == 0 {
        Handler::PlayerGetToken
    } else if k == 1 {
        Handler::PlayerHeartBeat
    } else if k == 2 {
        Handler::PlayerLogin
    } else if k == 3 {
        Handler::GetBasicInfo
    } else if k == 4 {
        Handler::GetPlayerBoardData
    } else if k == 5 {
        Handler::GetAvatarData
    } else if k == 6 {
        Handler::GetCurBattleInfo
    } else if k == 7 {
        Handler::GetAllLineupData
    } else if k == 8 {
        Handler::GetCurLineupData
    } else if k == 9 {
        Handler::ChangeLineupLeader
    } else if k == 10 {
        Handler::GetCurSceneInfo
    } else if k == 11 {
        Handler::GetMissionStatus
    } else if k == 12 {
        Handler::ContentPackageGetData
    } else if k == 13 {
        Handler::StartCocoonStage
    } else if k == 14 {
        Handler::PveBattleResult
    } else if k == 15 {
        Handler::SceneCastSkill
    } else if k == 16 {
        Handler::SceneCastSkillCostMp
    } else if k == 17 {
        Handler::SyncClientResVersion
    } else if k == 18 {
        Handler::GetBag
    } else if k == 19 {
        Handler::PlayerLogout
    } else if k == 20 {
        Handler::SetClientPaused
    } else if k == 21 {
        Handler::ReplaceLineup
    } else if k == 22 {
        Handler::SetAvatarPath
    } else {
        Handler::PlayerLoginFinish
    }
}

/// Position of a handler in the order the server tries them.
pub open spec fn spec_handler_index(h: Handler) -> int {
    match h {
        Handler::PlayerGetToken => 0,
        Handler::PlayerHeartBeat => 1,
        Handler::PlayerLogin => 2,
        Handler::GetBasicInfo => 3,
        Handler::GetPlayerBoardData => 4,
        Handler::GetAvatarData => 5,
        Handler::GetCurBattleInfo => 6,
        Handler::GetAllLineupData => 7,
        Handler::GetCurLineupData => 8,
        Handler::ChangeLineupLeader => 9,
        Handler::GetCurSceneInfo => 10,
        Handler::GetMissionStatus => 11,
        Handler::ContentPackageGetData => 12,
        Handler::StartCocoonStage => 13,
        Handler::PveBattleResult => 14,
        Handler::SceneCastSkill => 15,
        Handler::SceneCastSkillCostMp => 16,
        Handler::SyncClientResVersion => 17,
        Handler::GetBag => 18,
        Handler::PlayerLogout => 19,
        Handler::SetClientPaused => 20,
        Handler::ReplaceLineup => 21,
        Handler::SetAvatarPath => 22,
        Handler::PlayerLoginFinish => 23,
    }
}

/// The name of the request a handler answers.
pub open spec fn spec_req_name(h: Handler) -> Seq<char> {
    match h {
        Handler::PlayerGetToken => "PlayerGetTokenCsReq"@,
        Handler::PlayerHeartBeat => "PlayerHeartBeatCsReq"@,
        Handler::PlayerLogin => "PlayerLoginCsReq"@,
        Handler::GetBasicInfo => "GetBasicInfoCsReq"@,
        Handler::GetPlayerBoardData => "GetPlayerBoardDataCsReq"@,
        Handler::GetAvatarData => "GetAvatarDataCsReq"@,
        Handler::GetCurBattleInfo => "GetCurBattleInfoCsReq"@,
        Handler::GetAllLineupData => "GetAllLineupDataCsReq"@,
        Handler::GetCurLineupData => "GetCurLineupDataCsReq"@,
        Handler::ChangeLineupLeader => "ChangeLineupLeaderCsReq"@,
        Handler::GetCurSceneInfo => "GetCurSceneInfoCsReq"@,
        Handler::GetMissionStatus => "GetMissionStatusCsReq"@,
        Handler::ContentPackageGetData => "ContentPackageGetDataCsReq"@,
        Handler::StartCocoonStage => "StartCocoonStageCsReq"@,
        Handler::PveBattleResult => "PVEBattleResultCsReq"@,
        Handler::SceneCastSkill => "SceneCastSkillCsReq"@,
        Handler::SceneCastSkillCostMp => "SceneCastSkillCostMpCsReq"@,
        Handler::SyncClientResVersion => "SyncClientResVersionCsReq"@,
        Handler::GetBag => "GetBagCsReq"@,
        Handler::PlayerLogout => "PlayerLogoutCsReq"@,
        Handler::SetClientPaused => "SetClientPausedCsReq"@,
        Handler::ReplaceLineup => "ReplaceLineupCsReq"@,
        Handler::SetAvatarPath => "SetAvatarPathCsReq"@,
        Handler::PlayerLoginFinish => "PlayerLoginFinishCsReq"@,
    }
}

/// The name of the response a handler sends, if it sends one.
pub open spec fn spec_rsp_name(h: Handler) -> Option<Seq<char>> {
    match h {
        Handler::PlayerGetToken => Some("PlayerGetTokenScRsp"@),
        Handler::PlayerHeartBeat => Some("PlayerHeartBeatScRsp"@),
        Handler::PlayerLogin => Some("PlayerLoginScRsp"@),
        Handler::GetBasicInfo => Some("GetBasicInfoScRsp"@),
        Handler::GetPlayerBoardData => Some("GetPlayerBoardDataScRsp"@),
        Handler::GetAvatarData => Some("GetAvatarDataScRsp"@),
        Handler::GetCurBattleInfo => Some("GetCurBattleInfoScRsp"@),
        Handler::GetAllLineupData => Some("GetAllLineupDataScRsp"@),
        Handler::GetCurLineupData => Some("GetCurLineupDataScRsp"@),
        Handler::ChangeLineupLeader => Some("ChangeLineupLeaderScRsp"@),
        Handler::GetCurSceneInfo => Some("GetCurSceneInfoScRsp"@),
        Handler::GetMissionStatus => Some("GetMissionStatusScRsp"@),
        Handler::ContentPackageGetData => Some("ContentPackageGetDataScRsp"@),
        Handler::StartCocoonStage => Some("StartCocoonStageScRsp"@),
        Handler::PveBattleResult => Some("PVEBattleResultScRsp"@),
        Handler::SceneCastSkill => Some("SceneCastSkillScRsp"@),
        Handler::SceneCastSkillCostMp => Some("SceneCastSkillCostMpScRsp"@),
        Handler::SyncClientResVersion => Some("SyncClientResVersionScRsp"@),
        Handler::GetBag => Some("GetBagScRsp"@),
        Handler::PlayerLogout => None,
        Handler::SetClientPaused => Some("SetClientPausedScRsp"@),
        Handler::ReplaceLineup => Some("ReplaceLineupScRsp"@),
        Handler::SetAvatarPath => Some("SetAvatarPathScRsp"@),
        Handler::PlayerLoginFinish => Some("PlayerLoginFinishScRsp"@),
    }
}

pub open spec fn sync_lineup_notify_name() -> Seq<char> {
    "SyncLineupNotify"@
}

/// The handler tried at position `k`.
pub fn handler_at(k: usize) -> (h: Handler)
    requires
        k < HANDLER_COUNT,
    ensures
        h == spec_handler_at(k as int),
        spec_handler_index(h) == k,
{
    match k {
        0 => Handler::PlayerGetToken,
        1 => Handler::PlayerHeartBeat,
        2 => Handler::PlayerLogin,
        3 => Handler::GetBasicInfo,
        4 => Handler::GetPlayerBoardData,
        5 => Handler::GetAvatarData,
        6 => Handler::GetCurBattleInfo,
        7 => Handler::GetAllLineupData,
        8 => Handler::GetCurLineupData,
        9 => Handler::ChangeLineupLeader,
        10 => Handler::GetCurSceneInfo,
        11 => Handler::GetMissionStatus,
        12 => Handler::ContentPackageGetData,
        13 => Handler::StartCocoonStage,
        14 => Handler::PveBattleResult,
        15 => Handler::SceneCastSkill,
        16 => Handler::SceneCastSkillCostMp,
        17 => Handler::SyncClientResVersion,
        18 => Handler::GetBag,
        19 => Handler::PlayerLogout,
        20 => Handler::SetClientPaused,
        21 => Handler::ReplaceLineup,
        22 => Handler::SetAvatarPath,
        _ => Handler::PlayerLoginFinish,
    }
}

/// Position of a handler in the order the server tries them.
pub fn handler_index(h: Handler) -> (k: usize)
    ensures
        k == spec_handler_index(h),
{
    match h {
        Handler::PlayerGetToken => 0,
        Handler::PlayerHeartBeat => 1,
        Handler::PlayerLogin => 2,
        Handler::GetBasicInfo => 3,
        Handler::GetPlayerBoardData => 4,
        Handler::GetAvatarData => 5,
        Handler::GetCurBattleInfo => 6,
        Handler::GetAllLineupData => 7,
        Handler::GetCurLineupData => 8,
        Handler::ChangeLineupLeader => 9,
        Handler::GetCurSceneInfo => 10,
        Handler::GetMissionStatus => 11,
        Handler::ContentPackageGetData => 12,
        Handler::StartCocoonStage => 13,
        Handler::PveBattleResult => 14,
        Handler::SceneCastSkill => 15,
        Handler::SceneCastSkillCostMp => 16,
        Handler::SyncClientResVersion => 17,
        Handler::GetBag => 18,
        Handler::PlayerLogout => 19,
        Handler::SetClientPaused => 20,
        Handler::ReplaceLineup => 21,
        Handler::SetAvatarPath => 22,
        Handler::PlayerLoginFinish => 23,
    }
}

/// The name of the request a handler answers.
pub fn req_name(h: Handler) -> (s: &'static str)
    ensures
        s@ == spec_req_name(h),
{
    match h {
        Handler::PlayerGetToken => "PlayerGetTokenCsReq",
        Handler::PlayerHeartBeat => "PlayerHeartBeatCsReq",
        Handler::PlayerLogin => "PlayerLoginCsReq",
        Handler::GetBasicInfo => "GetBasicInfoCsReq",
        Handler::GetPlayerBoardData => "GetPlayerBoardDataCsReq",
        Handler::GetAvatarData => "GetAvatarDataCsReq",
        Handler::GetCurBattleInfo => "GetCurBattleInfoCsReq",
        Handler::GetAllLineupData => "GetAllLineupDataCsReq",
        Handler::GetCurLineupData => "GetCurLineupDataCsReq",
        Handler::ChangeLineupLeader => "ChangeLineupLeaderCsReq",
        Handler::GetCurSceneInfo => "GetCurSceneInfoCsReq",
        Handler::GetMissionStatus => "GetMissionStatusCsReq",
        Handler::ContentPackageGetData => "ContentPackageGetDataCsReq",
        Handler::StartCocoonStage => "StartCocoonStageCsReq",
        Handler::PveBattleResult => "PVEBattleResultCsReq",
        Handler::SceneCastSkill => "SceneCastSkillCsReq",
        Handler::SceneCastSkillCostMp => "SceneCastSkillCostMpCsReq",
        Handler::SyncClientResVersion => "SyncClientResVersionCsReq",
        Handler::GetBag => "GetBagCsReq",
        Handler::PlayerLogout => "PlayerLogoutCsReq",
        Handler::SetClientPaused => "SetClientPausedCsReq",
        Handler::ReplaceLineup => "ReplaceLineupCsReq",
        Handler::SetAvatarPath => "SetAvatarPathCsReq",
        Handler::PlayerLoginFinish => "PlayerLoginFinishCsReq",
    }
}

/// The name of the response a handler sends, if it sends one.
pub fn rsp_name(h: Handler) -> (s: Option<&'static str>)
    ensures
        match s {
            Some(s) => spec_rsp_name(h) == Some(s@),
            None => spec_rsp_name(h) is None,
        },
{
    match h {
        Handler::PlayerGetToken => Some("PlayerGetTokenScRsp"),
        Handler::PlayerHeartBeat => Some("PlayerHeartBeatScRsp"),
        Handler::PlayerLogin => Some("PlayerLoginScRsp"),
        Handler::GetBasicInfo => Some("GetBasicInfoScRsp"),
        Handler::GetPlayerBoardData => Some("GetPlayerBoardDataScRsp"),
        Handler::GetAvatarData => Some("GetAvatarDataScRsp"),
        Handler::GetCurBattleInfo => Some("GetCurBattleInfoScRsp"),
        Handler::GetAllLineupData => Some("GetAllLineupDataScRsp"),
        Handler::GetCurLineupData => Some("GetCurLineupDataScRsp"),
        Handler::ChangeLineupLeader => Some("ChangeLineupLeaderScRsp"),
        Handler::GetCurSceneInfo => Some("GetCurSceneInfoScRsp"),
        Handler::GetMissionStatus => Some("GetMissionStatusScRsp"),
        Handler::ContentPackageGetData => Some("ContentPackageGetDataScRsp"),
        Handler::StartCocoonStage => Some("StartCocoonStageScRsp"),
        Handler::PveBattleResult => Some("PVEBattleResultScRsp"),
        Handler::SceneCastSkill => Some("SceneCastSkillScRsp"),
        Handler::SceneCastSkillCostMp => Some("SceneCastSkillCostMpScRsp"),
        Handler::SyncClientResVersion => Some("SyncClientResVersionScRsp"),
        Handler::GetBag => Some("GetBagScRsp"),
        Handler::PlayerLogout => None,
        Handler::SetClientPaused => Some("SetClientPausedScRsp"),
        Handler::ReplaceLineup => Some("ReplaceLineupScRsp"),
        Handler::SetAvatarPath => Some("SetAvatarPathScRsp"),
        Handler::PlayerLoginFinish => Some("PlayerLoginFinishScRsp"),
    }
}

/// Every name the server needs is defined.
pub open spec fn all_handled_present(ids: Seq<(Seq<char>, u16)>) -> bool {
    &&& forall|k: int|
        0 <= k < HANDLER_COUNT ==> spec_lookup(ids, spec_req_name(#[trigger] spec_handler_at(k))) is Some
    &&& forall|k: int|
        0 <= k < HANDLER_COUNT ==> (spec_rsp_name(#[trigger] spec_handler_at(k)) matches Some(n)
            ==> spec_lookup(ids, n) is Some)
    &&& spec_lookup(ids, sync_lineup_notify_name()) is Some
}

/// The ids of the handled requests and their responses, in the order the server
/// tries them, and the id of the lineup notice.
pub struct HandledCmds {
    pub req: Vec<u16>,
    pub rsp: Vec<Option<u16>>,
    pub sync_lineup_notify: u16,
}

/// Requests ids are taken from the list, response ids too where the handler sends one.
pub open spec fn handled_from(h: HandledCmds, ids: Seq<(Seq<char>, u16)>) -> bool {
    &&& h.req@.len() == HANDLER_COUNT
    &&& h.rsp@.len() == HANDLER_COUNT
    &&& forall|k: int|
        0 <= k < HANDLER_COUNT ==> Some(#[trigger] h.req@[k]) == spec_lookup(
            ids,
            spec_req_name(spec_handler_at(k)),
        )
    &&& forall|k: int|
        0 <= k < HANDLER_COUNT ==> #[trigger] h.rsp@[k] == match spec_rsp_name(spec_handler_at(k)) {
            Some(n) => spec_lookup(ids, n),
            None => None,
        }
    &&& Some(h.sync_lineup_notify) == spec_lookup(ids, sync_lineup_notify_name())
}

/// The first name defined among `cands`, and its id.
pub open spec fn first_defined(ids: Seq<(Seq<char>, u16)>, cands: Seq<Seq<char>>) -> Option<u16>
    decreases cands.len(),
{
    if cands.len() == 0 {
        None
    } else {
        match spec_lookup(ids, cands[0]) {
            Some(r) => Some(r),
            None => first_defined(ids, cands.drop_first()),
        }
    }
}

/// For each defined name of `entries` whose response name is defined, its id mapped
/// to the response id; later entries replace earlier ones with the same id.
pub open spec fn dummy_pairs(ids: Seq<(Seq<char>, u16)>, entries: Seq<(Seq<char>, u16)>) -> Map<u16, u16>
    decreases entries.len(),
{
    if entries.len() == 0 {
        Map::empty()
    } else {
        let m = dummy_pairs(ids, entries.drop_last());
        match first_defined(ids, spec_rsp_candidates(entries.last().0)) {
            Some(r) => m.insert(entries.last().1, r),
            None => m,
        }
    }
}

/// Each defined id mapped to its name; of several names with one id the last wins.
pub open spec fn names_by_id(entries: Seq<(Seq<char>, u16)>) -> Map<u16, Seq<char>>
    decreases entries.len(),
{
    if entries.len() == 0 {
        Map::empty()
    } else {
        names_by_id(entries.drop_last()).insert(entries.last().1, entries.last().0)
    }
}

/// What the server knows of command ids.
pub struct CmdTable {
    pub handled: HandledCmds,
    /// Requests answered with an empty response: request id to response id.
    pub dummy_map: HashMap<u16, u16>,
    pub name_by_id: HashMap<u16, String>,
}

/// The table is built from the list `ids`.
pub open spec fn table_from(t: CmdTable, ids: Seq<(Seq<char>, u16)>) -> bool {
    &&& handled_from(t.handled, ids)
    &&& t.dummy_map@ == dummy_pairs(ids, ids).remove_keys(t.handled.req@.to_set())
    &&& t.name_by_id@.dom() == names_by_id(ids).dom()
    &&& forall|k: u16| #[trigger] t.name_by_id@.contains_key(k) ==> t.name_by_id@[k]@ == names_by_id(ids)[k]
}

impl CmdTable {
    /// Every handler that sends a response has a response id, and only those do.
    pub open spec fn wf(&self) -> bool {
        &&& self.handled.req@.len() == HANDLER_COUNT
        &&& self.handled.rsp@.len() == HANDLER_COUNT
        &&& forall|k: int|
            0 <= k < HANDLER_COUNT ==> (spec_rsp_name(spec_handler_at(k)) is Some
                <==> #[trigger] self.handled.rsp@[k] is Some)
    }
}

/// The response id of handler `h`.
pub open spec fn spec_rsp_id(t: CmdTable, h: Handler) -> u16 {
    t.handled.rsp@[spec_handler_index(h)]->Some_0
}

proof fn lemma_handler_at_index(h: Handler)
    ensures
        0 <= spec_handler_index(h) < HANDLER_COUNT,
        spec_handler_at(spec_handler_index(h)) == h,
{
}

/// The response id of a handler that sends a response.
pub fn rsp_id(t: &CmdTable, h: Handler) -> (id: u16)
    requires
        t.wf(),
        spec_rsp_name(h) is Some,
    ensures
        id == spec_rsp_id(*t, h),
{
    proof {
        lemma_handler_at_index(h);
    }
    let k = handler_index(h);
    match t.handled.rsp[k] {
        Some(id) => id,
        None => 0,
    }
}

/// The id of a name the list defines.
pub fn cmd_id(ids: &CmdIds, name: &str) -> (id: u16)
    requires
        spec_lookup(ids@, name@) is Some,
    ensures
        Some(id) == spec_lookup(ids@, name@),
{
    let cs = chars_of(name);
    match ids.lookup(cs.as_slice()) {
        Some(id) => id,
        None => 0,
    }
}

/// The names a handler needs, in the order the server checks them: its request,
/// its response if it sends one, and, after the leader change, the lineup notice.
pub open spec fn handler_names(k: int) -> Seq<Seq<char>> {
    let h = spec_handler_at(k);
    seq![spec_req_name(h)] + (match spec_rsp_name(h) {
        Some(n) => seq![n],
        None => Seq::empty(),
    }) + (if k == 9 {
        seq![sync_lineup_notify_name()]
    } else {
        Seq::empty()
    })
}

/// The names needed by the handlers from position `k` on, in order.
pub open spec fn names_from(k: int) -> Seq<Seq<char>>
    decreases HANDLER_COUNT - k,
{
    if k < 0 || k >= HANDLER_COUNT {
        Seq::empty()
    } else {
        handler_names(k) + names_from(k + 1)
    }
}

/// The first of `names` that the list does not define.
pub open spec fn first_undefined(ids: Seq<(Seq<char>, u16)>, names: Seq<Seq<char>>) -> Option<Seq<char>>
    decreases names.len(),
{
    if names.len() == 0 {
        None
    } else if spec_lookup(ids, names[0]) is None {
        Some(names[0])
    } else {
        first_undefined(ids, names.drop_first())
    }
}

/// The first name the server needs that the list does not define, in the order of
/// `names_from(0)`.
pub open spec fn spec_first_missing(ids: Seq<(Seq<char>, u16)>) -> Option<Seq<char>> {
    first_undefined(ids, names_from(0))
}

proof fn lemma_first_undefined_concat(ids: Seq<(Seq<char>, u16)>, a: Seq<Seq<char>>, b: Seq<Seq<char>>)
    ensures
        first_undefined(ids, a + b) == match first_undefined(ids, a) {
            Some(x) => Some(x),
            None => first_undefined(ids, b),
        },
    decreases a.len(),
{
    if a.len() == 0 {
        assert(a + b == b);
    } else {
        assert((a + b)[0] == a[0]);
        assert((a + b).drop_first() == a.drop_first() + b);
        lemma_first_undefined_concat(ids, a.drop_first(), b);
    }
}

/// The first name the server needs that the list does not define, if any: each
/// handler's request, then its response, with the lineup notice right after the
/// leader change's response.
pub fn first_missing_cmd(ids: &CmdIds) -> (r: Option<&'static str>)
    ensures
        match r {
            Some(s) => spec_first_missing(ids@) == Some(s@),
            None => spec_first_missing(ids@) is None,
        },
        r is None <==> all_handled_present(ids@),
{
    let mut k: usize = 0;
    while k < HANDLER_COUNT
        invariant
            k <= HANDLER_COUNT,
            spec_first_missing(ids@) == first_undefined(ids@, names_from(k as int)),
            forall|j: int|
                0 <= j < k ==> spec_lookup(ids@, spec_req_name(#[trigger] spec_handler_at(j))) is Some
                    && (spec_rsp_name(spec_handler_at(j)) matches Some(n) ==> spec_lookup(ids@, n) is Some),
            k > 9 ==> spec_lookup(ids@, sync_lineup_notify_name()) is Some,
        decreases HANDLER_COUNT - k,
    {
        let h = handler_at(k);
        let ghost hn = handler_names(k as int);
        proof {
            lemma_first_undefined_concat(ids@, hn, names_from(k + 1));
            reveal_with_fuel(first_undefined, 4);
            assert(hn[0] == spec_req_name(h));
            assert(hn.drop_first() == (match spec_rsp_name(h) {
                Some(n) => seq![n],
                None => Seq::<Seq<char>>::empty(),
            }) + (if k == 9 {
                seq![sync_lineup_notify_name()]
            } else {
                Seq::<Seq<char>>::empty()
            }));
        }
        let rq = req_name(h);
        if ids.lookup(chars_of(rq).as_slice()).is_none() {
            return Some(rq);
        }
        match rsp_name(h) {
            Some(rs) => {
                proof {
                    let t = hn.drop_first();
                    assert(t[0] == rs@);
                    assert(t.drop_first() == (if k == 9 {
                        seq![sync_lineup_notify_name()]
                    } else {
                        Seq::<Seq<char>>::empty()
                    }));
                }
                if ids.lookup(chars_of(rs).as_slice()).is_none() {
                    return Some(rs);
                }
            },
            None => {},
        }
        if k == 9 {
            let notify = "SyncLineupNotify";
            proof {
                reveal_strlit("SyncLineupNotify");
            }
            if ids.lookup(chars_of(notify).as_slice()).is_none() {
                return Some(notify);
            }
        }
        k = k + 1;
    }
    None
}

fn first_defined_exec(ids: &CmdIds, cands: &Vec<Vec<char>>) -> (r: Option<u16>)
    ensures
        r == first_defined(ids@, cands@.map_values(|v: Vec<char>| v@)),
{
    let ghost cs = cands@.map_values(|v: Vec<char>| v@);
    let mut i: usize = 0;
    assert(cs.skip(0) == cs);
    while i < cands.len()
        invariant
            i <= cands@.len(),
            cs == cands@.map_values(|v: Vec<char>| v@),
            first_defined(ids@, cs) == first_defined(ids@, cs.skip(i as int)),
        decreases cands@.len() - i,
    {
        assert(cs.skip(i as int)[0] == cands@[i as int]@);
        assert(cs.skip(i as int).drop_first() == cs.skip(i + 1));
        match ids.lookup(cands[i].as_slice()) {
            Some(r) => {
                return Some(r);
            },
            None => {},
        }
        i = i + 1;
    }
    None
}

proof fn lemma_push_to_set(s: Seq<u16>, x: u16)
    ensures
        s.push(x).to_set() == s.to_set().insert(x),
{
    assert forall|y: u16| s.push(x).to_set().contains(y) <==> s.to_set().insert(x).contains(y) by {
        if s.push(x).contains(y) && y != x {
            let i = choose|i: int| 0 <= i < s.push(x).len() && s.push(x)[i] == y;
            assert(s[i] == y);
        }
        if s.contains(y) {
            let i = choose|i: int| 0 <= i < s.len() && s[i] == y;
            assert(s.push(x)[i] == y);
        }
        if y == x {
            assert(s.push(x)[s.len() as int] == x);
        }
    }
    assert(s.push(x).to_set() =~= s.to_set().insert(x));
}

/// The command table for the list `ids`, which must define every name the server
/// needs (see `first_missing_cmd`).
pub fn build_cmd_table(ids: &CmdIds) -> (t: CmdTable)
    requires
        all_handled_present(ids@),
    ensures
        table_from(t, ids@),
        t.wf(),
{
    // the handled requests
    let mut req: Vec<u16> = Vec::new();
    let mut rsp: Vec<Option<u16>> = Vec::new();
    let mut k: usize = 0;
    while k < HANDLER_COUNT
        invariant
            k <= HANDLER_COUNT,
            all_handled_present(ids@),
            req@.len() == k,
            rsp@.len() == k,
            forall|j: int|
                0 <= j < k ==> Some(#[trigger] req@[j]) == spec_lookup(
                    ids@,
                    spec_req_name(spec_handler_at(j)),
                ),
            forall|j: int|
                0 <= j < k ==> #[trigger] rsp@[j] == match spec_rsp_name(spec_handler_at(j)) {
                    Some(n) => spec_lookup(ids@, n),
                    None => None,
                },
        decreases HANDLER_COUNT - k,
    {
        let h = handler_at(k);
        assert(spec_lookup(ids@, spec_req_name(spec_handler_at(k as int))) is Some);
        req.push(cmd_id(ids, req_name(h)));
        let r = match rsp_name(h) {
            Some(n) => {
                assert(spec_rsp_name(spec_handler_at(k as int)) matches Some(m) ==> spec_lookup(ids@, m) is Some);
                Some(cmd_id(ids, n))
            },
            None => None,
        };
        rsp.push(r);
        k = k + 1;
    }
    let handled = HandledCmds {
        req,
        rsp,
        sync_lineup_notify: cmd_id(ids, "SyncLineupNotify"),
    };
    // requests answered with an empty response
    let mut dummy_map: HashMap<u16, u16> = HashMap::new();
    let mut i: usize = 0;
    while i < ids.entries.len()
        invariant
            i <= ids@.len(),
            ids@.len() == ids.entries@.len(),
            dummy_map@ == dummy_pairs(ids@, ids@.take(i as int)),
        decreases ids@.len() - i,
    {
        let cands = rsp_candidates(ids.entries[i].0.as_slice());
        assert(ids@.take((i + 1) as int).drop_last() == ids@.take(i as int));
        assert(ids@.take((i + 1) as int).last() == ids@[i as int]);
        match first_defined_exec(ids, &cands) {
            Some(r) => {
                dummy_map.insert(ids.entries[i].1, r);
            },
            None => {},
        }
        i = i + 1;
    }
    assert(ids@.take(ids@.len() as int) == ids@);
    let ghost before_removal = dummy_map@;
    let mut k: usize = 0;
    while k < HANDLER_COUNT
        invariant
            k <= HANDLER_COUNT,
            handled.req@.len() == HANDLER_COUNT,
            dummy_map@ == before_removal.remove_keys(handled.req@.take(k as int).to_set()),
        decreases HANDLER_COUNT - k,
    {
        let id = handled.req[k];
        dummy_map.remove(&id);
        proof {
            assert(handled.req@.take((k + 1) as int) == handled.req@.take(k as int).push(id));
            lemma_push_to_set(handled.req@.take(k as int), id);
            assert(dummy_map@ =~= before_removal.remove_keys(handled.req@.take((k + 1) as int).to_set()));
        }
        k = k + 1;
    }
    assert(handled.req@.take(HANDLER_COUNT as int) == handled.req@);
    // names for the log
    let mut name_by_id: HashMap<u16, String> = HashMap::new();
    let mut i: usize = 0;
    while i < ids.entries.len()
        invariant
            i <= ids@.len(),
            ids@.len() == ids.entries@.len(),
            name_by_id@.dom() == names_by_id(ids@.take(i as int)).dom(),
            forall|c: u16| #[trigger] name_by_id@.contains_key(c) ==> name_by_id@[c]@ == names_by_id(ids@.take(i as int))[c],
        decreases ids@.len() - i,
    {
        assert(ids@.take((i + 1) as int).drop_last() == ids@.take(i as int));
        assert(ids@.take((i + 1) as int).last() == ids@[i as int]);
        let name = string_from_chars(ids.entries[i].0.as_slice());
        name_by_id.insert(ids.entries[i].1, name);
        i = i + 1;
    }
    assert(ids@.take(ids@.len() as int) == ids@);
    let t = CmdTable { handled, dummy_map, name_by_id };
    assert forall|k: int| 0 <= k < HANDLER_COUNT implies (spec_rsp_name(spec_handler_at(k)) is Some
        <==> #[trigger] t.handled.rsp@[k] is Some) by {
        assert(spec_rsp_name(spec_handler_at(k)) matches Some(n) ==> spec_lookup(ids@, n) is Some);
    }
    t
}

/// What to do with an incoming command.
#[derive(Clone, Copy, Debug, PartialEq, Eq)]
pub enum Route {
    /// Answer with the given handler.
    Handled(Handler),
    /// Answer with an empty response of the given id.
    Dummy(u16),
    /// Ignore it.
    Unhandled,
}

/// The first position whose request id is `cmd`, at or after `i`.
pub open spec fn first_handled_from(req: Seq<u16>, cmd: u16, i: int) -> Option<int>
    decreases req.len() - i,
{
    if i < 0 || i >= req.len() {
        None
    } else if req[i] == cmd {
        Some(i)
    } else {
        first_handled_from(req, cmd, i + 1)
    }
}

/// The first handler whose request id is `cmd` answers it; else an empty response is
/// sent when one is known; else the command is ignored.
pub open spec fn spec_route(req: Seq<u16>, dummy: Map<u16, u16>, cmd: u16) -> Route {
    match first_handled_from(req, cmd, 0) {
        Some(k) => Route::Handled(spec_handler_at(k)),
        None => if dummy.contains_key(cmd) {
            Route::Dummy(dummy[cmd])
        } else {
            Route::Unhandled
        },
    }
}

/// How the server answers command `cmd`.
pub fn route(t: &CmdTable, cmd: u16) -> (r: Route)
    requires
        t.handled.req@.len() == HANDLER_COUNT,
    ensures
        r == spec_route(t.handled.req@, t.dummy_map@, cmd),
{
    let mut k: usize = 0;
    while k < HANDLER_COUNT
        invariant
            k <= HANDLER_COUNT,
            t.handled.req@.len() == HANDLER_COUNT,
            first_handled_from(t.handled.req@, cmd, 0) == first_handled_from(t.handled.req@, cmd, k as int),
        decreases HANDLER_COUNT - k,
    {
        if t.handled.req[k] == cmd {
            return Route::Handled(handler_at(k));
        }
        k = k + 1;
    }
    match t.dummy_map.get(&cmd) {
        Some(r) => Route::Dummy(*r),
        None => Route::Unhandled,
    }
}

/// The name of a command for the log, or "UNKNOWN".
pub fn cmd_name(t: &CmdTable, cmd: u16) -> (s: String)
    ensures
        t.name_by_id@.contains_key(cmd) ==> s@ == t.name_by_id@[cmd]@,
        !t.name_by_id@.contains_key(cmd) ==> s@ == "UNKNOWN"@,
{
    match t.name_by_id.get(&cmd) {
        Some(n) => n.clone(),
        None => String::from_str("UNKNOWN"),
    }
}

proof fn lemma_handler_index_at(k: int)
    requires
        0 <= k < HANDLER_COUNT,
    ensures
        spec_handler_index(spec_handler_at(k)) == k,
{
}

proof fn lemma_first_handled_found(req: Seq<u16>, cmd: u16, i: int, j: int)
    requires
        0 <= i <= j < req.len(),
        req[j] == cmd,
    ensures
        first_handled_from(req, cmd, i) matches Some(k) && k <= j && req[k] == cmd,
    decreases j - i,
{
    if req[i] != cmd {
        lemma_first_handled_found(req, cmd, i + 1, j);
    }
}

proof fn lemma_first_handled_is_cmd(req: Seq<u16>, cmd: u16, i: int)
    requires
        0 <= i,
    ensures
        first_handled_from(req, cmd, i) matches Some(k) ==> 0 <= k < req.len() && req[k] == cmd,
    decreases req.len() - i,
{
    if i < req.len() && req[i] != cmd {
        lemma_first_handled_is_cmd(req, cmd, i + 1);
    }
}

/// How a table built from a command list routes: a handled request always reaches a
/// handler whose request id it is (never an empty response), and an empty response
/// goes only to a request that no handler takes, with the response id that the
/// list pairs with it.
pub proof fn lemma_route_of_table(t: CmdTable, ids: Seq<(Seq<char>, u16)>, cmd: u16)
    requires
        table_from(t, ids),
    ensures
        t.handled.req@.contains(cmd) ==> (spec_route(t.handled.req@, t.dummy_map@, cmd) matches Route::Handled(
            h,
        ) && t.handled.req@[spec_handler_index(h)] == cmd),
        spec_route(t.handled.req@, t.dummy_map@, cmd) matches Route::Dummy(r) ==> {
            &&& !t.handled.req@.contains(cmd)
            &&& dummy_pairs(ids, ids).contains_key(cmd)
            &&& dummy_pairs(ids, ids)[cmd] == r
        },
        !t.handled.req@.contains(cmd) && !dummy_pairs(ids, ids).contains_key(cmd) ==> spec_route(
            t.handled.req@,
            t.dummy_map@,
            cmd,
        ) == Route::Unhandled,
{
    let req = t.handled.req@;
    lemma_first_handled_is_cmd(req, cmd, 0);
    if req.contains(cmd) {
        let j = choose|j: int| 0 <= j < req.len() && req[j] == cmd;
        lemma_first_handled_found(req, cmd, 0, j);
        let k = first_handled_from(req, cmd, 0)->Some_0;
        lemma_handler_index_at(k);
    } else {
        assert(first_handled_from(req, cmd, 0) is None) by {
            if first_handled_from(req, cmd, 0) is Some {
                let k = first_handled_from(req, cmd, 0)->Some_0;
                assert(req[k] == cmd);
            }
        }
        assert(!req.to_set().contains(cmd));
    }
}

} // verus!
