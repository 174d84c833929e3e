//! The player's saved data, as the server holds it after loading.

use vstd::prelude::*;
use vstd::string::*;

use crate::text::{chars_of, parse_u32, spec_parse_uint, IntParseError};

verus! {

/// Everything the server knows about the player, loaded once at start-up.
pub struct GameData {
    pub uid: u32,
    pub token: String,
    pub nickname: String,
    pub avatars: Vec<AvatarRecord>,
    pub lightcones: Vec<LightconeRecord>,
    pub relics: Vec<RelicRecord>,
    pub battle: BattleConfigRecord,
    pub mc_id: u32,
    pub march_id: u32,
    pub lineup: Vec<u32>,
}

/// One owned character.
pub struct AvatarRecord {
    pub avatar_id: u32,
    pub level: u32,
    pub promotion: u32,
    pub rank: u32,
    pub enhanced_id: u32,
    pub sp_value: u32,
    pub sp_max: u32,
    /// Skill-tree points as (point id, level), sorted by point id.
    pub skills_by_anchor_type: Vec<(u32, u32)>,
}

/// One owned light cone and the character that wears it.
pub struct LightconeRecord {
    pub internal_uid: u32,
    pub equip_avatar: u32,
    pub item_id: u32,
    pub promotion: u32,
    pub rank: u32,
    pub level: u32,
}

/// One owned relic and the character that wears it.
pub struct RelicRecord {
    pub internal_uid: u32,
    pub equip_avatar: u32,
    pub level: u32,
    pub main_affix_id: u32,
    pub relic_id: u32,
    pub sub_affixes: Vec<RelicSubAffixRecord>,
}

/// One sub-stat of a relic.
#[derive(Clone, Copy, Debug, PartialEq, Eq)]
pub struct RelicSubAffixRecord {
    pub sub_affix_id: u32,
    pub count: u32,
    pub step: u32,
}

/// The battle that every stage starts.
pub struct BattleConfigRecord {
    pub battle_type: String,
    pub stage_id: u32,
    pub cycle_count: u32,
    pub path_resonance_id: u32,
    /// Monster waves, in order.
    pub monsters: Vec<Vec<BattleMonsterRecord>>,
    pub blessings: Vec<BattleBlessingRecord>,
}

/// A monster of a wave and how many of it appear.
#[derive(Clone, Copy, Debug, PartialEq, Eq)]
pub struct BattleMonsterRecord {
    pub monster_id: u32,
    pub amount: u32,
    pub level: u32,
}

/// A blessing applied to the whole battle.
#[derive(Clone, Copy, Debug, PartialEq, Eq)]
pub struct BattleBlessingRecord {
    pub id: u32,
    pub level: u32,
}

/// The first character in `avs` with the given id.
pub open spec fn first_avatar(avs: Seq<AvatarRecord>, id: u32) -> Option<AvatarRecord>
    decreases avs.len(),
{
    if avs.len() == 0 {
        None
    } else if avs[0].avatar_id == id {
        Some(avs[0])
    } else {
        first_avatar(avs.drop_first(), id)
    }
}

/// The first light cone in `lcs` worn by character `avatar`.
pub open spec fn first_lightcone(lcs: Seq<LightconeRecord>, avatar: u32) -> Option<LightconeRecord>
    decreases lcs.len(),
{
    if lcs.len() == 0 {
        None
    } else if lcs[0].equip_avatar == avatar {
        Some(lcs[0])
    } else {
        first_lightcone(lcs.drop_first(), avatar)
    }
}

/// The relics of `rs` worn by character `avatar`, in their order in `rs`.
pub open spec fn relics_of(rs: Seq<RelicRecord>, avatar: u32) -> Seq<RelicRecord>
    decreases rs.len(),
{
    if rs.len() == 0 {
        Seq::empty()
    } else if rs.last().equip_avatar == avatar {
        relics_of(rs.drop_last(), avatar).push(rs.last())
    } else {
        relics_of(rs.drop_last(), avatar)
    }
}

impl GameData {
    /// The bag's unique ids do not overflow: relic ids are shifted by 1 and
    /// light-cone ids by 2000.
    pub open spec fn bag_ids_fit(&self) -> bool {
        &&& forall|i: int| 0 <= i < self.relics@.len() ==> #[trigger] self.relics@[i].internal_uid < u32::MAX
        &&& forall|i: int| 0 <= i < self.lightcones@.len()
            ==> #[trigger] self.lightcones@[i].internal_uid <= u32::MAX - 2000
    }
}

/// Every relic of character `avatar` can have its id shifted by 1.
pub open spec fn relics_of_fit(data: GameData, avatar: u32) -> bool {
    forall|k: int|
        0 <= k < data.relics@.len() && #[trigger] data.relics@[k].equip_avatar == avatar
            ==> data.relics@[k].internal_uid < u32::MAX
}

/// The relics worn by the owned characters of `lineup` can have their ids shifted by
/// 1, as a battle with that lineup does.
pub open spec fn worn_relics_fit(data: GameData, lineup: Seq<u32>) -> bool {
    forall|k: int, i: int|
        0 <= k < data.relics@.len() && 0 <= i < lineup.len() && #[trigger] data.relics@[k].equip_avatar
            == #[trigger] lineup[i] && first_avatar(data.avatars@, lineup[i]) is Some
            ==> data.relics@[k].internal_uid < u32::MAX
}

/// The waves can be numbered from 1 in a `u32`.
pub open spec fn waves_fit(data: GameData) -> bool {
    data.battle.monsters@.len() <= u32::MAX
}

/// A battle with `lineup` can be built from `data` without overflow.
pub open spec fn battle_data_fits(data: GameData, lineup: Seq<u32>) -> bool {
    worn_relics_fit(data, lineup) && waves_fit(data)
}

/// Index of the first character with id `id`, if any.
pub fn find_avatar(avs: &Vec<AvatarRecord>, id: u32) -> (r: Option<usize>)
    ensures
        match r {
            Some(i) => i < avs@.len() && first_avatar(avs@, id) == Some(avs@[i as int])
                && avs@[i as int].avatar_id == id,
            None => first_avatar(avs@, id) is None,
        },
{
    let mut i: usize = 0;
    assert(avs@.subrange(0, avs@.len() as int) == avs@);
    while i < avs.len()
        invariant
            i <= avs@.len(),
            first_avatar(avs@, id) == first_avatar(avs@.subrange(i as int, avs@.len() as int), id),
        decreases avs@.len() - i,
    {
        let ghost rest = avs@.subrange(i as int, avs@.len() as int);
        assert(rest[0] == avs@[i as int]);
        if avs[i].avatar_id == id {
            return Some(i);
        }
        assert(rest.drop_first() == avs@.subrange(i + 1, avs@.len() as int));
        i = i + 1;
    }
    None
}

/// Index of the first light cone worn by character `avatar`, if any.
pub fn find_lightcone(lcs: &Vec<LightconeRecord>, avatar: u32) -> (r: Option<usize>)
    ensures
        match r {
            Some(i) => i < lcs@.len() && first_lightcone(lcs@, avatar) == Some(lcs@[i as int]),
            None => first_lightcone(lcs@, avatar) is None,
        },
{
    let mut i: usize = 0;
    assert(lcs@.subrange(0, lcs@.len() as int) == lcs@);
    while i < lcs.len()
        invariant
            i <= lcs@.len(),
            first_lightcone(lcs@, avatar) == first_lightcone(
                lcs@.subrange(i as int, lcs@.len() as int),
                avatar,
            ),
        decreases lcs@.len() - i,
    {
        let ghost rest = lcs@.subrange(i as int, lcs@.len() as int);
        assert(rest[0] == lcs@[i as int]);
        if lcs[i].equip_avatar == avatar {
            return Some(i);
        }
        assert(rest.drop_first() == lcs@.subrange(i + 1, lcs@.len() as int));
        i = i + 1;
    }
    None
}


// ----- loading -----

/// Amount of a monster when the file gives none.
pub fn default_monster_amount() -> (n: u32)
    ensures
        n == 1,
{
    1
}

/// Level of a blessing when the file gives none.
pub fn default_blessing_level() -> (n: u32)
    ensures
        n == 1,
{
    1
}

/// A character as the data file describes it.
pub struct AvatarEntry {
    pub avatar_id: u32,
    pub level: u32,
    pub promotion: u32,
    pub enhanced_id: Option<u32>,
    pub sp_value: Option<u32>,
    pub sp_max: Option<u32>,
    pub data: Option<AvatarInnerData>,
}

/// The inner part of a character entry.
pub struct AvatarInnerData {
    pub rank: Option<u32>,
    /// Skill-tree points by point id written as text, in file order.
    pub skills_by_anchor_type: Vec<(String, u32)>,
}

/// The data file: characters (in any order), light cones, relics and the battle.
/// Monster amounts are as written in the file.
pub struct FreeSrData {
    pub key: Option<String>,
    pub avatars: Vec<AvatarEntry>,
    pub lightcones: Vec<LightconeRecord>,
    pub relics: Vec<RelicRecord>,
    pub battle_config: BattleConfigRecord,
}

/// The session file: the two path ids as decimal text and the lineup.
pub struct PersistentAvatar {
    pub mc_id: String,
    pub march_id: String,
    pub lineup: Vec<u32>,
}

pub struct PersistentFile {
    pub avatar: PersistentAvatar,
}

/// Why the saved data was refused.
#[derive(Clone, Copy, Debug, PartialEq, Eq)]
pub enum DataError {
    /// The saved trailblazer path id is not a `u32`.
    McId(IntParseError),
    /// The saved March 7th path id is not a `u32`.
    MarchId(IntParseError),
}

/// The skill points whose id text is a `u32`, as (id, level), in file order.
pub open spec fn parsed_skills(kvs: Seq<(String, u32)>) -> Seq<(u32, u32)>
    decreases kvs.len(),
{
    if kvs.len() == 0 {
        Seq::empty()
    } else {
        let rest = parsed_skills(kvs.drop_last());
        match spec_parse_uint(kvs.last().0@, u32::MAX as nat) {
            Ok(v) => rest.push((v as u32, kvs.last().1)),
            Err(_) => rest,
        }
    }
}

/// Inserts `x` into id-sorted `s` after every entry whose id is not greater.
pub open spec fn insert_skill(s: Seq<(u32, u32)>, x: (u32, u32)) -> Seq<(u32, u32)>
    decreases s.len(),
{
    if s.len() == 0 || s.last().0 <= x.0 {
        s.push(x)
    } else {
        insert_skill(s.drop_last(), x).push(s.last())
    }
}

/// `s` sorted by id, equal ids keeping their order.
pub open spec fn sort_skills(s: Seq<(u32, u32)>) -> Seq<(u32, u32)>
    decreases s.len(),
{
    if s.len() == 0 {
        Seq::empty()
    } else {
        insert_skill(sort_skills(s.drop_last()), s.last())
    }
}

/// The skill tree of a character entry: its readable points sorted by id.
pub open spec fn entry_skills(e: AvatarEntry) -> Seq<(u32, u32)> {
    match e.data {
        Some(d) => sort_skills(parsed_skills(d.skills_by_anchor_type@)),
        None => Seq::empty(),
    }
}

/// The character a file entry describes: rank 1, no enhancement, no energy and
/// an energy cap of 10000 unless the entry says otherwise.
pub open spec fn avatar_from(r: AvatarRecord, e: AvatarEntry) -> bool {
    &&& r.avatar_id == e.avatar_id
    &&& r.level == e.level
    &&& r.promotion == e.promotion
    &&& r.rank == match e.data {
        Some(d) => match d.rank {
            Some(k) => k,
            None => 1u32,
        },
        None => 1u32,
    }
    &&& r.enhanced_id == match e.enhanced_id {
        Some(v) => v,
        None => 0u32,
    }
    &&& r.sp_value == match e.sp_value {
        Some(v) => v,
        None => 0u32,
    }
    &&& r.sp_max == match e.sp_max {
        Some(v) => v,
        None => 10_000u32,
    }
    &&& r.skills_by_anchor_type@ == entry_skills(e)
}

/// Inserts `x` into id-sorted `s` after every character whose id is not greater.
pub open spec fn insert_avatar(s: Seq<AvatarRecord>, x: AvatarRecord) -> Seq<AvatarRecord>
    decreases s.len(),
{
    if s.len() == 0 || s.last().avatar_id <= x.avatar_id {
        s.push(x)
    } else {
        insert_avatar(s.drop_last(), x).push(s.last())
    }
}

/// `s` sorted by character id, equal ids keeping their order.
pub open spec fn sort_avatars(s: Seq<AvatarRecord>) -> Seq<AvatarRecord>
    decreases s.len(),
{
    if s.len() == 0 {
        Seq::empty()
    } else {
        insert_avatar(sort_avatars(s.drop_last()), s.last())
    }
}

proof fn lemma_insert_skill(s: Seq<(u32, u32)>, x: (u32, u32), p: int)
    requires
        0 <= p <= s.len(),
        p > 0 ==> s[p - 1].0 <= x.0,
        forall|k: int| p <= k < s.len() ==> #[trigger] s[k].0 > x.0,
    ensures
        insert_skill(s, x) == s.take(p).push(x) + s.skip(p),
    decreases s.len(),
{
    if s.len() == 0 {
        assert(s.take(p).push(x) + s.skip(p) =~= s.push(x));
    } else if s.last().0 <= x.0 {
        assert(s.take(p).push(x) + s.skip(p) =~= s.push(x));
    } else {
        lemma_insert_skill(s.drop_last(), x, p);
        assert(s.drop_last().take(p) == s.take(p));
        assert(s.skip(p) =~= s.drop_last().skip(p).push(s.last()));
        assert(insert_skill(s, x) =~= s.take(p).push(x) + s.skip(p));
    }
}

proof fn lemma_insert_avatar(s: Seq<AvatarRecord>, x: AvatarRecord, p: int)
    requires
        0 <= p <= s.len(),
        p > 0 ==> s[p - 1].avatar_id <= x.avatar_id,
        forall|k: int| p <= k < s.len() ==> #[trigger] s[k].avatar_id > x.avatar_id,
    ensures
        insert_avatar(s, x) == s.take(p).push(x) + s.skip(p),
    decreases s.len(),
{
    if s.len() == 0 {
        assert(s.take(p).push(x) + s.skip(p) =~= s.push(x));
    } else if s.last().avatar_id <= x.avatar_id {
        assert(s.take(p).push(x) + s.skip(p) =~= s.push(x));
    } else {
        lemma_insert_avatar(s.drop_last(), x, p);
        assert(s.drop_last().take(p) == s.take(p));
        assert(s.skip(p) =~= s.drop_last().skip(p).push(s.last()));
        assert(insert_avatar(s, x) =~= s.take(p).push(x) + s.skip(p));
    }
}

fn entry_skill_list(e: &AvatarEntry) -> (out: Vec<(u32, u32)>)
    ensures
        out@ == entry_skills(*e),
{
    let mut out: Vec<(u32, u32)> = Vec::new();
    match &e.data {
        None => {
            return out;
        },
        Some(d) => {
            let kvs = &d.skills_by_anchor_type;
            let mut i: usize = 0;
            while i < kvs.len()
                invariant
                    i <= kvs@.len(),
                    out@ == sort_skills(parsed_skills(kvs@.take(i as int))),
                decreases kvs@.len() - i,
            {
                let key = chars_of(kvs[i].0.as_str());
                let level = kvs[i].1;
                assert(kvs@.take((i + 1) as int).drop_last() == kvs@.take(i as int));
                assert(kvs@.take((i + 1) as int).last() == kvs@[i as int]);
                let ghost prev = parsed_skills(kvs@.take(i as int));
                match parse_u32(key.as_slice()) {
                    Ok(id) => {
                        let x = (id, level);
                        let mut p: usize = out.len();
                        while p > 0 && out[p - 1].0 > id
                            invariant
                                p <= out@.len(),
                                forall|k: int| p <= k < out@.len() ==> #[trigger] out@[k].0 > id,
                            decreases p,
                        {
                            p = p - 1;
                        }
                        proof {
                            lemma_insert_skill(out@, x, p as int);
                        }
                        out.insert(p, x);
                        assert(out@ =~= insert_skill(sort_skills(prev), x));
                        assert(parsed_skills(kvs@.take((i + 1) as int)) == prev.push(x));
                        assert(prev.push(x).drop_last() == prev);
                    },
                    Err(_) => {
                        assert(parsed_skills(kvs@.take((i + 1) as int)) == prev);
                    },
                }
                i = i + 1;
            }
            assert(kvs@.take(kvs@.len() as int) == kvs@);
            out
        },
    }
}

fn avatar_record(e: &AvatarEntry) -> (r: AvatarRecord)
    ensures
        avatar_from(r, *e),
{
    let rank = match &e.data {
        Some(d) => match d.rank {
            Some(k) => k,
            None => 1,
        },
        None => 1,
    };
    AvatarRecord {
        avatar_id: e.avatar_id,
        level: e.level,
        promotion: e.promotion,
        rank,
        enhanced_id: match e.enhanced_id {
            Some(v) => v,
            None => 0,
        },
        sp_value: match e.sp_value {
            Some(v) => v,
            None => 0,
        },
        sp_max: match e.sp_max {
            Some(v) => v,
            None => 10_000,
        },
        skills_by_anchor_type: entry_skill_list(e),
    }
}

/// The characters of the data file, sorted by id (file order among equal ids).
pub fn avatar_records(entries: &Vec<AvatarEntry>) -> (out: Vec<AvatarRecord>)
    ensures
        exists|c: Seq<AvatarRecord>|
            c.len() == entries@.len() && (forall|i: int|
                0 <= i < c.len() ==> avatar_from(#[trigger] c[i], entries@[i])) && out@
                == sort_avatars(c),
{
    let ghost mut c: Seq<AvatarRecord> = Seq::empty();
    let mut out: Vec<AvatarRecord> = Vec::new();
    let mut i: usize = 0;
    while i < entries.len()
        invariant
            i <= entries@.len(),
            c.len() == i,
            forall|k: int| 0 <= k < c.len() ==> avatar_from(#[trigger] c[k], entries@[k]),
            out@ == sort_avatars(c),
        decreases entries@.len() - i,
    {
        let r = avatar_record(&entries[i]);
        let id = r.avatar_id;
        let mut p: usize = out.len();
        while p > 0 && out[p - 1].avatar_id > id
            invariant
                p <= out@.len(),
                forall|k: int| p <= k < out@.len() ==> #[trigger] out@[k].avatar_id > id,
            decreases p,
        {
            p = p - 1;
        }
        proof {
            lemma_insert_avatar(out@, r, p as int);
            assert(c.push(r).drop_last() == c);
            assert(c.push(r).last() == r);
        }
        let ghost rr = r;
        out.insert(p, r);
        proof {
            c = c.push(rr);
        }
        assert(out@ =~= sort_avatars(c));
        i = i + 1;
    }
    out
}

proof fn lemma_insert_avatar_sorted(s: Seq<AvatarRecord>, x: AvatarRecord)
    requires
        forall|i: int, j: int| 0 <= i < j < s.len() ==> s[i].avatar_id <= s[j].avatar_id,
    ensures
        insert_avatar(s, x).len() == s.len() + 1,
        forall|i: int, j: int|
            0 <= i < j < insert_avatar(s, x).len() ==> insert_avatar(s, x)[i].avatar_id
                <= insert_avatar(s, x)[j].avatar_id,
        forall|i: int|
            0 <= i < insert_avatar(s, x).len() ==> insert_avatar(s, x)[i].avatar_id == x.avatar_id
                || exists|k: int| 0 <= k < s.len() && s[k].avatar_id == #[trigger] insert_avatar(s, x)[i].avatar_id,
    decreases s.len(),
{
    if s.len() == 0 || s.last().avatar_id <= x.avatar_id {
        assert forall|i: int| 0 <= i < insert_avatar(s, x).len() implies insert_avatar(s, x)[i].avatar_id == x.avatar_id
                || exists|k: int| 0 <= k < s.len() && s[k].avatar_id == #[trigger] insert_avatar(s, x)[i].avatar_id by {
            if i < s.len() {
                assert(s[i].avatar_id == insert_avatar(s, x)[i].avatar_id);
            }
        }
    } else {
        let r = insert_avatar(s.drop_last(), x);
        lemma_insert_avatar_sorted(s.drop_last(), x);
        assert forall|i: int| 0 <= i < r.len() implies r[i].avatar_id <= s.last().avatar_id by {
            if r[i].avatar_id != x.avatar_id {
                let k = choose|k: int| 0 <= k < s.drop_last().len() && s.drop_last()[k].avatar_id == r[i].avatar_id;
                assert(s[k].avatar_id <= s[s.len() - 1].avatar_id);
            }
        }
        assert forall|i: int| 0 <= i < insert_avatar(s, x).len() implies insert_avatar(s, x)[i].avatar_id == x.avatar_id
                || exists|k: int| 0 <= k < s.len() && s[k].avatar_id == #[trigger] insert_avatar(s, x)[i].avatar_id by {
            if i < r.len() {
                if r[i].avatar_id != x.avatar_id {
                    let k = choose|k: int| 0 <= k < s.drop_last().len() && s.drop_last()[k].avatar_id == r[i].avatar_id;
                    assert(s[k].avatar_id == insert_avatar(s, x)[i].avatar_id);
                }
            } else {
                assert(s[s.len() - 1].avatar_id == insert_avatar(s, x)[i].avatar_id);
            }
        }
    }
}

/// `sort_avatars` yields a sequence in non-decreasing id order with one entry per input.
proof fn lemma_sort_avatars_sorted(s: Seq<AvatarRecord>)
    ensures
        sort_avatars(s).len() == s.len(),
        forall|i: int, j: int|
            0 <= i < j < sort_avatars(s).len() ==> sort_avatars(s)[i].avatar_id
                <= sort_avatars(s)[j].avatar_id,
    decreases s.len(),
{
    if s.len() > 0 {
        lemma_sort_avatars_sorted(s.drop_last());
        lemma_insert_avatar_sorted(sort_avatars(s.drop_last()), s.last());
    }
}


/// A monster with its amount raised to at least 1.
pub open spec fn clamped(m: BattleMonsterRecord) -> BattleMonsterRecord {
    BattleMonsterRecord {
        monster_id: m.monster_id,
        amount: if m.amount < 1 { 1 } else { m.amount },
        level: m.level,
    }
}

/// The monster waves as the server uses them: every amount at least 1.
pub open spec fn waves_clamped(out: Seq<Vec<BattleMonsterRecord>>, inp: Seq<Vec<BattleMonsterRecord>>) -> bool {
    &&& out.len() == inp.len()
    &&& forall|w: int|
        0 <= w < out.len() ==> (#[trigger] out[w])@.len() == inp[w]@.len() && forall|m: int|
            0 <= m < out[w]@.len() ==> #[trigger] out[w]@[m] == clamped(inp[w]@[m])
}

fn clamp_waves(waves: &Vec<Vec<BattleMonsterRecord>>) -> (out: Vec<Vec<BattleMonsterRecord>>)
    ensures
        waves_clamped(out@, waves@),
{
    let mut out: Vec<Vec<BattleMonsterRecord>> = Vec::new();
    let mut w: usize = 0;
    while w < waves.len()
        invariant
            w <= waves@.len(),
            out@.len() == w,
            forall|v: int|
                0 <= v < w ==> (#[trigger] out@[v])@.len() == waves@[v]@.len() && forall|m: int|
                    0 <= m < out@[v]@.len() ==> #[trigger] out@[v]@[m] == clamped(waves@[v]@[m]),
        decreases waves@.len() - w,
    {
        let wave = &waves[w];
        let mut nw: Vec<BattleMonsterRecord> = Vec::new();
        let mut m: usize = 0;
        while m < wave.len()
            invariant
                m <= wave@.len(),
                nw@.len() == m,
                forall|k: int|
                    0 <= k < m ==> #[trigger] nw@[k] == clamped(wave@[k]),
            decreases wave@.len() - m,
        {
            let x = wave[m];
            nw.push(
                BattleMonsterRecord {
                    monster_id: x.monster_id,
                    amount: if x.amount < 1 {
                        1
                    } else {
                        x.amount
                    },
                    level: x.level,
                },
            );
            m = m + 1;
        }
        out.push(nw);
        w = w + 1;
    }
    out
}

/// The loading rule: characters sorted by id, monster amounts at least 1, the key
/// as token ("arayashiki" when absent), uid 333 and nickname "RobinSR"; an error when
/// a saved path id is not a `u32`, the trailblazer's first.
pub open spec fn game_data_loaded(
    freesr: FreeSrData,
    persistent: PersistentFile,
    res: Result<GameData, DataError>,
) -> bool {
    match spec_parse_uint(persistent.avatar.mc_id@, u32::MAX as nat) {
        Err(e) => res == Err::<GameData, DataError>(DataError::McId(e)),
        Ok(mc) => match spec_parse_uint(persistent.avatar.march_id@, u32::MAX as nat) {
            Err(e) => res == Err::<GameData, DataError>(DataError::MarchId(e)),
            Ok(march) => res matches Ok(d) && {
                &&& d.uid == 333
                &&& d.nickname@ == "RobinSR"@
                &&& d.token@ == match freesr.key {
                    Some(k) => k@,
                    None => "arayashiki"@,
                }
                &&& d.mc_id == mc
                &&& d.march_id == march
                &&& d.lineup@ == persistent.avatar.lineup@
                &&& exists|c: Seq<AvatarRecord>|
                    c.len() == freesr.avatars@.len() && (forall|i: int|
                        0 <= i < c.len() ==> avatar_from(#[trigger] c[i], freesr.avatars@[i]))
                        && d.avatars@ == sort_avatars(c)
                &&& d.lightcones@ == freesr.lightcones@
                &&& d.relics@ == freesr.relics@
                &&& d.battle.battle_type@ == freesr.battle_config.battle_type@
                &&& d.battle.stage_id == freesr.battle_config.stage_id
                &&& d.battle.cycle_count == freesr.battle_config.cycle_count
                &&& d.battle.path_resonance_id == freesr.battle_config.path_resonance_id
                &&& waves_clamped(d.battle.monsters@, freesr.battle_config.monsters@)
                &&& d.battle.blessings@ == freesr.battle_config.blessings@
            },
        },
    }
}

/// The player's data from the contents of the data file and the session file
/// (see `game_data_loaded`).
pub fn game_data_from(freesr: FreeSrData, persistent: PersistentFile) -> (res: Result<GameData, DataError>)
    ensures
        game_data_loaded(freesr, persistent, res),
{
    let mc_text = chars_of(persistent.avatar.mc_id.as_str());
    let mc_id = match parse_u32(mc_text.as_slice()) {
        Ok(v) => v,
        Err(e) => {
            return Err(DataError::McId(e));
        },
    };
    let march_text = chars_of(persistent.avatar.march_id.as_str());
    let march_id = match parse_u32(march_text.as_slice()) {
        Ok(v) => v,
        Err(e) => {
            return Err(DataError::MarchId(e));
        },
    };
    let avatars = avatar_records(&freesr.avatars);
    let monsters = clamp_waves(&freesr.battle_config.monsters);
    let token = match freesr.key {
        Some(k) => k,
        None => String::from_str("arayashiki"),
    };
    let battle = BattleConfigRecord {
        battle_type: freesr.battle_config.battle_type,
        stage_id: freesr.battle_config.stage_id,
        cycle_count: freesr.battle_config.cycle_count,
        path_resonance_id: freesr.battle_config.path_resonance_id,
        monsters,
        blessings: freesr.battle_config.blessings,
    };
    Ok(
        GameData {
            uid: 333,
            token,
            nickname: String::from_str("RobinSR"),
            avatars,
            lightcones: freesr.lightcones,
            relics: freesr.relics,
            battle,
            mc_id,
            march_id,
            lineup: persistent.avatar.lineup,
        },
    )
}

/// Whether the bag's unique ids fit (see `GameData::bag_ids_fit`).
pub fn check_bag_ids(data: &GameData) -> (ok: bool)
    ensures
        ok == data.bag_ids_fit(),
{
    let mut i: usize = 0;
    while i < data.relics.len()
        invariant
            i <= data.relics@.len(),
            forall|k: int| 0 <= k < i ==> #[trigger] data.relics@[k].internal_uid < u32::MAX,
        decreases data.relics@.len() - i,
    {
        if data.relics[i].internal_uid == u32::MAX {
            return false;
        }
        i = i + 1;
    }
    let mut j: usize = 0;
    while j < data.lightcones.len()
        invariant
            j <= data.lightcones@.len(),
            forall|k: int| 0 <= k < j ==> #[trigger] data.lightcones@[k].internal_uid <= u32::MAX - 2000,
        decreases data.lightcones@.len() - j,
    {
        if data.lightcones[j].internal_uid > u32::MAX - 2000 {
            return false;
        }
        j = j + 1;
    }
    true
}

fn lineup_index_of(lineup: &Vec<u32>, x: u32) -> (r: Option<usize>)
    ensures
        match r {
            Some(i) => i < lineup@.len() && lineup@[i as int] == x,
            None => forall|i: int| 0 <= i < lineup@.len() ==> lineup@[i] != x,
        },
{
    let mut i: usize = 0;
    while i < lineup.len()
        invariant
            i <= lineup@.len(),
            forall|k: int| 0 <= k < i ==> lineup@[k] != x,
        decreases lineup@.len() - i,
    {
        if lineup[i] == x {
            return Some(i);
        }
        i = i + 1;
    }
    None
}

/// Whether the relics worn by the owned characters of `lineup` fit (see `worn_relics_fit`).
pub fn check_worn_relics(data: &GameData, lineup: &Vec<u32>) -> (ok: bool)
    ensures
        ok == worn_relics_fit(*data, lineup@),
{
    let mut k: usize = 0;
    while k < data.relics.len()
        invariant
            k <= data.relics@.len(),
            forall|m: int, i: int|
                0 <= m < k && 0 <= i < lineup@.len() && #[trigger] data.relics@[m].equip_avatar
                    == #[trigger] lineup@[i] && first_avatar(data.avatars@, lineup@[i]) is Some
                    ==> data.relics@[m].internal_uid < u32::MAX,
        decreases data.relics@.len() - k,
    {
        let r = &data.relics[k];
        if r.internal_uid == u32::MAX {
            match lineup_index_of(lineup, r.equip_avatar) {
                Some(i) => {
                    if find_avatar(&data.avatars, r.equip_avatar).is_some() {
                        assert(data.relics@[k as int].equip_avatar == lineup@[i as int]);
                        return false;
                    }
                },
                None => {},
            }
        }
        k = k + 1;
    }
    true
}

/// Whether a battle with `lineup` can be built from `data` (see `battle_data_fits`).
pub fn check_battle_data(data: &GameData, lineup: &Vec<u32>) -> (ok: bool)
    ensures
        ok == battle_data_fits(*data, lineup@),
{
    check_worn_relics(data, lineup) && data.battle.monsters.len() as u64 <= u32::MAX as u64
}

/// Loaded characters come sorted by id, one per entry of the data file.
pub proof fn lemma_loaded_avatars_sorted(
    freesr: FreeSrData,
    persistent: PersistentFile,
    res: Result<GameData, DataError>,
)
    requires
        game_data_loaded(freesr, persistent, res),
    ensures
        res matches Ok(d) ==> {
            &&& d.avatars@.len() == freesr.avatars@.len()
            &&& forall|i: int, j: int|
                0 <= i < j < d.avatars@.len() ==> d.avatars@[i].avatar_id <= d.avatars@[j].avatar_id
        },
{
    if res is Ok {
        let d = res->Ok_0;
        let c = choose|c: Seq<AvatarRecord>|
            c.len() == freesr.avatars@.len() && (forall|i: int|
                0 <= i < c.len() ==> avatar_from(#[trigger] c[i], freesr.avatars@[i]))
                && d.avatars@ == sort_avatars(c);
        lemma_sort_avatars_sorted(c);
    }
}

/// Skill points sorted by point id, lowest first.
pub open spec fn points_sorted(s: Seq<(u32, u32)>) -> bool {
    forall|i: int, j: int| 0 <= i < j < s.len() ==> #[trigger] s[i].0 <= #[trigger] s[j].0
}

/// The skill points of a data-file entry whose id text reads as a `u32`, in file order.
pub open spec fn entry_points(e: AvatarEntry) -> Seq<(u32, u32)> {
    match e.data {
        Some(d) => parsed_skills(d.skills_by_anchor_type@),
        None => Seq::empty(),
    }
}

proof fn lemma_insert_skill_sorted(s: Seq<(u32, u32)>, x: (u32, u32))
    requires
        points_sorted(s),
    ensures
        points_sorted(insert_skill(s, x)),
        insert_skill(s, x).to_multiset() == s.to_multiset().insert(x),
    decreases s.len(),
{
    broadcast use vstd::seq_lib::group_to_multiset_ensures;

    if s.len() == 0 || s.last().0 <= x.0 {
        let r = s.push(x);
        assert forall|i: int, j: int| 0 <= i < j < r.len() implies #[trigger] r[i].0 <= #[trigger] r[j].0 by {
            if j == s.len() && i < s.len() - 1 {
                assert(s[i].0 <= s[s.len() - 1].0);
            }
        }
    } else {
        let d = s.drop_last();
        assert(points_sorted(d));
        lemma_insert_skill_sorted(d, x);
        let r = insert_skill(d, x);
        let res = r.push(s.last());
        assert forall|i: int| 0 <= i < r.len() implies #[trigger] r[i].0 <= s.last().0 by {
            assert(r.to_multiset().count(r[i]) > 0);
            if r[i] != x {
                assert(d.to_multiset().count(r[i]) > 0);
                assert(d.contains(r[i]));
                let k = choose|k: int| 0 <= k < d.len() && d[k] == r[i];
                assert(s[k].0 <= s[s.len() - 1].0);
            }
        }
        assert forall|i: int, j: int| 0 <= i < j < res.len() implies #[trigger] res[i].0 <= #[trigger] res[j].0 by {
            if j == r.len() {
                assert(res[i] == r[i]);
            } else {
                assert(res[i] == r[i] && res[j] == r[j]);
            }
        }
        assert(s == d.push(s.last()));
        assert(res.to_multiset() =~= s.to_multiset().insert(x));
    }
}

proof fn lemma_sort_skills_sorted(s: Seq<(u32, u32)>)
    ensures
        points_sorted(sort_skills(s)),
        sort_skills(s).to_multiset() == s.to_multiset(),
    decreases s.len(),
{
    broadcast use vstd::seq_lib::group_to_multiset_ensures;

    if s.len() > 0 {
        lemma_sort_skills_sorted(s.drop_last());
        lemma_insert_skill_sorted(sort_skills(s.drop_last()), s.last());
        assert(s == s.drop_last().push(s.last()));
    } else {
        assert(sort_skills(s).to_multiset() =~= s.to_multiset());
    }
}

proof fn lemma_sort_avatars_members(s: Seq<AvatarRecord>)
    ensures
        sort_avatars(s).to_multiset() == s.to_multiset(),
    decreases s.len(),
{
    broadcast use vstd::seq_lib::group_to_multiset_ensures;

    if s.len() > 0 {
        lemma_sort_avatars_members(s.drop_last());
        lemma_insert_avatar_members(sort_avatars(s.drop_last()), s.last());
        assert(s == s.drop_last().push(s.last()));
    } else {
        assert(sort_avatars(s).to_multiset() =~= s.to_multiset());
    }
}

proof fn lemma_insert_avatar_members(s: Seq<AvatarRecord>, x: AvatarRecord)
    ensures
        insert_avatar(s, x).to_multiset() == s.to_multiset().insert(x),
    decreases s.len(),
{
    broadcast use vstd::seq_lib::group_to_multiset_ensures;

    if !(s.len() == 0 || s.last().avatar_id <= x.avatar_id) {
        lemma_insert_avatar_members(s.drop_last(), x);
        assert(s == s.drop_last().push(s.last()));
        assert(insert_avatar(s, x).to_multiset() =~= s.to_multiset().insert(x));
    }
}

/// Every loaded character's skill tree is sorted by point id and holds exactly the
/// points of its data-file entry whose id text reads as a number, each once per entry.
pub proof fn lemma_loaded_skill_trees_sorted(
    freesr: FreeSrData,
    persistent: PersistentFile,
    res: Result<GameData, DataError>,
)
    requires
        game_data_loaded(freesr, persistent, res),
    ensures
        res matches Ok(d) ==> forall|k: int|
            0 <= k < d.avatars@.len() ==> exists|j: int|
                0 <= j < freesr.avatars@.len() && (#[trigger] d.avatars@[k]).avatar_id
                    == freesr.avatars@[j].avatar_id && points_sorted(
                    d.avatars@[k].skills_by_anchor_type@,
                ) && d.avatars@[k].skills_by_anchor_type@.to_multiset() == entry_points(
                    freesr.avatars@[j],
                ).to_multiset(),
{
    broadcast use vstd::seq_lib::group_to_multiset_ensures;

    if res is Ok {
        let d = res->Ok_0;
        let c = choose|c: Seq<AvatarRecord>|
            c.len() == freesr.avatars@.len() && (forall|i: int|
                0 <= i < c.len() ==> avatar_from(#[trigger] c[i], freesr.avatars@[i]))
                && d.avatars@ == sort_avatars(c);
        lemma_sort_avatars_members(c);
        assert forall|k: int| 0 <= k < d.avatars@.len() implies exists|j: int|
            0 <= j < freesr.avatars@.len() && (#[trigger] d.avatars@[k]).avatar_id
                == freesr.avatars@[j].avatar_id && points_sorted(d.avatars@[k].skills_by_anchor_type@)
                && d.avatars@[k].skills_by_anchor_type@.to_multiset() == entry_points(
                freesr.avatars@[j],
            ).to_multiset() by {
            let a = d.avatars@[k];
            assert(d.avatars@.to_multiset().count(a) > 0);
            assert(c.contains(a));
            let j = choose|j: int| 0 <= j < c.len() && c[j] == a;
            assert(avatar_from(c[j], freesr.avatars@[j]));
            lemma_sort_skills_sorted(entry_points(freesr.avatars@[j]));
            match freesr.avatars@[j].data {
                Some(dd) => {},
                None => {
                    assert(sort_skills(Seq::<(u32, u32)>::empty()) == Seq::<(u32, u32)>::empty());
                },
            }
        }
    }
}

} // verus!
