use robinsr::data::{
    avatar_records, check_bag_ids, check_battle_data, check_worn_relics, default_blessing_level, default_monster_amount, find_avatar,
    find_lightcone, game_data_from, AvatarEntry, AvatarInnerData, BattleBlessingRecord,
    BattleConfigRecord, BattleMonsterRecord, DataError, FreeSrData, LightconeRecord,
    PersistentAvatar, PersistentFile, RelicRecord, RelicSubAffixRecord,
};
use robinsr::state::{initial_runtime, persist_snapshot};
use robinsr::text::IntParseError;

fn entry(id: u32, level: u32) -> AvatarEntry {
    AvatarEntry {
        avatar_id: id,
        level,
        promotion: 6,
        enhanced_id: None,
        sp_value: None,
        sp_max: None,
        data: None,
    }
}

fn empty_battle() -> BattleConfigRecord {
    BattleConfigRecord {
        battle_type: String::new(),
        stage_id: 0,
        cycle_count: 0,
        path_resonance_id: 0,
        monsters: Vec::new(),
        blessings: Vec::new(),
    }
}

fn freesr(avatars: Vec<AvatarEntry>) -> FreeSrData {
    FreeSrData {
        key: None,
        avatars,
        lightcones: Vec::new(),
        relics: Vec::new(),
        battle_config: empty_battle(),
    }
}

fn session(mc: &str, march: &str, lineup: Vec<u32>) -> PersistentFile {
    PersistentFile {
        avatar: PersistentAvatar { mc_id: mc.to_string(), march_id: march.to_string(), lineup },
    }
}

#[test]
fn defaults_are_one() {
    assert_eq!(default_monster_amount(), 1);
    assert_eq!(default_blessing_level(), 1);
}

#[test]
fn load_fills_defaults_and_fixed_fields() {
    let d = game_data_from(freesr(vec![entry(1001, 80)]), session("8006", "1224", vec![1001])).unwrap();
    assert_eq!(d.uid, 333);
    assert_eq!(d.nickname, "RobinSR");
    assert_eq!(d.token, "arayashiki");
    assert_eq!(d.mc_id, 8006);
    assert_eq!(d.march_id, 1224);
    assert_eq!(d.lineup, vec![1001]);
    let a = &d.avatars[0];
    assert_eq!((a.avatar_id, a.level, a.promotion), (1001, 80, 6));
    assert_eq!(a.rank, 1);
    assert_eq!(a.enhanced_id, 0);
    assert_eq!(a.sp_value, 0);
    assert_eq!(a.sp_max, 10_000);
    assert!(a.skills_by_anchor_type.is_empty());
}

#[test]
fn load_keeps_key_and_given_values() {
    let mut f = freesr(vec![AvatarEntry {
        avatar_id: 1309,
        level: 80,
        promotion: 6,
        enhanced_id: Some(2),
        sp_value: Some(50),
        sp_max: Some(120),
        data: Some(AvatarInnerData {
            rank: Some(6),
            skills_by_anchor_type: vec![
                ("130902".to_string(), 10),
                ("x".to_string(), 99),
                ("130901".to_string(), 6),
                ("-1".to_string(), 1),
                ("130903".to_string(), 12),
            ],
        }),
    }]);
    f.key = Some("custom-key".to_string());
    let d = game_data_from(f, session("8001", "1001", Vec::new())).unwrap();
    assert_eq!(d.token, "custom-key");
    let a = &d.avatars[0];
    assert_eq!(a.rank, 6);
    assert_eq!(a.enhanced_id, 2);
    assert_eq!(a.sp_value, 50);
    assert_eq!(a.sp_max, 120);
    assert_eq!(a.skills_by_anchor_type, vec![(130901, 6), (130902, 10), (130903, 12)]);
}

#[test]
fn load_sorts_avatars_by_id() {
    let d = game_data_from(
        freesr(vec![entry(1309, 1), entry(1001, 2), entry(8006, 3), entry(1224, 4)]),
        session("8006", "1224", Vec::new()),
    )
    .unwrap();
    let ids: Vec<u32> = d.avatars.iter().map(|a| a.avatar_id).collect();
    assert_eq!(ids, vec![1001, 1224, 1309, 8006]);
    let recs = avatar_records(&vec![entry(5, 1), entry(3, 2), entry(5, 3)]);
    let got: Vec<(u32, u32)> = recs.iter().map(|a| (a.avatar_id, a.level)).collect();
    assert_eq!(got, vec![(3, 2), (5, 1), (5, 3)]);
}

#[test]
fn load_raises_monster_amounts_and_keeps_battle() {
    let mut f = freesr(Vec::new());
    f.battle_config = BattleConfigRecord {
        battle_type: "SU".to_string(),
        stage_id: 30019001,
        cycle_count: 30,
        path_resonance_id: 7,
        monsters: vec![
            vec![
                BattleMonsterRecord { monster_id: 1, amount: 0, level: 90 },
                BattleMonsterRecord { monster_id: 2, amount: 3, level: 80 },
            ],
            Vec::new(),
        ],
        blessings: vec![BattleBlessingRecord { id: 5, level: 0 }],
    };
    f.lightcones = vec![LightconeRecord { internal_uid: 1, equip_avatar: 1001, item_id: 23000, promotion: 6, rank: 5, level: 80 }];
    f.relics = vec![RelicRecord {
        internal_uid: 2,
        equip_avatar: 1001,
        level: 15,
        main_affix_id: 1,
        relic_id: 61011,
        sub_affixes: vec![RelicSubAffixRecord { sub_affix_id: 4, count: 2, step: 1 }],
    }];
    let d = game_data_from(f, session("8006", "1224", Vec::new())).unwrap();
    assert_eq!(d.battle.battle_type, "SU");
    assert_eq!(d.battle.stage_id, 30019001);
    assert_eq!(d.battle.cycle_count, 30);
    assert_eq!(d.battle.path_resonance_id, 7);
    assert_eq!(d.battle.monsters[0][0], BattleMonsterRecord { monster_id: 1, amount: 1, level: 90 });
    assert_eq!(d.battle.monsters[0][1], BattleMonsterRecord { monster_id: 2, amount: 3, level: 80 });
    assert!(d.battle.monsters[1].is_empty());
    assert_eq!(d.battle.blessings, vec![BattleBlessingRecord { id: 5, level: 0 }]);
    assert_eq!(d.lightcones.len(), 1);
    assert_eq!(d.relics[0].sub_affixes[0].count, 2);
}

#[test]
fn load_refuses_bad_path_ids() {
    let r = game_data_from(freesr(Vec::new()), session("abc", "1224", Vec::new()));
    assert!(matches!(r, Err(DataError::McId(IntParseError::InvalidDigit))));
    let r = game_data_from(freesr(Vec::new()), session("", "x", Vec::new()));
    assert!(matches!(r, Err(DataError::McId(IntParseError::Empty))));
    let r = game_data_from(freesr(Vec::new()), session("8006", "4294967296", Vec::new()));
    assert!(matches!(r, Err(DataError::MarchId(IntParseError::PosOverflow))));
    let r = game_data_from(freesr(Vec::new()), session("8006", "", Vec::new()));
    assert!(matches!(r, Err(DataError::MarchId(IntParseError::Empty))));
}

#[test]
fn find_first_matches() {
    let d = game_data_from(freesr(vec![entry(1001, 1), entry(1309, 2)]), session("1", "2", Vec::new())).unwrap();
    assert_eq!(find_avatar(&d.avatars, 1309), Some(1));
    assert_eq!(find_avatar(&d.avatars, 42), None);
    let lcs = vec![
        LightconeRecord { internal_uid: 1, equip_avatar: 0, item_id: 1, promotion: 0, rank: 1, level: 1 },
        LightconeRecord { internal_uid: 2, equip_avatar: 1309, item_id: 2, promotion: 0, rank: 1, level: 1 },
        LightconeRecord { internal_uid: 3, equip_avatar: 1309, item_id: 3, promotion: 0, rank: 1, level: 1 },
    ];
    assert_eq!(find_lightcone(&lcs, 1309), Some(1));
    assert_eq!(find_lightcone(&lcs, 1001), None);
}

#[test]
fn check_bag_ids_limits_ids() {
    let mut d = game_data_from(freesr(Vec::new()), session("1", "2", Vec::new())).unwrap();
    assert!(check_bag_ids(&d));
    d.relics.push(RelicRecord { internal_uid: u32::MAX, equip_avatar: 0, level: 0, main_affix_id: 0, relic_id: 0, sub_affixes: Vec::new() });
    assert!(!check_bag_ids(&d));
    d.relics.clear();
    d.lightcones.push(LightconeRecord { internal_uid: u32::MAX - 1999, equip_avatar: 0, item_id: 0, promotion: 0, rank: 0, level: 0 });
    assert!(!check_bag_ids(&d));
    d.lightcones[0].internal_uid = u32::MAX - 2000;
    assert!(check_bag_ids(&d));
}

#[test]
fn battle_data_checks_only_worn_relics_of_owned_lineup_characters() {
    let mut d = game_data_from(freesr(vec![entry(1001, 1), entry(1309, 1)]), session("1", "2", Vec::new())).unwrap();
    let max_relic = |avatar: u32| RelicRecord { internal_uid: u32::MAX, equip_avatar: avatar, level: 0, main_affix_id: 0, relic_id: 0, sub_affixes: Vec::new() };
    // light cones with large ids do not matter to battles
    d.lightcones.push(LightconeRecord { internal_uid: u32::MAX, equip_avatar: 1001, item_id: 0, promotion: 0, rank: 0, level: 0 });
    // worn by a character outside the lineup
    d.relics.push(max_relic(1309));
    // worn by an id in the lineup that the player does not own
    d.relics.push(max_relic(4242));
    assert!(check_worn_relics(&d, &vec![1001, 4242]));
    assert!(check_battle_data(&d, &vec![1001, 4242]));
    assert!(!check_worn_relics(&d, &vec![1001, 1309]));
    assert!(!check_battle_data(&d, &vec![1309]));
    assert!(check_worn_relics(&d, &Vec::new()));
}

#[test]
fn saved_session_reloads() {
    let d = game_data_from(
        freesr(vec![entry(1001, 1), entry(1309, 1), entry(8006, 1)]),
        session("8002", "1224", vec![1309, 1001]),
    )
    .unwrap();
    let mut rt = initial_runtime(&d);
    rt.mc_id = 8008;
    rt.march_id = 1001;
    rt.lineup = vec![8006, 1309];
    let snap = persist_snapshot(&rt);
    assert_eq!(snap.mc_id, "8008");
    assert_eq!(snap.march_id, "1001");
    let reloaded = game_data_from(
        freesr(vec![entry(1001, 1), entry(1309, 1), entry(8006, 1)]),
        PersistentFile { avatar: PersistentAvatar { mc_id: snap.mc_id, march_id: snap.march_id, lineup: snap.lineup } },
    )
    .unwrap();
    assert_eq!(reloaded.mc_id, 8008);
    assert_eq!(reloaded.march_id, 1001);
    assert_eq!(reloaded.lineup, vec![8006, 1309]);
    assert_eq!(initial_runtime(&reloaded).lineup, vec![8006, 1309]);
}
