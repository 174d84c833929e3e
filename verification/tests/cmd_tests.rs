use robinsr::cmd::{
    build_cmd_table, chars_eq, cmd_id, cmd_name, first_missing_cmd, handler_at, parse_cmd_ids,
    parse_cmd_line, req_name, route, rsp_candidates, rsp_name, Handler, Route, HANDLER_COUNT,
};

fn cs(s: &str) -> Vec<char> {
    s.chars().collect()
}

fn text(v: &[char]) -> String {
    v.iter().collect()
}

/// A command list that defines every name the server needs: request ids from 100,
/// response ids from 200, the lineup notice 300, and a few others.
fn full_list() -> Vec<String> {
    let mut lines = vec!["// generated ids".to_string(), "".to_string()];
    for k in 0..HANDLER_COUNT {
        let h = handler_at(k);
        lines.push(format!("    {} = {};", req_name(h), 100 + k));
        if let Some(r) = rsp_name(h) {
            lines.push(format!("{} = {};", r, 200 + k));
        }
    }
    lines.push("SyncLineupNotify = 300;".to_string());
    lines.push("GetFriendListInfoCsReq = 400;".to_string());
    lines.push("GetFriendListInfoScRsp = 401;".to_string());
    lines.push("GetMailCSReq = 410;".to_string());
    lines.push("GetMailScRsp = 411;".to_string());
    lines.push("QueryReq = 420;".to_string());
    lines.push("QueryScRsp = 421;".to_string());
    lines.push("LonelyCsReq = 430;".to_string());
    lines
}

#[test]
fn parse_cmd_line_accepts_definitions() {
    let (name, id) = parse_cmd_line(&cs("  PlayerGetTokenCsReq = 12;  ")).unwrap();
    assert_eq!(text(&name), "PlayerGetTokenCsReq");
    assert_eq!(id, 12);
    let (name, id) = parse_cmd_line(&cs("A_b9=65535;;")).unwrap();
    assert_eq!(text(&name), "A_b9");
    assert_eq!(id, 65535);
    let (name, id) = parse_cmd_line(&cs("x; = 3 ; ")).unwrap();
    assert_eq!(text(&name), "x;");
    assert_eq!(id, 3);
    let (name, id) = parse_cmd_line(&cs("= 4")).unwrap();
    assert_eq!(text(&name), "");
    assert_eq!(id, 4);
}

#[test]
fn parse_cmd_line_skips_other_lines() {
    assert!(parse_cmd_line(&cs("")).is_none());
    assert!(parse_cmd_line(&cs("pub mod cmd {")).is_none());
    assert!(parse_cmd_line(&cs("pub const A: u16 = 5;")).is_none());
    assert!(parse_cmd_line(&cs("A = 65536;")).is_none());
    assert!(parse_cmd_line(&cs("A = x;")).is_none());
    assert!(parse_cmd_line(&cs("A = ;")).is_none());
}

#[test]
fn parse_cmd_ids_keeps_last_definition() {
    let lines = vec!["A = 1;".to_string(), "B = 2;".to_string(), "A = 3;".to_string(), "junk".to_string()];
    let ids = parse_cmd_ids(&lines);
    assert_eq!(ids.entries.len(), 2);
    assert_eq!(ids.lookup(&cs("A")), Some(3));
    assert_eq!(ids.lookup(&cs("B")), Some(2));
    assert_eq!(ids.lookup(&cs("C")), None);
}

#[test]
fn rsp_candidates_in_order() {
    let c: Vec<String> = rsp_candidates(&cs("FooCsReq")).iter().map(|v| text(v)).collect();
    assert_eq!(c, vec!["FooScRsp".to_string(), "FooCsScRsp".to_string()]);
    let c: Vec<String> = rsp_candidates(&cs("FooCSReq")).iter().map(|v| text(v)).collect();
    assert_eq!(c, vec!["FooScRsp".to_string(), "FooCSScRsp".to_string()]);
    let c: Vec<String> = rsp_candidates(&cs("FooReq")).iter().map(|v| text(v)).collect();
    assert_eq!(c, vec!["FooScRsp".to_string()]);
    assert!(rsp_candidates(&cs("FooNotify")).is_empty());
}

#[test]
fn chars_eq_compares() {
    assert!(chars_eq(&cs("abc"), &cs("abc")));
    assert!(!chars_eq(&cs("abc"), &cs("abd")));
    assert!(!chars_eq(&cs("ab"), &cs("abc")));
}

#[test]
fn handler_names() {
    assert_eq!(handler_at(0), Handler::PlayerGetToken);
    assert_eq!(handler_at(14), Handler::PveBattleResult);
    assert_eq!(req_name(Handler::PveBattleResult), "PVEBattleResultCsReq");
    assert_eq!(rsp_name(Handler::PlayerLogout), None);
    assert_eq!(rsp_name(Handler::SetAvatarPath), Some("SetAvatarPathScRsp"));
    assert_eq!(handler_at(HANDLER_COUNT - 1), Handler::PlayerLoginFinish);
}

#[test]
fn first_missing_cmd_reports_the_first_gap() {
    let ids = parse_cmd_ids(&full_list());
    assert_eq!(first_missing_cmd(&ids), None);

    let lines: Vec<String> = full_list().into_iter().filter(|l| !l.contains("PlayerHeartBeatScRsp")).collect();
    assert_eq!(first_missing_cmd(&parse_cmd_ids(&lines)), Some("PlayerHeartBeatScRsp"));

    let lines: Vec<String> = full_list().into_iter().filter(|l| !l.contains("SyncLineupNotify")).collect();
    assert_eq!(first_missing_cmd(&parse_cmd_ids(&lines)), Some("SyncLineupNotify"));

    assert_eq!(first_missing_cmd(&parse_cmd_ids(&Vec::new())), Some("PlayerGetTokenCsReq"));

    let only_token = vec!["PlayerGetTokenCsReq = 1;".to_string()];
    assert_eq!(first_missing_cmd(&parse_cmd_ids(&only_token)), Some("PlayerGetTokenScRsp"));

    // the lineup notice is checked right after the leader change, before later handlers
    let lines: Vec<String> = full_list()
        .into_iter()
        .filter(|l| !l.contains("SyncLineupNotify") && !l.contains("GetBagCsReq"))
        .collect();
    assert_eq!(first_missing_cmd(&parse_cmd_ids(&lines)), Some("SyncLineupNotify"));
    let lines: Vec<String> = full_list()
        .into_iter()
        .filter(|l| !l.contains("SyncLineupNotify") && !l.contains("ChangeLineupLeaderScRsp"))
        .collect();
    assert_eq!(first_missing_cmd(&parse_cmd_ids(&lines)), Some("ChangeLineupLeaderScRsp"));
    let lines: Vec<String> = full_list().into_iter().filter(|l| !l.contains("PlayerLogoutCsReq")).collect();
    assert_eq!(first_missing_cmd(&parse_cmd_ids(&lines)), Some("PlayerLogoutCsReq"));
}

#[test]
fn build_cmd_table_routes_handled_requests() {
    let ids = parse_cmd_ids(&full_list());
    assert_eq!(cmd_id(&ids, "GetBagCsReq"), 118);
    let t = build_cmd_table(&ids);
    assert_eq!(t.handled.req.len(), HANDLER_COUNT);
    assert_eq!(t.handled.sync_lineup_notify, 300);
    for k in 0..HANDLER_COUNT {
        assert_eq!(t.handled.req[k], 100 + k as u16);
        assert_eq!(route(&t, 100 + k as u16), Route::Handled(handler_at(k)));
    }
    assert_eq!(t.handled.rsp[19], None);
    assert_eq!(t.handled.rsp[18], Some(218));
}

#[test]
fn build_cmd_table_dummy_responses() {
    let t = build_cmd_table(&parse_cmd_ids(&full_list()));
    assert_eq!(route(&t, 400), Route::Dummy(401));
    assert_eq!(route(&t, 410), Route::Dummy(411));
    assert_eq!(route(&t, 420), Route::Dummy(421));
    assert_eq!(route(&t, 430), Route::Unhandled);
    assert_eq!(route(&t, 9999), Route::Unhandled);
    // handled requests never get an empty response
    for k in 0..HANDLER_COUNT {
        assert!(!t.dummy_map.contains_key(&(100 + k as u16)));
    }
}

#[test]
fn cmd_name_or_unknown() {
    let t = build_cmd_table(&parse_cmd_ids(&full_list()));
    assert_eq!(cmd_name(&t, 300), "SyncLineupNotify");
    assert_eq!(cmd_name(&t, 100), "PlayerGetTokenCsReq");
    assert_eq!(cmd_name(&t, 12345), "UNKNOWN");
}
