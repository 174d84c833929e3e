//! The HTTP side: region dispatch, the gateway to the game server, and the account
//! fields of the login answers.

use base64::Engine;
use vstd::prelude::*;
use vstd::string::*;

use crate::data::GameData;
use crate::proto::{Dispatch, GateServer, RegionInfo};
use crate::text::{decimal, u32_to_string};

verus! {

/// Port of the HTTP server.
pub const SDK_PORT: u16 = 21000;

/// Port of the game server.
pub const GAME_PORT: u16 = 23301;

/// The character of a 6-bit value in the standard base64 alphabet
/// (`A`-`Z`, `a`-`z`, `0`-`9`, `+`, `/`).
pub open spec fn b64_char(v: nat) -> char {
    if v < 26 {
        (65 + v) as char
    } else if v < 52 {
        (71 + v) as char
    } else if v < 62 {
        (v - 4) as char
    } else if v == 62 {
        '+'
    } else {
        '/'
    }
}

/// The standard, padded base64 text of `data`: each group of three bytes gives four
/// characters of six bits each; a last group of one or two bytes is filled with zero
/// bits and padded with `=` to four characters.
pub open spec fn base64_standard(d: Seq<u8>) -> Seq<char>
    decreases d.len(),
{
    if d.len() == 0 {
        Seq::empty()
    } else if d.len() == 1 {
        seq![b64_char(d[0] as nat / 4), b64_char((d[0] as nat % 4) * 16), '=', '=']
    } else if d.len() == 2 {
        seq![
            b64_char(d[0] as nat / 4),
            b64_char((d[0] as nat % 4) * 16 + d[1] as nat / 16),
            b64_char((d[1] as nat % 16) * 4),
            '=',
        ]
    } else {
        seq![
            b64_char(d[0] as nat / 4),
            b64_char((d[0] as nat % 4) * 16 + d[1] as nat / 16),
            b64_char((d[1] as nat % 16) * 4 + d[2] as nat / 64),
            b64_char(d[2] as nat % 64),
        ] + base64_standard(d.skip(3))
    }
}

/// Length of padded base64 text for `n` bytes: four characters per started group of three.
pub open spec fn base64_len(n: nat) -> nat {
    if n % 3 == 0 {
        n / 3 * 4
    } else {
        n / 3 * 4 + 4
    }
}

/// `base64::engine::general_purpose::STANDARD.encode`: the standard alphabet with `=`
/// padding, which is `base64_standard`. The crate panics when the length of the text
/// overflows `usize`, which `requires` leaves out.
#[verifier::external_body]
fn base64_standard_encode(data: &[u8]) -> (s: String)
    requires
        base64_len(data@.len()) <= usize::MAX,
    ensures
        s@ == base64_standard(data@),
{
    base64::engine::general_purpose::STANDARD.encode(data)
}

proof fn lemma_base64_len(d: Seq<u8>)
    ensures
        base64_standard(d).len() == base64_len(d.len()),
    decreases d.len(),
{
    if d.len() >= 3 {
        lemma_base64_len(d.skip(3));
        assert(base64_len(d.len()) == base64_len((d.len() - 3) as nat) + 4);
    }
}

/// The body of a dispatch or gateway answer: the encoded message as padded base64.
pub fn base64_body(encoded_message: &[u8]) -> (s: String)
    requires
        base64_len(encoded_message@.len()) <= usize::MAX,
    ensures
        s@ == base64_standard(encoded_message@),
        s@.len() == base64_len(encoded_message@.len()),
{
    proof {
        lemma_base64_len(encoded_message@);
    }
    base64_standard_encode(encoded_message)
}

/// The region list: one region, "prod_gf_cn", whose gateway is this server.
pub fn query_dispatch() -> (d: Dispatch)
    ensures
        d.retcode == 0,
        d.msg@ == "OK"@,
        d.region_list@.len() == 1,
        d.region_list@[0].name@ == "prod_gf_cn"@,
        d.region_list@[0].title@ == "RobinSR"@,
        d.region_list@[0].dispatch_url@ == "http://127.0.0.1:21000/query_gateway"@,
        d.region_list@[0].env_type@ == "9"@,
{
    let mut region_list: Vec<RegionInfo> = Vec::new();
    region_list.push(
        RegionInfo {
            name: String::from_str("prod_gf_cn"),
            title: String::from_str("RobinSR"),
            dispatch_url: String::from_str("http://127.0.0.1:21000/query_gateway"),
            env_type: String::from_str("9"),
        },
    );
    Dispatch { retcode: 0, msg: String::from_str("OK"), region_list }
}

/// The gateway: the game server's address, every feature flag on, no resource URLs.
pub fn query_gateway() -> (g: GateServer)
    ensures
        g.ip@ == "127.0.0.1"@,
        g.lua_url@ == ""@,
        g.port == GAME_PORT,
        g.region_name@ == "prod_gf_cn"@,
        g.ex_resource_url@ == ""@,
        g.asset_bundle_url@ == ""@,
        g.retcode == 0,
        g.ifix_version@ == "0"@,
        g.unk1 && g.unk2 && g.unk3 && g.unk4 && g.unk5 && g.unk6 && g.unk7 && g.unk8 && g.unk9
            && g.unk10 && g.unk11 && g.unk12 && g.unk13 && g.unk14 && g.unk15,
{
    GateServer {
        ip: String::from_str("127.0.0.1"),
        lua_url: String::from_str(""),
        port: GAME_PORT as u32,
        region_name: String::from_str("prod_gf_cn"),
        ex_resource_url: String::from_str(""),
        asset_bundle_url: String::from_str(""),
        retcode: 0,
        ifix_version: String::from_str("0"),
        unk1: true,
        unk2: true,
        unk3: true,
        unk4: true,
        unk5: true,
        unk6: true,
        unk7: true,
        unk8: true,
        unk9: true,
        unk10: true,
        unk11: true,
        unk12: true,
        unk13: true,
        unk14: true,
        unk15: true,
    }
}

/// The account fields every login answer carries.
pub struct SdkAccount {
    pub token: String,
    /// The uid as decimal text.
    pub uid: String,
}

/// The account fields of the login answers: the saved token and the uid as text.
pub fn sdk_account(data: &GameData) -> (a: SdkAccount)
    ensures
        a.token@ == data.token@,
        a.uid@ == decimal(data.uid as nat),
{
    SdkAccount { token: data.token.clone(), uid: u32_to_string(data.uid) }
}

} // verus!
