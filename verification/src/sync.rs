//! The sync operations: changes since the last request.
//!
//! Both queries carry a response ID so the server can answer with a delta.
//! The torrent-peers query is hash-scoped: a 404 answer means the hash is
//! unknown.

use vstd::prelude::*;

use crate::error::Error;
use crate::json::{json_object, json_string, JsonObjectWriter};
use crate::request::{ApiRequest, Arguments, Method};
use crate::response::{hash_text_response, hash_text_result};
use crate::text::i64_text;
use crate::transfer::ConnectionStatus;

verus! {

/// Arguments of the main-data query.
#[derive(Debug, Clone, Copy, PartialEq, Eq, Structural)]
pub struct GetMainData {
    /// Response ID of the last server reply; zero for a full snapshot.
    pub rid: i64,
}

impl Default for GetMainData {
    /// A full snapshot.
    fn default() -> (r: Self)
        ensures
            r.rid == 0,
    {
        GetMainData { rid: 0 }
    }
}

/// Arguments of the torrent-peers query.
#[derive(Debug, Clone, PartialEq)]
pub struct GetPeersData {
    /// Torrent hash.
    pub hash: String,
    /// Response ID of the last server reply; zero for a full snapshot.
    pub rid: i64,
}

/// Info for one category.
#[derive(Debug, Clone, PartialEq)]
pub struct Category {
    /// Category name.
    pub name: String,
    /// Save torrents of this category to the given directory.
    pub save_path: String,
}

/// Global transfer info carried in a main-data answer.
#[derive(Debug, Clone, PartialEq)]
pub struct ServerState {
    /// Global download rate (bytes/s).
    pub dl_info_speed: i64,
    /// Data downloaded this session (bytes).
    pub dl_info_data: i64,
    /// Global upload rate (bytes/s).
    pub up_info_speed: i64,
    /// Data uploaded this session (bytes).
    pub up_info_data: i64,
    /// Download rate limit (bytes/s).
    pub dl_rate_limit: i64,
    /// Upload rate limit (bytes/s).
    pub up_rate_limit: i64,
    /// DHT nodes connected to.
    pub dht_nodes: i64,
    /// Connection status.
    pub connection_status: ConnectionStatus,
    /// True if torrent queueing is enabled.
    pub queueing: bool,
    /// True if alternative speed limits are enabled.
    pub use_alt_speed_limits: bool,
    /// Transfer list refresh interval (milliseconds).
    pub refresh_interval: i64,
}

/// The members of the main-data payload.
pub open spec fn get_main_data_members(g: GetMainData) -> Seq<(Seq<char>, Seq<char>)> {
    seq![("rid"@, i64_text(g.rid as int))]
}

/// Build the main-data request: a JSON payload carrying the response ID.
pub fn get_main_data_request(values: &GetMainData) -> (r: ApiRequest)
    ensures
        r.method == Method::MainData,
        (r.arguments matches Some(Arguments::Json(s)) && s@ == json_object(
            get_main_data_members(*values),
        )),
{
    let mut w = JsonObjectWriter::new();
    w.i64_member("rid", values.rid);
    proof {
        assert(w.members() =~= get_main_data_members(*values));
    }
    ApiRequest { method: Method::MainData, arguments: Some(Arguments::Json(w.finish())) }
}

/// The members of the torrent-peers payload.
pub open spec fn get_peers_data_members(g: GetPeersData) -> Seq<(Seq<char>, Seq<char>)> {
    seq![("hash"@, json_string(g.hash@)), ("rid"@, i64_text(g.rid as int))]
}

/// Build the torrent-peers request: a JSON payload of hash and response ID.
pub fn get_peers_data_request(values: &GetPeersData) -> (r: ApiRequest)
    ensures
        r.method == Method::TorrentPeers,
        (r.arguments matches Some(Arguments::Json(s)) && s@ == json_object(
            get_peers_data_members(*values),
        )),
{
    let mut w = JsonObjectWriter::new();
    w.string_member("hash", values.hash.as_str());
    w.i64_member("rid", values.rid);
    proof {
        assert(w.members() =~= get_peers_data_members(*values));
    }
    ApiRequest { method: Method::TorrentPeers, arguments: Some(Arguments::Json(w.finish())) }
}

/// Interpret a torrent-peers answer: hash-aware policy, text body.
pub fn get_peers_data_response(status: u16, body: &[u8]) -> (r: Result<String, Error>)
    ensures
        r matches Ok(s) ==> (hash_text_result(status, body@) matches Ok(t) && s@ == t),
        r matches Err(e) ==> hash_text_result(status, body@) == Err::<Seq<char>, Error>(e),
{
    hash_text_response(status, body)
}

} // verus!
