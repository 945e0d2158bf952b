//! The log operations.
//!
//! Both log endpoints take a JSON payload and answer with a JSON array of
//! entries. The payloads built here carry every field of the argument
//! struct, in declaration order.

use vstd::prelude::*;

use crate::json::{json_bool, json_object, JsonObjectWriter};
use crate::request::{ApiRequest, Arguments, Method};
use crate::text::i64_text;

verus! {

/// Arguments of the main-log query.
#[derive(Debug, Clone, Copy, PartialEq, Eq, Structural)]
pub struct GetLog {
    /// Include normal messages.
    pub normal: bool,
    /// Include info messages.
    pub info: bool,
    /// Include warning messages.
    pub warning: bool,
    /// Include critical messages.
    pub critical: bool,
    /// Exclude messages whose id is not above this value.
    pub last_known_id: i64,
}

impl Default for GetLog {
    /// Every kind of message, from the beginning.
    fn default() -> (r: Self)
        ensures
            r.normal,
            r.info,
            r.warning,
            r.critical,
            r.last_known_id == -1,
    {
        GetLog { normal: true, info: true, warning: true, critical: true, last_known_id: -1 }
    }
}

/// One entry of the main log.
#[derive(Debug, Clone, PartialEq)]
pub struct LogEntry {
    /// ID of the message.
    pub id: i64,
    /// Text of the message.
    pub message: String,
    /// Milliseconds since epoch.
    pub timestamp: i64,
    /// Kind of the message.
    pub kind: LogType,
}

/// The kind of a log message, carried on the wire as its code.
#[allow(non_camel_case_types)]
#[derive(Debug, Clone, Copy, PartialEq, Eq, Structural)]
pub enum LogType {
    NORMAL,
    INFO,
    WARNING,
    CRITICAL,
}

/// The wire code of each message kind.
pub open spec fn log_type_code(t: LogType) -> u8 {
    match t {
        LogType::NORMAL => 1,
        LogType::INFO => 2,
        LogType::WARNING => 4,
        LogType::CRITICAL => 8,
    }
}

impl LogType {
    /// The code this kind travels as.
    pub fn code(&self) -> (r: u8)
        ensures
            r == log_type_code(*self),
    {
        match self {
            LogType::NORMAL => 1,
            LogType::INFO => 2,
            LogType::WARNING => 4,
            LogType::CRITICAL => 8,
        }
    }

    /// The kind a wire code names, if any.
    pub fn from_code(code: u8) -> (r: Option<LogType>)
        ensures
            r matches Some(t) ==> log_type_code(t) == code,
            r is None ==> code != 1 && code != 2 && code != 4 && code != 8,
    {
        match code {
            1 => Some(LogType::NORMAL),
            2 => Some(LogType::INFO),
            4 => Some(LogType::WARNING),
            8 => Some(LogType::CRITICAL),
            _ => None,
        }
    }
}

/// Arguments of the peer-log query.
#[derive(Debug, Clone, Copy, PartialEq, Eq, Structural)]
pub struct GetPeerLog {
    /// Exclude messages whose id is not above this value.
    pub last_known_id: i64,
}

impl Default for GetPeerLog {
    /// From the beginning.
    fn default() -> (r: Self)
        ensures
            r.last_known_id == -1,
    {
        GetPeerLog { last_known_id: -1 }
    }
}

/// One entry of the peer log.
#[derive(Debug, Clone, PartialEq)]
pub struct LogPeerEntry {
    /// ID of the peer.
    pub id: i64,
    /// IP of the peer.
    pub ip: String,
    /// Milliseconds since epoch.
    pub timestamp: i64,
    /// Whether or not the peer was blocked.
    pub blocked: bool,
    /// Reason of the block.
    pub reason: String,
}

/// The members of the main-log payload, in declaration order.
pub open spec fn get_log_members(g: GetLog) -> Seq<(Seq<char>, Seq<char>)> {
    seq![
        ("normal"@, json_bool(g.normal)),
        ("info"@, json_bool(g.info)),
        ("warning"@, json_bool(g.warning)),
        ("critical"@, json_bool(g.critical)),
        ("last_known_id"@, i64_text(g.last_known_id as int)),
    ]
}

/// Build the main-log request: a JSON payload of every argument field.
pub fn get_log_request(values: &GetLog) -> (r: ApiRequest)
    ensures
        r.method == Method::Main,
        (r.arguments matches Some(Arguments::Json(s)) && s@ == json_object(
            get_log_members(*values),
        )),
{
    let mut w = JsonObjectWriter::new();
    w.bool_member("normal", values.normal);
    w.bool_member("info", values.info);
    w.bool_member("warning", values.warning);
    w.bool_member("critical", values.critical);
    w.i64_member("last_known_id", values.last_known_id);
    proof {
        assert(w.members() =~= get_log_members(*values));
    }
    ApiRequest { method: Method::Main, arguments: Some(Arguments::Json(w.finish())) }
}

/// The members of the peer-log payload.
pub open spec fn get_peer_log_members(g: GetPeerLog) -> Seq<(Seq<char>, Seq<char>)> {
    seq![("last_known_id"@, i64_text(g.last_known_id as int))]
}

/// Build the peer-log request: a JSON payload of the argument field.
pub fn get_peer_log_request(values: &GetPeerLog) -> (r: ApiRequest)
    ensures
        r.method == Method::Peers,
        (r.arguments matches Some(Arguments::Json(s)) && s@ == json_object(
            get_peer_log_members(*values),
        )),
{
    let mut w = JsonObjectWriter::new();
    w.i64_member("last_known_id", values.last_known_id);
    proof {
        assert(w.members() =~= get_peer_log_members(*values));
    }
    ApiRequest { method: Method::Peers, arguments: Some(Arguments::Json(w.finish())) }
}

} // verus!
