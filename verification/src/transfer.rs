//! The transfer operations: global rates, limits and peer bans.

use vstd::prelude::*;
use vstd::string::*;
use vstd::utf8::{decode_utf8, valid_utf8};

use crate::error::Error;
use crate::request::{ApiRequest, Arguments, Method};
use crate::response::{text_response, text_result};
use crate::text::{i64_text, i64_dec, is_i64_literal, literal_val, parse_i64};

verus! {

/// Global transfer info, as the status bar shows it.
#[derive(Debug, Clone, PartialEq)]
pub struct TransferInfo {
    /// Global download rate (bytes/s).
    pub dl_info_speed: i64,
    /// Data downloaded this session (bytes).
    pub dl_info_data: i64,
    /// Global upload rate (bytes/s).
    pub up_info_speed: i64,
    /// Data uploaded this session (bytes).
    pub up_info_data: i64,
    /// Download rate limit (bytes/s).
    pub dl_rate_limit: i64,
    /// Upload rate limit (bytes/s).
    pub up_rate_limit: i64,
    /// DHT nodes connected to.
    pub dht_nodes: i64,
    /// Connection status.
    pub connection_status: ConnectionStatus,
}

/// The connection status, carried on the wire as lower-camel-case text.
#[derive(Debug, Clone, Copy, PartialEq, Eq, Structural)]
pub enum ConnectionStatus {
    Connected,
    Firewalled,
    Disconnected,
}

/// The wire text of each connection status.
pub open spec fn connection_status_text(s: ConnectionStatus) -> Seq<char> {
    match s {
        ConnectionStatus::Connected => "connected"@,
        ConnectionStatus::Firewalled => "firewalled"@,
        ConnectionStatus::Disconnected => "disconnected"@,
    }
}

impl ConnectionStatus {
    /// The text this status travels as.
    pub fn text(&self) -> (r: String)
        ensures
            r@ == connection_status_text(*self),
    {
        match self {
            ConnectionStatus::Connected => "connected".to_owned(),
            ConnectionStatus::Firewalled => "firewalled".to_owned(),
            ConnectionStatus::Disconnected => "disconnected".to_owned(),
        }
    }

    /// The status a wire text names, if any.
    pub fn from_text(s: &str) -> (r: Option<ConnectionStatus>)
        ensures
            (r matches Some(c) ==> connection_status_text(c) == s@),
            r is None ==> s@ != "connected"@ && s@ != "firewalled"@ && s@ != "disconnected"@,
    {
        let t = s.to_owned();
        if t == "connected".to_owned() {
            Some(ConnectionStatus::Connected)
        } else if t == "firewalled".to_owned() {
            Some(ConnectionStatus::Firewalled)
        } else if t == "disconnected".to_owned() {
            Some(ConnectionStatus::Disconnected)
        } else {
            None
        }
    }
}

/// Whether the alternative speed limits are in force, carried on the wire
/// as a plain digit.
#[derive(Debug, Clone, Copy, PartialEq, Eq, Structural)]
pub enum AltSpeedState {
    Disabled,
    Enabled,
}

/// The wire code of each alternative-speed state.
pub open spec fn alt_speed_code(s: AltSpeedState) -> u8 {
    match s {
        AltSpeedState::Disabled => 0,
        AltSpeedState::Enabled => 1,
    }
}

impl AltSpeedState {
    /// The code this state travels as.
    pub fn code(&self) -> (r: u8)
        ensures
            r == alt_speed_code(*self),
    {
        match self {
            AltSpeedState::Disabled => 0,
            AltSpeedState::Enabled => 1,
        }
    }

    /// The state a wire code names, if any.
    pub fn from_code(code: u8) -> (r: Option<AltSpeedState>)
        ensures
            r matches Some(s) ==> alt_speed_code(s) == code,
            r is None ==> code != 0 && code != 1,
    {
        match code {
            0 => Some(AltSpeedState::Disabled),
            1 => Some(AltSpeedState::Enabled),
            _ => None,
        }
    }
}

/// A bare limit value, as some answers carry it.
#[derive(Debug, Clone, Copy, PartialEq, Eq, Structural)]
pub struct Limit {
    limit: i64,
}

/// Build the transfer-info request; it carries no arguments.
pub fn get_transfer_info_request() -> (r: ApiRequest)
    ensures
        r.method == Method::TransferInfo,
        r.arguments is None,
{
    ApiRequest { method: Method::TransferInfo, arguments: None }
}

/// Build the alternative-speed-state request; it carries no arguments.
pub fn get_alt_speed_state_request() -> (r: ApiRequest)
    ensures
        r.method == Method::SpeedLimitsMode,
        r.arguments is None,
{
    ApiRequest { method: Method::SpeedLimitsMode, arguments: None }
}

/// What the alternative-speed-state answer means: the status is judged
/// first; a 200 body must be the single digit of a known state, anything
/// else is a decode failure.
pub open spec fn alt_speed_result(status: u16, body: Seq<u8>) -> Result<AltSpeedState, Error> {
    if status != 200 {
        Err(Error::WrongStatusCode)
    } else if body == seq![48u8] {
        Ok(AltSpeedState::Disabled)
    } else if body == seq![49u8] {
        Ok(AltSpeedState::Enabled)
    } else {
        Err(Error::Json)
    }
}

/// Interpret an alternative-speed-state answer.
pub fn get_alt_speed_state_response(status: u16, body: &[u8]) -> (r: Result<AltSpeedState, Error>)
    ensures
        r == alt_speed_result(status, body@),
{
    if status != 200 {
        return Err(Error::WrongStatusCode);
    }
    if body.len() == 1 {
        let b = body[0];
        if b == 48 {
            proof {
                assert(body@ =~= seq![48u8]);
            }
            return Ok(AltSpeedState::Disabled);
        }
        if b == 49 {
            proof {
                assert(body@ =~= seq![49u8]);
            }
            return Ok(AltSpeedState::Enabled);
        }
    }
    proof {
        assert(body@ != seq![48u8] && body@ != seq![49u8]);
    }
    Err(Error::Json)
}

/// Build the toggle request for the alternative speed limits.
pub fn toggle_alt_speed_request() -> (r: ApiRequest)
    ensures
        r.method == Method::ToggleSpeedLimitsMode,
        r.arguments is None,
{
    ApiRequest { method: Method::ToggleSpeedLimitsMode, arguments: None }
}

/// What a limit answer means: the status is judged first; a 200 body must
/// be UTF-8 decimal text of the limit in bytes per second.
pub open spec fn limit_result(status: u16, body: Seq<u8>) -> Result<i64, Error> {
    if status != 200 {
        Err(Error::WrongStatusCode)
    } else if !valid_utf8(body) {
        Err(Error::BytesToString)
    } else if !is_i64_literal(decode_utf8(body)) {
        Err(Error::StringToInt)
    } else {
        Ok(literal_val(decode_utf8(body)) as i64)
    }
}

/// Interpret a limit answer: decimal text of the limit, zero when no
/// limit is applied.
fn limit_response(status: u16, body: &[u8]) -> (r: Result<i64, Error>)
    ensures
        r == limit_result(status, body@),
{
    let s = match text_response(status, body) {
        Ok(s) => s,
        Err(e) => {
            return Err(e);
        },
    };
    match parse_i64(s.as_str()) {
        Ok(n) => Ok(n),
        Err(e) => Err(e),
    }
}

/// Build the download-limit query; it carries no arguments.
pub fn get_download_limit_request() -> (r: ApiRequest)
    ensures
        r.method == Method::DownloadLimit,
        r.arguments is None,
{
    ApiRequest { method: Method::DownloadLimit, arguments: None }
}

/// Interpret a download-limit answer.
pub fn get_download_limit_response(status: u16, body: &[u8]) -> (r: Result<i64, Error>)
    ensures
        r == limit_result(status, body@),
{
    limit_response(status, body)
}

/// The form body that sets a limit.
pub open spec fn limit_form(n: int) -> Seq<char> {
    "limit="@ + i64_text(n)
}

/// Build the set-download-limit request: a form body with the limit in
/// bytes per second.
pub fn set_download_limit_request(limit: i64) -> (r: ApiRequest)
    ensures
        r.method == Method::SetDownloadLimit,
        (r.arguments matches Some(Arguments::Form(f)) && f@ == limit_form(limit as int)),
{
    let mut f = "limit=".to_owned();
    let d = i64_dec(limit);
    f.append(d.as_str());
    ApiRequest { method: Method::SetDownloadLimit, arguments: Some(Arguments::Form(f)) }
}

/// Build the upload-limit query; it carries no arguments.
pub fn get_upload_limit_request() -> (r: ApiRequest)
    ensures
        r.method == Method::UploadLimit,
        r.arguments is None,
{
    ApiRequest { method: Method::UploadLimit, arguments: None }
}

/// Interpret an upload-limit answer.
pub fn get_upload_limit_response(status: u16, body: &[u8]) -> (r: Result<i64, Error>)
    ensures
        r == limit_result(status, body@),
{
    limit_response(status, body)
}

/// Build the set-upload-limit request: a form body with the limit in
/// bytes per second.
pub fn set_upload_limit_request(limit: i64) -> (r: ApiRequest)
    ensures
        r.method == Method::SetUploadLimit,
        (r.arguments matches Some(Arguments::Form(f)) && f@ == limit_form(limit as int)),
{
    let mut f = "limit=".to_owned();
    let d = i64_dec(limit);
    f.append(d.as_str());
    ApiRequest { method: Method::SetUploadLimit, arguments: Some(Arguments::Form(f)) }
}

/// Build the ban-peers request: the form body is the caller's peer list,
/// sent verbatim.
pub fn ban_peers_request(value: String) -> (r: ApiRequest)
    ensures
        r.method == Method::BanPeers,
        (r.arguments matches Some(Arguments::Form(f)) && f@ == value@),
{
    ApiRequest { method: Method::BanPeers, arguments: Some(Arguments::Form(value)) }
}

/// Interpret a ban-peers answer: default policy, text body.
pub fn ban_peers_response(status: u16, body: &[u8]) -> (r: Result<String, Error>)
    ensures
        r matches Ok(s) ==> (text_result(status, body@) matches Ok(t) && s@ == t),
        r matches Err(e) ==> text_result(status, body@) == Err::<Seq<char>, Error>(e),
{
    text_response(status, body)
}

} // verus!
