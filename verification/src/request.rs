//! The request model and its wire form.
//!
//! A remote operation is named by a [`Method`]; every method has exactly one
//! URL path suffix, fixed by [`path_of`]. An [`ApiRequest`] pairs a method
//! with optional arguments, either pre-encoded JSON text or a verbatim form
//! string. [`Client::request_parts`] turns a request into the plain values a
//! transport needs: the full URL, the cookie to send, and the body text.

use vstd::prelude::*;
use vstd::string::*;

use crate::client::Client;

verus! {

/// One remote operation.
#[derive(Debug, Clone, Copy, PartialEq, Eq, Structural)]
pub enum Method {
    Login,
    Logout,
    Version,
    WebapiVersion,
    BuildInfo,
    Shutdown,
    Preferences,
    SetPreferences,
    DefaultSavePath,
    Main,
    Peers,
    MainData,
    TorrentPeers,
    TransferInfo,
    SpeedLimitsMode,
    ToggleSpeedLimitsMode,
    DownloadLimit,
    SetDownloadLimit,
    UploadLimit,
    SetUploadLimit,
    BanPeers,
    TorrentsInfo,
    Properties,
    Trackers,
    Webseeds,
    Files,
    PieceStates,
    PieceHashes,
    Pause,
    Resume,
    Delete,
    Recheck,
    Reannounce,
    Add,
}

/// The URL path suffix of each operation. The mapping is total: every
/// method has exactly one path, and it never changes at runtime.
pub open spec fn path_of(m: Method) -> Seq<char> {
    match m {
        Method::Login => "auth/login"@,
        Method::Logout => "auth/logout"@,
        Method::Version => "app/version"@,
        Method::WebapiVersion => "app/webapiVersion"@,
        Method::BuildInfo => "app/buildInfo"@,
        Method::Shutdown => "app/shutdown"@,
        Method::Preferences => "app/preferences"@,
        Method::SetPreferences => "app/setPreferences"@,
        Method::DefaultSavePath => "app/defaultSavePath"@,
        Method::Main => "log/main"@,
        Method::Peers => "log/peers"@,
        Method::MainData => "sync/maindata"@,
        Method::TorrentPeers => "sync/torrentPeers"@,
        Method::TransferInfo => "transfer/info"@,
        Method::SpeedLimitsMode => "transfer/speedLimitsMode"@,
        Method::ToggleSpeedLimitsMode => "transfer/toggleSpeedLimitsMode"@,
        Method::DownloadLimit => "transfer/downloadLimit"@,
        Method::SetDownloadLimit => "transfer/setDownloadLimit"@,
        Method::UploadLimit => "transfer/uploadLimit"@,
        Method::SetUploadLimit => "transfer/setUploadLimit"@,
        Method::BanPeers => "transfer/banPeers"@,
        Method::TorrentsInfo => "torrents/info"@,
        Method::Properties => "torrents/properties"@,
        Method::Trackers => "torrents/trackers"@,
        Method::Webseeds => "torrents/webseeds"@,
        Method::Files => "torrents/files"@,
        Method::PieceStates => "torrents/pieceStates"@,
        Method::PieceHashes => "torrents/pieceHashes"@,
        Method::Pause => "torrents/pause"@,
        Method::Resume => "torrents/resume"@,
        Method::Delete => "torrents/delete"@,
        Method::Recheck => "torrents/recheck"@,
        Method::Reannounce => "torrents/reannounce"@,
        Method::Add => "torrents/add"@,
    }
}

impl Method {
    /// The URL path suffix of this operation.
    pub fn path(&self) -> (r: String)
        ensures
            r@ == path_of(*self),
    {
        match self {
            Method::Login => "auth/login".to_owned(),
            Method::Logout => "auth/logout".to_owned(),
            Method::Version => "app/version".to_owned(),
            Method::WebapiVersion => "app/webapiVersion".to_owned(),
            Method::BuildInfo => "app/buildInfo".to_owned(),
            Method::Shutdown => "app/shutdown".to_owned(),
            Method::Preferences => "app/preferences".to_owned(),
            Method::SetPreferences => "app/setPreferences".to_owned(),
            Method::DefaultSavePath => "app/defaultSavePath".to_owned(),
            Method::Main => "log/main".to_owned(),
            Method::Peers => "log/peers".to_owned(),
            Method::MainData => "sync/maindata".to_owned(),
            Method::TorrentPeers => "sync/torrentPeers".to_owned(),
            Method::TransferInfo => "transfer/info".to_owned(),
            Method::SpeedLimitsMode => "transfer/speedLimitsMode".to_owned(),
            Method::ToggleSpeedLimitsMode => "transfer/toggleSpeedLimitsMode".to_owned(),
            Method::DownloadLimit => "transfer/downloadLimit".to_owned(),
            Method::SetDownloadLimit => "transfer/setDownloadLimit".to_owned(),
            Method::UploadLimit => "transfer/uploadLimit".to_owned(),
            Method::SetUploadLimit => "transfer/setUploadLimit".to_owned(),
            Method::BanPeers => "transfer/banPeers".to_owned(),
            Method::TorrentsInfo => "torrents/info".to_owned(),
            Method::Properties => "torrents/properties".to_owned(),
            Method::Trackers => "torrents/trackers".to_owned(),
            Method::Webseeds => "torrents/webseeds".to_owned(),
            Method::Files => "torrents/files".to_owned(),
            Method::PieceStates => "torrents/pieceStates".to_owned(),
            Method::PieceHashes => "torrents/pieceHashes".to_owned(),
            Method::Pause => "torrents/pause".to_owned(),
            Method::Resume => "torrents/resume".to_owned(),
            Method::Recheck => "torrents/recheck".to_owned(),
            Method::Delete => "torrents/delete".to_owned(),
            Method::Reannounce => "torrents/reannounce".to_owned(),
            Method::Add => "torrents/add".to_owned(),
        }
    }
}

/// A request's arguments: either JSON text or a verbatim form string.
pub enum Arguments {
    /// A pre-encoded JSON payload, sent as-is.
    Json(String),
    /// A form string, used verbatim as the body.
    Form(String),
}

/// One request: an operation plus optional arguments. Constructed per
/// call and discarded after dispatch.
pub struct ApiRequest {
    pub method: Method,
    pub arguments: Option<Arguments>,
}

/// The body text a request's arguments declare: JSON text or the form
/// string verbatim; no arguments means an empty body.
pub open spec fn body_of(arguments: Option<Arguments>) -> Seq<char> {
    match arguments {
        Option::None => Seq::empty(),
        Option::Some(Arguments::Json(s)) => s@,
        Option::Some(Arguments::Form(s)) => s@,
    }
}

/// Everything a transport needs to dispatch one request, as plain values.
pub struct RequestParts {
    /// The full URL: the client's base followed by the operation's path.
    pub url: String,
    /// The session cookie to carry; sent even when empty.
    pub cookie: String,
    /// The Origin header value derived from the base URL.
    pub origin: String,
    /// The request body.
    pub body: String,
}

impl Client {
    /// Turn a request into transport values.
    ///
    /// The URL is the base joined with the operation's fixed path, the
    /// cookie and origin are the session's current values, and the body is
    /// exactly the declared encoding of the arguments.
    pub fn request_parts(&self, input: &ApiRequest) -> (r: RequestParts)
        ensures
            r.url@ == self.base_url@ + path_of(input.method),
            r.cookie@ == self.cookie@,
            r.origin@ == self.origin@,
            r.body@ == body_of(input.arguments),
    {
        let mut url = self.base_url().clone();
        let path = input.method.path();
        url.append(path.as_str());
        let body = match &input.arguments {
            Option::Some(Arguments::Json(s)) => s.clone(),
            Option::Some(Arguments::Form(s)) => s.clone(),
            Option::None => String::new(),
        };
        RequestParts {
            url,
            cookie: self.cookie().clone(),
            origin: self.origin().clone(),
            body,
        }
    }
}

} // verus!
