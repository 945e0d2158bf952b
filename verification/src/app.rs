//! The application operations: version, build info, preferences and the
//! default save path.
//!
//! The preferences record mirrors the remote schema field for field; every
//! field is optional, and an absent field is omitted entirely from the
//! update payload — never encoded as null — since the remote treats
//! presence as "change" and absence as "leave unchanged". Two fields are
//! modeled as plain values the verifier can hold: the share ratio limit
//! travels as its decimal text, spliced into the payload as a JSON
//! number, and the watched-directory map is a vector of pairs, written in
//! its own order.

use vstd::prelude::*;

use crate::error::Error;
use crate::json::{
    json_escape, json_object, opt_bool_m, opt_i64_m, opt_raw_m, opt_string_m, JsonObjectWriter,
};
use crate::request::{ApiRequest, Arguments, Method};
use crate::response::{text_response, text_result};
use crate::text::i64_text;

verus! {

/// What the remote was built with.
#[derive(Debug, Clone, PartialEq)]
pub struct BuildInfo {
    /// QT version.
    pub qt: String,
    /// libtorrent version.
    pub libtorrent: String,
    /// Boost version.
    pub boost: String,
    /// OpenSSL version.
    pub openssl: String,
    /// Application bitness, e.g. 64.
    pub bitness: i64,
}

/// Where torrents from a watched directory go, carried as a code.
#[derive(Debug, Clone, Copy, PartialEq, Eq, Structural)]
pub enum ScanDir {
    /// Download to the monitored folder.
    Zero,
    /// Download to the default save path.
    One,
}

/// The wire code of each variant.
pub open spec fn scan_dir_code(x: ScanDir) -> u8 {
    match x {
        ScanDir::Zero => 0,
        ScanDir::One => 1,
    }
}

/// The code an optional field travels as; an absent field stays absent.
pub open spec fn scan_dir_code_opt(o: Option<ScanDir>) -> Option<i64> {
    match o {
        Option::Some(x) => Option::Some(scan_dir_code(x) as i64),
        Option::None => Option::None,
    }
}

impl ScanDir {
    /// The code this value travels as.
    pub fn code(&self) -> (r: u8)
        ensures
            r == scan_dir_code(*self),
    {
        match self {
            ScanDir::Zero => 0,
            ScanDir::One => 1,
        }
    }

    /// The value a wire code names, if any.
    pub fn from_code(code: u8) -> (r: Option<ScanDir>)
        ensures
            r matches Some(x) ==> scan_dir_code(x) == code,
            r is None ==> code > 1,
    {
        match code {
            0 => Some(ScanDir::Zero),
            1 => Some(ScanDir::One),
            _ => None,
        }
    }
}

/// The days a schedule applies to, carried as a code.
#[derive(Debug, Clone, Copy, PartialEq, Eq, Structural)]
pub enum SchedulerDays {
    EveryDay,
    EveryWeekday,
    EveryWeekend,
    EveryMonday,
    EveryTuesday,
    EveryWednesday,
    EveryThursday,
    EveryFriday,
    EverySaturday,
    EverySunday,
}

/// The wire code of each variant.
pub open spec fn scheduler_days_code(x: SchedulerDays) -> u8 {
    match x {
        SchedulerDays::EveryDay => 0,
        SchedulerDays::EveryWeekday => 1,
        SchedulerDays::EveryWeekend => 2,
        SchedulerDays::EveryMonday => 3,
        SchedulerDays::EveryTuesday => 4,
        SchedulerDays::EveryWednesday => 5,
        SchedulerDays::EveryThursday => 6,
        SchedulerDays::EveryFriday => 7,
        SchedulerDays::EverySaturday => 8,
        SchedulerDays::EverySunday => 9,
    }
}

/// The code an optional field travels as; an absent field stays absent.
pub open spec fn scheduler_days_code_opt(o: Option<SchedulerDays>) -> Option<i64> {
    match o {
        Option::Some(x) => Option::Some(scheduler_days_code(x) as i64),
        Option::None => Option::None,
    }
}

impl SchedulerDays {
    /// The code this value travels as.
    pub fn code(&self) -> (r: u8)
        ensures
            r == scheduler_days_code(*self),
    {
        match self {
            SchedulerDays::EveryDay => 0,
            SchedulerDays::EveryWeekday => 1,
            SchedulerDays::EveryWeekend => 2,
            SchedulerDays::EveryMonday => 3,
            SchedulerDays::EveryTuesday => 4,
            SchedulerDays::EveryWednesday => 5,
            SchedulerDays::EveryThursday => 6,
            SchedulerDays::EveryFriday => 7,
            SchedulerDays::EverySaturday => 8,
            SchedulerDays::EverySunday => 9,
        }
    }

    /// The value a wire code names, if any.
    pub fn from_code(code: u8) -> (r: Option<SchedulerDays>)
        ensures
            r matches Some(x) ==> scheduler_days_code(x) == code,
            r is None ==> code > 9,
    {
        match code {
            0 => Some(SchedulerDays::EveryDay),
            1 => Some(SchedulerDays::EveryWeekday),
            2 => Some(SchedulerDays::EveryWeekend),
            3 => Some(SchedulerDays::EveryMonday),
            4 => Some(SchedulerDays::EveryTuesday),
            5 => Some(SchedulerDays::EveryWednesday),
            6 => Some(SchedulerDays::EveryThursday),
            7 => Some(SchedulerDays::EveryFriday),
            8 => Some(SchedulerDays::EverySaturday),
            9 => Some(SchedulerDays::EverySunday),
            _ => None,
        }
    }
}

/// The encryption policy, carried as a code.
#[derive(Debug, Clone, Copy, PartialEq, Eq, Structural)]
pub enum Encryption {
    /// Encrypted and plain connections are both allowed.
    PreferEncryption,
    /// Only encrypted connections.
    ForceEncryptionOn,
    /// Only plain connections.
    ForceEncryptionOff,
}

/// The wire code of each variant.
pub open spec fn encryption_code(x: Encryption) -> u8 {
    match x {
        Encryption::PreferEncryption => 0,
        Encryption::ForceEncryptionOn => 1,
        Encryption::ForceEncryptionOff => 2,
    }
}

/// The code an optional field travels as; an absent field stays absent.
pub open spec fn encryption_code_opt(o: Option<Encryption>) -> Option<i64> {
    match o {
        Option::Some(x) => Option::Some(encryption_code(x) as i64),
        Option::None => Option::None,
    }
}

impl Encryption {
    /// The code this value travels as.
    pub fn code(&self) -> (r: u8)
        ensures
            r == encryption_code(*self),
    {
        match self {
            Encryption::PreferEncryption => 0,
            Encryption::ForceEncryptionOn => 1,
            Encryption::ForceEncryptionOff => 2,
        }
    }

    /// The value a wire code names, if any.
    pub fn from_code(code: u8) -> (r: Option<Encryption>)
        ensures
            r matches Some(x) ==> encryption_code(x) == code,
            r is None ==> code > 2,
    {
        match code {
            0 => Some(Encryption::PreferEncryption),
            1 => Some(Encryption::ForceEncryptionOn),
            2 => Some(Encryption::ForceEncryptionOff),
            _ => None,
        }
    }
}

/// The proxy kind, carried as a code.
#[derive(Debug, Clone, Copy, PartialEq, Eq, Structural)]
pub enum ProxyType {
    /// Proxy is disabled.
    Disabled,
    /// HTTP proxy without authentication.
    HttpNoAuth,
    /// SOCKS5 proxy without authentication.
    Socks5NoAuth,
    /// HTTP proxy with authentication.
    HttpAuth,
    /// SOCKS5 proxy with authentication.
    Socks5Auth,
    /// SOCKS4 proxy without authentication.
    Socks4NoAuth,
}

/// The wire code of each variant.
pub open spec fn proxy_type_code(x: ProxyType) -> u8 {
    match x {
        ProxyType::Disabled => 0,
        ProxyType::HttpNoAuth => 1,
        ProxyType::Socks5NoAuth => 2,
        ProxyType::HttpAuth => 3,
        ProxyType::Socks5Auth => 4,
        ProxyType::Socks4NoAuth => 5,
    }
}

/// The code an optional field travels as; an absent field stays absent.
pub open spec fn proxy_type_code_opt(o: Option<ProxyType>) -> Option<i64> {
    match o {
        Option::Some(x) => Option::Some(proxy_type_code(x) as i64),
        Option::None => Option::None,
    }
}

impl ProxyType {
    /// The code this value travels as.
    pub fn code(&self) -> (r: u8)
        ensures
            r == proxy_type_code(*self),
    {
        match self {
            ProxyType::Disabled => 0,
            ProxyType::HttpNoAuth => 1,
            ProxyType::Socks5NoAuth => 2,
            ProxyType::HttpAuth => 3,
            ProxyType::Socks5Auth => 4,
            ProxyType::Socks4NoAuth => 5,
        }
    }

    /// The value a wire code names, if any.
    pub fn from_code(code: u8) -> (r: Option<ProxyType>)
        ensures
            r matches Some(x) ==> proxy_type_code(x) == code,
            r is None ==> code > 5,
    {
        match code {
            0 => Some(ProxyType::Disabled),
            1 => Some(ProxyType::HttpNoAuth),
            2 => Some(ProxyType::Socks5NoAuth),
            3 => Some(ProxyType::HttpAuth),
            4 => Some(ProxyType::Socks5Auth),
            5 => Some(ProxyType::Socks4NoAuth),
            _ => None,
        }
    }
}

/// The dynamic DNS service, carried as a code.
#[allow(non_camel_case_types)]
#[derive(Debug, Clone, Copy, PartialEq, Eq, Structural)]
pub enum DyndnsService {
    DyDNS,
    NOIP,
}

/// The wire code of each variant.
pub open spec fn dyndns_service_code(x: DyndnsService) -> u8 {
    match x {
        DyndnsService::DyDNS => 0,
        DyndnsService::NOIP => 1,
    }
}

/// The code an optional field travels as; an absent field stays absent.
pub open spec fn dyndns_service_code_opt(o: Option<DyndnsService>) -> Option<i64> {
    match o {
        Option::Some(x) => Option::Some(dyndns_service_code(x) as i64),
        Option::None => Option::None,
    }
}

impl DyndnsService {
    /// The code this value travels as.
    pub fn code(&self) -> (r: u8)
        ensures
            r == dyndns_service_code(*self),
    {
        match self {
            DyndnsService::DyDNS => 0,
            DyndnsService::NOIP => 1,
        }
    }

    /// The value a wire code names, if any.
    pub fn from_code(code: u8) -> (r: Option<DyndnsService>)
        ensures
            r matches Some(x) ==> dyndns_service_code(x) == code,
            r is None ==> code > 1,
    {
        match code {
            0 => Some(DyndnsService::DyDNS),
            1 => Some(DyndnsService::NOIP),
            _ => None,
        }
    }
}

/// What happens when a torrent reaches its share ratio limit.
#[derive(Debug, Clone, Copy, PartialEq, Eq, Structural)]
pub enum MaxRatioAct {
    Pause,
    Remove,
}

/// The wire code of each variant.
pub open spec fn max_ratio_act_code(x: MaxRatioAct) -> u8 {
    match x {
        MaxRatioAct::Pause => 0,
        MaxRatioAct::Remove => 1,
    }
}

/// The code an optional field travels as; an absent field stays absent.
pub open spec fn max_ratio_act_code_opt(o: Option<MaxRatioAct>) -> Option<i64> {
    match o {
        Option::Some(x) => Option::Some(max_ratio_act_code(x) as i64),
        Option::None => Option::None,
    }
}

impl MaxRatioAct {
    /// The code this value travels as.
    pub fn code(&self) -> (r: u8)
        ensures
            r == max_ratio_act_code(*self),
    {
        match self {
            MaxRatioAct::Pause => 0,
            MaxRatioAct::Remove => 1,
        }
    }

    /// The value a wire code names, if any.
    pub fn from_code(code: u8) -> (r: Option<MaxRatioAct>)
        ensures
            r matches Some(x) ==> max_ratio_act_code(x) == code,
            r is None ==> code > 1,
    {
        match code {
            0 => Some(MaxRatioAct::Pause),
            1 => Some(MaxRatioAct::Remove),
            _ => None,
        }
    }
}

/// The transport protocol to use, carried as a code.
#[allow(non_camel_case_types)]
#[derive(Debug, Clone, Copy, PartialEq, Eq, Structural)]
pub enum BittorrentProtocol {
    Both,
    TCP,
    UTP,
}

/// The wire code of each variant.
pub open spec fn bittorrent_protocol_code(x: BittorrentProtocol) -> u8 {
    match x {
        BittorrentProtocol::Both => 0,
        BittorrentProtocol::TCP => 1,
        BittorrentProtocol::UTP => 2,
    }
}

/// The code an optional field travels as; an absent field stays absent.
pub open spec fn bittorrent_protocol_code_opt(o: Option<BittorrentProtocol>) -> Option<i64> {
    match o {
        Option::Some(x) => Option::Some(bittorrent_protocol_code(x) as i64),
        Option::None => Option::None,
    }
}

impl BittorrentProtocol {
    /// The code this value travels as.
    pub fn code(&self) -> (r: u8)
        ensures
            r == bittorrent_protocol_code(*self),
    {
        match self {
            BittorrentProtocol::Both => 0,
            BittorrentProtocol::TCP => 1,
            BittorrentProtocol::UTP => 2,
        }
    }

    /// The value a wire code names, if any.
    pub fn from_code(code: u8) -> (r: Option<BittorrentProtocol>)
        ensures
            r matches Some(x) ==> bittorrent_protocol_code(x) == code,
            r is None ==> code > 2,
    {
        match code {
            0 => Some(BittorrentProtocol::Both),
            1 => Some(BittorrentProtocol::TCP),
            2 => Some(BittorrentProtocol::UTP),
            _ => None,
        }
    }
}

/// The upload choking algorithm, carried as a code.
#[derive(Debug, Clone, Copy, PartialEq, Eq, Structural)]
pub enum UploadChokingAlgorithm {
    RoundRobin,
    FastestUpload,
    AntiLeech,
}

/// The wire code of each variant.
pub open spec fn upload_choking_algorithm_code(x: UploadChokingAlgorithm) -> u8 {
    match x {
        UploadChokingAlgorithm::RoundRobin => 0,
        UploadChokingAlgorithm::FastestUpload => 1,
        UploadChokingAlgorithm::AntiLeech => 2,
    }
}

/// The code an optional field travels as; an absent field stays absent.
pub open spec fn upload_choking_algorithm_code_opt(o: Option<UploadChokingAlgorithm>) -> Option<i64> {
    match o {
        Option::Some(x) => Option::Some(upload_choking_algorithm_code(x) as i64),
        Option::None => Option::None,
    }
}

impl UploadChokingAlgorithm {
    /// The code this value travels as.
    pub fn code(&self) -> (r: u8)
        ensures
            r == upload_choking_algorithm_code(*self),
    {
        match self {
            UploadChokingAlgorithm::RoundRobin => 0,
            UploadChokingAlgorithm::FastestUpload => 1,
            UploadChokingAlgorithm::AntiLeech => 2,
        }
    }

    /// The value a wire code names, if any.
    pub fn from_code(code: u8) -> (r: Option<UploadChokingAlgorithm>)
        ensures
            r matches Some(x) ==> upload_choking_algorithm_code(x) == code,
            r is None ==> code > 2,
    {
        match code {
            0 => Some(UploadChokingAlgorithm::RoundRobin),
            1 => Some(UploadChokingAlgorithm::FastestUpload),
            2 => Some(UploadChokingAlgorithm::AntiLeech),
            _ => None,
        }
    }
}

/// How upload slots are granted, carried as a code.
#[derive(Debug, Clone, Copy, PartialEq, Eq, Structural)]
pub enum UploadSlotsBehavior {
    FixedSlots,
    UploadRateBased,
}

/// The wire code of each variant.
pub open spec fn upload_slots_behavior_code(x: UploadSlotsBehavior) -> u8 {
    match x {
        UploadSlotsBehavior::FixedSlots => 0,
        UploadSlotsBehavior::UploadRateBased => 1,
    }
}

/// The code an optional field travels as; an absent field stays absent.
pub open spec fn upload_slots_behavior_code_opt(o: Option<UploadSlotsBehavior>) -> Option<i64> {
    match o {
        Option::Some(x) => Option::Some(upload_slots_behavior_code(x) as i64),
        Option::None => Option::None,
    }
}

impl UploadSlotsBehavior {
    /// The code this value travels as.
    pub fn code(&self) -> (r: u8)
        ensures
            r == upload_slots_behavior_code(*self),
    {
        match self {
            UploadSlotsBehavior::FixedSlots => 0,
            UploadSlotsBehavior::UploadRateBased => 1,
        }
    }

    /// The value a wire code names, if any.
    pub fn from_code(code: u8) -> (r: Option<UploadSlotsBehavior>)
        ensures
            r matches Some(x) ==> upload_slots_behavior_code(x) == code,
            r is None ==> code > 1,
    {
        match code {
            0 => Some(UploadSlotsBehavior::FixedSlots),
            1 => Some(UploadSlotsBehavior::UploadRateBased),
            _ => None,
        }
    }
}

/// The mixed-mode algorithm for TCP alongside uTP.
#[allow(non_camel_case_types)]
#[derive(Debug, Clone, Copy, PartialEq, Eq, Structural)]
pub enum UtpTcpMixedMode {
    PreferTCP,
    PeerProportional,
}

/// The wire code of each variant.
pub open spec fn utp_tcp_mixed_mode_code(x: UtpTcpMixedMode) -> u8 {
    match x {
        UtpTcpMixedMode::PreferTCP => 0,
        UtpTcpMixedMode::PeerProportional => 1,
    }
}

/// The code an optional field travels as; an absent field stays absent.
pub open spec fn utp_tcp_mixed_mode_code_opt(o: Option<UtpTcpMixedMode>) -> Option<i64> {
    match o {
        Option::Some(x) => Option::Some(utp_tcp_mixed_mode_code(x) as i64),
        Option::None => Option::None,
    }
}

impl UtpTcpMixedMode {
    /// The code this value travels as.
    pub fn code(&self) -> (r: u8)
        ensures
            r == utp_tcp_mixed_mode_code(*self),
    {
        match self {
            UtpTcpMixedMode::PreferTCP => 0,
            UtpTcpMixedMode::PeerProportional => 1,
        }
    }

    /// The value a wire code names, if any.
    pub fn from_code(code: u8) -> (r: Option<UtpTcpMixedMode>)
        ensures
            r matches Some(x) ==> utp_tcp_mixed_mode_code(x) == code,
            r is None ==> code > 1,
    {
        match code {
            0 => Some(UtpTcpMixedMode::PreferTCP),
            1 => Some(UtpTcpMixedMode::PeerProportional),
            _ => None,
        }
    }
}

/// The application's settings, mirrored field for field from the
/// remote schema. Every field is optional; absent fields are omitted
/// from the update payload entirely.
#[derive(Debug, Clone, PartialEq)]
pub struct Preferences {
    pub locale: Option<String>,
    pub create_subfolder_enabled: Option<bool>,
    pub start_paused_enabled: Option<bool>,
    pub auto_delete_mode: Option<i64>,
    pub preallocate_all: Option<bool>,
    pub incomplete_files_ext: Option<bool>,
    pub auto_tmm_enabled: Option<bool>,
    pub torrent_changed_tmm_enabled: Option<bool>,
    pub save_path_changed_tmm_enabled: Option<bool>,
    pub category_changed_tmm_enabled: Option<bool>,
    pub save_path: Option<String>,
    pub temp_path_enabled: Option<bool>,
    pub temp_path: Option<String>,
    /// Directories watched for torrent files, each with where its
    /// torrents go; written to the payload as a nested object in this
    /// vector's order.
    pub scan_dirs: Option<Vec<(String, ScanDir)>>,
    pub export_dir: Option<String>,
    pub export_dir_fin: Option<String>,
    pub mail_notification_enabled: Option<bool>,
    pub mail_notification_sender: Option<String>,
    pub mail_notification_email: Option<String>,
    pub mail_notification_smtp: Option<String>,
    pub mail_notification_ssl_enabled: Option<bool>,
    pub mail_notification_auth_enabled: Option<bool>,
    pub mail_notification_username: Option<String>,
    pub mail_notification_password: Option<String>,
    pub autorun_enabled: Option<bool>,
    pub autorun_program: Option<String>,
    pub queueing_enabled: Option<bool>,
    pub max_active_downloads: Option<i64>,
    pub max_active_torrents: Option<i64>,
    pub max_active_uploads: Option<i64>,
    pub dont_count_slow_torrents: Option<bool>,
    pub slow_torrent_dl_rate_threshold: Option<i64>,
    pub slow_torrent_ul_rate_threshold: Option<i64>,
    pub slow_torrent_inactive_timer: Option<i64>,
    pub max_ratio_enabled: Option<bool>,
    /// Share ratio limit, as the decimal text of the number; it is
    /// spliced into the payload as a JSON number.
    pub max_ratio: Option<String>,
    pub max_ratio_act: Option<MaxRatioAct>,
    pub listen_port: Option<i64>,
    pub upnp: Option<bool>,
    pub random_port: Option<bool>,
    pub dl_limit: Option<i64>,
    pub up_limit: Option<i64>,
    pub max_connec: Option<i64>,
    pub max_connec_per_torrent: Option<i64>,
    pub max_uploads: Option<i64>,
    pub max_uploads_per_torrent: Option<i64>,
    pub stop_tracker_timeout: Option<i64>,
    pub enable_piece_extent_affinity: Option<bool>,
    pub bittorrent_protocol: Option<BittorrentProtocol>,
    pub limit_utp_rate: Option<bool>,
    pub limit_tcp_overhead: Option<bool>,
    pub limit_lan_peers: Option<bool>,
    pub alt_dl_limit: Option<i64>,
    pub alt_up_limit: Option<i64>,
    pub scheduler_enabled: Option<bool>,
    pub schedule_from_hour: Option<i64>,
    pub schedule_from_min: Option<i64>,
    pub schedule_to_hour: Option<i64>,
    pub schedule_to_min: Option<i64>,
    pub scheduler_days: Option<SchedulerDays>,
    pub dht: Option<bool>,
    pub pex: Option<bool>,
    pub lsd: Option<bool>,
    pub encryption: Option<Encryption>,
    pub anonymous_mode: Option<bool>,
    pub proxy_type: Option<ProxyType>,
    pub proxy_ip: Option<String>,
    pub proxy_port: Option<i64>,
    pub proxy_peer_connections: Option<bool>,
    pub proxy_auth_enabled: Option<bool>,
    pub proxy_username: Option<String>,
    pub proxy_password: Option<String>,
    pub proxy_torrents_only: Option<bool>,
    pub ip_filter_enabled: Option<bool>,
    pub ip_filter_path: Option<String>,
    pub ip_filter_trackers: Option<bool>,
    pub web_ui_domain_list: Option<String>,
    pub web_ui_address: Option<String>,
    pub web_ui_port: Option<i64>,
    pub web_ui_upnp: Option<bool>,
    pub web_ui_username: Option<String>,
    pub web_ui_password: Option<String>,
    pub web_ui_csrf_protection_enabled: Option<bool>,
    pub web_ui_clickjacking_protection_enabled: Option<bool>,
    pub web_ui_secure_cookie_enabled: Option<bool>,
    pub web_ui_max_auth_fail_count: Option<i64>,
    pub web_ui_ban_duration: Option<i64>,
    pub web_ui_session_timeout: Option<i64>,
    pub web_ui_host_header_validation_enabled: Option<bool>,
    pub bypass_local_auth: Option<bool>,
    pub bypass_auth_subnet_whitelist_enabled: Option<bool>,
    pub bypass_auth_subnet_whitelist: Option<String>,
    pub alternative_webui_enabled: Option<bool>,
    pub alternative_webui_path: Option<String>,
    pub use_https: Option<bool>,
    pub ssl_key: Option<String>,
    pub ssl_cert: Option<String>,
    pub web_ui_https_key_path: Option<String>,
    pub web_ui_https_cert_path: Option<String>,
    pub dyndns_enabled: Option<bool>,
    pub dyndns_service: Option<DyndnsService>,
    pub dyndns_username: Option<String>,
    pub dyndns_password: Option<String>,
    pub dyndns_domain: Option<String>,
    pub rss_refresh_interval: Option<i64>,
    pub rss_max_articles_per_feed: Option<i64>,
    pub rss_processing_enabled: Option<bool>,
    pub rss_auto_downloading_enabled: Option<bool>,
    pub rss_download_repack_proper_episodes: Option<bool>,
    pub rss_smart_episode_filters: Option<String>,
    pub add_trackers_enabled: Option<bool>,
    pub add_trackers: Option<String>,
    pub web_ui_use_custom_http_headers_enabled: Option<bool>,
    pub web_ui_custom_http_headers: Option<String>,
    pub max_seeding_time_enabled: Option<bool>,
    pub max_seeding_time: Option<i64>,
    pub announce_ip: Option<String>,
    pub announce_to_all_tiers: Option<bool>,
    pub announce_to_all_trackers: Option<bool>,
    pub async_io_threads: Option<i64>,
    pub banned_ips: Option<String>,
    pub checking_memory_use: Option<i64>,
    pub current_interface_address: Option<String>,
    pub current_network_interface: Option<String>,
    pub disk_cache: Option<i64>,
    pub disk_cache_ttl: Option<i64>,
    pub embedded_tracker_port: Option<i64>,
    pub enable_coalesce_read_write: Option<bool>,
    pub enable_embedded_tracker: Option<bool>,
    pub enable_multi_connections_from_same_ip: Option<bool>,
    pub enable_os_cache: Option<bool>,
    pub enable_upload_suggestions: Option<bool>,
    pub file_pool_size: Option<i64>,
    pub outgoing_ports_max: Option<i64>,
    pub outgoing_ports_min: Option<i64>,
    pub recheck_completed_torrents: Option<bool>,
    pub resolve_peer_countries: Option<bool>,
    pub save_resume_data_interval: Option<i64>,
    pub send_buffer_low_watermark: Option<i64>,
    pub send_buffer_watermark: Option<i64>,
    pub send_buffer_watermark_factor: Option<i64>,
    pub socket_backlog_size: Option<i64>,
    pub upload_choking_algorithm: Option<UploadChokingAlgorithm>,
    pub upload_slots_behavior: Option<UploadSlotsBehavior>,
    pub upnp_lease_duration: Option<i64>,
    pub utp_tcp_mixed_mode: Option<UtpTcpMixedMode>,
}

/// A preferences record with every field absent: an update that
/// changes nothing.
pub open spec fn empty_preferences() -> Preferences {
    Preferences {
        locale: Option::None,
        create_subfolder_enabled: Option::None,
        start_paused_enabled: Option::None,
        auto_delete_mode: Option::None,
        preallocate_all: Option::None,
        incomplete_files_ext: Option::None,
        auto_tmm_enabled: Option::None,
        torrent_changed_tmm_enabled: Option::None,
        save_path_changed_tmm_enabled: Option::None,
        category_changed_tmm_enabled: Option::None,
        save_path: Option::None,
        temp_path_enabled: Option::None,
        temp_path: Option::None,
        scan_dirs: Option::None,
        export_dir: Option::None,
        export_dir_fin: Option::None,
        mail_notification_enabled: Option::None,
        mail_notification_sender: Option::None,
        mail_notification_email: Option::None,
        mail_notification_smtp: Option::None,
        mail_notification_ssl_enabled: Option::None,
        mail_notification_auth_enabled: Option::None,
        mail_notification_username: Option::None,
        mail_notification_password: Option::None,
        autorun_enabled: Option::None,
        autorun_program: Option::None,
        queueing_enabled: Option::None,
        max_active_downloads: Option::None,
        max_active_torrents: Option::None,
        max_active_uploads: Option::None,
        dont_count_slow_torrents: Option::None,
        slow_torrent_dl_rate_threshold: Option::None,
        slow_torrent_ul_rate_threshold: Option::None,
        slow_torrent_inactive_timer: Option::None,
        max_ratio_enabled: Option::None,
        max_ratio: Option::None,
        max_ratio_act: Option::None,
        listen_port: Option::None,
        upnp: Option::None,
        random_port: Option::None,
        dl_limit: Option::None,
        up_limit: Option::None,
        max_connec: Option::None,
        max_connec_per_torrent: Option::None,
        max_uploads: Option::None,
        max_uploads_per_torrent: Option::None,
        stop_tracker_timeout: Option::None,
        enable_piece_extent_affinity: Option::None,
        bittorrent_protocol: Option::None,
        limit_utp_rate: Option::None,
        limit_tcp_overhead: Option::None,
        limit_lan_peers: Option::None,
        alt_dl_limit: Option::None,
        alt_up_limit: Option::None,
        scheduler_enabled: Option::None,
        schedule_from_hour: Option::None,
        schedule_from_min: Option::None,
        schedule_to_hour: Option::None,
        schedule_to_min: Option::None,
        scheduler_days: Option::None,
        dht: Option::None,
        pex: Option::None,
        lsd: Option::None,
        encryption: Option::None,
        anonymous_mode: Option::None,
        proxy_type: Option::None,
        proxy_ip: Option::None,
        proxy_port: Option::None,
        proxy_peer_connections: Option::None,
        proxy_auth_enabled: Option::None,
        proxy_username: Option::None,
        proxy_password: Option::None,
        proxy_torrents_only: Option::None,
        ip_filter_enabled: Option::None,
        ip_filter_path: Option::None,
        ip_filter_trackers: Option::None,
        web_ui_domain_list: Option::None,
        web_ui_address: Option::None,
        web_ui_port: Option::None,
        web_ui_upnp: Option::None,
        web_ui_username: Option::None,
        web_ui_password: Option::None,
        web_ui_csrf_protection_enabled: Option::None,
        web_ui_clickjacking_protection_enabled: Option::None,
        web_ui_secure_cookie_enabled: Option::None,
        web_ui_max_auth_fail_count: Option::None,
        web_ui_ban_duration: Option::None,
        web_ui_session_timeout: Option::None,
        web_ui_host_header_validation_enabled: Option::None,
        bypass_local_auth: Option::None,
        bypass_auth_subnet_whitelist_enabled: Option::None,
        bypass_auth_subnet_whitelist: Option::None,
        alternative_webui_enabled: Option::None,
        alternative_webui_path: Option::None,
        use_https: Option::None,
        ssl_key: Option::None,
        ssl_cert: Option::None,
        web_ui_https_key_path: Option::None,
        web_ui_https_cert_path: Option::None,
        dyndns_enabled: Option::None,
        dyndns_service: Option::None,
        dyndns_username: Option::None,
        dyndns_password: Option::None,
        dyndns_domain: Option::None,
        rss_refresh_interval: Option::None,
        rss_max_articles_per_feed: Option::None,
        rss_processing_enabled: Option::None,
        rss_auto_downloading_enabled: Option::None,
        rss_download_repack_proper_episodes: Option::None,
        rss_smart_episode_filters: Option::None,
        add_trackers_enabled: Option::None,
        add_trackers: Option::None,
        web_ui_use_custom_http_headers_enabled: Option::None,
        web_ui_custom_http_headers: Option::None,
        max_seeding_time_enabled: Option::None,
        max_seeding_time: Option::None,
        announce_ip: Option::None,
        announce_to_all_tiers: Option::None,
        announce_to_all_trackers: Option::None,
        async_io_threads: Option::None,
        banned_ips: Option::None,
        checking_memory_use: Option::None,
        current_interface_address: Option::None,
        current_network_interface: Option::None,
        disk_cache: Option::None,
        disk_cache_ttl: Option::None,
        embedded_tracker_port: Option::None,
        enable_coalesce_read_write: Option::None,
        enable_embedded_tracker: Option::None,
        enable_multi_connections_from_same_ip: Option::None,
        enable_os_cache: Option::None,
        enable_upload_suggestions: Option::None,
        file_pool_size: Option::None,
        outgoing_ports_max: Option::None,
        outgoing_ports_min: Option::None,
        recheck_completed_torrents: Option::None,
        resolve_peer_countries: Option::None,
        save_resume_data_interval: Option::None,
        send_buffer_low_watermark: Option::None,
        send_buffer_watermark: Option::None,
        send_buffer_watermark_factor: Option::None,
        socket_backlog_size: Option::None,
        upload_choking_algorithm: Option::None,
        upload_slots_behavior: Option::None,
        upnp_lease_duration: Option::None,
        utp_tcp_mixed_mode: Option::None,
    }
}

impl Default for Preferences {
    /// Every field absent.
    fn default() -> (r: Self)
        ensures
            r == empty_preferences(),
    {
        Preferences {
            locale: None,
            create_subfolder_enabled: None,
            start_paused_enabled: None,
            auto_delete_mode: None,
            preallocate_all: None,
            incomplete_files_ext: None,
            auto_tmm_enabled: None,
            torrent_changed_tmm_enabled: None,
            save_path_changed_tmm_enabled: None,
            category_changed_tmm_enabled: None,
            save_path: None,
            temp_path_enabled: None,
            temp_path: None,
            scan_dirs: None,
            export_dir: None,
            export_dir_fin: None,
            mail_notification_enabled: None,
            mail_notification_sender: None,
            mail_notification_email: None,
            mail_notification_smtp: None,
            mail_notification_ssl_enabled: None,
            mail_notification_auth_enabled: None,
            mail_notification_username: None,
            mail_notification_password: None,
            autorun_enabled: None,
            autorun_program: None,
            queueing_enabled: None,
            max_active_downloads: None,
            max_active_torrents: None,
            max_active_uploads: None,
            dont_count_slow_torrents: None,
            slow_torrent_dl_rate_threshold: None,
            slow_torrent_ul_rate_threshold: None,
            slow_torrent_inactive_timer: None,
            max_ratio_enabled: None,
            max_ratio: None,
            max_ratio_act: None,
            listen_port: None,
            upnp: None,
            random_port: None,
            dl_limit: None,
            up_limit: None,
            max_connec: None,
            max_connec_per_torrent: None,
            max_uploads: None,
            max_uploads_per_torrent: None,
            stop_tracker_timeout: None,
            enable_piece_extent_affinity: None,
            bittorrent_protocol: None,
            limit_utp_rate: None,
            limit_tcp_overhead: None,
            limit_lan_peers: None,
            alt_dl_limit: None,
            alt_up_limit: None,
            scheduler_enabled: None,
            schedule_from_hour: None,
            schedule_from_min: None,
            schedule_to_hour: None,
            schedule_to_min: None,
            scheduler_days: None,
            dht: None,
            pex: None,
            lsd: None,
            encryption: None,
            anonymous_mode: None,
            proxy_type: None,
            proxy_ip: None,
            proxy_port: None,
            proxy_peer_connections: None,
            proxy_auth_enabled: None,
            proxy_username: None,
            proxy_password: None,
            proxy_torrents_only: None,
            ip_filter_enabled: None,
            ip_filter_path: None,
            ip_filter_trackers: None,
            web_ui_domain_list: None,
            web_ui_address: None,
            web_ui_port: None,
            web_ui_upnp: None,
            web_ui_username: None,
            web_ui_password: None,
            web_ui_csrf_protection_enabled: None,
            web_ui_clickjacking_protection_enabled: None,
            web_ui_secure_cookie_enabled: None,
            web_ui_max_auth_fail_count: None,
            web_ui_ban_duration: None,
            web_ui_session_timeout: None,
            web_ui_host_header_validation_enabled: None,
            bypass_local_auth: None,
            bypass_auth_subnet_whitelist_enabled: None,
            bypass_auth_subnet_whitelist: None,
            alternative_webui_enabled: None,
            alternative_webui_path: None,
            use_https: None,
            ssl_key: None,
            ssl_cert: None,
            web_ui_https_key_path: None,
            web_ui_https_cert_path: None,
            dyndns_enabled: None,
            dyndns_service: None,
            dyndns_username: None,
            dyndns_password: None,
            dyndns_domain: None,
            rss_refresh_interval: None,
            rss_max_articles_per_feed: None,
            rss_processing_enabled: None,
            rss_auto_downloading_enabled: None,
            rss_download_repack_proper_episodes: None,
            rss_smart_episode_filters: None,
            add_trackers_enabled: None,
            add_trackers: None,
            web_ui_use_custom_http_headers_enabled: None,
            web_ui_custom_http_headers: None,
            max_seeding_time_enabled: None,
            max_seeding_time: None,
            announce_ip: None,
            announce_to_all_tiers: None,
            announce_to_all_trackers: None,
            async_io_threads: None,
            banned_ips: None,
            checking_memory_use: None,
            current_interface_address: None,
            current_network_interface: None,
            disk_cache: None,
            disk_cache_ttl: None,
            embedded_tracker_port: None,
            enable_coalesce_read_write: None,
            enable_embedded_tracker: None,
            enable_multi_connections_from_same_ip: None,
            enable_os_cache: None,
            enable_upload_suggestions: None,
            file_pool_size: None,
            outgoing_ports_max: None,
            outgoing_ports_min: None,
            recheck_completed_torrents: None,
            resolve_peer_countries: None,
            save_resume_data_interval: None,
            send_buffer_low_watermark: None,
            send_buffer_watermark: None,
            send_buffer_watermark_factor: None,
            socket_backlog_size: None,
            upload_choking_algorithm: None,
            upload_slots_behavior: None,
            upnp_lease_duration: None,
            utp_tcp_mixed_mode: None,
        }
    }
}

/// The members of the nested watched-directories object: each path as
/// an escaped key, its code as the value.
pub open spec fn scan_dirs_members(v: Seq<(String, ScanDir)>) -> Seq<(Seq<char>, Seq<char>)> {
    v.map_values(|kv: (String, ScanDir)| (json_escape(kv.0@), i64_text(scan_dir_code(kv.1) as int)))
}

/// The members the watched-directories field contributes.
pub open spec fn scan_dirs_m(o: Option<Vec<(String, ScanDir)>>) -> Seq<(Seq<char>, Seq<char>)> {
    match o {
        Option::Some(v) => seq![("scan_dirs"@, json_object(scan_dirs_members(v@)))],
        Option::None => Seq::empty(),
    }
}

/// One stretch of the preferences payload, in declaration order.
pub open spec fn pref_members_a(p: Preferences) -> Seq<(Seq<char>, Seq<char>)> {
    opt_string_m("locale"@, p.locale) + opt_bool_m("create_subfolder_enabled"@, p.create_subfolder_enabled) + opt_bool_m("start_paused_enabled"@, p.start_paused_enabled) + opt_i64_m("auto_delete_mode"@, p.auto_delete_mode) + opt_bool_m("preallocate_all"@, p.preallocate_all) + opt_bool_m("incomplete_files_ext"@, p.incomplete_files_ext) + opt_bool_m("auto_tmm_enabled"@, p.auto_tmm_enabled) + opt_bool_m("torrent_changed_tmm_enabled"@, p.torrent_changed_tmm_enabled) + opt_bool_m("save_path_changed_tmm_enabled"@, p.save_path_changed_tmm_enabled) + opt_bool_m("category_changed_tmm_enabled"@, p.category_changed_tmm_enabled)
}

/// One stretch of the preferences payload, in declaration order.
pub open spec fn pref_members_b(p: Preferences) -> Seq<(Seq<char>, Seq<char>)> {
    opt_string_m("save_path"@, p.save_path) + opt_bool_m("temp_path_enabled"@, p.temp_path_enabled) + opt_string_m("temp_path"@, p.temp_path) + scan_dirs_m(p.scan_dirs) + opt_string_m("export_dir"@, p.export_dir) + opt_string_m("export_dir_fin"@, p.export_dir_fin) + opt_bool_m("mail_notification_enabled"@, p.mail_notification_enabled) + opt_string_m("mail_notification_sender"@, p.mail_notification_sender) + opt_string_m("mail_notification_email"@, p.mail_notification_email) + opt_string_m("mail_notification_smtp"@, p.mail_notification_smtp)
}

/// One stretch of the preferences payload, in declaration order.
pub open spec fn pref_members_c(p: Preferences) -> Seq<(Seq<char>, Seq<char>)> {
    opt_bool_m("mail_notification_ssl_enabled"@, p.mail_notification_ssl_enabled) + opt_bool_m("mail_notification_auth_enabled"@, p.mail_notification_auth_enabled) + opt_string_m("mail_notification_username"@, p.mail_notification_username) + opt_string_m("mail_notification_password"@, p.mail_notification_password) + opt_bool_m("autorun_enabled"@, p.autorun_enabled) + opt_string_m("autorun_program"@, p.autorun_program) + opt_bool_m("queueing_enabled"@, p.queueing_enabled) + opt_i64_m("max_active_downloads"@, p.max_active_downloads) + opt_i64_m("max_active_torrents"@, p.max_active_torrents) + opt_i64_m("max_active_uploads"@, p.max_active_uploads)
}

/// One stretch of the preferences payload, in declaration order.
pub open spec fn pref_members_d(p: Preferences) -> Seq<(Seq<char>, Seq<char>)> {
    opt_bool_m("dont_count_slow_torrents"@, p.dont_count_slow_torrents) + opt_i64_m("slow_torrent_dl_rate_threshold"@, p.slow_torrent_dl_rate_threshold) + opt_i64_m("slow_torrent_ul_rate_threshold"@, p.slow_torrent_ul_rate_threshold) + opt_i64_m("slow_torrent_inactive_timer"@, p.slow_torrent_inactive_timer) + opt_bool_m("max_ratio_enabled"@, p.max_ratio_enabled) + opt_raw_m("max_ratio"@, p.max_ratio) + opt_i64_m("max_ratio_act"@, max_ratio_act_code_opt(p.max_ratio_act)) + opt_i64_m("listen_port"@, p.listen_port) + opt_bool_m("upnp"@, p.upnp) + opt_bool_m("random_port"@, p.random_port)
}

/// One stretch of the preferences payload, in declaration order.
pub open spec fn pref_members_e(p: Preferences) -> Seq<(Seq<char>, Seq<char>)> {
    opt_i64_m("dl_limit"@, p.dl_limit) + opt_i64_m("up_limit"@, p.up_limit) + opt_i64_m("max_connec"@, p.max_connec) + opt_i64_m("max_connec_per_torrent"@, p.max_connec_per_torrent) + opt_i64_m("max_uploads"@, p.max_uploads) + opt_i64_m("max_uploads_per_torrent"@, p.max_uploads_per_torrent) + opt_i64_m("stop_tracker_timeout"@, p.stop_tracker_timeout) + opt_bool_m("enable_piece_extent_affinity"@, p.enable_piece_extent_affinity) + opt_i64_m("bittorrent_protocol"@, bittorrent_protocol_code_opt(p.bittorrent_protocol)) + opt_bool_m("limit_utp_rate"@, p.limit_utp_rate)
}

/// One stretch of the preferences payload, in declaration order.
pub open spec fn pref_members_f(p: Preferences) -> Seq<(Seq<char>, Seq<char>)> {
    opt_bool_m("limit_tcp_overhead"@, p.limit_tcp_overhead) + opt_bool_m("limit_lan_peers"@, p.limit_lan_peers) + opt_i64_m("alt_dl_limit"@, p.alt_dl_limit) + opt_i64_m("alt_up_limit"@, p.alt_up_limit) + opt_bool_m("scheduler_enabled"@, p.scheduler_enabled) + opt_i64_m("schedule_from_hour"@, p.schedule_from_hour) + opt_i64_m("schedule_from_min"@, p.schedule_from_min) + opt_i64_m("schedule_to_hour"@, p.schedule_to_hour) + opt_i64_m("schedule_to_min"@, p.schedule_to_min) + opt_i64_m("scheduler_days"@, scheduler_days_code_opt(p.scheduler_days))
}

/// One stretch of the preferences payload, in declaration order.
pub open spec fn pref_members_g(p: Preferences) -> Seq<(Seq<char>, Seq<char>)> {
    opt_bool_m("dht"@, p.dht) + opt_bool_m("pex"@, p.pex) + opt_bool_m("lsd"@, p.lsd) + opt_i64_m("encryption"@, encryption_code_opt(p.encryption)) + opt_bool_m("anonymous_mode"@, p.anonymous_mode) + opt_i64_m("proxy_type"@, proxy_type_code_opt(p.proxy_type)) + opt_string_m("proxy_ip"@, p.proxy_ip) + opt_i64_m("proxy_port"@, p.proxy_port) + opt_bool_m("proxy_peer_connections"@, p.proxy_peer_connections) + opt_bool_m("proxy_auth_enabled"@, p.proxy_auth_enabled)
}

/// One stretch of the preferences payload, in declaration order.
pub open spec fn pref_members_h(p: Preferences) -> Seq<(Seq<char>, Seq<char>)> {
    opt_string_m("proxy_username"@, p.proxy_username) + opt_string_m("proxy_password"@, p.proxy_password) + opt_bool_m("proxy_torrents_only"@, p.proxy_torrents_only) + opt_bool_m("ip_filter_enabled"@, p.ip_filter_enabled) + opt_string_m("ip_filter_path"@, p.ip_filter_path) + opt_bool_m("ip_filter_trackers"@, p.ip_filter_trackers) + opt_string_m("web_ui_domain_list"@, p.web_ui_domain_list) + opt_string_m("web_ui_address"@, p.web_ui_address) + opt_i64_m("web_ui_port"@, p.web_ui_port) + opt_bool_m("web_ui_upnp"@, p.web_ui_upnp)
}

/// One stretch of the preferences payload, in declaration order.
pub open spec fn pref_members_i(p: Preferences) -> Seq<(Seq<char>, Seq<char>)> {
    opt_string_m("web_ui_username"@, p.web_ui_username) + opt_string_m("web_ui_password"@, p.web_ui_password) + opt_bool_m("web_ui_csrf_protection_enabled"@, p.web_ui_csrf_protection_enabled) + opt_bool_m("web_ui_clickjacking_protection_enabled"@, p.web_ui_clickjacking_protection_enabled) + opt_bool_m("web_ui_secure_cookie_enabled"@, p.web_ui_secure_cookie_enabled) + opt_i64_m("web_ui_max_auth_fail_count"@, p.web_ui_max_auth_fail_count) + opt_i64_m("web_ui_ban_duration"@, p.web_ui_ban_duration) + opt_i64_m("web_ui_session_timeout"@, p.web_ui_session_timeout) + opt_bool_m("web_ui_host_header_validation_enabled"@, p.web_ui_host_header_validation_enabled) + opt_bool_m("bypass_local_auth"@, p.bypass_local_auth)
}

/// One stretch of the preferences payload, in declaration order.
pub open spec fn pref_members_j(p: Preferences) -> Seq<(Seq<char>, Seq<char>)> {
    opt_bool_m("bypass_auth_subnet_whitelist_enabled"@, p.bypass_auth_subnet_whitelist_enabled) + opt_string_m("bypass_auth_subnet_whitelist"@, p.bypass_auth_subnet_whitelist) + opt_bool_m("alternative_webui_enabled"@, p.alternative_webui_enabled) + opt_string_m("alternative_webui_path"@, p.alternative_webui_path) + opt_bool_m("use_https"@, p.use_https) + opt_string_m("ssl_key"@, p.ssl_key) + opt_string_m("ssl_cert"@, p.ssl_cert) + opt_string_m("web_ui_https_key_path"@, p.web_ui_https_key_path) + opt_string_m("web_ui_https_cert_path"@, p.web_ui_https_cert_path) + opt_bool_m("dyndns_enabled"@, p.dyndns_enabled)
}

/// One stretch of the preferences payload, in declaration order.
pub open spec fn pref_members_k(p: Preferences) -> Seq<(Seq<char>, Seq<char>)> {
    opt_i64_m("dyndns_service"@, dyndns_service_code_opt(p.dyndns_service)) + opt_string_m("dyndns_username"@, p.dyndns_username) + opt_string_m("dyndns_password"@, p.dyndns_password) + opt_string_m("dyndns_domain"@, p.dyndns_domain) + opt_i64_m("rss_refresh_interval"@, p.rss_refresh_interval) + opt_i64_m("rss_max_articles_per_feed"@, p.rss_max_articles_per_feed) + opt_bool_m("rss_processing_enabled"@, p.rss_processing_enabled) + opt_bool_m("rss_auto_downloading_enabled"@, p.rss_auto_downloading_enabled) + opt_bool_m("rss_download_repack_proper_episodes"@, p.rss_download_repack_proper_episodes) + opt_string_m("rss_smart_episode_filters"@, p.rss_smart_episode_filters)
}

/// One stretch of the preferences payload, in declaration order.
pub open spec fn pref_members_l(p: Preferences) -> Seq<(Seq<char>, Seq<char>)> {
    opt_bool_m("add_trackers_enabled"@, p.add_trackers_enabled) + opt_string_m("add_trackers"@, p.add_trackers) + opt_bool_m("web_ui_use_custom_http_headers_enabled"@, p.web_ui_use_custom_http_headers_enabled) + opt_string_m("web_ui_custom_http_headers"@, p.web_ui_custom_http_headers) + opt_bool_m("max_seeding_time_enabled"@, p.max_seeding_time_enabled) + opt_i64_m("max_seeding_time"@, p.max_seeding_time) + opt_string_m("announce_ip"@, p.announce_ip) + opt_bool_m("announce_to_all_tiers"@, p.announce_to_all_tiers) + opt_bool_m("announce_to_all_trackers"@, p.announce_to_all_trackers) + opt_i64_m("async_io_threads"@, p.async_io_threads)
}

/// One stretch of the preferences payload, in declaration order.
pub open spec fn pref_members_m(p: Preferences) -> Seq<(Seq<char>, Seq<char>)> {
    opt_string_m("banned_ips"@, p.banned_ips) + opt_i64_m("checking_memory_use"@, p.checking_memory_use) + opt_string_m("current_interface_address"@, p.current_interface_address) + opt_string_m("current_network_interface"@, p.current_network_interface) + opt_i64_m("disk_cache"@, p.disk_cache) + opt_i64_m("disk_cache_ttl"@, p.disk_cache_ttl) + opt_i64_m("embedded_tracker_port"@, p.embedded_tracker_port) + opt_bool_m("enable_coalesce_read_write"@, p.enable_coalesce_read_write) + opt_bool_m("enable_embedded_tracker"@, p.enable_embedded_tracker) + opt_bool_m("enable_multi_connections_from_same_ip"@, p.enable_multi_connections_from_same_ip)
}

/// One stretch of the preferences payload, in declaration order.
pub open spec fn pref_members_n(p: Preferences) -> Seq<(Seq<char>, Seq<char>)> {
    opt_bool_m("enable_os_cache"@, p.enable_os_cache) + opt_bool_m("enable_upload_suggestions"@, p.enable_upload_suggestions) + opt_i64_m("file_pool_size"@, p.file_pool_size) + opt_i64_m("outgoing_ports_max"@, p.outgoing_ports_max) + opt_i64_m("outgoing_ports_min"@, p.outgoing_ports_min) + opt_bool_m("recheck_completed_torrents"@, p.recheck_completed_torrents) + opt_bool_m("resolve_peer_countries"@, p.resolve_peer_countries) + opt_i64_m("save_resume_data_interval"@, p.save_resume_data_interval) + opt_i64_m("send_buffer_low_watermark"@, p.send_buffer_low_watermark) + opt_i64_m("send_buffer_watermark"@, p.send_buffer_watermark)
}

/// One stretch of the preferences payload, in declaration order.
pub open spec fn pref_members_o(p: Preferences) -> Seq<(Seq<char>, Seq<char>)> {
    opt_i64_m("send_buffer_watermark_factor"@, p.send_buffer_watermark_factor) + opt_i64_m("socket_backlog_size"@, p.socket_backlog_size) + opt_i64_m("upload_choking_algorithm"@, upload_choking_algorithm_code_opt(p.upload_choking_algorithm)) + opt_i64_m("upload_slots_behavior"@, upload_slots_behavior_code_opt(p.upload_slots_behavior)) + opt_i64_m("upnp_lease_duration"@, p.upnp_lease_duration) + opt_i64_m("utp_tcp_mixed_mode"@, utp_tcp_mixed_mode_code_opt(p.utp_tcp_mixed_mode))
}

/// The members of the preferences payload: each present field, in
/// declaration order, and nothing for the absent ones.
pub open spec fn pref_members(p: Preferences) -> Seq<(Seq<char>, Seq<char>)> {
    pref_members_a(p) + pref_members_b(p) + pref_members_c(p) + pref_members_d(p) + pref_members_e(p) + pref_members_f(p) + pref_members_g(p) + pref_members_h(p) + pref_members_i(p) + pref_members_j(p) + pref_members_k(p) + pref_members_l(p) + pref_members_m(p) + pref_members_n(p) + pref_members_o(p)
}

#[verifier::rlimit(60)]
fn write_prefs_a(w: &mut JsonObjectWriter, p: &Preferences)
    requires
        old(w).wf(),
    ensures
        final(w).wf(),
        final(w).members() == old(w).members() + pref_members_a(*p),
{
    w.opt_string_member("locale", &p.locale);
    proof {
        assert(w.members() =~= old(w).members() + (opt_string_m("locale"@, p.locale)));
    }
    w.opt_bool_member("create_subfolder_enabled", &p.create_subfolder_enabled);
    proof {
        assert(w.members() =~= old(w).members() + (opt_string_m("locale"@, p.locale) + opt_bool_m("create_subfolder_enabled"@, p.create_subfolder_enabled)));
    }
    w.opt_bool_member("start_paused_enabled", &p.start_paused_enabled);
    proof {
        assert(w.members() =~= old(w).members() + (opt_string_m("locale"@, p.locale) + opt_bool_m("create_subfolder_enabled"@, p.create_subfolder_enabled) + opt_bool_m("start_paused_enabled"@, p.start_paused_enabled)));
    }
    w.opt_i64_member("auto_delete_mode", &p.auto_delete_mode);
    proof {
        assert(w.members() =~= old(w).members() + (opt_string_m("locale"@, p.locale) + opt_bool_m("create_subfolder_enabled"@, p.create_subfolder_enabled) + opt_bool_m("start_paused_enabled"@, p.start_paused_enabled) + opt_i64_m("auto_delete_mode"@, p.auto_delete_mode)));
    }
    w.opt_bool_member("preallocate_all", &p.preallocate_all);
    proof {
        assert(w.members() =~= old(w).members() + (opt_string_m("locale"@, p.locale) + opt_bool_m("create_subfolder_enabled"@, p.create_subfolder_enabled) + opt_bool_m("start_paused_enabled"@, p.start_paused_enabled) + opt_i64_m("auto_delete_mode"@, p.auto_delete_mode) + opt_bool_m("preallocate_all"@, p.preallocate_all)));
    }
    w.opt_bool_member("incomplete_files_ext", &p.incomplete_files_ext);
    proof {
        assert(w.members() =~= old(w).members() + (opt_string_m("locale"@, p.locale) + opt_bool_m("create_subfolder_enabled"@, p.create_subfolder_enabled) + opt_bool_m("start_paused_enabled"@, p.start_paused_enabled) + opt_i64_m("auto_delete_mode"@, p.auto_delete_mode) + opt_bool_m("preallocate_all"@, p.preallocate_all) + opt_bool_m("incomplete_files_ext"@, p.incomplete_files_ext)));
    }
    w.opt_bool_member("auto_tmm_enabled", &p.auto_tmm_enabled);
    proof {
        assert(w.members() =~= old(w).members() + (opt_string_m("locale"@, p.locale) + opt_bool_m("create_subfolder_enabled"@, p.create_subfolder_enabled) + opt_bool_m("start_paused_enabled"@, p.start_paused_enabled) + opt_i64_m("auto_delete_mode"@, p.auto_delete_mode) + opt_bool_m("preallocate_all"@, p.preallocate_all) + opt_bool_m("incomplete_files_ext"@, p.incomplete_files_ext) + opt_bool_m("auto_tmm_enabled"@, p.auto_tmm_enabled)));
    }
    w.opt_bool_member("torrent_changed_tmm_enabled", &p.torrent_changed_tmm_enabled);
    proof {
        assert(w.members() =~= old(w).members() + (opt_string_m("locale"@, p.locale) + opt_bool_m("create_subfolder_enabled"@, p.create_subfolder_enabled) + opt_bool_m("start_paused_enabled"@, p.start_paused_enabled) + opt_i64_m("auto_delete_mode"@, p.auto_delete_mode) + opt_bool_m("preallocate_all"@, p.preallocate_all) + opt_bool_m("incomplete_files_ext"@, p.incomplete_files_ext) + opt_bool_m("auto_tmm_enabled"@, p.auto_tmm_enabled) + opt_bool_m("torrent_changed_tmm_enabled"@, p.torrent_changed_tmm_enabled)));
    }
    w.opt_bool_member("save_path_changed_tmm_enabled", &p.save_path_changed_tmm_enabled);
    proof {
        assert(w.members() =~= old(w).members() + (opt_string_m("locale"@, p.locale) + opt_bool_m("create_subfolder_enabled"@, p.create_subfolder_enabled) + opt_bool_m("start_paused_enabled"@, p.start_paused_enabled) + opt_i64_m("auto_delete_mode"@, p.auto_delete_mode) + opt_bool_m("preallocate_all"@, p.preallocate_all) + opt_bool_m("incomplete_files_ext"@, p.incomplete_files_ext) + opt_bool_m("auto_tmm_enabled"@, p.auto_tmm_enabled) + opt_bool_m("torrent_changed_tmm_enabled"@, p.torrent_changed_tmm_enabled) + opt_bool_m("save_path_changed_tmm_enabled"@, p.save_path_changed_tmm_enabled)));
    }
    w.opt_bool_member("category_changed_tmm_enabled", &p.category_changed_tmm_enabled);
    proof {
        assert(w.members() =~= old(w).members() + (opt_string_m("locale"@, p.locale) + opt_bool_m("create_subfolder_enabled"@, p.create_subfolder_enabled) + opt_bool_m("start_paused_enabled"@, p.start_paused_enabled) + opt_i64_m("auto_delete_mode"@, p.auto_delete_mode) + opt_bool_m("preallocate_all"@, p.preallocate_all) + opt_bool_m("incomplete_files_ext"@, p.incomplete_files_ext) + opt_bool_m("auto_tmm_enabled"@, p.auto_tmm_enabled) + opt_bool_m("torrent_changed_tmm_enabled"@, p.torrent_changed_tmm_enabled) + opt_bool_m("save_path_changed_tmm_enabled"@, p.save_path_changed_tmm_enabled) + opt_bool_m("category_changed_tmm_enabled"@, p.category_changed_tmm_enabled)));
    }
}

#[verifier::rlimit(60)]
fn write_prefs_b(w: &mut JsonObjectWriter, p: &Preferences)
    requires
        old(w).wf(),
    ensures
        final(w).wf(),
        final(w).members() == old(w).members() + pref_members_b(*p),
{
    w.opt_string_member("save_path", &p.save_path);
    proof {
        assert(w.members() =~= old(w).members() + (opt_string_m("save_path"@, p.save_path)));
    }
    w.opt_bool_member("temp_path_enabled", &p.temp_path_enabled);
    proof {
        assert(w.members() =~= old(w).members() + (opt_string_m("save_path"@, p.save_path) + opt_bool_m("temp_path_enabled"@, p.temp_path_enabled)));
    }
    w.opt_string_member("temp_path", &p.temp_path);
    proof {
        assert(w.members() =~= old(w).members() + (opt_string_m("save_path"@, p.save_path) + opt_bool_m("temp_path_enabled"@, p.temp_path_enabled) + opt_string_m("temp_path"@, p.temp_path)));
    }
    write_scan_dirs(w, &p.scan_dirs);
    proof {
        assert(w.members() =~= old(w).members() + (opt_string_m("save_path"@, p.save_path) + opt_bool_m("temp_path_enabled"@, p.temp_path_enabled) + opt_string_m("temp_path"@, p.temp_path) + scan_dirs_m(p.scan_dirs)));
    }
    w.opt_string_member("export_dir", &p.export_dir);
    proof {
        assert(w.members() =~= old(w).members() + (opt_string_m("save_path"@, p.save_path) + opt_bool_m("temp_path_enabled"@, p.temp_path_enabled) + opt_string_m("temp_path"@, p.temp_path) + scan_dirs_m(p.scan_dirs) + opt_string_m("export_dir"@, p.export_dir)));
    }
    w.opt_string_member("export_dir_fin", &p.export_dir_fin);
    proof {
        assert(w.members() =~= old(w).members() + (opt_string_m("save_path"@, p.save_path) + opt_bool_m("temp_path_enabled"@, p.temp_path_enabled) + opt_string_m("temp_path"@, p.temp_path) + scan_dirs_m(p.scan_dirs) + opt_string_m("export_dir"@, p.export_dir) + opt_string_m("export_dir_fin"@, p.export_dir_fin)));
    }
    w.opt_bool_member("mail_notification_enabled", &p.mail_notification_enabled);
    proof {
        assert(w.members() =~= old(w).members() + (opt_string_m("save_path"@, p.save_path) + opt_bool_m("temp_path_enabled"@, p.temp_path_enabled) + opt_string_m("temp_path"@, p.temp_path) + scan_dirs_m(p.scan_dirs) + opt_string_m("export_dir"@, p.export_dir) + opt_string_m("export_dir_fin"@, p.export_dir_fin) + opt_bool_m("mail_notification_enabled"@, p.mail_notification_enabled)));
    }
    w.opt_string_member("mail_notification_sender", &p.mail_notification_sender);
    proof {
        assert(w.members() =~= old(w).members() + (opt_string_m("save_path"@, p.save_path) + opt_bool_m("temp_path_enabled"@, p.temp_path_enabled) + opt_string_m("temp_path"@, p.temp_path) + scan_dirs_m(p.scan_dirs) + opt_string_m("export_dir"@, p.export_dir) + opt_string_m("export_dir_fin"@, p.export_dir_fin) + opt_bool_m("mail_notification_enabled"@, p.mail_notification_enabled) + opt_string_m("mail_notification_sender"@, p.mail_notification_sender)));
    }
    w.opt_string_member("mail_notification_email", &p.mail_notification_email);
    proof {
        assert(w.members() =~= old(w).members() + (opt_string_m("save_path"@, p.save_path) + opt_bool_m("temp_path_enabled"@, p.temp_path_enabled) + opt_string_m("temp_path"@, p.temp_path) + scan_dirs_m(p.scan_dirs) + opt_string_m("export_dir"@, p.export_dir) + opt_string_m("export_dir_fin"@, p.export_dir_fin) + opt_bool_m("mail_notification_enabled"@, p.mail_notification_enabled) + opt_string_m("mail_notification_sender"@, p.mail_notification_sender) + opt_string_m("mail_notification_email"@, p.mail_notification_email)));
    }
    w.opt_string_member("mail_notification_smtp", &p.mail_notification_smtp);
    proof {
        assert(w.members() =~= old(w).members() + (opt_string_m("save_path"@, p.save_path) + opt_bool_m("temp_path_enabled"@, p.temp_path_enabled) + opt_string_m("temp_path"@, p.temp_path) + scan_dirs_m(p.scan_dirs) + opt_string_m("export_dir"@, p.export_dir) + opt_string_m("export_dir_fin"@, p.export_dir_fin) + opt_bool_m("mail_notification_enabled"@, p.mail_notification_enabled) + opt_string_m("mail_notification_sender"@, p.mail_notification_sender) + opt_string_m("mail_notification_email"@, p.mail_notification_email) + opt_string_m("mail_notification_smtp"@, p.mail_notification_smtp)));
    }
}

#[verifier::rlimit(60)]
fn write_prefs_c(w: &mut JsonObjectWriter, p: &Preferences)
    requires
        old(w).wf(),
    ensures
        final(w).wf(),
        final(w).members() == old(w).members() + pref_members_c(*p),
{
    w.opt_bool_member("mail_notification_ssl_enabled", &p.mail_notification_ssl_enabled);
    proof {
        assert(w.members() =~= old(w).members() + (opt_bool_m("mail_notification_ssl_enabled"@, p.mail_notification_ssl_enabled)));
    }
    w.opt_bool_member("mail_notification_auth_enabled", &p.mail_notification_auth_enabled);
    proof {
        assert(w.members() =~= old(w).members() + (opt_bool_m("mail_notification_ssl_enabled"@, p.mail_notification_ssl_enabled) + opt_bool_m("mail_notification_auth_enabled"@, p.mail_notification_auth_enabled)));
    }
    w.opt_string_member("mail_notification_username", &p.mail_notification_username);
    proof {
        assert(w.members() =~= old(w).members() + (opt_bool_m("mail_notification_ssl_enabled"@, p.mail_notification_ssl_enabled) + opt_bool_m("mail_notification_auth_enabled"@, p.mail_notification_auth_enabled) + opt_string_m("mail_notification_username"@, p.mail_notification_username)));
    }
    w.opt_string_member("mail_notification_password", &p.mail_notification_password);
    proof {
        assert(w.members() =~= old(w).members() + (opt_bool_m("mail_notification_ssl_enabled"@, p.mail_notification_ssl_enabled) + opt_bool_m("mail_notification_auth_enabled"@, p.mail_notification_auth_enabled) + opt_string_m("mail_notification_username"@, p.mail_notification_username) + opt_string_m("mail_notification_password"@, p.mail_notification_password)));
    }
    w.opt_bool_member("autorun_enabled", &p.autorun_enabled);
    proof {
        assert(w.members() =~= old(w).members() + (opt_bool_m("mail_notification_ssl_enabled"@, p.mail_notification_ssl_enabled) + opt_bool_m("mail_notification_auth_enabled"@, p.mail_notification_auth_enabled) + opt_string_m("mail_notification_username"@, p.mail_notification_username) + opt_string_m("mail_notification_password"@, p.mail_notification_password) + opt_bool_m("autorun_enabled"@, p.autorun_enabled)));
    }
    w.opt_string_member("autorun_program", &p.autorun_program);
    proof {
        assert(w.members() =~= old(w).members() + (opt_bool_m("mail_notification_ssl_enabled"@, p.mail_notification_ssl_enabled) + opt_bool_m("mail_notification_auth_enabled"@, p.mail_notification_auth_enabled) + opt_string_m("mail_notification_username"@, p.mail_notification_username) + opt_string_m("mail_notification_password"@, p.mail_notification_password) + opt_bool_m("autorun_enabled"@, p.autorun_enabled) + opt_string_m("autorun_program"@, p.autorun_program)));
    }
    w.opt_bool_member("queueing_enabled", &p.queueing_enabled);
    proof {
        assert(w.members() =~= old(w).members() + (opt_bool_m("mail_notification_ssl_enabled"@, p.mail_notification_ssl_enabled) + opt_bool_m("mail_notification_auth_enabled"@, p.mail_notification_auth_enabled) + opt_string_m("mail_notification_username"@, p.mail_notification_username) + opt_string_m("mail_notification_password"@, p.mail_notification_password) + opt_bool_m("autorun_enabled"@, p.autorun_enabled) + opt_string_m("autorun_program"@, p.autorun_program) + opt_bool_m("queueing_enabled"@, p.queueing_enabled)));
    }
    w.opt_i64_member("max_active_downloads", &p.max_active_downloads);
    proof {
        assert(w.members() =~= old(w).members() + (opt_bool_m("mail_notification_ssl_enabled"@, p.mail_notification_ssl_enabled) + opt_bool_m("mail_notification_auth_enabled"@, p.mail_notification_auth_enabled) + opt_string_m("mail_notification_username"@, p.mail_notification_username) + opt_string_m("mail_notification_password"@, p.mail_notification_password) + opt_bool_m("autorun_enabled"@, p.autorun_enabled) + opt_string_m("autorun_program"@, p.autorun_program) + opt_bool_m("queueing_enabled"@, p.queueing_enabled) + opt_i64_m("max_active_downloads"@, p.max_active_downloads)));
    }
    w.opt_i64_member("max_active_torrents", &p.max_active_torrents);
    proof {
        assert(w.members() =~= old(w).members() + (opt_bool_m("mail_notification_ssl_enabled"@, p.mail_notification_ssl_enabled) + opt_bool_m("mail_notification_auth_enabled"@, p.mail_notification_auth_enabled) + opt_string_m("mail_notification_username"@, p.mail_notification_username) + opt_string_m("mail_notification_password"@, p.mail_notification_password) + opt_bool_m("autorun_enabled"@, p.autorun_enabled) + opt_string_m("autorun_program"@, p.autorun_program) + opt_bool_m("queueing_enabled"@, p.queueing_enabled) + opt_i64_m("max_active_downloads"@, p.max_active_downloads) + opt_i64_m("max_active_torrents"@, p.max_active_torrents)));
    }
    w.opt_i64_member("max_active_uploads", &p.max_active_uploads);
    proof {
        assert(w.members() =~= old(w).members() + (opt_bool_m("mail_notification_ssl_enabled"@, p.mail_notification_ssl_enabled) + opt_bool_m("mail_notification_auth_enabled"@, p.mail_notification_auth_enabled) + opt_string_m("mail_notification_username"@, p.mail_notification_username) + opt_string_m("mail_notification_password"@, p.mail_notification_password) + opt_bool_m("autorun_enabled"@, p.autorun_enabled) + opt_string_m("autorun_program"@, p.autorun_program) + opt_bool_m("queueing_enabled"@, p.queueing_enabled) + opt_i64_m("max_active_downloads"@, p.max_active_downloads) + opt_i64_m("max_active_torrents"@, p.max_active_torrents) + opt_i64_m("max_active_uploads"@, p.max_active_uploads)));
    }
}

#[verifier::rlimit(60)]
fn write_prefs_d(w: &mut JsonObjectWriter, p: &Preferences)
    requires
        old(w).wf(),
    ensures
        final(w).wf(),
        final(w).members() == old(w).members() + pref_members_d(*p),
{
    w.opt_bool_member("dont_count_slow_torrents", &p.dont_count_slow_torrents);
    proof {
        assert(w.members() =~= old(w).members() + (opt_bool_m("dont_count_slow_torrents"@, p.dont_count_slow_torrents)));
    }
    w.opt_i64_member("slow_torrent_dl_rate_threshold", &p.slow_torrent_dl_rate_threshold);
    proof {
        assert(w.members() =~= old(w).members() + (opt_bool_m("dont_count_slow_torrents"@, p.dont_count_slow_torrents) + opt_i64_m("slow_torrent_dl_rate_threshold"@, p.slow_torrent_dl_rate_threshold)));
    }
    w.opt_i64_member("slow_torrent_ul_rate_threshold", &p.slow_torrent_ul_rate_threshold);
    proof {
        assert(w.members() =~= old(w).members() + (opt_bool_m("dont_count_slow_torrents"@, p.dont_count_slow_torrents) + opt_i64_m("slow_torrent_dl_rate_threshold"@, p.slow_torrent_dl_rate_threshold) + opt_i64_m("slow_torrent_ul_rate_threshold"@, p.slow_torrent_ul_rate_threshold)));
    }
    w.opt_i64_member("slow_torrent_inactive_timer", &p.slow_torrent_inactive_timer);
    proof {
        assert(w.members() =~= old(w).members() + (opt_bool_m("dont_count_slow_torrents"@, p.dont_count_slow_torrents) + opt_i64_m("slow_torrent_dl_rate_threshold"@, p.slow_torrent_dl_rate_threshold) + opt_i64_m("slow_torrent_ul_rate_threshold"@, p.slow_torrent_ul_rate_threshold) + opt_i64_m("slow_torrent_inactive_timer"@, p.slow_torrent_inactive_timer)));
    }
    w.opt_bool_member("max_ratio_enabled", &p.max_ratio_enabled);
    proof {
        assert(w.members() =~= old(w).members() + (opt_bool_m("dont_count_slow_torrents"@, p.dont_count_slow_torrents) + opt_i64_m("slow_torrent_dl_rate_threshold"@, p.slow_torrent_dl_rate_threshold) + opt_i64_m("slow_torrent_ul_rate_threshold"@, p.slow_torrent_ul_rate_threshold) + opt_i64_m("slow_torrent_inactive_timer"@, p.slow_torrent_inactive_timer) + opt_bool_m("max_ratio_enabled"@, p.max_ratio_enabled)));
    }
    w.opt_raw_member("max_ratio", &p.max_ratio);
    proof {
        assert(w.members() =~= old(w).members() + (opt_bool_m("dont_count_slow_torrents"@, p.dont_count_slow_torrents) + opt_i64_m("slow_torrent_dl_rate_threshold"@, p.slow_torrent_dl_rate_threshold) + opt_i64_m("slow_torrent_ul_rate_threshold"@, p.slow_torrent_ul_rate_threshold) + opt_i64_m("slow_torrent_inactive_timer"@, p.slow_torrent_inactive_timer) + opt_bool_m("max_ratio_enabled"@, p.max_ratio_enabled) + opt_raw_m("max_ratio"@, p.max_ratio)));
    }
    let max_ratio_act_code: Option<i64> = match &p.max_ratio_act {
        Some(x) => Some(x.code() as i64),
        None => None,
    };
    proof {
        assert(max_ratio_act_code == max_ratio_act_code_opt(p.max_ratio_act));
    }
    w.opt_i64_member("max_ratio_act", &max_ratio_act_code);
    proof {
        assert(w.members() =~= old(w).members() + (opt_bool_m("dont_count_slow_torrents"@, p.dont_count_slow_torrents) + opt_i64_m("slow_torrent_dl_rate_threshold"@, p.slow_torrent_dl_rate_threshold) + opt_i64_m("slow_torrent_ul_rate_threshold"@, p.slow_torrent_ul_rate_threshold) + opt_i64_m("slow_torrent_inactive_timer"@, p.slow_torrent_inactive_timer) + opt_bool_m("max_ratio_enabled"@, p.max_ratio_enabled) + opt_raw_m("max_ratio"@, p.max_ratio) + opt_i64_m("max_ratio_act"@, max_ratio_act_code_opt(p.max_ratio_act))));
    }
    w.opt_i64_member("listen_port", &p.listen_port);
    proof {
        assert(w.members() =~= old(w).members() + (opt_bool_m("dont_count_slow_torrents"@, p.dont_count_slow_torrents) + opt_i64_m("slow_torrent_dl_rate_threshold"@, p.slow_torrent_dl_rate_threshold) + opt_i64_m("slow_torrent_ul_rate_threshold"@, p.slow_torrent_ul_rate_threshold) + opt_i64_m("slow_torrent_inactive_timer"@, p.slow_torrent_inactive_timer) + opt_bool_m("max_ratio_enabled"@, p.max_ratio_enabled) + opt_raw_m("max_ratio"@, p.max_ratio) + opt_i64_m("max_ratio_act"@, max_ratio_act_code_opt(p.max_ratio_act)) + opt_i64_m("listen_port"@, p.listen_port)));
    }
    w.opt_bool_member("upnp", &p.upnp);
    proof {
        assert(w.members() =~= old(w).members() + (opt_bool_m("dont_count_slow_torrents"@, p.dont_count_slow_torrents) + opt_i64_m("slow_torrent_dl_rate_threshold"@, p.slow_torrent_dl_rate_threshold) + opt_i64_m("slow_torrent_ul_rate_threshold"@, p.slow_torrent_ul_rate_threshold) + opt_i64_m("slow_torrent_inactive_timer"@, p.slow_torrent_inactive_timer) + opt_bool_m("max_ratio_enabled"@, p.max_ratio_enabled) + opt_raw_m("max_ratio"@, p.max_ratio) + opt_i64_m("max_ratio_act"@, max_ratio_act_code_opt(p.max_ratio_act)) + opt_i64_m("listen_port"@, p.listen_port) + opt_bool_m("upnp"@, p.upnp)));
    }
    w.opt_bool_member("random_port", &p.random_port);
    proof {
        assert(w.members() =~= old(w).members() + (opt_bool_m("dont_count_slow_torrents"@, p.dont_count_slow_torrents) + opt_i64_m("slow_torrent_dl_rate_threshold"@, p.slow_torrent_dl_rate_threshold) + opt_i64_m("slow_torrent_ul_rate_threshold"@, p.slow_torrent_ul_rate_threshold) + opt_i64_m("slow_torrent_inactive_timer"@, p.slow_torrent_inactive_timer) + opt_bool_m("max_ratio_enabled"@, p.max_ratio_enabled) + opt_raw_m("max_ratio"@, p.max_ratio) + opt_i64_m("max_ratio_act"@, max_ratio_act_code_opt(p.max_ratio_act)) + opt_i64_m("listen_port"@, p.listen_port) + opt_bool_m("upnp"@, p.upnp) + opt_bool_m("random_port"@, p.random_port)));
    }
}

#[verifier::rlimit(60)]
fn write_prefs_e(w: &mut JsonObjectWriter, p: &Preferences)
    requires
        old(w).wf(),
    ensures
        final(w).wf(),
        final(w).members() == old(w).members() + pref_members_e(*p),
{
    w.opt_i64_member("dl_limit", &p.dl_limit);
    proof {
        assert(w.members() =~= old(w).members() + (opt_i64_m("dl_limit"@, p.dl_limit)));
    }
    w.opt_i64_member("up_limit", &p.up_limit);
    proof {
        assert(w.members() =~= old(w).members() + (opt_i64_m("dl_limit"@, p.dl_limit) + opt_i64_m("up_limit"@, p.up_limit)));
    }
    w.opt_i64_member("max_connec", &p.max_connec);
    proof {
        assert(w.members() =~= old(w).members() + (opt_i64_m("dl_limit"@, p.dl_limit) + opt_i64_m("up_limit"@, p.up_limit) + opt_i64_m("max_connec"@, p.max_connec)));
    }
    w.opt_i64_member("max_connec_per_torrent", &p.max_connec_per_torrent);
    proof {
        assert(w.members() =~= old(w).members() + (opt_i64_m("dl_limit"@, p.dl_limit) + opt_i64_m("up_limit"@, p.up_limit) + opt_i64_m("max_connec"@, p.max_connec) + opt_i64_m("max_connec_per_torrent"@, p.max_connec_per_torrent)));
    }
    w.opt_i64_member("max_uploads", &p.max_uploads);
    proof {
        assert(w.members() =~= old(w).members() + (opt_i64_m("dl_limit"@, p.dl_limit) + opt_i64_m("up_limit"@, p.up_limit) + opt_i64_m("max_connec"@, p.max_connec) + opt_i64_m("max_connec_per_torrent"@, p.max_connec_per_torrent) + opt_i64_m("max_uploads"@, p.max_uploads)));
    }
    w.opt_i64_member("max_uploads_per_torrent", &p.max_uploads_per_torrent);
    proof {
        assert(w.members() =~= old(w).members() + (opt_i64_m("dl_limit"@, p.dl_limit) + opt_i64_m("up_limit"@, p.up_limit) + opt_i64_m("max_connec"@, p.max_connec) + opt_i64_m("max_connec_per_torrent"@, p.max_connec_per_torrent) + opt_i64_m("max_uploads"@, p.max_uploads) + opt_i64_m("max_uploads_per_torrent"@, p.max_uploads_per_torrent)));
    }
    w.opt_i64_member("stop_tracker_timeout", &p.stop_tracker_timeout);
    proof {
        assert(w.members() =~= old(w).members() + (opt_i64_m("dl_limit"@, p.dl_limit) + opt_i64_m("up_limit"@, p.up_limit) + opt_i64_m("max_connec"@, p.max_connec) + opt_i64_m("max_connec_per_torrent"@, p.max_connec_per_torrent) + opt_i64_m("max_uploads"@, p.max_uploads) + opt_i64_m("max_uploads_per_torrent"@, p.max_uploads_per_torrent) + opt_i64_m("stop_tracker_timeout"@, p.stop_tracker_timeout)));
    }
    w.opt_bool_member("enable_piece_extent_affinity", &p.enable_piece_extent_affinity);
    proof {
        assert(w.members() =~= old(w).members() + (opt_i64_m("dl_limit"@, p.dl_limit) + opt_i64_m("up_limit"@, p.up_limit) + opt_i64_m("max_connec"@, p.max_connec) + opt_i64_m("max_connec_per_torrent"@, p.max_connec_per_torrent) + opt_i64_m("max_uploads"@, p.max_uploads) + opt_i64_m("max_uploads_per_torrent"@, p.max_uploads_per_torrent) + opt_i64_m("stop_tracker_timeout"@, p.stop_tracker_timeout) + opt_bool_m("enable_piece_extent_affinity"@, p.enable_piece_extent_affinity)));
    }
    let bittorrent_protocol_code: Option<i64> = match &p.bittorrent_protocol {
        Some(x) => Some(x.code() as i64),
        None => None,
    };
    proof {
        assert(bittorrent_protocol_code == bittorrent_protocol_code_opt(p.bittorrent_protocol));
    }
    w.opt_i64_member("bittorrent_protocol", &bittorrent_protocol_code);
    proof {
        assert(w.members() =~= old(w).members() + (opt_i64_m("dl_limit"@, p.dl_limit) + opt_i64_m("up_limit"@, p.up_limit) + opt_i64_m("max_connec"@, p.max_connec) + opt_i64_m("max_connec_per_torrent"@, p.max_connec_per_torrent) + opt_i64_m("max_uploads"@, p.max_uploads) + opt_i64_m("max_uploads_per_torrent"@, p.max_uploads_per_torrent) + opt_i64_m("stop_tracker_timeout"@, p.stop_tracker_timeout) + opt_bool_m("enable_piece_extent_affinity"@, p.enable_piece_extent_affinity) + opt_i64_m("bittorrent_protocol"@, bittorrent_protocol_code_opt(p.bittorrent_protocol))));
    }
    w.opt_bool_member("limit_utp_rate", &p.limit_utp_rate);
    proof {
        assert(w.members() =~= old(w).members() + (opt_i64_m("dl_limit"@, p.dl_limit) + opt_i64_m("up_limit"@, p.up_limit) + opt_i64_m("max_connec"@, p.max_connec) + opt_i64_m("max_connec_per_torrent"@, p.max_connec_per_torrent) + opt_i64_m("max_uploads"@, p.max_uploads) + opt_i64_m("max_uploads_per_torrent"@, p.max_uploads_per_torrent) + opt_i64_m("stop_tracker_timeout"@, p.stop_tracker_timeout) + opt_bool_m("enable_piece_extent_affinity"@, p.enable_piece_extent_affinity) + opt_i64_m("bittorrent_protocol"@, bittorrent_protocol_code_opt(p.bittorrent_protocol)) + opt_bool_m("limit_utp_rate"@, p.limit_utp_rate)));
    }
}

#[verifier::rlimit(60)]
fn write_prefs_f(w: &mut JsonObjectWriter, p: &Preferences)
    requires
        old(w).wf(),
    ensures
        final(w).wf(),
        final(w).members() == old(w).members() + pref_members_f(*p),
{
    w.opt_bool_member("limit_tcp_overhead", &p.limit_tcp_overhead);
    proof {
        assert(w.members() =~= old(w).members() + (opt_bool_m("limit_tcp_overhead"@, p.limit_tcp_overhead)));
    }
    w.opt_bool_member("limit_lan_peers", &p.limit_lan_peers);
    proof {
        assert(w.members() =~= old(w).members() + (opt_bool_m("limit_tcp_overhead"@, p.limit_tcp_overhead) + opt_bool_m("limit_lan_peers"@, p.limit_lan_peers)));
    }
    w.opt_i64_member("alt_dl_limit", &p.alt_dl_limit);
    proof {
        assert(w.members() =~= old(w).members() + (opt_bool_m("limit_tcp_overhead"@, p.limit_tcp_overhead) + opt_bool_m("limit_lan_peers"@, p.limit_lan_peers) + opt_i64_m("alt_dl_limit"@, p.alt_dl_limit)));
    }
    w.opt_i64_member("alt_up_limit", &p.alt_up_limit);
    proof {
        assert(w.members() =~= old(w).members() + (opt_bool_m("limit_tcp_overhead"@, p.limit_tcp_overhead) + opt_bool_m("limit_lan_peers"@, p.limit_lan_peers) + opt_i64_m("alt_dl_limit"@, p.alt_dl_limit) + opt_i64_m("alt_up_limit"@, p.alt_up_limit)));
    }
    w.opt_bool_member("scheduler_enabled", &p.scheduler_enabled);
    proof {
        assert(w.members() =~= old(w).members() + (opt_bool_m("limit_tcp_overhead"@, p.limit_tcp_overhead) + opt_bool_m("limit_lan_peers"@, p.limit_lan_peers) + opt_i64_m("alt_dl_limit"@, p.alt_dl_limit) + opt_i64_m("alt_up_limit"@, p.alt_up_limit) + opt_bool_m("scheduler_enabled"@, p.scheduler_enabled)));
    }
    w.opt_i64_member("schedule_from_hour", &p.schedule_from_hour);
    proof {
        assert(w.members() =~= old(w).members() + (opt_bool_m("limit_tcp_overhead"@, p.limit_tcp_overhead) + opt_bool_m("limit_lan_peers"@, p.limit_lan_peers) + opt_i64_m("alt_dl_limit"@, p.alt_dl_limit) + opt_i64_m("alt_up_limit"@, p.alt_up_limit) + opt_bool_m("scheduler_enabled"@, p.scheduler_enabled) + opt_i64_m("schedule_from_hour"@, p.schedule_from_hour)));
    }
    w.opt_i64_member("schedule_from_min", &p.schedule_from_min);
    proof {
        assert(w.members() =~= old(w).members() + (opt_bool_m("limit_tcp_overhead"@, p.limit_tcp_overhead) + opt_bool_m("limit_lan_peers"@, p.limit_lan_peers) + opt_i64_m("alt_dl_limit"@, p.alt_dl_limit) + opt_i64_m("alt_up_limit"@, p.alt_up_limit) + opt_bool_m("scheduler_enabled"@, p.scheduler_enabled) + opt_i64_m("schedule_from_hour"@, p.schedule_from_hour) + opt_i64_m("schedule_from_min"@, p.schedule_from_min)));
    }
    w.opt_i64_member("schedule_to_hour", &p.schedule_to_hour);
    proof {
        assert(w.members() =~= old(w).members() + (opt_bool_m("limit_tcp_overhead"@, p.limit_tcp_overhead) + opt_bool_m("limit_lan_peers"@, p.limit_lan_peers) + opt_i64_m("alt_dl_limit"@, p.alt_dl_limit) + opt_i64_m("alt_up_limit"@, p.alt_up_limit) + opt_bool_m("scheduler_enabled"@, p.scheduler_enabled) + opt_i64_m("schedule_from_hour"@, p.schedule_from_hour) + opt_i64_m("schedule_from_min"@, p.schedule_from_min) + opt_i64_m("schedule_to_hour"@, p.schedule_to_hour)));
    }
    w.opt_i64_member("schedule_to_min", &p.schedule_to_min);
    proof {
        assert(w.members() =~= old(w).members() + (opt_bool_m("limit_tcp_overhead"@, p.limit_tcp_overhead) + opt_bool_m("limit_lan_peers"@, p.limit_lan_peers) + opt_i64_m("alt_dl_limit"@, p.alt_dl_limit) + opt_i64_m("alt_up_limit"@, p.alt_up_limit) + opt_bool_m("scheduler_enabled"@, p.scheduler_enabled) + opt_i64_m("schedule_from_hour"@, p.schedule_from_hour) + opt_i64_m("schedule_from_min"@, p.schedule_from_min) + opt_i64_m("schedule_to_hour"@, p.schedule_to_hour) + opt_i64_m("schedule_to_min"@, p.schedule_to_min)));
    }
    let scheduler_days_code: Option<i64> = match &p.scheduler_days {
        Some(x) => Some(x.code() as i64),
        None => None,
    };
    proof {
        assert(scheduler_days_code == scheduler_days_code_opt(p.scheduler_days));
    }
    w.opt_i64_member("scheduler_days", &scheduler_days_code);
    proof {
        assert(w.members() =~= old(w).members() + (opt_bool_m("limit_tcp_overhead"@, p.limit_tcp_overhead) + opt_bool_m("limit_lan_peers"@, p.limit_lan_peers) + opt_i64_m("alt_dl_limit"@, p.alt_dl_limit) + opt_i64_m("alt_up_limit"@, p.alt_up_limit) + opt_bool_m("scheduler_enabled"@, p.scheduler_enabled) + opt_i64_m("schedule_from_hour"@, p.schedule_from_hour) + opt_i64_m("schedule_from_min"@, p.schedule_from_min) + opt_i64_m("schedule_to_hour"@, p.schedule_to_hour) + opt_i64_m("schedule_to_min"@, p.schedule_to_min) + opt_i64_m("scheduler_days"@, scheduler_days_code_opt(p.scheduler_days))));
    }
}

#[verifier::rlimit(60)]
fn write_prefs_g(w: &mut JsonObjectWriter, p: &Preferences)
    requires
        old(w).wf(),
    ensures
        final(w).wf(),
        final(w).members() == old(w).members() + pref_members_g(*p),
{
    w.opt_bool_member("dht", &p.dht);
    proof {
        assert(w.members() =~= old(w).members() + (opt_bool_m("dht"@, p.dht)));
    }
    w.opt_bool_member("pex", &p.pex);
    proof {
        assert(w.members() =~= old(w).members() + (opt_bool_m("dht"@, p.dht) + opt_bool_m("pex"@, p.pex)));
    }
    w.opt_bool_member("lsd", &p.lsd);
    proof {
        assert(w.members() =~= old(w).members() + (opt_bool_m("dht"@, p.dht) + opt_bool_m("pex"@, p.pex) + opt_bool_m("lsd"@, p.lsd)));
    }
    let encryption_code: Option<i64> = match &p.encryption {
        Some(x) => Some(x.code() as i64),
        None => None,
    };
    proof {
        assert(encryption_code == encryption_code_opt(p.encryption));
    }
    w.opt_i64_member("encryption", &encryption_code);
    proof {
        assert(w.members() =~= old(w).members() + (opt_bool_m("dht"@, p.dht) + opt_bool_m("pex"@, p.pex) + opt_bool_m("lsd"@, p.lsd) + opt_i64_m("encryption"@, encryption_code_opt(p.encryption))));
    }
    w.opt_bool_member("anonymous_mode", &p.anonymous_mode);
    proof {
        assert(w.members() =~= old(w).members() + (opt_bool_m("dht"@, p.dht) + opt_bool_m("pex"@, p.pex) + opt_bool_m("lsd"@, p.lsd) + opt_i64_m("encryption"@, encryption_code_opt(p.encryption)) + opt_bool_m("anonymous_mode"@, p.anonymous_mode)));
    }
    let proxy_type_code: Option<i64> = match &p.proxy_type {
        Some(x) => Some(x.code() as i64),
        None => None,
    };
    proof {
        assert(proxy_type_code == proxy_type_code_opt(p.proxy_type));
    }
    w.opt_i64_member("proxy_type", &proxy_type_code);
    proof {
        assert(w.members() =~= old(w).members() + (opt_bool_m("dht"@, p.dht) + opt_bool_m("pex"@, p.pex) + opt_bool_m("lsd"@, p.lsd) + opt_i64_m("encryption"@, encryption_code_opt(p.encryption)) + opt_bool_m("anonymous_mode"@, p.anonymous_mode) + opt_i64_m("proxy_type"@, proxy_type_code_opt(p.proxy_type))));
    }
    w.opt_string_member("proxy_ip", &p.proxy_ip);
    proof {
        assert(w.members() =~= old(w).members() + (opt_bool_m("dht"@, p.dht) + opt_bool_m("pex"@, p.pex) + opt_bool_m("lsd"@, p.lsd) + opt_i64_m("encryption"@, encryption_code_opt(p.encryption)) + opt_bool_m("anonymous_mode"@, p.anonymous_mode) + opt_i64_m("proxy_type"@, proxy_type_code_opt(p.proxy_type)) + opt_string_m("proxy_ip"@, p.proxy_ip)));
    }
    w.opt_i64_member("proxy_port", &p.proxy_port);
    proof {
        assert(w.members() =~= old(w).members() + (opt_bool_m("dht"@, p.dht) + opt_bool_m("pex"@, p.pex) + opt_bool_m("lsd"@, p.lsd) + opt_i64_m("encryption"@, encryption_code_opt(p.encryption)) + opt_bool_m("anonymous_mode"@, p.anonymous_mode) + opt_i64_m("proxy_type"@, proxy_type_code_opt(p.proxy_type)) + opt_string_m("proxy_ip"@, p.proxy_ip) + opt_i64_m("proxy_port"@, p.proxy_port)));
    }
    w.opt_bool_member("proxy_peer_connections", &p.proxy_peer_connections);
    proof {
        assert(w.members() =~= old(w).members() + (opt_bool_m("dht"@, p.dht) + opt_bool_m("pex"@, p.pex) + opt_bool_m("lsd"@, p.lsd) + opt_i64_m("encryption"@, encryption_code_opt(p.encryption)) + opt_bool_m("anonymous_mode"@, p.anonymous_mode) + opt_i64_m("proxy_type"@, proxy_type_code_opt(p.proxy_type)) + opt_string_m("proxy_ip"@, p.proxy_ip) + opt_i64_m("proxy_port"@, p.proxy_port) + opt_bool_m("proxy_peer_connections"@, p.proxy_peer_connections)));
    }
    w.opt_bool_member("proxy_auth_enabled", &p.proxy_auth_enabled);
    proof {
        assert(w.members() =~= old(w).members() + (opt_bool_m("dht"@, p.dht) + opt_bool_m("pex"@, p.pex) + opt_bool_m("lsd"@, p.lsd) + opt_i64_m("encryption"@, encryption_code_opt(p.encryption)) + opt_bool_m("anonymous_mode"@, p.anonymous_mode) + opt_i64_m("proxy_type"@, proxy_type_code_opt(p.proxy_type)) + opt_string_m("proxy_ip"@, p.proxy_ip) + opt_i64_m("proxy_port"@, p.proxy_port) + opt_bool_m("proxy_peer_connections"@, p.proxy_peer_connections) + opt_bool_m("proxy_auth_enabled"@, p.proxy_auth_enabled)));
    }
}

#[verifier::rlimit(60)]
fn write_prefs_h(w: &mut JsonObjectWriter, p: &Preferences)
    requires
        old(w).wf(),
    ensures
        final(w).wf(),
        final(w).members() == old(w).members() + pref_members_h(*p),
{
    w.opt_string_member("proxy_username", &p.proxy_username);
    proof {
        assert(w.members() =~= old(w).members() + (opt_string_m("proxy_username"@, p.proxy_username)));
    }
    w.opt_string_member("proxy_password", &p.proxy_password);
    proof {
        assert(w.members() =~= old(w).members() + (opt_string_m("proxy_username"@, p.proxy_username) + opt_string_m("proxy_password"@, p.proxy_password)));
    }
    w.opt_bool_member("proxy_torrents_only", &p.proxy_torrents_only);
    proof {
        assert(w.members() =~= old(w).members() + (opt_string_m("proxy_username"@, p.proxy_username) + opt_string_m("proxy_password"@, p.proxy_password) + opt_bool_m("proxy_torrents_only"@, p.proxy_torrents_only)));
    }
    w.opt_bool_member("ip_filter_enabled", &p.ip_filter_enabled);
    proof {
        assert(w.members() =~= old(w).members() + (opt_string_m("proxy_username"@, p.proxy_username) + opt_string_m("proxy_password"@, p.proxy_password) + opt_bool_m("proxy_torrents_only"@, p.proxy_torrents_only) + opt_bool_m("ip_filter_enabled"@, p.ip_filter_enabled)));
    }
    w.opt_string_member("ip_filter_path", &p.ip_filter_path);
    proof {
        assert(w.members() =~= old(w).members() + (opt_string_m("proxy_username"@, p.proxy_username) + opt_string_m("proxy_password"@, p.proxy_password) + opt_bool_m("proxy_torrents_only"@, p.proxy_torrents_only) + opt_bool_m("ip_filter_enabled"@, p.ip_filter_enabled) + opt_string_m("ip_filter_path"@, p.ip_filter_path)));
    }
    w.opt_bool_member("ip_filter_trackers", &p.ip_filter_trackers);
    proof {
        assert(w.members() =~= old(w).members() + (opt_string_m("proxy_username"@, p.proxy_username) + opt_string_m("proxy_password"@, p.proxy_password) + opt_bool_m("proxy_torrents_only"@, p.proxy_torrents_only) + opt_bool_m("ip_filter_enabled"@, p.ip_filter_enabled) + opt_string_m("ip_filter_path"@, p.ip_filter_path) + opt_bool_m("ip_filter_trackers"@, p.ip_filter_trackers)));
    }
    w.opt_string_member("web_ui_domain_list", &p.web_ui_domain_list);
    proof {
        assert(w.members() =~= old(w).members() + (opt_string_m("proxy_username"@, p.proxy_username) + opt_string_m("proxy_password"@, p.proxy_password) + opt_bool_m("proxy_torrents_only"@, p.proxy_torrents_only) + opt_bool_m("ip_filter_enabled"@, p.ip_filter_enabled) + opt_string_m("ip_filter_path"@, p.ip_filter_path) + opt_bool_m("ip_filter_trackers"@, p.ip_filter_trackers) + opt_string_m("web_ui_domain_list"@, p.web_ui_domain_list)));
    }
    w.opt_string_member("web_ui_address", &p.web_ui_address);
    proof {
        assert(w.members() =~= old(w).members() + (opt_string_m("proxy_username"@, p.proxy_username) + opt_string_m("proxy_password"@, p.proxy_password) + opt_bool_m("proxy_torrents_only"@, p.proxy_torrents_only) + opt_bool_m("ip_filter_enabled"@, p.ip_filter_enabled) + opt_string_m("ip_filter_path"@, p.ip_filter_path) + opt_bool_m("ip_filter_trackers"@, p.ip_filter_trackers) + opt_string_m("web_ui_domain_list"@, p.web_ui_domain_list) + opt_string_m("web_ui_address"@, p.web_ui_address)));
    }
    w.opt_i64_member("web_ui_port", &p.web_ui_port);
    proof {
        assert(w.members() =~= old(w).members() + (opt_string_m("proxy_username"@, p.proxy_username) + opt_string_m("proxy_password"@, p.proxy_password) + opt_bool_m("proxy_torrents_only"@, p.proxy_torrents_only) + opt_bool_m("ip_filter_enabled"@, p.ip_filter_enabled) + opt_string_m("ip_filter_path"@, p.ip_filter_path) + opt_bool_m("ip_filter_trackers"@, p.ip_filter_trackers) + opt_string_m("web_ui_domain_list"@, p.web_ui_domain_list) + opt_string_m("web_ui_address"@, p.web_ui_address) + opt_i64_m("web_ui_port"@, p.web_ui_port)));
    }
    w.opt_bool_member("web_ui_upnp", &p.web_ui_upnp);
    proof {
        assert(w.members() =~= old(w).members() + (opt_string_m("proxy_username"@, p.proxy_username) + opt_string_m("proxy_password"@, p.proxy_password) + opt_bool_m("proxy_torrents_only"@, p.proxy_torrents_only) + opt_bool_m("ip_filter_enabled"@, p.ip_filter_enabled) + opt_string_m("ip_filter_path"@, p.ip_filter_path) + opt_bool_m("ip_filter_trackers"@, p.ip_filter_trackers) + opt_string_m("web_ui_domain_list"@, p.web_ui_domain_list) + opt_string_m("web_ui_address"@, p.web_ui_address) + opt_i64_m("web_ui_port"@, p.web_ui_port) + opt_bool_m("web_ui_upnp"@, p.web_ui_upnp)));
    }
}

#[verifier::rlimit(60)]
fn write_prefs_i(w: &mut JsonObjectWriter, p: &Preferences)
    requires
        old(w).wf(),
    ensures
        final(w).wf(),
        final(w).members() == old(w).members() + pref_members_i(*p),
{
    w.opt_string_member("web_ui_username", &p.web_ui_username);
    proof {
        assert(w.members() =~= old(w).members() + (opt_string_m("web_ui_username"@, p.web_ui_username)));
    }
    w.opt_string_member("web_ui_password", &p.web_ui_password);
    proof {
        assert(w.members() =~= old(w).members() + (opt_string_m("web_ui_username"@, p.web_ui_username) + opt_string_m("web_ui_password"@, p.web_ui_password)));
    }
    w.opt_bool_member("web_ui_csrf_protection_enabled", &p.web_ui_csrf_protection_enabled);
    proof {
        assert(w.members() =~= old(w).members() + (opt_string_m("web_ui_username"@, p.web_ui_username) + opt_string_m("web_ui_password"@, p.web_ui_password) + opt_bool_m("web_ui_csrf_protection_enabled"@, p.web_ui_csrf_protection_enabled)));
    }
    w.opt_bool_member("web_ui_clickjacking_protection_enabled", &p.web_ui_clickjacking_protection_enabled);
    proof {
        assert(w.members() =~= old(w).members() + (opt_string_m("web_ui_username"@, p.web_ui_username) + opt_string_m("web_ui_password"@, p.web_ui_password) + opt_bool_m("web_ui_csrf_protection_enabled"@, p.web_ui_csrf_protection_enabled) + opt_bool_m("web_ui_clickjacking_protection_enabled"@, p.web_ui_clickjacking_protection_enabled)));
    }
    w.opt_bool_member("web_ui_secure_cookie_enabled", &p.web_ui_secure_cookie_enabled);
    proof {
        assert(w.members() =~= old(w).members() + (opt_string_m("web_ui_username"@, p.web_ui_username) + opt_string_m("web_ui_password"@, p.web_ui_password) + opt_bool_m("web_ui_csrf_protection_enabled"@, p.web_ui_csrf_protection_enabled) + opt_bool_m("web_ui_clickjacking_protection_enabled"@, p.web_ui_clickjacking_protection_enabled) + opt_bool_m("web_ui_secure_cookie_enabled"@, p.web_ui_secure_cookie_enabled)));
    }
    w.opt_i64_member("web_ui_max_auth_fail_count", &p.web_ui_max_auth_fail_count);
    proof {
        assert(w.members() =~= old(w).members() + (opt_string_m("web_ui_username"@, p.web_ui_username) + opt_string_m("web_ui_password"@, p.web_ui_password) + opt_bool_m("web_ui_csrf_protection_enabled"@, p.web_ui_csrf_protection_enabled) + opt_bool_m("web_ui_clickjacking_protection_enabled"@, p.web_ui_clickjacking_protection_enabled) + opt_bool_m("web_ui_secure_cookie_enabled"@, p.web_ui_secure_cookie_enabled) + opt_i64_m("web_ui_max_auth_fail_count"@, p.web_ui_max_auth_fail_count)));
    }
    w.opt_i64_member("web_ui_ban_duration", &p.web_ui_ban_duration);
    proof {
        assert(w.members() =~= old(w).members() + (opt_string_m("web_ui_username"@, p.web_ui_username) + opt_string_m("web_ui_password"@, p.web_ui_password) + opt_bool_m("web_ui_csrf_protection_enabled"@, p.web_ui_csrf_protection_enabled) + opt_bool_m("web_ui_clickjacking_protection_enabled"@, p.web_ui_clickjacking_protection_enabled) + opt_bool_m("web_ui_secure_cookie_enabled"@, p.web_ui_secure_cookie_enabled) + opt_i64_m("web_ui_max_auth_fail_count"@, p.web_ui_max_auth_fail_count) + opt_i64_m("web_ui_ban_duration"@, p.web_ui_ban_duration)));
    }
    w.opt_i64_member("web_ui_session_timeout", &p.web_ui_session_timeout);
    proof {
        assert(w.members() =~= old(w).members() + (opt_string_m("web_ui_username"@, p.web_ui_username) + opt_string_m("web_ui_password"@, p.web_ui_password) + opt_bool_m("web_ui_csrf_protection_enabled"@, p.web_ui_csrf_protection_enabled) + opt_bool_m("web_ui_clickjacking_protection_enabled"@, p.web_ui_clickjacking_protection_enabled) + opt_bool_m("web_ui_secure_cookie_enabled"@, p.web_ui_secure_cookie_enabled) + opt_i64_m("web_ui_max_auth_fail_count"@, p.web_ui_max_auth_fail_count) + opt_i64_m("web_ui_ban_duration"@, p.web_ui_ban_duration) + opt_i64_m("web_ui_session_timeout"@, p.web_ui_session_timeout)));
    }
    w.opt_bool_member("web_ui_host_header_validation_enabled", &p.web_ui_host_header_validation_enabled);
    proof {
        assert(w.members() =~= old(w).members() + (opt_string_m("web_ui_username"@, p.web_ui_username) + opt_string_m("web_ui_password"@, p.web_ui_password) + opt_bool_m("web_ui_csrf_protection_enabled"@, p.web_ui_csrf_protection_enabled) + opt_bool_m("web_ui_clickjacking_protection_enabled"@, p.web_ui_clickjacking_protection_enabled) + opt_bool_m("web_ui_secure_cookie_enabled"@, p.web_ui_secure_cookie_enabled) + opt_i64_m("web_ui_max_auth_fail_count"@, p.web_ui_max_auth_fail_count) + opt_i64_m("web_ui_ban_duration"@, p.web_ui_ban_duration) + opt_i64_m("web_ui_session_timeout"@, p.web_ui_session_timeout) + opt_bool_m("web_ui_host_header_validation_enabled"@, p.web_ui_host_header_validation_enabled)));
    }
    w.opt_bool_member("bypass_local_auth", &p.bypass_local_auth);
    proof {
        assert(w.members() =~= old(w).members() + (opt_string_m("web_ui_username"@, p.web_ui_username) + opt_string_m("web_ui_password"@, p.web_ui_password) + opt_bool_m("web_ui_csrf_protection_enabled"@, p.web_ui_csrf_protection_enabled) + opt_bool_m("web_ui_clickjacking_protection_enabled"@, p.web_ui_clickjacking_protection_enabled) + opt_bool_m("web_ui_secure_cookie_enabled"@, p.web_ui_secure_cookie_enabled) + opt_i64_m("web_ui_max_auth_fail_count"@, p.web_ui_max_auth_fail_count) + opt_i64_m("web_ui_ban_duration"@, p.web_ui_ban_duration) + opt_i64_m("web_ui_session_timeout"@, p.web_ui_session_timeout) + opt_bool_m("web_ui_host_header_validation_enabled"@, p.web_ui_host_header_validation_enabled) + opt_bool_m("bypass_local_auth"@, p.bypass_local_auth)));
    }
}

#[verifier::rlimit(60)]
fn write_prefs_j(w: &mut JsonObjectWriter, p: &Preferences)
    requires
        old(w).wf(),
    ensures
        final(w).wf(),
        final(w).members() == old(w).members() + pref_members_j(*p),
{
    w.opt_bool_member("bypass_auth_subnet_whitelist_enabled", &p.bypass_auth_subnet_whitelist_enabled);
    proof {
        assert(w.members() =~= old(w).members() + (opt_bool_m("bypass_auth_subnet_whitelist_enabled"@, p.bypass_auth_subnet_whitelist_enabled)));
    }
    w.opt_string_member("bypass_auth_subnet_whitelist", &p.bypass_auth_subnet_whitelist);
    proof {
        assert(w.members() =~= old(w).members() + (opt_bool_m("bypass_auth_subnet_whitelist_enabled"@, p.bypass_auth_subnet_whitelist_enabled) + opt_string_m("bypass_auth_subnet_whitelist"@, p.bypass_auth_subnet_whitelist)));
    }
    w.opt_bool_member("alternative_webui_enabled", &p.alternative_webui_enabled);
    proof {
        assert(w.members() =~= old(w).members() + (opt_bool_m("bypass_auth_subnet_whitelist_enabled"@, p.bypass_auth_subnet_whitelist_enabled) + opt_string_m("bypass_auth_subnet_whitelist"@, p.bypass_auth_subnet_whitelist) + opt_bool_m("alternative_webui_enabled"@, p.alternative_webui_enabled)));
    }
    w.opt_string_member("alternative_webui_path", &p.alternative_webui_path);
    proof {
        assert(w.members() =~= old(w).members() + (opt_bool_m("bypass_auth_subnet_whitelist_enabled"@, p.bypass_auth_subnet_whitelist_enabled) + opt_string_m("bypass_auth_subnet_whitelist"@, p.bypass_auth_subnet_whitelist) + opt_bool_m("alternative_webui_enabled"@, p.alternative_webui_enabled) + opt_string_m("alternative_webui_path"@, p.alternative_webui_path)));
    }
    w.opt_bool_member("use_https", &p.use_https);
    proof {
        assert(w.members() =~= old(w).members() + (opt_bool_m("bypass_auth_subnet_whitelist_enabled"@, p.bypass_auth_subnet_whitelist_enabled) + opt_string_m("bypass_auth_subnet_whitelist"@, p.bypass_auth_subnet_whitelist) + opt_bool_m("alternative_webui_enabled"@, p.alternative_webui_enabled) + opt_string_m("alternative_webui_path"@, p.alternative_webui_path) + opt_bool_m("use_https"@, p.use_https)));
    }
    w.opt_string_member("ssl_key", &p.ssl_key);
    proof {
        assert(w.members() =~= old(w).members() + (opt_bool_m("bypass_auth_subnet_whitelist_enabled"@, p.bypass_auth_subnet_whitelist_enabled) + opt_string_m("bypass_auth_subnet_whitelist"@, p.bypass_auth_subnet_whitelist) + opt_bool_m("alternative_webui_enabled"@, p.alternative_webui_enabled) + opt_string_m("alternative_webui_path"@, p.alternative_webui_path) + opt_bool_m("use_https"@, p.use_https) + opt_string_m("ssl_key"@, p.ssl_key)));
    }
    w.opt_string_member("ssl_cert", &p.ssl_cert);
    proof {
        assert(w.members() =~= old(w).members() + (opt_bool_m("bypass_auth_subnet_whitelist_enabled"@, p.bypass_auth_subnet_whitelist_enabled) + opt_string_m("bypass_auth_subnet_whitelist"@, p.bypass_auth_subnet_whitelist) + opt_bool_m("alternative_webui_enabled"@, p.alternative_webui_enabled) + opt_string_m("alternative_webui_path"@, p.alternative_webui_path) + opt_bool_m("use_https"@, p.use_https) + opt_string_m("ssl_key"@, p.ssl_key) + opt_string_m("ssl_cert"@, p.ssl_cert)));
    }
    w.opt_string_member("web_ui_https_key_path", &p.web_ui_https_key_path);
    proof {
        assert(w.members() =~= old(w).members() + (opt_bool_m("bypass_auth_subnet_whitelist_enabled"@, p.bypass_auth_subnet_whitelist_enabled) + opt_string_m("bypass_auth_subnet_whitelist"@, p.bypass_auth_subnet_whitelist) + opt_bool_m("alternative_webui_enabled"@, p.alternative_webui_enabled) + opt_string_m("alternative_webui_path"@, p.alternative_webui_path) + opt_bool_m("use_https"@, p.use_https) + opt_string_m("ssl_key"@, p.ssl_key) + opt_string_m("ssl_cert"@, p.ssl_cert) + opt_string_m("web_ui_https_key_path"@, p.web_ui_https_key_path)));
    }
    w.opt_string_member("web_ui_https_cert_path", &p.web_ui_https_cert_path);
    proof {
        assert(w.members() =~= old(w).members() + (opt_bool_m("bypass_auth_subnet_whitelist_enabled"@, p.bypass_auth_subnet_whitelist_enabled) + opt_string_m("bypass_auth_subnet_whitelist"@, p.bypass_auth_subnet_whitelist) + opt_bool_m("alternative_webui_enabled"@, p.alternative_webui_enabled) + opt_string_m("alternative_webui_path"@, p.alternative_webui_path) + opt_bool_m("use_https"@, p.use_https) + opt_string_m("ssl_key"@, p.ssl_key) + opt_string_m("ssl_cert"@, p.ssl_cert) + opt_string_m("web_ui_https_key_path"@, p.web_ui_https_key_path) + opt_string_m("web_ui_https_cert_path"@, p.web_ui_https_cert_path)));
    }
    w.opt_bool_member("dyndns_enabled", &p.dyndns_enabled);
    proof {
        assert(w.members() =~= old(w).members() + (opt_bool_m("bypass_auth_subnet_whitelist_enabled"@, p.bypass_auth_subnet_whitelist_enabled) + opt_string_m("bypass_auth_subnet_whitelist"@, p.bypass_auth_subnet_whitelist) + opt_bool_m("alternative_webui_enabled"@, p.alternative_webui_enabled) + opt_string_m("alternative_webui_path"@, p.alternative_webui_path) + opt_bool_m("use_https"@, p.use_https) + opt_string_m("ssl_key"@, p.ssl_key) + opt_string_m("ssl_cert"@, p.ssl_cert) + opt_string_m("web_ui_https_key_path"@, p.web_ui_https_key_path) + opt_string_m("web_ui_https_cert_path"@, p.web_ui_https_cert_path) + opt_bool_m("dyndns_enabled"@, p.dyndns_enabled)));
    }
}

#[verifier::rlimit(60)]
fn write_prefs_k(w: &mut JsonObjectWriter, p: &Preferences)
    requires
        old(w).wf(),
    ensures
        final(w).wf(),
        final(w).members() == old(w).members() + pref_members_k(*p),
{
    let dyndns_service_code: Option<i64> = match &p.dyndns_service {
        Some(x) => Some(x.code() as i64),
        None => None,
    };
    proof {
        assert(dyndns_service_code == dyndns_service_code_opt(p.dyndns_service));
    }
    w.opt_i64_member("dyndns_service", &dyndns_service_code);
    proof {
        assert(w.members() =~= old(w).members() + (opt_i64_m("dyndns_service"@, dyndns_service_code_opt(p.dyndns_service))));
    }
    w.opt_string_member("dyndns_username", &p.dyndns_username);
    proof {
        assert(w.members() =~= old(w).members() + (opt_i64_m("dyndns_service"@, dyndns_service_code_opt(p.dyndns_service)) + opt_string_m("dyndns_username"@, p.dyndns_username)));
    }
    w.opt_string_member("dyndns_password", &p.dyndns_password);
    proof {
        assert(w.members() =~= old(w).members() + (opt_i64_m("dyndns_service"@, dyndns_service_code_opt(p.dyndns_service)) + opt_string_m("dyndns_username"@, p.dyndns_username) + opt_string_m("dyndns_password"@, p.dyndns_password)));
    }
    w.opt_string_member("dyndns_domain", &p.dyndns_domain);
    proof {
        assert(w.members() =~= old(w).members() + (opt_i64_m("dyndns_service"@, dyndns_service_code_opt(p.dyndns_service)) + opt_string_m("dyndns_username"@, p.dyndns_username) + opt_string_m("dyndns_password"@, p.dyndns_password) + opt_string_m("dyndns_domain"@, p.dyndns_domain)));
    }
    w.opt_i64_member("rss_refresh_interval", &p.rss_refresh_interval);
    proof {
        assert(w.members() =~= old(w).members() + (opt_i64_m("dyndns_service"@, dyndns_service_code_opt(p.dyndns_service)) + opt_string_m("dyndns_username"@, p.dyndns_username) + opt_string_m("dyndns_password"@, p.dyndns_password) + opt_string_m("dyndns_domain"@, p.dyndns_domain) + opt_i64_m("rss_refresh_interval"@, p.rss_refresh_interval)));
    }
    w.opt_i64_member("rss_max_articles_per_feed", &p.rss_max_articles_per_feed);
    proof {
        assert(w.members() =~= old(w).members() + (opt_i64_m("dyndns_service"@, dyndns_service_code_opt(p.dyndns_service)) + opt_string_m("dyndns_username"@, p.dyndns_username) + opt_string_m("dyndns_password"@, p.dyndns_password) + opt_string_m("dyndns_domain"@, p.dyndns_domain) + opt_i64_m("rss_refresh_interval"@, p.rss_refresh_interval) + opt_i64_m("rss_max_articles_per_feed"@, p.rss_max_articles_per_feed)));
    }
    w.opt_bool_member("rss_processing_enabled", &p.rss_processing_enabled);
    proof {
        assert(w.members() =~= old(w).members() + (opt_i64_m("dyndns_service"@, dyndns_service_code_opt(p.dyndns_service)) + opt_string_m("dyndns_username"@, p.dyndns_username) + opt_string_m("dyndns_password"@, p.dyndns_password) + opt_string_m("dyndns_domain"@, p.dyndns_domain) + opt_i64_m("rss_refresh_interval"@, p.rss_refresh_interval) + opt_i64_m("rss_max_articles_per_feed"@, p.rss_max_articles_per_feed) + opt_bool_m("rss_processing_enabled"@, p.rss_processing_enabled)));
    }
    w.opt_bool_member("rss_auto_downloading_enabled", &p.rss_auto_downloading_enabled);
    proof {
        assert(w.members() =~= old(w).members() + (opt_i64_m("dyndns_service"@, dyndns_service_code_opt(p.dyndns_service)) + opt_string_m("dyndns_username"@, p.dyndns_username) + opt_string_m("dyndns_password"@, p.dyndns_password) + opt_string_m("dyndns_domain"@, p.dyndns_domain) + opt_i64_m("rss_refresh_interval"@, p.rss_refresh_interval) + opt_i64_m("rss_max_articles_per_feed"@, p.rss_max_articles_per_feed) + opt_bool_m("rss_processing_enabled"@, p.rss_processing_enabled) + opt_bool_m("rss_auto_downloading_enabled"@, p.rss_auto_downloading_enabled)));
    }
    w.opt_bool_member("rss_download_repack_proper_episodes", &p.rss_download_repack_proper_episodes);
    proof {
        assert(w.members() =~= old(w).members() + (opt_i64_m("dyndns_service"@, dyndns_service_code_opt(p.dyndns_service)) + opt_string_m("dyndns_username"@, p.dyndns_username) + opt_string_m("dyndns_password"@, p.dyndns_password) + opt_string_m("dyndns_domain"@, p.dyndns_domain) + opt_i64_m("rss_refresh_interval"@, p.rss_refresh_interval) + opt_i64_m("rss_max_articles_per_feed"@, p.rss_max_articles_per_feed) + opt_bool_m("rss_processing_enabled"@, p.rss_processing_enabled) + opt_bool_m("rss_auto_downloading_enabled"@, p.rss_auto_downloading_enabled) + opt_bool_m("rss_download_repack_proper_episodes"@, p.rss_download_repack_proper_episodes)));
    }
    w.opt_string_member("rss_smart_episode_filters", &p.rss_smart_episode_filters);
    proof {
        assert(w.members() =~= old(w).members() + (opt_i64_m("dyndns_service"@, dyndns_service_code_opt(p.dyndns_service)) + opt_string_m("dyndns_username"@, p.dyndns_username) + opt_string_m("dyndns_password"@, p.dyndns_password) + opt_string_m("dyndns_domain"@, p.dyndns_domain) + opt_i64_m("rss_refresh_interval"@, p.rss_refresh_interval) + opt_i64_m("rss_max_articles_per_feed"@, p.rss_max_articles_per_feed) + opt_bool_m("rss_processing_enabled"@, p.rss_processing_enabled) + opt_bool_m("rss_auto_downloading_enabled"@, p.rss_auto_downloading_enabled) + opt_bool_m("rss_download_repack_proper_episodes"@, p.rss_download_repack_proper_episodes) + opt_string_m("rss_smart_episode_filters"@, p.rss_smart_episode_filters)));
    }
}

#[verifier::rlimit(60)]
fn write_prefs_l(w: &mut JsonObjectWriter, p: &Preferences)
    requires
        old(w).wf(),
    ensures
        final(w).wf(),
        final(w).members() == old(w).members() + pref_members_l(*p),
{
    w.opt_bool_member("add_trackers_enabled", &p.add_trackers_enabled);
    proof {
        assert(w.members() =~= old(w).members() + (opt_bool_m("add_trackers_enabled"@, p.add_trackers_enabled)));
    }
    w.opt_string_member("add_trackers", &p.add_trackers);
    proof {
        assert(w.members() =~= old(w).members() + (opt_bool_m("add_trackers_enabled"@, p.add_trackers_enabled) + opt_string_m("add_trackers"@, p.add_trackers)));
    }
    w.opt_bool_member("web_ui_use_custom_http_headers_enabled", &p.web_ui_use_custom_http_headers_enabled);
    proof {
        assert(w.members() =~= old(w).members() + (opt_bool_m("add_trackers_enabled"@, p.add_trackers_enabled) + opt_string_m("add_trackers"@, p.add_trackers) + opt_bool_m("web_ui_use_custom_http_headers_enabled"@, p.web_ui_use_custom_http_headers_enabled)));
    }
    w.opt_string_member("web_ui_custom_http_headers", &p.web_ui_custom_http_headers);
    proof {
        assert(w.members() =~= old(w).members() + (opt_bool_m("add_trackers_enabled"@, p.add_trackers_enabled) + opt_string_m("add_trackers"@, p.add_trackers) + opt_bool_m("web_ui_use_custom_http_headers_enabled"@, p.web_ui_use_custom_http_headers_enabled) + opt_string_m("web_ui_custom_http_headers"@, p.web_ui_custom_http_headers)));
    }
    w.opt_bool_member("max_seeding_time_enabled", &p.max_seeding_time_enabled);
    proof {
        assert(w.members() =~= old(w).members() + (opt_bool_m("add_trackers_enabled"@, p.add_trackers_enabled) + opt_string_m("add_trackers"@, p.add_trackers) + opt_bool_m("web_ui_use_custom_http_headers_enabled"@, p.web_ui_use_custom_http_headers_enabled) + opt_string_m("web_ui_custom_http_headers"@, p.web_ui_custom_http_headers) + opt_bool_m("max_seeding_time_enabled"@, p.max_seeding_time_enabled)));
    }
    w.opt_i64_member("max_seeding_time", &p.max_seeding_time);
    proof {
        assert(w.members() =~= old(w).members() + (opt_bool_m("add_trackers_enabled"@, p.add_trackers_enabled) + opt_string_m("add_trackers"@, p.add_trackers) + opt_bool_m("web_ui_use_custom_http_headers_enabled"@, p.web_ui_use_custom_http_headers_enabled) + opt_string_m("web_ui_custom_http_headers"@, p.web_ui_custom_http_headers) + opt_bool_m("max_seeding_time_enabled"@, p.max_seeding_time_enabled) + opt_i64_m("max_seeding_time"@, p.max_seeding_time)));
    }
    w.opt_string_member("announce_ip", &p.announce_ip);
    proof {
        assert(w.members() =~= old(w).members() + (opt_bool_m("add_trackers_enabled"@, p.add_trackers_enabled) + opt_string_m("add_trackers"@, p.add_trackers) + opt_bool_m("web_ui_use_custom_http_headers_enabled"@, p.web_ui_use_custom_http_headers_enabled) + opt_string_m("web_ui_custom_http_headers"@, p.web_ui_custom_http_headers) + opt_bool_m("max_seeding_time_enabled"@, p.max_seeding_time_enabled) + opt_i64_m("max_seeding_time"@, p.max_seeding_time) + opt_string_m("announce_ip"@, p.announce_ip)));
    }
    w.opt_bool_member("announce_to_all_tiers", &p.announce_to_all_tiers);
    proof {
        assert(w.members() =~= old(w).members() + (opt_bool_m("add_trackers_enabled"@, p.add_trackers_enabled) + opt_string_m("add_trackers"@, p.add_trackers) + opt_bool_m("web_ui_use_custom_http_headers_enabled"@, p.web_ui_use_custom_http_headers_enabled) + opt_string_m("web_ui_custom_http_headers"@, p.web_ui_custom_http_headers) + opt_bool_m("max_seeding_time_enabled"@, p.max_seeding_time_enabled) + opt_i64_m("max_seeding_time"@, p.max_seeding_time) + opt_string_m("announce_ip"@, p.announce_ip) + opt_bool_m("announce_to_all_tiers"@, p.announce_to_all_tiers)));
    }
    w.opt_bool_member("announce_to_all_trackers", &p.announce_to_all_trackers);
    proof {
        assert(w.members() =~= old(w).members() + (opt_bool_m("add_trackers_enabled"@, p.add_trackers_enabled) + opt_string_m("add_trackers"@, p.add_trackers) + opt_bool_m("web_ui_use_custom_http_headers_enabled"@, p.web_ui_use_custom_http_headers_enabled) + opt_string_m("web_ui_custom_http_headers"@, p.web_ui_custom_http_headers) + opt_bool_m("max_seeding_time_enabled"@, p.max_seeding_time_enabled) + opt_i64_m("max_seeding_time"@, p.max_seeding_time) + opt_string_m("announce_ip"@, p.announce_ip) + opt_bool_m("announce_to_all_tiers"@, p.announce_to_all_tiers) + opt_bool_m("announce_to_all_trackers"@, p.announce_to_all_trackers)));
    }
    w.opt_i64_member("async_io_threads", &p.async_io_threads);
    proof {
        assert(w.members() =~= old(w).members() + (opt_bool_m("add_trackers_enabled"@, p.add_trackers_enabled) + opt_string_m("add_trackers"@, p.add_trackers) + opt_bool_m("web_ui_use_custom_http_headers_enabled"@, p.web_ui_use_custom_http_headers_enabled) + opt_string_m("web_ui_custom_http_headers"@, p.web_ui_custom_http_headers) + opt_bool_m("max_seeding_time_enabled"@, p.max_seeding_time_enabled) + opt_i64_m("max_seeding_time"@, p.max_seeding_time) + opt_string_m("announce_ip"@, p.announce_ip) + opt_bool_m("announce_to_all_tiers"@, p.announce_to_all_tiers) + opt_bool_m("announce_to_all_trackers"@, p.announce_to_all_trackers) + opt_i64_m("async_io_threads"@, p.async_io_threads)));
    }
}

#[verifier::rlimit(60)]
fn write_prefs_m(w: &mut JsonObjectWriter, p: &Preferences)
    requires
        old(w).wf(),
    ensures
        final(w).wf(),
        final(w).members() == old(w).members() + pref_members_m(*p),
{
    w.opt_string_member("banned_ips", &p.banned_ips);
    proof {
        assert(w.members() =~= old(w).members() + (opt_string_m("banned_ips"@, p.banned_ips)));
    }
    w.opt_i64_member("checking_memory_use", &p.checking_memory_use);
    proof {
        assert(w.members() =~= old(w).members() + (opt_string_m("banned_ips"@, p.banned_ips) + opt_i64_m("checking_memory_use"@, p.checking_memory_use)));
    }
    w.opt_string_member("current_interface_address", &p.current_interface_address);
    proof {
        assert(w.members() =~= old(w).members() + (opt_string_m("banned_ips"@, p.banned_ips) + opt_i64_m("checking_memory_use"@, p.checking_memory_use) + opt_string_m("current_interface_address"@, p.current_interface_address)));
    }
    w.opt_string_member("current_network_interface", &p.current_network_interface);
    proof {
        assert(w.members() =~= old(w).members() + (opt_string_m("banned_ips"@, p.banned_ips) + opt_i64_m("checking_memory_use"@, p.checking_memory_use) + opt_string_m("current_interface_address"@, p.current_interface_address) + opt_string_m("current_network_interface"@, p.current_network_interface)));
    }
    w.opt_i64_member("disk_cache", &p.disk_cache);
    proof {
        assert(w.members() =~= old(w).members() + (opt_string_m("banned_ips"@, p.banned_ips) + opt_i64_m("checking_memory_use"@, p.checking_memory_use) + opt_string_m("current_interface_address"@, p.current_interface_address) + opt_string_m("current_network_interface"@, p.current_network_interface) + opt_i64_m("disk_cache"@, p.disk_cache)));
    }
    w.opt_i64_member("disk_cache_ttl", &p.disk_cache_ttl);
    proof {
        assert(w.members() =~= old(w).members() + (opt_string_m("banned_ips"@, p.banned_ips) + opt_i64_m("checking_memory_use"@, p.checking_memory_use) + opt_string_m("current_interface_address"@, p.current_interface_address) + opt_string_m("current_network_interface"@, p.current_network_interface) + opt_i64_m("disk_cache"@, p.disk_cache) + opt_i64_m("disk_cache_ttl"@, p.disk_cache_ttl)));
    }
    w.opt_i64_member("embedded_tracker_port", &p.embedded_tracker_port);
    proof {
        assert(w.members() =~= old(w).members() + (opt_string_m("banned_ips"@, p.banned_ips) + opt_i64_m("checking_memory_use"@, p.checking_memory_use) + opt_string_m("current_interface_address"@, p.current_interface_address) + opt_string_m("current_network_interface"@, p.current_network_interface) + opt_i64_m("disk_cache"@, p.disk_cache) + opt_i64_m("disk_cache_ttl"@, p.disk_cache_ttl) + opt_i64_m("embedded_tracker_port"@, p.embedded_tracker_port)));
    }
    w.opt_bool_member("enable_coalesce_read_write", &p.enable_coalesce_read_write);
    proof {
        assert(w.members() =~= old(w).members() + (opt_string_m("banned_ips"@, p.banned_ips) + opt_i64_m("checking_memory_use"@, p.checking_memory_use) + opt_string_m("current_interface_address"@, p.current_interface_address) + opt_string_m("current_network_interface"@, p.current_network_interface) + opt_i64_m("disk_cache"@, p.disk_cache) + opt_i64_m("disk_cache_ttl"@, p.disk_cache_ttl) + opt_i64_m("embedded_tracker_port"@, p.embedded_tracker_port) + opt_bool_m("enable_coalesce_read_write"@, p.enable_coalesce_read_write)));
    }
    w.opt_bool_member("enable_embedded_tracker", &p.enable_embedded_tracker);
    proof {
        assert(w.members() =~= old(w).members() + (opt_string_m("banned_ips"@, p.banned_ips) + opt_i64_m("checking_memory_use"@, p.checking_memory_use) + opt_string_m("current_interface_address"@, p.current_interface_address) + opt_string_m("current_network_interface"@, p.current_network_interface) + opt_i64_m("disk_cache"@, p.disk_cache) + opt_i64_m("disk_cache_ttl"@, p.disk_cache_ttl) + opt_i64_m("embedded_tracker_port"@, p.embedded_tracker_port) + opt_bool_m("enable_coalesce_read_write"@, p.enable_coalesce_read_write) + opt_bool_m("enable_embedded_tracker"@, p.enable_embedded_tracker)));
    }
    w.opt_bool_member("enable_multi_connections_from_same_ip", &p.enable_multi_connections_from_same_ip);
    proof {
        assert(w.members() =~= old(w).members() + (opt_string_m("banned_ips"@, p.banned_ips) + opt_i64_m("checking_memory_use"@, p.checking_memory_use) + opt_string_m("current_interface_address"@, p.current_interface_address) + opt_string_m("current_network_interface"@, p.current_network_interface) + opt_i64_m("disk_cache"@, p.disk_cache) + opt_i64_m("disk_cache_ttl"@, p.disk_cache_ttl) + opt_i64_m("embedded_tracker_port"@, p.embedded_tracker_port) + opt_bool_m("enable_coalesce_read_write"@, p.enable_coalesce_read_write) + opt_bool_m("enable_embedded_tracker"@, p.enable_embedded_tracker) + opt_bool_m("enable_multi_connections_from_same_ip"@, p.enable_multi_connections_from_same_ip)));
    }
}

#[verifier::rlimit(60)]
fn write_prefs_n(w: &mut JsonObjectWriter, p: &Preferences)
    requires
        old(w).wf(),
    ensures
        final(w).wf(),
        final(w).members() == old(w).members() + pref_members_n(*p),
{
    w.opt_bool_member("enable_os_cache", &p.enable_os_cache);
    proof {
        assert(w.members() =~= old(w).members() + (opt_bool_m("enable_os_cache"@, p.enable_os_cache)));
    }
    w.opt_bool_member("enable_upload_suggestions", &p.enable_upload_suggestions);
    proof {
        assert(w.members() =~= old(w).members() + (opt_bool_m("enable_os_cache"@, p.enable_os_cache) + opt_bool_m("enable_upload_suggestions"@, p.enable_upload_suggestions)));
    }
    w.opt_i64_member("file_pool_size", &p.file_pool_size);
    proof {
        assert(w.members() =~= old(w).members() + (opt_bool_m("enable_os_cache"@, p.enable_os_cache) + opt_bool_m("enable_upload_suggestions"@, p.enable_upload_suggestions) + opt_i64_m("file_pool_size"@, p.file_pool_size)));
    }
    w.opt_i64_member("outgoing_ports_max", &p.outgoing_ports_max);
    proof {
        assert(w.members() =~= old(w).members() + (opt_bool_m("enable_os_cache"@, p.enable_os_cache) + opt_bool_m("enable_upload_suggestions"@, p.enable_upload_suggestions) + opt_i64_m("file_pool_size"@, p.file_pool_size) + opt_i64_m("outgoing_ports_max"@, p.outgoing_ports_max)));
    }
    w.opt_i64_member("outgoing_ports_min", &p.outgoing_ports_min);
    proof {
        assert(w.members() =~= old(w).members() + (opt_bool_m("enable_os_cache"@, p.enable_os_cache) + opt_bool_m("enable_upload_suggestions"@, p.enable_upload_suggestions) + opt_i64_m("file_pool_size"@, p.file_pool_size) + opt_i64_m("outgoing_ports_max"@, p.outgoing_ports_max) + opt_i64_m("outgoing_ports_min"@, p.outgoing_ports_min)));
    }
    w.opt_bool_member("recheck_completed_torrents", &p.recheck_completed_torrents);
    proof {
        assert(w.members() =~= old(w).members() + (opt_bool_m("enable_os_cache"@, p.enable_os_cache) + opt_bool_m("enable_upload_suggestions"@, p.enable_upload_suggestions) + opt_i64_m("file_pool_size"@, p.file_pool_size) + opt_i64_m("outgoing_ports_max"@, p.outgoing_ports_max) + opt_i64_m("outgoing_ports_min"@, p.outgoing_ports_min) + opt_bool_m("recheck_completed_torrents"@, p.recheck_completed_torrents)));
    }
    w.opt_bool_member("resolve_peer_countries", &p.resolve_peer_countries);
    proof {
        assert(w.members() =~= old(w).members() + (opt_bool_m("enable_os_cache"@, p.enable_os_cache) + opt_bool_m("enable_upload_suggestions"@, p.enable_upload_suggestions) + opt_i64_m("file_pool_size"@, p.file_pool_size) + opt_i64_m("outgoing_ports_max"@, p.outgoing_ports_max) + opt_i64_m("outgoing_ports_min"@, p.outgoing_ports_min) + opt_bool_m("recheck_completed_torrents"@, p.recheck_completed_torrents) + opt_bool_m("resolve_peer_countries"@, p.resolve_peer_countries)));
    }
    w.opt_i64_member("save_resume_data_interval", &p.save_resume_data_interval);
    proof {
        assert(w.members() =~= old(w).members() + (opt_bool_m("enable_os_cache"@, p.enable_os_cache) + opt_bool_m("enable_upload_suggestions"@, p.enable_upload_suggestions) + opt_i64_m("file_pool_size"@, p.file_pool_size) + opt_i64_m("outgoing_ports_max"@, p.outgoing_ports_max) + opt_i64_m("outgoing_ports_min"@, p.outgoing_ports_min) + opt_bool_m("recheck_completed_torrents"@, p.recheck_completed_torrents) + opt_bool_m("resolve_peer_countries"@, p.resolve_peer_countries) + opt_i64_m("save_resume_data_interval"@, p.save_resume_data_interval)));
    }
    w.opt_i64_member("send_buffer_low_watermark", &p.send_buffer_low_watermark);
    proof {
        assert(w.members() =~= old(w).members() + (opt_bool_m("enable_os_cache"@, p.enable_os_cache) + opt_bool_m("enable_upload_suggestions"@, p.enable_upload_suggestions) + opt_i64_m("file_pool_size"@, p.file_pool_size) + opt_i64_m("outgoing_ports_max"@, p.outgoing_ports_max) + opt_i64_m("outgoing_ports_min"@, p.outgoing_ports_min) + opt_bool_m("recheck_completed_torrents"@, p.recheck_completed_torrents) + opt_bool_m("resolve_peer_countries"@, p.resolve_peer_countries) + opt_i64_m("save_resume_data_interval"@, p.save_resume_data_interval) + opt_i64_m("send_buffer_low_watermark"@, p.send_buffer_low_watermark)));
    }
    w.opt_i64_member("send_buffer_watermark", &p.send_buffer_watermark);
    proof {
        assert(w.members() =~= old(w).members() + (opt_bool_m("enable_os_cache"@, p.enable_os_cache) + opt_bool_m("enable_upload_suggestions"@, p.enable_upload_suggestions) + opt_i64_m("file_pool_size"@, p.file_pool_size) + opt_i64_m("outgoing_ports_max"@, p.outgoing_ports_max) + opt_i64_m("outgoing_ports_min"@, p.outgoing_ports_min) + opt_bool_m("recheck_completed_torrents"@, p.recheck_completed_torrents) + opt_bool_m("resolve_peer_countries"@, p.resolve_peer_countries) + opt_i64_m("save_resume_data_interval"@, p.save_resume_data_interval) + opt_i64_m("send_buffer_low_watermark"@, p.send_buffer_low_watermark) + opt_i64_m("send_buffer_watermark"@, p.send_buffer_watermark)));
    }
}

#[verifier::rlimit(60)]
fn write_prefs_o(w: &mut JsonObjectWriter, p: &Preferences)
    requires
        old(w).wf(),
    ensures
        final(w).wf(),
        final(w).members() == old(w).members() + pref_members_o(*p),
{
    w.opt_i64_member("send_buffer_watermark_factor", &p.send_buffer_watermark_factor);
    proof {
        assert(w.members() =~= old(w).members() + (opt_i64_m("send_buffer_watermark_factor"@, p.send_buffer_watermark_factor)));
    }
    w.opt_i64_member("socket_backlog_size", &p.socket_backlog_size);
    proof {
        assert(w.members() =~= old(w).members() + (opt_i64_m("send_buffer_watermark_factor"@, p.send_buffer_watermark_factor) + opt_i64_m("socket_backlog_size"@, p.socket_backlog_size)));
    }
    let upload_choking_algorithm_code: Option<i64> = match &p.upload_choking_algorithm {
        Some(x) => Some(x.code() as i64),
        None => None,
    };
    proof {
        assert(upload_choking_algorithm_code == upload_choking_algorithm_code_opt(p.upload_choking_algorithm));
    }
    w.opt_i64_member("upload_choking_algorithm", &upload_choking_algorithm_code);
    proof {
        assert(w.members() =~= old(w).members() + (opt_i64_m("send_buffer_watermark_factor"@, p.send_buffer_watermark_factor) + opt_i64_m("socket_backlog_size"@, p.socket_backlog_size) + opt_i64_m("upload_choking_algorithm"@, upload_choking_algorithm_code_opt(p.upload_choking_algorithm))));
    }
    let upload_slots_behavior_code: Option<i64> = match &p.upload_slots_behavior {
        Some(x) => Some(x.code() as i64),
        None => None,
    };
    proof {
        assert(upload_slots_behavior_code == upload_slots_behavior_code_opt(p.upload_slots_behavior));
    }
    w.opt_i64_member("upload_slots_behavior", &upload_slots_behavior_code);
    proof {
        assert(w.members() =~= old(w).members() + (opt_i64_m("send_buffer_watermark_factor"@, p.send_buffer_watermark_factor) + opt_i64_m("socket_backlog_size"@, p.socket_backlog_size) + opt_i64_m("upload_choking_algorithm"@, upload_choking_algorithm_code_opt(p.upload_choking_algorithm)) + opt_i64_m("upload_slots_behavior"@, upload_slots_behavior_code_opt(p.upload_slots_behavior))));
    }
    w.opt_i64_member("upnp_lease_duration", &p.upnp_lease_duration);
    proof {
        assert(w.members() =~= old(w).members() + (opt_i64_m("send_buffer_watermark_factor"@, p.send_buffer_watermark_factor) + opt_i64_m("socket_backlog_size"@, p.socket_backlog_size) + opt_i64_m("upload_choking_algorithm"@, upload_choking_algorithm_code_opt(p.upload_choking_algorithm)) + opt_i64_m("upload_slots_behavior"@, upload_slots_behavior_code_opt(p.upload_slots_behavior)) + opt_i64_m("upnp_lease_duration"@, p.upnp_lease_duration)));
    }
    let utp_tcp_mixed_mode_code: Option<i64> = match &p.utp_tcp_mixed_mode {
        Some(x) => Some(x.code() as i64),
        None => None,
    };
    proof {
        assert(utp_tcp_mixed_mode_code == utp_tcp_mixed_mode_code_opt(p.utp_tcp_mixed_mode));
    }
    w.opt_i64_member("utp_tcp_mixed_mode", &utp_tcp_mixed_mode_code);
    proof {
        assert(w.members() =~= old(w).members() + (opt_i64_m("send_buffer_watermark_factor"@, p.send_buffer_watermark_factor) + opt_i64_m("socket_backlog_size"@, p.socket_backlog_size) + opt_i64_m("upload_choking_algorithm"@, upload_choking_algorithm_code_opt(p.upload_choking_algorithm)) + opt_i64_m("upload_slots_behavior"@, upload_slots_behavior_code_opt(p.upload_slots_behavior)) + opt_i64_m("upnp_lease_duration"@, p.upnp_lease_duration) + opt_i64_m("utp_tcp_mixed_mode"@, utp_tcp_mixed_mode_code_opt(p.utp_tcp_mixed_mode))));
    }
}

fn write_scan_dirs(w: &mut JsonObjectWriter, o: &Option<Vec<(String, ScanDir)>>)
    requires
        old(w).wf(),
    ensures
        final(w).wf(),
        final(w).members() == old(w).members() + scan_dirs_m(*o),
{
    match o {
        Some(dirs) => {
            let mut iw = JsonObjectWriter::new();
            let mut i: usize = 0;
            while i < dirs.len()
                invariant
                    i <= dirs.len(),
                    iw.wf(),
                    iw.members() == scan_dirs_members(dirs@.subrange(0, i as int)),
                decreases dirs.len() - i,
            {
                let pair = &dirs[i];
                iw.escaped_i64_member(pair.0.as_str(), pair.1.code() as i64);
                proof {
                    let q = dirs@.subrange(0, (i + 1) as int);
                    assert(q.drop_last() =~= dirs@.subrange(0, i as int));
                    assert(iw.members() =~= scan_dirs_members(q));
                }
                i = i + 1;
            }
            proof {
                assert(dirs@.subrange(0, dirs.len() as int) =~= dirs@);
            }
            let txt = iw.finish();
            w.raw_member("scan_dirs", txt.as_str());
            proof {
                assert(w.members() =~= old(w).members() + scan_dirs_m(*o));
            }
        },
        None => {
            proof {
                assert(w.members() =~= old(w).members() + scan_dirs_m(*o));
            }
        },
    }
}

/// The JSON payload of a preferences update: exactly the present
/// fields, in declaration order, absent ones omitted entirely.
#[verifier::rlimit(60)]
pub fn encode_preferences(p: &Preferences) -> (r: String)
    ensures
        r@ == json_object(pref_members(*p)),
{
    let mut w = JsonObjectWriter::new();
    write_prefs_a(&mut w, p);
    proof {
        assert(w.members() =~= pref_members_a(*p));
    }
    write_prefs_b(&mut w, p);
    proof {
        assert(w.members() =~= pref_members_a(*p) + pref_members_b(*p));
    }
    write_prefs_c(&mut w, p);
    proof {
        assert(w.members() =~= pref_members_a(*p) + pref_members_b(*p) + pref_members_c(*p));
    }
    write_prefs_d(&mut w, p);
    proof {
        assert(w.members() =~= pref_members_a(*p) + pref_members_b(*p) + pref_members_c(*p) + pref_members_d(*p));
    }
    write_prefs_e(&mut w, p);
    proof {
        assert(w.members() =~= pref_members_a(*p) + pref_members_b(*p) + pref_members_c(*p) + pref_members_d(*p) + pref_members_e(*p));
    }
    write_prefs_f(&mut w, p);
    proof {
        assert(w.members() =~= pref_members_a(*p) + pref_members_b(*p) + pref_members_c(*p) + pref_members_d(*p) + pref_members_e(*p) + pref_members_f(*p));
    }
    write_prefs_g(&mut w, p);
    proof {
        assert(w.members() =~= pref_members_a(*p) + pref_members_b(*p) + pref_members_c(*p) + pref_members_d(*p) + pref_members_e(*p) + pref_members_f(*p) + pref_members_g(*p));
    }
    write_prefs_h(&mut w, p);
    proof {
        assert(w.members() =~= pref_members_a(*p) + pref_members_b(*p) + pref_members_c(*p) + pref_members_d(*p) + pref_members_e(*p) + pref_members_f(*p) + pref_members_g(*p) + pref_members_h(*p));
    }
    write_prefs_i(&mut w, p);
    proof {
        assert(w.members() =~= pref_members_a(*p) + pref_members_b(*p) + pref_members_c(*p) + pref_members_d(*p) + pref_members_e(*p) + pref_members_f(*p) + pref_members_g(*p) + pref_members_h(*p) + pref_members_i(*p));
    }
    write_prefs_j(&mut w, p);
    proof {
        assert(w.members() =~= pref_members_a(*p) + pref_members_b(*p) + pref_members_c(*p) + pref_members_d(*p) + pref_members_e(*p) + pref_members_f(*p) + pref_members_g(*p) + pref_members_h(*p) + pref_members_i(*p) + pref_members_j(*p));
    }
    write_prefs_k(&mut w, p);
    proof {
        assert(w.members() =~= pref_members_a(*p) + pref_members_b(*p) + pref_members_c(*p) + pref_members_d(*p) + pref_members_e(*p) + pref_members_f(*p) + pref_members_g(*p) + pref_members_h(*p) + pref_members_i(*p) + pref_members_j(*p) + pref_members_k(*p));
    }
    write_prefs_l(&mut w, p);
    proof {
        assert(w.members() =~= pref_members_a(*p) + pref_members_b(*p) + pref_members_c(*p) + pref_members_d(*p) + pref_members_e(*p) + pref_members_f(*p) + pref_members_g(*p) + pref_members_h(*p) + pref_members_i(*p) + pref_members_j(*p) + pref_members_k(*p) + pref_members_l(*p));
    }
    write_prefs_m(&mut w, p);
    proof {
        assert(w.members() =~= pref_members_a(*p) + pref_members_b(*p) + pref_members_c(*p) + pref_members_d(*p) + pref_members_e(*p) + pref_members_f(*p) + pref_members_g(*p) + pref_members_h(*p) + pref_members_i(*p) + pref_members_j(*p) + pref_members_k(*p) + pref_members_l(*p) + pref_members_m(*p));
    }
    write_prefs_n(&mut w, p);
    proof {
        assert(w.members() =~= pref_members_a(*p) + pref_members_b(*p) + pref_members_c(*p) + pref_members_d(*p) + pref_members_e(*p) + pref_members_f(*p) + pref_members_g(*p) + pref_members_h(*p) + pref_members_i(*p) + pref_members_j(*p) + pref_members_k(*p) + pref_members_l(*p) + pref_members_m(*p) + pref_members_n(*p));
    }
    write_prefs_o(&mut w, p);
    proof {
        assert(w.members() =~= pref_members_a(*p) + pref_members_b(*p) + pref_members_c(*p) + pref_members_d(*p) + pref_members_e(*p) + pref_members_f(*p) + pref_members_g(*p) + pref_members_h(*p) + pref_members_i(*p) + pref_members_j(*p) + pref_members_k(*p) + pref_members_l(*p) + pref_members_m(*p) + pref_members_n(*p) + pref_members_o(*p));
    }
    w.finish()
}

/// Build the version query; it carries no arguments.
pub fn get_version_request() -> (r: ApiRequest)
    ensures
        r.method == Method::Version,
        r.arguments is None,
{
    ApiRequest { method: Method::Version, arguments: None }
}

/// Interpret a version answer: default policy, text body.
pub fn get_version_response(status: u16, body: &[u8]) -> (r: Result<String, Error>)
    ensures
        r matches Ok(s) ==> (text_result(status, body@) matches Ok(t) && s@ == t),
        r matches Err(e) ==> text_result(status, body@) == Err::<Seq<char>, Error>(e),
{
    text_response(status, body)
}

/// Build the API-version query; it carries no arguments.
pub fn get_api_version_request() -> (r: ApiRequest)
    ensures
        r.method == Method::WebapiVersion,
        r.arguments is None,
{
    ApiRequest { method: Method::WebapiVersion, arguments: None }
}

/// Interpret an API-version answer: default policy, text body.
pub fn get_api_version_response(status: u16, body: &[u8]) -> (r: Result<String, Error>)
    ensures
        r matches Ok(s) ==> (text_result(status, body@) matches Ok(t) && s@ == t),
        r matches Err(e) ==> text_result(status, body@) == Err::<Seq<char>, Error>(e),
{
    text_response(status, body)
}

/// Build the build-info query; it carries no arguments.
pub fn get_build_info_request() -> (r: ApiRequest)
    ensures
        r.method == Method::BuildInfo,
        r.arguments is None,
{
    ApiRequest { method: Method::BuildInfo, arguments: None }
}

/// Build the shutdown request; it carries no arguments.
pub fn shutdown_request() -> (r: ApiRequest)
    ensures
        r.method == Method::Shutdown,
        r.arguments is None,
{
    ApiRequest { method: Method::Shutdown, arguments: None }
}

/// Build the preferences query; it carries no arguments.
pub fn get_preferences_request() -> (r: ApiRequest)
    ensures
        r.method == Method::Preferences,
        r.arguments is None,
{
    ApiRequest { method: Method::Preferences, arguments: None }
}

/// Build the preferences update: a JSON payload of exactly the present
/// fields, absent ones omitted entirely — never encoded as null — since
/// the remote reads absence as "leave unchanged".
pub fn set_preferences_request(values: &Preferences) -> (r: ApiRequest)
    ensures
        r.method == Method::SetPreferences,
        (r.arguments matches Some(Arguments::Json(s)) && s@ == json_object(
            pref_members(*values),
        )),
{
    let body = encode_preferences(values);
    ApiRequest { method: Method::SetPreferences, arguments: Some(Arguments::Json(body)) }
}

/// Build the default-save-path query; it carries no arguments.
pub fn get_default_save_path_request() -> (r: ApiRequest)
    ensures
        r.method == Method::DefaultSavePath,
        r.arguments is None,
{
    ApiRequest { method: Method::DefaultSavePath, arguments: None }
}

/// Interpret a default-save-path answer: default policy, text body.
pub fn get_default_save_path_response(status: u16, body: &[u8]) -> (r: Result<String, Error>)
    ensures
        r matches Ok(s) ==> (text_result(status, body@) matches Ok(t) && s@ == t),
        r matches Err(e) ==> text_result(status, body@) == Err::<Seq<char>, Error>(e),
{
    text_response(status, body)
}

} // verus!
