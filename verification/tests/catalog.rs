//! The operation catalog and the wire codes of the closed enumerations.

use qbapi::app::{
    BittorrentProtocol, DyndnsService, Encryption, MaxRatioAct, ScanDir, SchedulerDays,
    UploadChokingAlgorithm, UploadSlotsBehavior, UtpTcpMixedMode,
};
use qbapi::log::{GetLog, GetPeerLog, LogType};
use qbapi::request::Method;
use qbapi::torrents::{PieceState, Priority, State, TrackerStatus};
use qbapi::transfer::{AltSpeedState, ConnectionStatus};
use qbapi::Error;

#[test]
fn every_method_has_its_path() {
    let table: Vec<(Method, &str)> = vec![
        (Method::Login, "auth/login"),
        (Method::Logout, "auth/logout"),
        (Method::Version, "app/version"),
        (Method::WebapiVersion, "app/webapiVersion"),
        (Method::BuildInfo, "app/buildInfo"),
        (Method::Shutdown, "app/shutdown"),
        (Method::Preferences, "app/preferences"),
        (Method::SetPreferences, "app/setPreferences"),
        (Method::DefaultSavePath, "app/defaultSavePath"),
        (Method::Main, "log/main"),
        (Method::Peers, "log/peers"),
        (Method::MainData, "sync/maindata"),
        (Method::TorrentPeers, "sync/torrentPeers"),
        (Method::TransferInfo, "transfer/info"),
        (Method::SpeedLimitsMode, "transfer/speedLimitsMode"),
        (Method::ToggleSpeedLimitsMode, "transfer/toggleSpeedLimitsMode"),
        (Method::DownloadLimit, "transfer/downloadLimit"),
        (Method::SetDownloadLimit, "transfer/setDownloadLimit"),
        (Method::UploadLimit, "transfer/uploadLimit"),
        (Method::SetUploadLimit, "transfer/setUploadLimit"),
        (Method::BanPeers, "transfer/banPeers"),
        (Method::TorrentsInfo, "torrents/info"),
        (Method::Properties, "torrents/properties"),
        (Method::Trackers, "torrents/trackers"),
        (Method::Webseeds, "torrents/webseeds"),
        (Method::Files, "torrents/files"),
        (Method::PieceStates, "torrents/pieceStates"),
        (Method::PieceHashes, "torrents/pieceHashes"),
        (Method::Pause, "torrents/pause"),
        (Method::Resume, "torrents/resume"),
        (Method::Delete, "torrents/delete"),
        (Method::Recheck, "torrents/recheck"),
        (Method::Reannounce, "torrents/reannounce"),
        (Method::Add, "torrents/add"),
    ];
    assert_eq!(table.len(), 34);
    for (m, p) in table {
        assert_eq!(m.path(), p);
    }
}

#[test]
fn get_log_defaults_match_the_remote_defaults() {
    let g = GetLog::default();
    assert!(g.normal && g.info && g.warning && g.critical);
    assert_eq!(g.last_known_id, -1);
    assert_eq!(GetPeerLog::default().last_known_id, -1);
}

#[test]
fn log_type_codes_round_trip() {
    for (t, c) in [
        (LogType::NORMAL, 1u8),
        (LogType::INFO, 2),
        (LogType::WARNING, 4),
        (LogType::CRITICAL, 8),
    ] {
        assert_eq!(t.code(), c);
        assert_eq!(LogType::from_code(c), Some(t));
    }
    assert_eq!(LogType::from_code(3), None);
    assert_eq!(LogType::from_code(0), None);
}

#[test]
fn tracker_status_codes_round_trip() {
    for (s, c) in [
        (TrackerStatus::Disabled, 0u8),
        (TrackerStatus::NotContacted, 1),
        (TrackerStatus::Working, 2),
        (TrackerStatus::Updating, 3),
        (TrackerStatus::NotWorking, 4),
    ] {
        assert_eq!(s.code(), c);
        assert_eq!(TrackerStatus::from_code(c), Some(s));
    }
    assert_eq!(TrackerStatus::from_code(5), None);
}

#[test]
fn priority_codes_keep_their_gaps() {
    for (p, c) in [
        (Priority::Skip, 0u8),
        (Priority::Normal, 1),
        (Priority::High, 6),
        (Priority::Maximum, 7),
    ] {
        assert_eq!(p.code(), c);
        assert_eq!(Priority::from_code(c), Some(p));
    }
    assert_eq!(Priority::from_code(2), None);
    assert_eq!(Priority::from_code(5), None);
}

#[test]
fn piece_state_codes_round_trip() {
    for (s, c) in [
        (PieceState::NotDownloadedYet, 0u8),
        (PieceState::NowDownloading, 1),
        (PieceState::AlreadyDownloaded, 2),
    ] {
        assert_eq!(s.code(), c);
        assert_eq!(PieceState::from_code(c), Some(s));
    }
    assert_eq!(PieceState::from_code(3), None);
}

#[test]
fn alt_speed_codes_round_trip() {
    assert_eq!(AltSpeedState::Disabled.code(), 0);
    assert_eq!(AltSpeedState::Enabled.code(), 1);
    assert_eq!(AltSpeedState::from_code(0), Some(AltSpeedState::Disabled));
    assert_eq!(AltSpeedState::from_code(1), Some(AltSpeedState::Enabled));
    assert_eq!(AltSpeedState::from_code(2), None);
}

#[test]
fn preference_enum_codes_round_trip() {
    assert_eq!(ScanDir::Zero.code(), 0);
    assert_eq!(ScanDir::One.code(), 1);
    assert_eq!(ScanDir::from_code(1), Some(ScanDir::One));
    assert_eq!(SchedulerDays::EveryDay.code(), 0);
    assert_eq!(SchedulerDays::EverySunday.code(), 9);
    assert_eq!(SchedulerDays::from_code(9), Some(SchedulerDays::EverySunday));
    assert_eq!(SchedulerDays::from_code(10), None);
    assert_eq!(Encryption::PreferEncryption.code(), 0);
    assert_eq!(Encryption::ForceEncryptionOff.code(), 2);
    assert_eq!(qbapi::app::ProxyType::Socks4NoAuth.code(), 5);
    assert_eq!(qbapi::app::ProxyType::from_code(6), None);
    assert_eq!(DyndnsService::DyDNS.code(), 0);
    assert_eq!(DyndnsService::NOIP.code(), 1);
    assert_eq!(MaxRatioAct::Pause.code(), 0);
    assert_eq!(MaxRatioAct::Remove.code(), 1);
    assert_eq!(BittorrentProtocol::Both.code(), 0);
    assert_eq!(BittorrentProtocol::UTP.code(), 2);
    assert_eq!(UploadChokingAlgorithm::AntiLeech.code(), 2);
    assert_eq!(UploadSlotsBehavior::UploadRateBased.code(), 1);
    assert_eq!(UtpTcpMixedMode::PeerProportional.code(), 1);
}

#[test]
fn connection_status_round_trips_through_text() {
    for c in [
        ConnectionStatus::Connected,
        ConnectionStatus::Firewalled,
        ConnectionStatus::Disconnected,
    ] {
        assert_eq!(ConnectionStatus::from_text(c.text().as_str()), Some(c));
    }
    assert_eq!(ConnectionStatus::from_text("offline"), None);
    assert_eq!(ConnectionStatus::from_text(""), None);
    assert_eq!(ConnectionStatus::from_text("Connected"), None);
}

#[test]
fn connection_status_and_state_texts() {
    assert_eq!(ConnectionStatus::Connected.text(), "connected");
    assert_eq!(ConnectionStatus::Firewalled.text(), "firewalled");
    assert_eq!(ConnectionStatus::Disconnected.text(), "disconnected");
    assert_eq!(State::PausedUP.text(), "pausedUP");
    assert_eq!(State::MetaDL.text(), "metaDL");
    assert_eq!(State::CheckingResumeData.text(), "checkingResumeData");
    assert_eq!(State::Unknown.text(), "unknown");
}

#[test]
fn every_error_has_a_message() {
    let all = [
        Error::UrlError,
        Error::NoSetCookie,
        Error::NoSID,
        Error::Banned,
        Error::WrongStatusCode,
        Error::BytesToString,
        Error::NoTorrentHash,
        Error::StringToInt,
        Error::Nc,
        Error::Json,
        Error::DotEnv,
        Error::BadResponse,
        Error::NoArguments,
        Error::WrongSessionSetFields,
        Error::Io,
        Error::NotAuth,
        Error::BothFileMeta,
        Error::NoFileMeta,
        Error::UnknownTorrentFields,
    ];
    for e in all {
        assert!(!e.message().is_empty());
    }
    assert_eq!(
        Error::Banned.message(),
        "User's IP is banned for too many failed login attempts"
    );
    assert_eq!(Error::NoTorrentHash.message(), "Torrent hash was not found");
}
