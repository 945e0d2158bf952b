//! Wire encodings: every request body equals the declared encoding of its
//! arguments, with absent optional fields omitted entirely.

use qbapi::app::{
    set_preferences_request, Encryption, MaxRatioAct, Preferences, ScanDir,
};
use qbapi::json::json_string_text;
use qbapi::log::{get_log_request, get_peer_log_request, GetLog, GetPeerLog};
use qbapi::request::{Arguments, Method};
use qbapi::sync::{get_main_data_request, get_peers_data_request, GetMainData, GetPeersData};
use qbapi::torrents::{
    get_torrent_contents_request, get_torrent_hashes_request, get_torrent_list_request,
    get_torrent_properties_request, get_torrent_seeds_request, get_torrent_states_request,
    get_torrent_trackers_request, GetTorrentList,
};
use qbapi::transfer::{
    ban_peers_request, set_download_limit_request, set_upload_limit_request,
};

fn json_body(r: qbapi::request::ApiRequest) -> String {
    match r.arguments {
        Some(Arguments::Json(s)) => s,
        _ => panic!("expected a JSON body"),
    }
}

fn form_body(r: qbapi::request::ApiRequest) -> String {
    match r.arguments {
        Some(Arguments::Form(s)) => s,
        _ => panic!("expected a form body"),
    }
}

#[test]
fn get_log_default_payload() {
    let r = get_log_request(&GetLog::default());
    assert!(matches!(r.method, Method::Main));
    assert_eq!(
        json_body(r),
        "{\"normal\":true,\"info\":true,\"warning\":true,\"critical\":true,\"last_known_id\":-1}"
    );
}

#[test]
fn get_log_custom_payload() {
    let g = GetLog {
        normal: false,
        info: true,
        warning: false,
        critical: true,
        last_known_id: 42,
    };
    assert_eq!(
        json_body(get_log_request(&g)),
        "{\"normal\":false,\"info\":true,\"warning\":false,\"critical\":true,\"last_known_id\":42}"
    );
}

#[test]
fn get_peer_log_payload() {
    let r = get_peer_log_request(&GetPeerLog::default());
    assert!(matches!(r.method, Method::Peers));
    assert_eq!(json_body(r), "{\"last_known_id\":-1}");
}

#[test]
fn get_main_data_payload() {
    let r = get_main_data_request(&GetMainData::default());
    assert!(matches!(r.method, Method::MainData));
    assert_eq!(json_body(r), "{\"rid\":0}");
}

#[test]
fn get_peers_data_payload() {
    let g = GetPeersData {
        hash: String::from("14061948332125cc81b0c7466d2bd33ee0f26f46"),
        rid: 45,
    };
    let r = get_peers_data_request(&g);
    assert!(matches!(r.method, Method::TorrentPeers));
    assert_eq!(
        json_body(r),
        "{\"hash\":\"14061948332125cc81b0c7466d2bd33ee0f26f46\",\"rid\":45}"
    );
}

#[test]
fn torrent_list_default_payload_is_empty_object() {
    let r = get_torrent_list_request(&GetTorrentList::default());
    assert!(matches!(r.method, Method::TorrentsInfo));
    assert_eq!(json_body(r), "{}");
}

#[test]
fn torrent_list_present_filters_only() {
    let g = GetTorrentList {
        filter: Some(String::from("downloading")),
        category: None,
        tag: None,
        sort: Some(String::from("ratio")),
        reverse: Some(true),
        limit: Some(50),
        offset: Some(-3),
        hashes: None,
    };
    assert_eq!(
        json_body(get_torrent_list_request(&g)),
        "{\"filter\":\"downloading\",\"sort\":\"ratio\",\"reverse\":true,\"limit\":50,\"offset\":-3}"
    );
}

#[test]
fn hash_scoped_form_bodies() {
    let h = "8c212779b4abde7c6bc608063a0d008b7e40ce32";
    let expected = format!("hash={}", h);
    assert_eq!(form_body(get_torrent_properties_request(h)), expected);
    assert_eq!(form_body(get_torrent_trackers_request(h)), expected);
    assert_eq!(form_body(get_torrent_seeds_request(h)), expected);
    assert_eq!(form_body(get_torrent_states_request(h)), expected);
    assert_eq!(form_body(get_torrent_hashes_request(h)), expected);
    assert_eq!(
        form_body(get_torrent_contents_request(h, "0|2")),
        format!("hash={}&indexes=0|2", h)
    );
}

#[test]
fn limit_form_bodies() {
    assert_eq!(form_body(set_download_limit_request(512000)), "limit=512000");
    assert_eq!(form_body(set_upload_limit_request(0)), "limit=0");
    assert_eq!(form_body(set_download_limit_request(-1)), "limit=-1");
}

#[test]
fn ban_peers_body_is_verbatim() {
    let r = ban_peers_request(String::from("10.0.0.1:6881|10.0.0.2:6881"));
    assert!(matches!(r.method, Method::BanPeers));
    assert_eq!(form_body(r), "10.0.0.1:6881|10.0.0.2:6881");
}

#[test]
fn set_preferences_with_only_save_path_has_only_that_key() {
    let p = Preferences {
        save_path: Some(String::from("C:/Users/Dayman/Downloads")),
        ..Preferences::default()
    };
    let r = set_preferences_request(&p);
    assert!(matches!(r.method, Method::SetPreferences));
    assert_eq!(json_body(r), "{\"save_path\":\"C:/Users/Dayman/Downloads\"}");
}

#[test]
fn set_preferences_empty_update_is_empty_object() {
    assert_eq!(json_body(set_preferences_request(&Preferences::default())), "{}");
}

#[test]
fn set_preferences_mixed_fields_in_declaration_order() {
    let p = Preferences {
        locale: Some(String::from("en_GB")),
        queueing_enabled: Some(false),
        max_ratio: Some(String::from("1.5")),
        max_ratio_act: Some(MaxRatioAct::Remove),
        encryption: Some(Encryption::ForceEncryptionOn),
        listen_port: Some(6881),
        ..Preferences::default()
    };
    assert_eq!(
        json_body(set_preferences_request(&p)),
        "{\"locale\":\"en_GB\",\"queueing_enabled\":false,\"max_ratio\":1.5,\"max_ratio_act\":1,\"listen_port\":6881,\"encryption\":1}"
    );
}

#[test]
fn set_preferences_scan_dirs_is_a_nested_object() {
    let p = Preferences {
        scan_dirs: Some(vec![
            (String::from("C:/Games"), ScanDir::Zero),
            (String::from("D:/Downloads"), ScanDir::One),
        ]),
        ..Preferences::default()
    };
    assert_eq!(
        json_body(set_preferences_request(&p)),
        "{\"scan_dirs\":{\"C:/Games\":0,\"D:/Downloads\":1}}"
    );
}

#[test]
fn string_values_are_escaped() {
    let p = Preferences {
        save_path: Some(String::from("a\"b\\c\nd\te\rf\u{8}g\u{c}h\u{1}i")),
        ..Preferences::default()
    };
    assert_eq!(
        json_body(set_preferences_request(&p)),
        "{\"save_path\":\"a\\\"b\\\\c\\nd\\te\\rf\\bg\\fh\\u0001i\"}"
    );
}

#[test]
fn control_characters_get_lowercase_hex_escapes() {
    assert_eq!(json_string_text("\u{1f}"), "\"\\u001f\"");
    assert_eq!(json_string_text("\u{0}"), "\"\\u0000\"");
}

#[test]
fn non_ascii_text_passes_through() {
    assert_eq!(json_string_text("Chovka от"), "\"Chovka от\"");
}
