//! Response interpretation: status policies, text decoding, and the
//! derived operation answers.

use qbapi::app::{get_api_version_response, get_default_save_path_response, get_version_response};
use qbapi::response::{check_default_status, check_hash_status};
use qbapi::sync::get_peers_data_response;
use qbapi::torrents::{get_torrent_states_response, PieceState};
use qbapi::transfer::{
    ban_peers_response, get_alt_speed_state_response, get_download_limit_response,
    get_upload_limit_response, AltSpeedState,
};
use qbapi::Error;

#[test]
fn default_policy_accepts_only_200() {
    assert_eq!(check_default_status(200, 7), Ok(7));
    assert_eq!(check_default_status(404, 7), Err(Error::WrongStatusCode));
    assert_eq!(check_default_status(500, 7), Err(Error::WrongStatusCode));
    assert_eq!(check_default_status(403, 7), Err(Error::WrongStatusCode));
}

#[test]
fn hash_policy_reads_404_as_unknown_hash() {
    assert_eq!(check_hash_status(200, 7), Ok(7));
    assert_eq!(check_hash_status(404, 7), Err(Error::NoTorrentHash));
    assert_eq!(check_hash_status(500, 7), Err(Error::WrongStatusCode));
}

#[test]
fn version_answer_decodes_utf8_text() {
    assert_eq!(get_version_response(200, b"v4.1.3"), Ok(String::from("v4.1.3")));
    assert_eq!(get_api_version_response(200, b"2.0"), Ok(String::from("2.0")));
    assert_eq!(
        get_default_save_path_response(200, "C:/Users/Dayman/Downloads".as_bytes()),
        Ok(String::from("C:/Users/Dayman/Downloads"))
    );
}

#[test]
fn version_answer_rejects_bad_utf8() {
    assert_eq!(get_version_response(200, &[0xff, 0xfe]), Err(Error::BytesToString));
}

#[test]
fn version_answer_judges_status_before_the_body() {
    assert_eq!(get_version_response(500, b"v4.1.3"), Err(Error::WrongStatusCode));
    assert_eq!(get_version_response(500, &[0xff, 0xfe]), Err(Error::WrongStatusCode));
}

#[test]
fn peers_data_answer_is_hash_scoped_text() {
    assert_eq!(get_peers_data_response(200, b"{}"), Ok(String::from("{}")));
    assert_eq!(get_peers_data_response(404, b""), Err(Error::NoTorrentHash));
    assert_eq!(get_peers_data_response(500, b"{}"), Err(Error::WrongStatusCode));
    assert_eq!(get_peers_data_response(200, &[0x80]), Err(Error::BytesToString));
}

#[test]
fn alt_speed_answer_is_a_single_digit() {
    assert_eq!(get_alt_speed_state_response(200, b"0"), Ok(AltSpeedState::Disabled));
    assert_eq!(get_alt_speed_state_response(200, b"1"), Ok(AltSpeedState::Enabled));
    assert_eq!(get_alt_speed_state_response(200, b"2"), Err(Error::Json));
    assert_eq!(get_alt_speed_state_response(200, b""), Err(Error::Json));
    assert_eq!(get_alt_speed_state_response(200, b"01"), Err(Error::Json));
    assert_eq!(get_alt_speed_state_response(500, b"1"), Err(Error::WrongStatusCode));
}

#[test]
fn limit_answers_parse_decimal_text() {
    assert_eq!(get_download_limit_response(200, b"512000"), Ok(512000));
    assert_eq!(get_download_limit_response(200, b"0"), Ok(0));
    assert_eq!(get_upload_limit_response(200, b"131072"), Ok(131072));
    assert_eq!(get_download_limit_response(200, b"fast"), Err(Error::StringToInt));
    assert_eq!(get_download_limit_response(200, &[0xc0]), Err(Error::BytesToString));
    assert_eq!(get_download_limit_response(503, b"512000"), Err(Error::WrongStatusCode));
}

#[test]
fn ban_peers_answer_is_plain_text() {
    assert_eq!(ban_peers_response(200, b"Ok."), Ok(String::from("Ok.")));
    assert_eq!(ban_peers_response(409, b""), Err(Error::WrongStatusCode));
}

#[test]
fn repeating_a_read_only_answer_gives_identical_results() {
    let first = get_version_response(200, b"v4.1.3");
    let second = get_version_response(200, b"v4.1.3");
    assert_eq!(first, second);
    let first = get_download_limit_response(200, b"123");
    let second = get_download_limit_response(200, b"123");
    assert_eq!(first, second);
}

#[test]
fn piece_states_answer_decodes_the_code_list() {
    assert_eq!(
        get_torrent_states_response(200, b"[0,1,2]"),
        Ok(vec![
            PieceState::NotDownloadedYet,
            PieceState::NowDownloading,
            PieceState::AlreadyDownloaded,
        ])
    );
    assert_eq!(get_torrent_states_response(200, b"[2]"), Ok(vec![PieceState::AlreadyDownloaded]));
    assert_eq!(get_torrent_states_response(200, b"[]"), Ok(vec![]));
}

#[test]
fn piece_states_answer_tolerates_json_whitespace() {
    assert_eq!(
        get_torrent_states_response(200, b" [0, 1,\t2]\r\n"),
        Ok(vec![
            PieceState::NotDownloadedYet,
            PieceState::NowDownloading,
            PieceState::AlreadyDownloaded,
        ])
    );
    assert_eq!(get_torrent_states_response(200, b"[ ]"), Ok(vec![]));
    assert_eq!(get_torrent_states_response(200, b"[1 0]"), Err(Error::Json));
}

#[test]
fn piece_states_answer_rejects_malformed_bodies() {
    assert_eq!(get_torrent_states_response(200, b"[7]"), Err(Error::Json));
    assert_eq!(get_torrent_states_response(200, b"[0,1"), Err(Error::Json));
    assert_eq!(get_torrent_states_response(200, b"0,1]"), Err(Error::Json));
    assert_eq!(get_torrent_states_response(200, b"[0,]"), Err(Error::Json));
    assert_eq!(get_torrent_states_response(200, b"[10]"), Err(Error::Json));
    assert_eq!(get_torrent_states_response(200, b""), Err(Error::Json));
}

#[test]
fn piece_states_answer_is_hash_scoped() {
    assert_eq!(get_torrent_states_response(404, b"[0]"), Err(Error::NoTorrentHash));
    assert_eq!(get_torrent_states_response(500, b"[0]"), Err(Error::WrongStatusCode));
}
