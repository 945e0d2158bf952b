//! The torrent operations.
//!
//! The list query takes a JSON payload whose optional filters are omitted
//! entirely when unset. Every operation parameterized by one torrent hash
//! sends a form body and is hash-scoped: the remote answers 404 exactly
//! when the hash is unknown. The one exception is the piece-hashes query,
//! which keeps the default policy.

use vstd::prelude::*;
use vstd::string::*;

use crate::json::{
    json_object, opt_bool_m, opt_i64_m, opt_string_m, JsonObjectWriter,
};
use crate::error::Error;
use crate::request::{ApiRequest, Arguments, Method};

verus! {

/// Filters of the torrent-list query; an absent filter means no
/// constraint and is left out of the payload entirely.
#[derive(Debug, Clone, PartialEq)]
pub struct GetTorrentList {
    /// Filter by state: all, downloading, seeding, completed, paused,
    /// active, inactive, resumed, stalled, stalled_uploading,
    /// stalled_downloading or errored.
    pub filter: Option<String>,
    /// Torrents of the given category; the empty string means "without
    /// category".
    pub category: Option<String>,
    /// Torrents with the given tag; the empty string means "without tag".
    pub tag: Option<String>,
    /// Sort key: any field of the answer records.
    pub sort: Option<String>,
    /// Reverse the sort order.
    pub reverse: Option<bool>,
    /// Largest number of torrents to return.
    pub limit: Option<i64>,
    /// Offset into the list; negative counts from the end.
    pub offset: Option<i64>,
    /// Filter by hashes, separated by `|`.
    pub hashes: Option<String>,
}

impl Default for GetTorrentList {
    /// No constraint: every filter absent.
    fn default() -> (r: Self)
        ensures
            r.filter is None,
            r.category is None,
            r.tag is None,
            r.sort is None,
            r.reverse is None,
            r.limit is None,
            r.offset is None,
            r.hashes is None,
    {
        GetTorrentList {
            filter: None,
            category: None,
            tag: None,
            sort: None,
            reverse: None,
            limit: None,
            offset: None,
            hashes: None,
        }
    }
}

/// A torrent's state, carried on the wire as lower-camel-case text.
#[derive(Debug, Clone, Copy, PartialEq, Eq, Structural)]
pub enum State {
    /// Some error occurred; applies to paused torrents.
    Error,
    /// Torrent data files are missing.
    MissingFiles,
    /// Being seeded, data is being transferred.
    Uploading,
    /// Paused and finished downloading.
    PausedUP,
    /// Queued for upload.
    QueuedUP,
    /// Being seeded, but no connection was made.
    StalledUP,
    /// Finished downloading and being checked.
    CheckingUP,
    /// Forced to upload, ignoring the queue limit.
    ForcedUP,
    /// Allocating disk space.
    Allocating,
    /// Being downloaded, data is being transferred.
    Downloading,
    /// Fetching metadata after starting a download.
    MetaDL,
    /// Paused and not finished downloading.
    PausedDL,
    /// Queued for download.
    QueuedDL,
    /// Being downloaded, but no connection was made.
    StalledDL,
    /// Being checked before finishing a download.
    CheckingDL,
    /// Forced to download, ignoring the queue limit.
    ForceDL,
    /// Checking resume data on startup.
    CheckingResumeData,
    /// Moving to another location.
    Moving,
    /// Unknown status.
    Unknown,
}

/// The wire text of each torrent state.
pub open spec fn state_text(s: State) -> Seq<char> {
    match s {
        State::Error => "error"@,
        State::MissingFiles => "missingFiles"@,
        State::Uploading => "uploading"@,
        State::PausedUP => "pausedUP"@,
        State::QueuedUP => "queuedUP"@,
        State::StalledUP => "stalledUP"@,
        State::CheckingUP => "checkingUP"@,
        State::ForcedUP => "forcedUP"@,
        State::Allocating => "allocating"@,
        State::Downloading => "downloading"@,
        State::MetaDL => "metaDL"@,
        State::PausedDL => "pausedDL"@,
        State::QueuedDL => "queuedDL"@,
        State::StalledDL => "stalledDL"@,
        State::CheckingDL => "checkingDL"@,
        State::ForceDL => "forceDL"@,
        State::CheckingResumeData => "checkingResumeData"@,
        State::Moving => "moving"@,
        State::Unknown => "unknown"@,
    }
}

impl State {
    /// The text this state travels as.
    pub fn text(&self) -> (r: String)
        ensures
            r@ == state_text(*self),
    {
        match self {
            State::Error => "error".to_owned(),
            State::MissingFiles => "missingFiles".to_owned(),
            State::Uploading => "uploading".to_owned(),
            State::PausedUP => "pausedUP".to_owned(),
            State::QueuedUP => "queuedUP".to_owned(),
            State::StalledUP => "stalledUP".to_owned(),
            State::CheckingUP => "checkingUP".to_owned(),
            State::ForcedUP => "forcedUP".to_owned(),
            State::Allocating => "allocating".to_owned(),
            State::Downloading => "downloading".to_owned(),
            State::MetaDL => "metaDL".to_owned(),
            State::PausedDL => "pausedDL".to_owned(),
            State::QueuedDL => "queuedDL".to_owned(),
            State::StalledDL => "stalledDL".to_owned(),
            State::CheckingDL => "checkingDL".to_owned(),
            State::ForceDL => "forceDL".to_owned(),
            State::CheckingResumeData => "checkingResumeData".to_owned(),
            State::Moving => "moving".to_owned(),
            State::Unknown => "unknown".to_owned(),
        }
    }
}

/// One tracker of a torrent.
#[derive(Debug, Clone, PartialEq)]
pub struct Tracker {
    /// Tracker URL.
    pub url: String,
    /// Tracker status; see [`TrackerStatus`] for the codes.
    pub status: i64,
    /// Tracker priority tier. Lower tiers are tried first; below zero is
    /// a placeholder for special entries without a tier.
    pub tier: Tier,
    /// Peers the tracker reports for this torrent.
    pub num_peers: i64,
    /// Seeds the tracker reports for this torrent.
    pub num_seeds: i64,
    /// Leeches the tracker reports for this torrent.
    pub num_leeches: i64,
    /// Completed downloads the tracker reports for this torrent.
    pub num_downloaded: i64,
    /// Tracker message, free-form.
    pub msg: String,
}

/// A tracker's status, carried on the wire as its code.
#[derive(Debug, Clone, Copy, PartialEq, Eq, Structural)]
pub enum TrackerStatus {
    /// Disabled (used for DHT, PeX and LSD entries).
    Disabled,
    /// Not contacted yet.
    NotContacted,
    /// Contacted and working.
    Working,
    /// Updating.
    Updating,
    /// Contacted, but not working or not answering properly.
    NotWorking,
}

/// The wire code of each tracker status.
pub open spec fn tracker_status_code(s: TrackerStatus) -> u8 {
    match s {
        TrackerStatus::Disabled => 0,
        TrackerStatus::NotContacted => 1,
        TrackerStatus::Working => 2,
        TrackerStatus::Updating => 3,
        TrackerStatus::NotWorking => 4,
    }
}

impl TrackerStatus {
    /// The code this status travels as.
    pub fn code(&self) -> (r: u8)
        ensures
            r == tracker_status_code(*self),
    {
        match self {
            TrackerStatus::Disabled => 0,
            TrackerStatus::NotContacted => 1,
            TrackerStatus::Working => 2,
            TrackerStatus::Updating => 3,
            TrackerStatus::NotWorking => 4,
        }
    }

    /// The status a wire code names, if any.
    pub fn from_code(code: u8) -> (r: Option<TrackerStatus>)
        ensures
            r matches Some(s) ==> tracker_status_code(s) == code,
            r is None ==> code > 4,
    {
        match code {
            0 => Some(TrackerStatus::Disabled),
            1 => Some(TrackerStatus::NotContacted),
            2 => Some(TrackerStatus::Working),
            3 => Some(TrackerStatus::Updating),
            4 => Some(TrackerStatus::NotWorking),
            _ => None,
        }
    }
}

/// A tracker's tier: a number when the tier exists, placeholder text for
/// special entries without one.
#[derive(Debug, Clone, PartialEq)]
pub enum Tier {
    /// Placeholder text for entries without a tier.
    Absent(String),
    /// The tier number.
    Priority(i64),
}

/// One web seed of a torrent.
#[derive(Debug, Clone, PartialEq)]
pub struct Webseed {
    /// URL of the web seed.
    pub url: String,
}

/// A file's download priority, carried on the wire as its code.
#[derive(Debug, Clone, Copy, PartialEq, Eq, Structural)]
pub enum Priority {
    /// Do not download.
    Skip,
    /// Normal priority.
    Normal,
    /// High priority.
    High,
    /// Maximal priority.
    Maximum,
}

/// The wire code of each file priority.
pub open spec fn priority_code(p: Priority) -> u8 {
    match p {
        Priority::Skip => 0,
        Priority::Normal => 1,
        Priority::High => 6,
        Priority::Maximum => 7,
    }
}

impl Priority {
    /// The code this priority travels as.
    pub fn code(&self) -> (r: u8)
        ensures
            r == priority_code(*self),
    {
        match self {
            Priority::Skip => 0,
            Priority::Normal => 1,
            Priority::High => 6,
            Priority::Maximum => 7,
        }
    }

    /// The priority a wire code names, if any.
    pub fn from_code(code: u8) -> (r: Option<Priority>)
        ensures
            r matches Some(p) ==> priority_code(p) == code,
            r is None ==> code != 0 && code != 1 && code != 6 && code != 7,
    {
        match code {
            0 => Some(Priority::Skip),
            1 => Some(Priority::Normal),
            6 => Some(Priority::High),
            7 => Some(Priority::Maximum),
            _ => None,
        }
    }
}

/// A piece's download state, carried on the wire as its code.
#[derive(Debug, Clone, Copy, PartialEq, Eq, Structural)]
pub enum PieceState {
    /// Not downloaded yet.
    NotDownloadedYet,
    /// Now downloading.
    NowDownloading,
    /// Already downloaded.
    AlreadyDownloaded,
}

/// The wire code of each piece state.
pub open spec fn piece_state_code(s: PieceState) -> u8 {
    match s {
        PieceState::NotDownloadedYet => 0,
        PieceState::NowDownloading => 1,
        PieceState::AlreadyDownloaded => 2,
    }
}

impl PieceState {
    /// The code this state travels as.
    pub fn code(&self) -> (r: u8)
        ensures
            r == piece_state_code(*self),
    {
        match self {
            PieceState::NotDownloadedYet => 0,
            PieceState::NowDownloading => 1,
            PieceState::AlreadyDownloaded => 2,
        }
    }

    /// The state a wire code names, if any.
    pub fn from_code(code: u8) -> (r: Option<PieceState>)
        ensures
            r matches Some(s) ==> piece_state_code(s) == code,
            r is None ==> code > 2,
    {
        match code {
            0 => Some(PieceState::NotDownloadedYet),
            1 => Some(PieceState::NowDownloading),
            2 => Some(PieceState::AlreadyDownloaded),
            _ => None,
        }
    }
}

/// The members of the torrent-list payload: each present filter, in
/// declaration order, and nothing for the absent ones.
pub open spec fn get_torrent_list_members(g: GetTorrentList) -> Seq<(Seq<char>, Seq<char>)> {
    opt_string_m("filter"@, g.filter) + opt_string_m("category"@, g.category) + opt_string_m(
        "tag"@,
        g.tag,
    ) + opt_string_m("sort"@, g.sort) + opt_bool_m("reverse"@, g.reverse) + opt_i64_m(
        "limit"@,
        g.limit,
    ) + opt_i64_m("offset"@, g.offset) + opt_string_m("hashes"@, g.hashes)
}

/// Build the torrent-list request: a JSON payload of the present filters,
/// absent ones omitted entirely.
pub fn get_torrent_list_request(values: &GetTorrentList) -> (r: ApiRequest)
    ensures
        r.method == Method::TorrentsInfo,
        (r.arguments matches Some(Arguments::Json(s)) && s@ == json_object(
            get_torrent_list_members(*values),
        )),
{
    let mut w = JsonObjectWriter::new();
    w.opt_string_member("filter", &values.filter);
    w.opt_string_member("category", &values.category);
    w.opt_string_member("tag", &values.tag);
    w.opt_string_member("sort", &values.sort);
    w.opt_bool_member("reverse", &values.reverse);
    w.opt_i64_member("limit", &values.limit);
    w.opt_i64_member("offset", &values.offset);
    w.opt_string_member("hashes", &values.hashes);
    proof {
        assert(w.members() =~= get_torrent_list_members(*values));
    }
    ApiRequest { method: Method::TorrentsInfo, arguments: Some(Arguments::Json(w.finish())) }
}

/// The form body naming one torrent hash.
pub open spec fn hash_form(h: Seq<char>) -> Seq<char> {
    "hash="@ + h
}

/// The form body naming one torrent hash and the file indexes wanted.
pub open spec fn contents_form(h: Seq<char>, indexes: Seq<char>) -> Seq<char> {
    "hash="@ + h + "&indexes="@ + indexes
}

fn hash_form_text(hash: &str) -> (r: String)
    ensures
        r@ == hash_form(hash@),
{
    let mut f = "hash=".to_owned();
    f.append(hash);
    f
}

/// Build the torrent-properties query for one hash; hash-scoped.
pub fn get_torrent_properties_request(hash: &str) -> (r: ApiRequest)
    ensures
        r.method == Method::Properties,
        (r.arguments matches Some(Arguments::Form(f)) && f@ == hash_form(hash@)),
{
    ApiRequest { method: Method::Properties, arguments: Some(Arguments::Form(hash_form_text(hash))) }
}

/// Build the torrent-trackers query for one hash; hash-scoped.
pub fn get_torrent_trackers_request(hash: &str) -> (r: ApiRequest)
    ensures
        r.method == Method::Trackers,
        (r.arguments matches Some(Arguments::Form(f)) && f@ == hash_form(hash@)),
{
    ApiRequest { method: Method::Trackers, arguments: Some(Arguments::Form(hash_form_text(hash))) }
}

/// Build the web-seeds query for one hash; hash-scoped.
pub fn get_torrent_seeds_request(hash: &str) -> (r: ApiRequest)
    ensures
        r.method == Method::Webseeds,
        (r.arguments matches Some(Arguments::Form(f)) && f@ == hash_form(hash@)),
{
    ApiRequest { method: Method::Webseeds, arguments: Some(Arguments::Form(hash_form_text(hash))) }
}

/// Build the torrent-contents query for one hash and the file indexes
/// wanted, separated by `|`; hash-scoped.
pub fn get_torrent_contents_request(hash: &str, indexes: &str) -> (r: ApiRequest)
    ensures
        r.method == Method::Files,
        (r.arguments matches Some(Arguments::Form(f)) && f@ == contents_form(hash@, indexes@)),
{
    let mut f = "hash=".to_owned();
    f.append(hash);
    f.append("&indexes=");
    f.append(indexes);
    ApiRequest { method: Method::Files, arguments: Some(Arguments::Form(f)) }
}

/// Build the piece-states query for one hash; hash-scoped.
pub fn get_torrent_states_request(hash: &str) -> (r: ApiRequest)
    ensures
        r.method == Method::PieceStates,
        (r.arguments matches Some(Arguments::Form(f)) && f@ == hash_form(hash@)),
{
    ApiRequest {
        method: Method::PieceStates,
        arguments: Some(Arguments::Form(hash_form_text(hash))),
    }
}

/// Build the piece-hashes query for one hash. Its answer keeps the
/// default status policy.
pub fn get_torrent_hashes_request(hash: &str) -> (r: ApiRequest)
    ensures
        r.method == Method::PieceHashes,
        (r.arguments matches Some(Arguments::Form(f)) && f@ == hash_form(hash@)),
{
    ApiRequest {
        method: Method::PieceHashes,
        arguments: Some(Arguments::Form(hash_form_text(hash))),
    }
}


/// True of a byte that is the digit of a known piece-state code.
pub open spec fn is_state_code_byte(b: u8) -> bool {
    b == 48 || b == 49 || b == 50
}

/// The state a digit byte names.
pub open spec fn state_of_byte(b: u8) -> PieceState {
    if b == 48 {
        PieceState::NotDownloadedYet
    } else if b == 49 {
        PieceState::NowDownloading
    } else {
        PieceState::AlreadyDownloaded
    }
}

/// True of a JSON whitespace byte: space, tab, line feed or carriage
/// return.
pub open spec fn is_json_ws(b: u8) -> bool {
    b == 32 || b == 9 || b == 10 || b == 13
}

/// The text with JSON whitespace removed. Whitespace is meaningful only
/// between tokens here: every token of the list grammar is one byte, so
/// stripping it first and then reading the compact form accepts exactly
/// the JSON spellings of the list.
pub open spec fn strip_json_ws(s: Seq<u8>) -> Seq<u8>
    decreases s.len(),
{
    if s.len() == 0 {
        Seq::empty()
    } else if is_json_ws(s.last()) {
        strip_json_ws(s.drop_last())
    } else {
        strip_json_ws(s.drop_last()).push(s.last())
    }
}

/// True of the compact JSON text of a list of piece states: brackets
/// around single-digit codes separated by commas, or the empty list.
pub open spec fn is_states_json(b: Seq<u8>) -> bool {
    ||| b == seq![91u8, 93u8]
    ||| {
        &&& b.len() >= 3
        &&& b.len() % 2 == 1
        &&& b[0] == 91
        &&& b[b.len() - 1] == 93
        &&& forall|j: int|
            1 <= j < b.len() - 1 ==> (if j % 2 == 1 {
                is_state_code_byte(b[j])
            } else {
                b[j] == 44
            })
    }
}

/// The states such a text carries, in order.
pub open spec fn states_of_json(b: Seq<u8>) -> Seq<PieceState> {
    Seq::new((((b.len() - 1) / 2)) as nat, |k: int| state_of_byte(b[2 * k + 1]))
}

/// What a piece-states answer means: hash-aware status first, then the
/// body, less JSON whitespace, must be the compact list of known codes;
/// any other body is a decode failure, never a default.
pub open spec fn piece_states_result(status: u16, body: Seq<u8>) -> Result<
    Seq<PieceState>,
    Error,
> {
    if status == 404 {
        Err(Error::NoTorrentHash)
    } else if status != 200 {
        Err(Error::WrongStatusCode)
    } else if !is_states_json(strip_json_ws(body)) {
        Err(Error::Json)
    } else {
        Ok(states_of_json(strip_json_ws(body)))
    }
}

/// Interpret a piece-states answer.
pub fn get_torrent_states_response(status: u16, body: &[u8]) -> (r: Result<
    Vec<PieceState>,
    Error,
>)
    ensures
        r matches Ok(v) ==> (piece_states_result(status, body@) matches Ok(w) && v@ == w),
        r matches Err(e) ==> piece_states_result(status, body@) == Err::<Seq<PieceState>, Error>(
            e,
        ),
{
    if status == 404 {
        return Err(Error::NoTorrentHash);
    }
    if status != 200 {
        return Err(Error::WrongStatusCode);
    }
    let mut text: Vec<u8> = Vec::new();
    let mut p: usize = 0;
    while p < body.len()
        invariant
            p <= body.len(),
            text@ == strip_json_ws(body@.subrange(0, p as int)),
        decreases body.len() - p,
    {
        let b = body[p];
        if !(b == 32 || b == 9 || b == 10 || b == 13) {
            text.push(b);
        }
        proof {
            let q = body@.subrange(0, (p + 1) as int);
            assert(q.drop_last() =~= body@.subrange(0, p as int));
            assert(text@ =~= strip_json_ws(q));
        }
        p = p + 1;
    }
    proof {
        assert(body@.subrange(0, body.len() as int) =~= body@);
    }
    let n = text.len();
    if n == 2 && text[0] == 91 && text[1] == 93 {
        proof {
            assert(text@ == seq![91u8, 93u8]) by {
                assert(text@ =~= seq![91u8, 93u8]);
            }
            assert(states_of_json(text@) =~= Seq::<PieceState>::empty());
        }
        return Ok(Vec::new());
    }
    if n < 3 || n % 2 == 0 || text[0] != 91 || text[n - 1] != 93 {
        return Err(Error::Json);
    }
    let mut v: Vec<PieceState> = Vec::new();
    let mut i: usize = 1;
    while i < n - 1
        invariant
            status == 200,
            text@ == strip_json_ws(body@),
            n == text@.len(),
            3 <= n,
            n % 2 == 1,
            text@[0] == 91,
            text@[n - 1] == 93,
            i % 2 == 1,
            1 <= i <= n,
            forall|j: int|
                1 <= j < i && j < n - 1 ==> (if j % 2 == 1 {
                    is_state_code_byte(text@[j])
                } else {
                    text@[j] == 44
                }),
            v@.len() == (i - 1) / 2,
            forall|k: int| 0 <= k < v@.len() ==> v@[k] == state_of_byte(text@[2 * k + 1]),
        decreases n - i,
    {
        let b = text[i];
        let state = if b == 48 {
            PieceState::NotDownloadedYet
        } else if b == 49 {
            PieceState::NowDownloading
        } else if b == 50 {
            PieceState::AlreadyDownloaded
        } else {
            proof {
                assert(!is_states_json(text@));
            }
            return Err(Error::Json);
        };
        v.push(state);
        if i + 1 < n - 1 {
            if text[i + 1] != 44 {
                proof {
                    assert(!is_states_json(text@));
                }
                return Err(Error::Json);
            }
        }
        i = i + 2;
    }
    proof {
        assert(i == n);
        assert(is_states_json(text@));
        assert(v@ =~= states_of_json(text@));
    }
    Ok(v)
}

} // verus!
