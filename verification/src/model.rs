//! The value objects the API hands back, and the normalized outcome of a
//! call: one active playback session, the activity and history payloads,
//! the response envelope, and their mathematical views.

use vstd::prelude::*;

verus! {

/// Whether a session's connection is secure. The wire carries it as the
/// number 0 (insecure) or 1 (secure).
#[derive(Clone, Copy, Debug, PartialEq, Eq, Structural)]
pub enum SessionType {
    Insecure,
    Secure,
}

impl SessionType {
    /// The name of the variant, as the terminal shows it.
    pub fn describe(&self) -> (r: &'static str)
        ensures
            *self is Insecure ==> r@ == "Insecure"@,
            *self is Secure ==> r@ == "Secure"@,
    {
        match self {
            SessionType::Insecure => "Insecure",
            SessionType::Secure => "Secure",
        }
    }
}

/// One active playback stream.
#[derive(Clone, Debug, PartialEq)]
pub struct PlexSession {
    pub container: String,
    pub full_title: String,
    pub ip_address_public: String,
    pub media_type: String,
    pub platform: String,
    pub player: String,
    pub quality_profile: String,
    pub state: String,
    pub transcode_container: String,
    pub user: String,
    /// Absent on older API versions.
    pub session_type: Option<SessionType>,
    /// The wire carries the percentage as a string, not a number.
    pub progress_percent: String,
}

/// The mathematical shadow of a session: each string as its characters.
#[verifier::ext_equal]
pub struct SessionView {
    pub container: Seq<char>,
    pub full_title: Seq<char>,
    pub ip_address_public: Seq<char>,
    pub media_type: Seq<char>,
    pub platform: Seq<char>,
    pub player: Seq<char>,
    pub quality_profile: Seq<char>,
    pub state: Seq<char>,
    pub transcode_container: Seq<char>,
    pub user: Seq<char>,
    pub session_type: Option<SessionType>,
    pub progress_percent: Seq<char>,
}

impl View for PlexSession {
    type V = SessionView;

    open spec fn view(&self) -> SessionView {
        SessionView {
            container: self.container@,
            full_title: self.full_title@,
            ip_address_public: self.ip_address_public@,
            media_type: self.media_type@,
            platform: self.platform@,
            player: self.player@,
            quality_profile: self.quality_profile@,
            state: self.state@,
            transcode_container: self.transcode_container@,
            user: self.user@,
            session_type: self.session_type,
            progress_percent: self.progress_percent@,
        }
    }
}

/// One historical playback record.
#[derive(Clone, Debug, PartialEq)]
pub struct HistoryEntry {
    pub full_title: String,
    pub player: String,
    pub user: String,
    /// Playback length in seconds.
    pub duration: u64,
}

/// The mathematical shadow of a history record.
#[verifier::ext_equal]
pub struct HistoryEntryView {
    pub full_title: Seq<char>,
    pub player: Seq<char>,
    pub user: Seq<char>,
    pub duration: u64,
}

impl View for HistoryEntry {
    type V = HistoryEntryView;

    open spec fn view(&self) -> HistoryEntryView {
        HistoryEntryView {
            full_title: self.full_title@,
            player: self.player@,
            user: self.user@,
            duration: self.duration,
        }
    }
}

/// The activity payload: the ordered sessions, and aggregate counters
/// that are decoded but not rendered.
#[derive(Clone, Debug, PartialEq)]
pub struct PlexpyActivityData {
    pub sessions: Vec<PlexSession>,
    pub stream_count: String,
    pub total_bandwidth: i64,
    pub stream_count_transcode: i64,
    pub wan_bandwidth: i64,
    pub stream_count_direct_play: i64,
    pub lan_bandwidth: i64,
    pub stream_count_direct_stream: i64,
}

/// The mathematical shadow of an activity payload.
#[verifier::ext_equal]
pub struct ActivityView {
    pub sessions: Seq<SessionView>,
    pub stream_count: Seq<char>,
    pub total_bandwidth: i64,
    pub stream_count_transcode: i64,
    pub wan_bandwidth: i64,
    pub stream_count_direct_play: i64,
    pub lan_bandwidth: i64,
    pub stream_count_direct_stream: i64,
}

impl View for PlexpyActivityData {
    type V = ActivityView;

    open spec fn view(&self) -> ActivityView {
        ActivityView {
            sessions: Seq::new(self.sessions@.len(), |i: int| self.sessions@[i]@),
            stream_count: self.stream_count@,
            total_bandwidth: self.total_bandwidth,
            stream_count_transcode: self.stream_count_transcode,
            wan_bandwidth: self.wan_bandwidth,
            stream_count_direct_play: self.stream_count_direct_play,
            lan_bandwidth: self.lan_bandwidth,
            stream_count_direct_stream: self.stream_count_direct_stream,
        }
    }
}

/// The history payload: the server's total record count and the ordered
/// records of the requested page.
#[derive(Clone, Debug, PartialEq)]
pub struct PlexpyHistoryData {
    pub records_total: i64,
    pub history: Vec<HistoryEntry>,
}

/// The mathematical shadow of a history payload.
#[verifier::ext_equal]
pub struct HistoryView {
    pub records_total: i64,
    pub history: Seq<HistoryEntryView>,
}

impl View for PlexpyHistoryData {
    type V = HistoryView;

    open spec fn view(&self) -> HistoryView {
        HistoryView {
            records_total: self.records_total,
            history: Seq::new(self.history@.len(), |i: int| self.history@[i]@),
        }
    }
}

/// The two result shapes a successful call can carry. The wire never says
/// which one it is: the decoder selects structurally.
#[derive(Clone, Debug, PartialEq)]
pub enum PlexpyData {
    History(PlexpyHistoryData),
    Activity(PlexpyActivityData),
}

/// The mathematical shadow of a payload.
#[verifier::ext_equal]
pub enum DataView {
    History(HistoryView),
    Activity(ActivityView),
}

impl View for PlexpyData {
    type V = DataView;

    open spec fn view(&self) -> DataView {
        match self {
            PlexpyData::History(h) => DataView::History(h@),
            PlexpyData::Activity(a) => DataView::Activity(a@),
        }
    }
}

/// The decoded response envelope. `message` is normalized: a null or
/// absent wire value becomes the empty string.
#[derive(Clone, Debug, PartialEq)]
pub struct PlexpyResponse {
    pub data: Option<PlexpyData>,
    pub message: String,
    pub result: String,
}

/// The mathematical shadow of a response envelope.
#[verifier::ext_equal]
pub struct ResponseView {
    pub data: Option<DataView>,
    pub message: Seq<char>,
    pub result: Seq<char>,
}

impl View for PlexpyResponse {
    type V = ResponseView;

    open spec fn view(&self) -> ResponseView {
        ResponseView {
            data: match self.data {
                Some(d) => Some(d@),
                None => None,
            },
            message: self.message@,
            result: self.result@,
        }
    }
}

/// The top-level body of an API reply: one `response` envelope.
#[derive(Clone, Debug, PartialEq)]
pub struct ServerInfo {
    pub response: PlexpyResponse,
}

impl View for ServerInfo {
    type V = ResponseView;

    open spec fn view(&self) -> ResponseView {
        self.response@
    }
}

/// What a normalized response asks the caller to do: surface an error,
/// render nothing, or render a payload.
#[derive(Clone, Debug, PartialEq)]
pub enum Outcome {
    Error(String),
    Empty,
    Render(PlexpyData),
}

/// The mathematical shadow of an outcome.
#[verifier::ext_equal]
pub enum OutcomeView {
    Error(Seq<char>),
    Empty,
    Render(DataView),
}

impl View for Outcome {
    type V = OutcomeView;

    open spec fn view(&self) -> OutcomeView {
        match self {
            Outcome::Error(m) => OutcomeView::Error(m@),
            Outcome::Empty => OutcomeView::Empty,
            Outcome::Render(d) => OutcomeView::Render(d@),
        }
    }
}

} // verus!
