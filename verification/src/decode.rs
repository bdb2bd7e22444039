//! Structural decoding of the API's reply and normalization of its
//! envelope. The wire never marks which payload shape it carries, and it
//! reports errors inside a successful-looking envelope; the functions here
//! make both decisions explicit and exact.

use vstd::prelude::*;
use vstd::string::{StrSliceExecFns, StringExecFns};
use crate::json::{JsonValue, spec_obj_get, spec_get_str, spec_get_int, obj_get, get_str_field,
    get_int_field, lemma_obj_get_at, lemma_obj_get_missing};
use crate::model::{SessionType, PlexSession, SessionView, HistoryEntry, HistoryEntryView,
    PlexpyActivityData, ActivityView, PlexpyHistoryData, HistoryView, PlexpyData, DataView,
    PlexpyResponse, ResponseView, ServerInfo, Outcome, OutcomeView};

verus! {

/// Why a reply could not be decoded.
#[derive(Clone, Copy, Debug, PartialEq, Eq, Structural)]
pub enum DecodeError {
    /// The body or its envelope is not shaped like a reply at all.
    EnvelopeShape,
    /// The envelope carries a payload that matches neither result shape
    /// and is not the empty-object sentinel.
    PayloadShape,
}

impl DecodeError {
    /// The user-facing text for the error.
    pub fn describe(&self) -> (r: &'static str)
        ensures
            *self is EnvelopeShape ==> r@ == "malformed response envelope"@,
            *self is PayloadShape ==> r@ == "unrecognized payload shape"@,
    {
        match self {
            DecodeError::EnvelopeShape => "malformed response envelope",
            DecodeError::PayloadShape => "unrecognized payload shape",
        }
    }
}

/// How the optional session-type field reads: `None` when the field is
/// malformed, otherwise the decoded option. An absent or null field is a
/// session without a type, as older servers send.
pub open spec fn spec_session_type_field(fields: Seq<(String, JsonValue)>) -> Option<
    Option<SessionType>,
> {
    match spec_obj_get(fields, "secure"@) {
        Option::None => Option::Some(Option::None),
        Option::Some(JsonValue::Null) => Option::Some(Option::None),
        Option::Some(JsonValue::Int(n)) => if n == 0 {
            Option::Some(Option::Some(SessionType::Insecure))
        } else if n == 1 {
            Option::Some(Option::Some(SessionType::Secure))
        } else {
            Option::None
        },
        Option::Some(_) => Option::None,
    }
}

/// The object has every field a session needs, with the right types.
pub open spec fn session_shape_ok(j: JsonValue) -> bool {
    &&& j matches JsonValue::Obj(fields)
    &&& spec_get_str(fields@, "container"@) is Some
    &&& spec_get_str(fields@, "full_title"@) is Some
    &&& spec_get_str(fields@, "ip_address_public"@) is Some
    &&& spec_get_str(fields@, "media_type"@) is Some
    &&& spec_get_str(fields@, "platform"@) is Some
    &&& spec_get_str(fields@, "player"@) is Some
    &&& spec_get_str(fields@, "quality_profile"@) is Some
    &&& spec_get_str(fields@, "state"@) is Some
    &&& spec_get_str(fields@, "transcode_container"@) is Some
    &&& spec_get_str(fields@, "user"@) is Some
    &&& spec_session_type_field(fields@) is Some
    &&& spec_get_str(fields@, "progress_percent"@) is Some
}

/// The object decodes exactly to the given session.
pub open spec fn session_decodes_to(j: JsonValue, s: SessionView) -> bool {
    &&& j matches JsonValue::Obj(fields)
    &&& spec_get_str(fields@, "container"@) == Some(s.container)
    &&& spec_get_str(fields@, "full_title"@) == Some(s.full_title)
    &&& spec_get_str(fields@, "ip_address_public"@) == Some(s.ip_address_public)
    &&& spec_get_str(fields@, "media_type"@) == Some(s.media_type)
    &&& spec_get_str(fields@, "platform"@) == Some(s.platform)
    &&& spec_get_str(fields@, "player"@) == Some(s.player)
    &&& spec_get_str(fields@, "quality_profile"@) == Some(s.quality_profile)
    &&& spec_get_str(fields@, "state"@) == Some(s.state)
    &&& spec_get_str(fields@, "transcode_container"@) == Some(s.transcode_container)
    &&& spec_get_str(fields@, "user"@) == Some(s.user)
    &&& spec_session_type_field(fields@) == Some(s.session_type)
    &&& spec_get_str(fields@, "progress_percent"@) == Some(s.progress_percent)
}

fn get_session_type(fields: &Vec<(String, JsonValue)>) -> (r: Result<
    Option<SessionType>,
    DecodeError,
>)
    ensures
        r is Ok <==> spec_session_type_field(fields@) is Some,
        r matches Ok(t) ==> spec_session_type_field(fields@) == Some(t),
        r matches Err(e) ==> e is PayloadShape,
{
    match obj_get(fields, "secure") {
        Option::None => Ok(None),
        Option::Some(JsonValue::Null) => Ok(None),
        Option::Some(JsonValue::Int(n)) => {
            if *n == 0 {
                Ok(Some(SessionType::Insecure))
            } else if *n == 1 {
                Ok(Some(SessionType::Secure))
            } else {
                Err(DecodeError::PayloadShape)
            }
        },
        Option::Some(_) => Err(DecodeError::PayloadShape),
    }
}

/// Decodes one session object. Succeeds exactly when the object has the
/// session shape, and then returns the one session it spells.
pub fn decode_session(j: &JsonValue) -> (r: Result<PlexSession, DecodeError>)
    ensures
        r is Ok <==> session_shape_ok(*j),
        r matches Ok(s) ==> session_decodes_to(*j, s@),
        r matches Err(e) ==> e is PayloadShape,
{
    let fields = match j {
        JsonValue::Obj(f) => f,
        _ => {
            return Err(DecodeError::PayloadShape);
        },
    };
    let container = match get_str_field(fields, "container") {
        Some(s) => s,
        None => {
            return Err(DecodeError::PayloadShape);
        },
    };
    let full_title = match get_str_field(fields, "full_title") {
        Some(s) => s,
        None => {
            return Err(DecodeError::PayloadShape);
        },
    };
    let ip_address_public = match get_str_field(fields, "ip_address_public") {
        Some(s) => s,
        None => {
            return Err(DecodeError::PayloadShape);
        },
    };
    let media_type = match get_str_field(fields, "media_type") {
        Some(s) => s,
        None => {
            return Err(DecodeError::PayloadShape);
        },
    };
    let platform = match get_str_field(fields, "platform") {
        Some(s) => s,
        None => {
            return Err(DecodeError::PayloadShape);
        },
    };
    let player = match get_str_field(fields, "player") {
        Some(s) => s,
        None => {
            return Err(DecodeError::PayloadShape);
        },
    };
    let quality_profile = match get_str_field(fields, "quality_profile") {
        Some(s) => s,
        None => {
            return Err(DecodeError::PayloadShape);
        },
    };
    let state = match get_str_field(fields, "state") {
        Some(s) => s,
        None => {
            return Err(DecodeError::PayloadShape);
        },
    };
    let transcode_container = match get_str_field(fields, "transcode_container") {
        Some(s) => s,
        None => {
            return Err(DecodeError::PayloadShape);
        },
    };
    let user = match get_str_field(fields, "user") {
        Some(s) => s,
        None => {
            return Err(DecodeError::PayloadShape);
        },
    };
    let session_type = match get_session_type(fields) {
        Ok(t) => t,
        Err(e) => {
            return Err(e);
        },
    };
    let progress_percent = match get_str_field(fields, "progress_percent") {
        Some(s) => s,
        None => {
            return Err(DecodeError::PayloadShape);
        },
    };
    Ok(
        PlexSession {
            container,
            full_title,
            ip_address_public,
            media_type,
            platform,
            player,
            quality_profile,
            state,
            transcode_container,
            user,
            session_type,
            progress_percent,
        },
    )
}

/// The object has every field a history record needs: three strings and a
/// non-negative duration.
pub open spec fn entry_shape_ok(j: JsonValue) -> bool {
    &&& j matches JsonValue::Obj(fields)
    &&& spec_get_str(fields@, "full_title"@) is Some
    &&& spec_get_str(fields@, "player"@) is Some
    &&& spec_get_str(fields@, "user"@) is Some
    &&& spec_get_int(fields@, "duration"@) matches Some(d) && d >= 0
}

/// The object decodes exactly to the given history record.
pub open spec fn entry_decodes_to(j: JsonValue, e: HistoryEntryView) -> bool {
    &&& j matches JsonValue::Obj(fields)
    &&& spec_get_str(fields@, "full_title"@) == Some(e.full_title)
    &&& spec_get_str(fields@, "player"@) == Some(e.player)
    &&& spec_get_str(fields@, "user"@) == Some(e.user)
    &&& spec_get_int(fields@, "duration"@) == Some(e.duration as i64)
}

/// Decodes one history record. Succeeds exactly when the object has the
/// record shape, and then returns the one record it spells.
pub fn decode_history_entry(j: &JsonValue) -> (r: Result<HistoryEntry, DecodeError>)
    ensures
        r is Ok <==> entry_shape_ok(*j),
        r matches Ok(e) ==> entry_decodes_to(*j, e@),
        r matches Err(e) ==> e is PayloadShape,
{
    let fields = match j {
        JsonValue::Obj(f) => f,
        _ => {
            return Err(DecodeError::PayloadShape);
        },
    };
    let full_title = match get_str_field(fields, "full_title") {
        Some(s) => s,
        None => {
            return Err(DecodeError::PayloadShape);
        },
    };
    let player = match get_str_field(fields, "player") {
        Some(s) => s,
        None => {
            return Err(DecodeError::PayloadShape);
        },
    };
    let user = match get_str_field(fields, "user") {
        Some(s) => s,
        None => {
            return Err(DecodeError::PayloadShape);
        },
    };
    let duration_signed = match get_int_field(fields, "duration") {
        Some(d) => d,
        None => {
            return Err(DecodeError::PayloadShape);
        },
    };
    if duration_signed < 0 {
        return Err(DecodeError::PayloadShape);
    }
    Ok(HistoryEntry { full_title, player, user, duration: duration_signed as u64 })
}

/// The object has every field an activity payload needs: a sessions array
/// whose members all have the session shape, a stream count string, and
/// the aggregate counters.
pub open spec fn activity_shape_ok(j: JsonValue) -> bool {
    &&& j matches JsonValue::Obj(fields)
    &&& spec_obj_get(fields@, "sessions"@) matches Some(JsonValue::Arr(items)) && (forall|i: int|
        0 <= i < items@.len() ==> session_shape_ok(#[trigger] items@[i]))
    &&& spec_get_str(fields@, "stream_count"@) is Some
    &&& spec_get_int(fields@, "total_bandwidth"@) is Some
    &&& spec_get_int(fields@, "stream_count_transcode"@) is Some
    &&& spec_get_int(fields@, "wan_bandwidth"@) is Some
    &&& spec_get_int(fields@, "stream_count_direct_play"@) is Some
    &&& spec_get_int(fields@, "lan_bandwidth"@) is Some
    &&& spec_get_int(fields@, "stream_count_direct_stream"@) is Some
}

/// The object decodes exactly to the given activity payload, session by
/// session, in order.
pub open spec fn activity_decodes_to(j: JsonValue, a: ActivityView) -> bool {
    &&& j matches JsonValue::Obj(fields)
    &&& spec_obj_get(fields@, "sessions"@) matches Some(JsonValue::Arr(items)) && a.sessions.len()
        == items@.len() && (forall|i: int|
        0 <= i < items@.len() ==> session_decodes_to(#[trigger] items@[i], a.sessions[i]))
    &&& spec_get_str(fields@, "stream_count"@) == Some(a.stream_count)
    &&& spec_get_int(fields@, "total_bandwidth"@) == Some(a.total_bandwidth)
    &&& spec_get_int(fields@, "stream_count_transcode"@) == Some(a.stream_count_transcode)
    &&& spec_get_int(fields@, "wan_bandwidth"@) == Some(a.wan_bandwidth)
    &&& spec_get_int(fields@, "stream_count_direct_play"@) == Some(a.stream_count_direct_play)
    &&& spec_get_int(fields@, "lan_bandwidth"@) == Some(a.lan_bandwidth)
    &&& spec_get_int(fields@, "stream_count_direct_stream"@) == Some(a.stream_count_direct_stream)
}

/// Decodes an activity payload. Succeeds exactly when the object has the
/// activity shape, and then returns the one payload it spells.
#[verifier::loop_isolation(false)]
pub fn decode_activity(j: &JsonValue) -> (r: Result<PlexpyActivityData, DecodeError>)
    ensures
        r is Ok <==> activity_shape_ok(*j),
        r matches Ok(a) ==> activity_decodes_to(*j, a@),
        r matches Err(e) ==> e is PayloadShape,
{
    let fields = match j {
        JsonValue::Obj(f) => f,
        _ => {
            return Err(DecodeError::PayloadShape);
        },
    };
    let items = match obj_get(fields, "sessions") {
        Option::Some(JsonValue::Arr(items)) => items,
        _ => {
            return Err(DecodeError::PayloadShape);
        },
    };
    let mut sessions: Vec<PlexSession> = Vec::new();
    let n = items.len();
    let mut i: usize = 0;
    while i < n
        invariant
            i <= n,
            n == items@.len(),
            sessions@.len() == i,
            forall|k: int|
                0 <= k < i ==> session_shape_ok(#[trigger] items@[k]) && session_decodes_to(
                    items@[k],
                    sessions@[k]@,
                ),
        decreases n - i,
    {
        match decode_session(&items[i]) {
            Ok(s) => sessions.push(s),
            Err(e) => {
                return Err(e);
            },
        }
        i = i + 1;
    }
    let stream_count = match get_str_field(fields, "stream_count") {
        Some(s) => s,
        None => {
            return Err(DecodeError::PayloadShape);
        },
    };
    let total_bandwidth = match get_int_field(fields, "total_bandwidth") {
        Some(v) => v,
        None => {
            return Err(DecodeError::PayloadShape);
        },
    };
    let stream_count_transcode = match get_int_field(fields, "stream_count_transcode") {
        Some(v) => v,
        None => {
            return Err(DecodeError::PayloadShape);
        },
    };
    let wan_bandwidth = match get_int_field(fields, "wan_bandwidth") {
        Some(v) => v,
        None => {
            return Err(DecodeError::PayloadShape);
        },
    };
    let stream_count_direct_play = match get_int_field(fields, "stream_count_direct_play") {
        Some(v) => v,
        None => {
            return Err(DecodeError::PayloadShape);
        },
    };
    let lan_bandwidth = match get_int_field(fields, "lan_bandwidth") {
        Some(v) => v,
        None => {
            return Err(DecodeError::PayloadShape);
        },
    };
    let stream_count_direct_stream = match get_int_field(fields, "stream_count_direct_stream") {
        Some(v) => v,
        None => {
            return Err(DecodeError::PayloadShape);
        },
    };
    let out = PlexpyActivityData {
        sessions,
        stream_count,
        total_bandwidth,
        stream_count_transcode,
        wan_bandwidth,
        stream_count_direct_play,
        lan_bandwidth,
        stream_count_direct_stream,
    };
    proof {
        assert forall|k: int| 0 <= k < items@.len() implies session_decodes_to(
            #[trigger] items@[k],
            out@.sessions[k],
        ) by {
            assert(out@.sessions[k] == out.sessions@[k]@);
        }
    }
    Ok(out)
}

/// The object has every field a history payload needs: the total record
/// count and a record array whose members all have the record shape.
pub open spec fn history_shape_ok(j: JsonValue) -> bool {
    &&& j matches JsonValue::Obj(fields)
    &&& spec_get_int(fields@, "recordsTotal"@) is Some
    &&& spec_obj_get(fields@, "data"@) matches Some(JsonValue::Arr(items)) && (forall|i: int|
        0 <= i < items@.len() ==> entry_shape_ok(#[trigger] items@[i]))
}

/// The object decodes exactly to the given history payload, record by
/// record, in order.
pub open spec fn history_decodes_to(j: JsonValue, h: HistoryView) -> bool {
    &&& j matches JsonValue::Obj(fields)
    &&& spec_get_int(fields@, "recordsTotal"@) == Some(h.records_total)
    &&& spec_obj_get(fields@, "data"@) matches Some(JsonValue::Arr(items)) && h.history.len()
        == items@.len() && (forall|i: int|
        0 <= i < items@.len() ==> entry_decodes_to(#[trigger] items@[i], h.history[i]))
}

/// Decodes a history payload. Succeeds exactly when the object has the
/// history shape, and then returns the one payload it spells.
#[verifier::loop_isolation(false)]
pub fn decode_history(j: &JsonValue) -> (r: Result<PlexpyHistoryData, DecodeError>)
    ensures
        r is Ok <==> history_shape_ok(*j),
        r matches Ok(h) ==> history_decodes_to(*j, h@),
        r matches Err(e) ==> e is PayloadShape,
{
    let fields = match j {
        JsonValue::Obj(f) => f,
        _ => {
            return Err(DecodeError::PayloadShape);
        },
    };
    let records_total = match get_int_field(fields, "recordsTotal") {
        Some(v) => v,
        None => {
            return Err(DecodeError::PayloadShape);
        },
    };
    let items = match obj_get(fields, "data") {
        Option::Some(JsonValue::Arr(items)) => items,
        _ => {
            return Err(DecodeError::PayloadShape);
        },
    };
    let mut history: Vec<HistoryEntry> = Vec::new();
    let n = items.len();
    let mut i: usize = 0;
    while i < n
        invariant
            i <= n,
            n == items@.len(),
            history@.len() == i,
            forall|k: int|
                0 <= k < i ==> entry_shape_ok(#[trigger] items@[k]) && entry_decodes_to(
                    items@[k],
                    history@[k]@,
                ),
        decreases n - i,
    {
        match decode_history_entry(&items[i]) {
            Ok(e) => history.push(e),
            Err(e) => {
                return Err(e);
            },
        }
        i = i + 1;
    }
    let out = PlexpyHistoryData { records_total, history };
    proof {
        assert forall|k: int| 0 <= k < items@.len() implies entry_decodes_to(
            #[trigger] items@[k],
            out@.history[k],
        ) by {
            assert(out@.history[k] == out.history@[k]@);
        }
    }
    Ok(out)
}

/// The value is the empty-object sentinel the API sends beside an error
/// message.
pub open spec fn empty_obj(j: JsonValue) -> bool {
    j matches JsonValue::Obj(fields) && fields@.len() == 0
}

/// The envelope's data field carries no payload: it is absent, null, or
/// the empty-object sentinel.
pub open spec fn data_absent(fields: Seq<(String, JsonValue)>) -> bool {
    match spec_obj_get(fields, "data"@) {
        Option::None => true,
        Option::Some(v) => v is Null || empty_obj(v),
    }
}

/// The envelope's data field is present but matches neither result shape
/// and is not the empty-object sentinel.
pub open spec fn data_bad(fields: Seq<(String, JsonValue)>) -> bool {
    match spec_obj_get(fields, "data"@) {
        Option::None => false,
        Option::Some(v) => !(v is Null) && !activity_shape_ok(v) && !history_shape_ok(v)
            && !empty_obj(v),
    }
}

fn decode_data(fields: &Vec<(String, JsonValue)>) -> (r: Result<Option<PlexpyData>, DecodeError>)
    ensures
        r is Ok <==> !data_bad(fields@),
        data_absent(fields@) ==> (r matches Ok(d) && d is None),
        (spec_obj_get(fields@, "data"@) matches Some(v) && activity_shape_ok(v)) ==> (r matches Ok(
            d,
        ) && d matches Some(p) && p@ matches DataView::Activity(a) && activity_decodes_to(
            spec_obj_get(fields@, "data"@)->Some_0,
            a,
        )),
        (spec_obj_get(fields@, "data"@) matches Some(v) && !activity_shape_ok(v)
            && history_shape_ok(v)) ==> (r matches Ok(d) && d matches Some(p) && p@ matches
        DataView::History(h) && history_decodes_to(spec_obj_get(fields@, "data"@)->Some_0, h)),
        r matches Err(e) ==> e is PayloadShape,
{
    match obj_get(fields, "data") {
        Option::None => Ok(None),
        Option::Some(JsonValue::Null) => Ok(None),
        Option::Some(v) => {
            match decode_activity(v) {
                Ok(a) => Ok(Some(PlexpyData::Activity(a))),
                Err(_) => {
                    match decode_history(v) {
                        Ok(h) => Ok(Some(PlexpyData::History(h))),
                        Err(_) => {
                            if let JsonValue::Obj(f) = v {
                                if f.len() == 0 {
                                    return Ok(None);
                                }
                            }
                            Err(DecodeError::PayloadShape)
                        },
                    }
                },
            }
        },
    }
}

/// How the message field reads: `None` when it is malformed; an absent or
/// null message normalizes to the empty string.
pub open spec fn spec_message_field(fields: Seq<(String, JsonValue)>) -> Option<Seq<char>> {
    match spec_obj_get(fields, "message"@) {
        Option::None => Some(Seq::empty()),
        Option::Some(JsonValue::Null) => Some(Seq::empty()),
        Option::Some(JsonValue::Str(s)) => Some(s@),
        Option::Some(_) => Option::None,
    }
}

/// Reads the envelope's message, turning an absent or null wire value
/// into the empty string.
fn decode_message(fields: &Vec<(String, JsonValue)>) -> (r: Result<String, DecodeError>)
    ensures
        r is Ok <==> spec_message_field(fields@) is Some,
        r matches Ok(s) ==> spec_message_field(fields@) == Some(s@),
        r matches Err(e) ==> e is EnvelopeShape,
{
    match obj_get(fields, "message") {
        Option::None => Ok(String::new()),
        Option::Some(JsonValue::Null) => Ok(String::new()),
        Option::Some(JsonValue::Str(s)) => Ok(s.clone()),
        Option::Some(_) => Err(DecodeError::EnvelopeShape),
    }
}

/// The envelope itself is well-formed, whatever its data field holds: an
/// object whose message reads and whose result is a string.
pub open spec fn envelope_fields_ok(j: JsonValue) -> bool {
    &&& j matches JsonValue::Obj(fields)
    &&& spec_message_field(fields@) is Some
    &&& spec_get_str(fields@, "result"@) is Some
}

/// The whole envelope decodes: well-formed fields and a data field that
/// is absent, a sentinel, or one of the two result shapes.
pub open spec fn response_shape_ok(j: JsonValue) -> bool {
    &&& envelope_fields_ok(j)
    &&& j matches JsonValue::Obj(fields) && !data_bad(fields@)
}

/// The envelope decodes exactly to the given response value.
pub open spec fn response_decodes_to(j: JsonValue, r: ResponseView) -> bool {
    &&& j matches JsonValue::Obj(fields)
    &&& spec_message_field(fields@) == Some(r.message)
    &&& spec_get_str(fields@, "result"@) == Some(r.result)
    &&& match spec_obj_get(fields@, "data"@) {
        Option::None => r.data is None,
        Option::Some(v) => {
            &&& (v is Null || empty_obj(v)) ==> r.data is None
            &&& activity_shape_ok(v) ==> (r.data matches Some(DataView::Activity(a))
                && activity_decodes_to(v, a))
            &&& (!activity_shape_ok(v) && history_shape_ok(v)) ==> (r.data matches Some(
                DataView::History(h),
            ) && history_decodes_to(v, h))
        },
    }
}

/// Decodes a response envelope. Succeeds exactly when the envelope is
/// well-formed with a recognizable data field; a malformed envelope is an
/// `EnvelopeShape` error and an unrecognizable data field a
/// `PayloadShape` error.
pub fn decode_response(j: &JsonValue) -> (r: Result<PlexpyResponse, DecodeError>)
    ensures
        r is Ok <==> response_shape_ok(*j),
        r matches Ok(resp) ==> response_decodes_to(*j, resp@),
        r matches Err(e) && e is EnvelopeShape ==> !envelope_fields_ok(*j),
        r matches Err(e) && e is PayloadShape ==> envelope_fields_ok(*j),
{
    let fields = match j {
        JsonValue::Obj(f) => f,
        _ => {
            return Err(DecodeError::EnvelopeShape);
        },
    };
    let message = match decode_message(fields) {
        Ok(m) => m,
        Err(e) => {
            return Err(e);
        },
    };
    let result = match get_str_field(fields, "result") {
        Some(s) => s,
        None => {
            return Err(DecodeError::EnvelopeShape);
        },
    };
    let data = match decode_data(fields) {
        Ok(d) => d,
        Err(e) => {
            return Err(e);
        },
    };
    Ok(PlexpyResponse { data, message, result })
}

/// The body decodes: an object whose `response` field is a decodable
/// envelope.
pub open spec fn body_shape_ok(j: JsonValue) -> bool {
    &&& j matches JsonValue::Obj(fields)
    &&& spec_obj_get(fields@, "response"@) matches Some(v) && response_shape_ok(v)
}

/// The body decodes exactly to the given response value.
pub open spec fn body_decodes_to(j: JsonValue, r: ResponseView) -> bool {
    &&& j matches JsonValue::Obj(fields)
    &&& spec_obj_get(fields@, "response"@) matches Some(v) && response_decodes_to(v, r)
}

/// Decodes a whole reply body: the `response` wrapper around the
/// envelope.
pub fn decode_server_info(j: &JsonValue) -> (r: Result<ServerInfo, DecodeError>)
    ensures
        r is Ok <==> body_shape_ok(*j),
        r matches Ok(si) ==> body_decodes_to(*j, si@),
{
    let fields = match j {
        JsonValue::Obj(f) => f,
        _ => {
            return Err(DecodeError::EnvelopeShape);
        },
    };
    let inner = match obj_get(fields, "response") {
        Some(v) => v,
        None => {
            return Err(DecodeError::EnvelopeShape);
        },
    };
    match decode_response(inner) {
        Ok(response) => Ok(ServerInfo { response }),
        Err(e) => Err(e),
    }
}

/// Interprets a decoded envelope. An error message beside a missing
/// payload is a true error; a payload, when present, is rendered whatever
/// the message says; otherwise there is nothing to render. The `result`
/// field is never consulted: the API reports "success" even on failure.
pub fn normalize(response: PlexpyResponse) -> (o: Outcome)
    ensures
        response.data is None && response.message@.len() > 0 ==> o@ == OutcomeView::Error(
            response.message@,
        ),
        response.data is None && response.message@.len() == 0 ==> o@ == OutcomeView::Empty,
        response.data matches Some(d) ==> o@ == OutcomeView::Render(d@),
{
    match response.data {
        Some(d) => Outcome::Render(d),
        None => {
            if response.message.as_str().unicode_len() == 0 {
                Outcome::Empty
            } else {
                Outcome::Error(response.message)
            }
        },
    }
}

/// Writes a session back in the wire's object shape. A session without a
/// session type omits the field, as older servers do.
pub fn encode_session(s: &PlexSession) -> (r: JsonValue)
    ensures
        session_shape_ok(r),
        session_decodes_to(r, s@),
{
    let mut fields: Vec<(String, JsonValue)> = Vec::new();
    fields.push((String::from_str("container"), JsonValue::Str(s.container.clone())));
    fields.push((String::from_str("full_title"), JsonValue::Str(s.full_title.clone())));
    fields.push(
        (String::from_str("ip_address_public"), JsonValue::Str(s.ip_address_public.clone())),
    );
    fields.push((String::from_str("media_type"), JsonValue::Str(s.media_type.clone())));
    fields.push((String::from_str("platform"), JsonValue::Str(s.platform.clone())));
    fields.push((String::from_str("player"), JsonValue::Str(s.player.clone())));
    fields.push((String::from_str("quality_profile"), JsonValue::Str(s.quality_profile.clone())));
    fields.push((String::from_str("state"), JsonValue::Str(s.state.clone())));
    fields.push(
        (String::from_str("transcode_container"), JsonValue::Str(s.transcode_container.clone())),
    );
    fields.push((String::from_str("user"), JsonValue::Str(s.user.clone())));
    match s.session_type {
        Some(SessionType::Insecure) => fields.push(
            (String::from_str("secure"), JsonValue::Int(0)),
        ),
        Some(SessionType::Secure) => fields.push((String::from_str("secure"), JsonValue::Int(1))),
        None => {},
    }
    fields.push(
        (String::from_str("progress_percent"), JsonValue::Str(s.progress_percent.clone())),
    );
    let ghost gf = fields@;
    proof {
        reveal_strlit("container");
        reveal_strlit("full_title");
        reveal_strlit("ip_address_public");
        reveal_strlit("media_type");
        reveal_strlit("platform");
        reveal_strlit("player");
        reveal_strlit("quality_profile");
        reveal_strlit("state");
        reveal_strlit("transcode_container");
        reveal_strlit("user");
        reveal_strlit("secure");
        reveal_strlit("progress_percent");
        assert("full_title"@[0] == 'f' && "media_type"@[0] == 'm');
        assert("player"@[0] == 'p' && "secure"@[0] == 's');
        assert(gf[0].0@ == "container"@);
        assert(gf[1].0@ == "full_title"@);
        assert(gf[2].0@ == "ip_address_public"@);
        assert(gf[3].0@ == "media_type"@);
        assert(gf[4].0@ == "platform"@);
        assert(gf[5].0@ == "player"@);
        assert(gf[6].0@ == "quality_profile"@);
        assert(gf[7].0@ == "state"@);
        assert(gf[8].0@ == "transcode_container"@);
        assert(gf[9].0@ == "user"@);
        if s.session_type is Some {
            assert(gf.len() == 12);
            assert(gf[10].0@ == "secure"@);
            assert(gf[11].0@ == "progress_percent"@);
        } else {
            assert(gf.len() == 11);
            assert(gf[10].0@ == "progress_percent"@);
        }
        lemma_obj_get_at(gf, "container"@, 0);
        lemma_obj_get_at(gf, "full_title"@, 1);
        lemma_obj_get_at(gf, "ip_address_public"@, 2);
        lemma_obj_get_at(gf, "media_type"@, 3);
        lemma_obj_get_at(gf, "platform"@, 4);
        lemma_obj_get_at(gf, "player"@, 5);
        lemma_obj_get_at(gf, "quality_profile"@, 6);
        lemma_obj_get_at(gf, "state"@, 7);
        lemma_obj_get_at(gf, "transcode_container"@, 8);
        lemma_obj_get_at(gf, "user"@, 9);
        if s.session_type is Some {
            lemma_obj_get_at(gf, "secure"@, 10);
            lemma_obj_get_at(gf, "progress_percent"@, 11);
        } else {
            lemma_obj_get_missing(gf, "secure"@);
            lemma_obj_get_at(gf, "progress_percent"@, 10);
        }
    }
    JsonValue::Obj(fields)
}

/// Decoding pins the session: two sessions read from the same object are
/// the same session. Together with the contract of `encode_session` this
/// gives the round trip: encoding any session, also one whose session
/// type is absent, and decoding the result yields the original session
/// back, never an error.
pub proof fn lemma_session_decode_unique(j: JsonValue, s1: SessionView, s2: SessionView)
    requires
        session_decodes_to(j, s1),
        session_decodes_to(j, s2),
    ensures
        s1 == s2,
{
    assert(s1 =~= s2);
}

} // verus!
