//! The manifest of available imagery: the typed shape, and its construction
//! from the JSON text the discovery endpoint answers with.
//!
//! The wire document holds `version`, `generated`, `host`, `radar.past`,
//! `radar.nowcast` and `satellite.infrared`; each frame entry holds an
//! integer `time` (UNIX seconds) and a string `path`. `version` and
//! `generated` must be present but are discarded. The construction is
//! specified against the shape the JSON parser gives the text: text that is
//! not JSON fails with `Json`, a JSON document not shaped like a manifest
//! fails with `Malformed`, and a well-shaped document yields exactly the
//! manifest's host and its three frame lists, element by element and in
//! order.

use vstd::prelude::*;
use vstd::string::StringExecFns;
use crate::error::FetchError;
use crate::json::{
    arr_rep, field_rep, json_array, json_get, json_str, json_u64, parse_json, parse_rep, rep_of,
    reps_of, str_rep, u64_rep, JsonRep,
};

verus! {

/// Indicates that radar or satellite data is available for the time given,
/// at the path given.
#[derive(Debug, Clone)]
pub struct Frame {
    /// The timestamp when this data was generated.
    pub time: chrono::NaiveDateTime,
    /// The path where this data can be accessed.
    pub path: String,
}

/// Contains the kinds of imagery that are available and the host to request
/// tiles from.
#[derive(Debug, Clone)]
pub struct AvailableData {
    host: String,
    pub past_radar: Vec<Frame>,
    pub nowcast_radar: Vec<Frame>,
    pub infrared_satellite: Vec<Frame>,
}

impl AvailableData {
    /// The tile host the manifest named.
    pub closed spec fn spec_host(&self) -> Seq<char> {
        self.host@
    }

    /// The past radar frames.
    pub closed spec fn spec_past(&self) -> Seq<Frame> {
        self.past_radar@
    }

    /// The nowcast radar frames.
    pub closed spec fn spec_nowcast(&self) -> Seq<Frame> {
        self.nowcast_radar@
    }

    /// The infrared satellite frames.
    pub closed spec fn spec_infrared(&self) -> Seq<Frame> {
        self.infrared_satellite@
    }

    /// The tile host the manifest named.
    pub fn host(&self) -> (r: &str)
        ensures
            r@ == self.spec_host(),
    {
        self.host.as_str()
    }
}

/// Whether chrono's calendar can represent a count of UNIX seconds.
pub uninterp spec fn unix_ok(secs: i64) -> bool;

/// The naive UTC date-time of a count of UNIX seconds, as chrono converts
/// it.
pub uninterp spec fn datetime_of(secs: i64) -> chrono::NaiveDateTime;

/// Relies on chrono::DateTime::from_timestamp_secs: converts a count of
/// non-leap UNIX seconds to a calendar date-time, `None` exactly when the
/// count is outside chrono's representable range; the outcome is a function
/// of the count alone.
#[verifier::external_body]
fn datetime_from_unix(secs: i64) -> (r: Option<chrono::NaiveDateTime>)
    ensures
        r is Some <==> unix_ok(secs),
        r matches Some(t) ==> t == datetime_of(secs),
{
    match chrono::DateTime::from_timestamp_secs(secs) {
        Some(dt) => Some(dt.naive_utc()),
        None => None,
    }
}

/// Whether a wire timestamp can become a frame timestamp: it fits a signed
/// 64-bit count and chrono's calendar accepts it.
pub open spec fn time_ok(t: u64) -> bool {
    t <= i64::MAX && unix_ok(t as i64)
}

/// Whether a wire frame entry is well-formed: an object with an unsigned
/// integer `time` that `time_ok` accepts and a string `path`.
pub open spec fn frame_ok(j: JsonRep) -> bool {
    match u64_rep(field_rep(j, "time"@)) {
        Some(t) => str_rep(field_rep(j, "path"@)) is Some && time_ok(t),
        None => false,
    }
}

/// The path of a well-formed wire frame entry.
pub open spec fn frame_path(j: JsonRep) -> Seq<char> {
    match str_rep(field_rep(j, "path"@)) {
        Some(p) => p,
        None => Seq::empty(),
    }
}

/// The timestamp of a well-formed wire frame entry, in UNIX seconds.
pub open spec fn frame_time(j: JsonRep) -> u64 {
    match u64_rep(field_rep(j, "time"@)) {
        Some(t) => t,
        None => 0,
    }
}

/// Whether every entry of a wire frame list is well-formed.
pub open spec fn frames_ok(s: Seq<JsonRep>) -> bool {
    forall|i: int| 0 <= i < s.len() ==> frame_ok(#[trigger] s[i])
}

/// Whether a frame list mirrors a wire list: same length, and each frame
/// carries the path of the wire entry at its position together with the
/// converted date-time of that entry's timestamp.
pub open spec fn frames_match(frames: Seq<Frame>, wire: Seq<JsonRep>) -> bool {
    frames.len() == wire.len() && forall|i: int|
        0 <= i < wire.len() ==> ((#[trigger] frames[i]).path@ == frame_path(wire[i])
            && frames[i].time == datetime_of(frame_time(wire[i]) as i64))
}

/// The wire frame list under `section.key` of the document, `None` when
/// the document is not shaped that way.
pub open spec fn section_frames(j: JsonRep, section: Seq<char>, key: Seq<char>) -> Option<
    Seq<JsonRep>,
> {
    match field_rep(j, section) {
        Some(s) => arr_rep(field_rep(s, key)),
        None => None,
    }
}

/// The wire list of past radar frames.
pub open spec fn radar_past(j: JsonRep) -> Option<Seq<JsonRep>> {
    section_frames(j, "radar"@, "past"@)
}

/// The wire list of nowcast radar frames.
pub open spec fn radar_nowcast(j: JsonRep) -> Option<Seq<JsonRep>> {
    section_frames(j, "radar"@, "nowcast"@)
}

/// The wire list of infrared satellite frames.
pub open spec fn satellite_infrared(j: JsonRep) -> Option<Seq<JsonRep>> {
    section_frames(j, "satellite"@, "infrared"@)
}

/// Whether a wire frame list is present and every entry of it well-formed.
pub open spec fn list_ok(o: Option<Seq<JsonRep>>) -> bool {
    match o {
        Some(s) => frames_ok(s),
        None => false,
    }
}

/// A present wire frame list, or the empty one.
pub open spec fn list_or_empty(o: Option<Seq<JsonRep>>) -> Seq<JsonRep> {
    match o {
        Some(s) => s,
        None => Seq::empty(),
    }
}

/// The host of a well-shaped wire document.
pub open spec fn host_of(j: JsonRep) -> Seq<char> {
    match str_rep(field_rep(j, "host"@)) {
        Some(s) => s,
        None => Seq::empty(),
    }
}

/// Whether a JSON document is shaped like a manifest: a string `version`,
/// an unsigned integer `generated`, a string `host`, and the three frame
/// lists, each entry well-formed.
pub open spec fn manifest_ok(j: JsonRep) -> bool {
    str_rep(field_rep(j, "version"@)) is Some && u64_rep(field_rep(j, "generated"@)) is Some
        && str_rep(field_rep(j, "host"@)) is Some && list_ok(radar_past(j)) && list_ok(
        radar_nowcast(j),
    ) && list_ok(satellite_infrared(j))
}

/// Whether a text parses to a JSON document shaped like a manifest.
pub open spec fn manifest_text_ok(text: Seq<char>) -> bool {
    match parse_rep(text) {
        Some(j) => manifest_ok(j),
        None => false,
    }
}

/// Whether a manifest is the projection of a wire document: its host is the
/// document's, and each of its three frame lists mirrors the document's,
/// element by element.
pub open spec fn manifest_matches_rep(m: AvailableData, j: JsonRep) -> bool {
    m.spec_host() == host_of(j) && frames_match(m.spec_past(), list_or_empty(radar_past(j)))
        && frames_match(m.spec_nowcast(), list_or_empty(radar_nowcast(j))) && frames_match(
        m.spec_infrared(),
        list_or_empty(satellite_infrared(j)),
    )
}

fn malformed(msg: &str) -> (r: FetchError)
    ensures
        r matches FetchError::Malformed(m) && m@ == msg@,
{
    FetchError::Malformed(String::from_str(msg))
}

impl Frame {
    /// Builds a frame from its wire fields: a timestamp in UNIX seconds and
    /// a path. Succeeds exactly when the timestamp fits the representable
    /// calendar range; the frame then carries the converted date-time and
    /// the path unchanged.
    pub fn from_unix(time: u64, path: String) -> (r: Option<Frame>)
        ensures
            r is Some <==> time_ok(time),
            r matches Some(f) ==> (f.path@ == path@ && f.time == datetime_of(time as i64)),
    {
        if time <= i64::MAX as u64 {
            match datetime_from_unix(time as i64) {
                Some(t) => Some(Frame { time: t, path }),
                None => None,
            }
        } else {
            None
        }
    }
}

/// Reads a wire array of frame entries: succeeds exactly when every entry
/// is well-formed, and then mirrors the array element by element.
fn frames_from_json(arr: &Vec<serde_json::Value>) -> (r: Result<Vec<Frame>, FetchError>)
    ensures
        r is Ok <==> frames_ok(reps_of(arr@)),
        r matches Ok(f) ==> frames_match(f@, reps_of(arr@)),
        r matches Err(e) ==> e matches FetchError::Malformed(_),
{
    let ghost js: Seq<JsonRep> = reps_of(arr@);
    proof {
        assert(js.len() == arr@.len());
    }
    let mut frames: Vec<Frame> = Vec::new();
    let mut i: usize = 0;
    while i < arr.len()
        invariant
            i <= arr.len(),
            js == reps_of(arr@),
            js.len() == arr@.len(),
            frames@.len() == i,
            forall|k: int| 0 <= k < i ==> frame_ok(#[trigger] js[k]),
            forall|k: int|
                0 <= k < i ==> ((#[trigger] frames@[k]).path@ == frame_path(js[k])
                    && frames@[k].time == datetime_of(frame_time(js[k]) as i64)),
        decreases arr.len() - i,
    {
        let entry = &arr[i];
        proof {
            assert(js[i as int] == rep_of(arr@[i as int]));
        }
        let time_val = match json_get(entry, "time") {
            Some(v) => v,
            None => {
                proof {
                    assert(!frame_ok(js[i as int]));
                }
                return Err(malformed("frame entry has no time"));
            },
        };
        let time = match json_u64(time_val) {
            Some(t) => t,
            None => {
                proof {
                    assert(!frame_ok(js[i as int]));
                }
                return Err(malformed("frame time is not an unsigned integer"));
            },
        };
        let path_val = match json_get(entry, "path") {
            Some(v) => v,
            None => {
                proof {
                    assert(!frame_ok(js[i as int]));
                }
                return Err(malformed("frame entry has no path"));
            },
        };
        let path = match json_str(path_val) {
            Some(s) => s.to_owned(),
            None => {
                proof {
                    assert(!frame_ok(js[i as int]));
                }
                return Err(malformed("frame path is not a string"));
            },
        };
        let frame = match Frame::from_unix(time, path) {
            Some(f) => f,
            None => {
                proof {
                    assert(!frame_ok(js[i as int]));
                }
                return Err(malformed("frame time is out of calendar range"));
            },
        };
        proof {
            assert(frame_ok(js[i as int]));
        }
        frames.push(frame);
        i += 1;
    }
    Ok(frames)
}

/// Reads the field `key` of `v` as an array of frame entries: succeeds
/// exactly when the field is an array of well-formed entries, and then
/// mirrors it element by element.
fn frame_list<'a>(v: &'a serde_json::Value, key: &str) -> (r: Result<Vec<Frame>, FetchError>)
    ensures
        r is Ok <==> list_ok(arr_rep(field_rep(rep_of(*v), key@))),
        r matches Ok(f) ==> frames_match(f@, list_or_empty(arr_rep(field_rep(rep_of(*v), key@)))),
        r matches Err(e) ==> e matches FetchError::Malformed(_),
{
    let list_val = match json_get(v, key) {
        Some(w) => w,
        None => {
            return Err(malformed("manifest frame list is missing"));
        },
    };
    let arr = match json_array(list_val) {
        Some(a) => a,
        None => {
            return Err(malformed("manifest frame list is not an array"));
        },
    };
    frames_from_json(arr)
}

/// Builds the manifest from the JSON text the discovery endpoint answered
/// with. Succeeds exactly on text that parses to a well-shaped manifest
/// document, and then projects it: the document's host, and its three
/// frame lists mirrored element by element, in order, with each timestamp
/// converted. Text that is not JSON fails with `Json` carrying the
/// parser's error; a JSON document of the wrong shape fails with
/// `Malformed`.
pub fn manifest_from_json(text: &str) -> (r: Result<AvailableData, FetchError>)
    ensures
        r is Ok <==> manifest_text_ok(text@),
        r matches Ok(m) ==> (parse_rep(text@) matches Some(j) && manifest_matches_rep(m, j)),
        parse_rep(text@) is None ==> (r matches Err(e) && e matches FetchError::Json(_)),
        (parse_rep(text@) is Some && !manifest_text_ok(text@)) ==> (r matches Err(e) && e
            matches FetchError::Malformed(_)),
{
    let root = match parse_json(text) {
        Ok(v) => v,
        Err(e) => {
            return Err(FetchError::Json(e));
        },
    };
    let version_val = match json_get(&root, "version") {
        Some(v) => v,
        None => {
            return Err(malformed("manifest has no version"));
        },
    };
    if json_str(version_val).is_none() {
        return Err(malformed("manifest version is not a string"));
    }
    let generated_val = match json_get(&root, "generated") {
        Some(v) => v,
        None => {
            return Err(malformed("manifest has no generated timestamp"));
        },
    };
    if json_u64(generated_val).is_none() {
        return Err(malformed("manifest generated timestamp is not an unsigned integer"));
    }
    let host_val = match json_get(&root, "host") {
        Some(v) => v,
        None => {
            return Err(malformed("manifest has no host"));
        },
    };
    let host = match json_str(host_val) {
        Some(s) => s.to_owned(),
        None => {
            return Err(malformed("manifest host is not a string"));
        },
    };
    let radar_val = match json_get(&root, "radar") {
        Some(v) => v,
        None => {
            return Err(malformed("manifest has no radar section"));
        },
    };
    let past_radar = match frame_list(radar_val, "past") {
        Ok(f) => f,
        Err(e) => {
            return Err(e);
        },
    };
    let nowcast_radar = match frame_list(radar_val, "nowcast") {
        Ok(f) => f,
        Err(e) => {
            return Err(e);
        },
    };
    let satellite_val = match json_get(&root, "satellite") {
        Some(v) => v,
        None => {
            return Err(malformed("manifest has no satellite section"));
        },
    };
    let infrared_satellite = match frame_list(satellite_val, "infrared") {
        Ok(f) => f,
        Err(e) => {
            return Err(e);
        },
    };
    Ok(AvailableData { host, past_radar, nowcast_radar, infrared_satellite })
}

} // verus!
