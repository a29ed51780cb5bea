//! Decoding of the two response bodies. The JSON tree itself comes from
//! serde_json behind a handful of trusted accessors, each with its result
//! named so that decoding is a function of the body text alone; which fields
//! are required, of which type, and what a missing one means is decided
//! here, in verified code, through the validating constructors in `records`.

use vstd::prelude::*;
use crate::records::ApiError;
use crate::records::BannerDuckIDResponse;
use crate::records::BannerRosterResponse;
use crate::records::id_views;
use crate::records::user_ids;

verus! {

#[verifier::external_type_specification]
#[verifier::external_body]
pub struct ExValue(serde_json::Value);

/// The JSON document a body parses to, `Some` exactly on a single
/// well-formed JSON document: the result of serde_json::from_str::<Value>,
/// a function of the body text alone.
pub uninterp spec fn json_doc_of(body: Seq<char>) -> Option<serde_json::Value>;

/// The named member of a JSON value, `Some` exactly when the value is an
/// object that has the key: the result of serde_json::Value::get.
pub uninterp spec fn val_field_of(v: serde_json::Value, key: Seq<char>) -> Option<serde_json::Value>;

/// The characters of a JSON value, `Some` exactly when it is a string: the
/// result of serde_json::Value::as_str.
pub uninterp spec fn val_str_of(v: serde_json::Value) -> Option<Seq<char>>;

/// The elements of a JSON value in order, `Some` exactly when it is an
/// array: the result of serde_json::Value::as_array.
pub uninterp spec fn val_arr_of(v: serde_json::Value) -> Option<Seq<serde_json::Value>>;

/// The integer a JSON value holds, `Some` exactly when it is an integer
/// fitting an i64: the result of serde_json::Value::as_i64.
pub uninterp spec fn val_int_of(v: serde_json::Value) -> Option<i64>;

/// Relies on serde_json::from_str::<Value>: deterministic in the body text,
/// `Some` exactly when the body is a single well-formed JSON document.
#[verifier::external_body]
fn json_parse(body: &str) -> (r: Option<serde_json::Value>)
    ensures
        r == json_doc_of(body@),
{
    match serde_json::from_str::<serde_json::Value>(body) {
        Ok(v) => Some(v),
        Err(_) => None,
    }
}

/// Relies on serde_json::Value::get with a string key: `Some` exactly when
/// the value is an object that has the key, then borrowing that member.
#[verifier::external_body]
fn json_get<'a>(v: &'a serde_json::Value, key: &str) -> (r: Option<&'a serde_json::Value>)
    ensures
        r is Some <==> val_field_of(*v, key@) is Some,
        r matches Some(f) ==> Some(*f) == val_field_of(*v, key@),
{
    v.get(key)
}

/// Relies on serde_json::Value::as_str: `Some` exactly when the value is a
/// JSON string, then carrying its characters unchanged (str::to_owned).
#[verifier::external_body]
fn json_as_string(v: &serde_json::Value) -> (r: Option<String>)
    ensures
        r is Some <==> val_str_of(*v) is Some,
        r matches Some(s) ==> Some(s@) == val_str_of(*v),
{
    match v.as_str() {
        Some(s) => Some(s.to_owned()),
        None => None,
    }
}

/// Relies on serde_json::Value::as_array: `Some` exactly when the value is
/// a JSON array, then borrowing its elements in order.
#[verifier::external_body]
fn json_as_array<'a>(v: &'a serde_json::Value) -> (r: Option<&'a Vec<serde_json::Value>>)
    ensures
        r is Some <==> val_arr_of(*v) is Some,
        r matches Some(a) ==> Some(a@) == val_arr_of(*v),
{
    v.as_array()
}

/// Relies on serde_json::Value::as_i64: `Some` exactly when the value is an
/// integer that fits in an i64.
#[verifier::external_body]
fn json_as_i64(v: &serde_json::Value) -> (r: Option<i64>)
    ensures
        r == val_int_of(*v),
{
    v.as_i64()
}

/// The string member of an object under a key: `Some` exactly when the key
/// is present and its member is a JSON string.
pub open spec fn str_field_of(v: serde_json::Value, key: Seq<char>) -> Option<Seq<char>> {
    match val_field_of(v, key) {
        Some(f) => val_str_of(f),
        None => None,
    }
}

/// The integer member of an object under a key: `Some` exactly when the key
/// is present and its member is an integer fitting an i64.
pub open spec fn int_field_of(v: serde_json::Value, key: Seq<char>) -> Option<i64> {
    match val_field_of(v, key) {
        Some(f) => val_int_of(f),
        None => None,
    }
}

/// Whether every element of a roster member array carries a `bannerID`
/// string.
pub open spec fn ids_all_present(arr: Seq<serde_json::Value>) -> bool {
    forall|i: int| 0 <= i < arr.len() ==> (#[trigger] str_field_of(arr[i], "bannerID"@)) is Some
}

/// The `bannerID` of each element of a roster member array, in array order.
pub open spec fn ids_of_arr(arr: Seq<serde_json::Value>) -> Seq<Seq<char>> {
    arr.map_values(|v: serde_json::Value| str_field_of(v, "bannerID"@)->Some_0)
}

/// The identifier list a roster field decodes to: `Some` exactly when the
/// field is present, is an array, and every element carries a `bannerID`
/// string; then one identifier per element, in array order.
pub open spec fn id_list_of(v: serde_json::Value, key: Seq<char>) -> Option<Seq<Seq<char>>> {
    match val_field_of(v, key) {
        Some(f) => match val_arr_of(f) {
            Some(arr) => if ids_all_present(arr) {
                Some(ids_of_arr(arr))
            } else {
                None
            },
            None => None,
        },
        None => None,
    }
}

/// Whether a body is a roster response of the documented shape: a JSON
/// object with `termCode`, `crn`, `courseTitle`, `subjectCode` and
/// `courseNumber` strings and `instructors` and `students` arrays of
/// objects each with a `bannerID` string.
pub open spec fn roster_body_ok(body: Seq<char>) -> bool {
    match json_doc_of(body) {
        Some(doc) => str_field_of(doc, "termCode"@) is Some && str_field_of(doc, "crn"@) is Some
            && str_field_of(doc, "courseTitle"@) is Some
            && str_field_of(doc, "subjectCode"@) is Some
            && str_field_of(doc, "courseNumber"@) is Some
            && id_list_of(doc, "instructors"@) is Some && id_list_of(doc, "students"@) is Some,
        None => false,
    }
}

/// Whether a body is a resolution response of the documented shape: a JSON
/// object with a `message` string, a `statusCode` integer fitting an i32,
/// and a `data` object with `bannerID` and `duckID` strings.
pub open spec fn resolution_body_ok(body: Seq<char>) -> bool {
    match json_doc_of(body) {
        Some(doc) => str_field_of(doc, "message"@) is Some
            && (int_field_of(doc, "statusCode"@) matches Some(code) && i32::MIN <= code
                <= i32::MAX)
            && (val_field_of(doc, "data"@) matches Some(data)
                && str_field_of(data, "bannerID"@) is Some
                && str_field_of(data, "duckID"@) is Some),
        None => false,
    }
}

/// The external identifier a resolution body resolves to: its
/// `data.duckID` string.
pub open spec fn resolved_duck_id_of(body: Seq<char>) -> Seq<char> {
    str_field_of(val_field_of(json_doc_of(body)->Some_0, "data"@)->Some_0, "duckID"@)->Some_0
}

/// The named field of an object, as an owned string; `None` where the field
/// is absent or not a JSON string.
fn string_field(v: &serde_json::Value, key: &str) -> (r: Option<String>)
    ensures
        r is Some <==> str_field_of(*v, key@) is Some,
        r matches Some(s) ==> Some(s@) == str_field_of(*v, key@),
{
    match json_get(v, key) {
        Some(f) => json_as_string(f),
        None => None,
    }
}

/// The named field of an object, as an integer; `None` where the field is
/// absent or not an integer.
fn i64_field(v: &serde_json::Value, key: &str) -> (r: Option<i64>)
    ensures
        r == int_field_of(*v, key@),
{
    match json_get(v, key) {
        Some(f) => json_as_i64(f),
        None => None,
    }
}

/// The named field of an object as a list of internal identifiers: the
/// field must be an array of objects each carrying a `bannerID` string.
/// `None` as soon as any element lacks one — no element is skipped.
fn id_list_field(v: &serde_json::Value, key: &str) -> (r: Option<Vec<String>>)
    ensures
        r is Some <==> id_list_of(*v, key@) is Some,
        r matches Some(ids) ==> Some(id_views(ids@)) == id_list_of(*v, key@),
{
    let arr = match json_get(v, key) {
        Some(f) => match json_as_array(f) {
            Some(a) => a,
            None => {
                return None;
            },
        },
        None => {
            return None;
        },
    };
    let mut ids: Vec<String> = Vec::new();
    let mut i: usize = 0;
    while i < arr.len()
        invariant
            i <= arr@.len(),
            ids@.len() == i,
            Some(arr@) == val_arr_of(val_field_of(*v, key@)->Some_0),
            forall|k: int| 0 <= k < i ==> (#[trigger] str_field_of(arr@[k], "bannerID"@)) is Some,
            forall|k: int| 0 <= k < i ==> ids@[k]@ == str_field_of(arr@[k], "bannerID"@)->Some_0,
        decreases arr@.len() - i,
    {
        match string_field(&arr[i], "bannerID") {
            Some(id) => ids.push(id),
            None => {
                return None;
            },
        }
        i += 1;
    }
    proof {
        assert(ids_all_present(arr@));
        assert(id_views(ids@) =~= ids_of_arr(arr@));
    }
    Some(ids)
}

/// Decodes a roster response body. Every documented field is required:
/// `termCode`, `crn`, `courseTitle`, `subjectCode`, `courseNumber` as
/// strings, `instructors` and `students` as arrays of objects each with a
/// `bannerID` string. Succeeds exactly on a body of that shape, each record
/// field then equal to the like-named JSON field; anything else is a
/// deserialization error — the only error this decoding can give.
pub fn parse_roster(body: &str) -> (r: Result<BannerRosterResponse, ApiError>)
    ensures
        r is Ok <==> roster_body_ok(body@),
        r is Err ==> r->Err_0 == ApiError::DeserializationError,
        r matches Ok(roster) ==> ({
            let doc = json_doc_of(body@)->Some_0;
            &&& roster.term_code@ == str_field_of(doc, "termCode"@)->Some_0
            &&& roster.crn@ == str_field_of(doc, "crn"@)->Some_0
            &&& roster.course_title@ == str_field_of(doc, "courseTitle"@)->Some_0
            &&& roster.subject_code@ == str_field_of(doc, "subjectCode"@)->Some_0
            &&& roster.course_number@ == str_field_of(doc, "courseNumber"@)->Some_0
            &&& Some(user_ids(roster.instructors@)) == id_list_of(doc, "instructors"@)
            &&& Some(user_ids(roster.students@)) == id_list_of(doc, "students"@)
        }),
{
    let v = match json_parse(body) {
        Some(v) => v,
        None => {
            return Err(ApiError::DeserializationError);
        },
    };
    BannerRosterResponse::from_parts(
        string_field(&v, "termCode"),
        string_field(&v, "crn"),
        string_field(&v, "courseTitle"),
        string_field(&v, "subjectCode"),
        string_field(&v, "courseNumber"),
        id_list_field(&v, "instructors"),
        id_list_field(&v, "students"),
    )
}

/// Decodes a resolution response body: `message` as a string, `statusCode`
/// as an integer fitting its declared numeric type, and under `data` the
/// `bannerID` and `duckID` strings. Succeeds exactly on a body of that
/// shape, each field then equal to the like-named JSON field; anything else
/// is a deserialization error — the only error this decoding can give.
pub fn parse_resolution(body: &str) -> (r: Result<BannerDuckIDResponse, ApiError>)
    ensures
        r is Ok <==> resolution_body_ok(body@),
        r is Err ==> r->Err_0 == ApiError::DeserializationError,
        r matches Ok(resp) ==> ({
            let doc = json_doc_of(body@)->Some_0;
            &&& resp.message@ == str_field_of(doc, "message"@)->Some_0
            &&& resp.status_code == int_field_of(doc, "statusCode"@)->Some_0 as i32
            &&& resp.data.banner_id@ == str_field_of(
                val_field_of(doc, "data"@)->Some_0,
                "bannerID"@,
            )->Some_0
            &&& resp.data.duck_id@ == resolved_duck_id_of(body@)
        }),
{
    let v = match json_parse(body) {
        Some(v) => v,
        None => {
            return Err(ApiError::DeserializationError);
        },
    };
    let (banner_id, duck_id) = match json_get(&v, "data") {
        Some(data) => (string_field(data, "bannerID"), string_field(data, "duckID")),
        None => (None, None),
    };
    BannerDuckIDResponse::from_parts(
        string_field(&v, "message"),
        banner_id,
        duck_id,
        i64_field(&v, "statusCode"),
    )
}

/// Decodes a resolution response body and keeps only the resolved external
/// identifier, which is all one lookup contributes to the output: exactly
/// the body's `data.duckID` string, with `message`, `statusCode` and
/// `data.bannerID` checked for shape but discarded.
pub fn parse_duck_id(body: &str) -> (r: Result<String, ApiError>)
    ensures
        r is Ok <==> resolution_body_ok(body@),
        r is Err ==> r->Err_0 == ApiError::DeserializationError,
        r matches Ok(s) ==> s@ == resolved_duck_id_of(body@),
{
    match parse_resolution(body) {
        Ok(resp) => Ok(resp.data.duck_id),
        Err(e) => Err(e),
    }
}

/// Resolution is idempotent against an unchanged upstream: two independent
/// resolutions of the same identifier see the same response body, and any
/// two outcomes of decoding one body — each as `parse_duck_id` promises —
/// agree: both succeed or both fail, and on success the external
/// identifiers are equal.
pub proof fn lemma_resolution_idempotent(
    body: Seq<char>,
    r1: Result<String, ApiError>,
    r2: Result<String, ApiError>,
)
    requires
        r1 is Ok <==> resolution_body_ok(body),
        r2 is Ok <==> resolution_body_ok(body),
        r1 matches Ok(s) ==> s@ == resolved_duck_id_of(body),
        r2 matches Ok(s) ==> s@ == resolved_duck_id_of(body),
    ensures
        r1 is Ok <==> r2 is Ok,
        r1 matches Ok(s1) ==> (r2 matches Ok(s2) && s1@ == s2@),
{
}

} // verus!
