use duckid_roster::fanout::collect_resolved;
use duckid_roster::json::parse_duck_id;
use duckid_roster::json::parse_resolution;
use duckid_roster::json::parse_roster;
use duckid_roster::records::ApiError;
use duckid_roster::records::BannerDuckIDResponse;
use duckid_roster::records::BannerRosterResponse;
use duckid_roster::records::Config;
use duckid_roster::urls::duckid_url;
use duckid_roster::urls::roster_url;

const ROSTER_BODY: &str = "{\"termCode\":\"202401\",\"crn\":\"12345\",\"courseTitle\":\"Intro\",\"subjectCode\":\"CS\",\"courseNumber\":\"101\",\"instructors\":[{\"bannerID\":\"B1\"}],\"students\":[{\"bannerID\":\"B2\"},{\"bannerID\":\"B3\"}]}";

#[test]
fn roster_url_is_endpoint_with_term_and_crn() {
    assert_eq!(
        roster_url("202401", "12345"),
        "https://api.uoregon.edu/course/v2/roster/202401/12345"
    );
}

#[test]
fn duckid_url_is_endpoint_with_banner_id() {
    assert_eq!(
        duckid_url("B1"),
        "https://api.uoregon.edu/person/uo/duckid/B1"
    );
}

#[test]
fn roster_body_decodes_to_all_fields() {
    let roster = parse_roster(ROSTER_BODY).unwrap();
    assert_eq!(roster.term_code, "202401");
    assert_eq!(roster.crn, "12345");
    assert_eq!(roster.course_title, "Intro");
    assert_eq!(roster.subject_code, "CS");
    assert_eq!(roster.course_number, "101");
    assert_eq!(roster.instructors.len(), 1);
    assert_eq!(roster.instructors[0].banner_id, "B1");
    assert_eq!(roster.students.len(), 2);
    assert_eq!(roster.students[0].banner_id, "B2");
    assert_eq!(roster.students[1].banner_id, "B3");
}

#[test]
fn fanout_order_is_students_then_instructors() {
    let roster = parse_roster(ROSTER_BODY).unwrap();
    let ids = roster.banner_ids();
    assert_eq!(ids, vec!["B2".to_string(), "B3".to_string(), "B1".to_string()]);
}

#[test]
fn three_person_roster_resolves_to_three_lines() {
    // One resolution response per roster member: B1 -> duck1, B2 -> duck2,
    // B3 -> duck3, each decoded the way one lookup's body would be.
    let roster = parse_roster(ROSTER_BODY).unwrap();
    let ids = roster.banner_ids();
    assert_eq!(ids.len(), 3); // exactly S + I = 2 + 1 lookups are dispatched
    let results: Vec<Result<String, ApiError>> = ids
        .iter()
        .map(|id| {
            let body = format!(
                "{{\"message\":\"ok\",\"statusCode\":200,\"data\":{{\"bannerID\":\"{}\",\"duckID\":\"duck{}\"}}}}",
                id,
                &id[1..]
            );
            parse_duck_id(&body)
        })
        .collect();
    let lines = collect_resolved(results).unwrap();
    assert_eq!(
        lines,
        vec!["duck2".to_string(), "duck3".to_string(), "duck1".to_string()]
    );
}

#[test]
fn shared_identifier_is_resolved_twice() {
    let body = "{\"termCode\":\"202401\",\"crn\":\"12345\",\"courseTitle\":\"Intro\",\"subjectCode\":\"CS\",\"courseNumber\":\"101\",\"instructors\":[{\"bannerID\":\"B7\"}],\"students\":[{\"bannerID\":\"B7\"}]}";
    let roster = parse_roster(body).unwrap();
    let ids = roster.banner_ids();
    assert_eq!(ids, vec!["B7".to_string(), "B7".to_string()]);
}

#[test]
fn empty_roster_dispatches_no_lookups() {
    let body = "{\"termCode\":\"202401\",\"crn\":\"12345\",\"courseTitle\":\"Intro\",\"subjectCode\":\"CS\",\"courseNumber\":\"101\",\"instructors\":[],\"students\":[]}";
    let roster = parse_roster(body).unwrap();
    assert!(roster.banner_ids().is_empty());
}

#[test]
fn roster_body_missing_field_is_deserialization_error() {
    // `students` is required; a body without it must not decode.
    let body = "{\"termCode\":\"202401\",\"crn\":\"12345\",\"courseTitle\":\"Intro\",\"subjectCode\":\"CS\",\"courseNumber\":\"101\",\"instructors\":[{\"bannerID\":\"B1\"}]}";
    assert_eq!(parse_roster(body).unwrap_err(), ApiError::DeserializationError);
}

#[test]
fn roster_member_without_banner_id_is_deserialization_error() {
    let body = "{\"termCode\":\"202401\",\"crn\":\"12345\",\"courseTitle\":\"Intro\",\"subjectCode\":\"CS\",\"courseNumber\":\"101\",\"instructors\":[{\"bannerID\":\"B1\"}],\"students\":[{\"name\":\"no id\"}]}";
    assert_eq!(parse_roster(body).unwrap_err(), ApiError::DeserializationError);
}

#[test]
fn roster_body_not_json_is_deserialization_error() {
    assert_eq!(parse_roster("not json at all").unwrap_err(), ApiError::DeserializationError);
}

#[test]
fn roster_field_of_wrong_type_is_deserialization_error() {
    let body = "{\"termCode\":202401,\"crn\":\"12345\",\"courseTitle\":\"Intro\",\"subjectCode\":\"CS\",\"courseNumber\":\"101\",\"instructors\":[],\"students\":[]}";
    assert_eq!(parse_roster(body).unwrap_err(), ApiError::DeserializationError);
}

#[test]
fn resolution_body_decodes_to_all_fields() {
    let body = "{\"message\":\"ok\",\"statusCode\":200,\"data\":{\"bannerID\":\"B1\",\"duckID\":\"duck1\"}}";
    let resp = parse_resolution(body).unwrap();
    assert_eq!(resp.message, "ok");
    assert_eq!(resp.status_code, 200);
    assert_eq!(resp.data.banner_id, "B1");
    assert_eq!(resp.data.duck_id, "duck1");
    assert_eq!(parse_duck_id(body), Ok("duck1".to_string()));
}

#[test]
fn resolving_same_body_twice_gives_same_duck_id() {
    let body = "{\"message\":\"ok\",\"statusCode\":200,\"data\":{\"bannerID\":\"B1\",\"duckID\":\"duck1\"}}";
    assert_eq!(parse_duck_id(body), parse_duck_id(body));
}

#[test]
fn resolution_body_missing_data_is_deserialization_error() {
    let body = "{\"message\":\"ok\",\"statusCode\":200}";
    assert_eq!(parse_resolution(body).unwrap_err(), ApiError::DeserializationError);
}

#[test]
fn resolution_status_code_outside_i32_is_deserialization_error() {
    let body = "{\"message\":\"ok\",\"statusCode\":4294967296,\"data\":{\"bannerID\":\"B1\",\"duckID\":\"duck1\"}}";
    assert_eq!(parse_resolution(body).unwrap_err(), ApiError::DeserializationError);
}

#[test]
fn resolution_status_code_not_an_integer_is_deserialization_error() {
    let body = "{\"message\":\"ok\",\"statusCode\":\"200\",\"data\":{\"bannerID\":\"B1\",\"duckID\":\"duck1\"}}";
    assert_eq!(parse_resolution(body).unwrap_err(), ApiError::DeserializationError);
}

#[test]
fn missing_api_key_is_configuration_error() {
    let r = Config::new("202401".to_string(), "12345".to_string(), None);
    assert_eq!(r.unwrap_err(), ApiError::ConfigurationError);
}

#[test]
fn present_api_key_builds_the_config() {
    let config = Config::new("202401".to_string(), "12345".to_string(), Some("k".to_string())).unwrap();
    assert_eq!(config.term_code, "202401");
    assert_eq!(config.crn, "12345");
    assert_eq!(config.api_key, "k");
}

#[test]
fn collect_keeps_one_line_per_successful_lookup() {
    let results: Vec<Result<String, ApiError>> =
        vec![Ok("duck1".to_string()), Ok("duck2".to_string())];
    assert_eq!(
        collect_resolved(results),
        Ok(vec!["duck1".to_string(), "duck2".to_string()])
    );
}

#[test]
fn collect_returns_first_failure_and_no_partial_output() {
    let results: Vec<Result<String, ApiError>> = vec![
        Ok("duck1".to_string()),
        Err(ApiError::NetworkError),
        Err(ApiError::DeserializationError),
    ];
    assert_eq!(collect_resolved(results), Err(ApiError::NetworkError));
}

#[test]
fn roster_from_parts_requires_every_field() {
    let r = BannerRosterResponse::from_parts(
        Some("202401".to_string()),
        Some("12345".to_string()),
        Some("Intro".to_string()),
        Some("CS".to_string()),
        Some("101".to_string()),
        None,
        Some(vec!["B2".to_string()]),
    );
    assert_eq!(r.unwrap_err(), ApiError::DeserializationError);
}

#[test]
fn resolution_from_parts_requires_every_field() {
    let r = BannerDuckIDResponse::from_parts(
        Some("ok".to_string()),
        Some("B1".to_string()),
        None,
        Some(200),
    );
    assert_eq!(r.unwrap_err(), ApiError::DeserializationError);
}
