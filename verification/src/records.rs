//! The data carried through one invocation: the roster of a course offering,
//! the response of one identifier resolution, and the error taxonomy.

use vstd::prelude::*;

verus! {

/// One enrolled person as the roster reports them: only the internal
/// (Banner) identifier, used as the key for the Duck ID lookup.
#[derive(Clone, Debug)]
pub struct BannerRosterUser {
    pub banner_id: String,
}

/// A class roster: the course description and the ordered instructor and
/// student lists, immutable once decoded from a response body.
#[derive(Clone, Debug)]
pub struct BannerRosterResponse {
    pub term_code: String,
    pub crn: String,
    pub course_title: String,
    pub subject_code: String,
    pub course_number: String,
    pub instructors: Vec<BannerRosterUser>,
    pub students: Vec<BannerRosterUser>,
}

/// The body of one Duck ID resolution response: a status message, the
/// resolved pair, and a numeric status code.
#[derive(Clone, Debug)]
pub struct BannerDuckIDResponse {
    pub message: String,
    pub data: BannerDuckIDData,
    pub status_code: i32,
}

/// The payload of a resolution response: the internal identifier that was
/// looked up and the external (Duck) identifier it resolved to.
#[derive(Clone, Debug)]
pub struct BannerDuckIDData {
    pub banner_id: String,
    pub duck_id: String,
}

/// Everything that can go wrong, each fatal: a required environment variable
/// is absent, a request could not be sent or completed, or a response body
/// does not decode into the expected shape.
#[derive(Clone, Copy, Debug, PartialEq, Eq, Structural)]
pub enum ApiError {
    ConfigurationError,
    NetworkError,
    DeserializationError,
}

/// The three inputs of one run: the two command-line values and the API
/// subscription key taken from the environment.
#[derive(Clone, Debug)]
pub struct Config {
    pub term_code: String,
    pub crn: String,
    pub api_key: String,
}

/// The internal identifiers of a user list, in list order.
pub open spec fn user_ids(users: Seq<BannerRosterUser>) -> Seq<Seq<char>> {
    users.map_values(|u: BannerRosterUser| u.banner_id@)
}

/// The characters of each identifier in a list, in list order.
pub open spec fn id_views(ids: Seq<String>) -> Seq<Seq<char>> {
    ids.map_values(|s: String| s@)
}

impl Config {
    /// Assembles the run configuration. The key is handed in as the
    /// environment lookup returned it; an absent key is a configuration
    /// error, reported before anything else runs.
    pub fn new(term_code: String, crn: String, api_key: Option<String>) -> (r: Result<Config, ApiError>)
        ensures
            r is Ok <==> api_key is Some,
            r is Err ==> r->Err_0 == ApiError::ConfigurationError,
            r is Ok ==> r->Ok_0.term_code == term_code && r->Ok_0.crn == crn
                && r->Ok_0.api_key == api_key->Some_0,
    {
        match api_key {
            Some(key) => Ok(Config { term_code, crn, api_key: key }),
            None => Err(ApiError::ConfigurationError),
        }
    }
}

/// Turns a list of bare identifiers into roster users, keeping order.
fn users_from_ids(ids: Vec<String>) -> (r: Vec<BannerRosterUser>)
    ensures
        r@.len() == ids@.len(),
        user_ids(r@) == id_views(ids@),
{
    let mut users: Vec<BannerRosterUser> = Vec::new();
    let mut i: usize = 0;
    while i < ids.len()
        invariant
            i <= ids@.len(),
            users@.len() == i,
            forall|k: int| 0 <= k < i ==> users@[k].banner_id@ == ids@[k]@,
        decreases ids@.len() - i,
    {
        users.push(BannerRosterUser { banner_id: ids[i].clone() });
        i += 1;
    }
    proof {
        assert(user_ids(users@) =~= id_views(ids@));
    }
    users
}

impl BannerRosterResponse {
    /// Builds a roster from the decoded fields of a response body, each
    /// `None` where the body lacked the field or gave it the wrong type.
    /// Succeeds exactly when every required field is present; any missing
    /// field is a deserialization error.
    pub fn from_parts(
        term_code: Option<String>,
        crn: Option<String>,
        course_title: Option<String>,
        subject_code: Option<String>,
        course_number: Option<String>,
        instructor_ids: Option<Vec<String>>,
        student_ids: Option<Vec<String>>,
    ) -> (r: Result<BannerRosterResponse, ApiError>)
        ensures
            r is Ok <==> (term_code is Some && crn is Some && course_title is Some
                && subject_code is Some && course_number is Some && instructor_ids is Some
                && student_ids is Some),
            r is Err ==> r->Err_0 == ApiError::DeserializationError,
            r is Ok ==> r->Ok_0.term_code == term_code->Some_0,
            r is Ok ==> r->Ok_0.crn == crn->Some_0,
            r is Ok ==> r->Ok_0.course_title == course_title->Some_0,
            r is Ok ==> r->Ok_0.subject_code == subject_code->Some_0,
            r is Ok ==> r->Ok_0.course_number == course_number->Some_0,
            r is Ok ==> r->Ok_0.instructors@.len() == instructor_ids->Some_0@.len()
                && user_ids(r->Ok_0.instructors@) == id_views(instructor_ids->Some_0@),
            r is Ok ==> r->Ok_0.students@.len() == student_ids->Some_0@.len()
                && user_ids(r->Ok_0.students@) == id_views(student_ids->Some_0@),
    {
        match (term_code, crn, course_title, subject_code, course_number, instructor_ids, student_ids) {
            (Some(term_code), Some(crn), Some(course_title), Some(subject_code),
             Some(course_number), Some(instructor_ids), Some(student_ids)) => {
                Ok(BannerRosterResponse {
                    term_code,
                    crn,
                    course_title,
                    subject_code,
                    course_number,
                    instructors: users_from_ids(instructor_ids),
                    students: users_from_ids(student_ids),
                })
            },
            _ => Err(ApiError::DeserializationError),
        }
    }
}

impl BannerDuckIDResponse {
    /// Builds a resolution response from the decoded fields of a body, each
    /// `None` where the body lacked the field or gave it the wrong type.
    /// Succeeds exactly when every field is present and the status code fits
    /// the numeric type it is declared with; anything else is a
    /// deserialization error.
    pub fn from_parts(
        message: Option<String>,
        banner_id: Option<String>,
        duck_id: Option<String>,
        status_code: Option<i64>,
    ) -> (r: Result<BannerDuckIDResponse, ApiError>)
        ensures
            r is Ok <==> (message is Some && banner_id is Some && duck_id is Some
                && status_code is Some && i32::MIN <= status_code->Some_0 <= i32::MAX),
            r is Err ==> r->Err_0 == ApiError::DeserializationError,
            r is Ok ==> r->Ok_0.message == message->Some_0,
            r is Ok ==> r->Ok_0.data.banner_id == banner_id->Some_0,
            r is Ok ==> r->Ok_0.data.duck_id == duck_id->Some_0,
            r is Ok ==> r->Ok_0.status_code == status_code->Some_0 as i32,
    {
        match (message, banner_id, duck_id, status_code) {
            (Some(message), Some(banner_id), Some(duck_id), Some(status_code)) => {
                if i32::MIN as i64 <= status_code && status_code <= i32::MAX as i64 {
                    Ok(BannerDuckIDResponse {
                        message,
                        data: BannerDuckIDData { banner_id, duck_id },
                        status_code: status_code as i32,
                    })
                } else {
                    Err(ApiError::DeserializationError)
                }
            },
            _ => Err(ApiError::DeserializationError),
        }
    }
}

} // verus!
