//! Qiskit Runtime API requests: method, address, query and headers of each
//! call, and how an answer is read.
use vstd::prelude::*;

use crate::qiskit_runtime_client::models::{
    CreateJobRequest, CreateSessionRequest, ReplaceJobTagsRequest, UpdateSessionStateRequest,
};
use crate::text::{concat2, concat4, i64_text, push_char};
use vstd::string::StringSliceAdditionalSpecFns;

verus! {

/// A text pair, viewed as sequences.
pub open spec fn pair_view(p: (String, String)) -> (Seq<char>, Seq<char>) {
    (p.0@, p.1@)
}

/// A list of text pairs, viewed as sequences.
pub open spec fn pairs_view(v: Seq<(String, String)>) -> Seq<(Seq<char>, Seq<char>)> {
    v.map_values(|p: (String, String)| pair_view(p))
}

/// The pair `(name, value)` when the value is given, nothing otherwise.
pub open spec fn opt_pair(name: Seq<char>, value: Option<Seq<char>>) -> Seq<(Seq<char>, Seq<char>)> {
    match value {
        Some(v) => seq![(name, v)],
        None => Seq::empty(),
    }
}

/// The view of an optional text.
pub open spec fn opt_text(s: Option<String>) -> Option<Seq<char>> {
    match s {
        Some(t) => Some(t@),
        None => None,
    }
}

/// The view of an optional text slice.
pub open spec fn opt_str(s: Option<&str>) -> Option<Seq<char>> {
    match s {
        Some(t) => Some(t@),
        None => None,
    }
}

/// Appends `(name, value)` when the value is given.
fn push_opt(list: &mut Vec<(String, String)>, name: &str, value: Option<&str>)
    ensures
        pairs_view(final(list)@) == pairs_view(old(list)@) + opt_pair(name@, opt_str(value)),
{
    let ghost before = list@;
    if let Some(v) = value {
        list.push((String::from_str(name), String::from_str(v)));
        assert(pairs_view(list@) =~= pairs_view(before) + opt_pair(name@, opt_str(value)));
    } else {
        assert(pairs_view(list@) =~= pairs_view(before) + opt_pair(name@, opt_str(value)));
    }
}

/// Whether a byte is left as it is by `application/x-www-form-urlencoded`
/// serialization: an ASCII letter or digit, or one of `*-._`.
pub open spec fn is_form_unreserved(b: u8) -> bool {
    (0x30 <= b <= 0x39) || (0x41 <= b <= 0x5a) || (0x61 <= b <= 0x7a) || b == 0x2a || b == 0x2d
        || b == 0x2e || b == 0x5f
}

/// The upper-case hexadecimal digit of a value below 16.
pub open spec fn hex_digit(v: int) -> char {
    if v < 10 {
        ((0x30 + v) as u8) as char
    } else {
        ((0x41 + v - 10) as u8) as char
    }
}

/// The serialization of one byte: itself when unreserved, `+` for a space,
/// and `%` with two upper-case hexadecimal digits otherwise.
pub open spec fn form_encode_byte(b: u8) -> Seq<char> {
    if is_form_unreserved(b) {
        seq![b as char]
    } else if b == 0x20 {
        seq!['+']
    } else {
        seq!['%', hex_digit(b as int / 16), hex_digit(b as int % 16)]
    }
}

/// The `application/x-www-form-urlencoded` serialization of bytes.
pub open spec fn form_urlencode(bytes: Seq<u8>) -> Seq<char>
    decreases bytes.len(),
{
    if bytes.len() == 0 {
        Seq::empty()
    } else {
        form_urlencode(bytes.drop_last()) + form_encode_byte(bytes.last())
    }
}

/// The character of an ASCII byte.
fn ascii_char(b: u8) -> (c: char)
    requires
        b < 128,
    ensures
        c == b as char,
{
    b as char
}

/// The upper-case hexadecimal digit of a value below 16.
fn hex_char(v: u8) -> (c: char)
    requires
        v < 16,
    ensures
        c == hex_digit(v as int),
{
    if v < 10 {
        ascii_char(0x30 + v)
    } else {
        ascii_char(0x41 + v - 10)
    }
}

/// Percent-encodes `s` for use in a request path, as the API client does:
/// the `application/x-www-form-urlencoded` serialization of its UTF-8 bytes.
pub fn urlencode(s: &str) -> (r: String)
    ensures
        r@ == form_urlencode(s.spec_bytes()),
{
    let bytes = s.as_bytes();
    let n = bytes.len();
    let mut r = String::new();
    let mut i: usize = 0;
    while i < n
        invariant
            n == bytes@.len(),
            bytes@ == s.spec_bytes(),
            i <= n,
            r@ == form_urlencode(bytes@.take(i as int)),
        decreases n - i,
    {
        let b = bytes[i];
        proof {
            assert(bytes@.take(i + 1).drop_last() =~= bytes@.take(i as int));
            assert(bytes@.take(i + 1).last() == b);
        }
        if (0x30 <= b && b <= 0x39) || (0x41 <= b && b <= 0x5a) || (0x61 <= b && b <= 0x7a) || b == 0x2a
            || b == 0x2d || b == 0x2e || b == 0x5f {
            push_char(&mut r, ascii_char(b));
        } else if b == 0x20 {
            push_char(&mut r, '+');
        } else {
            push_char(&mut r, '%');
            push_char(&mut r, hex_char(b / 16));
            push_char(&mut r, hex_char(b % 16));
        }
        assert(r@ =~= form_urlencode(bytes@.take(i + 1)));
        i = i + 1;
    }
    assert(bytes@.take(n as int) =~= bytes@);
    r
}

/// The connection settings of the API client.
#[derive(Debug, Clone)]
pub struct Configuration {
    /// Base URL of the API.
    pub base_path: String,
    /// User agent sent with every request.
    pub user_agent: Option<String>,
    /// IAM bearer token.
    pub bearer_access_token: Option<String>,
    /// Service instance CRN.
    pub crn: Option<String>,
}

/// HTTP methods of the API.
#[derive(Debug, Clone, Copy, PartialEq, Eq, Structural)]
pub enum Method {
    Get,
    Post,
    Put,
    Patch,
    Delete,
}

/// The JSON body of a request, as the call hands it over.
#[derive(Debug)]
pub enum RequestBody {
    /// The request has no body.
    Empty,
    /// The job to create.
    CreateJob(Option<CreateJobRequest>),
    /// The session to create.
    CreateSession(Option<CreateSessionRequest>),
    /// The new tags of a job.
    ReplaceJobTags(Option<ReplaceJobTagsRequest>),
    /// The new state of a session.
    UpdateSessionState(Option<UpdateSessionStateRequest>),
}

/// A request to send: method, address, query pairs, headers, each list in
/// the order the pairs are added, and body.
#[derive(Debug)]
pub struct ApiRequest {
    pub method: Method,
    pub url: String,
    pub query: Vec<(String, String)>,
    pub headers: Vec<(String, String)>,
    pub body: RequestBody,
}

/// The authorization header that carries a bearer token.
pub open spec fn bearer_header(token: Option<Seq<char>>) -> Seq<(Seq<char>, Seq<char>)> {
    match token {
        Some(t) => seq![("authorization"@, "Bearer "@ + t)],
        None => Seq::empty(),
    }
}

/// The user agent header, when configured.
pub open spec fn user_agent_header(c: Configuration) -> Seq<(Seq<char>, Seq<char>)> {
    opt_pair("user-agent"@, opt_text(c.user_agent))
}

/// The headers that authenticate a request: bearer token, then service CRN.
pub open spec fn auth_headers(c: Configuration) -> Seq<(Seq<char>, Seq<char>)> {
    bearer_header(opt_text(c.bearer_access_token)) + opt_pair("Service-CRN"@, opt_text(c.crn))
}

/// The header that asks for JSON answers.
pub open spec fn accept_json() -> Seq<(Seq<char>, Seq<char>)> {
    seq![("accept"@, "application/json"@)]
}

/// The address of a job resource: `<base>/jobs/<encoded id><suffix>`.
pub open spec fn job_url(c: Configuration, id: &str, suffix: Seq<char>) -> Seq<char> {
    c.base_path@ + "/jobs/"@ + form_urlencode(id.spec_bytes()) + suffix
}

/// The address of a session resource: `<base>/sessions/<encoded id><suffix>`.
pub open spec fn session_url(c: Configuration, id: &str, suffix: Seq<char>) -> Seq<char> {
    c.base_path@ + "/sessions/"@ + form_urlencode(id.spec_bytes()) + suffix
}

/// Headers of job calls: JSON answers, user agent, API version, then authentication.
pub open spec fn job_headers(c: Configuration, ibm_api_version: Option<&str>) -> Seq<(Seq<char>, Seq<char>)> {
    accept_json() + user_agent_header(c) + opt_pair("IBM-API-Version"@, opt_str(ibm_api_version))
        + auth_headers(c)
}

/// Headers of session calls: user agent, API version, authentication, then JSON answers.
pub open spec fn session_headers(c: Configuration, ibm_api_version: Option<&str>) -> Seq<(Seq<char>, Seq<char>)> {
    user_agent_header(c) + opt_pair("IBM-API-Version"@, opt_str(ibm_api_version)) + auth_headers(c)
        + accept_json()
}

/// Appends the authentication headers of `config`.
fn push_auth(headers: &mut Vec<(String, String)>, config: &Configuration)
    ensures
        pairs_view(final(headers)@) == pairs_view(old(headers)@) + auth_headers(*config),
{
    let ghost before = pairs_view(headers@);
    match &config.bearer_access_token {
        Some(t) => {
            headers.push((String::from_str("authorization"), concat2("Bearer ", t.as_str())));
        },
        None => {},
    }
    assert(pairs_view(headers@) =~= before + bearer_header(opt_text(config.bearer_access_token)));
    push_opt(headers, "Service-CRN", match &config.crn {
        Some(c) => Some(c.as_str()),
        None => None,
    });
    assert(pairs_view(headers@) =~= before + auth_headers(*config));
}

/// Appends the user agent header of `config`.
fn push_user_agent(headers: &mut Vec<(String, String)>, config: &Configuration)
    ensures
        pairs_view(final(headers)@) == pairs_view(old(headers)@) + user_agent_header(*config),
{
    push_opt(headers, "user-agent", match &config.user_agent {
        Some(u) => Some(u.as_str()),
        None => None,
    });
}

/// Returns the headers of a job call.
fn job_call_headers(config: &Configuration, ibm_api_version: Option<&str>) -> (r: Vec<(String, String)>)
    ensures
        pairs_view(r@) == job_headers(*config, ibm_api_version),
{
    let mut h: Vec<(String, String)> = Vec::new();
    h.push((String::from_str("accept"), String::from_str("application/json")));
    assert(pairs_view(h@) =~= accept_json());
    push_user_agent(&mut h, config);
    push_opt(&mut h, "IBM-API-Version", ibm_api_version);
    push_auth(&mut h, config);
    assert(pairs_view(h@) =~= job_headers(*config, ibm_api_version));
    h
}

/// Returns the headers of a session call.
fn session_call_headers(config: &Configuration, ibm_api_version: Option<&str>) -> (r: Vec<(String, String)>)
    ensures
        pairs_view(r@) == session_headers(*config, ibm_api_version),
{
    let mut h: Vec<(String, String)> = Vec::new();
    assert(pairs_view(h@) =~= Seq::<(Seq<char>, Seq<char>)>::empty());
    push_user_agent(&mut h, config);
    push_opt(&mut h, "IBM-API-Version", ibm_api_version);
    push_auth(&mut h, config);
    let ghost before = pairs_view(h@);
    h.push((String::from_str("accept"), String::from_str("application/json")));
    assert(pairs_view(h@) =~= before + accept_json());
    assert(pairs_view(h@) =~= session_headers(*config, ibm_api_version));
    h
}

/// Returns the address `<base>/jobs/<encoded id><suffix>`.
fn job_address(config: &Configuration, id: &str, suffix: &str) -> (r: String)
    ensures
        r@ == job_url(*config, id, suffix@),
{
    concat4(config.base_path.as_str(), "/jobs/", urlencode(id).as_str(), suffix)
}

/// Returns the address `<base>/sessions/<encoded id><suffix>`.
fn session_address(config: &Configuration, id: &str, suffix: &str) -> (r: String)
    ensures
        r@ == session_url(*config, id, suffix@),
{
    concat4(config.base_path.as_str(), "/sessions/", urlencode(id).as_str(), suffix)
}

/// A GET job call without query on `<base>/jobs/<id><suffix>`.
fn get_job_call(config: &Configuration, id: &str, suffix: &str, ibm_api_version: Option<&str>) -> (r: ApiRequest)
    ensures
        r.method == Method::Get,
        r.body == RequestBody::Empty,
        r.url@ == job_url(*config, id, suffix@),
        r.query@.len() == 0,
        pairs_view(r.headers@) == job_headers(*config, ibm_api_version),
{
    ApiRequest {
        method: Method::Get,
        url: job_address(config, id, suffix),
        query: Vec::new(),
        headers: job_call_headers(config, ibm_api_version),
        body: RequestBody::Empty,
    }
}

/// Cancels the specified job: `POST <base>/jobs/<id>/cancel`.
pub fn cancel_job_jid(
    config: &Configuration,
    id: &str,
    parent_job_id: Option<&str>,
    ibm_api_version: Option<&str>,
) -> (r: ApiRequest)
    ensures
        r.method == Method::Post,
        r.body == RequestBody::Empty,
        r.url@ == job_url(*config, id, "/cancel"@),
        r.query@.len() == 0,
        pairs_view(r.headers@) == accept_json() + user_agent_header(*config) + opt_pair(
            "Parent-Job-Id"@,
            opt_str(parent_job_id),
        ) + opt_pair("IBM-API-Version"@, opt_str(ibm_api_version)) + auth_headers(*config),
{
    let mut h: Vec<(String, String)> = Vec::new();
    h.push((String::from_str("accept"), String::from_str("application/json")));
    assert(pairs_view(h@) =~= accept_json());
    push_user_agent(&mut h, config);
    push_opt(&mut h, "Parent-Job-Id", parent_job_id);
    push_opt(&mut h, "IBM-API-Version", ibm_api_version);
    push_auth(&mut h, config);
    ApiRequest { method: Method::Post, url: job_address(config, id, "/cancel"), query: Vec::new(), headers: h, body: RequestBody::Empty }
}

/// Invokes a Qiskit Runtime primitive: `POST <base>/jobs`.
pub fn create_job(
    config: &Configuration,
    ibm_api_version: Option<&str>,
    parent_job_id: Option<&str>,
    create_job_request: Option<CreateJobRequest>,
) -> (r: ApiRequest)
    ensures
        r.method == Method::Post,
        r.body == RequestBody::CreateJob(create_job_request),
        r.url@ == config.base_path@ + "/jobs"@,
        r.query@.len() == 0,
        pairs_view(r.headers@) == accept_json() + user_agent_header(*config) + opt_pair(
            "IBM-API-Version"@,
            opt_str(ibm_api_version),
        ) + opt_pair("Parent-Job-Id"@, opt_str(parent_job_id)) + auth_headers(*config),
{
    let mut h: Vec<(String, String)> = Vec::new();
    h.push((String::from_str("accept"), String::from_str("application/json")));
    assert(pairs_view(h@) =~= accept_json());
    push_user_agent(&mut h, config);
    push_opt(&mut h, "IBM-API-Version", ibm_api_version);
    push_opt(&mut h, "Parent-Job-Id", parent_job_id);
    push_auth(&mut h, config);
    ApiRequest {
        method: Method::Post,
        url: concat2(config.base_path.as_str(), "/jobs"),
        query: Vec::new(),
        headers: h,
        body: RequestBody::CreateJob(create_job_request),
    }
}

/// Deletes the specified job and its data: `DELETE <base>/jobs/<id>`.
pub fn delete_job_jid(config: &Configuration, id: &str, ibm_api_version: Option<&str>) -> (r: ApiRequest)
    ensures
        r.method == Method::Delete,
        r.body == RequestBody::Empty,
        r.url@ == job_url(*config, id, ""@),
        r.query@.len() == 0,
        pairs_view(r.headers@) == job_headers(*config, ibm_api_version),
{
    ApiRequest {
        method: Method::Delete,
        url: job_address(config, id, ""),
        query: Vec::new(),
        headers: job_call_headers(config, ibm_api_version),
        body: RequestBody::Empty,
    }
}

/// Returns the interim results of a job: `GET <base>/jobs/<id>/interim_results`.
pub fn get_interim_results_jid(config: &Configuration, id: &str, ibm_api_version: Option<&str>) -> (r: ApiRequest)
    ensures
        r.method == Method::Get,
        r.body == RequestBody::Empty,
        r.url@ == job_url(*config, id, "/interim_results"@),
        r.query@.len() == 0,
        pairs_view(r.headers@) == job_headers(*config, ibm_api_version),
{
    get_job_call(config, id, "/interim_results", ibm_api_version)
}

/// The text of a boolean query value.
pub open spec fn bool_text(b: bool) -> Seq<char> {
    if b {
        "true"@
    } else {
        "false"@
    }
}

/// Returns the text of a boolean query value.
fn bool_value(b: bool) -> (r: String)
    ensures
        r@ == bool_text(b),
{
    if b {
        String::from_str("true")
    } else {
        String::from_str("false")
    }
}

/// Returns the details of a job: `GET <base>/jobs/<id>`, with
/// `exclude_params` in the query when given.
pub fn get_job_details_jid(
    config: &Configuration,
    id: &str,
    ibm_api_version: Option<&str>,
    exclude_params: Option<bool>,
) -> (r: ApiRequest)
    ensures
        r.method == Method::Get,
        r.body == RequestBody::Empty,
        r.url@ == job_url(*config, id, ""@),
        pairs_view(r.query@) == opt_pair(
            "exclude_params"@,
            match exclude_params { Some(b) => Some(bool_text(b)), None => None },
        ),
        pairs_view(r.headers@) == job_headers(*config, ibm_api_version),
{
    let mut query: Vec<(String, String)> = Vec::new();
    match exclude_params {
        Some(b) => {
            query.push((String::from_str("exclude_params"), bool_value(b)));
        },
        None => {},
    }
    assert(pairs_view(query@) =~= opt_pair(
        "exclude_params"@,
        match exclude_params { Some(b) => Some(bool_text(b)), None => None },
    ));
    ApiRequest {
        method: Method::Get,
        url: job_address(config, id, ""),
        query,
        headers: job_call_headers(config, ibm_api_version),
        body: RequestBody::Empty,
    }
}

/// Returns the metrics of a job: `GET <base>/jobs/<id>/metrics`.
pub fn get_job_metrics_jid(config: &Configuration, id: &str, ibm_api_version: Option<&str>) -> (r: ApiRequest)
    ensures
        r.method == Method::Get,
        r.body == RequestBody::Empty,
        r.url@ == job_url(*config, id, "/metrics"@),
        r.query@.len() == 0,
        pairs_view(r.headers@) == job_headers(*config, ibm_api_version),
{
    get_job_call(config, id, "/metrics", ibm_api_version)
}

/// Returns the results of a job: `GET <base>/jobs/<id>/results`.
pub fn get_job_results_jid(config: &Configuration, id: &str, ibm_api_version: Option<&str>) -> (r: ApiRequest)
    ensures
        r.method == Method::Get,
        r.body == RequestBody::Empty,
        r.url@ == job_url(*config, id, "/results"@),
        r.query@.len() == 0,
        pairs_view(r.headers@) == job_headers(*config, ibm_api_version),
{
    get_job_call(config, id, "/results", ibm_api_version)
}

/// Returns the logs of a job: `GET <base>/jobs/<id>/logs`.
pub fn get_jog_logs_jid(config: &Configuration, id: &str, ibm_api_version: Option<&str>) -> (r: ApiRequest)
    ensures
        r.method == Method::Get,
        r.body == RequestBody::Empty,
        r.url@ == job_url(*config, id, "/logs"@),
        r.query@.len() == 0,
        pairs_view(r.headers@) == job_headers(*config, ibm_api_version),
{
    get_job_call(config, id, "/logs", ibm_api_version)
}

/// Returns the transpiled circuits of a job: `GET <base>/jobs/<id>/transpiled_circuits`.
pub fn get_transpiled_circuits_jid(config: &Configuration, id: &str, ibm_api_version: Option<&str>) -> (r:
    ApiRequest)
    ensures
        r.method == Method::Get,
        r.body == RequestBody::Empty,
        r.url@ == job_url(*config, id, "/transpiled_circuits"@),
        r.query@.len() == 0,
        pairs_view(r.headers@) == job_headers(*config, ibm_api_version),
{
    get_job_call(config, id, "/transpiled_circuits", ibm_api_version)
}

/// Replaces the tags of a job: `PUT <base>/jobs/<id>/tags`.
pub fn replace_job_tags(
    config: &Configuration,
    id: &str,
    ibm_api_version: Option<&str>,
    replace_job_tags_request: Option<ReplaceJobTagsRequest>,
) -> (r: ApiRequest)
    ensures
        r.method == Method::Put,
        r.body == RequestBody::ReplaceJobTags(replace_job_tags_request),
        r.url@ == job_url(*config, id, "/tags"@),
        r.query@.len() == 0,
        pairs_view(r.headers@) == job_headers(*config, ibm_api_version),
{
    ApiRequest {
        method: Method::Put,
        url: job_address(config, id, "/tags"),
        query: Vec::new(),
        headers: job_call_headers(config, ibm_api_version),
        body: RequestBody::ReplaceJobTags(replace_job_tags_request),
    }
}

/// The filters of a job listing.
#[derive(Debug, Clone)]
pub struct ListJobsQuery {
    pub limit: Option<i32>,
    pub offset: Option<i32>,
    pub pending: Option<bool>,
    pub program: Option<String>,
    pub backend: Option<String>,
    pub created_after: Option<String>,
    pub created_before: Option<String>,
    pub sort: Option<String>,
    pub tags: Option<Vec<String>>,
    pub session_id: Option<String>,
    pub exclude_params: Option<bool>,
}

/// An optional number query pair.
pub open spec fn opt_number(name: Seq<char>, v: Option<i32>) -> Seq<(Seq<char>, Seq<char>)> {
    opt_pair(name, match v { Some(n) => Some(crate::text::signed_decimal(n as int)), None => None })
}

/// An optional boolean query pair.
pub open spec fn opt_bool(name: Seq<char>, v: Option<bool>) -> Seq<(Seq<char>, Seq<char>)> {
    opt_pair(name, match v { Some(b) => Some(bool_text(b)), None => None })
}

/// One `tags` pair per tag, in order.
pub open spec fn tag_pairs(tags: Option<Vec<String>>) -> Seq<(Seq<char>, Seq<char>)> {
    match tags {
        Some(t) => t@.map_values(|s: String| ("tags"@, s@)),
        None => Seq::empty(),
    }
}

/// The query of a job listing, in the order the filters are listed.
pub open spec fn list_jobs_pairs(q: ListJobsQuery) -> Seq<(Seq<char>, Seq<char>)> {
    opt_number("limit"@, q.limit) + opt_number("offset"@, q.offset) + opt_bool("pending"@, q.pending)
        + opt_pair("program"@, opt_text(q.program)) + opt_pair("backend"@, opt_text(q.backend))
        + opt_pair("created_after"@, opt_text(q.created_after)) + opt_pair(
        "created_before"@,
        opt_text(q.created_before),
    ) + opt_pair("sort"@, opt_text(q.sort)) + tag_pairs(q.tags) + opt_pair(
        "session_id"@,
        opt_text(q.session_id),
    ) + opt_bool("exclude_params"@, q.exclude_params)
}

/// The text of an optional owned text, borrowed.
fn as_opt_str(s: &Option<String>) -> (r: Option<&str>)
    ensures
        opt_str(r) == opt_text(*s),
{
    match s {
        Some(t) => Some(t.as_str()),
        None => None,
    }
}

/// Appends an optional number query pair.
fn push_number(list: &mut Vec<(String, String)>, name: &str, v: Option<i32>)
    ensures
        pairs_view(final(list)@) == pairs_view(old(list)@) + opt_number(name@, v),
{
    let ghost before = pairs_view(list@);
    match v {
        Some(n) => {
            list.push((String::from_str(name), i64_text(n as i64)));
        },
        None => {},
    }
    assert(pairs_view(list@) =~= before + opt_number(name@, v));
}

/// Appends an optional boolean query pair.
fn push_bool(list: &mut Vec<(String, String)>, name: &str, v: Option<bool>)
    ensures
        pairs_view(final(list)@) == pairs_view(old(list)@) + opt_bool(name@, v),
{
    let ghost before = pairs_view(list@);
    match v {
        Some(b) => {
            list.push((String::from_str(name), bool_value(b)));
        },
        None => {},
    }
    assert(pairs_view(list@) =~= before + opt_bool(name@, v));
}

/// Appends one `tags` pair per tag.
fn push_tags(list: &mut Vec<(String, String)>, tags: &Option<Vec<String>>)
    ensures
        pairs_view(final(list)@) == pairs_view(old(list)@) + tag_pairs(*tags),
{
    let ghost before = pairs_view(list@);
    match tags {
        Some(t) => {
            let n = t.len();
            let mut i: usize = 0;
            while i < n
                invariant
                    n == t@.len(),
                    i <= n,
                    pairs_view(list@) =~= before + t@.take(i as int).map_values(|s: String| ("tags"@, s@)),
                decreases n - i,
            {
                let ghost prev = pairs_view(list@);
                list.push((String::from_str("tags"), t[i].clone()));
                assert(t@.take(i + 1) =~= t@.take(i as int).push(t@[i as int]));
                assert(pairs_view(list@) =~= prev.push(("tags"@, t@[i as int]@)));
                i = i + 1;
            }
            assert(t@.take(n as int) =~= t@);
        },
        None => {
            assert(pairs_view(list@) =~= before + tag_pairs(*tags));
        },
    }
}

/// Lists the jobs: `GET <base>/jobs` with the given filters as query.
pub fn list_jobs(config: &Configuration, ibm_api_version: Option<&str>, filters: &ListJobsQuery) -> (r: ApiRequest)
    ensures
        r.method == Method::Get,
        r.body == RequestBody::Empty,
        r.url@ == config.base_path@ + "/jobs"@,
        pairs_view(r.query@) == list_jobs_pairs(*filters),
        pairs_view(r.headers@) == job_headers(*config, ibm_api_version),
{
    let mut q: Vec<(String, String)> = Vec::new();
    assert(pairs_view(q@) =~= Seq::<(Seq<char>, Seq<char>)>::empty());
    push_number(&mut q, "limit", filters.limit);
    push_number(&mut q, "offset", filters.offset);
    push_bool(&mut q, "pending", filters.pending);
    push_opt(&mut q, "program", as_opt_str(&filters.program));
    push_opt(&mut q, "backend", as_opt_str(&filters.backend));
    push_opt(&mut q, "created_after", as_opt_str(&filters.created_after));
    push_opt(&mut q, "created_before", as_opt_str(&filters.created_before));
    push_opt(&mut q, "sort", as_opt_str(&filters.sort));
    push_tags(&mut q, &filters.tags);
    push_opt(&mut q, "session_id", as_opt_str(&filters.session_id));
    push_bool(&mut q, "exclude_params", filters.exclude_params);
    assert(pairs_view(q@) =~= list_jobs_pairs(*filters));
    ApiRequest {
        method: Method::Get,
        url: concat2(config.base_path.as_str(), "/jobs"),
        query: q,
        headers: job_call_headers(config, ibm_api_version),
        body: RequestBody::Empty,
    }
}

/// Creates a session: `POST <base>/sessions`.
pub fn create_session(
    config: &Configuration,
    ibm_api_version: Option<&str>,
    create_session_request: Option<CreateSessionRequest>,
) -> (r: ApiRequest)
    ensures
        r.method == Method::Post,
        r.body == RequestBody::CreateSession(create_session_request),
        r.url@ == config.base_path@ + "/sessions"@,
        r.query@.len() == 0,
        pairs_view(r.headers@) == session_headers(*config, ibm_api_version),
{
    ApiRequest {
        method: Method::Post,
        url: concat2(config.base_path.as_str(), "/sessions"),
        query: Vec::new(),
        headers: session_call_headers(config, ibm_api_version),
        body: RequestBody::CreateSession(create_session_request),
    }
}

/// Closes a session: `DELETE <base>/sessions/<id>/close`.
pub fn delete_session_close(config: &Configuration, id: &str, ibm_api_version: Option<&str>) -> (r: ApiRequest)
    ensures
        r.method == Method::Delete,
        r.body == RequestBody::Empty,
        r.url@ == session_url(*config, id, "/close"@),
        r.query@.len() == 0,
        pairs_view(r.headers@) == session_headers(*config, ibm_api_version),
{
    ApiRequest {
        method: Method::Delete,
        url: session_address(config, id, "/close"),
        query: Vec::new(),
        headers: session_call_headers(config, ibm_api_version),
        body: RequestBody::Empty,
    }
}

/// Returns the details of a session: `GET <base>/sessions/<id>`.
pub fn get_session_information(config: &Configuration, id: &str, ibm_api_version: Option<&str>) -> (r: ApiRequest)
    ensures
        r.method == Method::Get,
        r.body == RequestBody::Empty,
        r.url@ == session_url(*config, id, ""@),
        r.query@.len() == 0,
        pairs_view(r.headers@) == session_headers(*config, ibm_api_version),
{
    ApiRequest {
        method: Method::Get,
        url: session_address(config, id, ""),
        query: Vec::new(),
        headers: session_call_headers(config, ibm_api_version),
        body: RequestBody::Empty,
    }
}

/// Updates the state of a session: `PATCH <base>/sessions/<id>`.
pub fn update_session_state(
    config: &Configuration,
    id: &str,
    ibm_api_version: Option<&str>,
    update_session_state_request: Option<UpdateSessionStateRequest>,
) -> (r: ApiRequest)
    ensures
        r.method == Method::Patch,
        r.body == RequestBody::UpdateSessionState(update_session_state_request),
        r.url@ == session_url(*config, id, ""@),
        r.query@.len() == 0,
        pairs_view(r.headers@) == session_headers(*config, ibm_api_version),
{
    ApiRequest {
        method: Method::Patch,
        url: session_address(config, id, ""),
        query: Vec::new(),
        headers: session_call_headers(config, ibm_api_version),
        body: RequestBody::UpdateSessionState(update_session_state_request),
    }
}

/// How the body of a successful answer is read.
#[derive(Debug, Clone, Copy, PartialEq, Eq, Structural)]
pub enum ContentType {
    /// A JSON document.
    Json,
    /// Plain text.
    Text,
    /// Anything else.
    Unsupported,
}

/// Whether `s` starts with `prefix`.
pub open spec fn starts_with(s: Seq<char>, prefix: Seq<char>) -> bool {
    prefix.len() <= s.len() && s.subrange(0, prefix.len() as int) == prefix
}

/// Whether `part` occurs in `s`.
pub open spec fn contains(s: Seq<char>, part: Seq<char>) -> bool {
    exists|i: int| 0 <= i && i + part.len() <= s.len() && #[trigger] s.subrange(i, i + part.len()) == part
}

/// The kind of a `Content-Type` value: JSON for `application/...json...`,
/// text for `text/plain...`, anything else unsupported.
pub open spec fn spec_content_type(value: Seq<char>) -> ContentType {
    if starts_with(value, "application"@) && contains(value, "json"@) {
        ContentType::Json
    } else if starts_with(value, "text/plain"@) {
        ContentType::Text
    } else {
        ContentType::Unsupported
    }
}

/// Returns whether `part` occurs in `s` at position `i`.
fn occurs_at(s: &Vec<char>, part: &Vec<char>, i: usize) -> (r: bool)
    requires
        i + part@.len() <= s@.len(),
    ensures
        r == (s@.subrange(i as int, i + part@.len()) == part@),
{
    let n = s.len();
    let m = part.len();
    let mut j: usize = 0;
    while j < m
        invariant
            n == s@.len(),
            m == part@.len(),
            i + m <= n,
            j <= m,
            forall|k: int| 0 <= k < j ==> s@[i + k] == part@[k],
        decreases m - j,
    {
        if s[i + j] != part[j] {
            assert(s@.subrange(i as int, i + m)[j as int] != part@[j as int]);
            return false;
        }
        j = j + 1;
    }
    assert(s@.subrange(i as int, i + m) =~= part@);
    true
}

/// Returns whether `part` occurs anywhere in `s`.
fn occurs_in(s: &Vec<char>, part: &Vec<char>) -> (r: bool)
    ensures
        r == contains(s@, part@),
{
    let n = s.len();
    let m = part.len();
    if m > n {
        return false;
    }
    let mut i: usize = 0;
    while i <= n - m
        invariant
            n == s@.len(),
            m == part@.len(),
            m <= n,
            i <= n - m + 1,
            forall|k: int| 0 <= k < i ==> #[trigger] s@.subrange(k, k + m) != part@,
        decreases n - m + 1 - i,
    {
        if occurs_at(s, part, i) {
            return true;
        }
        if i == n - m {
            assert forall|k: int| 0 <= k && k + part@.len() <= s@.len() implies #[trigger] s@.subrange(
                k,
                k + part@.len(),
            ) != part@ by {
                assert(k <= i);
            }
            return false;
        }
        i = i + 1;
    }
    false
}

/// The characters of a text.
fn chars_of(s: &str) -> (r: Vec<char>)
    ensures
        r@ == s@,
{
    let mut r: Vec<char> = Vec::new();
    for c in it: s.chars()
        invariant
            r@ == it.seq().take(it.index()),
    {
        r.push(c);
    }
    proof {
        broadcast use vstd::string::axiom_spec_iter;

        assert(r@ =~= s@);
    }
    r
}

/// Reads the kind of a `Content-Type` value.
pub fn content_type(value: &str) -> (r: ContentType)
    ensures
        r == spec_content_type(value@),
{
    let s = chars_of(value);
    let application = chars_of("application");
    let json = chars_of("json");
    let text = chars_of("text/plain");
    let is_application = application.len() <= s.len() && occurs_at(&s, &application, 0);
    let has_json = occurs_in(&s, &json);
    if is_application && has_json {
        ContentType::Json
    } else if text.len() <= s.len() && occurs_at(&s, &text, 0) {
        ContentType::Text
    } else {
        ContentType::Unsupported
    }
}

/// What to do with an answer.
#[derive(Debug, Clone, PartialEq, Eq)]
pub enum AnswerOutcome {
    /// The call failed: keep the status and the body.
    ResponseError,
    /// Parse the body as the JSON document of the answer.
    ParseJson,
    /// The body is the answer.
    Text,
    /// The body cannot be read as the answer; the error message.
    Unreadable(String),
}

/// Whether a status is a client or server error (400 to 599).
pub open spec fn is_error_status(status: u16) -> bool {
    400 <= status <= 599
}

/// The message for an answer of content type `received` that cannot be
/// converted to `target`.
pub open spec fn unreadable_message(received: Seq<char>, target: Seq<char>) -> Seq<char> {
    "Received `"@ + received + "` content type response that cannot be converted to `"@ + target + "`"@
}

/// Reads an answer with status `status` and `Content-Type` `content_type`
/// (`application/json` when the answer has none); `target` names what the
/// answer should become and `text_allowed` says whether plain text is
/// accepted as it is.
pub fn read_answer(status: u16, content_type_value: Option<&str>, target: &str, text_allowed: bool) -> (r:
    AnswerOutcome)
    ensures
        ({
            let ct = match content_type_value { Some(c) => c@, None => "application/json"@ };
            if is_error_status(status) {
                r == AnswerOutcome::ResponseError
            } else {
                match spec_content_type(ct) {
                    ContentType::Json => r == AnswerOutcome::ParseJson,
                    ContentType::Text => if text_allowed {
                        r == AnswerOutcome::Text
                    } else {
                        r matches AnswerOutcome::Unreadable(m) && m@ == unreadable_message("text/plain"@, target@)
                    },
                    ContentType::Unsupported => r matches AnswerOutcome::Unreadable(m) && m@
                        == unreadable_message(ct, target@),
                }
            }
        }),
{
    if 400 <= status && status <= 599 {
        return AnswerOutcome::ResponseError;
    }
    let ct = match content_type_value {
        Some(c) => c,
        None => "application/json",
    };
    match content_type(ct) {
        ContentType::Json => AnswerOutcome::ParseJson,
        ContentType::Text => if text_allowed {
            AnswerOutcome::Text
        } else {
            AnswerOutcome::Unreadable(concat4("Received `", "text/plain", "` content type response that cannot be converted to `", concat2(target, "`").as_str()))
        },
        ContentType::Unsupported => AnswerOutcome::Unreadable(
            concat4("Received `", ct, "` content type response that cannot be converted to `", concat2(target, "`").as_str()),
        ),
    }
}

/// Reads the status of a call whose answer has no body: any client or server
/// error fails the call.
pub fn call_succeeded(status: u16) -> (r: bool)
    ensures
        r == !is_error_status(status),
{
    !(400 <= status && status <= 599)
}

/// Identifiers made of letters, digits and `-._*` reach the address unchanged.
pub proof fn lemma_urlencode_plain(bytes: Seq<u8>)
    requires
        forall|i: int| 0 <= i < bytes.len() ==> is_form_unreserved(#[trigger] bytes[i]),
    ensures
        form_urlencode(bytes) == bytes.map_values(|b: u8| b as char),
    decreases bytes.len(),
{
    if bytes.len() > 0 {
        lemma_urlencode_plain(bytes.drop_last());
        assert(bytes.drop_last().map_values(|b: u8| b as char).push(bytes.last() as char) =~= bytes.map_values(
            |b: u8| b as char,
        ));
    } else {
        assert(bytes.map_values(|b: u8| b as char) =~= Seq::<char>::empty());
    }
}

} // verus!
