use vstd::prelude::*;
use prometheus_http_query::Client;
use crate::backend::{base_url_parses, connect_with, http_client, BASE_URL_FAILURE};
use prometheus_http_query::reqwest::Client as HttpClient;
use crate::config::Config;
use crate::envelope::{is_error_with, is_success_with, ErrorResponse, Response, Status, UptimeResponse};
use crate::history::{bucketize, history, lemma_history_len, Sample, BUCKET_SECS, HISTORY_LEN};
use crate::window::{lemma_window_start_aligned, query_window, uptime_query, window_end, window_start, UPTIME_QUERY, WINDOW_SECS};

verus! {

/// Message of a reply to a backend result that is not a matrix.
pub const NOT_MATRIX_MESSAGE: &'static str = "the metrics backend did not return a matrix result";

/// Message of a reply to a matrix result that holds no series.
pub const NO_SERIES_MESSAGE: &'static str = "the metrics backend returned no series";

/// `d` is one of the allowlisted domains (exact match).
pub open spec fn allows(list: Seq<String>, d: Seq<char>) -> bool {
    exists|i: int| 0 <= i < list.len() && #[trigger] list[i]@ == d
}

/// The message that rejects a domain that is not allowlisted.
pub open spec fn untracked_message(d: Seq<char>) -> Seq<char> {
    "domain "@ + d + " is not tracked"@
}

/// `part` occurs in `s` as a contiguous run.
pub open spec fn contains_run(s: Seq<char>, part: Seq<char>) -> bool {
    exists|k: int| 0 <= k && k + part.len() <= s.len() && #[trigger] s.subrange(k, k + part.len()) == part
}

/// The rejection message names the rejected domain, whatever the domain.
pub proof fn lemma_rejection_names_domain(d: Seq<char>)
    ensures
        contains_run(untracked_message(d), d),
{
    reveal_strlit("domain ");
    let m = untracked_message(d);
    assert(m.subrange(7, 7 + d.len() as int) =~= d);
}

/// The default allowlist, which is empty, refuses every domain.
pub proof fn lemma_default_allowlist_refuses(d: Seq<char>)
    ensures
        !allows(Seq::<String>::empty(), d),
{
}

/// Whether `domain` is in the allowlist; the match is exact.
pub fn is_allowed(allowlist: &Vec<String>, domain: &String) -> (r: bool)
    ensures
        r == allows(allowlist@, domain@),
{
    let mut i: usize = 0;
    while i < allowlist.len()
        invariant
            i <= allowlist@.len(),
            forall|j: int| 0 <= j < i ==> #[trigger] allowlist@[j]@ != domain@,
        decreases allowlist@.len() - i,
    {
        if allowlist[i] == *domain {
            return true;
        }
        i = i + 1;
    }
    false
}

/// The message that rejects `domain`.
pub fn not_tracked_message(domain: &String) -> (r: String)
    ensures
        r@ == untracked_message(domain@),
{
    let mut m = String::from_str("domain ");
    m.append(domain.as_str());
    m.append(" is not tracked");
    m
}

/// What the backend answered to the range query, as far as this service reads
/// it: only a matrix carries series, each a sequence of samples.
pub enum QueryData<V> {
    Vector,
    Matrix(Vec<Vec<Sample<V>>>),
    Scalar,
}

/// The history that a backend answer gives, or the message of the fault: the
/// first series of a matrix is bucketed; no series, or no matrix, is a fault.
pub open spec fn data_history<V>(t0: int, data: QueryData<V>) -> Result<Seq<Option<V>>, Seq<char>> {
    match data {
        QueryData::Matrix(series) => if series@.len() > 0 {
            Ok(history(t0, series@[0]@))
        } else {
            Err(NO_SERIES_MESSAGE@)
        },
        _ => Err(NOT_MATRIX_MESSAGE@),
    }
}

/// A backend answer with no series, or one that is not a matrix, is a fault
/// with a non-empty message; an answer that is used always gives a history
/// of full length.
pub proof fn lemma_data_history_outcome<V>(t0: int, data: QueryData<V>)
    ensures
        !(data matches QueryData::Matrix(series) && series@.len() > 0) ==> (
        data_history(t0, data) matches Err(m) && m.len() > 0),
        data_history(t0, data) matches Ok(h) ==> h.len() == HISTORY_LEN,
{
    reveal_strlit("the metrics backend did not return a matrix result");
    reveal_strlit("the metrics backend returned no series");
    if let QueryData::Matrix(series) = data {
        if series@.len() > 0 {
            lemma_history_len(t0, series@[0]@);
        }
    }
}

/// Bucketizes the first series of a matrix answer.
pub fn history_from_data<V: Copy>(t0: u64, data: &QueryData<V>) -> (r: Result<Vec<Option<V>>, String>)
    ensures
        match (r, data_history(t0 as int, *data)) {
            (Ok(h), Ok(g)) => h@ == g,
            (Err(m), Err(n)) => m@ == n,
            _ => false,
        },
{
    match data {
        QueryData::Matrix(series) => {
            if series.len() > 0 {
                Ok(bucketize(t0, &series[0]))
            } else {
                Err(String::from_str(NO_SERIES_MESSAGE))
            }
        },
        _ => Err(String::from_str(NOT_MATRIX_MESSAGE)),
    }
}

/// A range query to send to the backend.
pub struct RangeQuery {
    pub client: Client,
    pub query: String,
    pub start: u64,
    pub end: u64,
    pub step: u64,
}

/// What to do with a request: query the backend, or reply at once.
pub enum Step<V> {
    Query(RangeQuery),
    Reply(Status, Response<V>),
}

/// Message of the reply when the clock is too early for a whole window to
/// lie after the epoch.
pub const CLOCK_MESSAGE: &'static str = "the system clock is before the start of the uptime window";

/// `r` is a reply with status `s` and an error whose message is `m`.
pub open spec fn is_reply_with<V>(r: Step<V>, s: Status, m: Seq<char>) -> bool {
    match r {
        Step::Reply(t, resp) => t == s && is_error_with(resp, m),
        Step::Query(_) => false,
    }
}

/// `q` asks for the uptime expression over the window of `now`, hour by hour.
pub open spec fn is_window_query(q: RangeQuery, now: int) -> bool {
    &&& q.start == window_start(now)
    &&& q.end == window_end(now)
    &&& q.start % BUCKET_SECS == 0
    &&& q.end - q.start == WINDOW_SECS
    &&& q.step == BUCKET_SECS
    &&& q.query@ == UPTIME_QUERY@
}

/// Prepares the range query against the backend at `url`, given the outcome
/// of building the HTTP client: a failure there, or a URL that does not
/// parse, is a 500 that carries the failure's text.
pub fn prepare_query<V>(url: &String, now: u64, http: Result<HttpClient, String>) -> (r: Step<V>)
    requires
        now >= WINDOW_SECS,
    ensures
        match http {
            Err(m) => is_reply_with(r, Status::InternalServerError, m@),
            Ok(_) => if base_url_parses(url@) {
                r matches Step::Query(q) && is_window_query(q, now as int)
            } else {
                is_reply_with(r, Status::InternalServerError, BASE_URL_FAILURE@)
            },
        },
{
    match http {
        Err(message) => Step::Reply(Status::InternalServerError, Response::Error(ErrorResponse { message })),
        Ok(c) => match connect_with(c, url.as_str()) {
            Ok(client) => {
                let (start, end) = query_window(now);
                proof {
                    lemma_window_start_aligned(now as int);
                }
                Step::Query(RangeQuery { client, query: uptime_query(), start, end, step: BUCKET_SECS })
            },
            Err(message) => Step::Reply(
                Status::InternalServerError,
                Response::Error(ErrorResponse { message }),
            ),
        },
    }
}

/// Decides a request for `domain` at time `now` (epoch seconds). A domain
/// outside the allowlist is refused with 404 before the backend is touched.
/// Otherwise a clock too early for the window is a 500; then the range
/// query is prepared, or a 500 describes why it could not be.
pub fn begin<V>(config: &Config, domain: &String, now: u64) -> (r: Step<V>)
    ensures
        !allows(config.domain_allowlist@, domain@) ==> is_reply_with(
            r,
            Status::NotFound,
            untracked_message(domain@),
        ) && (r matches Step::Reply(_, Response::Error(e)) && contains_run(e.message@, domain@)),
        allows(config.domain_allowlist@, domain@) && now < WINDOW_SECS ==> is_reply_with(
            r,
            Status::InternalServerError,
            CLOCK_MESSAGE@,
        ),
        allows(config.domain_allowlist@, domain@) && now >= WINDOW_SECS ==> match r {
            Step::Query(q) => base_url_parses(config.prometheus_url@) && is_window_query(
                q,
                now as int,
            ),
            Step::Reply(s, resp) => s == Status::InternalServerError && (resp matches Response::Error(
                e,
            ) && e.message@.len() > 0),
        },
{
    if !is_allowed(&config.domain_allowlist, domain) {
        let message = not_tracked_message(domain);
        proof {
            lemma_rejection_names_domain(domain@);
        }
        return Step::Reply(Status::NotFound, Response::Error(ErrorResponse { message }));
    }
    if now < WINDOW_SECS {
        return Step::Reply(
            Status::InternalServerError,
            Response::Error(ErrorResponse { message: String::from_str(CLOCK_MESSAGE) }),
        );
    }
    let http = http_client();
    proof {
        reveal_strlit("failed to build Prometheus server base URL");
    }
    prepare_query(&config.prometheus_url, now, http)
}

/// The reply to a request for `domain` whose window starts at `t0`, given
/// what the backend query produced: the data, or the text of its failure.
/// The status is 200 exactly when the body is a success.
pub fn respond<V: Copy>(domain: &String, t0: u64, outcome: Result<QueryData<V>, String>) -> (r: (
    Status,
    Response<V>,
))
    ensures
        (r.0 == Status::Success) == (r.1 is Success),
        r.0 != Status::NotFound,
        match outcome {
            Err(m) => is_error_with(r.1, m@),
            Ok(data) => match data_history(t0 as int, data) {
                Ok(h) => is_success_with(r.1, domain@, t0, h),
                Err(m) => is_error_with(r.1, m),
            },
        },
{
    match outcome {
        Err(message) => (Status::InternalServerError, Response::Error(ErrorResponse { message })),
        Ok(data) => match history_from_data(t0, &data) {
            Ok(uptime_history) => (
                Status::Success,
                Response::Success(UptimeResponse { domain: domain.clone(), t0, uptime_history }),
            ),
            Err(message) => (Status::InternalServerError, Response::Error(ErrorResponse { message })),
        },
    }
}

} // verus!
