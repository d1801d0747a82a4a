//! One fetch-extract-outcome operation.
//!
//! The host performs the network fetch that [`fetch_plan`] describes and
//! hands the raw result back as a [`FetchOutcome`].  Everything after that
//! is verified: status handling, extraction, and the wrapping of every
//! failure into a uniform outcome record that never escapes as an error.

use vstd::prelude::*;
use vstd::string::StrSliceExecFns;
use vstd::string::StringExecFns;

use crate::extract::spec_extracted;
use crate::extract::spec_selector_compiles;
use crate::extract::WebScraper;
use crate::models::ScrapingJob;
use crate::models::ScrapingResult;
use crate::text::spec_join_with;

verus! {

/// The user agent a fetch presents when the job sets none.
pub const DEFAULT_USER_AGENT: &'static str =
    "Mozilla/5.0 (Windows NT 10.0; Win64; x64) AppleWebKit/537.36 (KHTML, like Gecko) Chrome/91.0.4472.124 Safari/537.36";

/// Every fetch is bounded by this many seconds, connect and transfer
/// together; there is no retry.
pub const FETCH_TIMEOUT_SECS: u64 = 300;

/// A test run returns at most this many items.
pub const TEST_RUN_LIMIT: usize = 5;

/// Everything the host needs to perform one HTTP GET for a job.
#[derive(Debug, Clone)]
pub struct FetchPlan {
    pub url: String,
    pub user_agent: String,
    pub proxy_url: Option<String>,
    pub timeout_secs: u64,
}

/// What one fetch attempt came back with: a response with its status code
/// and body, or a transport failure with its description.
#[derive(Debug, Clone)]
pub enum FetchOutcome {
    Response { status: u16, body: String },
    Failed { detail: String },
}

/// Whether an HTTP status code counts as success.
pub open spec fn is_success_status(status: u16) -> bool {
    200 <= status < 300
}

/// Describes the single GET a job's fire performs: the job's URL, its user
/// agent or the default one, its proxy if any, and the fixed timeout.
pub fn fetch_plan(job: &ScrapingJob) -> (p: FetchPlan)
    ensures
        p.url@ == job.url@,
        match job.user_agent {
            Some(ua) => p.user_agent@ == ua@,
            None => p.user_agent@ == DEFAULT_USER_AGENT@,
        },
        match job.proxy_url {
            Some(u) => (p.proxy_url matches Some(v) && v@ == u@),
            None => p.proxy_url is None,
        },
        p.timeout_secs == FETCH_TIMEOUT_SECS,
{
    let user_agent = match &job.user_agent {
        Some(ua) => ua.clone(),
        None => DEFAULT_USER_AGENT.to_owned(),
    };
    let proxy_url = match &job.proxy_url {
        Some(u) => Some(u.clone()),
        None => None,
    };
    FetchPlan { url: job.url.clone(), user_agent, proxy_url, timeout_secs: FETCH_TIMEOUT_SECS }
}

/// The decimal digit for a value below ten.
pub open spec fn spec_digit_char(d: int) -> char {
    if d == 0 {
        '0'
    } else if d == 1 {
        '1'
    } else if d == 2 {
        '2'
    } else if d == 3 {
        '3'
    } else if d == 4 {
        '4'
    } else if d == 5 {
        '5'
    } else if d == 6 {
        '6'
    } else if d == 7 {
        '7'
    } else if d == 8 {
        '8'
    } else {
        '9'
    }
}

/// The decimal rendering of a non-negative number, most significant digit
/// first.
pub open spec fn spec_decimal(n: int) -> Seq<char>
    decreases n,
{
    if n < 10 {
        seq![spec_digit_char(n)]
    } else {
        spec_decimal(n / 10).push(spec_digit_char(n % 10))
    }
}

fn digit_str(d: u16) -> (r: &'static str)
    requires
        d < 10,
    ensures
        r@ == seq![spec_digit_char(d as int)],
{
    proof {
        reveal_strlit("0");
        reveal_strlit("1");
        reveal_strlit("2");
        reveal_strlit("3");
        reveal_strlit("4");
        reveal_strlit("5");
        reveal_strlit("6");
        reveal_strlit("7");
        reveal_strlit("8");
        reveal_strlit("9");
    }
    let r = match d {
        0 => "0",
        1 => "1",
        2 => "2",
        3 => "3",
        4 => "4",
        5 => "5",
        6 => "6",
        7 => "7",
        8 => "8",
        _ => "9",
    };
    proof {
        assert(r@ =~= seq![spec_digit_char(d as int)]);
    }
    r
}

/// Renders a number in decimal.
pub fn decimal_string(n: u16) -> (r: String)
    ensures
        r@ == spec_decimal(n as int),
    decreases n,
{
    if n < 10 {
        digit_str(n).to_owned()
    } else {
        let mut out = decimal_string(n / 10);
        out.append(digit_str(n % 10));
        proof {
            assert(out@ =~= spec_decimal((n / 10) as int).push(spec_digit_char((n % 10) as int)));
        }
        out
    }
}

/// The items of an outcome joined into one stored string, one line each.
pub open spec fn spec_join_lines(items: Seq<Seq<char>>) -> Seq<char> {
    spec_join_with(items, '\n')
}

/// Joins extracted items with newlines.
pub fn join_lines(items: &Vec<String>) -> (r: String)
    ensures
        r@ == spec_join_lines(items.deep_view()),
{
    proof {
        reveal_strlit("\n");
    }
    crate::text::join_with(items, "\n")
}

/// The error text recorded when the fetch itself failed.
pub open spec fn spec_fetch_error_message(detail: Seq<char>) -> Seq<char> {
    "Failed to fetch URL: "@ + detail
}

/// The error text recorded for a response with a non-success status.
pub open spec fn spec_http_error_message(status: u16) -> Seq<char> {
    "HTTP error: "@ + spec_decimal(status as int)
}

/// Whether one execution succeeds: the fetch came back, its status counts
/// as success, and the job's selector compiles.  Zero extracted items is
/// still success.
pub open spec fn spec_execution_success(job: ScrapingJob, fetched: FetchOutcome) -> bool {
    match fetched {
        FetchOutcome::Failed { detail } => false,
        FetchOutcome::Response { status, body } => is_success_status(status)
            && spec_selector_compiles(job.selector_type, job.selector@),
    }
}

/// Wraps one fetch result into the job's outcome record: on success the
/// extracted items, joined one per line; on any failure a record with
/// `success` false and the failure's description — an error never escapes.
/// Returns the record and the individual items.
pub fn complete_execution(job: &ScrapingJob, fetched: &FetchOutcome, timestamp: i64) -> (r: (
    ScrapingResult,
    Vec<String>,
))
    requires
        job.id is Some,
    ensures
        r.0.id is None,
        job.id matches Some(id) ==> r.0.job_id == id,
        r.0.timestamp == timestamp,
        r.0.success == spec_execution_success(*job, *fetched),
        r.0.success == (r.0.error_message is None),
        !r.0.success ==> (r.0.error_message matches Some(m) && m@.len() > 0) && r.0.scraped_data@
            =~= Seq::<char>::empty() && r.1@.len() == 0,
        match *fetched {
            FetchOutcome::Failed { detail } => (r.0.error_message matches Some(m) && m@
                == spec_fetch_error_message(detail@)),
            FetchOutcome::Response { status, body } => {
                &&& !is_success_status(status) ==> (r.0.error_message matches Some(m) && m@
                    == spec_http_error_message(status))
                &&& r.0.success ==> r.1.deep_view() == spec_extracted(
                    job.selector_type,
                    job.selector@,
                    job.data_type,
                    body@,
                ) && r.0.scraped_data@ == spec_join_lines(
                    spec_extracted(job.selector_type, job.selector@, job.data_type, body@),
                )
            },
        },
{
    let job_id = match job.id {
        Some(id) => id,
        None => 0,  // unreachable: the contract requires a persisted id
    };
    match fetched {
        FetchOutcome::Failed { detail } => {
            let mut message = String::from_str("Failed to fetch URL: ");
            message.append(detail.as_str());
            proof {
                reveal_strlit("Failed to fetch URL: ");
            }
            (
                ScrapingResult {
                    id: None,
                    job_id,
                    scraped_data: String::new(),
                    timestamp,
                    success: false,
                    error_message: Some(message),
                },
                Vec::new(),
            )
        },
        FetchOutcome::Response { status, body } => {
            if !(200 <= *status && *status < 300) {
                let mut message = String::from_str("HTTP error: ");
                let digits = decimal_string(*status);
                message.append(digits.as_str());
                proof {
                    reveal_strlit("HTTP error: ");
                }
                return (
                    ScrapingResult {
                        id: None,
                        job_id,
                        scraped_data: String::new(),
                        timestamp,
                        success: false,
                        error_message: Some(message),
                    },
                    Vec::new(),
                );
            }
            let scraper = WebScraper::new();
            match scraper.extract(body.as_str(), &job.selector_type, job.selector.as_str(),
                &job.data_type) {
                Ok(items) => {
                    let data = join_lines(&items);
                    (
                        ScrapingResult {
                            id: None,
                            job_id,
                            scraped_data: data,
                            timestamp,
                            success: true,
                            error_message: None,
                        },
                        items,
                    )
                },
                Err(e) => {
                    let message = e.message();
                    proof {
                        reveal_strlit("Invalid CSS selector '");
                        reveal_strlit("Invalid regex pattern '");
                    }
                    (
                        ScrapingResult {
                            id: None,
                            job_id,
                            scraped_data: String::new(),
                            timestamp,
                            success: false,
                            error_message: Some(message),
                        },
                        Vec::new(),
                    )
                },
            }
        },
    }
}

/// The items a test run shows: all of them up to the limit, in their
/// original order.
pub open spec fn spec_preview(items: Seq<Seq<char>>) -> Seq<Seq<char>> {
    if items.len() <= TEST_RUN_LIMIT {
        items
    } else {
        items.subrange(0, TEST_RUN_LIMIT as int)
    }
}

/// Truncates a result list to the test-run limit, keeping order.
pub fn limit_preview(items: Vec<String>) -> (r: Vec<String>)
    ensures
        r.deep_view() == spec_preview(items.deep_view()),
        r@.len() <= TEST_RUN_LIMIT,
{
    let ghost full = items.deep_view();
    let mut items = items;
    items.truncate(TEST_RUN_LIMIT);
    proof {
        if full.len() <= TEST_RUN_LIMIT {
            assert(items.deep_view() =~= full);
        } else {
            assert(items.deep_view() =~= full.subrange(0, TEST_RUN_LIMIT as int));
        }
    }
    items
}

/// Identical fetch, extraction and error wrapping as a real run, but the
/// returned items are truncated to the first five for interactive preview.
pub fn complete_test_run(job: &ScrapingJob, fetched: &FetchOutcome, timestamp: i64) -> (r: (
    ScrapingResult,
    Vec<String>,
))
    requires
        job.id is Some,
    ensures
        r.0.success == spec_execution_success(*job, *fetched),
        r.0.success == (r.0.error_message is None),
        r.1@.len() <= TEST_RUN_LIMIT,
        r.0.success ==> match *fetched {
            FetchOutcome::Response { status, body } => r.1.deep_view() == spec_preview(
                spec_extracted(job.selector_type, job.selector@, job.data_type, body@),
            ),
            FetchOutcome::Failed { .. } => false,
        },
{
    let (outcome, items) = complete_execution(job, fetched, timestamp);
    let limited = limit_preview(items);
    (outcome, limited)
}

/// A fetch that fails, or a response with a non-success status, never
/// yields a successful outcome, whatever the job asks for.
pub proof fn law_failure_is_captured(job: ScrapingJob, fetched: FetchOutcome)
    ensures
        fetched matches FetchOutcome::Failed { detail } ==> !spec_execution_success(job, fetched),
        (fetched matches FetchOutcome::Response { status, .. } && !is_success_status(status))
            ==> !spec_execution_success(job, fetched),
{
}

/// An extraction that yields no items still succeeds, with empty stored
/// data: zero matches is not an error.
pub proof fn law_zero_items_is_success(job: ScrapingJob, status: u16, body: String)
    requires
        is_success_status(status),
        spec_selector_compiles(job.selector_type, job.selector@),
        spec_extracted(job.selector_type, job.selector@, job.data_type, body@).len() == 0,
    ensures
        spec_execution_success(job, FetchOutcome::Response { status, body }),
        spec_join_lines(spec_extracted(job.selector_type, job.selector@, job.data_type, body@))
            =~= Seq::<char>::empty(),
{
}

/// A preview never reorders: it is a prefix of the full result list, all of
/// it when at most five items came back, exactly five otherwise.
pub proof fn law_preview_truncation(items: Seq<Seq<char>>)
    ensures
        items.len() <= TEST_RUN_LIMIT ==> spec_preview(items) == items,
        items.len() > TEST_RUN_LIMIT ==> spec_preview(items) == items.subrange(
            0,
            TEST_RUN_LIMIT as int,
        ) && spec_preview(items).len() == TEST_RUN_LIMIT,
        forall|i: int| 0 <= i < spec_preview(items).len() ==> spec_preview(items)[i] == items[i],
{
}

} // verus!
