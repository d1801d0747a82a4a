//! Export support: safe file names, HTML escaping, and the selection of
//! result records an export covers.
//!
//! Writing the export files is the host's work; the library computes what
//! goes into them.

use vstd::prelude::*;
use vstd::string::StrSliceExecFns;
use vstd::string::StringExecFns;

use crate::models::ScrapingResult;
use crate::text::spec_trim;

verus! {

/// Characters a file name may not carry: path and shell metacharacters,
/// and control characters.
pub open spec fn is_bad_filename_char(c: char) -> bool {
    let v = c as int;
    c == '/' || c == '\\' || c == ':' || c == '*' || c == '?' || c == '"' || c == '<' || c == '>'
        || c == '|' || v < 32 || (127 <= v && v <= 159)
}

/// Each disallowed character replaced by an underscore.
pub open spec fn spec_mask_bad_chars(s: Seq<char>) -> Seq<char> {
    s.map_values(
        |c: char|
            if is_bad_filename_char(c) {
                '_'
            } else {
                c
            },
    )
}

/// A name made safe for use as a file name: disallowed characters become
/// underscores, and surrounding white space goes.
pub open spec fn spec_sanitize_filename(s: Seq<char>) -> Seq<char> {
    spec_trim(spec_mask_bad_chars(s))
}

fn is_bad_filename_char_exec(c: char) -> (r: bool)
    ensures
        r == is_bad_filename_char(c),
{
    let v = c as u32;
    c == '/' || c == '\\' || c == ':' || c == '*' || c == '?' || c == '"' || c == '<' || c == '>'
        || c == '|' || v < 32 || (127 <= v && v <= 159)
}

/// Makes a name safe for use as a file name: path and shell
/// metacharacters and control characters become underscores, and
/// surrounding white space is removed.
pub fn sanitize_filename(name: &str) -> (r: String)
    ensures
        r@ == spec_sanitize_filename(name@),
{
    let n = name.unicode_len();
    let mut mapped = String::new();
    for i in 0..n
        invariant
            n == name@.len(),
            mapped@ == spec_mask_bad_chars(name@.take(i as int)),
            mapped@.len() == i,
    {
        let c = name.get_char(i);
        if is_bad_filename_char_exec(c) {
            mapped.append("_");
            proof {
                reveal_strlit("_");
            }
        } else {
            let piece = name.substring_char(i, i + 1);
            mapped.append(piece);
        }
        proof {
            assert(mapped@ =~= spec_mask_bad_chars(name@.take(i + 1)));
        }
    }
    proof {
        assert(name@.take(n as int) =~= name@);
    }
    crate::text::trim_text(mapped.as_str())
}

/// The HTML rendering of one character: the five reserved characters
/// become entities, everything else stays itself.
pub open spec fn spec_escape_char(c: char) -> Seq<char> {
    if c == '&' {
        "&amp;"@
    } else if c == '<' {
        "&lt;"@
    } else if c == '>' {
        "&gt;"@
    } else if c == '"' {
        "&quot;"@
    } else if c == '\'' {
        "&#x27;"@
    } else {
        seq![c]
    }
}

/// The HTML rendering of a text: each character escaped, in order.
pub open spec fn spec_html_escape(s: Seq<char>) -> Seq<char>
    decreases s.len(),
{
    if s.len() == 0 {
        Seq::empty()
    } else {
        spec_html_escape(s.drop_last()) + spec_escape_char(s.last())
    }
}

/// Escapes a text for literal inclusion in HTML: ampersands, angle
/// brackets and both quote characters become entities.
pub fn html_escape(text: &str) -> (r: String)
    ensures
        r@ == spec_html_escape(text@),
{
    let n = text.unicode_len();
    let mut out = String::new();
    for i in 0..n
        invariant
            n == text@.len(),
            out@ == spec_html_escape(text@.take(i as int)),
    {
        let c = text.get_char(i);
        if c == '&' {
            out.append("&amp;");
            proof {
                reveal_strlit("&amp;");
            }
        } else if c == '<' {
            out.append("&lt;");
            proof {
                reveal_strlit("&lt;");
            }
        } else if c == '>' {
            out.append("&gt;");
            proof {
                reveal_strlit("&gt;");
            }
        } else if c == '"' {
            out.append("&quot;");
            proof {
                reveal_strlit("&quot;");
            }
        } else if c == '\'' {
            out.append("&#x27;");
            proof {
                reveal_strlit("&#x27;");
            }
        } else {
            let piece = text.substring_char(i, i + 1);
            out.append(piece);
        }
        proof {
            assert(text@.take(i + 1).drop_last() =~= text@.take(i as int));
            assert(text@.take(i + 1).last() == text@[i as int]);
            assert(out@ =~= spec_html_escape(text@.take(i + 1)));
        }
    }
    proof {
        assert(text@.take(n as int) =~= text@);
    }
    out
}

/// Whether a result's timestamp falls inside an optional date range.
pub open spec fn spec_in_range(timestamp: i64, start: Option<i64>, end: Option<i64>) -> bool {
    &&& (start matches Some(s0) ==> timestamp >= s0)
    &&& (end matches Some(e0) ==> timestamp <= e0)
}

/// The result records an export covers: those inside the requested range,
/// in their stored order.
pub open spec fn spec_filtered_results(
    results: Seq<ScrapingResult>,
    start: Option<i64>,
    end: Option<i64>,
) -> Seq<ScrapingResult> {
    results.filter(|x: ScrapingResult| spec_in_range(x.timestamp, start, end))
}

fn clone_result(r: &ScrapingResult) -> (c: ScrapingResult)
    ensures
        c == *r,
{
    ScrapingResult {
        id: r.id,
        job_id: r.job_id,
        scraped_data: r.scraped_data.clone(),
        timestamp: r.timestamp,
        success: r.success,
        error_message: match &r.error_message {
            Some(m) => Some(m.clone()),
            None => None,
        },
    }
}

proof fn lemma_filtered_take_step(
    results: Seq<ScrapingResult>,
    start: Option<i64>,
    end: Option<i64>,
    i: int,
)
    requires
        0 <= i < results.len(),
    ensures
        spec_filtered_results(results.take(i + 1), start, end) == (if spec_in_range(
            results[i].timestamp,
            start,
            end,
        ) {
            spec_filtered_results(results.take(i), start, end).push(results[i])
        } else {
            spec_filtered_results(results.take(i), start, end)
        }),
{
    reveal(Seq::filter);
    assert(results.take(i + 1).drop_last() =~= results.take(i));
    assert(results.take(i + 1).last() == results[i]);
}

/// Keeps the result records whose timestamps fall inside the requested
/// range; an absent bound does not constrain.
pub fn filter_results_by_range(
    results: &Vec<ScrapingResult>,
    start_date: Option<i64>,
    end_date: Option<i64>,
) -> (r: Vec<ScrapingResult>)
    ensures
        r@ == spec_filtered_results(results@, start_date, end_date),
{
    let mut out: Vec<ScrapingResult> = Vec::new();
    let n = results.len();
    for i in 0..n
        invariant
            n == results@.len(),
            out@ == spec_filtered_results(results@.take(i as int), start_date, end_date),
    {
        proof {
            lemma_filtered_take_step(results@, start_date, end_date, i as int);
        }
        let x = &results[i];
        let keep = (match start_date {
            Some(s0) => x.timestamp >= s0,
            None => true,
        }) && (match end_date {
            Some(e0) => x.timestamp <= e0,
            None => true,
        });
        if keep {
            out.push(clone_result(x));
        }
    }
    proof {
        assert(results@.take(n as int) =~= results@);
    }
    out
}

proof fn lemma_successful_take_step(results: Seq<ScrapingResult>, i: int)
    requires
        0 <= i < results.len(),
    ensures
        results.take(i + 1).filter(|x: ScrapingResult| x.success) == (if results[i].success {
            results.take(i).filter(|x: ScrapingResult| x.success).push(results[i])
        } else {
            results.take(i).filter(|x: ScrapingResult| x.success)
        }),
{
    reveal(Seq::filter);
    assert(results.take(i + 1).drop_last() =~= results.take(i));
    assert(results.take(i + 1).last() == results[i]);
}

/// Counts the successful records among the given results.
pub fn count_successful(results: &Vec<ScrapingResult>) -> (n: usize)
    ensures
        n == results@.filter(|x: ScrapingResult| x.success).len(),
        n <= results@.len(),
{
    let mut count: usize = 0;
    let total = results.len();
    for i in 0..total
        invariant
            total == results@.len(),
            count == results@.take(i as int).filter(|x: ScrapingResult| x.success).len(),
            count <= i,
    {
        proof {
            lemma_successful_take_step(results@, i as int);
        }
        if results[i].success {
            count = count + 1;
        }
    }
    proof {
        assert(results@.take(total as int) =~= results@);
    }
    count
}

/// Knows where export files go; the host creates the directory and writes
/// the files.
pub struct ExportService {
    export_dir: String,
}

impl ExportService {
    /// The directory exports are written to.
    pub closed spec fn spec_export_dir(&self) -> Seq<char> {
        self.export_dir@
    }

    /// Creates a service writing to the given directory.
    pub fn new(export_dir: String) -> (s: ExportService)
        ensures
            s.spec_export_dir() == export_dir@,
    {
        ExportService { export_dir }
    }

    /// The directory exports are written to.
    pub fn get_export_directory(&self) -> (r: &str)
        ensures
            r@ == self.spec_export_dir(),
    {
        self.export_dir.as_str()
    }
}

} // verus!
