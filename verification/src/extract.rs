//! Extraction of data from fetched content.
//!
//! Two grammars are supported: CSS selectors over parsed HTML, and regular
//! expressions over raw text.  The outside parsers stand behind trusted
//! wrappers whose results carry names; everything around them — which regex
//! group is read, the dropping of empty entries, the dispatch on selector
//! kind — is verified.

use vstd::prelude::*;
use vstd::string::StrSliceExecFns;
use vstd::string::StringExecFns;

use crate::models::DataType;
use crate::models::SelectorType;

verus! {

/// Whether the CSS selector grammar accepts a selector.
pub uninterp spec fn css_selector_ok(selector: Seq<char>) -> bool;

/// Per matched element, in document order: the element's descendant text
/// nodes, in document order, as the parser yields them.
pub uninterp spec fn css_text_fragments(html: Seq<char>, selector: Seq<char>) -> Seq<
    Seq<Seq<char>>,
>;

/// The text read from one element: its text nodes joined by single spaces
/// and trimmed.
pub open spec fn spec_element_text(fragments: Seq<Seq<char>>) -> Seq<char> {
    crate::text::spec_trim(crate::text::spec_join_with(fragments, ' '))
}

/// Per matched element, in document order: the element's text.
pub open spec fn css_text_entries(html: Seq<char>, selector: Seq<char>) -> Seq<Seq<char>> {
    css_text_fragments(html, selector).map_values(|f: Seq<Seq<char>>| spec_element_text(f))
}

/// Per matched element, in document order: the value of the named
/// attribute, or the empty string where the element lacks it.
pub uninterp spec fn css_attr_entries(html: Seq<char>, selector: Seq<char>, attr: Seq<char>) -> Seq<
    Seq<char>,
>;

/// Whether the regular-expression grammar accepts a pattern.
pub uninterp spec fn regex_ok(pattern: Seq<char>) -> bool;

/// The number of capture groups a pattern defines, the implicit
/// whole-match group included.
pub uninterp spec fn regex_group_count(pattern: Seq<char>) -> nat;

/// Per non-overlapping match, in order: the text of the given capture
/// group, or the empty string where the group did not participate.
pub uninterp spec fn regex_group_entries(
    text: Seq<char>,
    pattern: Seq<char>,
    group: int,
) -> Seq<Seq<char>>;

/// Relies on `scraper::Selector::parse`: whether a CSS selector compiles is
/// a function of the selector text alone.
#[verifier::external_body]
fn css_selector_compiles(selector: &str) -> (r: bool)
    ensures
        r == css_selector_ok(selector@),
{
    scraper::Selector::parse(selector).is_ok()
}

/// Relies on `scraper::Html::parse_document`, `scraper::Selector::parse`
/// and `scraper::ElementRef::text`: parses the document and yields, per
/// matched element in document order, the element's descendant text nodes
/// in document order.  Fails, with the parser's diagnostic, exactly when
/// the selector does not compile.
#[verifier::external_body]
fn css_collect_text_fragments(html: &str, selector: &str) -> (r: Result<Vec<Vec<String>>, String>)
    ensures
        r is Ok <==> css_selector_ok(selector@),
        r matches Ok(v) ==> v.deep_view() == css_text_fragments(html@, selector@),
{
    let sel = match scraper::Selector::parse(selector) {
        Ok(sel) => sel,
        Err(e) => return Err(format!("{e:?}")),
    };
    let doc = scraper::Html::parse_document(html);
    let mut out = Vec::new();
    for element in doc.select(&sel) {
        out.push(element.text().map(str::to_string).collect());
    }
    Ok(out)
}

/// Relies on `scraper::Html::parse_document`, `scraper::Selector::parse`
/// and `scraper::ElementRef::attr`: parses the document and yields, per
/// matched element in document order, the named attribute's value, or the
/// empty string where the element lacks it.  Fails, with the parser's
/// diagnostic, exactly when the selector does not compile.
#[verifier::external_body]
fn css_collect_attrs(html: &str, selector: &str, attr: &str) -> (r: Result<Vec<String>, String>)
    ensures
        r is Ok <==> css_selector_ok(selector@),
        r matches Ok(v) ==> v.deep_view() == css_attr_entries(html@, selector@, attr@),
{
    let sel = match scraper::Selector::parse(selector) {
        Ok(sel) => sel,
        Err(e) => return Err(format!("{e:?}")),
    };
    let doc = scraper::Html::parse_document(html);
    let mut out = Vec::new();
    for element in doc.select(&sel) {
        out.push(element.value().attr(attr).unwrap_or_default().to_string());
    }
    Ok(out)
}

/// Relies on `regex::Regex::new` and `regex::Regex::captures_len`: the
/// number of capture groups, the implicit whole-match group included, is a
/// function of the pattern and is at least one.  Fails, with the parser's
/// diagnostic, exactly when the pattern does not compile.
#[verifier::external_body]
fn regex_capture_groups(pattern: &str) -> (r: Result<usize, String>)
    ensures
        r is Ok <==> regex_ok(pattern@),
        r matches Ok(n) ==> n == regex_group_count(pattern@) && n >= 1,
{
    match regex::Regex::new(pattern) {
        Ok(re) => Ok(re.captures_len()),
        Err(e) => Err(format!("{e}")),
    }
}

/// Relies on `regex::Regex::captures_iter` and `regex::Captures::get`:
/// yields, per non-overlapping match in order, the text of the given
/// capture group, or the empty string where the group did not participate.
/// Fails, with the parser's diagnostic, exactly when the pattern does not
/// compile.
#[verifier::external_body]
fn regex_collect_group(text: &str, pattern: &str, group: usize) -> (r: Result<Vec<String>, String>)
    ensures
        r is Ok <==> regex_ok(pattern@),
        r matches Ok(v) ==> v.deep_view() == regex_group_entries(text@, pattern@, group as int),
{
    let re = match regex::Regex::new(pattern) {
        Ok(re) => re,
        Err(e) => return Err(format!("{e}")),
    };
    let mut out = Vec::new();
    for captures in re.captures_iter(text) {
        out.push(captures.get(group).map(|m| m.as_str()).unwrap_or_default().to_string());
    }
    Ok(out)
}

/// The entries that survive extraction: the non-empty ones, in order.
pub open spec fn nonempty_entries(entries: Seq<Seq<char>>) -> Seq<Seq<char>> {
    entries.filter(|e: Seq<char>| e.len() != 0)
}

/// The capture group the regex path reads: group 1 when the pattern
/// defines an explicit group, the whole match otherwise.
pub open spec fn spec_regex_chosen_group(pattern: Seq<char>) -> int {
    if regex_group_count(pattern) > 1 {
        1
    } else {
        0
    }
}

/// Whether a job's selector compiles under its grammar.
pub open spec fn spec_selector_compiles(selector_type: SelectorType, selector: Seq<char>) -> bool {
    match selector_type {
        SelectorType::CSS => css_selector_ok(selector),
        SelectorType::Regex => regex_ok(selector),
    }
}

/// What extraction yields for a job: the non-empty entries its selector
/// produces on the content, in order.
pub open spec fn spec_extracted(
    selector_type: SelectorType,
    selector: Seq<char>,
    data_type: DataType,
    content: Seq<char>,
) -> Seq<Seq<char>> {
    match selector_type {
        SelectorType::CSS => match data_type {
            DataType::Text => nonempty_entries(css_text_entries(content, selector)),
            DataType::Attribute(name) => nonempty_entries(
                css_attr_entries(content, selector, name@),
            ),
        },
        SelectorType::Regex => nonempty_entries(
            regex_group_entries(content, selector, spec_regex_chosen_group(selector)),
        ),
    }
}

/// A selector or pattern its grammar rejected, with the grammar's
/// diagnostic.
#[derive(Debug, Clone)]
pub enum ScrapeError {
    SelectorCompile { selector: String, detail: String },
    RegexCompile { pattern: String, detail: String },
}

impl ScrapeError {
    /// A human-readable description of the error.
    pub fn message(&self) -> (r: String)
        ensures
            self matches ScrapeError::SelectorCompile { selector, detail } ==> r@
                == "Invalid CSS selector '"@ + selector@ + "': "@ + detail@,
            self matches ScrapeError::RegexCompile { pattern, detail } ==> r@
                == "Invalid regex pattern '"@ + pattern@ + "': "@ + detail@,
    {
        match self {
            ScrapeError::SelectorCompile { selector, detail } => {
                let mut out = String::from_str("Invalid CSS selector '");
                out.append(selector.as_str());
                out.append("': ");
                out.append(detail.as_str());
                out
            },
            ScrapeError::RegexCompile { pattern, detail } => {
                let mut out = String::from_str("Invalid regex pattern '");
                out.append(pattern.as_str());
                out.append("': ");
                out.append(detail.as_str());
                out
            },
        }
    }
}

/// One step of filtering: taking one more entry keeps the filtered prefix,
/// extended by the entry where it is non-empty.
proof fn lemma_nonempty_take_step(entries: Seq<Seq<char>>, i: int)
    requires
        0 <= i < entries.len(),
    ensures
        nonempty_entries(entries.take(i + 1)) == (if entries[i].len() != 0 {
            nonempty_entries(entries.take(i)).push(entries[i])
        } else {
            nonempty_entries(entries.take(i))
        }),
{
    reveal(Seq::filter);
    assert(entries.take(i + 1).drop_last() =~= entries.take(i));
    assert(entries.take(i + 1).last() == entries[i]);
}

/// Assembles each matched element's text from its fragments: joined by
/// single spaces and trimmed.
fn element_texts(fragments: &Vec<Vec<String>>) -> (r: Vec<String>)
    ensures
        r.deep_view().len() == fragments.deep_view().len(),
        forall|j: int|
            0 <= j < fragments.deep_view().len() ==> r.deep_view()[j] == spec_element_text(
                #[trigger] fragments.deep_view()[j],
            ),
{
    let mut out: Vec<String> = Vec::new();
    let n = fragments.len();
    for k in 0..n
        invariant
            n == fragments@.len(),
            out.deep_view().len() == k,
            forall|j: int|
                0 <= j < k ==> out.deep_view()[j] == spec_element_text(
                    #[trigger] fragments.deep_view()[j],
                ),
    {
        proof {
            reveal_strlit(" ");
        }
        let joined = crate::text::join_with(&fragments[k], " ");
        let entry = crate::text::trim_text(joined.as_str());
        let ghost before = out.deep_view();
        out.push(entry);
        proof {
            assert(out.deep_view() =~= before.push(entry@));
        }
    }
    out
}

/// Keeps the non-empty strings, in order.
fn retain_nonempty(entries: Vec<String>) -> (r: Vec<String>)
    ensures
        r.deep_view() == nonempty_entries(entries.deep_view()),
{
    let mut out: Vec<String> = Vec::new();
    let n = entries.len();
    for i in 0..n
        invariant
            n == entries@.len(),
            out.deep_view() == nonempty_entries(entries.deep_view().take(i as int)),
    {
        proof {
            lemma_nonempty_take_step(entries.deep_view(), i as int);
        }
        if entries[i].as_str().unicode_len() != 0 {
            let ghost before = out.deep_view();
            out.push(entries[i].clone());
            proof {
                assert(out.deep_view() =~= before.push(entries.deep_view()[i as int]));
            }
        }
    }
    proof {
        assert(entries.deep_view().take(n as int) =~= entries.deep_view());
    }
    out
}

/// Performs extraction and validation; stateless.
pub struct WebScraper {}

impl WebScraper {
    /// Creates an extractor.
    pub fn new() -> WebScraper {
        WebScraper {  }
    }

    /// Extracts from HTML with a CSS selector: per matched element, its
    /// text or one attribute; empty entries are dropped.  Zero entries is a
    /// successful result.  Fails exactly when the selector does not
    /// compile.
    pub fn scrape_with_css(&self, html: &str, selector_str: &str, data_type: &DataType) -> (r:
        Result<Vec<String>, ScrapeError>)
        ensures
            match r {
                Ok(v) => css_selector_ok(selector_str@) && v.deep_view() == spec_extracted(
                    SelectorType::CSS,
                    selector_str@,
                    *data_type,
                    html@,
                ),
                Err(e) => !css_selector_ok(selector_str@) && (e matches ScrapeError::SelectorCompile
                    { selector, detail } && selector@ == selector_str@),
            },
    {
        let collected = match data_type {
            DataType::Text => match css_collect_text_fragments(html, selector_str) {
                Ok(fragments) => {
                    let entries = element_texts(&fragments);
                    proof {
                        assert(entries.deep_view() =~= css_text_entries(html@, selector_str@));
                    }
                    Ok(entries)
                },
                Err(detail) => Err(detail),
            },
            DataType::Attribute(name) => css_collect_attrs(html, selector_str, name.as_str()),
        };
        match collected {
            Ok(entries) => Ok(retain_nonempty(entries)),
            Err(detail) => Err(
                ScrapeError::SelectorCompile { selector: String::from_str(selector_str), detail },
            ),
        }
    }

    /// Extracts from text with a regular expression: per non-overlapping
    /// match, capture group 1 where the pattern defines a group, the whole
    /// match otherwise; empty entries are dropped.  Zero matches is a
    /// successful result.  Fails exactly when the pattern does not compile.
    pub fn scrape_with_regex(&self, text: &str, pattern: &str) -> (r: Result<
        Vec<String>,
        ScrapeError,
    >)
        ensures
            match r {
                Ok(v) => regex_ok(pattern@) && v.deep_view() == spec_extracted(
                    SelectorType::Regex,
                    pattern@,
                    DataType::Text,
                    text@,
                ),
                Err(e) => !regex_ok(pattern@) && (e matches ScrapeError::RegexCompile {
                    pattern: p,
                    detail,
                } && p@ == pattern@),
            },
    {
        let groups = match regex_capture_groups(pattern) {
            Ok(n) => n,
            Err(detail) => {
                return Err(
                    ScrapeError::RegexCompile { pattern: String::from_str(pattern), detail },
                );
            },
        };
        let group: usize = if groups > 1 {
            1
        } else {
            0
        };
        match regex_collect_group(text, pattern, group) {
            Ok(entries) => Ok(retain_nonempty(entries)),
            Err(detail) => Err(
                ScrapeError::RegexCompile { pattern: String::from_str(pattern), detail },
            ),
        }
    }

    /// Extracts according to the job's selector kind: CSS over HTML, or a
    /// regular expression over the raw text.
    pub fn extract(
        &self,
        content: &str,
        selector_type: &SelectorType,
        selector: &str,
        data_type: &DataType,
    ) -> (r: Result<Vec<String>, ScrapeError>)
        ensures
            match r {
                Ok(v) => spec_selector_compiles(*selector_type, selector@) && v.deep_view()
                    == spec_extracted(*selector_type, selector@, *data_type, content@),
                Err(e) => !spec_selector_compiles(*selector_type, selector@),
            },
    {
        match selector_type {
            SelectorType::CSS => self.scrape_with_css(content, selector, data_type),
            SelectorType::Regex => self.scrape_with_regex(content, selector),
        }
    }

    /// Checks a CSS selector against its grammar, extracting nothing.
    pub fn validate_css_selector(&self, selector: &str) -> (r: Result<bool, ScrapeError>)
        ensures
            match r {
                Ok(b) => b && css_selector_ok(selector@),
                Err(e) => !css_selector_ok(selector@),
            },
    {
        if css_selector_compiles(selector) {
            Ok(true)
        } else {
            Err(
                ScrapeError::SelectorCompile {
                    selector: String::from_str(selector),
                    detail: String::from_str("unrecognized selector syntax"),
                },
            )
        }
    }

    /// Checks a regular expression against its grammar, extracting nothing.
    pub fn validate_regex_pattern(&self, pattern: &str) -> (r: Result<bool, ScrapeError>)
        ensures
            match r {
                Ok(b) => b && regex_ok(pattern@),
                Err(e) => !regex_ok(pattern@),
            },
    {
        match regex_capture_groups(pattern) {
            Ok(_) => Ok(true),
            Err(detail) => Err(
                ScrapeError::RegexCompile { pattern: String::from_str(pattern), detail },
            ),
        }
    }
}

/// The regex path with an explicit capture group reads group 1; without
/// one it reads the whole match.
pub proof fn law_regex_group_choice(pattern: Seq<char>)
    ensures
        regex_group_count(pattern) > 1 ==> spec_regex_chosen_group(pattern) == 1,
        regex_group_count(pattern) <= 1 ==> spec_regex_chosen_group(pattern) == 0,
{
}

/// Extraction never yields an empty entry, and keeps the surviving entries
/// in their original order.
pub proof fn law_extracted_entries_nonempty(
    selector_type: SelectorType,
    selector: Seq<char>,
    data_type: DataType,
    content: Seq<char>,
    i: int,
)
    requires
        0 <= i < spec_extracted(selector_type, selector, data_type, content).len(),
    ensures
        spec_extracted(selector_type, selector, data_type, content)[i].len() != 0,
{
    broadcast use vstd::seq_lib::group_filter_ensures;

}

} // verus!
