//! Data model of the engine: jobs, outcome records and configuration.
//!
//! Timestamps are plain Unix seconds (`i64`); the host converts to and from
//! its own date-time representation at the boundary.

use vstd::prelude::*;
use vstd::string::StrSliceExecFns;
use vstd::string::StringExecFns;

use crate::text::eq_ignore_ascii_case;
use crate::text::str_eq;
use crate::text::str_eq_ignore_ascii_case;

verus! {

/// How a job's selector string is to be interpreted.
#[derive(Debug, Clone, PartialEq, Eq)]
pub enum SelectorType {
    CSS,
    Regex,
}

/// What is read from each matched element: its text, or one attribute.
#[derive(Debug, Clone, PartialEq, Eq)]
pub enum DataType {
    Text,
    Attribute(String),
}

/// A persisted description of what to fetch, how to extract from it, and
/// when to run.
#[derive(Debug, Clone)]
pub struct ScrapingJob {
    pub id: Option<i64>,
    pub name: String,
    pub url: String,
    pub selector_type: SelectorType,
    pub selector: String,
    pub data_type: DataType,
    pub schedule: String,
    pub user_agent: Option<String>,
    pub proxy_url: Option<String>,
    pub is_active: bool,
    pub created_at: Option<i64>,
    pub updated_at: Option<i64>,
}

/// The immutable record of one execution's result.
#[derive(Debug, Clone)]
pub struct ScrapingResult {
    pub id: Option<i64>,
    pub job_id: i64,
    pub scraped_data: String,
    pub timestamp: i64,
    pub success: bool,
    pub error_message: Option<String>,
}

/// SMTP configuration for outgoing mail.
#[derive(Debug, Clone)]
pub struct EmailConfig {
    pub smtp_server: String,
    pub smtp_port: u16,
    pub username: String,
    pub password: String,
    pub sender_email: String,
    pub receiver_email: String,
    pub use_tls: bool,
}

/// File format of an export.
#[derive(Debug, Clone, PartialEq, Eq)]
pub enum ExportFormat {
    CSV,
    JSON,
    HTML,
}

/// A request to export the results of one job, optionally bounded in time.
#[derive(Debug, Clone)]
pub struct ExportRequest {
    pub job_id: i64,
    pub format: ExportFormat,
    pub start_date: Option<i64>,
    pub end_date: Option<i64>,
}

/// A request to export a single result record.
#[derive(Debug, Clone)]
pub struct IndividualExportRequest {
    pub result_id: i64,
    pub format: ExportFormat,
}

/// Aggregate counts over the stored jobs and results.
#[derive(Debug, Clone)]
pub struct JobStats {
    pub total_jobs: i64,
    pub active_jobs: i64,
    pub total_results: i64,
    pub last_run: Option<i64>,
}

/// Description of one file in the export directory.
#[derive(Debug, Clone)]
pub struct ExportFileInfo {
    pub name: String,
    pub path: String,
    pub size: u64,
    pub modified_timestamp: u64,
    pub file_type: String,
}

impl SelectorType {
    /// The keyword this selector kind is stored and displayed as.
    pub open spec fn spec_keyword(self) -> Seq<char> {
        match self {
            SelectorType::CSS => "css"@,
            SelectorType::Regex => "regex"@,
        }
    }

    /// Returns the keyword for this selector kind.
    pub fn as_str(&self) -> (r: &'static str)
        ensures
            r@ == self.spec_keyword(),
    {
        match self {
            SelectorType::CSS => "css",
            SelectorType::Regex => "regex",
        }
    }

    /// Reads a selector kind from its keyword, ignoring ASCII case.
    pub fn from_keyword(s: &str) -> (r: Option<SelectorType>)
        ensures
            r == SelectorType::spec_from_keyword(s@),
    {
        if str_eq_ignore_ascii_case(s, "css") {
            Some(SelectorType::CSS)
        } else if str_eq_ignore_ascii_case(s, "regex") {
            Some(SelectorType::Regex)
        } else {
            None
        }
    }

    /// Which selector kind, if any, a keyword names (ASCII case ignored).
    pub open spec fn spec_from_keyword(s: Seq<char>) -> Option<SelectorType> {
        if eq_ignore_ascii_case(s, "css"@) {
            Some(SelectorType::CSS)
        } else if eq_ignore_ascii_case(s, "regex"@) {
            Some(SelectorType::Regex)
        } else {
            None
        }
    }
}

impl DataType {
    /// The stored form of this data kind: `text`, or `attribute:` followed
    /// by the attribute's name.
    pub open spec fn spec_keyword(self) -> Seq<char> {
        match self {
            DataType::Text => "text"@,
            DataType::Attribute(name) => "attribute:"@ + name@,
        }
    }

    /// Renders this data kind in its stored form.
    pub fn to_keyword(&self) -> (r: String)
        ensures
            r@ == self.spec_keyword(),
    {
        match self {
            DataType::Text => String::from_str("text"),
            DataType::Attribute(name) => {
                let mut out = String::from_str("attribute:");
                out.append(name.as_str());
                out
            },
        }
    }

    /// Whether a stored form names the attribute kind: an `attribute:`
    /// prefix followed by the attribute's name.
    pub open spec fn spec_is_attribute_keyword(s: Seq<char>) -> bool {
        s.len() >= "attribute:"@.len() && s.take("attribute:"@.len() as int) == "attribute:"@
    }

    /// Reads a data kind from its stored form: exactly `text`, or an
    /// `attribute:` prefix followed by the attribute's name.
    pub fn from_keyword(s: &str) -> (r: Option<DataType>)
        ensures
            match r {
                Some(DataType::Text) => s@ == "text"@,
                Some(DataType::Attribute(name)) => {
                    &&& s@ != "text"@
                    &&& DataType::spec_is_attribute_keyword(s@)
                    &&& name@ == s@.skip("attribute:"@.len() as int)
                },
                None => s@ != "text"@ && !DataType::spec_is_attribute_keyword(s@),
            },
    {
        if str_eq(s, "text") {
            Some(DataType::Text)
        } else {
            proof {
                reveal_strlit("attribute:");
            }
            let prefix_len: usize = 10;
            let len = s.unicode_len();
            if len >= prefix_len {
                let head = s.substring_char(0, prefix_len);
                if str_eq(head, "attribute:") {
                    let name = s.substring_char(prefix_len, len);
                    return Some(DataType::Attribute(String::from_str(name)));
                }
            }
            None
        }
    }
}

} // verus!
