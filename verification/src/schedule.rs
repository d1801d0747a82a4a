//! Turning schedule strings into validated six-field cron expressions.
//!
//! A schedule is either one of four symbolic aliases (matched ignoring ASCII
//! case) or a literal cron expression with seconds precision.  An alias is
//! rewritten to its fixed six-field form; any other string is kept as it is,
//! provided the cron grammar accepts it.

use vstd::prelude::*;
use vstd::string::StringExecFns;

use crate::text::eq_ignore_ascii_case;
use crate::text::str_eq_ignore_ascii_case;

verus! {

/// Whether the six-field cron grammar accepts an expression.  The grammar is
/// the one the timer library uses, so acceptance here is exactly
/// schedulability there.
pub uninterp spec fn cron_accepts(expr: Seq<char>) -> bool;

/// Relies on `tokio_cron_scheduler::Job::new`: constructing a trial job
/// succeeds exactly when the cron parser (six fields, seconds required)
/// accepts the expression, which depends on the expression text alone.
#[verifier::external_body]
pub(crate) fn cron_expression_accepted(expr: &str) -> (r: bool)
    ensures
        r == cron_accepts(expr@),
{
    tokio_cron_scheduler::Job::new(expr, |_uuid, _lock| {
    }).is_ok()
}

/// A schedule string that is neither a known alias nor an accepted cron
/// expression.  Carries the rejected string.
#[derive(Debug, Clone)]
pub struct InvalidScheduleError {
    pub schedule: String,
}

impl InvalidScheduleError {
    /// A human-readable description of the error.
    pub fn message(&self) -> (r: String)
        ensures
            r@ == "Invalid schedule format: "@ + self.schedule@,
    {
        let mut out = String::from_str("Invalid schedule format: ");
        out.append(self.schedule.as_str());
        out
    }
}

/// The fixed six-field expression an alias resolves to, or the input itself
/// where the cron grammar accepts it; `None` for everything else.
pub open spec fn spec_parse_schedule(s: Seq<char>) -> Option<Seq<char>> {
    if eq_ignore_ascii_case(s, "daily"@) {
        Some("0 0 0 * * *"@)
    } else if eq_ignore_ascii_case(s, "hourly"@) {
        Some("0 0 * * * *"@)
    } else if eq_ignore_ascii_case(s, "weekly"@) {
        Some("0 0 0 * * 0"@)
    } else if eq_ignore_ascii_case(s, "monthly"@) {
        Some("0 0 0 1 * *"@)
    } else if cron_accepts(s) {
        Some(s)
    } else {
        None
    }
}

/// Whether a schedule string is one of the recognized aliases.
pub open spec fn spec_is_alias(s: Seq<char>) -> bool {
    ||| eq_ignore_ascii_case(s, "daily"@)
    ||| eq_ignore_ascii_case(s, "hourly"@)
    ||| eq_ignore_ascii_case(s, "weekly"@)
    ||| eq_ignore_ascii_case(s, "monthly"@)
}

/// Resolves a schedule string to a six-field cron expression.
///
/// Aliases map to their documented fixed expressions; any other string is
/// validated against the cron grammar and returned unchanged, or rejected
/// with the original string in the error.
pub fn parse_schedule(schedule: &str) -> (r: Result<String, InvalidScheduleError>)
    ensures
        match r {
            Ok(out) => spec_parse_schedule(schedule@) == Some(out@),
            Err(e) => spec_parse_schedule(schedule@) is None && e.schedule@ == schedule@,
        },
{
    if str_eq_ignore_ascii_case(schedule, "daily") {
        Ok(String::from_str("0 0 0 * * *"))
    } else if str_eq_ignore_ascii_case(schedule, "hourly") {
        Ok(String::from_str("0 0 * * * *"))
    } else if str_eq_ignore_ascii_case(schedule, "weekly") {
        Ok(String::from_str("0 0 0 * * 0"))
    } else if str_eq_ignore_ascii_case(schedule, "monthly") {
        Ok(String::from_str("0 0 0 1 * *"))
    } else if cron_expression_accepted(schedule) {
        Ok(String::from_str(schedule))
    } else {
        Err(InvalidScheduleError { schedule: String::from_str(schedule) })
    }
}

/// Every recognized alias resolves to its documented fixed six-field
/// expression, whatever its case.
pub proof fn law_alias_resolution(s: Seq<char>)
    ensures
        eq_ignore_ascii_case(s, "daily"@) ==> spec_parse_schedule(s) == Some("0 0 0 * * *"@),
        eq_ignore_ascii_case(s, "hourly"@) ==> spec_parse_schedule(s) == Some("0 0 * * * *"@),
        eq_ignore_ascii_case(s, "weekly"@) ==> spec_parse_schedule(s) == Some("0 0 0 * * 0"@),
        eq_ignore_ascii_case(s, "monthly"@) ==> spec_parse_schedule(s) == Some("0 0 0 1 * *"@),
{
    reveal_strlit("daily");
    reveal_strlit("hourly");
    reveal_strlit("weekly");
    reveal_strlit("monthly");
    if eq_ignore_ascii_case(s, "weekly"@) && eq_ignore_ascii_case(s, "hourly"@) {
        // `hourly` and `weekly` have the same length, so rule out matching
        // both by comparing the first character.
        assert(crate::text::chars_eq_nocase(s[0], "weekly"@[0]));
        assert(crate::text::chars_eq_nocase(s[0], "hourly"@[0]));
        assert(false);
    }
}

/// A raw cron string (no alias) is returned unchanged exactly when the cron
/// grammar accepts it, and rejected otherwise.
pub proof fn law_raw_cron_passthrough(s: Seq<char>)
    requires
        !spec_is_alias(s),
    ensures
        cron_accepts(s) ==> spec_parse_schedule(s) == Some(s),
        !cron_accepts(s) ==> spec_parse_schedule(s) is None,
{
}

} // verus!
