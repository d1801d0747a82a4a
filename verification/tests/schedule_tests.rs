use scrape_engine::models::{DataType, ScrapingJob, SelectorType};
use scrape_engine::schedule::parse_schedule;
use scrape_engine::scheduler::{SchedulePlan, ScheduleError, ScrapingScheduler};

fn sample_job(id: Option<i64>, schedule: &str, active: bool) -> ScrapingJob {
    ScrapingJob {
        id,
        name: "sample".to_string(),
        url: "http://example.com".to_string(),
        selector_type: SelectorType::CSS,
        selector: "p".to_string(),
        data_type: DataType::Text,
        schedule: schedule.to_string(),
        user_agent: None,
        proxy_url: None,
        is_active: active,
        created_at: None,
        updated_at: None,
    }
}

#[test]
fn test_parse_schedule() {
    assert_eq!(parse_schedule("daily").unwrap(), "0 0 0 * * *");
    assert_eq!(parse_schedule("hourly").unwrap(), "0 0 * * * *");
    assert_eq!(parse_schedule("weekly").unwrap(), "0 0 0 * * 0");
    assert_eq!(parse_schedule("monthly").unwrap(), "0 0 0 1 * *");

    // Test custom cron expression
    assert_eq!(parse_schedule("0 30 14 * * *").unwrap(), "0 30 14 * * *");

    // Test invalid expression
    assert!(parse_schedule("invalid").is_err());
}

#[test]
fn test_scheduler_creation() {
    assert!(parse_schedule("0 0 12 * * *").is_ok());
}

#[test]
fn parse_schedule_aliases_ignore_case() {
    assert_eq!(parse_schedule("DAILY").unwrap(), "0 0 0 * * *");
    assert_eq!(parse_schedule("Hourly").unwrap(), "0 0 * * * *");
    assert_eq!(parse_schedule("WeekLy").unwrap(), "0 0 0 * * 0");
    assert_eq!(parse_schedule("MONTHLY").unwrap(), "0 0 0 1 * *");
}

#[test]
fn parse_schedule_invalid_keeps_input_in_error() {
    let err = parse_schedule("every now and then").unwrap_err();
    assert_eq!(err.schedule, "every now and then");
    assert_eq!(
        err.message(),
        "Invalid schedule format: every now and then"
    );
}

#[test]
fn parse_schedule_rejects_five_field_cron() {
    // Seconds are required: the classic five-field form is not accepted.
    assert!(parse_schedule("30 14 * * *").is_err());
}

#[test]
fn schedule_then_unschedule_leaves_no_handle() {
    let mut engine = ScrapingScheduler::new();
    assert_eq!(engine.commit_schedule(7, 100), None);
    assert!(engine.is_scheduled(7));
    assert_eq!(engine.unschedule_job(7), Some(100));
    assert!(!engine.is_scheduled(7));
    // Idempotent: a second unschedule is a no-op.
    assert_eq!(engine.unschedule_job(7), None);
    assert_eq!(engine.scheduled_count(), 0);
}

#[test]
fn reschedule_keeps_one_handle_per_job() {
    let mut engine = ScrapingScheduler::new();
    let mut handle: u128 = 1;
    for _ in 0..4 {
        let retired = engine.unschedule_job(42);
        if handle > 1 {
            assert_eq!(retired, Some(handle - 1));
        } else {
            assert_eq!(retired, None);
        }
        assert_eq!(engine.commit_schedule(42, handle), None);
        assert_eq!(engine.get_scheduled_jobs(), vec![42]);
        handle += 1;
    }
    assert_eq!(engine.scheduled_count(), 1);
}

#[test]
fn commit_replaces_and_returns_old_handle() {
    let mut engine = ScrapingScheduler::new();
    assert_eq!(engine.commit_schedule(1, 10), None);
    assert_eq!(engine.commit_schedule(1, 20), Some(10));
    assert_eq!(engine.unschedule_job(1), Some(20));
}

#[test]
fn plan_schedule_decisions() {
    let engine = ScrapingScheduler::new();

    // Inactive jobs are skipped, successfully.
    let plan = engine.plan_schedule(&sample_job(Some(1), "daily", false));
    assert!(matches!(plan, Ok(SchedulePlan::SkipInactive)));

    // An active job without an id cannot be scheduled.
    let plan = engine.plan_schedule(&sample_job(None, "daily", true));
    assert!(matches!(plan, Err(ScheduleError::MissingId)));

    // An active job with an alias schedule gets the resolved expression.
    match engine.plan_schedule(&sample_job(Some(5), "daily", true)) {
        Ok(SchedulePlan::Register { job_id, cron }) => {
            assert_eq!(job_id, 5);
            assert_eq!(cron, "0 0 0 * * *");
        }
        other => panic!("unexpected plan: {other:?}"),
    }

    // A bad schedule is rejected with the original string.
    match engine.plan_schedule(&sample_job(Some(5), "sometimes", true)) {
        Err(ScheduleError::InvalidSchedule(e)) => assert_eq!(e.schedule, "sometimes"),
        other => panic!("unexpected plan: {other:?}"),
    }
}

#[test]
fn validate_cron_expression_checks_resolved_form() {
    let engine = ScrapingScheduler::new();
    assert_eq!(engine.validate_cron_expression("daily").unwrap(), true);
    assert_eq!(
        engine.validate_cron_expression("0 30 14 * * *").unwrap(),
        true
    );
    assert!(engine.validate_cron_expression("nonsense").is_err());
}

#[test]
fn scheduled_jobs_lists_each_id_once() {
    let mut engine = ScrapingScheduler::new();
    engine.commit_schedule(3, 30);
    engine.commit_schedule(1, 10);
    engine.commit_schedule(2, 20);
    engine.commit_schedule(1, 11);
    let mut ids = engine.get_scheduled_jobs();
    ids.sort();
    assert_eq!(ids, vec![1, 2, 3]);
    assert_eq!(engine.scheduled_count(), 3);
}
