use scrape_engine::extract::WebScraper;
use scrape_engine::models::{DataType, ScrapingJob, SelectorType};
use scrape_engine::pipeline::{
    complete_execution, complete_test_run, fetch_plan, FetchOutcome, DEFAULT_USER_AGENT,
};

fn job_with(selector_type: SelectorType, selector: &str, data_type: DataType) -> ScrapingJob {
    ScrapingJob {
        id: Some(1),
        name: "job".to_string(),
        url: "http://example.com".to_string(),
        selector_type,
        selector: selector.to_string(),
        data_type,
        schedule: "daily".to_string(),
        user_agent: None,
        proxy_url: None,
        is_active: true,
        created_at: None,
        updated_at: None,
    }
}

#[test]
fn test_css_selector_validation() {
    let scraper = WebScraper::new();

    assert!(scraper.validate_css_selector("div.class").is_ok());
    assert!(scraper.validate_css_selector("#id").is_ok());
    assert!(scraper.validate_css_selector("p > a").is_ok());
    assert!(scraper.validate_css_selector("[data-test]").is_ok());

    // Invalid selectors
    assert!(scraper.validate_css_selector(">>>").is_err());
    assert!(scraper.validate_css_selector("[[[").is_err());
}

#[test]
fn test_regex_validation() {
    let scraper = WebScraper::new();

    assert!(scraper.validate_regex_pattern(r"\d+").is_ok());
    assert!(scraper.validate_regex_pattern(r"[a-zA-Z]+").is_ok());
    assert!(scraper.validate_regex_pattern(r"(\w+)@(\w+\.\w+)").is_ok());

    // Invalid regex
    assert!(scraper.validate_regex_pattern(r"[").is_err());
    assert!(scraper.validate_regex_pattern(r"*").is_err());
}

#[test]
fn test_css_scraping() {
    let scraper = WebScraper::new();
    let html = r#"
        <html>
            <body>
                <div class="content">
                    <p>First paragraph</p>
                    <p>Second paragraph</p>
                    <a href="https://example.com">Link</a>
                </div>
            </body>
        </html>
    "#;

    let results = scraper.scrape_with_css(html, "p", &DataType::Text).unwrap();
    assert_eq!(results.len(), 2);
    assert_eq!(results[0], "First paragraph");
    assert_eq!(results[1], "Second paragraph");

    let link_results = scraper
        .scrape_with_css(html, "a", &DataType::Attribute("href".to_string()))
        .unwrap();
    assert_eq!(link_results.len(), 1);
    assert_eq!(link_results[0], "https://example.com");
}

#[test]
fn test_regex_scraping() {
    let scraper = WebScraper::new();
    let text = "Contact us at john@example.com or jane@test.org for more info";

    let results = scraper.scrape_with_regex(text, r"(\w+)@(\w+\.\w+)").unwrap();
    assert_eq!(results.len(), 2);
    assert_eq!(results[0], "john"); // First capture group
    assert_eq!(results[1], "jane");

    // Test without capture groups
    let email_results = scraper.scrape_with_regex(text, r"\w+@\w+\.\w+").unwrap();
    assert_eq!(email_results.len(), 2);
    assert_eq!(email_results[0], "john@example.com");
    assert_eq!(email_results[1], "jane@test.org");
}

#[test]
fn css_extraction_simple_document_order() {
    let scraper = WebScraper::new();
    let results = scraper
        .scrape_with_css("<p>First</p><p>Second</p>", "p", &DataType::Text)
        .unwrap();
    assert_eq!(results, vec!["First".to_string(), "Second".to_string()]);
}

#[test]
fn css_extraction_attribute() {
    let scraper = WebScraper::new();
    let results = scraper
        .scrape_with_css(
            r#"<a href="https://example.com">Link</a>"#,
            "a",
            &DataType::Attribute("href".to_string()),
        )
        .unwrap();
    assert_eq!(results, vec!["https://example.com".to_string()]);
}

#[test]
fn css_extraction_drops_empty_entries() {
    let scraper = WebScraper::new();
    // The middle anchor lacks the attribute: its empty entry is dropped.
    let html = r#"<a href="one"></a><a></a><a href="two"></a>"#;
    let results = scraper
        .scrape_with_css(html, "a", &DataType::Attribute("href".to_string()))
        .unwrap();
    assert_eq!(results, vec!["one".to_string(), "two".to_string()]);
}

#[test]
fn extraction_zero_matches_is_ok() {
    let scraper = WebScraper::new();
    let results = scraper
        .scrape_with_css("<p>text</p>", "li", &DataType::Text)
        .unwrap();
    assert!(results.is_empty());

    let results = scraper.scrape_with_regex("nothing here", r"\d{4}").unwrap();
    assert!(results.is_empty());
}

#[test]
fn scrape_error_messages_name_the_selector() {
    let scraper = WebScraper::new();
    let err = scraper
        .scrape_with_css("<p>x</p>", "[[[", &DataType::Text)
        .unwrap_err();
    assert!(err.message().starts_with("Invalid CSS selector '[[['"));

    let err = scraper.scrape_with_regex("x", "[").unwrap_err();
    assert!(err.message().starts_with("Invalid regex pattern '['"));
}

#[test]
fn fetch_plan_uses_defaults() {
    let job = job_with(SelectorType::CSS, "p", DataType::Text);
    let plan = fetch_plan(&job);
    assert_eq!(plan.url, "http://example.com");
    assert_eq!(plan.user_agent, DEFAULT_USER_AGENT);
    assert_eq!(plan.proxy_url, None);
    assert_eq!(plan.timeout_secs, 300);
}

#[test]
fn fetch_plan_honors_overrides() {
    let mut job = job_with(SelectorType::CSS, "p", DataType::Text);
    job.user_agent = Some("custom-agent/1.0".to_string());
    job.proxy_url = Some("http://proxy.local:8080".to_string());
    let plan = fetch_plan(&job);
    assert_eq!(plan.user_agent, "custom-agent/1.0");
    assert_eq!(plan.proxy_url, Some("http://proxy.local:8080".to_string()));
}

#[test]
fn execution_success_joins_items_with_newlines() {
    let job = job_with(SelectorType::CSS, "p", DataType::Text);
    let fetched = FetchOutcome::Response {
        status: 200,
        body: "<p>First</p><p>Second</p>".to_string(),
    };
    let (outcome, items) = complete_execution(&job, &fetched, 1234);
    assert!(outcome.success);
    assert_eq!(outcome.job_id, 1);
    assert_eq!(outcome.timestamp, 1234);
    assert_eq!(outcome.scraped_data, "First\nSecond");
    assert_eq!(outcome.error_message, None);
    assert_eq!(items, vec!["First".to_string(), "Second".to_string()]);
}

#[test]
fn execution_fetch_failure_is_captured() {
    let job = job_with(SelectorType::CSS, "p", DataType::Text);
    let fetched = FetchOutcome::Failed {
        detail: "connection timed out".to_string(),
    };
    let (outcome, items) = complete_execution(&job, &fetched, 5);
    assert!(!outcome.success);
    assert_eq!(
        outcome.error_message.as_deref(),
        Some("Failed to fetch URL: connection timed out")
    );
    assert_eq!(outcome.scraped_data, "");
    assert!(items.is_empty());
}

#[test]
fn execution_http_error_is_captured() {
    let job = job_with(SelectorType::CSS, "p", DataType::Text);
    let fetched = FetchOutcome::Response {
        status: 404,
        body: "<p>gone</p>".to_string(),
    };
    let (outcome, items) = complete_execution(&job, &fetched, 5);
    assert!(!outcome.success);
    assert_eq!(outcome.error_message.as_deref(), Some("HTTP error: 404"));
    assert_eq!(outcome.scraped_data, "");
    assert!(items.is_empty());
}

#[test]
fn execution_bad_selector_is_captured() {
    let job = job_with(SelectorType::CSS, "[[[", DataType::Text);
    let fetched = FetchOutcome::Response {
        status: 200,
        body: "<p>x</p>".to_string(),
    };
    let (outcome, _) = complete_execution(&job, &fetched, 5);
    assert!(!outcome.success);
    let message = outcome.error_message.unwrap();
    assert!(message.starts_with("Invalid CSS selector"));
}

#[test]
fn execution_zero_matches_is_success() {
    let job = job_with(SelectorType::CSS, "li", DataType::Text);
    let fetched = FetchOutcome::Response {
        status: 200,
        body: "<p>only paragraphs</p>".to_string(),
    };
    let (outcome, items) = complete_execution(&job, &fetched, 5);
    assert!(outcome.success);
    assert_eq!(outcome.scraped_data, "");
    assert_eq!(outcome.error_message, None);
    assert!(items.is_empty());
}

#[test]
fn test_run_truncates_to_five_in_order() {
    let job = job_with(SelectorType::Regex, r"\w+", DataType::Text);
    let fetched = FetchOutcome::Response {
        status: 200,
        body: "one two three four five six seven".to_string(),
    };
    let (outcome, items) = complete_test_run(&job, &fetched, 5);
    assert!(outcome.success);
    assert_eq!(
        items,
        vec![
            "one".to_string(),
            "two".to_string(),
            "three".to_string(),
            "four".to_string(),
            "five".to_string()
        ]
    );
    // The stored outcome still carries everything.
    assert_eq!(outcome.scraped_data, "one\ntwo\nthree\nfour\nfive\nsix\nseven");
}

#[test]
fn test_run_keeps_short_lists_whole() {
    let job = job_with(SelectorType::Regex, r"\w+", DataType::Text);
    let fetched = FetchOutcome::Response {
        status: 200,
        body: "just three words".to_string(),
    };
    let (_, items) = complete_test_run(&job, &fetched, 5);
    assert_eq!(
        items,
        vec!["just".to_string(), "three".to_string(), "words".to_string()]
    );
}
