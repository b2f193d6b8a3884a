use black_pearl::launcher::{classify_exit_status, LaunchMode, ProcessOutcome};
use black_pearl::scrape::{
    is_success, queries_subdir, scrape_args, scrape_plan, scrape_report, ScrapeRequest,
};

#[test]
fn zelda_scrape_invokes_child_with_query_then_cache_dir() {
    let request = ScrapeRequest {
        binary_path: "/opt/scrapers/demo".to_string(),
        query: "zelda".to_string(),
    };
    let plan = scrape_plan(request, "/data/queries".to_string());
    assert_eq!(plan.program, "/opt/scrapers/demo");
    assert_eq!(plan.args, vec!["zelda".to_string(), "/data/queries".to_string()]);
    assert_eq!(plan.mode, LaunchMode::Blocking);

    let outcome = classify_exit_status(Some(0));
    assert_eq!(outcome, ProcessOutcome::Completed(0));
    assert!(is_success(&outcome));
}

#[test]
fn scrape_args_are_query_then_cache_dir() {
    let args = scrape_args("mario".to_string(), "/tmp/cache".to_string());
    assert_eq!(args, vec!["mario".to_string(), "/tmp/cache".to_string()]);
}

#[test]
fn cache_subdirectory_is_named_queries() {
    assert_eq!(queries_subdir(), "queries");
}

#[test]
fn nonzero_and_interrupted_outcomes_are_not_success() {
    assert!(!is_success(&ProcessOutcome::Completed(2)));
    assert!(!is_success(&ProcessOutcome::Interrupted));
}

#[test]
fn scrape_report_names_each_outcome() {
    assert_eq!(
        scrape_report(&ProcessOutcome::Completed(0)),
        "Scraper query completed successfully."
    );
    assert_eq!(
        scrape_report(&ProcessOutcome::Completed(3)),
        "Scraper query failed with a nonzero exit code."
    );
    assert_eq!(scrape_report(&ProcessOutcome::Interrupted), "Scraper query interrupted.");
}
