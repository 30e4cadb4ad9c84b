use updater::config::default_config;
use updater::issue::{IssueType, PlannedIssue, StatusTag};
use updater::update::{
    image_step, issues_page_url, page_count, should_replace, ImageOutcome, ImageStep, UpdateState,
};

fn planned(id: u64) -> PlannedIssue {
    PlannedIssue {
        id,
        code: format!("CUSA{:05}", id),
        title: "T".to_string(),
        tag: StatusTag::Intro,
        issue_type: IssueType::Game,
        updated: "u".to_string(),
        image_path: "p".to_string(),
    }
}

#[test]
fn page_count_rounds_up() {
    assert_eq!(page_count(0), 0);
    assert_eq!(page_count(1), 1);
    assert_eq!(page_count(100), 1);
    assert_eq!(page_count(101), 2);
    assert_eq!(page_count(250), 3);
    assert_eq!(page_count(u64::MAX), u64::MAX / 100 + 1);
}

#[test]
fn page_url_of_the_tracker() {
    let c = default_config();
    assert_eq!(
        issues_page_url(&c.compat_api_url, 3),
        "https://api.github.com/repos/obhq/compatibility/issues?page=3&per_page=100&state=open&direction=DESC"
    );
}

#[test]
fn image_step_cases() {
    let skips = vec![5, 9];
    assert_eq!(image_step(true, 5, &skips), ImageStep::Present);
    assert_eq!(image_step(false, 5, &skips), ImageStep::AlreadySkipped);
    assert_eq!(image_step(false, 6, &skips), ImageStep::Download);
}

#[test]
fn record_builds_the_list_and_counts_failures() {
    let state = UpdateState::new(vec![9]);
    let state = state.record(planned(1), ImageOutcome::Downloaded);
    let state = state.record(planned(2), ImageOutcome::Present);
    let state = state.record(planned(9), ImageOutcome::Skipped);
    let state = state.record(planned(3), ImageOutcome::DownloadFailed);
    assert_eq!(state.failed_images(), 2);
    assert_eq!(state.game_skips(), &vec![9, 3]);
    let images: Vec<bool> = state.issues().iter().map(|i| i.image).collect();
    assert_eq!(images, vec![true, true, false, false]);
    let ids: Vec<u64> = state.issues().iter().map(|i| i.id).collect();
    assert_eq!(ids, vec![1, 2, 9, 3]);
    let (issues, skips, failed) = state.into_parts();
    assert_eq!(issues.len(), 4);
    assert_eq!(issues[0].code, "CUSA00001");
    assert_eq!(skips, vec![9, 3]);
    assert_eq!(failed, 2);
}

#[test]
fn a_failed_download_is_not_tried_again() {
    let state = UpdateState::new(vec![]);
    assert_eq!(image_step(false, 4, state.game_skips()), ImageStep::Download);
    let state = state.record(planned(4), ImageOutcome::DownloadFailed);
    assert_eq!(image_step(false, 4, state.game_skips()), ImageStep::AlreadySkipped);
    let state = state.record(planned(5), ImageOutcome::Downloaded);
    assert_eq!(image_step(false, 4, state.game_skips()), ImageStep::AlreadySkipped);
    assert_eq!(image_step(true, 4, state.game_skips()), ImageStep::Present);
}

#[test]
fn replacement_needs_more_than_95_percent() {
    assert!(!should_replace(95, 100));
    assert!(should_replace(96, 100));
    assert!(!should_replace(19, 20));
    assert!(should_replace(20, 20));
    assert!(!should_replace(0, 0));
    assert!(should_replace(1, 0));
    assert!(!should_replace(0, 1));
    assert!(should_replace(usize::MAX, usize::MAX));
}

#[test]
fn replacement_agrees_with_the_float_threshold() {
    for old in 0usize..300 {
        for new in 0usize..320 {
            assert_eq!(should_replace(new, old), new as f64 > 0.95 * old as f64, "{} {}", new, old);
        }
    }
}
