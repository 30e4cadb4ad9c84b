//! The statistics file of the website: stars of the emulator, open issues of
//! the compatibility list, and the number of the latest development build.

use vstd::prelude::*;
use crate::json::{JsonValue, get_key, get_index, as_u64, u64_member, member, element};
use crate::text::{decimal, decimal_string};

verus! {

/// The three counts, written as decimal text.
pub struct Stats {
    pub stars: String,
    pub issues: String,
    pub devbuilds: String,
}

/// The statistics of three counts.
pub fn stats_from_counts(stars: u64, issues: u64, devbuilds: u64) -> (r: Stats)
    ensures
        r.stars@ == decimal(stars as nat),
        r.issues@ == decimal(issues as nat),
        r.devbuilds@ == decimal(devbuilds as nat),
{
    Stats {
        stars: decimal_string(stars),
        issues: decimal_string(issues),
        devbuilds: decimal_string(devbuilds),
    }
}

/// The stars of a repository: its `stargazers_count`.
pub fn star_count(repo: &JsonValue) -> (r: Option<u64>)
    ensures
        r == as_u64(get_key(*repo, "stargazers_count"@)),
{
    u64_member(repo, "stargazers_count")
}

/// The open issues of a repository: its `open_issues_count`.
pub fn open_issue_count(repo: &JsonValue) -> (r: Option<u64>)
    ensures
        r == as_u64(get_key(*repo, "open_issues_count"@)),
{
    u64_member(repo, "open_issues_count")
}

/// The number of the latest run of a workflow: `run_number` of the first of its `workflow_runs`.
pub open spec fn latest_run_of(runs: JsonValue) -> Option<u64> {
    match get_key(runs, "workflow_runs"@) {
        Some(list) => match get_index(list, 0) {
            Some(first) => as_u64(get_key(first, "run_number"@)),
            None => None,
        },
        None => None,
    }
}

/// The number of the latest run of a workflow.
pub fn latest_run_number(runs: &JsonValue) -> (r: Option<u64>)
    ensures
        r == latest_run_of(*runs),
{
    let list = match member(runs, "workflow_runs") {
        Some(v) => v,
        None => return None,
    };
    let first = match element(list, 0) {
        Some(v) => v,
        None => return None,
    };
    u64_member(first, "run_number")
}

} // verus!
