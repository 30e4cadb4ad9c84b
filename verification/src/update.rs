//! One run over the tracker: which pages to read, what to do about each
//! issue's image, the list being built, and whether it may replace the old one.

use vstd::prelude::*;
use crate::issue::{IssueType, PlannedIssue, StatusTag, contains_id};
use crate::text::{decimal, push_decimal};

verus! {

/// Pages needed for `total` issues: `total` divided by 100, rounded up.
pub fn page_count(total: u64) -> (r: u64)
    ensures
        r as int * 100 >= total,
        total > (r as int - 1) * 100,
        r == (total as int + 99) / 100,
{
    total / 100 + if total % 100 == 0 { 0 } else { 1 }
}

/// The address of page `page` of the open issues, newest first.
pub open spec fn issues_page_url_of(base: Seq<char>, page: nat) -> Seq<char> {
    base + "/issues?page="@ + decimal(page) + "&per_page=100&state=open&direction=DESC"@
}

/// The address of page `page` of the open issues of the tracker at `base`.
pub fn issues_page_url(base: &str, page: u64) -> (r: String)
    ensures
        r@ == issues_page_url_of(base@, page as nat),
{
    let mut r = String::from_str(base);
    r.append("/issues?page=");
    push_decimal(&mut r, page);
    r.append("&per_page=100&state=open&direction=DESC");
    r
}

/// One entry of the compatibility list.
pub struct Issue {
    pub id: u64,
    pub code: String,
    pub title: String,
    pub tag: StatusTag,
    pub issue_type: IssueType,
    pub updated: String,
    pub image: bool,
}

/// What to do about the image of an issue.
#[derive(PartialEq, Eq, Structural, Clone, Copy, Debug)]
pub enum ImageStep {
    /// The image is already on disk.
    Present,
    /// An earlier download for this issue failed; it is not tried again.
    AlreadySkipped,
    /// The image is to be downloaded.
    Download,
}

/// What to do about an image: nothing where it exists, nothing but counting
/// it as failed where the issue is on the skip list, a download otherwise.
pub open spec fn step_of(path_exists: bool, id: u64, skips: Seq<u64>) -> ImageStep {
    if path_exists {
        ImageStep::Present
    } else if skips.contains(id) {
        ImageStep::AlreadySkipped
    } else {
        ImageStep::Download
    }
}

/// What to do about the image of issue `id`.
pub fn image_step(path_exists: bool, id: u64, skips: &Vec<u64>) -> (r: ImageStep)
    ensures
        r == step_of(path_exists, id, skips@),
        path_exists ==> r == ImageStep::Present,
        r == ImageStep::Download <==> (!path_exists && !skips@.contains(id)),
        r == ImageStep::AlreadySkipped <==> (!path_exists && skips@.contains(id)),
{
    if path_exists {
        ImageStep::Present
    } else if contains_id(skips, id) {
        ImageStep::AlreadySkipped
    } else {
        ImageStep::Download
    }
}

/// How the image of an issue turned out.
#[derive(PartialEq, Eq, Structural, Clone, Copy, Debug)]
pub enum ImageOutcome {
    /// It was on disk already.
    Present,
    /// The issue is on the skip list and was not tried.
    Skipped,
    /// It was downloaded.
    Downloaded,
    /// The download failed.
    DownloadFailed,
}

/// Whether the issue ends up with an image.
pub open spec fn has_image(o: ImageOutcome) -> bool {
    o is Present || o is Downloaded
}

/// The list entry of a planned issue.
pub open spec fn entry_of(p: PlannedIssue, image: bool) -> Issue {
    Issue {
        id: p.id,
        code: p.code,
        title: p.title,
        tag: p.tag,
        issue_type: p.issue_type,
        updated: p.updated,
        image,
    }
}

/// How many entries lack an image.
pub open spec fn missing_images(s: Seq<Issue>) -> nat
    decreases s.len(),
{
    if s.len() == 0 {
        0
    } else {
        missing_images(s.drop_last()) + if s.last().image { 0nat } else { 1nat }
    }
}

proof fn lemma_missing_images_bounded(s: Seq<Issue>)
    ensures
        missing_images(s) <= s.len(),
    decreases s.len(),
{
    if s.len() > 0 {
        lemma_missing_images_bounded(s.drop_last());
    }
}

/// The state of a run: the list built so far, the issues whose image is not
/// to be tried again, and how many listed issues have no image.
pub struct UpdateState {
    issues: Vec<Issue>,
    game_skips: Vec<u64>,
    failed_images: u64,
}

impl UpdateState {
    #[verifier::type_invariant]
    spec fn counts_agree(self) -> bool {
        self.failed_images as nat == missing_images(self.issues@)
    }

    /// The list built so far.
    pub closed spec fn listed(self) -> Seq<Issue> {
        self.issues@
    }

    /// The issues whose image download is not to be tried again.
    pub closed spec fn skips(self) -> Seq<u64> {
        self.game_skips@
    }

    /// How many images failed.
    pub closed spec fn failed(self) -> nat {
        self.failed_images as nat
    }

    /// A run that starts with an empty list and the skip list saved by earlier runs.
    pub fn new(game_skips: Vec<u64>) -> (r: UpdateState)
        ensures
            r.listed() == Seq::<Issue>::empty(),
            r.skips() == game_skips@,
            r.failed() == 0,
    {
        UpdateState { issues: Vec::new(), game_skips, failed_images: 0 }
    }

    /// The list built so far.
    pub fn issues(&self) -> (r: &Vec<Issue>)
        ensures
            r@ == self.listed(),
    {
        &self.issues
    }

    /// The skip list.
    pub fn game_skips(&self) -> (r: &Vec<u64>)
        ensures
            r@ == self.skips(),
    {
        &self.game_skips
    }

    /// How many images failed: as many as listed issues without an image.
    pub fn failed_images(&self) -> (r: u64)
        ensures
            r == self.failed(),
            r == missing_images(self.listed()),
    {
        proof { use_type_invariant(self); }
        self.failed_images
    }

    /// The list, the skip list and the failure count, taken apart.
    pub fn into_parts(self) -> (r: (Vec<Issue>, Vec<u64>, u64))
        ensures
            r.0@ == self.listed(),
            r.1@ == self.skips(),
            r.2 == self.failed(),
            r.2 == missing_images(r.0@),
    {
        proof { use_type_invariant(&self); }
        let UpdateState { issues, game_skips, failed_images } = self;
        (issues, game_skips, failed_images)
    }

    /// Adds a planned issue to the list with the way its image turned out. A
    /// failed or skipped image counts as failed; a failed download also puts
    /// the issue on the skip list.
    pub fn record(self, planned: PlannedIssue, outcome: ImageOutcome) -> (r: UpdateState)
        ensures
            r.listed() == self.listed().push(entry_of(planned, has_image(outcome))),
            r.skips() == if outcome is DownloadFailed {
                self.skips().push(planned.id)
            } else {
                self.skips()
            },
            r.failed() == self.failed() + if has_image(outcome) { 0nat } else { 1nat },
            r.failed() == missing_images(r.listed()),
            r.listed().len() == self.listed().len() + 1,
            r.listed().subrange(0, self.listed().len() as int) == self.listed(),
            r.listed().last().id == planned.id,
            r.listed().last().code == planned.code,
            r.listed().last().title == planned.title,
            r.listed().last().tag == planned.tag,
            r.listed().last().issue_type == planned.issue_type,
            r.listed().last().updated == planned.updated,
            r.listed().last().image <==> (outcome == ImageOutcome::Present
                || outcome == ImageOutcome::Downloaded),
            outcome == ImageOutcome::DownloadFailed ==> r.skips() == self.skips().push(planned.id),
            outcome != ImageOutcome::DownloadFailed ==> r.skips() == self.skips(),
    {
        proof { use_type_invariant(&self); }
        let UpdateState { mut issues, mut game_skips, failed_images } = self;
        let id: u64 = planned.id;
        let image = match outcome {
            ImageOutcome::Present => true,
            ImageOutcome::Downloaded => true,
            ImageOutcome::Skipped => false,
            ImageOutcome::DownloadFailed => false,
        };
        let ghost before = issues@;
        issues.push(Issue {
            id: planned.id,
            code: planned.code,
            title: planned.title,
            tag: planned.tag,
            issue_type: planned.issue_type,
            updated: planned.updated,
            image,
        });
        let _len: usize = issues.len();
        proof {
            assert(issues@.drop_last() =~= before);
            lemma_missing_images_bounded(before);
        }
        let failed: u64 = if image { failed_images } else { failed_images + 1 };
        if outcome == ImageOutcome::DownloadFailed {
            game_skips.push(id);
        }
        UpdateState { issues, game_skips, failed_images: failed }
    }
}

/// What to do about an image: an image on disk is never fetched again; a
/// missing one is fetched unless the issue is on the skip list.
pub proof fn lemma_image_step_rules(path_exists: bool, id: u64, skips: Seq<u64>)
    ensures
        path_exists ==> step_of(path_exists, id, skips) == ImageStep::Present,
        step_of(path_exists, id, skips) == ImageStep::Download <==> (!path_exists && !skips.contains(id)),
        step_of(path_exists, id, skips) == ImageStep::AlreadySkipped <==> (!path_exists && skips.contains(id)),
{
}

/// A list entry carries the planned issue's number, code, title, status, kind
/// and update time unchanged, and has an image exactly when it was on disk or
/// downloaded.
pub proof fn lemma_entry_keeps_fields(p: PlannedIssue, outcome: ImageOutcome)
    ensures
        entry_of(p, has_image(outcome)).id == p.id,
        entry_of(p, has_image(outcome)).code == p.code,
        entry_of(p, has_image(outcome)).title == p.title,
        entry_of(p, has_image(outcome)).tag == p.tag,
        entry_of(p, has_image(outcome)).issue_type == p.issue_type,
        entry_of(p, has_image(outcome)).updated == p.updated,
        entry_of(p, has_image(outcome)).image <==> (outcome == ImageOutcome::Present
            || outcome == ImageOutcome::Downloaded),
{
}

/// An issue on the skip list stays there for the rest of the run, so its image
/// is never downloaded again unless it appears on disk: the skip lists of a run
/// only grow, each one a prefix of the next.
pub proof fn lemma_skipped_stays_skipped(skips: Seq<u64>, later: Seq<u64>, id: u64, path_exists: bool)
    requires
        skips.contains(id),
        skips.is_prefix_of(later),
    ensures
        step_of(path_exists, id, later) != ImageStep::Download,
{
    let k = choose|k: int| 0 <= k < skips.len() && skips[k] == id;
    assert(later[k] == id);
}

/// A failed download puts the issue on the skip list, and `record` only ever
/// extends that list.
pub proof fn lemma_failed_download_is_skipped(before: Seq<u64>, after: Seq<u64>, id: u64)
    requires
        after == before.push(id),
    ensures
        after.contains(id),
        before.is_prefix_of(after),
        step_of(false, id, after) == ImageStep::AlreadySkipped,
{
    assert(after[before.len() as int] == id);
    assert(before =~= after.subrange(0, before.len() as int));
}

/// Whether the new list may replace the saved one: it must hold more than 95%
/// as many issues as the saved one, which guards against a run that lost most
/// of the tracker. Exactly, `new > 0.95 * old`, that is `20 * new > 19 * old`.
pub open spec fn may_replace(new_count: nat, old_count: nat) -> bool {
    20 * new_count > 19 * old_count
}

/// Whether the new list may replace the saved one.
pub fn should_replace(new_count: usize, old_count: usize) -> (r: bool)
    ensures
        r == may_replace(new_count as nat, old_count as nat),
        r <==> 100 * (new_count as int) > 95 * (old_count as int),
{
    (new_count as u128) * 20 > (old_count as u128) * 19
}

} // verus!
