//! From one issue of the compatibility tracker to the entry of the list: its
//! status, its title code, its kind, and where its image is kept.

use vstd::prelude::*;
use crate::config::Config;
use crate::json::{JsonValue, get_key, as_u64, as_text, as_items, u64_member, str_member, array_member};
use crate::text::{
    is_ascii_text, ascii_upper,
    lemma_trim_ws_shape, char_whitespace,
    remove_all, trim_ws, trim_end_char, uppercase, to_uppercase, trim, trim_end_matches_char,
    remove_occurrences, starts_with,
};

verus! {

/// An outside type: the error `regex::Regex::new` reports for a pattern it cannot compile.
#[verifier::external_type_specification]
#[verifier::external_body]
pub struct ExRegexError(regex::Error);

/// The pattern of a title code: four letters and five digits, such as `CUSA00001`.
pub const CODE_PATTERN: &'static str = "[a-zA-Z]{4}[0-9]{5}";

/// The texts of the successive non-overlapping matches that
/// `regex::Regex::find_iter` yields for `pattern` over `haystack`, in order.
pub uninterp spec fn regex_matches(pattern: Seq<char>, haystack: Seq<char>) -> Seq<Seq<char>>;

/// Whether `c` is an ASCII letter.
pub open spec fn is_ascii_letter(c: char) -> bool {
    ('a' <= c && c <= 'z') || ('A' <= c && c <= 'Z')
}

/// Whether `c` is an ASCII decimal digit.
pub open spec fn is_ascii_digit(c: char) -> bool {
    '0' <= c && c <= '9'
}

/// Whether a title code begins at position `i` of `h`: four ASCII letters
/// followed by five ASCII digits.
pub open spec fn code_at(h: Seq<char>, i: int) -> bool {
    &&& 0 <= i && i + 9 <= h.len()
    &&& is_ascii_letter(h[i]) && is_ascii_letter(h[i + 1])
    &&& is_ascii_letter(h[i + 2]) && is_ascii_letter(h[i + 3])
    &&& is_ascii_digit(h[i + 4]) && is_ascii_digit(h[i + 5]) && is_ascii_digit(h[i + 6])
    &&& is_ascii_digit(h[i + 7]) && is_ascii_digit(h[i + 8])
}

/// The title codes of `h` from position `i` on, read left to right without
/// overlap: where a code begins it is taken and reading goes on after it,
/// otherwise reading moves one character on.
pub open spec fn code_runs_from(h: Seq<char>, i: int) -> Seq<Seq<char>>
    decreases h.len() - i,
{
    if i < 0 || i + 9 > h.len() {
        Seq::empty()
    } else if code_at(h, i) {
        seq![h.subrange(i, i + 9)] + code_runs_from(h, i + 9)
    } else {
        code_runs_from(h, i + 1)
    }
}

/// The title codes of `h`, read left to right without overlap.
pub open spec fn code_runs(h: Seq<char>) -> Seq<Seq<char>> {
    code_runs_from(h, 0)
}

/// The code of a title: its last title code in upper case, or nothing.
pub open spec fn title_code(title: Seq<char>) -> Seq<char> {
    match last_text(code_runs(title)) {
        Some(m) => ascii_upper(m),
        None => Seq::empty(),
    }
}

/// Every title code read from `h` is a code itself, so its characters are ASCII.
pub proof fn lemma_code_runs_are_codes(h: Seq<char>, i: int)
    ensures
        forall|j: int| 0 <= j < code_runs_from(h, i).len() ==> {
            &&& #[trigger] code_runs_from(h, i)[j].len() == 9
            &&& code_at(code_runs_from(h, i)[j], 0)
            &&& is_ascii_text(code_runs_from(h, i)[j])
        },
    decreases h.len() - i,
{
    if i < 0 || i + 9 > h.len() {
        assert(code_runs_from(h, i) =~= Seq::<Seq<char>>::empty());
    } else if code_at(h, i) {
        lemma_code_runs_are_codes(h, i + 9);
        let m = h.subrange(i, i + 9);
        let rest = code_runs_from(h, i + 9);
        let all = code_runs_from(h, i);
        assert(all =~= seq![m] + rest);
        assert(code_at(m, 0));
        assert forall|k: int| 0 <= k < m.len() implies (#[trigger] m[k] as u32) < 128 by {
            assert(k == 0 || k == 1 || k == 2 || k == 3 || k == 4 || k == 5 || k == 6 || k == 7 || k == 8);
            assert(is_ascii_letter(m[k]) || is_ascii_digit(m[k]));
        }
        assert forall|j: int| 0 <= j < all.len() implies {
            &&& #[trigger] all[j].len() == 9
            &&& code_at(all[j], 0)
            &&& is_ascii_text(all[j])
        } by {
            if j > 0 {
                assert(all[j] == rest[j - 1]);
            }
        }
    } else {
        lemma_code_runs_are_codes(h, i + 1);
        assert(code_runs_from(h, i) == code_runs_from(h, i + 1));
    }
}

/// The characters of each string, in order.
pub open spec fn texts_of(v: Seq<String>) -> Seq<Seq<char>> {
    v.map_values(|s: String| s@)
}

/// The last of a list of texts, if any.
pub open spec fn last_text(ms: Seq<Seq<char>>) -> Option<Seq<char>> {
    if ms.len() == 0 {
        None
    } else {
        Some(ms.last())
    }
}

/// The last match of `pattern` in `haystack`, if any.
pub open spec fn regex_last_match(pattern: Seq<char>, haystack: Seq<char>) -> Option<Seq<char>> {
    last_text(regex_matches(pattern, haystack))
}

/// Whether `part` occurs in `whole` as a run of consecutive characters.
pub open spec fn occurs_in(part: Seq<char>, whole: Seq<char>) -> bool {
    exists|i: int| 0 <= i && i + part.len() <= whole.len() && #[trigger] whole.subrange(i, i + part.len()) == part
}

/// The characters of an optional string.
pub open spec fn opt_chars(o: Option<String>) -> Option<Seq<char>> {
    match o {
        Some(s) => Some(s@),
        None => None,
    }
}

/// Trusted: compiles `pattern` with `regex::Regex::new` and lists, in order,
/// the matches that `Regex::find_iter` yields over `haystack`, each as
/// `Match::as_str` gives it. On success the list is named `regex_matches`;
/// each match is a substring of the haystack (the documentation of
/// `Match::as_str`). For the title code pattern the list is stated in
/// full: the pattern matches exactly four ASCII letters followed by five ASCII
/// digits (`[a-z]`, `[A-Z]` and `[0-9]` are ASCII ranges), and `find_iter`
/// takes the leftmost match and goes on after its end, which is
/// `code_runs`. `Regex::new` refuses only patterns that do not parse or
/// that compile past its size limit; the title code pattern
/// `[a-zA-Z]{4}[0-9]{5}` is neither, so it compiles. Which other patterns
/// compile is not stated.
#[verifier::external_body]
fn all_matches(pattern: &str, haystack: &str) -> (r: Result<Vec<String>, regex::Error>)
    ensures
        r matches Ok(v) ==> texts_of(v@) == regex_matches(pattern@, haystack@),
        r matches Ok(v) ==> forall|i: int| 0 <= i < v@.len() ==> occurs_in(#[trigger] v@[i]@, haystack@),
        pattern@ == "[a-zA-Z]{4}[0-9]{5}"@ ==> r is Ok,
        r matches Ok(v) ==> (pattern@ == "[a-zA-Z]{4}[0-9]{5}"@ ==> texts_of(v@) == code_runs(haystack@)),
{
    match regex::Regex::new(pattern) {
        Ok(re) => {
            let mut found = Vec::new();
            for m in re.find_iter(haystack) {
                found.push(m.as_str().to_string());
            }
            Ok(found)
        },
        Err(e) => Err(e),
    }
}

/// The code read from a title: the found match in upper case, or nothing.
pub open spec fn code_from_match(found: Option<Seq<char>>) -> Seq<char> {
    match found {
        Some(m) => uppercase(m),
        None => Seq::empty(),
    }
}

/// The title once its code is taken out: every occurrence of the code removed,
/// then trimmed, then stripped of trailing dashes, then trimmed again.
pub open spec fn cleaned_title(title: Seq<char>, code: Seq<char>) -> Seq<char> {
    trim_ws(trim_end_char(trim_ws(remove_all(title, code)), '-'))
}

/// The title without its code.
pub fn clean_title(title: &str, code: &str) -> (r: String)
    ensures
        r@ == cleaned_title(title@, code@),
{
    let removed = remove_occurrences(title, code);
    let trimmed = trim(removed.as_str());
    let undashed = trim_end_matches_char(trimmed.as_str(), '-');
    trim(undashed.as_str())
}

/// Code and cleaned title, given what the code pattern found in the title.
pub fn code_and_title(title: &str, found: Option<String>) -> (r: (String, String))
    ensures
        r.0@ == code_from_match(opt_chars(found)),
        found matches Some(m) ==> (is_ascii_text(m@) ==> r.0@ == ascii_upper(m@)),
        r.1@ == cleaned_title(title@, r.0@),
{
    let code = match found {
        Some(m) => to_uppercase(m.as_str()),
        None => String::new(),
    };
    let cleaned = clean_title(title, code.as_str());
    (code, cleaned)
}

/// Errors met while reading an issue.
pub enum IssueError {
    /// The issue lacks a field that every issue has (number, title, update time).
    MissingField,
    /// The code pattern did not compile.
    BadPattern,
}

/// The last match of `pattern` in `haystack`; refused where the pattern does
/// not compile, which the title code pattern does.
pub fn last_pattern_match(pattern: &str, haystack: &str) -> (r: Result<Option<String>, IssueError>)
    ensures
        r matches Ok(m) ==> opt_chars(m) == regex_last_match(pattern@, haystack@),
        r matches Ok(Some(m)) ==> occurs_in(m@, haystack@),
        r matches Err(e) ==> e is BadPattern,
        pattern@ == CODE_PATTERN@ ==> r is Ok,
        r matches Ok(m) ==> (pattern@ == CODE_PATTERN@ ==> opt_chars(m) == last_text(code_runs(haystack@))),
        r matches Ok(m) ==> (pattern@ == CODE_PATTERN@ ==> (m is None <==> code_runs(haystack@).len() == 0)),
        r matches Ok(Some(m)) ==> (pattern@ == CODE_PATTERN@
            ==> m@ == code_runs(haystack@)[code_runs(haystack@).len() - 1]),
{
    match all_matches(pattern, haystack) {
        Ok(found) => {
            let mut found = found;
            let ghost all = found@;
            let last = found.pop();
            proof {
                if all.len() > 0 {
                    assert(texts_of(all).last() == all.last()@);
                    assert(occurs_in(all[all.len() - 1]@, haystack@));
                }
            }
            Ok(last)
        },
        Err(_) => Err(IssueError::BadPattern),
    }
}

/// Code and cleaned title of a title, using the code pattern.
pub fn split_code(title: &str) -> (r: Result<(String, String), IssueError>)
    ensures
        r matches Ok(p) ==> {
            &&& p.0@ == title_code(title@)
            &&& p.1@ == cleaned_title(title@, p.0@)
        },
        r is Ok,
{
    match last_pattern_match(CODE_PATTERN, title) {
        Ok(found) => {
            proof {
                lemma_code_runs_are_codes(title@, 0);
                let runs = code_runs(title@);
                if runs.len() > 0 {
                    assert(is_ascii_text(runs[runs.len() - 1]));
                }
            }
            Ok(code_and_title(title, found))
        },
        Err(e) => Err(e),
    }
}

/// The status of an issue, from its best label.
#[derive(PartialEq, Eq, Structural, Clone, Copy, Debug)]
pub enum StatusTag {
    Playable,
    InGame,
    Intro,
    Boots,
    Nothing,
    Unknown,
}

/// The status shown for an issue with these labels: the best one present, in
/// the order playable, in game, intro, boots, nothing; unknown without any.
pub open spec fn status_of(labels: Seq<u64>, c: Config) -> StatusTag {
    if labels.contains(c.tag_playable) {
        StatusTag::Playable
    } else if labels.contains(c.tag_ingame) {
        StatusTag::InGame
    } else if labels.contains(c.tag_intro) {
        StatusTag::Intro
    } else if labels.contains(c.tag_boots) {
        StatusTag::Boots
    } else if labels.contains(c.tag_nothing) {
        StatusTag::Nothing
    } else {
        StatusTag::Unknown
    }
}

/// The name a status is written with in the database.
pub open spec fn status_name(t: StatusTag) -> Seq<char> {
    match t {
        StatusTag::Playable => "Playable"@,
        StatusTag::InGame => "InGame"@,
        StatusTag::Intro => "Intro"@,
        StatusTag::Boots => "Boots"@,
        StatusTag::Nothing => "Nothing"@,
        StatusTag::Unknown => "N/A"@,
    }
}

impl StatusTag {
    /// The name this status is written with.
    pub fn name(&self) -> (r: String)
        ensures
            r@ == status_name(*self),
    {
        match self {
            StatusTag::Playable => String::from_str("Playable"),
            StatusTag::InGame => String::from_str("InGame"),
            StatusTag::Intro => String::from_str("Intro"),
            StatusTag::Boots => String::from_str("Boots"),
            StatusTag::Nothing => String::from_str("Nothing"),
            StatusTag::Unknown => String::from_str("N/A"),
        }
    }
}

/// Whether `id` is among `ids`.
pub fn contains_id(ids: &Vec<u64>, id: u64) -> (r: bool)
    ensures
        r == ids@.contains(id),
{
    let mut i: usize = 0;
    while i < ids.len()
        invariant
            i <= ids@.len(),
            forall|k: int| 0 <= k < i ==> ids@[k] != id,
        decreases ids@.len() - i,
    {
        if ids[i] == id {
            assert(ids@[i as int] == id);
            return true;
        }
        i = i + 1;
    }
    false
}

/// The status of an issue with these labels.
pub fn status_tag(labels: &Vec<u64>, config: &Config) -> (r: StatusTag)
    ensures
        r == status_of(labels@, *config),
        labels@.contains(config.tag_playable) ==> r == StatusTag::Playable,
        r == StatusTag::InGame <==> (labels@.contains(config.tag_ingame)
            && !labels@.contains(config.tag_playable)),
        r == StatusTag::Intro <==> (labels@.contains(config.tag_intro)
            && !labels@.contains(config.tag_playable) && !labels@.contains(config.tag_ingame)),
        r == StatusTag::Boots <==> (labels@.contains(config.tag_boots)
            && !labels@.contains(config.tag_playable) && !labels@.contains(config.tag_ingame)
            && !labels@.contains(config.tag_intro)),
        r == StatusTag::Nothing <==> (labels@.contains(config.tag_nothing)
            && !labels@.contains(config.tag_playable) && !labels@.contains(config.tag_ingame)
            && !labels@.contains(config.tag_intro) && !labels@.contains(config.tag_boots)),
        r == StatusTag::Unknown <==> (!labels@.contains(config.tag_playable)
            && !labels@.contains(config.tag_ingame) && !labels@.contains(config.tag_intro)
            && !labels@.contains(config.tag_boots) && !labels@.contains(config.tag_nothing)),
{
    if contains_id(labels, config.tag_playable) {
        StatusTag::Playable
    } else if contains_id(labels, config.tag_ingame) {
        StatusTag::InGame
    } else if contains_id(labels, config.tag_intro) {
        StatusTag::Intro
    } else if contains_id(labels, config.tag_boots) {
        StatusTag::Boots
    } else if contains_id(labels, config.tag_nothing) {
        StatusTag::Nothing
    } else {
        StatusTag::Unknown
    }
}

/// The id of a label object, 0 where it has none.
pub open spec fn label_id(label: JsonValue) -> u64 {
    match as_u64(get_key(label, "id"@)) {
        Some(n) => n,
        None => 0,
    }
}

/// The label ids of an issue, in order; none where `labels` is not an array.
pub open spec fn label_ids_of(issue: JsonValue) -> Seq<u64> {
    match as_items(get_key(issue, "labels"@)) {
        Some(items) => items.map_values(|l: JsonValue| label_id(l)),
        None => Seq::empty(),
    }
}

/// The label ids of an issue.
pub fn label_ids(issue: &JsonValue) -> (r: Vec<u64>)
    ensures
        r@ == label_ids_of(*issue),
{
    let mut r: Vec<u64> = Vec::new();
    match array_member(issue, "labels") {
        Some(items) => {
            let mut i: usize = 0;
            while i < items.len()
                invariant
                    i <= items@.len(),
                    r@ == items@.subrange(0, i as int).map_values(|l: JsonValue| label_id(l)),
                decreases items@.len() - i,
            {
                let id = match u64_member(&items[i], "id") {
                    Some(n) => n,
                    None => 0,
                };
                r.push(id);
                i = i + 1;
                assert(r@ =~= items@.subrange(0, i as int).map_values(|l: JsonValue| label_id(l)));
            }
            assert(items@.subrange(0, items@.len() as int) =~= items@);
            r
        },
        None => r,
    }
}


/// Whether an issue is about a game or about a homebrew application.
#[derive(PartialEq, Eq, Structural, Clone, Copy, Debug)]
pub enum IssueType {
    Game,
    Homebrew,
}

/// The name a kind is written with in the database.
pub open spec fn kind_name(t: IssueType) -> Seq<char> {
    match t {
        IssueType::Game => "GAME"@,
        IssueType::Homebrew => "HB"@,
    }
}

impl IssueType {
    /// The name this kind is written with.
    pub fn name(&self) -> (r: String)
        ensures
            r@ == kind_name(*self),
    {
        match self {
            IssueType::Game => String::from_str("GAME"),
            IssueType::Homebrew => String::from_str("HB"),
        }
    }
}

/// Whether a code names a retail game: it begins with CUSA, PCJS, PLJM or PLJS.
pub open spec fn is_game_code(code: Seq<char>) -> bool {
    ||| "CUSA"@.is_prefix_of(code)
    ||| "PCJS"@.is_prefix_of(code)
    ||| "PLJM"@.is_prefix_of(code)
    ||| "PLJS"@.is_prefix_of(code)
}

/// The kind of an issue and the code it is listed under: a game where the code
/// names one; otherwise a homebrew where the homebrew label is present, listed
/// as `HomeBrew` when it has no code; otherwise neither, and the issue is left out.
pub open spec fn classified(code: Seq<char>, labels: Seq<u64>, homebrew_tag: u64) -> Option<(IssueType, Seq<char>)> {
    if is_game_code(code) {
        Some((IssueType::Game, code))
    } else if labels.contains(homebrew_tag) {
        Some((IssueType::Homebrew, if code.len() == 0 { "HomeBrew"@ } else { code }))
    } else {
        None
    }
}

/// The kind of an issue and its listed code.
pub fn classify(code: &String, labels: &Vec<u64>, homebrew_tag: u64) -> (r: Option<(IssueType, String)>)
    ensures
        match r {
            Some((t, c)) => classified(code@, labels@, homebrew_tag) == Some((t, c@)),
            None => classified(code@, labels@, homebrew_tag) is None,
        },
        ("CUSA"@.is_prefix_of(code@) || "PCJS"@.is_prefix_of(code@) || "PLJM"@.is_prefix_of(code@)
            || "PLJS"@.is_prefix_of(code@)) ==> (r matches Some((t, c)) && t == IssueType::Game
            && c@ == code@),
        r matches Some((t, _)) ==> (t == IssueType::Game <==> ("CUSA"@.is_prefix_of(code@)
            || "PCJS"@.is_prefix_of(code@) || "PLJM"@.is_prefix_of(code@)
            || "PLJS"@.is_prefix_of(code@))),
        !("CUSA"@.is_prefix_of(code@) || "PCJS"@.is_prefix_of(code@) || "PLJM"@.is_prefix_of(code@)
            || "PLJS"@.is_prefix_of(code@)) && labels@.contains(homebrew_tag) ==> (r matches Some((t, c))
            && t == IssueType::Homebrew && (code@.len() == 0 ==> c@ == "HomeBrew"@)
            && (code@.len() > 0 ==> c@ == code@)),
        r is None <==> (!labels@.contains(homebrew_tag) && !"CUSA"@.is_prefix_of(code@)
            && !"PCJS"@.is_prefix_of(code@) && !"PLJM"@.is_prefix_of(code@)
            && !"PLJS"@.is_prefix_of(code@)),
{
    let s = code.as_str();
    if starts_with(s, "CUSA") || starts_with(s, "PCJS") || starts_with(s, "PLJM") || starts_with(s, "PLJS") {
        Some((IssueType::Game, code.clone()))
    } else if contains_id(labels, homebrew_tag) {
        if s.unicode_len() == 0 {
            Some((IssueType::Homebrew, String::from_str("HomeBrew")))
        } else {
            Some((IssueType::Homebrew, code.clone()))
        }
    } else {
        None
    }
}

/// Where the image of an issue is kept: a game's under its code in the game
/// images folder, a homebrew's under its title in the homebrew images folder.
pub open spec fn image_path_of(t: IssueType, code: Seq<char>, title: Seq<char>, c: Config) -> Seq<char> {
    match t {
        IssueType::Game => c.game_images_folder@ + code + ".avif"@,
        IssueType::Homebrew => c.homebrew_images_folder@ + title + ".avif"@,
    }
}

/// Where the image of an issue is kept.
pub fn image_path(t: IssueType, code: &str, title: &str, config: &Config) -> (r: String)
    ensures
        r@ == image_path_of(t, code@, title@, *config),
{
    match t {
        IssueType::Game => {
            let mut r = config.game_images_folder.clone();
            r.append(code);
            r.append(".avif");
            r
        },
        IssueType::Homebrew => {
            let mut r = config.homebrew_images_folder.clone();
            r.append(title);
            r.append(".avif");
            r
        },
    }
}

/// The fields every issue has, read from its JSON.
pub struct IssueFields {
    pub id: u64,
    pub title: String,
    pub updated: String,
    pub labels: Vec<u64>,
}

/// Whether an issue has a number, a title and an update time of the right kinds.
pub open spec fn has_fields(issue: JsonValue) -> bool {
    &&& as_u64(get_key(issue, "number"@)) is Some
    &&& as_text(get_key(issue, "title"@)) is Some
    &&& as_text(get_key(issue, "updated_at"@)) is Some
}

/// Whether `f` holds the fields of `issue`.
pub open spec fn fields_of(f: IssueFields, issue: JsonValue) -> bool {
    &&& Some(f.id) == as_u64(get_key(issue, "number"@))
    &&& Some(f.title@) == as_text(get_key(issue, "title"@))
    &&& Some(f.updated@) == as_text(get_key(issue, "updated_at"@))
    &&& f.labels@ == label_ids_of(issue)
}

/// The fields of an issue; nothing where one of them is missing.
pub fn read_issue(issue: &JsonValue) -> (r: Option<IssueFields>)
    ensures
        r is Some <==> has_fields(*issue),
        r matches Some(f) ==> fields_of(f, *issue),
{
    let id = match u64_member(issue, "number") {
        Some(n) => n,
        None => return None,
    };
    let title = match str_member(issue, "title") {
        Some(t) => t.clone(),
        None => return None,
    };
    let updated = match str_member(issue, "updated_at") {
        Some(t) => t.clone(),
        None => return None,
    };
    let labels = label_ids(issue);
    Some(IssueFields { id, title, updated, labels })
}

/// An issue that goes into the list, with everything known before its image is looked at.
pub struct PlannedIssue {
    pub id: u64,
    pub code: String,
    pub title: String,
    pub tag: StatusTag,
    pub issue_type: IssueType,
    pub updated: String,
    pub image_path: String,
}

/// What becomes of one issue of the tracker.
pub enum IssuePlan {
    /// It goes into the list.
    Keep(PlannedIssue),
    /// It is neither a game nor a homebrew; its cleaned title and code are reported.
    Skip { title: String, code: String },
}

/// Whether `p` is what becomes of an issue with these fields, whose title
/// yields the code `code`.
pub open spec fn is_plan(
    p: IssuePlan,
    id: u64,
    title: Seq<char>,
    updated: Seq<char>,
    labels: Seq<u64>,
    code: Seq<char>,
    c: Config,
) -> bool {
    let clean = cleaned_title(title, code);
    match classified(code, labels, c.tag_homebrew) {
        Some((t, listed)) => match p {
            IssuePlan::Keep(k) => {
                &&& k.id == id
                &&& k.code@ == listed
                &&& k.title@ == clean
                &&& k.tag == status_of(labels, c)
                &&& k.issue_type == t
                &&& k.updated@ == updated
                &&& k.image_path@ == image_path_of(t, listed, clean, c)
            },
            IssuePlan::Skip { .. } => false,
        },
        None => match p {
            IssuePlan::Skip { title: t, code: k } => t@ == clean && k@ == code,
            IssuePlan::Keep(_) => false,
        },
    }
}

/// What becomes of an issue with these fields, given what the code pattern
/// found in its title.
pub fn plan_fields(fields: IssueFields, found: Option<String>, config: &Config) -> (p: IssuePlan)
    ensures
        is_plan(p, fields.id, fields.title@, fields.updated@, fields.labels@,
            code_from_match(opt_chars(found)), *config),
        found matches Some(m) ==> (is_ascii_text(m@) ==> is_plan(p, fields.id, fields.title@,
            fields.updated@, fields.labels@, ascii_upper(m@), *config)),
{
    let tag = status_tag(&fields.labels, config);
    let (code, title) = code_and_title(fields.title.as_str(), found);
    match classify(&code, &fields.labels, config.tag_homebrew) {
        Some((t, listed)) => {
            let path = image_path(t, listed.as_str(), title.as_str(), config);
            IssuePlan::Keep(PlannedIssue {
                id: fields.id,
                code: listed,
                title,
                tag,
                issue_type: t,
                updated: fields.updated,
                image_path: path,
            })
        },
        None => IssuePlan::Skip { title, code },
    }
}


/// The text of a string member of an issue, empty where there is none.
pub open spec fn text_member(issue: JsonValue, key: Seq<char>) -> Seq<char> {
    match as_text(get_key(issue, key)) {
        Some(t) => t,
        None => Seq::empty(),
    }
}

/// The number of an issue, 0 where it has none.
pub open spec fn issue_number(issue: JsonValue) -> u64 {
    match as_u64(get_key(issue, "number"@)) {
        Some(n) => n,
        None => 0,
    }
}

/// What becomes of one issue of the tracker. An issue without a number, a
/// title or an update time is refused; otherwise its plan follows from its
/// fields and from the last code the code pattern finds in its title.
pub fn plan_issue(issue: &JsonValue, config: &Config) -> (r: Result<IssuePlan, IssueError>)
    ensures
        r is Err <==> !has_fields(*issue),
        r matches Err(e) ==> e is MissingField,
        r matches Ok(p) ==> is_plan(
            p,
            issue_number(*issue),
            text_member(*issue, "title"@),
            text_member(*issue, "updated_at"@),
            label_ids_of(*issue),
            title_code(text_member(*issue, "title"@)),
            *config,
        ),
{
    let fields = match read_issue(issue) {
        Some(f) => f,
        None => return Err(IssueError::MissingField),
    };
    let ghost title = fields.title@;
    match last_pattern_match(CODE_PATTERN, fields.title.as_str()) {
        Ok(found) => {
            proof {
                lemma_code_runs_are_codes(title, 0);
                let runs = code_runs(title);
                if runs.len() > 0 {
                    assert(is_ascii_text(runs[runs.len() - 1]));
                }
            }
            Ok(plan_fields(fields, found, config))
        },
        Err(e) => Err(e),
    }
}


/// A cleaned title neither begins nor ends with whitespace.
pub proof fn lemma_cleaned_title_trimmed(title: Seq<char>, code: Seq<char>)
    ensures
        cleaned_title(title, code).len() > 0 ==> !char_whitespace(cleaned_title(title, code)[0]),
        cleaned_title(title, code).len() > 0 ==> !char_whitespace(cleaned_title(title, code).last()),
{
    lemma_trim_ws_shape(trim_end_char(trim_ws(remove_all(title, code)), '-'));
}

/// A listed game keeps its code, which names a retail game; a listed homebrew
/// carries the homebrew label and a nonempty code; an issue that is neither
/// is left out.
pub proof fn lemma_listed_code(code: Seq<char>, labels: Seq<u64>, homebrew_tag: u64)
    ensures
        classified(code, labels, homebrew_tag) matches Some((IssueType::Game, c))
            ==> c == code && is_game_code(code),
        classified(code, labels, homebrew_tag) matches Some((IssueType::Homebrew, c))
            ==> c.len() > 0 && labels.contains(homebrew_tag) && !is_game_code(code),
        classified(code, labels, homebrew_tag) is None
            ==> !is_game_code(code) && !labels.contains(homebrew_tag),
{
    reveal_strlit("HomeBrew");
}


/// The status written with `name`, if any.
pub fn status_from_name(name: &str) -> (r: Option<StatusTag>)
    ensures
        match r {
            Some(t) => status_name(t) == name@,
            None => forall|t: StatusTag| status_name(t) != name@,
        },
{
    let n = String::from_str(name);
    if n == String::from_str("Playable") {
        Some(StatusTag::Playable)
    } else if n == String::from_str("InGame") {
        Some(StatusTag::InGame)
    } else if n == String::from_str("Intro") {
        Some(StatusTag::Intro)
    } else if n == String::from_str("Boots") {
        Some(StatusTag::Boots)
    } else if n == String::from_str("Nothing") {
        Some(StatusTag::Nothing)
    } else if n == String::from_str("N/A") {
        Some(StatusTag::Unknown)
    } else {
        None
    }
}

/// The kind written with `name`, if any.
pub fn kind_from_name(name: &str) -> (r: Option<IssueType>)
    ensures
        match r {
            Some(t) => kind_name(t) == name@,
            None => forall|t: IssueType| kind_name(t) != name@,
        },
{
    let n = String::from_str(name);
    if n == String::from_str("GAME") {
        Some(IssueType::Game)
    } else if n == String::from_str("HB") {
        Some(IssueType::Homebrew)
    } else {
        None
    }
}


/// Each status has a name of its own, so reading a written name gives the
/// status back.
pub proof fn lemma_status_names_distinct(a: StatusTag, b: StatusTag)
    ensures
        status_name(a) == status_name(b) ==> a == b,
{
    reveal_strlit("Playable");
    reveal_strlit("InGame");
    reveal_strlit("Intro");
    reveal_strlit("Boots");
    reveal_strlit("Nothing");
    reveal_strlit("N/A");
    if status_name(a) == status_name(b) && a != b {
        assert(status_name(a).len() == status_name(b).len());
        assert(status_name(a)[0] == status_name(b)[0]);
        assert(status_name(a)[1] == status_name(b)[1]);
    }
}

/// Each kind has a name of its own, so reading a written name gives the kind back.
pub proof fn lemma_kind_names_distinct(a: IssueType, b: IssueType)
    ensures
        kind_name(a) == kind_name(b) ==> a == b,
{
    reveal_strlit("GAME");
    reveal_strlit("HB");
    if kind_name(a) == kind_name(b) && a != b {
        assert(kind_name(a).len() == kind_name(b).len());
    }
}


/// The best label wins: playable over in game, in game over intro, intro over
/// boots, boots over nothing; without any of them the status is unknown.
pub proof fn lemma_best_label_wins(labels: Seq<u64>, c: Config)
    ensures
        labels.contains(c.tag_playable) ==> status_of(labels, c) == StatusTag::Playable,
        !labels.contains(c.tag_playable) && labels.contains(c.tag_ingame)
            ==> status_of(labels, c) == StatusTag::InGame,
        !labels.contains(c.tag_playable) && !labels.contains(c.tag_ingame)
            && labels.contains(c.tag_intro) ==> status_of(labels, c) == StatusTag::Intro,
        !labels.contains(c.tag_playable) && !labels.contains(c.tag_ingame)
            && !labels.contains(c.tag_intro) && labels.contains(c.tag_boots)
            ==> status_of(labels, c) == StatusTag::Boots,
        !labels.contains(c.tag_playable) && !labels.contains(c.tag_ingame)
            && !labels.contains(c.tag_intro) && !labels.contains(c.tag_boots)
            && labels.contains(c.tag_nothing) ==> status_of(labels, c) == StatusTag::Nothing,
        status_of(labels, c) == StatusTag::Unknown ==> !labels.contains(c.tag_playable)
            && !labels.contains(c.tag_ingame) && !labels.contains(c.tag_intro)
            && !labels.contains(c.tag_boots) && !labels.contains(c.tag_nothing),
{
}

/// Every code that begins with CUSA, PCJS, PLJM or PLJS is listed as a game
/// under that code, whatever follows and whatever the labels; no other code is.
pub proof fn lemma_retail_prefix_is_game(code: Seq<char>, labels: Seq<u64>, homebrew_tag: u64)
    ensures
        ("CUSA"@.is_prefix_of(code) || "PCJS"@.is_prefix_of(code) || "PLJM"@.is_prefix_of(code)
            || "PLJS"@.is_prefix_of(code))
            ==> classified(code, labels, homebrew_tag) == Some((IssueType::Game, code)),
        classified(code, labels, homebrew_tag) matches Some((t, _)) ==> (t == IssueType::Game <==> (
            "CUSA"@.is_prefix_of(code) || "PCJS"@.is_prefix_of(code) || "PLJM"@.is_prefix_of(code)
            || "PLJS"@.is_prefix_of(code))),
{
}

} // verus!
