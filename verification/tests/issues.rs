use updater::config::{default_config, Config};
use updater::issue::{
    classify, clean_title, code_and_title, kind_from_name, status_from_name, contains_id, image_path, label_ids, plan_fields, plan_issue,
    read_issue, split_code, status_tag, IssueError, IssueFields, IssuePlan, IssueType, StatusTag,
};
use updater::json::{JsonMember, JsonValue};

fn s(t: &str) -> JsonValue {
    JsonValue::Str(t.to_string())
}

fn obj(members: Vec<(&str, JsonValue)>) -> JsonValue {
    JsonValue::Object(
        members
            .into_iter()
            .map(|(k, v)| JsonMember { key: k.to_string(), value: v })
            .collect(),
    )
}

fn labels(ids: &[u64]) -> JsonValue {
    JsonValue::Array(ids.iter().map(|i| obj(vec![("id", JsonValue::PosInt(*i))])).collect())
}

fn issue(number: u64, title: &str, label_ids: &[u64]) -> JsonValue {
    obj(vec![
        ("number", JsonValue::PosInt(number)),
        ("title", s(title)),
        ("updated_at", s("2024-05-01T10:00:00Z")),
        ("labels", labels(label_ids)),
    ])
}

fn config() -> Config {
    default_config()
}

#[test]
fn code_is_taken_from_the_end_of_the_title() {
    let (code, title) = split_code("Bloodborne - CUSA00900").ok().unwrap();
    assert_eq!(code, "CUSA00900");
    assert_eq!(title, "Bloodborne");
}

#[test]
fn the_last_code_wins() {
    let (code, title) = split_code("Game CUSA00001 - CUSA00002").ok().unwrap();
    assert_eq!(code, "CUSA00002");
    assert_eq!(title, "Game CUSA00001");
}

#[test]
fn a_lower_case_code_is_upper_cased_but_stays_in_the_title() {
    let (code, title) = split_code("My Game - cusa00001").ok().unwrap();
    assert_eq!(code, "CUSA00001");
    assert_eq!(title, "My Game - cusa00001");
}

#[test]
fn a_title_without_code_is_only_trimmed() {
    let (code, title) = split_code("  Homebrew Thing -  ").ok().unwrap();
    assert_eq!(code, "");
    assert_eq!(title, "Homebrew Thing");
}

#[test]
fn code_and_title_from_a_found_match() {
    let (code, title) = code_and_title("Game - abcd12345", Some("abcd12345".to_string()));
    assert_eq!(code, "ABCD12345");
    assert_eq!(title, "Game - abcd12345");
    let (code, title) = code_and_title(" x ", None);
    assert_eq!(code, "");
    assert_eq!(title, "x");
}

#[test]
fn clean_title_removes_every_occurrence_then_trims() {
    assert_eq!(clean_title("A CUSA1 B CUSA1 -", "CUSA1"), "A  B");
    assert_eq!(clean_title("-- x --", ""), "-- x");
}

#[test]
fn status_follows_label_priority() {
    let c = config();
    assert_eq!(status_tag(&vec![c.tag_nothing, c.tag_playable], &c), StatusTag::Playable);
    assert_eq!(status_tag(&vec![c.tag_boots, c.tag_ingame], &c), StatusTag::InGame);
    assert_eq!(status_tag(&vec![c.tag_intro, c.tag_boots], &c), StatusTag::Intro);
    assert_eq!(status_tag(&vec![c.tag_boots], &c), StatusTag::Boots);
    assert_eq!(status_tag(&vec![c.tag_nothing, 1], &c), StatusTag::Nothing);
    assert_eq!(status_tag(&vec![1, 2], &c), StatusTag::Unknown);
    assert_eq!(status_tag(&vec![], &c), StatusTag::Unknown);
}

#[test]
fn status_and_kind_names() {
    assert_eq!(StatusTag::Playable.name(), "Playable");
    assert_eq!(StatusTag::InGame.name(), "InGame");
    assert_eq!(StatusTag::Intro.name(), "Intro");
    assert_eq!(StatusTag::Boots.name(), "Boots");
    assert_eq!(StatusTag::Nothing.name(), "Nothing");
    assert_eq!(StatusTag::Unknown.name(), "N/A");
    assert_eq!(IssueType::Game.name(), "GAME");
    assert_eq!(IssueType::Homebrew.name(), "HB");
}

#[test]
fn label_ids_default_to_zero() {
    let v = obj(vec![(
        "labels",
        JsonValue::Array(vec![
            obj(vec![("id", JsonValue::PosInt(5))]),
            obj(vec![("name", s("x"))]),
            obj(vec![("id", JsonValue::NegInt(-1))]),
        ]),
    )]);
    assert_eq!(label_ids(&v), vec![5, 0, 0]);
    assert_eq!(label_ids(&obj(vec![("labels", s("none"))])), Vec::<u64>::new());
    assert_eq!(label_ids(&JsonValue::Null), Vec::<u64>::new());
}

#[test]
fn contains_id_finds_members() {
    assert!(contains_id(&vec![3, 4, 5], 5));
    assert!(!contains_id(&vec![3, 4, 5], 6));
}

#[test]
fn retail_prefixes_make_a_game() {
    for code in ["CUSA00001", "PCJS12345", "PLJM00001", "PLJS99999"] {
        let (t, c) = classify(&code.to_string(), &vec![], 1).unwrap();
        assert_eq!(t, IssueType::Game);
        assert_eq!(c, code);
    }
}

#[test]
fn homebrew_label_makes_a_homebrew() {
    let (t, c) = classify(&"".to_string(), &vec![7], 7).unwrap();
    assert_eq!(t, IssueType::Homebrew);
    assert_eq!(c, "HomeBrew");
    let (t, c) = classify(&"ABCD12345".to_string(), &vec![7], 7).unwrap();
    assert_eq!(t, IssueType::Homebrew);
    assert_eq!(c, "ABCD12345");
}

#[test]
fn neither_game_nor_homebrew_is_left_out() {
    assert!(classify(&"ABCD12345".to_string(), &vec![1], 7).is_none());
}

#[test]
fn image_paths_by_kind() {
    let c = config();
    assert_eq!(image_path(IssueType::Game, "CUSA00001", "T", &c), "./images/games/CUSA00001.avif");
    assert_eq!(image_path(IssueType::Homebrew, "X", "My App", &c), "./images/hb/My App.avif");
}

#[test]
fn read_issue_needs_number_title_and_update_time() {
    let f = read_issue(&issue(12, "T", &[3])).unwrap();
    assert_eq!(f.id, 12);
    assert_eq!(f.title, "T");
    assert_eq!(f.updated, "2024-05-01T10:00:00Z");
    assert_eq!(f.labels, vec![3]);
    assert!(read_issue(&obj(vec![("title", s("T")), ("updated_at", s("u"))])).is_none());
    assert!(read_issue(&obj(vec![("number", JsonValue::PosInt(1)), ("updated_at", s("u"))])).is_none());
    assert!(read_issue(&obj(vec![("number", JsonValue::PosInt(1)), ("title", s("T"))])).is_none());
}

#[test]
fn plan_of_a_game_issue() {
    let c = config();
    match plan_issue(&issue(42, "Bloodborne - CUSA00900", &[c.tag_playable]), &c) {
        Ok(IssuePlan::Keep(p)) => {
            assert_eq!(p.id, 42);
            assert_eq!(p.code, "CUSA00900");
            assert_eq!(p.title, "Bloodborne");
            assert_eq!(p.tag, StatusTag::Playable);
            assert_eq!(p.issue_type, IssueType::Game);
            assert_eq!(p.updated, "2024-05-01T10:00:00Z");
            assert_eq!(p.image_path, "./images/games/CUSA00900.avif");
        }
        _ => panic!("expected a kept issue"),
    }
}

#[test]
fn plan_of_a_homebrew_issue() {
    let c = config();
    match plan_issue(&issue(7, " Cool App - ", &[c.tag_homebrew, c.tag_boots]), &c) {
        Ok(IssuePlan::Keep(p)) => {
            assert_eq!(p.code, "HomeBrew");
            assert_eq!(p.title, "Cool App");
            assert_eq!(p.tag, StatusTag::Boots);
            assert_eq!(p.issue_type, IssueType::Homebrew);
            assert_eq!(p.image_path, "./images/hb/Cool App.avif");
        }
        _ => panic!("expected a kept issue"),
    }
}

#[test]
fn plan_of_an_unknown_issue_is_a_skip() {
    let c = config();
    match plan_issue(&issue(8, "Random - ABCD12345", &[c.tag_intro]), &c) {
        Ok(IssuePlan::Skip { title, code }) => {
            assert_eq!(title, "Random");
            assert_eq!(code, "ABCD12345");
        }
        _ => panic!("expected a skip"),
    }
}

#[test]
fn plan_of_an_issue_without_number_is_refused() {
    let c = config();
    let v = obj(vec![("title", s("x")), ("updated_at", s("y"))]);
    assert!(matches!(plan_issue(&v, &c), Err(IssueError::MissingField)));
}

#[test]
fn plan_fields_uses_the_given_match() {
    let c = config();
    let f = IssueFields { id: 1, title: "A - PLJM00001".to_string(), updated: "u".to_string(), labels: vec![] };
    match plan_fields(f, Some("PLJM00001".to_string()), &c) {
        IssuePlan::Keep(p) => {
            assert_eq!(p.code, "PLJM00001");
            assert_eq!(p.title, "A");
            assert_eq!(p.tag, StatusTag::Unknown);
        }
        _ => panic!("expected a kept issue"),
    }
}

#[test]
fn written_names_read_back() {
    for t in [StatusTag::Playable, StatusTag::InGame, StatusTag::Intro, StatusTag::Boots, StatusTag::Nothing, StatusTag::Unknown] {
        assert_eq!(status_from_name(&t.name()), Some(t));
    }
    for k in [IssueType::Game, IssueType::Homebrew] {
        assert_eq!(kind_from_name(&k.name()), Some(k));
    }
    assert_eq!(status_from_name("playable"), None);
    assert_eq!(kind_from_name("Game"), None);
}

#[test]
fn last_pattern_match_finds_the_last_and_refuses_bad_patterns() {
    assert_eq!(
        updater::issue::last_pattern_match("[0-9]+", "a1 b22 c333").ok().unwrap(),
        Some("333".to_string())
    );
    assert_eq!(updater::issue::last_pattern_match("[0-9]+", "none").ok().unwrap(), None);
    assert!(matches!(updater::issue::last_pattern_match("(", "x"), Err(IssueError::BadPattern)));
    assert_eq!(updater::issue::CODE_PATTERN, "[a-zA-Z]{4}[0-9]{5}");
}

#[test]
fn codes_are_read_left_to_right_without_overlap() {
    let (code, title) = split_code("ABCD12345678901").ok().unwrap();
    assert_eq!(code, "ABCD12345");
    assert_eq!(title, "678901");
    let (code, _) = split_code("xABCDE12345").ok().unwrap();
    assert_eq!(code, "BCDE12345");
    let (code, _) = split_code("ABCD1234").ok().unwrap();
    assert_eq!(code, "");
    let (code, _) = split_code("ÄBCD12345 abcd123456").ok().unwrap();
    assert_eq!(code, "ABCD12345");
}
