use updater::artwork::{icon_url, tmdb_url, tmdb_url_for_key, tmdb_url_with_hash, ArtworkError};
use updater::config::default_config;
use updater::github::authorization;
use updater::homebrew::{
    current_minute, hash_check_due, hash_check_due_now, local_hash, needs_download, remote_hash, HomebrewError,
};
use updater::json::{JsonMember, JsonValue};
use updater::sections;
use updater::stats::{latest_run_number, open_issue_count, star_count, stats_from_counts};

fn s(t: &str) -> JsonValue {
    JsonValue::Str(t.to_string())
}

fn obj(members: Vec<(&str, JsonValue)>) -> JsonValue {
    JsonValue::Object(
        members
            .into_iter()
            .map(|(k, v)| JsonMember { key: k.to_string(), value: v })
            .collect(),
    )
}

const SIGNED_URL: &str = "https://tmdb.np.dl.playstation.net/tmdb2/CUSA00001_00_460D57CACCCB4840BE250C070CA5CD92D7553CEC/CUSA00001_00.json";

#[test]
fn tmdb_url_signs_the_image_code() {
    assert_eq!(tmdb_url("CUSA00001", "0a1b2c3d").ok().unwrap(), SIGNED_URL);
    assert_eq!(tmdb_url("CUSA00001", "0A1B2C3D").ok().unwrap(), SIGNED_URL);
}

#[test]
fn tmdb_url_for_raw_key() {
    assert_eq!(tmdb_url_for_key("CUSA00001", &[0x0a, 0x1b, 0x2c, 0x3d]), SIGNED_URL);
}

#[test]
fn tmdb_url_from_a_hash() {
    assert_eq!(
        tmdb_url_with_hash("X_00", "AB"),
        "https://tmdb.np.dl.playstation.net/tmdb2/X_00_AB/X_00.json"
    );
}

#[test]
fn a_key_that_is_not_hex_is_refused() {
    assert_eq!(tmdb_url("CUSA00001", "0a1"), Err(ArtworkError::BadKey));
    assert_eq!(tmdb_url("CUSA00001", "zz"), Err(ArtworkError::BadKey));
    assert_eq!(tmdb_url("CUSA00001", "é0"), Err(ArtworkError::BadKey));
}

#[test]
fn an_empty_key_still_signs() {
    assert!(tmdb_url("CUSA00001", "").is_ok());
}

#[test]
fn icon_url_from_metadata() {
    let meta = obj(vec![(
        "icons",
        JsonValue::Array(vec![obj(vec![("icon", s("https://img/1.png"))]), obj(vec![("icon", s("2"))])]),
    )]);
    assert_eq!(icon_url(&meta).ok().unwrap(), "https://img/1.png");
    assert_eq!(icon_url(&obj(vec![("icons", JsonValue::Array(vec![]))])), Err(ArtworkError::NoIcon));
    assert_eq!(icon_url(&obj(vec![])), Err(ArtworkError::NoIcon));
    let no_text = obj(vec![("icons", JsonValue::Array(vec![obj(vec![("icon", JsonValue::PosInt(1))])]))]);
    assert_eq!(icon_url(&no_text), Err(ArtworkError::NoIcon));
}

#[test]
fn hash_check_window() {
    assert!(hash_check_due(0, true));
    assert!(hash_check_due(3, true));
    assert!(!hash_check_due(4, true));
    assert!(!hash_check_due(57, true));
    assert!(hash_check_due(58, true));
    assert!(hash_check_due(30, false));
    assert_eq!(hash_check_due_now(false), Some(true));
    assert!(hash_check_due_now(true).is_some());
}

#[test]
fn hashes_of_the_store_database() {
    assert_eq!(local_hash(Some(b"hello")), "5d41402abc4b2a76b9719d911017c592");
    assert_eq!(local_hash(Some(b"")), "d41d8cd98f00b204e9800998ecf8427e");
    assert_eq!(local_hash(None), "0");
    assert_eq!(remote_hash(&obj(vec![("hash", s("abc"))])).ok().unwrap(), "abc");
    assert!(matches!(remote_hash(&obj(vec![("hash", JsonValue::Null)])), Err(HomebrewError::NoHash)));
    assert!(needs_download(&"abc".to_string(), &"0".to_string()));
    assert!(!needs_download(&"abc".to_string(), &"abc".to_string()));
}

#[test]
fn statistics_are_decimal_text() {
    let st = stats_from_counts(12, 0, 18446744073709551615);
    assert_eq!(st.stars, "12");
    assert_eq!(st.issues, "0");
    assert_eq!(st.devbuilds, "18446744073709551615");
}

#[test]
fn statistics_counts_from_answers() {
    let repo = obj(vec![("stargazers_count", JsonValue::PosInt(5)), ("open_issues_count", JsonValue::PosInt(250))]);
    assert_eq!(star_count(&repo), Some(5));
    assert_eq!(open_issue_count(&repo), Some(250));
    assert_eq!(star_count(&obj(vec![])), None);
    let runs = obj(vec![(
        "workflow_runs",
        JsonValue::Array(vec![obj(vec![("run_number", JsonValue::PosInt(77))]), obj(vec![("run_number", JsonValue::PosInt(76))])]),
    )]);
    assert_eq!(latest_run_number(&runs), Some(77));
    assert_eq!(latest_run_number(&obj(vec![("workflow_runs", JsonValue::Array(vec![]))])), None);
    assert_eq!(latest_run_number(&obj(vec![])), None);
}

#[test]
fn authorization_header() {
    assert_eq!(authorization("tok"), "Bearer tok");
    assert_eq!(authorization(""), "Bearer ");
}

#[test]
fn default_settings() {
    let c = default_config();
    assert_eq!(c.compat_api_url, "https://api.github.com/repos/obhq/compatibility");
    assert_eq!(c.main_api_url, "https://api.github.com/repos/obhq/obliteration");
    assert_eq!(c.database, "./database.json");
    assert_eq!(c.game_skips_database, "./game_skips.json");
    assert_eq!(c.tag_homebrew, 6164722453);
    assert_eq!(c.tag_nothing, 6164514963);
    let sec = c.secrets();
    assert_eq!(sec.github_api_token, "");
    assert_eq!(sec.tmdb_hex, "");
}

#[test]
fn default_sectioned_settings() {
    let c = sections::default_config();
    assert_eq!(c.keys.compat_github_url, "https://api.github.com/repos/obhq/compatibility");
    assert_eq!(c.locations.database, "./main.db");
    assert_eq!(c.locations.stats_folder, "");
    assert_eq!(c.ids.playable, 6164497050);
    assert_eq!(c.folders(), vec!["./images/games/".to_string(), "./images/hb/".to_string(), "".to_string()]);
    assert_eq!(sections::stats_file_path("./site/"), "./site/stats.json");
    assert_eq!(sections::stats_file_path(""), "stats.json");
}

#[test]
fn current_minute_is_below_sixty() {
    let m = current_minute().unwrap();
    assert!(m < 60);
}

#[test]
fn folders_of_the_flat_settings() {
    let c = default_config();
    assert_eq!(
        c.folders().unwrap(),
        vec!["./images/games/", "./images/hb/", ".", ".", ".", "."]
            .into_iter()
            .map(|s| s.to_string())
            .collect::<Vec<_>>()
    );
    let mut d = default_config();
    d.database = "/".to_string();
    assert!(d.folders().is_none());
    let mut e = default_config();
    e.stats_file = "site/data/stats.json".to_string();
    assert_eq!(e.folders().unwrap()[5], "site/data");
}

#[test]
fn thumbnail_refuses_bytes_that_are_no_image() {
    assert_eq!(updater::artwork::thumbnail(b"not an image"), Err(ArtworkError::BadImage));
    assert_eq!(updater::artwork::thumbnail(&[]), Err(ArtworkError::BadImage));
}

#[test]
fn thumbnail_of_a_png_is_avif() {
    let picture = image::RgbImage::from_fn(8, 4, |x, y| image::Rgb([(x * 30) as u8, (y * 60) as u8, 90]));
    let mut png: Vec<u8> = Vec::new();
    image::DynamicImage::ImageRgb8(picture)
        .write_to(std::io::Cursor::new(&mut png), image::ImageFormat::Png)
        .unwrap();
    let avif = updater::artwork::thumbnail(&png).ok().unwrap();
    assert_eq!(&avif[4..8], b"ftyp");
    assert_eq!(&avif[8..12], b"avif");
}

#[test]
fn signatures_are_forty_upper_case_hex_digits() {
    for code in ["CUSA00001", "PLJS12345", ""] {
        let url = tmdb_url_for_key(code, &[1, 2, 3]);
        let hash = url.split('/').nth(4).unwrap().rsplit('_').next().unwrap().to_string();
        assert_eq!(hash.len(), 40);
        assert!(hash.chars().all(|c| c.is_ascii_digit() || ('A'..='F').contains(&c)));
    }
}
