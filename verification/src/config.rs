//! The updater's settings: where it reads from, where it writes to, and the
//! label ids of the issue tracker that mark an issue's status.

use vstd::prelude::*;

verus! {

/// Settings of one run, as `config/config.toml` holds them.
pub struct Config {
    pub compat_api_url: String,
    pub main_api_url: String,
    pub github_api_token: String,
    pub homebrew_token: String,
    pub ps4_useragent: String,
    pub tmdb_hex: String,
    pub workflow_url: String,

    pub game_images_folder: String,
    pub homebrew_images_folder: String,
    pub homebrew_database: String,
    pub game_skips_database: String,
    pub database: String,
    pub stats_file: String,

    pub tag_homebrew: u64,
    pub tag_playable: u64,
    pub tag_ingame: u64,
    pub tag_intro: u64,
    pub tag_boots: u64,
    pub tag_nothing: u64,
}

/// The credentials that a run sends along with its requests.
pub struct Secrets {
    pub github_api_token: String,
    pub homebrew_api_token: String,
    pub tmdb_hex: String,
}

/// The settings written to `config/config.toml` when there is none yet.
pub open spec fn is_default_config(c: Config) -> bool {
    &&& c.compat_api_url@ == "https://api.github.com/repos/obhq/compatibility"@
    &&& c.main_api_url@ == "https://api.github.com/repos/obhq/obliteration"@
    &&& c.github_api_token@ == ""@
    &&& c.homebrew_token@ == ""@
    &&& c.ps4_useragent@
        == "Mozilla/5.0 (PlayStation; PlayStation 4/11.00) AppleWebKit/605.1.15 (KHTML, like Gecko) Version/15.4 Safari/605.1.15"@
    &&& c.tmdb_hex@ == ""@
    &&& c.workflow_url@
        == "https://api.github.com/repos/obhq/obliteration/actions/workflows/36859008/runs"@
    &&& c.game_images_folder@ == "./images/games/"@
    &&& c.homebrew_images_folder@ == "./images/hb/"@
    &&& c.homebrew_database@ == "./HBstore.db"@
    &&& c.game_skips_database@ == "./game_skips.json"@
    &&& c.database@ == "./database.json"@
    &&& c.stats_file@ == "./stats.json"@
    &&& c.tag_homebrew == 6164722453
    &&& c.tag_playable == 6164497050
    &&& c.tag_ingame == 6164500133
    &&& c.tag_intro == 6164505028
    &&& c.tag_boots == 6164509950
    &&& c.tag_nothing == 6164514963
}

/// The settings a first run starts from.
pub fn default_config() -> (c: Config)
    ensures
        is_default_config(c),
{
    Config {
        compat_api_url: String::from_str("https://api.github.com/repos/obhq/compatibility"),
        main_api_url: String::from_str("https://api.github.com/repos/obhq/obliteration"),
        github_api_token: String::from_str(""),
        homebrew_token: String::from_str(""),
        ps4_useragent: String::from_str(
            "Mozilla/5.0 (PlayStation; PlayStation 4/11.00) AppleWebKit/605.1.15 (KHTML, like Gecko) Version/15.4 Safari/605.1.15",
        ),
        tmdb_hex: String::from_str(""),
        workflow_url: String::from_str(
            "https://api.github.com/repos/obhq/obliteration/actions/workflows/36859008/runs",
        ),
        game_images_folder: String::from_str("./images/games/"),
        homebrew_images_folder: String::from_str("./images/hb/"),
        homebrew_database: String::from_str("./HBstore.db"),
        game_skips_database: String::from_str("./game_skips.json"),
        database: String::from_str("./database.json"),
        stats_file: String::from_str("./stats.json"),
        tag_homebrew: 6164722453,
        tag_playable: 6164497050,
        tag_ingame: 6164500133,
        tag_intro: 6164505028,
        tag_boots: 6164509950,
        tag_nothing: 6164514963,
    }
}

/// The folder that holds `path`: the path without its last component, as
/// `std::path::Path::parent` gives it; nothing for a root or an empty path.
pub uninterp spec fn path_parent(path: Seq<char>) -> Option<Seq<char>>;

/// Trusted: `std::path::Path::parent` of the path `path`, as text, named
/// `path_parent`; the component rules of `Path` are not restated.
#[verifier::external_body]
pub(crate) fn parent_folder(path: &str) -> (r: Option<String>)
    ensures
        match r {
            Some(p) => path_parent(path@) == Some(p@),
            None => path_parent(path@) is None,
        },
{
    match std::path::Path::new(path).parent() {
        Some(p) => Some(p.to_string_lossy().into_owned()),
        None => None,
    }
}

/// The folders a run writes into, in the order they are created: images of
/// games, images of homebrews, then the folders of the database, the homebrew
/// database, the skip list and the statistics file. Nothing where one of
/// those four files has no folder.
pub open spec fn folders_of(c: Config) -> Option<Seq<Seq<char>>> {
    match (
        path_parent(c.database@),
        path_parent(c.homebrew_database@),
        path_parent(c.game_skips_database@),
        path_parent(c.stats_file@),
    ) {
        (Some(a), Some(b), Some(d), Some(e)) => Some(
            seq![c.game_images_folder@, c.homebrew_images_folder@, a, b, d, e],
        ),
        _ => None,
    }
}

impl Config {
    /// The folders a run writes into; nothing where a file has no folder.
    pub fn folders(&self) -> (r: Option<Vec<String>>)
        ensures
            match r {
                Some(v) => folders_of(*self) == Some(v@.map_values(|s: String| s@)),
                None => folders_of(*self) is None,
            },
    {
        let database = match parent_folder(self.database.as_str()) {
            Some(p) => p,
            None => return None,
        };
        let homebrew_database = match parent_folder(self.homebrew_database.as_str()) {
            Some(p) => p,
            None => return None,
        };
        let game_skips_database = match parent_folder(self.game_skips_database.as_str()) {
            Some(p) => p,
            None => return None,
        };
        let stats_file = match parent_folder(self.stats_file.as_str()) {
            Some(p) => p,
            None => return None,
        };
        let mut r: Vec<String> = Vec::new();
        r.push(self.game_images_folder.clone());
        r.push(self.homebrew_images_folder.clone());
        r.push(database);
        r.push(homebrew_database);
        r.push(game_skips_database);
        r.push(stats_file);
        assert(r@.map_values(|s: String| s@) =~= seq![
            self.game_images_folder@,
            self.homebrew_images_folder@,
            path_parent(self.database@)->0,
            path_parent(self.homebrew_database@)->0,
            path_parent(self.game_skips_database@)->0,
            path_parent(self.stats_file@)->0,
        ]);
        Some(r)
    }

    /// The credentials this configuration carries.
    pub fn secrets(&self) -> (s: Secrets)
        ensures
            s.github_api_token@ == self.github_api_token@,
            s.homebrew_api_token@ == self.homebrew_token@,
            s.tmdb_hex@ == self.tmdb_hex@,
    {
        Secrets {
            github_api_token: self.github_api_token.clone(),
            homebrew_api_token: self.homebrew_token.clone(),
            tmdb_hex: self.tmdb_hex.clone(),
        }
    }
}

} // verus!
