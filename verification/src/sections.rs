//! The sectioned form of the settings, with keys, locations and label ids
//! each in a table of their own.

use vstd::prelude::*;

verus! {

/// Settings grouped in three tables.
pub struct Config {
    pub keys: Keys,
    pub locations: Locations,
    pub ids: Ids,
}

/// Addresses and credentials of the services.
pub struct Keys {
    pub compat_github_url: String,
    pub github_url: String,
    pub github_token: String,
    pub homebrew_token: String,
    pub ps4_useragent: String,
    pub tmdb_hash: String,
    pub workflow_url: String,
}

/// Where images, databases and statistics are kept.
pub struct Locations {
    pub games_folder: String,
    pub homebrew_folder: String,
    pub homebrew_database: String,
    pub database: String,
    pub stats_folder: String,
}

/// Label ids of the issue tracker.
pub struct Ids {
    pub homebrew: u64,
    pub playable: u64,
    pub ingame: u64,
    pub intro: u64,
    pub boots: u64,
    pub nothing: u64,
}

/// The sectioned settings written when there are none yet.
pub open spec fn is_default_config(c: Config) -> bool {
    &&& c.keys.compat_github_url@ == "https://api.github.com/repos/obhq/compatibility"@
    &&& c.keys.github_url@ == "https://api.github.com/repos/obhq/obliteration"@
    &&& c.keys.github_token@ == ""@
    &&& c.keys.homebrew_token@ == ""@
    &&& c.keys.ps4_useragent@
        == "Mozilla/5.0 (PlayStation; PlayStation 4/11.00) AppleWebKit/605.1.15 (KHTML, like Gecko) Version/15.4 Safari/605.1.15"@
    &&& c.keys.tmdb_hash@ == ""@
    &&& c.keys.workflow_url@
        == "https://api.github.com/repos/obhq/obliteration/actions/workflows/36859008/runs"@
    &&& c.locations.games_folder@ == "./images/games/"@
    &&& c.locations.homebrew_folder@ == "./images/hb/"@
    &&& c.locations.homebrew_database@ == "./HBstore.db"@
    &&& c.locations.database@ == "./main.db"@
    &&& c.locations.stats_folder@ == ""@
    &&& c.ids.homebrew == 6164722453
    &&& c.ids.playable == 6164497050
    &&& c.ids.ingame == 6164500133
    &&& c.ids.intro == 6164505028
    &&& c.ids.boots == 6164509950
    &&& c.ids.nothing == 6164514963
}

/// The sectioned settings a first run starts from.
pub fn default_config() -> (c: Config)
    ensures
        is_default_config(c),
{
    Config {
        keys: Keys {
            compat_github_url: String::from_str("https://api.github.com/repos/obhq/compatibility"),
            github_url: String::from_str("https://api.github.com/repos/obhq/obliteration"),
            github_token: String::from_str(""),
            homebrew_token: String::from_str(""),
            ps4_useragent: String::from_str(
                "Mozilla/5.0 (PlayStation; PlayStation 4/11.00) AppleWebKit/605.1.15 (KHTML, like Gecko) Version/15.4 Safari/605.1.15",
            ),
            tmdb_hash: String::from_str(""),
            workflow_url: String::from_str(
                "https://api.github.com/repos/obhq/obliteration/actions/workflows/36859008/runs",
            ),
        },
        locations: Locations {
            games_folder: String::from_str("./images/games/"),
            homebrew_folder: String::from_str("./images/hb/"),
            homebrew_database: String::from_str("./HBstore.db"),
            database: String::from_str("./main.db"),
            stats_folder: String::from_str(""),
        },
        ids: Ids {
            homebrew: 6164722453,
            playable: 6164497050,
            ingame: 6164500133,
            intro: 6164505028,
            boots: 6164509950,
            nothing: 6164514963,
        },
    }
}

/// The statistics file inside `folder`: the folder's text followed by `stats.json`.
pub fn stats_file_path(folder: &str) -> (r: String)
    ensures
        r@ == folder@ + "stats.json"@,
{
    let mut r = String::from_str(folder);
    r.append("stats.json");
    r
}

impl Config {
    /// The folders a run needs before it starts: images of games, images of
    /// homebrews, and statistics, in that order.
    pub fn folders(&self) -> (r: Vec<String>)
        ensures
            r@.len() == 3,
            r@[0]@ == self.locations.games_folder@,
            r@[1]@ == self.locations.homebrew_folder@,
            r@[2]@ == self.locations.stats_folder@,
    {
        let mut r: Vec<String> = Vec::new();
        r.push(self.locations.games_folder.clone());
        r.push(self.locations.homebrew_folder.clone());
        r.push(self.locations.stats_folder.clone());
        r
    }
}

} // verus!
