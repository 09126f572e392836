//! The configured feed list and the paths the process keeps it under.
//!
//! Configuration is handed in from outside as plain values: an ordered list
//! of feed names. This module says what a usable list is (non-empty, no
//! blank names), builds the default list, and computes the locations of the
//! configuration file and the sink file under the application's home
//! directory. Reading and writing those files is outside work.

use vstd::prelude::*;
use vstd::string::*;

verus! {

/// A feed list is usable when it names at least one feed and no name is
/// blank.
pub open spec fn feeds_valid(feeds: Seq<String>) -> bool {
    &&& feeds.len() > 0
    &&& forall|i: int| 0 <= i < feeds.len() ==> (#[trigger] feeds[i])@.len() > 0
}

/// True exactly when `feeds` is usable: non-empty and free of blank names.
pub fn feeds_are_valid(feeds: &Vec<String>) -> (ok: bool)
    ensures
        ok == feeds_valid(feeds@),
{
    if feeds.len() == 0 {
        return false;
    }
    let mut i: usize = 0;
    while i < feeds.len()
        invariant
            i <= feeds@.len(),
            forall|j: int| 0 <= j < i ==> (#[trigger] feeds@[j])@.len() > 0,
        decreases feeds@.len() - i,
    {
        if feeds[i].as_str().is_empty() {
            return false;
        }
        i = i + 1;
    }
    true
}

/// The configured feed list.
pub struct Config {
    pub subreddits: Vec<String>,
}

impl Config {
    /// True exactly when the configured list is usable: non-empty and free
    /// of blank names.
    pub fn validate(&self) -> (ok: bool)
        ensures
            ok == feeds_valid(self.subreddits@),
    {
        feeds_are_valid(&self.subreddits)
    }

    /// The configuration a fresh installation starts from: two well-known
    /// feeds, in a fixed order.
    pub fn init(&self) -> (c: Config)
        ensures
            c.subreddits@.len() == 2,
            c.subreddits@[0]@ == "politics"@,
            c.subreddits@[1]@ == "movies"@,
            feeds_valid(c.subreddits@),
    {
        proof {
            reveal_strlit("politics");
            reveal_strlit("movies");
        }
        let mut subreddits: Vec<String> = Vec::new();
        subreddits.push(String::from_str("politics"));
        subreddits.push(String::from_str("movies"));
        Config { subreddits }
    }
}

/// The application's home directory: the environment override when one is
/// set, otherwise a fixed directory under the user's home.
pub fn get_polybar_reddit_home_dir(env_override: Option<String>, home_dir: &str) -> (dir: String)
    ensures
        match env_override {
            Option::Some(v) => dir@ == v@,
            Option::None => dir@ == home_dir@ + "/.polybarreddit"@,
        },
{
    match env_override {
        Option::Some(v) => v,
        Option::None => {
            let mut dir = String::from_str(home_dir);
            dir.append("/.polybarreddit");
            dir
        },
    }
}

/// The path of the configuration file under the application's home
/// directory.
pub fn get_global_config_path(app_home: &str) -> (p: String)
    ensures
        p@ == app_home@ + "/config/"@ + "default.toml"@,
{
    let mut p = String::from_str(app_home);
    p.append("/config/");
    p.append("default.toml");
    p
}

/// The path of the sink file the display loop overwrites, under the
/// application's home directory.
pub fn get_saved_path(app_home: &str) -> (p: String)
    ensures
        p@ == app_home@ + "/config/"@ + "current_post.txt"@,
{
    let mut p = String::from_str(app_home);
    p.append("/config/");
    p.append("current_post.txt");
    p
}

} // verus!
