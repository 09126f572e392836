//! Construction of the two endpoint URLs a feed exposes: the JSON listing
//! endpoint, limited to a fixed item count, and the bare health endpoint.

use vstd::prelude::*;
use vstd::string::*;

verus! {

/// The character sequence of the listing URL for the feed named `name`.
pub open spec fn json_url_view(name: Seq<char>) -> Seq<char> {
    "https://www.reddit.com/r/"@ + name + ".json?limit=10"@
}

/// The character sequence of the health URL for the feed named `name`.
pub open spec fn health_url_view(name: Seq<char>) -> Seq<char> {
    "https://www.reddit.com/r/"@ + name
}

/// Which of a feed's two endpoints a URL addresses, carrying the feed name.
pub enum UrlType {
    JsonUrl(String),
    HealthUrl(String),
}

impl UrlType {
    /// The full URL for this endpoint.
    pub fn value(&self) -> (url: String)
        ensures
            match self {
                UrlType::JsonUrl(name) => url@ == json_url_view(name@),
                UrlType::HealthUrl(name) => url@ == health_url_view(name@),
            },
    {
        match self {
            UrlType::JsonUrl(name) => {
                let mut url = String::from_str("https://www.reddit.com/r/");
                url.append(name.as_str());
                url.append(".json?limit=10");
                url
            },
            UrlType::HealthUrl(name) => {
                let mut url = String::from_str("https://www.reddit.com/r/");
                url.append(name.as_str());
                url
            },
        }
    }
}

} // verus!
