//! Settings read from the server configuration.
use vstd::prelude::*;
use vstd::string::*;

verus! {

/// The site's settings.
pub struct Config {
    /// The analytics tracking id put into every page; empty for none.
    pub analytics: String,
}

impl Config {
    /// The settings for the configured `analytics` value: the value itself,
    /// or the empty string when none is configured.
    pub fn from_setting(analytics: Option<&str>) -> (r: Config)
        ensures
            analytics matches Some(a) ==> r.analytics@ == a@,
            analytics is None ==> r.analytics@ == Seq::<char>::empty(),
    {
        match analytics {
            Some(a) => Config { analytics: String::from_str(a) },
            None => Config { analytics: String::new() },
        }
    }
}

} // verus!
