//! Bag tag standings as the Disc Golf Metrix service reports them.
use vstd::prelude::*;

verus! {

/// The reply of the service: the standings and any errors it reports.
pub struct Players {
    pub players: Vec<Player>,
    pub errors: Vec<String>,
}

/// One player's bag tag entry.
pub struct Player {
    /// The bag tag number.
    pub number: String,
    pub name: Option<String>,
    pub rating: Option<String>,
    /// The player's previous bag tag number.
    pub last_number: Option<String>,
}

impl Players {
    /// The standings of a reply; the errors it reports are dropped.
    pub fn into_players(self) -> (r: Vec<Player>)
        ensures
            r == self.players,
    {
        self.players
    }
}

} // verus!
