//! The game profile attached to a verification request: the supported games,
//! the normalized profile data that the external profile fetchers hand in,
//! and the row shape persisted to the durable users table on approval.

use vstd::prelude::*;

verus! {

/// The rhythm-game platforms whose accounts can be verified.
#[derive(Clone, Copy, Debug, PartialEq, Eq, Structural)]
pub enum Game {
    Osu,
    Quaver,
    BMS,
    DMJam,
}

/// The name under which a game appears in commands and in the users table.
pub open spec fn game_name(g: Game) -> Seq<char> {
    match g {
        Game::Osu => "osu"@,
        Game::Quaver => "quaver"@,
        Game::BMS => "bms"@,
        Game::DMJam => "dmjam"@,
    }
}

#[derive(Debug, PartialEq, Eq, Structural)]
pub struct ParseGameError;

impl Game {
    /// The game's name.
    pub fn name(&self) -> (r: String)
        ensures
            r@ == game_name(*self),
    {
        match self {
            Game::Osu => "osu".to_owned(),
            Game::Quaver => "quaver".to_owned(),
            Game::BMS => "bms".to_owned(),
            Game::DMJam => "dmjam".to_owned(),
        }
    }

    /// Reads a game from its name; fails on every other string.
    pub fn from_str(s: &str) -> (r: Result<Game, ParseGameError>)
        ensures
            match r {
                Ok(g) => s@ == game_name(g),
                Err(_) => s@ != "osu"@ && s@ != "quaver"@ && s@ != "bms"@ && s@ != "dmjam"@,
            },
    {
        let t = s.to_owned();
        if t == "osu".to_owned() {
            Ok(Game::Osu)
        } else if t == "quaver".to_owned() {
            Ok(Game::Quaver)
        } else if t == "bms".to_owned() {
            Ok(Game::BMS)
        } else if t == "dmjam".to_owned() {
            Ok(Game::DMJam)
        } else {
            Err(ParseGameError)
        }
    }
}

/// Global and per-country rank of a game profile.
#[derive(Clone, Copy, Debug, PartialEq, Eq)]
pub struct Ranks {
    pub global: Option<u32>,
    pub country: Option<u32>,
}

/// A normalized game profile, as the external profile fetchers hand it in.
/// `country` is the only field the workflow engine mutates after creation.
#[derive(Clone, Debug, PartialEq, Eq)]
pub struct User {
    pub game: Game,
    pub user_id: u32,
    pub username: String,
    pub country: Option<String>,
    pub ranks: Ranks,
    pub avatar_url: String,
    pub link: String,
    pub playtime: Option<u32>,
    pub level: Option<u32>,
}

#[derive(Debug, PartialEq, Eq, Structural)]
pub struct DBSaveError;

/// The row persisted to the durable users table when a request is approved.
#[derive(Clone, Debug, PartialEq, Eq)]
pub struct UserRow {
    pub discord_id: u64,
    pub game: Game,
    pub player_id: u32,
    pub username: String,
    pub country: Option<String>,
}

} // verus!
