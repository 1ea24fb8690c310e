//! The ladder's stored shapes: a team, a bot, and the joined view of a
//! bot with its team, as the data layer reads and writes them.
//! Ratings are carried in thousandths of a rating point, as the rating
//! engine computes them.

use vstd::prelude::*;

verus! {

/// A team on the ladder.
#[derive(Debug, Clone)]
pub struct Team {
    /// The team's identifier.
    pub id: i32,
    /// The team's name.
    pub name: String,
    /// The team's active entrant, once a bot passed validation.
    pub active_bot: Option<i32>,
    /// The team's aggregate score, in whole points.
    pub score: i64,
}

/// A stored bot.
#[derive(Debug, Clone)]
pub struct Bot {
    /// The bot's identifier.
    pub id: i32,
    /// The owning team's identifier.
    pub team: i32,
    /// The bot's name.
    pub name: String,
    /// An optional description.
    pub description: Option<String>,
    /// The bot's rating, in thousandths of a point.
    pub rating: i64,
    /// When the bot was uploaded, as a timestamp.
    pub created: i64,
    /// Who uploaded it.
    pub uploaded_by: String,
    /// The bot's build status, as the data layer encodes it.
    pub build_status: i32,
}

/// A bot joined with its team.
#[derive(Debug, Clone)]
pub struct BotWithTeam<T> {
    /// The joined team.
    pub team: T,
    /// The bot's identifier.
    pub id: i32,
    /// The bot's name.
    pub name: String,
    /// An optional description.
    pub description: Option<String>,
    /// The bot's rating, in thousandths of a point.
    pub rating: i64,
    /// When the bot was uploaded, as a timestamp.
    pub created: i64,
    /// Who uploaded it.
    pub uploaded_by: String,
    /// The bot's build status, as the data layer encodes it.
    pub build_status: i32,
}

impl BotWithTeam<Team> {
    /// Joins a bot with its team: every field of the bot is carried
    /// over unchanged, and the team rides along whole.
    pub fn from_parts(bot: Bot, team: Team) -> (r: BotWithTeam<Team>)
        ensures
            r.team == team,
            r.id == bot.id,
            r.name == bot.name,
            r.description == bot.description,
            r.rating == bot.rating,
            r.created == bot.created,
            r.uploaded_by == bot.uploaded_by,
            r.build_status == bot.build_status,
    {
        BotWithTeam {
            team,
            id: bot.id,
            name: bot.name,
            description: bot.description,
            rating: bot.rating,
            created: bot.created,
            uploaded_by: bot.uploaded_by,
            build_status: bot.build_status,
        }
    }
}

/// Reads the bots of the given teams, each joined with its team: the
/// data layer implements this over its connection.
pub trait BotsDao {
    /// All bots whose team is among `teams`, each with that team.
    fn get_bots_with_teams(&mut self, teams: Vec<i32>) -> Vec<BotWithTeam<Team>>;
}

} // verus!
