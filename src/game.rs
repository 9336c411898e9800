//! A contest between two teams, and the ways interpreting one can fail.
use vstd::prelude::*;
use crate::team::{unstarted_team, Team, TeamModel};
use crate::timezone::TimezoneIndex;

verus! {

#[derive(Debug)]
pub struct Game {
    pub has_started: bool,
    pub away_team: Team,
    pub home_team: Team,
    /// The scheduled start time before tip-off; the period or final status after it.
    pub status_text: String,
}

pub ghost struct GameModel {
    pub has_started: bool,
    pub away_team: TeamModel,
    pub home_team: TeamModel,
    pub status_text: Seq<char>,
}

impl View for Game {
    type V = GameModel;

    open spec fn view(&self) -> GameModel {
        GameModel {
            has_started: self.has_started,
            away_team: self.away_team@,
            home_team: self.home_team@,
            status_text: self.status_text@,
        }
    }
}

/// A positional entry of a game block.
#[derive(Clone, Copy, Debug, PartialEq, Eq, Structural)]
pub enum Field {
    TeamName(usize),
    ScoreCell(usize),
    LeaderCell(usize),
    TimezoneCell(usize),
    StatusText,
}

#[derive(Clone, Copy, Debug, PartialEq, Eq, Structural)]
pub enum ExtractionError {
    /// An expected positional entry is absent.
    MissingField(Field),
    /// The score table holds this many cells: neither the placeholder width nor a positive
    /// multiple of the row count.
    MalformedCount(usize),
    /// A score or leader-stat entry is not a numeral that fits in a `u32`.
    NumericParse(Field),
    /// The leader entry at this position has fewer than two words.
    MalformedLeaderText(usize),
}

/// The model of an interpretation's outcome.
pub open spec fn outcome(r: Result<Game, ExtractionError>) -> Result<GameModel, ExtractionError> {
    match r {
        Ok(g) => Ok(g@),
        Err(e) => Err(e),
    }
}

/// The game that a block of a contest not yet started describes.
pub open spec fn unstarted_game_spec(
    home_team_name: Seq<char>,
    away_team_name: Seq<char>,
    timezone_cells: Seq<Seq<char>>,
    tz: TimezoneIndex,
) -> Result<GameModel, ExtractionError> {
    if tz.slot_spec() < timezone_cells.len() {
        Ok(
            GameModel {
                has_started: false,
                away_team: unstarted_team(away_team_name),
                home_team: unstarted_team(home_team_name),
                status_text: timezone_cells[tz.slot_spec() as int],
            },
        )
    } else {
        Err(ExtractionError::MissingField(Field::TimezoneCell(tz.slot_spec() as usize)))
    }
}

/// A game not yet started: no scores nor leaders, and its start time in the configured zone.
pub fn create_nonstarted_game(
    home_team_name: &str,
    away_team_name: &str,
    timezone_cells: &Vec<String>,
    configured_timezone: TimezoneIndex,
) -> (r: Result<Game, ExtractionError>)
    ensures
        outcome(r) == unstarted_game_spec(
            home_team_name@,
            away_team_name@,
            timezone_cells.deep_view(),
            configured_timezone,
        ),
{
    let slot = configured_timezone.slot();
    if slot >= timezone_cells.len() {
        return Err(ExtractionError::MissingField(Field::TimezoneCell(slot)));
    }
    let home_team = Team { name: String::from_str(home_team_name), ..Team::default() };
    let away_team = Team { name: String::from_str(away_team_name), ..Team::default() };
    let game_time = timezone_cells[slot].clone();
    let game = Game { has_started: false, away_team, home_team, status_text: game_time };
    Ok(game)
}

} // verus!
