//! The game-block interpreter: classifies a block as scheduled or started and extracts its
//! names, scores, status and stat leaders from the block's raw text groups.
use vstd::prelude::*;
use crate::game::{create_nonstarted_game, outcome, unstarted_game_spec, ExtractionError, Field, Game, GameModel};
use crate::team::{LeaderModel, Team, TeamModel};
use crate::text::{join_words, joined, numeral_value, parse_u32, words, words_of};
use crate::timezone::TimezoneIndex;

verus! {

/// Cells of the blank score table shown before tip-off, whatever the number of periods.
pub const PLACEHOLDER_SCORE_CELLS: usize = 10;

/// Rows of a started game's score table: period labels, away scores, home scores.
pub const SCORE_ROWS: usize = 3;

/// Leader entries of a started game: points, rebounds and assists, each for away then home.
pub const LEADER_CELLS: usize = 6;

/// Whether a score table of this width is the blank one of a game not yet started.
pub open spec fn is_placeholder_table(len: nat) -> bool {
    len == PLACEHOLDER_SCORE_CELLS
}

/// Position among the leader entries of one side's leader in one category
/// (0 points, 1 rebounds, 2 assists): categories in order, away before home in each.
pub open spec fn leader_slot(home: bool, category: nat) -> nat {
    2 * category + if home { 1nat } else { 0nat }
}

pub fn placeholder_table(len: usize) -> (r: bool)
    ensures
        r == is_placeholder_table(len as nat),
{
    len == PLACEHOLDER_SCORE_CELLS
}

/// Why a leader entry could not be read.
#[derive(Clone, Copy, Debug, PartialEq, Eq, Structural)]
pub enum LeaderFault {
    /// Fewer than two words: no name before the value.
    TooFewWords,
    /// The last word is not a numeral that fits in a `u32`.
    BadNumber,
}

/// A leader entry "<name words> <value>": the last word is the value, the words before it,
/// joined by single spaces, the player's name.
pub open spec fn leader_of(cell: Seq<char>) -> Result<LeaderModel, LeaderFault> {
    let ws = words(cell);
    if ws.len() < 2 {
        Err(LeaderFault::TooFewWords)
    } else {
        match numeral_value(ws.last()) {
            None => Err(LeaderFault::BadNumber),
            Some(v) => Ok((joined(ws.drop_last()), v)),
        }
    }
}

pub open spec fn leader_error(k: nat, f: LeaderFault) -> ExtractionError {
    match f {
        LeaderFault::TooFewWords => ExtractionError::MalformedLeaderText(k as usize),
        LeaderFault::BadNumber => ExtractionError::NumericParse(Field::LeaderCell(k as usize)),
    }
}

/// The first `k` leader entries read in order; the error of the first that fails.
pub open spec fn leaders_upto(cells: Seq<Seq<char>>, k: nat) -> Result<Seq<LeaderModel>, ExtractionError>
    decreases k,
{
    if k == 0 {
        Ok(Seq::empty())
    } else {
        match leaders_upto(cells, (k - 1) as nat) {
            Err(e) => Err(e),
            Ok(done) => {
                if k - 1 >= cells.len() {
                    Err(ExtractionError::MissingField(Field::LeaderCell((k - 1) as usize)))
                } else {
                    match leader_of(cells[k - 1]) {
                        Err(f) => Err(leader_error((k - 1) as nat, f)),
                        Ok(l) => Ok(done.push(l)),
                    }
                }
            },
        }
    }
}

proof fn lemma_leaders_failure_stays(cells: Seq<Seq<char>>, k: nat, m: nat)
    requires
        k <= m,
        leaders_upto(cells, k) is Err,
    ensures
        leaders_upto(cells, m) == leaders_upto(cells, k),
    decreases m,
{
    if k < m {
        lemma_leaders_failure_stays(cells, k, (m - 1) as nat);
    }
}

/// One side of a started game, its leaders taken from the six read entries.
pub open spec fn started_team(name: Seq<char>, score: u32, ls: Seq<LeaderModel>, home: bool) -> TeamModel {
    TeamModel {
        name,
        score,
        points: ls[leader_slot(home, 0) as int],
        rebounds: ls[leader_slot(home, 1) as int],
        assists: ls[leader_slot(home, 2) as int],
    }
}

/// What a game block describes. Team names come away first, then home. A score table of the
/// placeholder width marks a game not yet started, whose status is its start time in the
/// configured zone. Otherwise the table is `SCORE_ROWS` rows of `n` cells, the last cell of
/// the second and third rows holding the away and home totals; the status comes from the
/// started-game region, and the first six leader entries give the leaders.
pub open spec fn interpret_spec(
    team_names: Seq<Seq<char>>,
    score_cells: Seq<Seq<char>>,
    leader_cells: Seq<Seq<char>>,
    timezone_cells: Seq<Seq<char>>,
    alt_status_text: Seq<char>,
    tz: TimezoneIndex,
) -> Result<GameModel, ExtractionError> {
    if team_names.len() < 2 {
        Err(ExtractionError::MissingField(Field::TeamName(team_names.len() as usize)))
    } else if is_placeholder_table(score_cells.len()) {
        unstarted_game_spec(team_names[1], team_names[0], timezone_cells, tz)
    } else if score_cells.len() == 0 || score_cells.len() % (SCORE_ROWS as nat) != 0 {
        Err(ExtractionError::MalformedCount(score_cells.len() as usize))
    } else {
        let n = score_cells.len() / (SCORE_ROWS as nat);
        match numeral_value(score_cells[2 * n - 1]) {
            None => Err(ExtractionError::NumericParse(Field::ScoreCell((2 * n - 1) as usize))),
            Some(away) => match numeral_value(score_cells[3 * n - 1]) {
                None => Err(ExtractionError::NumericParse(Field::ScoreCell((3 * n - 1) as usize))),
                Some(home) => match leaders_upto(leader_cells, LEADER_CELLS as nat) {
                    Err(e) => Err(e),
                    Ok(ls) => Ok(
                        GameModel {
                            has_started: true,
                            away_team: started_team(team_names[0], away, ls, false),
                            home_team: started_team(team_names[1], home, ls, true),
                            status_text: alt_status_text,
                        },
                    ),
                },
            },
        }
    }
}

/// Reads one leader entry into the player's name and the stat's value.
pub fn parse_leader(cell: &str) -> (r: Result<(String, u32), LeaderFault>)
    ensures
        match r {
            Ok(l) => leader_of(cell@) == Ok::<LeaderModel, LeaderFault>((l.0@, l.1)),
            Err(f) => leader_of(cell@) == Err::<LeaderModel, LeaderFault>(f),
        },
{
    let ws = words_of(cell);
    let ghost dv = ws.deep_view();
    if ws.len() < 2 {
        return Err(LeaderFault::TooFewWords);
    }
    let last = ws.len() - 1;
    assert(dv[last as int] == dv.last());
    match parse_u32(ws[last].as_str()) {
        None => Err(LeaderFault::BadNumber),
        Some(v) => {
            let name = join_words(&ws, last);
            assert(dv.subrange(0, last as int) =~= dv.drop_last());
            Ok((name, v))
        },
    }
}

/// The two team names, away then home.
fn get_team_names(team_names: &Vec<String>) -> (r: Result<(String, String), ExtractionError>)
    ensures
        team_names.len() < 2 ==> r == Err::<(String, String), ExtractionError>(
            ExtractionError::MissingField(Field::TeamName(team_names.len())),
        ),
        team_names.len() >= 2 ==> (r matches Ok(p) && p.0@ == team_names[0]@ && p.1@
            == team_names[1]@),
{
    if team_names.len() < 2 {
        return Err(ExtractionError::MissingField(Field::TeamName(team_names.len())));
    }
    Ok((team_names[0].clone(), team_names[1].clone()))
}

/// The final scores of a started game, away then home: the last cells of the second and third
/// rows of the score table.
fn get_team_scores(score_cells: &Vec<String>) -> (r: Result<(u32, u32), ExtractionError>)
    requires
        score_cells.len() > 0,
        score_cells.len() % 3 == 0,
    ensures
        ({
            let dv = score_cells.deep_view();
            let n = score_cells.len() / 3;
            match numeral_value(dv[2 * n - 1]) {
                None => r == Err::<(u32, u32), ExtractionError>(
                    ExtractionError::NumericParse(Field::ScoreCell((2 * n - 1) as usize)),
                ),
                Some(away) => match numeral_value(dv[3 * n - 1]) {
                    None => r == Err::<(u32, u32), ExtractionError>(
                        ExtractionError::NumericParse(Field::ScoreCell((3 * n - 1) as usize)),
                    ),
                    Some(home) => r == Ok::<(u32, u32), ExtractionError>((away, home)),
                },
            }
        }),
{
    let n_cols = score_cells.len() / SCORE_ROWS;
    let away_at = n_cols * 2 - 1;
    let home_at = n_cols * 3 - 1;
    let away_score = match parse_u32(score_cells[away_at].as_str()) {
        Some(v) => v,
        None => {
            return Err(ExtractionError::NumericParse(Field::ScoreCell(away_at)));
        },
    };
    let home_score = match parse_u32(score_cells[home_at].as_str()) {
        Some(v) => v,
        None => {
            return Err(ExtractionError::NumericParse(Field::ScoreCell(home_at)));
        },
    };
    Ok((away_score, home_score))
}

/// Reads the six leader entries in order, names and values apart.
fn get_game_leaders(leader_cells: &Vec<String>) -> (r: Result<(Vec<String>, Vec<u32>), ExtractionError>)
    ensures
        match leaders_upto(leader_cells.deep_view(), 6) {
            Err(e) => r == Err::<(Vec<String>, Vec<u32>), ExtractionError>(e),
            Ok(ls) => (r matches Ok(p) && p.0.len() == 6 && p.1.len() == 6 && forall|i: int|
                0 <= i < 6 ==> (#[trigger] p.0[i])@ == ls[i].0 && p.1[i] == ls[i].1),
        },
{
    let ghost dv = leader_cells.deep_view();
    let mut names: Vec<String> = Vec::new();
    let mut values: Vec<u32> = Vec::new();
    let mut k: usize = 0;
    while k < LEADER_CELLS
        invariant
            k <= 6,
            dv == leader_cells.deep_view(),
            leaders_upto(dv, k as nat) is Ok,
            leaders_upto(dv, k as nat)->Ok_0.len() == k,
            names.len() == k,
            values.len() == k,
            forall|i: int|
                0 <= i < k ==> (#[trigger] names[i])@ == leaders_upto(dv, k as nat)->Ok_0[i].0
                    && values[i] == leaders_upto(dv, k as nat)->Ok_0[i].1,
        decreases 6 - k,
    {
        if k >= leader_cells.len() {
            proof {
                lemma_leaders_failure_stays(dv, (k + 1) as nat, 6);
            }
            return Err(ExtractionError::MissingField(Field::LeaderCell(k)));
        }
        let ghost ls = leaders_upto(dv, k as nat)->Ok_0;
        match parse_leader(leader_cells[k].as_str()) {
            Err(f) => {
                proof {
                    lemma_leaders_failure_stays(dv, (k + 1) as nat, 6);
                }
                return Err(
                    match f {
                        LeaderFault::TooFewWords => ExtractionError::MalformedLeaderText(k),
                        LeaderFault::BadNumber => ExtractionError::NumericParse(Field::LeaderCell(k)),
                    },
                );
            },
            Ok(l) => {
                let ghost entry: LeaderModel = (l.0@, l.1);
                let ghost next = ls.push(entry);
                assert(leaders_upto(dv, (k + 1) as nat) == Ok::<Seq<LeaderModel>, ExtractionError>(next));
                names.push(l.0);
                values.push(l.1);
                assert forall|i: int| 0 <= i < k + 1 implies (#[trigger] names[i])@ == next[i].0
                    && values[i] == next[i].1 by {
                    if i < k {
                        assert(next[i] == ls[i]);
                    } else {
                        assert(names[i]@ == entry.0);
                    }
                }
            },
        }
        k = k + 1;
    }
    Ok((names, values))
}

/// One side's leaders in category order: entries `side`, `side + 2` and `side + 4`.
fn team_leaders(names: &Vec<String>, values: &Vec<u32>, home: bool) -> (r: (Vec<String>, Vec<u32>))
    requires
        names.len() == 6,
        values.len() == 6,
    ensures
        r.0.len() == 3,
        r.1.len() == 3,
        forall|c: int|
            0 <= c < 3 ==> (#[trigger] r.0[c])@ == names[leader_slot(home, c as nat) as int]@
                && r.1[c] == values[leader_slot(home, c as nat) as int],
{
    let side: usize = if home { 1 } else { 0 };
    let mut ln: Vec<String> = Vec::new();
    let mut lv: Vec<u32> = Vec::new();
    let mut c: usize = 0;
    while c < 3
        invariant
            c <= 3,
            names.len() == 6,
            values.len() == 6,
            side == (if home { 1nat } else { 0nat }),
            ln.len() == c,
            lv.len() == c,
            forall|j: int|
                0 <= j < c ==> (#[trigger] ln[j])@ == names[leader_slot(home, j as nat) as int]@
                    && lv[j] == values[leader_slot(home, j as nat) as int],
        decreases 3 - c,
    {
        let at = 2 * c + side;
        ln.push(names[at].clone());
        lv.push(values[at]);
        c = c + 1;
    }
    (ln, lv)
}

/// Interprets one game block from its raw text groups.
pub fn interpret(
    team_names: &Vec<String>,
    score_cells: &Vec<String>,
    leader_cells: &Vec<String>,
    timezone_cells: &Vec<String>,
    alt_status_text: &String,
    configured_timezone: TimezoneIndex,
) -> (r: Result<Game, ExtractionError>)
    ensures
        outcome(r) == interpret_spec(
            team_names.deep_view(),
            score_cells.deep_view(),
            leader_cells.deep_view(),
            timezone_cells.deep_view(),
            alt_status_text@,
            configured_timezone,
        ),
{
    let (away_team_name, home_team_name) = match get_team_names(team_names) {
        Ok(p) => p,
        Err(e) => {
            return Err(e);
        },
    };
    if placeholder_table(score_cells.len()) {
        return create_nonstarted_game(
            home_team_name.as_str(),
            away_team_name.as_str(),
            timezone_cells,
            configured_timezone,
        );
    }
    if score_cells.len() == 0 || score_cells.len() % SCORE_ROWS != 0 {
        return Err(ExtractionError::MalformedCount(score_cells.len()));
    }
    let (away_score, home_score) = match get_team_scores(score_cells) {
        Ok(p) => p,
        Err(e) => {
            return Err(e);
        },
    };
    let (names, values) = match get_game_leaders(leader_cells) {
        Ok(p) => p,
        Err(e) => {
            return Err(e);
        },
    };
    let (away_names, away_values) = team_leaders(&names, &values, false);
    let (home_names, home_values) = team_leaders(&names, &values, true);
    let away_team = Team::from_leader_vector(away_team_name, away_score, away_names, away_values);
    let home_team = Team::from_leader_vector(home_team_name, home_score, home_names, home_values);
    Ok(Game { has_started: true, away_team, home_team, status_text: alt_status_text.clone() })
}

} // verus!
