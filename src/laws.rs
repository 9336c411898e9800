//! What holds of every interpretation, stated over the model of `interpret`.
use vstd::prelude::*;
use crate::extract::{interpret_spec, leader_of, leaders_upto, PLACEHOLDER_SCORE_CELLS};
use crate::game::{ExtractionError, GameModel};
use crate::text::numeral_value;
use crate::timezone::TimezoneIndex;

verus! {

/// Every leader entry among the first six is present and readable.
pub open spec fn leaders_readable(leader_cells: Seq<Seq<char>>) -> bool {
    &&& leader_cells.len() >= 6
    &&& forall|i: int| 0 <= i < 6 ==> (#[trigger] leader_of(leader_cells[i])) is Ok
}

proof fn lemma_leaders_read(cells: Seq<Seq<char>>, k: nat)
    requires
        k <= cells.len(),
        forall|i: int| 0 <= i < k ==> (#[trigger] leader_of(cells[i])) is Ok,
    ensures
        leaders_upto(cells, k) is Ok,
        leaders_upto(cells, k)->Ok_0.len() == k,
        forall|i: int|
            0 <= i < k ==> #[trigger] leaders_upto(cells, k)->Ok_0[i] == leader_of(cells[i])->Ok_0,
    decreases k,
{
    if k > 0 {
        lemma_leaders_read(cells, (k - 1) as nat);
        assert(leader_of(cells[k - 1]) is Ok);
        let done = leaders_upto(cells, (k - 1) as nat)->Ok_0;
        assert forall|i: int| 0 <= i < k implies #[trigger] leaders_upto(cells, k)->Ok_0[i]
            == leader_of(cells[i])->Ok_0 by {
            if i < k - 1 {
                assert(leaders_upto(cells, k)->Ok_0[i] == done[i]);
            }
        }
    }
}

proof fn lemma_leaders_of_success(cells: Seq<Seq<char>>, k: nat)
    requires
        leaders_upto(cells, k) is Ok,
    ensures
        k <= cells.len(),
        leaders_upto(cells, k)->Ok_0.len() == k,
        forall|i: int| 0 <= i < k ==> (#[trigger] leader_of(cells[i])) is Ok,
        forall|i: int|
            0 <= i < k ==> #[trigger] leaders_upto(cells, k)->Ok_0[i] == leader_of(cells[i])->Ok_0,
    decreases k,
{
    if k > 0 {
        lemma_leaders_of_success(cells, (k - 1) as nat);
        let done = leaders_upto(cells, (k - 1) as nat)->Ok_0;
        assert forall|i: int| 0 <= i < k implies #[trigger] leaders_upto(cells, k)->Ok_0[i]
            == leader_of(cells[i])->Ok_0 by {
            if i < k - 1 {
                assert(leaders_upto(cells, k)->Ok_0[i] == done[i]);
            }
        }
        assert forall|i: int| 0 <= i < k implies (#[trigger] leader_of(cells[i])) is Ok by {
            if i < k - 1 {
                assert(leader_of(cells[i]) is Ok);
            }
        }
    }
}

/// A block whose score table is the blank placeholder gives a game that has not started,
/// with both scores zero and, as its status, the start time listed for the configured zone.
pub proof fn unstarted_block_law(
    team_names: Seq<Seq<char>>,
    score_cells: Seq<Seq<char>>,
    leader_cells: Seq<Seq<char>>,
    timezone_cells: Seq<Seq<char>>,
    alt_status_text: Seq<char>,
    tz: TimezoneIndex,
)
    requires
        team_names.len() >= 2,
        score_cells.len() == PLACEHOLDER_SCORE_CELLS,
        tz.slot_spec() < timezone_cells.len(),
    ensures
        interpret_spec(team_names, score_cells, leader_cells, timezone_cells, alt_status_text, tz)
            matches Ok(g) && !g.has_started && g.away_team.score == 0 && g.home_team.score == 0
            && g.status_text == timezone_cells[tz.slot_spec() as int]
            && g.away_team.name == team_names[0] && g.home_team.name == team_names[1],
{
}

/// A started block whose score table has `n` columns gives, as the away score, the numeral of
/// its cell `2n - 1` and, as the home score, that of its cell `3n - 1`.
pub proof fn final_scores_law(
    team_names: Seq<Seq<char>>,
    score_cells: Seq<Seq<char>>,
    leader_cells: Seq<Seq<char>>,
    timezone_cells: Seq<Seq<char>>,
    alt_status_text: Seq<char>,
    tz: TimezoneIndex,
    n: nat,
)
    requires
        team_names.len() >= 2,
        n >= 1,
        score_cells.len() == 3 * n,
        numeral_value(score_cells[2 * n - 1]) is Some,
        numeral_value(score_cells[3 * n - 1]) is Some,
        leaders_readable(leader_cells),
    ensures
        interpret_spec(team_names, score_cells, leader_cells, timezone_cells, alt_status_text, tz)
            matches Ok(g) && g.has_started
            && g.away_team.score == numeral_value(score_cells[2 * n - 1])->Some_0
            && g.home_team.score == numeral_value(score_cells[3 * n - 1])->Some_0
            && g.status_text == alt_status_text,
{
    lemma_leaders_read(leader_cells, 6);
    assert(score_cells.len() / 3 == n);
}

/// In a started block the leader entries at positions 0, 2 and 4 are the away team's points,
/// rebounds and assists leaders, and those at 1, 3 and 5 the home team's, in the same order.
pub proof fn leader_parity_law(
    team_names: Seq<Seq<char>>,
    score_cells: Seq<Seq<char>>,
    leader_cells: Seq<Seq<char>>,
    timezone_cells: Seq<Seq<char>>,
    alt_status_text: Seq<char>,
    tz: TimezoneIndex,
)
    requires
        interpret_spec(team_names, score_cells, leader_cells, timezone_cells, alt_status_text, tz)
            matches Ok(g) && g.has_started,
    ensures
        leaders_readable(leader_cells),
        interpret_spec(team_names, score_cells, leader_cells, timezone_cells, alt_status_text, tz)
            matches Ok(g)
            && g.away_team.points == leader_of(leader_cells[0])->Ok_0
            && g.home_team.points == leader_of(leader_cells[1])->Ok_0
            && g.away_team.rebounds == leader_of(leader_cells[2])->Ok_0
            && g.home_team.rebounds == leader_of(leader_cells[3])->Ok_0
            && g.away_team.assists == leader_of(leader_cells[4])->Ok_0
            && g.home_team.assists == leader_of(leader_cells[5])->Ok_0,
{
    lemma_leaders_of_success(leader_cells, 6);
}

/// Interpreting the same block twice gives equal outcomes.
pub proof fn interpret_repeatable_law(
    team_names: Seq<Seq<char>>,
    score_cells: Seq<Seq<char>>,
    leader_cells: Seq<Seq<char>>,
    timezone_cells: Seq<Seq<char>>,
    alt_status_text: Seq<char>,
    tz: TimezoneIndex,
    first: Result<GameModel, ExtractionError>,
    second: Result<GameModel, ExtractionError>,
)
    requires
        first == interpret_spec(team_names, score_cells, leader_cells, timezone_cells, alt_status_text, tz),
        second == interpret_spec(team_names, score_cells, leader_cells, timezone_cells, alt_status_text, tz),
    ensures
        first == second,
{
}

} // verus!
