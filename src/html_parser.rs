//! Reads the raw text groups of a game block out of a parsed scoreboard page.
use vstd::prelude::*;
use select::node::Node;
use select::predicate::{Class, Name, Predicate};
use crate::extract::{interpret, interpret_spec};
use crate::game::{outcome, ExtractionError, Field, Game, GameModel};
use crate::timezone::TimezoneIndex;

verus! {

#[verifier::external_type_specification]
#[verifier::external_body]
pub struct ExNode<'a>(Node<'a>);

/// Relies on select's `Node::find` with a `Class` predicate: the nodes below `block` whose
/// class list holds `class`, in document order.
#[verifier::external_body]
fn find_class<'a>(block: &Node<'a>, class: &str) -> Vec<Node<'a>> {
    block.find(Class(class)).collect()
}

/// Relies on select's `Node::find` with a `Descendant` predicate: the `name` elements below
/// `block` that lie inside an element whose class list holds `class`, in document order.
#[verifier::external_body]
fn find_name_in_class<'a>(block: &Node<'a>, class: &str, name: &str) -> Vec<Node<'a>> {
    block.find(Class(class).descendant(Name(name))).collect()
}

/// Relies on select's `Node::text`: the text of a node and all its children.
#[verifier::external_body]
fn node_text(node: &Node) -> String {
    node.text()
}

/// The raw text groups of one game block.
#[derive(Debug)]
pub struct GameBlockText {
    /// Away team first, then home.
    pub team_names: Vec<String>,
    pub score_cells: Vec<String>,
    pub leader_cells: Vec<String>,
    pub timezone_cells: Vec<String>,
    /// The status shown once a game has started; absent before.
    pub status_text: Option<String>,
}

/// What a block's text groups describe: a started game needs a status text.
pub open spec fn block_spec(block: GameBlockText, tz: TimezoneIndex) -> Result<GameModel, ExtractionError> {
    let status = match block.status_text {
        Some(s) => s@,
        None => Seq::empty(),
    };
    let r = interpret_spec(
        block.team_names.deep_view(),
        block.score_cells.deep_view(),
        block.leader_cells.deep_view(),
        block.timezone_cells.deep_view(),
        status,
        tz,
    );
    if block.status_text is None && (r matches Ok(g) && g.has_started) {
        Err(ExtractionError::MissingField(Field::StatusText))
    } else {
        r
    }
}

/// Interprets a game block from its text groups.
pub fn interpret_block(block: &GameBlockText, configured_timezone: TimezoneIndex) -> (r: Result<Game, ExtractionError>)
    ensures
        outcome(r) == block_spec(*block, configured_timezone),
{
    let status = match &block.status_text {
        Some(s) => s.clone(),
        None => String::new(),
    };
    let r = interpret(
        &block.team_names,
        &block.score_cells,
        &block.leader_cells,
        &block.timezone_cells,
        &status,
        configured_timezone,
    );
    match r {
        Ok(g) => {
            if block.status_text.is_none() && g.has_started {
                Err(ExtractionError::MissingField(Field::StatusText))
            } else {
                Ok(g)
            }
        },
        Err(e) => Err(e),
    }
}

fn texts_of(nodes: &Vec<Node>) -> (r: Vec<String>)
    ensures
        r.len() == nodes.len(),
{
    let mut out: Vec<String> = Vec::new();
    let mut i: usize = 0;
    while i < nodes.len()
        invariant
            i <= nodes.len(),
            out.len() == i,
        decreases nodes.len() - i,
    {
        out.push(node_text(&nodes[i]));
        i = i + 1;
    }
    out
}

/// Pulls the text groups of a game block out of the page.
pub fn read_game_block(game_block: &Node) -> (r: GameBlockText) {
    let team_names = texts_of(&find_name_in_class(game_block, "shsNamD", "a"));
    let score_cells = texts_of(&find_class(game_block, "shsTotD"));
    let leader_cells = texts_of(&find_class(game_block, "shsLeader"));
    let timezone_cells = texts_of(&find_class(game_block, "shsTimezone"));
    let status_nodes = find_class(game_block, "shsTeamCol");
    let status_text = if status_nodes.len() > 0 {
        Some(node_text(&status_nodes[0]))
    } else {
        None
    };
    GameBlockText { team_names, score_cells, leader_cells, timezone_cells, status_text }
}

/// Reads a game block of the page and interprets it into a `Game`.
pub fn form_game(game_block: Node, configured_timezone: TimezoneIndex) -> (r: Result<Game, ExtractionError>)
    ensures
        exists|block: GameBlockText| outcome(r) == block_spec(block, configured_timezone),
{
    let block = read_game_block(&game_block);
    interpret_block(&block, configured_timezone)
}

} // verus!
