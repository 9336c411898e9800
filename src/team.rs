//! One side of a contest: its name, its score and its three stat leaders.
use vstd::prelude::*;

verus! {

/// A stat leader as the model sees it: the player's name and the stat's value.
pub type LeaderModel = (Seq<char>, u32);

#[derive(Debug)]
pub struct Team {
    pub name: String,
    pub score: u32,
    pub points_leader: String,
    pub points_leader_value: u32,
    pub rebounds_leader: String,
    pub rebounds_leader_value: u32,
    pub assists_leader: String,
    pub assists_leader_value: u32,
}

pub ghost struct TeamModel {
    pub name: Seq<char>,
    pub score: u32,
    pub points: LeaderModel,
    pub rebounds: LeaderModel,
    pub assists: LeaderModel,
}

impl View for Team {
    type V = TeamModel;

    open spec fn view(&self) -> TeamModel {
        TeamModel {
            name: self.name@,
            score: self.score,
            points: (self.points_leader@, self.points_leader_value),
            rebounds: (self.rebounds_leader@, self.rebounds_leader_value),
            assists: (self.assists_leader@, self.assists_leader_value),
        }
    }
}

/// A team of a game that has not started: a name, a zero score and no leaders.
pub open spec fn unstarted_team(name: Seq<char>) -> TeamModel {
    TeamModel {
        name,
        score: 0,
        points: (Seq::empty(), 0),
        rebounds: (Seq::empty(), 0),
        assists: (Seq::empty(), 0),
    }
}

impl Default for Team {
    fn default() -> (r: Team)
        ensures
            r@ == unstarted_team(Seq::empty()),
    {
        Team {
            name: String::new(),
            score: 0,
            points_leader: String::new(),
            points_leader_value: 0,
            rebounds_leader: String::new(),
            rebounds_leader_value: 0,
            assists_leader: String::new(),
            assists_leader_value: 0,
        }
    }
}

impl Team {
    /// Builds a team from its leaders listed in category order: points, rebounds, assists.
    pub fn from_leader_vector(
        name: String,
        score: u32,
        leader_names: Vec<String>,
        leader_values: Vec<u32>,
    ) -> (r: Team)
        requires
            leader_names.len() >= 3,
            leader_values.len() >= 3,
        ensures
            r@ == (TeamModel {
                name: name@,
                score,
                points: (leader_names[0]@, leader_values[0]),
                rebounds: (leader_names[1]@, leader_values[1]),
                assists: (leader_names[2]@, leader_values[2]),
            }),
    {
        Team {
            name,
            score,
            points_leader: leader_names[0].clone(),
            points_leader_value: leader_values[0],
            rebounds_leader: leader_names[1].clone(),
            rebounds_leader_value: leader_values[1],
            assists_leader: leader_names[2].clone(),
            assists_leader_value: leader_values[2],
        }
    }
}

} // verus!
