//! The static team records and their two league subsets.

use vstd::prelude::*;

verus! {

/// A team record: its abbreviated name, where it plays, and the year it
/// joined the league.
#[derive(Debug, Clone, PartialEq)]
pub struct Team {
    pub team_abbreviation: String,
    pub active_area: String,
    pub join_year: u32,
}

/// Mathematical model of a team record.
#[verifier::ext_equal]
pub ghost struct TeamView {
    pub team_abbreviation: Seq<char>,
    pub active_area: Seq<char>,
    pub join_year: u32,
}

impl View for Team {
    type V = TeamView;

    open spec fn view(&self) -> TeamView {
        TeamView {
            team_abbreviation: self.team_abbreviation@,
            active_area: self.active_area@,
            join_year: self.join_year,
        }
    }
}

impl DeepView for Team {
    type V = TeamView;

    open spec fn deep_view(&self) -> TeamView {
        self@
    }
}

pub open spec fn kashima() -> TeamView {
    TeamView { team_abbreviation: "鹿島"@, active_area: "茨城県"@, join_year: 1991 }
}

pub open spec fn urawa() -> TeamView {
    TeamView { team_abbreviation: "浦和"@, active_area: "埼玉県"@, join_year: 1991 }
}

pub open spec fn mito() -> TeamView {
    TeamView { team_abbreviation: "水戸"@, active_area: "茨城県"@, join_year: 2000 }
}

/// The two teams of the first league, in their fixed order.
pub open spec fn j1_list() -> Seq<TeamView> {
    seq![kashima(), urawa()]
}

/// The one team of the second league.
pub open spec fn j2_list() -> Seq<TeamView> {
    seq![mito()]
}

/// All three team records, in their fixed order.
pub open spec fn all_teams_list() -> Seq<TeamView> {
    seq![kashima(), urawa(), mito()]
}

/// The full team list is exactly the first league's subset followed by the
/// second league's subset: the two subsets partition it, order kept.
pub proof fn lemma_teams_partition()
    ensures
        all_teams_list() == j1_list() + j2_list(),
{
    assert(all_teams_list() =~= j1_list() + j2_list());
}

fn kashima_record() -> (r: Team)
    ensures
        r@ == kashima(),
{
    Team {
        team_abbreviation: "鹿島".to_owned(),
        active_area: "茨城県".to_owned(),
        join_year: 1991,
    }
}

fn urawa_record() -> (r: Team)
    ensures
        r@ == urawa(),
{
    Team {
        team_abbreviation: "浦和".to_owned(),
        active_area: "埼玉県".to_owned(),
        join_year: 1991,
    }
}

fn mito_record() -> (r: Team)
    ensures
        r@ == mito(),
{
    Team {
        team_abbreviation: "水戸".to_owned(),
        active_area: "茨城県".to_owned(),
        join_year: 2000,
    }
}

/// Returns all three team records, in their fixed order.
pub fn all_teams() -> (r: Vec<Team>)
    ensures
        r.deep_view() == all_teams_list(),
{
    let mut res: Vec<Team> = Vec::new();
    res.push(kashima_record());
    res.push(urawa_record());
    res.push(mito_record());
    proof {
        assert(res.deep_view() =~= all_teams_list());
    }
    res
}

/// Returns the first league's two team records.
pub fn teams_j1() -> (r: Vec<Team>)
    ensures
        r.deep_view() == j1_list(),
{
    let mut res: Vec<Team> = Vec::new();
    res.push(kashima_record());
    res.push(urawa_record());
    proof {
        assert(res.deep_view() =~= j1_list());
    }
    res
}

/// Returns the second league's one team record.
pub fn teams_j2() -> (r: Vec<Team>)
    ensures
        r.deep_view() == j2_list(),
{
    let mut res: Vec<Team> = Vec::new();
    res.push(mito_record());
    proof {
        assert(res.deep_view() =~= j2_list());
    }
    res
}

} // verus!
