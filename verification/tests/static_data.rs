use echo_chain::news::todays_shami_momo;
use echo_chain::teams::{all_teams, teams_j1, teams_j2, Team};

#[test]
fn news_is_the_fixed_item() {
    let news = todays_shami_momo();
    assert_eq!(news.day, "today");
    assert_eq!(news.content, "Shamiko is going to go on date with Momo.");
}

#[test]
fn news_is_identical_across_calls() {
    assert_eq!(todays_shami_momo(), todays_shami_momo());
}

#[test]
fn all_teams_holds_the_three_records_in_order() {
    let teams = all_teams();
    assert_eq!(teams.len(), 3);
    assert_eq!(teams[0].team_abbreviation, "鹿島");
    assert_eq!(teams[0].active_area, "茨城県");
    assert_eq!(teams[0].join_year, 1991);
    assert_eq!(teams[1].team_abbreviation, "浦和");
    assert_eq!(teams[1].active_area, "埼玉県");
    assert_eq!(teams[1].join_year, 1991);
    assert_eq!(teams[2].team_abbreviation, "水戸");
    assert_eq!(teams[2].active_area, "茨城県");
    assert_eq!(teams[2].join_year, 2000);
}

#[test]
fn league_subsets_have_the_fixed_sizes() {
    assert_eq!(teams_j1().len(), 2);
    assert_eq!(teams_j2().len(), 1);
}

#[test]
fn all_teams_is_j1_followed_by_j2() {
    let mut union: Vec<Team> = teams_j1();
    union.extend(teams_j2());
    assert_eq!(all_teams(), union);
}
