use fi_grafana::error::GrafanaCliError;
use fi_grafana::options::TeamOptions;
use fi_grafana::team::{
    add_team_request, team_id_of, viewer_team_name, AddTeamResponse, GetTeamResponse,
    SearchTeamsResponse,
};

fn team(id: u32, name: &str, member_count: u32) -> GetTeamResponse {
    GetTeamResponse {
        id,
        org_id: 1,
        name: name.to_string(),
        email: String::new(),
        avatar_url: String::new(),
        member_count,
    }
}

#[test]
fn zero_member_filter_keeps_order_and_drops_the_rest() {
    let response = SearchTeamsResponse {
        total_count: 4,
        teams: vec![team(1, "a", 0), team(2, "b", 2), team(3, "c", 0), team(4, "d", 1)],
        page: 1,
        per_page: 100,
    };
    let zero = response.get_zero_member_teams();
    let ids: Vec<u32> = zero.iter().map(|t| t.id).collect();
    assert_eq!(ids, vec![1, 3]);
    assert_eq!(zero[0].name, "a");
    assert_eq!(zero[1].name, "c");
}

#[test]
fn no_zero_member_teams_yields_an_empty_list() {
    let response = SearchTeamsResponse {
        total_count: 1,
        teams: vec![team(1, "a", 3)],
        page: 1,
        per_page: 100,
    };
    assert!(response.get_zero_member_teams().is_empty());
}

#[test]
fn viewer_name_appends_the_fixed_suffix() {
    assert_eq!(viewer_team_name("Platform"), "Platform-Viewer");
    assert_eq!(viewer_team_name(""), "-Viewer");
}

#[test]
fn team_request_carries_the_shared_options() {
    let opt = TeamOptions {
        id: None,
        name: Some(String::from("ignored")),
        email: Some(String::from("ops@example.org")),
        org_id: Some(2),
        folder_title: None,
        zero_members: false,
        directory: false,
        query: None,
        yes: false,
    };
    let request = add_team_request(String::from("Ops"), &opt);
    assert_eq!(request.name, "Ops");
    assert_eq!(request.email.as_deref(), Some("ops@example.org"));
    assert_eq!(request.org_id, Some(2));
}

#[test]
fn a_missing_team_id_is_an_error_not_a_creation() {
    let with_id = AddTeamResponse { message: String::from("ok"), team_id: Some(12) };
    assert_eq!(team_id_of(&with_id).unwrap(), 12);

    let without_id = AddTeamResponse { message: String::from("duplicate"), team_id: None };
    assert!(matches!(
        team_id_of(&without_id),
        Err(GrafanaCliError::NoTeamIdReceivedFromGrafanaOnTeamCreation)
    ));
}
