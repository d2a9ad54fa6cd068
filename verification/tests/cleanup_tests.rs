use fi_grafana::cleanup::{CleanupAction, CleanupSummary, DeleteOutcome, TeamCleanup};
use fi_grafana::shell::UserInput;
use fi_grafana::team::{DeleteTeamResponse, GetTeamResponse, SearchTeamsResponse};

fn team(id: u32, name: &str, member_count: u32) -> GetTeamResponse {
    GetTeamResponse {
        id,
        org_id: 1,
        name: name.to_string(),
        email: String::new(),
        avatar_url: String::new(),
        member_count,
    }
}

fn search_response(teams: Vec<GetTeamResponse>) -> SearchTeamsResponse {
    SearchTeamsResponse { total_count: teams.len() as u32, teams, page: 1, per_page: 100 }
}

fn deleted_response() -> Result<DeleteTeamResponse, String> {
    Ok(DeleteTeamResponse { message: String::from("team deleted") })
}

#[test]
fn scripted_confirmations_gate_each_delete() {
    // Three zero-member teams and the answers yes, no, yes: exactly two
    // delete calls are asked for, for the first and third team; the
    // second is skipped with no delete call and no error.
    let response = search_response(vec![team(1, "a", 0), team(2, "b", 0), team(3, "c", 0)]);
    let mut cleanup = TeamCleanup::new(&response, false);
    let script = vec!["y", "n", "y"];
    let mut script_at = 0;
    let mut deletes_issued: Vec<u32> = Vec::new();

    loop {
        match cleanup.next_action() {
            CleanupAction::Confirm { .. } => {
                let answer = UserInput::Text(script[script_at].to_string());
                script_at += 1;
                cleanup.apply_confirmation(answer);
            }
            CleanupAction::Delete { team_id } => {
                deletes_issued.push(team_id);
                cleanup.apply_delete_result(deleted_response());
            }
            CleanupAction::Finish => break,
        }
    }

    assert_eq!(deletes_issued, vec![1, 3]);
    assert_eq!(cleanup.outcomes.len(), 3);
    assert!(matches!(&cleanup.outcomes[0], DeleteOutcome::Deleted { team_id: 1, .. }));
    assert!(matches!(&cleanup.outcomes[1], DeleteOutcome::Skipped { team_id: 2, .. }));
    assert!(matches!(&cleanup.outcomes[2], DeleteOutcome::Deleted { team_id: 3, .. }));
}

#[test]
fn only_zero_member_teams_enter_the_run() {
    let response = search_response(vec![team(1, "a", 0), team(2, "b", 4), team(3, "c", 0)]);
    let cleanup = TeamCleanup::new(&response, false);
    let ids: Vec<u32> = cleanup.teams.iter().map(|t| t.id).collect();
    assert_eq!(ids, vec![1, 3]);
}

#[test]
fn waived_confirmation_deletes_every_team_without_prompting() {
    let response = search_response(vec![team(1, "a", 0), team(2, "b", 0)]);
    let mut cleanup = TeamCleanup::new(&response, true);
    let mut deletes_issued = 0;
    loop {
        match cleanup.next_action() {
            CleanupAction::Confirm { .. } => panic!("no prompt may be asked for"),
            CleanupAction::Delete { .. } => {
                deletes_issued += 1;
                cleanup.apply_delete_result(deleted_response());
            }
            CleanupAction::Finish => break,
        }
    }
    assert_eq!(deletes_issued, 2);
    assert!(cleanup.is_complete());
}

#[test]
fn numeric_answer_skips_without_a_delete() {
    let response = search_response(vec![team(7, "solo", 0)]);
    let mut cleanup = TeamCleanup::new(&response, false);
    assert!(matches!(cleanup.next_action(), CleanupAction::Confirm { team_id: 7, .. }));
    cleanup.apply_confirmation(UserInput::Number(1));
    assert!(cleanup.is_complete());
    assert!(matches!(&cleanup.outcomes[0], DeleteOutcome::Skipped { team_id: 7, .. }));
}

#[test]
fn a_failed_delete_does_not_block_the_next_team() {
    let response = search_response(vec![team(1, "a", 0), team(2, "b", 0)]);
    let mut cleanup = TeamCleanup::new(&response, true);
    assert!(matches!(cleanup.next_action(), CleanupAction::Delete { team_id: 1 }));
    cleanup.apply_delete_result(Err(String::from("gone already")));
    assert!(matches!(cleanup.next_action(), CleanupAction::Delete { team_id: 2 }));
    cleanup.apply_delete_result(deleted_response());
    assert!(cleanup.is_complete());
    assert!(matches!(
        &cleanup.outcomes[0],
        DeleteOutcome::DeleteFailed { team_id: 1, detail, .. } if detail.as_str() == "gone already"
    ));
    assert!(matches!(&cleanup.outcomes[1], DeleteOutcome::Deleted { team_id: 2, .. }));
}

#[test]
fn summary_distinguishes_empty_all_skipped_and_partial_runs() {

    let empty = search_response(Vec::new());
    let cleanup = TeamCleanup::new(&empty, true);
    assert_eq!(cleanup.summary(), CleanupSummary::NothingToDelete);

    let response = search_response(vec![team(1, "a", 0), team(2, "b", 0)]);
    let mut cleanup = TeamCleanup::new(&response, false);
    cleanup.apply_confirmation(UserInput::Text(String::from("n")));
    cleanup.apply_confirmation(UserInput::Text(String::from("n")));
    assert_eq!(cleanup.summary(), CleanupSummary::AllSkipped);

    let response = search_response(vec![team(1, "a", 0), team(2, "b", 0)]);
    let mut cleanup = TeamCleanup::new(&response, false);
    cleanup.apply_confirmation(UserInput::Text(String::from("y")));
    cleanup.apply_delete_result(deleted_response());
    cleanup.apply_confirmation(UserInput::Text(String::from("n")));
    assert_eq!(cleanup.summary(), CleanupSummary::Partial);

    let response = search_response(vec![team(1, "a", 0)]);
    let mut cleanup = TeamCleanup::new(&response, true);
    cleanup.apply_delete_result(deleted_response());
    assert_eq!(cleanup.summary(), CleanupSummary::AllDeleted);
}
