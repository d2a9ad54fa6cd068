//! Confirmation-gated bulk deletion of zero-member teams.
//!
//! The cleanup walks the zero-member teams of one search answer in
//! order. For each team it either asks for confirmation at the terminal
//! or, when confirmation was waived for the whole run, deletes directly.
//! A non-affirmative answer skips the team with no delete call and no
//! error; a delete failure for one team never blocks the following
//! teams. The surrounding binary performs the prompting and the delete
//! calls that the machine asks for.

use vstd::prelude::*;

use crate::shell::UserInput;
use crate::team::DeleteTeamResponse;
use crate::team::GetTeamResponse;
use crate::team::SearchTeamsResponse;
use crate::team::zero_member_teams_of;

verus! {

/// The per-team outcome of a cleanup run.
pub enum DeleteOutcome {
    /// The team was deleted; holds the service's message.
    Deleted { team_id: u32, name: String, message: String },
    /// The delete call failed; holds the transport detail.
    DeleteFailed { team_id: u32, name: String, detail: String },
    /// The team was skipped for want of confirmation; no call was made.
    Skipped { team_id: u32, name: String },
}

/// The team identifier an outcome speaks of.
pub open spec fn outcome_team_id(o: DeleteOutcome) -> u32 {
    match o {
        DeleteOutcome::Deleted { team_id, .. } => team_id,
        DeleteOutcome::DeleteFailed { team_id, .. } => team_id,
        DeleteOutcome::Skipped { team_id, .. } => team_id,
    }
}

/// The next thing a cleanup run needs from the surrounding binary.
pub enum CleanupAction {
    /// Ask at the terminal whether the named team may be deleted.
    Confirm { team_id: u32, name: String, member_count: u32 },
    /// Delete the team; it is confirmed.
    Delete { team_id: u32 },
    /// Every team has its outcome.
    Finish,
}

/// A cleanup run in progress.
pub struct TeamCleanup {
    pub teams: Vec<GetTeamResponse>,
    pub confirm_all: bool,
    pub confirmed: bool,
    pub outcomes: Vec<DeleteOutcome>,
}

impl TeamCleanup {
    /// One outcome per processed team, in team order; a confirmation
    /// only ever stands for the team being processed.
    pub open spec fn wf(&self) -> bool {
        &&& self.outcomes@.len() <= self.teams@.len()
        &&& self.confirmed ==> self.outcomes@.len() < self.teams@.len()
        &&& forall|i: int|
            0 <= i < self.outcomes@.len() ==> outcome_team_id(#[trigger] self.outcomes@[i])
                == self.teams@[i].id
    }

    /// Starts a cleanup over the zero-member teams of one search answer.
    /// With `confirm_all` set, every zero-member team is deleted without
    /// prompting.
    pub fn new(response: &SearchTeamsResponse, confirm_all: bool) -> (r: Self)
        ensures
            r.wf(),
            r.teams@ == zero_member_teams_of(response.teams@),
            r.confirm_all == confirm_all,
            !r.confirmed,
            r.outcomes@.len() == 0,
    {
        Self {
            teams: response.get_zero_member_teams(),
            confirm_all,
            confirmed: false,
            outcomes: Vec::new(),
        }
    }

    /// The next action: confirmation for the current team where one is
    /// still needed, its deletion where it is not, or the end of the run.
    pub fn next_action(&self) -> (r: CleanupAction)
        requires
            self.wf(),
        ensures
            self.outcomes@.len() == self.teams@.len() ==> r is Finish,
            (self.outcomes@.len() < self.teams@.len() && !self.confirm_all && !self.confirmed)
                ==> (r matches CleanupAction::Confirm { team_id, name, member_count } && {
                &&& team_id == self.teams@[self.outcomes@.len() as int].id
                &&& name == self.teams@[self.outcomes@.len() as int].name
                &&& member_count == self.teams@[self.outcomes@.len() as int].member_count
            }),
            (self.outcomes@.len() < self.teams@.len() && (self.confirm_all || self.confirmed))
                ==> (r matches CleanupAction::Delete { team_id } && team_id
                == self.teams@[self.outcomes@.len() as int].id),
    {
        if self.outcomes.len() == self.teams.len() {
            CleanupAction::Finish
        } else {
            let team = &self.teams[self.outcomes.len()];
            if self.confirm_all || self.confirmed {
                CleanupAction::Delete { team_id: team.id }
            } else {
                CleanupAction::Confirm {
                    team_id: team.id,
                    name: team.name.clone(),
                    member_count: team.member_count,
                }
            }
        }
    }

    /// Records the terminal's answer for the current team: only the
    /// exact text `y` confirms the deletion; any other answer skips the
    /// team, with no delete call and no error.
    pub fn apply_confirmation(&mut self, input: UserInput)
        requires
            old(self).wf(),
            old(self).outcomes@.len() < old(self).teams@.len(),
            !old(self).confirm_all,
            !old(self).confirmed,
        ensures
            final(self).wf(),
            final(self).teams == old(self).teams,
            final(self).confirm_all == old(self).confirm_all,
            (input matches UserInput::Text(s) && s@ == "y"@) ==> {
                &&& final(self).confirmed
                &&& final(self).outcomes == old(self).outcomes
            },
            !(input matches UserInput::Text(s) && s@ == "y"@) ==> {
                &&& !final(self).confirmed
                &&& final(self).outcomes@ == old(self).outcomes@.push(
                    DeleteOutcome::Skipped {
                        team_id: old(self).teams@[old(self).outcomes@.len() as int].id,
                        name: old(self).teams@[old(self).outcomes@.len() as int].name,
                    },
                )
            },
    {
        if crate::shell::is_affirmative(&input) {
            self.confirmed = true;
        } else {
            let team = &self.teams[self.outcomes.len()];
            let skipped = DeleteOutcome::Skipped { team_id: team.id, name: team.name.clone() };
            self.outcomes.push(skipped);
        }
    }

    /// Records what the delete call for the current team came back with;
    /// the run moves on to the next team either way.
    pub fn apply_delete_result(&mut self, outcome: Result<DeleteTeamResponse, String>)
        requires
            old(self).wf(),
            old(self).outcomes@.len() < old(self).teams@.len(),
            old(self).confirm_all || old(self).confirmed,
        ensures
            final(self).wf(),
            final(self).teams == old(self).teams,
            final(self).confirm_all == old(self).confirm_all,
            !final(self).confirmed,
            final(self).outcomes@ == old(self).outcomes@.push(
                match outcome {
                    Ok(resp) => DeleteOutcome::Deleted {
                        team_id: old(self).teams@[old(self).outcomes@.len() as int].id,
                        name: old(self).teams@[old(self).outcomes@.len() as int].name,
                        message: resp.message,
                    },
                    Err(d) => DeleteOutcome::DeleteFailed {
                        team_id: old(self).teams@[old(self).outcomes@.len() as int].id,
                        name: old(self).teams@[old(self).outcomes@.len() as int].name,
                        detail: d,
                    },
                },
            ),
    {
        let team = &self.teams[self.outcomes.len()];
        let recorded = match outcome {
            Ok(resp) => DeleteOutcome::Deleted {
                team_id: team.id,
                name: team.name.clone(),
                message: resp.message,
            },
            Err(d) => DeleteOutcome::DeleteFailed {
                team_id: team.id,
                name: team.name.clone(),
                detail: d,
            },
        };
        self.outcomes.push(recorded);
        self.confirmed = false;
    }

    /// Whether every zero-member team has its outcome.
    pub fn is_complete(&self) -> (r: bool)
        ensures
            r == (self.outcomes@.len() == self.teams@.len()),
    {
        self.outcomes.len() == self.teams.len()
    }

    /// The deliberate overall reading of a finished run: an empty scope,
    /// every team deleted, every team skipped, or a mixture — so that
    /// "nothing to delete", "all skipped" and "some failed" are never
    /// conflated.
    pub fn summary(&self) -> (r: CleanupSummary)
        requires
            self.wf(),
            self.outcomes@.len() == self.teams@.len(),
        ensures
            r == summary_of(self.outcomes@),
    {
        if self.outcomes.len() == 0 {
            return CleanupSummary::NothingToDelete;
        }
        let mut all_deleted = true;
        let mut all_skipped = true;
        let mut i: usize = 0;
        while i < self.outcomes.len()
            invariant
                i <= self.outcomes@.len(),
                all_deleted == forall|j: int|
                    0 <= j < i ==> (#[trigger] self.outcomes@[j]) is Deleted,
                all_skipped == forall|j: int|
                    0 <= j < i ==> (#[trigger] self.outcomes@[j]) is Skipped,
            decreases self.outcomes@.len() - i,
        {
            match &self.outcomes[i] {
                DeleteOutcome::Deleted { .. } => {
                    all_skipped = false;
                },
                DeleteOutcome::Skipped { .. } => {
                    all_deleted = false;
                },
                DeleteOutcome::DeleteFailed { .. } => {
                    all_deleted = false;
                    all_skipped = false;
                },
            }
            i = i + 1;
        }
        if all_deleted {
            CleanupSummary::AllDeleted
        } else if all_skipped {
            CleanupSummary::AllSkipped
        } else {
            CleanupSummary::Partial
        }
    }
}

/// The overall reading of a finished cleanup run.
#[derive(Debug, PartialEq, Eq, Structural)]
pub enum CleanupSummary {
    /// No zero-member team was in scope.
    NothingToDelete,
    /// Every team in scope was deleted.
    AllDeleted,
    /// Every team in scope was skipped; no delete call was made.
    AllSkipped,
    /// Deletions, failures and skips were mixed.
    Partial,
}

/// The summary a finished outcome sequence reads as.
pub open spec fn summary_of(outcomes: Seq<DeleteOutcome>) -> CleanupSummary {
    if outcomes.len() == 0 {
        CleanupSummary::NothingToDelete
    } else if forall|j: int| 0 <= j < outcomes.len() ==> (#[trigger] outcomes[j]) is Deleted {
        CleanupSummary::AllDeleted
    } else if forall|j: int| 0 <= j < outcomes.len() ==> (#[trigger] outcomes[j]) is Skipped {
        CleanupSummary::AllSkipped
    } else {
        CleanupSummary::Partial
    }
}

} // verus!
