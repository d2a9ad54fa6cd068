//! Team resources: request and response shapes and the decisions around
//! creating, searching and deleting teams.

use vstd::prelude::*;
use vstd::string::StringExecFns;

use crate::error::GrafanaCliError;
use crate::options::TeamOptions;

verus! {

/// A request to create a team.
pub struct AddTeamRequest {
    pub name: String,
    pub email: Option<String>,
    pub org_id: Option<u32>,
}

/// The answer to a team creation: a status message, and the identifier of
/// the new team when one was created.
pub struct AddTeamResponse {
    pub message: String,
    pub team_id: Option<u32>,
}

/// A request to create a team.
pub struct CreateTeamRequest {
    pub name: String,
    pub email: Option<String>,
    pub org_id: Option<u32>,
}

/// The answer to a team creation: a status message, and the identifier of
/// the new team when one was created.
pub struct CreateTeamResponse {
    pub message: String,
    pub team_id: Option<u32>,
}

/// A request to delete a team; the target is named in the resource path.
pub struct DeleteTeamRequest {}

/// The status message answered to a team deletion.
pub struct DeleteTeamResponse {
    pub message: String,
}

/// One team as the search endpoint reports it.
#[derive(Clone)]
pub struct GetTeamResponse {
    pub id: u32,
    pub org_id: u32,
    pub name: String,
    pub email: String,
    pub avatar_url: String,
    pub member_count: u32,
}

/// A page of teams as the search endpoint reports it.
pub struct SearchTeamsResponse {
    pub total_count: u32,
    pub teams: Vec<GetTeamResponse>,
    pub page: u32,
    pub per_page: u32,
}

/// The subsequence of `s` whose teams have no members, in order.
pub open spec fn zero_member_teams_of(s: Seq<GetTeamResponse>) -> Seq<GetTeamResponse>
    decreases s.len(),
{
    if s.len() == 0 {
        Seq::empty()
    } else {
        let rest = zero_member_teams_of(s.drop_last());
        if s.last().member_count == 0 {
            rest.push(s.last())
        } else {
            rest
        }
    }
}

impl SearchTeamsResponse {
    /// The teams of this page that have no members, in the order the
    /// service reported them.
    pub fn get_zero_member_teams(&self) -> (r: Vec<GetTeamResponse>)
        ensures
            r@ == zero_member_teams_of(self.teams@),
    {
        let mut found: Vec<GetTeamResponse> = Vec::new();
        let mut i: usize = 0;
        while i < self.teams.len()
            invariant
                i <= self.teams@.len(),
                found@ == zero_member_teams_of(self.teams@.subrange(0, i as int)),
            decreases self.teams@.len() - i,
        {
            let team = &self.teams[i];
            if team.member_count == 0 {
                found.push(
                    GetTeamResponse {
                        id: team.id,
                        org_id: team.org_id,
                        name: team.name.clone(),
                        email: team.email.clone(),
                        avatar_url: team.avatar_url.clone(),
                        member_count: team.member_count,
                    },
                );
            }
            proof {
                assert(self.teams@.subrange(0, i + 1 as int).drop_last() =~= self.teams@.subrange(
                    0,
                    i as int,
                ));
                assert(self.teams@.subrange(0, i + 1 as int).last() == self.teams@[i as int]);
            }
            i = i + 1;
        }
        proof {
            assert(self.teams@.subrange(0, self.teams@.len() as int) =~= self.teams@);
        }
        found
    }
}

/// Copies an optional string field.
pub fn clone_opt_string(o: &Option<String>) -> (r: Option<String>)
    ensures
        r == *o,
{
    match o {
        Some(s) => Some(s.clone()),
        None => None,
    }
}

/// The name of the secondary viewer team derived from a primary team name.
pub fn viewer_team_name(name: &str) -> (r: String)
    ensures
        r@ == name@ + "-Viewer"@,
{
    let mut full = name.to_owned();
    full.append("-Viewer");
    full
}

/// The creation request for one team, carrying the shared contact options.
pub fn add_team_request(name: String, opt: &TeamOptions) -> (r: AddTeamRequest)
    ensures
        r.name == name,
        r.email == opt.email,
        r.org_id == opt.org_id,
{
    AddTeamRequest { name, email: clone_opt_string(&opt.email), org_id: opt.org_id }
}

/// The identifier a team creation produced, or the error reported when the
/// service answered without one: a missing identifier is never treated as
/// a created team.
pub fn team_id_of(response: &AddTeamResponse) -> (r: Result<u32, GrafanaCliError>)
    ensures
        match response.team_id {
            Some(id) => r == Ok::<u32, GrafanaCliError>(id),
            None => r matches Err(e) && e is NoTeamIdReceivedFromGrafanaOnTeamCreation,
        },
{
    match response.team_id {
        Some(id) => Ok(id),
        None => Err(GrafanaCliError::NoTeamIdReceivedFromGrafanaOnTeamCreation),
    }
}

} // verus!
