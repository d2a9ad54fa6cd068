//! The provisioning workflow: a team pair, its backing folder, and the
//! folder's permission bindings, created as a cascade of dependent steps.
//!
//! The workflow is a state machine over fully-resolved inputs. It asks
//! for one remote action at a time; the surrounding binary performs the
//! action and records what came back. Two teams are attempted
//! independently: a primary admin team under the requested name and a
//! secondary viewer team under the name with a fixed suffix. The admin
//! team's identifier is the anchor: without it the folder and permission
//! steps are skipped, never attempted. A folder is resolved from exactly
//! one of the explicit title or the directory flag; its identifier gates
//! the single permission-binding call, which replaces the folder's
//! bindings wholesale.
//!
//! Re-running against a team name that already exists reuses nothing:
//! whatever the service answers for that creation is recorded for that
//! step — an answer without an identifier counts as a failed creation —
//! and the gating rules alone decide how far the cascade proceeds.

use vstd::prelude::*;

use crate::folder::AddFolderRequest;
use crate::folder::AddFolderResponse;
use crate::permission::SetFolderPermissionRequest;
use crate::permission::SetFolderPermissionResponse;
use crate::permission::is_team_binding_set;
use crate::team::AddTeamRequest;
use crate::team::AddTeamResponse;
use crate::team::clone_opt_string;
use crate::team::viewer_team_name;

verus! {

/// The fully-resolved inputs of one provisioning run; the primary team
/// name was already gathered, at the terminal if necessary.
pub struct TeamProvisionRequest {
    /// The primary team name; the viewer team derives its name from it.
    pub name: String,
    /// The contact address shared by both teams.
    pub email: Option<String>,
    /// The organization both teams are created in.
    pub org_id: Option<u32>,
    /// Create the backing folder under this explicit title.
    pub folder_title: Option<String>,
    /// Without an explicit title, create the backing folder named after
    /// the primary team.
    pub directory: bool,
}

/// The steps of the cascade.
#[derive(Debug, PartialEq, Eq, Structural)]
pub enum ProvisionStep {
    AdminTeam,
    ViewerTeam,
    Folder,
    Permissions,
}

/// Where the workflow stands: which outcome it is waiting for, or that it
/// is finished.
#[derive(Debug, PartialEq, Eq, Structural)]
pub enum ProvisionPhase {
    AtAdminTeam,
    AtViewerTeam,
    AtFolder,
    AtPermissions,
    Finished,
}

/// One attempted or skipped step, reported independently of the others.
pub enum StepReport {
    /// A team was created under `name` with identifier `team_id`.
    TeamCreated { name: String, team_id: u32, message: String },
    /// A team creation failed, or answered without an identifier.
    TeamNotCreated { name: String, detail: String },
    /// The backing folder was created.
    FolderCreated { title: String, uid: String },
    /// The folder creation failed.
    FolderNotCreated { title: String, detail: String },
    /// The permission bindings were replaced on the folder.
    PermissionsBound { folder_uid: String, message: String },
    /// The permission replacement failed.
    PermissionsNotBound { folder_uid: String, detail: String },
    /// A step whose gating identifier is absent was skipped, not attempted.
    StepSkipped { step: ProvisionStep },
}

/// Whether `r` reports an attempt of a step gated behind the admin team:
/// a folder or permission attempt, successful or not. A skip marker is
/// not an attempt.
pub open spec fn is_gated_report(r: StepReport) -> bool {
    ||| r is FolderCreated
    ||| r is FolderNotCreated
    ||| r is PermissionsBound
    ||| r is PermissionsNotBound
}

/// The next remote action the workflow asks for.
pub enum ProvisionAction {
    CreateTeam(AddTeamRequest),
    CreateFolder(AddFolderRequest),
    BindPermissions { folder_uid: String, request: SetFolderPermissionRequest },
    Finish,
}

/// Whether the request configures a folder step at all.
pub open spec fn folder_wanted(request: &TeamProvisionRequest) -> bool {
    request.folder_title is Some || request.directory
}

/// The title the folder step uses: the explicit title when one was
/// supplied, else the primary team name under the directory flag.
pub open spec fn folder_title_of(request: &TeamProvisionRequest) -> Seq<char> {
    match request.folder_title {
        Some(t) => t@,
        None => request.name@,
    }
}

/// A provisioning run in progress.
pub struct TeamProvisioning {
    pub request: TeamProvisionRequest,
    pub phase: ProvisionPhase,
    pub admin_team_id: Option<u32>,
    pub viewer_team_id: Option<u32>,
    pub folder_uid: Option<String>,
    pub reports: Vec<StepReport>,
}

impl TeamProvisioning {
    /// The workflow's invariant. The folder step is reachable only with
    /// the admin identifier in hand and a folder configured; the
    /// permission step only with a folder identifier as well. And while
    /// the admin identifier is absent, the reports hold no folder or
    /// permission attempt — at most skip markers.
    pub open spec fn wf(&self) -> bool {
        &&& self.phase is AtAdminTeam ==> (self.admin_team_id is None && self.viewer_team_id is None
            && self.folder_uid is None && self.reports@.len() == 0)
        &&& self.phase is AtViewerTeam ==> (self.viewer_team_id is None && self.folder_uid is None)
        &&& self.phase is AtFolder ==> (self.admin_team_id is Some && folder_wanted(&self.request)
            && self.folder_uid is None)
        &&& self.phase is AtPermissions ==> (self.admin_team_id is Some
            && self.folder_uid is Some)
        &&& self.admin_team_id is None ==> forall|i: int|
            0 <= i < self.reports@.len() ==> !is_gated_report(#[trigger] self.reports@[i])
    }

    /// Starts a provisioning run for `request`.
    pub fn new(request: TeamProvisionRequest) -> (r: Self)
        ensures
            r.wf(),
            r.request == request,
            r.phase is AtAdminTeam,
            r.admin_team_id is None,
            r.viewer_team_id is None,
            r.folder_uid is None,
            r.reports@.len() == 0,
    {
        Self {
            request,
            phase: ProvisionPhase::AtAdminTeam,
            admin_team_id: None,
            viewer_team_id: None,
            folder_uid: None,
            reports: Vec::new(),
        }
    }

    /// The next remote action: create the admin team, create the viewer
    /// team, create the folder, bind the permission set, or finish. The
    /// permission set is exactly the binding set of the identifiers in
    /// hand.
    pub fn next_action(&self) -> (r: ProvisionAction)
        requires
            self.wf(),
        ensures
            self.phase is AtAdminTeam ==> (r matches ProvisionAction::CreateTeam(t) && {
                &&& t.name == self.request.name
                &&& t.email == self.request.email
                &&& t.org_id == self.request.org_id
            }),
            self.phase is AtViewerTeam ==> (r matches ProvisionAction::CreateTeam(t) && {
                &&& t.name@ == self.request.name@ + "-Viewer"@
                &&& t.email == self.request.email
                &&& t.org_id == self.request.org_id
            }),
            self.phase is AtFolder ==> (r matches ProvisionAction::CreateFolder(f) && f.title@
                == folder_title_of(&self.request)),
            self.phase is AtPermissions ==> (r matches ProvisionAction::BindPermissions {
                folder_uid,
                request,
            } && Some(folder_uid) == self.folder_uid && is_team_binding_set(
                request.items@,
                self.admin_team_id,
                self.viewer_team_id,
            )),
            self.phase is Finished ==> r is Finish,
    {
        match self.phase {
            ProvisionPhase::AtAdminTeam => ProvisionAction::CreateTeam(
                AddTeamRequest {
                    name: self.request.name.clone(),
                    email: clone_opt_string(&self.request.email),
                    org_id: self.request.org_id,
                },
            ),
            ProvisionPhase::AtViewerTeam => ProvisionAction::CreateTeam(
                AddTeamRequest {
                    name: viewer_team_name(self.request.name.as_str()),
                    email: clone_opt_string(&self.request.email),
                    org_id: self.request.org_id,
                },
            ),
            ProvisionPhase::AtFolder => {
                let title = match &self.request.folder_title {
                    Some(t) => t.clone(),
                    None => self.request.name.clone(),
                };
                ProvisionAction::CreateFolder(AddFolderRequest { title })
            },
            ProvisionPhase::AtPermissions => {
                let folder_uid = match &self.folder_uid {
                    Some(uid) => uid.clone(),
                    None => String::new(),
                };
                let items = crate::permission::team_folder_permission_items(
                    self.admin_team_id,
                    self.viewer_team_id,
                );
                ProvisionAction::BindPermissions {
                    folder_uid,
                    request: SetFolderPermissionRequest { items },
                }
            },
            ProvisionPhase::Finished => ProvisionAction::Finish,
        }
    }

    /// Records the outcome of the admin team creation. The identifier is
    /// kept only when the service answered with one; either way the
    /// viewer team is attempted next, independently.
    pub fn record_admin_team(&mut self, outcome: Result<AddTeamResponse, String>)
        requires
            old(self).wf(),
            old(self).phase is AtAdminTeam,
        ensures
            final(self).wf(),
            final(self).request == old(self).request,
            final(self).phase is AtViewerTeam,
            final(self).admin_team_id == match outcome {
                Ok(resp) => resp.team_id,
                Err(_) => None::<u32>,
            },
            final(self).viewer_team_id is None,
            final(self).folder_uid is None,
            final(self).reports@.len() == 1,
            match outcome {
                Ok(resp) => match resp.team_id {
                    Some(id) => final(self).reports@[0] matches StepReport::TeamCreated {
                        name,
                        team_id,
                        message,
                    } && name == old(self).request.name && team_id == id && message
                        == resp.message,
                    None => final(self).reports@[0] matches StepReport::TeamNotCreated {
                        name,
                        detail,
                    } && name == old(self).request.name && detail == resp.message,
                },
                Err(d) => final(self).reports@[0] matches StepReport::TeamNotCreated {
                    name,
                    detail,
                } && name == old(self).request.name && detail == d,
            },
    {
        let report = match outcome {
            Ok(resp) => {
                match resp.team_id {
                    Some(id) => {
                        self.admin_team_id = Some(id);
                        StepReport::TeamCreated {
                            name: self.request.name.clone(),
                            team_id: id,
                            message: resp.message,
                        }
                    },
                    None => StepReport::TeamNotCreated {
                        name: self.request.name.clone(),
                        detail: resp.message,
                    },
                }
            },
            Err(d) => StepReport::TeamNotCreated { name: self.request.name.clone(), detail: d },
        };
        self.reports.push(report);
        self.phase = ProvisionPhase::AtViewerTeam;
    }

    /// Records the outcome of the viewer team creation and decides how
    /// the cascade continues: to the folder step when the admin
    /// identifier exists and a folder is configured; otherwise straight
    /// to the end, marking the folder and permission steps skipped when
    /// they were configured but their anchor is missing.
    pub fn record_viewer_team(&mut self, outcome: Result<AddTeamResponse, String>)
        requires
            old(self).wf(),
            old(self).phase is AtViewerTeam,
        ensures
            final(self).wf(),
            final(self).request == old(self).request,
            final(self).admin_team_id == old(self).admin_team_id,
            final(self).folder_uid is None,
            final(self).viewer_team_id == match outcome {
                Ok(resp) => resp.team_id,
                Err(_) => None::<u32>,
            },
            final(self).phase == if old(self).admin_team_id is Some && folder_wanted(
                &old(self).request,
            ) {
                ProvisionPhase::AtFolder
            } else {
                ProvisionPhase::Finished
            },
            final(self).reports@.len() >= old(self).reports@.len() + 1,
            final(self).reports@.subrange(0, old(self).reports@.len() as int) == old(
                self,
            ).reports@,
            match outcome {
                Ok(resp) => match resp.team_id {
                    Some(id) => final(self).reports@[old(self).reports@.len() as int]
                        matches StepReport::TeamCreated { name, team_id, message } && name@ == old(
                        self,
                    ).request.name@ + "-Viewer"@ && team_id == id && message == resp.message,
                    None => final(self).reports@[old(self).reports@.len() as int]
                        matches StepReport::TeamNotCreated { name, detail } && name@ == old(
                        self,
                    ).request.name@ + "-Viewer"@ && detail == resp.message,
                },
                Err(d) => final(self).reports@[old(self).reports@.len() as int]
                    matches StepReport::TeamNotCreated { name, detail } && name@ == old(
                    self,
                ).request.name@ + "-Viewer"@ && detail == d,
            },
            (old(self).admin_team_id is None && folder_wanted(&old(self).request)) ==> {
                &&& final(self).reports@.len() == old(self).reports@.len() + 3
                &&& final(self).reports@[old(self).reports@.len() + 1int]
                    == (StepReport::StepSkipped { step: ProvisionStep::Folder })
                &&& final(self).reports@[old(self).reports@.len() + 2int]
                    == (StepReport::StepSkipped { step: ProvisionStep::Permissions })
            },
            !(old(self).admin_team_id is None && folder_wanted(&old(self).request))
                ==> final(self).reports@.len() == old(self).reports@.len() + 1,
    {
        let viewer_name = viewer_team_name(self.request.name.as_str());
        let report = match outcome {
            Ok(resp) => {
                match resp.team_id {
                    Some(id) => {
                        self.viewer_team_id = Some(id);
                        StepReport::TeamCreated {
                            name: viewer_name,
                            team_id: id,
                            message: resp.message,
                        }
                    },
                    None => StepReport::TeamNotCreated { name: viewer_name, detail: resp.message },
                }
            },
            Err(d) => StepReport::TeamNotCreated { name: viewer_name, detail: d },
        };
        self.reports.push(report);
        if self.admin_team_id.is_some() && (self.request.folder_title.is_some()
            || self.request.directory) {
            self.phase = ProvisionPhase::AtFolder;
        } else {
            if self.admin_team_id.is_none() && (self.request.folder_title.is_some()
                || self.request.directory) {
                self.reports.push(StepReport::StepSkipped { step: ProvisionStep::Folder });
                self.reports.push(StepReport::StepSkipped { step: ProvisionStep::Permissions });
            }
            self.phase = ProvisionPhase::Finished;
        }
    }

    /// Records the outcome of the folder creation. Its identifier gates
    /// the permission step: without one the run ends with the permission
    /// step marked skipped.
    pub fn record_folder(&mut self, outcome: Result<AddFolderResponse, String>)
        requires
            old(self).wf(),
            old(self).phase is AtFolder,
        ensures
            final(self).wf(),
            final(self).request == old(self).request,
            final(self).admin_team_id == old(self).admin_team_id,
            final(self).viewer_team_id == old(self).viewer_team_id,
            final(self).reports@.subrange(0, old(self).reports@.len() as int) == old(
                self,
            ).reports@,
            match outcome {
                Ok(resp) => {
                    &&& final(self).folder_uid == Some(resp.uid)
                    &&& final(self).phase is AtPermissions
                    &&& final(self).reports@.len() == old(self).reports@.len() + 1
                    &&& final(self).reports@[old(self).reports@.len() as int]
                        matches StepReport::FolderCreated { title, uid } && title@
                        == folder_title_of(&old(self).request) && uid == resp.uid
                },
                Err(d) => {
                    &&& final(self).folder_uid is None
                    &&& final(self).phase is Finished
                    &&& final(self).reports@.len() == old(self).reports@.len() + 2
                    &&& final(self).reports@[old(self).reports@.len() as int]
                        matches StepReport::FolderNotCreated { title, detail } && title@
                        == folder_title_of(&old(self).request) && detail == d
                    &&& final(self).reports@[old(self).reports@.len() + 1int]
                        == (StepReport::StepSkipped { step: ProvisionStep::Permissions })
                },
            },
    {
        let title = match &self.request.folder_title {
            Some(t) => t.clone(),
            None => self.request.name.clone(),
        };
        match outcome {
            Ok(resp) => {
                self.folder_uid = Some(resp.uid.clone());
                self.reports.push(StepReport::FolderCreated { title, uid: resp.uid });
                self.phase = ProvisionPhase::AtPermissions;
            },
            Err(d) => {
                self.reports.push(StepReport::FolderNotCreated { title, detail: d });
                self.reports.push(StepReport::StepSkipped { step: ProvisionStep::Permissions });
                self.phase = ProvisionPhase::Finished;
            },
        }
    }

    /// Records the outcome of the permission replacement; the run ends.
    pub fn record_permissions(&mut self, outcome: Result<SetFolderPermissionResponse, String>)
        requires
            old(self).wf(),
            old(self).phase is AtPermissions,
        ensures
            final(self).wf(),
            final(self).request == old(self).request,
            final(self).admin_team_id == old(self).admin_team_id,
            final(self).viewer_team_id == old(self).viewer_team_id,
            final(self).folder_uid == old(self).folder_uid,
            final(self).phase is Finished,
            final(self).reports@.len() == old(self).reports@.len() + 1,
            final(self).reports@.subrange(0, old(self).reports@.len() as int) == old(
                self,
            ).reports@,
            match outcome {
                Ok(resp) => final(self).reports@[old(self).reports@.len() as int]
                    matches StepReport::PermissionsBound { folder_uid, message } && Some(folder_uid)
                    == old(self).folder_uid && message == resp.message,
                Err(d) => final(self).reports@[old(self).reports@.len() as int]
                    matches StepReport::PermissionsNotBound { folder_uid, detail } && Some(
                    folder_uid,
                ) == old(self).folder_uid && detail == d,
            },
    {
        let folder_uid = match &self.folder_uid {
            Some(uid) => uid.clone(),
            None => String::new(),
        };
        let report = match outcome {
            Ok(resp) => StepReport::PermissionsBound { folder_uid, message: resp.message },
            Err(d) => StepReport::PermissionsNotBound { folder_uid, detail: d },
        };
        self.reports.push(report);
        self.phase = ProvisionPhase::Finished;
    }

    /// Whether the run has ended.
    pub fn is_finished(&self) -> (r: bool)
        ensures
            r == (self.phase is Finished),
    {
        match self.phase {
            ProvisionPhase::Finished => true,
            _ => false,
        }
    }
}

/// Law: provisioning is gated on the admin team. In any reachable
/// workflow state whose admin team identifier is absent, the folder and
/// permission phases are unreachable — so `next_action` never asks for a
/// folder creation or a permission binding — and the reports hold no
/// folder or permission attempt, only skip markers, never a fabricated
/// failure entry.
pub proof fn lemma_provisioning_gated_on_admin_team(w: TeamProvisioning)
    requires
        w.wf(),
        w.admin_team_id is None,
    ensures
        !(w.phase is AtFolder),
        !(w.phase is AtPermissions),
        forall|i: int| 0 <= i < w.reports@.len() ==> !is_gated_report(#[trigger] w.reports@[i]),
{
}

} // verus!
