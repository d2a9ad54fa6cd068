//! The option records gathered from the command line.
//!
//! Every field is already a plain value; the surrounding binary parses the
//! command line and hands these records in fully resolved.

use vstd::prelude::*;

verus! {

/// The available options for a team request.
pub struct TeamOptions {
    pub id: Option<u32>,
    pub name: Option<String>,
    pub email: Option<String>,
    pub org_id: Option<u32>,
    pub folder_title: Option<String>,
    pub zero_members: bool,
    pub directory: bool,
    pub query: Option<String>,
    pub yes: bool,
}

/// The available options for a folder request.
pub struct FolderOptions {
    /// Use it to get a folder by its uid.
    pub uid: Option<String>,
    /// Use it to add a folder with this title.
    pub title: Option<String>,
    /// Use it to limit the number of folders to get.
    pub limit: Option<u8>,
    /// Use it to get folders from a specified page.
    pub page: Option<u8>,
}

impl FolderOptions {
    /// Options that name only a title, as the dashboard workflow builds
    /// them when it creates a backing folder.
    pub fn from_title(title: Option<String>) -> (r: Self)
        ensures
            r.title == title,
            r.uid is None,
            r.limit is None,
            r.page is None,
    {
        Self { title, uid: None, limit: None, page: None }
    }
}

/// The available options for folder permission requests.
pub struct FolderPermissionOptions {
    /// Use it to set (override) permissions on the folder with this uid.
    pub folder_uid: Option<String>,
    /// Use it to set (override) the permissions on the folder for only this team.
    pub team_id: Option<u32>,
    /// Use it to set (override) the permission level on the folder for the
    /// team. Viewer = 1, Editor = 2, Admin = 4.
    pub permission: Option<u8>,
}

/// The available options for permission requests.
pub struct PermissionOptions {
    pub folder_uid: Option<String>,
    pub team_id: Option<u32>,
    pub permission: Option<u8>,
}

/// The available options for annotation requests.
pub struct AnnotationOptions {
    /// Names, with `panel_id`, the panel of a dashboard to annotate.
    pub dashboard_uid: Option<String>,
    /// Names, with `dashboard_uid`, the panel of a dashboard to annotate.
    pub panel_id: Option<u32>,
    /// The datetime where the annotation is placed, canonical format.
    pub start_datetime: Option<String>,
    /// The datetime end of a regional annotation, canonical format.
    pub end_datetime: Option<String>,
    /// Tags to attach to the annotation.
    pub tags: Vec<String>,
    /// The comment describing the annotation.
    pub comment: String,
    /// Add an organizational annotation, not bound to a panel.
    pub organizational: bool,
    /// Annotate all panels of dashboards whose name is like this value.
    pub all_panel_where_dashboard_name_is_like: Option<String>,
    /// Restrict the dashboard search to folders whose name is like this value.
    pub within_folders_where_folder_name_is_like: Option<String>,
}

/// The available options for a dashboard request.
pub struct DashboardOptions {
    /// The instance id of the dashboard.
    pub id: Option<u32>,
    /// The unique identifier of the dashboard.
    pub uid: Option<String>,
    /// The name of the dashboard itself.
    pub name: Option<String>,
    /// Search tags for the dashboard.
    pub tags: Vec<String>,
    /// The timezone of the dashboard.
    pub zone: String,
    /// The schema version for the dashboard data.
    pub schema_version: Option<u16>,
    /// The refresh interval in seconds.
    pub refresh_seconds: Option<u8>,
    /// The folder in which the dashboard belongs.
    pub folder_uid: Option<String>,
    /// A message for the latest changes being made.
    pub message: Option<String>,
    /// Whether existing dashboards with the same name or uid are overwritten.
    pub overwrite: bool,
    /// A folder to create for the new dashboard.
    pub create_folder_name: Option<String>,
}

} // verus!
