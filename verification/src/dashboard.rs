//! Dashboard resources: request and response shapes, the request built
//! from command-line options, and the ordered classification of the two
//! response shapes the creation endpoint answers with.

use vstd::prelude::*;
use vstd::string::StringExecFns;

use crate::error::GrafanaCliError;
use crate::options::DashboardOptions;
use crate::team::clone_opt_string;

verus! {

/// A request to create or overwrite a dashboard.
pub struct AddDashboardRequest {
    /// The dashboard schema to create.
    pub dashboard: PostDashboard,
    /// The folder where the dashboard lives.
    pub folder_uid: Option<String>,
    /// The reasoning behind the change.
    pub message: String,
    /// Whether existing dashboards with the same title or uid are overwritten.
    pub overwrite: bool,
}

/// The dashboard schema sent on creation.
pub struct PostDashboard {
    /// The incremental id of the instance.
    pub id: Option<u32>,
    /// The unique identifier across instances.
    pub uid: Option<String>,
    /// The unique dashboard name within a folder.
    pub title: String,
    /// The associated search tags.
    pub tags: Vec<String>,
    /// The desired dashboard timezone.
    pub timezone: String,
    /// The defined schema version.
    pub schema_version: u16,
    /// The refresh rate, a second count followed by `s`.
    pub refresh: String,
}

/// The success shape of the creation endpoint's answer.
#[derive(Clone)]
pub struct AddDashboardSuccessResponse {
    pub id: u32,
    pub uid: String,
    pub url: String,
    pub status: String,
    pub version: u16,
    pub slug: String,
}

/// The error shape of the creation endpoint's answer.
#[derive(Clone)]
pub struct AddDashboardErrorResponse {
    pub message: String,
    pub status: String,
}

/// The classified answer of the creation endpoint: at most one of the two
/// well-formed shapes.
pub type AddDashboardResponse = (Option<AddDashboardSuccessResponse>, Option<
    AddDashboardErrorResponse,
>);

/// The text of the decimal digit `d`.
pub open spec fn digit_str(d: int) -> Seq<char> {
    if d == 0 {
        "0"@
    } else if d == 1 {
        "1"@
    } else if d == 2 {
        "2"@
    } else if d == 3 {
        "3"@
    } else if d == 4 {
        "4"@
    } else if d == 5 {
        "5"@
    } else if d == 6 {
        "6"@
    } else if d == 7 {
        "7"@
    } else if d == 8 {
        "8"@
    } else {
        "9"@
    }
}

/// The decimal text of `n`, without leading zeroes.
pub open spec fn dec_str(n: int) -> Seq<char> {
    if n < 10 {
        digit_str(n)
    } else if n < 100 {
        digit_str(n / 10) + digit_str(n % 10)
    } else {
        digit_str(n / 100) + digit_str((n / 10) % 10) + digit_str(n % 10)
    }
}

/// Appends the decimal digit `d` to `s`.
fn push_digit(s: &mut String, d: u8)
    requires
        d < 10,
    ensures
        final(s)@ == old(s)@ + digit_str(d as int),
{
    match d {
        0 => s.append("0"),
        1 => s.append("1"),
        2 => s.append("2"),
        3 => s.append("3"),
        4 => s.append("4"),
        5 => s.append("5"),
        6 => s.append("6"),
        7 => s.append("7"),
        8 => s.append("8"),
        _ => s.append("9"),
    }
}

/// The refresh-rate text for a second count: the count in decimal,
/// followed by `s`.
pub fn refresh_interval_string(seconds: u8) -> (r: String)
    ensures
        r@ == dec_str(seconds as int) + "s"@,
{
    let mut s = String::new();
    if seconds >= 100 {
        push_digit(&mut s, seconds / 100);
    }
    if seconds >= 10 {
        push_digit(&mut s, (seconds / 10) % 10);
    }
    push_digit(&mut s, seconds % 10);
    s.append("s");
    proof {
        assert(s@ =~= dec_str(seconds as int) + "s"@);
    }
    s
}

/// Copies a vector of strings.
pub fn clone_string_vec(v: &Vec<String>) -> (r: Vec<String>)
    ensures
        r@ == v@,
{
    let mut out: Vec<String> = Vec::new();
    let mut i: usize = 0;
    while i < v.len()
        invariant
            i <= v@.len(),
            out@ == v@.subrange(0, i as int),
        decreases v@.len() - i,
    {
        out.push(v[i].clone());
        proof {
            assert(out@ =~= v@.subrange(0, i + 1 as int));
        }
        i = i + 1;
    }
    proof {
        assert(v@.subrange(0, v@.len() as int) =~= v@);
    }
    out
}

impl AddDashboardRequest {
    /// The creation request derived from the command-line options: absent
    /// fields fall back to an unnamed title, schema version zero, a
    /// twenty-five second refresh rate and a fixed change message.
    pub fn new_by_option(opt: &DashboardOptions) -> (r: Self)
        ensures
            r.dashboard.id == opt.id,
            r.dashboard.uid == opt.uid,
            match opt.name {
                Some(n) => r.dashboard.title == n,
                None => r.dashboard.title@ == "unnamed"@,
            },
            r.dashboard.tags@ == opt.tags@,
            r.dashboard.timezone == opt.zone,
            r.dashboard.schema_version == opt.schema_version.unwrap_or(0),
            r.dashboard.refresh@ == dec_str(opt.refresh_seconds.unwrap_or(25) as int) + "s"@,
            r.folder_uid == opt.folder_uid,
            match opt.message {
                Some(m) => r.message == m,
                None => r.message@ == "dashboard created"@,
            },
            r.overwrite == opt.overwrite,
    {
        let title = match &opt.name {
            Some(n) => n.clone(),
            None => "unnamed".to_owned(),
        };
        let message = match &opt.message {
            Some(m) => m.clone(),
            None => "dashboard created".to_owned(),
        };
        let refresh_seconds = match opt.refresh_seconds {
            Some(n) => n,
            None => 25,
        };
        let schema_version = match opt.schema_version {
            Some(n) => n,
            None => 0,
        };
        Self {
            dashboard: PostDashboard {
                id: opt.id,
                uid: clone_opt_string(&opt.uid),
                title,
                tags: clone_string_vec(&opt.tags),
                timezone: opt.zone.clone(),
                schema_version,
                refresh: refresh_interval_string(refresh_seconds),
            },
            folder_uid: clone_opt_string(&opt.folder_uid),
            message,
            overwrite: opt.overwrite,
        }
    }
}

/// Classifies a creation answer that was decoded against the success
/// schema first and the error schema second: a body matching neither is
/// its own failure, surfaced with the raw body, never dropped.
pub fn classify_add_dashboard_response(
    success: Option<AddDashboardSuccessResponse>,
    error: Option<AddDashboardErrorResponse>,
    body: String,
) -> (r: Result<AddDashboardResponse, GrafanaCliError>)
    ensures
        match success {
            Some(s) => r matches Ok(p) && p.0 == Some(s) && p.1 is None,
            None => match error {
                Some(e) => r matches Ok(p) && p.0 is None && p.1 == Some(e),
                None => r matches Err(err) && err matches GrafanaCliError::InvalidResponseFormat(b)
                    && b == body,
            },
        },
{
    if let Some(s) = success {
        Ok((Some(s), None))
    } else if let Some(e) = error {
        Ok((None, Some(e)))
    } else {
        Err(GrafanaCliError::InvalidResponseFormat(body))
    }
}

/// One dashboard as the single-dashboard endpoint reports it.
#[derive(Clone)]
pub struct GetDashboardResponse {
    pub dashboard: GetDashboard,
    pub meta: GetDashboardMeta,
}

/// The dashboard schema as read back; some conditional fields of the
/// resource are omitted.
#[derive(Clone)]
pub struct GetDashboard {
    /// The incremental id of the instance.
    pub id: u32,
    /// The unique identifier across instances.
    pub uid: String,
    /// The unique dashboard name within a folder.
    pub title: String,
    /// The associated search tags.
    pub tags: Vec<String>,
    /// The desired dashboard timezone.
    pub timezone: String,
    /// The defined schema version.
    pub schema_version: u16,
    /// The dashboard version.
    pub version: u8,
    /// The available panels of the dashboard.
    pub panels: Option<Vec<GetPanel>>,
}

/// One panel of a dashboard; some conditional fields of the resource are
/// omitted. The wire field `type` is named `kind` here.
#[derive(Clone)]
pub struct GetPanel {
    pub id: u32,
    pub title: String,
    pub kind: String,
    pub datasource: GetPanelDataSource,
    pub grid_pos: GetPanelGridPosition,
}

/// The data source a panel reads. The wire field `type` is named `kind`.
#[derive(Clone)]
pub struct GetPanelDataSource {
    pub kind: String,
    pub uid: String,
}

/// The grid placement of a panel.
#[derive(Clone)]
pub struct GetPanelGridPosition {
    pub h: u16,
    pub w: u16,
    pub x: u16,
    pub y: u16,
}

/// The metadata of a dashboard as read back. The wire field `type` is
/// named `kind` here.
#[derive(Clone)]
pub struct GetDashboardMeta {
    pub kind: String,
    pub can_save: bool,
    pub can_edit: bool,
    pub can_admin: bool,
    pub can_star: bool,
    pub can_delete: bool,
    pub slug: String,
    pub url: String,
    pub expires: String,
    pub created: String,
    pub updated: String,
    pub updated_by: String,
    pub created_by: String,
    pub version: u16,
    pub has_acl: bool,
    pub is_folder: bool,
    pub folder_id: u32,
    pub folder_uid: String,
    pub folder_title: String,
    pub folder_url: String,
    pub provisioned: bool,
    pub provisioned_external_id: String,
    pub annotations_permissions: AnnotationsPermissions,
}

/// What annotations the caller may manage, per scope.
#[derive(Clone)]
pub struct AnnotationsPermissions {
    pub dashboard: DashboardAnnotationPermissions,
    pub organization: OrganizationAnnotationPermissions,
}

/// Annotation permissions on the dashboard itself.
#[derive(Clone)]
pub struct DashboardAnnotationPermissions {
    pub can_add: bool,
    pub can_edit: bool,
    pub can_delete: bool,
}

/// Annotation permissions at organization scope.
#[derive(Clone)]
pub struct OrganizationAnnotationPermissions {
    pub can_add: bool,
    pub can_edit: bool,
    pub can_delete: bool,
}

} // verus!
