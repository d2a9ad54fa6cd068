//! Folder permission bindings.
//!
//! A binding names a subject — a fixed role or a team — and a permission
//! level (viewer = 1, editor = 2, admin = 4). A permission update sends a
//! complete binding set for one folder; the remote service replaces the
//! folder's bindings with that set wholesale, so what is sent is computed
//! from the current request alone and never merges earlier payloads.

use vstd::prelude::*;

use crate::error::GrafanaCliError;

verus! {

/// One permission binding: exactly one of `role`, `team_id` or `user_id`
/// names the subject.
#[derive(Clone)]
pub struct FolderPermissionItem {
    pub role: Option<String>,
    pub team_id: Option<u32>,
    pub user_id: Option<u32>,
    pub permission: u8,
}

/// A complete binding set to place on a folder, replacing its previous one.
pub struct SetFolderPermissionRequest {
    pub items: Vec<FolderPermissionItem>,
}

/// The status message answered to a binding replacement.
pub struct SetFolderPermissionResponse {
    pub message: String,
}

/// A complete binding set to place on a folder, replacing its previous one.
pub struct UpdateFolderPermissionRequest {
    pub items: Vec<FolderPermissionItem>,
}

/// The status message answered to a binding replacement.
pub struct UpdateFolderPermissionResponse {
    pub message: String,
}

/// Whether `it` binds the fixed role named `name` at `level`.
pub open spec fn is_role_item(it: FolderPermissionItem, name: Seq<char>, level: u8) -> bool {
    &&& it.role matches Some(s) && s@ == name
    &&& it.team_id is None
    &&& it.user_id is None
    &&& it.permission == level
}

/// Whether `it` binds the team `id` at `level`.
pub open spec fn is_team_item(it: FolderPermissionItem, id: u32, level: u8) -> bool {
    &&& it.role is None
    &&& it.team_id == Some(id)
    &&& it.user_id is None
    &&& it.permission == level
}

impl FolderPermissionItem {
    /// The three fixed role bindings every folder receives: viewer at 1,
    /// editor at 2, admin at 4.
    pub fn default_permissions_items() -> (r: Vec<FolderPermissionItem>)
        ensures
            r@.len() == 3,
            is_role_item(r@[0], "Viewer"@, 1),
            is_role_item(r@[1], "Editor"@, 2),
            is_role_item(r@[2], "Admin"@, 4),
    {
        let viewer = FolderPermissionItem::role("Viewer", 1);
        let editor = FolderPermissionItem::role("Editor", 2);
        let admin = FolderPermissionItem::role("Admin", 4);
        let mut items: Vec<FolderPermissionItem> = Vec::new();
        items.push(viewer);
        items.push(editor);
        items.push(admin);
        items
    }

    /// A binding of the fixed role `role` at `permission`.
    pub fn role(role: &str, permission: u8) -> (r: Self)
        ensures
            is_role_item(r, role@, permission),
    {
        Self { role: Some(role.to_owned()), team_id: None, user_id: None, permission }
    }

    /// A binding of the team `team_id` at `permission`.
    pub fn team(team_id: u32, permission: u8) -> (r: Self)
        ensures
            is_team_item(r, team_id, permission),
    {
        Self { role: None, team_id: Some(team_id), user_id: None, permission }
    }
}

/// Whether `s` is exactly the binding set for a provisioned folder: the
/// three fixed role bindings, then a binding at admin level for the admin
/// team and at viewer level for the viewer team, for whichever of the two
/// identifiers exist.
pub open spec fn is_team_binding_set(
    s: Seq<FolderPermissionItem>,
    admin_team_id: Option<u32>,
    viewer_team_id: Option<u32>,
) -> bool {
    let n_admin: int = if admin_team_id is Some {
        1int
    } else {
        0int
    };
    let n_viewer: int = if viewer_team_id is Some {
        1int
    } else {
        0int
    };
    &&& s.len() == 3 + n_admin + n_viewer
    &&& is_role_item(s[0], "Viewer"@, 1)
    &&& is_role_item(s[1], "Editor"@, 2)
    &&& is_role_item(s[2], "Admin"@, 4)
    &&& (admin_team_id matches Some(a) ==> is_team_item(s[3], a, 4))
    &&& (viewer_team_id matches Some(v) ==> is_team_item(s[3 + n_admin], v, 1))
}

/// The binding set the provisioning cascade places on a freshly resolved
/// folder: the fixed role bindings plus the bindings of whichever of the
/// two team identifiers exist.
pub fn team_folder_permission_items(
    admin_team_id: Option<u32>,
    viewer_team_id: Option<u32>,
) -> (r: Vec<FolderPermissionItem>)
    ensures
        is_team_binding_set(r@, admin_team_id, viewer_team_id),
{
    let mut items = FolderPermissionItem::default_permissions_items();
    if let Some(admin) = admin_team_id {
        items.push(FolderPermissionItem::team(admin, 4));
    }
    if let Some(viewer) = viewer_team_id {
        items.push(FolderPermissionItem::team(viewer, 1));
    }
    items
}

/// The set of team identifiers that `s` binds.
pub open spec fn bound_team_ids(s: Seq<FolderPermissionItem>) -> Set<u32> {
    Set::new(|id: u32| exists|i: int| 0 <= i < s.len() && s[i].team_id == Some(id))
}

/// The set holding the value of `o`, if any.
pub open spec fn opt_as_set(o: Option<u32>) -> Set<u32> {
    match o {
        Some(x) => Set::empty().insert(x),
        None => Set::empty(),
    }
}

/// Law: permission binding is total replacement. The binding set of a
/// later call is determined by that call's team identifiers alone: it
/// binds exactly the teams of the later call, whatever an earlier call
/// bound, and never merges the earlier payload.
pub proof fn lemma_permission_binding_total_replacement(
    first: Seq<FolderPermissionItem>,
    admin1: Option<u32>,
    viewer1: Option<u32>,
    second: Seq<FolderPermissionItem>,
    admin2: Option<u32>,
    viewer2: Option<u32>,
)
    requires
        is_team_binding_set(first, admin1, viewer1),
        is_team_binding_set(second, admin2, viewer2),
    ensures
        bound_team_ids(second) =~= opt_as_set(admin2).union(opt_as_set(viewer2)),
        second.len() <= 5,
{
    let n_admin: int = if admin2 is Some {
        1int
    } else {
        0int
    };
    assert forall|id: u32| bound_team_ids(second).contains(id) implies opt_as_set(admin2).union(
        opt_as_set(viewer2),
    ).contains(id) by {
        let i = choose|i: int| 0 <= i < second.len() && second[i].team_id == Some(id);
        if i < 3 {
            assert(second[i].team_id is None);
        } else if i == 3 {
            assert(admin2 == Some(id) || viewer2 == Some(id));
        } else {
            assert(i == 4 && n_admin == 1);
            assert(viewer2 == Some(id));
        }
    }
    assert forall|id: u32| opt_as_set(admin2).union(opt_as_set(viewer2)).contains(id) implies bound_team_ids(second).contains(id) by {
        if admin2 == Some(id) {
            assert(second[3].team_id == Some(id));
        } else {
            assert(viewer2 == Some(id));
            assert(second[3 + n_admin].team_id == Some(id));
        }
    }
}

/// The permission update to send for `folder_uid`: permissions can only be
/// replaced on a folder that was actually named, so an absent identifier
/// is rejected before any call is made.
pub fn folder_permission_update(
    folder_uid: Option<String>,
    items: Vec<FolderPermissionItem>,
) -> (r: Result<(String, SetFolderPermissionRequest), GrafanaCliError>)
    ensures
        match folder_uid {
            Some(uid) => r matches Ok(p) && p.0 == uid && p.1.items == items,
            None => r matches Err(e)
                && e is CanNotUpdatePermissionsOnNonExistingFolder,
        },
{
    match folder_uid {
        Some(uid) => Ok((uid, SetFolderPermissionRequest { items })),
        None => Err(GrafanaCliError::CanNotUpdatePermissionsOnNonExistingFolder),
    }
}

/// The binding set the overwrite command sends: the fixed role bindings,
/// plus one team binding exactly when both a team and a level were named.
pub fn permission_items_by_option(team_id: Option<u32>, permission: Option<u8>) -> (r: Vec<
    FolderPermissionItem,
>)
    ensures
        r@.len() == if team_id is Some && permission is Some {
            4int
        } else {
            3int
        },
        is_role_item(r@[0], "Viewer"@, 1),
        is_role_item(r@[1], "Editor"@, 2),
        is_role_item(r@[2], "Admin"@, 4),
        team_id matches Some(t) ==> (permission matches Some(p) ==> is_team_item(r@[3], t, p)),
    {
    let mut items = FolderPermissionItem::default_permissions_items();
    if let Some(team_id) = team_id {
        if let Some(permission) = permission {
            items.push(FolderPermissionItem::team(team_id, permission));
        }
    }
    items
}

} // verus!
