use fi_grafana::error::GrafanaCliError;
use fi_grafana::permission::{
    folder_permission_update, permission_items_by_option, team_folder_permission_items,
    FolderPermissionItem,
};

#[test]
fn default_items_are_the_three_fixed_roles() {
    let items = FolderPermissionItem::default_permissions_items();
    assert_eq!(items.len(), 3);
    assert_eq!(items[0].role.as_deref(), Some("Viewer"));
    assert_eq!(items[0].permission, 1);
    assert_eq!(items[1].role.as_deref(), Some("Editor"));
    assert_eq!(items[1].permission, 2);
    assert_eq!(items[2].role.as_deref(), Some("Admin"));
    assert_eq!(items[2].permission, 4);
    for item in &items {
        assert!(item.team_id.is_none());
        assert!(item.user_id.is_none());
    }
}

#[test]
fn role_and_team_builders_name_one_subject_each() {
    let role = FolderPermissionItem::role("Editor", 2);
    assert_eq!(role.role.as_deref(), Some("Editor"));
    assert!(role.team_id.is_none());
    assert!(role.user_id.is_none());
    assert_eq!(role.permission, 2);

    let team = FolderPermissionItem::team(17, 4);
    assert!(team.role.is_none());
    assert_eq!(team.team_id, Some(17));
    assert!(team.user_id.is_none());
    assert_eq!(team.permission, 4);
}

#[test]
fn second_binding_set_never_merges_the_first() {
    // Building the binding set for one team pair and then for another:
    // the second set is exactly the roles plus the second pair's teams.
    // Nothing of the first build leaks into the second.
    let first = team_folder_permission_items(Some(1), Some(2));
    assert_eq!(first.len(), 5);

    let second = team_folder_permission_items(Some(9), None);
    assert_eq!(second.len(), 4);
    assert_eq!(second[0].role.as_deref(), Some("Viewer"));
    assert_eq!(second[1].role.as_deref(), Some("Editor"));
    assert_eq!(second[2].role.as_deref(), Some("Admin"));
    assert_eq!(second[3].team_id, Some(9));
    assert_eq!(second[3].permission, 4);
    let bound: Vec<u32> = second.iter().filter_map(|i| i.team_id).collect();
    assert_eq!(bound, vec![9]);
}

#[test]
fn binding_set_without_teams_holds_only_the_roles() {
    let items = team_folder_permission_items(None, None);
    assert_eq!(items.len(), 3);
    assert!(items.iter().all(|i| i.team_id.is_none()));
}

#[test]
fn viewer_team_alone_binds_at_viewer_level() {
    let items = team_folder_permission_items(None, Some(4));
    assert_eq!(items.len(), 4);
    assert_eq!(items[3].team_id, Some(4));
    assert_eq!(items[3].permission, 1);
}

#[test]
fn permission_update_requires_a_folder() {
    let items = FolderPermissionItem::default_permissions_items();
    match folder_permission_update(Some(String::from("uid-1")), items) {
        Ok((uid, request)) => {
            assert_eq!(uid, "uid-1");
            assert_eq!(request.items.len(), 3);
        }
        Err(_) => panic!("a named folder must be accepted"),
    }
    let items = FolderPermissionItem::default_permissions_items();
    assert!(matches!(
        folder_permission_update(None, items),
        Err(GrafanaCliError::CanNotUpdatePermissionsOnNonExistingFolder)
    ));
}

#[test]
fn option_items_add_a_team_only_with_both_fields() {
    assert_eq!(permission_items_by_option(Some(5), Some(2)).len(), 4);
    assert_eq!(permission_items_by_option(Some(5), None).len(), 3);
    assert_eq!(permission_items_by_option(None, Some(2)).len(), 3);
    assert_eq!(permission_items_by_option(None, None).len(), 3);
    let with_team = permission_items_by_option(Some(5), Some(2));
    assert_eq!(with_team[3].team_id, Some(5));
    assert_eq!(with_team[3].permission, 2);
}
