use fi_grafana::error::GrafanaCliError;
use fi_grafana::folder::require_folder_title;
use fi_grafana::options::{AnnotationOptions, FolderOptions, FolderPermissionOptions, TeamOptions};
use fi_grafana::shell::{
    is_affirmative, prompt_option, resource_kind, NamedResource, ResourceKind, UserInput,
};

fn team_options() -> TeamOptions {
    TeamOptions {
        id: None,
        name: None,
        email: None,
        org_id: None,
        folder_title: None,
        zero_members: false,
        directory: false,
        query: None,
        yes: false,
    }
}

fn annotation_options() -> AnnotationOptions {
    AnnotationOptions {
        dashboard_uid: None,
        panel_id: None,
        start_datetime: None,
        end_datetime: None,
        tags: Vec::new(),
        comment: String::new(),
        organizational: false,
        all_panel_where_dashboard_name_is_like: None,
        within_folders_where_folder_name_is_like: None,
    }
}

#[test]
fn single_letter_aliases_fold_to_the_long_form() {
    assert_eq!(
        resource_kind(&NamedResource::Team(team_options())),
        resource_kind(&NamedResource::T(team_options()))
    );
    assert_eq!(
        resource_kind(&NamedResource::Annotation(annotation_options())),
        resource_kind(&NamedResource::A(annotation_options()))
    );
    assert_eq!(
        resource_kind(&NamedResource::Folder(FolderOptions::from_title(None))),
        resource_kind(&NamedResource::F(FolderOptions::from_title(None)))
    );
    let permission = FolderPermissionOptions { folder_uid: None, team_id: None, permission: None };
    assert_eq!(resource_kind(&NamedResource::Permission(permission)), ResourceKind::Permission);
    assert_eq!(resource_kind(&NamedResource::P(FolderPermissionOptions {
        folder_uid: None,
        team_id: None,
        permission: None,
    })), ResourceKind::Permission);
    assert_eq!(resource_kind(&NamedResource::SA), ResourceKind::ServiceAccount);
    assert_eq!(resource_kind(&NamedResource::U), ResourceKind::User);
    assert_eq!(resource_kind(&NamedResource::R), ResourceKind::Role);
}

#[test]
fn a_supplied_option_wins_over_the_gathered_answer() {
    assert_eq!(
        prompt_option(Some(String::from("from-flag")), Some(String::from("typed"))),
        Some(String::from("from-flag"))
    );
    assert_eq!(
        prompt_option(None, Some(String::from("typed"))),
        Some(String::from("typed"))
    );
    assert_eq!(prompt_option(None, None), None);
}

#[test]
fn only_the_exact_y_confirms() {
    assert!(is_affirmative(&UserInput::Text(String::from("y"))));
    assert!(!is_affirmative(&UserInput::Text(String::from("yes"))));
    assert!(!is_affirmative(&UserInput::Text(String::from("Y"))));
    assert!(!is_affirmative(&UserInput::Text(String::new())));
    assert!(!is_affirmative(&UserInput::Number(1)));
}

#[test]
fn folder_options_from_title_set_nothing_else() {
    let options = FolderOptions::from_title(Some(String::from("Reports")));
    assert_eq!(options.title.as_deref(), Some("Reports"));
    assert!(options.uid.is_none());
    assert!(options.limit.is_none());
    assert!(options.page.is_none());
}

#[test]
fn a_folder_without_a_title_is_refused() {
    assert_eq!(require_folder_title(Some(String::from("t"))).unwrap(), "t");
    assert!(matches!(
        require_folder_title(None),
        Err(GrafanaCliError::CanNotAddFolderWithoutTitle)
    ));
}

#[test]
fn error_kinds_have_fixed_messages_and_carry_their_detail() {
    let io = GrafanaCliError::IO(String::from("broken pipe"));
    assert_eq!(io.kind_message(), "an I/O error occurred");
    assert_eq!(io.detail().map(String::as_str), Some("broken pipe"));

    let request = GrafanaCliError::Request(String::from("timeout"));
    assert_eq!(request.kind_message(), "a network error occurred");
    assert_eq!(request.detail().map(String::as_str), Some("timeout"));

    let gated = GrafanaCliError::CanNotUpdatePermissionsOnNonExistingFolder;
    assert_eq!(
        gated.kind_message(),
        "can not update the permissions on a non-existing folder"
    );
    assert!(gated.detail().is_none());

    let encode = GrafanaCliError::CanNotEncodeUrlParamToString(String::from("bad"));
    assert_eq!(encode.kind_message(), "can not encode url params to string");
    assert_eq!(encode.detail().map(String::as_str), Some("bad"));
}
