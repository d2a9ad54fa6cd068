use fi_grafana::annotation::{
    annotation_mode, annotation_requests_for_panels, dashboard_panel_annotation_request,
    organizational_annotation_request, scoped_annotation_time_bounds, AnnotationMode,
};
use fi_grafana::dashboard::{GetPanel, GetPanelDataSource, GetPanelGridPosition};
use fi_grafana::error::GrafanaCliError;
use fi_grafana::fanout::{FanOutExecutor, FanOutOutcome};
use fi_grafana::options::AnnotationOptions;

fn options() -> AnnotationOptions {
    AnnotationOptions {
        dashboard_uid: None,
        panel_id: None,
        start_datetime: None,
        end_datetime: None,
        tags: vec![String::from("deploy")],
        comment: String::from("rollout"),
        organizational: false,
        all_panel_where_dashboard_name_is_like: None,
        within_folders_where_folder_name_is_like: None,
    }
}

fn panel(id: u32, kind: &str) -> GetPanel {
    GetPanel {
        id,
        title: format!("panel {}", id),
        kind: kind.to_string(),
        datasource: GetPanelDataSource { kind: String::from("prometheus"), uid: String::from("ds") },
        grid_pos: GetPanelGridPosition { h: 8, w: 12, x: 0, y: 0 },
    }
}

#[test]
fn mode_prefers_the_scoped_fan_out() {
    let mut opt = options();
    assert_eq!(annotation_mode(&opt), AnnotationMode::DashboardPanel);
    opt.organizational = true;
    assert_eq!(annotation_mode(&opt), AnnotationMode::Organizational);
    // A scope filter wins even over the organizational flag.
    opt.within_folders_where_folder_name_is_like = Some(String::from("prod"));
    assert_eq!(annotation_mode(&opt), AnnotationMode::ScopedFanOut);
    opt.within_folders_where_folder_name_is_like = None;
    opt.all_panel_where_dashboard_name_is_like = Some(String::from("cpu"));
    assert_eq!(annotation_mode(&opt), AnnotationMode::ScopedFanOut);
}

#[test]
fn organizational_request_has_no_panel_reference_and_no_times() {
    let mut opt = options();
    opt.dashboard_uid = Some(String::from("ignored"));
    opt.panel_id = Some(4);
    let request = organizational_annotation_request(&opt);
    assert!(request.dashboard_uid.is_none());
    assert!(request.panel_id.is_none());
    assert!(request.time.is_none());
    assert!(request.time_end.is_none());
    assert_eq!(request.tags, vec![String::from("deploy")]);
    assert_eq!(request.text, "rollout");
}

#[test]
fn panel_request_rejects_a_malformed_supplied_start() {
    let mut opt = options();
    opt.start_datetime = Some(String::from("2024-99-99 00:00"));
    let result = dashboard_panel_annotation_request(
        &opt,
        Some(String::from("d1")),
        Some(2),
        opt.start_datetime.clone(),
    );
    assert!(matches!(
        result,
        Err(GrafanaCliError::CanNotParseTheStartDateTimeToEpochTimeMillis)
    ));
}

#[test]
fn panel_request_rejects_a_malformed_supplied_end() {
    let mut opt = options();
    opt.start_datetime = Some(String::from("2024-03-01 12:30"));
    opt.end_datetime = Some(String::from("soon"));
    let result = dashboard_panel_annotation_request(
        &opt,
        Some(String::from("d1")),
        Some(2),
        opt.start_datetime.clone(),
    );
    assert!(matches!(
        result,
        Err(GrafanaCliError::CanNotParseTheEndDateTimeToEpochTimeMillis)
    ));
}

#[test]
fn panel_request_carries_the_resolved_values() {
    let mut opt = options();
    opt.start_datetime = Some(String::from("2024-03-01 12:30"));
    let request = dashboard_panel_annotation_request(
        &opt,
        Some(String::from("d1")),
        Some(2),
        opt.start_datetime.clone(),
    )
    .unwrap();
    assert_eq!(request.dashboard_uid.as_deref(), Some("d1"));
    assert_eq!(request.panel_id, Some(2));
    assert_eq!(request.time, Some(1_709_296_200_000));
    assert_eq!(request.time_end, None);
    assert_eq!(request.text, "rollout");
}

#[test]
fn scoped_bounds_require_both_datetimes() {
    assert!(matches!(
        scoped_annotation_time_bounds(&None, &Some(String::from("2024-03-01 12:30"))),
        Err(GrafanaCliError::CanNotParseTheStartDateTimeToEpochTimeMillis)
    ));
    assert!(matches!(
        scoped_annotation_time_bounds(&Some(String::from("2024-03-01 12:30")), &None),
        Err(GrafanaCliError::CanNotParseTheEndDateTimeToEpochTimeMillis)
    ));
    match scoped_annotation_time_bounds(&Some(String::from("nonsense")), &None) {
        Err(GrafanaCliError::CanNotParseDateTimeToEpochTimeMillis(d)) => {
            assert_eq!(d, "nonsense");
        }
        _ => panic!("the malformed start must surface its text"),
    }
    let bounds = scoped_annotation_time_bounds(
        &Some(String::from("2024-03-01 12:30")),
        &Some(String::from("2024-03-01 13:30")),
    )
    .unwrap();
    assert_eq!(bounds.0, 1_709_296_200_000);
    assert_eq!(bounds.1, 1_709_299_800_000);
}

#[test]
fn panel_fan_out_targets_only_the_requested_type() {
    let uid = String::from("dash-1");
    let panels = vec![
        panel(1, "timeseries"),
        panel(2, "table"),
        panel(3, "timeseries"),
        panel(4, "stat"),
    ];
    let tags = vec![String::from("deploy")];
    let comment = String::from("rollout");
    let requests = annotation_requests_for_panels(
        &uid,
        &panels,
        "timeseries",
        &tags,
        &comment,
        Some(100),
        Some(200),
    );
    assert_eq!(requests.len(), 2);
    assert_eq!(requests[0].panel_id, Some(1));
    assert_eq!(requests[1].panel_id, Some(3));
    for request in &requests {
        assert_eq!(request.dashboard_uid.as_deref(), Some("dash-1"));
        assert_eq!(request.time, Some(100));
        assert_eq!(request.time_end, Some(200));
        assert_eq!(request.tags, tags);
        assert_eq!(request.text, "rollout");
    }
}

#[test]
fn no_matching_panel_means_no_request() {
    let uid = String::from("dash-1");
    let panels = vec![panel(1, "table")];
    let requests = annotation_requests_for_panels(
        &uid,
        &panels,
        "timeseries",
        &Vec::new(),
        &String::from("x"),
        None,
        None,
    );
    assert!(requests.is_empty());
}

#[test]
fn scoped_fan_out_flattens_across_dashboards() {
    // Two dashboards with two and one matching panels: the flat request
    // list has three entries, and a fan-out over it yields exactly three
    // outcomes — one per leaf sub-target, never per dashboard.

    let first = String::from("dash-1");
    let second = String::from("dash-2");
    let first_panels = vec![panel(1, "timeseries"), panel(2, "table"), panel(3, "timeseries")];
    let second_panels = vec![panel(9, "timeseries")];
    let tags: Vec<String> = Vec::new();
    let comment = String::from("rollout");

    let mut requests = annotation_requests_for_panels(
        &first,
        &first_panels,
        "timeseries",
        &tags,
        &comment,
        Some(1),
        Some(2),
    );
    requests.extend(annotation_requests_for_panels(
        &second,
        &second_panels,
        "timeseries",
        &tags,
        &comment,
        Some(1),
        Some(2),
    ));
    assert_eq!(requests.len(), 3);

    let targets: Vec<String> = requests
        .iter()
        .map(|r| r.dashboard_uid.clone().unwrap())
        .collect();
    let mut executor: FanOutExecutor<u32> = FanOutExecutor::new(targets);
    for request in &requests {
        let panel = request.panel_id.unwrap();
        if panel == 3 {
            executor.record_failure(String::from("rate limited"));
        } else {
            executor.record_success(panel);
        }
    }
    assert!(executor.is_complete());
    let outcomes = executor.into_outcomes();
    assert_eq!(outcomes.len(), 3);
    assert!(matches!(&outcomes[0], FanOutOutcome::Success { target, value: 1 } if target.as_str() == "dash-1"));
    assert!(matches!(&outcomes[1], FanOutOutcome::Failure { target, .. } if target.as_str() == "dash-1"));
    assert!(matches!(&outcomes[2], FanOutOutcome::Success { target, value: 9 } if target.as_str() == "dash-2"));
}
