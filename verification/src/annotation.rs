//! Annotation requests: the three annotation modes, validation of the
//! time bounds ahead of any remote call, and the per-panel requests of a
//! dashboard-scoped annotation fan-out.

use vstd::prelude::*;

use crate::dashboard::GetPanel;
use crate::dashboard::clone_string_vec;
use crate::date::datetime_millis;
use crate::date::from_datetime_to_epoch_time_millis;
use crate::date::parse_datetime_to_epoch_time_millis;
use crate::date::valid_datetime;
use crate::error::GrafanaCliError;
use crate::options::AnnotationOptions;

verus! {

/// A request to create an annotation. Without a dashboard and panel
/// reference it creates an organizational annotation; with a time end it
/// creates a regional one.
pub struct AddAnnotationRequest {
    /// The dashboard holding the annotated panel, if any.
    pub dashboard_uid: Option<String>,
    /// The annotated panel, if any.
    pub panel_id: Option<u32>,
    /// Epoch time in millisecond resolution.
    pub time: Option<i64>,
    /// Epoch time end in millisecond resolution, for a regional annotation.
    pub time_end: Option<i64>,
    /// Tags associated with this annotation.
    pub tags: Vec<String>,
    /// Description of the annotation.
    pub text: String,
}

/// The answer to an annotation creation: the new annotation's id when one
/// was created, and the status message.
pub struct AddAnnotationResponse {
    pub id: Option<u32>,
    pub message: String,
}

/// The three ways an annotation request is carried out.
#[derive(Debug, PartialEq, Eq, Structural)]
pub enum AnnotationMode {
    /// Annotate every matching panel of every dashboard in a searched scope.
    ScopedFanOut,
    /// One organizational annotation, not bound to a panel.
    Organizational,
    /// One annotation on a named dashboard panel.
    DashboardPanel,
}

/// The mode `annotation_mode` assigns to the options.
pub open spec fn annotation_mode_of(opt: &AnnotationOptions) -> AnnotationMode {
    if opt.all_panel_where_dashboard_name_is_like is Some
        || opt.within_folders_where_folder_name_is_like is Some {
        AnnotationMode::ScopedFanOut
    } else if opt.organizational {
        AnnotationMode::Organizational
    } else {
        AnnotationMode::DashboardPanel
    }
}

/// Chooses the annotation mode: a scope filter selects the fan-out over
/// searched dashboards, the organizational flag an organizational
/// annotation, and otherwise a single dashboard panel is annotated.
pub fn annotation_mode(opt: &AnnotationOptions) -> (r: AnnotationMode)
    ensures
        r == annotation_mode_of(opt),
{
    if opt.all_panel_where_dashboard_name_is_like.is_some()
        || opt.within_folders_where_folder_name_is_like.is_some() {
        AnnotationMode::ScopedFanOut
    } else if opt.organizational {
        AnnotationMode::Organizational
    } else {
        AnnotationMode::DashboardPanel
    }
}

/// The organizational annotation request: no dashboard or panel
/// reference and no time bounds, only the tags and the comment.
pub fn organizational_annotation_request(opt: &AnnotationOptions) -> (r: AddAnnotationRequest)
    ensures
        r.dashboard_uid is None,
        r.panel_id is None,
        r.time is None,
        r.time_end is None,
        r.tags@ == opt.tags@,
        r.text == opt.comment,
{
    AddAnnotationRequest {
        dashboard_uid: None,
        panel_id: None,
        time: None,
        time_end: None,
        tags: clone_string_vec(&opt.tags),
        text: opt.comment.clone(),
    }
}

/// Whether `o` holds a datetime that fails the canonical format.
pub open spec fn holds_malformed_datetime(o: &Option<String>) -> bool {
    o matches Some(s) && !valid_datetime(s@)
}

/// The epoch milliseconds an optional datetime resolves to: absent and
/// malformed datetimes alike resolve to no time.
pub open spec fn millis_of_opt(o: &Option<String>) -> Option<i64> {
    match o {
        Some(s) => if valid_datetime(s@) {
            Some(datetime_millis(s@) as i64)
        } else {
            None
        },
        None => None,
    }
}

/// The single-panel annotation request, built from the options and the
/// values resolved at the terminal for the fields that were absent.
///
/// A start or end datetime that was supplied as an option but does not
/// follow the canonical format is rejected before any call; a datetime
/// gathered only at the prompt falls back to an untimed annotation when
/// malformed.
pub fn dashboard_panel_annotation_request(
    opt: &AnnotationOptions,
    resolved_dashboard_uid: Option<String>,
    resolved_panel_id: Option<u32>,
    resolved_start: Option<String>,
) -> (r: Result<AddAnnotationRequest, GrafanaCliError>)
    requires
        opt.start_datetime is Some ==> resolved_start == opt.start_datetime,
    ensures
        holds_malformed_datetime(&opt.start_datetime) ==> (r matches Err(e)
            && e is CanNotParseTheStartDateTimeToEpochTimeMillis),
        (!holds_malformed_datetime(&opt.start_datetime) && holds_malformed_datetime(
            &opt.end_datetime,
        )) ==> (r matches Err(e) && e is CanNotParseTheEndDateTimeToEpochTimeMillis),
        (!holds_malformed_datetime(&opt.start_datetime) && !holds_malformed_datetime(
            &opt.end_datetime,
        )) ==> (r matches Ok(req) && {
            &&& req.dashboard_uid == resolved_dashboard_uid
            &&& req.panel_id == resolved_panel_id
            &&& req.time == millis_of_opt(&resolved_start)
            &&& req.time_end == millis_of_opt(&opt.end_datetime)
            &&& req.tags@ == opt.tags@
            &&& req.text == opt.comment
        }),
{
    let time = parse_datetime_to_epoch_time_millis(&resolved_start);
    let time_end = parse_datetime_to_epoch_time_millis(&opt.end_datetime);
    if opt.start_datetime.is_some() && time.is_none() {
        return Err(GrafanaCliError::CanNotParseTheStartDateTimeToEpochTimeMillis);
    }
    if opt.end_datetime.is_some() && time_end.is_none() {
        return Err(GrafanaCliError::CanNotParseTheEndDateTimeToEpochTimeMillis);
    }
    Ok(AddAnnotationRequest {
        dashboard_uid: resolved_dashboard_uid,
        panel_id: resolved_panel_id,
        time,
        time_end,
        tags: clone_string_vec(&opt.tags),
        text: opt.comment.clone(),
    })
}

/// The time bounds of a scoped annotation fan-out. Both bounds are
/// structurally required: an absent bound is its own error, a bound that
/// fails the canonical format surfaces the malformed text, and no search
/// or annotation call is attempted in either case.
pub fn scoped_annotation_time_bounds(
    start_datetime: &Option<String>,
    end_datetime: &Option<String>,
) -> (r: Result<(i64, i64), GrafanaCliError>)
    ensures
        start_datetime is None ==> (r matches Err(e)
            && e is CanNotParseTheStartDateTimeToEpochTimeMillis),
        start_datetime matches Some(s) ==> (!valid_datetime(s@) ==> (r matches Err(e)
            && e matches GrafanaCliError::CanNotParseDateTimeToEpochTimeMillis(d) && d@ == s@)),
        start_datetime matches Some(s) ==> (valid_datetime(s@) ==> (end_datetime is None ==> (
        r matches Err(e) && e is CanNotParseTheEndDateTimeToEpochTimeMillis))),
        start_datetime matches Some(s) ==> (valid_datetime(s@) ==> (
        end_datetime matches Some(s2) ==> (!valid_datetime(s2@) ==> (r matches Err(e)
            && e matches GrafanaCliError::CanNotParseDateTimeToEpochTimeMillis(d) && d@
            == s2@)))),
        start_datetime matches Some(s) ==> (valid_datetime(s@) ==> (
        end_datetime matches Some(s2) ==> (valid_datetime(s2@) ==> r == Ok::<
            (i64, i64),
            GrafanaCliError,
        >((datetime_millis(s@) as i64, datetime_millis(s2@) as i64))))),
{
    let time = if let Some(start) = start_datetime {
        match from_datetime_to_epoch_time_millis(start.as_str()) {
            Ok(millis) => millis,
            Err(error) => {
                return Err(error);
            },
        }
    } else {
        return Err(GrafanaCliError::CanNotParseTheStartDateTimeToEpochTimeMillis);
    };
    let time_end = if let Some(end) = end_datetime {
        match from_datetime_to_epoch_time_millis(end.as_str()) {
            Ok(millis) => millis,
            Err(error) => {
                return Err(error);
            },
        }
    } else {
        return Err(GrafanaCliError::CanNotParseTheEndDateTimeToEpochTimeMillis);
    };
    Ok((time, time_end))
}

/// The identifiers of the panels of `panels` whose type is `panel_type`,
/// in panel order.
pub open spec fn matching_panel_ids(panels: Seq<GetPanel>, panel_type: Seq<char>) -> Seq<u32>
    decreases panels.len(),
{
    if panels.len() == 0 {
        Seq::empty()
    } else {
        let rest = matching_panel_ids(panels.drop_last(), panel_type);
        if panels.last().kind@ == panel_type {
            rest.push(panels.last().id)
        } else {
            rest
        }
    }
}

/// Whether two strings hold the same characters.
fn str_equal(a: &str, b: &str) -> (r: bool)
    ensures
        r == (a@ == b@),
{
    let owned_a = a.to_owned();
    let owned_b = b.to_owned();
    owned_a == owned_b
}

/// The annotation requests of one dashboard within a scoped fan-out: one
/// request per panel whose type is `panel_type`, in panel order, each
/// carrying the dashboard, the panel, the shared time bounds, the tags
/// and the comment.
pub fn annotation_requests_for_panels(
    dashboard_uid: &String,
    panels: &Vec<GetPanel>,
    panel_type: &str,
    tags: &Vec<String>,
    comment: &String,
    time: Option<i64>,
    time_end: Option<i64>,
) -> (r: Vec<AddAnnotationRequest>)
    ensures
        r@.len() == matching_panel_ids(panels@, panel_type@).len(),
        forall|i: int|
            0 <= i < r@.len() ==> {
                &&& (#[trigger] r@[i]).dashboard_uid matches Some(u) && u@ == dashboard_uid@
                &&& r@[i].panel_id == Some(matching_panel_ids(panels@, panel_type@)[i])
                &&& r@[i].time == time
                &&& r@[i].time_end == time_end
                &&& r@[i].tags@ == tags@
                &&& r@[i].text == *comment
            },
{
    let mut requests: Vec<AddAnnotationRequest> = Vec::new();
    let mut i: usize = 0;
    while i < panels.len()
        invariant
            i <= panels@.len(),
            requests@.len() == matching_panel_ids(panels@.subrange(0, i as int), panel_type@).len(),
            forall|j: int|
                0 <= j < requests@.len() ==> {
                    &&& (#[trigger] requests@[j]).dashboard_uid matches Some(u) && u@
                        == dashboard_uid@
                    &&& requests@[j].panel_id == Some(
                        matching_panel_ids(panels@.subrange(0, i as int), panel_type@)[j],
                    )
                    &&& requests@[j].time == time
                    &&& requests@[j].time_end == time_end
                    &&& requests@[j].tags@ == tags@
                    &&& requests@[j].text == *comment
                },
        decreases panels@.len() - i,
    {
        proof {
            assert(panels@.subrange(0, i + 1 as int).drop_last() =~= panels@.subrange(0, i as int));
            assert(panels@.subrange(0, i + 1 as int).last() == panels@[i as int]);
        }
        let panel = &panels[i];
        if str_equal(panel.kind.as_str(), panel_type) {
            requests.push(
                AddAnnotationRequest {
                    dashboard_uid: Some(dashboard_uid.clone()),
                    panel_id: Some(panel.id),
                    time,
                    time_end,
                    tags: clone_string_vec(tags),
                    text: comment.clone(),
                },
            );
        }
        i = i + 1;
    }
    proof {
        assert(panels@.subrange(0, panels@.len() as int) =~= panels@);
    }
    requests
}

} // verus!
