//! The scope resolver: turning a fuzzy selection criterion into a
//! concrete, ordered list of resource identifiers.
//!
//! Explicit identifiers short-circuit resolution with no search call.
//! Otherwise the resolver issues one search per supplied filter dimension
//! and then one combined search that narrows by both: dashboards whose
//! name matches the name pattern, restricted to the folders whose name
//! matched the folder pattern. The surrounding binary performs each
//! search the resolver asks for and hands the identifiers back.

use vstd::prelude::*;

use crate::dashboard::clone_string_vec;
use crate::search::DASH_DB_TYPE;
use crate::search::DASH_FOLDER_TYPE;
use crate::search::SearchDashTypeRequest;

verus! {

/// A fuzzy selection: an optional name pattern, an optional parent-folder
/// name pattern, and an optional set of explicit identifiers that, when
/// non-empty, is the scope itself.
pub struct ScopeCriterion {
    /// Dashboards whose name is like this pattern.
    pub name_pattern: Option<String>,
    /// Restrict to folders whose name is like this pattern.
    pub folder_pattern: Option<String>,
    /// Exactly these identifiers, overriding both patterns.
    pub explicit_ids: Vec<String>,
}

/// The concrete, ordered identifiers a criterion resolved to at one point
/// in time.
pub type ResolvedScope = Vec<String>;

/// Which answer the resolver is waiting for.
#[derive(Debug, PartialEq, Eq, Structural)]
pub enum ResolveStep {
    /// Awaiting the folders matching the folder pattern.
    FolderSearch,
    /// Awaiting the dashboards matching the name pattern.
    DashboardSearch,
    /// Awaiting the combined search, narrowed by both earlier answers.
    CombinedSearch,
    /// Resolution is done.
    Resolved,
}

/// A scope resolution in progress.
pub struct ScopeResolver {
    pub criterion: ScopeCriterion,
    pub step: ResolveStep,
    pub folder_uids: Vec<String>,
    pub dashboard_uids: Vec<String>,
    pub scope: Vec<String>,
}

impl ScopeResolver {
    /// Explicit identifiers resolve immediately — with no search — to
    /// exactly themselves; otherwise resolution starts at the first
    /// supplied filter dimension with both narrowing lists empty.
    pub open spec fn wf(&self) -> bool {
        &&& self.criterion.explicit_ids@.len() > 0 ==> (self.step is Resolved && self.scope@
            == self.criterion.explicit_ids@)
        &&& self.step is FolderSearch ==> self.criterion.folder_pattern is Some
        &&& self.step is DashboardSearch ==> self.criterion.name_pattern is Some
    }

    /// Starts resolving `criterion`.
    ///
    /// A non-empty explicit identifier set takes precedence with no
    /// search: the resolver is immediately resolved to exactly that set,
    /// unmodified, whatever the patterns say.
    pub fn new(criterion: ScopeCriterion) -> (r: Self)
        ensures
            r.wf(),
            r.criterion == criterion,
            criterion.explicit_ids@.len() > 0 ==> (r.step is Resolved && r.scope@
                == criterion.explicit_ids@),
            criterion.explicit_ids@.len() == 0 ==> {
                &&& r.scope@.len() == 0
                &&& r.folder_uids@.len() == 0
                &&& r.dashboard_uids@.len() == 0
                &&& r.step == if criterion.folder_pattern is Some {
                    ResolveStep::FolderSearch
                } else if criterion.name_pattern is Some {
                    ResolveStep::DashboardSearch
                } else {
                    ResolveStep::CombinedSearch
                }
            },
    {
        if criterion.explicit_ids.len() > 0 {
            let scope = clone_string_vec(&criterion.explicit_ids);
            Self {
                criterion,
                step: ResolveStep::Resolved,
                folder_uids: Vec::new(),
                dashboard_uids: Vec::new(),
                scope,
            }
        } else {
            let step = if criterion.folder_pattern.is_some() {
                ResolveStep::FolderSearch
            } else if criterion.name_pattern.is_some() {
                ResolveStep::DashboardSearch
            } else {
                ResolveStep::CombinedSearch
            };
            Self {
                criterion,
                step,
                folder_uids: Vec::new(),
                dashboard_uids: Vec::new(),
                scope: Vec::new(),
            }
        }
    }

    /// The search the resolver needs next, or `None` once resolved: a
    /// folder search for the folder pattern, a dashboard search for the
    /// name pattern, then one combined dashboard search restricted to
    /// exactly the identifiers the two earlier answers supplied.
    pub fn next_request(&self) -> (r: Option<SearchDashTypeRequest>)
        requires
            self.wf(),
        ensures
            (r is Some) == !(self.step is Resolved),
            self.step is FolderSearch ==> (r matches Some(q) && {
                &&& q.kind matches Some(k) && k@ == "dash-folder"@
                &&& q.query == self.criterion.folder_pattern
                &&& q.folder_uids is None
                &&& q.dashboard_uids is None
            }),
            self.step is DashboardSearch ==> (r matches Some(q) && {
                &&& q.kind matches Some(k) && k@ == "dash-db"@
                &&& q.query == self.criterion.name_pattern
                &&& q.folder_uids is None
                &&& q.dashboard_uids is None
            }),
            self.step is CombinedSearch ==> (r matches Some(q) && {
                &&& q.kind matches Some(k) && k@ == "dash-db"@
                &&& q.query is None
                &&& q.folder_uids matches Some(f) && f@ == self.folder_uids@
                &&& q.dashboard_uids matches Some(d) && d@ == self.dashboard_uids@
            }),
    {
        match self.step {
            ResolveStep::FolderSearch => {
                let pattern = match &self.criterion.folder_pattern {
                    Some(p) => p.clone(),
                    None => String::new(),
                };
                Some(SearchDashTypeRequest::type_query(DASH_FOLDER_TYPE.to_owned(), pattern))
            },
            ResolveStep::DashboardSearch => {
                let pattern = match &self.criterion.name_pattern {
                    Some(p) => p.clone(),
                    None => String::new(),
                };
                Some(SearchDashTypeRequest::type_query(DASH_DB_TYPE.to_owned(), pattern))
            },
            ResolveStep::CombinedSearch => Some(
                SearchDashTypeRequest {
                    kind: Some(DASH_DB_TYPE.to_owned()),
                    query: None,
                    folder_uids: Some(clone_string_vec(&self.folder_uids)),
                    dashboard_uids: Some(clone_string_vec(&self.dashboard_uids)),
                },
            ),
            ResolveStep::Resolved => None,
        }
    }

    /// Records the identifiers the pending search answered with and moves
    /// to the next step. The combined search's answer becomes the scope,
    /// unmodified.
    pub fn apply_response(&mut self, uids: Vec<String>)
        requires
            old(self).wf(),
            !(old(self).step is Resolved),
        ensures
            final(self).wf(),
            final(self).criterion == old(self).criterion,
            old(self).step is FolderSearch ==> {
                &&& final(self).folder_uids@ == uids@
                &&& final(self).dashboard_uids == old(self).dashboard_uids
                &&& final(self).scope == old(self).scope
                &&& final(self).step == if old(self).criterion.name_pattern is Some {
                    ResolveStep::DashboardSearch
                } else {
                    ResolveStep::CombinedSearch
                }
            },
            old(self).step is DashboardSearch ==> {
                &&& final(self).dashboard_uids@ == uids@
                &&& final(self).folder_uids == old(self).folder_uids
                &&& final(self).scope == old(self).scope
                &&& final(self).step is CombinedSearch
            },
            old(self).step is CombinedSearch ==> {
                &&& final(self).scope@ == uids@
                &&& final(self).folder_uids == old(self).folder_uids
                &&& final(self).dashboard_uids == old(self).dashboard_uids
                &&& final(self).step is Resolved
            },
    {
        match self.step {
            ResolveStep::FolderSearch => {
                self.folder_uids = uids;
                self.step = if self.criterion.name_pattern.is_some() {
                    ResolveStep::DashboardSearch
                } else {
                    ResolveStep::CombinedSearch
                };
            },
            ResolveStep::DashboardSearch => {
                self.dashboard_uids = uids;
                self.step = ResolveStep::CombinedSearch;
            },
            ResolveStep::CombinedSearch => {
                self.scope = uids;
                self.step = ResolveStep::Resolved;
            },
            ResolveStep::Resolved => {},
        }
    }

    /// Whether resolution is done.
    pub fn is_resolved(&self) -> (r: bool)
        ensures
            r == (self.step is Resolved),
    {
        match self.step {
            ResolveStep::Resolved => true,
            _ => false,
        }
    }

    /// Hands out the resolved scope.
    pub fn into_scope(self) -> (r: ResolvedScope)
        requires
            self.step is Resolved,
        ensures
            r@ == self.scope@,
    {
        self.scope
    }
}

/// Law: explicit identifiers admit no short-circuit escape. A resolver
/// over a criterion with a non-empty explicit identifier set is resolved
/// to exactly that set, unmodified, even when the name and folder
/// patterns are also set — and asks for no search, since `next_request`
/// answers `None` in the resolved step.
pub proof fn lemma_explicit_ids_take_precedence(r: ScopeResolver)
    requires
        r.wf(),
        r.criterion.explicit_ids@.len() > 0,
    ensures
        r.step is Resolved,
        r.scope@ == r.criterion.explicit_ids@,
{
}

/// Law: scope narrowing is correct. Suppose a resolver with both a
/// folder pattern and a name pattern is driven by conforming search
/// answers: the folder search answers exactly the folders matching the
/// folder pattern, the dashboard search exactly the dashboards matching
/// the name pattern, and the combined search exactly those of the listed
/// dashboards whose folder is among the listed folders. Then the
/// resolved scope holds exactly the dashboards that match the name
/// pattern and reside under a folder matching the folder pattern: no
/// dashboard under a non-matching folder, and no folder-only match
/// without a dashboard match.
pub proof fn lemma_scope_narrowing(
    folders_matching: Set<Seq<char>>,
    dashboards_matching: Set<Seq<char>>,
    folder_of: Map<Seq<char>, Seq<char>>,
    folder_answer: Seq<Seq<char>>,
    dashboard_answer: Seq<Seq<char>>,
    combined_answer: Seq<Seq<char>>,
)
    requires
        forall|u: Seq<char>|
            #[trigger] folder_answer.contains(u) <==> folders_matching.contains(u),
        forall|u: Seq<char>|
            #[trigger] dashboard_answer.contains(u) <==> dashboards_matching.contains(u),
        forall|u: Seq<char>|
            #[trigger] combined_answer.contains(u) <==> (dashboard_answer.contains(u)
                && folder_of.contains_key(u) && folder_answer.contains(folder_of[u])),
    ensures
        forall|u: Seq<char>|
            #[trigger] combined_answer.contains(u) <==> (dashboards_matching.contains(u)
                && folder_of.contains_key(u) && folders_matching.contains(folder_of[u])),
{
}

} // verus!
