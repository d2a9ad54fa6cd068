//! The command surface: parsed requests, resource aliases, and the
//! decisions behind interactive prompting.
//!
//! The surrounding binary reads the command line and the terminal; the
//! functions here decide what those inputs mean: which resource a long or
//! single-letter alias names, which value an optional field resolves to
//! once a prompt was answered, and whether an answer confirms an action.

use vstd::prelude::*;
use vstd::string::StringExecFns;

use crate::options::AnnotationOptions;
use crate::options::DashboardOptions;
use crate::options::FolderOptions;
use crate::options::FolderPermissionOptions;
use crate::options::TeamOptions;

verus! {

/// A line of terminal input, already classified as a number or as text.
pub enum UserInput {
    Number(u32),
    Text(String),
}

/// Resolves an optional field against an answer gathered at the terminal:
/// a value that was supplied on the command line wins, and the gathered
/// answer stands in only where the field was absent.
pub fn prompt_option(opt: Option<String>, gathered: Option<String>) -> (r: Option<String>)
    ensures
        opt is Some ==> r == opt,
        opt is None ==> r == gathered,
{
    if opt.is_some() {
        opt
    } else {
        gathered
    }
}

/// Whether a terminal answer confirms a pending action: only the exact
/// text `y` does.
pub fn is_affirmative(input: &UserInput) -> (r: bool)
    ensures
        r == (input matches UserInput::Text(s) && s@ == "y"@),
{
    match input {
        UserInput::Text(s) => *s == String::from_str("y"),
        UserInput::Number(_) => false,
    }
}

/// The parsed command line: one request method applied to one resource.
pub struct Cli {
    pub method: RequestMethod,
}

/// The four request methods of the command surface. The overwrite method,
/// spelled `set` on the command line, is named `Update` here.
pub enum RequestMethod {
    Add(AddRequest),
    Get(GetRequest),
    Update(SetRequest),
    Del(DelRequest),
}

/// A request to create a resource.
pub struct AddRequest {
    pub resource: NamedResource,
}

/// A request to read a resource.
pub struct GetRequest {
    pub resource: NamedResource,
}

/// A request to overwrite a resource.
pub struct SetRequest {
    pub resource: NamedResource,
}

/// A request to delete a resource.
pub struct DelRequest {
    pub resource: NamedResource,
}

/// A resource named on the command line, in long form or by its
/// single-letter alias.
pub enum NamedResource {
    Annotation(AnnotationOptions),
    A(AnnotationOptions),
    Dashboard(DashboardOptions),
    D(DashboardOptions),
    ServiceAccount,
    SA,
    User,
    U,
    Team(TeamOptions),
    T(TeamOptions),
    Folder(FolderOptions),
    F(FolderOptions),
    Permission(FolderPermissionOptions),
    P(FolderPermissionOptions),
    Role,
    R,
}

/// The kind of resource a name denotes, with aliases folded away.
#[derive(Debug, PartialEq, Eq, Structural)]
pub enum ResourceKind {
    Annotation,
    Dashboard,
    ServiceAccount,
    User,
    Team,
    Folder,
    Permission,
    Role,
}

/// The kind `resource_kind` assigns to each named resource.
pub open spec fn kind_of(resource: &NamedResource) -> ResourceKind {
    match resource {
        NamedResource::Annotation(_) => ResourceKind::Annotation,
        NamedResource::A(_) => ResourceKind::Annotation,
        NamedResource::Dashboard(_) => ResourceKind::Dashboard,
        NamedResource::D(_) => ResourceKind::Dashboard,
        NamedResource::ServiceAccount => ResourceKind::ServiceAccount,
        NamedResource::SA => ResourceKind::ServiceAccount,
        NamedResource::User => ResourceKind::User,
        NamedResource::U => ResourceKind::User,
        NamedResource::Team(_) => ResourceKind::Team,
        NamedResource::T(_) => ResourceKind::Team,
        NamedResource::Folder(_) => ResourceKind::Folder,
        NamedResource::F(_) => ResourceKind::Folder,
        NamedResource::Permission(_) => ResourceKind::Permission,
        NamedResource::P(_) => ResourceKind::Permission,
        NamedResource::Role => ResourceKind::Role,
        NamedResource::R => ResourceKind::Role,
    }
}

/// Folds a named resource to its kind, so that a long name and its
/// single-letter alias are handled alike.
pub fn resource_kind(resource: &NamedResource) -> (r: ResourceKind)
    ensures
        r == kind_of(resource),
{
    match resource {
        NamedResource::Annotation(_) => ResourceKind::Annotation,
        NamedResource::A(_) => ResourceKind::Annotation,
        NamedResource::Dashboard(_) => ResourceKind::Dashboard,
        NamedResource::D(_) => ResourceKind::Dashboard,
        NamedResource::ServiceAccount => ResourceKind::ServiceAccount,
        NamedResource::SA => ResourceKind::ServiceAccount,
        NamedResource::User => ResourceKind::User,
        NamedResource::U => ResourceKind::User,
        NamedResource::Team(_) => ResourceKind::Team,
        NamedResource::T(_) => ResourceKind::Team,
        NamedResource::Folder(_) => ResourceKind::Folder,
        NamedResource::F(_) => ResourceKind::Folder,
        NamedResource::Permission(_) => ResourceKind::Permission,
        NamedResource::P(_) => ResourceKind::Permission,
        NamedResource::Role => ResourceKind::Role,
        NamedResource::R => ResourceKind::Role,
    }
}

} // verus!
