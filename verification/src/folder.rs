//! Folder resources: request and response shapes and the validation ahead
//! of folder creation.

use vstd::prelude::*;

use crate::error::GrafanaCliError;

verus! {

/// A request to create a folder.
pub struct AddFolderRequest {
    pub title: String,
}

/// A created folder as the service reports it.
pub struct AddFolderResponse {
    pub id: u32,
    pub uid: String,
    pub title: String,
    pub url: String,
    pub has_acl: bool,
    pub can_save: bool,
    pub can_edit: bool,
    pub can_admin: bool,
    pub created_by: String,
    pub created: String,
    pub updated_by: String,
    pub updated: String,
    pub version: u32,
}

/// A request to create a folder.
pub struct CreateFolderRequest {
    pub title: String,
}

/// A created folder as the service reports it.
pub struct CreateFolderResponse {
    pub id: u32,
    pub uid: String,
    pub title: String,
    pub url: String,
    pub has_acl: bool,
    pub can_save: bool,
    pub can_edit: bool,
    pub can_admin: bool,
    pub created_by: String,
    pub created: String,
    pub updated_by: String,
    pub updated: String,
    pub version: u32,
}

/// One folder as the listing endpoint reports it.
pub struct QueryFolderResponse {
    pub id: u32,
    pub uid: String,
    pub title: String,
}

/// One folder as the single-folder endpoint reports it, with the parent
/// fields that are present only for nested folders.
#[derive(Clone)]
pub struct GetFolderResponse {
    pub id: u32,
    pub uid: String,
    pub title: String,
    pub url: String,
    pub has_acl: bool,
    pub can_save: bool,
    pub can_edit: bool,
    pub can_admin: bool,
    pub created_by: String,
    pub created: String,
    pub updated_by: String,
    pub updated: String,
    pub version: u8,
    pub parent_uid: Option<String>,
    pub parents: Option<Vec<String>>,
}

/// The title a folder creation will use, or the error reported when none
/// was resolved: a folder is never created without a title.
pub fn require_folder_title(title: Option<String>) -> (r: Result<String, GrafanaCliError>)
    ensures
        match title {
            Some(t) => r == Ok::<String, GrafanaCliError>(t),
            None => r matches Err(e) && e is CanNotAddFolderWithoutTitle,
        },
{
    match title {
        Some(t) => Ok(t),
        None => Err(GrafanaCliError::CanNotAddFolderWithoutTitle),
    }
}

/// The creation request for a folder with `title`.
pub fn add_folder_request(title: String) -> (r: AddFolderRequest)
    ensures
        r.title == title,
{
    AddFolderRequest { title }
}

} // verus!
