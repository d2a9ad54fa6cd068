//! The error taxonomy of the client.
//!
//! Transport failures and remote rejections carry the detail text handed in
//! by the caller; validation failures are parameter-free variants detected
//! before any remote call is attempted.

use vstd::prelude::*;

verus! {

/// Every way a command of this client can fail.
#[derive(Debug)]
pub enum GrafanaCliError {
    /// Reading or writing the terminal failed.
    IO(String),
    /// The remote call could not complete; holds the transport detail.
    Request(String),
    /// Team creation answered without a team identifier.
    NoTeamIdReceivedFromGrafanaOnTeamCreation,
    /// Permissions can only be bound to a folder that was named.
    CanNotUpdatePermissionsOnNonExistingFolder,
    /// A datetime did not follow the canonical format; holds the input.
    CanNotParseDateTimeToEpochTimeMillis(String),
    /// The start datetime was absent or malformed.
    CanNotParseTheStartDateTimeToEpochTimeMillis,
    /// The end datetime was absent or malformed.
    CanNotParseTheEndDateTimeToEpochTimeMillis,
    /// The remote body matched neither the success nor the error schema;
    /// holds the raw body for diagnosis.
    InvalidResponseFormat(String),
    /// A folder cannot be created without a title.
    CanNotAddFolderWithoutTitle,
    /// A search request could not be encoded as query parameters.
    CanNotEncodeUrlParamToString(String),
}

impl GrafanaCliError {
    /// A short fixed description of the error kind, without the detail text.
    pub fn kind_message(&self) -> (r: &'static str)
        ensures
            r@ == self.kind_message_spec(),
    {
        match self {
            GrafanaCliError::IO(_) => "an I/O error occurred",
            GrafanaCliError::Request(_) => "a network error occurred",
            GrafanaCliError::NoTeamIdReceivedFromGrafanaOnTeamCreation => {
                "no team id received from grafana server on team creation"
            },
            GrafanaCliError::CanNotUpdatePermissionsOnNonExistingFolder => {
                "can not update the permissions on a non-existing folder"
            },
            GrafanaCliError::CanNotParseDateTimeToEpochTimeMillis(_) => "datetime parse error",
            GrafanaCliError::CanNotParseTheStartDateTimeToEpochTimeMillis => {
                "can not parse the start_datetime to epoch time millis [format: %Y-%m-%d %H:%M]"
            },
            GrafanaCliError::CanNotParseTheEndDateTimeToEpochTimeMillis => {
                "can not parse the end_datetime to epoch time millis [format: %Y-%m-%d %H:%M]"
            },
            GrafanaCliError::InvalidResponseFormat(_) => {
                "an error occurred during request body parsing"
            },
            GrafanaCliError::CanNotAddFolderWithoutTitle => {
                "can not add a folder without a title"
            },
            GrafanaCliError::CanNotEncodeUrlParamToString(_) => {
                "can not encode url params to string"
            },
        }
    }

    /// The text `kind_message` returns for each variant.
    pub open spec fn kind_message_spec(&self) -> Seq<char> {
        match self {
            GrafanaCliError::IO(_) => "an I/O error occurred"@,
            GrafanaCliError::Request(_) => "a network error occurred"@,
            GrafanaCliError::NoTeamIdReceivedFromGrafanaOnTeamCreation => {
                "no team id received from grafana server on team creation"@
            },
            GrafanaCliError::CanNotUpdatePermissionsOnNonExistingFolder => {
                "can not update the permissions on a non-existing folder"@
            },
            GrafanaCliError::CanNotParseDateTimeToEpochTimeMillis(_) => "datetime parse error"@,
            GrafanaCliError::CanNotParseTheStartDateTimeToEpochTimeMillis => {
                "can not parse the start_datetime to epoch time millis [format: %Y-%m-%d %H:%M]"@
            },
            GrafanaCliError::CanNotParseTheEndDateTimeToEpochTimeMillis => {
                "can not parse the end_datetime to epoch time millis [format: %Y-%m-%d %H:%M]"@
            },
            GrafanaCliError::InvalidResponseFormat(_) => {
                "an error occurred during request body parsing"@
            },
            GrafanaCliError::CanNotAddFolderWithoutTitle => {
                "can not add a folder without a title"@
            },
            GrafanaCliError::CanNotEncodeUrlParamToString(_) => {
                "can not encode url params to string"@
            },
        }
    }

    /// The detail text carried by the variants that hold one.
    pub fn detail(&self) -> (r: Option<&String>)
        ensures
            match self {
                GrafanaCliError::IO(d) => r == Some(d),
                GrafanaCliError::Request(d) => r == Some(d),
                GrafanaCliError::CanNotParseDateTimeToEpochTimeMillis(d) => r == Some(d),
                GrafanaCliError::InvalidResponseFormat(d) => r == Some(d),
                GrafanaCliError::CanNotEncodeUrlParamToString(d) => r == Some(d),
                _ => r is None,
            },
    {
        match self {
            GrafanaCliError::IO(d) => Some(d),
            GrafanaCliError::Request(d) => Some(d),
            GrafanaCliError::CanNotParseDateTimeToEpochTimeMillis(d) => Some(d),
            GrafanaCliError::InvalidResponseFormat(d) => Some(d),
            GrafanaCliError::CanNotEncodeUrlParamToString(d) => Some(d),
            _ => None,
        }
    }
}

} // verus!
