//! Verified core of a command-line client that provisions and manages
//! resources (teams, folders, dashboards, permissions, annotations) in a
//! remote visualization platform.
//!
//! The library holds the decision logic: scope resolution over search
//! results, fan-out bookkeeping across resolved targets, the provisioning
//! cascade for a team pair with its backing folder and permission bindings,
//! confirmation-gated bulk deletion, and validation of the canonical
//! datetime format. All remote calls and terminal interaction are performed
//! by the surrounding binary, which only carries out the actions these
//! state machines request.

pub mod annotation;
pub mod cleanup;
pub mod dashboard;
pub mod date;
pub mod error;
pub mod fanout;
pub mod folder;
pub mod options;
pub mod permission;
pub mod provision;
pub mod scope;
pub mod search;
pub mod shell;
pub mod team;
