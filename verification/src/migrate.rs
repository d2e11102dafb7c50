//! The schema-migration command: which action a command line asks for, and what the
//! state of each application migration means for that action.

use vstd::prelude::*;
use crate::text::{concat2, owned, str_eq};

verus! {

/// What the migration command does.
#[derive(Clone, Copy, Debug, PartialEq, Eq)]
pub enum MigrationAction {
    Apply,
    Plan,
    Verify,
    VerifyDatabase,
    Status,
}

/// The action a command argument names; no argument means `status`.
pub fn parse_migration_command(arg: Option<&str>) -> (r: Result<MigrationAction, String>)
    ensures
        match arg {
            None => r == Ok::<MigrationAction, String>(MigrationAction::Status),
            Some(a) => if a@ == "apply"@ {
                r == Ok::<MigrationAction, String>(MigrationAction::Apply)
            } else if a@ == "plan"@ {
                r == Ok::<MigrationAction, String>(MigrationAction::Plan)
            } else if a@ == "verify"@ {
                r == Ok::<MigrationAction, String>(MigrationAction::Verify)
            } else if a@ == "verify-database"@ {
                r == Ok::<MigrationAction, String>(MigrationAction::VerifyDatabase)
            } else if a@ == "status"@ {
                r == Ok::<MigrationAction, String>(MigrationAction::Status)
            } else {
                r matches Err(m) && m@ == "unknown migration command "@ + a@
            },
        },
{
    match arg {
        None => Ok(MigrationAction::Status),
        Some(a) => if str_eq(a, "apply") {
            Ok(MigrationAction::Apply)
        } else if str_eq(a, "plan") {
            Ok(MigrationAction::Plan)
        } else if str_eq(a, "verify") {
            Ok(MigrationAction::Verify)
        } else if str_eq(a, "verify-database") {
            Ok(MigrationAction::VerifyDatabase)
        } else if str_eq(a, "status") {
            Ok(MigrationAction::Status)
        } else {
            Err(concat2("unknown migration command ", a))
        },
    }
}

/// The application migrations, in the order they are applied.
pub fn app_migration_versions() -> (v: Vec<&'static str>)
    ensures
        v@.len() == 3,
        v@[0]@ == "0001_app_storage"@,
        v@[1]@ == "0002_tax_profiles_and_oauth"@,
        v@[2]@ == "0003_hashed_tin_and_sync_stubs"@,
{
    vec!["0001_app_storage", "0002_tax_profiles_and_oauth", "0003_hashed_tin_and_sync_stubs"]
}

/// What the check of one application migration concludes.
#[derive(Clone, Debug, PartialEq, Eq)]
pub enum MigrationVerdict {
    /// The migration is recorded as applied.
    Applied,
    /// Planning or status: the schema table could not be read, so the migration is
    /// reported as pending and the run goes on.
    ReportPending,
    /// The run fails with this message.
    Fail(String),
}

/// The verdict on one migration: `applied` is whether its version is recorded, or the
/// error reading the record. Planning and status only report an unreadable record; any
/// other action fails on it; a migration not recorded fails every action.
pub fn migration_verdict(action: MigrationAction, version: &str, applied: &Result<bool, String>) -> (v: MigrationVerdict)
    ensures
        match *applied {
            Ok(true) => v == MigrationVerdict::Applied,
            Ok(false) => v matches MigrationVerdict::Fail(m) && m@ == "Buwiz app schema has pending migration: "@ + version@,
            Err(e) => if action == MigrationAction::Plan || action == MigrationAction::Status {
                v == MigrationVerdict::ReportPending
            } else {
                v matches MigrationVerdict::Fail(m) && m@ == "Buwiz app schema is unavailable: "@ + e@
            },
        },
{
    match applied {
        Ok(true) => MigrationVerdict::Applied,
        Ok(false) => MigrationVerdict::Fail(concat2("Buwiz app schema has pending migration: ", version)),
        Err(e) => match action {
            MigrationAction::Plan | MigrationAction::Status => MigrationVerdict::ReportPending,
            _ => MigrationVerdict::Fail(concat2("Buwiz app schema is unavailable: ", e.as_str())),
        },
    }
}

} // verus!
