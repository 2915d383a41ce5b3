//! Backups: choosing the backup a request means, the restore guard, and
//! the answers of restore and verification.

use vstd::prelude::*;
use vstd::string::*;

use crate::error::{AppError, STATUS_CONFLICT, STATUS_NOT_FOUND};
use crate::numbers::{int_decimal, push_i64};
use crate::text::{str_is, to_chars};

verus! {

/// Create backup request.
#[derive(Debug)]
pub struct CreateBackupRequest {
    pub name: Option<String>,
}

/// Create backup response.
#[derive(Debug)]
pub struct CreateBackupResponse {
    pub name: String,
    pub path: String,
    pub size: u64,
    pub accounts: i64,
    pub transactions: i64,
    pub subscriptions: i64,
    pub encrypted: bool,
    pub compressed: bool,
}

/// A backup in the list of backups.
#[derive(Debug)]
pub struct BackupInfo {
    pub name: String,
    pub path: String,
    pub size: u64,
    pub created_at: String,
    pub encrypted: bool,
    pub compressed: bool,
}

/// Prune request.
#[derive(Debug)]
pub struct PruneBackupsRequest {
    pub keep: Option<usize>,
}

/// Prune response.
#[derive(Debug)]
pub struct PruneBackupsResponse {
    pub deleted_count: usize,
    pub deleted_names: Vec<String>,
    pub retained_count: usize,
    pub bytes_freed: u64,
}

/// Backups kept by a prune: the requested number, seven by default.
pub fn prune_keep(req: &PruneBackupsRequest) -> (r: usize)
    ensures
        r == match req.keep {
            Some(k) => k,
            None => 7,
        },
{
    match req.keep {
        Some(k) => k,
        None => 7,
    }
}

/// The first backup named `name`, or "Backup not found".
pub fn find_backup(names: &Vec<String>, name: &str) -> (r: Result<usize, AppError>)
    ensures
        match r {
            Ok(i) => i < names@.len() && names@[i as int]@ == name@ && forall|j: int|
                0 <= j < i ==> names@[j]@ != name@,
            Err(e) => e@.status == STATUS_NOT_FOUND && e@.message == "Backup not found"@
                && forall|j: int| 0 <= j < names@.len() ==> names@[j]@ != name@,
        },
{
    let want = to_chars(name);
    let mut i: usize = 0;
    while i < names.len()
        invariant
            i <= names@.len(),
            want@ == name@,
            forall|j: int| 0 <= j < i ==> names@[j]@ != name@,
        decreases names.len() - i,
    {
        if str_is(names[i].as_str(), &want) {
            return Ok(i);
        }
        i = i + 1;
    }
    Err(AppError::not_found("Backup not found"))
}

/// Verify backup request.
#[derive(Debug)]
pub struct VerifyBackupRequest {
    pub name: Option<String>,
}

/// The backup a verification is about: the named one, or the first
/// listed; there must be backups.
pub fn backup_to_verify(names: &Vec<String>, req: &VerifyBackupRequest) -> (r: Result<
    usize,
    AppError,
>)
    ensures
        names@.len() == 0 ==> (r matches Err(e) && e@.status == STATUS_NOT_FOUND && e@.message
            == "No backups found"@),
        names@.len() > 0 && req.name is None ==> r == Ok::<usize, AppError>(0),
        names@.len() > 0 && req.name is Some ==> match r {
            Ok(i) => i < names@.len() && names@[i as int]@ == req.name->0@ && forall|j: int|
                0 <= j < i ==> names@[j]@ != req.name->0@,
            Err(e) => e@.status == STATUS_NOT_FOUND && e@.message == "Backup not found"@
                && forall|j: int| 0 <= j < names@.len() ==> names@[j]@ != req.name->0@,
        },
{
    if names.len() == 0 {
        return Err(AppError::not_found("No backups found"));
    }
    match &req.name {
        Some(n) => find_backup(names, n.as_str()),
        None => Ok(0),
    }
}

/// Restore backup request.
#[derive(Debug)]
pub struct RestoreBackupRequest {
    pub force: bool,
}

/// Restore backup response.
#[derive(Debug)]
pub struct RestoreBackupResponse {
    pub success: bool,
    pub message: String,
    pub backup_name: String,
    pub accounts: Option<i64>,
    pub transactions: Option<i64>,
    pub subscriptions: Option<i64>,
}

/// A restore over an existing database needs `force`.
pub fn check_restore(database_exists: bool, req: &RestoreBackupRequest) -> (r: Result<(), AppError>)
    ensures
        r is Ok <==> !database_exists || req.force,
        r matches Err(e) ==> e@.status == STATUS_CONFLICT && e@.message
            == "Database already exists. Set force=true to overwrite."@,
{
    if database_exists && !req.force {
        Err(AppError::conflict("Database already exists. Set force=true to overwrite."))
    } else {
        Ok(())
    }
}

/// The answer to a completed restore, with the restored database's counts
/// of accounts, transactions and subscriptions when it could be read.
pub fn restore_response(backup_name: &str, stats: Option<(i64, i64, i64)>) -> (r:
    RestoreBackupResponse)
    ensures
        r.success,
        r.message@ == "Backup restored. Restart the server to use the restored database."@,
        r.backup_name@ == backup_name@,
        match stats {
            Some((a, t, s)) => r.accounts == Some(a) && r.transactions == Some(t)
                && r.subscriptions == Some(s),
            None => r.accounts is None && r.transactions is None && r.subscriptions is None,
        },
{
    let (accounts, transactions, subscriptions) = match stats {
        Some((a, t, s)) => (Some(a), Some(t), Some(s)),
        None => (None, None, None),
    };
    RestoreBackupResponse {
        success: true,
        message: String::from_str(
            "Backup restored. Restart the server to use the restored database.",
        ),
        backup_name: String::from_str(backup_name),
        accounts,
        transactions,
        subscriptions,
    }
}

/// Verify backup response.
#[derive(Debug)]
pub struct VerifyBackupResponse {
    pub valid: bool,
    pub backup_name: String,
    pub message: String,
    pub accounts: Option<i64>,
    pub transactions: Option<i64>,
    pub subscriptions: Option<i64>,
}

/// How verifying a backup went: it could not be decompressed, the copy
/// could not be opened or read, or it gave its counts of accounts,
/// transactions and subscriptions.
#[derive(Debug)]
pub enum VerifyOutcome {
    RetrieveFailed(String),
    OpenFailed(String),
    StatsFailed(String),
    Stats(i64, i64, i64),
}

pub open spec fn spec_verify_message(o: VerifyOutcome) -> Seq<char> {
    match o {
        VerifyOutcome::RetrieveFailed(e) => "Failed to decompress backup: "@ + e@,
        VerifyOutcome::OpenFailed(e) => "Failed to open database: "@ + e@,
        VerifyOutcome::StatsFailed(e) => "Failed to read database stats: "@ + e@,
        VerifyOutcome::Stats(a, t, s) => "Backup verified successfully: "@ + int_decimal(a as int)
            + " accounts, "@ + int_decimal(t as int) + " transactions, "@ + int_decimal(s as int)
            + " subscriptions"@,
    }
}

/// The answer to a verification: valid exactly when the counts were read.
pub fn verify_response(backup_name: &str, outcome: &VerifyOutcome) -> (r: VerifyBackupResponse)
    ensures
        r.valid == (*outcome is Stats),
        r.backup_name@ == backup_name@,
        r.message@ == spec_verify_message(*outcome),
        match *outcome {
            VerifyOutcome::Stats(a, t, s) => r.accounts == Some(a) && r.transactions == Some(t)
                && r.subscriptions == Some(s),
            _ => r.accounts is None && r.transactions is None && r.subscriptions is None,
        },
{
    let name = String::from_str(backup_name);
    match outcome {
        VerifyOutcome::RetrieveFailed(e) => {
            let mut m = String::from_str("Failed to decompress backup: ");
            m.append(e.as_str());
            VerifyBackupResponse {
                valid: false,
                backup_name: name,
                message: m,
                accounts: None,
                transactions: None,
                subscriptions: None,
            }
        },
        VerifyOutcome::OpenFailed(e) => {
            let mut m = String::from_str("Failed to open database: ");
            m.append(e.as_str());
            VerifyBackupResponse {
                valid: false,
                backup_name: name,
                message: m,
                accounts: None,
                transactions: None,
                subscriptions: None,
            }
        },
        VerifyOutcome::StatsFailed(e) => {
            let mut m = String::from_str("Failed to read database stats: ");
            m.append(e.as_str());
            VerifyBackupResponse {
                valid: false,
                backup_name: name,
                message: m,
                accounts: None,
                transactions: None,
                subscriptions: None,
            }
        },
        VerifyOutcome::Stats(a, t, s) => {
            let mut m = String::from_str("Backup verified successfully: ");
            push_i64(&mut m, *a);
            m.append(" accounts, ");
            push_i64(&mut m, *t);
            m.append(" transactions, ");
            push_i64(&mut m, *s);
            m.append(" subscriptions");
            VerifyBackupResponse {
                valid: true,
                backup_name: name,
                message: m,
                accounts: Some(*a),
                transactions: Some(*t),
                subscriptions: Some(*s),
            }
        },
    }
}

/// The audit action of a verification.
pub fn verify_audit_action(valid: bool) -> (r: &'static str)
    ensures
        valid ==> r@ == "backup_verified"@,
        !valid ==> r@ == "backup_verify_failed"@,
{
    if valid {
        "backup_verified"
    } else {
        "backup_verify_failed"
    }
}

} // verus!
