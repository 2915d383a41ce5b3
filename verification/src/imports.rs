//! CSV imports: the upload form, the JSON upload, the synchronous insert
//! phase, the background processing phases, and the reprocessing and
//! comparison requests on import sessions.

use vstd::prelude::*;
use vstd::string::*;

use crate::error::{AppError, STATUS_BAD_REQUEST, STATUS_NOT_FOUND};
use crate::numbers::{nat_digits, parse_i64, push_u64, spec_parse_i64};
use crate::text::{opt_view, str_is, to_chars};

verus! {

/// Maximum upload size: 10 MiB.
pub const MAX_UPLOAD_SIZE: usize = 10_485_760;

/// The message for an upload over `MAX_UPLOAD_SIZE`.
pub open spec fn too_large_message() -> Seq<char> {
    "File too large. Maximum size is "@ + nat_digits((MAX_UPLOAD_SIZE / 1024 / 1024) as nat)
        + " MB"@
}

fn too_large() -> (r: AppError)
    ensures
        r@.status == STATUS_BAD_REQUEST,
        r@.message == too_large_message(),
        r@.internal is None,
{
    let mut m = String::from_str("File too large. Maximum size is ");
    push_u64(&mut m, (MAX_UPLOAD_SIZE / 1024 / 1024) as u64);
    m.append(" MB");
    AppError::bad_request(m.as_str())
}

/// The fields of the import form that are read; others are skipped.
#[derive(Debug)]
pub enum FormField {
    File,
    AccountId,
    Model,
    Ignored,
}

pub fn form_field(name: &str) -> (r: FormField)
    ensures
        name@ == "file"@ ==> r is File,
        name@ == "account_id"@ ==> r is AccountId,
        name@ == "model"@ ==> r is Model,
        name@ != "file"@ && name@ != "account_id"@ && name@ != "model"@ ==> r is Ignored,
{
    let n = to_chars(name);
    proof {
        reveal_strlit("file");
        reveal_strlit("account_id");
        reveal_strlit("model");
        assert("file"@.len() == 4);
        assert("account_id"@.len() == 10);
        assert("model"@.len() == 5);
    }
    if str_is("file", &n) {
        FormField::File
    } else if str_is("account_id", &n) {
        FormField::AccountId
    } else if str_is("model", &n) {
        FormField::Model
    } else {
        FormField::Ignored
    }
}

/// The import form as its fields arrive: the last file, the account, an
/// optional model override, and the bytes of all files read so far.
#[derive(Debug)]
pub struct UploadForm {
    pub file: Option<Vec<u8>>,
    pub account_id: Option<i64>,
    pub model: Option<String>,
    pub total_size: usize,
}

impl UploadForm {
    pub fn new() -> (r: Self)
        ensures
            r.file is None,
            r.account_id is None,
            r.model is None,
            r.total_size == 0,
    {
        UploadForm { file: None, account_id: None, model: None, total_size: 0 }
    }

    /// A `file` field: counted against the size limit, and kept (replacing
    /// an earlier one) while the total stays within it.
    pub fn add_file(&mut self, bytes: Vec<u8>) -> (r: Result<(), AppError>)
        requires
            old(self).total_size <= MAX_UPLOAD_SIZE,
        ensures
            old(self).total_size + bytes@.len() > MAX_UPLOAD_SIZE <==> r is Err,
            r matches Err(e) ==> e@.status == STATUS_BAD_REQUEST && e@.message
                == too_large_message(),
            r is Ok ==> final(self).total_size <= MAX_UPLOAD_SIZE,
            r is Ok ==> final(self).total_size == old(self).total_size + bytes@.len()
                && final(self).file == Some(bytes) && final(self).account_id == old(self).account_id && final(self).model == old(self).model,
    {
        if bytes.len() > MAX_UPLOAD_SIZE - self.total_size {
            return Err(too_large());
        }
        self.total_size = self.total_size + bytes.len();
        self.file = Some(bytes);
        Ok(())
    }

    /// An `account_id` field: it must be a decimal `i64`.
    pub fn add_account_id(&mut self, value: &str) -> (r: Result<(), AppError>)
        ensures
            spec_parse_i64(value@) is None <==> r is Err,
            r matches Err(e) ==> e@.status == STATUS_BAD_REQUEST && e@.message
                == "Invalid account_id: "@ + value@,
            r is Ok ==> final(self).account_id == spec_parse_i64(value@) && final(self).file == old(self).file && final(self).model == old(self).model && final(self).total_size == old(self).total_size,
    {
        match parse_i64(value) {
            Some(v) => {
                self.account_id = Some(v);
                Ok(())
            },
            None => Err(AppError::bad_request_detail("Invalid account_id: ", value)),
        }
    }

    /// A `model` field: an empty value leaves the override unset.
    pub fn add_model(&mut self, value: String)
        ensures
            value@.len() > 0 ==> opt_view(final(self).model) == Some(value@),
            value@.len() == 0 ==> opt_view(final(self).model) == opt_view(old(self).model),
            final(self).file == old(self).file,
            final(self).account_id == old(self).account_id,
            final(self).total_size == old(self).total_size,
    {
        if value.unicode_len() > 0 {
            self.model = Some(value);
        }
    }

    /// The file, the account and the model override, once the form is read.
    pub fn finish(self) -> (r: Result<(Vec<u8>, i64, Option<String>), AppError>)
        ensures
            match r {
                Ok((f, a, m)) => self.file == Some(f) && self.account_id == Some(a) && opt_view(m)
                    == opt_view(self.model),
                Err(e) => e@.status == STATUS_BAD_REQUEST && (if self.file is None {
                    e@.message == "Missing file field"@
                } else {
                    self.account_id is None && e@.message == "Missing account_id field"@
                }),
            },
    {
        let file = match self.file {
            Some(f) => f,
            None => {
                return Err(AppError::bad_request("Missing file field"));
            },
        };
        let account = match self.account_id {
            Some(a) => a,
            None => {
                return Err(AppError::bad_request("Missing account_id field"));
            },
        };
        Ok((file, account, self.model))
    }
}

/// Import CSV data sent as JSON, base64-encoded.
#[derive(Debug)]
pub struct ImportCsvJsonRequest {
    pub account_id: i64,
    pub csv_data: String,
    pub model: Option<String>,
}

/// What the standard base64 alphabet (with padding) decodes `text` to, or
/// `None` when it is not valid base64.
pub uninterp spec fn base64_decoded(text: Seq<char>) -> Option<Seq<u8>>;

/// Decodes with `base64::engine::general_purpose::STANDARD.decode`.
/// Claimed: `Ok` exactly when `base64_decoded(text)` is some value, and
/// then that value; the error is the decoder's message.
#[verifier::external_body]
fn base64_decode(text: &str) -> (r: Result<Vec<u8>, String>)
    ensures
        match r {
            Ok(v) => base64_decoded(text@) == Some(v@),
            Err(_) => base64_decoded(text@) is None,
        },
{
    base64::Engine::decode(&base64::engine::general_purpose::STANDARD, text).map_err(
        |e| e.to_string(),
    )
}

/// The CSV bytes of a JSON upload, given what decoding gave: an invalid
/// encoding or an oversized file is a bad request.
pub fn check_decoded_upload(decoded: Result<Vec<u8>, String>) -> (r: Result<Vec<u8>, AppError>)
    ensures
        match decoded {
            Err(e) => r matches Err(x) && x@.status == STATUS_BAD_REQUEST && x@.message
                == "Invalid base64 data: "@ + e@,
            Ok(v) => if v@.len() > MAX_UPLOAD_SIZE {
                r matches Err(x) && x@.status == STATUS_BAD_REQUEST && x@.message
                    == too_large_message()
            } else {
                r == Ok::<Vec<u8>, AppError>(v)
            },
        },
{
    match decoded {
        Err(e) => Err(AppError::bad_request_detail("Invalid base64 data: ", e.as_str())),
        Ok(v) => {
            if v.len() > MAX_UPLOAD_SIZE {
                Err(too_large())
            } else {
                Ok(v)
            }
        },
    }
}

/// The CSV bytes of a JSON upload: base64-decoded, at most `MAX_UPLOAD_SIZE`.
pub fn decode_json_upload(req: &ImportCsvJsonRequest) -> (r: Result<Vec<u8>, AppError>)
    ensures
        r matches Ok(v) ==> base64_decoded(req.csv_data@) == Some(v@) && v@.len()
            <= MAX_UPLOAD_SIZE,
        base64_decoded(req.csv_data@) is None ==> r is Err,
        (base64_decoded(req.csv_data@) matches Some(v) && v.len() > MAX_UPLOAD_SIZE) ==> (r matches Err(
            x,
        ) && x@.message == too_large_message()),
{
    check_decoded_upload(base64_decode(req.csv_data.as_str()))
}

/// An account as the import sees it.
#[derive(Debug)]
pub struct AccountRef {
    pub id: i64,
    pub name: String,
    pub bank: String,
}

/// The position of the account with identifier `id`: the first one, or
/// "Account not found".
pub fn find_account(accounts: &Vec<AccountRef>, id: i64) -> (r: Result<usize, AppError>)
    ensures
        match r {
            Ok(i) => i < accounts@.len() && accounts@[i as int].id == id && forall|j: int|
                0 <= j < i ==> accounts@[j].id != id,
            Err(e) => e@.status == STATUS_NOT_FOUND && e@.message == "Account not found"@
                && forall|j: int| 0 <= j < accounts@.len() ==> accounts@[j].id != id,
        },
{
    let mut i: usize = 0;
    while i < accounts.len()
        invariant
            i <= accounts@.len(),
            forall|j: int| 0 <= j < i ==> accounts@[j].id != id,
        decreases accounts.len() - i,
    {
        if accounts[i].id == id {
            return Ok(i);
        }
        i = i + 1;
    }
    Err(AppError::not_found("Account not found"))
}

/// The model an import or reprocess runs with: the override when AI is
/// configured (its default model given), else the default; none without AI.
pub fn effective_model(default_model: Option<&str>, model_override: Option<&str>) -> (r: Option<
    String,
>)
    ensures
        match (default_model, model_override) {
            (Some(_), Some(m)) => opt_view(r) == Some(m@),
            (Some(d), None) => opt_view(r) == Some(d@),
            (None, _) => r is None,
        },
{
    match (default_model, model_override) {
        (Some(_), Some(m)) => Some(String::from_str(m)),
        (Some(d), None) => Some(String::from_str(d)),
        (None, _) => None,
    }
}

/// What inserting one parsed transaction gave.
#[derive(Debug)]
pub enum InsertOutcome {
    Inserted(i64),
    Duplicate(i64),
}

/// Counts of the synchronous import phase.
#[derive(Debug)]
pub struct ImportTally {
    pub imported: usize,
    pub skipped: usize,
}

impl ImportTally {
    pub fn new() -> (r: Self)
        ensures
            r.imported == 0,
            r.skipped == 0,
    {
        ImportTally { imported: 0, skipped: 0 }
    }

    /// Count one insert; a duplicate gives the existing transaction's
    /// identifier, which the skipped-transaction record refers to.
    pub fn record(&mut self, outcome: &InsertOutcome) -> (r: Option<i64>)
        requires
            old(self).imported + old(self).skipped < usize::MAX,
        ensures
            match *outcome {
                InsertOutcome::Inserted(_) => final(self).imported == old(self).imported + 1
                    && final(self).skipped == old(self).skipped && r is None,
                InsertOutcome::Duplicate(existing) => final(self).skipped == old(self).skipped + 1
                    && final(self).imported == old(self).imported && r == Some(existing),
            },
    {
        match outcome {
            InsertOutcome::Inserted(_) => {
                self.imported = self.imported + 1;
                None
            },
            InsertOutcome::Duplicate(existing) => {
                self.skipped = self.skipped + 1;
                Some(*existing)
            },
        }
    }

    /// Whether background AI processing follows: only when something was
    /// imported; otherwise the session is complete at once.
    pub fn needs_processing(&self) -> (r: bool)
        ensures
            r == (self.imported > 0),
    {
        self.imported > 0
    }
}

/// The phases of background processing of an import or a reprocess.
#[derive(Debug, Clone, Copy, PartialEq, Eq, Structural)]
pub enum ImportPhase {
    Clearing,
    Tagging,
    Normalizing,
    MatchingReceipts,
    Detecting,
}

/// The name stored as an import session's progress phase.
pub open spec fn spec_phase_name(p: ImportPhase) -> Seq<char> {
    match p {
        ImportPhase::Clearing => "clearing"@,
        ImportPhase::Tagging => "tagging"@,
        ImportPhase::Normalizing => "normalizing"@,
        ImportPhase::MatchingReceipts => "matching_receipts"@,
        ImportPhase::Detecting => "detecting"@,
    }
}

pub fn phase_name(p: &ImportPhase) -> (r: &'static str)
    ensures
        r@ == spec_phase_name(*p),
{
    match p {
        ImportPhase::Clearing => "clearing",
        ImportPhase::Tagging => "tagging",
        ImportPhase::Normalizing => "normalizing",
        ImportPhase::MatchingReceipts => "matching_receipts",
        ImportPhase::Detecting => "detecting",
    }
}

/// Phases after a fresh import: tagging, merchant normalization (only with
/// an AI backend), receipt matching, detection.
pub open spec fn spec_import_phases(has_ai: bool) -> Seq<ImportPhase> {
    if has_ai {
        seq![
            ImportPhase::Tagging,
            ImportPhase::Normalizing,
            ImportPhase::MatchingReceipts,
            ImportPhase::Detecting,
        ]
    } else {
        seq![ImportPhase::Tagging, ImportPhase::MatchingReceipts, ImportPhase::Detecting]
    }
}

/// Phases of a reprocess: clearing automatic results, tagging, merchant
/// normalization (only with an AI backend), detection.
pub open spec fn spec_reprocess_phases(has_ai: bool) -> Seq<ImportPhase> {
    if has_ai {
        seq![
            ImportPhase::Clearing,
            ImportPhase::Tagging,
            ImportPhase::Normalizing,
            ImportPhase::Detecting,
        ]
    } else {
        seq![ImportPhase::Clearing, ImportPhase::Tagging, ImportPhase::Detecting]
    }
}

pub fn import_phases(has_ai: bool) -> (r: Vec<ImportPhase>)
    ensures
        r@ == spec_import_phases(has_ai),
{
    let mut v: Vec<ImportPhase> = Vec::new();
    v.push(ImportPhase::Tagging);
    if has_ai {
        v.push(ImportPhase::Normalizing);
    }
    v.push(ImportPhase::MatchingReceipts);
    v.push(ImportPhase::Detecting);
    proof {
        if has_ai {
            assert(v@ =~= spec_import_phases(has_ai));
        } else {
            assert(v@ =~= spec_import_phases(has_ai));
        }
    }
    v
}

pub fn reprocess_phases(has_ai: bool) -> (r: Vec<ImportPhase>)
    ensures
        r@ == spec_reprocess_phases(has_ai),
{
    let mut v: Vec<ImportPhase> = Vec::new();
    v.push(ImportPhase::Clearing);
    v.push(ImportPhase::Tagging);
    if has_ai {
        v.push(ImportPhase::Normalizing);
    }
    v.push(ImportPhase::Detecting);
    proof {
        assert(v@ =~= spec_reprocess_phases(has_ai));
    }
    v
}

/// The progress recorded when a phase starts, as (current, total):
/// clearing and tagging count the session's transactions, normalization
/// learns its total later, receipt matching and detection count one step.
pub open spec fn spec_phase_start(p: ImportPhase, transactions: i64) -> (i64, i64) {
    match p {
        ImportPhase::Clearing => (0, transactions),
        ImportPhase::Tagging => (0, transactions),
        ImportPhase::Normalizing => (0, 0),
        ImportPhase::MatchingReceipts => (0, 1),
        ImportPhase::Detecting => (0, 1),
    }
}

pub fn phase_start(p: &ImportPhase, transactions: i64) -> (r: (i64, i64))
    ensures
        r == spec_phase_start(*p, transactions),
{
    match p {
        ImportPhase::Clearing => (0, transactions),
        ImportPhase::Tagging => (0, transactions),
        ImportPhase::Normalizing => (0, 0),
        ImportPhase::MatchingReceipts => (0, 1),
        ImportPhase::Detecting => (0, 1),
    }
}

/// Background processing of an import or a reprocess, step by step: each
/// step starts the next phase with its initial progress, until the run is
/// complete.
#[derive(Debug)]
pub struct ProcessingRun {
    pub phases: Vec<ImportPhase>,
    pub next: usize,
    /// The transactions the run covers (the progress total of the
    /// clearing and tagging phases).
    pub transactions: i64,
}

/// What the runner does next.
#[derive(Debug)]
pub enum ProcessingStep {
    /// Record `phase` with progress (`current`, `total`) and run it.
    Start { phase: ImportPhase, current: i64, total: i64 },
    /// Every phase ran: record the results and mark the session completed.
    Complete,
}

impl ProcessingRun {
    /// The run after a fresh import (`reprocess` false) or for a reprocess.
    pub fn new(reprocess: bool, has_ai: bool, transactions: i64) -> (r: Self)
        ensures
            r.phases@ == if reprocess {
                spec_reprocess_phases(has_ai)
            } else {
                spec_import_phases(has_ai)
            },
            r.next == 0,
            r.transactions == transactions,
    {
        let phases = if reprocess {
            reprocess_phases(has_ai)
        } else {
            import_phases(has_ai)
        };
        ProcessingRun { phases, next: 0, transactions }
    }

    /// The next step: the next phase in order, then completion (again on
    /// every later call).
    pub fn step(&mut self) -> (r: ProcessingStep)
        ensures
            final(self).phases@ == old(self).phases@,
            final(self).transactions == old(self).transactions,
            old(self).next < old(self).phases@.len() ==> final(self).next == old(self).next + 1
                && r == (ProcessingStep::Start {
                    phase: old(self).phases@[old(self).next as int],
                    current: spec_phase_start(
                        old(self).phases@[old(self).next as int],
                        old(self).transactions,
                    ).0,
                    total: spec_phase_start(
                        old(self).phases@[old(self).next as int],
                        old(self).transactions,
                    ).1,
                }),
            old(self).next >= old(self).phases@.len() ==> final(self).next == old(self).next
                && r == ProcessingStep::Complete,
    {
        if self.next < self.phases.len() {
            let phase = self.phases[self.next];
            let (current, total) = phase_start(&phase, self.transactions);
            self.next = self.next + 1;
            ProcessingStep::Start { phase, current, total }
        } else {
            ProcessingStep::Complete
        }
    }
}

/// The user an import session records: none for an empty name.
pub fn session_user(user_email: &str) -> (r: Option<String>)
    ensures
        user_email@.len() == 0 ==> r is None,
        user_email@.len() > 0 ==> (r matches Some(u) && u@ == user_email@),
{
    if user_email.unicode_len() == 0 {
        None
    } else {
        Some(String::from_str(user_email))
    }
}

/// Which waste detector to build: with every AI capability available.
#[derive(Debug)]
pub enum DetectorKind {
    AiAndOrchestrator,
    OrchestratorOnly,
    AiOnly,
    Basic,
}

pub fn detector_kind(has_orchestrator: bool, has_ai: bool) -> (r: DetectorKind)
    ensures
        has_orchestrator && has_ai ==> r is AiAndOrchestrator,
        has_orchestrator && !has_ai ==> r is OrchestratorOnly,
        !has_orchestrator && has_ai ==> r is AiOnly,
        !has_orchestrator && !has_ai ==> r is Basic,
{
    if has_orchestrator && has_ai {
        DetectorKind::AiAndOrchestrator
    } else if has_orchestrator {
        DetectorKind::OrchestratorOnly
    } else if has_ai {
        DetectorKind::AiOnly
    } else {
        DetectorKind::Basic
    }
}

/// A reprocess may start unless the session is being processed already.
pub fn check_reprocess_allowed(is_processing: bool) -> (r: Result<(), AppError>)
    ensures
        r is Ok <==> !is_processing,
        r matches Err(e) ==> e@.status == STATUS_BAD_REQUEST && e@.message
            == "Import session is already being processed"@,
{
    if is_processing {
        Err(AppError::bad_request("Import session is already being processed"))
    } else {
        Ok(())
    }
}

/// Response for reprocessing an import session (async start).
#[derive(Debug)]
pub struct ReprocessStartResponse {
    pub session_id: i64,
    pub run_id: i64,
    pub run_number: i64,
    pub message: String,
}

pub fn reprocess_started(session_id: i64, run_id: i64, run_number: i64) -> (r:
    ReprocessStartResponse)
    ensures
        r.session_id == session_id,
        r.run_id == run_id,
        r.run_number == run_number,
        r.message@ == "Reprocess started. Poll GET /api/imports/:id for progress."@,
{
    ReprocessStartResponse {
        session_id,
        run_id,
        run_number,
        message: String::from_str("Reprocess started. Poll GET /api/imports/:id for progress."),
    }
}

/// Optional request body for reprocessing.
#[derive(Debug)]
pub struct ReprocessRequest {
    pub model: Option<String>,
}

/// Response for cancelling an import session.
#[derive(Debug)]
pub struct CancelImportResponse {
    pub cancelled: bool,
    pub message: String,
}

/// The answer when the session is not processing: nothing is cancelled.
pub fn cancel_refused(status: &str) -> (r: CancelImportResponse)
    ensures
        !r.cancelled,
        r.message@ == "Import is not in processing state (current: "@ + status@ + ")"@,
{
    let mut m = String::from_str("Import is not in processing state (current: ");
    m.append(status);
    m.append(")");
    CancelImportResponse { cancelled: false, message: m }
}

/// The answer once the cancel was attempted.
pub fn cancel_result(cancelled: bool) -> (r: CancelImportResponse)
    ensures
        r.cancelled == cancelled,
        cancelled ==> r.message@ == "Import cancelled successfully"@,
        !cancelled ==> r.message@ == "Import was not in processing state"@,
{
    if cancelled {
        CancelImportResponse {
            cancelled: true,
            message: String::from_str("Import cancelled successfully"),
        }
    } else {
        CancelImportResponse {
            cancelled: false,
            message: String::from_str("Import was not in processing state"),
        }
    }
}

/// Query parameters for comparing runs.
#[derive(Debug)]
pub struct CompareRunsQuery {
    pub run_a: i64,
    pub run_b: i64,
}

/// What to compare: run B with the initial import, or two runs.
#[derive(Debug)]
pub enum RunComparisonKind {
    InitialVsRun,
    RunVsRun,
}

/// Check a run comparison: `run_a == 0` compares run B with the initial
/// import. Each run is given by the session it belongs to (`None` when it
/// does not exist); both must belong to `session_id`.
pub fn check_run_comparison(
    session_id: i64,
    query: &CompareRunsQuery,
    run_a_session: Option<i64>,
    run_b_session: Option<i64>,
) -> (r: Result<RunComparisonKind, AppError>)
    ensures
        query.run_a == 0 ==> match run_b_session {
            None => r matches Err(e) && e@.status == STATUS_NOT_FOUND && e@.message
                == "Run B not found"@,
            Some(s) => if s != session_id {
                r matches Err(e) && e@.status == STATUS_BAD_REQUEST && e@.message
                    == "Run must belong to the specified import session"@
            } else {
                r matches Ok(RunComparisonKind::InitialVsRun)
            },
        },
        query.run_a != 0 ==> match (run_a_session, run_b_session) {
            (None, _) => r matches Err(e) && e@.status == STATUS_NOT_FOUND && e@.message
                == "Run A not found"@,
            (Some(_), None) => r matches Err(e) && e@.status == STATUS_NOT_FOUND && e@.message
                == "Run B not found"@,
            (Some(a), Some(b)) => if a != session_id || b != session_id {
                r matches Err(e) && e@.status == STATUS_BAD_REQUEST && e@.message
                    == "Both runs must belong to the specified import session"@
            } else {
                r matches Ok(RunComparisonKind::RunVsRun)
            },
        },
{
    if query.run_a == 0 {
        match run_b_session {
            None => Err(AppError::not_found("Run B not found")),
            Some(s) => {
                if s != session_id {
                    Err(AppError::bad_request("Run must belong to the specified import session"))
                } else {
                    Ok(RunComparisonKind::InitialVsRun)
                }
            },
        }
    } else {
        match (run_a_session, run_b_session) {
            (None, _) => Err(AppError::not_found("Run A not found")),
            (Some(_), None) => Err(AppError::not_found("Run B not found")),
            (Some(a), Some(b)) => {
                if a != session_id || b != session_id {
                    Err(
                        AppError::bad_request(
                            "Both runs must belong to the specified import session",
                        ),
                    )
                } else {
                    Ok(RunComparisonKind::RunVsRun)
                }
            },
        }
    }
}

/// The error when a comparison has no data to compare.
pub fn missing_snapshot(kind: &RunComparisonKind) -> (r: AppError)
    ensures
        r@.status == STATUS_BAD_REQUEST,
        *kind is InitialVsRun ==> r@.message
            == "Cannot compare to initial: run is missing 'after' snapshot"@,
        *kind is RunVsRun ==> r@.message
            == "Cannot compare runs: one or both are missing 'after' snapshots"@,
{
    match kind {
        RunComparisonKind::InitialVsRun => AppError::bad_request(
            "Cannot compare to initial: run is missing 'after' snapshot",
        ),
        RunComparisonKind::RunVsRun => AppError::bad_request(
            "Cannot compare runs: one or both are missing 'after' snapshots",
        ),
    }
}

/// A reprocess run is shown only under the session it belongs to.
pub fn check_run_session(session_id: i64, run_session: Option<i64>) -> (r: Result<(), AppError>)
    ensures
        r is Ok <==> run_session == Some(session_id),
        r matches Err(e) ==> e@.status == STATUS_NOT_FOUND && e@.message
            == "Reprocess run not found"@,
{
    match run_session {
        Some(s) => {
            if s == session_id {
                Ok(())
            } else {
                Err(AppError::not_found("Reprocess run not found"))
            }
        },
        None => Err(AppError::not_found("Reprocess run not found")),
    }
}

/// Default page size of the import-session lists.
pub fn default_limit() -> (r: i64)
    ensures
        r == 50,
{
    50
}

/// Query parameters for listing import sessions.
#[derive(Debug)]
pub struct ImportSessionsQuery {
    pub account_id: Option<i64>,
    pub limit: i64,
    pub offset: i64,
}

/// Most import sessions listed at once, as the listing documents.
pub const MAX_IMPORT_SESSIONS: i64 = 100;

/// The number of import sessions a listing returns: the requested limit
/// brought into 1..=100.
pub fn import_sessions_limit(limit: i64) -> (r: i64)
    ensures
        r == (if limit < 1 {
            1
        } else if limit > MAX_IMPORT_SESSIONS {
            MAX_IMPORT_SESSIONS
        } else {
            limit
        }),
{
    if limit < 1 {
        1
    } else if limit > MAX_IMPORT_SESSIONS {
        MAX_IMPORT_SESSIONS
    } else {
        limit
    }
}

/// Number of rows that were inserted.
pub open spec fn count_inserted(s: Seq<InsertOutcome>) -> nat
    decreases s.len(),
{
    if s.len() == 0 {
        0
    } else {
        count_inserted(s.drop_last()) + if s.last() is Inserted {
            1nat
        } else {
            0nat
        }
    }
}

/// Number of rows that were duplicates of stored transactions.
pub open spec fn count_duplicates(s: Seq<InsertOutcome>) -> nat
    decreases s.len(),
{
    if s.len() == 0 {
        0
    } else {
        count_duplicates(s.drop_last()) + if s.last() is Duplicate {
            1nat
        } else {
            0nat
        }
    }
}

/// Every row is either inserted or a duplicate; a re-import of rows that
/// are all stored already imports nothing.
pub proof fn law_rows_inserted_or_skipped(s: Seq<InsertOutcome>)
    ensures
        count_inserted(s) + count_duplicates(s) == s.len(),
        (forall|i: int| 0 <= i < s.len() ==> #[trigger] s[i] is Duplicate) ==> count_inserted(s)
            == 0 && count_duplicates(s) == s.len(),
        (forall|i: int| 0 <= i < s.len() ==> #[trigger] s[i] is Inserted) ==> count_inserted(s)
            == s.len() && count_duplicates(s) == 0,
    decreases s.len(),
{
    if s.len() > 0 {
        law_rows_inserted_or_skipped(s.drop_last());
        assert forall|i: int| 0 <= i < s.drop_last().len() implies #[trigger] s.drop_last()[i]
            == s[i] by {}
    }
}

/// The tally of a whole import, one record per parsed row: the inserted
/// rows are the imported ones and the duplicates the skipped ones.
pub fn tally_inserts(outcomes: &Vec<InsertOutcome>) -> (r: ImportTally)
    requires
        outcomes@.len() < usize::MAX,
    ensures
        r.imported == count_inserted(outcomes@),
        r.skipped == count_duplicates(outcomes@),
        r.imported + r.skipped == outcomes@.len(),
{
    let mut tally = ImportTally::new();
    let mut i: usize = 0;
    while i < outcomes.len()
        invariant
            i <= outcomes@.len(),
            outcomes@.len() < usize::MAX,
            tally.imported == count_inserted(outcomes@.take(i as int)),
            tally.skipped == count_duplicates(outcomes@.take(i as int)),
            tally.imported + tally.skipped == i,
        decreases outcomes@.len() - i,
    {
        assert(outcomes@.take(i + 1).drop_last() =~= outcomes@.take(i as int));
        tally.record(&outcomes[i]);
        i = i + 1;
    }
    assert(outcomes@.take(outcomes@.len() as int) =~= outcomes@);
    tally
}

/// How an import's transactions were tagged, by source.
#[derive(Debug, Clone, Copy, PartialEq, Eq, Structural)]
pub struct ImportTaggingBreakdown {
    pub by_learned: i64,
    pub by_rule: i64,
    pub by_pattern: i64,
    pub by_ollama: i64,
    pub by_bank_category: i64,
    pub fallback: i64,
}

impl ImportTaggingBreakdown {
    pub open spec fn spec_zero() -> Self {
        ImportTaggingBreakdown {
            by_learned: 0,
            by_rule: 0,
            by_pattern: 0,
            by_ollama: 0,
            by_bank_category: 0,
            fallback: 0,
        }
    }

    /// No transaction tagged yet.
    pub fn zero() -> (r: Self)
        ensures
            r == Self::spec_zero(),
    {
        ImportTaggingBreakdown {
            by_learned: 0,
            by_rule: 0,
            by_pattern: 0,
            by_ollama: 0,
            by_bank_category: 0,
            fallback: 0,
        }
    }
}

/// What tagging an import session's transactions reported.
#[derive(Debug, Clone, Copy)]
pub struct BackfillCounts {
    pub transactions_processed: i64,
    pub transactions_tagged: i64,
    pub by_learned: i64,
    pub by_rule: i64,
    pub by_pattern: i64,
    pub by_ollama: i64,
    pub by_bank_category: i64,
    pub fallback_to_other: i64,
}

/// The tagging breakdown a run records: the backfill's counts by source,
/// the fallback to "Other" as `fallback`.
pub fn tagging_breakdown(b: &BackfillCounts) -> (r: ImportTaggingBreakdown)
    ensures
        r == (ImportTaggingBreakdown {
            by_learned: b.by_learned,
            by_rule: b.by_rule,
            by_pattern: b.by_pattern,
            by_ollama: b.by_ollama,
            by_bank_category: b.by_bank_category,
            fallback: b.fallback_to_other,
        }),
{
    ImportTaggingBreakdown {
        by_learned: b.by_learned,
        by_rule: b.by_rule,
        by_pattern: b.by_pattern,
        by_ollama: b.by_ollama,
        by_bank_category: b.by_bank_category,
        fallback: b.fallback_to_other,
    }
}

/// The answer to an import: what was imported and skipped, and the
/// session to follow; AI processing runs on in the background, so its
/// counts start at zero.
#[derive(Debug)]
pub struct ImportResponse {
    pub imported: usize,
    pub skipped: usize,
    pub account_name: String,
    pub bank: String,
    pub import_session_id: i64,
    pub transactions_tagged: i64,
    pub tagging_breakdown: ImportTaggingBreakdown,
    pub receipts_matched: usize,
    pub subscriptions_found: usize,
    pub zombies_detected: usize,
    pub price_increases_detected: usize,
    pub duplicates_detected: usize,
}

/// The answer to an import with the tally `tally`.
pub fn import_response(tally: &ImportTally, account_name: String, bank: String, session_id: i64) -> (r:
    ImportResponse)
    ensures
        r.imported == tally.imported,
        r.skipped == tally.skipped,
        r.account_name == account_name,
        r.bank == bank,
        r.import_session_id == session_id,
        r.transactions_tagged == 0,
        r.tagging_breakdown == ImportTaggingBreakdown::spec_zero(),
        r.receipts_matched == 0,
        r.subscriptions_found == 0,
        r.zombies_detected == 0,
        r.price_increases_detected == 0,
        r.duplicates_detected == 0,
{
    ImportResponse {
        imported: tally.imported,
        skipped: tally.skipped,
        account_name,
        bank,
        import_session_id: session_id,
        transactions_tagged: 0,
        tagging_breakdown: ImportTaggingBreakdown::zero(),
        receipts_matched: 0,
        subscriptions_found: 0,
        zombies_detected: 0,
        price_increases_detected: 0,
        duplicates_detected: 0,
    }
}

/// What detection found while an import was processed.
#[derive(Debug, Clone, Copy)]
pub struct DetectionCounts {
    pub subscriptions_found: i64,
    pub zombies_detected: i64,
    pub price_increases_detected: i64,
    pub duplicates_detected: i64,
    pub receipts_matched: i64,
}

/// The results recorded when an import session's processing completes.
#[derive(Debug, Clone, Copy)]
pub struct ImportResults {
    pub imported_count: i64,
    pub skipped_count: i64,
    pub tagging: ImportTaggingBreakdown,
    pub detections: DetectionCounts,
}

/// The final results of an import session: the imported and skipped
/// counts already stored for it are kept, beside this run's tagging
/// breakdown and what detection found; a session that is no longer stored
/// is an error.
pub fn final_import_results(
    stored: Option<(i64, i64)>,
    tagging: ImportTaggingBreakdown,
    detections: DetectionCounts,
) -> (r: Result<
    ImportResults,
    String,
>)
    ensures
        match stored {
            Some((imported, skipped)) => r == Ok::<ImportResults, String>(
                ImportResults { imported_count: imported, skipped_count: skipped, tagging, detections },
            ),
            None => r matches Err(e) && e@ == "Import session not found"@,
        },
{
    match stored {
        Some((imported, skipped)) => Ok(
            ImportResults { imported_count: imported, skipped_count: skipped, tagging, detections },
        ),
        None => Err(String::from_str("Import session not found")),
    }
}

/// Query parameters for listing an import session's transactions.
#[derive(Debug)]
pub struct ImportTransactionsQuery {
    pub limit: i64,
    pub offset: i64,
}

/// Processing always ends with detection, tags before anything else is
/// derived, and normalizes merchant names exactly when an AI backend is
/// configured.
pub proof fn law_processing_phases(has_ai: bool)
    ensures
        spec_import_phases(has_ai).last() == ImportPhase::Detecting,
        spec_reprocess_phases(has_ai).last() == ImportPhase::Detecting,
        spec_import_phases(has_ai)[0] == ImportPhase::Tagging,
        spec_reprocess_phases(has_ai)[0] == ImportPhase::Clearing,
        spec_reprocess_phases(has_ai)[1] == ImportPhase::Tagging,
        spec_import_phases(has_ai).contains(ImportPhase::Normalizing) <==> has_ai,
        spec_reprocess_phases(has_ai).contains(ImportPhase::Normalizing) <==> has_ai,
{
    if has_ai {
        assert(spec_import_phases(has_ai)[1] == ImportPhase::Normalizing);
        assert(spec_reprocess_phases(has_ai)[2] == ImportPhase::Normalizing);
    } else {
        assert forall|i: int| 0 <= i < spec_import_phases(has_ai).len() implies spec_import_phases(
            has_ai,
        )[i] != ImportPhase::Normalizing by {}
        assert forall|i: int| 0 <= i < spec_reprocess_phases(has_ai).len() implies spec_reprocess_phases(
            has_ai,
        )[i] != ImportPhase::Normalizing by {}
    }
}

} // verus!
